//! Project management records and auto-save bookkeeping. Serializing a
//! project to disk and reading it back are the host's work.

use vstd::prelude::*;
use crate::host;
use crate::utils::str_eq;

verus! {

/// Persistent project settings.
#[derive(Debug, Clone)]
pub struct ProjectSettings {
    pub width: u32,
    pub height: u32,
    pub fps: u32,
    pub sample_rate: u32,
    pub color_space: String,
    pub working_color_space: String,
}

impl Default for ProjectSettings {
    /// Full HD at 30 frames per second, sRGB working in linear light.
    fn default() -> (r: Self)
        ensures
            r.width == 1920,
            r.height == 1080,
            r.fps == 30,
            r.sample_rate == 48000,
            r.color_space@ == "sRGB"@,
            r.working_color_space@ == "Linear"@,
    {
        ProjectSettings {
            width: 1920,
            height: 1080,
            fps: 30,
            sample_rate: 48000,
            color_space: "sRGB".to_owned(),
            working_color_space: "Linear".to_owned(),
        }
    }
}

/// The kind of a timeline track.
#[derive(Debug, Clone, Copy, PartialEq, Eq, Structural)]
pub enum TrackType {
    Video,
    Audio,
    Graphics,
    Text,
}

/// One clip on a timeline track; times in fixed-point seconds.
#[derive(Debug, Clone)]
pub struct Clip {
    pub id: String,
    pub asset_id: String,
    pub start_time: i64,
    pub end_time: i64,
    pub offset: i64,
    pub effects: Vec<String>,
}

/// One track of a timeline.
#[derive(Debug, Clone)]
pub struct Track {
    pub id: String,
    pub name: String,
    pub track_type: TrackType,
    pub clips: Vec<Clip>,
    pub locked: bool,
    pub visible: bool,
}

/// A video timeline; duration in fixed-point seconds.
#[derive(Debug, Clone)]
pub struct Timeline {
    pub id: String,
    pub duration: i64,
    pub tracks: Vec<Track>,
}

/// One layer of a still-image composition.
#[derive(Debug)]
pub struct Layer {
    pub id: String,
    pub name: String,
    pub layer_type: LayerType,
    pub visible: bool,
    /// Opacity in fixed-point units of `1.0`.
    pub opacity: i64,
    pub blend_mode: String,
}

/// The content of a still-image layer.
#[derive(Debug)]
pub enum LayerType {
    Image { asset_id: String },
    Adjustment { params: serde_json::Value },
    Text { content: String },
    Vector { shapes: Vec<serde_json::Value> },
}

/// A still-image composition.
#[derive(Debug)]
pub struct ImageComposition {
    pub id: String,
    pub layers: Vec<Layer>,
}

/// The kind of an imported asset.
#[derive(Debug, Clone, Copy, PartialEq, Eq, Structural)]
pub enum AssetType {
    Video,
    Audio,
    Image,
    Sequence,
}

/// Metadata of an imported asset; the frame rate in fixed-point units.
#[derive(Debug, Clone)]
pub struct AssetMetadata {
    pub width: Option<u32>,
    pub height: Option<u32>,
    pub fps: Option<i64>,
    pub codec: Option<String>,
    pub tags: Vec<String>,
}

/// An imported media asset.
#[derive(Debug)]
pub struct Asset {
    pub id: String,
    pub name: String,
    pub path: std::path::PathBuf,
    pub asset_type: AssetType,
    /// Duration in fixed-point seconds.
    pub duration: Option<i64>,
    pub metadata: AssetMetadata,
}

/// The first asset with the given id.
pub open spec fn spec_asset_lookup(assets: Seq<Asset>, id: Seq<char>) -> Option<int>
    decreases assets.len(),
{
    if assets.len() == 0 {
        None
    } else if assets[0].id@ == id {
        Some(0)
    } else {
        match spec_asset_lookup(assets.drop_first(), id) {
            Some(i) => Some(i + 1),
            None => None,
        }
    }
}

/// The main project structure; timestamps as Unix seconds.
#[derive(Debug)]
pub struct Project {
    pub id: String,
    pub name: String,
    pub path: std::path::PathBuf,
    pub created_at: i64,
    pub modified_at: i64,
    pub version: String,
    pub settings: ProjectSettings,
    pub timeline: Option<Timeline>,
    pub image_composition: Option<ImageComposition>,
    pub assets: Vec<Asset>,
}

impl Project {
    /// Creates a new empty project: a fresh id, the clock's timestamps,
    /// default settings, no timeline, no composition, no assets.
    pub fn new(name: String) -> (r: Self)
        ensures
            r.id@.len() == 36,
            r.name == name,
            r.version@ == "1.0.0"@,
            r.timeline is None,
            r.image_composition is None,
            r.assets@.len() == 0,
            r.settings.width == 1920 && r.settings.height == 1080 && r.settings.fps == 30,
    {
        Project {
            id: host::new_id(),
            name,
            path: host::path_new(),
            created_at: host::now_ts(),
            modified_at: host::now_ts(),
            version: "1.0.0".to_owned(),
            settings: ProjectSettings::default(),
            timeline: None,
            image_composition: None,
            assets: Vec::new(),
        }
    }

    /// Adds an asset to the project and touches the modification time.
    pub fn add_asset(&mut self, asset: Asset)
        ensures
            final(self).assets@ == old(self).assets@.push(asset),
            final(self).id == old(self).id,
            final(self).name == old(self).name,
            final(self).timeline == old(self).timeline,
    {
        self.assets.push(asset);
        self.modified_at = host::now_ts();
    }

    /// Removes every asset with the given id and touches the modification
    /// time; the others keep their order.
    pub fn remove_asset(&mut self, asset_id: &str)
        ensures
            forall|j: int| 0 <= j < final(self).assets@.len()
                ==> (#[trigger] final(self).assets@[j].id@) != asset_id@,
            final(self).assets@.len() <= old(self).assets@.len(),
            final(self).id == old(self).id,
            final(self).name == old(self).name,
    {
        let mut kept: Vec<Asset> = Vec::new();
        while self.assets.len() > 0
            invariant
                forall|j: int| 0 <= j < kept@.len()
                    ==> (#[trigger] kept@[j].id@) != asset_id@,
                kept@.len() + self.assets@.len() <= old(self).assets@.len(),
                self.id == old(self).id,
                self.name == old(self).name,
            decreases self.assets@.len(),
        {
            let a = self.assets.remove(0);
            if !str_eq(a.id.as_str(), asset_id) {
                kept.push(a);
            }
        }
        self.assets = kept;
        self.modified_at = host::now_ts();
    }

    /// Gets an asset by id.
    pub fn get_asset(&self, asset_id: &str) -> (r: Option<&Asset>)
        ensures
            match r {
                Some(a) => spec_asset_lookup(self.assets@, asset_id@) is Some
                    && *a == self.assets@[spec_asset_lookup(self.assets@, asset_id@).unwrap()],
                None => spec_asset_lookup(self.assets@, asset_id@) is None,
            },
    {
        let n = self.assets.len();
        let mut i: usize = 0;
        proof {
            assert(self.assets@.skip(0) =~= self.assets@);
        }
        while i < n
            invariant
                n == self.assets@.len(),
                i <= n,
                spec_asset_lookup(self.assets@, asset_id@) == match spec_asset_lookup(
                    self.assets@.skip(i as int), asset_id@) {
                    Some(j) => Some(j + i),
                    None => None::<int>,
                },
            decreases n - i,
        {
            let ghost rest = self.assets@.skip(i as int);
            proof {
                assert(rest[0] == self.assets@[i as int]);
            }
            if str_eq(self.assets[i].id.as_str(), asset_id) {
                return Some(&self.assets[i]);
            }
            i = i + 1;
            proof {
                assert(rest.drop_first() =~= self.assets@.skip(i as int));
            }
        }
        proof {
            assert(self.assets@.skip(n as int).len() == 0);
        }
        None
    }
}

/// Auto-save bookkeeping: how often to save and when the last save was.
pub struct AutoSaveManager {
    interval_seconds: u64,
    last_save: std::time::Instant,
}

impl AutoSaveManager {
    /// The configured interval, in seconds.
    pub closed spec fn spec_interval(&self) -> u64 {
        self.interval_seconds
    }

    /// Creates a manager that wants a save every `interval_seconds`.
    pub fn new(interval_seconds: u64) -> (r: Self)
        ensures
            r.spec_interval() == interval_seconds,
    {
        AutoSaveManager { interval_seconds, last_save: host::now_instant() }
    }

    /// Whether a given elapsed time reaches the configured interval: the
    /// threshold decision of [`Self::should_save`], over the elapsed
    /// nanoseconds as a plain value.
    pub fn interval_elapsed(&self, elapsed_nanos: u128) -> (r: bool)
        ensures
            r == (elapsed_nanos >= self.spec_interval() * 1_000_000_000),
    {
        proof {
            assert((self.interval_seconds as int) * 1_000_000_000
                <= 0xFFFF_FFFF_FFFF_FFFFu64 * 1_000_000_000) by (nonlinear_arith)
                requires self.interval_seconds <= 0xFFFF_FFFF_FFFF_FFFFu64;
        }
        elapsed_nanos >= (self.interval_seconds as u128) * 1_000_000_000
    }

    /// Whether the interval has elapsed since the last save: the verified
    /// threshold decision applied to the clock's reading. Which reading
    /// comes back depends on the clock, so nothing is promised of the
    /// answer itself.
    pub fn should_save(&self) -> bool {
        let nanos = host::elapsed_nanos(&self.last_save);
        self.interval_elapsed(nanos)
    }

    /// Marks that a save has occurred now.
    pub fn mark_saved(&mut self)
        ensures
            final(self).spec_interval() == old(self).spec_interval(),
    {
        self.last_save = host::now_instant();
    }
}

} // verus!
