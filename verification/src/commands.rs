//! Command-layer types and the pure parts of the command handlers: what the
//! host's front-end protocol exchanges with the engine. The transport
//! itself, file dialogs and persistence are the host's work.

pub mod ai;
pub mod audio;
pub mod color;
pub mod effects;
pub mod export;
pub mod image;
pub mod streaming;
pub mod utils;
pub mod video;

use vstd::prelude::*;
use crate::host;

verus! {

/// Standard result type for commands.
pub type CommandResult<T> = Result<T, String>;

/// An entire editing project, as the command layer exchanges it;
/// timestamps as Unix seconds.
#[derive(Debug)]
pub struct Project {
    pub id: String,
    pub name: String,
    pub path: std::path::PathBuf,
    pub created_at: i64,
    pub modified_at: i64,
    pub timeline: Option<Timeline>,
    pub layers: Vec<Layer>,
    pub settings: ProjectSettings,
}

/// A timeline for video editing; duration in fixed-point seconds.
#[derive(Debug)]
pub struct Timeline {
    pub id: String,
    pub tracks: Vec<Track>,
    pub duration: i64,
    pub fps: u32,
}

/// One video or audio track on the timeline.
#[derive(Debug)]
pub struct Track {
    pub id: String,
    pub track_type: TrackType,
    pub clips: Vec<Clip>,
    pub locked: bool,
    pub muted: bool,
}

/// The kind of a timeline track.
#[derive(Debug, Clone, Copy, PartialEq, Eq, Structural)]
pub enum TrackType {
    Video,
    Audio,
    Graphics,
    Text,
}

/// One clip on a timeline track; times in fixed-point seconds.
#[derive(Debug)]
pub struct Clip {
    pub id: String,
    pub source_path: std::path::PathBuf,
    pub start_time: i64,
    pub end_time: i64,
    pub duration: i64,
    pub offset: i64,
    pub effects: Vec<String>,
    pub transition_in: Option<String>,
    pub transition_out: Option<String>,
}

/// One image layer, as the command layer exchanges it.
#[derive(Debug)]
pub struct Layer {
    pub id: String,
    pub name: String,
    pub layer_type: LayerType,
    pub visible: bool,
    /// Opacity in fixed-point units of `1.0`.
    pub opacity: i64,
    pub blend_mode: String,
    pub transform: Transform,
    pub mask: Option<Mask>,
}

/// The content of an image layer.
#[derive(Debug)]
pub enum LayerType {
    Image { path: std::path::PathBuf },
    Adjustment { adjustment_type: String, params: serde_json::Value },
    Text { content: String, font: String, size: u32 },
    Vector { shapes: Vec<serde_json::Value> },
    Smart { source: Box<Layer> },
}

/// Transformation properties, in fixed-point units.
#[derive(Debug, Clone)]
pub struct Transform {
    pub x: i64,
    pub y: i64,
    pub scale_x: i64,
    pub scale_y: i64,
    pub rotation: i64,
    pub skew_x: i64,
    pub skew_y: i64,
}

impl Default for Transform {
    /// The identity transform.
    fn default() -> (r: Self)
        ensures
            r.x == 0 && r.y == 0,
            r.scale_x == crate::fixed::SCALE && r.scale_y == crate::fixed::SCALE,
            r.rotation == 0 && r.skew_x == 0 && r.skew_y == 0,
    {
        Transform {
            x: 0,
            y: 0,
            scale_x: crate::fixed::SCALE,
            scale_y: crate::fixed::SCALE,
            rotation: 0,
            skew_x: 0,
            skew_y: 0,
        }
    }
}

/// A mask for selective editing; the feather radius in fixed-point units.
#[derive(Debug)]
pub struct Mask {
    pub mask_type: MaskType,
    pub inverted: bool,
    pub feather: i64,
}

/// The geometry of a mask, in fixed-point units.
#[derive(Debug)]
pub enum MaskType {
    Rectangle { x: i64, y: i64, width: i64, height: i64 },
    Ellipse { x: i64, y: i64, width: i64, height: i64 },
    Path { points: Vec<(i64, i64)> },
    Bitmap { data: Vec<u8> },
}

/// Project settings, as the command layer exchanges them.
#[derive(Debug, Clone)]
pub struct ProjectSettings {
    pub width: u32,
    pub height: u32,
    pub fps: u32,
    pub sample_rate: u32,
    pub color_space: String,
}

impl Default for ProjectSettings {
    /// Full HD at 30 frames per second in sRGB.
    fn default() -> (r: Self)
        ensures
            r.width == 1920,
            r.height == 1080,
            r.fps == 30,
            r.sample_rate == 48000,
            r.color_space@ == "sRGB"@,
    {
        ProjectSettings {
            width: 1920,
            height: 1080,
            fps: 30,
            sample_rate: 48000,
            color_space: "sRGB".to_owned(),
        }
    }
}

/// Creates a new project: a fresh id, the clock's timestamps, no timeline,
/// no layers, the given or default settings.
pub fn create_new_project(name: String, settings: Option<ProjectSettings>)
    -> (r: CommandResult<Project>)
    ensures
        r is Ok,
        r.unwrap().id@.len() == 36,
        r.unwrap().name == name,
        r.unwrap().timeline is None,
        r.unwrap().layers@.len() == 0,
        settings is Some ==> r.unwrap().settings == settings.unwrap(),
        settings is None ==> r.unwrap().settings.width == 1920
            && r.unwrap().settings.height == 1080 && r.unwrap().settings.fps == 30,
{
    let settings = match settings {
        Some(s) => s,
        None => ProjectSettings::default(),
    };
    Ok(Project {
        id: host::new_id(),
        name,
        path: host::path_new(),
        created_at: host::now_ts(),
        modified_at: host::now_ts(),
        timeline: None,
        layers: Vec::new(),
        settings,
    })
}

} // verus!
