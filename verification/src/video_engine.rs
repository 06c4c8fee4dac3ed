//! Video-side records and preview plumbing: clip metadata, the frame
//! processor, the encoder configuration, proxy generation and a bounded
//! frame cache. Probing, decoding and encoding media are the host's work.

use vstd::prelude::*;
use crate::utils::str_eq;

verus! {

/// Metadata of one video clip; duration and frame rate in fixed-point units.
#[derive(Debug)]
pub struct VideoClip {
    pub path: std::path::PathBuf,
    pub duration: i64,
    pub fps: i64,
    pub width: u32,
    pub height: u32,
    pub has_audio: bool,
}

impl VideoClip {
    /// Records a clip for a media file with the advertised metadata;
    /// probing the real container is the host's work.
    pub fn load(path: std::path::PathBuf) -> (r: Result<Self, String>)
        ensures
            r is Ok,
            r.unwrap().path == path,
            r.unwrap().duration == 120 * crate::fixed::SCALE,
            r.unwrap().fps == 30 * crate::fixed::SCALE,
            r.unwrap().width == 1920 && r.unwrap().height == 1080,
            r.unwrap().has_audio,
    {
        Ok(VideoClip {
            path,
            duration: 120 * crate::fixed::SCALE,
            fps: 30 * crate::fixed::SCALE,
            width: 1920,
            height: 1080,
            has_audio: true,
        })
    }

    /// Gets a frame at a timestamp. Seeking and decoding are the host's
    /// work; no pixels are produced here.
    pub fn get_frame(&self, _timestamp: i64) -> (r: Result<Vec<u8>, String>)
        ensures
            r is Ok,
            r.unwrap()@.len() == 0,
    {
        Ok(Vec::new())
    }
}

/// A frame processor bound to an output size and rate.
pub struct VideoProcessor {
    width: u32,
    height: u32,
    fps: u32,
}

impl VideoProcessor {
    /// The bound output width.
    pub closed spec fn spec_width(&self) -> u32 {
        self.width
    }

    /// The bound output height.
    pub closed spec fn spec_height(&self) -> u32 {
        self.height
    }

    /// The bound output frame rate.
    pub closed spec fn spec_fps(&self) -> u32 {
        self.fps
    }

    /// Creates a processor for the given output size and rate.
    pub fn new(width: u32, height: u32, fps: u32) -> (r: Self)
        ensures
            r.spec_width() == width,
            r.spec_height() == height,
            r.spec_fps() == fps,
    {
        VideoProcessor { width, height, fps }
    }

    /// Renders a timeline frame at a timestamp: a transparent RGBA buffer of
    /// the bound size; compositing decoded clips into it is the host's work.
    pub fn render_frame(&self, _timestamp: i64) -> (r: Result<Vec<u8>, String>)
        requires
            self.spec_width() * self.spec_height() <= 0x400_0000,
        ensures
            r is Ok,
            r.unwrap()@.len() == self.spec_width() * self.spec_height() * 4,
            forall|i: int| 0 <= i < r.unwrap()@.len() ==> r.unwrap()@[i] == 0,
    {
        proof {
            assert((self.width as usize) * (self.height as usize)
                    == (self.width as nat) * (self.height as nat)
                && ((self.width as nat) * (self.height as nat)) * 4
                    == (self.width * self.height * 4) as nat) by (nonlinear_arith)
                requires self.width * self.height <= 0x400_0000;
        }
        let pixels: usize = (self.width as usize) * (self.height as usize);
        let buf = crate::renderer::solid_frame(pixels, (0, 0, 0, 0));
        Ok(buf)
    }

    /// Applies a video effect to a frame. The effect kernels run in the
    /// host's raster pipeline; the frame passes through unchanged here.
    pub fn apply_effect(&self, frame: &[u8], _effect_type: &str, _params: &serde_json::Value)
        -> (r: Result<Vec<u8>, String>)
        ensures
            r is Ok,
            r.unwrap()@ == frame@,
    {
        let mut out: Vec<u8> = Vec::new();
        let n = frame.len();
        let mut i: usize = 0;
        while i < n
            invariant
                n == frame@.len(),
                i <= n,
                out@ == frame@.subrange(0, i as int),
            decreases n - i,
        {
            out.push(frame[i]);
            proof {
                assert(out@ =~= frame@.subrange(0, i + 1));
            }
            i = i + 1;
        }
        proof {
            assert(frame@.subrange(0, n as int) =~= frame@);
        }
        Ok(out)
    }
}

/// Encoder configuration for exporting.
pub struct VideoEncoder {
    codec: String,
    bitrate: u32,
    preset: String,
}

impl VideoEncoder {
    /// The configured codec name.
    pub closed spec fn spec_codec(&self) -> Seq<char> {
        self.codec@
    }

    /// The configured bitrate, in kilobits per second.
    pub closed spec fn spec_bitrate(&self) -> u32 {
        self.bitrate
    }

    /// Creates an encoder configuration.
    pub fn new(codec: String, bitrate: u32, preset: String) -> (r: Self)
        ensures
            r.spec_codec() == codec@,
            r.spec_bitrate() == bitrate,
    {
        VideoEncoder { codec, bitrate, preset }
    }

    /// Encodes a frame sequence to a file. Running the codec and writing
    /// the container are the host's work; accepting the job never fails.
    pub fn encode(&self, _frames: Vec<Vec<u8>>, _output_path: std::path::PathBuf, _fps: u32)
        -> (r: Result<(), String>)
        ensures
            r is Ok,
    {
        Ok(())
    }
}

/// Proxy generation for smooth editing.
pub struct ProxyGenerator;

impl ProxyGenerator {
    /// Generates a lower-resolution proxy. Transcoding is the host's work;
    /// accepting the job never fails.
    pub fn generate_proxy(
        _source: &std::path::PathBuf,
        _resolution: (u32, u32),
        _output: &std::path::PathBuf,
    ) -> (r: Result<(), String>)
        ensures
            r is Ok,
    {
        Ok(())
    }
}

/// The position of the entry stored under the given key.
pub open spec fn spec_cache_index(entries: Seq<(String, Vec<u8>)>, key: Seq<char>) -> Option<int>
    decreases entries.len(),
{
    if entries.len() == 0 {
        None
    } else if entries[0].0@ == key {
        Some(0)
    } else {
        match spec_cache_index(entries.drop_first(), key) {
            Some(i) => Some(i + 1),
            None => None,
        }
    }
}

/// A found cache index is in range and holds the key.
pub proof fn lemma_cache_index_valid(entries: Seq<(String, Vec<u8>)>, key: Seq<char>)
    requires
        spec_cache_index(entries, key) is Some,
    ensures
        0 <= spec_cache_index(entries, key).unwrap() < entries.len(),
        entries[spec_cache_index(entries, key).unwrap()].0@ == key,
    decreases entries.len(),
{
    if entries.len() > 0 && entries[0].0@ != key {
        lemma_cache_index_valid(entries.drop_first(), key);
    }
}

/// A key without an index is on no entry.
proof fn lemma_cache_index_none(entries: Seq<(String, Vec<u8>)>, key: Seq<char>)
    requires
        spec_cache_index(entries, key) is None,
    ensures
        forall|j: int| 0 <= j < entries.len() ==> (#[trigger] entries[j].0)@ != key,
    decreases entries.len(),
{
    if entries.len() > 0 {
        lemma_cache_index_none(entries.drop_first(), key);
        assert forall|j: int| 0 <= j < entries.len()
            implies (#[trigger] entries[j].0)@ != key by {
            if j > 0 {
                assert(entries.drop_first()[j - 1] == entries[j]);
            }
        }
    }
}

/// Appending a fresh key indexes it at the end.
proof fn lemma_cache_index_push(entries: Seq<(String, Vec<u8>)>, entry: (String, Vec<u8>))
    requires
        forall|j: int| 0 <= j < entries.len() ==> (#[trigger] entries[j].0)@ != entry.0@,
    ensures
        spec_cache_index(entries.push(entry), entry.0@) == Some(entries.len() as int),
    decreases entries.len(),
{
    let full = entries.push(entry);
    if entries.len() == 0 {
        assert(full[0] == entry);
    } else {
        assert(full[0] == entries[0]);
        assert(full.drop_first() =~= entries.drop_first().push(entry));
        assert forall|j: int| 0 <= j < entries.drop_first().len()
            implies (#[trigger] entries.drop_first()[j].0)@ != entry.0@ by {
            assert(entries.drop_first()[j] == entries[j + 1]);
        }
        lemma_cache_index_push(entries.drop_first(), entry);
    }
}

/// A bounded frame cache for instant preview, keyed by frame id, one entry
/// per key: inserting under a stored key replaces that entry, and a full
/// cache retires its oldest entry before admitting a new key.
pub struct FrameCache {
    entries: Vec<(String, Vec<u8>)>,
    max_size: usize,
}

impl FrameCache {
    /// The cached entries, oldest first.
    pub closed spec fn spec_entries(&self) -> Seq<(String, Vec<u8>)> {
        self.entries@
    }

    /// The configured capacity.
    pub closed spec fn spec_max_size(&self) -> usize {
        self.max_size
    }

    /// The cache invariant: every key is stored at most once.
    pub open spec fn wf(&self) -> bool {
        forall|i: int, j: int|
            #![trigger self.spec_entries()[i].0, self.spec_entries()[j].0]
            0 <= i < j < self.spec_entries().len()
            ==> self.spec_entries()[i].0@ != self.spec_entries()[j].0@
    }

    /// Creates an empty cache with the given capacity.
    pub fn new(max_size: usize) -> (r: Self)
        ensures
            r.wf(),
            r.spec_entries().len() == 0,
            r.spec_max_size() == max_size,
    {
        FrameCache { entries: Vec::new(), max_size }
    }

    /// Gets the frame stored under a key.
    pub fn get(&self, key: &str) -> (r: Option<&Vec<u8>>)
        ensures
            match r {
                Some(f) => spec_cache_index(self.spec_entries(), key@) is Some
                    && *f == self.spec_entries()[
                        spec_cache_index(self.spec_entries(), key@).unwrap()].1,
                None => spec_cache_index(self.spec_entries(), key@) is None,
            },
    {
        let n = self.entries.len();
        let mut i: usize = 0;
        proof {
            assert(self.entries@.skip(0) =~= self.entries@);
        }
        while i < n
            invariant
                n == self.entries@.len(),
                i <= n,
                spec_cache_index(self.entries@, key@) == match spec_cache_index(
                    self.entries@.skip(i as int), key@) {
                    Some(j) => Some(j + i),
                    None => None::<int>,
                },
            decreases n - i,
        {
            let ghost rest = self.entries@.skip(i as int);
            proof {
                assert(rest[0] == self.entries@[i as int]);
            }
            if str_eq(self.entries[i].0.as_str(), key) {
                return Some(&self.entries[i].1);
            }
            i = i + 1;
            proof {
                assert(rest.drop_first() =~= self.entries@.skip(i as int));
            }
        }
        proof {
            assert(self.entries@.skip(n as int).len() == 0);
        }
        None
    }

    /// Inserts a frame under a key. A key already stored has its entry
    /// replaced (removed, then appended fresh); otherwise a cache at
    /// capacity retires its oldest entry first, and the new entry goes to
    /// the back. Afterwards the key is stored exactly once, at the back,
    /// with this frame.
    #[verifier::rlimit(100)]
    pub fn insert(&mut self, key: String, frame: Vec<u8>)
        requires
            old(self).wf(),
        ensures
            final(self).wf(),
            final(self).spec_max_size() == old(self).spec_max_size(),
            ({
                let pruned = match spec_cache_index(old(self).spec_entries(), key@) {
                    Some(i) => old(self).spec_entries().remove(i),
                    None => old(self).spec_entries(),
                };
                let based = if pruned.len() >= old(self).spec_max_size() && pruned.len() > 0 {
                    pruned.drop_first()
                } else {
                    pruned
                };
                final(self).spec_entries() == based.push((key, frame))
            }),
            spec_cache_index(final(self).spec_entries(), key@)
                == Some(final(self).spec_entries().len() - 1),
            final(self).spec_entries().last() == (key, frame),
    {
        let ghost old_entries = self.entries@;
        // Replace semantics: drop any entry already stored under the key.
        let n = self.entries.len();
        let mut i: usize = 0;
        let mut found: bool = false;
        proof {
            assert(self.entries@.skip(0) =~= self.entries@);
        }
        while i < n && !found
            invariant
                n == old_entries.len(),
                i <= n,
                !found ==> self.entries@ == old_entries,
                !found ==> spec_cache_index(old_entries, key@) == match spec_cache_index(
                    old_entries.skip(i as int), key@) {
                    Some(j) => Some(j + i),
                    None => None::<int>,
                },
                found ==> i < n && spec_cache_index(old_entries, key@) == Some(i as int)
                    && self.entries@ == old_entries.remove(i as int),
                self.max_size == old(self).max_size,
            decreases n - i, (if found { 0int } else { 1int }),
        {
            let ghost rest = old_entries.skip(i as int);
            proof {
                assert(rest[0] == old_entries[i as int]);
            }
            if str_eq(self.entries[i].0.as_str(), key.as_str()) {
                let _replaced = self.entries.remove(i);
                found = true;
                proof {
                    assert(self.entries@ =~= old_entries.remove(i as int));
                }
            } else {
                i = i + 1;
                proof {
                    assert(rest.drop_first() =~= old_entries.skip(i as int));
                }
            }
        }
        proof {
            if !found {
                assert(old_entries.skip(n as int).len() == 0);
            }
        }
        let ghost pruned = self.entries@;
        proof {
            assert forall|a: int, b: int|
                #![trigger pruned[a].0, pruned[b].0]
                0 <= a < b < pruned.len()
                implies pruned[a].0@ != pruned[b].0@ by {
                if found {
                    assert(pruned == old_entries.remove(i as int));
                } else {
                    assert(pruned == old_entries);
                }
            }
            assert forall|j: int| 0 <= j < pruned.len()
                implies (#[trigger] pruned[j].0)@ != key@ by {
                if found {
                    lemma_cache_index_valid(old_entries, key@);
                    if j < i {
                        assert(pruned[j] == old_entries[j]);
                        lemma_cache_index_first(old_entries, key@, j);
                    } else {
                        assert(pruned[j] == old_entries[j + 1]);
                    }
                } else {
                    lemma_cache_index_none(old_entries, key@);
                }
            }
        }
        // A cache at capacity retires its oldest entry before a new key.
        if self.entries.len() >= self.max_size && self.entries.len() > 0 {
            let _evicted = self.entries.remove(0);
            proof {
                assert(self.entries@ =~= pruned.drop_first());
            }
        }
        let ghost based = self.entries@;
        proof {
            assert forall|j: int| 0 <= j < based.len()
                implies (#[trigger] based[j].0)@ != key@ by {
                if based.len() < pruned.len() {
                    assert(based[j] == pruned[j + 1]);
                }
            }
            assert forall|a: int, b: int|
                #![trigger based[a].0, based[b].0]
                0 <= a < b < based.len()
                implies based[a].0@ != based[b].0@ by {
                if based.len() < pruned.len() {
                    assert(based[a] == pruned[a + 1] && based[b] == pruned[b + 1]);
                }
            }
            lemma_cache_index_push(based, (key, frame));
        }
        self.entries.push((key, frame));
    }
}

/// Entries before the found index do not hold the key.
proof fn lemma_cache_index_first(entries: Seq<(String, Vec<u8>)>, key: Seq<char>, j: int)
    requires
        spec_cache_index(entries, key) is Some,
        0 <= j < spec_cache_index(entries, key).unwrap(),
    ensures
        entries[j].0@ != key,
    decreases entries.len(),
{
    lemma_cache_index_valid(entries, key);
    if entries[0].0@ == key {
        assert(spec_cache_index(entries, key) == Some(0int));
    } else if j > 0 {
        assert(entries.drop_first()[j - 1] == entries[j]);
        lemma_cache_index_first(entries.drop_first(), key, j - 1);
    }
}

/// One clip placed on a timeline track; times in fixed-point seconds.
#[derive(Debug)]
pub struct ClipInstance {
    pub clip: VideoClip,
    pub start_time: i64,
    pub end_time: i64,
    pub offset: i64,
}

/// One track of the timeline compositor.
#[derive(Debug)]
pub struct CompositorTrack {
    pub clips: Vec<ClipInstance>,
    pub enabled: bool,
}

/// Whether the clip at `(ti, ci)` is active at `t`: its track enabled and
/// `t` inside its half-open extent.
pub open spec fn spec_clip_active(tracks: Seq<CompositorTrack>, t: int, ti: int, ci: int) -> bool {
    0 <= ti < tracks.len() && tracks[ti].enabled
        && 0 <= ci < tracks[ti].clips@.len()
        && tracks[ti].clips@[ci].start_time <= t < tracks[ti].clips@[ci].end_time
}

/// Combines timeline tracks into frames; the decoding and blending are the
/// host's work, the active-clip resolution lives here.
pub struct TimelineCompositor {
    tracks: Vec<CompositorTrack>,
}

impl TimelineCompositor {
    /// The tracks, in paint order.
    pub closed spec fn spec_tracks(&self) -> Seq<CompositorTrack> {
        self.tracks@
    }

    /// Creates a compositor with no tracks.
    pub fn new() -> (r: Self)
        ensures
            r.spec_tracks().len() == 0,
    {
        TimelineCompositor { tracks: Vec::new() }
    }

    /// Adds an empty enabled track and returns its index.
    pub fn add_track(&mut self) -> (r: usize)
        ensures
            r == old(self).spec_tracks().len(),
            final(self).spec_tracks().len() == old(self).spec_tracks().len() + 1,
            final(self).spec_tracks().subrange(0, old(self).spec_tracks().len() as int)
                == old(self).spec_tracks(),
            final(self).spec_tracks().last().enabled,
            final(self).spec_tracks().last().clips@.len() == 0,
    {
        self.tracks.push(CompositorTrack { clips: Vec::new(), enabled: true });
        proof {
            assert(final(self).tracks@.subrange(0, old(self).tracks@.len() as int)
                =~= old(self).tracks@);
        }
        self.tracks.len() - 1
    }

    /// Adds a clip to a track; an out-of-range track index leaves the
    /// compositor unchanged.
    pub fn add_clip(&mut self, track_index: usize, clip: ClipInstance)
        ensures
            track_index >= old(self).spec_tracks().len()
                ==> final(self).spec_tracks() == old(self).spec_tracks(),
            track_index < old(self).spec_tracks().len()
                ==> final(self).spec_tracks().len() == old(self).spec_tracks().len()
                    && final(self).spec_tracks()[track_index as int].clips@
                        == old(self).spec_tracks()[track_index as int].clips@.push(clip)
                    && forall|j: int| 0 <= j < old(self).spec_tracks().len() && j != track_index
                        ==> final(self).spec_tracks()[j] == old(self).spec_tracks()[j],
    {
        let n = self.tracks.len();
        if track_index < n {
            let mut track = self.tracks.remove(track_index);
            track.clips.push(clip);
            self.tracks.insert(track_index, track);
            proof {
                assert forall|j: int| 0 <= j < old(self).tracks@.len() && j != track_index
                    implies final(self).tracks@[j] == old(self).tracks@[j] by {
                }
            }
        }
    }

    /// Gets every clip active at a timestamp, as `(track, clip)` index
    /// pairs in ascending track-then-clip order: exactly those clips on
    /// enabled tracks whose extent contains the timestamp.
    pub fn get_active_clips(&self, timestamp: i64) -> (r: Vec<(usize, usize)>)
        ensures
            forall|k: int| 0 <= k < r@.len()
                ==> spec_clip_active(self.spec_tracks(), timestamp as int,
                    (#[trigger] r@[k]).0 as int, r@[k].1 as int),
            forall|ti: int, ci: int|
                spec_clip_active(self.spec_tracks(), timestamp as int, ti, ci)
                ==> #[trigger] r@.contains((ti as usize, ci as usize)),
            forall|k1: int, k2: int| 0 <= k1 < k2 < r@.len()
                ==> ((#[trigger] r@[k1]).0 < (#[trigger] r@[k2]).0
                    || (r@[k1].0 == r@[k2].0 && r@[k1].1 < r@[k2].1)),
    {
        let mut out: Vec<(usize, usize)> = Vec::new();
        let n = self.tracks.len();
        let mut ti: usize = 0;
        while ti < n
            invariant
                n == self.tracks@.len(),
                ti <= n,
                forall|k: int| 0 <= k < out@.len()
                    ==> spec_clip_active(self.tracks@, timestamp as int,
                        (#[trigger] out@[k]).0 as int, out@[k].1 as int)
                        && (out@[k].0 as int) < ti,
                forall|tj: int, cj: int|
                    tj < ti && spec_clip_active(self.tracks@, timestamp as int, tj, cj)
                    ==> #[trigger] out@.contains((tj as usize, cj as usize)),
                forall|k1: int, k2: int| 0 <= k1 < k2 < out@.len()
                    ==> ((#[trigger] out@[k1]).0 < (#[trigger] out@[k2]).0
                        || (out@[k1].0 == out@[k2].0 && out@[k1].1 < out@[k2].1)),
            decreases n - ti,
        {
            if self.tracks[ti].enabled {
                let m = self.tracks[ti].clips.len();
                let mut ci: usize = 0;
                while ci < m
                    invariant
                        n == self.tracks@.len(),
                        ti < n,
                        m == self.tracks@[ti as int].clips@.len(),
                        ci <= m,
                        self.tracks@[ti as int].enabled,
                        forall|k: int| 0 <= k < out@.len()
                            ==> spec_clip_active(self.tracks@, timestamp as int,
                                (#[trigger] out@[k]).0 as int, out@[k].1 as int)
                                && ((out@[k].0 as int) < ti
                                    || (out@[k].0 as int == ti && (out@[k].1 as int) < ci)),
                        forall|tj: int, cj: int|
                            tj < ti && spec_clip_active(self.tracks@, timestamp as int, tj, cj)
                            ==> #[trigger] out@.contains((tj as usize, cj as usize)),
                        forall|cj: int|
                            cj < ci && spec_clip_active(self.tracks@, timestamp as int, ti as int, cj)
                            ==> #[trigger] out@.contains((ti, cj as usize)),
                        forall|k1: int, k2: int| 0 <= k1 < k2 < out@.len()
                            ==> ((#[trigger] out@[k1]).0 < (#[trigger] out@[k2]).0
                                || (out@[k1].0 == out@[k2].0 && out@[k1].1 < out@[k2].1)),
                    decreases m - ci,
                {
                    let c = &self.tracks[ti].clips[ci];
                    if c.start_time <= timestamp && timestamp < c.end_time {
                        let ghost pre = out@;
                        out.push((ti, ci));
                        proof {
                            assert(out@.drop_last() =~= pre);
                            assert forall|tj: int, cj: int|
                                tj < ti && spec_clip_active(self.tracks@, timestamp as int, tj, cj)
                                implies #[trigger] out@.contains((tj as usize, cj as usize)) by {
                                assert(pre.contains((tj as usize, cj as usize)));
                                let w = choose|w: int| 0 <= w < pre.len()
                                    && pre[w] == (tj as usize, cj as usize);
                                assert(out@[w] == (tj as usize, cj as usize));
                            }
                            assert forall|cj: int|
                                cj < ci + 1
                                    && spec_clip_active(self.tracks@, timestamp as int, ti as int, cj)
                                implies #[trigger] out@.contains((ti, cj as usize)) by {
                                if cj < ci {
                                    assert(pre.contains((ti, cj as usize)));
                                    let w = choose|w: int| 0 <= w < pre.len()
                                        && pre[w] == (ti, cj as usize);
                                    assert(out@[w] == (ti, cj as usize));
                                } else {
                                    assert(out@[out@.len() - 1] == (ti, ci));
                                }
                            }
                        }
                    }
                    ci = ci + 1;
                }
            }
            ti = ti + 1;
        }
        proof {
            assert forall|tj: int, cj: int|
                spec_clip_active(self.tracks@, timestamp as int, tj, cj)
                implies #[trigger] out@.contains((tj as usize, cj as usize)) by {
                assert(tj < n);
            }
        }
        out
    }
}

} // verus!
