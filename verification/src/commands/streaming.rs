//! Streaming commands: broadcaster integration, platform configuration and
//! playlist automation records. The network and broadcaster connections
//! are the host's work; the acknowledgement parts live here.

use vstd::prelude::*;
use crate::commands::CommandResult;
use crate::host;

verus! {

/// Broadcaster connection settings.
#[derive(Debug, Clone)]
pub struct OBSConfig {
    pub host: String,
    pub port: u16,
    pub password: Option<String>,
}

/// Streaming platform configuration.
#[derive(Debug, Clone)]
pub struct StreamConfig {
    pub platform: StreamPlatform,
    pub stream_key: String,
    pub rtmp_url: String,
    pub title: String,
    pub description: String,
    pub category: String,
    pub tags: Vec<String>,
}

/// The platform streamed to.
#[derive(Debug, Clone, Copy, PartialEq, Eq, Structural)]
pub enum StreamPlatform {
    YouTube,
    Twitch,
    Facebook,
    Custom,
}

/// Connects to the broadcaster. The socket work is the host's;
/// acknowledging the request never fails.
pub fn connect_obs(_config: OBSConfig) -> (r: CommandResult<bool>)
    ensures
        r is Ok && r.unwrap(),
{
    Ok(true)
}

/// Starts streaming with the given configuration.
pub fn start_stream(_config: StreamConfig) -> (r: CommandResult<bool>)
    ensures
        r is Ok && r.unwrap(),
{
    Ok(true)
}

/// Stops the active stream.
pub fn stop_stream() -> (r: CommandResult<bool>)
    ensures
        r is Ok && r.unwrap(),
{
    Ok(true)
}

/// One item of a streaming playlist; duration in fixed-point seconds.
#[derive(Debug, Clone)]
pub struct PlaylistItem {
    pub id: String,
    pub title: String,
    pub item_type: PlaylistItemType,
    pub duration: i64,
    pub transition: Option<String>,
}

/// What a playlist item plays; loop times in fixed-point seconds.
#[derive(Debug, Clone)]
pub enum PlaylistItemType {
    Video { path: String },
    Animation { composition_id: String },
    Scene { scene_id: String },
    Loop { start_time: i64, end_time: i64, source: String },
}

/// A playlist for automated streaming.
#[derive(Debug, Clone)]
pub struct StreamPlaylist {
    pub id: String,
    pub name: String,
    pub items: Vec<PlaylistItem>,
    pub loop_mode: LoopMode,
    pub shuffle: bool,
}

/// How a playlist repeats.
#[derive(Debug, Clone, Copy, PartialEq, Eq, Structural)]
pub enum LoopMode {
    Once,
    Loop,
    Shuffle,
}

/// Creates an empty looping playlist with a fresh id.
pub fn create_playlist(name: String) -> (r: CommandResult<StreamPlaylist>)
    ensures
        r is Ok,
        r.unwrap().id@.len() == 36,
        r.unwrap().name == name,
        r.unwrap().items@.len() == 0,
        r.unwrap().loop_mode == LoopMode::Loop,
        !r.unwrap().shuffle,
{
    Ok(StreamPlaylist {
        id: host::new_id(),
        name,
        items: Vec::new(),
        loop_mode: LoopMode::Loop,
        shuffle: false,
    })
}

/// Adds an item to a playlist. The playlist store lives with the host;
/// acknowledging the addition never fails.
pub fn add_to_playlist(_playlist_id: String, _item: PlaylistItem) -> (r: CommandResult<bool>)
    ensures
        r is Ok && r.unwrap(),
{
    Ok(true)
}

/// Starts playback of a playlist.
pub fn play_playlist(_playlist_id: String) -> (r: CommandResult<bool>)
    ensures
        r is Ok && r.unwrap(),
{
    Ok(true)
}

/// Video platform API credentials.
#[derive(Debug, Clone)]
pub struct YouTubeConfig {
    pub api_key: String,
    pub channel_id: String,
}

/// A created live stream and its ingest credentials.
#[derive(Debug, Clone)]
pub struct YouTubeLiveStream {
    pub id: String,
    pub title: String,
    pub description: String,
    pub scheduled_start: String,
    pub stream_url: String,
    pub stream_key: String,
}

/// Creates a live stream record: a fresh id, the given title and
/// description, the given start or `now`, and the platform's standard
/// ingest endpoint with a placeholder key until the host authenticates.
pub fn create_youtube_stream(
    _config: YouTubeConfig,
    title: String,
    description: String,
    scheduled_start: Option<String>,
) -> (r: CommandResult<YouTubeLiveStream>)
    ensures
        r is Ok,
        r.unwrap().id@.len() == 36,
        r.unwrap().title == title,
        r.unwrap().description == description,
        scheduled_start is Some ==> r.unwrap().scheduled_start == scheduled_start.unwrap(),
        scheduled_start is None ==> r.unwrap().scheduled_start@ == "now"@,
        r.unwrap().stream_url@ == "rtmp://a.rtmp.youtube.com/live2"@,
{
    let scheduled = match scheduled_start {
        Some(s) => s,
        None => "now".to_owned(),
    };
    Ok(YouTubeLiveStream {
        id: host::new_id(),
        title,
        description,
        scheduled_start: scheduled,
        stream_url: "rtmp://a.rtmp.youtube.com/live2".to_owned(),
        stream_key: "sample-stream-key".to_owned(),
    })
}

/// One chat message; the timestamp as Unix seconds.
#[derive(Debug, Clone)]
pub struct ChatMessage {
    pub author: String,
    pub message: String,
    pub timestamp: i64,
}

/// Gets recent chat messages of a stream. Fetching them is the host's
/// network work; none are reported here.
pub fn get_youtube_chat(_stream_id: String) -> (r: CommandResult<Vec<ChatMessage>>)
    ensures
        r is Ok,
        r.unwrap()@.len() == 0,
{
    Ok(Vec::new())
}

/// Sets the active broadcaster scene.
pub fn set_obs_scene(_scene_name: String) -> (r: CommandResult<bool>)
    ensures
        r is Ok && r.unwrap(),
{
    Ok(true)
}

/// Updates a broadcaster source's settings.
pub fn update_obs_source(_source_name: String, _settings: serde_json::Value)
    -> (r: CommandResult<bool>)
    ensures
        r is Ok && r.unwrap(),
{
    Ok(true)
}

/// Automated lofi stream configuration.
#[derive(Debug, Clone)]
pub struct LofiStreamConfig {
    pub background_video: String,
    pub background_animation: Option<String>,
    pub music_playlist: String,
    pub visualizer_enabled: bool,
    pub chat_overlay: bool,
    pub now_playing_overlay: bool,
}

/// Starts an automated lofi stream.
pub fn start_lofi_stream(_config: LofiStreamConfig) -> (r: CommandResult<bool>)
    ensures
        r is Ok && r.unwrap(),
{
    Ok(true)
}

/// The currently playing track, for the overlay.
#[derive(Debug, Clone)]
pub struct NowPlaying {
    pub title: String,
    pub artist: String,
    pub album: Option<String>,
    pub artwork_url: Option<String>,
}

/// Updates the now-playing overlay.
pub fn update_now_playing(_info: NowPlaying) -> (r: CommandResult<bool>)
    ensures
        r is Ok && r.unwrap(),
{
    Ok(true)
}

} // verus!
