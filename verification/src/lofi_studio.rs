//! Lofi studio: modular scene records, one-click animation presets,
//! assistant entry points, asset records and export automation for
//! loop-based ambience videos.

use vstd::prelude::*;
use vstd::string::StringExecFns;
use crate::animation_engine::AnimatableProperty;

verus! {

/// A complete lofi scene with all its components.
#[derive(Debug)]
pub struct LofiScene {
    pub id: String,
    pub name: String,
    pub width: u32,
    pub height: u32,
    /// Duration in fixed-point seconds.
    pub duration: i64,
    pub fps: u32,
    pub background: Option<SceneElement>,
    pub characters: Vec<SceneElement>,
    pub props: Vec<SceneElement>,
    pub overlays: Vec<SceneElement>,
    pub foreground: Option<SceneElement>,
    pub music_track: Option<MusicTrack>,
    pub ambient_sounds: Vec<AmbientSound>,
    pub animation_presets: Vec<AnimationPreset>,
    pub lighting: LightingSettings,
    pub color_palette: ColorPalette,
    pub loop_settings: LoopSettings,
    pub tags: Vec<String>,
    pub mood: String,
    pub template_id: Option<String>,
}

/// One modular scene element, positioned by hand.
#[derive(Debug)]
pub struct SceneElement {
    pub id: String,
    pub element_type: ElementType,
    pub name: String,
    pub source: ElementSource,
    pub x: i64,
    pub y: i64,
    pub scale: i64,
    pub rotation: i64,
    pub z_index: i32,
    /// Opacity in fixed-point units of `1.0`.
    pub opacity: i64,
    pub blend_mode: String,
    /// References to animation presets by id.
    pub animations: Vec<String>,
    pub is_animated: bool,
    /// Locked for template consistency.
    pub is_locked: bool,
}

/// The role of a scene element.
#[derive(Debug, Clone, Copy, PartialEq, Eq, Structural)]
pub enum ElementType {
    Background,
    Character,
    Prop,
    Overlay,
    Foreground,
    Particle,
}

/// Where a scene element's media comes from.
#[derive(Debug)]
pub enum ElementSource {
    LocalFile { path: std::path::PathBuf },
    Template { template_id: String, element_id: String },
    Generated { prompt: String, generator: String },
    Stock { service: String, asset_id: String },
}

/// A music track with loop information; times in fixed-point seconds,
/// beats per minute in fixed-point units.
#[derive(Debug)]
pub struct MusicTrack {
    pub id: String,
    pub name: String,
    pub source: MusicSource,
    pub duration: i64,
    pub bpm: Option<i64>,
    pub loop_points: Option<(i64, i64)>,
    pub volume: i64,
    pub fade_in: i64,
    pub fade_out: i64,
}

/// Where a music track comes from.
#[derive(Debug)]
pub enum MusicSource {
    LocalFile { path: std::path::PathBuf },
    Generated { prompt: String, service: String },
    Stock { service: String, track_id: String },
}

/// One ambient sound bed.
#[derive(Debug)]
pub struct AmbientSound {
    pub sound_type: String,
    pub volume: i64,
    pub source: std::path::PathBuf,
}

/// A one-click animation preset: no keyframes required of the user.
#[derive(Debug)]
pub struct AnimationPreset {
    pub id: String,
    pub name: String,
    pub preset_type: AnimationPresetType,
    pub target_element_id: String,
    /// Strength slider, `0` to `1` in units.
    pub intensity: i64,
    /// Speed slider, `0` to `2` in units.
    pub speed: i64,
    pub enabled: bool,
}

/// The kinds of one-click animation.
#[derive(Debug)]
pub enum AnimationPresetType {
    Breathing { amplitude: i64 },
    Blinking { frequency: i64 },
    HeadBob { amount: i64 },
    Typing { speed: i64 },
    Rain { density: i64, angle: i64 },
    Snow { density: i64, drift: i64 },
    Fog { density: i64, movement: i64 },
    Fireflies { count: u32, brightness: i64 },
    Parallax { layers: Vec<(String, i64)> },
    CameraShake { intensity: i64 },
    SlowZoom { direction: String },
    Flickering { frequency: i64 },
    PulsingLight { color: (u8, u8, u8), speed: i64 },
    DayNightCycle { duration: i64 },
    WindowReflection { opacity: i64 },
    ScreenGlow { color: (u8, u8, u8), intensity: i64 },
    FloatingDust { count: u32, speed: i64 },
    BookPages { flip_interval: i64 },
    SteamRising { intensity: i64 },
}

impl AnimationPreset {
    /// Generates actual keyframe tracks from the preset. The keyframe
    /// synthesis rules are not defined yet, so every preset currently
    /// generates no tracks and the element stays still.
    pub fn generate_keyframes(&self, duration: i64, fps: u32) -> (r: Vec<AnimatableProperty>)
        ensures
            r@.len() == 0,
    {
        match &self.preset_type {
            AnimationPresetType::Breathing { amplitude } =>
                self.generate_breathing_animation(duration, fps, *amplitude),
            AnimationPresetType::Blinking { frequency } =>
                self.generate_blink_animation(duration, fps, *frequency),
            AnimationPresetType::Rain { density, angle } =>
                self.generate_rain_animation(duration, fps, *density, *angle),
            _ => Vec::new(),
        }
    }

    /// Smooth breathing motion (scale variation); synthesis undefined yet.
    fn generate_breathing_animation(&self, _duration: i64, _fps: u32, _amplitude: i64)
        -> (r: Vec<AnimatableProperty>)
        ensures
            r@.len() == 0,
    {
        Vec::new()
    }

    /// Periodic blink animation; synthesis undefined yet.
    fn generate_blink_animation(&self, _duration: i64, _fps: u32, _frequency: i64)
        -> (r: Vec<AnimatableProperty>)
        ensures
            r@.len() == 0,
    {
        Vec::new()
    }

    /// Rain particle setup; synthesis undefined yet.
    fn generate_rain_animation(&self, _duration: i64, _fps: u32, _density: i64, _angle: i64)
        -> (r: Vec<AnimatableProperty>)
        ensures
            r@.len() == 0,
    {
        Vec::new()
    }
}

/// Lighting settings for mood.
#[derive(Debug)]
pub struct LightingSettings {
    pub ambient_color: (u8, u8, u8),
    pub ambient_intensity: i64,
    pub key_light: Option<LightSource>,
    pub fill_light: Option<LightSource>,
    pub rim_light: Option<LightSource>,
}

/// One light source.
#[derive(Debug)]
pub struct LightSource {
    pub color: (u8, u8, u8),
    pub intensity: i64,
    pub position: (i64, i64),
    pub falloff: i64,
}

/// A suggested color palette.
#[derive(Debug, Clone)]
pub struct ColorPalette {
    pub name: String,
    pub colors: Vec<(u8, u8, u8)>,
    pub mood: String,
    pub ai_generated: bool,
}

/// Seamless loop settings; times in fixed-point seconds.
#[derive(Debug)]
pub struct LoopSettings {
    pub enabled: bool,
    pub auto_detect_loop_point: bool,
    pub visual_loop_point: i64,
    pub audio_loop_point: i64,
    pub crossfade_duration: i64,
    pub tempo_sync: bool,
}

/// The category a template belongs to.
#[derive(Debug, Clone, Copy, PartialEq, Eq, Structural)]
pub enum TemplateCategory {
    CozyRoom,
    RainyWindow,
    Cityscape,
    NatureScene,
    StudyDesk,
    CoffeeShop,
    Library,
    NightSky,
    Cyberpunk,
    Retro,
    Minimalist,
}

/// Assistant entry points. The heavy analysis runs in the host's inference
/// pipeline; the entry points here produce the documented defaults.
pub struct LofiAI;

impl LofiAI {
    /// Separates subject from background. Segmentation is the host's work;
    /// no pixels are produced here.
    pub fn segment_image(_image_path: &std::path::PathBuf)
        -> (r: Result<(Vec<u8>, Vec<u8>), String>)
        ensures
            r is Ok,
            r.unwrap().0@.len() == 0,
            r.unwrap().1@.len() == 0,
    {
        Ok((Vec::new(), Vec::new()))
    }

    /// Suggests color palettes for a reference: one warm cozy palette of
    /// five colors.
    pub fn suggest_palettes(_reference: PaletteReference) -> (r: Vec<ColorPalette>)
        ensures
            r@.len() == 1,
            r@[0].name@ == "Warm Cozy"@,
            r@[0].mood@ == "cozy"@,
            r@[0].ai_generated,
            r@[0].colors@.len() == 5,
            r@[0].colors@[0] == (255u8, 184u8, 108u8),
            r@[0].colors@[4] == (255u8, 243u8, 224u8),
    {
        let mut colors: Vec<(u8, u8, u8)> = Vec::new();
        colors.push((255, 184, 108));
        colors.push((255, 221, 145));
        colors.push((139, 90, 43));
        colors.push((89, 52, 35));
        colors.push((255, 243, 224));
        let mut out: Vec<ColorPalette> = Vec::new();
        out.push(ColorPalette {
            name: "Warm Cozy".to_owned(),
            colors,
            mood: "cozy".to_owned(),
            ai_generated: true,
        });
        out
    }

    /// Detects the tempo of an audio file. Beat tracking is the host's
    /// work; the common lofi tempo of 90 beats per minute stands in.
    pub fn detect_bpm(_audio_path: &std::path::PathBuf) -> (r: Result<i64, String>)
        ensures
            r is Ok,
            r.unwrap() == 90 * crate::fixed::SCALE,
    {
        Ok(90 * crate::fixed::SCALE)
    }
}

/// What a palette suggestion is asked about.
#[derive(Debug)]
pub enum PaletteReference {
    Image { path: std::path::PathBuf },
    Mood { keyword: String },
    Season { season: String },
    TimeOfDay { time: String },
}

/// The kind of a library asset.
#[derive(Debug, Clone, Copy, PartialEq, Eq, Structural)]
pub enum AssetType {
    Image,
    Video,
    Audio,
    Animation,
    Template,
}

/// Where a library asset comes from.
#[derive(Debug)]
pub enum AssetSource {
    Local { path: std::path::PathBuf },
    Suno { track_id: String },
    Pixabay { image_id: String },
    Unsplash { image_id: String },
    Leonardo { generation_id: String },
    OpenAI { generation_id: String },
    Community { user_id: String, asset_id: String },
}

/// Export automation preset for one target platform.
#[derive(Debug, Clone)]
pub struct LofiExportPreset {
    pub id: String,
    pub name: String,
    pub platform: ExportPlatform,
    pub video_settings: VideoSettings,
    pub auto_generate_thumbnail: bool,
    pub auto_generate_title: bool,
    pub seo_optimize: bool,
}

/// The platforms the export automation knows.
#[derive(Debug, Clone, Copy, PartialEq, Eq, Structural)]
pub enum ExportPlatform {
    YouTube,
    TikTok,
    Instagram,
    Twitter,
    Discord,
    Generic,
    Stream24_7,
}

/// Video settings of an export preset.
#[derive(Debug, Clone)]
pub struct VideoSettings {
    pub width: u32,
    pub height: u32,
    pub fps: u32,
    pub bitrate: u32,
    pub codec: String,
    pub format: String,
}

impl LofiExportPreset {
    /// Gets platform-optimized settings: a landscape stream preset for
    /// YouTube, a vertical preset for TikTok, and a generic landscape
    /// preset for everything else.
    pub fn for_platform(platform: ExportPlatform) -> (r: Self)
        ensures
            r.platform == platform,
            platform == ExportPlatform::YouTube ==> r.id@ == "youtube"@
                && r.video_settings.width == 1920 && r.video_settings.height == 1080
                && r.video_settings.bitrate == 8000 && r.auto_generate_thumbnail
                && r.auto_generate_title && r.seo_optimize,
            platform == ExportPlatform::TikTok ==> r.id@ == "tiktok"@
                && r.video_settings.width == 1080 && r.video_settings.height == 1920
                && r.video_settings.bitrate == 6000 && !r.auto_generate_thumbnail
                && r.auto_generate_title && r.seo_optimize,
            platform != ExportPlatform::YouTube && platform != ExportPlatform::TikTok
                ==> r.id@ == "generic"@
                    && r.video_settings.width == 1920 && r.video_settings.height == 1080
                    && r.video_settings.bitrate == 5000 && !r.auto_generate_thumbnail
                    && !r.auto_generate_title && !r.seo_optimize,
            r.video_settings.fps == 30,
            r.video_settings.codec@ == "h264"@,
            r.video_settings.format@ == "mp4"@,
    {
        match platform {
            ExportPlatform::YouTube => LofiExportPreset {
                id: "youtube".to_owned(),
                name: "YouTube Lofi Stream".to_owned(),
                platform,
                video_settings: VideoSettings {
                    width: 1920,
                    height: 1080,
                    fps: 30,
                    bitrate: 8000,
                    codec: "h264".to_owned(),
                    format: "mp4".to_owned(),
                },
                auto_generate_thumbnail: true,
                auto_generate_title: true,
                seo_optimize: true,
            },
            ExportPlatform::TikTok => LofiExportPreset {
                id: "tiktok".to_owned(),
                name: "TikTok Vertical".to_owned(),
                platform,
                video_settings: VideoSettings {
                    width: 1080,
                    height: 1920,
                    fps: 30,
                    bitrate: 6000,
                    codec: "h264".to_owned(),
                    format: "mp4".to_owned(),
                },
                auto_generate_thumbnail: false,
                auto_generate_title: true,
                seo_optimize: true,
            },
            _ => LofiExportPreset {
                id: "generic".to_owned(),
                name: "Generic Export".to_owned(),
                platform,
                video_settings: VideoSettings {
                    width: 1920,
                    height: 1080,
                    fps: 30,
                    bitrate: 5000,
                    codec: "h264".to_owned(),
                    format: "mp4".to_owned(),
                },
                auto_generate_thumbnail: false,
                auto_generate_title: false,
                seo_optimize: false,
            },
        }
    }

    /// Auto-generates upload metadata from a scene: a title and description
    /// built around the scene's mood and name, and a fixed tag set plus the
    /// mood.
    pub fn generate_metadata(&self, scene: &LofiScene) -> (r: ExportMetadata)
        ensures
            r.title@ == "Lofi "@ + scene.mood@ + " - "@ + scene.name@ + " Beats to Study/Relax"@,
            r.tags@.len() == 5,
            r.tags@[0]@ == "lofi"@,
            r.tags@[4]@ == scene.mood@,
            r.thumbnail_timestamp == 2 * crate::fixed::SCALE,
    {
        let mut title: String = "Lofi ".to_owned();
        title.append(scene.mood.as_str());
        title.append(" - ");
        title.append(scene.name.as_str());
        title.append(" Beats to Study/Relax");

        let mut description: String = "Relaxing ".to_owned();
        description.append(scene.mood.as_str());
        description.append(" lofi hip hop beats. Perfect for studying, working, or relaxing.");

        let mut tags: Vec<String> = Vec::new();
        tags.push("lofi".to_owned());
        tags.push("lofi hip hop".to_owned());
        tags.push("chill beats".to_owned());
        tags.push("study music".to_owned());
        tags.push(scene.mood.clone());

        ExportMetadata {
            title,
            description,
            tags,
            thumbnail_timestamp: 2 * crate::fixed::SCALE,
        }
    }
}

/// Generated upload metadata; the thumbnail timestamp in fixed-point
/// seconds.
#[derive(Debug)]
pub struct ExportMetadata {
    pub title: String,
    pub description: String,
    pub tags: Vec<String>,
    pub thumbnail_timestamp: i64,
}

} // verus!
