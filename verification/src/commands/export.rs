//! Export commands: the parameter records the front end fills in, the
//! preset catalogue, and the pure acknowledgement parts of the export
//! entry points. Rendering and encoding run in the host's pipeline.

use vstd::prelude::*;
use crate::commands::CommandResult;
use crate::host;
use crate::utils::str_eq;

verus! {

/// Video export parameters.
#[derive(Debug)]
pub struct VideoExportParams {
    pub output_path: String,
    pub format: String,
    pub codec: String,
    pub resolution: (u32, u32),
    pub fps: u32,
    /// In kilobits per second.
    pub bitrate: u32,
    pub quality: String,
    pub audio_codec: String,
    /// In kilobits per second.
    pub audio_bitrate: u32,
    pub hardware_acceleration: bool,
}

/// Image export parameters.
#[derive(Debug, Clone)]
pub struct ImageExportParams {
    pub output_path: String,
    pub format: String,
    /// `1` to `100` for lossy formats.
    pub quality: u8,
    pub compression: String,
    pub color_space: String,
    pub bit_depth: u8,
    pub flatten: bool,
    pub include_metadata: bool,
}

/// Accepts a video export job and reports the path it will land at.
/// Rendering and encoding are the host's work.
pub fn export_video(_timeline_id: String, params: VideoExportParams)
    -> (r: CommandResult<String>)
    ensures
        r is Ok,
        r.unwrap() == params.output_path,
{
    Ok(params.output_path)
}

/// Accepts an image export job and reports the path it will land at.
/// Compositing and writing are the host's work.
pub fn export_image(_project_id: String, params: ImageExportParams)
    -> (r: CommandResult<String>)
    ensures
        r is Ok,
        r.unwrap() == params.output_path,
{
    Ok(params.output_path)
}

/// One item of a batch export.
#[derive(Debug)]
pub struct BatchExportItem {
    pub source_id: String,
    pub output_path: String,
    pub export_params: serde_json::Value,
}

/// A batch export request.
#[derive(Debug)]
pub struct BatchExportParams {
    pub items: Vec<BatchExportItem>,
    pub parallel_jobs: u32,
}

/// Accepts a batch export and reports the output paths in order.
pub fn batch_export(params: BatchExportParams) -> (r: CommandResult<Vec<String>>)
    ensures
        r is Ok,
        r.unwrap()@.len() == params.items@.len(),
        forall|i: int| 0 <= i < params.items@.len()
            ==> r.unwrap()@[i] == (#[trigger] params.items@[i]).output_path,
{
    let mut out: Vec<String> = Vec::new();
    let n = params.items.len();
    let mut i: usize = 0;
    while i < n
        invariant
            n == params.items@.len(),
            i <= n,
            out@.len() == i,
            forall|j: int| 0 <= j < i
                ==> out@[j] == (#[trigger] params.items@[j]).output_path,
        decreases n - i,
    {
        out.push(params.items[i].output_path.clone());
        i = i + 1;
    }
    Ok(out)
}

/// One export preset, as the command layer exchanges it.
#[derive(Debug)]
pub struct ExportPreset {
    pub id: String,
    pub name: String,
    pub category: String,
    pub description: String,
    pub video_params: Option<VideoExportParams>,
    pub image_params: Option<ImageExportParams>,
}

/// Gets the export presets for a media type: five video presets for
/// `video`, three image presets for `image`, all eight for `all`, and
/// none otherwise.
pub fn get_export_presets(media_type: String) -> (r: CommandResult<Vec<ExportPreset>>)
    ensures
        r is Ok,
        ({
            let ps = r.unwrap()@;
            let want_video = media_type@ == "video"@ || media_type@ == "all"@;
            let want_image = media_type@ == "image"@ || media_type@ == "all"@;
            ps.len() == (if want_video { 5int } else { 0int })
                + (if want_image { 3int } else { 0int })
            && (want_video ==> ps[0].name@ == "YouTube 1080p"@
                && ps[0].video_params is Some
                && ps[0].video_params.unwrap().resolution == (1920u32, 1080u32)
                && ps[0].video_params.unwrap().bitrate == 8000
                && ps[1].name@ == "YouTube 4K"@
                && ps[1].video_params.unwrap().resolution == (3840u32, 2160u32)
                && ps[2].name@ == "Instagram Feed"@
                && ps[3].name@ == "TikTok / Reels"@
                && ps[3].video_params.unwrap().resolution == (1080u32, 1920u32)
                && ps[4].name@ == "ProRes 422 HQ"@
                && ps[4].video_params.unwrap().bitrate == 150000)
            && (want_image ==> ps[ps.len() - 3].name@ == "Web JPEG"@
                && ps[ps.len() - 3].image_params is Some
                && ps[ps.len() - 3].image_params.unwrap().quality == 85
                && ps[ps.len() - 2].name@ == "PNG with Transparency"@
                && ps[ps.len() - 1].name@ == "Print TIFF"@
                && ps[ps.len() - 1].image_params.unwrap().bit_depth == 16)
        }),
{
    let mut presets: Vec<ExportPreset> = Vec::new();
    let want_video = str_eq(media_type.as_str(), "video") || str_eq(media_type.as_str(), "all");
    let want_image = str_eq(media_type.as_str(), "image") || str_eq(media_type.as_str(), "all");

    if want_video {
        presets.push(ExportPreset {
            id: host::new_id(),
            name: "YouTube 1080p".to_owned(),
            category: "Social Media".to_owned(),
            description: "Optimized for YouTube uploads (1080p, 30fps, H.264)".to_owned(),
            video_params: Some(VideoExportParams {
                output_path: String::new(),
                format: "mp4".to_owned(),
                codec: "h264".to_owned(),
                resolution: (1920, 1080),
                fps: 30,
                bitrate: 8000,
                quality: "good".to_owned(),
                audio_codec: "aac".to_owned(),
                audio_bitrate: 192,
                hardware_acceleration: true,
            }),
            image_params: None,
        });
        presets.push(ExportPreset {
            id: host::new_id(),
            name: "YouTube 4K".to_owned(),
            category: "Social Media".to_owned(),
            description: "4K quality for YouTube (2160p, 30fps, H.265)".to_owned(),
            video_params: Some(VideoExportParams {
                output_path: String::new(),
                format: "mp4".to_owned(),
                codec: "h265".to_owned(),
                resolution: (3840, 2160),
                fps: 30,
                bitrate: 40000,
                quality: "best".to_owned(),
                audio_codec: "aac".to_owned(),
                audio_bitrate: 320,
                hardware_acceleration: true,
            }),
            image_params: None,
        });
        presets.push(ExportPreset {
            id: host::new_id(),
            name: "Instagram Feed".to_owned(),
            category: "Social Media".to_owned(),
            description: "Square format for Instagram (1080x1080, 30fps)".to_owned(),
            video_params: Some(VideoExportParams {
                output_path: String::new(),
                format: "mp4".to_owned(),
                codec: "h264".to_owned(),
                resolution: (1080, 1080),
                fps: 30,
                bitrate: 5000,
                quality: "good".to_owned(),
                audio_codec: "aac".to_owned(),
                audio_bitrate: 128,
                hardware_acceleration: true,
            }),
            image_params: None,
        });
        presets.push(ExportPreset {
            id: host::new_id(),
            name: "TikTok / Reels".to_owned(),
            category: "Social Media".to_owned(),
            description: "Vertical format for TikTok and Instagram Reels (1080x1920)".to_owned(),
            video_params: Some(VideoExportParams {
                output_path: String::new(),
                format: "mp4".to_owned(),
                codec: "h264".to_owned(),
                resolution: (1080, 1920),
                fps: 30,
                bitrate: 6000,
                quality: "good".to_owned(),
                audio_codec: "aac".to_owned(),
                audio_bitrate: 192,
                hardware_acceleration: true,
            }),
            image_params: None,
        });
        presets.push(ExportPreset {
            id: host::new_id(),
            name: "ProRes 422 HQ".to_owned(),
            category: "Professional".to_owned(),
            description: "High-quality intermediate codec for editing".to_owned(),
            video_params: Some(VideoExportParams {
                output_path: String::new(),
                format: "mov".to_owned(),
                codec: "prores".to_owned(),
                resolution: (1920, 1080),
                fps: 30,
                bitrate: 150000,
                quality: "best".to_owned(),
                audio_codec: "aac".to_owned(),
                audio_bitrate: 320,
                hardware_acceleration: false,
            }),
            image_params: None,
        });
    }

    if want_image {
        presets.push(ExportPreset {
            id: host::new_id(),
            name: "Web JPEG".to_owned(),
            category: "Web".to_owned(),
            description: "Optimized JPEG for web use".to_owned(),
            video_params: None,
            image_params: Some(ImageExportParams {
                output_path: String::new(),
                format: "jpg".to_owned(),
                quality: 85,
                compression: "none".to_owned(),
                color_space: "sRGB".to_owned(),
                bit_depth: 8,
                flatten: true,
                include_metadata: false,
            }),
        });
        presets.push(ExportPreset {
            id: host::new_id(),
            name: "PNG with Transparency".to_owned(),
            category: "Web".to_owned(),
            description: "PNG with alpha channel for transparent backgrounds".to_owned(),
            video_params: None,
            image_params: Some(ImageExportParams {
                output_path: String::new(),
                format: "png".to_owned(),
                quality: 100,
                compression: "zip".to_owned(),
                color_space: "sRGB".to_owned(),
                bit_depth: 8,
                flatten: false,
                include_metadata: false,
            }),
        });
        presets.push(ExportPreset {
            id: host::new_id(),
            name: "Print TIFF".to_owned(),
            category: "Print".to_owned(),
            description: "High-quality TIFF for professional printing".to_owned(),
            video_params: None,
            image_params: Some(ImageExportParams {
                output_path: String::new(),
                format: "tiff".to_owned(),
                quality: 100,
                compression: "lzw".to_owned(),
                color_space: "AdobeRGB".to_owned(),
                bit_depth: 16,
                flatten: true,
                include_metadata: true,
            }),
        });
    }

    Ok(presets)
}

/// Animated image export parameters.
#[derive(Debug, Clone)]
pub struct GifExportParams {
    pub output_path: String,
    pub width: u32,
    pub height: u32,
    pub fps: u32,
    /// `0` loops forever.
    pub loop_count: u32,
    pub quality: String,
}

/// Accepts an animation export job and reports the path it will land at.
pub fn export_gif(_timeline_id: String, params: GifExportParams) -> (r: CommandResult<String>)
    ensures
        r is Ok,
        r.unwrap() == params.output_path,
{
    Ok(params.output_path)
}

} // verus!
