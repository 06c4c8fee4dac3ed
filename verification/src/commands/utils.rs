//! Utility commands: system information, the supported-format catalogue,
//! cache statistics and application preferences.

use vstd::prelude::*;
use crate::commands::CommandResult;

verus! {

/// System information, as the command layer reports it.
#[derive(Debug, Clone)]
pub struct SystemInfo {
    pub os: String,
    pub version: String,
    pub cpu_cores: usize,
    pub total_memory: u64,
    pub available_memory: u64,
    pub gpu_info: Vec<GpuInfo>,
}

/// Graphics adapter information, as the command layer reports it.
#[derive(Debug, Clone)]
pub struct GpuInfo {
    pub name: String,
    pub vendor: String,
    pub memory: u64,
    pub driver_version: String,
}

/// One format family of the supported-format catalogue.
#[derive(Debug, Clone)]
pub struct FormatInfo {
    pub category: String,
    pub formats: Vec<FormatDetails>,
}

/// One supported format.
#[derive(Debug, Clone)]
pub struct FormatDetails {
    pub extension: String,
    pub name: String,
    pub can_read: bool,
    pub can_write: bool,
    pub supports_layers: bool,
    pub supports_alpha: bool,
}

/// Gets the supported file formats: five video containers, seven image
/// formats and five audio formats, every one of them readable and
/// writable.
pub fn get_supported_formats() -> (r: CommandResult<Vec<FormatInfo>>)
    ensures
        r is Ok,
        ({
            let cs = r.unwrap()@;
            cs.len() == 3
                && cs[0].category@ == "Video"@ && cs[0].formats@.len() == 5
                && cs[1].category@ == "Image"@ && cs[1].formats@.len() == 7
                && cs[2].category@ == "Audio"@ && cs[2].formats@.len() == 5
                && cs[0].formats@[0].extension@ == "mp4"@
                && cs[0].formats@[1].extension@ == "mov"@
                && cs[0].formats@[1].supports_alpha
                && cs[1].formats@[0].extension@ == "png"@
                && cs[1].formats@[0].supports_alpha
                && cs[1].formats@[3].extension@ == "psd"@
                && cs[1].formats@[3].supports_layers
                && cs[2].formats@[0].extension@ == "mp3"@
                && (forall|i: int| 0 <= i < 5
                    ==> (#[trigger] cs[0].formats@[i]).can_read && cs[0].formats@[i].can_write)
                && (forall|i: int| 0 <= i < 7
                    ==> (#[trigger] cs[1].formats@[i]).can_read && cs[1].formats@[i].can_write)
                && (forall|i: int| 0 <= i < 5
                    ==> (#[trigger] cs[2].formats@[i]).can_read && cs[2].formats@[i].can_write)
        }),
{
    let mut video: Vec<FormatDetails> = Vec::new();
    video.push(format_entry("mp4", "MPEG-4", false, false));
    video.push(format_entry("mov", "QuickTime", false, true));
    video.push(format_entry("avi", "Audio Video Interleave", false, false));
    video.push(format_entry("webm", "WebM", false, true));
    video.push(format_entry("mkv", "Matroska", false, false));

    let mut image: Vec<FormatDetails> = Vec::new();
    image.push(format_entry("png", "Portable Network Graphics", false, true));
    image.push(format_entry("jpg", "JPEG", false, false));
    image.push(format_entry("tiff", "Tagged Image File Format", true, true));
    image.push(format_entry("psd", "Photoshop Document", true, true));
    image.push(format_entry("webp", "WebP", false, true));
    image.push(format_entry("gif", "Graphics Interchange Format", false, true));
    image.push(format_entry("svg", "Scalable Vector Graphics", true, true));

    let mut audio: Vec<FormatDetails> = Vec::new();
    audio.push(format_entry("mp3", "MPEG Audio Layer 3", false, false));
    audio.push(format_entry("wav", "Waveform Audio", false, false));
    audio.push(format_entry("aac", "Advanced Audio Coding", false, false));
    audio.push(format_entry("flac", "Free Lossless Audio Codec", false, false));
    audio.push(format_entry("ogg", "Ogg Vorbis", false, false));

    let mut out: Vec<FormatInfo> = Vec::new();
    out.push(FormatInfo { category: "Video".to_owned(), formats: video });
    out.push(FormatInfo { category: "Image".to_owned(), formats: image });
    out.push(FormatInfo { category: "Audio".to_owned(), formats: audio });
    Ok(out)
}

/// One readable and writable catalogue entry.
fn format_entry(extension: &str, name: &str, layers: bool, alpha: bool) -> (r: FormatDetails)
    ensures
        r.extension@ == extension@,
        r.name@ == name@,
        r.can_read && r.can_write,
        r.supports_layers == layers,
        r.supports_alpha == alpha,
{
    FormatDetails {
        extension: extension.to_owned(),
        name: name.to_owned(),
        can_read: true,
        can_write: true,
        supports_layers: layers,
        supports_alpha: alpha,
    }
}

/// Cache statistics.
#[derive(Debug, Clone)]
pub struct CacheStats {
    pub total_size: u64,
    pub preview_cache_size: u64,
    pub proxy_cache_size: u64,
    pub thumbnail_cache_size: u64,
    pub file_count: u64,
}

/// Optimizes the cache and reports the advertised statistics. Scanning and
/// deleting cache files is the host's work.
pub fn optimize_cache() -> (r: CommandResult<CacheStats>)
    ensures
        r is Ok,
        r.unwrap().total_size == 500u64 * 1024 * 1024,
        r.unwrap().preview_cache_size == 300u64 * 1024 * 1024,
        r.unwrap().proxy_cache_size == 150u64 * 1024 * 1024,
        r.unwrap().thumbnail_cache_size == 50u64 * 1024 * 1024,
        r.unwrap().file_count == 1250,
{
    Ok(CacheStats {
        total_size: 500 * 1024 * 1024,
        preview_cache_size: 300 * 1024 * 1024,
        proxy_cache_size: 150 * 1024 * 1024,
        thumbnail_cache_size: 50 * 1024 * 1024,
        file_count: 1250,
    })
}

/// Clears all caches. Deleting the files is the host's work;
/// acknowledging the request never fails.
pub fn clear_cache() -> (r: CommandResult<bool>)
    ensures
        r is Ok && r.unwrap(),
{
    Ok(true)
}

/// Application preferences.
#[derive(Debug, Clone)]
pub struct AppPreferences {
    /// Auto-save interval in seconds.
    pub auto_save_interval: u32,
    pub preview_quality: String,
    pub proxy_resolution: String,
    pub hardware_acceleration: bool,
    /// Memory usage limit, as a percentage.
    pub memory_usage_limit: u32,
    pub thread_count: u32,
}

/// Gets the application preferences: the defaults, with the thread count
/// from the host's processor count.
pub fn get_preferences() -> (r: CommandResult<AppPreferences>)
    ensures
        r is Ok,
        r.unwrap().auto_save_interval == 300,
        r.unwrap().preview_quality@ == "half"@,
        r.unwrap().proxy_resolution@ == "720p"@,
        r.unwrap().hardware_acceleration,
        r.unwrap().memory_usage_limit == 80,
        r.unwrap().thread_count >= 1,
{
    let cores = num_cpus::get();
    let threads: u32 = if cores > 0xFFFF { 0xFFFF } else { cores as u32 };
    Ok(AppPreferences {
        auto_save_interval: 300,
        preview_quality: "half".to_owned(),
        proxy_resolution: "720p".to_owned(),
        hardware_acceleration: true,
        memory_usage_limit: 80,
        thread_count: threads,
    })
}

/// Saves the application preferences. Writing the configuration file is
/// the host's work; acknowledging the request never fails.
pub fn set_preferences(_prefs: AppPreferences) -> (r: CommandResult<bool>)
    ensures
        r is Ok && r.unwrap(),
{
    Ok(true)
}

} // verus!
