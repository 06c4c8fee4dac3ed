//! Utility functions and helpers: system information, file-format support,
//! size formatting, cache bookkeeping and a performance profiler.

use vstd::prelude::*;
use vstd::string::StringExecFns;
use crate::host;

verus! {

/// Whether two string slices hold the same characters.
pub fn str_eq(a: &str, b: &str) -> (r: bool)
    ensures
        r == (a@ == b@),
{
    let oa: String = a.to_owned();
    let ob: String = b.to_owned();
    oa == ob
}

/// The decimal digits of `n`, most significant first.
pub open spec fn spec_decimal(n: nat) -> Seq<char>
    decreases n,
{
    if n < 10 {
        seq![spec_digit_char(n)]
    } else {
        spec_decimal(n / 10) + seq![spec_digit_char(n % 10)]
    }
}

/// The character for one decimal digit.
pub open spec fn spec_digit_char(d: nat) -> char {
    if d == 0 { '0' }
    else if d == 1 { '1' }
    else if d == 2 { '2' }
    else if d == 3 { '3' }
    else if d == 4 { '4' }
    else if d == 5 { '5' }
    else if d == 6 { '6' }
    else if d == 7 { '7' }
    else if d == 8 { '8' }
    else { '9' }
}

/// One decimal digit as a string slice.
fn digit_str(d: u64) -> (r: &'static str)
    requires
        d < 10,
    ensures
        r@ == seq![spec_digit_char(d as nat)],
{
    proof {
        reveal_strlit("0");
        reveal_strlit("1");
        reveal_strlit("2");
        reveal_strlit("3");
        reveal_strlit("4");
        reveal_strlit("5");
        reveal_strlit("6");
        reveal_strlit("7");
        reveal_strlit("8");
        reveal_strlit("9");
    }
    let r = match d {
        0 => "0",
        1 => "1",
        2 => "2",
        3 => "3",
        4 => "4",
        5 => "5",
        6 => "6",
        7 => "7",
        8 => "8",
        _ => "9",
    };
    proof {
        assert(r@ =~= seq![spec_digit_char(d as nat)]);
    }
    r
}

/// Renders `n` in decimal.
pub fn u64_to_string(n: u64) -> (r: String)
    ensures
        r@ == spec_decimal(n as nat),
    decreases n,
{
    if n < 10 {
        digit_str(n).to_owned()
    } else {
        let high = u64_to_string(n / 10);
        let r = high.concat(digit_str(n % 10));
        proof {
            assert(r@ =~= spec_decimal(n as nat));
        }
        r
    }
}

/// System information utilities.
pub struct SystemInfo;

/// Processor information.
#[derive(Debug, Clone)]
pub struct CpuInfo {
    pub cores: usize,
    pub threads: usize,
    pub model: String,
}

/// Memory information.
#[derive(Debug, Clone)]
pub struct MemoryInfo {
    pub total_bytes: u64,
    pub available_bytes: u64,
}

/// Graphics adapter information.
#[derive(Debug, Clone)]
pub struct GpuInfo {
    pub name: String,
    pub vendor: String,
    pub memory_bytes: u64,
    pub driver_version: String,
}

impl SystemInfo {
    /// Gets processor information; the core count comes from the host.
    pub fn cpu_info() -> (r: CpuInfo)
        ensures
            r.cores >= 1,
            r.cores == r.threads,
            r.model@ == "CPU Model"@,
    {
        let cores = num_cpus::get();
        CpuInfo { cores, threads: cores, model: "CPU Model".to_owned() }
    }

    /// Gets the advertised memory configuration.
    pub fn memory_info() -> (r: MemoryInfo)
        ensures
            r.total_bytes == 16u64 * 1024 * 1024 * 1024,
            r.available_bytes == 8u64 * 1024 * 1024 * 1024,
    {
        MemoryInfo {
            total_bytes: 16 * 1024 * 1024 * 1024,
            available_bytes: 8 * 1024 * 1024 * 1024,
        }
    }

    /// Gets the advertised graphics adapters.
    pub fn gpu_info() -> (r: Vec<GpuInfo>)
        ensures
            r@.len() == 1,
            r@[0].name@ == "Graphics Card"@,
            r@[0].vendor@ == "Vendor"@,
            r@[0].memory_bytes == 8u64 * 1024 * 1024 * 1024,
            r@[0].driver_version@ == "1.0.0"@,
    {
        let mut v: Vec<GpuInfo> = Vec::new();
        v.push(GpuInfo {
            name: "Graphics Card".to_owned(),
            vendor: "Vendor".to_owned(),
            memory_bytes: 8 * 1024 * 1024 * 1024,
            driver_version: "1.0.0".to_owned(),
        });
        v
    }
}

/// The broad kind of a media file.
#[derive(Debug, Clone, Copy, PartialEq, Eq, Structural)]
pub enum MediaType {
    Video,
    Audio,
    Image,
}

/// The media type an already-lowercased extension maps to.
pub open spec fn spec_media_type(ext: Seq<char>) -> Option<MediaType> {
    if ext == "mp4"@ || ext == "mov"@ || ext == "avi"@ || ext == "webm"@ || ext == "mkv"@ {
        Some(MediaType::Video)
    } else if ext == "png"@ || ext == "jpg"@ || ext == "jpeg"@ || ext == "tiff"@ || ext == "psd"@
        || ext == "webp"@ || ext == "gif"@ || ext == "svg"@ {
        Some(MediaType::Image)
    } else if ext == "mp3"@ || ext == "wav"@ || ext == "aac"@ || ext == "flac"@ || ext == "ogg"@ {
        Some(MediaType::Audio)
    } else {
        None
    }
}

/// Whether an already-lowercased extension names a supported format.
/// `ogg` is readable as audio but not on the supported list.
pub open spec fn spec_supported(ext: Seq<char>) -> bool {
    spec_media_type(ext) is Some && ext != "ogg"@
}

/// File format utilities.
pub struct FormatUtils;

impl FormatUtils {
    /// Classifies an already-lowercased extension.
    pub fn media_type_of(ext: &str) -> (r: Option<MediaType>)
        ensures
            r == spec_media_type(ext@),
    {
        if str_eq(ext, "mp4") || str_eq(ext, "mov") || str_eq(ext, "avi") || str_eq(ext, "webm")
            || str_eq(ext, "mkv") {
            Some(MediaType::Video)
        } else if str_eq(ext, "png") || str_eq(ext, "jpg") || str_eq(ext, "jpeg")
            || str_eq(ext, "tiff") || str_eq(ext, "psd") || str_eq(ext, "webp")
            || str_eq(ext, "gif") || str_eq(ext, "svg") {
            Some(MediaType::Image)
        } else if str_eq(ext, "mp3") || str_eq(ext, "wav") || str_eq(ext, "aac")
            || str_eq(ext, "flac") || str_eq(ext, "ogg") {
            Some(MediaType::Audio)
        } else {
            None
        }
    }

    /// Whether an already-lowercased extension is supported.
    pub fn supported_lower(ext: &str) -> (r: bool)
        ensures
            r == spec_supported(ext@),
    {
        match Self::media_type_of(ext) {
            Some(_) => !str_eq(ext, "ogg"),
            None => false,
        }
    }

    /// Checks if a file format is supported, in any letter case.
    pub fn is_supported(extension: &str) -> (r: bool)
        ensures
            r == spec_supported(host::lower_of(extension@)),
    {
        let lower = host::lowercase(extension);
        Self::supported_lower(lower.as_str())
    }

    /// Gets the media type from an extension, in any letter case.
    pub fn get_media_type(extension: &str) -> (r: Option<MediaType>)
        ensures
            r == spec_media_type(host::lower_of(extension@)),
    {
        let lower = host::lowercase(extension);
        Self::media_type_of(lower.as_str())
    }

    /// Formats a byte count for display, as a value with two decimals and a
    /// unit from `B` to `TB` (for example `1.50 KB`).
    #[verifier::rlimit(80)]
    pub fn format_file_size(bytes: u64) -> (r: String)
        ensures
            r@ == spec_format_file_size(bytes as nat),
    {
        let (unit, div): (&'static str, u64) = if bytes < 1024 {
            (" B", 1)
        } else if bytes < 1024 * 1024 {
            (" KB", 1024)
        } else if bytes < 1024 * 1024 * 1024 {
            (" MB", 1024 * 1024)
        } else if bytes < 1024 * 1024 * 1024 * 1024 {
            (" GB", 1024 * 1024 * 1024)
        } else {
            (" TB", 1024 * 1024 * 1024 * 1024)
        };
        let whole = bytes / div;
        let rem = bytes % div;
        proof {
            lemma_size_parts_fit(bytes as nat, div as nat);
        }
        // Hundredths of a unit, rounding the fraction half-up.
        let hundredths = whole * 100 + (rem * 100 + div / 2) / div;
        proof {
            assert(div == spec_size_divisor(bytes as nat));
            assert(unit@ == spec_size_unit(bytes as nat)) by {
                reveal_strlit(" B");
                reveal_strlit(" KB");
                reveal_strlit(" MB");
                reveal_strlit(" GB");
                reveal_strlit(" TB");
            }
            vstd::arithmetic::div_mod::lemma_mod_division_less_than_divisor(hundredths as int, 100);
            vstd::arithmetic::div_mod::lemma_mod_division_less_than_divisor(hundredths as int % 100, 10);
        }
        let int_part = hundredths / 100;
        let frac = hundredths % 100;
        let mut out = u64_to_string(int_part);
        out.append(".");
        out.append(digit_str(frac / 10));
        out.append(digit_str(frac % 10));
        out.append(unit);
        proof {
            reveal_strlit(".");
            assert(("."@) =~= seq!['.']);
            assert((hundredths % 100) as nat % 10 == hundredths as nat % 10) by (nonlinear_arith);
            assert(out@ =~= spec_format_file_size(bytes as nat));
        }
        out
    }
}

/// The scaled hundredths of a byte count fit comfortably in 64 bits.
proof fn lemma_size_parts_fit(bytes: nat, div: nat)
    requires
        div == spec_size_divisor(bytes),
        bytes <= 0xFFFF_FFFF_FFFF_FFFF,
    ensures
        (bytes / div) * 100 <= 0x1_0000_0000,
        (bytes % div) * 100 + div / 2 <= 200 * div,
        ((bytes % div) * 100 + div / 2) / div <= 200,
        0 <= ((bytes % div) * 100 + div / 2) / div,
{
    vstd::arithmetic::div_mod::lemma_mod_division_less_than_divisor(bytes as int, div as int);
    let rem = bytes % div;
    assert(rem * 100 + div / 2 <= 200 * div) by (nonlinear_arith)
        requires rem < div && div >= 1;
    vstd::arithmetic::div_mod::lemma_div_is_ordered((rem * 100 + div / 2) as int, 200 * div as int, div as int);
    vstd::arithmetic::div_mod::lemma_div_multiples_vanish(200, div as int);
    vstd::arithmetic::div_mod::lemma_div_pos_is_pos((rem * 100 + div / 2) as int, div as int);
    if bytes < 0x100_0000_0000 {
        vstd::arithmetic::div_mod::lemma_div_is_ordered(bytes as int, 0x100_0000_0000, div as int);
        assert(0x100_0000_0000int / (div as int) <= 0x100_0000_0000) by (nonlinear_arith)
            requires div >= 1;
        let w = bytes / div;
        if bytes < 1024 {
            assert(w <= bytes);
        } else if bytes < 0x10_0000 {
            vstd::arithmetic::div_mod::lemma_div_is_ordered(bytes as int, 0xF_FFFF, 1024);
        } else if bytes < 0x4000_0000 {
            vstd::arithmetic::div_mod::lemma_div_is_ordered(bytes as int, 0x3FFF_FFFF, 0x10_0000);
        } else {
            vstd::arithmetic::div_mod::lemma_div_is_ordered(bytes as int, 0xFF_FFFF_FFFF, 0x4000_0000);
        }
        assert(w <= 0xFF_FFFF);
        assert(w * 100 <= 0x1_0000_0000) by (nonlinear_arith)
            requires w <= 0xFF_FFFF;
    } else {
        assert(div == 0x100_0000_0000);
        vstd::arithmetic::div_mod::lemma_div_is_ordered(bytes as int, 0xFFFF_FFFF_FFFF_FFFF, div as int);
        let w = bytes / div;
        assert(w <= 0xFF_FFFF);
        assert(w * 100 <= 0x1_0000_0000) by (nonlinear_arith)
            requires w <= 0xFF_FFFF;
    }
}

/// The unit divisor used for a byte count.
pub open spec fn spec_size_divisor(bytes: nat) -> nat {
    if bytes < 1024 {
        1
    } else if bytes < 1024 * 1024 {
        1024
    } else if bytes < 1024 * 1024 * 1024 {
        1024 * 1024
    } else if bytes < 1024 * 1024 * 1024 * 1024 {
        1024 * 1024 * 1024
    } else {
        1024 * 1024 * 1024 * 1024
    }
}

/// The unit suffix used for a byte count.
pub open spec fn spec_size_unit(bytes: nat) -> Seq<char> {
    if bytes < 1024 {
        " B"@
    } else if bytes < 1024 * 1024 {
        " KB"@
    } else if bytes < 1024 * 1024 * 1024 {
        " MB"@
    } else if bytes < 1024 * 1024 * 1024 * 1024 {
        " GB"@
    } else {
        " TB"@
    }
}

/// What [`FormatUtils::format_file_size`] renders: the byte count scaled to
/// its unit, in hundredths rounded half-up, as `<whole>.<two digits><unit>`.
pub open spec fn spec_format_file_size(bytes: nat) -> Seq<char> {
    let div = spec_size_divisor(bytes);
    let hundredths = (bytes / div) * 100 + ((bytes % div) * 100 + div / 2) / div;
    spec_decimal(hundredths / 100) + "."@ + seq![
        spec_digit_char((hundredths % 100) / 10),
        spec_digit_char(hundredths % 10),
    ] + spec_size_unit(bytes)
}

/// Cache bookkeeping: the configured location and size budget. Scanning and
/// deleting cache files is the host's work.
pub struct CacheManager {
    cache_dir: std::path::PathBuf,
    max_size_bytes: u64,
}

impl CacheManager {
    /// The configured size budget, in bytes.
    pub closed spec fn spec_max_size(&self) -> u64 {
        self.max_size_bytes
    }

    /// The configured location.
    pub closed spec fn spec_dir(&self) -> std::path::PathBuf {
        self.cache_dir
    }

    /// Creates a manager over a cache directory with a size budget.
    pub fn new(cache_dir: std::path::PathBuf, max_size_bytes: u64) -> (r: Self)
        ensures
            r.spec_max_size() == max_size_bytes,
            r.spec_dir() == cache_dir,
    {
        CacheManager { cache_dir, max_size_bytes }
    }

    /// How many bytes over budget a measured cache size is (zero within
    /// budget): what a cleanup pass must remove.
    pub fn bytes_over_budget(&self, current_size: u64) -> (r: u64)
        ensures
            current_size <= self.spec_max_size() ==> r == 0,
            current_size > self.spec_max_size() ==> r == current_size - self.spec_max_size(),
    {
        if current_size <= self.max_size_bytes {
            0
        } else {
            current_size - self.max_size_bytes
        }
    }
}

/// Thumbnail generation; the decoding and scaling are the host's work.
pub struct ThumbnailGenerator;

/// Performance profiler: a start instant and labelled elapsed readings.
pub struct Profiler {
    start_time: std::time::Instant,
    markers: Vec<(String, u128)>,
}

/// One rendered profiler line: two spaces, the label, a colon, the elapsed
/// nanoseconds and a newline.
pub open spec fn spec_marker_line(label: Seq<char>, nanos: nat) -> Seq<char> {
    "  "@ + label + ": "@ + spec_decimal(nanos) + "ns\n"@
}

/// The rendered report: a heading, then one line per marker in order.
pub open spec fn spec_report(markers: Seq<(String, u128)>) -> Seq<char>
    decreases markers.len(),
{
    if markers.len() == 0 {
        "Performance Report:\n"@
    } else {
        spec_report(markers.drop_last()) + spec_marker_line(
            markers.last().0@,
            markers.last().1 as nat,
        )
    }
}

impl Profiler {
    /// The labelled readings taken so far.
    pub closed spec fn spec_markers(&self) -> Seq<(String, u128)> {
        self.markers@
    }

    /// Starts a profiler at the current instant.
    pub fn new() -> (r: Self)
        ensures
            r.spec_markers().len() == 0,
    {
        Profiler { start_time: host::now_instant(), markers: Vec::new() }
    }

    /// Records the elapsed time under a label.
    pub fn mark(&mut self, label: String)
        ensures
            final(self).spec_markers().len() == old(self).spec_markers().len() + 1,
            final(self).spec_markers().last().0 == label,
            final(self).spec_markers().drop_last() == old(self).spec_markers(),
    {
        let elapsed = host::elapsed_nanos(&self.start_time);
        self.markers.push((label, elapsed));
        proof {
            assert(final(self).markers@.drop_last() =~= old(self).markers@);
        }
    }

    /// Renders the readings as one report string.
    pub fn report(&self) -> (r: String)
        ensures
            r@ == spec_report(self.spec_markers()),
    {
        let mut out: String = "Performance Report:\n".to_owned();
        let n = self.markers.len();
        let mut i: usize = 0;
        while i < n
            invariant
                n == self.markers@.len(),
                i <= n,
                out@ == spec_report(self.markers@.subrange(0, i as int)),
            decreases n - i,
        {
            out.append("  ");
            out.append(self.markers[i].0.as_str());
            out.append(": ");
            let num = u128_to_string(self.markers[i].1);
            out.append(num.as_str());
            out.append("ns\n");
            i = i + 1;
            proof {
                let pre = self.markers@.subrange(0, i - 1 as int);
                let cur = self.markers@.subrange(0, i as int);
                assert(cur.drop_last() =~= pre);
                assert(cur.last() == self.markers@[i - 1]);
                assert(out@ =~= spec_report(cur));
            }
        }
        proof {
            assert(self.markers@.subrange(0, n as int) =~= self.markers@);
        }
        out
    }
}

/// Renders a 128-bit count in decimal.
pub fn u128_to_string(n: u128) -> (r: String)
    ensures
        r@ == spec_decimal(n as nat),
    decreases n,
{
    if n < 10 {
        digit_str(n as u64).to_owned()
    } else {
        let high = u128_to_string(n / 10);
        let r = high.concat(digit_str((n % 10) as u64));
        proof {
            assert(r@ =~= spec_decimal(n as nat));
        }
        r
    }
}

/// Clamps a value between bounds: below `min` it becomes `min`, else above
/// `max` it becomes `max`.
pub fn clamp(value: i64, min: i64, max: i64) -> (r: i64)
    ensures
        r == (if value < min { min } else if value > max { max } else { value }),
{
    if value < min {
        min
    } else if value > max {
        max
    } else {
        value
    }
}

/// Initializes the cache system; the caches start empty, so there is nothing
/// to fail on.
pub fn initialize_cache() -> (r: Result<(), String>)
    ensures
        r is Ok,
{
    Ok(())
}

} // verus!
