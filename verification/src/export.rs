//! Export configuration: exporter settings, layered-image export entry
//! points, batch bookkeeping and the preset library. Encoding frames and
//! writing files are the host's work.

use vstd::prelude::*;
use vstd::string::StringExecFns;
use crate::host;
use crate::utils::str_eq;

verus! {

/// Video export engine configuration.
pub struct VideoExporter {
    codec: String,
    bitrate: u32,
    width: u32,
    height: u32,
    fps: u32,
}

impl VideoExporter {
    /// The configured bitrate, in kilobits per second.
    pub closed spec fn spec_bitrate(&self) -> u32 {
        self.bitrate
    }

    /// The configured codec name.
    pub closed spec fn spec_codec(&self) -> Seq<char> {
        self.codec@
    }

    /// The configured output size.
    pub closed spec fn spec_size(&self) -> (u32, u32) {
        (self.width, self.height)
    }

    /// Creates an exporter configuration.
    pub fn new(codec: String, bitrate: u32, width: u32, height: u32, fps: u32) -> (r: Self)
        ensures
            r.spec_codec() == codec@,
            r.spec_bitrate() == bitrate,
            r.spec_size() == (width, height),
    {
        VideoExporter { codec, bitrate, width, height, fps }
    }

    /// Estimated output size in bytes for a duration in fixed-point
    /// seconds: the video bitrate plus a 192 kbps audio stream, in bits,
    /// divided by eight.
    pub fn estimate_size(&self, duration: i64) -> (r: u64)
        requires
            0 <= duration <= crate::fixed::FX_MAX,
        ensures
            r == ((self.spec_bitrate() + 192) * 1000 * (duration as int)
                / (crate::fixed::SCALE as int)) / 8,
    {
        proof {
            let b = self.bitrate as int;
            let d = duration as int;
            let m = (b + 192) * 1000;
            assert(0 <= m <= 4_294_967_487_000i64);
            assert(0 <= m * d && m * d <= 4_294_967_487_000i64 * 0x20_0000_0000i64)
                by (nonlinear_arith)
                requires 0 <= m <= 4_294_967_487_000i64 && 0 <= d <= 0x20_0000_0000i64;
            assert((b + 192) * 1000 * d == m * d);
            vstd::arithmetic::div_mod::lemma_div_pos_is_pos(
                (b + 192) * 1000 * d, crate::fixed::SCALE as int);
            vstd::arithmetic::div_mod::lemma_div_pos_is_pos(
                (b + 192) * 1000 * d / (crate::fixed::SCALE as int), 8);
        }
        let bits: u128 = ((self.bitrate as u128) + 192) * 1000 * (duration as u128);
        let per_second = bits / (crate::fixed::SCALE as u128);
        (per_second / 8) as u64
    }
}

/// The still-image containers the exporter can write.
#[derive(Debug, Clone, Copy, PartialEq, Eq, Structural)]
pub enum ImageExportFormat {
    Png,
    Jpeg,
    WebP,
    Tiff,
}

/// The container an already-lowercased format name selects.
pub open spec fn spec_export_format(lower: Seq<char>) -> Option<ImageExportFormat> {
    if lower == "png"@ {
        Some(ImageExportFormat::Png)
    } else if lower == "jpg"@ || lower == "jpeg"@ {
        Some(ImageExportFormat::Jpeg)
    } else if lower == "webp"@ {
        Some(ImageExportFormat::WebP)
    } else if lower == "tiff"@ || lower == "tif"@ {
        Some(ImageExportFormat::Tiff)
    } else {
        None
    }
}

/// Image export engine.
pub struct ImageExporter;

impl ImageExporter {
    /// Selects the container for an already-lowercased format name.
    pub fn export_format_of(lower: &str) -> (r: Option<ImageExportFormat>)
        ensures
            r == spec_export_format(lower@),
    {
        if str_eq(lower, "png") {
            Some(ImageExportFormat::Png)
        } else if str_eq(lower, "jpg") || str_eq(lower, "jpeg") {
            Some(ImageExportFormat::Jpeg)
        } else if str_eq(lower, "webp") {
            Some(ImageExportFormat::WebP)
        } else if str_eq(lower, "tiff") || str_eq(lower, "tif") {
            Some(ImageExportFormat::Tiff)
        } else {
            None
        }
    }

    /// Validates an export format name, in any letter case: the container
    /// it selects, or the unsupported-format error naming the request.
    pub fn parse_format(format: &str) -> (r: Result<ImageExportFormat, String>)
        ensures
            r is Ok <==> spec_export_format(crate::host::lower_of(format@)) is Some,
            r is Ok ==> Some(r->Ok_0) == spec_export_format(crate::host::lower_of(format@)),
            r is Err ==> (r->Err_0)@ == "Unsupported format: "@ + format@,
    {
        let lower = crate::host::lowercase(format);
        match Self::export_format_of(lower.as_str()) {
            Some(f) => Ok(f),
            None => {
                let mut message: String = "Unsupported format: ".to_owned();
                message.append(format);
                Err(message)
            },
        }
    }

    /// Exports a layered document with layers preserved. Writing the
    /// layered container is the host's work; accepting the job never fails.
    pub fn export_psd(
        _layers: &[crate::image_engine::ImageLayer],
        _width: u32,
        _height: u32,
        _output_path: &std::path::PathBuf,
    ) -> (r: Result<(), String>)
        ensures
            r is Ok,
    {
        Ok(())
    }
}

/// Batch export bookkeeping.
pub struct BatchExporter {
    max_parallel: usize,
}

impl BatchExporter {
    /// The configured parallelism.
    pub closed spec fn spec_max_parallel(&self) -> usize {
        self.max_parallel
    }

    /// Creates a batch exporter running at most `max_parallel` jobs at once.
    pub fn new(max_parallel: usize) -> (r: Self)
        ensures
            r.spec_max_parallel() == max_parallel,
    {
        BatchExporter { max_parallel }
    }
}

/// One queued export job.
#[derive(Debug)]
pub struct ExportJob {
    pub input: std::path::PathBuf,
    pub output_path: std::path::PathBuf,
    pub settings: ExportSettings,
}

/// The settings of one export job.
#[derive(Debug, Clone)]
pub enum ExportSettings {
    Video { codec: String, bitrate: u32, width: u32, height: u32, fps: u32 },
    Image { format: String, quality: u8 },
}

/// One stored export preset.
#[derive(Debug, Clone)]
pub struct ExportPreset {
    pub id: String,
    pub name: String,
    pub category: String,
    pub settings: ExportSettings,
}

/// The first preset with the given id.
pub open spec fn spec_preset_lookup(ps: Seq<ExportPreset>, id: Seq<char>) -> Option<int>
    decreases ps.len(),
{
    if ps.len() == 0 {
        None
    } else if ps[0].id@ == id {
        Some(0)
    } else {
        match spec_preset_lookup(ps.drop_first(), id) {
            Some(i) => Some(i + 1),
            None => None,
        }
    }
}

/// The export preset library, seeded with the built-in presets.
pub struct PresetManager {
    presets: Vec<ExportPreset>,
}

impl PresetManager {
    /// The stored presets, in order.
    pub closed spec fn spec_presets(&self) -> Seq<ExportPreset> {
        self.presets@
    }

    /// Creates a manager holding the three built-in presets: two video
    /// presets for streaming upload and one square social-media preset.
    pub fn new() -> (r: Self)
        ensures
            r.spec_presets().len() == 3,
            r.spec_presets()[0].name@ == "YouTube 1080p"@,
            r.spec_presets()[0].settings matches ExportSettings::Video { codec, bitrate, width, height, fps }
                && codec@ == "h264"@ && bitrate == 8000 && width == 1920 && height == 1080
                && fps == 30,
            r.spec_presets()[1].name@ == "YouTube 4K"@,
            r.spec_presets()[1].settings matches ExportSettings::Video { codec, bitrate, width, height, fps }
                && codec@ == "h265"@ && bitrate == 40000 && width == 3840 && height == 2160
                && fps == 30,
            r.spec_presets()[2].name@ == "Instagram Feed"@,
            r.spec_presets()[2].settings matches ExportSettings::Video { codec, bitrate, width, height, fps }
                && codec@ == "h264"@ && bitrate == 5000 && width == 1080 && height == 1080
                && fps == 30,
            forall|i: int| 0 <= i < 3 ==> (#[trigger] r.spec_presets()[i].id@).len() == 36
                && r.spec_presets()[i].category@ == "Social Media"@,
    {
        let mut manager = PresetManager { presets: Vec::new() };
        manager.load_default_presets();
        manager
    }

    /// Seeds the built-in presets.
    fn load_default_presets(&mut self)
        requires
            old(self).spec_presets().len() == 0,
        ensures
            final(self).spec_presets().len() == 3,
            final(self).spec_presets()[0].name@ == "YouTube 1080p"@,
            final(self).spec_presets()[0].settings matches ExportSettings::Video { codec, bitrate, width, height, fps }
                && codec@ == "h264"@ && bitrate == 8000 && width == 1920 && height == 1080
                && fps == 30,
            final(self).spec_presets()[1].name@ == "YouTube 4K"@,
            final(self).spec_presets()[1].settings matches ExportSettings::Video { codec, bitrate, width, height, fps }
                && codec@ == "h265"@ && bitrate == 40000 && width == 3840 && height == 2160
                && fps == 30,
            final(self).spec_presets()[2].name@ == "Instagram Feed"@,
            final(self).spec_presets()[2].settings matches ExportSettings::Video { codec, bitrate, width, height, fps }
                && codec@ == "h264"@ && bitrate == 5000 && width == 1080 && height == 1080
                && fps == 30,
            forall|i: int| 0 <= i < 3 ==> (#[trigger] final(self).spec_presets()[i].id@).len() == 36
                && final(self).spec_presets()[i].category@ == "Social Media"@,
    {
        self.presets.push(ExportPreset {
            id: host::new_id(),
            name: "YouTube 1080p".to_owned(),
            category: "Social Media".to_owned(),
            settings: ExportSettings::Video {
                codec: "h264".to_owned(),
                bitrate: 8000,
                width: 1920,
                height: 1080,
                fps: 30,
            },
        });
        self.presets.push(ExportPreset {
            id: host::new_id(),
            name: "YouTube 4K".to_owned(),
            category: "Social Media".to_owned(),
            settings: ExportSettings::Video {
                codec: "h265".to_owned(),
                bitrate: 40000,
                width: 3840,
                height: 2160,
                fps: 30,
            },
        });
        self.presets.push(ExportPreset {
            id: host::new_id(),
            name: "Instagram Feed".to_owned(),
            category: "Social Media".to_owned(),
            settings: ExportSettings::Video {
                codec: "h264".to_owned(),
                bitrate: 5000,
                width: 1080,
                height: 1080,
                fps: 30,
            },
        });
    }

    /// Gets a preset by id.
    pub fn get_preset(&self, id: &str) -> (r: Option<&ExportPreset>)
        ensures
            match r {
                Some(p) => spec_preset_lookup(self.spec_presets(), id@) is Some
                    && *p == self.spec_presets()[spec_preset_lookup(self.spec_presets(), id@).unwrap()],
                None => spec_preset_lookup(self.spec_presets(), id@) is None,
            },
    {
        let n = self.presets.len();
        let mut i: usize = 0;
        proof {
            assert(self.presets@.skip(0) =~= self.presets@);
        }
        while i < n
            invariant
                n == self.presets@.len(),
                i <= n,
                spec_preset_lookup(self.presets@, id@) == match spec_preset_lookup(
                    self.presets@.skip(i as int), id@) {
                    Some(j) => Some(j + i),
                    None => None::<int>,
                },
            decreases n - i,
        {
            let ghost rest = self.presets@.skip(i as int);
            proof {
                assert(rest[0] == self.presets@[i as int]);
            }
            if str_eq(self.presets[i].id.as_str(), id) {
                return Some(&self.presets[i]);
            }
            i = i + 1;
            proof {
                assert(rest.drop_first() =~= self.presets@.skip(i as int));
            }
        }
        proof {
            assert(self.presets@.skip(n as int).len() == 0);
        }
        None
    }

    /// Lists every stored preset, in order.
    pub fn list_presets(&self) -> (r: &[ExportPreset])
        ensures
            r@ == self.spec_presets(),
    {
        self.presets.as_slice()
    }

    /// Stores one more preset at the back.
    pub fn add_preset(&mut self, preset: ExportPreset)
        ensures
            final(self).spec_presets() == old(self).spec_presets().push(preset),
    {
        self.presets.push(preset);
    }
}

} // verus!
