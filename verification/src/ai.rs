//! Machine-assisted editing entry points: segmentation, upscaling, scene
//! detection, object tracking, color matching and reframing. The inference
//! models themselves run in the host's pipeline; these entry points manage
//! model records and produce the documented defaults on plain buffers.

use vstd::prelude::*;
use crate::fixed::SCALE;

verus! {

/// Manages model files under a models directory.
pub struct AIModelManager {
    models_dir: std::path::PathBuf,
}

impl AIModelManager {
    /// The configured models directory.
    pub closed spec fn spec_models_dir(&self) -> std::path::PathBuf {
        self.models_dir
    }

    /// Creates a manager over a models directory.
    pub fn new(models_dir: std::path::PathBuf) -> (r: Self)
        ensures
            r.spec_models_dir() == models_dir,
    {
        AIModelManager { models_dir }
    }

    /// Loads a model by name. Reading and initializing the model file is
    /// the host's work; the returned record names the model and defaults to
    /// the segmentation kind.
    pub fn load_model(&self, model_name: &str) -> (r: Result<AIModel, String>)
        ensures
            r is Ok,
            r.unwrap().name@ == model_name@,
            r.unwrap().model_type == AIModelType::Segmentation,
    {
        Ok(AIModel {
            name: model_name.to_owned(),
            model_type: AIModelType::Segmentation,
        })
    }
}

/// A loaded model record.
#[derive(Debug, Clone)]
pub struct AIModel {
    pub name: String,
    pub model_type: AIModelType,
}

/// What a model does.
#[derive(Debug, Clone, Copy, PartialEq, Eq, Structural)]
pub enum AIModelType {
    Segmentation,
    SuperResolution,
    SceneDetection,
    ObjectDetection,
    FaceDetection,
    StyleTransfer,
}

/// Image segmentation: background removal and subject selection.
pub struct ImageSegmentation;

impl ImageSegmentation {
    /// Segments the subject from the background: a full-coverage mask, one
    /// byte per pixel, all `255` (everything counted as subject until the
    /// host's model refines it).
    pub fn segment_subject(_image: &[u8], width: u32, height: u32) -> (r: Result<Vec<u8>, String>)
        requires
            width * height <= 0x4000_0000,
        ensures
            r is Ok,
            r.unwrap()@.len() == width * height,
            forall|i: int| 0 <= i < r.unwrap()@.len() ==> r.unwrap()@[i] == 255,
    {
        proof {
            assert((width as usize) * (height as usize) == width * height) by (nonlinear_arith)
                requires width * height <= 0x4000_0000;
        }
        let len: usize = (width as usize) * (height as usize);
        let mut mask: Vec<u8> = Vec::new();
        let mut i: usize = 0;
        while i < len
            invariant
                i <= len,
                mask@.len() == i,
                forall|j: int| 0 <= j < i ==> mask@[j] == 255,
            decreases len - i,
        {
            mask.push(255);
            i = i + 1;
        }
        Ok(mask)
    }

    /// Refines selection edges: trimap refinement is the host's work, so
    /// the mask passes through unchanged.
    pub fn refine_edges(mask: &[u8], _original: &[u8], _width: u32, _height: u32) -> (r: Vec<u8>)
        ensures
            r@ == mask@,
    {
        copy_bytes(mask)
    }
}

/// Copies a byte slice into a fresh buffer.
fn copy_bytes(b: &[u8]) -> (r: Vec<u8>)
    ensures
        r@ == b@,
{
    let mut out: Vec<u8> = Vec::new();
    let n = b.len();
    let mut i: usize = 0;
    while i < n
        invariant
            n == b@.len(),
            i <= n,
            out@ == b@.subrange(0, i as int),
        decreases n - i,
    {
        out.push(b[i]);
        proof {
            assert(out@ =~= b@.subrange(0, i + 1));
        }
        i = i + 1;
    }
    proof {
        assert(b@.subrange(0, n as int) =~= b@);
    }
    out
}

/// Super-resolution upscaling.
pub struct SuperResolution;

impl SuperResolution {
    /// Upscales an image by an integer factor: an RGBA buffer of the scaled
    /// size, transparent until the host's model fills it. The scaled frame
    /// must fit the engine's pixel budget and each scaled dimension the
    /// machine word.
    pub fn upscale(_image: &[u8], width: u32, height: u32, scale_factor: u32)
        -> (r: Result<Vec<u8>, String>)
        requires
            width * scale_factor <= u32::MAX,
            height * scale_factor <= u32::MAX,
            (width * scale_factor) * (height * scale_factor) <= 0x400_0000,
        ensures
            r is Ok,
            r.unwrap()@.len() == (width * scale_factor) * (height * scale_factor) * 4,
            forall|i: int| 0 <= i < r.unwrap()@.len() ==> r.unwrap()@[i] == 0,
    {
        let new_width: u32 = width * scale_factor;
        let new_height: u32 = height * scale_factor;
        proof {
            assert((new_width as usize) * (new_height as usize)
                == (new_width as nat) * (new_height as nat)
                && (new_width as usize) * (new_height as usize) <= 0x400_0000int)
                by (nonlinear_arith)
                requires (new_width as int) * (new_height as int) <= 0x400_0000;
        }
        let pixels: usize = (new_width as usize) * (new_height as usize);
        let mut buf: Vec<u8> = Vec::new();
        let mut i: usize = 0;
        while i < pixels
            invariant
                i <= pixels,
                buf@.len() == 4 * i,
                forall|j: int| 0 <= j < 4 * i ==> buf@[j] == 0,
            decreases pixels - i,
        {
            buf.push(0);
            buf.push(0);
            buf.push(0);
            buf.push(0);
            i = i + 1;
        }
        proof {
            assert(buf@.len() == 4 * pixels);
            assert(4 * (((new_width as nat) * (new_height as nat)) as int)
                == ((new_width * new_height * 4) as int)) by (nonlinear_arith)
                requires (new_width as int) * (new_height as int) <= 0x400_0000;
        }
        Ok(buf)
    }

    /// Enhances image quality. Denoising and sharpening kernels are the
    /// host's work; the image passes through unchanged.
    pub fn enhance(image: &[u8], _width: u32, _height: u32) -> (r: Result<Vec<u8>, String>)
        ensures
            r is Ok,
            r.unwrap()@ == image@,
    {
        Ok(copy_bytes(image))
    }
}

/// Scene-change detection for video.
pub struct SceneDetector;

/// One detected scene change; the timestamp in fixed-point seconds and the
/// confidence in fixed-point units of `1.0`.
#[derive(Debug, Clone)]
pub struct SceneChange {
    pub frame_number: usize,
    pub timestamp: i64,
    pub scene_type: String,
    pub confidence: i64,
}

impl SceneDetector {
    /// Detects scene changes in a frame sequence. Semantic scene analysis is
    /// the host's work; until then a placeholder cut is reported every
    /// hundredth frame, timestamped at thirty frames per second with a fixed
    /// confidence of `0.85`.
    pub fn detect_scenes(frames: Vec<Vec<u8>>, _threshold: i64) -> (r: Vec<SceneChange>)
        requires
            frames@.len() <= 0x10_0000,
        ensures
            r@.len() == (frames@.len() + 99) / 100,
            forall|j: int| 0 <= j < r@.len()
                ==> (#[trigger] r@[j]).frame_number == 100 * j
                    && r@[j].timestamp == 100 * j * (SCALE as int) / 30
                    && r@[j].confidence == 85 * (SCALE as int) / 100,
    {
        let mut scenes: Vec<SceneChange> = Vec::new();
        let n = frames.len();
        let mut i: usize = 0;
        while i < n
            invariant
                n <= 0x10_0000,
                i <= n,
                i % 100 == 0 || scenes@.len() == (i + 99) / 100,
                i % 100 == 0 ==> scenes@.len() == i / 100,
                forall|j: int| 0 <= j < scenes@.len()
                    ==> (#[trigger] scenes@[j]).frame_number == 100 * j
                        && scenes@[j].timestamp == 100 * j * (SCALE as int) / 30
                        && scenes@[j].confidence == 85 * (SCALE as int) / 100,
            decreases n - i,
        {
            if i % 100 == 0 {
                proof {
                    vstd::arithmetic::div_mod::lemma_fundamental_div_mod(i as int, 100);
                    assert((i as int) * (SCALE as int) / 30 == 100 * (i as int / 100) * (SCALE as int) / 30);
                    vstd::arithmetic::div_mod::lemma_div_pos_is_pos((i as int) * (SCALE as int), 30);
                    assert((i as int) * (SCALE as int) <= 0x10_0000i64 * (SCALE as int))
                        by (nonlinear_arith)
                        requires 0 <= i <= 0x10_0000;
                    vstd::arithmetic::div_mod::lemma_div_is_ordered((i as int) * (SCALE as int),
                        0x10_0000i64 * (SCALE as int), 30);
                }
                let ts = (i as i64) * SCALE / 30;
                let ghost pre = scenes@;
                scenes.push(SceneChange {
                    frame_number: i,
                    timestamp: ts,
                    scene_type: "outdoor".to_owned(),
                    confidence: 85 * SCALE / 100,
                });
                proof {
                    assert(scenes@.len() == pre.len() + 1);
                    vstd::arithmetic::div_mod::lemma_fundamental_div_mod(i as int, 100);
                }
            }
            i = i + 1;
            proof {
                vstd::arithmetic::div_mod::lemma_fundamental_div_mod(i as int, 100);
                vstd::arithmetic::div_mod::lemma_fundamental_div_mod(i - 1, 100);
                vstd::arithmetic::div_mod::lemma_fundamental_div_mod(i + 99, 100);
                vstd::arithmetic::div_mod::lemma_fundamental_div_mod(i - 1 + 99, 100);
            }
        }
        proof {
            vstd::arithmetic::div_mod::lemma_fundamental_div_mod(n as int, 100);
            vstd::arithmetic::div_mod::lemma_fundamental_div_mod(n as int + 99, 100);
        }
        scenes
    }
}

/// Object detection and tracking.
pub struct ObjectDetector;

impl ObjectDetector {
    /// Tracks an object across frames. Motion models run in the host's
    /// pipeline; no boxes are produced here.
    pub fn track_object(_frames: Vec<Vec<u8>>, _initial_box: (u32, u32, u32, u32))
        -> (r: Vec<(u32, u32, u32, u32)>)
        ensures
            r@.len() == 0,
    {
        Vec::new()
    }
}

/// One detected object; the confidence in fixed-point units of `1.0`.
#[derive(Debug, Clone)]
pub struct Detection {
    pub x: u32,
    pub y: u32,
    pub width: u32,
    pub height: u32,
    pub class: String,
    pub confidence: i64,
}

/// Face detection and analysis.
pub struct FaceDetector;

/// One detected face; landmarks and confidence in fixed-point units.
#[derive(Debug)]
pub struct FaceDetection {
    pub x: u32,
    pub y: u32,
    pub width: u32,
    pub height: u32,
    pub landmarks: Vec<(i64, i64)>,
    pub confidence: i64,
}

/// Parameters for face enhancement, in fixed-point units of `1.0`.
#[derive(Debug, Clone)]
pub struct FaceEnhanceParams {
    pub smoothing: i64,
    pub eye_enhancement: i64,
    pub teeth_whitening: i64,
    pub blemish_removal: bool,
}

/// Artistic style transfer.
pub struct StyleTransfer;

/// Automatic color and exposure correction.
pub struct AutoColorCorrection;

impl AutoColorCorrection {
    /// Automatically corrects color and exposure. The learned corrections
    /// run in the host's pipeline; the image is left unchanged here.
    pub fn auto_correct(image: &mut [u8], _width: u32, _height: u32)
        ensures
            final(image)@ == old(image)@,
    {
    }

    /// Matches color characteristics from a reference image. The transfer
    /// runs in the host's pipeline; the target is left unchanged here.
    pub fn color_match(target: &mut [u8], _reference: &[u8], _width: u32, _height: u32)
        ensures
            final(target)@ == old(target)@,
    {
    }
}

/// Speech transcription for captions.
pub struct SpeechRecognition;

/// Automatic reframing for a different aspect ratio.
pub struct AutoReframe;

impl AutoReframe {
    /// Computes per-frame crops for a target aspect ratio. Subject
    /// detection runs in the host's pipeline; no crops are produced here.
    pub fn reframe(
        _frames: Vec<Vec<u8>>,
        _source_width: u32,
        _source_height: u32,
        _target_aspect: (u32, u32),
        _priority: ReframePriority,
    ) -> (r: Vec<ReframeData>)
        ensures
            r@.len() == 0,
    {
        Vec::new()
    }
}

/// What reframing keeps centered.
#[derive(Debug, Clone, Copy, PartialEq, Eq, Structural)]
pub enum ReframePriority {
    People,
    Action,
    Center,
}

/// The crop chosen for one frame.
#[derive(Debug, Clone)]
pub struct ReframeData {
    pub frame_number: usize,
    pub crop_x: u32,
    pub crop_y: u32,
    pub crop_width: u32,
    pub crop_height: u32,
}

} // verus!
