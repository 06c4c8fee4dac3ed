//! Behavior of the surrounding library: format utilities, size formatting,
//! preset and effect catalogues, caches, selections, the expression engine
//! and the command layer.

use motioncore::ai::{AIModelType, ImageSegmentation};
use motioncore::commands;
use motioncore::effects::EffectRegistry;
use motioncore::export::{ExportSettings, ImageExportFormat, ImageExporter, PresetManager, VideoExporter};
use motioncore::fixed::SCALE;
use motioncore::image_engine::Selection;
use motioncore::lofi_studio::{ExportPlatform, LofiAI, LofiExportPreset, PaletteReference};
use motioncore::motion_graphics::ExpressionEngine;
use motioncore::utils::{clamp, FormatUtils, MediaType, Profiler, SystemInfo, u64_to_string};
use motioncore::video_engine::{ClipInstance, FrameCache, TimelineCompositor, VideoClip, VideoProcessor};

#[test]
fn format_support_folds_letter_case() {
    // Would fail if the case folding handed its argument back unchanged.
    assert!(FormatUtils::is_supported("MP4"));
    assert!(FormatUtils::is_supported("mp4"));
    assert!(FormatUtils::is_supported("TiFf"));
    assert!(!FormatUtils::is_supported("exe"));
    // Readable as audio, but not on the supported list.
    assert!(!FormatUtils::is_supported("ogg"));
}

#[test]
fn media_types_classify_by_extension() {
    assert_eq!(FormatUtils::get_media_type("MOV"), Some(MediaType::Video));
    assert_eq!(FormatUtils::get_media_type("svg"), Some(MediaType::Image));
    assert_eq!(FormatUtils::get_media_type("FLAC"), Some(MediaType::Audio));
    assert_eq!(FormatUtils::get_media_type("docx"), None);
}

#[test]
fn file_sizes_format_with_two_decimals_and_a_unit() {
    assert_eq!(FormatUtils::format_file_size(0), "0.00 B");
    assert_eq!(FormatUtils::format_file_size(1023), "1023.00 B");
    assert_eq!(FormatUtils::format_file_size(1536), "1.50 KB");
    assert_eq!(FormatUtils::format_file_size(1024 * 1024), "1.00 MB");
    assert_eq!(FormatUtils::format_file_size(5 * 1024 * 1024 * 1024), "5.00 GB");
    assert_eq!(FormatUtils::format_file_size(1024u64.pow(4) * 3 / 2), "1.50 TB");
}

#[test]
fn decimal_rendering_is_exact() {
    assert_eq!(u64_to_string(0), "0");
    assert_eq!(u64_to_string(7), "7");
    assert_eq!(u64_to_string(1234567890), "1234567890");
    assert_eq!(u64_to_string(u64::MAX), "18446744073709551615");
}

#[test]
fn clamp_pins_values_to_their_bounds() {
    assert_eq!(clamp(5, 0, 10), 5);
    assert_eq!(clamp(-5, 0, 10), 0);
    assert_eq!(clamp(50, 0, 10), 10);
}

#[test]
fn system_info_reports_the_advertised_configuration() {
    let mem = SystemInfo::memory_info();
    assert_eq!(mem.total_bytes, 16 * 1024 * 1024 * 1024);
    assert_eq!(mem.available_bytes, 8 * 1024 * 1024 * 1024);
    let gpus = SystemInfo::gpu_info();
    assert_eq!(gpus.len(), 1);
    assert_eq!(gpus[0].name, "Graphics Card");
    let cpu = SystemInfo::cpu_info();
    assert!(cpu.cores >= 1);
    assert_eq!(cpu.cores, cpu.threads);
}

#[test]
fn profiler_reports_every_marker_in_order() {
    let mut profiler = Profiler::new();
    profiler.mark("setup".to_string());
    profiler.mark("render".to_string());
    let report = profiler.report();
    assert!(report.starts_with("Performance Report:\n"));
    let setup_at = report.find("  setup: ").expect("setup line");
    let render_at = report.find("  render: ").expect("render line");
    assert!(setup_at < render_at);
    assert!(report.ends_with("ns\n"));
}

#[test]
fn preset_manager_seeds_and_finds_presets() {
    let manager = PresetManager::new();
    let presets = manager.list_presets();
    assert_eq!(presets.len(), 3);
    assert_eq!(presets[0].name, "YouTube 1080p");
    match &presets[1].settings {
        ExportSettings::Video { bitrate, width, height, .. } => {
            assert_eq!((*bitrate, *width, *height), (40000, 3840, 2160));
        }
        other => panic!("expected video settings, got {:?}", other),
    }
    let id = presets[2].id.clone();
    assert_eq!(manager.get_preset(&id).expect("by id").name, "Instagram Feed");
    assert!(manager.get_preset("absent").is_none());
}

#[test]
fn export_format_validation_folds_case_and_names_the_reject() {
    assert_eq!(ImageExporter::parse_format("PNG"), Ok(ImageExportFormat::Png));
    assert_eq!(ImageExporter::parse_format("jpeg"), Ok(ImageExportFormat::Jpeg));
    assert_eq!(ImageExporter::parse_format("Tif"), Ok(ImageExportFormat::Tiff));
    assert_eq!(
        ImageExporter::parse_format("bmp"),
        Err("Unsupported format: bmp".to_string()),
    );
}

#[test]
fn estimated_export_size_follows_the_bitrate_formula() {
    let exporter = VideoExporter::new("h264".to_string(), 8000, 1920, 1080, 30);
    // (8000 + 192) kbps for 10 seconds is 81,920,000 bits: 10,240,000 bytes.
    assert_eq!(exporter.estimate_size(10 * SCALE), 10_240_000);
}

#[test]
fn effect_registry_serves_its_catalogue() {
    let registry = EffectRegistry::new();
    assert_eq!(registry.list_effects().len(), 2);
    let blur = registry.get_effect("gaussian_blur").expect("blur");
    assert_eq!(blur.name, "Gaussian Blur");
    assert_eq!(blur.parameters.len(), 1);
    assert_eq!(blur.parameters[0].default_value, 5 * SCALE);
    assert!(registry.get_effect("nonexistent").is_none());
}

#[test]
fn frame_cache_evicts_its_oldest_entry_when_full() {
    let mut cache = FrameCache::new(2);
    cache.insert("a".to_string(), vec![1]);
    cache.insert("b".to_string(), vec![2]);
    cache.insert("c".to_string(), vec![3]);
    assert!(cache.get("a").is_none(), "the oldest entry was evicted");
    assert_eq!(cache.get("b").expect("kept"), &vec![2]);
    assert_eq!(cache.get("c").expect("kept"), &vec![3]);
}

#[test]
fn frame_cache_reinsertion_replaces_the_stored_frame() {
    let mut cache = FrameCache::new(4);
    cache.insert("k".to_string(), vec![1]);
    cache.insert("other".to_string(), vec![9]);
    cache.insert("k".to_string(), vec![2]);
    assert_eq!(cache.get("k").expect("replaced"), &vec![2], "one entry per key, latest wins");
    assert_eq!(cache.get("other").expect("kept"), &vec![9]);
    // Replacing does not evict: both keys are still cached after a third
    // insert under an existing key at capacity two.
    let mut tight = FrameCache::new(2);
    tight.insert("a".to_string(), vec![1]);
    tight.insert("b".to_string(), vec![2]);
    tight.insert("a".to_string(), vec![3]);
    assert_eq!(tight.get("a").expect("replaced"), &vec![3]);
    assert_eq!(tight.get("b").expect("kept"), &vec![2]);
}

#[test]
fn rectangle_selection_covers_exactly_the_clipped_rectangle() {
    let sel = Selection::rectangle(4, 4, 1, 1, 2, 10);
    // Rows 1 to 3 and columns 1 to 2 are selected; the height clips at 4.
    let mask = sel.mask_bytes();
    for y in 0..4u32 {
        for x in 0..4u32 {
            let expected = (1..3).contains(&x) && (1..4).contains(&y);
            assert_eq!(mask[(y * 4 + x) as usize] == 255, expected, "at ({x},{y})");
        }
    }
}

#[test]
fn segmentation_masks_start_fully_covered() {
    let mask = ImageSegmentation::segment_subject(&[], 3, 2).expect("mask");
    assert_eq!(mask.len(), 6);
    assert!(mask.iter().all(|b| *b == 255));
}

#[test]
fn model_loading_names_the_model() {
    let manager = motioncore::ai::AIModelManager::new(motioncore::host::path_from("models"));
    let model = manager.load_model("portrait").expect("model");
    assert_eq!(model.name, "portrait");
    assert_eq!(model.model_type, AIModelType::Segmentation);
}

#[test]
fn lofi_presets_match_their_platforms() {
    let yt = LofiExportPreset::for_platform(ExportPlatform::YouTube);
    assert_eq!((yt.video_settings.width, yt.video_settings.height), (1920, 1080));
    assert!(yt.seo_optimize);
    let tiktok = LofiExportPreset::for_platform(ExportPlatform::TikTok);
    assert_eq!((tiktok.video_settings.width, tiktok.video_settings.height), (1080, 1920));
    let generic = LofiExportPreset::for_platform(ExportPlatform::Discord);
    assert_eq!(generic.id, "generic");
    assert!(!generic.seo_optimize);
}

#[test]
fn lofi_metadata_builds_its_title_from_the_scene() {
    let preset = LofiExportPreset::for_platform(ExportPlatform::YouTube);
    let scene = cozy_scene();
    let metadata = preset.generate_metadata(&scene);
    assert_eq!(metadata.title, "Lofi cozy - Night Desk Beats to Study/Relax");
    assert_eq!(metadata.tags.len(), 5);
    assert_eq!(metadata.tags[4], "cozy");
}

fn cozy_scene() -> motioncore::lofi_studio::LofiScene {
    motioncore::lofi_studio::LofiScene {
        id: "scene".to_string(),
        name: "Night Desk".to_string(),
        width: 1920,
        height: 1080,
        duration: 60 * SCALE,
        fps: 30,
        background: None,
        characters: Vec::new(),
        props: Vec::new(),
        overlays: Vec::new(),
        foreground: None,
        music_track: None,
        ambient_sounds: Vec::new(),
        animation_presets: Vec::new(),
        lighting: motioncore::lofi_studio::LightingSettings {
            ambient_color: (255, 200, 150),
            ambient_intensity: SCALE,
            key_light: None,
            fill_light: None,
            rim_light: None,
        },
        color_palette: LofiAI::suggest_palettes(PaletteReference::Mood {
            keyword: "cozy".to_string(),
        })
        .remove(0),
        loop_settings: motioncore::lofi_studio::LoopSettings {
            enabled: true,
            auto_detect_loop_point: false,
            visual_loop_point: 0,
            audio_loop_point: 0,
            crossfade_duration: SCALE,
            tempo_sync: false,
        },
        tags: Vec::new(),
        mood: "cozy".to_string(),
        template_id: None,
    }
}

#[test]
fn palette_suggestions_carry_five_warm_colors() {
    let palettes = LofiAI::suggest_palettes(PaletteReference::Mood { keyword: "cozy".to_string() });
    assert_eq!(palettes.len(), 1);
    assert_eq!(palettes[0].colors.len(), 5);
    assert_eq!(palettes[0].colors[0], (255, 184, 108));
}

#[test]
fn expression_engine_publishes_builtins_and_yields_nothing() {
    let mut engine = ExpressionEngine::new();
    let result = engine.evaluate("time * 360", 5 * SCALE);
    assert!(result.is_none());
    assert_eq!(engine.get_variable("time"), Some(5 * SCALE));
    assert_eq!(engine.get_variable("value"), Some(0));
    assert_eq!(engine.get_variable("unknown"), None);
}

#[test]
fn wiggle_is_deterministic_in_its_inputs() {
    let engine = ExpressionEngine::new();
    let a = engine.wiggle(5 * SCALE, 20 * SCALE, 3 * SCALE / 7);
    let b = engine.wiggle(5 * SCALE, 20 * SCALE, 3 * SCALE / 7);
    assert_eq!(a, b);
    assert!(a.abs() <= 20 * SCALE, "bounded by the amplitude: {a}");
}

#[test]
fn timeline_creation_seeds_a_video_and_an_audio_track() {
    let timeline = commands::video::create_timeline(1920, 1080, 30).expect("timeline");
    assert_eq!(timeline.tracks.len(), 2);
    assert_eq!(timeline.fps, 30);
    assert_eq!(timeline.duration, 0);
}

#[test]
fn clip_splitting_partitions_the_extent() {
    let (a, b) = commands::video::split_clip("t".to_string(), "c".to_string(), 8 * SCALE)
        .expect("split");
    assert_eq!(a.end_time, 8 * SCALE);
    assert_eq!(a.duration, 8 * SCALE);
    assert_eq!(b.start_time, 8 * SCALE);
    assert_eq!(b.duration, 12 * SCALE);
    assert_eq!(b.offset, 8 * SCALE);
}

#[test]
fn unknown_layer_kinds_are_rejected() {
    let err = commands::image::create_layer("hologram".to_string(), "x".to_string())
        .expect_err("unknown kind");
    assert_eq!(err, "Unknown layer type");
    let ok = commands::image::create_layer("text".to_string(), "caption".to_string())
        .expect("text layer");
    assert_eq!(ok.name, "caption");
}

#[test]
fn export_preset_catalogue_follows_the_media_type() {
    let video = commands::export::get_export_presets("video".to_string()).expect("video");
    assert_eq!(video.len(), 5);
    let image = commands::export::get_export_presets("image".to_string()).expect("image");
    assert_eq!(image.len(), 3);
    let all = commands::export::get_export_presets("all".to_string()).expect("all");
    assert_eq!(all.len(), 8);
    assert_eq!(all[0].name, "YouTube 1080p");
    assert_eq!(all[7].name, "Print TIFF");
    let none = commands::export::get_export_presets("audio".to_string()).expect("none");
    assert!(none.is_empty());
}

#[test]
fn supported_format_catalogue_is_complete() {
    let catalogue = commands::utils::get_supported_formats().expect("formats");
    assert_eq!(catalogue.len(), 3);
    assert_eq!(catalogue[0].category, "Video");
    assert_eq!(catalogue[0].formats.len(), 5);
    assert_eq!(catalogue[1].formats.len(), 7);
    assert_eq!(catalogue[2].formats.len(), 5);
    assert!(catalogue[1].formats[3].supports_layers, "layered stills keep layers");
}

#[test]
fn effect_catalogue_filters_by_type() {
    let all = commands::effects::get_available_effects(None).expect("all");
    assert_eq!(all.len(), 3);
    let audio = commands::effects::get_available_effects(Some("audio".to_string())).expect("audio");
    assert!(audio.is_empty());
    let video = commands::effects::get_available_effects(Some("video".to_string())).expect("video");
    assert_eq!(video.len(), 3);
}

#[test]
fn the_compositor_reports_exactly_the_active_clips() {
    let mut compositor = TimelineCompositor::new();
    let video_track = compositor.add_track();
    let muted_track = compositor.add_track();
    let clip = |start: i64, end: i64| ClipInstance {
        clip: VideoClip::load(motioncore::host::path_from("a.mp4")).expect("clip"),
        start_time: start,
        end_time: end,
        offset: 0,
    };
    compositor.add_clip(video_track, clip(0, 5 * SCALE));
    compositor.add_clip(video_track, clip(4 * SCALE, 9 * SCALE));
    compositor.add_clip(muted_track, clip(0, 100 * SCALE));
    // An out-of-range track index is ignored rather than panicking.
    compositor.add_clip(99, clip(0, SCALE));

    let at_4500 = compositor.get_active_clips(45 * SCALE / 10);
    assert_eq!(at_4500, vec![(0, 0), (0, 1), (1, 0)]);
    let at_7 = compositor.get_active_clips(7 * SCALE);
    assert_eq!(at_7, vec![(0, 1), (1, 0)]);
    // The half-open extent excludes the end time.
    let at_9 = compositor.get_active_clips(9 * SCALE);
    assert_eq!(at_9, vec![(1, 0)]);
}

#[test]
fn scene_detection_reports_a_cut_every_hundred_frames() {
    let frames: Vec<Vec<u8>> = (0..250).map(|_| Vec::new()).collect();
    let scenes = motioncore::ai::SceneDetector::detect_scenes(frames, SCALE / 10);
    assert_eq!(scenes.len(), 3);
    assert_eq!(scenes[1].frame_number, 100);
    assert_eq!(scenes[1].timestamp, 100 * SCALE / 30);
    assert_eq!(scenes[2].confidence, 85 * SCALE / 100);
}

#[test]
fn preview_frames_start_transparent() {
    let processor = VideoProcessor::new(8, 4, 30);
    let frame = processor.render_frame(0).expect("frame");
    assert_eq!(frame.len(), 8 * 4 * 4);
    assert!(frame.iter().all(|b| *b == 0));
}

#[test]
fn fresh_projects_carry_defaults() {
    let project = commands::create_new_project("demo".to_string(), None).expect("project");
    assert_eq!(project.name, "demo");
    assert_eq!(project.id.len(), 36);
    assert_eq!(project.settings.width, 1920);
    assert!(project.layers.is_empty());
}
