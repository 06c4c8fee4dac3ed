//! Compositor behavior: the opacity-zero and opaque-replacement laws, the
//! solid-red-frame scenario, exact blend-mode channel values, masks and
//! track mattes.

use motioncore::animation_engine::{
    AnimatableProperty, AnimatedLayer, AnimatedLayerType, AnimatedMask, Composition,
    InterpolationType, Keyframe, KeyframeValue, MaskMode, MatteType, PropertyType, PropertySlot,
    TrackMatte,
};
use motioncore::easing::EasingFunction;
use motioncore::fixed::SCALE;
use motioncore::image_engine::BlendMode;
use motioncore::renderer::{
    blend_channel, blend_mode_from_name, composite_over, solid_frame, RenderContext, SourceFrame,
    MAX_RENDER_DEPTH,
};

fn constant_number_property(name: &str, value: i64) -> AnimatableProperty {
    AnimatableProperty {
        id: name.to_string(),
        name: name.to_string(),
        property_type: PropertyType::Number { min: 0, max: SCALE },
        keyframes: vec![Keyframe {
            time: 0,
            value: KeyframeValue::Number(value),
            easing: EasingFunction::Linear,
            interpolation: InterpolationType::Linear,
            in_tangent: None,
            out_tangent: None,
        }],
        expression: None,
    }
}

fn solid_layer(id: &str, color: (u8, u8, u8, u8)) -> AnimatedLayer {
    AnimatedLayer {
        id: id.to_string(),
        name: id.to_string(),
        layer_type: AnimatedLayerType::Solid { color },
        parent_id: None,
        properties: Vec::new(),
        effects: Vec::new(),
        masks: Vec::new(),
        blend_mode: "normal".to_string(),
        track_matte: None,
        is_3d: false,
    }
}

#[test]
fn compositing_at_opacity_zero_is_bit_identical() {
    let mut target = vec![10, 20, 30, 40, 200, 150, 100, 50];
    let original = target.clone();
    let source = vec![255, 255, 255, 255, 0, 0, 0, 255];
    composite_over(&mut target, &source, &BlendMode::Normal, 0);
    assert_eq!(target, original);
}

#[test]
fn opaque_normal_source_replaces_the_target_exactly() {
    let mut target = vec![10, 20, 30, 40, 200, 150, 100, 50];
    let source = vec![1, 2, 3, 255, 250, 249, 248, 255];
    composite_over(&mut target, &source, &BlendMode::Normal, SCALE);
    assert_eq!(target, source);
}

#[test]
fn alpha_accumulation_never_decreases_the_target_alpha() {
    let mut target = vec![0, 0, 0, 200];
    let source = vec![255, 255, 255, 40];
    composite_over(&mut target, &source, &BlendMode::Normal, SCALE);
    assert!(target[3] >= 200, "alpha dropped to {}", target[3]);
}

#[test]
fn solid_red_layer_fills_a_black_composition() {
    let comp = Composition {
        id: "main".to_string(),
        name: "main".to_string(),
        width: 100,
        height: 100,
        duration: 10 * SCALE,
        fps: 30,
        layers: vec![solid_layer("red", (255, 0, 0, 255))],
        background_color: (0, 0, 0, 255),
    };
    for time in [0, SCALE / 3, 7 * SCALE] {
        let frame = comp.render_frame(time);
        assert_eq!(frame.len(), 100 * 100 * 4);
        for px in frame.chunks(4) {
            assert_eq!(px, &[255, 0, 0, 255]);
        }
    }
}

#[test]
fn background_shows_when_the_only_layer_is_transparent() {
    let comp = Composition {
        id: "main".to_string(),
        name: "main".to_string(),
        width: 4,
        height: 2,
        duration: SCALE,
        fps: 30,
        layers: vec![solid_layer("ghost", (9, 9, 9, 0))],
        background_color: (11, 22, 33, 255),
    };
    let frame = comp.render_frame(0);
    for px in frame.chunks(4) {
        assert_eq!(px, &[11, 22, 33, 255]);
    }
}

#[test]
fn layer_opacity_property_halves_the_blend() {
    let mut layer = solid_layer("red", (255, 0, 0, 255));
    layer.properties.push(PropertySlot {
        name: "opacity".to_string(),
        property: constant_number_property("opacity", SCALE / 2),
    });
    let comp = Composition {
        id: "main".to_string(),
        name: "main".to_string(),
        width: 1,
        height: 1,
        duration: SCALE,
        fps: 30,
        layers: vec![layer],
        background_color: (0, 0, 0, 255),
    };
    let frame = comp.render_frame(0);
    // Effective alpha 127 of 255: red mixes to floor((128*0 + 127*255)/255).
    assert_eq!(&frame, &[127, 0, 0, 255]);
}

#[test]
fn blend_channel_formulas_give_exact_values() {
    assert_eq!(blend_channel(&BlendMode::Multiply, 128, 64), 32);
    assert_eq!(blend_channel(&BlendMode::Screen, 128, 64), 160);
    assert_eq!(blend_channel(&BlendMode::LinearDodge, 200, 100), 255);
    assert_eq!(blend_channel(&BlendMode::Difference, 30, 200), 170);
    assert_eq!(blend_channel(&BlendMode::Darken, 30, 200), 30);
    assert_eq!(blend_channel(&BlendMode::Lighten, 30, 200), 200);
    assert_eq!(blend_channel(&BlendMode::Overlay, 100, 50), 39);
    assert_eq!(blend_channel(&BlendMode::Normal, 77, 200), 77);
}

#[test]
fn blend_mode_names_map_and_unknown_names_compose_normally() {
    assert_eq!(blend_mode_from_name("multiply"), BlendMode::Multiply);
    assert_eq!(blend_mode_from_name("add"), BlendMode::LinearDodge);
    assert_eq!(blend_mode_from_name("difference"), BlendMode::Difference);
    assert_eq!(blend_mode_from_name("no_such_mode"), BlendMode::Normal);
}

#[test]
fn a_subtract_mask_erases_the_layer() {
    let mut layer = solid_layer("red", (255, 0, 0, 255));
    // One additive mask at full coverage, then one subtractive mask at full
    // coverage: combined coverage zero, so the layer contributes nothing.
    layer.masks.push(mask_with_mode(MaskMode::Add, SCALE));
    layer.masks.push(mask_with_mode(MaskMode::Subtract, SCALE));
    let comp = Composition {
        id: "main".to_string(),
        name: "main".to_string(),
        width: 2,
        height: 2,
        duration: SCALE,
        fps: 30,
        layers: vec![layer],
        background_color: (5, 6, 7, 255),
    };
    let frame = comp.render_frame(0);
    for px in frame.chunks(4) {
        assert_eq!(px, &[5, 6, 7, 255]);
    }
}

fn mask_with_mode(mode: MaskMode, opacity: i64) -> AnimatedMask {
    AnimatedMask {
        id: "m".to_string(),
        path: constant_number_property("path", 0),
        mode,
        feather: constant_number_property("feather", 0),
        opacity: constant_number_property("opacity", opacity),
        expansion: constant_number_property("expansion", 0),
    }
}

#[test]
fn an_alpha_inverted_matte_against_an_opaque_layer_erases_the_source() {
    let mut red = solid_layer("red", (255, 0, 0, 255));
    red.track_matte = Some(TrackMatte {
        layer_id: "matte".to_string(),
        matte_type: MatteType::AlphaInverted,
    });
    let matte = solid_layer("matte", (255, 255, 255, 255));
    let comp = Composition {
        id: "main".to_string(),
        name: "main".to_string(),
        width: 2,
        height: 1,
        duration: SCALE,
        fps: 30,
        layers: vec![red, matte],
        background_color: (1, 2, 3, 255),
    };
    let frame = comp.render_frame(0);
    // The red layer's alpha is multiplied by the inverted (zero) matte, so
    // only the background and the matte layer itself contribute; the matte
    // layer is white and opaque, so the frame ends white.
    for px in frame.chunks(4) {
        assert_eq!(px, &[255, 255, 255, 255]);
    }
}

#[test]
fn a_dangling_matte_reference_degrades_to_no_matte() {
    let mut red = solid_layer("red", (255, 0, 0, 255));
    red.track_matte = Some(TrackMatte {
        layer_id: "missing".to_string(),
        matte_type: MatteType::AlphaInverted,
    });
    let comp = Composition {
        id: "main".to_string(),
        name: "main".to_string(),
        width: 1,
        height: 1,
        duration: SCALE,
        fps: 30,
        layers: vec![red],
        background_color: (0, 0, 0, 255),
    };
    assert_eq!(&comp.render_frame(0), &[255, 0, 0, 255]);
}

#[test]
fn a_mismatched_solid_buffer_never_panics_the_renderer() {
    // A layer rendered outside any composition produces its own buffer.
    let layer = solid_layer("red", (1, 2, 3, 4));
    let buf = layer.render_at(0, 3, 2);
    assert_eq!(buf.len(), 3 * 2 * 4);
    for px in buf.chunks(4) {
        assert_eq!(px, &[1, 2, 3, 4]);
    }
}

#[test]
fn parenting_accumulates_positions_and_breaks_cycles() {
    let mut child = solid_layer("child", (1, 1, 1, 255));
    child.parent_id = Some("anchor".to_string());
    child.properties.push(PropertySlot {
        name: "position".to_string(),
        property: vector2_property(SCALE, 2 * SCALE),
    });
    let mut anchor = solid_layer("anchor", (2, 2, 2, 255));
    anchor.properties.push(PropertySlot {
        name: "position".to_string(),
        property: vector2_property(10 * SCALE, 20 * SCALE),
    });
    let comp = Composition {
        id: "main".to_string(),
        name: "main".to_string(),
        width: 8,
        height: 8,
        duration: SCALE,
        fps: 30,
        layers: vec![child, anchor],
        background_color: (0, 0, 0, 255),
    };
    assert_eq!(comp.resolve_layer_position(0, 0), (11 * SCALE, 22 * SCALE));
    assert_eq!(comp.resolve_layer_position(1, 0), (10 * SCALE, 20 * SCALE));

    // Two layers parenting each other: the walk stops after one step per
    // layer instead of recursing forever.
    let mut a = solid_layer("a", (0, 0, 0, 255));
    a.parent_id = Some("b".to_string());
    a.properties.push(PropertySlot {
        name: "position".to_string(),
        property: vector2_property(SCALE, 0),
    });
    let mut b = solid_layer("b", (0, 0, 0, 255));
    b.parent_id = Some("a".to_string());
    b.properties.push(PropertySlot {
        name: "position".to_string(),
        property: vector2_property(10 * SCALE, 0),
    });
    let cyclic = Composition {
        id: "cyclic".to_string(),
        name: "cyclic".to_string(),
        width: 8,
        height: 8,
        duration: SCALE,
        fps: 30,
        layers: vec![a, b],
        background_color: (0, 0, 0, 255),
    };
    // Budget two: a + b + a, then the chain is cut.
    assert_eq!(cyclic.resolve_layer_position(0, 0), (12 * SCALE, 0));
}

fn vector2_property(x: i64, y: i64) -> AnimatableProperty {
    AnimatableProperty {
        id: "position".to_string(),
        name: "position".to_string(),
        property_type: PropertyType::Vector2D,
        keyframes: vec![Keyframe {
            time: 0,
            value: KeyframeValue::Vector2D(x, y),
            easing: EasingFunction::Linear,
            interpolation: InterpolationType::Linear,
            in_tangent: None,
            out_tangent: None,
        }],
        expression: None,
    }
}

#[test]
fn precomposition_renders_through_the_host_table() {
    let inner = Composition {
        id: "inner".to_string(),
        name: "inner".to_string(),
        width: 2,
        height: 2,
        duration: SCALE,
        fps: 30,
        layers: vec![solid_layer("green", (0, 200, 0, 255))],
        background_color: (0, 0, 0, 255),
    };
    let mut embed = solid_layer("embed", (0, 0, 0, 0));
    embed.layer_type = AnimatedLayerType::Precomp { composition_id: "inner".to_string() };
    let outer = Composition {
        id: "outer".to_string(),
        name: "outer".to_string(),
        width: 2,
        height: 2,
        duration: SCALE,
        fps: 30,
        layers: vec![embed],
        background_color: (40, 40, 40, 255),
    };
    let ctx = RenderContext { sources: Vec::new(), compositions: vec![inner] };
    let frame = outer.render_frame_with(&ctx, 0, MAX_RENDER_DEPTH);
    for px in frame.chunks(4) {
        assert_eq!(px, &[0, 200, 0, 255]);
    }
    // Without the table the embedded composition degrades to transparent.
    let bare = outer.render_frame(0);
    for px in bare.chunks(4) {
        assert_eq!(px, &[40, 40, 40, 255]);
    }
}

#[test]
fn decoded_content_arrives_through_the_source_table() {
    let mut clip = solid_layer("clip", (0, 0, 0, 0));
    clip.layer_type = AnimatedLayerType::Image { source: "shot.png".to_string() };
    let comp = Composition {
        id: "main".to_string(),
        name: "main".to_string(),
        width: 1,
        height: 1,
        duration: SCALE,
        fps: 30,
        layers: vec![clip],
        background_color: (0, 0, 0, 255),
    };
    let ctx = RenderContext {
        sources: vec![SourceFrame { id: "shot.png".to_string(), data: vec![9, 8, 7, 255] }],
        compositions: Vec::new(),
    };
    assert_eq!(comp.render_frame_with(&ctx, 0, MAX_RENDER_DEPTH), vec![9, 8, 7, 255]);
    // A mis-sized buffer degrades to absent content.
    let bad = RenderContext {
        sources: vec![SourceFrame { id: "shot.png".to_string(), data: vec![9, 8, 7] }],
        compositions: Vec::new(),
    };
    assert_eq!(comp.render_frame_with(&bad, 0, MAX_RENDER_DEPTH), vec![0, 0, 0, 255]);
}

#[test]
fn solid_frame_lays_out_rgba_in_row_major_order() {
    let buf = solid_frame(2, (9, 8, 7, 6));
    assert_eq!(buf, vec![9, 8, 7, 6, 9, 8, 7, 6]);
}
