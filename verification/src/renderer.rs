//! The compositor: blend-mode arithmetic, mask and matte application, and
//! frame assembly for a composition at a timestamp.
//!
//! Buffers are RGBA, 8 bits per channel, row-major, 4 bytes per pixel.
//! Blending works per channel on `[0, 255]` values (the normalized `[0, 1]`
//! formulas scaled by 255), reassembled with clamping. Alpha accumulation
//! never decreases the target's existing alpha.

use vstd::prelude::*;
use crate::fixed::SCALE;
use crate::image_engine::BlendMode;
use crate::utils::str_eq;
use crate::animation_engine::{AnimatedLayer, AnimatedLayerType, AnimatedMask, Composition,
    KeyframeValue, MaskMode, MatteType, layer_wf, mask_wf, spec_property_lookup,
    spec_track_value};

verus! {

/// One blended channel value (both inputs and the result in `[0, 255]`):
/// `cs` is the source channel, `cb` the backdrop channel.
pub open spec fn spec_blend_channel(mode: BlendMode, cs: int, cb: int) -> int {
    match mode {
        BlendMode::Normal => cs,
        BlendMode::Multiply => cs * cb / 255,
        BlendMode::Screen => 255 - (255 - cs) * (255 - cb) / 255,
        BlendMode::Overlay => if cb < 128 {
            2 * cb * cs / 255
        } else {
            255 - 2 * (255 - cb) * (255 - cs) / 255
        },
        BlendMode::HardLight => if cs < 128 {
            2 * cs * cb / 255
        } else {
            255 - 2 * (255 - cs) * (255 - cb) / 255
        },
        BlendMode::SoftLight => cs,
        BlendMode::Darken => if cs < cb { cs } else { cb },
        BlendMode::Lighten => if cs > cb { cs } else { cb },
        BlendMode::ColorDodge => if cs == 255 {
            255
        } else if cb * 255 / (255 - cs) > 255 {
            255
        } else {
            cb * 255 / (255 - cs)
        },
        BlendMode::ColorBurn => if cs == 0 {
            0
        } else if (255 - cb) * 255 / cs > 255 {
            0
        } else {
            255 - (255 - cb) * 255 / cs
        },
        BlendMode::LinearDodge => if cs + cb > 255 { 255 } else { cs + cb },
        BlendMode::LinearBurn => if cs + cb < 255 { 0 } else { cs + cb - 255 },
        BlendMode::Difference => if cs >= cb { cs - cb } else { cb - cs },
        BlendMode::Exclusion => {
            let e = cs + cb - 2 * cs * cb / 255;
            if e < 0 { 0 } else if e > 255 { 255 } else { e }
        },
    }
}

/// A product of two channel values divided by 255 stays a channel value.
proof fn lemma_channel_product(a: int, b: int)
    requires
        0 <= a <= 255,
        0 <= b <= 255,
    ensures
        0 <= a * b / 255 <= 255,
        a * b <= 255 * 255,
{
    vstd::arithmetic::mul::lemma_mul_nonnegative(a, b);
    vstd::arithmetic::div_mod::lemma_div_pos_is_pos(a * b, 255);
    assert(a * b <= 255 * 255) by (nonlinear_arith)
        requires 0 <= a <= 255 && 0 <= b <= 255;
    vstd::arithmetic::div_mod::lemma_div_is_ordered(a * b, 65025int, 255);
}

/// Executable per-channel blend. `SoftLight` has no exact integer form here
/// and behaves as `Normal`.
pub fn blend_channel(mode: &BlendMode, cs: u8, cb: u8) -> (r: u8)
    ensures
        r as int == spec_blend_channel(*mode, cs as int, cb as int),
{
    proof {
        lemma_channel_product(cs as int, cb as int);
        lemma_channel_product(255 - cs as int, 255 - cb as int);
    }
    let csw: u32 = cs as u32;
    let cbw: u32 = cb as u32;
    match mode {
        BlendMode::Normal => cs,
        BlendMode::Multiply => (csw * cbw / 255) as u8,
        BlendMode::Screen => (255 - (255 - csw) * (255 - cbw) / 255) as u8,
        BlendMode::Overlay => {
            if cbw < 128 {
                proof {
                    lemma_channel_product(2 * (cb as int), cs as int);
                    assert(2 * (cb as int) <= 255);
                }
                (2 * cbw * csw / 255) as u8
            } else {
                proof {
                    lemma_channel_product(2 * (255 - cb as int), 255 - cs as int);
                    assert(2 * (255 - cb as int) <= 255);
                }
                (255 - 2 * (255 - cbw) * (255 - csw) / 255) as u8
            }
        },
        BlendMode::HardLight => {
            if csw < 128 {
                proof {
                    lemma_channel_product(2 * (cs as int), cb as int);
                    assert(2 * (cs as int) <= 255);
                }
                (2 * csw * cbw / 255) as u8
            } else {
                proof {
                    lemma_channel_product(2 * (255 - cs as int), 255 - cb as int);
                    assert(2 * (255 - cs as int) <= 255);
                }
                (255 - 2 * (255 - csw) * (255 - cbw) / 255) as u8
            }
        },
        BlendMode::SoftLight => cs,
        BlendMode::Darken => if cs < cb { cs } else { cb },
        BlendMode::Lighten => if cs > cb { cs } else { cb },
        BlendMode::ColorDodge => {
            if cs == 255 {
                255
            } else {
                proof {
                    lemma_channel_product(cb as int, 255);
                    vstd::arithmetic::div_mod::lemma_div_pos_is_pos(cb as int * 255, 255 - cs as int);
                }
                let q = cbw * 255 / (255 - csw);
                if q > 255 {
                    255
                } else {
                    q as u8
                }
            }
        },
        BlendMode::ColorBurn => {
            if cs == 0 {
                0
            } else {
                proof {
                    lemma_channel_product(255 - cb as int, 255);
                    vstd::arithmetic::div_mod::lemma_div_pos_is_pos((255 - cb as int) * 255, cs as int);
                }
                let q = (255 - cbw) * 255 / csw;
                if q > 255 {
                    0
                } else {
                    (255 - q) as u8
                }
            }
        },
        BlendMode::LinearDodge => {
            if csw + cbw > 255 {
                255
            } else {
                (csw + cbw) as u8
            }
        },
        BlendMode::LinearBurn => {
            if csw + cbw < 255 {
                0
            } else {
                (csw + cbw - 255) as u8
            }
        },
        BlendMode::Difference => if cs >= cb { cs - cb } else { cb - cs },
        BlendMode::Exclusion => {
            proof {
                assert(0 <= 2 * (csw as int) * (cbw as int) <= 130050
                    && 2 * (csw as int) * (cbw as int) == 2 * (cs as int) * (cb as int))
                    by (nonlinear_arith)
                    requires csw == cs as int && cbw == cb as int && csw <= 255 && cbw <= 255;
                vstd::arithmetic::div_mod::lemma_div_pos_is_pos(2 * (cs as int) * (cb as int), 255);
                vstd::arithmetic::div_mod::lemma_div_is_ordered(
                    2 * (cs as int) * (cb as int), 130050int, 255);
            }
            let e: i32 = csw as i32 + cbw as i32 - (2 * csw * cbw / 255) as i32;
            if e < 0 {
                0
            } else if e > 255 {
                255
            } else {
                e as u8
            }
        },
    }
}

/// Every blended channel stays in `[0, 255]`.
pub proof fn lemma_blend_channel_range(mode: BlendMode, cs: int, cb: int)
    requires
        0 <= cs <= 255,
        0 <= cb <= 255,
    ensures
        0 <= spec_blend_channel(mode, cs, cb) <= 255,
{
    lemma_channel_product(cs, cb);
    lemma_channel_product(255 - cs, 255 - cb);
    match mode {
        BlendMode::Overlay => {
            if cb < 128 {
                lemma_channel_product(2 * cb, cs);
            } else {
                lemma_channel_product(2 * (255 - cb), 255 - cs);
            }
        },
        BlendMode::HardLight => {
            if cs < 128 {
                lemma_channel_product(2 * cs, cb);
            } else {
                lemma_channel_product(2 * (255 - cs), 255 - cb);
            }
        },
        BlendMode::ColorDodge => {
            if cs != 255 {
                lemma_channel_product(cb, 255);
                vstd::arithmetic::div_mod::lemma_div_pos_is_pos(cb * 255, 255 - cs);
            }
        },
        BlendMode::ColorBurn => {
            if cs != 0 {
                lemma_channel_product(255 - cb, 255);
                vstd::arithmetic::div_mod::lemma_div_pos_is_pos((255 - cb) * 255, cs);
            }
        },
        _ => {},
    }
}

/// The blend mode a layer's mode name selects; unknown names compose
/// normally.
pub open spec fn spec_blend_mode_of(name: Seq<char>) -> BlendMode {
    if name == "multiply"@ { BlendMode::Multiply }
    else if name == "screen"@ { BlendMode::Screen }
    else if name == "overlay"@ { BlendMode::Overlay }
    else if name == "soft_light"@ { BlendMode::SoftLight }
    else if name == "hard_light"@ { BlendMode::HardLight }
    else if name == "darken"@ { BlendMode::Darken }
    else if name == "lighten"@ { BlendMode::Lighten }
    else if name == "color_dodge"@ { BlendMode::ColorDodge }
    else if name == "color_burn"@ { BlendMode::ColorBurn }
    else if name == "add"@ || name == "linear_dodge"@ { BlendMode::LinearDodge }
    else if name == "linear_burn"@ { BlendMode::LinearBurn }
    else if name == "difference"@ { BlendMode::Difference }
    else if name == "exclusion"@ { BlendMode::Exclusion }
    else { BlendMode::Normal }
}

/// Maps a blend-mode name to its mode.
pub fn blend_mode_from_name(name: &str) -> (r: BlendMode)
    ensures
        r == spec_blend_mode_of(name@),
{
    if str_eq(name, "multiply") { BlendMode::Multiply }
    else if str_eq(name, "screen") { BlendMode::Screen }
    else if str_eq(name, "overlay") { BlendMode::Overlay }
    else if str_eq(name, "soft_light") { BlendMode::SoftLight }
    else if str_eq(name, "hard_light") { BlendMode::HardLight }
    else if str_eq(name, "darken") { BlendMode::Darken }
    else if str_eq(name, "lighten") { BlendMode::Lighten }
    else if str_eq(name, "color_dodge") { BlendMode::ColorDodge }
    else if str_eq(name, "color_burn") { BlendMode::ColorBurn }
    else if str_eq(name, "add") || str_eq(name, "linear_dodge") { BlendMode::LinearDodge }
    else if str_eq(name, "linear_burn") { BlendMode::LinearBurn }
    else if str_eq(name, "difference") { BlendMode::Difference }
    else if str_eq(name, "exclusion") { BlendMode::Exclusion }
    else { BlendMode::Normal }
}

/// The effective source alpha of a pixel: its alpha channel scaled by the
/// layer opacity (opacity in units of `1.0`).
pub open spec fn spec_effective_alpha(sa: int, opacity: int) -> int {
    sa * opacity / (SCALE as int)
}

/// One byte of the composited output. Color channels mix the backdrop and
/// the blended channel at the effective alpha; the alpha channel accumulates
/// and never decreases below the backdrop's alpha.
pub open spec fn spec_out_byte(
    mode: BlendMode, src: Seq<u8>, dst: Seq<u8>, opacity: int, i: int,
) -> int {
    let p = i / 4;
    let alpha = spec_effective_alpha(src[4 * p + 3] as int, opacity);
    if i % 4 == 3 {
        let over = alpha + (dst[i] as int) * (255 - alpha) / 255;
        if over >= dst[i] as int {
            over
        } else {
            dst[i] as int
        }
    } else {
        ((255 - alpha) * (dst[i] as int)
            + alpha * spec_blend_channel(mode, src[i] as int, dst[i] as int)) / 255
    }
}

/// The composite of a source buffer onto a backdrop at a layer opacity.
pub open spec fn spec_composite(
    mode: BlendMode, src: Seq<u8>, dst: Seq<u8>, opacity: int,
) -> Seq<u8> {
    Seq::new(dst.len(), |i: int| spec_out_byte(mode, src, dst, opacity, i) as u8)
}

/// The effective alpha is a channel value.
proof fn lemma_effective_alpha_range(sa: int, opacity: int)
    requires
        0 <= sa <= 255,
        0 <= opacity <= SCALE,
    ensures
        0 <= spec_effective_alpha(sa, opacity) <= 255,
        opacity == 0 ==> spec_effective_alpha(sa, opacity) == 0,
        opacity == SCALE && sa == 255 ==> spec_effective_alpha(sa, opacity) == 255,
{
    vstd::arithmetic::mul::lemma_mul_nonnegative(sa, opacity);
    vstd::arithmetic::div_mod::lemma_div_pos_is_pos(sa * opacity, SCALE as int);
    assert(sa * opacity <= 255 * SCALE) by (nonlinear_arith)
        requires 0 <= sa <= 255 && 0 <= opacity <= SCALE;
    vstd::arithmetic::div_mod::lemma_div_is_ordered(sa * opacity, 255 * (SCALE as int), SCALE as int);
    vstd::arithmetic::div_mod::lemma_div_multiples_vanish(255, SCALE as int);
    assert(sa * 0 == 0) by (nonlinear_arith);
}

/// Every composited byte is a channel value.
proof fn lemma_out_byte_range(mode: BlendMode, src: Seq<u8>, dst: Seq<u8>, opacity: int, i: int)
    requires
        0 <= i < dst.len(),
        src.len() == dst.len(),
        dst.len() % 4 == 0,
        0 <= opacity <= SCALE,
    ensures
        0 <= spec_out_byte(mode, src, dst, opacity, i) <= 255,
{
    let p = i / 4;
    vstd::arithmetic::div_mod::lemma_fundamental_div_mod(i, 4);
    vstd::arithmetic::div_mod::lemma_div_pos_is_pos(i, 4);
    assert(4 * p + 3 < dst.len()) by {
        assert(i == 4 * p + i % 4);
        vstd::arithmetic::div_mod::lemma_mod_division_less_than_divisor(i, 4);
        assert(dst.len() % 4 == 0);
        vstd::arithmetic::div_mod::lemma_fundamental_div_mod(dst.len() as int, 4);
        assert(dst.len() == 4 * (dst.len() as int / 4));
        assert(p < dst.len() as int / 4) by (nonlinear_arith)
            requires 4 * p + i % 4 < 4 * (dst.len() as int / 4) && 0 <= i % 4 < 4;
        assert(4 * p + 3 < 4 * (dst.len() as int / 4) + 3 - 3 + 3) by (nonlinear_arith)
            requires p < dst.len() as int / 4;
    }
    let alpha = spec_effective_alpha(src[4 * p + 3] as int, opacity);
    lemma_effective_alpha_range(src[4 * p + 3] as int, opacity);
    if i % 4 == 3 {
        lemma_alpha_over_range(dst[i] as int, alpha);
    } else {
        lemma_blend_channel_range(mode, src[i] as int, dst[i] as int);
        let bl = spec_blend_channel(mode, src[i] as int, dst[i] as int);
        vstd::arithmetic::mul::lemma_mul_nonnegative(255 - alpha, dst[i] as int);
        vstd::arithmetic::mul::lemma_mul_nonnegative(alpha, bl);
        vstd::arithmetic::div_mod::lemma_div_pos_is_pos(
            (255 - alpha) * (dst[i] as int) + alpha * bl, 255);
        assert((255 - alpha) * (dst[i] as int) + alpha * bl <= 255 * 255) by (nonlinear_arith)
            requires 0 <= alpha <= 255 && 0 <= dst[i] as int <= 255 && 0 <= bl <= 255;
        vstd::arithmetic::div_mod::lemma_div_is_ordered(
            (255 - alpha) * (dst[i] as int) + alpha * bl, 65025int, 255);
    }
}

/// Composites a source buffer onto the target at a layer opacity.
///
/// A layer at opacity `0` leaves the target bit-identical, and a fully
/// opaque normal-mode source that covers the frame replaces the target with
/// the source exactly.
pub fn composite_over(target: &mut Vec<u8>, source: &Vec<u8>, mode: &BlendMode, opacity: i64)
    requires
        old(target)@.len() == source@.len(),
        old(target)@.len() % 4 == 0,
        0 <= opacity <= SCALE,
    ensures
        final(target)@ == spec_composite(*mode, source@, old(target)@, opacity as int),
        final(target)@.len() == old(target)@.len(),
        opacity == 0 ==> final(target)@ == old(target)@,
        opacity == SCALE && *mode == BlendMode::Normal
            && (forall|p: int| #![trigger source@[4 * p + 3]] 0 <= p < source@.len() / 4 ==> source@[4 * p + 3] == 255)
            ==> final(target)@ == source@,
    {
        let ghost dst0 = target@;
        let len = target.len();
        let pixels = len / 4;
        let mut p: usize = 0;
        while p < pixels
            invariant
                target@.len() == len,
                source@.len() == len,
                len % 4 == 0,
                pixels == len / 4,
                p <= pixels,
                0 <= opacity <= SCALE,
                forall|i: int| 0 <= i < 4 * p
                    ==> target@[i] as int == spec_out_byte(*mode, source@, dst0, opacity as int, i),
                forall|i: int| 4 * p <= i < len ==> target@[i] == dst0[i],
            decreases pixels - p,
        {
            proof {
                assert(4 * (p as int) + 3 < len) by (nonlinear_arith)
                    requires p < pixels && pixels == len / 4 && len % 4 == 0
                        && len == 4 * pixels + (len % 4);
                vstd::arithmetic::div_mod::lemma_fundamental_div_mod(len as int, 4);
            }
            let base = 4 * p;
            let sa = source[base + 3];
            proof {
                lemma_effective_alpha_range(sa as int, opacity as int);
                assert(sa as int * opacity <= 255 * SCALE) by (nonlinear_arith)
                    requires 0 <= sa <= 255 && 0 <= opacity <= SCALE;
            }
            let alpha: i64 = (sa as i64) * opacity / SCALE;
            let mut c: usize = 0;
            while c < 3
                invariant
                    target@.len() == len,
                    source@.len() == len,
                    len % 4 == 0,
                    pixels == len / 4,
                    p < pixels,
                    base == 4 * p,
                    4 * p + 3 < len,
                    c <= 3,
                    0 <= opacity <= SCALE,
                    sa == source@[4 * p + 3],
                    alpha == spec_effective_alpha(sa as int, opacity as int),
                    0 <= alpha <= 255,
                    forall|i: int| 0 <= i < 4 * p
                        ==> target@[i] as int == spec_out_byte(*mode, source@, dst0, opacity as int, i),
                    forall|i: int| 4 * p <= i < 4 * p + c
                        ==> target@[i] as int == spec_out_byte(*mode, source@, dst0, opacity as int, i),
                    forall|i: int| 4 * p + c <= i < len ==> target@[i] == dst0[i],
                decreases 3 - c,
            {
                let i = base + c;
                let bl = blend_channel(mode, source[i], target[i]);
                proof {
                    lemma_blend_channel_range(*mode, source@[i as int] as int, dst0[i as int] as int);
                    assert((255 - alpha) * (dst0[i as int] as int) + alpha * (bl as int) <= 255 * 255)
                        by (nonlinear_arith)
                        requires 0 <= alpha <= 255 && 0 <= dst0[i as int] <= 255 && 0 <= bl <= 255;
                    vstd::arithmetic::mul::lemma_mul_nonnegative(255 - alpha as int, dst0[i as int] as int);
                    vstd::arithmetic::mul::lemma_mul_nonnegative(alpha as int, bl as int);
                    vstd::arithmetic::div_mod::lemma_div_pos_is_pos(
                        (255 - alpha as int) * (dst0[i as int] as int) + (alpha as int) * (bl as int), 255);
                    vstd::arithmetic::div_mod::lemma_div_is_ordered(
                        (255 - alpha as int) * (dst0[i as int] as int) + (alpha as int) * (bl as int),
                        65025int, 255);
                    assert(i as int / 4 == p as int && i as int % 4 == c as int) by (nonlinear_arith)
                        requires i == 4 * p + c && 0 <= c < 3;
                }
                let out = ((255 - alpha) * (target[i] as i64) + alpha * (bl as i64)) / 255;
                target[i] = out as u8;
                c = c + 1;
            }
            // Alpha channel: accumulate, never below the backdrop's alpha.
            let i = base + 3;
            proof {
                lemma_alpha_over_range(dst0[i as int] as int, alpha as int);
                assert(i as int / 4 == p as int && i as int % 4 == 3) by (nonlinear_arith)
                    requires i == 4 * p + 3;
            }
            let over = alpha + (target[i] as i64) * (255 - alpha) / 255;
            let da = target[i];
            if over >= da as i64 {
                target[i] = over as u8;
            }
            proof {
                assert(target@[i as int] as int
                    == spec_out_byte(*mode, source@, dst0, opacity as int, i as int));
                assert forall|j: int| 0 <= j < 4 * (p + 1)
                    implies target@[j] as int
                        == spec_out_byte(*mode, source@, dst0, opacity as int, j) by {
                }
            }
            p = p + 1;
        }
        proof {
            assert(final(target)@ =~= spec_composite(*mode, source@, dst0, opacity as int));
            if opacity == 0 {
                assert forall|i: int| 0 <= i < len implies
                    spec_out_byte(*mode, source@, dst0, 0, i) == dst0[i] as int by {
                    lemma_out_byte_zero(*mode, source@, dst0, i);
                }
                assert(final(target)@ =~= dst0);
            }
            if opacity == SCALE && *mode == BlendMode::Normal
                && (forall|q: int| #![trigger source@[4 * q + 3]] 0 <= q < source@.len() / 4 ==> source@[4 * q + 3] == 255) {
                assert forall|i: int| 0 <= i < len implies
                    spec_out_byte(*mode, source@, dst0, SCALE as int, i) == source@[i] as int by {
                    lemma_out_byte_opaque(source@, dst0, i);
                }
                assert(final(target)@ =~= source@);
            }
        }
    }

/// With opacity `0` every output byte equals the backdrop byte.
proof fn lemma_out_byte_zero(mode: BlendMode, src: Seq<u8>, dst: Seq<u8>, i: int)
    requires
        0 <= i < dst.len(),
        src.len() == dst.len(),
        dst.len() % 4 == 0,
    ensures
        spec_out_byte(mode, src, dst, 0, i) == dst[i] as int,
{
    let p = i / 4;
    lemma_pixel_base(dst.len() as int, i);
    let sa = src[4 * p + 3] as int;
    assert(sa * 0 == 0) by (nonlinear_arith);
    assert(spec_effective_alpha(sa, 0) == 0);
    if i % 4 == 3 {
        vstd::arithmetic::div_mod::lemma_div_multiples_vanish(dst[i] as int, 255);
        assert((dst[i] as int) * 255 == 255 * (dst[i] as int)) by (nonlinear_arith);
    } else {
        lemma_channel_product(255, dst[i] as int);
        vstd::arithmetic::div_mod::lemma_div_multiples_vanish(dst[i] as int, 255);
        assert(255 * (dst[i] as int) + 0 * spec_blend_channel(mode, src[i] as int, dst[i] as int)
            == (dst[i] as int) * 255) by (nonlinear_arith);
    }
}

/// With full opacity, normal mode and an opaque source, every output byte
/// equals the source byte.
proof fn lemma_out_byte_opaque(src: Seq<u8>, dst: Seq<u8>, i: int)
    requires
        0 <= i < dst.len(),
        src.len() == dst.len(),
        dst.len() % 4 == 0,
        forall|q: int| #![trigger src[4 * q + 3]] 0 <= q < src.len() / 4 ==> src[4 * q + 3] == 255,
    ensures
        spec_out_byte(BlendMode::Normal, src, dst, SCALE as int, i) == src[i] as int,
{
    let p = i / 4;
    lemma_pixel_base(dst.len() as int, i);
    assert(p < src.len() / 4) by {
        vstd::arithmetic::div_mod::lemma_fundamental_div_mod(i, 4);
        vstd::arithmetic::div_mod::lemma_fundamental_div_mod(src.len() as int, 4);
        assert(p < src.len() / 4) by (nonlinear_arith)
            requires 4 * p + i % 4 == i && i < src.len() && 0 <= i % 4 < 4
                && src.len() == 4 * (src.len() / 4) && 0 <= p;
    }
    assert(src[4 * p + 3] == 255);
    assert(spec_effective_alpha(255, SCALE as int) == 255) by {
        vstd::arithmetic::div_mod::lemma_div_multiples_vanish(255, SCALE as int);
    }
    if i % 4 == 3 {
        assert((dst[i] as int) * (255 - 255) == 0) by (nonlinear_arith);
        assert(255 + (dst[i] as int) * 0 / 255 == 255);
        assert(src[i] == 255);
    } else {
        assert((255 - 255) * (dst[i] as int) == 0) by (nonlinear_arith);
        vstd::arithmetic::div_mod::lemma_div_multiples_vanish(src[i] as int, 255);
        assert(0 + 255 * (src[i] as int) == (src[i] as int) * 255) by (nonlinear_arith);
    }
}

/// A byte index's pixel base `4 * (i / 4) + 3` stays inside the buffer.
proof fn lemma_pixel_base(len: int, i: int)
    requires
        0 <= i < len,
        len % 4 == 0,
    ensures
        0 <= i / 4,
        4 * (i / 4) + 3 < len,
        4 * (i / 4) <= i,
{
    vstd::arithmetic::div_mod::lemma_fundamental_div_mod(i, 4);
    vstd::arithmetic::div_mod::lemma_mod_division_less_than_divisor(i, 4);
    vstd::arithmetic::div_mod::lemma_div_pos_is_pos(i, 4);
    vstd::arithmetic::div_mod::lemma_fundamental_div_mod(len, 4);
    let p = i / 4;
    assert(p < len / 4) by (nonlinear_arith)
        requires 4 * p + i % 4 == i && i < len && 0 <= i % 4 < 4 && len == 4 * (len / 4) && 0 <= p;
    assert(4 * p + 3 < 4 * (len / 4) + 4 - 1) by (nonlinear_arith)
        requires p < len / 4;
}

/// Accumulated alpha stays a channel value and never drops below the
/// effective source alpha.
proof fn lemma_alpha_over_range(da: int, alpha: int)
    requires
        0 <= da <= 255,
        0 <= alpha <= 255,
    ensures
        0 <= da * (255 - alpha) / 255 <= 255 - alpha,
        alpha <= alpha + da * (255 - alpha) / 255 <= 255,
{
    vstd::arithmetic::mul::lemma_mul_nonnegative(da, 255 - alpha);
    vstd::arithmetic::div_mod::lemma_div_pos_is_pos(da * (255 - alpha), 255);
    assert(da * (255 - alpha) <= (255 - alpha) * 255) by (nonlinear_arith)
        requires 0 <= da <= 255 && 0 <= alpha <= 255;
    vstd::arithmetic::div_mod::lemma_div_is_ordered(da * (255 - alpha), (255 - alpha) * 255, 255);
    vstd::arithmetic::div_mod::lemma_div_multiples_vanish(255 - alpha, 255);
}

/// A buffer filled with one RGBA color.
pub open spec fn spec_solid(pixels: nat, color: (u8, u8, u8, u8)) -> Seq<u8> {
    Seq::new(pixels * 4, |i: int|
        if i % 4 == 0 { color.0 }
        else if i % 4 == 1 { color.1 }
        else if i % 4 == 2 { color.2 }
        else { color.3 }
    )
}

/// Fills a buffer of `pixels` RGBA pixels with one color.
pub fn solid_frame(pixels: usize, color: (u8, u8, u8, u8)) -> (r: Vec<u8>)
    requires
        pixels <= 0x400_0000,
    ensures
        r@ == spec_solid(pixels as nat, color),
        r@.len() == pixels * 4,
        r@.len() % 4 == 0,
    {
        let mut buf: Vec<u8> = Vec::new();
        let mut p: usize = 0;
        while p < pixels
            invariant
                pixels <= 0x400_0000,
                p <= pixels,
                buf@.len() == 4 * p,
                forall|i: int| 0 <= i < 4 * p ==> buf@[i] == spec_solid(pixels as nat, color)[i],
            decreases pixels - p,
        {
            let ghost pre = buf@;
            buf.push(color.0);
            buf.push(color.1);
            buf.push(color.2);
            buf.push(color.3);
            proof {
                assert forall|i: int| 0 <= i < 4 * (p + 1)
                    implies buf@[i] == spec_solid(pixels as nat, color)[i] by {
                    if i < 4 * p {
                        assert(buf@[i] == pre[i]);
                    } else {
                        assert(i % 4 == i - 4 * p) by (nonlinear_arith)
                            requires 4 * p <= i < 4 * p + 4;
                    }
                }
            }
            p = p + 1;
        }
        proof {
            assert(buf@ =~= spec_solid(pixels as nat, color));
            vstd::arithmetic::div_mod::lemma_mod_multiples_basic(pixels as int, 4);
            assert((pixels * 4) as int == 4 * (pixels as int)) by (nonlinear_arith);
        }
        buf
    }

/// Largest pre-composition nesting the renderer follows; deeper content
/// degrades to transparent rather than recursing without bound.
pub const MAX_RENDER_DEPTH: u32 = 8;

/// A decoded content buffer supplied by the host, keyed by the source
/// reference it was decoded from.
#[derive(Debug)]
pub struct SourceFrame {
    pub id: String,
    pub data: Vec<u8>,
}

/// Host-owned tables the renderer resolves references through: decoded
/// content buffers for image, video and text layers, and the composition
/// table for pre-composition layers.
#[derive(Debug)]
pub struct RenderContext {
    pub sources: Vec<SourceFrame>,
    pub compositions: Vec<Composition>,
}

impl RenderContext {
    /// Every composition in the table is renderable.
    pub open spec fn wf(&self) -> bool {
        forall|i: int| 0 <= i < self.compositions@.len()
            ==> (#[trigger] self.compositions@[i]).wf()
    }

    /// An empty context: no decoded content, no composition table.
    pub fn new() -> (r: Self)
        ensures
            r.wf(),
            r.sources@.len() == 0,
            r.compositions@.len() == 0,
    {
        RenderContext { sources: Vec::new(), compositions: Vec::new() }
    }
}

/// The first source frame with the given id.
pub open spec fn spec_source_lookup(ss: Seq<SourceFrame>, id: Seq<char>) -> Option<Seq<u8>>
    decreases ss.len(),
{
    if ss.len() == 0 {
        None
    } else if ss[0].id@ == id {
        Some(ss[0].data@)
    } else {
        spec_source_lookup(ss.drop_first(), id)
    }
}

/// The first composition with the given id.
pub open spec fn spec_comp_lookup(cs: Seq<Composition>, id: Seq<char>) -> Option<int>
    decreases cs.len(),
{
    if cs.len() == 0 {
        None
    } else if cs[0].id@ == id {
        Some(0)
    } else {
        match spec_comp_lookup(cs.drop_first(), id) {
            Some(i) => Some(i + 1),
            None => None,
        }
    }
}

/// The first layer with the given id.
pub open spec fn spec_layer_lookup(ls: Seq<AnimatedLayer>, id: Seq<char>) -> Option<int>
    decreases ls.len(),
{
    if ls.len() == 0 {
        None
    } else if ls[0].id@ == id {
        Some(0)
    } else {
        match spec_layer_lookup(ls.drop_first(), id) {
            Some(i) => Some(i + 1),
            None => None,
        }
    }
}

/// A found layer index is in range and names the layer.
pub proof fn lemma_layer_lookup_valid(ls: Seq<AnimatedLayer>, id: Seq<char>)
    requires
        spec_layer_lookup(ls, id) is Some,
    ensures
        0 <= spec_layer_lookup(ls, id).unwrap() < ls.len(),
        ls[spec_layer_lookup(ls, id).unwrap()].id@ == id,
    decreases ls.len(),
{
    if ls.len() > 0 && ls[0].id@ != id {
        lemma_layer_lookup_valid(ls.drop_first(), id);
    }
}

/// A found composition index is in range and names the composition.
pub proof fn lemma_comp_lookup_valid(cs: Seq<Composition>, id: Seq<char>)
    requires
        spec_comp_lookup(cs, id) is Some,
    ensures
        0 <= spec_comp_lookup(cs, id).unwrap() < cs.len(),
        cs[spec_comp_lookup(cs, id).unwrap()].id@ == id,
    decreases cs.len(),
{
    if cs.len() > 0 && cs[0].id@ != id {
        lemma_comp_lookup_valid(cs.drop_first(), id);
    }
}

/// Finds a layer by id.
fn layer_lookup(ls: &Vec<AnimatedLayer>, id: &str) -> (r: Option<usize>)
    ensures
        match r {
            Some(u) => spec_layer_lookup(ls@, id@) == Some(u as int),
            None => spec_layer_lookup(ls@, id@) is None,
        },
{
    let n = ls.len();
    let mut i: usize = 0;
    proof {
        assert(ls@.skip(0) =~= ls@);
    }
    while i < n
        invariant
            n == ls@.len(),
            i <= n,
            spec_layer_lookup(ls@, id@) == match spec_layer_lookup(ls@.skip(i as int), id@) {
                Some(j) => Some(j + i),
                None => None::<int>,
            },
        decreases n - i,
    {
        let ghost rest = ls@.skip(i as int);
        proof {
            assert(rest[0] == ls@[i as int]);
        }
        if str_eq(ls[i].id.as_str(), id) {
            return Some(i);
        }
        i = i + 1;
        proof {
            assert(rest.drop_first() =~= ls@.skip(i as int));
        }
    }
    proof {
        assert(ls@.skip(n as int).len() == 0);
    }
    None
}

/// Finds a composition by id.
fn comp_lookup(cs: &Vec<Composition>, id: &str) -> (r: Option<usize>)
    ensures
        match r {
            Some(u) => spec_comp_lookup(cs@, id@) == Some(u as int),
            None => spec_comp_lookup(cs@, id@) is None,
        },
{
    let n = cs.len();
    let mut i: usize = 0;
    proof {
        assert(cs@.skip(0) =~= cs@);
    }
    while i < n
        invariant
            n == cs@.len(),
            i <= n,
            spec_comp_lookup(cs@, id@) == match spec_comp_lookup(cs@.skip(i as int), id@) {
                Some(j) => Some(j + i),
                None => None::<int>,
            },
        decreases n - i,
    {
        let ghost rest = cs@.skip(i as int);
        proof {
            assert(rest[0] == cs@[i as int]);
        }
        if str_eq(cs[i].id.as_str(), id) {
            return Some(i);
        }
        i = i + 1;
        proof {
            assert(rest.drop_first() =~= cs@.skip(i as int));
        }
    }
    proof {
        assert(cs@.skip(n as int).len() == 0);
    }
    None
}

/// Finds a source frame by id.
fn source_lookup<'a>(ss: &'a Vec<SourceFrame>, id: &str) -> (r: Option<&'a Vec<u8>>)
    ensures
        r is Some <==> spec_source_lookup(ss@, id@) is Some,
        r is Some ==> r.unwrap()@ == spec_source_lookup(ss@, id@).unwrap(),
{
    let n = ss.len();
    let mut i: usize = 0;
    proof {
        assert(ss@.skip(0) =~= ss@);
    }
    while i < n
        invariant
            n == ss@.len(),
            i <= n,
            spec_source_lookup(ss@, id@) == spec_source_lookup(ss@.skip(i as int), id@),
        decreases n - i,
    {
        let ghost rest = ss@.skip(i as int);
        proof {
            assert(rest[0] == ss@[i as int]);
        }
        if str_eq(ss[i].id.as_str(), id) {
            return Some(&ss[i].data);
        }
        i = i + 1;
        proof {
            assert(rest.drop_first() =~= ss@.skip(i as int));
        }
    }
    proof {
        assert(ss@.skip(n as int).len() == 0);
    }
    None
}

/// A fixed-point value clamped to `[0, 1]`.
pub open spec fn spec_clamp_unit(v: int) -> int {
    if v < 0 { 0 } else if v > SCALE { SCALE as int } else { v }
}

/// The layer's opacity at a time: its `opacity` property clamped to
/// `[0, 1]`; a missing or non-numeric property means fully opaque.
pub open spec fn spec_layer_opacity(l: &AnimatedLayer, t: int) -> int {
    match spec_property_lookup(l.properties@, "opacity"@) {
        Some(p) => match spec_track_value(p.keyframes@, t) {
            KeyframeValue::Number(v) => spec_clamp_unit(v as int),
            _ => SCALE as int,
        },
        None => SCALE as int,
    }
}

/// Evaluates the layer's opacity at a time.
fn layer_opacity(l: &AnimatedLayer, time: i64) -> (r: i64)
    requires
        layer_wf(l),
        crate::fixed::fx_bounded(time),
    ensures
        r == spec_layer_opacity(l, time as int),
        0 <= r <= SCALE,
{
    match l.get_property_value("opacity", time) {
        Some(KeyframeValue::Number(v)) => {
            if v < 0 { 0 } else if v > SCALE { SCALE } else { v }
        },
        Some(_) => SCALE,
        None => SCALE,
    }
}

/// One mask's coverage at a time, as a channel value: its `opacity` track
/// clamped to `[0, 1]` and scaled to `[0, 255]`; a non-numeric track means
/// full coverage.
pub open spec fn spec_mask_coverage(m: &AnimatedMask, t: int) -> int {
    match spec_track_value(m.opacity.keyframes@, t) {
        KeyframeValue::Number(v) => spec_clamp_unit(v as int) * 255 / (SCALE as int),
        _ => 255,
    }
}

/// Combines one mask's coverage into the running coverage, per the mask's
/// mode: `Add` saturating-adds, `Subtract` saturating-subtracts,
/// `Intersect` takes the minimum, `Difference` the absolute difference.
pub open spec fn spec_combine_coverage(mode: MaskMode, run: int, c: int) -> int {
    match mode {
        MaskMode::Add => if run + c > 255 { 255 } else { run + c },
        MaskMode::Subtract => if run - c < 0 { 0 } else { run - c },
        MaskMode::Intersect => if run < c { run } else { c },
        MaskMode::Difference => if run >= c { run - c } else { c - run },
    }
}

/// The combined coverage of a mask stack at a time, starting from zero
/// coverage and folding the masks in order.
pub open spec fn spec_stack_coverage(masks: Seq<AnimatedMask>, t: int) -> int
    decreases masks.len(),
{
    if masks.len() == 0 {
        0
    } else {
        spec_combine_coverage(
            masks.last().mode,
            spec_stack_coverage(masks.drop_last(), t),
            spec_mask_coverage(&masks.last(), t),
        )
    }
}

/// Evaluates the combined coverage of a mask stack.
fn stack_coverage(masks: &Vec<AnimatedMask>, time: i64) -> (r: u8)
    requires
        forall|i: int| 0 <= i < masks@.len() ==> #[trigger] mask_wf(&masks@[i]),
        crate::fixed::fx_bounded(time),
    ensures
        r as int == spec_stack_coverage(masks@, time as int),
{
    let n = masks.len();
    let mut cov: u8 = 0;
    let mut i: usize = 0;
    proof {
        assert(masks@.subrange(0, 0) =~= Seq::<AnimatedMask>::empty());
    }
    while i < n
        invariant
            n == masks@.len(),
            i <= n,
            forall|j: int| 0 <= j < masks@.len() ==> #[trigger] mask_wf(&masks@[j]),
            crate::fixed::fx_bounded(time),
            cov as int == spec_stack_coverage(masks@.subrange(0, i as int), time as int),
        decreases n - i,
    {
        proof {
            assert(mask_wf(&masks@[i as int]));
        }
        let mv: i64 = match masks[i].opacity.evaluate_at(time) {
            KeyframeValue::Number(v) => {
                let cl: i64 = if v < 0 { 0 } else if v > SCALE { SCALE } else { v };
                proof {
                    vstd::arithmetic::div_mod::lemma_div_pos_is_pos(cl * 255, SCALE as int);
                    assert(cl * 255 <= SCALE * 255) by (nonlinear_arith)
                        requires 0 <= cl <= SCALE;
                    vstd::arithmetic::div_mod::lemma_div_is_ordered(cl * 255, (SCALE as int) * 255, SCALE as int);
                    vstd::arithmetic::mul::lemma_mul_is_commutative(SCALE as int, 255);
                    vstd::arithmetic::div_mod::lemma_div_multiples_vanish(255, SCALE as int);
                }
                cl * 255 / SCALE
            },
            _ => 255,
        };
        let m = mv as u8;
        cov = match masks[i].mode {
            MaskMode::Add => if cov as u32 + m as u32 > 255 { 255 } else { cov + m },
            MaskMode::Subtract => if cov < m { 0 } else { cov - m },
            MaskMode::Intersect => if cov < m { cov } else { m },
            MaskMode::Difference => if cov >= m { cov - m } else { m - cov },
        };
        i = i + 1;
        proof {
            let cur = masks@.subrange(0, i as int);
            assert(cur.drop_last() =~= masks@.subrange(0, i - 1));
            assert(cur.last() == masks@[i - 1]);
        }
    }
    proof {
        assert(masks@.subrange(0, n as int) =~= masks@);
    }
    cov
}

/// A buffer with every alpha byte scaled by `cov / 255`.
pub open spec fn spec_scale_alpha(buf: Seq<u8>, cov: int) -> Seq<u8> {
    Seq::new(buf.len(), |i: int|
        if i % 4 == 3 {
            ((buf[i] as int) * cov / 255) as u8
        } else {
            buf[i]
        }
    )
}

/// Scales every alpha byte of the buffer by `cov / 255`.
fn scale_alpha(buf: &mut Vec<u8>, cov: u8)
    requires
        old(buf)@.len() % 4 == 0,
    ensures
        final(buf)@ == spec_scale_alpha(old(buf)@, cov as int),
        final(buf)@.len() == old(buf)@.len(),
{
    let ghost b0 = buf@;
    let len = buf.len();
    let mut i: usize = 3;
    while i < len
        invariant
            buf@.len() == len,
            len % 4 == 0,
            i % 4 == 3,
            forall|j: int| 0 <= j < len && j % 4 != 3 ==> buf@[j] == b0[j],
            forall|j: int| 0 <= j < len && j % 4 == 3 && j < i
                ==> buf@[j] as int == (b0[j] as int) * (cov as int) / 255,
            forall|j: int| 0 <= j < len && j % 4 == 3 && j >= i ==> buf@[j] == b0[j],
        decreases len + 4 - i,
    {
        proof {
            lemma_channel_product(b0[i as int] as int, cov as int);
        }
        let v = (buf[i] as u32) * (cov as u32) / 255;
        buf[i] = v as u8;
        i = i + 4;
    }
    proof {
        assert(final(buf)@ =~= spec_scale_alpha(b0, cov as int));
    }
}

/// The matte factor of one pixel of the matte buffer: its alpha channel or
/// its Rec. 709 luma, optionally inverted.
pub open spec fn spec_matte_factor(mt: MatteType, mbuf: Seq<u8>, p: int) -> int {
    let a = mbuf[4 * p + 3] as int;
    let luma = (2126 * (mbuf[4 * p] as int) + 7152 * (mbuf[4 * p + 1] as int)
        + 722 * (mbuf[4 * p + 2] as int)) / 10000;
    match mt {
        MatteType::Alpha => a,
        MatteType::AlphaInverted => 255 - a,
        MatteType::Luma => luma,
        MatteType::LumaInverted => 255 - luma,
    }
}

/// A buffer with every alpha byte multiplied by the matte factor of the
/// corresponding matte pixel.
pub open spec fn spec_apply_matte(buf: Seq<u8>, mt: MatteType, mbuf: Seq<u8>) -> Seq<u8> {
    Seq::new(buf.len(), |i: int|
        if i % 4 == 3 {
            ((buf[i] as int) * spec_matte_factor(mt, mbuf, i / 4) / 255) as u8
        } else {
            buf[i]
        }
    )
}

/// The matte factor is a channel value.
proof fn lemma_matte_factor_range(mt: MatteType, mbuf: Seq<u8>, p: int)
    requires
        0 <= p,
        4 * p + 3 < mbuf.len(),
    ensures
        0 <= spec_matte_factor(mt, mbuf, p) <= 255,
{
    let r = mbuf[4 * p] as int;
    let g = mbuf[4 * p + 1] as int;
    let b = mbuf[4 * p + 2] as int;
    assert(0 <= 2126 * r + 7152 * g + 722 * b <= 2550000) by (nonlinear_arith)
        requires 0 <= r <= 255 && 0 <= g <= 255 && 0 <= b <= 255;
    vstd::arithmetic::div_mod::lemma_div_pos_is_pos(2126 * r + 7152 * g + 722 * b, 10000);
    vstd::arithmetic::div_mod::lemma_div_is_ordered(2126 * r + 7152 * g + 722 * b, 2550000int, 10000);
}

/// Multiplies each alpha byte of `buf` by the matte factor of the
/// corresponding pixel of `mbuf`.
fn apply_matte(buf: &mut Vec<u8>, mt: &MatteType, mbuf: &Vec<u8>)
    requires
        old(buf)@.len() % 4 == 0,
        mbuf@.len() == old(buf)@.len(),
    ensures
        final(buf)@ == spec_apply_matte(old(buf)@, *mt, mbuf@),
        final(buf)@.len() == old(buf)@.len(),
{
    let ghost b0 = buf@;
    let len = buf.len();
    let mut i: usize = 3;
    while i < len
        invariant
            buf@.len() == len,
            mbuf@.len() == len,
            len % 4 == 0,
            i % 4 == 3,
            i >= 3,
            forall|j: int| 0 <= j < len && j % 4 != 3 ==> buf@[j] == b0[j],
            forall|j: int| 0 <= j < len && j % 4 == 3 && j < i
                ==> buf@[j] as int == (b0[j] as int) * spec_matte_factor(*mt, mbuf@, j / 4) / 255,
            forall|j: int| 0 <= j < len && j % 4 == 3 && j >= i ==> buf@[j] == b0[j],
        decreases len + 4 - i,
    {
        proof {
            assert(i as int / 4 == (i as int - 3) / 4 + 0) by (nonlinear_arith)
                requires i as int % 4 == 3;
            lemma_pixel_base(len as int, i as int);
            lemma_matte_factor_range(*mt, mbuf@, i as int / 4);
        }
        let p4 = i - 3;
        let luma: u32 = (2126 * (mbuf[p4] as u32) + 7152 * (mbuf[p4 + 1] as u32)
            + 722 * (mbuf[p4 + 2] as u32)) / 10000;
        let factor: u32 = match mt {
            MatteType::Alpha => mbuf[p4 + 3] as u32,
            MatteType::AlphaInverted => 255 - (mbuf[p4 + 3] as u32),
            MatteType::Luma => luma,
            MatteType::LumaInverted => 255 - luma,
        };
        proof {
            assert(4 * (i as int / 4) == i - 3) by (nonlinear_arith)
                requires i as int % 4 == 3;
            assert(factor as int == spec_matte_factor(*mt, mbuf@, i as int / 4));
            lemma_channel_product(b0[i as int] as int, factor as int);
        }
        let v = (buf[i] as u32) * factor / 255;
        buf[i] = v as u8;
        i = i + 4;
    }
    proof {
        assert(final(buf)@ =~= spec_apply_matte(b0, *mt, mbuf@));
    }
}

/// Copies a byte buffer.
fn clone_bytes(d: &Vec<u8>) -> (r: Vec<u8>)
    ensures
        r@ == d@,
{
    let mut out: Vec<u8> = Vec::new();
    let n = d.len();
    let mut i: usize = 0;
    while i < n
        invariant
            n == d@.len(),
            i <= n,
            out@ == d@.subrange(0, i as int),
        decreases n - i,
    {
        out.push(d[i]);
        proof {
            assert(out@ =~= d@.subrange(0, i + 1));
        }
        i = i + 1;
    }
    proof {
        assert(d@.subrange(0, n as int) =~= d@);
    }
    out
}

/// The raw content buffer of a layer before masks and matte: what its
/// content source produces at the composition's size. Solids fill the frame;
/// image, video and text sources come decoded from the host's content table
/// (a missing or mis-sized buffer degrades to transparent, per the
/// malformed-reference rule); pre-compositions render the referenced
/// composition from the table, depth-bounded; shape rasterization is
/// delegated to the host's vector rasterizer; null, camera, light and audio
/// layers are invisible.
pub open spec fn spec_layer_base(
    sources: Seq<SourceFrame>, comps: Seq<Composition>, w: nat, h: nat,
    layer: &AnimatedLayer, t: int, depth: nat,
) -> Seq<u8>
    decreases depth, 1nat, 0nat,
{
    match &layer.layer_type {
        AnimatedLayerType::Solid { color } => spec_solid(w * h, *color),
        AnimatedLayerType::Image { source } | AnimatedLayerType::Video { source } => {
            match spec_source_lookup(sources, source@) {
                Some(d) => if d.len() == w * h * 4 {
                    d
                } else {
                    spec_solid(w * h, (0u8, 0u8, 0u8, 0u8))
                },
                None => spec_solid(w * h, (0u8, 0u8, 0u8, 0u8)),
            }
        },
        AnimatedLayerType::Precomp { composition_id } => {
            if depth == 0 {
                spec_solid(w * h, (0u8, 0u8, 0u8, 0u8))
            } else {
                match spec_comp_lookup(comps, composition_id@) {
                    Some(ci) => {
                        let sub = comps[ci];
                        if sub.width == w && sub.height == h {
                            spec_frame_upto(sources, comps, &sub, t, (depth - 1) as nat, sub.layers@.len() as int)
                        } else {
                            spec_solid(w * h, (0u8, 0u8, 0u8, 0u8))
                        }
                    },
                    None => spec_solid(w * h, (0u8, 0u8, 0u8, 0u8)),
                }
            }
        },
        _ => spec_solid(w * h, (0u8, 0u8, 0u8, 0u8)),
    }
}

/// The finished content buffer of a layer: its base content, with the mask
/// stack's combined coverage scaled into the alpha channel (when masks are
/// present), then the track matte's alpha or luma multiplied in (when the
/// matte reference resolves; a dangling reference degrades to no matte).
pub open spec fn spec_layer_content(
    sources: Seq<SourceFrame>, comps: Seq<Composition>, siblings: Seq<AnimatedLayer>,
    w: nat, h: nat, layer: &AnimatedLayer, t: int, depth: nat,
) -> Seq<u8>
    decreases depth, 2nat, 0nat,
{
    let base = spec_layer_base(sources, comps, w, h, layer, t, depth);
    let masked = if layer.masks@.len() > 0 {
        spec_scale_alpha(base, spec_stack_coverage(layer.masks@, t))
    } else {
        base
    };
    match &layer.track_matte {
        Some(tm) => {
            if depth == 0 {
                masked
            } else {
                match spec_layer_lookup(siblings, tm.layer_id@) {
                    Some(mi) => spec_apply_matte(
                        masked,
                        tm.matte_type,
                        spec_layer_content(sources, comps, siblings, w, h, &siblings[mi], t, (depth - 1) as nat),
                    ),
                    None => masked,
                }
            }
        },
        None => masked,
    }
}

/// The frame of a composition's first `k` layers: the background color,
/// with each layer's content composited bottom-to-top at its opacity and
/// blend mode.
pub open spec fn spec_frame_upto(
    sources: Seq<SourceFrame>, comps: Seq<Composition>, comp: &Composition,
    t: int, depth: nat, k: int,
) -> Seq<u8>
    decreases depth, 3nat, k,
{
    let pixels = (comp.width * comp.height) as nat;
    if k <= 0 {
        spec_solid(pixels, comp.background_color)
    } else {
        let below = spec_frame_upto(sources, comps, comp, t, depth, k - 1);
        let layer = comp.layers@[k - 1];
        spec_composite(
            spec_blend_mode_of(layer.blend_mode@),
            spec_layer_content(sources, comps, comp.layers@, comp.width as nat,
                comp.height as nat, &layer, t, depth),
            below,
            spec_layer_opacity(&layer, t),
        )
    }
}


/// Renders the raw content buffer of a layer (before masks and matte).
fn layer_base(
    ctx: &RenderContext, w: u32, h: u32, layer: &AnimatedLayer, time: i64, depth: u32,
) -> (r: Vec<u8>)
    requires
        ctx.wf(),
        layer_wf(layer),
        w * h <= 0x400_0000,
        crate::fixed::fx_bounded(time),
    ensures
        r@ == spec_layer_base(ctx.sources@, ctx.compositions@, w as nat, h as nat, layer,
            time as int, depth as nat),
        r@.len() == (w * h * 4) as nat,
        r@.len() % 4 == 0,
    decreases depth, 1int, 0int,
{
    proof {
        assert((w as int) * (h as int) * 4 <= 0x1000_0000
            && (w as usize) * (h as usize) == (w as nat) * (h as nat)
            && ((w as nat) * (h as nat)) * 4 == (w * h * 4) as nat)
            by (nonlinear_arith)
            requires (w as int) * (h as int) <= 0x400_0000;
        vstd::arithmetic::div_mod::lemma_mod_multiples_basic((w as int) * (h as int), 4);
        assert(((w as int) * (h as int)) * 4 == 4 * ((w as int) * (h as int))) by (nonlinear_arith);
    }
    let ghost gspec = spec_layer_base(ctx.sources@, ctx.compositions@, w as nat, h as nat, layer,
        time as int, depth as nat);
    let pixels: usize = (w as usize) * (h as usize);
    match &layer.layer_type {
        AnimatedLayerType::Solid { color } => {
            let r = solid_frame(pixels, *color);
            proof {
                assert(r@ == gspec);
            }
            r
        },
        AnimatedLayerType::Image { source } | AnimatedLayerType::Video { source } => {
            match source_lookup(&ctx.sources, source.as_str()) {
                Some(d) => {
                    if d.len() == pixels * 4 {
                        let r = clone_bytes(d);
                        proof {
                            assert(r@ == gspec);
                        }
                        r
                    } else {
                        let r = solid_frame(pixels, (0, 0, 0, 0));
                        proof {
                            assert(r@ == gspec);
                        }
                        r
                    }
                },
                None => {
                    let r = solid_frame(pixels, (0, 0, 0, 0));
                    proof {
                        assert(r@ == gspec);
                    }
                    r
                },
            }
        },
        AnimatedLayerType::Precomp { composition_id } => {
            if depth == 0 {
                let r = solid_frame(pixels, (0, 0, 0, 0));
                proof {
                    assert(r@ == gspec);
                }
                r
            } else {
                match comp_lookup(&ctx.compositions, composition_id.as_str()) {
                    Some(ci) => {
                        proof {
                            lemma_comp_lookup_valid(ctx.compositions@, composition_id@);
                        }
                        let sub = &ctx.compositions[ci];
                        if sub.width == w && sub.height == h {
                            let r = sub.render_frame_with(ctx, time, depth - 1);
                            proof {
                                assert((sub.width * sub.height * 4) as nat == (w * h * 4) as nat);
                                assert(r@ == gspec);
                            }
                            r
                        } else {
                            let r = solid_frame(pixels, (0, 0, 0, 0));
                            proof {
                                assert(r@ == gspec);
                            }
                            r
                        }
                    },
                    None => {
                        let r = solid_frame(pixels, (0, 0, 0, 0));
                        proof {
                            assert(r@ == gspec);
                        }
                        r
                    },
                }
            }
        },
        _ => {
            let r = solid_frame(pixels, (0, 0, 0, 0));
            proof {
                assert(r@ == gspec);
            }
            r
        },
    }
}

/// Renders the finished content buffer of one layer (base content, masks,
/// matte) at the composition size `w` by `h`.
fn layer_content(
    ctx: &RenderContext, siblings: &Vec<AnimatedLayer>, w: u32, h: u32,
    layer: &AnimatedLayer, time: i64, depth: u32,
) -> (r: Vec<u8>)
    requires
        ctx.wf(),
        layer_wf(layer),
        forall|i: int| 0 <= i < siblings@.len() ==> #[trigger] layer_wf(&siblings@[i]),
        w * h <= 0x400_0000,
        crate::fixed::fx_bounded(time),
    ensures
        r@ == spec_layer_content(ctx.sources@, ctx.compositions@, siblings@, w as nat, h as nat,
            layer, time as int, depth as nat),
        r@.len() == (w * h * 4) as nat,
        r@.len() % 4 == 0,
    decreases depth, 2int, 0int,
{
    let mut buf: Vec<u8> = layer_base(ctx, w, h, layer, time, depth);
    proof {
        assert((w as int) * (h as int) * 4 <= 0x1000_0000) by (nonlinear_arith)
            requires (w as int) * (h as int) <= 0x400_0000;
    }
    if layer.masks.len() > 0 {
        let cov = stack_coverage(&layer.masks, time);
        scale_alpha(&mut buf, cov);
    }
    if let Some(tm) = &layer.track_matte {
        if depth > 0 {
            match layer_lookup(siblings, tm.layer_id.as_str()) {
                Some(mi) => {
                    proof {
                        lemma_layer_lookup_valid(siblings@, tm.layer_id@);
                    }
                    let mbuf = layer_content(ctx, siblings, w, h, &siblings[mi], time, depth - 1);
                    apply_matte(&mut buf, &tm.matte_type, &mbuf);
                },
                None => {},
            }
        }
    }
    buf
}

impl Composition {
    /// Renders the composition at a time against host-owned content and
    /// composition tables, following pre-composition references at most
    /// `depth` levels deep.
    ///
    /// The output is an RGBA buffer of `width * height` pixels: the
    /// background color with each layer's finished content composited
    /// bottom-to-top at its opacity and blend mode. A malformed reference
    /// (missing content, missing matte or composition id, mis-sized
    /// content) degrades to "absent" and never aborts the frame.
    pub fn render_frame_with(&self, ctx: &RenderContext, time: i64, depth: u32) -> (r: Vec<u8>)
        requires
            self.wf(),
            ctx.wf(),
            crate::fixed::fx_bounded(time),
        ensures
            r@ == spec_frame_upto(ctx.sources@, ctx.compositions@, self, time as int, depth as nat,
                self.layers@.len() as int),
            r@.len() == (self.width * self.height * 4) as nat,
        decreases depth, 3int, 0int,
    {
        proof {
            assert((self.width as int) * (self.height as int) * 4 <= 0x1000_0000
                && (self.width as usize) * (self.height as usize)
                    == (self.width as int) * (self.height as int))
                by (nonlinear_arith)
                requires (self.width as int) * (self.height as int) <= 0x400_0000;
        }
        let pixels: usize = (self.width as usize) * (self.height as usize);
        let mut frame = solid_frame(pixels, self.background_color);
        let n = self.layers.len();
        let mut k: usize = 0;
        while k < n
            invariant
                self.wf(),
                ctx.wf(),
                crate::fixed::fx_bounded(time),
                n == self.layers@.len(),
                k <= n,
                pixels == (self.width as int) * (self.height as int),
                pixels * 4 <= 0x1000_0000,
                frame@ == spec_frame_upto(ctx.sources@, ctx.compositions@, self, time as int,
                    depth as nat, k as int),
                frame@.len() == pixels * 4,
            decreases n - k,
        {
            proof {
                assert(layer_wf(&self.layers@[k as int]));
            }
            let content = layer_content(ctx, &self.layers, self.width, self.height,
                &self.layers[k], time, depth);
            let opacity = layer_opacity(&self.layers[k], time);
            let mode = blend_mode_from_name(self.layers[k].blend_mode.as_str());
            proof {
                assert(content@.len() == frame@.len()) by (nonlinear_arith)
                    requires content@.len() == ((self.width as int) * (self.height as int)) * 4
                        && frame@.len() == pixels * 4
                        && pixels == (self.width as int) * (self.height as int);
                assert(frame@.len() % 4 == 0) by (nonlinear_arith)
                    requires frame@.len() == pixels * 4;
            }
            composite_over(&mut frame, &content, &mode, opacity);
            k = k + 1;
        }
        frame
    }

    /// Renders the composition at a time with no host tables: decoded
    /// content and pre-composition references degrade to transparent.
    pub fn render_frame(&self, time: i64) -> (r: Vec<u8>)
        requires
            self.wf(),
            crate::fixed::fx_bounded(time),
        ensures
            r@ == spec_frame_upto(Seq::<SourceFrame>::empty(), Seq::<Composition>::empty(),
                self, time as int, MAX_RENDER_DEPTH as nat, self.layers@.len() as int),
            r@.len() == (self.width * self.height * 4) as nat,
    {
        let ctx = RenderContext::new();
        let r = self.render_frame_with(&ctx, time, MAX_RENDER_DEPTH);
        proof {
            assert(ctx.sources@ =~= Seq::<SourceFrame>::empty());
            assert(ctx.compositions@ =~= Seq::<Composition>::empty());
        }
        r
    }
}

impl AnimatedLayer {
    /// Renders the layer's own finished content (base content and masks) at
    /// a given size, outside any composition: references to siblings,
    /// decoded content and pre-compositions degrade to transparent.
    pub fn render_at(&self, time: i64, width: u32, height: u32) -> (r: Vec<u8>)
        requires
            layer_wf(self),
            width * height <= 0x400_0000,
            crate::fixed::fx_bounded(time),
        ensures
            r@ == spec_layer_content(Seq::<SourceFrame>::empty(), Seq::<Composition>::empty(),
                Seq::<AnimatedLayer>::empty(), width as nat, height as nat, self, time as int, 0),
            r@.len() == (width * height * 4) as nat,
    {
        let ctx = RenderContext::new();
        let siblings: Vec<AnimatedLayer> = Vec::new();
        let r = layer_content(&ctx, &siblings, width, height, self, time, 0);
        proof {
            assert(siblings@ =~= Seq::<AnimatedLayer>::empty());
            assert(ctx.sources@ =~= Seq::<SourceFrame>::empty());
            assert(ctx.compositions@ =~= Seq::<Composition>::empty());
        }
        r
    }
}

/// The layer's own position at a time: its `position` property's 2D vector,
/// or the origin when the property is missing or not a 2D vector.
pub open spec fn spec_layer_position(l: &AnimatedLayer, t: int) -> (int, int) {
    match spec_property_lookup(l.properties@, "position"@) {
        Some(p) => match spec_track_value(p.keyframes@, t) {
            KeyframeValue::Vector2D(x, y) => (x as int, y as int),
            _ => (0, 0),
        },
        None => (0, 0),
    }
}

/// A coordinate clamped to the engine's value range.
pub open spec fn spec_clamp_coord(v: int) -> int {
    if v < -crate::fixed::FX_MAX {
        -crate::fixed::FX_MAX as int
    } else if v > crate::fixed::FX_MAX {
        crate::fixed::FX_MAX as int
    } else {
        v
    }
}

/// The layer's effective position: its own position plus its ancestors',
/// resolved through the weak `parent_id` back-references with a walk budget.
/// A dangling parent id contributes nothing, and a chain longer than the
/// budget — with the budget set to the layer count, only a cycle — is
/// broken there rather than followed, so cycles accumulate at most the
/// budget's worth of ancestors. Coordinates saturate at the engine's value
/// range.
pub open spec fn spec_effective_position(
    layers: Seq<AnimatedLayer>, l: &AnimatedLayer, t: int, budget: nat,
) -> (int, int)
    decreases budget,
{
    let own = spec_layer_position(l, t);
    let own_c = (spec_clamp_coord(own.0), spec_clamp_coord(own.1));
    match &l.parent_id {
        None => own_c,
        Some(pid) => {
            if budget == 0 {
                own_c
            } else {
                match spec_layer_lookup(layers, pid@) {
                    Some(j) => {
                        let up = spec_effective_position(layers, &layers[j], t, (budget - 1) as nat);
                        (spec_clamp_coord(own_c.0 + up.0), spec_clamp_coord(own_c.1 + up.1))
                    },
                    None => own_c,
                }
            }
        },
    }
}

/// Clamps a coordinate to the engine's value range.
fn clamp_coord(v: i64) -> (r: i64)
    ensures
        r == spec_clamp_coord(v as int),
        -crate::fixed::FX_MAX <= r <= crate::fixed::FX_MAX,
{
    if v < -crate::fixed::FX_MAX {
        -crate::fixed::FX_MAX
    } else if v > crate::fixed::FX_MAX {
        crate::fixed::FX_MAX
    } else {
        v
    }
}

/// Resolves a layer's effective position through its parent chain.
fn effective_position(
    layers: &Vec<AnimatedLayer>, layer: &AnimatedLayer, time: i64, budget: usize,
) -> (r: (i64, i64))
    requires
        layer_wf(layer),
        forall|i: int| 0 <= i < layers@.len() ==> #[trigger] layer_wf(&layers@[i]),
        crate::fixed::fx_bounded(time),
    ensures
        (r.0 as int, r.1 as int) == spec_effective_position(layers@, layer, time as int, budget as nat),
        -crate::fixed::FX_MAX <= r.0 <= crate::fixed::FX_MAX,
        -crate::fixed::FX_MAX <= r.1 <= crate::fixed::FX_MAX,
    decreases budget,
{
    let own: (i64, i64) = match layer.get_property_value("position", time) {
        Some(KeyframeValue::Vector2D(x, y)) => (clamp_coord(x), clamp_coord(y)),
        Some(_) => (0, 0),
        None => (0, 0),
    };
    match &layer.parent_id {
        None => own,
        Some(pid) => {
            if budget == 0 {
                own
            } else {
                match layer_lookup(layers, pid.as_str()) {
                    Some(j) => {
                        proof {
                            lemma_layer_lookup_valid(layers@, pid@);
                        }
                        let up = effective_position(layers, &layers[j], time, budget - 1);
                        (clamp_coord(own.0 + up.0), clamp_coord(own.1 + up.1))
                    },
                    None => own,
                }
            }
        },
    }
}

impl Composition {
    /// Resolves the effective position of the layer at `index`: its own
    /// animated position plus its ancestors' positions, following the weak
    /// parent references at most once per layer of the composition. A
    /// parent cycle exhausts that budget and is broken there (the walk
    /// treats the remaining chain as unparented) rather than followed
    /// forever.
    pub fn resolve_layer_position(&self, index: usize, time: i64) -> (r: (i64, i64))
        requires
            self.wf(),
            index < self.layers@.len(),
            crate::fixed::fx_bounded(time),
        ensures
            (r.0 as int, r.1 as int) == spec_effective_position(
                self.layers@, &self.layers@[index as int], time as int, self.layers@.len() as nat),
    {
        proof {
            assert(layer_wf(&self.layers@[index as int]));
        }
        effective_position(&self.layers, &self.layers[index], time, self.layers.len())
    }
}

} // verus!
