//! Easing library: pure functions mapping a normalized progress value in
//! `[0, 1]` to an eased progress value (fixed-point units of [`SCALE`]).
//!
//! Implemented kinds and formulas:
//! - `Linear`: `t`
//! - `EaseIn`: `t^2`; `EaseOut`: `1 - (1-t)^2`; `EaseInOut`: piecewise
//!   quadratic split at `t = 0.5`
//! - the `Back` kinds, with the constant `c1 = 1.70158` (exactly on the
//!   fixed-point grid) and `c3 = c1 + 1`
//! - `EaseOutBounce`: the four-segment piecewise parabola with
//!   `n1 = 7.5625`, `d1 = 2.75`; `EaseInBounce` and `EaseInOutBounce`
//!   derive from it by time reversal
//! - `Custom`: a cubic Bezier through four control points, whose `y`
//!   coordinate is evaluated directly at parameter `t` (the progress axis is
//!   the curve's own parameter); with any other number of control points the
//!   curve degenerates to linear progress
//!
//! The `Elastic` kinds are left as linear progress: their decaying-sine shape
//! has no exact form on the fixed-point grid, and an unimplemented kind falls
//! back to `Linear` rather than erroring.

use vstd::prelude::*;
use crate::fixed::{SCALE, HALF_SCALE, fx_bounded, spec_mul_fx, mul_fx, lemma_mul_fx_le};

verus! {

/// The easing constant `c1 = 1.70158` of the `Back` kinds, in units.
pub const BACK_C1: i64 = 3_743_476;

/// `c3 = c1 + 1`, in units.
pub const BACK_C3: i64 = 5_943_476;

/// `c2 = c1 * 1.525` of `EaseInOutBack`, rounded to the nearest unit.
pub const BACK_C2: i64 = 5_708_801;

/// The bounce constant `n1 = 7.5625`, in units.
pub const BOUNCE_N1: i64 = 16_637_500;

/// Segment limits of the four-segment bounce: `1/d1`, `2/d1`, `2.5/d1`
/// for `d1 = 2.75`, in units.
pub const BOUNCE_LIMIT_1: i64 = 800_000;
pub const BOUNCE_LIMIT_2: i64 = 1_600_000;
pub const BOUNCE_LIMIT_3: i64 = 2_000_000;

/// Segment time offsets `1.5/d1`, `2.25/d1`, `2.625/d1`, in units.
pub const BOUNCE_SHIFT_2: i64 = 1_200_000;
pub const BOUNCE_SHIFT_3: i64 = 1_800_000;
pub const BOUNCE_SHIFT_4: i64 = 2_100_000;

/// Segment plateaus `0.75`, `0.9375`, `0.984375`, in units.
pub const BOUNCE_BASE_2: i64 = 1_650_000;
pub const BOUNCE_BASE_3: i64 = 2_062_500;
pub const BOUNCE_BASE_4: i64 = 2_165_625;

/// The easing kind attached to a keyframe.
#[derive(Debug, Clone)]
pub enum EasingFunction {
    Linear,
    EaseIn,
    EaseOut,
    EaseInOut,
    EaseInBack,
    EaseOutBack,
    EaseInOutBack,
    EaseInElastic,
    EaseOutElastic,
    EaseInOutElastic,
    EaseInBounce,
    EaseOutBounce,
    EaseInOutBounce,
    /// Control points of a cubic Bezier curve, as `(x, y)` pairs in units.
    Custom(Vec<(i64, i64)>),
}

/// Control points small enough for the Bezier arithmetic.
pub open spec fn easing_wf(e: &EasingFunction) -> bool {
    match e {
        EasingFunction::Custom(ps) => forall|i: int|
            0 <= i < ps@.len() ==> fx_bounded(#[trigger] ps@[i].1),
        _ => true,
    }
}

/// `|a - b|`, used for the bounce segment offsets.
pub open spec fn spec_dist(a: int, b: int) -> int {
    if a >= b { a - b } else { b - a }
}

/// Half of `x`, truncated toward zero.
pub open spec fn spec_half(x: int) -> int {
    if x >= 0 {
        x / 2
    } else {
        -((-x) / 2)
    }
}

/// Fixed-point product truncated toward zero, for operands of either sign.
pub open spec fn spec_mul_fx_signed(a: int, b: int) -> int {
    if a * b >= 0 {
        (a * b) / (SCALE as int)
    } else {
        -((-(a * b)) / (SCALE as int))
    }
}

/// The four-segment bounce-out parabola (`n1 = 7.5625`, `d1 = 2.75`).
pub open spec fn spec_ease_out_bounce(t: int) -> int {
    if t < BOUNCE_LIMIT_1 {
        spec_mul_fx(spec_mul_fx(BOUNCE_N1 as int, t), t)
    } else if t < BOUNCE_LIMIT_2 {
        let d = spec_dist(t, BOUNCE_SHIFT_2 as int);
        spec_mul_fx(spec_mul_fx(BOUNCE_N1 as int, d), d) + BOUNCE_BASE_2
    } else if t < BOUNCE_LIMIT_3 {
        let d = spec_dist(t, BOUNCE_SHIFT_3 as int);
        spec_mul_fx(spec_mul_fx(BOUNCE_N1 as int, d), d) + BOUNCE_BASE_3
    } else {
        let d = spec_dist(t, BOUNCE_SHIFT_4 as int);
        spec_mul_fx(spec_mul_fx(BOUNCE_N1 as int, d), d) + BOUNCE_BASE_4
    }
}

/// The cubic Bezier `y` coordinate at parameter `t`, through the `y`
/// coordinates of four control points.
pub open spec fn spec_bezier_y(y0: int, y1: int, y2: int, y3: int, t: int) -> int {
    let u = SCALE - t;
    let w0 = spec_mul_fx(spec_mul_fx(u, u), u);
    let w1 = 3 * spec_mul_fx(spec_mul_fx(u, u), t);
    let w2 = 3 * spec_mul_fx(spec_mul_fx(u, t), t);
    let w3 = spec_mul_fx(spec_mul_fx(t, t), t);
    spec_mul_fx_signed(w0, y0) + spec_mul_fx_signed(w1, y1) + spec_mul_fx_signed(w2, y2)
        + spec_mul_fx_signed(w3, y3)
}

/// What [`ease`] returns for each kind and progress value.
pub open spec fn spec_ease(e: &EasingFunction, t: int) -> int {
    match e {
        EasingFunction::Linear => t,
        EasingFunction::EaseIn => spec_mul_fx(t, t),
        EasingFunction::EaseOut => SCALE - spec_mul_fx(SCALE - t, SCALE - t),
        EasingFunction::EaseInOut => {
            if t < HALF_SCALE {
                2 * spec_mul_fx(t, t)
            } else {
                SCALE - spec_mul_fx(2 * (SCALE - t), 2 * (SCALE - t)) / 2
            }
        },
        EasingFunction::EaseInBack => {
            spec_mul_fx(BACK_C3 as int, spec_mul_fx(spec_mul_fx(t, t), t))
                - spec_mul_fx(BACK_C1 as int, spec_mul_fx(t, t))
        },
        EasingFunction::EaseOutBack => {
            let u = SCALE - t;
            SCALE - spec_mul_fx(BACK_C3 as int, spec_mul_fx(spec_mul_fx(u, u), u))
                + spec_mul_fx(BACK_C1 as int, spec_mul_fx(u, u))
        },
        EasingFunction::EaseInOutBack => {
            if t < HALF_SCALE {
                let u = 2 * t;
                let inner = spec_mul_fx(BACK_C2 + SCALE, u) - BACK_C2;
                spec_half(spec_mul_fx_signed(spec_mul_fx(u, u), inner))
            } else {
                let u = 2 * (SCALE - t);
                let inner = spec_mul_fx(BACK_C2 + SCALE, u) - BACK_C2;
                spec_half(2 * SCALE - spec_mul_fx_signed(spec_mul_fx(u, u), inner))
            }
        },
        EasingFunction::EaseInBounce => SCALE - spec_ease_out_bounce(SCALE - t),
        EasingFunction::EaseOutBounce => spec_ease_out_bounce(t),
        EasingFunction::EaseInOutBounce => {
            if t < HALF_SCALE {
                (SCALE - spec_ease_out_bounce(SCALE - 2 * t)) / 2
            } else {
                (SCALE + spec_ease_out_bounce(2 * t - SCALE)) / 2
            }
        },
        EasingFunction::Custom(ps) => {
            if ps@.len() == 4 {
                spec_bezier_y(ps@[0].1 as int, ps@[1].1 as int, ps@[2].1 as int, ps@[3].1 as int, t)
            } else {
                t
            }
        },
        _ => t,
    }
}

/// A value in `[0, 1]` has a square that fits comfortably in `i64`.
proof fn lemma_sq_fits(x: int)
    requires
        0 <= x <= SCALE,
    ensures
        x * x <= SCALE * SCALE,
{
    vstd::arithmetic::mul::lemma_mul_inequality(x, SCALE as int, x);
    vstd::arithmetic::mul::lemma_mul_inequality(x, SCALE as int, SCALE as int);
    vstd::arithmetic::mul::lemma_mul_is_commutative(x, SCALE as int);
}

/// Executable halving, truncated toward zero.
fn half_trunc(x: i64) -> (r: i64)
    requires
        x != i64::MIN,
    ensures
        r == spec_half(x as int),
{
    if x >= 0 {
        x / 2
    } else {
        -((-x) / 2)
    }
}

/// A signed fixed-point product is squeezed by a bound on its second operand.
proof fn lemma_mul_fx_signed_bound(a: int, b: int, m: int)
    requires
        0 <= a,
        -m <= b <= m,
        0 <= m,
    ensures
        -spec_mul_fx(a, m) <= spec_mul_fx_signed(a, b) <= spec_mul_fx(a, m),
{
    if b >= 0 {
        vstd::arithmetic::mul::lemma_mul_nonnegative(a, b);
        lemma_mul_fx_le(a, b, a, m);
    } else {
        assert(a * b <= 0) by (nonlinear_arith)
            requires 0 <= a && b < 0;
        if a * b == 0 {
            lemma_mul_fx_le(a, 0, a, m);
        } else {
            assert(-(a * b) == a * (-b)) by (nonlinear_arith);
            lemma_mul_fx_le(a, -b, a, m);
            vstd::arithmetic::mul::lemma_mul_nonnegative(a, -b);
            vstd::arithmetic::div_mod::lemma_div_pos_is_pos(a * (-b), SCALE as int);
        }
    }
}

/// Signed fixed-point multiplication (truncates toward zero, as the
/// nonnegative helper does).
pub fn mul_fx_signed(a: i64, b: i64) -> (r: i64)
    requires
        -i64::MAX <= a * b <= i64::MAX,
        a != i64::MIN,
        b != i64::MIN,
    ensures
        r == spec_mul_fx_signed(a as int, b as int),
{
    let aa: i64 = if a < 0 { -a } else { a };
    let bb: i64 = if b < 0 { -b } else { b };
    proof {
        assert(aa * bb == if a * b >= 0 { a * b } else { -(a * b) }) by (nonlinear_arith)
            requires
                aa as int == (if a < 0 { -(a as int) } else { a as int }),
                bb as int == (if b < 0 { -(b as int) } else { b as int });
        vstd::arithmetic::mul::lemma_mul_nonnegative(aa as int, bb as int);
        vstd::arithmetic::div_mod::lemma_div_pos_is_pos(aa as int * bb as int, SCALE as int);
        assert(a * b >= 0 ==> (a < 0) == (b < 0) || a * b == 0) by (nonlinear_arith);
        assert(a * b < 0 ==> (a < 0) != (b < 0)) by (nonlinear_arith);
    }
    let q = (aa * bb) / SCALE;
    if ((a < 0) != (b < 0)) && q != 0 {
        proof {
            assert(a * b <= 0) by (nonlinear_arith)
                requires (a < 0) != (b < 0);
            assert(a * b != 0 ==> aa * bb == -(a * b));
            if a * b == 0 {
                assert(aa * bb == 0) by (nonlinear_arith)
                    requires a * b == 0, aa as int == (if a < 0 { -(a as int) } else { a as int }),
                        bb as int == (if b < 0 { -(b as int) } else { b as int });
            }
        }
        -q
    } else {
        q
    }
}

/// One parabolic arc of the bounce curve: `n1 * d^2 + base`, with its range
/// pinned inside `[0, 1]` by the segment's largest offset `dmax`.
fn bounce_arc(d: i64, dmax: i64, base: i64) -> (r: i64)
    requires
        0 <= d <= dmax,
        dmax <= SCALE,
        0 <= base,
        spec_mul_fx(spec_mul_fx(BOUNCE_N1 as int, dmax as int), dmax as int) + base <= SCALE,
    ensures
        r == spec_mul_fx(spec_mul_fx(BOUNCE_N1 as int, d as int), d as int) + base,
        0 <= r <= SCALE,
{
    proof {
        lemma_mul_fx_le(BOUNCE_N1 as int, d as int, BOUNCE_N1 as int, SCALE as int);
        lemma_mul_fx_le(BOUNCE_N1 as int, d as int, BOUNCE_N1 as int, dmax as int);
        assert(BOUNCE_N1 * d <= BOUNCE_N1 * SCALE) by (nonlinear_arith)
            requires 0 <= d <= SCALE;
    }
    let m1 = mul_fx(BOUNCE_N1, d);
    proof {
        lemma_mul_fx_le(m1 as int, d as int,
            spec_mul_fx(BOUNCE_N1 as int, dmax as int), dmax as int);
        assert(m1 * d <= BOUNCE_N1 * SCALE) by (nonlinear_arith)
            requires 0 <= m1 <= BOUNCE_N1 && 0 <= d <= SCALE;
    }
    mul_fx(m1, d) + base
}

/// Executable bounce-out curve; always lands in `[0, 1]`.
fn ease_out_bounce(t: i64) -> (r: i64)
    requires
        0 <= t <= SCALE,
    ensures
        r == spec_ease_out_bounce(t as int),
        0 <= r <= SCALE,
{
    if t < BOUNCE_LIMIT_1 {
        bounce_arc(t, BOUNCE_LIMIT_1, 0)
    } else if t < BOUNCE_LIMIT_2 {
        let d: i64 = if t >= BOUNCE_SHIFT_2 { t - BOUNCE_SHIFT_2 } else { BOUNCE_SHIFT_2 - t };
        bounce_arc(d, 400_000, BOUNCE_BASE_2)
    } else if t < BOUNCE_LIMIT_3 {
        let d: i64 = if t >= BOUNCE_SHIFT_3 { t - BOUNCE_SHIFT_3 } else { BOUNCE_SHIFT_3 - t };
        bounce_arc(d, 200_000, BOUNCE_BASE_3)
    } else {
        let d: i64 = if t >= BOUNCE_SHIFT_4 { t - BOUNCE_SHIFT_4 } else { BOUNCE_SHIFT_4 - t };
        bounce_arc(d, 100_000, BOUNCE_BASE_4)
    }
}

/// Applies an easing kind to a progress value `t` in `[0, 1]`.
///
/// Pure and total on its domain; callers clamp out-of-range progress before
/// calling. Kinds without an exact fixed-point formula (the `Elastic` family)
/// fall back to linear progress.
pub fn ease(e: &EasingFunction, t: i64) -> (r: i64)
    requires
        0 <= t <= SCALE,
        easing_wf(e),
    ensures
        r == spec_ease(e, t as int),
{
    match e {
        EasingFunction::Linear => t,
        EasingFunction::EaseIn => {
            proof { lemma_sq_fits(t as int); }
            mul_fx(t, t)
        },
        EasingFunction::EaseOut => {
            proof { lemma_sq_fits(SCALE - t as int); }
            SCALE - mul_fx(SCALE - t, SCALE - t)
        },
        EasingFunction::EaseInOut => {
            if t < HALF_SCALE {
                proof { lemma_sq_fits(t as int); }
                2 * mul_fx(t, t)
            } else {
                let u = 2 * (SCALE - t);
                proof { lemma_sq_fits(u as int); }
                SCALE - mul_fx(u, u) / 2
            }
        },
        EasingFunction::EaseInBack => {
            proof { lemma_sq_fits(t as int); }
            let sq = mul_fx(t, t);
            proof {
                lemma_mul_fx_le(t as int, t as int, SCALE as int, SCALE as int);
                assert(sq * t <= SCALE * SCALE) by (nonlinear_arith)
                    requires 0 <= sq <= SCALE && 0 <= t <= SCALE;
            }
            let cube = mul_fx(sq, t);
            proof {
                lemma_mul_fx_le(sq as int, t as int, SCALE as int, SCALE as int);
            }
            mul_fx(BACK_C3, cube) - mul_fx(BACK_C1, sq)
        },
        EasingFunction::EaseOutBack => {
            let u = SCALE - t;
            proof { lemma_sq_fits(u as int); }
            let sq = mul_fx(u, u);
            proof {
                lemma_mul_fx_le(u as int, u as int, SCALE as int, SCALE as int);
                assert(sq * u <= SCALE * SCALE) by (nonlinear_arith)
                    requires 0 <= sq <= SCALE && 0 <= u <= SCALE;
            }
            let cube = mul_fx(sq, u);
            proof {
                lemma_mul_fx_le(sq as int, u as int, SCALE as int, SCALE as int);
            }
            SCALE - mul_fx(BACK_C3, cube) + mul_fx(BACK_C1, sq)
        },
        EasingFunction::EaseInOutBack => {
            let u: i64 = if t < HALF_SCALE { 2 * t } else { 2 * (SCALE - t) };
            proof {
                assert((BACK_C2 + SCALE) * u <= (BACK_C2 + SCALE) * SCALE) by (nonlinear_arith)
                    requires 0 <= u <= SCALE;
            }
            let p = mul_fx(BACK_C2 + SCALE, u);
            proof {
                lemma_mul_fx_le(BACK_C2 + SCALE, u as int, BACK_C2 + SCALE, SCALE as int);
            }
            let inner = p - BACK_C2;
            proof { lemma_sq_fits(u as int); }
            let sq = mul_fx(u, u);
            proof {
                lemma_mul_fx_le(u as int, u as int, SCALE as int, SCALE as int);
                lemma_mul_fx_signed_bound(sq as int, inner as int, BACK_C2 + SCALE);
                lemma_mul_fx_le(sq as int, BACK_C2 + SCALE, SCALE as int, BACK_C2 + SCALE);
                assert(-i64::MAX <= sq * inner <= i64::MAX) by (nonlinear_arith)
                    requires 0 <= sq <= SCALE && -(BACK_C2 + SCALE) <= inner <= BACK_C2 + SCALE;
            }
            let prod = mul_fx_signed(sq, inner);
            if t < HALF_SCALE {
                half_trunc(prod)
            } else {
                half_trunc(2 * SCALE - prod)
            }
        },
        EasingFunction::EaseInBounce => SCALE - ease_out_bounce(SCALE - t),
        EasingFunction::EaseOutBounce => ease_out_bounce(t),
        EasingFunction::EaseInOutBounce => {
            if t < HALF_SCALE {
                (SCALE - ease_out_bounce(SCALE - 2 * t)) / 2
            } else {
                (SCALE + ease_out_bounce(2 * t - SCALE)) / 2
            }
        },
        EasingFunction::Custom(ps) => {
            if ps.len() == 4 {
                let u = SCALE - t;
                proof {
                    lemma_sq_fits(u as int);
                    lemma_sq_fits(t as int);
                    assert(u * t <= SCALE * SCALE) by (nonlinear_arith)
                        requires 0 <= u <= SCALE && 0 <= t <= SCALE;
                }
                let uu = mul_fx(u, u);
                let ut = mul_fx(u, t);
                let tt = mul_fx(t, t);
                proof {
                    lemma_mul_fx_le(u as int, u as int, SCALE as int, SCALE as int);
                    lemma_mul_fx_le(u as int, t as int, SCALE as int, SCALE as int);
                    lemma_mul_fx_le(t as int, t as int, SCALE as int, SCALE as int);
                    assert(uu * u <= SCALE * SCALE && uu * t <= SCALE * SCALE
                        && ut * t <= SCALE * SCALE && tt * t <= SCALE * SCALE) by (nonlinear_arith)
                        requires 0 <= uu <= SCALE && 0 <= ut <= SCALE && 0 <= tt <= SCALE
                            && 0 <= u <= SCALE && 0 <= t <= SCALE;
                }
                let w0 = mul_fx(uu, u);
                let w1 = 3 * mul_fx(uu, t);
                let w2 = 3 * mul_fx(ut, t);
                let w3 = mul_fx(tt, t);
                proof {
                    lemma_mul_fx_le(uu as int, u as int, SCALE as int, SCALE as int);
                    lemma_mul_fx_le(uu as int, t as int, SCALE as int, SCALE as int);
                    lemma_mul_fx_le(ut as int, t as int, SCALE as int, SCALE as int);
                    lemma_mul_fx_le(tt as int, t as int, SCALE as int, SCALE as int);
                    assert(w0 * ps@[0].1 <= i64::MAX && -i64::MAX <= w0 * ps@[0].1
                        && w1 * ps@[1].1 <= i64::MAX && -i64::MAX <= w1 * ps@[1].1
                        && w2 * ps@[2].1 <= i64::MAX && -i64::MAX <= w2 * ps@[2].1
                        && w3 * ps@[3].1 <= i64::MAX && -i64::MAX <= w3 * ps@[3].1) by (nonlinear_arith)
                        requires
                            0 <= w0 <= SCALE && 0 <= w1 <= 3 * SCALE && 0 <= w2 <= 3 * SCALE
                                && 0 <= w3 <= SCALE && fx_bounded(ps@[0].1) && fx_bounded(ps@[1].1)
                                && fx_bounded(ps@[2].1) && fx_bounded(ps@[3].1);
                    lemma_mul_fx_signed_bound(w0 as int, ps@[0].1 as int, crate::fixed::FX_MAX as int);
                    lemma_mul_fx_signed_bound(w1 as int, ps@[1].1 as int, crate::fixed::FX_MAX as int);
                    lemma_mul_fx_signed_bound(w2 as int, ps@[2].1 as int, crate::fixed::FX_MAX as int);
                    lemma_mul_fx_signed_bound(w3 as int, ps@[3].1 as int, crate::fixed::FX_MAX as int);
                    lemma_mul_fx_le(w0 as int, crate::fixed::FX_MAX as int, 3 * SCALE, crate::fixed::FX_MAX as int);
                    lemma_mul_fx_le(w1 as int, crate::fixed::FX_MAX as int, 3 * SCALE, crate::fixed::FX_MAX as int);
                    lemma_mul_fx_le(w2 as int, crate::fixed::FX_MAX as int, 3 * SCALE, crate::fixed::FX_MAX as int);
                    lemma_mul_fx_le(w3 as int, crate::fixed::FX_MAX as int, 3 * SCALE, crate::fixed::FX_MAX as int);
                }
                mul_fx_signed(w0, ps[0].1) + mul_fx_signed(w1, ps[1].1)
                    + mul_fx_signed(w2, ps[2].1) + mul_fx_signed(w3, ps[3].1)
            } else {
                t
            }
        },
        _ => t,
    }
}

/// Easing boundary law: every easing kind maps progress `0` to `0` and
/// progress `1` to `1`. For a `Custom` curve this holds exactly when its
/// first control point has `y = 0` and its last has `y = 1`.
pub proof fn lemma_ease_boundary(e: &EasingFunction)
    requires
        easing_wf(e),
        match e {
            EasingFunction::Custom(ps) => ps@.len() == 4 ==> ps@[0].1 == 0
                && ps@[3].1 == SCALE,
            _ => true,
        },
    ensures
        spec_ease(e, 0) == 0,
        spec_ease(e, SCALE as int) == SCALE,
{
    match e {
        EasingFunction::Custom(ps) => {
            if ps@.len() == 4 {
                let y1 = ps@[1].1 as int;
                let y2 = ps@[2].1 as int;
                assert(0 * y1 == 0 && 0 * y2 == 0 && y1 * 0 == 0 && y2 * 0 == 0) by (nonlinear_arith);
                assert(spec_bezier_y(0, y1, y2, SCALE as int, 0) == 0);
                assert(spec_bezier_y(0, y1, y2, SCALE as int, SCALE as int) == SCALE);
                assert(spec_ease(e, 0) == 0);
                assert(spec_ease(e, SCALE as int) == SCALE);
            } else {
                assert(spec_ease(e, 0) == 0);
                assert(spec_ease(e, SCALE as int) == SCALE);
            }
        },
        EasingFunction::Linear => { assert(spec_ease(e, 0) == 0); assert(spec_ease(e, SCALE as int) == SCALE); },
        EasingFunction::EaseIn => { assert(spec_ease(e, 0) == 0); assert(spec_ease(e, SCALE as int) == SCALE); },
        EasingFunction::EaseOut => { assert(spec_ease(e, 0) == 0); assert(spec_ease(e, SCALE as int) == SCALE); },
        EasingFunction::EaseInOut => { assert(spec_ease(e, 0) == 0); assert(spec_ease(e, SCALE as int) == SCALE); },
        EasingFunction::EaseInBack => { assert(spec_ease(e, 0) == 0); assert(spec_ease(e, SCALE as int) == SCALE); },
        EasingFunction::EaseOutBack => { assert(spec_ease(e, 0) == 0); assert(spec_ease(e, SCALE as int) == SCALE); },
        EasingFunction::EaseInOutBack => { assert(spec_ease(e, 0) == 0); assert(spec_ease(e, SCALE as int) == SCALE); },
        EasingFunction::EaseInElastic => { assert(spec_ease(e, 0) == 0); assert(spec_ease(e, SCALE as int) == SCALE); },
        EasingFunction::EaseOutElastic => { assert(spec_ease(e, 0) == 0); assert(spec_ease(e, SCALE as int) == SCALE); },
        EasingFunction::EaseInOutElastic => { assert(spec_ease(e, 0) == 0); assert(spec_ease(e, SCALE as int) == SCALE); },
        EasingFunction::EaseInBounce => { assert(spec_ease(e, 0) == 0); assert(spec_ease(e, SCALE as int) == SCALE); },
        EasingFunction::EaseOutBounce => { assert(spec_ease(e, 0) == 0); assert(spec_ease(e, SCALE as int) == SCALE); },
        EasingFunction::EaseInOutBounce => { assert(spec_ease(e, 0) == 0); assert(spec_ease(e, SCALE as int) == SCALE); },
    }
}

} // verus!
