//! Fixed-point arithmetic used throughout the engine.
//!
//! A quantity of `1.0` (one second on a timeline, full opacity, a normalized
//! progress value) is carried as [`SCALE`] units in an `i64`. The scale is
//! chosen so that the constants of the easing formulas (`1.70158`,
//! `7.5625`, `2.75` and the segment offsets they induce) and the keyframe
//! removal epsilon of `0.001` are all whole numbers of units.

use vstd::prelude::*;

verus! {

/// Number of fixed-point units in `1.0`.
pub const SCALE: i64 = 2_200_000;

/// Half of [`SCALE`], the fixed-point `0.5`.
pub const HALF_SCALE: i64 = 1_100_000;

/// Largest magnitude (in units) the engine accepts for a time or a scalar
/// value component: `2^37` units (about 62,000 seconds or units of value).
/// Keeping inputs inside this bound keeps every intermediate product of the
/// interpolation formulas inside `i64`, eased overshoot included.
pub const FX_MAX: i64 = 0x20_0000_0000;

/// A time or value component small enough for interpolation arithmetic.
pub open spec fn fx_bounded(v: i64) -> bool {
    -FX_MAX <= v <= FX_MAX
}

/// Division truncated toward zero, as the machine division behaves.
pub open spec fn spec_div_trunc(x: int, d: int) -> int {
    if x >= 0 {
        x / d
    } else {
        -((-x) / d)
    }
}

/// The fixed-point product `a * b`, truncated to the unit grid.
pub open spec fn spec_mul_fx(a: int, b: int) -> int {
    (a * b) / (SCALE as int)
}

/// Fixed-point multiplication of nonnegative operands.
pub fn mul_fx(a: i64, b: i64) -> (r: i64)
    requires
        0 <= a,
        0 <= b,
        a * b <= i64::MAX,
    ensures
        r == spec_mul_fx(a as int, b as int),
        0 <= r <= a * b,
{
    proof {
        vstd::arithmetic::mul::lemma_mul_nonnegative(a as int, b as int);
        vstd::arithmetic::div_mod::lemma_div_pos_is_pos(a * b, SCALE as int);
        vstd::arithmetic::div_mod::lemma_div_is_ordered_by_denominator(a * b, 1, SCALE as int);
        vstd::arithmetic::div_mod::lemma_div_basics(a * b);
    }
    (a * b) / SCALE
}

/// The fixed-point product is monotone in both nonnegative operands.
pub proof fn lemma_mul_fx_le(a: int, b: int, cap_a: int, cap_b: int)
    requires
        0 <= a <= cap_a,
        0 <= b <= cap_b,
    ensures
        0 <= spec_mul_fx(a, b) <= spec_mul_fx(cap_a, cap_b),
{
    vstd::arithmetic::mul::lemma_mul_nonnegative(a, b);
    vstd::arithmetic::div_mod::lemma_div_pos_is_pos(a * b, SCALE as int);
    assert(a * b <= cap_a * cap_b) by (nonlinear_arith)
        requires 0 <= a <= cap_a && 0 <= b <= cap_b;
    vstd::arithmetic::div_mod::lemma_div_is_ordered(a * b, cap_a * cap_b, SCALE as int);
}

/// Linear interpolation from `a` to `b` at progress `t` (in `[0, 1]`),
/// written so that the quotient is always of nonnegative terms.
pub open spec fn spec_lerp(a: int, b: int, t: int) -> int {
    if b >= a {
        a + (b - a) * t / (SCALE as int)
    } else {
        a - (a - b) * t / (SCALE as int)
    }
}

/// The interpolant stays between its endpoints for `t` in `[0, 1]`.
pub proof fn lemma_lerp_bounds(a: int, b: int, t: int)
    requires
        0 <= t <= SCALE,
    ensures
        b >= a ==> a <= spec_lerp(a, b, t) <= b,
        b < a ==> b <= spec_lerp(a, b, t) <= a,
        spec_lerp(a, b, 0) == a,
        spec_lerp(a, b, SCALE as int) == b,
{
    if b >= a {
        vstd::arithmetic::mul::lemma_mul_inequality(t, SCALE as int, b - a);
        vstd::arithmetic::div_mod::lemma_div_is_ordered((b - a) * t, (b - a) * (SCALE as int), SCALE as int);
        vstd::arithmetic::mul::lemma_mul_nonnegative(b - a, t);
        vstd::arithmetic::div_mod::lemma_div_pos_is_pos((b - a) * t, SCALE as int);
        vstd::arithmetic::div_mod::lemma_div_multiples_vanish(b - a, SCALE as int);
        assert((b - a) * 0 == 0) by (nonlinear_arith);
    } else {
        vstd::arithmetic::mul::lemma_mul_inequality(t, SCALE as int, a - b);
        vstd::arithmetic::div_mod::lemma_div_is_ordered((a - b) * t, (a - b) * (SCALE as int), SCALE as int);
        vstd::arithmetic::mul::lemma_mul_nonnegative(a - b, t);
        vstd::arithmetic::div_mod::lemma_div_pos_is_pos((a - b) * t, SCALE as int);
        vstd::arithmetic::div_mod::lemma_div_multiples_vanish(a - b, SCALE as int);
        assert((a - b) * 0 == 0) by (nonlinear_arith);
    }
}

/// Executable linear interpolation between bounded endpoints.
pub fn lerp_fx(a: i64, b: i64, t: i64) -> (r: i64)
    requires
        fx_bounded(a),
        fx_bounded(b),
        0 <= t <= SCALE,
    ensures
        r == spec_lerp(a as int, b as int, t as int),
        b >= a ==> a <= r <= b,
        b < a ==> b <= r <= a,
{
    proof {
        lemma_lerp_bounds(a as int, b as int, t as int);
        assert((b - a) * t <= i64::MAX && (a - b) * t <= i64::MAX) by (nonlinear_arith)
            requires fx_bounded(a) && fx_bounded(b) && 0 <= t <= SCALE;
    }
    if b >= a {
        a + (b - a) * t / SCALE
    } else {
        a - (a - b) * t / SCALE
    }
}

} // verus!
