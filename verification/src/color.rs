//! Color grading entry points. Look-up tables, curves, scopes and the
//! color-space conversions are floating-point work that runs in the host's
//! grading pipeline; the engine keeps the conversion entry point here.

use vstd::prelude::*;

verus! {

/// Color space conversions; the transfer-function math runs in the host's
/// grading pipeline.
pub struct ColorSpace;

impl ColorSpace {
    /// Scales an 8-bit channel to fixed-point units of `1.0`.
    pub fn channel_to_unit(value: u8) -> (r: i64)
        ensures
            r == (value as int) * (crate::fixed::SCALE as int) / 255,
            0 <= r <= crate::fixed::SCALE,
    {
        proof {
            vstd::arithmetic::mul::lemma_mul_nonnegative(value as int, crate::fixed::SCALE as int);
            vstd::arithmetic::div_mod::lemma_div_pos_is_pos(
                (value as int) * (crate::fixed::SCALE as int), 255);
            assert((value as int) * (crate::fixed::SCALE as int)
                <= 255 * (crate::fixed::SCALE as int)) by (nonlinear_arith)
                requires value <= 255;
            vstd::arithmetic::div_mod::lemma_div_is_ordered(
                (value as int) * (crate::fixed::SCALE as int),
                255 * (crate::fixed::SCALE as int), 255);
            vstd::arithmetic::mul::lemma_mul_is_commutative(255, crate::fixed::SCALE as int);
            vstd::arithmetic::div_mod::lemma_div_multiples_vanish(crate::fixed::SCALE as int, 255);
        }
        (value as i64) * crate::fixed::SCALE / 255
    }

    /// Scales a fixed-point unit value to an 8-bit channel, clamping.
    pub fn unit_to_channel(value: i64) -> (r: u8)
        ensures
            0 <= value <= crate::fixed::SCALE
                ==> r == (value as int) * 255 / (crate::fixed::SCALE as int),
            value < 0 ==> r == 0,
            value > crate::fixed::SCALE ==> r == 255,
    {
        if value < 0 {
            0
        } else if value > crate::fixed::SCALE {
            255
        } else {
            proof {
                vstd::arithmetic::mul::lemma_mul_nonnegative(value as int, 255);
                vstd::arithmetic::div_mod::lemma_div_pos_is_pos(
                    (value as int) * 255, crate::fixed::SCALE as int);
                assert((value as int) * 255 <= (crate::fixed::SCALE as int) * 255)
                    by (nonlinear_arith)
                    requires 0 <= value <= crate::fixed::SCALE;
                vstd::arithmetic::div_mod::lemma_div_is_ordered(
                    (value as int) * 255, (crate::fixed::SCALE as int) * 255,
                    crate::fixed::SCALE as int);
                vstd::arithmetic::mul::lemma_mul_is_commutative(crate::fixed::SCALE as int, 255);
                vstd::arithmetic::div_mod::lemma_div_multiples_vanish(255, crate::fixed::SCALE as int);
            }
            ((value * 255) / crate::fixed::SCALE) as u8
        }
    }
}

} // verus!
