//! Easing curve behavior: boundary values for every kind, the documented
//! bounce value at the midpoint, and spot values of the quadratic kinds.

use motioncore::easing::{ease, EasingFunction};
use motioncore::fixed::{HALF_SCALE, SCALE};

fn all_fixed_kinds() -> Vec<EasingFunction> {
    vec![
        EasingFunction::Linear,
        EasingFunction::EaseIn,
        EasingFunction::EaseOut,
        EasingFunction::EaseInOut,
        EasingFunction::EaseInBack,
        EasingFunction::EaseOutBack,
        EasingFunction::EaseInOutBack,
        EasingFunction::EaseInElastic,
        EasingFunction::EaseOutElastic,
        EasingFunction::EaseInOutElastic,
        EasingFunction::EaseInBounce,
        EasingFunction::EaseOutBounce,
        EasingFunction::EaseInOutBounce,
    ]
}

#[test]
fn every_kind_maps_zero_to_zero_and_one_to_one() {
    for kind in all_fixed_kinds() {
        assert_eq!(ease(&kind, 0), 0, "{:?} at 0", kind);
        assert_eq!(ease(&kind, SCALE), SCALE, "{:?} at 1", kind);
    }
    // A custom cubic through (0,0) and (1,1) obeys the same law.
    let custom = EasingFunction::Custom(vec![(0, 0), (0, SCALE / 2), (SCALE, SCALE / 2), (SCALE, SCALE)]);
    assert_eq!(ease(&custom, 0), 0);
    assert_eq!(ease(&custom, SCALE), SCALE);
}

#[test]
fn bounce_out_midpoint_matches_the_four_segment_formula() {
    // At progress one half the second bounce segment applies:
    // n1 * (1/2 - 1.5/2.75)^2 + 0.75 = 7.5625 / 484 + 0.75 = 0.765625.
    let v = ease(&EasingFunction::EaseOutBounce, HALF_SCALE);
    assert_eq!(v, 1_684_375);
    assert!(v > 0 && v < SCALE);
}

#[test]
fn quadratic_kinds_hit_their_textbook_values() {
    // t^2 at one half is one quarter.
    assert_eq!(ease(&EasingFunction::EaseIn, HALF_SCALE), SCALE / 4);
    // 1 - (1-t)^2 at one half is three quarters.
    assert_eq!(ease(&EasingFunction::EaseOut, HALF_SCALE), 3 * SCALE / 4);
    // The piecewise quadratic passes through one half at its split point.
    assert_eq!(ease(&EasingFunction::EaseInOut, HALF_SCALE), SCALE / 2);
    // Linear is the identity on a quarter.
    assert_eq!(ease(&EasingFunction::Linear, SCALE / 4), SCALE / 4);
}

#[test]
fn bounce_segments_join_continuously() {
    // The first segment ends exactly at full progress value 1.0.
    assert_eq!(ease(&EasingFunction::EaseOutBounce, 800_000 - 1), 2_199_994);
    assert_eq!(ease(&EasingFunction::EaseOutBounce, 800_000), 2_200_000);
}

#[test]
fn back_easing_undershoots_then_recovers() {
    let quarter = ease(&EasingFunction::EaseInBack, SCALE / 4);
    assert!(quarter < 0, "back-in dips below zero early: {quarter}");
    let late = ease(&EasingFunction::EaseOutBack, 3 * SCALE / 4);
    assert!(late > SCALE, "back-out overshoots late: {late}");
}

#[test]
fn custom_curve_with_other_point_counts_degrades_to_linear() {
    let too_few = EasingFunction::Custom(vec![(0, 0), (SCALE, SCALE)]);
    assert_eq!(ease(&too_few, 123_456), 123_456);
}
