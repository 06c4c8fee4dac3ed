//! Keyframe track behavior: no extrapolation, single-keyframe constancy,
//! re-insertion idempotence, hold interpolation, and exact linear
//! interpolation values.

use motioncore::animation_engine::{
    AnimatableProperty, InterpolationType, Keyframe, KeyframeValue, PropertyType,
};
use motioncore::easing::EasingFunction;
use motioncore::fixed::SCALE;

fn number_keyframe(time: i64, value: i64, easing: EasingFunction, interp: InterpolationType) -> Keyframe {
    Keyframe {
        time,
        value: KeyframeValue::Number(value),
        easing,
        interpolation: interp,
        in_tangent: None,
        out_tangent: None,
    }
}

fn number_property(keyframes: Vec<Keyframe>) -> AnimatableProperty {
    AnimatableProperty {
        id: "p1".to_string(),
        name: "value".to_string(),
        property_type: PropertyType::Number { min: 0, max: 100 * SCALE },
        keyframes,
        expression: None,
    }
}

fn as_number(v: KeyframeValue) -> i64 {
    match v {
        KeyframeValue::Number(x) => x,
        other => panic!("expected a number, got {:?}", other),
    }
}

#[test]
fn no_extrapolation_before_first_or_after_last() {
    let prop = number_property(vec![
        number_keyframe(SCALE, 3 * SCALE, EasingFunction::Linear, InterpolationType::Linear),
        number_keyframe(2 * SCALE, 7 * SCALE, EasingFunction::Linear, InterpolationType::Linear),
    ]);
    // At and before the first keyframe: the first value.
    assert_eq!(as_number(prop.evaluate_at(-5 * SCALE)), 3 * SCALE);
    assert_eq!(as_number(prop.evaluate_at(0)), 3 * SCALE);
    assert_eq!(as_number(prop.evaluate_at(SCALE)), 3 * SCALE);
    // At and after the last keyframe: the last value.
    assert_eq!(as_number(prop.evaluate_at(2 * SCALE)), 7 * SCALE);
    assert_eq!(as_number(prop.evaluate_at(90 * SCALE)), 7 * SCALE);
}

#[test]
fn single_keyframe_track_is_constant() {
    let prop = number_property(vec![
        number_keyframe(5 * SCALE, 42 * SCALE, EasingFunction::EaseInOut, InterpolationType::Bezier),
    ]);
    for t in [-100 * SCALE, 0, 5 * SCALE, 5 * SCALE + 1, 1000 * SCALE] {
        assert_eq!(as_number(prop.evaluate_at(t)), 42 * SCALE);
    }
}

#[test]
fn reinserting_a_keyframe_with_the_same_value_changes_nothing() {
    let mut prop = number_property(vec![
        number_keyframe(0, 0, EasingFunction::Linear, InterpolationType::Linear),
        number_keyframe(SCALE, 10 * SCALE, EasingFunction::Linear, InterpolationType::Linear),
    ]);
    let sample_times: Vec<i64> = vec![-SCALE, 0, SCALE / 4, SCALE / 2, 3 * SCALE / 4, SCALE, 2 * SCALE];
    let before: Vec<i64> = sample_times.iter().map(|t| as_number(prop.evaluate_at(*t))).collect();
    prop.add_keyframe(SCALE, KeyframeValue::Number(10 * SCALE));
    let after: Vec<i64> = sample_times.iter().map(|t| as_number(prop.evaluate_at(*t))).collect();
    assert_eq!(before, after);
    assert_eq!(prop.keyframes.len(), 2, "replacement keeps times unique");
}

#[test]
fn hold_interpolation_steps_at_the_next_keyframe() {
    let prop = number_property(vec![
        number_keyframe(0, SCALE, EasingFunction::Linear, InterpolationType::Hold),
        number_keyframe(SCALE, 9 * SCALE, EasingFunction::Linear, InterpolationType::Hold),
    ]);
    // Strictly between the two keyframes the earlier value holds exactly.
    assert_eq!(as_number(prop.evaluate_at(1)), SCALE);
    assert_eq!(as_number(prop.evaluate_at(SCALE / 2)), SCALE);
    assert_eq!(as_number(prop.evaluate_at(SCALE - 1)), SCALE);
    assert_eq!(as_number(prop.evaluate_at(SCALE)), 9 * SCALE);
}

#[test]
fn linear_interpolation_hits_the_exact_midpoint() {
    // Two keyframes 0.0 at t=0 and 10.0 at t=1: the value at 0.5 is 5.0.
    let prop = number_property(vec![
        number_keyframe(0, 0, EasingFunction::Linear, InterpolationType::Linear),
        number_keyframe(SCALE, 10 * SCALE, EasingFunction::Linear, InterpolationType::Linear),
    ]);
    assert_eq!(as_number(prop.evaluate_at(SCALE / 2)), 5 * SCALE);
    assert_eq!(as_number(prop.evaluate_at(SCALE / 4)), 25 * SCALE / 10);
}

#[test]
fn empty_track_yields_the_default_value() {
    let prop = number_property(vec![]);
    assert_eq!(as_number(prop.evaluate_at(7 * SCALE)), 0);
}

#[test]
fn mismatched_variants_hold_the_earlier_value() {
    let prop = number_property(vec![
        number_keyframe(0, 4 * SCALE, EasingFunction::Linear, InterpolationType::Linear),
        Keyframe {
            time: SCALE,
            value: KeyframeValue::Text("caption".to_string()),
            easing: EasingFunction::Linear,
            interpolation: InterpolationType::Linear,
            in_tangent: None,
            out_tangent: None,
        },
    ]);
    assert_eq!(as_number(prop.evaluate_at(SCALE / 2)), 4 * SCALE);
}

#[test]
fn color_channels_interpolate_with_rounding() {
    let prop = number_property(vec![
        Keyframe {
            time: 0,
            value: KeyframeValue::Color(0, 100, 255, 255),
            easing: EasingFunction::Linear,
            interpolation: InterpolationType::Linear,
            in_tangent: None,
            out_tangent: None,
        },
        Keyframe {
            time: SCALE,
            value: KeyframeValue::Color(255, 101, 0, 255),
            easing: EasingFunction::Linear,
            interpolation: InterpolationType::Linear,
            in_tangent: None,
            out_tangent: None,
        },
    ]);
    match prop.evaluate_at(SCALE / 2) {
        KeyframeValue::Color(r, g, b, a) => {
            // 127.5 rounds half-up to 128; 100.5 rounds to 101.
            assert_eq!((r, g, b, a), (128, 101, 128, 255));
        }
        other => panic!("expected a color, got {:?}", other),
    }
}

#[test]
fn add_keyframe_keeps_ascending_unique_times() {
    let mut prop = number_property(vec![]);
    prop.add_keyframe(2 * SCALE, KeyframeValue::Number(2));
    prop.add_keyframe(0, KeyframeValue::Number(0));
    prop.add_keyframe(SCALE, KeyframeValue::Number(1));
    prop.add_keyframe(SCALE, KeyframeValue::Number(5));
    let times: Vec<i64> = prop.keyframes.iter().map(|k| k.time).collect();
    assert_eq!(times, vec![0, SCALE, 2 * SCALE]);
    assert_eq!(as_number(prop.evaluate_at(SCALE)), 5, "replacement took the new value");
}

#[test]
fn remove_keyframe_takes_everything_within_the_epsilon() {
    let mut prop = number_property(vec![
        number_keyframe(0, 0, EasingFunction::Linear, InterpolationType::Linear),
        number_keyframe(SCALE, 1, EasingFunction::Linear, InterpolationType::Linear),
        number_keyframe(2 * SCALE, 2, EasingFunction::Linear, InterpolationType::Linear),
    ]);
    // 0.001 in units is 2,200; a keyframe 2,000 units away is removed.
    prop.remove_keyframe(SCALE + 2_000);
    let times: Vec<i64> = prop.keyframes.iter().map(|k| k.time).collect();
    assert_eq!(times, vec![0, 2 * SCALE]);
}

#[test]
fn expression_presence_does_not_override_keyframes_yet() {
    let mut prop = number_property(vec![
        number_keyframe(0, 6 * SCALE, EasingFunction::Linear, InterpolationType::Linear),
    ]);
    prop.expression = Some("wiggle(5, 20)".to_string());
    assert_eq!(as_number(prop.evaluate_at(0)), 6 * SCALE);
}
