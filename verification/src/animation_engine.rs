//! Keyframe animation: animatable properties, keyframe tracks, value
//! interpolation, and the scene-graph data types they animate.
//!
//! A track is an ordered sequence of keyframes for one property; times are
//! unique and kept in ascending order at all times. Inserting at an existing
//! time replaces that keyframe's value (and keeps its easing and
//! interpolation), so the uniqueness invariant always holds.

use vstd::prelude::*;
use crate::fixed::{SCALE, HALF_SCALE, FX_MAX, fx_bounded};
use crate::easing::{EasingFunction, easing_wf, spec_ease, ease, spec_mul_fx_signed, mul_fx_signed, spec_dist};
use crate::utils::str_eq;

verus! {

/// Largest magnitude an eased progress value may take: `8.0` in units.
/// Every implemented easing kind stays well inside it; progress outside the
/// limit is clamped before interpolation.
pub const EASE_LIMIT: i64 = 17_600_000;

/// Keyframes within `0.001` of a requested time count as being at it when
/// removing, in units.
pub const KEYFRAME_EPSILON: i64 = 2_200;

/// A property value carried by a keyframe. Scalar components are fixed-point
/// units; color channels are 8-bit.
#[derive(Debug)]
pub enum KeyframeValue {
    Number(i64),
    Vector2D(i64, i64),
    Vector3D(i64, i64, i64),
    Color(u8, u8, u8, u8),
    Boolean(bool),
    Text(String),
}

impl Clone for KeyframeValue {
    fn clone(&self) -> (r: Self)
        ensures
            r == *self,
    {
        match self {
            KeyframeValue::Number(x) => KeyframeValue::Number(*x),
            KeyframeValue::Vector2D(x, y) => KeyframeValue::Vector2D(*x, *y),
            KeyframeValue::Vector3D(x, y, z) => KeyframeValue::Vector3D(*x, *y, *z),
            KeyframeValue::Color(r0, g, b, a) => KeyframeValue::Color(*r0, *g, *b, *a),
            KeyframeValue::Boolean(b) => KeyframeValue::Boolean(*b),
            KeyframeValue::Text(s) => KeyframeValue::Text(s.clone()),
        }
    }
}

/// The declared type of an animatable property.
#[derive(Debug, Clone)]
pub enum PropertyType {
    Number { min: i64, max: i64 },
    Vector2D,
    Vector3D,
    Color,
    Boolean,
    Text,
}

/// How a keyframe blends toward its successor.
#[derive(Debug, Clone, Copy, PartialEq, Eq, Structural)]
pub enum InterpolationType {
    Linear,
    Bezier,
    /// Step interpolation: the earlier value holds until the next keyframe.
    Hold,
}

/// A keyframe: a value anchored at a time, with the easing and interpolation
/// used on the way to the next keyframe.
#[derive(Debug, Clone)]
pub struct Keyframe {
    pub time: i64,
    pub value: KeyframeValue,
    pub easing: EasingFunction,
    pub interpolation: InterpolationType,
    /// Bezier handle toward the previous keyframe, as `(x, y)` units.
    pub in_tangent: Option<(i64, i64)>,
    /// Bezier handle toward the next keyframe, as `(x, y)` units.
    pub out_tangent: Option<(i64, i64)>,
}

/// Scalar components small enough for interpolation arithmetic.
pub open spec fn value_wf(v: &KeyframeValue) -> bool {
    match v {
        KeyframeValue::Number(x) => fx_bounded(*x),
        KeyframeValue::Vector2D(x, y) => fx_bounded(*x) && fx_bounded(*y),
        KeyframeValue::Vector3D(x, y, z) => fx_bounded(*x) && fx_bounded(*y) && fx_bounded(*z),
        _ => true,
    }
}

/// A keyframe the interpolation arithmetic can work on.
pub open spec fn kf_wf(k: &Keyframe) -> bool {
    fx_bounded(k.time) && value_wf(&k.value) && easing_wf(&k.easing)
}

/// Times strictly ascending: unique and ordered.
pub open spec fn kf_sorted(ks: Seq<Keyframe>) -> bool {
    forall|i: int, j: int|
        #![trigger ks[i].time, ks[j].time]
        0 <= i < j < ks.len() ==> ks[i].time < ks[j].time
}

/// The track invariant: ascending unique times, every keyframe well-formed.
pub open spec fn kf_seq_wf(ks: Seq<Keyframe>) -> bool {
    kf_sorted(ks) && forall|i: int| 0 <= i < ks.len() ==> #[trigger] kf_wf(&ks[i])
}

/// Whether some keyframe sits exactly at time `t`.
pub open spec fn has_kf_at(ks: Seq<Keyframe>, t: int) -> bool {
    exists|j: int| 0 <= j < ks.len() && (#[trigger] ks[j].time) == t
}

/// The index of the keyframe at time `t` (unique when the track is sorted).
pub open spec fn time_index(ks: Seq<Keyframe>, t: int) -> int {
    choose|j: int| 0 <= j < ks.len() && (#[trigger] ks[j].time) == t
}

/// `i` brackets `t` strictly: `ks[i].time < t < ks[i+1].time`.
pub open spec fn is_strict_bracket(ks: Seq<Keyframe>, t: int, i: int) -> bool {
    0 <= i && i + 1 < ks.len() && ks[i].time < t < ks[i + 1].time
}

/// The strict bracket index for `t` (unique when the track is sorted).
pub open spec fn bracket_of(ks: Seq<Keyframe>, t: int) -> int {
    choose|i: int| is_strict_bracket(ks, t, i)
}

/// In a sorted track, at most one index brackets `t` strictly.
pub proof fn lemma_bracket_unique(ks: Seq<Keyframe>, t: int, i: int, j: int)
    requires
        kf_sorted(ks),
        is_strict_bracket(ks, t, i),
        is_strict_bracket(ks, t, j),
    ensures
        i == j,
{
    if i < j {
        assert(ks[i + 1].time <= ks[j].time || i + 1 == j);
    }
    if j < i {
        assert(ks[j + 1].time <= ks[i].time || j + 1 == i);
    }
}

/// In a sorted track, at most one keyframe sits at time `t`.
pub proof fn lemma_time_index_unique(ks: Seq<Keyframe>, t: int, i: int)
    requires
        kf_sorted(ks),
        0 <= i < ks.len(),
        ks[i].time == t,
    ensures
        has_kf_at(ks, t),
        time_index(ks, t) == i,
{
    let j = time_index(ks, t);
    if j < i {
        assert(ks[j].time < ks[i].time);
    }
    if i < j {
        assert(ks[i].time < ks[j].time);
    }
}

/// Mixing of one 8-bit color channel at (possibly overshooting) progress
/// `t`: the exact interpolant rounded to the nearest channel value and
/// clamped to `[0, 255]`.
pub open spec fn spec_channel_mix(a: int, b: int, t: int) -> int {
    let n = a * (SCALE - t) + b * t;
    if n < 0 {
        0
    } else {
        let r = (n + HALF_SCALE) / (SCALE as int);
        if r > 255 {
            255
        } else {
            r
        }
    }
}

/// Executable channel mix.
fn channel_mix(a: u8, b: u8, t: i64) -> (r: u8)
    requires
        -EASE_LIMIT <= t <= EASE_LIMIT,
    ensures
        r as int == spec_channel_mix(a as int, b as int, t as int),
{
    proof {
        assert(-(300 * (SCALE + EASE_LIMIT)) <= (a as int) * (SCALE - t) <= 300 * (SCALE + EASE_LIMIT)
            && -(300 * (SCALE + EASE_LIMIT)) <= (b as int) * t <= 300 * (SCALE + EASE_LIMIT)) by (nonlinear_arith)
            requires 0 <= a < 256 && 0 <= b < 256 && -EASE_LIMIT <= t <= EASE_LIMIT
                && SCALE == 2_200_000i64 && EASE_LIMIT == 17_600_000i64;
    }
    let n: i64 = (a as i64) * (SCALE - t) + (b as i64) * t;
    if n < 0 {
        0
    } else {
        proof {
            vstd::arithmetic::div_mod::lemma_div_pos_is_pos(n + HALF_SCALE, SCALE as int);
        }
        let r = (n + HALF_SCALE) / SCALE;
        if r > 255 {
            255
        } else {
            r as u8
        }
    }
}

/// Mixing of one fixed-point scalar at (possibly overshooting) progress `t`.
pub open spec fn spec_scalar_mix(a: int, b: int, t: int) -> int {
    a + spec_mul_fx_signed(b - a, t)
}

/// Executable scalar mix.
fn scalar_mix(a: i64, b: i64, t: i64) -> (r: i64)
    requires
        fx_bounded(a),
        fx_bounded(b),
        -EASE_LIMIT <= t <= EASE_LIMIT,
    ensures
        r == spec_scalar_mix(a as int, b as int, t as int),
{
    proof {
        let p = (b - a) * t;
        assert(-(2 * FX_MAX * EASE_LIMIT) <= p <= 2 * FX_MAX * EASE_LIMIT) by (nonlinear_arith)
            requires p == (b - a) * t && fx_bounded(a) && fx_bounded(b)
                && -EASE_LIMIT <= t <= EASE_LIMIT && FX_MAX == 0x20_0000_0000i64
                && EASE_LIMIT == 17_600_000i64;
        if p >= 0 {
            vstd::arithmetic::div_mod::lemma_div_pos_is_pos(p, SCALE as int);
            vstd::arithmetic::div_mod::lemma_div_is_ordered(p, 2 * FX_MAX * EASE_LIMIT, SCALE as int);
        } else {
            vstd::arithmetic::div_mod::lemma_div_pos_is_pos(-p, SCALE as int);
            vstd::arithmetic::div_mod::lemma_div_is_ordered(-p, 2 * FX_MAX * EASE_LIMIT, SCALE as int);
        }
    }
    let m = mul_fx_signed(b - a, t);
    a + m
}

/// Interpolation between two keyframe values at eased progress `t`:
/// `Hold` returns the earlier value; `Linear` and `Bezier` interpolate per
/// component when the variants match; mismatched variants hold the earlier
/// value (never a blended nonsense type).
pub open spec fn spec_interpolate(a: &KeyframeValue, b: &KeyframeValue, t: int, it: &InterpolationType) -> KeyframeValue {
    match it {
        InterpolationType::Hold => *a,
        _ => match (a, b) {
            (KeyframeValue::Number(x0), KeyframeValue::Number(x1)) =>
                KeyframeValue::Number(spec_scalar_mix(*x0 as int, *x1 as int, t) as i64),
            (KeyframeValue::Vector2D(x0, y0), KeyframeValue::Vector2D(x1, y1)) =>
                KeyframeValue::Vector2D(
                    spec_scalar_mix(*x0 as int, *x1 as int, t) as i64,
                    spec_scalar_mix(*y0 as int, *y1 as int, t) as i64,
                ),
            (KeyframeValue::Vector3D(x0, y0, z0), KeyframeValue::Vector3D(x1, y1, z1)) =>
                KeyframeValue::Vector3D(
                    spec_scalar_mix(*x0 as int, *x1 as int, t) as i64,
                    spec_scalar_mix(*y0 as int, *y1 as int, t) as i64,
                    spec_scalar_mix(*z0 as int, *z1 as int, t) as i64,
                ),
            (KeyframeValue::Color(r0, g0, b0, a0), KeyframeValue::Color(r1, g1, b1, a1)) =>
                KeyframeValue::Color(
                    spec_channel_mix(*r0 as int, *r1 as int, t) as u8,
                    spec_channel_mix(*g0 as int, *g1 as int, t) as u8,
                    spec_channel_mix(*b0 as int, *b1 as int, t) as u8,
                    spec_channel_mix(*a0 as int, *a1 as int, t) as u8,
                ),
            _ => *a,
        },
    }
}

/// Normalized progress of `t` between the bracketing times.
pub open spec fn spec_progress(t0: int, t1: int, t: int) -> int {
    (t - t0) * (SCALE as int) / (t1 - t0)
}

/// Eased progress, clamped to the overshoot limit.
pub open spec fn spec_eased(e: &EasingFunction, prog: int) -> int {
    let v = spec_ease(e, prog);
    if v < -EASE_LIMIT {
        -EASE_LIMIT as int
    } else if v > EASE_LIMIT {
        EASE_LIMIT as int
    } else {
        v
    }
}

/// The value of a keyframe track at time `t` (§ the keyframe lookup of an
/// animatable property):
/// - an empty track yields the default value `Number(0)`
/// - a single keyframe holds its value for every `t` (constant)
/// - before the first keyframe the first value holds, after the last the
///   last value holds (no extrapolation)
/// - a time exactly on a keyframe yields that keyframe's value
/// - otherwise the bracketing pair interpolates at the eased progress, with
///   the earlier keyframe's easing and interpolation mode
pub open spec fn spec_track_value(ks: Seq<Keyframe>, t: int) -> KeyframeValue {
    if ks.len() == 0 {
        KeyframeValue::Number(0)
    } else if ks.len() == 1 {
        ks[0].value
    } else if t <= ks[0].time {
        ks[0].value
    } else if t >= ks[ks.len() - 1].time {
        ks[ks.len() - 1].value
    } else if has_kf_at(ks, t) {
        ks[time_index(ks, t)].value
    } else {
        let i = bracket_of(ks, t);
        let prev = ks[i];
        let next = ks[i + 1];
        spec_interpolate(
            &prev.value,
            &next.value,
            spec_eased(&prev.easing, spec_progress(prev.time as int, next.time as int, t)),
            &prev.interpolation,
        )
    }
}

/// Property that can be animated (position, scale, rotation, opacity,
/// color, a custom parameter). It owns one keyframe track, and optionally a
/// procedural expression that takes precedence over the keyframes whenever
/// it yields a value.
#[derive(Debug, Clone)]
pub struct AnimatableProperty {
    pub id: String,
    pub name: String,
    pub property_type: PropertyType,
    pub keyframes: Vec<Keyframe>,
    /// Opaque procedural expression, evaluated before the keyframes.
    pub expression: Option<String>,
}

impl AnimatableProperty {
    /// The track invariant, lifted to the property.
    pub open spec fn wf(&self) -> bool {
        kf_seq_wf(self.keyframes@)
    }

    /// What [`Self::evaluate_at`] returns. The expression engine is an
    /// opaque extension point that currently yields no value, so evaluation
    /// always falls through to the keyframe track.
    pub open spec fn spec_value_at(&self, t: int) -> KeyframeValue {
        spec_track_value(self.keyframes@, t)
    }

    /// Evaluates the property at a time, in units.
    ///
    /// A present expression is consulted first and overrides the keyframes
    /// whenever it yields a value; with the expression engine unimplemented
    /// it never does.
    pub fn evaluate_at(&self, time: i64) -> (r: KeyframeValue)
        requires
            self.wf(),
            fx_bounded(time),
        ensures
            r == self.spec_value_at(time as int),
    {
        let n = self.keyframes.len();
        if n == 0 {
            return KeyframeValue::Number(0);
        }

        if let Some(expr) = &self.expression {
            if let Some(value) = self.evaluate_expression(expr.as_str(), time) {
                return value;
            }
        }

        if n == 1 {
            return self.keyframes[0].value.clone();
        }
        if time <= self.keyframes[0].time {
            return self.keyframes[0].value.clone();
        }
        if time >= self.keyframes[n - 1].time {
            proof {
                if has_kf_at(self.keyframes@, time as int) {
                    let j = time_index(self.keyframes@, time as int);
                    assert(0 <= j < n && self.keyframes@[j].time == time);
                    assert(j == n - 1);
                }
            }
            return self.keyframes[n - 1].value.clone();
        }

        // The time now lies strictly inside the track: walk to the last
        // keyframe not after it.
        let ghost ks = self.keyframes@;
        let mut i: usize = 0;
        while i + 1 < n && self.keyframes[i + 1].time <= time
            invariant
                self.wf(),
                n == self.keyframes@.len(),
                2 <= n,
                i + 1 < n,
                self.keyframes@[i as int].time <= time,
                time < self.keyframes@[n - 1].time,
                ks == self.keyframes@,
            decreases n - i,
        {
            i = i + 1;
            proof {
                assert(self.keyframes@[i as int].time < self.keyframes@[n - 1].time || i == n - 1);
            }
        }
        // Here ks[i].time <= time < ks[i+1].time.
        proof {
            assert(i + 1 < n);
        }
        if self.keyframes[i].time == time {
            proof {
                lemma_time_index_unique(ks, time as int, i as int);
            }
            return self.keyframes[i].value.clone();
        }
        proof {
            assert(is_strict_bracket(ks, time as int, i as int));
            if has_kf_at(ks, time as int) {
                let j = time_index(ks, time as int);
                assert(0 <= j < n && ks[j].time == time);
                if j <= i {
                    assert(ks[j].time <= ks[i as int].time);
                }
                if j > i {
                    assert(ks[i as int + 1].time <= ks[j].time);
                }
                assert(false);
            }
            lemma_bracket_unique(ks, time as int, bracket_of(ks, time as int), i as int);
        }
        proof {
            assert(kf_wf(&ks[i as int]));
            assert(kf_wf(&ks[i as int + 1]));
        }
        let prev_time = self.keyframes[i].time;
        let next_time = self.keyframes[i + 1].time;
        let num = (time - prev_time) * SCALE;
        proof {
            assert((time - prev_time) * SCALE <= (next_time - prev_time) * SCALE
                && 0 <= (time - prev_time) * SCALE) by (nonlinear_arith)
                requires prev_time < time && time < next_time && SCALE == 2_200_000i64;
            vstd::arithmetic::div_mod::lemma_div_pos_is_pos((time - prev_time) * (SCALE as int), next_time - prev_time);
            vstd::arithmetic::div_mod::lemma_div_is_ordered(
                (time - prev_time) * (SCALE as int),
                (next_time - prev_time) * (SCALE as int),
                next_time - prev_time,
            );
            vstd::arithmetic::div_mod::lemma_div_multiples_vanish(SCALE as int, next_time - prev_time);
            vstd::arithmetic::mul::lemma_mul_is_commutative(next_time - prev_time, SCALE as int);
        }
        let prog = num / (next_time - prev_time);
        let eased = self.apply_easing(prog, &self.keyframes[i].easing);
        let clamped: i64 = if eased < -EASE_LIMIT {
            -EASE_LIMIT
        } else if eased > EASE_LIMIT {
            EASE_LIMIT
        } else {
            eased
        };
        self.interpolate_values(
            &self.keyframes[i].value.clone(),
            &self.keyframes[i + 1].value.clone(),
            clamped,
            &self.keyframes[i].interpolation.clone(),
        )
    }

    /// Applies an easing kind to a normalized progress value.
    pub fn apply_easing(&self, t: i64, easing: &EasingFunction) -> (r: i64)
        requires
            0 <= t <= SCALE,
            easing_wf(easing),
        ensures
            r == spec_ease(easing, t as int),
    {
        ease(easing, t)
    }

    /// Interpolates between two keyframe values at eased progress `t`.
    fn interpolate_values(
        &self,
        a: &KeyframeValue,
        b: &KeyframeValue,
        t: i64,
        interp_type: &InterpolationType,
    ) -> (r: KeyframeValue)
        requires
            value_wf(a),
            value_wf(b),
            -EASE_LIMIT <= t <= EASE_LIMIT,
        ensures
            r == spec_interpolate(a, b, t as int, interp_type),
    {
        match interp_type {
            InterpolationType::Hold => a.clone(),
            _ => match (a, b) {
                (KeyframeValue::Number(x0), KeyframeValue::Number(x1)) =>
                    KeyframeValue::Number(scalar_mix(*x0, *x1, t)),
                (KeyframeValue::Vector2D(x0, y0), KeyframeValue::Vector2D(x1, y1)) =>
                    KeyframeValue::Vector2D(scalar_mix(*x0, *x1, t), scalar_mix(*y0, *y1, t)),
                (KeyframeValue::Vector3D(x0, y0, z0), KeyframeValue::Vector3D(x1, y1, z1)) =>
                    KeyframeValue::Vector3D(
                        scalar_mix(*x0, *x1, t),
                        scalar_mix(*y0, *y1, t),
                        scalar_mix(*z0, *z1, t),
                    ),
                (KeyframeValue::Color(r0, g0, b0, a0), KeyframeValue::Color(r1, g1, b1, a1)) =>
                    KeyframeValue::Color(
                        channel_mix(*r0, *r1, t),
                        channel_mix(*g0, *g1, t),
                        channel_mix(*b0, *b1, t),
                        channel_mix(*a0, *a1, t),
                    ),
                _ => a.clone(),
            },
        }
    }

    /// Evaluates the procedural expression attached to the property.
    ///
    /// The expression language is an opaque extension point with the
    /// contract `(expression, time) -> Option<value>`; no grammar is defined
    /// here, so evaluation yields no value and the keyframes decide.
    fn evaluate_expression(&self, _expr: &str, _time: i64) -> (r: Option<KeyframeValue>)
        ensures
            r.is_none(),
    {
        None
    }
}

/// The keyframe that [`AnimatableProperty::add_keyframe`] builds for a new
/// time: default easing and interpolation, no tangents.
pub open spec fn spec_new_keyframe(time: int, value: KeyframeValue) -> Keyframe {
    Keyframe {
        time: time as i64,
        value: value,
        easing: EasingFunction::EaseInOut,
        interpolation: InterpolationType::Bezier,
        in_tangent: None,
        out_tangent: None,
    }
}

/// `p` is where a keyframe at a fresh time `t` belongs: everything before is
/// earlier, everything from `p` on is later.
pub open spec fn is_insert_pos(ks: Seq<Keyframe>, t: int, p: int) -> bool {
    0 <= p <= ks.len()
        && (p == 0 || ks[p - 1].time < t)
        && (p == ks.len() || t < ks[p].time)
}

/// The insertion index for a fresh time (unique when the track is sorted).
pub open spec fn insert_index(ks: Seq<Keyframe>, t: int) -> int {
    choose|p: int| is_insert_pos(ks, t, p)
}

/// In a sorted track, the insertion position of a fresh time is unique.
pub proof fn lemma_insert_pos_unique(ks: Seq<Keyframe>, t: int, p: int, q: int)
    requires
        kf_sorted(ks),
        is_insert_pos(ks, t, p),
        is_insert_pos(ks, t, q),
    ensures
        p == q,
{
    if p < q {
        assert(ks[p].time <= ks[q - 1].time);
    }
    if q < p {
        assert(ks[q].time <= ks[p - 1].time);
    }
}

impl AnimatableProperty {
    /// Adds a keyframe at `time`, preserving ascending-time order.
    ///
    /// A keyframe already at exactly `time` has its value replaced (its
    /// easing, interpolation and tangents stay); otherwise a keyframe with
    /// default easing (`EaseInOut`) and interpolation (`Bezier`) is inserted
    /// at the sorted position. Times stay unique either way.
    pub fn add_keyframe(&mut self, time: i64, value: KeyframeValue)
        requires
            old(self).wf(),
            fx_bounded(time),
            value_wf(&value),
        ensures
            final(self).wf(),
            final(self).id == old(self).id,
            final(self).name == old(self).name,
            final(self).property_type == old(self).property_type,
            final(self).expression == old(self).expression,
            has_kf_at(old(self).keyframes@, time as int) ==> final(self).keyframes@
                == old(self).keyframes@.update(
                    time_index(old(self).keyframes@, time as int),
                    Keyframe {
                        value: value,
                        ..old(self).keyframes@[time_index(old(self).keyframes@, time as int)]
                    },
                ),
            !has_kf_at(old(self).keyframes@, time as int) ==> final(self).keyframes@
                == old(self).keyframes@.insert(
                    insert_index(old(self).keyframes@, time as int),
                    spec_new_keyframe(time as int, value),
                ),
    {
        let ghost ks = self.keyframes@;
        let n = self.keyframes.len();
        let mut i: usize = 0;
        while i < n && self.keyframes[i].time < time
            invariant
                self.wf(),
                ks == self.keyframes@,
                n == ks.len(),
                i <= n,
                forall|j: int| 0 <= j < i ==> (#[trigger] ks[j].time) < time,
            decreases n - i,
        {
            i = i + 1;
        }
        // Every keyframe before `i` is earlier than `time`; `i` is either
        // the end, an exact hit, or the first later keyframe.
        if i < n && self.keyframes[i].time == time {
            proof {
                lemma_time_index_unique(ks, time as int, i as int);
            }
            let kf = self.keyframes.remove(i);
            let replaced = Keyframe {
                time: kf.time,
                value: value,
                easing: kf.easing,
                interpolation: kf.interpolation,
                in_tangent: kf.in_tangent,
                out_tangent: kf.out_tangent,
            };
            self.keyframes.insert(i, replaced);
            proof {
                let nks = self.keyframes@;
                assert(nks =~= ks.update(i as int, Keyframe { value: value, ..ks[i as int] }));
                assert forall|a: int| 0 <= a < nks.len() implies #[trigger] nks[a].time == ks[a].time by {
                    if a != i {
                        assert(nks[a] == ks[a]);
                    }
                }
                assert forall|a: int| 0 <= a < nks.len() implies kf_wf(&nks[a]) by {
                    assert(kf_wf(&ks[a]));
                    if a != i {
                        assert(nks[a] == ks[a]);
                    }
                }
            }
        } else {
            proof {
                assert(is_insert_pos(ks, time as int, i as int));
                lemma_insert_pos_unique(ks, time as int, insert_index(ks, time as int), i as int);
                if has_kf_at(ks, time as int) {
                    let j = time_index(ks, time as int);
                    assert(0 <= j < n && ks[j].time == time);
                    if j < i {
                        assert(ks[j].time < time);
                    }
                    assert(false);
                }
            }
            let kf = Keyframe {
                time: time,
                value: value,
                easing: EasingFunction::EaseInOut,
                interpolation: InterpolationType::Bezier,
                in_tangent: None,
                out_tangent: None,
            };
            self.keyframes.insert(i, kf);
            proof {
                let nks = self.keyframes@;
                assert(nks == ks.insert(i as int, spec_new_keyframe(time as int, value)));
                assert forall|a: int, b: int| 0 <= a < b < nks.len() implies
                    (#[trigger] nks[a].time) < (#[trigger] nks[b].time) by {
                    if a < i && b < i {
                    } else if a < i && b == i {
                    } else if a < i && b > i {
                        assert(nks[b] == ks[b - 1]);
                    } else if a == i {
                        assert(nks[b] == ks[b - 1]);
                        if b - 1 > i as int - 1 && b - 1 < ks.len() {
                            if i > 0 {
                                assert(ks[i as int - 1].time < time);
                            }
                        }
                    } else {
                        assert(nks[a] == ks[a - 1] && nks[b] == ks[b - 1]);
                    }
                }
                assert forall|a: int| 0 <= a < nks.len() implies kf_wf(#[trigger] &nks[a]) by {
                    if a < i {
                        assert(nks[a] == ks[a]);
                    } else if a > i {
                        assert(nks[a] == ks[a - 1]);
                    }
                }
            }
        }
    }

    /// Removes any keyframe within `0.001` of `time`; the others keep their
    /// order.
    pub fn remove_keyframe(&mut self, time: i64)
        requires
            old(self).wf(),
            fx_bounded(time),
        ensures
            final(self).wf(),
            final(self).id == old(self).id,
            final(self).name == old(self).name,
            final(self).property_type == old(self).property_type,
            final(self).expression == old(self).expression,
            forall|j: int| 0 <= j < old(self).keyframes@.len()
                && spec_dist(old(self).keyframes@[j].time as int, time as int) > KEYFRAME_EPSILON
                ==> final(self).keyframes@.contains(#[trigger] old(self).keyframes@[j]),
            forall|j: int| 0 <= j < final(self).keyframes@.len()
                ==> old(self).keyframes@.contains(#[trigger] final(self).keyframes@[j])
                    && spec_dist(final(self).keyframes@[j].time as int, time as int) > KEYFRAME_EPSILON,
    {
        let ghost ks = self.keyframes@;
        let mut kept: Vec<Keyframe> = Vec::new();
        while self.keyframes.len() > 0
            invariant
                kf_seq_wf(ks),
                fx_bounded(time),
                self.id == old(self).id,
                self.name == old(self).name,
                self.property_type == old(self).property_type,
                self.expression == old(self).expression,
                self.keyframes@.len() <= ks.len(),
                self.keyframes@ == ks.subrange(
                    ks.len() - self.keyframes@.len(),
                    ks.len() as int,
                ),
                forall|j: int| 0 <= j < kept@.len() ==> #[trigger] kf_wf(&kept@[j]),
                forall|j: int| 0 <= j < kept@.len()
                    ==> ks.contains(#[trigger] kept@[j])
                        && spec_dist(kept@[j].time as int, time as int) > KEYFRAME_EPSILON,
                forall|j: int| 0 <= j < ks.len() - self.keyframes@.len()
                    && spec_dist(ks[j].time as int, time as int) > KEYFRAME_EPSILON
                    ==> kept@.contains(#[trigger] ks[j]),
                kf_sorted(kept@),
                kept@.len() > 0 && self.keyframes@.len() > 0
                    ==> kept@[kept@.len() - 1].time < self.keyframes@[0].time,
            decreases self.keyframes@.len(),
        {
            let ghost i = ks.len() - self.keyframes@.len();
            let ghost pre = self.keyframes@;
            proof {
                assert(pre[0] == ks[i]);
                assert(kf_wf(&ks[i]));
            }
            let kf = self.keyframes.remove(0);
            proof {
                assert(self.keyframes@ =~= ks.subrange(i + 1, ks.len() as int));
            }
            let d: i64 = if kf.time >= time { kf.time - time } else { time - kf.time };
            if d > KEYFRAME_EPSILON {
                let ghost old_kept = kept@;
                kept.push(kf);
                proof {
                    assert(kept@ == old_kept.push(ks[i]));
                    assert(ks.contains(ks[i])) by {
                        assert(ks[i] == ks[i]);
                    }
                    assert forall|j: int| 0 <= j < i + 1
                        && spec_dist(ks[j].time as int, time as int) > KEYFRAME_EPSILON
                        implies kept@.contains(#[trigger] ks[j]) by {
                        if j < i {
                            let w = choose|w: int| 0 <= w < old_kept.len() && old_kept[w] == ks[j];
                            assert(kept@[w] == ks[j]);
                        } else {
                            assert(kept@[kept@.len() - 1] == ks[j]);
                        }
                    }
                    assert forall|a: int, b: int| 0 <= a < b < kept@.len() implies
                        kept@[a].time < kept@[b].time by {
                        if b < kept@.len() - 1 {
                            assert(kept@[a] == old_kept[a] && kept@[b] == old_kept[b]);
                        } else {
                            assert(kept@[a] == old_kept[a]);
                        }
                    }
                    if self.keyframes@.len() > 0 {
                        assert(self.keyframes@[0] == ks[i + 1]);
                        assert(ks[i].time < ks[i + 1].time);
                    }
                }
            } else {
                proof {
                    assert forall|j: int| 0 <= j < i + 1
                        && spec_dist(ks[j].time as int, time as int) > KEYFRAME_EPSILON
                        implies kept@.contains(#[trigger] ks[j]) by {
                        assert(j < i);
                    }
                    if kept@.len() > 0 && self.keyframes@.len() > 0 {
                        assert(self.keyframes@[0] == ks[i + 1]);
                        let w = choose|w: int| 0 <= w < ks.len() && ks[w] == kept@[kept@.len() - 1];
                    }
                }
            }
        }
        self.keyframes = kept;
    }
}

/// No extrapolation: before the first keyframe the first value holds, and
/// after the last keyframe the last value holds, at and beyond the
/// boundary times.
pub proof fn lemma_no_extrapolation(ks: Seq<Keyframe>, t: int)
    requires
        kf_seq_wf(ks),
        ks.len() > 0,
    ensures
        t <= ks[0].time ==> spec_track_value(ks, t) == ks[0].value,
        t >= ks[ks.len() - 1].time ==> spec_track_value(ks, t) == ks[ks.len() - 1].value,
{
}

/// A single-keyframe track is constant: it yields its one value at every
/// time.
pub proof fn lemma_single_keyframe_constant(ks: Seq<Keyframe>, t: int)
    requires
        kf_seq_wf(ks),
        ks.len() == 1,
    ensures
        spec_track_value(ks, t) == ks[0].value,
{
}

/// Idempotence of re-insertion: adding a keyframe at an existing time with
/// that keyframe's value leaves the track, and with it every evaluation,
/// unchanged.
pub proof fn lemma_readd_keyframe_unchanged(ks: Seq<Keyframe>, time: int, value: KeyframeValue, t: int)
    requires
        kf_seq_wf(ks),
        has_kf_at(ks, time),
        ks[time_index(ks, time)].value == value,
    ensures
        ks.update(time_index(ks, time), Keyframe { value: value, ..ks[time_index(ks, time)] }) == ks,
        spec_track_value(
            ks.update(time_index(ks, time), Keyframe { value: value, ..ks[time_index(ks, time)] }),
            t,
        ) == spec_track_value(ks, t),
{
    let j = time_index(ks, time);
    assert(Keyframe { value: value, ..ks[j] } == ks[j]);
    assert(ks.update(j, Keyframe { value: value, ..ks[j] }) =~= ks);
}

/// Hold interpolation: at any time strictly between a `Hold` keyframe and
/// its successor, the earlier keyframe's value holds exactly.
pub proof fn lemma_hold_between(ks: Seq<Keyframe>, t: int, i: int)
    requires
        kf_seq_wf(ks),
        is_strict_bracket(ks, t, i),
        ks[i].interpolation == InterpolationType::Hold,
        !has_kf_at(ks, t),
    ensures
        spec_track_value(ks, t) == ks[i].value,
{
    assert(ks.len() >= 2);
    assert(ks[0].time <= ks[i].time);
    assert(ks[i + 1].time <= ks[ks.len() - 1].time);
    lemma_bracket_unique(ks, t, bracket_of(ks, t), i);
}

/// A named slot in a layer's or effect's property table. Names are unique
/// within one table.
#[derive(Debug, Clone)]
pub struct PropertySlot {
    pub name: String,
    pub property: AnimatableProperty,
}

/// The kind of a 3D light attached to a layer.
#[derive(Debug, Clone, Copy, PartialEq, Eq, Structural)]
pub enum LightType {
    Ambient,
    Directional,
    Point,
    Spot,
}

/// Winding rule of a filled shape.
#[derive(Debug, Clone, Copy, PartialEq, Eq, Structural)]
pub enum FillRule {
    NonZero,
    EvenOdd,
}

/// Stroke end-cap style.
#[derive(Debug, Clone, Copy, PartialEq, Eq, Structural)]
pub enum LineCap {
    Butt,
    Round,
    Square,
}

/// Stroke corner style.
#[derive(Debug, Clone, Copy, PartialEq, Eq, Structural)]
pub enum LineJoin {
    Miter,
    Round,
    Bevel,
}

/// How a mask's coverage combines with the running coverage.
#[derive(Debug, Clone, Copy, PartialEq, Eq, Structural)]
pub enum MaskMode {
    Add,
    Subtract,
    Intersect,
    Difference,
}

/// Which channel of the matte layer drives the alpha, and whether inverted.
#[derive(Debug, Clone, Copy, PartialEq, Eq, Structural)]
pub enum MatteType {
    Alpha,
    AlphaInverted,
    Luma,
    LumaInverted,
}

/// A track matte: another layer's alpha or luma channel multiplied into this
/// layer's alpha.
#[derive(Debug, Clone)]
pub struct TrackMatte {
    pub layer_id: String,
    pub matte_type: MatteType,
}

/// Vector geometry of one shape element.
#[derive(Debug, Clone)]
pub enum ShapeType {
    Rectangle { width: i64, height: i64, rounded: i64 },
    Ellipse { width: i64, height: i64 },
    Polygon { points: u32, radius: i64 },
    Star { points: u32, inner_radius: i64, outer_radius: i64 },
    /// Path outline data, in the host's vector syntax.
    Path { path_data: String },
}

/// Fill style of a shape element.
#[derive(Debug, Clone)]
pub struct FillStyle {
    pub color: AnimatableProperty,
    pub opacity: AnimatableProperty,
    pub fill_rule: FillRule,
}

/// Stroke style of a shape element.
#[derive(Debug, Clone)]
pub struct StrokeStyle {
    pub color: AnimatableProperty,
    pub width: AnimatableProperty,
    pub line_cap: LineCap,
    pub line_join: LineJoin,
}

/// One element of a shape layer.
#[derive(Debug, Clone)]
pub struct ShapeElement {
    pub shape_type: ShapeType,
    pub fill: Option<FillStyle>,
    pub stroke: Option<StrokeStyle>,
    pub transform: AnimatableProperty,
}

/// The content source of a layer.
#[derive(Debug)]
pub enum AnimatedLayerType {
    Shape { shapes: Vec<ShapeElement> },
    Text { content: String, font: String },
    Image { source: String },
    Video { source: String },
    Audio { source: String },
    Solid { color: (u8, u8, u8, u8) },
    /// Null object, used only for parenting.
    Null,
    Camera3D,
    Light3D { light_type: LightType },
    /// Another composition embedded as content, resolved by id through the
    /// host-owned composition table and bounded in depth.
    Precomp { composition_id: String },
}

/// An animated effect instance on a layer.
#[derive(Debug, Clone)]
pub struct AnimatedEffect {
    pub id: String,
    pub effect_type: String,
    pub parameters: Vec<PropertySlot>,
    pub enabled: bool,
}

/// An animated mask on a layer.
#[derive(Debug, Clone)]
pub struct AnimatedMask {
    pub id: String,
    /// The animated outline; rasterizing it is the host's work.
    pub path: AnimatableProperty,
    pub mode: MaskMode,
    pub feather: AnimatableProperty,
    pub opacity: AnimatableProperty,
    pub expansion: AnimatableProperty,
}

/// An animated layer of a composition.
#[derive(Debug)]
pub struct AnimatedLayer {
    pub id: String,
    pub name: String,
    pub layer_type: AnimatedLayerType,
    /// A weak back-reference to a parent layer, resolved by lookup at render
    /// time; cycles are detected and broken, never followed.
    pub parent_id: Option<String>,
    pub properties: Vec<PropertySlot>,
    pub effects: Vec<AnimatedEffect>,
    pub masks: Vec<AnimatedMask>,
    pub blend_mode: String,
    pub track_matte: Option<TrackMatte>,
    pub is_3d: bool,
}

/// Every animated property of a mask is a well-formed track.
pub open spec fn mask_wf(m: &AnimatedMask) -> bool {
    m.path.wf() && m.feather.wf() && m.opacity.wf() && m.expansion.wf()
}

/// A property table keyed by name: each name appears at most once, as a
/// keyed map would have it.
pub open spec fn slots_unique(slots: Seq<PropertySlot>) -> bool {
    forall|i: int, j: int|
        #![trigger slots[i].name, slots[j].name]
        0 <= i < j < slots.len() ==> slots[i].name@ != slots[j].name@
}

/// Every track on the layer (properties, effect parameters and masks) is
/// well-formed, and each property table keeps its names unique.
pub open spec fn layer_wf(l: &AnimatedLayer) -> bool {
    slots_unique(l.properties@)
    && (forall|i: int| 0 <= i < l.properties@.len()
        ==> (#[trigger] l.properties@[i]).property.wf())
    && (forall|i: int| 0 <= i < l.masks@.len() ==> #[trigger] mask_wf(&l.masks@[i]))
    && (forall|i: int| 0 <= i < l.effects@.len()
        ==> slots_unique((#[trigger] l.effects@[i]).parameters@))
}

/// The first property with the given name, scanning slots in order.
pub open spec fn spec_property_lookup(props: Seq<PropertySlot>, name: Seq<char>) -> Option<AnimatableProperty>
    decreases props.len(),
{
    if props.len() == 0 {
        None
    } else if props[0].name@ == name {
        Some(props[0].property)
    } else {
        spec_property_lookup(props.drop_first(), name)
    }
}

impl AnimatedLayer {
    /// Evaluates the named property at a time: its track value, or `None`
    /// when the layer has no property of that name.
    pub fn get_property_value(&self, property_name: &str, time: i64) -> (r: Option<KeyframeValue>)
        requires
            layer_wf(self),
            fx_bounded(time),
        ensures
            r == match spec_property_lookup(self.properties@, property_name@) {
                Some(p) => Some(spec_track_value(p.keyframes@, time as int)),
                None => None::<KeyframeValue>,
            },
    {
        let n = self.properties.len();
        let mut i: usize = 0;
        proof {
            assert(self.properties@.skip(0) =~= self.properties@);
        }
        while i < n
            invariant
                layer_wf(self),
                fx_bounded(time),
                n == self.properties@.len(),
                i <= n,
                spec_property_lookup(self.properties@.skip(i as int), property_name@)
                    == spec_property_lookup(self.properties@, property_name@),
            decreases n - i,
        {
            let ghost rest = self.properties@.skip(i as int);
            proof {
                assert(rest[0] == self.properties@[i as int]);
            }
            if str_eq(self.properties[i].name.as_str(), property_name) {
                let v = self.properties[i].property.evaluate_at(time);
                return Some(v);
            }
            i = i + 1;
            proof {
                assert(rest.drop_first() =~= self.properties@.skip(i as int));
            }
        }
        proof {
            assert(self.properties@.skip(n as int).len() == 0);
        }
        None
    }
}

/// An ordered list of layers over a background, with fixed size, duration
/// and frame rate. Paint order is list order: the first layer is the
/// bottommost.
#[derive(Debug)]
pub struct Composition {
    pub id: String,
    pub name: String,
    pub width: u32,
    pub height: u32,
    /// Duration in fixed-point seconds.
    pub duration: i64,
    pub fps: u32,
    pub layers: Vec<AnimatedLayer>,
    pub background_color: (u8, u8, u8, u8),
}

impl Composition {
    /// A composition the renderer can work on: a canvas inside the pixel
    /// budget (which admits an 8K frame) and well-formed layers.
    pub open spec fn wf(&self) -> bool {
        self.width * self.height <= 0x400_0000
            && forall|i: int| 0 <= i < self.layers@.len()
                ==> #[trigger] layer_wf(&self.layers@[i])
    }
}

} // verus!
