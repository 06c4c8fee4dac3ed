//! Motion graphics: the particle subsystem, kinetic typography and motion
//! tracking data, the procedural expression engine, and 3D camera and light
//! records.
//!
//! The particle system is stepped on its own simulation clock: each tick
//! emits `emission_rate * dt` particles (the fractional remainder carried to
//! the next tick so low rates do not under-emit), integrates velocity and
//! position, resamples color over each particle's life, and retires
//! particles whose age has reached their lifetime. The pool never exceeds
//! `max_particles`: emission is capped, live particles are never evicted.

use vstd::prelude::*;
use crate::fixed::{SCALE, FX_MAX, fx_bounded, spec_mul_fx, mul_fx, spec_div_trunc, lemma_mul_fx_le};
use crate::easing::{spec_mul_fx_signed, mul_fx_signed};
use crate::animation_engine::{AnimatableProperty, KeyframeValue, spec_channel_mix, spec_track_value};
use crate::host;

verus! {

/// The geometric source particles spawn from.
#[derive(Debug)]
pub enum EmitterType {
    Point,
    Line { start: (i64, i64, i64), end: (i64, i64, i64) },
    Circle { radius: i64 },
    Box { width: i64, height: i64, depth: i64 },
}

/// The emitter: where, how many per second, and with what initial velocity.
#[derive(Debug)]
pub struct ParticleEmitter {
    pub emitter_type: EmitterType,
    pub position: (i64, i64, i64),
    /// Particles per second, in fixed-point units.
    pub emission_rate: i64,
    /// Spread angle in fixed-point degrees.
    pub spread: i64,
    pub velocity: (i64, i64, i64),
    pub velocity_random: i64,
}

/// One live particle, owned by its system's pool.
#[derive(Debug)]
pub struct Particle {
    pub position: (i64, i64, i64),
    pub velocity: (i64, i64, i64),
    pub age: i64,
    pub lifetime: i64,
    pub size: i64,
    pub rotation: i64,
    pub color: (u8, u8, u8, u8),
}

/// Appearance and physics parameters shared by a system's particles.
#[derive(Debug)]
pub struct ParticleProperties {
    /// Particle size over simulation-local time.
    pub size: AnimatableProperty,
    /// Per-particle size variance, in `[0, 1]` units.
    pub size_random: i64,
    /// Color stops over normalized particle life: `(life, r, g, b, a)`.
    pub color_over_life: Vec<(i64, u8, u8, u8, u8)>,
    /// Opacity stops over normalized particle life.
    pub opacity_over_life: Vec<(i64, i64)>,
    pub rotation_speed: i64,
    pub gravity: (i64, i64, i64),
    pub wind: (i64, i64, i64),
    pub turbulence: i64,
    pub blend_mode: String,
}

/// An independently stepped particle simulation.
#[derive(Debug)]
pub struct ParticleSystem {
    pub id: String,
    pub name: String,
    pub emitter: ParticleEmitter,
    pub particles: Vec<Particle>,
    pub max_particles: usize,
    /// Lifetime given to newly emitted particles, in fixed-point seconds.
    pub particle_lifetime: i64,
    pub properties: ParticleProperties,
    /// Fractional emission carried to the next tick, in `[0, 1)` units.
    pub emission_carry: i64,
}

/// Components of one particle inside the arithmetic range.
pub open spec fn particle_wf(p: &Particle) -> bool {
    fx_bounded(p.position.0) && fx_bounded(p.position.1) && fx_bounded(p.position.2)
        && fx_bounded(p.velocity.0) && fx_bounded(p.velocity.1) && fx_bounded(p.velocity.2)
        && 0 <= p.age <= FX_MAX && 0 <= p.lifetime <= FX_MAX
        && fx_bounded(p.size) && fx_bounded(p.rotation)
}

/// Half of the engine's value range: emitter geometry lives inside it so a
/// sampled offset added to the emitter position stays inside the full range.
pub const EMIT_MAX: i64 = 0x10_0000_0000;

/// A value inside the emitter's half-range.
pub open spec fn emit_bounded(v: i64) -> bool {
    -EMIT_MAX <= v <= EMIT_MAX
}

/// Emitter parameters inside the half-range, with a nonnegative rate.
pub open spec fn emitter_wf(e: &ParticleEmitter) -> bool {
    emit_bounded(e.position.0) && emit_bounded(e.position.1) && emit_bounded(e.position.2)
        && 0 <= e.emission_rate <= FX_MAX
        && emit_bounded(e.velocity.0) && emit_bounded(e.velocity.1) && emit_bounded(e.velocity.2)
        && 0 <= e.velocity_random <= EMIT_MAX
        && match e.emitter_type {
            EmitterType::Line { start, end } => emit_bounded(start.0) && emit_bounded(start.1)
                && emit_bounded(start.2) && emit_bounded(end.0) && emit_bounded(end.1)
                && emit_bounded(end.2),
            EmitterType::Circle { radius } => 0 <= radius <= EMIT_MAX,
            EmitterType::Box { width, height, depth } => 0 <= width <= EMIT_MAX
                && 0 <= height <= EMIT_MAX && 0 <= depth <= EMIT_MAX,
            EmitterType::Point => true,
        }
}

/// Shared particle parameters inside the arithmetic range.
pub open spec fn props_wf(p: &ParticleProperties) -> bool {
    p.size.wf() && 0 <= p.size_random <= SCALE
        && (forall|i: int| 0 <= i < p.color_over_life@.len()
            ==> fx_bounded((#[trigger] p.color_over_life@[i]).0))
        && fx_bounded(p.rotation_speed)
        && fx_bounded(p.gravity.0) && fx_bounded(p.gravity.1) && fx_bounded(p.gravity.2)
        && fx_bounded(p.wind.0) && fx_bounded(p.wind.1) && fx_bounded(p.wind.2)
        && 0 <= p.turbulence <= FX_MAX
}

impl ParticleSystem {
    /// The system invariant: bounded parameters, a bounded carry, and a pool
    /// of bounded particles.
    pub open spec fn wf(&self) -> bool {
        emitter_wf(&self.emitter) && props_wf(&self.properties)
            && 0 <= self.particle_lifetime <= FX_MAX
            && 0 <= self.emission_carry < SCALE
            && forall|i: int| 0 <= i < self.particles@.len()
                ==> #[trigger] particle_wf(&self.particles@[i])
    }
}

/// The color of a particle at normalized life `p`, from the system's color
/// stops, bracketed and interpolated like a keyframe track: no stops at all
/// mean white; a life before the first stop holds the first stop's color
/// (no extrapolation); the first bracketing pair of stops interpolates per
/// channel (rounded to the nearest channel value); a life after the last
/// stop holds the last stop's color.
pub open spec fn spec_color_over_life(stops: Seq<(i64, u8, u8, u8, u8)>, p: int) -> (u8, u8, u8, u8)
    decreases stops.len(),
{
    if stops.len() == 0 {
        (255u8, 255u8, 255u8, 255u8)
    } else if p < stops[0].0 || stops.len() == 1 {
        (stops[0].1, stops[0].2, stops[0].3, stops[0].4)
    } else if stops[0].0 <= p <= stops[1].0 && stops[0].0 < stops[1].0 {
        let t = (p - stops[0].0) * (SCALE as int) / (stops[1].0 - stops[0].0);
        (
            spec_channel_mix(stops[0].1 as int, stops[1].1 as int, t) as u8,
            spec_channel_mix(stops[0].2 as int, stops[1].2 as int, t) as u8,
            spec_channel_mix(stops[0].3 as int, stops[1].3 as int, t) as u8,
            spec_channel_mix(stops[0].4 as int, stops[1].4 as int, t) as u8,
        )
    } else {
        spec_color_over_life(stops.drop_first(), p)
    }
}

/// Executable channel interpolation between two color stops.
fn stop_channel(a: u8, b: u8, t: i64) -> (r: u8)
    requires
        0 <= t <= SCALE,
    ensures
        r as int == spec_channel_mix(a as int, b as int, t as int),
{
    proof {
        assert(0 <= (a as int) * (SCALE - t) + (b as int) * t <= 255 * SCALE) by (nonlinear_arith)
            requires 0 <= t <= SCALE && a <= 255 && b <= 255 && SCALE == 2_200_000i64;
    }
    let n: i64 = (a as i64) * (SCALE - t) + (b as i64) * t;
    proof {
        vstd::arithmetic::div_mod::lemma_div_pos_is_pos(n + crate::fixed::HALF_SCALE, SCALE as int);
        vstd::arithmetic::div_mod::lemma_div_is_ordered(
            n + crate::fixed::HALF_SCALE,
            255 * (SCALE as int) + crate::fixed::HALF_SCALE,
            SCALE as int,
        );
    }
    let r = (n + crate::fixed::HALF_SCALE) / SCALE;
    r as u8
}

impl ParticleSystem {
    /// Resamples a particle's color from the `color_over_life` stop list at
    /// normalized life `life_progress`.
    pub fn interpolate_color_over_life(&self, life_progress: i64) -> (r: (u8, u8, u8, u8))
        requires
            self.wf(),
            fx_bounded(life_progress),
        ensures
            r == spec_color_over_life(self.properties.color_over_life@, life_progress as int),
    {
        let n = self.properties.color_over_life.len();
        if n == 0 {
            return (255, 255, 255, 255);
        }
        let ghost all = self.properties.color_over_life@;
        let mut i: usize = 0;
        proof {
            assert(all.skip(0) =~= all);
        }
        while i + 1 < n
            invariant
                self.wf(),
                fx_bounded(life_progress),
                all == self.properties.color_over_life@,
                n == all.len(),
                i + 1 <= n,
                spec_color_over_life(all.skip(i as int), life_progress as int)
                    == spec_color_over_life(all, life_progress as int),
            decreases n - i,
        {
            let ghost rest = all.skip(i as int);
            proof {
                assert(rest[0] == all[i as int]);
                assert(rest[1] == all[i as int + 1]);
                assert(fx_bounded(all[i as int].0) && fx_bounded(all[i as int + 1].0));
            }
            let s0 = self.properties.color_over_life[i];
            let s1 = self.properties.color_over_life[i + 1];
            let t0 = s0.0;
            let t1 = s1.0;
            if life_progress < t0 {
                // Before this stop: hold its color (no extrapolation).
                return (s0.1, s0.2, s0.3, s0.4);
            }
            if t0 <= life_progress && life_progress <= t1 && t0 < t1 {
                proof {
                    assert(0 <= (life_progress - t0) * (SCALE as int)
                        && (life_progress - t0) * (SCALE as int)
                            <= (t1 - t0) * (SCALE as int)
                        && (t1 - t0) * (SCALE as int) <= 2 * FX_MAX * SCALE) by (nonlinear_arith)
                        requires t0 <= life_progress <= t1 && t0 < t1 && SCALE == 2_200_000i64
                            && fx_bounded(t0) && fx_bounded(t1) && fx_bounded(life_progress)
                            && FX_MAX == 0x20_0000_0000i64;
                    vstd::arithmetic::div_mod::lemma_div_pos_is_pos(
                        (life_progress - t0) * (SCALE as int), t1 - t0);
                    vstd::arithmetic::div_mod::lemma_div_is_ordered(
                        (life_progress - t0) * (SCALE as int),
                        (t1 - t0) * (SCALE as int), t1 - t0);
                    vstd::arithmetic::div_mod::lemma_div_multiples_vanish(SCALE as int, t1 - t0);
                    vstd::arithmetic::mul::lemma_mul_is_commutative(t1 - t0, SCALE as int);
                }
                let t = (life_progress - t0) * SCALE / (t1 - t0);
                return (
                    stop_channel(s0.1, s1.1, t),
                    stop_channel(s0.2, s1.2, t),
                    stop_channel(s0.3, s1.3, t),
                    stop_channel(s0.4, s1.4, t),
                );
            }
            i = i + 1;
            proof {
                assert(rest.drop_first() =~= all.skip(i as int));
            }
        }
        // One stop left: its color is the fallback.
        let ghost rest = all.skip(i as int);
        proof {
            assert(rest.len() == 1);
            assert(rest[0] == all[i as int]);
        }
        let last = self.properties.color_over_life[i];
        (last.1, last.2, last.3, last.4)
    }
}

/// A buffer with one particle painted as a single pixel: its color written
/// at its (truncated) pixel position when that lies on the canvas.
pub open spec fn spec_paint_particle(buf: Seq<u8>, p: &Particle, w: nat, h: nat) -> Seq<u8> {
    let x = spec_div_trunc(p.position.0 as int, SCALE as int);
    let y = spec_div_trunc(p.position.1 as int, SCALE as int);
    if 0 <= x < w && 0 <= y < h && 4 * (y * w + x) + 3 < buf.len() {
        let idx = 4 * (y * w + x);
        buf.update(idx, p.color.0).update(idx + 1, p.color.1).update(idx + 2, p.color.2)
            .update(idx + 3, p.color.3)
    } else {
        buf
    }
}

/// A buffer with the first `k` particles painted in order.
pub open spec fn spec_render_particles(buf: Seq<u8>, ps: Seq<Particle>, w: nat, h: nat) -> Seq<u8>
    decreases ps.len(),
{
    if ps.len() == 0 {
        buf
    } else {
        spec_paint_particle(
            spec_render_particles(buf, ps.drop_last(), w, h),
            &ps.last(), w, h,
        )
    }
}

impl ParticleSystem {
    /// Paints every live particle into the buffer as a colored point, in
    /// pool order. Particles off the canvas leave it unchanged.
    pub fn render(&self, buffer: &mut Vec<u8>, width: u32, height: u32)
        requires
            self.wf(),
            width * height <= 0x400_0000,
        ensures
            final(buffer)@ == spec_render_particles(old(buffer)@, self.particles@,
                width as nat, height as nat),
            final(buffer)@.len() == old(buffer)@.len(),
    {
        let ghost b0 = buffer@;
        let n = self.particles.len();
        let mut i: usize = 0;
        proof {
            assert(self.particles@.subrange(0, 0) =~= Seq::<Particle>::empty());
        }
        while i < n
            invariant
                self.wf(),
                width * height <= 0x400_0000,
                n == self.particles@.len(),
                i <= n,
                buffer@ == spec_render_particles(b0, self.particles@.subrange(0, i as int),
                    width as nat, height as nat),
                buffer@.len() == b0.len(),
            decreases n - i,
        {
            proof {
                assert(particle_wf(&self.particles@[i as int]));
            }
            let p = &self.particles[i];
            let x: i64 = if p.position.0 >= 0 {
                p.position.0 / SCALE
            } else {
                -((-p.position.0) / SCALE)
            };
            let y: i64 = if p.position.1 >= 0 {
                p.position.1 / SCALE
            } else {
                -((-p.position.1) / SCALE)
            };
            proof {
                if p.position.0 >= 0 {
                    vstd::arithmetic::div_mod::lemma_div_pos_is_pos(p.position.0 as int, SCALE as int);
                } else {
                    vstd::arithmetic::div_mod::lemma_div_pos_is_pos(-(p.position.0 as int), SCALE as int);
                }
                if p.position.1 >= 0 {
                    vstd::arithmetic::div_mod::lemma_div_pos_is_pos(p.position.1 as int, SCALE as int);
                } else {
                    vstd::arithmetic::div_mod::lemma_div_pos_is_pos(-(p.position.1 as int), SCALE as int);
                }
            }
            if x >= 0 && x < width as i64 && y >= 0 && y < height as i64 {
                proof {
                    assert(x as int == spec_div_trunc(p.position.0 as int, SCALE as int));
                    assert(y as int == spec_div_trunc(p.position.1 as int, SCALE as int));
                    assert(0 <= 4 * ((y as int) * (width as int) + x as int)
                        && 4 * ((y as int) * (width as int) + x as int) + 3 < 0x1_0000_0000)
                        by (nonlinear_arith)
                        requires 0 <= x < width as int && 0 <= y < height as int
                            && (width as int) * (height as int) <= 0x400_0000;
                }
                let idx: usize = 4 * ((y as usize) * (width as usize) + (x as usize));
                if idx + 3 < buffer.len() {
                    let ghost pre = buffer@;
                    buffer[idx] = p.color.0;
                    buffer[idx + 1] = p.color.1;
                    buffer[idx + 2] = p.color.2;
                    buffer[idx + 3] = p.color.3;
                    proof {
                        assert((y as usize) * (width as usize) == (y as int) * (width as int))
                            by (nonlinear_arith)
                            requires 0 <= y < height as int
                                && (width as int) * (height as int) <= 0x400_0000;
                        assert(buffer@ =~= spec_paint_particle(pre, p, width as nat, height as nat));
                    }
                } else {
                    proof {
                        assert(buffer@ =~= spec_paint_particle(buffer@, p, width as nat, height as nat));
                    }
                }
            } else {
                proof {
                    assert(buffer@ =~= spec_paint_particle(buffer@, p, width as nat, height as nat));
                }
            }
            i = i + 1;
            proof {
                let cur = self.particles@.subrange(0, i as int);
                assert(cur.drop_last() =~= self.particles@.subrange(0, i - 1));
                assert(cur.last() == self.particles@[i - 1]);
            }
        }
        proof {
            assert(self.particles@.subrange(0, n as int) =~= self.particles@);
        }
    }
}

/// How many of the given particles survive aging by `dt`: those whose age
/// stays below their lifetime.
pub open spec fn spec_live_count(ps: Seq<Particle>, dt: int) -> int
    decreases ps.len(),
{
    if ps.len() == 0 {
        0
    } else {
        spec_live_count(ps.drop_last(), dt)
            + if ps.last().age + dt < ps.last().lifetime { 1int } else { 0int }
    }
}

/// Clamps a value into the engine's range.
fn clamp_fx(v: i64) -> (r: i64)
    ensures
        fx_bounded(r),
        fx_bounded(v) ==> r == v,
        r == (if v < -FX_MAX { -FX_MAX } else if v > FX_MAX { FX_MAX as int } else { v as int }),
{
    if v < -FX_MAX {
        -FX_MAX
    } else if v > FX_MAX {
        FX_MAX
    } else {
        v
    }
}

impl ParticleSystem {
    /// Emits one particle: position sampled from the emitter's geometry,
    /// velocity the emitter's velocity plus a uniform random offset, size the
    /// size property at simulation-local time zero times a random variance in
    /// `[1 - size_random, 1 + size_random]`, color the life-zero color.
    ///
    /// What chance decides is promised only by its bounds: the position lands
    /// inside the emitter's geometry and the velocity within
    /// `velocity_random` of the emitter's velocity, whatever was drawn.
    fn emit_particle(&mut self)
        requires
            old(self).wf(),
        ensures
            final(self).wf(),
            final(self).id == old(self).id,
            final(self).name == old(self).name,
            final(self).emitter == old(self).emitter,
            final(self).max_particles == old(self).max_particles,
            final(self).particle_lifetime == old(self).particle_lifetime,
            final(self).properties == old(self).properties,
            final(self).emission_carry == old(self).emission_carry,
            final(self).particles@.len() == old(self).particles@.len() + 1,
            final(self).particles@.subrange(0, old(self).particles@.len() as int)
                == old(self).particles@,
            final(self).particles@.last().age == 0,
            final(self).particles@.last().lifetime == old(self).particle_lifetime,
            ({
                let p = final(self).particles@.last();
                let e = old(self).emitter;
                match e.emitter_type {
                    EmitterType::Point => p.position == e.position,
                    EmitterType::Circle { radius } =>
                        e.position.0 - radius <= p.position.0 <= e.position.0 + radius
                            && e.position.1 - radius <= p.position.1 <= e.position.1 + radius
                            && p.position.2 == e.position.2,
                    EmitterType::Line { start, end } =>
                        (start.0 <= p.position.0 <= end.0 || end.0 <= p.position.0 <= start.0)
                            && (start.1 <= p.position.1 <= end.1 || end.1 <= p.position.1 <= start.1)
                            && (start.2 <= p.position.2 <= end.2 || end.2 <= p.position.2 <= start.2),
                    EmitterType::Box { width, height, depth } =>
                        e.position.0 - width / 2 <= p.position.0 <= e.position.0 + width / 2
                            && e.position.1 - height / 2 <= p.position.1 <= e.position.1 + height / 2
                            && e.position.2 - depth / 2 <= p.position.2 <= e.position.2 + depth / 2,
                }
            }),
            ({
                let p = final(self).particles@.last();
                let e = old(self).emitter;
                e.velocity.0 - e.velocity_random <= p.velocity.0 <= e.velocity.0 + e.velocity_random
                    && e.velocity.1 - e.velocity_random <= p.velocity.1 <= e.velocity.1 + e.velocity_random
                    && e.velocity.2 - e.velocity_random <= p.velocity.2 <= e.velocity.2 + e.velocity_random
            }),
            final(self).particles@.last().color == spec_color_over_life(
                old(self).properties.color_over_life@, 0),
    {
        // Initial position, from the emitter's geometry.
        let position: (i64, i64, i64) = match &self.emitter.emitter_type {
            EmitterType::Point => self.emitter.position,
            EmitterType::Circle { radius } => {
                let r = *radius;
                let mut dx: i64 = 0;
                let mut dy: i64 = 0;
                if r > 0 {
                    // Draw offsets until they land inside the disk, with a
                    // bounded number of tries; a run of misses falls back to
                    // the center.
                    let mut tries: usize = 0;
                    while tries < 16
                        invariant
                            -r <= dx <= r,
                            -r <= dy <= r,
                            r <= EMIT_MAX,
                            0 < r,
                        decreases 16 - tries,
                    {
                        let cx = host::random_range_fx(-r, r + 1);
                        let cy = host::random_range_fx(-r, r + 1);
                        proof {
                            assert(0 <= (cx as int) * (cx as int) <= 0x1000_0000_0000_0000_0000
                                && 0 <= (cy as int) * (cy as int) <= 0x1000_0000_0000_0000_0000
                                && 0 <= (r as int) * (r as int) <= 0x1000_0000_0000_0000_0000)
                                by (nonlinear_arith)
                                requires -r <= cx <= r && -r <= cy <= r && 0 < r <= 0x10_0000_0000i64;
                        }
                        if (cx as i128) * (cx as i128) + (cy as i128) * (cy as i128)
                            <= (r as i128) * (r as i128) {
                            dx = cx;
                            dy = cy;
                            tries = 16;
                        } else {
                            tries = tries + 1;
                        }
                    }
                }
                (self.emitter.position.0 + dx, self.emitter.position.1 + dy, self.emitter.position.2)
            },
            EmitterType::Line { start, end } => {
                let t = host::random_range_fx(0, SCALE + 1);
                (
                    crate::fixed::lerp_fx(start.0, end.0, t),
                    crate::fixed::lerp_fx(start.1, end.1, t),
                    crate::fixed::lerp_fx(start.2, end.2, t),
                )
            },
            EmitterType::Box { width, height, depth } => {
                let hw = *width / 2;
                let hh = *height / 2;
                let hd = *depth / 2;
                let dx = if hw > 0 { host::random_range_fx(-hw, hw + 1) } else { 0 };
                let dy = if hh > 0 { host::random_range_fx(-hh, hh + 1) } else { 0 };
                let dz = if hd > 0 { host::random_range_fx(-hd, hd + 1) } else { 0 };
                (self.emitter.position.0 + dx, self.emitter.position.1 + dy,
                    self.emitter.position.2 + dz)
            },
        };

        // Initial velocity: the emitter's, offset by one random draw.
        let vr = self.emitter.velocity_random;
        let vel_rand: i64 = if vr > 0 { host::random_range_fx(-vr, vr + 1) } else { 0 };
        let velocity = (
            self.emitter.velocity.0 + vel_rand,
            self.emitter.velocity.1 + vel_rand,
            self.emitter.velocity.2 + vel_rand,
        );

        // Initial size: the size property at local time zero, scaled by a
        // random variance factor.
        let base: i64 = match self.properties.size.evaluate_at(0) {
            KeyframeValue::Number(s) => s,
            _ => 10 * SCALE,
        };
        let base = clamp_fx(base);
        let sr = self.properties.size_random;
        let variance: i64 = if sr > 0 { host::random_range_fx(SCALE - sr, SCALE + sr) } else { SCALE };
        proof {
            assert(-i64::MAX <= base * variance <= i64::MAX
                && -(2 * FX_MAX * (2 * SCALE)) <= base * variance <= 2 * FX_MAX * (2 * SCALE))
                by (nonlinear_arith)
                requires fx_bounded(base) && 0 <= variance <= 2 * SCALE
                    && FX_MAX == 0x20_0000_0000i64 && SCALE == 2_200_000i64;
            if base * variance >= 0 {
                vstd::arithmetic::div_mod::lemma_div_pos_is_pos(base * variance, SCALE as int);
                vstd::arithmetic::div_mod::lemma_div_is_ordered(base * variance,
                    2 * FX_MAX * (2 * SCALE), SCALE as int);
            } else {
                vstd::arithmetic::div_mod::lemma_div_pos_is_pos(-(base * variance), SCALE as int);
                vstd::arithmetic::div_mod::lemma_div_is_ordered(-(base * variance),
                    2 * FX_MAX * (2 * SCALE), SCALE as int);
            }
        }
        let size = clamp_fx(mul_fx_signed(base, variance));

        let rotation = host::random_range_fx(0, 360 * SCALE);
        let color = self.interpolate_color_over_life(0);

        let particle = Particle {
            position,
            velocity,
            age: 0,
            lifetime: self.particle_lifetime,
            size,
            rotation,
            color,
        };
        let ghost old_ps = self.particles@;
        self.particles.push(particle);
        proof {
            assert(self.particles@.subrange(0, old_ps.len() as int) =~= old_ps);
            assert forall|i: int| 0 <= i < self.particles@.len()
                implies #[trigger] particle_wf(&self.particles@[i]) by {
                if i < old_ps.len() {
                    assert(self.particles@[i] == old_ps[i]);
                    assert(particle_wf(&old_ps[i]));
                }
            }
        }
    }

    /// Advances the simulation by `dt` (a tick of at most one second — a
    /// design bound of the integrator; a longer simulated span is taken as
    /// several ticks):
    /// emits `emission_rate * dt` particles, the fractional remainder
    /// carried into `emission_carry` so low rates do not under-emit, and
    /// refuses new emissions once the pool is full (never evicting live
    /// particles); then ages every particle, applies gravity, wind and
    /// turbulence to its velocity, moves and spins it, resamples its color
    /// over its life, and removes particles whose age reached their
    /// lifetime.
    ///
    /// The live count afterwards is exactly the survivors of the old pool
    /// plus the newly emitted particles (which die the same tick only when
    /// `dt` reaches the whole lifetime). State components saturate at the
    /// engine's value range.
    pub fn update(&mut self, delta_time: i64)
        requires
            old(self).wf(),
            0 < delta_time <= SCALE,
        ensures
            final(self).wf(),
            final(self).id == old(self).id,
            final(self).name == old(self).name,
            final(self).emitter == old(self).emitter,
            final(self).max_particles == old(self).max_particles,
            final(self).particle_lifetime == old(self).particle_lifetime,
            final(self).properties == old(self).properties,
            final(self).emission_carry == (old(self).emission_carry
                + spec_mul_fx(old(self).emitter.emission_rate as int, delta_time as int))
                % (SCALE as int),
            ({
                let want = (old(self).emission_carry
                    + spec_mul_fx(old(self).emitter.emission_rate as int, delta_time as int))
                    / (SCALE as int);
                let len0 = old(self).particles@.len() as int;
                let room = if len0 < old(self).max_particles {
                    old(self).max_particles - len0
                } else {
                    0int
                };
                let emitted = if want <= room { want } else { room };
                let fresh = if delta_time < old(self).particle_lifetime { emitted } else { 0int };
                final(self).particles@.len()
                    == spec_live_count(old(self).particles@, delta_time as int) + fresh
            }),
            forall|i: int| 0 <= i < final(self).particles@.len()
                ==> (#[trigger] final(self).particles@[i]).age
                    < final(self).particles@[i].lifetime,
            forall|k: int| 0 <= k < spec_live_count(old(self).particles@, delta_time as int)
                ==> spec_advanced_from(
                    spec_survivors(old(self).particles@, delta_time as int)[k],
                    #[trigger] final(self).particles@[k],
                    &old(self).properties, delta_time as int),
            forall|k: int| spec_live_count(old(self).particles@, delta_time as int) <= k
                    < final(self).particles@.len()
                ==> (#[trigger] final(self).particles@[k]).age == delta_time
                    && final(self).particles@[k].lifetime == old(self).particle_lifetime,
            old(self).properties.turbulence == 0 ==> final(self).particles@.subrange(0,
                spec_live_count(old(self).particles@, delta_time as int))
                == spec_step(old(self).particles@, &old(self).properties, delta_time as int),
    {
        let ghost old_ps = self.particles@;
        let ghost rate = self.emitter.emission_rate;

        // 1. Emission, with the fractional remainder carried forward.
        proof {
            vstd::arithmetic::mul::lemma_mul_nonnegative(rate as int, delta_time as int);
            vstd::arithmetic::div_mod::lemma_div_pos_is_pos(rate * delta_time, SCALE as int);
            assert(rate * delta_time <= FX_MAX * SCALE) by (nonlinear_arith)
                requires 0 <= rate <= FX_MAX && 0 < delta_time <= SCALE;
            vstd::arithmetic::div_mod::lemma_div_is_ordered(rate * delta_time,
                FX_MAX * (SCALE as int), SCALE as int);
            vstd::arithmetic::div_mod::lemma_div_multiples_vanish(FX_MAX as int, SCALE as int);
        }
        let inflow = self.emission_carry + mul_fx(self.emitter.emission_rate, delta_time);
        proof {
            vstd::arithmetic::div_mod::lemma_div_pos_is_pos(inflow as int, SCALE as int);
            vstd::arithmetic::div_mod::lemma_mod_division_less_than_divisor(inflow as int, SCALE as int);
            vstd::arithmetic::div_mod::lemma_div_is_ordered(inflow as int,
                FX_MAX + SCALE as int, SCALE as int);
        }
        let want_total: i64 = inflow / SCALE;
        self.emission_carry = inflow % SCALE;
        let want: usize = want_total as usize;
        let mut e: usize = 0;
        while e < want
            invariant
                self.wf(),
                self.id == old(self).id,
                self.name == old(self).name,
                self.emitter == old(self).emitter,
                self.max_particles == old(self).max_particles,
                self.particle_lifetime == old(self).particle_lifetime,
                self.properties == old(self).properties,
                self.emission_carry == (old(self).emission_carry
                    + spec_mul_fx(old(self).emitter.emission_rate as int, delta_time as int))
                    % (SCALE as int),
                e <= want,
                old_ps == old(self).particles@,
                self.particles@.len() == old_ps.len() + (
                    if old_ps.len() as int >= self.max_particles {
                        0int
                    } else if old_ps.len() + e <= self.max_particles {
                        e as int
                    } else {
                        self.max_particles - old_ps.len() as int
                    }
                ),
                self.particles@.subrange(0, old_ps.len() as int) == old_ps,
                forall|i: int| old_ps.len() <= i < self.particles@.len()
                    ==> (#[trigger] self.particles@[i]).age == 0
                        && self.particles@[i].lifetime == old(self).particle_lifetime,
            decreases want - e,
        {
            let ghost pre_emit = self.particles@;
            if self.particles.len() < self.max_particles {
                self.emit_particle();
                proof {
                    assert forall|i: int| 0 <= i < pre_emit.len()
                        implies self.particles@[i] == pre_emit[i] by {
                        assert(self.particles@.subrange(0, pre_emit.len() as int)[i]
                            == self.particles@[i]);
                    }
                    assert forall|i: int| old_ps.len() <= i < self.particles@.len()
                        implies (#[trigger] self.particles@[i]).age == 0
                            && self.particles@[i].lifetime == old(self).particle_lifetime by {
                        if i < pre_emit.len() {
                            assert(self.particles@[i] == pre_emit[i]);
                            assert(pre_emit[i].age == 0
                                && pre_emit[i].lifetime == old(self).particle_lifetime);
                        } else {
                            assert(i == self.particles@.len() - 1);
                            assert(self.particles@[i] == self.particles@.last());
                        }
                    }
                }
            }
            e = e + 1;
            proof {
                assert(self.particles@.subrange(0, old_ps.len() as int) =~= old_ps);
            }
        }

        // 2. Aging, integration and retirement.
        let ghost mid = self.particles@;
        let mut kept: Vec<Particle> = Vec::new();
        while self.particles.len() > 0
            invariant
                self.wf(),
                self.id == old(self).id,
                self.name == old(self).name,
                self.emitter == old(self).emitter,
                self.max_particles == old(self).max_particles,
                self.particle_lifetime == old(self).particle_lifetime,
                self.properties == old(self).properties,
                self.emission_carry == (old(self).emission_carry
                    + spec_mul_fx(old(self).emitter.emission_rate as int, delta_time as int))
                    % (SCALE as int),
                0 < delta_time <= SCALE,
                self.particles@.len() <= mid.len(),
                self.particles@ == mid.subrange(
                    mid.len() - self.particles@.len(), mid.len() as int),
                forall|i: int| 0 <= i < mid.len() ==> #[trigger] particle_wf(&mid[i]),
                kept@.len() == spec_live_count(
                    mid.subrange(0, mid.len() - self.particles@.len()), delta_time as int),
                forall|i: int| 0 <= i < kept@.len() ==> #[trigger] particle_wf(&kept@[i]),
                forall|i: int| 0 <= i < kept@.len()
                    ==> (#[trigger] kept@[i]).age < kept@[i].lifetime,
                forall|k: int| 0 <= k < kept@.len()
                    ==> spec_advanced_from(
                        spec_survivors(mid.subrange(0, mid.len() - self.particles@.len()),
                            delta_time as int)[k],
                        #[trigger] kept@[k], &self.properties, delta_time as int),
                self.properties.turbulence == 0 ==> kept@ == spec_step(
                    mid.subrange(0, mid.len() - self.particles@.len()),
                    &self.properties, delta_time as int),
            decreases self.particles@.len(),
        {
            let ghost i = mid.len() - self.particles@.len();
            let ghost pre = self.particles@;
            proof {
                assert(pre[0] == mid[i]);
                assert(particle_wf(&mid[i]));
            }
            let p = self.particles.remove(0);
            proof {
                assert(self.particles@ =~= mid.subrange(i + 1, mid.len() as int));
                assert(mid.subrange(0, i + 1).drop_last() =~= mid.subrange(0, i));
                assert(mid.subrange(0, i + 1).last() == mid[i]);
            }
            let age = p.age + delta_time;
            if age < p.lifetime {
                // Velocity: gravity, wind and a turbulence draw per axis.
                let g = self.properties.gravity;
                let w = self.properties.wind;
                proof {
                    lemma_axis_products(delta_time);
                }
                let mut vx = p.velocity.0 + mul_fx_signed(g.0, delta_time)
                    + mul_fx_signed(w.0, delta_time);
                let mut vy = p.velocity.1 + mul_fx_signed(g.1, delta_time)
                    + mul_fx_signed(w.1, delta_time);
                let mut vz = p.velocity.2 + mul_fx_signed(g.2, delta_time)
                    + mul_fx_signed(w.2, delta_time);
                let turb = self.properties.turbulence;
                let ghost mut gtx: i64 = 0;
                let ghost mut gty: i64 = 0;
                if turb > 0 {
                    let tx = host::random_range_fx(-turb, turb);
                    let ty = host::random_range_fx(-turb, turb);
                    proof {
                        lemma_axis_products(delta_time);
                        gtx = tx;
                        gty = ty;
                    }
                    vx = vx + mul_fx_signed(tx, delta_time);
                    vy = vy + mul_fx_signed(ty, delta_time);
                }
                let vx = clamp_fx(vx);
                let vy = clamp_fx(vy);
                let vz = clamp_fx(vz);
                proof {
                    lemma_axis_products(delta_time);
                }
                let px = clamp_fx(p.position.0 + mul_fx_signed(vx, delta_time));
                let py = clamp_fx(p.position.1 + mul_fx_signed(vy, delta_time));
                let pz = clamp_fx(p.position.2 + mul_fx_signed(vz, delta_time));
                let rotation = clamp_fx(p.rotation
                    + mul_fx_signed(self.properties.rotation_speed, delta_time));
                proof {
                    assert(0 < age * (SCALE as int)
                        && age * (SCALE as int) <= p.lifetime * (SCALE as int)) by (nonlinear_arith)
                        requires 0 < age < p.lifetime && SCALE == 2_200_000i64;
                    vstd::arithmetic::div_mod::lemma_div_pos_is_pos(
                        age * (SCALE as int), p.lifetime as int);
                    vstd::arithmetic::div_mod::lemma_div_is_ordered(age * (SCALE as int),
                        p.lifetime * (SCALE as int), p.lifetime as int);
                    vstd::arithmetic::div_mod::lemma_div_multiples_vanish(
                        SCALE as int, p.lifetime as int);
                    vstd::arithmetic::mul::lemma_mul_is_commutative(p.lifetime as int, SCALE as int);
                }
                let life_progress = age * SCALE / p.lifetime;
                let color = self.interpolate_color_over_life(life_progress);
                kept.push(Particle {
                    position: (px, py, pz),
                    velocity: (vx, vy, vz),
                    age,
                    lifetime: p.lifetime,
                    size: p.size,
                    rotation,
                    color,
                });
                proof {
                    if self.properties.turbulence == 0 {
                        assert(kept@.last() == spec_advance(&mid[i], &self.properties,
                            delta_time as int));
                        assert(kept@.drop_last() == spec_step(mid.subrange(0, i),
                            &self.properties, delta_time as int));
                        assert(kept@ =~= spec_step(mid.subrange(0, i + 1), &self.properties,
                            delta_time as int));
                    }
                    // The pushed particle relates to its source whatever the
                    // turbulence draws were.
                    let dt = delta_time as int;
                    let props = &self.properties;
                    let tmax = spec_mul_fx(props.turbulence as int, dt);
                    if props.turbulence > 0 {
                        lemma_mul_fx_signed_range(gtx as int, dt, props.turbulence as int, dt);
                        lemma_mul_fx_signed_range(gty as int, dt, props.turbulence as int, dt);
                        assert(spec_mul_fx(props.turbulence as int, dt)
                            == spec_mul_fx(dt, props.turbulence as int)) by {
                            assert((props.turbulence as int) * dt == dt * (props.turbulence as int))
                                by (nonlinear_arith);
                        }
                    } else {
                        assert(0 * (props.turbulence as int) == 0
                            && (props.turbulence as int) * dt == 0) by (nonlinear_arith)
                            requires props.turbulence == 0;
                    }
                    assert(spec_advanced_from(mid[i], kept@.last(), props, dt));
                    let surv_i = spec_survivors(mid.subrange(0, i), dt);
                    let surv_i1 = spec_survivors(mid.subrange(0, i + 1), dt);
                    assert(surv_i1 == surv_i.push(mid[i]));
                    lemma_survivors_len(mid.subrange(0, i), dt);
                    assert forall|k: int| 0 <= k < kept@.len()
                        implies spec_advanced_from(surv_i1[k], #[trigger] kept@[k], props, dt) by {
                        if k < kept@.len() - 1 {
                            assert(kept@[k] == kept@.drop_last()[k]);
                            assert(surv_i1[k] == surv_i[k]);
                        }
                    }
                }
            } else {
                proof {
                    if self.properties.turbulence == 0 {
                        assert(kept@ =~= spec_step(mid.subrange(0, i + 1), &self.properties,
                            delta_time as int));
                    }
                    assert(spec_survivors(mid.subrange(0, i + 1), delta_time as int)
                        == spec_survivors(mid.subrange(0, i), delta_time as int));
                }
            }
        }
        proof {
            assert(mid.subrange(0, mid.len() as int) =~= mid);
        }
        self.particles = kept;
        proof {
            lemma_live_count_concat(old_ps, mid, delta_time as int,
                old(self).particle_lifetime as int);
            if old(self).properties.turbulence == 0 {
                lemma_step_prefix(old_ps, mid, &old(self).properties, delta_time as int);
                lemma_step_len(old_ps, &old(self).properties, delta_time as int);
            }
            lemma_survivors_concat(old_ps, mid, delta_time as int,
                old(self).particle_lifetime as int);
            lemma_survivors_len(old_ps, delta_time as int);
            lemma_survivors_len(mid, delta_time as int);
            let dt = delta_time as int;
            let surv_old = spec_survivors(old_ps, dt);
            let surv_mid = spec_survivors(mid, dt);
            assert forall|k: int| 0 <= k < spec_live_count(old_ps, dt)
                implies spec_advanced_from(surv_old[k],
                    #[trigger] final(self).particles@[k], &old(self).properties, dt) by {
                assert(surv_mid.subrange(0, surv_old.len() as int)[k] == surv_mid[k]);
                assert(spec_advanced_from(surv_mid[k], final(self).particles@[k],
                    &old(self).properties, dt));
            }
            assert forall|k: int| spec_live_count(old_ps, dt) <= k < final(self).particles@.len()
                implies (#[trigger] final(self).particles@[k]).age == delta_time
                    && final(self).particles@[k].lifetime == old(self).particle_lifetime by {
                assert(spec_advanced_from(surv_mid[k], final(self).particles@[k],
                    &old(self).properties, dt));
                assert(surv_mid[k].age == 0
                    && surv_mid[k].lifetime == old(self).particle_lifetime);
            }
        }
    }
}


/// A value clamped to the engine's range.
pub open spec fn spec_clamp_fx(v: int) -> int {
    if v < -FX_MAX {
        -FX_MAX as int
    } else if v > FX_MAX {
        FX_MAX as int
    } else {
        v
    }
}

/// One tick of deterministic particle physics (no turbulence): gravity and
/// wind accelerate the velocity, the position drifts by the new velocity,
/// the rotation spins, the age grows and the color resamples over life.
/// State components saturate at the engine's value range.
pub open spec fn spec_advance(p: &Particle, props: &ParticleProperties, dt: int) -> Particle {
    let vx = spec_clamp_fx(p.velocity.0 + spec_mul_fx_signed(props.gravity.0 as int, dt)
        + spec_mul_fx_signed(props.wind.0 as int, dt));
    let vy = spec_clamp_fx(p.velocity.1 + spec_mul_fx_signed(props.gravity.1 as int, dt)
        + spec_mul_fx_signed(props.wind.1 as int, dt));
    let vz = spec_clamp_fx(p.velocity.2 + spec_mul_fx_signed(props.gravity.2 as int, dt)
        + spec_mul_fx_signed(props.wind.2 as int, dt));
    Particle {
        position: (
            spec_clamp_fx(p.position.0 + spec_mul_fx_signed(vx, dt)) as i64,
            spec_clamp_fx(p.position.1 + spec_mul_fx_signed(vy, dt)) as i64,
            spec_clamp_fx(p.position.2 + spec_mul_fx_signed(vz, dt)) as i64,
        ),
        velocity: (vx as i64, vy as i64, vz as i64),
        age: (p.age + dt) as i64,
        lifetime: p.lifetime,
        size: p.size,
        rotation: spec_clamp_fx(p.rotation
            + spec_mul_fx_signed(props.rotation_speed as int, dt)) as i64,
        color: spec_color_over_life(props.color_over_life@,
            (p.age + dt) * (SCALE as int) / (p.lifetime as int)),
    }
}

/// The pool after one deterministic tick: every particle advanced, those at
/// or past their lifetime removed, order kept.
pub open spec fn spec_step(ps: Seq<Particle>, props: &ParticleProperties, dt: int) -> Seq<Particle>
    decreases ps.len(),
{
    if ps.len() == 0 {
        Seq::empty()
    } else {
        let rest = spec_step(ps.drop_last(), props, dt);
        if ps.last().age + dt < ps.last().lifetime {
            rest.push(spec_advance(&ps.last(), props, dt))
        } else {
            rest
        }
    }
}

/// A deterministic tick keeps exactly the surviving particles.
pub proof fn lemma_step_len(ps: Seq<Particle>, props: &ParticleProperties, dt: int)
    ensures
        spec_step(ps, props, dt).len() == spec_live_count(ps, dt),
    decreases ps.len(),
{
    if ps.len() > 0 {
        lemma_step_len(ps.drop_last(), props, dt);
    }
}

/// A deterministic tick of a pool with fresh particles appended starts with
/// the tick of the original pool.
proof fn lemma_step_prefix(old_ps: Seq<Particle>, mid: Seq<Particle>, props: &ParticleProperties, dt: int)
    requires
        old_ps.len() <= mid.len(),
        mid.subrange(0, old_ps.len() as int) == old_ps,
    ensures
        spec_step(mid, props, dt).len() >= spec_step(old_ps, props, dt).len(),
        spec_step(mid, props, dt).subrange(0, spec_step(old_ps, props, dt).len() as int)
            == spec_step(old_ps, props, dt),
    decreases mid.len(),
{
    if mid.len() == old_ps.len() {
        assert(mid =~= old_ps);
        assert(spec_step(mid, props, dt).subrange(0, spec_step(old_ps, props, dt).len() as int)
            =~= spec_step(old_ps, props, dt));
    } else {
        assert(mid.drop_last().subrange(0, old_ps.len() as int) =~= old_ps);
        lemma_step_prefix(old_ps, mid.drop_last(), props, dt);
        let shorter = spec_step(mid.drop_last(), props, dt);
        let longer = spec_step(mid, props, dt);
        let k = spec_step(old_ps, props, dt).len() as int;
        assert(longer.subrange(0, k) =~= shorter.subrange(0, k));
    }
}


/// The particles of a pool that survive aging by `dt`, in order, before
/// advancing.
pub open spec fn spec_survivors(ps: Seq<Particle>, dt: int) -> Seq<Particle>
    decreases ps.len(),
{
    if ps.len() == 0 {
        Seq::empty()
    } else {
        let rest = spec_survivors(ps.drop_last(), dt);
        if ps.last().age + dt < ps.last().lifetime {
            rest.push(ps.last())
        } else {
            rest
        }
    }
}

/// There are exactly as many survivors as the live count.
pub proof fn lemma_survivors_len(ps: Seq<Particle>, dt: int)
    ensures
        spec_survivors(ps, dt).len() == spec_live_count(ps, dt),
    decreases ps.len(),
{
    if ps.len() > 0 {
        lemma_survivors_len(ps.drop_last(), dt);
    }
}

/// What one tick did to a surviving particle, whatever the turbulence draws
/// were: age, lifetime, size, rotation and color are fixed exactly; the
/// velocity lies within `turbulence * dt` of the gravity-and-wind ideal on
/// the two planar axes and equals it on the depth axis; the position drifts
/// by the new velocity. Components saturate at the engine's range.
pub open spec fn spec_advanced_from(
    src: Particle, got: Particle, props: &ParticleProperties, dt: int,
) -> bool {
    let tmax = spec_mul_fx(props.turbulence as int, dt);
    let ix = src.velocity.0 + spec_mul_fx_signed(props.gravity.0 as int, dt)
        + spec_mul_fx_signed(props.wind.0 as int, dt);
    let iy = src.velocity.1 + spec_mul_fx_signed(props.gravity.1 as int, dt)
        + spec_mul_fx_signed(props.wind.1 as int, dt);
    let iz = src.velocity.2 + spec_mul_fx_signed(props.gravity.2 as int, dt)
        + spec_mul_fx_signed(props.wind.2 as int, dt);
    got.age == src.age + dt
        && got.lifetime == src.lifetime
        && got.size == src.size
        && got.rotation == spec_clamp_fx(src.rotation
            + spec_mul_fx_signed(props.rotation_speed as int, dt))
        && got.color == spec_color_over_life(props.color_over_life@,
            (src.age + dt) * (SCALE as int) / (src.lifetime as int))
        && spec_clamp_fx(ix - tmax) <= got.velocity.0 <= spec_clamp_fx(ix + tmax)
        && spec_clamp_fx(iy - tmax) <= got.velocity.1 <= spec_clamp_fx(iy + tmax)
        && got.velocity.2 == spec_clamp_fx(iz)
        && got.position.0 == spec_clamp_fx(src.position.0
            + spec_mul_fx_signed(got.velocity.0 as int, dt))
        && got.position.1 == spec_clamp_fx(src.position.1
            + spec_mul_fx_signed(got.velocity.1 as int, dt))
        && got.position.2 == spec_clamp_fx(src.position.2
            + spec_mul_fx_signed(got.velocity.2 as int, dt))
}

/// The survivors of a pool with fresh particles appended start with the
/// survivors of the original pool; the rest are fresh, with age zero and
/// the shared lifetime.
proof fn lemma_survivors_concat(
    old_ps: Seq<Particle>, mid: Seq<Particle>, dt: int, lifetime: int,
)
    requires
        old_ps.len() <= mid.len(),
        mid.subrange(0, old_ps.len() as int) == old_ps,
        forall|i: int| old_ps.len() <= i < mid.len()
            ==> (#[trigger] mid[i]).age == 0 && mid[i].lifetime == lifetime,
    ensures
        spec_survivors(mid, dt).len() >= spec_survivors(old_ps, dt).len(),
        spec_survivors(mid, dt).subrange(0, spec_survivors(old_ps, dt).len() as int)
            == spec_survivors(old_ps, dt),
        forall|k: int| spec_survivors(old_ps, dt).len() <= k < spec_survivors(mid, dt).len()
            ==> (#[trigger] spec_survivors(mid, dt)[k]).age == 0
                && spec_survivors(mid, dt)[k].lifetime == lifetime,
    decreases mid.len(),
{
    if mid.len() == old_ps.len() {
        assert(mid =~= old_ps);
        assert(spec_survivors(mid, dt).subrange(0, spec_survivors(old_ps, dt).len() as int)
            =~= spec_survivors(old_ps, dt));
    } else {
        assert(mid.drop_last().subrange(0, old_ps.len() as int) =~= old_ps);
        lemma_survivors_concat(old_ps, mid.drop_last(), dt, lifetime);
        let shorter = spec_survivors(mid.drop_last(), dt);
        let longer = spec_survivors(mid, dt);
        let k = spec_survivors(old_ps, dt).len() as int;
        assert(longer.subrange(0, k) =~= shorter.subrange(0, k));
    }
}

/// A bounded value times a tick stays inside the multiplication range.
proof fn lemma_axis_products(dt: i64)
    requires
        0 < dt <= SCALE,
    ensures
        forall|v: int| -FX_MAX <= v <= FX_MAX
            ==> -i64::MAX <= #[trigger] (v * dt) <= i64::MAX
                && -(2 * FX_MAX) <= spec_mul_fx_signed(v, dt as int) <= 2 * FX_MAX,
{
    assert forall|v: int| -FX_MAX <= v <= FX_MAX
        implies -i64::MAX <= #[trigger] (v * dt) <= i64::MAX
            && -(2 * FX_MAX) <= spec_mul_fx_signed(v, dt as int) <= 2 * FX_MAX by {
        assert(-(FX_MAX * SCALE) <= v * dt <= FX_MAX * SCALE) by (nonlinear_arith)
            requires -FX_MAX <= v <= FX_MAX && 0 < dt <= SCALE
                && FX_MAX == 0x20_0000_0000i64 && SCALE == 2_200_000i64;
        if v * dt >= 0 {
            vstd::arithmetic::div_mod::lemma_div_pos_is_pos(v * dt, SCALE as int);
            vstd::arithmetic::div_mod::lemma_div_is_ordered(v * dt,
                FX_MAX * (SCALE as int), SCALE as int);
            vstd::arithmetic::div_mod::lemma_div_multiples_vanish(FX_MAX as int, SCALE as int);
        } else {
            vstd::arithmetic::div_mod::lemma_div_pos_is_pos(-(v * dt), SCALE as int);
            vstd::arithmetic::div_mod::lemma_div_is_ordered(-(v * dt),
                FX_MAX * (SCALE as int), SCALE as int);
            vstd::arithmetic::div_mod::lemma_div_multiples_vanish(FX_MAX as int, SCALE as int);
        }
    }
}

/// Splitting a pool into the old particles and the freshly emitted ones
/// splits the survivor count: every fresh particle has age zero, so it
/// survives exactly when `dt` is below the shared lifetime.
proof fn lemma_live_count_concat(old_ps: Seq<Particle>, mid: Seq<Particle>, dt: int, lifetime: int)
    requires
        old_ps.len() <= mid.len(),
        mid.subrange(0, old_ps.len() as int) == old_ps,
        forall|i: int| old_ps.len() <= i < mid.len()
            ==> (#[trigger] mid[i]).age == 0 && mid[i].lifetime == lifetime,
    ensures
        spec_live_count(mid, dt) == spec_live_count(old_ps, dt)
            + (if dt < lifetime { mid.len() - old_ps.len() } else { 0int }),
    decreases mid.len(),
{
    if mid.len() == old_ps.len() {
        assert(mid =~= old_ps);
    } else {
        assert(mid.drop_last().subrange(0, old_ps.len() as int) =~= old_ps);
        lemma_live_count_concat(old_ps, mid.drop_last(), dt, lifetime);
    }
}

/// Kinetic typography: text with animator groups.
#[derive(Debug, Clone)]
pub struct KineticText {
    pub id: String,
    pub text: String,
    pub font: String,
    pub font_size: i64,
    pub animator_groups: Vec<TextAnimatorGroup>,
}

/// One animator group: a selector and the properties it drives.
#[derive(Debug, Clone)]
pub struct TextAnimatorGroup {
    pub name: String,
    pub selector: TextSelector,
    pub properties: TextAnimatorProperties,
}

/// Which characters an animator group currently targets.
#[derive(Debug, Clone)]
pub struct TextSelector {
    pub selector_type: TextSelectorType,
    /// Range start, `0` to `100` percent, animated.
    pub start: AnimatableProperty,
    /// Range end, `0` to `100` percent, animated.
    pub end: AnimatableProperty,
    pub offset: AnimatableProperty,
    pub mode: TextSelectorMode,
    pub shape: TextSelectorShape,
    pub smoothness: i64,
}

/// How a text selector picks characters.
#[derive(Debug, Clone, Copy, PartialEq, Eq, Structural)]
pub enum TextSelectorType {
    Range,
    Wiggly,
    Expression,
}

/// How a selector combines with the previous selection.
#[derive(Debug, Clone, Copy, PartialEq, Eq, Structural)]
pub enum TextSelectorMode {
    Add,
    Subtract,
    Intersect,
}

/// The falloff shape across the selected range.
#[derive(Debug, Clone, Copy, PartialEq, Eq, Structural)]
pub enum TextSelectorShape {
    Square,
    RampUp,
    RampDown,
    Triangle,
    Round,
    Smooth,
}

/// Per-character properties an animator group can drive.
#[derive(Debug, Clone)]
pub struct TextAnimatorProperties {
    pub position: Option<AnimatableProperty>,
    pub scale: Option<AnimatableProperty>,
    pub rotation: Option<AnimatableProperty>,
    pub opacity: Option<AnimatableProperty>,
    pub fill_color: Option<AnimatableProperty>,
    pub stroke_color: Option<AnimatableProperty>,
    pub stroke_width: Option<AnimatableProperty>,
    /// Letter spacing.
    pub tracking: Option<AnimatableProperty>,
    pub blur: Option<AnimatableProperty>,
}

/// Tracked motion data for one feature.
#[derive(Debug)]
pub struct MotionTracker {
    pub id: String,
    pub track_points: Vec<TrackPoint>,
    pub tracking_method: TrackingMethod,
}

/// One tracked sample: a time, a position and a confidence in `[0, 1]`.
#[derive(Debug)]
pub struct TrackPoint {
    pub time: i64,
    pub position: (i64, i64),
    pub confidence: i64,
}

/// How the tracker follows its target.
#[derive(Debug, Clone, Copy, PartialEq, Eq, Structural)]
pub enum TrackingMethod {
    Point,
    Transform,
    Corner,
    Planar,
    Camera,
}

impl MotionTracker {
    /// Applies tracked motion to a layer. Writing the transform back into
    /// the scene graph is the host editor's work; the tracker itself holds
    /// only data.
    pub fn apply_to_layer(&self, _layer_id: &str, _time: i64) {
    }

    /// Stabilizes footage by inverse tracking. Resampling frames is the
    /// host's raster work; no stabilized buffer is produced here.
    pub fn stabilize(&self, _frame: &[u8], _time: i64) -> (r: Vec<u8>)
        ensures
            r@.len() == 0,
    {
        Vec::new()
    }
}

/// What [`ExpressionEngine::noise_hash`] computes: an integer hash of the
/// lattice coordinate, folded into a fixed-point value in `(-1, 1]`.
pub open spec fn spec_noise_hash(x: u32) -> int {
    let a = (x << 13u32) ^ x;
    let b = a.wrapping_mul(a.wrapping_mul(a).wrapping_mul(15731)
        .wrapping_add(789221)).wrapping_add(1376312589) & 0x7fff_ffff;
    SCALE - (b as int) * (SCALE as int) / 0x4000_0000
}

/// A value clamped to the square-root range, so products of two clamped
/// values fit in `i64`.
pub open spec fn spec_clamp_root(v: int) -> int {
    if v < -0x8000_0000 {
        -0x8000_0000
    } else if v > 0x8000_0000 {
        0x8000_0000
    } else {
        v
    }
}

/// What [`ExpressionEngine::perlin_noise`] computes: the two lattice hashes
/// around `x` blended with a smoothstep weight.
pub open spec fn spec_perlin(x: int) -> int {
    let i = x / (SCALE as int);
    let f = x - i * (SCALE as int);
    let u = spec_mul_fx(spec_mul_fx(f, f), 3 * SCALE - 2 * f);
    let a = spec_noise_hash(spec_lattice(i));
    let b = spec_noise_hash(spec_lattice(i + 1));
    spec_mul_fx_signed(a, SCALE - u) + spec_mul_fx_signed(b, u)
}

/// A lattice index folded into 32 bits (saturating at the ends, as a float
/// conversion would).
pub open spec fn spec_lattice(i: int) -> u32 {
    if i < i32::MIN {
        i32::MIN as u32
    } else if i > i32::MAX {
        i32::MAX as u32
    } else {
        (i as i32) as u32
    }
}

/// Procedural animation engine. The expression language is an opaque
/// extension point: evaluation publishes the built-in variables and yields
/// no value, so keyframes decide. The `wiggle` oscillator is implemented
/// directly.
pub struct ExpressionEngine {
    variables: Vec<(String, i64)>,
}

/// The most recent value published under a name.
pub open spec fn spec_var_lookup(vars: Seq<(String, i64)>, name: Seq<char>) -> Option<i64>
    decreases vars.len(),
{
    if vars.len() == 0 {
        None
    } else if vars.last().0@ == name {
        Some(vars.last().1)
    } else {
        spec_var_lookup(vars.drop_last(), name)
    }
}

impl ExpressionEngine {
    /// The published variables, most recent last.
    pub closed spec fn spec_vars(&self) -> Seq<(String, i64)> {
        self.variables@
    }

    /// An engine with no variables published.
    pub fn new() -> (r: Self)
        ensures
            r.spec_vars().len() == 0,
    {
        ExpressionEngine { variables: Vec::new() }
    }

    /// Evaluates an expression at a time: publishes the built-in `time` and
    /// `value` variables, and yields no value (the language is an opaque
    /// extension point with no grammar defined here).
    pub fn evaluate(&mut self, _expression: &str, time: i64) -> (r: Option<i64>)
        ensures
            r is None,
            final(self).spec_vars().len() == old(self).spec_vars().len() + 2,
            final(self).spec_vars().drop_last().drop_last() == old(self).spec_vars(),
            spec_var_lookup(final(self).spec_vars(), "time"@) == Some(time),
            spec_var_lookup(final(self).spec_vars(), "value"@) == Some(0i64),
    {
        self.variables.push(("time".to_owned(), time));
        self.variables.push(("value".to_owned(), 0));
        proof {
            reveal_strlit("time");
            reveal_strlit("value");
            assert("time"@.len() == 4 && "value"@.len() == 5);
            let v = self.variables@;
            assert(v.drop_last().drop_last() =~= old(self).spec_vars());
            assert(v.last().0@ == "value"@);
            assert(v.drop_last().last().0@ == "time"@);
            assert(spec_var_lookup(v, "time"@) == spec_var_lookup(v.drop_last(), "time"@));
            assert(spec_var_lookup(v.drop_last(), "time"@) == Some(time));
        }
        None
    }

    /// The most recently published value of a variable.
    pub fn get_variable(&self, name: &str) -> (r: Option<i64>)
        ensures
            r == spec_var_lookup(self.spec_vars(), name@),
    {
        let n = self.variables.len();
        let mut i: usize = n;
        proof {
            assert(self.variables@.subrange(0, n as int) =~= self.variables@);
        }
        while i > 0
            invariant
                n == self.variables@.len(),
                i <= n,
                spec_var_lookup(self.variables@.subrange(0, i as int), name@)
                    == spec_var_lookup(self.variables@, name@),
            decreases i,
        {
            let ghost pre = self.variables@.subrange(0, i as int);
            proof {
                assert(pre.last() == self.variables@[i - 1]);
                assert(pre.drop_last() =~= self.variables@.subrange(0, i - 1));
            }
            i = i - 1;
            if crate::utils::str_eq(self.variables[i].0.as_str(), name) {
                return Some(self.variables[i].1);
            }
        }
        proof {
            assert(self.variables@.subrange(0, 0) =~= Seq::<(String, i64)>::empty());
        }
        None
    }

    /// Random-looking oscillation: the smooth lattice noise at
    /// `time * frequency`, scaled by `amplitude`. Inputs larger than the
    /// square-root range are clamped so the phase product stays in `i64`.
    pub fn wiggle(&self, frequency: i64, amplitude: i64, time: i64) -> (r: i64)
        requires
            fx_bounded(amplitude),
        ensures
            r == spec_mul_fx_signed(
                spec_perlin(spec_mul_fx_signed(spec_clamp_root(time as int),
                    spec_clamp_root(frequency as int))),
                amplitude as int),
    {
        let tc = clamp_root(time);
        let fc = clamp_root(frequency);
        proof {
            assert(-i64::MAX <= tc * fc <= i64::MAX
                && -(0x8000_0000i64 * 0x8000_0000i64) <= tc * fc
                    <= 0x8000_0000i64 * 0x8000_0000i64) by (nonlinear_arith)
                requires -0x8000_0000i64 <= tc <= 0x8000_0000i64
                    && -0x8000_0000i64 <= fc <= 0x8000_0000i64;
            if tc * fc >= 0 {
                vstd::arithmetic::div_mod::lemma_div_pos_is_pos(tc * fc, SCALE as int);
                vstd::arithmetic::div_mod::lemma_div_is_ordered(tc * fc,
                    0x8000_0000i64 * 0x8000_0000i64, SCALE as int);
            } else {
                vstd::arithmetic::div_mod::lemma_div_pos_is_pos(-(tc * fc), SCALE as int);
                vstd::arithmetic::div_mod::lemma_div_is_ordered(-(tc * fc),
                    0x8000_0000i64 * 0x8000_0000i64, SCALE as int);
            }
        }
        let phase = mul_fx_signed(tc, fc);
        let noise = self.perlin_noise(phase);
        proof {
            assert(-i64::MAX <= noise * amplitude <= i64::MAX) by (nonlinear_arith)
                requires -SCALE <= noise <= SCALE && fx_bounded(amplitude)
                    && SCALE == 2_200_000i64 && FX_MAX == 0x20_0000_0000i64;
        }
        mul_fx_signed(noise, amplitude)
    }

    /// Smooth lattice noise: the hashes of the two lattice points around `x`
    /// blended with the smoothstep weight `f * f * (3 - 2 * f)`.
    fn perlin_noise(&self, x: i64) -> (r: i64)
        requires
            -0x4000_0000_0000_0000 <= x <= 0x4000_0000_0000_0000,
        ensures
            r == spec_perlin(x as int),
            -SCALE <= r <= SCALE,
    {
        proof {
            vstd::arithmetic::div_mod::lemma_fundamental_div_mod(x as int, SCALE as int);
            vstd::arithmetic::div_mod::lemma_mod_division_less_than_divisor(x as int, SCALE as int);
        }
        let i: i64 = if x >= 0 {
            x / SCALE
        } else {
            let q = (-x) / SCALE;
            if q * SCALE == -x {
                -q
            } else {
                -q - 1
            }
        };
        proof {
            lemma_floor_div(x as int, i as int);
        }
        let f = x - i * SCALE;
        proof {
            assert(0 <= f * f <= SCALE * SCALE && f * f * 1 <= i64::MAX) by (nonlinear_arith)
                requires 0 <= f < SCALE && SCALE == 2_200_000i64;
            lemma_mul_fx_le(f as int, f as int, SCALE as int, SCALE as int);
            lemma_mul_fx_le(spec_mul_fx(f as int, f as int), 3 * SCALE - 2 * f as int,
                SCALE as int, 3 * SCALE);
            assert(spec_mul_fx(f as int, f as int) * (3 * SCALE - 2 * f) <= i64::MAX)
                by (nonlinear_arith)
                requires 0 <= spec_mul_fx(f as int, f as int) <= SCALE && 0 <= f < SCALE
                    && SCALE == 2_200_000i64;
        }
        let u = mul_fx(mul_fx(f, f), 3 * SCALE - 2 * f);
        proof {
            lemma_smoothstep_unit(f as int);
        }
        let a = self.noise_hash(lattice(i));
        let b = self.noise_hash(lattice(i + 1));
        // The weight lies in the unit, so each blend term is bounded by the
        // matching share of the unit and the sum stays inside it.
        proof {
            assert(-i64::MAX <= a * (SCALE - u) <= i64::MAX
                && -i64::MAX <= b * u <= i64::MAX) by (nonlinear_arith)
                requires -SCALE <= a <= SCALE && -SCALE <= b <= SCALE && 0 <= u <= SCALE
                    && SCALE == 2_200_000i64;
            lemma_mul_fx_signed_range(a as int, (SCALE - u) as int, SCALE as int, (SCALE - u) as int);
            lemma_mul_fx_signed_range(b as int, u as int, SCALE as int, u as int);
            vstd::arithmetic::mul::lemma_mul_is_commutative(SCALE as int, (SCALE - u) as int);
            vstd::arithmetic::div_mod::lemma_div_multiples_vanish(SCALE - u as int, SCALE as int);
            vstd::arithmetic::mul::lemma_mul_is_commutative(SCALE as int, u as int);
            vstd::arithmetic::div_mod::lemma_div_multiples_vanish(u as int, SCALE as int);
        }
        mul_fx_signed(a, SCALE - u) + mul_fx_signed(b, u)
    }

    /// Integer lattice hash folded into a fixed-point value in `(-1, 1]`.
    fn noise_hash(&self, x: u32) -> (r: i64)
        ensures
            r == spec_noise_hash(x),
            -SCALE < r <= SCALE,
    {
        let a = (x << 13u32) ^ x;
        let raw = a.wrapping_mul(a.wrapping_mul(a).wrapping_mul(15731)
            .wrapping_add(789221)).wrapping_add(1376312589);
        proof {
            let r0 = raw;
            assert(r0 & 0x7fff_ffffu32 <= 0x7fff_ffffu32) by (bit_vector);
        }
        let b = raw & 0x7fff_ffff;
        proof {
            assert((b as int) * (SCALE as int) <= 0x7fff_ffffi64 * (SCALE as int))
                by (nonlinear_arith)
                requires 0 <= b <= 0x7fff_ffffu32;
            vstd::arithmetic::mul::lemma_mul_nonnegative(b as int, SCALE as int);
            vstd::arithmetic::div_mod::lemma_div_pos_is_pos((b as int) * (SCALE as int), 0x4000_0000);
            vstd::arithmetic::div_mod::lemma_div_is_ordered((b as int) * (SCALE as int),
                0x7fff_ffffi64 * (SCALE as int), 0x4000_0000);
        }
        SCALE - (b as i64) * SCALE / 0x4000_0000
    }
}

/// The smoothstep weight `f * f * (3 - 2 * f)` stays inside the unit on the
/// grid: truncation only shrinks it, and the exact cubic peaks at one.
proof fn lemma_smoothstep_unit(f: int)
    requires
        0 <= f < SCALE,
    ensures
        0 <= spec_mul_fx(spec_mul_fx(f, f), 3 * SCALE - 2 * f) <= SCALE,
{
    let s = SCALE as int;
    let q = spec_mul_fx(f, f);
    lemma_mul_fx_le(f, f, s, s);
    // The exact cubic is at most `s^3`: the difference factors as
    // `(s - f)^2 (s + 2 f)`.
    assert(s * s * s - f * f * (3 * s - 2 * f) == (s - f) * (s - f) * (s + 2 * f))
        by (nonlinear_arith);
    assert((s - f) * (s - f) * (s + 2 * f) >= 0) by (nonlinear_arith)
        requires 0 <= f < s;
    // Truncated square times the falloff stays below the exact cubic.
    vstd::arithmetic::div_mod::lemma_fundamental_div_mod(f * f, s);
    vstd::arithmetic::div_mod::lemma_mod_division_less_than_divisor(f * f, s);
    assert(q * s <= f * f) by (nonlinear_arith)
        requires f * f == s * q + (f * f) % s && 0 <= (f * f) % s;
    assert(q * (3 * s - 2 * f) * s <= f * f * (3 * s - 2 * f)) by (nonlinear_arith)
        requires q * s <= f * f && 0 <= 3 * s - 2 * f;
    assert(q * (3 * s - 2 * f) <= s * s) by (nonlinear_arith)
        requires q * (3 * s - 2 * f) * s <= s * s * s && s > 0;
    vstd::arithmetic::mul::lemma_mul_nonnegative(q, 3 * s - 2 * f);
    vstd::arithmetic::div_mod::lemma_div_pos_is_pos(q * (3 * s - 2 * f), s);
    vstd::arithmetic::div_mod::lemma_div_is_ordered(q * (3 * s - 2 * f), s * s, s);
    assert(s * s / s == s) by {
        vstd::arithmetic::div_mod::lemma_div_multiples_vanish(s, s);
    }
}

/// A signed fixed-point product of bounded factors stays bounded.
proof fn lemma_mul_fx_signed_range(a: int, b: int, cap_a: int, cap_b: int)
    requires
        -cap_a <= a <= cap_a,
        -cap_b <= b <= cap_b,
        0 <= cap_a,
        0 <= cap_b,
    ensures
        -spec_mul_fx(cap_a, cap_b) <= spec_mul_fx_signed(a, b) <= spec_mul_fx(cap_a, cap_b),
{
    assert(-(cap_a * cap_b) <= a * b <= cap_a * cap_b) by (nonlinear_arith)
        requires -cap_a <= a <= cap_a && -cap_b <= b <= cap_b && 0 <= cap_a && 0 <= cap_b;
    vstd::arithmetic::mul::lemma_mul_nonnegative(cap_a, cap_b);
    if a * b >= 0 {
        vstd::arithmetic::div_mod::lemma_div_pos_is_pos(a * b, SCALE as int);
        vstd::arithmetic::div_mod::lemma_div_is_ordered(a * b, cap_a * cap_b, SCALE as int);
        vstd::arithmetic::div_mod::lemma_div_pos_is_pos(cap_a * cap_b, SCALE as int);
    } else {
        vstd::arithmetic::div_mod::lemma_div_pos_is_pos(-(a * b), SCALE as int);
        vstd::arithmetic::div_mod::lemma_div_is_ordered(-(a * b), cap_a * cap_b, SCALE as int);
        vstd::arithmetic::div_mod::lemma_div_pos_is_pos(cap_a * cap_b, SCALE as int);
    }
}

/// Clamps a value to the square-root range.
fn clamp_root(v: i64) -> (r: i64)
    ensures
        r == spec_clamp_root(v as int),
        -0x8000_0000 <= r <= 0x8000_0000,
{
    if v < -0x8000_0000 {
        -0x8000_0000
    } else if v > 0x8000_0000 {
        0x8000_0000
    } else {
        v
    }
}

/// Folds a lattice index into 32 bits, saturating at the ends.
fn lattice(i: i64) -> (r: u32)
    ensures
        r == spec_lattice(i as int),
{
    if i < i32::MIN as i64 {
        i32::MIN as u32
    } else if i > i32::MAX as i64 {
        i32::MAX as u32
    } else {
        (i as i32) as u32
    }
}

/// The machine floor division used for the lattice index.
proof fn lemma_floor_div(x: int, i: int)
    requires
        (x >= 0 && i == x / (SCALE as int))
            || (x < 0 && (-x) % (SCALE as int) == 0 && i == -((-x) / (SCALE as int)))
            || (x < 0 && (-x) % (SCALE as int) != 0 && i == -((-x) / (SCALE as int)) - 1),
    ensures
        i == x / (SCALE as int),
        0 <= x - i * (SCALE as int) < SCALE,
{
    vstd::arithmetic::div_mod::lemma_fundamental_div_mod(x, SCALE as int);
    vstd::arithmetic::div_mod::lemma_mod_division_less_than_divisor(x, SCALE as int);
    if x < 0 {
        vstd::arithmetic::div_mod::lemma_fundamental_div_mod(-x, SCALE as int);
        vstd::arithmetic::div_mod::lemma_mod_division_less_than_divisor(-x, SCALE as int);
        let q = (-x) / (SCALE as int);
        let m = (-x) % (SCALE as int);
        assert(x == -(q * (SCALE as int) + m));
        if m == 0 {
            assert((-q) * (SCALE as int) == -(q * (SCALE as int))) by (nonlinear_arith);
            vstd::arithmetic::div_mod::lemma_div_multiples_vanish(-q, SCALE as int);
            assert((SCALE as int) * (-q) == (-q) * (SCALE as int)) by (nonlinear_arith);
        } else {
            assert(x == (-q - 1) * (SCALE as int) + (SCALE as int - m)) by (nonlinear_arith)
                requires x == -(q * (SCALE as int) + m);
            vstd::arithmetic::div_mod::lemma_fundamental_div_mod_converse(
                x, SCALE as int, -q - 1, SCALE as int - m);
        }
    }
}

/// A 3D camera for compositions.
#[derive(Debug, Clone)]
pub struct Camera3D {
    pub id: String,
    pub camera_type: CameraType,
    pub position: AnimatableProperty,
    pub point_of_interest: AnimatableProperty,
    /// Rotation in 3D space.
    pub orientation: AnimatableProperty,
    pub zoom: AnimatableProperty,
    pub focal_length: AnimatableProperty,
    pub aperture: AnimatableProperty,
    pub depth_of_field: bool,
    pub focus_distance: AnimatableProperty,
}

/// How the camera is aimed.
#[derive(Debug, Clone, Copy, PartialEq, Eq, Structural)]
pub enum CameraType {
    /// Camera position and rotation alone.
    OneNode,
    /// Camera and a point of interest.
    TwoNode,
}

/// A 3D light for compositions.
#[derive(Debug, Clone)]
pub struct Light3D {
    pub id: String,
    pub light_type: LightType3D,
    pub position: AnimatableProperty,
    pub point_of_interest: AnimatableProperty,
    pub intensity: AnimatableProperty,
    pub color: AnimatableProperty,
    /// For spot lights.
    pub cone_angle: AnimatableProperty,
    /// For spot lights.
    pub cone_feather: AnimatableProperty,
    pub shadows: bool,
    pub shadow_darkness: AnimatableProperty,
    pub shadow_diffusion: AnimatableProperty,
}

/// The kind of a 3D light.
#[derive(Debug, Clone, Copy, PartialEq, Eq, Structural)]
pub enum LightType3D {
    Ambient,
    Directional,
    Point,
    Spot,
}

} // verus!
