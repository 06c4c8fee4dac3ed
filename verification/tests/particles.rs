//! Particle system behavior: emission-rate conservation, carry of the
//! fractional remainder, the pool cap, life-based color resampling and
//! point rendering.

use motioncore::animation_engine::{AnimatableProperty, PropertyType};
use motioncore::fixed::SCALE;
use motioncore::motion_graphics::{
    EmitterType, Particle, ParticleEmitter, ParticleProperties, ParticleSystem,
};

fn empty_size_property() -> AnimatableProperty {
    AnimatableProperty {
        id: "size".to_string(),
        name: "size".to_string(),
        property_type: PropertyType::Number { min: 0, max: 100 * SCALE },
        keyframes: Vec::new(),
        expression: None,
    }
}

fn quiet_system(emission_rate: i64, lifetime: i64, max_particles: usize) -> ParticleSystem {
    ParticleSystem {
        id: "ps".to_string(),
        name: "ps".to_string(),
        emitter: ParticleEmitter {
            emitter_type: EmitterType::Point,
            position: (0, 0, 0),
            emission_rate,
            spread: 0,
            velocity: (0, 0, 0),
            velocity_random: 0,
        },
        particles: Vec::new(),
        max_particles,
        particle_lifetime: lifetime,
        properties: ParticleProperties {
            size: empty_size_property(),
            size_random: 0,
            color_over_life: Vec::new(),
            opacity_over_life: Vec::new(),
            rotation_speed: 0,
            gravity: (0, 0, 0),
            wind: (0, 0, 0),
            turbulence: 0,
            blend_mode: "normal".to_string(),
        },
        emission_carry: 0,
    }
}

#[test]
fn ten_per_second_for_one_second_leaves_ten_live_particles() {
    // Rate 10/s, lifetime 2 s, ten ticks of 0.1 s: ten particles, none dead.
    let mut ps = quiet_system(10 * SCALE, 2 * SCALE, 100);
    for _ in 0..10 {
        ps.update(SCALE / 10);
    }
    assert_eq!(ps.particles.len(), 10);
}

#[test]
fn fractional_emission_carries_to_the_next_tick() {
    // Rate 0.5/s: nothing on the first second-long tick's half, one particle
    // once a whole unit of emission has accumulated.
    let mut ps = quiet_system(SCALE / 2, 10 * SCALE, 100);
    ps.update(SCALE);
    assert_eq!(ps.particles.len(), 0, "half an emission is carried, not emitted");
    assert_eq!(ps.emission_carry, SCALE / 2);
    ps.update(SCALE);
    assert_eq!(ps.particles.len(), 1, "the carried half completes one emission");
    assert_eq!(ps.emission_carry, 0);
}

#[test]
fn the_pool_never_exceeds_max_particles() {
    let mut ps = quiet_system(100 * SCALE, 50 * SCALE, 7);
    ps.update(SCALE);
    assert_eq!(ps.particles.len(), 7);
    ps.update(SCALE);
    assert_eq!(ps.particles.len(), 7, "a full pool refuses new emissions");
}

#[test]
fn particles_age_out_at_their_lifetime() {
    // Lifetime half a second: particles emitted in the first tick die by
    // the third.
    let mut ps = quiet_system(4 * SCALE, SCALE / 2, 100);
    ps.update(SCALE / 4);
    let after_first = ps.particles.len();
    assert_eq!(after_first, 1);
    ps.update(SCALE / 4);
    ps.update(SCALE / 4);
    // The first particle has age 0.75 s by now and is gone; later ones live.
    assert!(ps.particles.iter().all(|p| p.age < p.lifetime));
}

#[test]
fn point_emitter_spawns_at_the_emitter_position() {
    let mut ps = quiet_system(SCALE, 10 * SCALE, 10);
    ps.emitter.position = (3 * SCALE, 4 * SCALE, 5 * SCALE);
    ps.update(SCALE);
    assert_eq!(ps.particles.len(), 1);
    let p = &ps.particles[0];
    // Velocity is zero, so one tick of drift leaves the position unchanged.
    assert_eq!(p.position, (3 * SCALE, 4 * SCALE, 5 * SCALE));
}

#[test]
fn circle_emitter_spawns_inside_its_radius() {
    let mut ps = quiet_system(20 * SCALE, 10 * SCALE, 100);
    ps.emitter.emitter_type = EmitterType::Circle { radius: 2 * SCALE };
    ps.update(SCALE);
    for p in &ps.particles {
        assert!(p.position.0.abs() <= 2 * SCALE);
        assert!(p.position.1.abs() <= 2 * SCALE);
        assert_eq!(p.position.2, 0);
    }
}

#[test]
fn velocity_randomness_stays_within_its_bound() {
    let mut ps = quiet_system(20 * SCALE, 10 * SCALE, 100);
    ps.emitter.velocity = (SCALE, 0, 0);
    ps.emitter.velocity_random = SCALE / 4;
    ps.update(SCALE / 10);
    for p in &ps.particles {
        assert!((p.velocity.0 - SCALE).abs() <= SCALE / 4);
    }
}

#[test]
fn gravity_accelerates_particles_each_tick() {
    let mut ps = quiet_system(SCALE, 10 * SCALE, 10);
    ps.properties.gravity = (0, 10 * SCALE, 0);
    ps.update(SCALE);
    assert_eq!(ps.particles.len(), 1);
    let p = &ps.particles[0];
    assert_eq!(p.velocity.1, 10 * SCALE, "one second of gravity");
    assert_eq!(p.position.1, 10 * SCALE, "drift follows the updated velocity");
}

#[test]
fn color_over_life_interpolates_between_stops() {
    let mut ps = quiet_system(SCALE, 2 * SCALE, 10);
    ps.properties.color_over_life = vec![
        (0, 255, 0, 0, 255),
        (SCALE, 0, 0, 255, 255),
    ];
    // Exactly halfway through life: both ramps round half-up to 128.
    assert_eq!(ps.interpolate_color_over_life(SCALE / 2), (128, 0, 128, 255));
    // After the last stop: the last stop's color holds.
    assert_eq!(ps.interpolate_color_over_life(2 * SCALE), (0, 0, 255, 255));
    // Before the first stop: the first stop's color holds (no
    // extrapolation), also for newly emitted particles at life zero.
    ps.properties.color_over_life = vec![
        (SCALE / 2, 255, 0, 0, 255),
        (SCALE, 0, 0, 255, 255),
    ];
    assert_eq!(ps.interpolate_color_over_life(0), (255, 0, 0, 255));
    // An empty stop list means white.
    ps.properties.color_over_life = Vec::new();
    assert_eq!(ps.interpolate_color_over_life(SCALE / 2), (255, 255, 255, 255));
}

#[test]
fn render_paints_one_pixel_per_particle() {
    let ps = ParticleSystem {
        particles: vec![Particle {
            position: (2 * SCALE, SCALE, 0),
            velocity: (0, 0, 0),
            age: 0,
            lifetime: SCALE,
            size: SCALE,
            rotation: 0,
            color: (10, 20, 30, 40),
        }],
        ..quiet_system(0, SCALE, 10)
    };
    let mut buffer = vec![0u8; 4 * 4 * 4];
    ps.render(&mut buffer, 4, 4);
    let idx = 4 * (1 * 4 + 2);
    assert_eq!(&buffer[idx..idx + 4], &[10, 20, 30, 40]);
    // Every other pixel is untouched.
    for (i, b) in buffer.iter().enumerate() {
        if i < idx || i >= idx + 4 {
            assert_eq!(*b, 0);
        }
    }
}

#[test]
fn off_canvas_particles_leave_the_buffer_unchanged() {
    let ps = ParticleSystem {
        particles: vec![Particle {
            position: (-3 * SCALE, 0, 0),
            velocity: (0, 0, 0),
            age: 0,
            lifetime: SCALE,
            size: SCALE,
            rotation: 0,
            color: (255, 255, 255, 255),
        }],
        ..quiet_system(0, SCALE, 10)
    };
    let mut buffer = vec![7u8; 2 * 2 * 4];
    ps.render(&mut buffer, 2, 2);
    assert!(buffer.iter().all(|b| *b == 7));
}
