//! Emitter accumulator, bursts, duration looping and spread sweeps.

use particle_sim::{
    AxisSpread, Burst, Circle, EmissionMode, EmissionSpread, EmitterDirectionMode,
    EmitterDirectionParams, EmitterDuration, EmitterShape, ParticleEmitter, ParticleRng,
    RangeOrFixed, Shape, Sphere, SpreadLoopMode, Transform, Vec3, SCALE,
};

fn emitter_with(rate: u64, duration: EmitterDuration, bursts: Vec<Burst>) -> ParticleEmitter {
    ParticleEmitter {
        duration,
        shape: EmitterShape {
            shape: Shape::Sphere(Sphere { radius: SCALE, hemisphere: false }),
            thickness: SCALE,
            direction_params: EmitterDirectionParams::default(),
            mode: EmissionMode::Random,
        },
        rate,
        bursts,
        current_delta_time: 0,
        last_emitted_delta_time: 0,
        transform: Transform::identity(),
    }
}

#[test]
fn rate_ten_emits_five_per_half_second() {
    // rate = 10/s, dt = 0.5 s: every tick crosses five 0.1 s intervals,
    // so ten ticks emit exactly 50 particles.
    let mut rng = ParticleRng::from_seed(1);
    let mut emitter = emitter_with(10 * SCALE as u64, EmitterDuration::Infinite, Vec::new());
    let dt = (SCALE / 2) as u64;
    let mut total = 0;
    for _ in 0..10 {
        let batch = emitter.emit(dt, &mut rng);
        assert_eq!(batch.len(), 5);
        total += batch.len();
    }
    assert_eq!(total, 50);
}

#[test]
fn rate_accumulator_carries_fractions() {
    // rate = 3/s, dt = 0.5 s: intervals of 1/3 s; the fractional remainder
    // carries, giving 1, 2, 1, 2, ... emissions and 15 after ten seconds.
    let mut rng = ParticleRng::from_seed(2);
    let mut emitter = emitter_with(3 * SCALE as u64, EmitterDuration::Infinite, Vec::new());
    let dt = (SCALE / 2) as u64;
    let mut total = 0;
    for _ in 0..20 {
        total += emitter.emit(dt, &mut rng).len();
    }
    assert_eq!(total, 30);
}

#[test]
fn zero_rate_without_bursts_emits_nothing() {
    let mut rng = ParticleRng::from_seed(3);
    let mut emitter = emitter_with(0, EmitterDuration::Infinite, Vec::new());
    for _ in 0..20 {
        assert_eq!(emitter.emit((SCALE / 4) as u64, &mut rng).len(), 0);
    }
}

#[test]
fn looping_burst_fires_once_per_cycle() {
    // A 2 s looping emitter with one burst of five at t = 0, rate 0,
    // ticked by 0.5 s: five particles in the first tick, nothing until the
    // duration passes and resets, then five again.
    let mut rng = ParticleRng::from_seed(4);
    let bursts = vec![Burst { time: 0, count: RangeOrFixed::Fixed(5) }];
    let mut emitter = emitter_with(
        0,
        EmitterDuration::FixedDuration { duration: 2 * SCALE as u64, looping: true },
        bursts,
    );
    let dt = (SCALE / 2) as u64;
    let counts: Vec<usize> = (0..7).map(|_| emitter.emit(dt, &mut rng).len()).collect();
    assert_eq!(counts, vec![5, 0, 0, 0, 0, 0, 5]);
}

#[test]
fn non_looping_emitter_stays_silent_after_duration() {
    let mut rng = ParticleRng::from_seed(5);
    let bursts = vec![Burst { time: 0, count: RangeOrFixed::Fixed(3) }];
    let mut emitter = emitter_with(
        0,
        EmitterDuration::FixedDuration { duration: SCALE as u64, looping: false },
        bursts,
    );
    let dt = SCALE as u64;
    let counts: Vec<usize> = (0..5).map(|_| emitter.emit(dt, &mut rng).len()).collect();
    assert_eq!(counts, vec![3, 0, 0, 0, 0]);
}

#[test]
fn burst_window_is_half_open() {
    // A burst at exactly t = 0.5 fires in the tick covering [0.5, 1.0),
    // not in [0.0, 0.5).
    let mut rng = ParticleRng::from_seed(6);
    let bursts = vec![Burst { time: (SCALE / 2) as u64, count: RangeOrFixed::Fixed(2) }];
    let mut emitter = emitter_with(0, EmitterDuration::Infinite, bursts);
    let dt = (SCALE / 2) as u64;
    assert_eq!(emitter.emit(dt, &mut rng).len(), 0);
    assert_eq!(emitter.emit(dt, &mut rng).len(), 2);
    assert_eq!(emitter.emit(dt, &mut rng).len(), 0);
}

#[test]
fn emitter_transform_translates_positions() {
    // A cone emits at its apex; a translated emitter puts every sample at
    // the translation, exactly.
    let mut rng = ParticleRng::from_seed(7);
    let mut emitter = emitter_with(2 * SCALE as u64, EmitterDuration::Infinite, Vec::new());
    emitter.shape.shape = Shape::Cone(particle_sim::Cone { angle: SCALE / 2 });
    emitter.transform = Transform::from_translation(Vec3 { x: 10 * SCALE, y: 0, z: -3 * SCALE });
    let batch = emitter.emit(SCALE as u64, &mut rng);
    assert_eq!(batch.len(), 2);
    for e in batch.iter() {
        assert_eq!(e.position, Vec3 { x: 10 * SCALE, y: 0, z: -3 * SCALE });
    }
}

#[test]
fn spread_index_walks_and_wraps() {
    // A half-step loop axis: 0 -> 0.5 -> 1.0, then wrapping pulls it back
    // into range and carries to the next axis.
    let axis = AxisSpread { amount: SCALE / 2, loop_mode: SpreadLoopMode::Loop, uniform: true };
    let mut spread = EmissionSpread::start([axis, axis, axis]);
    let (_, c1) = spread.update_index();
    assert_eq!(c1[2], SCALE / 2);
    assert_eq!(c1[1], 0);
    let (_, c2) = spread.update_index();
    assert_eq!(c2[2], SCALE);
    let (_, c3) = spread.update_index();
    // 1.5 leaves the range; Loop maps it to clamp(1 - 1.5) = 0 and carries.
    assert_eq!(c3[2], 0);
    assert_eq!(c3[1], SCALE / 2);
}

#[test]
fn ping_pong_axis_reverses_direction() {
    let axis = AxisSpread {
        amount: (3 * SCALE) / 4,
        loop_mode: SpreadLoopMode::PingPong,
        uniform: true,
    };
    let mut spread = EmissionSpread::start([axis, axis, axis]);
    let (_, c1) = spread.update_index();
    assert_eq!(c1[2], (3 * SCALE) / 4);
    // The next step would overshoot: the axis holds and flips direction.
    let (_, c2) = spread.update_index();
    assert_eq!(c2[2], (3 * SCALE) / 4);
    let (_, c3) = spread.update_index();
    assert_eq!(c3[2], 0);
}

#[test]
fn circle_spread_emits_in_plane() {
    let mut rng = ParticleRng::from_seed(8);
    let axis = AxisSpread { amount: SCALE / 4, loop_mode: SpreadLoopMode::Loop, uniform: true };
    let mut spread = EmissionSpread::start([axis, axis, axis]);
    let circle = Circle { radius: 2 * SCALE };
    for _ in 0..16 {
        let e = circle.spread_particle(
            &mut spread,
            &mut rng,
            SCALE,
            EmitterDirectionMode::Automatic,
        );
        assert_eq!(e.position.y, 0);
        assert!(e.position.x.abs() <= 2 * SCALE);
        assert!(e.position.z.abs() <= 2 * SCALE);
    }
}

#[test]
fn sphere_has_no_spread_support() {
    let shape = Shape::Sphere(Sphere { radius: SCALE, hemisphere: false });
    assert!(!shape.supports_spread());
    let circle = Shape::Circle(Circle { radius: SCALE });
    assert!(circle.supports_spread());
}

#[test]
fn spread_mode_falls_back_for_unsupported_shapes() {
    // A sphere in spread mode cannot sweep; the emitter still produces
    // samples by falling back to random placement.
    let mut rng = ParticleRng::from_seed(9);
    let axis = AxisSpread { amount: SCALE / 4, loop_mode: SpreadLoopMode::Loop, uniform: true };
    let mut emitter = emitter_with(4 * SCALE as u64, EmitterDuration::Infinite, Vec::new());
    emitter.shape.mode = EmissionMode::Spread(EmissionSpread::start([axis, axis, axis]));
    let batch = emitter.emit(SCALE as u64, &mut rng);
    assert_eq!(batch.len(), 4);
}
