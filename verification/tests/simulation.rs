//! Store integration, modifiers, whole-system ticks and extraction.

use particle_sim::{
    extract, BillBoardAlignment, Burst, EmissionMode, EmitterDirectionParams, EmitterDuration,
    EmitterShape, MaxParticleCount, MaxParticleSpeed, Modifier, Particle, ParticleEffect,
    ParticleEmitter, ParticleGravity, ParticleMaterial, ParticleParams, ParticleRenderMode,
    ParticleRng, ParticleRotation, ParticleSystem, ParticleTextureSheet, RangeOrFixed, Rgba,
    RotationMode, Shape, Sphere, TextureAtlas, TextureSheetAnimation, TextureSheetLoopingMode,
    TextureSheetMode, Transform, UvRect, Vec3, HALF_PI_FP, SCALE,
};

fn particle_with_lifetime(lifetime: i64, tag: i64) -> Particle {
    Particle {
        lifetime,
        start_lifetime: lifetime,
        size: tag,
        ..Particle::default()
    }
}

#[test]
fn integrate_reaps_expired_and_keeps_order() {
    let mut store = ParticleSystem::new();
    let t = Transform::identity();
    store.push(particle_with_lifetime(SCALE / 4, 1), &t);
    store.push(particle_with_lifetime(2 * SCALE, 2), &t);
    store.push(particle_with_lifetime(SCALE / 4, 3), &t);
    store.push(particle_with_lifetime(2 * SCALE, 4), &t);
    store.update(SCALE / 2);
    assert_eq!(store.len(), 2);
    assert_eq!(store.particles()[0].size, 2);
    assert_eq!(store.particles()[1].size, 4);
    for p in store.particles().iter() {
        assert!(p.lifetime > 0);
        assert!(p.lifetime <= p.start_lifetime);
    }
}

#[test]
fn integrate_moves_by_velocity() {
    let mut store = ParticleSystem::new();
    let t = Transform::identity();
    let mut p = particle_with_lifetime(2 * SCALE, 0);
    p.velocity = Vec3 { x: 2 * SCALE, y: 0, z: -SCALE };
    store.push(p, &t);
    store.update(SCALE / 2);
    assert_eq!(store.particles()[0].translation, Vec3 { x: SCALE, y: 0, z: -SCALE / 2 });
    assert_eq!(store.particles()[0].lifetime, 2 * SCALE - SCALE / 2);
}

#[test]
fn world_space_store_transforms_on_push() {
    let mut store = ParticleSystem::world_space();
    let t = Transform::from_translation(Vec3 { x: 5 * SCALE, y: SCALE, z: 0 });
    let mut p = particle_with_lifetime(SCALE, 0);
    p.translation = Vec3 { x: SCALE, y: 0, z: 0 };
    store.push(p, &t);
    assert_eq!(store.particles()[0].translation, Vec3 { x: 6 * SCALE, y: SCALE, z: 0 });
}

#[test]
fn max_particle_count_trims_oldest() {
    // 150 particles, capped at 100: exactly the 50 oldest go; the newest
    // 100 survive in order.
    let mut store = ParticleSystem::new();
    let t = Transform::identity();
    for i in 0..150 {
        store.push(particle_with_lifetime(SCALE, i), &t);
    }
    let cap = MaxParticleCount(100);
    cap.apply(&mut store);
    assert_eq!(store.len(), 100);
    assert_eq!(store.particles()[0].size, 50);
    assert_eq!(store.particles()[99].size, 149);
}

#[test]
fn max_particle_count_leaves_small_stores_alone() {
    let mut store = ParticleSystem::new();
    let t = Transform::identity();
    for i in 0..10 {
        store.push(particle_with_lifetime(SCALE, i), &t);
    }
    MaxParticleCount(100).apply(&mut store);
    assert_eq!(store.len(), 10);
}

#[test]
fn zero_velocity_falls_back_to_start_direction() {
    let mut p = Particle::default();
    p.velocity = Vec3 { x: 0, y: 0, z: 0 };
    p.start_direction = Vec3 { x: 0, y: SCALE, z: 0 };
    assert_eq!(p.non_zero_direction(), Vec3 { x: 0, y: SCALE, z: 0 });
}

#[test]
fn aligned_rotation_follows_direction() {
    // A particle aligned to its direction: moving along +Y gives a quarter
    // turn, recomputed fresh from the velocity on each query.
    let mut p = Particle::default();
    p.rotation = ParticleRotation::AlignToDirection { offset: 0 };
    p.velocity = Vec3 { x: 0, y: 3 * SCALE, z: 0 };
    assert_eq!(p.rotation(), HALF_PI_FP);
    p.velocity = Vec3 { x: 5 * SCALE, y: 0, z: 0 };
    assert_eq!(p.rotation(), 0);
    p.velocity = Vec3 { x: 0, y: -2 * SCALE, z: 0 };
    assert_eq!(p.rotation(), -HALF_PI_FP);
}

#[test]
fn aligned_rotation_rejects_mutation() {
    let mut p = Particle::default();
    p.rotation = ParticleRotation::AlignToDirection { offset: 100 };
    assert!(!p.try_rotate(SCALE));
    assert!(!p.try_add_angular_velocity(SCALE));
    assert_eq!(p.rotation, ParticleRotation::AlignToDirection { offset: 100 });
}

#[test]
fn free_rotation_accumulates() {
    let mut p = Particle::default();
    p.rotation = ParticleRotation::FreeRotation { rotation: 0, angular_velocity: 0 };
    assert!(p.try_rotate(1000));
    assert!(p.try_rotate(500));
    assert_eq!(
        p.rotation,
        ParticleRotation::FreeRotation { rotation: 1500, angular_velocity: 0 },
    );
}

#[test]
fn gravity_accelerates_velocity() {
    let g = ParticleGravity(Vec3 { x: 0, y: -9_810_000, z: 0 });
    let mut p = Particle::default();
    g.apply(&mut p, SCALE / 2);
    assert_eq!(p.velocity, Vec3 { x: 0, y: -4_905_000, z: 0 });
}

#[test]
fn speed_cap_rescales_velocity() {
    let cap = MaxParticleSpeed(2 * SCALE);
    let mut p = Particle::default();
    p.velocity = Vec3 { x: 3 * SCALE, y: 0, z: 0 };
    cap.apply(&mut p);
    assert_eq!(p.velocity, Vec3 { x: 2 * SCALE, y: 0, z: 0 });
    // Already under the cap: untouched.
    cap.apply(&mut p);
    assert_eq!(p.velocity, Vec3 { x: 2 * SCALE, y: 0, z: 0 });
}

#[test]
fn alive_time_ratio_is_exact() {
    let mut p = Particle::default();
    p.start_lifetime = 2 * SCALE;
    p.lifetime = SCALE;
    assert_eq!(p.alive_time(), SCALE);
    assert_eq!(p.alive_time_ratio(), SCALE / 2);
}

fn demo_effect(seed: u64) -> ParticleEffect {
    let emitter = ParticleEmitter {
        duration: EmitterDuration::Infinite,
        shape: EmitterShape {
            shape: Shape::Sphere(Sphere { radius: SCALE, hemisphere: false }),
            thickness: SCALE,
            direction_params: EmitterDirectionParams::default(),
            mode: EmissionMode::Random,
        },
        rate: 20 * SCALE as u64,
        bursts: vec![Burst { time: 0, count: RangeOrFixed::Fixed(10) }],
        current_delta_time: 0,
        last_emitted_delta_time: 0,
        transform: Transform::identity(),
    };
    let params = ParticleParams {
        start_lifetime: RangeOrFixed::Range { min: SCALE, max: 3 * SCALE },
        start_size: RangeOrFixed::Fixed(SCALE),
        rotation: RotationMode::FreeRotation {
            start_rotation: RangeOrFixed::Fixed(0),
            start_angular_velocity: RangeOrFixed::Range { min: -SCALE, max: SCALE },
        },
        start_speed: RangeOrFixed::Range { min: 0, max: 2 * SCALE },
        start_color: RangeOrFixed::Fixed(Rgba::white()),
    };
    let modifiers = vec![
        Modifier::Gravity(ParticleGravity(Vec3 { x: 0, y: -9_810_000, z: 0 })),
        Modifier::MaxSpeed(MaxParticleSpeed(10 * SCALE)),
        Modifier::MaxCount(MaxParticleCount(40)),
    ];
    ParticleEffect::new(
        ParticleSystem::new(),
        emitter,
        params,
        ParticleRng::from_seed(seed),
        modifiers,
        Transform::identity(),
    )
}

#[test]
fn tick_keeps_population_alive_and_capped() {
    let mut effect = demo_effect(42);
    for _ in 0..20 {
        effect.tick(SCALE / 10);
        assert!(effect.system.len() <= 40);
        for p in effect.system.particles().iter() {
            assert!(p.lifetime > 0);
            assert!(p.lifetime <= p.start_lifetime);
        }
    }
}

#[test]
fn identical_seeds_replay_identical_runs() {
    // Two effects with the same configuration and seed stay bit-identical
    // through an arbitrary tick sequence.
    let mut a = demo_effect(1234);
    let mut b = demo_effect(1234);
    for step in 0..15 {
        let dt = SCALE / 10 + (step % 3) * (SCALE / 20);
        a.tick(dt);
        b.tick(dt);
        assert_eq!(a.system.len(), b.system.len());
        assert_eq!(a.system.particles(), b.system.particles());
    }
}

#[test]
fn different_seeds_diverge() {
    let mut a = demo_effect(1);
    let mut b = demo_effect(2);
    for _ in 0..5 {
        a.tick(SCALE / 10);
        b.tick(SCALE / 10);
    }
    assert_ne!(a.system.particles(), b.system.particles());
}

#[test]
fn extract_produces_one_quad_per_particle() {
    let mut effect = demo_effect(7);
    effect.tick(SCALE / 10);
    let n = effect.system.len();
    assert!(n > 0);
    let mut rng = ParticleRng::from_seed(0);
    let quads = extract(
        &effect.system,
        &Transform::identity(),
        &Transform::identity(),
        &ParticleMaterial::Image(1),
        &ParticleRenderMode::billboard(BillBoardAlignment::View),
        &mut rng,
    )
    .unwrap();
    assert_eq!(quads.len(), n);
    for (q, p) in quads.iter().zip(effect.system.particles().iter()) {
        assert_eq!(q.size, p.size);
        assert_eq!(q.color, p.color);
        assert_eq!(q.yaw, 0);
        assert_eq!(q.uv, UvRect { min_x: 0, min_y: 0, max_x: SCALE, max_y: SCALE });
    }
}

#[test]
fn extract_rejects_bad_sheet() {
    let effect = demo_effect(7);
    let mut rng = ParticleRng::from_seed(0);
    let sheet = ParticleMaterial::TextureSheet(ParticleTextureSheet {
        texture_atlas: TextureAtlas { textures: vec![] },
        mode: TextureSheetMode::RandomIndex,
    });
    let r = extract(
        &effect.system,
        &Transform::identity(),
        &Transform::identity(),
        &sheet,
        &ParticleRenderMode::vertical(),
        &mut rng,
    );
    assert!(r.is_err());
}

fn four_cell_atlas() -> TextureAtlas {
    let mut textures = Vec::new();
    for i in 0..4 {
        textures.push(UvRect { min_x: i * SCALE / 4, min_y: 0, max_x: (i + 1) * SCALE / 4, max_y: SCALE });
    }
    TextureAtlas { textures }
}

#[test]
fn texture_sheet_fixed_index_picks_cell() {
    let atlas = four_cell_atlas();
    let mode = TextureSheetMode::FixedIndex(2);
    let mut rng = ParticleRng::from_seed(0);
    let p = Particle::default();
    let r = mode.rect(&atlas, &p, &mut rng);
    assert_eq!(r, atlas.textures[2]);
}

#[test]
fn texture_sheet_animates_over_lifetime() {
    let atlas = four_cell_atlas();
    let anim = TextureSheetAnimation {
        start_index: 0,
        looping_mode: TextureSheetLoopingMode::Still,
        ratio: SCALE,
    };
    let mode = TextureSheetMode::AnimateOverLifetime(anim);
    let mut rng = ParticleRng::from_seed(0);
    let mut p = Particle::default();
    p.start_lifetime = 2 * SCALE;
    // Half lived: cell 4 * 0.5 = 2.
    p.lifetime = SCALE;
    assert_eq!(mode.rect(&atlas, &p, &mut rng), atlas.textures[2]);
    // Fully lived: the index clamps to the last cell.
    p.lifetime = 0;
    assert_eq!(mode.rect(&atlas, &p, &mut rng), atlas.textures[3]);
}

#[test]
fn compute_aabb_bounds_all_translations() {
    let mut store = ParticleSystem::new();
    let t = Transform::identity();
    assert!(store.compute_aabb().is_none());
    for (i, x) in [-3i64, 5, 2].iter().enumerate() {
        let mut p = particle_with_lifetime(SCALE, i as i64);
        p.translation = Vec3 { x: *x * SCALE, y: i as i64 * SCALE, z: 0 };
        store.push(p, &t);
    }
    let ab = store.compute_aabb().unwrap();
    assert_eq!(ab.min.x, -3 * SCALE);
    assert_eq!(ab.max.x, 5 * SCALE);
    assert_eq!(ab.min.y, 0);
    assert_eq!(ab.max.y, 2 * SCALE);
}

#[test]
fn texture_sheet_loop_wraps_over_all_cells() {
    // A wrapping animation revisits every cell, including the last one,
    // before starting over.
    let atlas = four_cell_atlas();
    let anim = TextureSheetAnimation {
        start_index: 0,
        looping_mode: TextureSheetLoopingMode::Loop,
        ratio: 2 * SCALE,
    };
    let mode = TextureSheetMode::AnimateOverLifetime(anim);
    let mut rng = ParticleRng::from_seed(0);
    let mut p = Particle::default();
    p.start_lifetime = 8 * SCALE;
    // Three quarters through a double-rate animation: raw cell 6 wraps to 2.
    p.lifetime = 2 * SCALE;
    assert_eq!(mode.rect(&atlas, &p, &mut rng), atlas.textures[2]);
    // At forty percent lived the double-rate animation shows the last
    // cell (raw cell 3) without wrapping yet.
    p.lifetime = 24 * SCALE / 5;
    assert_eq!(mode.rect(&atlas, &p, &mut rng), atlas.textures[3]);
}
