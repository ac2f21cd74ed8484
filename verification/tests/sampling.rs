//! Distribution, gradient and shape-sampling behavior.

use particle_sim::{
    ColorGradient, EmitterDirectionMode, ParticleRng, RangeOrFixed, Rgba, Sphere, Cone, Vec3,
    SCALE,
};

#[test]
fn fixed_sample_returns_value() {
    let mut rng = ParticleRng::from_seed(7);
    let d: RangeOrFixed<i64> = RangeOrFixed::Fixed(42);
    for _ in 0..10 {
        assert_eq!(d.evaluate(&mut rng), 42);
    }
}

#[test]
fn fixed_sample_consumes_no_draws() {
    // Two generators from the same seed; one evaluates a Fixed distribution
    // first. If Fixed consumed randomness, the next draws would differ.
    let mut a = ParticleRng::from_seed(99);
    let mut b = ParticleRng::from_seed(99);
    let d: RangeOrFixed<i64> = RangeOrFixed::Fixed(-5);
    assert_eq!(d.evaluate(&mut a), -5);
    for _ in 0..8 {
        assert_eq!(a.next_inclusive_i64(0, 1_000_000), b.next_inclusive_i64(0, 1_000_000));
    }
}

#[test]
fn range_with_equal_bounds_returns_min() {
    let mut rng = ParticleRng::from_seed(1);
    let d: RangeOrFixed<i64> = RangeOrFixed::Range { min: 7, max: 7 };
    for _ in 0..10 {
        assert_eq!(d.evaluate(&mut rng), 7);
    }
}

#[test]
fn range_sample_stays_inside_bounds() {
    let mut rng = ParticleRng::from_seed(3);
    let d: RangeOrFixed<i64> = RangeOrFixed::Range { min: -10, max: 10 };
    for _ in 0..100 {
        let v = d.evaluate(&mut rng);
        assert!((-10..=10).contains(&v));
    }
}

#[test]
fn hemisphere_samples_stay_in_upper_half_ball() {
    // 1000 samples of a thickness-1 hemisphere of radius 5: every position
    // has y >= 0 and length at most 5 plus the truncation slack.
    let mut rng = ParticleRng::from_seed(2024);
    let sphere = Sphere { radius: 5 * SCALE, hemisphere: true };
    let bound: i128 = (5 * SCALE + 5 * SCALE / 1000 + 1) as i128;
    for _ in 0..1000 {
        let e = sphere.emit_random_particle(&mut rng, SCALE, EmitterDirectionMode::Automatic);
        assert!(e.position.y >= 0);
        let n = (e.position.x as i128) * (e.position.x as i128)
            + (e.position.y as i128) * (e.position.y as i128)
            + (e.position.z as i128) * (e.position.z as i128);
        assert!(n <= bound * bound);
    }
}

#[test]
fn sphere_thickness_zero_emits_on_surface() {
    // With thickness 0 the sampled radius is exactly the sphere radius, so
    // positions sit near the surface (up to normalization slack).
    let mut rng = ParticleRng::from_seed(5);
    let sphere = Sphere { radius: 2 * SCALE, hemisphere: false };
    for _ in 0..200 {
        let e = sphere.emit_random_particle(&mut rng, 0, EmitterDirectionMode::Automatic);
        let n = (e.position.x as i128) * (e.position.x as i128)
            + (e.position.y as i128) * (e.position.y as i128)
            + (e.position.z as i128) * (e.position.z as i128);
        // No sample collapses to the center.
        assert!(n > (SCALE as i128) * (SCALE as i128));
    }
}

#[test]
fn cone_directions_have_unit_l1_norm() {
    let mut rng = ParticleRng::from_seed(11);
    let cone = Cone { angle: SCALE / 2 };
    for _ in 0..200 {
        let e = cone.emit_random_particle(&mut rng, SCALE, EmitterDirectionMode::Automatic);
        assert_eq!(e.position, Vec3 { x: 0, y: 0, z: 0 });
        assert_eq!(e.direction.x.abs() + e.direction.y + e.direction.z.abs(), SCALE);
        assert!(e.direction.y >= SCALE / 2);
    }
}

#[test]
fn fixed_direction_mode_is_kept() {
    let mut rng = ParticleRng::from_seed(13);
    let sphere = Sphere { radius: SCALE, hemisphere: false };
    let dir = Vec3 { x: 0, y: 0, z: SCALE };
    let e = sphere.emit_random_particle(&mut rng, SCALE, EmitterDirectionMode::Fixed(dir));
    assert_eq!(e.direction, dir);
}

#[test]
fn two_color_gradient_interpolates_linearly() {
    let black = Rgba { r: 0, g: 0, b: 0, a: SCALE };
    let white = Rgba::white();
    let g = ColorGradient::two_color(black, white);
    assert_eq!(g.evaluate(0), black);
    assert_eq!(g.evaluate(SCALE), white);
    let mid = g.evaluate(SCALE / 2);
    assert_eq!(mid.r, SCALE / 2);
    assert_eq!(mid.g, SCALE / 2);
    assert_eq!(mid.b, SCALE / 2);
    assert_eq!(mid.a, SCALE);
}

#[test]
fn gradient_clamps_outside_positions() {
    let red = Rgba { r: SCALE, g: 0, b: 0, a: SCALE };
    let blue = Rgba { r: 0, g: 0, b: SCALE, a: SCALE };
    let g = ColorGradient::two_color(red, blue);
    assert_eq!(g.evaluate(-SCALE), red);
    assert_eq!(g.evaluate(3 * SCALE), blue);
}

#[test]
fn gradient_add_point_replaces_same_position() {
    let g = ColorGradient::empty()
        .add_point(0, Rgba::white())
        .add_point(SCALE, Rgba::none())
        .add_point(SCALE, Rgba::white());
    assert_eq!(g.len(), 2);
    assert_eq!(g.evaluate(SCALE), Rgba::white());
}

#[test]
fn sample_color_mixes_channels() {
    let a = Rgba { r: 0, g: SCALE, b: 0, a: SCALE };
    let b = Rgba { r: SCALE, g: 0, b: 0, a: SCALE };
    let mixed = ColorGradient::sample_color(a, b, SCALE / 4);
    assert_eq!(mixed.r, SCALE / 4);
    assert_eq!(mixed.g, SCALE - SCALE / 4);
    assert_eq!(mixed.b, 0);
}

#[test]
fn color_range_draws_between_endpoints() {
    let mut rng = ParticleRng::from_seed(17);
    let a = Rgba { r: 0, g: 0, b: 0, a: 0 };
    let b = Rgba::white();
    let d: RangeOrFixed<Rgba> = RangeOrFixed::Range { min: a, max: b };
    for _ in 0..50 {
        let c = d.evaluate(&mut rng);
        assert!(c.r >= 0 && c.r <= SCALE);
        // All channels share the one scalar draw.
        assert_eq!(c.r, c.g);
        assert_eq!(c.g, c.b);
        assert_eq!(c.b, c.a);
    }
}
