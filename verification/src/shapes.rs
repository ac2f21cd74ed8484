//! Emission shapes: volumes that turn random draws (or spread indices)
//! into a position and an outward direction.

use vstd::prelude::*;

use crate::fixed::{
    abs_int, cos_spec, fp_add, fp_clamp, fp_cos, fp_mul, fp_mul_exact, fp_ok, fp_sin,
    lemma_mul_le, sin_spec, tdiv, SCALE, TAU_FP,
};
use crate::rng::ParticleRng;
use crate::spread::{spread_wf, EmissionSpread};
use crate::vec3::{
    norm_sq_int, normalize_spec, vec3_ok, vec3_scale_spec, vec3_sub_spec, Vec3, UNIT_MAX, UNIT_MIN,
};

verus! {

/// How emitted particles get their direction.
#[derive(Clone, Copy, Debug, PartialEq, Eq, Structural)]
pub enum EmitterDirectionMode {
    /// The shape decides (usually outward from its center).
    Automatic,
    /// Every particle gets this direction.
    Fixed(Vec3),
}

/// One emission sample: where a particle starts and which way it points.
#[derive(Clone, Copy, Debug, PartialEq, Eq, Structural)]
pub struct EmittedParticle {
    /// Starting position, in emitter-local coordinates.
    pub position: Vec3,
    /// Starting direction.
    pub direction: Vec3,
}

/// Both halves of a sample are in range.
pub open spec fn emitted_wf(e: EmittedParticle) -> bool {
    vec3_ok(e.position) && vec3_ok(e.direction)
}

/// A `Fixed` direction mode is copied into the sample verbatim.
pub open spec fn dir_mode_kept(mode: EmitterDirectionMode, e: EmittedParticle) -> bool {
    mode matches EmitterDirectionMode::Fixed(d) ==> e.direction == d
}

/// A direction mode is well formed when a fixed direction is in range.
pub open spec fn dir_mode_wf(mode: EmitterDirectionMode) -> bool {
    mode matches EmitterDirectionMode::Fixed(d) ==> vec3_ok(d)
}

/// A thickness is a fraction of the volume.
pub open spec fn thickness_wf(t: i64) -> bool {
    0 <= t <= SCALE
}

/// Upper bound on the squared-length slack when a vector of length at most
/// `m` is scaled by `s / SCALE` with truncation.
pub open spec fn scaled_bound(s: int, m: int) -> int {
    tdiv(s * m, SCALE as int) + 1
}

/// Lower bound on the squared length of a near-unit vector scaled by
/// `s / SCALE` with truncation: `s` shrunk by the worst-case slack,
/// squared (zero once the slack swallows `s`).
pub open spec fn shell_bound(s: int) -> int {
    let l = tdiv(s * (UNIT_MIN as int), SCALE as int) - 6;
    if l > 0 {
        l * l
    } else {
        0
    }
}

impl Default for EmittedParticle {
    /// A sample at the origin pointing up.
    fn default() -> (e: EmittedParticle)
        ensures
            e.position == (Vec3 { x: 0, y: 0, z: 0 }),
            e.direction == (Vec3 { x: 0, y: SCALE, z: 0 }),
            emitted_wf(e),
    {
        EmittedParticle { position: Vec3::zero(), direction: Vec3::unit_y() }
    }
}

/// Emits on a sphere (or upper half-sphere) around the origin.
#[derive(Clone, Copy, Debug, PartialEq, Eq, Structural)]
pub struct Sphere {
    /// Sphere radius.
    pub radius: i64,
    /// Fold emission into the upper (`y >= 0`) half.
    pub hemisphere: bool,
}

/// Emits on a circle in the XZ plane around the origin.
#[derive(Clone, Copy, Debug, PartialEq, Eq, Structural)]
pub struct Circle {
    /// Circle radius.
    pub radius: i64,
}

/// Emits at the apex of a cone opening along +Y.
#[derive(Clone, Copy, Debug, PartialEq, Eq, Structural)]
pub struct Cone {
    /// Cone opening, `0` (a beam) to `SCALE` (a right angle).
    pub angle: i64,
}

/// Emits inside a box around the origin, biased to one of its faces.
#[derive(Clone, Copy, Debug, PartialEq, Eq, Structural)]
pub struct Box {
    /// Half extents along each axis.
    pub extents: Vec3,
}

/// Emits on a line segment along the local Z axis.
#[derive(Clone, Copy, Debug, PartialEq, Eq, Structural)]
pub struct Edge {
    /// Total segment length.
    pub length: i64,
}

/// Emits at the vertices of a convex mesh, pulled toward its center.
#[derive(Clone, Debug, PartialEq, Eq)]
pub struct ConvexMesh {
    /// The mesh vertices.
    pub vertices: Vec<Vec3>,
    /// The point directions radiate from.
    pub nominal_center: Vec3,
}

/// The available emission shapes.
#[derive(Clone, Debug)]
pub enum Shape {
    /// Sphere or hemisphere surface/volume.
    Sphere(Sphere),
    /// Circle in the XZ plane.
    Circle(Circle),
    /// Cone apex with outward directions.
    Cone(Cone),
    /// Box volume biased to a face.
    Box(Box),
    /// Line segment along Z.
    Edge(Edge),
    /// Convex mesh vertices.
    ConvexMesh(ConvexMesh),
}

/// Validity of each shape's parameters.
pub open spec fn shape_wf(s: Shape) -> bool {
    match s {
        Shape::Sphere(v) => 0 <= v.radius && fp_ok(v.radius as int),
        Shape::Circle(v) => 0 <= v.radius && fp_ok(v.radius as int),
        Shape::Cone(v) => fp_ok(v.angle as int),
        Shape::Box(v) => vec3_ok(v.extents) && v.extents.x >= 0 && v.extents.y >= 0
            && v.extents.z >= 0,
        Shape::Edge(v) => 0 <= v.length && fp_ok(v.length as int),
        Shape::ConvexMesh(v) => vec3_ok(v.nominal_center) && (forall|i: int|
            0 <= i < v.vertices@.len() ==> vec3_ok(#[trigger] v.vertices@[i])),
    }
}

/// The scaled radius where emission starts: `radius * (1 - thickness)`,
/// clamped to the valid fraction.
pub open spec fn inner_radius_spec(radius: int, thickness: int) -> int {
    let ratio = if SCALE - thickness < 0 {
        0int
    } else if SCALE - thickness > SCALE {
        SCALE as int
    } else {
        SCALE - thickness
    };
    fp_clamp(fp_mul_exact(radius, ratio))
}

/// The inner emission radius: `radius` at thickness 0, `0` at thickness
/// `SCALE`.
pub fn inner_radius(radius: i64, thickness: i64) -> (r: i64)
    requires
        0 <= radius,
        fp_ok(radius as int),
        thickness_wf(thickness),
    ensures
        r as int == inner_radius_spec(radius as int, thickness as int),
        0 <= r <= radius,
        thickness >= SCALE ==> r == 0,
{
    let ratio = if SCALE - thickness < 0 {
        0
    } else if SCALE - thickness > SCALE {
        SCALE
    } else {
        SCALE - thickness
    };
    let r = fp_mul(radius, ratio);
    proof {
        lemma_mul_le(radius as int, ratio as int, radius as int, SCALE as int);
        vstd::arithmetic::div_mod::lemma_div_is_ordered(
            (radius as int) * (ratio as int),
            (radius as int) * (SCALE as int),
            SCALE as int,
        );
        vstd::arithmetic::div_mod::lemma_div_multiples_vanish(radius as int, SCALE as int);
        if ratio > 0 {
            vstd::arithmetic::div_mod::lemma_div_pos_is_pos(
                (radius as int) * (ratio as int),
                SCALE as int,
            );
        } else {
            assert((radius as int) * 0 == 0) by (nonlinear_arith);
        }
    }
    r
}

/// A fraction clamped into `[0, SCALE]`.
pub open spec fn clamp01_spec(d: int) -> int {
    if d < 0 {
        0
    } else if d > SCALE {
        SCALE as int
    } else {
        d
    }
}

/// The radius a spread index places inside the emitting shell.
pub open spec fn radius_spread_spec(radius: int, thickness: int, spread_amount: int) -> int {
    crate::sample::lerp_exact(
        inner_radius_spec(radius, thickness),
        radius,
        clamp01_spec(spread_amount),
    )
}

/// The coordinate a spread index places on a symmetric segment: the upper
/// half of the index range maps to positive coordinates, the lower half to
/// negative ones.
pub open spec fn line_spread_spec(half_extent: int, thickness: int, spread_amount: int) -> int {
    if spread_amount > SCALE / 2 {
        radius_spread_spec(half_extent, thickness, 2 * spread_amount - SCALE)
    } else {
        -radius_spread_spec(half_extent, thickness, -2 * (spread_amount - SCALE) - SCALE)
    }
}

/// A radius inside the emitting shell, placed by a spread index:
/// interpolates from the inner radius to `radius` by `spread_amount`.
pub fn radius_spread(radius: i64, thickness: i64, spread_amount: i64) -> (r: i64)
    requires
        0 <= radius,
        fp_ok(radius as int),
        thickness_wf(thickness),
        -3 * SCALE <= spread_amount <= 3 * SCALE,
    ensures
        0 <= r <= radius,
        r as int == radius_spread_spec(radius as int, thickness as int, spread_amount as int),
{
    let lo = inner_radius(radius, thickness);
    let d = if spread_amount < 0 {
        0
    } else if spread_amount > SCALE {
        SCALE
    } else {
        spread_amount
    };
    crate::sample::lerp(lo, radius, d)
}

/// A radius drawn uniformly inside the emitting shell.
pub fn random_in_radius(radius: i64, thickness: i64, rng: &mut ParticleRng) -> (r: i64)
    requires
        0 <= radius,
        fp_ok(radius as int),
        thickness_wf(thickness),
    ensures
        inner_radius_spec(radius as int, thickness as int) <= r <= radius,
        0 <= r <= radius,
{
    let lo = inner_radius(radius, thickness);
    rng.next_inclusive_i64(lo, radius)
}

/// A coordinate drawn inside the emitting part of a symmetric segment:
/// a magnitude inside the shell, with a random sign.
pub fn random_in_line(half_extent: i64, thickness: i64, rng: &mut ParticleRng) -> (r: i64)
    requires
        0 <= half_extent,
        fp_ok(half_extent as int),
        thickness_wf(thickness),
    ensures
        -half_extent <= r <= half_extent,
        inner_radius_spec(half_extent as int, thickness as int) <= abs_int(r as int),
{
    let point = random_in_radius(half_extent, thickness, rng);
    if rng.coin() {
        point
    } else {
        -point
    }
}

/// A coordinate placed on a symmetric segment by a spread index: the upper
/// half of the index range maps to positive coordinates, the lower half to
/// negative ones.
pub fn line_spread(half_extent: i64, thickness: i64, spread_amount: i64) -> (r: i64)
    requires
        0 <= half_extent,
        fp_ok(half_extent as int),
        thickness_wf(thickness),
        -SCALE <= spread_amount <= 2 * SCALE,
    ensures
        -half_extent <= r <= half_extent,
        r as int == line_spread_spec(half_extent as int, thickness as int, spread_amount as int),
{
    if spread_amount > SCALE / 2 {
        radius_spread(half_extent, thickness, 2 * spread_amount - SCALE)
    } else {
        -radius_spread(half_extent, thickness, -2 * (spread_amount - SCALE) - SCALE)
    }
}

/// Truncated fixed-point scaling cannot grow magnitudes: each scaled
/// component obeys `|r| * SCALE <= |v| * s` for a non-negative factor `s`.
proof fn lemma_fp_mul_abs(a: int, s: int)
    requires
        0 <= s,
    ensures
        abs_int(fp_clamp(fp_mul_exact(a, s))) * SCALE <= abs_int(a) * s,
        a >= 0 ==> fp_clamp(fp_mul_exact(a, s)) >= 0,
{
    let p = a * s;
    let aa = abs_int(a);
    let ap = abs_int(p);
    assert(aa * s == ap && (a >= 0 ==> p >= 0)) by (nonlinear_arith)
        requires
            p == a * s,
            0 <= s,
            aa == a || aa == -a,
            0 <= aa,
            ap == p || ap == -p,
            0 <= ap,
    ;
    vstd::arithmetic::div_mod::lemma_fundamental_div_mod(abs_int(p), SCALE as int);
    vstd::arithmetic::div_mod::lemma_remainder_lower(abs_int(p), SCALE as int);
    vstd::arithmetic::div_mod::lemma_div_pos_is_pos(abs_int(p), SCALE as int);
    let q = abs_int(p) / (SCALE as int);
    assert(q * SCALE <= abs_int(p));
    assert(abs_int(tdiv(p, SCALE as int)) == q);
    assert(abs_int(fp_clamp(tdiv(p, SCALE as int))) <= q);
    assert(abs_int(fp_clamp(tdiv(p, SCALE as int))) * SCALE <= q * SCALE) by (nonlinear_arith)
        requires
            abs_int(fp_clamp(tdiv(p, SCALE as int))) <= q,
            SCALE == 1_000_000i64,
    ;
}

/// Squares preserve scaled absolute-value bounds.
proof fn lemma_abs_sq_le(r: int, c: int, v: int, d: int)
    requires
        0 <= c,
        0 <= d,
        abs_int(r) * c <= abs_int(v) * d,
    ensures
        (r * r) * (c * c) <= (v * v) * (d * d),
{
    let ar = abs_int(r);
    let av = abs_int(v);
    assert((r * r) * (c * c) <= (v * v) * (d * d)) by (nonlinear_arith)
        requires
            0 <= c,
            0 <= d,
            ar * c <= av * d,
            ar == r || ar == -r,
            av == v || av == -v,
            0 <= ar,
            0 <= av,
    ;
}

/// Scaling a vector of squared length at most `m * m` by `s / SCALE`
/// (componentwise, truncating, clamping) keeps the squared length below
/// `scaled_bound(s, m)` squared.
proof fn lemma_scale_norm(u: Vec3, p: Vec3, s: int, m: int)
    requires
        0 <= s,
        0 <= m,
        norm_sq_int(u) <= m * m,
        p.x as int == fp_clamp(fp_mul_exact(u.x as int, s)),
        p.y as int == fp_clamp(fp_mul_exact(u.y as int, s)),
        p.z as int == fp_clamp(fp_mul_exact(u.z as int, s)),
    ensures
        norm_sq_int(p) <= scaled_bound(s, m) * scaled_bound(s, m),
{
    lemma_fp_mul_abs(u.x as int, s);
    lemma_fp_mul_abs(u.y as int, s);
    lemma_fp_mul_abs(u.z as int, s);
    lemma_abs_sq_le(p.x as int, SCALE as int, u.x as int, s);
    lemma_abs_sq_le(p.y as int, SCALE as int, u.y as int, s);
    lemma_abs_sq_le(p.z as int, SCALE as int, u.z as int, s);
    let ss = (SCALE as int) * (SCALE as int);
    let s2 = s * s;
    let px2 = (p.x as int) * (p.x as int);
    let py2 = (p.y as int) * (p.y as int);
    let pz2 = (p.z as int) * (p.z as int);
    let ux2 = (u.x as int) * (u.x as int);
    let uy2 = (u.y as int) * (u.y as int);
    let uz2 = (u.z as int) * (u.z as int);
    // Sum the componentwise bounds and factor out the common squares.
    assert((px2 + py2 + pz2) * ss == px2 * ss + py2 * ss + pz2 * ss) by (nonlinear_arith);
    assert(ux2 * s2 + uy2 * s2 + uz2 * s2 == (ux2 + uy2 + uz2) * s2) by (nonlinear_arith);
    assert(0 <= ux2 + uy2 + uz2 && 0 <= s2) by (nonlinear_arith)
        requires
            ux2 == (u.x as int) * (u.x as int),
            uy2 == (u.y as int) * (u.y as int),
            uz2 == (u.z as int) * (u.z as int),
            s2 == s * s,
    ;
    lemma_mul_le(ux2 + uy2 + uz2, s2, m * m, s2);
    assert(norm_sq_int(p) * ss <= (m * m) * s2);
    // Relate the right side to the rounded-up bound.
    let b = scaled_bound(s, m);
    vstd::arithmetic::div_mod::lemma_fundamental_div_mod(s * m, SCALE as int);
    vstd::arithmetic::div_mod::lemma_remainder_upper(s * m, SCALE as int);
    vstd::arithmetic::div_mod::lemma_div_pos_is_pos(s * m, SCALE as int);
    assert(s * m >= 0) by (nonlinear_arith)
        requires
            0 <= s,
            0 <= m,
    ;
    assert(s * m < b * SCALE);
    assert((m * m) * s2 == (s * m) * (s * m)) by (nonlinear_arith)
        requires
            s2 == s * s,
    ;
    assert((b * b) * ss == (b * SCALE) * (b * SCALE)) by (nonlinear_arith)
        requires
            ss == (SCALE as int) * (SCALE as int),
    ;
    assert((s * m) * (s * m) < (b * SCALE) * (b * SCALE)) by (nonlinear_arith)
        requires
            0 <= s * m,
            s * m < b * SCALE,
    ;
    assert(norm_sq_int(p) <= b * b) by (nonlinear_arith)
        requires
            norm_sq_int(p) * ss < (b * b) * ss,
            ss > 0,
    ;
}

/// A smaller scaling factor gives a smaller (squared) bound.
proof fn lemma_scaled_bound_mono(s1: int, s2: int, m: int)
    requires
        0 <= s1 <= s2,
        0 <= m,
    ensures
        scaled_bound(s1, m) * scaled_bound(s1, m) <= scaled_bound(s2, m) * scaled_bound(s2, m),
{
    lemma_mul_le(s1, m, s2, m);
    vstd::arithmetic::div_mod::lemma_div_is_ordered(s1 * m, s2 * m, SCALE as int);
    assert(s1 * m >= 0) by (nonlinear_arith)
        requires
            0 <= s1,
            0 <= m,
    ;
    vstd::arithmetic::div_mod::lemma_div_pos_is_pos(s1 * m, SCALE as int);
    let b1 = scaled_bound(s1, m);
    let b2 = scaled_bound(s2, m);
    assert(b1 * b1 <= b2 * b2) by (nonlinear_arith)
        requires
            0 < b1 <= b2,
    ;
}

/// Fixed-point products commute, so a bound through either factor applies.
proof fn lemma_fp_mul_swap(a: int, b: int)
    ensures
        fp_mul_exact(a, b) == fp_mul_exact(b, a),
{
    assert(a * b == b * a) by (nonlinear_arith);
}

impl Sphere {
    /// A random sample: a point in the emitting shell, directed outward
    /// (unless overridden); a hemisphere folds the point upward.
    pub fn emit_random_particle(
        &self,
        rng: &mut ParticleRng,
        thickness: i64,
        direction_mode: EmitterDirectionMode,
    ) -> (e: EmittedParticle)
        requires
            0 <= self.radius,
            fp_ok(self.radius as int),
            thickness_wf(thickness),
            dir_mode_wf(direction_mode),
        ensures
            emitted_wf(e),
            dir_mode_kept(direction_mode, e),
            self.hemisphere ==> e.position.y >= 0,
            norm_sq_int(e.position) <= scaled_bound(self.radius as int, UNIT_MAX as int)
                * scaled_bound(self.radius as int, UNIT_MAX as int),
            norm_sq_int(e.position) >= shell_bound(
                inner_radius_spec(self.radius as int, thickness as int),
            ),
            direction_mode is Automatic ==> e.direction == normalize_spec(
                e.position,
                Vec3 { x: 0, y: SCALE, z: 0 },
            ),
    {
        let range = random_in_radius(self.radius, thickness, rng);
        let u0 = random_unit(rng);
        let u = if self.hemisphere {
            Vec3 {
                x: u0.x,
                y: if u0.y < 0 {
                    -u0.y
                } else {
                    u0.y
                },
                z: u0.z,
            }
        } else {
            u0
        };
        proof {
            assert((u.y as int) * (u.y as int) == (u0.y as int) * (u0.y as int))
                by (nonlinear_arith)
                requires
                    u.y == u0.y || u.y as int == -(u0.y as int),
            ;
        }
        let position = u.scale(range);
        proof {
            lemma_scale_norm(u, position, range as int, UNIT_MAX as int);
            lemma_scaled_bound_mono(range as int, self.radius as int, UNIT_MAX as int);
            if self.hemisphere {
                lemma_fp_mul_abs(u.y as int, range as int);
            }
            lemma_scale_norm_lower(u, position, range as int);
            lemma_shell_mono(
                inner_radius_spec(self.radius as int, thickness as int),
                range as int,
            );
        }
        let direction = match direction_mode {
            EmitterDirectionMode::Automatic => position.normalize_or(Vec3::unit_y()),
            EmitterDirectionMode::Fixed(d) => d,
        };
        EmittedParticle { position, direction }
    }
}

impl Circle {
    /// A random sample on the XZ plane, directed outward in that plane.
    pub fn emit_random_particle(
        &self,
        rng: &mut ParticleRng,
        thickness: i64,
        direction_mode: EmitterDirectionMode,
    ) -> (e: EmittedParticle)
        requires
            0 <= self.radius,
            fp_ok(self.radius as int),
            thickness_wf(thickness),
            dir_mode_wf(direction_mode),
        ensures
            emitted_wf(e),
            dir_mode_kept(direction_mode, e),
            e.position.y == 0,
            norm_sq_int(e.position) <= scaled_bound(self.radius as int, UNIT_MAX as int)
                * scaled_bound(self.radius as int, UNIT_MAX as int),
            norm_sq_int(e.position) >= shell_bound(
                inner_radius_spec(self.radius as int, thickness as int),
            ),
            direction_mode is Automatic ==> e.direction == normalize_spec(
                e.position,
                Vec3 { x: 0, y: SCALE, z: 0 },
            ),
    {
        let range = random_in_radius(self.radius, thickness, rng);
        let x = rng.next_inclusive_i64(-SCALE, SCALE);
        let z = rng.next_inclusive_i64(-SCALE, SCALE);
        let v = Vec3 { x, y: 0, z };
        let u = v.normalize_or(Vec3 { x: SCALE, y: 0, z: 0 });
        proof {
            if norm_sq_int(v) >= crate::vec3::NORM_FLOOR * crate::vec3::NORM_FLOOR {
                assert((v.y as int) * SCALE == 0);
                crate::fixed::lemma_isqrt_exists(norm_sq_int(v));
                let n = crate::fixed::isqrt_spec(norm_sq_int(v));
                assert(crate::vec3::NORM_FLOOR * crate::vec3::NORM_FLOOR == 1_000_000int)
                    by (nonlinear_arith);
                assert(n >= 1) by (nonlinear_arith)
                    requires
                        n >= 0,
                        norm_sq_int(v) < (n + 1) * (n + 1),
                        norm_sq_int(v) >= 1_000_000int,
                ;
                vstd::arithmetic::div_mod::lemma_div_basics(n);
                assert(u.y == 0);
            } else {
                assert(norm_sq_int(u) == (SCALE as int) * (SCALE as int)) by (nonlinear_arith)
                    requires
                        u == (Vec3 { x: SCALE, y: 0, z: 0 }),
                        SCALE == 1_000_000i64,
                        norm_sq_int(u) == (u.x as int) * (u.x as int) + (u.y as int) * (u.y as int)
                            + (u.z as int) * (u.z as int),
                ;
            }
        }
        let position = u.scale(range);
        proof {
            lemma_scale_norm(u, position, range as int, UNIT_MAX as int);
            lemma_scaled_bound_mono(range as int, self.radius as int, UNIT_MAX as int);
            assert((0int) * (range as int) == 0) by (nonlinear_arith);
            vstd::arithmetic::div_mod::lemma_div_of0(SCALE as int);
            assert(position.y == 0);
            if norm_sq_int(v) >= crate::vec3::NORM_FLOOR * crate::vec3::NORM_FLOOR {
                assert(abs_int(u.x as int) <= SCALE && abs_int(u.y as int) <= SCALE && abs_int(
                    u.z as int,
                ) <= SCALE);
            }
            lemma_scale_norm_lower(u, position, range as int);
            lemma_shell_mono(
                inner_radius_spec(self.radius as int, thickness as int),
                range as int,
            );
        }
        let direction = match direction_mode {
            EmitterDirectionMode::Automatic => position.normalize_or(Vec3::unit_y()),
            EmitterDirectionMode::Fixed(d) => d,
        };
        EmittedParticle { position, direction }
    }

    /// A spread sample: the angle walks the circle by the spread index; the
    /// radius is either placed by its index or drawn.
    pub fn spread_particle(
        &self,
        spread: &mut EmissionSpread,
        rng: &mut ParticleRng,
        thickness: i64,
        direction_mode: EmitterDirectionMode,
    ) -> (e: EmittedParticle)
        requires
            spread_wf(*old(spread)),
            0 <= self.radius,
            fp_ok(self.radius as int),
            thickness_wf(thickness),
            dir_mode_wf(direction_mode),
        ensures
            spread_wf(*final(spread)),
            *final(spread) == crate::spread::spread_step_spec(*old(spread)),
            emitted_wf(e),
            dir_mode_kept(direction_mode, e),
            e.position.y == 0,
            abs_int(e.position.x as int) <= self.radius,
            abs_int(e.position.z as int) <= self.radius,
            old(spread).spreads[1].uniform && old(spread).spreads[2].uniform ==> ({
                let stepped = crate::spread::spread_step_spec(*old(spread));
                let theta = fp_clamp(
                    fp_mul_exact(TAU_FP as int, stepped.current_index[1] as int),
                );
                let range = radius_spread_spec(
                    self.radius as int,
                    thickness as int,
                    stepped.current_index[2] as int,
                );
                &&& e.position.x as int == fp_clamp(fp_mul_exact(range, cos_spec(theta)))
                &&& e.position.z as int == fp_clamp(fp_mul_exact(range, sin_spec(theta)))
            }),
    {
        let (prev, cur) = spread.update_index();
        let t: i64 = if spread.spreads[1].uniform {
            cur[1]
        } else {
            let lo = if prev[1] < cur[1] {
                prev[1]
            } else {
                cur[1]
            };
            let hi = if prev[1] < cur[1] {
                cur[1]
            } else {
                prev[1]
            };
            rng.next_inclusive_i64(lo, hi)
        };
        let range: i64 = if spread.spreads[2].uniform {
            radius_spread(self.radius, thickness, cur[2])
        } else {
            random_in_radius(self.radius, thickness, rng)
        };
        let theta = fp_mul(TAU_FP, t);
        let c = fp_cos(theta);
        let s = fp_sin(theta);
        let px = fp_mul(range, c);
        let pz = fp_mul(range, s);
        proof {
            lemma_fp_mul_abs(c as int, range as int);
            lemma_fp_mul_abs(s as int, range as int);
            lemma_fp_mul_swap(range as int, c as int);
            lemma_fp_mul_swap(range as int, s as int);
            lemma_mul_le(abs_int(c as int), range as int, SCALE as int, range as int);
            lemma_mul_le(abs_int(s as int), range as int, SCALE as int, range as int);
            assert(abs_int(px as int) <= range && abs_int(pz as int) <= range)
                by (nonlinear_arith)
                requires
                    abs_int(px as int) * SCALE <= (SCALE as int) * (range as int),
                    abs_int(pz as int) * SCALE <= (SCALE as int) * (range as int),
                    SCALE == 1_000_000i64,
            ;
        }
        let position = Vec3 { x: px, y: 0, z: pz };
        let direction = match direction_mode {
            EmitterDirectionMode::Automatic => position.normalize_or(Vec3::unit_y()),
            EmitterDirectionMode::Fixed(d) => d,
        };
        EmittedParticle { position, direction }
    }
}

impl Cone {
    /// A random sample: the apex, with a direction leaning away from +Y by
    /// at most the cone angle; the direction's L1 norm is exactly one.
    pub fn emit_random_particle(
        &self,
        rng: &mut ParticleRng,
        thickness: i64,
        direction_mode: EmitterDirectionMode,
    ) -> (e: EmittedParticle)
        requires
            fp_ok(self.angle as int),
            thickness_wf(thickness),
            dir_mode_wf(direction_mode),
        ensures
            emitted_wf(e),
            dir_mode_kept(direction_mode, e),
            e.position == (Vec3 { x: 0, y: 0, z: 0 }),
            direction_mode is Automatic ==> ({
                let min_y = SCALE - (if self.angle < 0 {
                    0int
                } else if self.angle > SCALE {
                    SCALE as int
                } else {
                    self.angle as int
                });
                &&& abs_int(e.direction.x as int) + e.direction.y + abs_int(e.direction.z as int)
                    == SCALE
                &&& e.direction.y >= min_y
                &&& e.direction.y <= (if min_y + thickness > SCALE {
                    SCALE as int
                } else {
                    min_y + thickness
                })
            }),
    {
        let angle = if self.angle < 0 {
            0
        } else if self.angle > SCALE {
            SCALE
        } else {
            self.angle
        };
        let min_y = SCALE - angle;
        let hi = if min_y + thickness > SCALE {
            SCALE
        } else {
            min_y + thickness
        };
        let y = rng.next_inclusive_i64(min_y, hi);
        let remaining = SCALE - y;
        let x = rng.next_inclusive_i64(-remaining, remaining);
        let remaining2 = remaining - (if x < 0 {
            -x
        } else {
            x
        });
        let z = if rng.coin() {
            remaining2
        } else {
            -remaining2
        };
        let direction = match direction_mode {
            EmitterDirectionMode::Automatic => Vec3 { x, y, z },
            EmitterDirectionMode::Fixed(d) => d,
        };
        EmittedParticle { position: Vec3::zero(), direction }
    }

    /// A spread sample: the direction's tilt and heading walk the cone by
    /// the spread indices; a fixed direction short-circuits.
    pub fn spread_particle(
        &self,
        spread: &mut EmissionSpread,
        rng: &mut ParticleRng,
        thickness: i64,
        direction_mode: EmitterDirectionMode,
    ) -> (e: EmittedParticle)
        requires
            spread_wf(*old(spread)),
            fp_ok(self.angle as int),
            thickness_wf(thickness),
            dir_mode_wf(direction_mode),
        ensures
            spread_wf(*final(spread)),
            emitted_wf(e),
            dir_mode_kept(direction_mode, e),
            e.position == (Vec3 { x: 0, y: 0, z: 0 }),
            direction_mode is Fixed ==> *final(spread) == *old(spread),
            direction_mode is Automatic ==> *final(spread) == crate::spread::spread_step_spec(
                *old(spread),
            ) && 0 <= e.direction.y <= SCALE && abs_int(e.direction.x as int) <= SCALE && abs_int(
                e.direction.z as int,
            ) <= SCALE,
            direction_mode is Automatic ==> ({
                let stepped = crate::spread::spread_step_spec(*old(spread));
                let angle_c = clamp01_spec(self.angle as int);
                let span = fp_clamp(
                    fp_mul_exact(
                        fp_clamp(fp_mul_exact(angle_c, thickness as int)),
                        stepped.current_index[1] as int,
                    ),
                );
                e.direction.y as int == clamp01_spec(fp_clamp(SCALE - angle_c + span))
            }),
            direction_mode is Automatic && old(spread).spreads[2].uniform ==> ({
                let stepped = crate::spread::spread_step_spec(*old(spread));
                let theta = fp_clamp(
                    fp_mul_exact(TAU_FP as int, stepped.current_index[2] as int),
                );
                let range = SCALE - e.direction.y;
                &&& e.direction.x as int == fp_clamp(fp_mul_exact(range as int, cos_spec(theta)))
                &&& e.direction.z as int == fp_clamp(fp_mul_exact(range as int, sin_spec(theta)))
            }),
    {
        if let EmitterDirectionMode::Fixed(direction) = direction_mode {
            return EmittedParticle { position: Vec3::zero(), direction };
        }
        let (prev, cur) = spread.update_index();
        let angle = if self.angle < 0 {
            0
        } else if self.angle > SCALE {
            SCALE
        } else {
            self.angle
        };
        let min_y = SCALE - angle;
        let span = fp_mul(fp_mul(angle, thickness), cur[1]);
        let y_raw = fp_add(min_y, span);
        let y = if y_raw < 0 {
            0
        } else if y_raw > SCALE {
            SCALE
        } else {
            y_raw
        };
        let range = SCALE - y;
        let t: i64 = if spread.spreads[2].uniform {
            cur[2]
        } else {
            let lo = if prev[2] < cur[2] {
                prev[2]
            } else {
                cur[2]
            };
            let hi = if prev[2] < cur[2] {
                cur[2]
            } else {
                prev[2]
            };
            rng.next_inclusive_i64(lo, hi)
        };
        let theta = fp_mul(TAU_FP, t);
        let c = fp_cos(theta);
        let s = fp_sin(theta);
        let dx = fp_mul(range, c);
        let dz = fp_mul(range, s);
        proof {
            lemma_fp_mul_abs(c as int, range as int);
            lemma_fp_mul_abs(s as int, range as int);
            lemma_fp_mul_swap(range as int, c as int);
            lemma_fp_mul_swap(range as int, s as int);
            lemma_mul_le(abs_int(c as int), range as int, SCALE as int, range as int);
            lemma_mul_le(abs_int(s as int), range as int, SCALE as int, range as int);
            assert(abs_int(dx as int) <= range && abs_int(dz as int) <= range)
                by (nonlinear_arith)
                requires
                    abs_int(dx as int) * SCALE <= (SCALE as int) * (range as int),
                    abs_int(dz as int) * SCALE <= (SCALE as int) * (range as int),
                    SCALE == 1_000_000i64,
            ;
        }
        EmittedParticle { position: Vec3::zero(), direction: Vec3 { x: dx, y, z: dz } }
    }
}

/// The outward face normal of a box position: the unit axis of the
/// largest-magnitude component, signed like that component.
pub open spec fn box_dir_spec(p: Vec3) -> Vec3 {
    let ax = abs_int(p.x as int);
    let ay = abs_int(p.y as int);
    let az = abs_int(p.z as int);
    if ax > ay && ax > az {
        if p.x > 0 {
            Vec3 { x: SCALE, y: 0, z: 0 }
        } else {
            Vec3 { x: (-SCALE) as i64, y: 0, z: 0 }
        }
    } else if ay > ax && ay > az {
        if p.y > 0 {
            Vec3 { x: 0, y: SCALE, z: 0 }
        } else {
            Vec3 { x: 0, y: (-SCALE) as i64, z: 0 }
        }
    } else {
        if p.z > 0 {
            Vec3 { x: 0, y: 0, z: SCALE }
        } else {
            Vec3 { x: 0, y: 0, z: (-SCALE) as i64 }
        }
    }
}

impl Box {
    /// The direction a box sample travels: its face normal, unless fixed.
    fn dir(direction_mode: EmitterDirectionMode, position: Vec3) -> (d: Vec3)
        requires
            vec3_ok(position),
            dir_mode_wf(direction_mode),
        ensures
            vec3_ok(d),
            direction_mode is Automatic ==> d == box_dir_spec(position),
            direction_mode matches EmitterDirectionMode::Fixed(f) ==> d == f,
    {
        match direction_mode {
            EmitterDirectionMode::Automatic => {
                let neg_scale: i64 = 0 - SCALE;
                let ax = if position.x < 0 {
                    -position.x
                } else {
                    position.x
                };
                let ay = if position.y < 0 {
                    -position.y
                } else {
                    position.y
                };
                let az = if position.z < 0 {
                    -position.z
                } else {
                    position.z
                };
                if ax > ay && ax > az {
                    if position.x > 0 {
                        Vec3 { x: SCALE, y: 0, z: 0 }
                    } else {
                        Vec3 { x: neg_scale, y: 0, z: 0 }
                    }
                } else if ay > ax && ay > az {
                    if position.y > 0 {
                        Vec3 { x: 0, y: SCALE, z: 0 }
                    } else {
                        Vec3 { x: 0, y: neg_scale, z: 0 }
                    }
                } else {
                    if position.z > 0 {
                        Vec3 { x: 0, y: 0, z: SCALE }
                    } else {
                        Vec3 { x: 0, y: 0, z: neg_scale }
                    }
                }
            },
            EmitterDirectionMode::Fixed(d) => d,
        }
    }

    /// A random sample: a point in the box with one randomly chosen axis
    /// pinned into the emitting shell of its face, directed out of that
    /// face (unless fixed).
    pub fn emit_random_particle(
        &self,
        rng: &mut ParticleRng,
        thickness: i64,
        direction_mode: EmitterDirectionMode,
    ) -> (e: EmittedParticle)
        requires
            vec3_ok(self.extents),
            self.extents.x >= 0,
            self.extents.y >= 0,
            self.extents.z >= 0,
            thickness_wf(thickness),
            dir_mode_wf(direction_mode),
        ensures
            emitted_wf(e),
            dir_mode_kept(direction_mode, e),
            abs_int(e.position.x as int) <= self.extents.x,
            abs_int(e.position.y as int) <= self.extents.y,
            abs_int(e.position.z as int) <= self.extents.z,
            inner_radius_spec(self.extents.x as int, thickness as int) <= abs_int(
                e.position.x as int,
            ) || inner_radius_spec(self.extents.y as int, thickness as int) <= abs_int(
                e.position.y as int,
            ) || inner_radius_spec(self.extents.z as int, thickness as int) <= abs_int(
                e.position.z as int,
            ),
            direction_mode is Automatic ==> e.direction == box_dir_spec(e.position),
    {
        let x0 = rng.next_inclusive_i64(-self.extents.x, self.extents.x);
        let y0 = rng.next_inclusive_i64(-self.extents.y, self.extents.y);
        let z0 = rng.next_inclusive_i64(-self.extents.z, self.extents.z);
        let axis = rng.next_inclusive_u64(0, 2);
        let position = if axis == 0 {
            Vec3 { x: random_in_line(self.extents.x, thickness, rng), y: y0, z: z0 }
        } else if axis == 1 {
            Vec3 { x: x0, y: random_in_line(self.extents.y, thickness, rng), z: z0 }
        } else {
            Vec3 { x: x0, y: y0, z: random_in_line(self.extents.z, thickness, rng) }
        };
        EmittedParticle { position, direction: Box::dir(direction_mode, position) }
    }

    /// A spread sample: each coordinate is placed on its axis by that
    /// axis's spread index, sweeping the whole box.
    pub fn spread_particle(
        &self,
        spread: &mut EmissionSpread,
        direction_mode: EmitterDirectionMode,
    ) -> (e: EmittedParticle)
        requires
            spread_wf(*old(spread)),
            vec3_ok(self.extents),
            self.extents.x >= 0,
            self.extents.y >= 0,
            self.extents.z >= 0,
            dir_mode_wf(direction_mode),
        ensures
            spread_wf(*final(spread)),
            *final(spread) == crate::spread::spread_step_spec(*old(spread)),
            emitted_wf(e),
            dir_mode_kept(direction_mode, e),
            abs_int(e.position.x as int) <= self.extents.x,
            abs_int(e.position.y as int) <= self.extents.y,
            abs_int(e.position.z as int) <= self.extents.z,
            ({
                let stepped = crate::spread::spread_step_spec(*old(spread));
                &&& e.position.x as int == line_spread_spec(
                    self.extents.x as int,
                    SCALE as int,
                    stepped.current_index[0] as int,
                )
                &&& e.position.y as int == line_spread_spec(
                    self.extents.y as int,
                    SCALE as int,
                    stepped.current_index[1] as int,
                )
                &&& e.position.z as int == line_spread_spec(
                    self.extents.z as int,
                    SCALE as int,
                    stepped.current_index[2] as int,
                )
            }),
            direction_mode is Automatic ==> e.direction == box_dir_spec(e.position),
    {
        let (_prev, cur) = spread.update_index();
        let position = Vec3 {
            x: line_spread(self.extents.x, SCALE, cur[0]),
            y: line_spread(self.extents.y, SCALE, cur[1]),
            z: line_spread(self.extents.z, SCALE, cur[2]),
        };
        EmittedParticle { position, direction: Box::dir(direction_mode, position) }
    }
}

impl Edge {
    /// A random sample on the segment along Z, directed up.
    pub fn emit_random_particle(
        &self,
        rng: &mut ParticleRng,
        thickness: i64,
        direction_mode: EmitterDirectionMode,
    ) -> (e: EmittedParticle)
        requires
            0 <= self.length,
            fp_ok(self.length as int),
            thickness_wf(thickness),
            dir_mode_wf(direction_mode),
        ensures
            emitted_wf(e),
            dir_mode_kept(direction_mode, e),
            e.position.x == 0,
            e.position.y == 0,
            abs_int(e.position.z as int) * 2 <= self.length,
            inner_radius_spec((self.length / 2) as int, thickness as int) <= abs_int(
                e.position.z as int,
            ),
            direction_mode is Automatic ==> e.direction == (Vec3 { x: 0, y: SCALE, z: 0 }),
    {
        let value = random_in_line(self.length / 2, thickness, rng);
        let direction = match direction_mode {
            EmitterDirectionMode::Automatic => Vec3::unit_y(),
            EmitterDirectionMode::Fixed(d) => d,
        };
        EmittedParticle { position: Vec3 { x: 0, y: 0, z: value }, direction }
    }
}

/// How a convex-mesh sample relates to the mesh: some vertex, scaled by
/// some in-shell factor, directed away from the nominal center.
pub open spec fn mesh_sample_ok(
    mesh: ConvexMesh,
    e: EmittedParticle,
    thickness: int,
    mode: EmitterDirectionMode,
) -> bool {
    exists|i: int, coef: int|
        {
            &&& 0 <= i < mesh.vertices@.len()
            &&& inner_radius_spec(SCALE as int, thickness) <= coef <= SCALE
            &&& e.position == #[trigger] vec3_scale_spec(mesh.vertices@[i], coef)
            &&& (mode is Automatic ==> e.direction == normalize_spec(
                vec3_sub_spec(mesh.vertices@[i], mesh.nominal_center),
                Vec3 { x: 0, y: SCALE, z: 0 },
            ))
        }
}

impl ConvexMesh {
    /// A random sample: a random vertex pulled toward the origin by an
    /// in-shell factor, directed away from the nominal center; an empty
    /// mesh gives the default sample.
    pub fn emit_random_particle(
        &self,
        rng: &mut ParticleRng,
        thickness: i64,
        direction_mode: EmitterDirectionMode,
    ) -> (e: EmittedParticle)
        requires
            vec3_ok(self.nominal_center),
            forall|i: int| 0 <= i < self.vertices@.len() ==> vec3_ok(#[trigger] self.vertices@[i]),
            thickness_wf(thickness),
            dir_mode_wf(direction_mode),
        ensures
            emitted_wf(e),
            self.vertices@.len() == 0 ==> e == (EmittedParticle {
                position: Vec3 { x: 0, y: 0, z: 0 },
                direction: Vec3 { x: 0, y: SCALE, z: 0 },
            }) && *final(rng) == *old(rng),
            self.vertices@.len() > 0 ==> dir_mode_kept(direction_mode, e) && mesh_sample_ok(
                *self,
                e,
                thickness as int,
                direction_mode,
            ),
    {
        let n = self.vertices.len();
        if n == 0 {
            return EmittedParticle::default();
        }
        let idx64 = rng.next_inclusive_u64(0, (n - 1) as u64);
        let idx = idx64 as usize;
        let v = self.vertices[idx];
        let lo = inner_radius(SCALE, thickness);
        let coef = rng.next_inclusive_i64(lo, SCALE);
        let position = v.scale(coef);
        let direction = match direction_mode {
            EmitterDirectionMode::Automatic => v.sub(self.nominal_center).normalize_or(
                Vec3::unit_y(),
            ),
            EmitterDirectionMode::Fixed(d) => d,
        };
        let e = EmittedParticle { position, direction };
        proof {
            assert(mesh_sample_ok(*self, e, thickness as int, direction_mode)) by {
                assert({
                    &&& 0 <= idx < self.vertices@.len()
                    &&& inner_radius_spec(SCALE as int, thickness as int) <= coef <= SCALE
                    &&& e.position == vec3_scale_spec(self.vertices@[idx as int], coef as int)
                    &&& (direction_mode is Automatic ==> e.direction == normalize_spec(
                        vec3_sub_spec(self.vertices@[idx as int], self.nominal_center),
                        Vec3 { x: 0, y: SCALE, z: 0 },
                    ))
                });
            }
        }
        e
    }

    /// A spread sample: the vertex walks the list by one index, the pull
    /// toward the origin by another.
    pub fn spread_particle(
        &self,
        spread: &mut EmissionSpread,
        thickness: i64,
        direction_mode: EmitterDirectionMode,
    ) -> (e: EmittedParticle)
        requires
            spread_wf(*old(spread)),
            vec3_ok(self.nominal_center),
            forall|i: int| 0 <= i < self.vertices@.len() ==> vec3_ok(#[trigger] self.vertices@[i]),
            thickness_wf(thickness),
            dir_mode_wf(direction_mode),
        ensures
            spread_wf(*final(spread)),
            emitted_wf(e),
            self.vertices@.len() == 0 ==> e == (EmittedParticle {
                position: Vec3 { x: 0, y: 0, z: 0 },
                direction: Vec3 { x: 0, y: SCALE, z: 0 },
            }) && *final(spread) == *old(spread),
            self.vertices@.len() > 0 ==> dir_mode_kept(direction_mode, e) && mesh_sample_ok(
                *self,
                e,
                thickness as int,
                direction_mode,
            ) && *final(spread) == crate::spread::spread_step_spec(*old(spread)),
            self.vertices@.len() > 0 ==> ({
                let stepped = crate::spread::spread_step_spec(*old(spread));
                let idx = (stepped.current_index[2] as int) * (self.vertices@.len() - 1) / (
                SCALE as int);
                let coef = radius_spread_spec(
                    SCALE as int,
                    thickness as int,
                    stepped.current_index[1] as int,
                );
                &&& e.position == vec3_scale_spec(self.vertices@[idx], coef)
                &&& (direction_mode is Automatic ==> e.direction == normalize_spec(
                    vec3_sub_spec(self.vertices@[idx], self.nominal_center),
                    Vec3 { x: 0, y: SCALE, z: 0 },
                ))
            }),
    {
        let n = self.vertices.len();
        if n == 0 {
            return EmittedParticle::default();
        }
        let (_prev, cur) = spread.update_index();
        proof {
            lemma_mul_le(cur[2] as int, (n - 1) as int, SCALE as int, (n - 1) as int);
            lemma_mul_le(SCALE as int, (n - 1) as int, SCALE as int, u64::MAX as int);
        }
        let pos_in_list: u64 = (((cur[2] as u128) * ((n - 1) as u128)) / (SCALE as u128)) as u64;
        proof {
            vstd::arithmetic::div_mod::lemma_div_is_ordered(
                (cur[2] as int) * ((n - 1) as int),
                (SCALE as int) * ((n - 1) as int),
                SCALE as int,
            );
            vstd::arithmetic::div_mod::lemma_div_multiples_vanish((n - 1) as int, SCALE as int);
        }
        let idx = pos_in_list as usize;
        let v = self.vertices[idx];
        let coef = radius_spread(SCALE, thickness, cur[1]);
        proof {
            assert(inner_radius_spec(SCALE as int, thickness as int) <= coef) by {
                assert(coef as int == crate::sample::lerp_exact(
                    inner_radius_spec(SCALE as int, thickness as int),
                    SCALE as int,
                    if cur[1] < 0 {
                        0int
                    } else if cur[1] > SCALE {
                        SCALE as int
                    } else {
                        cur[1] as int
                    },
                ));
            }
        }
        let position = v.scale(coef);
        let direction = match direction_mode {
            EmitterDirectionMode::Automatic => v.sub(self.nominal_center).normalize_or(
                Vec3::unit_y(),
            ),
            EmitterDirectionMode::Fixed(d) => d,
        };
        let e = EmittedParticle { position, direction };
        proof {
            assert(mesh_sample_ok(*self, e, thickness as int, direction_mode)) by {
                assert({
                    &&& 0 <= idx < self.vertices@.len()
                    &&& inner_radius_spec(SCALE as int, thickness as int) <= coef <= SCALE
                    &&& e.position == vec3_scale_spec(self.vertices@[idx as int], coef as int)
                    &&& (direction_mode is Automatic ==> e.direction == normalize_spec(
                        vec3_sub_spec(self.vertices@[idx as int], self.nominal_center),
                        Vec3 { x: 0, y: SCALE, z: 0 },
                    ))
                });
            }
        }
        e
    }
}

impl Default for Sphere {
    /// A unit full sphere.
    fn default() -> (s: Sphere)
        ensures
            s == (Sphere { radius: SCALE, hemisphere: false }),
    {
        Sphere { radius: SCALE, hemisphere: false }
    }
}

impl Default for Circle {
    /// A unit circle.
    fn default() -> (s: Circle)
        ensures
            s == (Circle { radius: SCALE }),
    {
        Circle { radius: SCALE }
    }
}

impl Default for Cone {
    /// A half-open cone.
    fn default() -> (s: Cone)
        ensures
            s == (Cone { angle: (SCALE / 2) as i64 }),
    {
        Cone { angle: SCALE / 2 }
    }
}

impl Default for Box {
    /// A unit cube.
    fn default() -> (s: Box)
        ensures
            s == (Box { extents: Vec3 { x: SCALE, y: SCALE, z: SCALE } }),
    {
        Box { extents: Vec3 { x: SCALE, y: SCALE, z: SCALE } }
    }
}

impl Default for Edge {
    /// A unit segment.
    fn default() -> (s: Edge)
        ensures
            s == (Edge { length: SCALE }),
    {
        Edge { length: SCALE }
    }
}

impl Default for Shape {
    /// A unit full sphere.
    fn default() -> (s: Shape)
        ensures
            s == Shape::Sphere(Sphere { radius: SCALE, hemisphere: false }),
            shape_wf(s),
    {
        Shape::Sphere(Sphere { radius: SCALE, hemisphere: false })
    }
}

impl Default for EmitterDirectionMode {
    /// The shape decides.
    fn default() -> (m: EmitterDirectionMode)
        ensures
            m == EmitterDirectionMode::Automatic,
    {
        EmitterDirectionMode::Automatic
    }
}

/// Which shapes support deterministic spread emission.
pub open spec fn shape_supports_spread(s: Shape) -> bool {
    match s {
        Shape::Sphere(_) => false,
        Shape::Edge(_) => false,
        _ => true,
    }
}

impl Shape {
    /// Whether this shape can emit in spread mode; shapes that cannot make
    /// `spread_particle` return `None`.
    pub fn supports_spread(&self) -> (b: bool)
        ensures
            b == shape_supports_spread(*self),
    {
        match self {
            Shape::Sphere(_) => false,
            Shape::Edge(_) => false,
            _ => true,
        }
    }

    /// A random sample from whichever shape this is.
    pub fn emit_random_particle(
        &self,
        rng: &mut ParticleRng,
        thickness: i64,
        direction_mode: EmitterDirectionMode,
    ) -> (e: EmittedParticle)
        requires
            shape_wf(*self),
            thickness_wf(thickness),
            dir_mode_wf(direction_mode),
        ensures
            emitted_wf(e),
            (*self) matches Shape::Sphere(s) ==> (s.hemisphere ==> e.position.y >= 0)
                && norm_sq_int(e.position) <= scaled_bound(s.radius as int, UNIT_MAX as int)
                * scaled_bound(s.radius as int, UNIT_MAX as int) && norm_sq_int(e.position)
                >= shell_bound(inner_radius_spec(s.radius as int, thickness as int)) && (
            direction_mode is Automatic ==> e.direction == normalize_spec(
                e.position,
                Vec3 { x: 0, y: SCALE, z: 0 },
            )),
            (*self) matches Shape::Circle(s) ==> e.position.y == 0 && norm_sq_int(e.position)
                <= scaled_bound(s.radius as int, UNIT_MAX as int) * scaled_bound(
                s.radius as int,
                UNIT_MAX as int,
            ) && norm_sq_int(e.position) >= shell_bound(
                inner_radius_spec(s.radius as int, thickness as int),
            ) && (direction_mode is Automatic ==> e.direction == normalize_spec(
                e.position,
                Vec3 { x: 0, y: SCALE, z: 0 },
            )),
            (*self) matches Shape::Cone(c) ==> e.position == (Vec3 { x: 0, y: 0, z: 0 }) && (
            direction_mode is Automatic ==> ({
                let min_y = SCALE - (if c.angle < 0 {
                    0int
                } else if c.angle > SCALE {
                    SCALE as int
                } else {
                    c.angle as int
                });
                &&& abs_int(e.direction.x as int) + e.direction.y + abs_int(e.direction.z as int)
                    == SCALE
                &&& e.direction.y >= min_y
                &&& e.direction.y <= (if min_y + thickness > SCALE {
                    SCALE as int
                } else {
                    min_y + thickness
                })
            })),
            (*self) matches Shape::Box(b) ==> abs_int(e.position.x as int) <= b.extents.x
                && abs_int(e.position.y as int) <= b.extents.y && abs_int(e.position.z as int)
                <= b.extents.z && (inner_radius_spec(b.extents.x as int, thickness as int)
                <= abs_int(e.position.x as int) || inner_radius_spec(
                b.extents.y as int,
                thickness as int,
            ) <= abs_int(e.position.y as int) || inner_radius_spec(
                b.extents.z as int,
                thickness as int,
            ) <= abs_int(e.position.z as int)) && (direction_mode is Automatic ==> e.direction
                == box_dir_spec(e.position)),
            (*self) matches Shape::Edge(ed) ==> e.position.x == 0 && e.position.y == 0 && abs_int(
                e.position.z as int,
            ) * 2 <= ed.length && inner_radius_spec((ed.length / 2) as int, thickness as int)
                <= abs_int(e.position.z as int) && (direction_mode is Automatic ==> e.direction
                == (Vec3 { x: 0, y: SCALE, z: 0 })),
            (*self) matches Shape::ConvexMesh(m) ==> (m.vertices@.len() > 0 ==> dir_mode_kept(
                direction_mode,
                e,
            )),
            !((*self) is ConvexMesh) ==> dir_mode_kept(direction_mode, e),
    {
        match self {
            Shape::Sphere(s) => s.emit_random_particle(rng, thickness, direction_mode),
            Shape::Circle(s) => s.emit_random_particle(rng, thickness, direction_mode),
            Shape::Cone(s) => s.emit_random_particle(rng, thickness, direction_mode),
            Shape::Box(s) => s.emit_random_particle(rng, thickness, direction_mode),
            Shape::Edge(s) => s.emit_random_particle(rng, thickness, direction_mode),
            Shape::ConvexMesh(s) => s.emit_random_particle(rng, thickness, direction_mode),
        }
    }

    /// A spread sample, or `None` for shapes without spread support (the
    /// spread state is then left untouched).
    pub fn spread_particle(
        &self,
        spread: &mut EmissionSpread,
        rng: &mut ParticleRng,
        thickness: i64,
        direction_mode: EmitterDirectionMode,
    ) -> (r: Option<EmittedParticle>)
        requires
            shape_wf(*self),
            spread_wf(*old(spread)),
            thickness_wf(thickness),
            dir_mode_wf(direction_mode),
        ensures
            spread_wf(*final(spread)),
            r is Some <==> shape_supports_spread(*self),
            r is None ==> *final(spread) == *old(spread),
            *final(spread) == crate::spread::spread_step_spec(*old(spread)) || *final(spread)
                == *old(spread),
            (*self) is Circle || (*self) is Box ==> *final(spread)
                == crate::spread::spread_step_spec(*old(spread)),
            (*self) is Cone && direction_mode is Automatic ==> *final(spread)
                == crate::spread::spread_step_spec(*old(spread)),
            r matches Some(e) ==> emitted_wf(e),
            r matches Some(e) ==> (!((*self) is ConvexMesh) ==> dir_mode_kept(direction_mode, e)),
            (*self) matches Shape::Circle(c) ==> (r matches Some(e) ==> e.position.y == 0
                && abs_int(e.position.x as int) <= c.radius && abs_int(e.position.z as int)
                <= c.radius),
            (*self) is Cone ==> (r matches Some(e) ==> e.position == (Vec3 { x: 0, y: 0, z: 0 })),
            (*self) matches Shape::Box(b) ==> (r matches Some(e) ==> abs_int(e.position.x as int)
                <= b.extents.x && abs_int(e.position.y as int) <= b.extents.y && abs_int(
                e.position.z as int,
            ) <= b.extents.z),
    {
        match self {
            Shape::Sphere(_) => None,
            Shape::Edge(_) => None,
            Shape::Circle(s) => Some(
                s.spread_particle(spread, rng, thickness, direction_mode),
            ),
            Shape::Cone(s) => Some(s.spread_particle(spread, rng, thickness, direction_mode)),
            Shape::Box(s) => Some(s.spread_particle(spread, direction_mode)),
            Shape::ConvexMesh(s) => Some(s.spread_particle(spread, thickness, direction_mode)),
        }
    }
}

/// Scaling a near-unit vector by `s / SCALE` cannot shrink it below the
/// shell bound: the componentwise truncation loses at most the documented
/// slack.
proof fn lemma_scale_norm_lower(u: Vec3, p: Vec3, s: int)
    requires
        0 <= s,
        fp_ok(s),
        norm_sq_int(u) >= UNIT_MIN * UNIT_MIN,
        abs_int(u.x as int) <= SCALE,
        abs_int(u.y as int) <= SCALE,
        abs_int(u.z as int) <= SCALE,
        p.x as int == fp_clamp(fp_mul_exact(u.x as int, s)),
        p.y as int == fp_clamp(fp_mul_exact(u.y as int, s)),
        p.z as int == fp_clamp(fp_mul_exact(u.z as int, s)),
    ensures
        norm_sq_int(p) >= shell_bound(s),
{
    let q = tdiv(s * (UNIT_MIN as int), SCALE as int);
    if q <= 6 {
        assert(norm_sq_int(p) >= 0) by (nonlinear_arith);
    } else {
        lemma_scale_comp_lower(p.x as int, u.x as int, s);
        lemma_scale_comp_lower(p.y as int, u.y as int, s);
        lemma_scale_comp_lower(p.z as int, u.z as int, s);
        let ss = (SCALE as int) * (SCALE as int);
        assert(norm_sq_int(p) * ss >= (s * s) * norm_sq_int(u) - 2 * s * (SCALE as int) * (
        abs_int(u.x as int) + abs_int(u.y as int) + abs_int(u.z as int))) by (nonlinear_arith)
            requires
                ((p.x as int) * (p.x as int)) * ss >= ((u.x as int) * (u.x as int)) * (s * s) - 2
                    * (abs_int(u.x as int) * s) * SCALE,
                ((p.y as int) * (p.y as int)) * ss >= ((u.y as int) * (u.y as int)) * (s * s) - 2
                    * (abs_int(u.y as int) * s) * SCALE,
                ((p.z as int) * (p.z as int)) * ss >= ((u.z as int) * (u.z as int)) * (s * s) - 2
                    * (abs_int(u.z as int) * s) * SCALE,
                norm_sq_int(p) == (p.x as int) * (p.x as int) + (p.y as int) * (p.y as int) + (
                p.z as int) * (p.z as int),
                norm_sq_int(u) == (u.x as int) * (u.x as int) + (u.y as int) * (u.y as int) + (
                u.z as int) * (u.z as int),
                ss == (SCALE as int) * (SCALE as int),
        ;
        assert(abs_int(u.x as int) + abs_int(u.y as int) + abs_int(u.z as int) <= 3 * SCALE);
        assert(norm_sq_int(p) * ss >= (s * s) * (UNIT_MIN * UNIT_MIN) - 6 * (ss * s))
            by (nonlinear_arith)
            requires
                norm_sq_int(p) * ss >= (s * s) * norm_sq_int(u) - 2 * s * (SCALE as int) * (
                abs_int(u.x as int) + abs_int(u.y as int) + abs_int(u.z as int)),
                norm_sq_int(u) >= UNIT_MIN * UNIT_MIN,
                0 <= abs_int(u.x as int) + abs_int(u.y as int) + abs_int(u.z as int) <= 3 * SCALE,
                0 <= s,
                ss == (SCALE as int) * (SCALE as int),
                SCALE == 1_000_000i64,
        ;
        // q >= 7 forces s >= 8, which makes the additive slack fit six
        // SCALE steps of the reconstructed product.
        vstd::arithmetic::div_mod::lemma_fundamental_div_mod(s * (UNIT_MIN as int), SCALE as int);
        vstd::arithmetic::div_mod::lemma_remainder_upper(s * (UNIT_MIN as int), SCALE as int);
        assert(s >= 8) by (nonlinear_arith)
            requires
                q >= 7,
                (SCALE as int) * q <= s * (UNIT_MIN as int),
                0 <= s,
                SCALE == 1_000_000i64,
                UNIT_MIN == 999_996i64,
        ;
        assert((s * s) * (UNIT_MIN * UNIT_MIN) - 6 * (ss * s) >= (s * (UNIT_MIN as int) - 6
            * SCALE) * (s * (UNIT_MIN as int) - 6 * SCALE)) by (nonlinear_arith)
            requires
                s >= 8,
                ss == (SCALE as int) * (SCALE as int),
                SCALE == 1_000_000i64,
                UNIT_MIN == 999_996i64,
        ;
        assert(((SCALE as int) * (q - 6)) * ((SCALE as int) * (q - 6)) <= (s * (UNIT_MIN as int)
            - 6 * SCALE) * (s * (UNIT_MIN as int) - 6 * SCALE)) by (nonlinear_arith)
            requires
                q >= 7,
                (SCALE as int) * q <= s * (UNIT_MIN as int),
                SCALE == 1_000_000i64,
        ;
        assert(((SCALE as int) * (q - 6)) * ((SCALE as int) * (q - 6)) == ((q - 6) * (q - 6))
            * ss) by (nonlinear_arith)
            requires
                ss == (SCALE as int) * (SCALE as int),
        ;
        assert(norm_sq_int(p) >= (q - 6) * (q - 6)) by (nonlinear_arith)
            requires
                norm_sq_int(p) * ss >= ((q - 6) * (q - 6)) * ss,
                ss > 0,
        ;
    }
}

/// One component of the shell lower bound.
proof fn lemma_scale_comp_lower(p: int, u: int, s: int)
    requires
        0 <= s,
        fp_ok(s),
        abs_int(u) <= SCALE,
        p == fp_clamp(fp_mul_exact(u, s)),
    ensures
        (p * p) * ((SCALE as int) * (SCALE as int)) >= (u * u) * (s * s) - 2 * (abs_int(u) * s)
            * SCALE,
{
    let au = abs_int(u);
    // The clamp never fires: |u * s / SCALE| <= s <= FP_MAX.
    assert(au * s == abs_int(u * s) && (u * u) * (s * s) == (au * s) * (au * s))
        by (nonlinear_arith)
        requires
            au == u || au == -u,
            0 <= au,
            0 <= s,
    ;
    lemma_mul_le(au, s, SCALE as int, s);
    vstd::arithmetic::div_mod::lemma_div_is_ordered(au * s, (SCALE as int) * s, SCALE as int);
    assert((SCALE as int) * s == s * SCALE) by (nonlinear_arith);
    vstd::arithmetic::div_mod::lemma_div_multiples_vanish(s, SCALE as int);
    vstd::arithmetic::div_mod::lemma_div_pos_is_pos(au * s, SCALE as int);
    let ap = (au * s) / (SCALE as int);
    assert(abs_int(fp_mul_exact(u, s)) == ap);
    assert(p == fp_mul_exact(u, s));
    crate::fixed::lemma_floor_sq_lower(au * s, SCALE as int);
    assert((p * p) * ((SCALE as int) * (SCALE as int)) >= (au * s) * (au * s) - 2 * (au * s)
        * SCALE) by (nonlinear_arith)
        requires
            ((SCALE as int) * ap) * ((SCALE as int) * ap) >= (au * s) * (au * s) - 2 * (au * s)
                * SCALE,
            abs_int(p) == ap,
            p == ap || p == -ap,
    ;
}

/// A larger scaling factor gives a no-smaller shell bound.
proof fn lemma_shell_mono(s1: int, s2: int)
    requires
        0 <= s1 <= s2,
    ensures
        shell_bound(s1) <= shell_bound(s2),
{
    lemma_mul_le(s1, UNIT_MIN as int, s2, UNIT_MIN as int);
    vstd::arithmetic::div_mod::lemma_div_is_ordered(
        s1 * (UNIT_MIN as int),
        s2 * (UNIT_MIN as int),
        SCALE as int,
    );
    assert(s1 * (UNIT_MIN as int) >= 0) by (nonlinear_arith)
        requires
            0 <= s1,
            UNIT_MIN == 999_996i64,
    ;
    vstd::arithmetic::div_mod::lemma_div_pos_is_pos(s1 * (UNIT_MIN as int), SCALE as int);
    let l1 = tdiv(s1 * (UNIT_MIN as int), SCALE as int) - 6;
    let l2 = tdiv(s2 * (UNIT_MIN as int), SCALE as int) - 6;
    if l1 > 0 {
        assert(l1 * l1 <= l2 * l2) by (nonlinear_arith)
            requires
                0 < l1 <= l2,
        ;
    }
}

/// A random direction: a point drawn in the cube, normalized; degenerate
/// draws fall back to +Y.
fn random_unit(rng: &mut ParticleRng) -> (u: Vec3)
    ensures
        vec3_ok(u),
        norm_sq_int(u) <= UNIT_MAX * UNIT_MAX,
        norm_sq_int(u) >= UNIT_MIN * UNIT_MIN,
        abs_int(u.x as int) <= SCALE,
        abs_int(u.y as int) <= SCALE,
        abs_int(u.z as int) <= SCALE,
{
    let x = rng.next_inclusive_i64(-SCALE, SCALE);
    let y = rng.next_inclusive_i64(-SCALE, SCALE);
    let z = rng.next_inclusive_i64(-SCALE, SCALE);
    let v = Vec3 { x, y, z };
    let u = v.normalize_or(Vec3::unit_y());
    proof {
        if norm_sq_int(v) < crate::vec3::NORM_FLOOR * crate::vec3::NORM_FLOOR {
            assert(norm_sq_int(u) == (SCALE as int) * (SCALE as int)) by (nonlinear_arith)
                requires
                    u == (Vec3 { x: 0, y: SCALE, z: 0 }),
                    SCALE == 1_000_000i64,
                    norm_sq_int(u) == (u.x as int) * (u.x as int) + (u.y as int) * (u.y as int) + (
                    u.z as int) * (u.z as int),
            ;
            assert((SCALE as int) * (SCALE as int) >= UNIT_MIN * UNIT_MIN) by (nonlinear_arith)
                requires
                    SCALE == 1_000_000i64,
                    UNIT_MIN == 999_996i64,
            ;
        }
    }
    u
}

} // verus!
