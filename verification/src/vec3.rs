//! Three-component fixed-point vectors.

use vstd::prelude::*;

use crate::fixed::{
    abs_int, fp_add, fp_clamp, fp_mul, fp_mul_exact, fp_ok, fp_sub, isqrt, isqrt_spec,
    lemma_mul_le, lemma_sq_le, tdiv, FP_MAX, SCALE,
};

verus! {

/// Smallest vector length (in fixed-point steps) that normalization accepts;
/// anything shorter falls back to a caller-supplied direction.
pub const NORM_FLOOR: i64 = 1000;

/// Upper bound on the length of a normalized vector: one unit plus the
/// worst-case truncation slack, `SCALE + SCALE / NORM_FLOOR`.
pub const UNIT_MAX: i64 = 1_001_000;

/// Lower bound on the length of a normalized vector: one unit minus the
/// worst-case truncation slack.
pub const UNIT_MIN: i64 = 999_996;

/// A point or direction, each component a fixed-point scalar.
#[derive(Clone, Copy, Debug, PartialEq, Eq, Structural)]
pub struct Vec3 {
    pub x: i64,
    pub y: i64,
    pub z: i64,
}

/// All three components fit the representable scalar range.
pub open spec fn vec3_ok(v: Vec3) -> bool {
    fp_ok(v.x as int) && fp_ok(v.y as int) && fp_ok(v.z as int)
}

/// Squared length, as a mathematical integer.
pub open spec fn norm_sq_int(v: Vec3) -> int {
    (v.x as int) * (v.x as int) + (v.y as int) * (v.y as int) + (v.z as int) * (v.z as int)
}

/// Componentwise saturating addition, as a function.
pub open spec fn vec3_add_spec(a: Vec3, b: Vec3) -> Vec3 {
    Vec3 {
        x: fp_clamp(a.x + b.x) as i64,
        y: fp_clamp(a.y + b.y) as i64,
        z: fp_clamp(a.z + b.z) as i64,
    }
}

/// Componentwise saturating subtraction, as a function.
pub open spec fn vec3_sub_spec(a: Vec3, b: Vec3) -> Vec3 {
    Vec3 {
        x: fp_clamp(a.x - b.x) as i64,
        y: fp_clamp(a.y - b.y) as i64,
        z: fp_clamp(a.z - b.z) as i64,
    }
}

/// Componentwise saturating scaling, as a function.
pub open spec fn vec3_scale_spec(v: Vec3, s: int) -> Vec3 {
    Vec3 {
        x: fp_clamp(fp_mul_exact(v.x as int, s)) as i64,
        y: fp_clamp(fp_mul_exact(v.y as int, s)) as i64,
        z: fp_clamp(fp_mul_exact(v.z as int, s)) as i64,
    }
}

/// Normalization with a fallback, as a function: vectors shorter than
/// `NORM_FLOOR` give the fallback, others are divided by their length.
pub open spec fn normalize_spec(v: Vec3, fallback: Vec3) -> Vec3 {
    if norm_sq_int(v) < NORM_FLOOR * NORM_FLOOR {
        fallback
    } else {
        let n = isqrt_spec(norm_sq_int(v));
        Vec3 {
            x: tdiv(v.x * SCALE, n) as i64,
            y: tdiv(v.y * SCALE, n) as i64,
            z: tdiv(v.z * SCALE, n) as i64,
        }
    }
}

/// Squaring keeps order on non-negative values.
proof fn lemma_sq_both(a: int, b: int)
    requires
        0 <= a <= b,
    ensures
        a * a <= b * b,
{
    lemma_mul_le(a, a, b, b);
}

/// A square does not depend on the sign of its root.
proof fn lemma_abs_sq(a: int)
    ensures
        abs_int(a) * abs_int(a) == a * a,
        a * a >= 0,
{
    assert(abs_int(a) * abs_int(a) == a * a && a * a >= 0) by (nonlinear_arith);
}

impl Vec3 {
    /// Builds a vector from its components.
    pub fn new(x: i64, y: i64, z: i64) -> (r: Vec3)
        ensures
            r == (Vec3 { x, y, z }),
    {
        Vec3 { x, y, z }
    }

    /// The origin.
    pub fn zero() -> (r: Vec3)
        ensures
            r == (Vec3 { x: 0, y: 0, z: 0 }),
            vec3_ok(r),
    {
        Vec3 { x: 0, y: 0, z: 0 }
    }

    /// The unit vector along +Y, the documented fallback direction.
    pub fn unit_y() -> (r: Vec3)
        ensures
            r == (Vec3 { x: 0, y: SCALE, z: 0 }),
            vec3_ok(r),
    {
        Vec3 { x: 0, y: SCALE, z: 0 }
    }

    /// Componentwise saturating addition.
    pub fn add(self, o: Vec3) -> (r: Vec3)
        requires
            vec3_ok(self),
            vec3_ok(o),
        ensures
            r.x as int == fp_clamp(self.x + o.x),
            r.y as int == fp_clamp(self.y + o.y),
            r.z as int == fp_clamp(self.z + o.z),
            r == vec3_add_spec(self, o),
            vec3_ok(r),
    {
        Vec3 { x: fp_add(self.x, o.x), y: fp_add(self.y, o.y), z: fp_add(self.z, o.z) }
    }

    /// Componentwise saturating subtraction.
    pub fn sub(self, o: Vec3) -> (r: Vec3)
        requires
            vec3_ok(self),
            vec3_ok(o),
        ensures
            r.x as int == fp_clamp(self.x - o.x),
            r.y as int == fp_clamp(self.y - o.y),
            r.z as int == fp_clamp(self.z - o.z),
            r == vec3_sub_spec(self, o),
            vec3_ok(r),
    {
        Vec3 { x: fp_sub(self.x, o.x), y: fp_sub(self.y, o.y), z: fp_sub(self.z, o.z) }
    }

    /// Componentwise saturating scaling by a fixed-point scalar.
    pub fn scale(self, s: i64) -> (r: Vec3)
        requires
            vec3_ok(self),
            fp_ok(s as int),
        ensures
            r.x as int == fp_clamp(fp_mul_exact(self.x as int, s as int)),
            r.y as int == fp_clamp(fp_mul_exact(self.y as int, s as int)),
            r.z as int == fp_clamp(fp_mul_exact(self.z as int, s as int)),
            r == vec3_scale_spec(self, s as int),
            vec3_ok(r),
    {
        Vec3 { x: fp_mul(self.x, s), y: fp_mul(self.y, s), z: fp_mul(self.z, s) }
    }

    /// Exact squared length.
    pub fn norm_sq(self) -> (r: u128)
        requires
            vec3_ok(self),
        ensures
            r as int == norm_sq_int(self),
    {
        proof {
            lemma_abs_sq(self.x as int);
            lemma_abs_sq(self.y as int);
            lemma_abs_sq(self.z as int);
            lemma_mul_le(
                abs_int(self.x as int),
                abs_int(self.x as int),
                FP_MAX as int,
                FP_MAX as int,
            );
            lemma_mul_le(
                abs_int(self.y as int),
                abs_int(self.y as int),
                FP_MAX as int,
                FP_MAX as int,
            );
            lemma_mul_le(
                abs_int(self.z as int),
                abs_int(self.z as int),
                FP_MAX as int,
                FP_MAX as int,
            );
        }
        let ax: u128 = (if self.x < 0 {
            -self.x
        } else {
            self.x
        }) as u128;
        let ay: u128 = (if self.y < 0 {
            -self.y
        } else {
            self.y
        }) as u128;
        let az: u128 = (if self.z < 0 {
            -self.z
        } else {
            self.z
        }) as u128;
        ax * ax + ay * ay + az * az
    }

    /// Length (saturating at `FP_MAX`): the integer square root of the
    /// squared length.
    pub fn length(self) -> (r: i64)
        requires
            vec3_ok(self),
        ensures
            r as int == fp_clamp(isqrt_spec(norm_sq_int(self))),
            0 <= r,
            fp_ok(r as int),
    {
        let ns = self.norm_sq();
        let n = isqrt(ns);
        if n > (FP_MAX as u64) {
            FP_MAX
        } else {
            n as i64
        }
    }

    /// Normalizes `self` to (approximately) unit length; vectors shorter
    /// than `NORM_FLOOR` return `fallback` instead.
    pub fn normalize_or(self, fallback: Vec3) -> (r: Vec3)
        requires
            vec3_ok(self),
            vec3_ok(fallback),
        ensures
            norm_sq_int(self) < NORM_FLOOR * NORM_FLOOR ==> r == fallback,
            norm_sq_int(self) >= NORM_FLOOR * NORM_FLOOR ==> ({
                let n = isqrt_spec(norm_sq_int(self));
                &&& r.x as int == tdiv(self.x * SCALE, n)
                &&& r.y as int == tdiv(self.y * SCALE, n)
                &&& r.z as int == tdiv(self.z * SCALE, n)
                &&& abs_int(r.x as int) <= SCALE
                &&& abs_int(r.y as int) <= SCALE
                &&& abs_int(r.z as int) <= SCALE
                &&& norm_sq_int(r) <= UNIT_MAX * UNIT_MAX
                &&& norm_sq_int(r) >= UNIT_MIN * UNIT_MIN
            }),
            r == normalize_spec(self, fallback),
            vec3_ok(r),
    {
        let ns = self.norm_sq();
        let n = isqrt(ns);
        if n < (NORM_FLOOR as u64) {
            proof {
                lemma_mul_le(n as int + 1, n as int + 1, NORM_FLOOR as int, NORM_FLOOR as int);
            }
            fallback
        } else {
            proof {
                lemma_mul_le(NORM_FLOOR as int, NORM_FLOOR as int, n as int, n as int);
                lemma_abs_sq(self.x as int);
                lemma_abs_sq(self.y as int);
                lemma_abs_sq(self.z as int);
                lemma_sq_le(abs_int(self.x as int), n as int);
                lemma_sq_le(abs_int(self.y as int), n as int);
                lemma_sq_le(abs_int(self.z as int), n as int);
            }
            let rx = div_scaled(self.x, n);
            let ry = div_scaled(self.y, n);
            let rz = div_scaled(self.z, n);
            proof {
                lemma_unit_norm(
                    self.x as int,
                    self.y as int,
                    self.z as int,
                    rx as int,
                    ry as int,
                    rz as int,
                    n as int,
                    ns as int,
                );
                lemma_unit_norm_lower(
                    self.x as int,
                    self.y as int,
                    self.z as int,
                    rx as int,
                    ry as int,
                    rz as int,
                    n as int,
                    ns as int,
                );
            }
            Vec3 { x: rx, y: ry, z: rz }
        }
    }
}

/// Division step of normalization: `x * SCALE / n`, rounded toward zero.
fn div_scaled(x: i64, n: u64) -> (r: i64)
    requires
        fp_ok(x as int),
        n >= 1,
        abs_int(x as int) <= n as int,
    ensures
        r as int == tdiv(x * SCALE, n as int),
        abs_int(r as int) <= SCALE,
        abs_int(r as int) * (n as int) <= abs_int(x as int) * SCALE,
        abs_int(r as int) == (abs_int(x as int) * SCALE) / (n as int),
{
    let neg = x < 0;
    let ax: u64 = (if x < 0 {
        -x
    } else {
        x
    }) as u64;
    proof {
        lemma_mul_le(ax as int, SCALE as int, FP_MAX as int, SCALE as int);
    }
    let p: u128 = (ax as u128) * (SCALE as u128);
    let q: u128 = p / (n as u128);
    proof {
        lemma_mul_le(ax as int, SCALE as int, n as int, SCALE as int);
        vstd::arithmetic::div_mod::lemma_div_is_ordered(
            p as int,
            (n as int) * (SCALE as int),
            n as int,
        );
        vstd::arithmetic::div_mod::lemma_div_multiples_vanish(SCALE as int, n as int);
        vstd::arithmetic::div_mod::lemma_fundamental_div_mod(p as int, n as int);
        vstd::arithmetic::div_mod::lemma_remainder_lower(p as int, n as int);
    }
    if neg {
        -(q as i64)
    } else {
        q as i64
    }
}

/// Truncating normalization cannot stretch a vector beyond `UNIT_MAX`:
/// if `n` is the integer square root of the squared length and each output
/// component `r_i` satisfies `|r_i| * n <= |v_i| * SCALE`, the output's
/// squared length stays at most `UNIT_MAX * UNIT_MAX`.
proof fn lemma_unit_norm(
    x: int,
    y: int,
    z: int,
    rx: int,
    ry: int,
    rz: int,
    n: int,
    ns: int,
)
    requires
        n >= NORM_FLOOR,
        ns == x * x + y * y + z * z,
        n * n <= ns < (n + 1) * (n + 1),
        abs_int(rx) * n <= abs_int(x) * SCALE,
        abs_int(ry) * n <= abs_int(y) * SCALE,
        abs_int(rz) * n <= abs_int(z) * SCALE,
    ensures
        rx * rx + ry * ry + rz * rz <= UNIT_MAX * UNIT_MAX,
{
    lemma_component_sq(rx, x, n);
    lemma_component_sq(ry, y, n);
    lemma_component_sq(rz, z, n);
    // Sum the componentwise bounds: n^2 * |r|^2 <= SCALE^2 * ns.
    assert((rx * rx + ry * ry + rz * rz) * (n * n) <= (SCALE * SCALE) * ns) by (nonlinear_arith)
        requires
            rx * rx * (n * n) <= x * x * (SCALE * SCALE),
            ry * ry * (n * n) <= y * y * (SCALE * SCALE),
            rz * rz * (n * n) <= z * z * (SCALE * SCALE),
            ns == x * x + y * y + z * z,
    ;
    // SCALE^2 * ns < SCALE^2 * (n+1)^2 <= UNIT_MAX^2 * n^2, since
    // UNIT_MAX * n >= SCALE * n + SCALE = SCALE * (n + 1) for n >= NORM_FLOOR.
    assert(UNIT_MAX * n >= SCALE * (n + 1)) by (nonlinear_arith)
        requires
            n >= NORM_FLOOR,
            NORM_FLOOR == 1000i64,
            UNIT_MAX == 1_001_000i64,
            SCALE == 1_000_000i64,
    ;
    assert((SCALE * SCALE) * ns < (UNIT_MAX * UNIT_MAX) * (n * n)) by (nonlinear_arith)
        requires
            ns < (n + 1) * (n + 1),
            UNIT_MAX * n >= SCALE * (n + 1),
            n > 0,
            SCALE > 0,
            UNIT_MAX > 0,
            ns >= 0,
    ;
    assert(rx * rx + ry * ry + rz * rz <= UNIT_MAX * UNIT_MAX) by (nonlinear_arith)
        requires
            (rx * rx + ry * ry + rz * rz) * (n * n) < (UNIT_MAX * UNIT_MAX) * (n * n),
            n > 0,
    ;
}

/// Truncating normalization cannot shrink a vector far below unit length:
/// with `n` the integer square root of the squared length, the output's
/// squared length is at least `UNIT_MIN * UNIT_MIN`.
proof fn lemma_unit_norm_lower(
    x: int,
    y: int,
    z: int,
    rx: int,
    ry: int,
    rz: int,
    n: int,
    ns: int,
)
    requires
        n >= 1,
        ns == x * x + y * y + z * z,
        n * n <= ns,
        abs_int(x) <= n,
        abs_int(y) <= n,
        abs_int(z) <= n,
        abs_int(rx) == (abs_int(x) * SCALE) / n,
        abs_int(ry) == (abs_int(y) * SCALE) / n,
        abs_int(rz) == (abs_int(z) * SCALE) / n,
    ensures
        rx * rx + ry * ry + rz * rz >= UNIT_MIN * UNIT_MIN,
{
    lemma_component_sq_lower(rx, x, n);
    lemma_component_sq_lower(ry, y, n);
    lemma_component_sq_lower(rz, z, n);
    let ss = (SCALE as int) * (SCALE as int);
    // Sum the componentwise lower bounds.
    assert((rx * rx + ry * ry + rz * rz) * (n * n) >= ss * ns - 2 * (SCALE as int) * n * (abs_int(
        x,
    ) + abs_int(y) + abs_int(z))) by (nonlinear_arith)
        requires
            (rx * rx) * (n * n) >= (x * x) * ss - 2 * (abs_int(x) * SCALE) * n,
            (ry * ry) * (n * n) >= (y * y) * ss - 2 * (abs_int(y) * SCALE) * n,
            (rz * rz) * (n * n) >= (z * z) * ss - 2 * (abs_int(z) * SCALE) * n,
            ns == x * x + y * y + z * z,
            ss == (SCALE as int) * (SCALE as int),
    ;
    assert(abs_int(x) + abs_int(y) + abs_int(z) <= 3 * n);
    assert(ss * ns >= ss * (n * n)) by (nonlinear_arith)
        requires
            ns >= n * n,
            ss > 0,
    ;
    assert(2 * (SCALE as int) * n * (abs_int(x) + abs_int(y) + abs_int(z)) <= 6 * (SCALE as int)
        * (n * n)) by (nonlinear_arith)
        requires
            0 <= abs_int(x) + abs_int(y) + abs_int(z) <= 3 * n,
            n >= 1,
            SCALE == 1_000_000i64,
    ;
    assert((rx * rx + ry * ry + rz * rz) * (n * n) >= (ss - 6 * SCALE) * (n * n))
        by (nonlinear_arith)
        requires
            (rx * rx + ry * ry + rz * rz) * (n * n) >= ss * (n * n) - 6 * (SCALE as int) * (n
                * n),
            ss == (SCALE as int) * (SCALE as int),
    ;
    assert(rx * rx + ry * ry + rz * rz >= ss - 6 * SCALE) by (nonlinear_arith)
        requires
            (rx * rx + ry * ry + rz * rz) * (n * n) >= (ss - 6 * SCALE) * (n * n),
            n >= 1,
    ;
    assert(ss - 6 * SCALE >= UNIT_MIN * UNIT_MIN) by (nonlinear_arith)
        requires
            ss == (SCALE as int) * (SCALE as int),
            SCALE == 1_000_000i64,
            UNIT_MIN == 999_996i64,
    ;
}

/// One component of the lower normalization bound.
proof fn lemma_component_sq_lower(r: int, v: int, n: int)
    requires
        n >= 1,
        abs_int(r) == (abs_int(v) * SCALE) / n,
    ensures
        (r * r) * (n * n) >= (v * v) * ((SCALE as int) * (SCALE as int)) - 2 * (abs_int(v)
            * SCALE) * n,
{
    let av = abs_int(v);
    let ar = abs_int(r);
    crate::fixed::lemma_floor_sq_lower(av * SCALE, n);
    assert((n * ar) * (n * ar) >= (av * SCALE) * (av * SCALE) - 2 * (av * SCALE) * n)
        by (nonlinear_arith)
        requires
            (n * ((av * SCALE) / n)) * (n * ((av * SCALE) / n)) >= (av * SCALE) * (av * SCALE)
                - 2 * (av * SCALE) * n,
            ar == (av * SCALE) / n,
    ;
    assert((r * r) * (n * n) == (n * ar) * (n * ar) && (v * v) * ((SCALE as int) * (
    SCALE as int)) == (av * SCALE) * (av * SCALE)) by (nonlinear_arith)
        requires
            ar == r || ar == -r,
            av == v || av == -v,
    ;
}

/// One component of the normalization bound: squaring `|r| * n <= |v| * SCALE`.
proof fn lemma_component_sq(r: int, v: int, n: int)
    requires
        n > 0,
        abs_int(r) * n <= abs_int(v) * SCALE,
    ensures
        r * r * (n * n) <= v * v * (SCALE * SCALE),
{
    let ar = abs_int(r);
    let av = abs_int(v);
    assert(ar * ar == r * r && av * av == v * v) by (nonlinear_arith)
        requires
            ar == r || ar == -r,
            av == v || av == -v,
    ;
    assert((ar * n) * (ar * n) <= (av * SCALE) * (av * SCALE)) by (nonlinear_arith)
        requires
            0 <= ar,
            0 <= av,
            n > 0,
            ar * n <= av * SCALE,
            SCALE == 1_000_000i64,
    ;
    assert((ar * n) * (ar * n) == ar * ar * (n * n) && (av * SCALE) * (av * SCALE) == av * av * (
    SCALE * SCALE)) by (nonlinear_arith);
}

} // verus!
