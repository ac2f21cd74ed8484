//! Saturating fixed-point scalar arithmetic.
//!
//! A scalar is an `i64` holding `SCALE` steps per unit; a stored value `v`
//! stands for the real number `v / SCALE`. All operations saturate at
//! `FP_MAX`, so every simulation step is total.

use vstd::prelude::*;

verus! {

/// Number of fixed-point steps per unit.
pub const SCALE: i64 = 1_000_000;

/// Largest magnitude a stored scalar may take (one million units).
pub const FP_MAX: i64 = 1_000_000_000_000;

/// Truncating (round-toward-zero) division, the semantics of Rust's `/`
/// on machine integers. Only used with positive divisors.
pub open spec fn tdiv(a: int, b: int) -> int {
    if a >= 0 {
        a / b
    } else {
        -((-a) / b)
    }
}

/// Does `x` fit the representable scalar range?
pub open spec fn fp_ok(x: int) -> bool {
    -FP_MAX <= x <= FP_MAX
}

/// Clamp an unbounded value into the representable scalar range.
pub open spec fn fp_clamp(x: int) -> int {
    if x > FP_MAX {
        FP_MAX as int
    } else if x < -FP_MAX {
        -(FP_MAX as int)
    } else {
        x
    }
}

/// The exact value of a fixed-point product before clamping.
pub open spec fn fp_mul_exact(a: int, b: int) -> int {
    tdiv(a * b, SCALE as int)
}

/// Saturating addition of two in-range scalars.
pub fn fp_add(a: i64, b: i64) -> (r: i64)
    requires
        fp_ok(a as int),
        fp_ok(b as int),
    ensures
        r as int == fp_clamp(a + b),
        fp_ok(r as int),
{
    let s = a + b;
    if s > FP_MAX {
        FP_MAX
    } else if s < -FP_MAX {
        -FP_MAX
    } else {
        s
    }
}

/// Saturating subtraction of two in-range scalars.
pub fn fp_sub(a: i64, b: i64) -> (r: i64)
    requires
        fp_ok(a as int),
        fp_ok(b as int),
    ensures
        r as int == fp_clamp(a - b),
        fp_ok(r as int),
{
    let s = a - b;
    if s > FP_MAX {
        FP_MAX
    } else if s < -FP_MAX {
        -FP_MAX
    } else {
        s
    }
}

/// Pi, in fixed-point steps.
pub const PI_FP: i64 = 3_141_593;

/// Two pi, in fixed-point steps.
pub const TAU_FP: i64 = 6_283_185;

/// Pi over two, in fixed-point steps.
pub const HALF_PI_FP: i64 = 1_570_796;

/// Pi over four, in fixed-point steps.
pub const QUARTER_PI_FP: i64 = 785_398;

/// Coefficient of the quadratic arctangent correction term (0.273).
pub const ATAN_K: i64 = 273_000;

/// Magnitude of an integer.
pub open spec fn abs_int(x: int) -> int {
    if x >= 0 {
        x
    } else {
        -x
    }
}

/// The sign of a product, and the magnitude of a product, follow the signs
/// and magnitudes of its factors.
proof fn lemma_mul_sign_abs(a: int, b: int)
    ensures
        abs_int(a) * abs_int(b) == abs_int(a * b),
        (a > 0 && b > 0) ==> a * b > 0,
        (a < 0 && b < 0) ==> a * b > 0,
        (a > 0 && b < 0) ==> a * b < 0,
        (a < 0 && b > 0) ==> a * b < 0,
        (a == 0 || b == 0) ==> a * b == 0,
{
    assert(abs_int(a) * abs_int(b) == abs_int(a * b) && ((a > 0 && b > 0) ==> a * b > 0) && ((a
        < 0 && b < 0) ==> a * b > 0) && ((a > 0 && b < 0) ==> a * b < 0) && ((a < 0 && b > 0) ==> a
        * b < 0) && ((a == 0 || b == 0) ==> a * b == 0)) by (nonlinear_arith);
}

/// Products respect `<=` on non-negative factors.
pub proof fn lemma_mul_le(a: int, b: int, c: int, d: int)
    requires
        0 <= a <= c,
        0 <= b <= d,
    ensures
        a * b <= c * d,
{
    assert(a * b <= c * d) by (nonlinear_arith)
        requires
            0 <= a <= c,
            0 <= b <= d,
    ;
}

/// Saturating fixed-point multiplication: `r` is `a * b / SCALE`, rounded
/// toward zero and clamped.
pub fn fp_mul(a: i64, b: i64) -> (r: i64)
    requires
        fp_ok(a as int),
        fp_ok(b as int),
    ensures
        r as int == fp_clamp(fp_mul_exact(a as int, b as int)),
        fp_ok(r as int),
{
    proof {
        lemma_mul_sign_abs(a as int, b as int);
    }
    let neg = (a < 0) != (b < 0);
    let aa: u128 = (if a < 0 {
        -a
    } else {
        a
    }) as u128;
    let ab: u128 = (if b < 0 {
        -b
    } else {
        b
    }) as u128;
    proof {
        lemma_mul_le(aa as int, ab as int, FP_MAX as int, FP_MAX as int);
    }
    let p: u128 = aa * ab;
    proof {
        assert(p as int == abs_int(a as int * b as int));
        vstd::arithmetic::div_mod::lemma_div_is_ordered(
            p as int,
            (FP_MAX as int) * (FP_MAX as int),
            SCALE as int,
        );
        assert((FP_MAX as int) * (FP_MAX as int) == 1000000000000000000000000int);
        assert(1000000000000000000000000int / (SCALE as int) == 1000000000000000000int);
    }
    let q: u128 = p / (SCALE as u128);
    if q >= (FP_MAX as u128) {
        if neg {
            -FP_MAX
        } else {
            FP_MAX
        }
    } else {
        let qi: i64 = q as i64;
        if neg {
            -qi
        } else {
            qi
        }
    }
}

/// Saturating fixed-point division by a positive divisor: `r` is
/// `a * SCALE / b`, rounded toward zero and clamped.
pub fn fp_div(a: i64, b: i64) -> (r: i64)
    requires
        fp_ok(a as int),
        0 < b,
    ensures
        r as int == fp_clamp(tdiv(a * SCALE, b as int)),
        fp_ok(r as int),
{
    proof {
        lemma_mul_sign_abs(a as int, SCALE as int);
    }
    let neg = a < 0;
    let aa: u128 = (if a < 0 {
        -a
    } else {
        a
    }) as u128;
    let p: u128 = aa * (SCALE as u128);
    proof {
        assert(p as int == abs_int(a as int * SCALE));
        lemma_mul_le(aa as int, SCALE as int, FP_MAX as int, SCALE as int);
    }
    let q: u128 = p / (b as u128);
    proof {
        vstd::arithmetic::div_mod::lemma_div_is_ordered_by_denominator(p as int, 1, b as int);
    }
    if q >= (FP_MAX as u128) {
        if neg {
            -FP_MAX
        } else {
            FP_MAX
        }
    } else {
        let qi: i64 = q as i64;
        if neg {
            -qi
        } else {
            qi
        }
    }
}

/// The integer square root of a non-negative value, as a mathematical
/// function: the unique `r >= 0` with `r * r <= x < (r + 1) * (r + 1)`.
pub open spec fn isqrt_spec(x: int) -> int {
    choose|r: int| 0 <= r && #[trigger] (r * r) <= x && x < (r + 1) * (r + 1)
}

/// `isqrt_spec` is pinned down by its characterization.
pub proof fn lemma_isqrt_unique(x: int, r: int)
    requires
        0 <= r,
        r * r <= x,
        x < (r + 1) * (r + 1),
    ensures
        isqrt_spec(x) == r,
{
    assert(0 <= r && r * r <= x && x < (r + 1) * (r + 1));
    let s = isqrt_spec(x);
    assert(0 <= s && s * s <= x && x < (s + 1) * (s + 1));
    assert(s == r) by (nonlinear_arith)
        requires
            0 <= r,
            r * r <= x,
            x < (r + 1) * (r + 1),
            0 <= s,
            s * s <= x,
            x < (s + 1) * (s + 1),
    ;
}

/// Every non-negative value has an integer square root, so `isqrt_spec`
/// satisfies its characterization.
pub proof fn lemma_isqrt_exists(x: int)
    requires
        0 <= x,
    ensures
        0 <= isqrt_spec(x),
        isqrt_spec(x) * isqrt_spec(x) <= x,
        x < (isqrt_spec(x) + 1) * (isqrt_spec(x) + 1),
    decreases x,
{
    if x == 0 {
        lemma_isqrt_unique(0, 0);
    } else {
        lemma_isqrt_exists(x - 1);
        let r = isqrt_spec(x - 1);
        if x < (r + 1) * (r + 1) {
            lemma_isqrt_unique(x, r);
        } else {
            assert(x == (r + 1) * (r + 1));
            assert((r + 1) * (r + 1) < (r + 2) * (r + 2)) by (nonlinear_arith)
                requires
                    0 <= r,
            ;
            lemma_isqrt_unique(x, r + 1);
        }
    }
}

/// Truncating division loses less than one divisor: the square of the
/// reconstructed product `d * (p / d)` is below `p * p` by at most `2 p d`.
pub proof fn lemma_floor_sq_lower(p: int, d: int)
    requires
        0 <= p,
        1 <= d,
    ensures
        (d * (p / d)) * (d * (p / d)) >= p * p - 2 * p * d,
        0 <= d * (p / d),
{
    vstd::arithmetic::div_mod::lemma_fundamental_div_mod(p, d);
    vstd::arithmetic::div_mod::lemma_remainder_upper(p, d);
    vstd::arithmetic::div_mod::lemma_div_pos_is_pos(p, d);
    let q = p / d;
    assert(d * q > p - d);
    assert((d * q) * (d * q) >= p * p - 2 * p * d && 0 <= d * q) by (nonlinear_arith)
        requires
            d * q > p - d,
            q >= 0,
            d >= 1,
            0 <= p,
    ;
}

/// Squares are ordered as their non-negative roots: if `a * a` is below
/// `(b + 1) * (b + 1)`, then `a` is at most `b`.
pub proof fn lemma_sq_le(a: int, b: int)
    requires
        0 <= a,
        0 <= b,
        a * a < (b + 1) * (b + 1),
    ensures
        a <= b,
{
    assert(a <= b) by (nonlinear_arith)
        requires
            0 <= a,
            0 <= b,
            a * a < (b + 1) * (b + 1),
    ;
}

/// Integer square root: the largest `r` with `r * r <= x`.
pub fn isqrt(x: u128) -> (r: u64)
    ensures
        (r as int) * (r as int) <= x as int,
        (x as int) < (r as int + 1) * (r as int + 1),
        r as int == isqrt_spec(x as int),
{
    let mut lo: u64 = 0;
    let mut hi: u64 = 0xFFFF_FFFF_FFFF_FFFF;
    proof {
        assert((x as int) < (hi as int + 1) * (hi as int + 1)) by (nonlinear_arith)
            requires
                x <= u128::MAX,
                hi == 0xFFFF_FFFF_FFFF_FFFFu64,
        ;
    }
    while lo < hi
        invariant
            lo <= hi,
            (lo as int) * (lo as int) <= x as int,
            (x as int) < (hi as int + 1) * (hi as int + 1),
        decreases hi - lo,
    {
        let mid: u64 = lo + (hi - lo) / 2 + 1;
        proof {
            lemma_mul_le(mid as int, mid as int, u64::MAX as int, u64::MAX as int);
        }
        let sq: u128 = (mid as u128) * (mid as u128);
        if sq <= x {
            lo = mid;
        } else {
            hi = mid - 1;
        }
    }
    proof {
        lemma_isqrt_unique(x as int, lo as int);
    }
    lo
}

/// Sine over one half-period, by Bhaskara's rational approximation:
/// for `m` in `[0, PI_FP]`, `16 m (pi - m) / (5 pi^2 - 4 m (pi - m))`,
/// scaled to fixed point.
pub open spec fn sin_half_spec(m: int) -> int {
    16 * (m * (PI_FP - m)) * SCALE / (5 * (PI_FP as int) * (PI_FP as int) - 4 * (m * (PI_FP
        - m)))
}

/// Sine of a non-negative fixed-point angle in radians.
pub open spec fn sin_nonneg_spec(x: int) -> int {
    let m = x % (TAU_FP as int);
    if m < PI_FP {
        sin_half_spec(m)
    } else {
        -sin_half_spec(m - PI_FP)
    }
}

/// Sine of a fixed-point angle in radians.
pub open spec fn sin_spec(x: int) -> int {
    if x >= 0 {
        sin_nonneg_spec(x)
    } else {
        -sin_nonneg_spec(-x)
    }
}

/// Cosine of a fixed-point angle in radians: the sine shifted by a quarter
/// period, using that cosine is even.
pub open spec fn cos_spec(x: int) -> int {
    sin_nonneg_spec(abs_int(x) + HALF_PI_FP)
}

/// A product of two sides of an interval peaks at its middle:
/// `m * (p - m) <= p * p / 4` for `0 <= m <= p`.
proof fn lemma_arch_bound(m: int, p: int)
    requires
        0 <= m <= p,
    ensures
        4 * (m * (p - m)) <= p * p,
        m * (p - m) >= 0,
{
    assert(4 * (m * (p - m)) <= p * p && m * (p - m) >= 0) by (nonlinear_arith)
        requires
            0 <= m <= p,
    ;
}

/// One half-period of the sine approximation.
fn sin_half(m: i64) -> (r: i64)
    requires
        0 <= m <= PI_FP,
    ensures
        r as int == sin_half_spec(m as int),
        0 <= r <= SCALE,
{
    proof {
        lemma_arch_bound(m as int, PI_FP as int);
        lemma_mul_le(m as int, PI_FP - m, PI_FP as int, PI_FP as int);
    }
    let t: u64 = (m as u64) * ((PI_FP - m) as u64);
    let den: u64 = 5 * (PI_FP as u64) * (PI_FP as u64) - 4 * t;
    let num: u128 = 16 * (t as u128) * (SCALE as u128);
    proof {
        assert(num as int <= (den as int) * (SCALE as int)) by (nonlinear_arith)
            requires
                num == 16 * (t as int) * (SCALE as int),
                den == 5 * (PI_FP as int) * (PI_FP as int) - 4 * (t as int),
                4 * (t as int) <= (PI_FP as int) * (PI_FP as int),
                SCALE == 1_000_000i64,
        ;
        vstd::arithmetic::div_mod::lemma_div_is_ordered(
            num as int,
            (den as int) * (SCALE as int),
            den as int,
        );
        vstd::arithmetic::div_mod::lemma_div_multiples_vanish(SCALE as int, den as int);
        vstd::arithmetic::div_mod::lemma_div_pos_is_pos(num as int, den as int);
    }
    let q: u128 = num / (den as u128);
    q as i64
}

/// Sine of a fixed-point angle in radians; the angle is reduced modulo one
/// period first.
pub fn fp_sin(x: i64) -> (r: i64)
    requires
        fp_ok(x as int),
    ensures
        r as int == sin_spec(x as int),
        -SCALE <= r <= SCALE,
{
    let neg = x < 0;
    let ax: u64 = (if x < 0 {
        -x
    } else {
        x
    }) as u64;
    let m: u64 = ax % (TAU_FP as u64);
    let s: i64 = if m < (PI_FP as u64) {
        sin_half(m as i64)
    } else {
        -sin_half((m - (PI_FP as u64)) as i64)
    };
    if neg {
        -s
    } else {
        s
    }
}

/// Cosine of a fixed-point angle in radians.
pub fn fp_cos(x: i64) -> (r: i64)
    requires
        fp_ok(x as int),
    ensures
        r as int == cos_spec(x as int),
        -SCALE <= r <= SCALE,
{
    let ax: u64 = (if x < 0 {
        -x
    } else {
        x
    }) as u64;
    let shifted: u64 = ax + (HALF_PI_FP as u64);
    let m: u64 = shifted % (TAU_FP as u64);
    if m < (PI_FP as u64) {
        sin_half(m as i64)
    } else {
        -sin_half((m - (PI_FP as u64)) as i64)
    }
}

/// Arctangent over `[0, 1]`, by the quadratic approximation
/// `atan(z) ~ (pi/4) z + 0.273 z (1 - z)`, scaled to fixed point.
pub open spec fn atan_unit_spec(z: int) -> int {
    ((QUARTER_PI_FP as int) * z + (ATAN_K as int) * (z * ((SCALE as int) - z)) / (SCALE as int))
        / (SCALE as int)
}

/// The ratio `a / b` in fixed point, for `0 <= a <= b`, `b > 0`.
pub open spec fn unit_ratio_spec(a: int, b: int) -> int {
    a * SCALE / b
}

/// Four-quadrant arctangent of `y / x`, in fixed-point radians in
/// `[-PI_FP, PI_FP]`; both components zero give angle zero.
pub open spec fn atan2_spec(y: int, x: int) -> int {
    let ay = abs_int(y);
    let ax = abs_int(x);
    if ay == 0 && ax == 0 {
        0
    } else {
        let a = if ax >= ay {
            atan_unit_spec(unit_ratio_spec(ay, ax))
        } else {
            (HALF_PI_FP as int) - atan_unit_spec(unit_ratio_spec(ax, ay))
        };
        let quad = if x >= 0 {
            a
        } else {
            (PI_FP as int) - a
        };
        if y >= 0 {
            quad
        } else {
            -quad
        }
    }
}

/// Arctangent over the unit interval.
fn atan_unit(z: i64) -> (r: i64)
    requires
        0 <= z <= SCALE,
    ensures
        r as int == atan_unit_spec(z as int),
        0 <= r <= HALF_PI_FP,
{
    proof {
        lemma_arch_bound(z as int, SCALE as int);
        lemma_mul_le(z as int, (SCALE - z) as int, SCALE as int, SCALE as int);
    }
    let t: u64 = (z as u64) * ((SCALE - z) as u64);
    let corr: u128 = ((ATAN_K as u128) * (t as u128)) / (SCALE as u128);
    proof {
        assert((ATAN_K as int) * (t as int) <= (ATAN_K as int) * ((SCALE as int) * (SCALE
            as int))) by (nonlinear_arith)
            requires
                0 <= t as int <= (SCALE as int) * (SCALE as int),
                ATAN_K == 273_000i64,
        ;
        vstd::arithmetic::div_mod::lemma_div_is_ordered(
            (ATAN_K as int) * (t as int),
            (ATAN_K as int) * ((SCALE as int) * (SCALE as int)),
            SCALE as int,
        );
        assert((ATAN_K as int) * ((1_000_000int) * (1_000_000int)) / (1_000_000int)
            == 273_000_000_000int);
        vstd::arithmetic::div_mod::lemma_div_pos_is_pos((ATAN_K as int) * (t as int), SCALE as int);
    }
    let num: u128 = (QUARTER_PI_FP as u128) * (z as u128) + corr;
    proof {
        assert((QUARTER_PI_FP as int) * (z as int) <= 785_398_000_000int) by (nonlinear_arith)
            requires
                0 <= z as int <= 1_000_000int,
                QUARTER_PI_FP == 785_398i64,
        ;
        vstd::arithmetic::div_mod::lemma_div_is_ordered(
            num as int,
            1_570_796_000_000int,
            SCALE as int,
        );
        assert(1_570_796_000_000int / 1_000_000int == 1_570_796int);
        vstd::arithmetic::div_mod::lemma_div_pos_is_pos(num as int, SCALE as int);
    }
    let q: u128 = num / (SCALE as u128);
    q as i64
}

/// The ratio `a / b` in fixed point.
fn unit_ratio(a: u64, b: u64) -> (r: i64)
    requires
        a <= b,
        0 < b,
    ensures
        r as int == unit_ratio_spec(a as int, b as int),
        0 <= r <= SCALE,
{
    proof {
        lemma_mul_le(a as int, SCALE as int, b as int, SCALE as int);
        vstd::arithmetic::div_mod::lemma_div_is_ordered(
            (a as int) * (SCALE as int),
            (b as int) * (SCALE as int),
            b as int,
        );
        vstd::arithmetic::div_mod::lemma_div_multiples_vanish(SCALE as int, b as int);
        vstd::arithmetic::div_mod::lemma_div_pos_is_pos((a as int) * (SCALE as int), b as int);
    }
    let q: u128 = ((a as u128) * (SCALE as u128)) / (b as u128);
    q as i64
}

/// Four-quadrant arctangent in fixed-point radians.
pub fn fp_atan2(y: i64, x: i64) -> (r: i64)
    requires
        fp_ok(y as int),
        fp_ok(x as int),
    ensures
        r as int == atan2_spec(y as int, x as int),
        -PI_FP <= r <= PI_FP,
{
    let ay: u64 = (if y < 0 {
        -y
    } else {
        y
    }) as u64;
    let ax: u64 = (if x < 0 {
        -x
    } else {
        x
    }) as u64;
    if ay == 0 && ax == 0 {
        return 0;
    }
    let a: i64 = if ax >= ay {
        atan_unit(unit_ratio(ay, ax))
    } else {
        HALF_PI_FP - atan_unit(unit_ratio(ax, ay))
    };
    let quad: i64 = if x >= 0 {
        a
    } else {
        PI_FP - a
    };
    if y >= 0 {
        quad
    } else {
        -quad
    }
}

} // verus!
