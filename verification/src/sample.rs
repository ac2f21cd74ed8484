//! Distribution-valued parameters: a fixed value or a uniform range.

use vstd::prelude::*;

use crate::fixed::{fp_ok, tdiv, SCALE};
use crate::rng::ParticleRng;
use crate::vec3::{vec3_ok, Vec3};

verus! {

/// Either a fixed value or a uniform `[min, max]` range.
#[derive(Clone, Copy, Debug)]
pub enum RangeOrFixed<T> {
    /// Every draw returns this value.
    Fixed(T),
    /// Draws land inside the inclusive range.
    Range { min: T, max: T },
}

/// Linear interpolation from `a` to `b` by `d / SCALE` (`d` already clamped
/// to `[0, SCALE]`), rounded toward zero.
pub open spec fn lerp_exact(a: int, b: int, d: int) -> int {
    a + tdiv((b - a) * d, SCALE as int)
}

impl RangeOrFixed<i64> {
    /// Whether `v` is a value this distribution can produce.
    pub open spec fn contains(self, v: i64) -> bool {
        match self {
            RangeOrFixed::Fixed(f) => v == f,
            RangeOrFixed::Range { min, max } => min <= v <= max,
        }
    }

    /// Whether every value the distribution can produce is non-negative.
    pub open spec fn nonneg(self) -> bool {
        match self {
            RangeOrFixed::Fixed(f) => f >= 0,
            RangeOrFixed::Range { min, .. } => min >= 0,
        }
    }

    /// A scalar distribution is well formed when its values are in range and
    /// its bounds are ordered.
    pub open spec fn wf(self) -> bool {
        match self {
            RangeOrFixed::Fixed(v) => fp_ok(v as int),
            RangeOrFixed::Range { min, max } => fp_ok(min as int) && fp_ok(max as int) && min
                <= max,
        }
    }

    /// Draws a scalar: `Fixed(v)` always returns `v` untouched by the
    /// generator, `Range` draws uniformly inside `[min, max]`.
    pub fn evaluate(&self, rng: &mut ParticleRng) -> (r: i64)
        requires
            self.wf(),
        ensures
            (*self) matches RangeOrFixed::Fixed(v) ==> r == v,
            (*self) matches RangeOrFixed::Range { min, max } ==> min <= r <= max,
            (*self) matches RangeOrFixed::Range { min, max } ==> (min == max ==> r == min),
            (*self) is Fixed ==> *final(rng) == *old(rng),
            self.contains(r),
            self.nonneg() ==> r >= 0,
            fp_ok(r as int),
    {
        match self {
            RangeOrFixed::Fixed(v) => *v,
            RangeOrFixed::Range { min, max } => rng.next_inclusive_i64(*min, *max),
        }
    }
}

impl RangeOrFixed<u64> {
    /// A count distribution is well formed when its bounds are ordered.
    pub open spec fn wf(self) -> bool {
        match self {
            RangeOrFixed::Fixed(_) => true,
            RangeOrFixed::Range { min, max } => min <= max,
        }
    }

    /// Draws a count: `Fixed(v)` always returns `v` untouched by the
    /// generator, `Range` draws uniformly inside `[min, max]`.
    pub fn evaluate(&self, rng: &mut ParticleRng) -> (r: u64)
        requires
            self.wf(),
        ensures
            (*self) matches RangeOrFixed::Fixed(v) ==> r == v,
            (*self) matches RangeOrFixed::Range { min, max } ==> min <= r <= max,
            (*self) matches RangeOrFixed::Range { min, max } ==> (min == max ==> r == min),
            (*self) is Fixed ==> *final(rng) == *old(rng),
    {
        match self {
            RangeOrFixed::Fixed(v) => *v,
            RangeOrFixed::Range { min, max } => rng.next_inclusive_u64(*min, *max),
        }
    }

    /// The smallest count the distribution can draw.
    pub open spec fn low(self) -> u64 {
        match self {
            RangeOrFixed::Fixed(v) => v,
            RangeOrFixed::Range { min, max } => min,
        }
    }

    /// The largest count the distribution can draw.
    pub open spec fn high(self) -> u64 {
        match self {
            RangeOrFixed::Fixed(v) => v,
            RangeOrFixed::Range { min, max } => max,
        }
    }
}

impl RangeOrFixed<Vec3> {
    /// A vector distribution is well formed when its values are in range and
    /// its bounds are ordered componentwise.
    pub open spec fn wf(self) -> bool {
        match self {
            RangeOrFixed::Fixed(v) => vec3_ok(v),
            RangeOrFixed::Range { min, max } => vec3_ok(min) && vec3_ok(max) && min.x <= max.x
                && min.y <= max.y && min.z <= max.z,
        }
    }

    /// Draws a vector: `Fixed(v)` always returns `v` untouched by the
    /// generator, `Range` draws each component uniformly.
    pub fn evaluate_rng(&self, rng: &mut ParticleRng) -> (r: Vec3)
        requires
            self.wf(),
        ensures
            (*self) matches RangeOrFixed::Fixed(v) ==> r == v,
            (*self) matches RangeOrFixed::Range { min, max } ==> min.x <= r.x <= max.x && min.y <= r.y
                <= max.y && min.z <= r.z <= max.z,
            (*self) is Fixed ==> *final(rng) == *old(rng),
            vec3_ok(r),
    {
        match self {
            RangeOrFixed::Fixed(v) => *v,
            RangeOrFixed::Range { min, max } => {
                let x = rng.next_inclusive_i64(min.x, max.x);
                let y = rng.next_inclusive_i64(min.y, max.y);
                let z = rng.next_inclusive_i64(min.z, max.z);
                Vec3 { x, y, z }
            },
        }
    }

    /// Interpolates between the bounds by `delta / SCALE`, clamping `delta`
    /// to `[0, SCALE]` first; `Fixed(v)` returns `v` for every `delta`.
    pub fn evaluate_linear(&self, delta: i64) -> (r: Vec3)
        requires
            self.wf(),
            fp_ok(delta as int),
        ensures
            (*self) matches RangeOrFixed::Fixed(v) ==> r == v,
            (*self) matches RangeOrFixed::Range { min, max } ==> ({
                let d = if delta < 0 {
                    0int
                } else if delta > SCALE {
                    SCALE as int
                } else {
                    delta as int
                };
                &&& r.x as int == lerp_exact(min.x as int, max.x as int, d)
                &&& r.y as int == lerp_exact(min.y as int, max.y as int, d)
                &&& r.z as int == lerp_exact(min.z as int, max.z as int, d)
            }),
            vec3_ok(r),
    {
        match self {
            RangeOrFixed::Fixed(v) => *v,
            RangeOrFixed::Range { min, max } => {
                let d = if delta < 0 {
                    0
                } else if delta > SCALE {
                    SCALE
                } else {
                    delta
                };
                Vec3 {
                    x: lerp(min.x, max.x, d),
                    y: lerp(min.y, max.y, d),
                    z: lerp(min.z, max.z, d),
                }
            },
        }
    }
}

/// Linear interpolation from `a` to `b` by `d / SCALE`; the result stays
/// between `a` and `b`.
pub fn lerp(a: i64, b: i64, d: i64) -> (r: i64)
    requires
        fp_ok(a as int),
        fp_ok(b as int),
        0 <= d <= SCALE,
    ensures
        r as int == lerp_exact(a as int, b as int, d as int),
        a <= b ==> a <= r <= b,
        b <= a ==> b <= r <= a,
        fp_ok(r as int),
{
    let neg = b < a;
    let span: u64 = (if b < a {
        a - b
    } else {
        b - a
    }) as u64;
    proof {
        crate::fixed::lemma_mul_le(span as int, d as int, 2 * crate::fixed::FP_MAX, SCALE as int);
    }
    let num: u128 = (span as u128) * (d as u128);
    let q: u128 = num / (SCALE as u128);
    proof {
        crate::fixed::lemma_mul_le(span as int, d as int, span as int, SCALE as int);
        vstd::arithmetic::div_mod::lemma_div_is_ordered(
            num as int,
            (span as int) * (SCALE as int),
            SCALE as int,
        );
        vstd::arithmetic::div_mod::lemma_div_multiples_vanish(span as int, SCALE as int);
        vstd::arithmetic::div_mod::lemma_div_pos_is_pos(num as int, SCALE as int);
    }
    let step: i64 = q as i64;
    proof {
        if neg {
            assert((b as int - a as int) * (d as int) == -((span as int) * (d as int)))
                by (nonlinear_arith)
                requires
                    span as int == a as int - b as int,
            ;
        } else {
            assert((b as int - a as int) * (d as int) == (span as int) * (d as int))
                by (nonlinear_arith)
                requires
                    span as int == b as int - a as int,
            ;
        }
    }
    if neg {
        a - step
    } else {
        a + step
    }
}

} // verus!
