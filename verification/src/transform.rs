//! Affine transforms: a linear basis plus a translation.
//!
//! The basis columns carry any rotation and scale the host wants to apply;
//! the identity basis leaves directions untouched.

use vstd::prelude::*;

use crate::fixed::{fp_mul_exact, SCALE};
use crate::vec3::{vec3_add_spec, vec3_ok, vec3_scale_spec, Vec3};

verus! {

/// An affine transform: three basis columns and a translation.
#[derive(Clone, Copy, Debug, PartialEq, Eq, Structural)]
pub struct Transform {
    /// Image of the +X unit vector.
    pub x_axis: Vec3,
    /// Image of the +Y unit vector.
    pub y_axis: Vec3,
    /// Image of the +Z unit vector.
    pub z_axis: Vec3,
    /// Translation applied to points (not to vectors).
    pub translation: Vec3,
}

/// All four columns are in range.
pub open spec fn transform_ok(t: Transform) -> bool {
    vec3_ok(t.x_axis) && vec3_ok(t.y_axis) && vec3_ok(t.z_axis) && vec3_ok(t.translation)
}

/// Image of a direction vector: the linear part only.
pub open spec fn transform_vector_spec(t: Transform, v: Vec3) -> Vec3 {
    vec3_add_spec(
        vec3_add_spec(vec3_scale_spec(t.x_axis, v.x as int), vec3_scale_spec(t.y_axis, v.y as int)),
        vec3_scale_spec(t.z_axis, v.z as int),
    )
}

/// Image of a point: the linear part plus the translation.
pub open spec fn transform_point_spec(t: Transform, p: Vec3) -> Vec3 {
    vec3_add_spec(transform_vector_spec(t, p), t.translation)
}

impl Transform {
    /// The identity transform.
    pub fn identity() -> (t: Transform)
        ensures
            t == (Transform {
                x_axis: Vec3 { x: SCALE, y: 0, z: 0 },
                y_axis: Vec3 { x: 0, y: SCALE, z: 0 },
                z_axis: Vec3 { x: 0, y: 0, z: SCALE },
                translation: Vec3 { x: 0, y: 0, z: 0 },
            }),
            transform_ok(t),
    {
        Transform {
            x_axis: Vec3 { x: SCALE, y: 0, z: 0 },
            y_axis: Vec3 { x: 0, y: SCALE, z: 0 },
            z_axis: Vec3 { x: 0, y: 0, z: SCALE },
            translation: Vec3 { x: 0, y: 0, z: 0 },
        }
    }

    /// A pure translation.
    pub fn from_translation(translation: Vec3) -> (t: Transform)
        requires
            vec3_ok(translation),
        ensures
            transform_ok(t),
            t.translation == translation,
            t.x_axis == (Vec3 { x: SCALE, y: 0, z: 0 }),
            t.y_axis == (Vec3 { x: 0, y: SCALE, z: 0 }),
            t.z_axis == (Vec3 { x: 0, y: 0, z: SCALE }),
    {
        Transform {
            x_axis: Vec3 { x: SCALE, y: 0, z: 0 },
            y_axis: Vec3 { x: 0, y: SCALE, z: 0 },
            z_axis: Vec3 { x: 0, y: 0, z: SCALE },
            translation,
        }
    }

    /// Applies the linear part to a direction vector.
    pub fn apply_vector(&self, v: Vec3) -> (r: Vec3)
        requires
            transform_ok(*self),
            vec3_ok(v),
        ensures
            r == transform_vector_spec(*self, v),
            vec3_ok(r),
    {
        self.x_axis.scale(v.x).add(self.y_axis.scale(v.y)).add(self.z_axis.scale(v.z))
    }

    /// Applies the whole transform to a point.
    pub fn apply_point(&self, p: Vec3) -> (r: Vec3)
        requires
            transform_ok(*self),
            vec3_ok(p),
        ensures
            r == transform_point_spec(*self, p),
            vec3_ok(r),
    {
        self.apply_vector(p).add(self.translation)
    }
}

/// Scaling a unit basis column by a coordinate reproduces the coordinate:
/// `(c * SCALE) / SCALE == c`, and the zero components stay zero.
proof fn lemma_unit_column(c: i64)
    requires
        crate::fixed::fp_ok(c as int),
    ensures
        fp_mul_exact(SCALE as int, c as int) == c,
        fp_mul_exact(0, c as int) == 0,
{
    vstd::arithmetic::mul::lemma_mul_basics(c as int);
    if c >= 0 {
        vstd::arithmetic::div_mod::lemma_div_multiples_vanish(c as int, SCALE as int);
        assert((SCALE as int) * (c as int) == (SCALE as int) * (c as int));
    } else {
        vstd::arithmetic::div_mod::lemma_div_multiples_vanish(-(c as int), SCALE as int);
        assert(-((SCALE as int) * (c as int)) == (SCALE as int) * (-(c as int)))
            by (nonlinear_arith);
        assert((SCALE as int) * (c as int) < 0) by (nonlinear_arith)
            requires
                c < 0i64,
                SCALE == 1_000_000i64,
        ;
    }
    assert(0 * (c as int) == 0) by (nonlinear_arith);
    vstd::arithmetic::div_mod::lemma_div_basics(SCALE as int);
}

/// The identity transform maps every in-range point to itself.
pub proof fn lemma_identity_point(p: Vec3)
    requires
        vec3_ok(p),
    ensures
        transform_point_spec(
            Transform {
                x_axis: Vec3 { x: SCALE, y: 0, z: 0 },
                y_axis: Vec3 { x: 0, y: SCALE, z: 0 },
                z_axis: Vec3 { x: 0, y: 0, z: SCALE },
                translation: Vec3 { x: 0, y: 0, z: 0 },
            },
            p,
        ) == p,
{
    lemma_unit_column(p.x);
    lemma_unit_column(p.y);
    lemma_unit_column(p.z);
}

} // verus!
