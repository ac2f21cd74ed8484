//! A single simulated particle.

use vstd::prelude::*;

use crate::fixed::{atan2_spec, fp_add, fp_atan2, fp_clamp, fp_div, fp_ok, isqrt_spec, tdiv, SCALE};
use crate::rgba::{rgba_ok, Rgba};
use crate::transform::{transform_ok, transform_point_spec, Transform};
use crate::vec3::{norm_sq_int, normalize_spec, vec3_add_spec, vec3_ok, vec3_scale_spec, Vec3,
    NORM_FLOOR};

verus! {

/// How a particle's planar rotation is driven.
#[derive(Clone, Copy, Debug, PartialEq, Eq, Structural)]
pub enum ParticleRotation {
    /// The rotation is always derived from the travel direction and cannot
    /// be mutated directly.
    AlignToDirection {
        /// Added to the derived angle.
        offset: i64,
    },
    /// The rotation is simulated freely.
    FreeRotation {
        /// Current angle.
        rotation: i64,
        /// Angular velocity, applied every step.
        angular_velocity: i64,
    },
}

/// The rotation state's scalars are in range.
pub open spec fn rotation_state_wf(r: ParticleRotation) -> bool {
    match r {
        ParticleRotation::AlignToDirection { offset } => fp_ok(offset as int),
        ParticleRotation::FreeRotation { rotation, angular_velocity } => fp_ok(rotation as int)
            && fp_ok(angular_velocity as int),
    }
}

/// One live particle.
#[derive(Clone, Copy, Debug, PartialEq, Eq, Structural)]
pub struct Particle {
    /// Position, in the store's coordinate space.
    pub translation: Vec3,
    /// Rotation state.
    pub rotation: ParticleRotation,
    /// Quad size.
    pub size: i64,
    /// Remaining lifetime, in seconds.
    pub lifetime: i64,
    /// Lifetime the particle started with.
    pub start_lifetime: i64,
    /// Current color.
    pub color: Rgba,
    /// Velocity, in units per second.
    pub velocity: Vec3,
    /// Unit direction at emission; the fallback when velocity vanishes.
    pub start_direction: Vec3,
}

/// The particle's invariant: every scalar in range, and the remaining
/// lifetime between zero and the starting lifetime.
pub open spec fn particle_wf(p: Particle) -> bool {
    &&& vec3_ok(p.translation)
    &&& vec3_ok(p.velocity)
    &&& vec3_ok(p.start_direction)
    &&& rotation_state_wf(p.rotation)
    &&& fp_ok(p.size as int)
    &&& 0 <= p.lifetime <= p.start_lifetime
    &&& fp_ok(p.start_lifetime as int)
    &&& rgba_ok(p.color)
}

/// The lived share of the lifetime, as a fraction of `SCALE`; a zero
/// starting lifetime counts as fully lived.
pub open spec fn alive_ratio_spec(p: Particle) -> int {
    if p.start_lifetime > 0 {
        tdiv((p.start_lifetime - p.lifetime) * SCALE, p.start_lifetime as int)
    } else {
        SCALE as int
    }
}

/// A vector distribution sampled at a particle's lived-lifetime ratio.
pub open spec fn lifetime_sample_spec(d: crate::sample::RangeOrFixed<Vec3>, p: Particle) -> Vec3 {
    match d {
        crate::sample::RangeOrFixed::Fixed(v) => v,
        crate::sample::RangeOrFixed::Range { min, max } => Vec3 {
            x: crate::sample::lerp_exact(min.x as int, max.x as int, alive_ratio_spec(p)) as i64,
            y: crate::sample::lerp_exact(min.y as int, max.y as int, alive_ratio_spec(p)) as i64,
            z: crate::sample::lerp_exact(min.z as int, max.z as int, alive_ratio_spec(p)) as i64,
        },
    }
}

/// The direction a particle travels: its velocity normalized, or its
/// starting direction when the velocity is (nearly) zero.
pub open spec fn direction_spec(p: Particle) -> Vec3 {
    normalize_spec(p.velocity, p.start_direction)
}

/// The rotation a query returns: freely simulated, or derived fresh from
/// the travel direction plus the configured offset.
pub open spec fn rotation_query_spec(p: Particle) -> int {
    match p.rotation {
        ParticleRotation::AlignToDirection { offset } => {
            let d = direction_spec(p);
            fp_clamp(atan2_spec(d.y as int, d.x as int) + offset)
        },
        ParticleRotation::FreeRotation { rotation, .. } => rotation as int,
    }
}

/// One integration step: age by `dt`, move by `velocity * dt`, and advance
/// a free rotation by its angular velocity.
pub open spec fn particle_step_spec(p: Particle, dt: int) -> Particle {
    Particle {
        lifetime: (if p.lifetime - dt >= 0 {
            p.lifetime - dt
        } else {
            0
        }) as i64,
        translation: vec3_add_spec(p.translation, vec3_scale_spec(p.velocity, dt)),
        rotation: match p.rotation {
            ParticleRotation::FreeRotation { rotation, angular_velocity } => {
                ParticleRotation::FreeRotation {
                    rotation: fp_clamp(
                        rotation + fp_clamp(
                            crate::fixed::fp_mul_exact(angular_velocity as int, dt),
                        ),
                    ) as i64,
                    angular_velocity,
                }
            },
            r => r,
        },
        ..p
    }
}

impl Particle {
    /// The travel direction; `velocity == 0` falls back to the starting
    /// direction.
    pub fn non_zero_direction(&self) -> (r: Vec3)
        requires
            particle_wf(*self),
        ensures
            r == direction_spec(*self),
            self.velocity == (Vec3 { x: 0, y: 0, z: 0 }) ==> r == self.start_direction,
            vec3_ok(r),
    {
        let r = self.velocity.normalize_or(self.start_direction);
        proof {
            if self.velocity == (Vec3 { x: 0, y: 0, z: 0 }) {
                assert(self.velocity.x == 0 && self.velocity.y == 0 && self.velocity.z == 0);
                assert(norm_sq_int(self.velocity) == 0) by (nonlinear_arith)
                    requires
                        self.velocity.x == 0i64,
                        self.velocity.y == 0i64,
                        self.velocity.z == 0i64,
                ;
                assert(NORM_FLOOR * NORM_FLOOR == 1_000_000int);
            }
        }
        r
    }

    /// The current planar rotation, recomputed fresh on every query for
    /// direction-aligned particles.
    pub fn rotation(&self) -> (r: i64)
        requires
            particle_wf(*self),
        ensures
            r as int == rotation_query_spec(*self),
            fp_ok(r as int),
    {
        match self.rotation {
            ParticleRotation::AlignToDirection { offset } => {
                let d = self.non_zero_direction();
                fp_add(fp_atan2(d.y, d.x), offset)
            },
            ParticleRotation::FreeRotation { rotation, .. } => rotation,
        }
    }

    /// Tries to turn the particle by `delta`; returns false (and changes
    /// nothing) for direction-aligned particles.
    pub fn try_rotate(&mut self, delta: i64) -> (ok: bool)
        requires
            particle_wf(*old(self)),
            fp_ok(delta as int),
        ensures
            particle_wf(*final(self)),
            old(self).rotation matches ParticleRotation::AlignToDirection { .. } ==> !ok
                && *final(self) == *old(self),
            old(self).rotation matches ParticleRotation::FreeRotation {
                rotation,
                angular_velocity,
            } ==> ok && *final(self) == (Particle {
                rotation: ParticleRotation::FreeRotation {
                    rotation: fp_clamp(rotation + delta) as i64,
                    angular_velocity,
                },
                ..*old(self)
            }),
    {
        match self.rotation {
            ParticleRotation::AlignToDirection { .. } => false,
            ParticleRotation::FreeRotation { rotation, angular_velocity } => {
                self.rotation = ParticleRotation::FreeRotation {
                    rotation: fp_add(rotation, delta),
                    angular_velocity,
                };
                true
            },
        }
    }

    /// Tries to change the angular velocity by `delta`; returns false (and
    /// changes nothing) for direction-aligned particles.
    pub fn try_add_angular_velocity(&mut self, delta: i64) -> (ok: bool)
        requires
            particle_wf(*old(self)),
            fp_ok(delta as int),
        ensures
            particle_wf(*final(self)),
            old(self).rotation matches ParticleRotation::AlignToDirection { .. } ==> !ok
                && *final(self) == *old(self),
            old(self).rotation matches ParticleRotation::FreeRotation {
                rotation,
                angular_velocity,
            } ==> ok && *final(self) == (Particle {
                rotation: ParticleRotation::FreeRotation {
                    rotation,
                    angular_velocity: fp_clamp(angular_velocity + delta) as i64,
                },
                ..*old(self)
            }),
    {
        match self.rotation {
            ParticleRotation::AlignToDirection { .. } => false,
            ParticleRotation::FreeRotation { rotation, angular_velocity } => {
                self.rotation = ParticleRotation::FreeRotation {
                    rotation,
                    angular_velocity: fp_add(angular_velocity, delta),
                };
                true
            },
        }
    }

    /// Current speed: the length of the velocity.
    pub fn speed(&self) -> (r: i64)
        requires
            particle_wf(*self),
        ensures
            r as int == fp_clamp(isqrt_spec(norm_sq_int(self.velocity))),
            0 <= r,
            fp_ok(r as int),
    {
        self.velocity.length()
    }

    /// How long the particle has been alive.
    pub fn alive_time(&self) -> (r: i64)
        requires
            particle_wf(*self),
        ensures
            r == self.start_lifetime - self.lifetime,
            0 <= r <= self.start_lifetime,
    {
        self.start_lifetime - self.lifetime
    }

    /// The lived share of the lifetime, in `[0, SCALE]`; a zero starting
    /// lifetime counts as fully lived.
    pub fn alive_time_ratio(&self) -> (r: i64)
        requires
            particle_wf(*self),
        ensures
            self.start_lifetime > 0 ==> r as int == tdiv(
                (self.start_lifetime - self.lifetime) * SCALE,
                self.start_lifetime as int,
            ),
            self.start_lifetime == 0 ==> r == SCALE,
            r as int == alive_ratio_spec(*self),
            0 <= r <= SCALE,
    {
        if self.start_lifetime == 0 {
            SCALE
        } else {
            let alive = self.start_lifetime - self.lifetime;
            let r = fp_div(alive, self.start_lifetime);
            proof {
                vstd::arithmetic::div_mod::lemma_div_is_ordered(
                    (alive as int) * (SCALE as int),
                    (self.start_lifetime as int) * (SCALE as int),
                    self.start_lifetime as int,
                );
                crate::fixed::lemma_mul_le(
                    alive as int,
                    SCALE as int,
                    self.start_lifetime as int,
                    SCALE as int,
                );
                vstd::arithmetic::div_mod::lemma_div_multiples_vanish(
                    SCALE as int,
                    self.start_lifetime as int,
                );
                vstd::arithmetic::div_mod::lemma_div_pos_is_pos(
                    (alive as int) * (SCALE as int),
                    self.start_lifetime as int,
                );
            }
            r
        }
    }

    /// Returns `self` with its translation mapped through `transform`.
    pub fn transformed(self, transform: &Transform) -> (r: Particle)
        requires
            particle_wf(self),
            transform_ok(*transform),
        ensures
            r == (Particle {
                translation: transform_point_spec(*transform, self.translation),
                ..self
            }),
            particle_wf(r),
    {
        Particle { translation: transform.apply_point(self.translation), ..self }
    }

    /// One integration step of `dt` seconds.
    pub fn step(&mut self, dt: i64)
        requires
            particle_wf(*old(self)),
            0 <= dt,
            fp_ok(dt as int),
        ensures
            particle_wf(*final(self)),
            *final(self) == particle_step_spec(*old(self), dt as int),
    {
        self.lifetime = if self.lifetime >= dt {
            self.lifetime - dt
        } else {
            0
        };
        self.translation = self.translation.add(self.velocity.scale(dt));
        match self.rotation {
            ParticleRotation::FreeRotation { rotation, angular_velocity } => {
                self.rotation = ParticleRotation::FreeRotation {
                    rotation: fp_add(rotation, crate::fixed::fp_mul(angular_velocity, dt)),
                    angular_velocity,
                };
            },
            ParticleRotation::AlignToDirection { .. } => {},
        }
    }
}

impl Default for Particle {
    /// A white, unit-sized particle with one second to live, at rest at the
    /// origin, pointing up.
    fn default() -> (p: Particle)
        ensures
            particle_wf(p),
            p.translation == (Vec3 { x: 0, y: 0, z: 0 }),
            p.rotation == (ParticleRotation::FreeRotation { rotation: 0, angular_velocity: 0 }),
            p.size == SCALE,
            p.lifetime == SCALE,
            p.start_lifetime == SCALE,
            p.velocity == (Vec3 { x: 0, y: 0, z: 0 }),
            p.start_direction == (Vec3 { x: 0, y: SCALE, z: 0 }),
    {
        Particle {
            translation: Vec3::zero(),
            rotation: ParticleRotation::FreeRotation { rotation: 0, angular_velocity: 0 },
            size: SCALE,
            lifetime: SCALE,
            start_lifetime: SCALE,
            color: Rgba::white(),
            velocity: Vec3::zero(),
            start_direction: Vec3::unit_y(),
        }
    }
}

/// For a direction-aligned particle, a rotation query always returns the
/// angle of the current travel direction plus the configured offset,
/// recomputed fresh from the particle's state.
pub proof fn lemma_aligned_rotation(p: Particle, offset: i64)
    requires
        particle_wf(p),
        p.rotation == (ParticleRotation::AlignToDirection { offset }),
    ensures
        rotation_query_spec(p) == fp_clamp(
            atan2_spec(direction_spec(p).y as int, direction_spec(p).x as int) + offset,
        ),
{
}

} // verus!
