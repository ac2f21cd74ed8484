//! The particle factory: distribution-valued initial parameters, and the
//! construction of a fully initialized particle from an emission sample.

use vstd::prelude::*;

use crate::fixed::{fp_ok, SCALE};
use crate::particle::{particle_wf, Particle, ParticleRotation};
use crate::rgba::Rgba;
use crate::rng::ParticleRng;
use crate::sample::RangeOrFixed;
use crate::vec3::{vec3_ok, vec3_scale_spec, Vec3};

verus! {

/// How new particles rotate.
#[derive(Clone, Copy, Debug)]
pub enum RotationMode {
    /// Rotation always follows the travel direction; modifiers cannot
    /// change it.
    AlignToDirection {
        /// Offset added to the derived angle.
        offset: i64,
    },
    /// Free rotation with sampled initial angle and angular velocity.
    FreeRotation {
        /// Initial angle distribution.
        start_rotation: RangeOrFixed<i64>,
        /// Initial angular velocity distribution.
        start_angular_velocity: RangeOrFixed<i64>,
    },
}

/// A valid rotation mode.
pub open spec fn rotation_mode_wf(m: RotationMode) -> bool {
    match m {
        RotationMode::AlignToDirection { offset } => fp_ok(offset as int),
        RotationMode::FreeRotation { start_rotation, start_angular_velocity } => {
            start_rotation.wf() && start_angular_velocity.wf()
        },
    }
}

/// Initial-value distributions for new particles.
#[derive(Clone, Copy, Debug)]
pub struct ParticleParams {
    /// Lifetime distribution, in seconds.
    pub start_lifetime: RangeOrFixed<i64>,
    /// Size distribution.
    pub start_size: RangeOrFixed<i64>,
    /// Rotation mode.
    pub rotation: RotationMode,
    /// Speed distribution along the emitted direction.
    pub start_speed: RangeOrFixed<i64>,
    /// Color distribution.
    pub start_color: RangeOrFixed<Rgba>,
}

/// Valid parameters: every distribution well formed, lifetimes never
/// negative.
pub open spec fn params_wf(p: ParticleParams) -> bool {
    &&& p.start_lifetime.wf()
    &&& p.start_lifetime.nonneg()
    &&& p.start_size.wf()
    &&& rotation_mode_wf(p.rotation)
    &&& p.start_speed.wf()
    &&& p.start_color.wf()
}

impl ParticleParams {
    /// Builds one particle at `position` moving along `start_direction`,
    /// drawing each parameter from its distribution. The remaining and
    /// starting lifetime begin equal.
    pub fn get_particle(
        &self,
        position: Vec3,
        start_direction: Vec3,
        rng: &mut ParticleRng,
    ) -> (p: Particle)
        requires
            params_wf(*self),
            vec3_ok(position),
            vec3_ok(start_direction),
        ensures
            particle_wf(p),
            p.translation == position,
            p.start_direction == start_direction,
            p.lifetime == p.start_lifetime,
            self.start_lifetime.contains(p.start_lifetime),
            self.start_size.contains(p.size),
            self.rotation matches RotationMode::AlignToDirection { offset } ==> p.rotation == (
            ParticleRotation::AlignToDirection { offset }),
            self.rotation matches RotationMode::FreeRotation {
                start_rotation,
                start_angular_velocity,
            } ==> (p.rotation matches ParticleRotation::FreeRotation {
                rotation,
                angular_velocity,
            } && start_rotation.contains(rotation) && start_angular_velocity.contains(
                angular_velocity,
            )),
            exists|s: i64|
                self.start_speed.contains(s) && p.velocity == #[trigger] vec3_scale_spec(
                    start_direction,
                    s as int,
                ),
            self.start_color matches RangeOrFixed::Fixed(c) ==> p.color == c,
            self.start_color matches RangeOrFixed::Range { min, max } ==> (exists|d: int|
                0 <= d <= SCALE && p.color == crate::rgba::rgba_lerp_exact(min, max, d)),
    {
        let lifetime = self.start_lifetime.evaluate(rng);
        let rotation = match &self.rotation {
            RotationMode::AlignToDirection { offset } => ParticleRotation::AlignToDirection {
                offset: *offset,
            },
            RotationMode::FreeRotation { start_rotation, start_angular_velocity } => {
                ParticleRotation::FreeRotation {
                    rotation: start_rotation.evaluate(rng),
                    angular_velocity: start_angular_velocity.evaluate(rng),
                }
            },
        };
        let size = self.start_size.evaluate(rng);
        let color = self.start_color.evaluate(rng);
        let speed = self.start_speed.evaluate(rng);
        let velocity = start_direction.scale(speed);
        Particle {
            translation: position,
            rotation,
            size,
            lifetime,
            start_lifetime: lifetime,
            color,
            velocity,
            start_direction,
        }
    }
}

impl Default for RotationMode {
    /// Free rotation, at rest.
    fn default() -> (m: RotationMode)
        ensures
            rotation_mode_wf(m),
            m matches RotationMode::FreeRotation { start_rotation, start_angular_velocity }
                && start_rotation == RangeOrFixed::<i64>::Fixed(0) && start_angular_velocity
                == RangeOrFixed::<i64>::Fixed(0),
    {
        RotationMode::FreeRotation {
            start_rotation: RangeOrFixed::Fixed(0),
            start_angular_velocity: RangeOrFixed::Fixed(0),
        }
    }
}

impl Default for ParticleParams {
    /// Five-second lifetime, unit size and speed, free rotation at rest,
    /// white color.
    fn default() -> (p: ParticleParams)
        ensures
            params_wf(p),
    {
        ParticleParams {
            start_lifetime: RangeOrFixed::Fixed(5 * SCALE),
            start_size: RangeOrFixed::Fixed(SCALE),
            rotation: RotationMode::FreeRotation {
                start_rotation: RangeOrFixed::Fixed(0),
                start_angular_velocity: RangeOrFixed::Fixed(0),
            },
            start_speed: RangeOrFixed::Fixed(SCALE),
            start_color: RangeOrFixed::Fixed(Rgba { r: SCALE, g: SCALE, b: SCALE, a: SCALE }),
        }
    }
}

} // verus!
