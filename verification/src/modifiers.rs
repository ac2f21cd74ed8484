//! Composable per-particle and per-system modifiers, applied after
//! integration in a fixed order.

use vstd::prelude::*;

use crate::fixed::{fp_add, fp_clamp, fp_cos, fp_div, fp_mul, fp_mul_exact, fp_ok, fp_sin,
    fp_sub, cos_spec, sin_spec, isqrt_spec, tdiv, SCALE};
use crate::particle::{alive_ratio_spec, particle_wf, Particle, ParticleRotation};
use crate::rgba::{gradient_eval, ColorGradient};
use crate::sample::RangeOrFixed;
use crate::store::ParticleSystem;
use crate::vec3::{norm_sq_int, normalize_spec, vec3_add_spec, vec3_ok, vec3_scale_spec, vec3_sub_spec, Vec3};

verus! {

/// Caps the live population: excess particles are dropped oldest-first.
#[derive(Clone, Copy, Debug, PartialEq, Eq, Structural)]
pub struct MaxParticleCount(pub usize);

impl MaxParticleCount {
    /// Trims the store down to the cap, dropping the oldest (lowest-index)
    /// particles first.
    pub fn apply(&self, particles: &mut ParticleSystem)
        requires
            old(particles).wf(),
        ensures
            final(particles).wf(),
            final(particles).is_world_space() == old(particles).is_world_space(),
            old(particles).particles_seq().len() <= self.0 ==> final(particles).particles_seq()
                == old(particles).particles_seq(),
            old(particles).particles_seq().len() > self.0 ==> final(particles).particles_seq()
                == old(particles).particles_seq().subrange(
                old(particles).particles_seq().len() - self.0,
                old(particles).particles_seq().len() as int,
            ),
    {
        particles.trim_oldest(self.0)
    }
}

impl Default for MaxParticleCount {
    /// One thousand particles.
    fn default() -> (m: MaxParticleCount)
        ensures
            m.0 == 1000,
    {
        MaxParticleCount(1000)
    }
}

/// Caps each particle's speed.
#[derive(Clone, Copy, Debug, PartialEq, Eq, Structural)]
pub struct MaxParticleSpeed(pub i64);

impl MaxParticleSpeed {
    /// Rescales the velocity onto the cap when it is faster.
    pub fn apply(&self, particle: &mut Particle)
        requires
            particle_wf(*old(particle)),
            0 <= self.0,
            fp_ok(self.0 as int),
        ensures
            particle_wf(*final(particle)),
            fp_clamp(isqrt_spec(norm_sq_int(old(particle).velocity))) <= self.0 ==> *final(particle) == *old(particle),
            fp_clamp(isqrt_spec(norm_sq_int(old(particle).velocity))) > self.0
                ==> *final(particle) == (Particle {
                velocity: vec3_scale_spec(
                    normalize_spec(old(particle).velocity, old(particle).start_direction),
                    self.0 as int,
                ),
                ..*old(particle)
            }),
    {
        let speed = particle.speed();
        if speed > self.0 {
            let dir = particle.velocity.normalize_or(particle.start_direction);
            particle.velocity = dir.scale(self.0);
        }
    }
}

/// Caps each particle's size.
#[derive(Clone, Copy, Debug, PartialEq, Eq, Structural)]
pub struct MaxParticleSize(pub i64);

impl MaxParticleSize {
    /// Clamps the size down to the cap.
    pub fn apply(&self, particle: &mut Particle)
        requires
            particle_wf(*old(particle)),
            fp_ok(self.0 as int),
        ensures
            particle_wf(*final(particle)),
            old(particle).size <= self.0 ==> *final(particle) == *old(particle),
            old(particle).size > self.0 ==> *final(particle) == (Particle {
                size: self.0,
                ..*old(particle)
            }),
    {
        if particle.size > self.0 {
            particle.size = self.0;
        }
    }
}

/// Constant acceleration.
#[derive(Clone, Copy, Debug, PartialEq, Eq, Structural)]
pub struct ParticleGravity(pub Vec3);

impl ParticleGravity {
    /// Adds `gravity * dt` to the velocity.
    pub fn apply(&self, particle: &mut Particle, delta_time: i64)
        requires
            particle_wf(*old(particle)),
            vec3_ok(self.0),
            0 <= delta_time,
            fp_ok(delta_time as int),
        ensures
            particle_wf(*final(particle)),
            *final(particle) == (Particle {
                velocity: vec3_add_spec(
                    old(particle).velocity,
                    vec3_scale_spec(self.0, delta_time as int),
                ),
                ..*old(particle)
            }),
    {
        particle.velocity = particle.velocity.add(self.0.scale(delta_time));
    }
}

/// Turns free-rotating particles at a constant rate.
#[derive(Clone, Copy, Debug, PartialEq, Eq, Structural)]
pub struct RotationOverTime(pub i64);

impl RotationOverTime {
    /// Adds `rate * dt` to the rotation; direction-aligned particles are
    /// left untouched.
    pub fn apply(&self, particle: &mut Particle, delta_time: i64)
        requires
            particle_wf(*old(particle)),
            fp_ok(self.0 as int),
            0 <= delta_time,
            fp_ok(delta_time as int),
        ensures
            particle_wf(*final(particle)),
            old(particle).rotation is AlignToDirection ==> *final(particle) == *old(particle),
            old(particle).rotation matches ParticleRotation::FreeRotation {
                rotation,
                angular_velocity,
            } ==> *final(particle) == (Particle {
                rotation: ParticleRotation::FreeRotation {
                    rotation: fp_clamp(
                        rotation + fp_clamp(fp_mul_exact(delta_time as int, self.0 as int)),
                    ) as i64,
                    angular_velocity,
                },
                ..*old(particle)
            }),
    {
        let delta = fp_mul(delta_time, self.0);
        particle.try_rotate(delta);
    }
}

/// The turn a velocity-driven rotation applies in one step: the speed
/// scaled by the coefficient and `dt`, signed like the travel direction's
/// X component (or always forward when `abs` is set).
pub open spec fn rotation_over_velocity_delta(p: Particle, value: int, abs: bool, dt: int) -> int {
    let dir_x = normalize_spec(p.velocity, p.start_direction).x as int;
    let sign: int = if abs || dir_x >= 0 {
        1
    } else {
        -1
    };
    let speed = fp_clamp(isqrt_spec(norm_sq_int(p.velocity)));
    fp_clamp(fp_mul_exact(fp_clamp(fp_mul_exact(sign * speed, dt)), value))
}

/// Turns free-rotating particles in proportion to their speed.
#[derive(Clone, Copy, Debug, PartialEq, Eq, Structural)]
pub struct RotationOverVelocity {
    /// The rotation coefficient.
    pub value: i64,
    /// Ignore the travel direction's sign.
    pub abs: bool,
}

impl RotationOverVelocity {
    /// Adds the speed-proportional turn; direction-aligned particles are
    /// left untouched.
    pub fn apply(&self, particle: &mut Particle, delta_time: i64)
        requires
            particle_wf(*old(particle)),
            fp_ok(self.value as int),
            0 <= delta_time,
            fp_ok(delta_time as int),
        ensures
            particle_wf(*final(particle)),
            old(particle).rotation is AlignToDirection ==> *final(particle) == *old(particle),
            old(particle).rotation matches ParticleRotation::FreeRotation {
                rotation,
                angular_velocity,
            } ==> *final(particle) == (Particle {
                rotation: ParticleRotation::FreeRotation {
                    rotation: fp_clamp(
                        rotation + rotation_over_velocity_delta(
                            *old(particle),
                            self.value as int,
                            self.abs,
                            delta_time as int,
                        ),
                    ) as i64,
                    angular_velocity,
                },
                ..*old(particle)
            }),
    {
        let dir = particle.non_zero_direction();
        let speed = particle.speed();
        let signed_speed = if self.abs || dir.x >= 0 {
            speed
        } else {
            -speed
        };
        let delta = fp_mul(fp_mul(signed_speed, delta_time), self.value);
        proof {
            if dir.x >= 0 || self.abs {
                assert(1 * (speed as int) == speed as int) by (nonlinear_arith);
            } else {
                assert(-1 * (speed as int) == -(speed as int)) by (nonlinear_arith);
            }
        }
        particle.try_rotate(delta);
    }
}

/// Grows (or shrinks) particles over time.
#[derive(Clone, Copy, Debug, PartialEq, Eq, Structural)]
pub struct SizeOverTime(pub i64);

impl SizeOverTime {
    /// Adds `rate * dt` to the size.
    pub fn apply(&self, particle: &mut Particle, delta_time: i64)
        requires
            particle_wf(*old(particle)),
            fp_ok(self.0 as int),
            0 <= delta_time,
            fp_ok(delta_time as int),
        ensures
            particle_wf(*final(particle)),
            *final(particle) == (Particle {
                size: fp_clamp(
                    old(particle).size + fp_clamp(
                        fp_mul_exact(delta_time as int, self.0 as int),
                    ),
                ) as i64,
                ..*old(particle)
            }),
    {
        particle.size = fp_add(particle.size, fp_mul(delta_time, self.0));
    }
}

/// Grows particles in proportion to their speed.
#[derive(Clone, Copy, Debug, PartialEq, Eq, Structural)]
pub struct SizeOverSpeed(pub i64);

impl SizeOverSpeed {
    /// Adds `speed * dt * rate` to the size.
    pub fn apply(&self, particle: &mut Particle, delta_time: i64)
        requires
            particle_wf(*old(particle)),
            fp_ok(self.0 as int),
            0 <= delta_time,
            fp_ok(delta_time as int),
        ensures
            particle_wf(*final(particle)),
            *final(particle) == (Particle {
                size: fp_clamp(
                    old(particle).size + fp_clamp(
                        fp_mul_exact(
                            fp_clamp(
                                fp_mul_exact(
                                    fp_clamp(isqrt_spec(norm_sq_int(old(particle).velocity))),
                                    delta_time as int,
                                ),
                            ),
                            self.0 as int,
                        ),
                    ),
                ) as i64,
                ..*old(particle)
            }),
    {
        let speed = particle.speed();
        particle.size = fp_add(particle.size, fp_mul(fp_mul(speed, delta_time), self.0));
    }
}

/// Accelerates particles uniformly on every axis.
#[derive(Clone, Copy, Debug, PartialEq, Eq, Structural)]
pub struct SpeedOverTime(pub i64);

impl SpeedOverTime {
    /// Adds `rate * dt` to every velocity component.
    pub fn apply(&self, particle: &mut Particle, delta_time: i64)
        requires
            particle_wf(*old(particle)),
            fp_ok(self.0 as int),
            0 <= delta_time,
            fp_ok(delta_time as int),
        ensures
            particle_wf(*final(particle)),
            *final(particle) == (Particle {
                velocity: ({
                    let d = fp_clamp(fp_mul_exact(delta_time as int, self.0 as int)) as i64;
                    vec3_add_spec(old(particle).velocity, Vec3 { x: d, y: d, z: d })
                }),
                ..*old(particle)
            }),
    {
        let d = fp_mul(delta_time, self.0);
        particle.velocity = particle.velocity.add(Vec3 { x: d, y: d, z: d });
    }
}

/// Accelerates particles along a fixed vector.
#[derive(Clone, Copy, Debug, PartialEq, Eq, Structural)]
pub struct VelocityOverTime(pub Vec3);

impl VelocityOverTime {
    /// Adds `vector * dt` to the velocity.
    pub fn apply(&self, particle: &mut Particle, delta_time: i64)
        requires
            particle_wf(*old(particle)),
            vec3_ok(self.0),
            0 <= delta_time,
            fp_ok(delta_time as int),
        ensures
            particle_wf(*final(particle)),
            *final(particle) == (Particle {
                velocity: vec3_add_spec(
                    old(particle).velocity,
                    vec3_scale_spec(self.0, delta_time as int),
                ),
                ..*old(particle)
            }),
    {
        particle.velocity = particle.velocity.add(self.0.scale(delta_time));
    }
}

/// Spins free-rotating particles up over time.
#[derive(Clone, Copy, Debug, PartialEq, Eq, Structural)]
pub struct AngularVelocityOverTime(pub i64);

impl AngularVelocityOverTime {
    /// Adds `rate * dt` to the angular velocity; direction-aligned
    /// particles are left untouched.
    pub fn apply(&self, particle: &mut Particle, delta_time: i64)
        requires
            particle_wf(*old(particle)),
            fp_ok(self.0 as int),
            0 <= delta_time,
            fp_ok(delta_time as int),
        ensures
            particle_wf(*final(particle)),
            old(particle).rotation is AlignToDirection ==> *final(particle) == *old(particle),
            old(particle).rotation matches ParticleRotation::FreeRotation {
                rotation,
                angular_velocity,
            } ==> *final(particle) == (Particle {
                rotation: ParticleRotation::FreeRotation {
                    rotation,
                    angular_velocity: fp_clamp(
                        angular_velocity + fp_clamp(
                            fp_mul_exact(delta_time as int, self.0 as int),
                        ),
                    ) as i64,
                },
                ..*old(particle)
            }),
    {
        let delta = fp_mul(delta_time, self.0);
        particle.try_add_angular_velocity(delta);
    }
}

/// Accelerates particles along a vector sampled over their lifetime.
#[derive(Clone, Copy, Debug)]
pub struct LinearVelocityOverLifeTime(pub RangeOrFixed<Vec3>);

impl LinearVelocityOverLifeTime {
    /// Adds the lifetime-interpolated vector, scaled by `dt`, to the
    /// velocity.
    pub fn apply(&self, particle: &mut Particle, delta_time: i64)
        requires
            particle_wf(*old(particle)),
            self.0.wf(),
            0 <= delta_time,
            fp_ok(delta_time as int),
        ensures
            particle_wf(*final(particle)),
            final(particle).velocity == vec3_add_spec(
                old(particle).velocity,
                vec3_scale_spec(
                    crate::particle::lifetime_sample_spec(self.0, *old(particle)),
                    delta_time as int,
                ),
            ),
            *final(particle) == (Particle {
                velocity: final(particle).velocity,
                ..*old(particle)
            }),
    {
        let ratio = particle.alive_time_ratio();
        let v = self.0.evaluate_linear(ratio);
        particle.velocity = particle.velocity.add(v.scale(delta_time));
    }
}

/// A fixed-point product, clamped: shorthand for the modifier formulas.
pub open spec fn fpm(a: int, b: int) -> int {
    fp_clamp(fp_mul_exact(a, b))
}

/// A clamped sum: shorthand for the modifier formulas.
pub open spec fn fps(a: int, b: int) -> int {
    fp_clamp(a + b)
}

/// The tangential velocity an orbital modifier adds (before the `dt`
/// scaling): the offset-from-pivot vector `t` rotated in the YZ, ZX and
/// XY planes by the per-axis angles in `v`, skipping zero angles.
pub open spec fn orbital_target_spec(t: Vec3, v: Vec3) -> Vec3 {
    let x0: int = 0;
    let y0: int = 0;
    let z0: int = 0;
    let y1 = if v.x != 0 {
        fps(y0, fp_clamp(fpm(t.y as int, cos_spec(v.x as int)) - fpm(t.z as int, sin_spec(v.x as int))))
    } else {
        y0
    };
    let z1 = if v.x != 0 {
        fps(z0, fps(fpm(t.y as int, sin_spec(v.x as int)), fpm(t.z as int, cos_spec(v.x as int))))
    } else {
        z0
    };
    let z2 = if v.y != 0 {
        fps(z1, fp_clamp(fpm(t.z as int, cos_spec(v.y as int)) - fpm(t.x as int, sin_spec(v.y as int))))
    } else {
        z1
    };
    let x1 = if v.y != 0 {
        fps(x0, fps(fpm(t.z as int, sin_spec(v.y as int)), fpm(t.x as int, cos_spec(v.y as int))))
    } else {
        x0
    };
    let x2 = if v.z != 0 {
        fps(x1, fp_clamp(fpm(t.x as int, cos_spec(v.z as int)) - fpm(t.y as int, sin_spec(v.z as int))))
    } else {
        x1
    };
    let y2 = if v.z != 0 {
        fps(y1, fps(fpm(t.x as int, sin_spec(v.z as int)), fpm(t.y as int, cos_spec(v.z as int))))
    } else {
        y1
    };
    Vec3 { x: x2 as i64, y: y2 as i64, z: z2 as i64 }
}

/// Orbits particles around a pivot: per-axis angular velocities combine
/// into a compound precession.
#[derive(Clone, Copy, Debug)]
pub struct OrbitalVelocityOverLifeTime {
    /// Angular velocity around the X, Y and Z axes, sampled over the
    /// particle's lifetime.
    pub velocity: RangeOrFixed<Vec3>,
    /// The pivot, relative to the system origin.
    pub offset: Vec3,
}

impl OrbitalVelocityOverLifeTime {
    /// Adds the tangential velocity of the compound rotation, scaled by
    /// `dt`, to the particle's velocity.
    pub fn apply(&self, particle: &mut Particle, delta_time: i64)
        requires
            particle_wf(*old(particle)),
            self.velocity.wf(),
            vec3_ok(self.offset),
            0 <= delta_time,
            fp_ok(delta_time as int),
        ensures
            particle_wf(*final(particle)),
            *final(particle) == (Particle {
                velocity: vec3_add_spec(
                    old(particle).velocity,
                    vec3_scale_spec(
                        orbital_target_spec(
                            vec3_sub_spec(old(particle).translation, self.offset),
                            crate::particle::lifetime_sample_spec(self.velocity, *old(particle)),
                        ),
                        delta_time as int,
                    ),
                ),
                ..*old(particle)
            }),
    {
        let ratio = particle.alive_time_ratio();
        let values = self.velocity.evaluate_linear(ratio);
        let t = particle.translation.sub(self.offset);
        let mut tvx: i64 = 0;
        let mut tvy: i64 = 0;
        let mut tvz: i64 = 0;
        if values.x != 0 {
            let c = fp_cos(values.x);
            let s = fp_sin(values.x);
            tvy = fp_add(tvy, fp_sub(fp_mul(t.y, c), fp_mul(t.z, s)));
            tvz = fp_add(tvz, fp_add(fp_mul(t.y, s), fp_mul(t.z, c)));
        }
        if values.y != 0 {
            let c = fp_cos(values.y);
            let s = fp_sin(values.y);
            tvz = fp_add(tvz, fp_sub(fp_mul(t.z, c), fp_mul(t.x, s)));
            tvx = fp_add(tvx, fp_add(fp_mul(t.z, s), fp_mul(t.x, c)));
        }
        if values.z != 0 {
            let c = fp_cos(values.z);
            let s = fp_sin(values.z);
            tvx = fp_add(tvx, fp_sub(fp_mul(t.x, c), fp_mul(t.y, s)));
            tvy = fp_add(tvy, fp_add(fp_mul(t.x, s), fp_mul(t.y, c)));
        }
        let target = Vec3 { x: tvx, y: tvy, z: tvz };
        particle.velocity = particle.velocity.add(target.scale(delta_time));
    }
}

/// Recolors particles along a gradient over their lifetime.
#[derive(Clone, Debug)]
pub struct ColorOverLifeTime(pub ColorGradient);

impl ColorOverLifeTime {
    /// Samples the gradient at the lived-lifetime ratio.
    pub fn apply(&self, particle: &mut Particle)
        requires
            particle_wf(*old(particle)),
            self.0.wf(),
            self.0.points_seq().len() >= 2,
        ensures
            particle_wf(*final(particle)),
            *final(particle) == (Particle {
                color: gradient_eval(
                    self.0.points_seq(),
                    0,
                    alive_ratio_spec(*old(particle)),
                ),
                ..*old(particle)
            }),
    {
        let ratio = particle.alive_time_ratio();
        particle.color = self.0.evaluate(ratio);
    }
}

/// Recolors particles along a gradient by their speed.
#[derive(Debug)]
pub struct ColorOverSpeed {
    /// Color gradient.
    pub gradient: ColorGradient,
    /// The speeds mapped onto the gradient's `[0, SCALE]` range.
    pub speed_range: (i64, i64),
}

/// Where a speed lands on the gradient: its position inside the speed
/// range, as a fraction of `SCALE`.
pub open spec fn speed_delta_spec(p: Particle, lo: i64, hi: i64) -> int {
    let speed = fp_clamp(isqrt_spec(norm_sq_int(p.velocity)));
    fp_clamp(tdiv((speed - lo) * SCALE, hi - lo))
}

impl ColorOverSpeed {
    /// Samples the gradient at the particle's speed.
    pub fn apply(&self, particle: &mut Particle)
        requires
            particle_wf(*old(particle)),
            self.gradient.wf(),
            self.gradient.points_seq().len() >= 2,
            0 <= self.speed_range.0 < self.speed_range.1,
            fp_ok(self.speed_range.1 as int),
        ensures
            particle_wf(*final(particle)),
            *final(particle) == (Particle {
                color: gradient_eval(
                    self.gradient.points_seq(),
                    0,
                    speed_delta_spec(*old(particle), self.speed_range.0, self.speed_range.1),
                ),
                ..*old(particle)
            }),
    {
        let speed = particle.speed();
        let delta = fp_div(speed - self.speed_range.0, self.speed_range.1 - self.speed_range.0);
        particle.color = self.gradient.evaluate(delta);
    }
}

/// How many noise channels drive the velocity.
#[derive(Clone, Copy, Debug)]
pub enum VelocityInfluence {
    /// One noise value, applied to every axis with this weight.
    Uniform(i64),
    /// Three noise values, one per axis, with these weights.
    SeparateAxis(Vec3),
}

/// How noise coordinates are drawn.
#[derive(Clone, Copy, Debug)]
pub enum NoiseQuality {
    /// Two-dimensional sampling inside these bounds.
    Medium {
        /// Noise map bounds.
        map_extents: (i64, i64),
    },
    /// Three-dimensional sampling inside these bounds.
    High {
        /// Noise map bounds.
        map_extents: Vec3,
    },
}

/// Perturbs rotation, size and velocity by externally sampled noise.
///
/// The noise source itself lives outside the simulation core: a caller
/// draws one value per channel in `[-SCALE, SCALE]` (for example from a
/// Perlin map at coordinates inside `quality`'s bounds) and hands them in.
#[derive(Clone, Copy, Debug)]
pub struct PerlinNoise {
    /// How noise coordinates should be drawn.
    pub quality: NoiseQuality,
    /// Influence over the velocity.
    pub velocity_influence: VelocityInfluence,
    /// Influence over the rotation; ignored on direction-aligned
    /// particles.
    pub rotation_influence: i64,
    /// Influence over the size.
    pub size_influence: i64,
}

/// Valid noise parameters.
pub open spec fn perlin_wf(n: PerlinNoise) -> bool {
    &&& fp_ok(n.rotation_influence as int)
    &&& fp_ok(n.size_influence as int)
    &&& (n.velocity_influence matches VelocityInfluence::Uniform(f) ==> fp_ok(f as int))
    &&& (n.velocity_influence matches VelocityInfluence::SeparateAxis(v) ==> vec3_ok(v))
}

/// One tick of noise, as a function: the first value turns (free rotations
/// only) and grows the particle, and one or three values perturb the
/// velocity, each scaled by its influence.
pub open spec fn perlin_apply_spec(n: PerlinNoise, noise: [i64; 3], p: Particle, dt: int) -> Particle {
    let x = noise[0] as int;
    Particle {
        rotation: match p.rotation {
            ParticleRotation::FreeRotation { rotation, angular_velocity } => {
                ParticleRotation::FreeRotation {
                    rotation: fps(
                        rotation as int,
                        fpm(fpm(x, dt), n.rotation_influence as int),
                    ) as i64,
                    angular_velocity,
                }
            },
            r => r,
        },
        size: fps(p.size as int, fpm(fpm(x, dt), n.size_influence as int)) as i64,
        velocity: match n.velocity_influence {
            VelocityInfluence::Uniform(f) => {
                let d = fpm(x, f as int) as i64;
                vec3_add_spec(p.velocity, Vec3 { x: d, y: d, z: d })
            },
            VelocityInfluence::SeparateAxis(v) => vec3_add_spec(
                p.velocity,
                Vec3 {
                    x: fpm(v.x as int, x) as i64,
                    y: fpm(v.y as int, noise[1] as int) as i64,
                    z: fpm(v.z as int, noise[2] as int) as i64,
                },
            ),
        },
        ..p
    }
}

impl PerlinNoise {
    /// How many noise values one application consumes.
    pub fn samples_needed(&self) -> (n: usize)
        ensures
            self.velocity_influence is SeparateAxis ==> n == 3,
            self.velocity_influence is Uniform ==> n == 1,
    {
        match self.velocity_influence {
            VelocityInfluence::SeparateAxis(_) => 3,
            VelocityInfluence::Uniform(_) => 1,
        }
    }

    /// Applies one tick of noise: turns and grows the particle by the
    /// first value, and perturbs the velocity by one or three values.
    pub fn apply(&self, noise: [i64; 3], particle: &mut Particle, delta_time: i64)
        requires
            particle_wf(*old(particle)),
            perlin_wf(*self),
            -SCALE <= noise[0] <= SCALE,
            -SCALE <= noise[1] <= SCALE,
            -SCALE <= noise[2] <= SCALE,
            0 <= delta_time,
            fp_ok(delta_time as int),
        ensures
            particle_wf(*final(particle)),
            *final(particle) == perlin_apply_spec(*self, noise, *old(particle), delta_time as int),
    {
        let x = noise[0];
        particle.try_rotate(fp_mul(fp_mul(x, delta_time), self.rotation_influence));
        particle.size = fp_add(particle.size, fp_mul(fp_mul(x, delta_time), self.size_influence));
        match self.velocity_influence {
            VelocityInfluence::Uniform(f) => {
                let d = fp_mul(x, f);
                particle.velocity = particle.velocity.add(Vec3 { x: d, y: d, z: d });
            },
            VelocityInfluence::SeparateAxis(v) => {
                let add = Vec3 {
                    x: fp_mul(v.x, x),
                    y: fp_mul(v.y, noise[1]),
                    z: fp_mul(v.z, noise[2]),
                };
                particle.velocity = particle.velocity.add(add);
            },
        }
    }
}

} // verus!
