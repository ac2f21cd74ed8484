//! A CPU particle-effect simulation core on fixed-point arithmetic.
//!
//! Scalar quantities (positions, velocities, sizes, colors, seconds) are
//! carried as `i64` or `u64` values scaled by one million, so that every
//! simulation step is exact integer arithmetic.

mod effect;
mod emitter;
mod extract;
mod fixed;
mod material;
mod modifiers;
mod params;
mod particle;
mod render_mode;
mod rgba;
mod rng;
mod sample;
mod shapes;
mod spread;
mod store;
mod transform;
mod vec3;

pub use effect::{Modifier, ParticleEffect};
pub use emitter::{Burst, EmissionMode, EmitterDirectionParams, EmitterDuration, EmitterShape, ParticleEmitter};
pub use extract::{DrawableQuad, ExtractError};
pub use extract::extract;
pub use fixed::{fp_atan2, fp_cos, fp_sin, FP_MAX, HALF_PI_FP, PI_FP, SCALE, TAU_FP};
pub use material::{ParticleMaterial, ParticleTextureSheet, TextureAtlas, TextureSheetAnimation, TextureSheetLoopingMode, TextureSheetMode, UvRect};
pub use modifiers::{AngularVelocityOverTime, LinearVelocityOverLifeTime, MaxParticleCount, MaxParticleSize, MaxParticleSpeed, NoiseQuality, OrbitalVelocityOverLifeTime, ParticleGravity, PerlinNoise, RotationOverTime, RotationOverVelocity, SizeOverSpeed, SizeOverTime, SpeedOverTime, VelocityInfluence, VelocityOverTime};
pub use modifiers::{ColorOverLifeTime, ColorOverSpeed};
pub use params::{ParticleParams, RotationMode};
pub use particle::{Particle, ParticleRotation};
pub use render_mode::{BillBoardAlignment, ParticleRenderMode};
pub use rgba::{ColorGradient, ColorOrGradient, GradientPoint, Rgba};
pub use rng::ParticleRng;
pub use sample::RangeOrFixed;
pub use shapes::{Box, Circle, Cone, ConvexMesh, Edge, EmittedParticle, EmitterDirectionMode, Shape, Sphere};
pub use spread::{AxisSpread, EmissionSpread, SpreadLoopMode};
pub use store::{Aabb, ParticleSystem};
pub use transform::Transform;
pub use vec3::{Vec3, NORM_FLOOR, UNIT_MAX};
