//! One whole particle system: store, emitter, factory, generator and
//! modifier pipeline, advanced by `tick`.

use vstd::prelude::*;

use crate::emitter::{
    bursts_high, bursts_low, emitter_expired, emitter_shape_same_config, emitter_wf,
    rate_count_spec, rate_interval_spec, samples_randomly, transformed_sample_ok, ParticleEmitter,
};
use crate::fixed::{fp_clamp, fp_ok, isqrt_spec, SCALE};
use crate::modifiers::{
    fpm, fps, orbital_target_spec, perlin_wf, rotation_over_velocity_delta, speed_delta_spec,
    AngularVelocityOverTime, ColorOverLifeTime, ColorOverSpeed, LinearVelocityOverLifeTime,
    MaxParticleCount, MaxParticleSize, MaxParticleSpeed, OrbitalVelocityOverLifeTime,
    ParticleGravity, PerlinNoise, RotationOverTime, RotationOverVelocity, SizeOverSpeed,
    SizeOverTime, SpeedOverTime, VelocityOverTime,
};
use crate::params::{params_wf, ParticleParams, RotationMode};
use crate::particle::{
    alive_ratio_spec, lifetime_sample_spec, particle_wf, Particle, ParticleRotation,
};
use crate::rgba::{gradient_eval, rgba_lerp_exact};
use crate::rng::ParticleRng;
use crate::sample::RangeOrFixed;
use crate::shapes::EmittedParticle;
use crate::store::{integrate_spec, particles_wf, placed_spec, ParticleSystem};
use crate::transform::{transform_ok, Transform};
use crate::vec3::{norm_sq_int, normalize_spec, vec3_add_spec, vec3_ok, vec3_scale_spec,
    vec3_sub_spec, Vec3};

verus! {

/// A modifier in the pipeline, dispatched by pattern match.
#[derive(Debug)]
pub enum Modifier {
    /// Population cap (applied to the whole store, after all others).
    MaxCount(MaxParticleCount),
    /// Speed cap.
    MaxSpeed(MaxParticleSpeed),
    /// Size cap.
    MaxSize(MaxParticleSize),
    /// Constant acceleration.
    Gravity(ParticleGravity),
    /// Constant turn rate.
    RotationOverTime(RotationOverTime),
    /// Speed-proportional turn rate.
    RotationOverVelocity(RotationOverVelocity),
    /// Growth over time.
    SizeOverTime(SizeOverTime),
    /// Growth with speed.
    SizeOverSpeed(SizeOverSpeed),
    /// Uniform acceleration on every axis.
    SpeedOverTime(SpeedOverTime),
    /// Acceleration along a vector.
    VelocityOverTime(VelocityOverTime),
    /// Spin-up over time.
    AngularVelocityOverTime(AngularVelocityOverTime),
    /// Acceleration sampled over the lifetime.
    LinearVelocity(LinearVelocityOverLifeTime),
    /// Orbit around a pivot.
    Orbital(OrbitalVelocityOverLifeTime),
    /// Recolor over the lifetime.
    ColorOverLifeTime(ColorOverLifeTime),
    /// Recolor by speed.
    ColorOverSpeed(ColorOverSpeed),
}

/// Validity of one modifier's parameters.
pub open spec fn modifier_wf(m: Modifier) -> bool {
    match m {
        Modifier::MaxCount(_) => true,
        Modifier::MaxSpeed(v) => 0 <= v.0 && fp_ok(v.0 as int),
        Modifier::MaxSize(v) => fp_ok(v.0 as int),
        Modifier::Gravity(v) => vec3_ok(v.0),
        Modifier::RotationOverTime(v) => fp_ok(v.0 as int),
        Modifier::RotationOverVelocity(v) => fp_ok(v.value as int),
        Modifier::SizeOverTime(v) => fp_ok(v.0 as int),
        Modifier::SizeOverSpeed(v) => fp_ok(v.0 as int),
        Modifier::SpeedOverTime(v) => fp_ok(v.0 as int),
        Modifier::VelocityOverTime(v) => vec3_ok(v.0),
        Modifier::AngularVelocityOverTime(v) => fp_ok(v.0 as int),
        Modifier::LinearVelocity(v) => v.0.wf(),
        Modifier::Orbital(v) => v.velocity.wf() && vec3_ok(v.offset),
        Modifier::ColorOverLifeTime(v) => v.0.wf() && v.0.points_seq().len() >= 2,
        Modifier::ColorOverSpeed(v) => v.gradient.wf() && v.gradient.points_seq().len() >= 2 && 0
            <= v.speed_range.0 < v.speed_range.1 && fp_ok(v.speed_range.1 as int),
    }
}

/// The exact action of one per-particle modifier on one particle; the
/// population cap is the identity here (it acts on the whole store).
/// Opaque: callers reason through `apply_to_particle`'s contract.
#[verifier::opaque]
pub open spec fn modifier_apply_spec(m: Modifier, p: Particle, dt: int) -> Particle {
    match m {
        Modifier::MaxCount(_) => p,
        Modifier::MaxSpeed(v) => if fp_clamp(isqrt_spec(norm_sq_int(p.velocity))) > v.0 {
            Particle {
                velocity: vec3_scale_spec(
                    normalize_spec(p.velocity, p.start_direction),
                    v.0 as int,
                ),
                ..p
            }
        } else {
            p
        },
        Modifier::MaxSize(v) => if p.size > v.0 {
            Particle { size: v.0, ..p }
        } else {
            p
        },
        Modifier::Gravity(v) => Particle {
            velocity: vec3_add_spec(p.velocity, vec3_scale_spec(v.0, dt)),
            ..p
        },
        Modifier::RotationOverTime(v) => match p.rotation {
            ParticleRotation::FreeRotation { rotation, angular_velocity } => Particle {
                rotation: ParticleRotation::FreeRotation {
                    rotation: fps(rotation as int, fpm(dt, v.0 as int)) as i64,
                    angular_velocity,
                },
                ..p
            },
            _ => p,
        },
        Modifier::RotationOverVelocity(v) => match p.rotation {
            ParticleRotation::FreeRotation { rotation, angular_velocity } => Particle {
                rotation: ParticleRotation::FreeRotation {
                    rotation: fp_clamp(
                        rotation + rotation_over_velocity_delta(p, v.value as int, v.abs, dt),
                    ) as i64,
                    angular_velocity,
                },
                ..p
            },
            _ => p,
        },
        Modifier::SizeOverTime(v) => Particle {
            size: fps(p.size as int, fpm(dt, v.0 as int)) as i64,
            ..p
        },
        Modifier::SizeOverSpeed(v) => Particle {
            size: fps(
                p.size as int,
                fpm(fpm(fp_clamp(isqrt_spec(norm_sq_int(p.velocity))), dt), v.0 as int),
            ) as i64,
            ..p
        },
        Modifier::SpeedOverTime(v) => {
            let d = fpm(dt, v.0 as int) as i64;
            Particle { velocity: vec3_add_spec(p.velocity, Vec3 { x: d, y: d, z: d }), ..p }
        },
        Modifier::VelocityOverTime(v) => Particle {
            velocity: vec3_add_spec(p.velocity, vec3_scale_spec(v.0, dt)),
            ..p
        },
        Modifier::AngularVelocityOverTime(v) => match p.rotation {
            ParticleRotation::FreeRotation { rotation, angular_velocity } => Particle {
                rotation: ParticleRotation::FreeRotation {
                    rotation,
                    angular_velocity: fps(angular_velocity as int, fpm(dt, v.0 as int)) as i64,
                },
                ..p
            },
            _ => p,
        },
        Modifier::LinearVelocity(v) => Particle {
            velocity: vec3_add_spec(
                p.velocity,
                vec3_scale_spec(lifetime_sample_spec(v.0, p), dt),
            ),
            ..p
        },
        Modifier::Orbital(v) => Particle {
            velocity: vec3_add_spec(
                p.velocity,
                vec3_scale_spec(
                    orbital_target_spec(
                        vec3_sub_spec(p.translation, v.offset),
                        lifetime_sample_spec(v.velocity, p),
                    ),
                    dt,
                ),
            ),
            ..p
        },
        Modifier::ColorOverLifeTime(v) => Particle {
            color: gradient_eval(v.0.points_seq(), 0, alive_ratio_spec(p)),
            ..p
        },
        Modifier::ColorOverSpeed(v) => Particle {
            color: gradient_eval(
                v.gradient.points_seq(),
                0,
                speed_delta_spec(p, v.speed_range.0, v.speed_range.1),
            ),
            ..p
        },
    }
}

impl Modifier {
    /// Applies a per-particle modifier to one particle; the lifetime is
    /// never touched, so a modifier cannot kill or revive a particle.
    /// The population cap does nothing here (it acts on the store).
    pub fn apply_to_particle(&self, particle: &mut Particle, delta_time: i64)
        requires
            particle_wf(*old(particle)),
            modifier_wf(*self),
            0 <= delta_time,
            fp_ok(delta_time as int),
        ensures
            particle_wf(*final(particle)),
            *final(particle) == modifier_apply_spec(*self, *old(particle), delta_time as int),
            final(particle).lifetime == old(particle).lifetime,
            final(particle).start_lifetime == old(particle).start_lifetime,
    {
        proof {
            reveal(modifier_apply_spec);
        }
        match self {
            Modifier::MaxCount(_) => {},
            Modifier::MaxSpeed(v) => v.apply(particle),
            Modifier::MaxSize(v) => v.apply(particle),
            Modifier::Gravity(v) => v.apply(particle, delta_time),
            Modifier::RotationOverTime(v) => v.apply(particle, delta_time),
            Modifier::RotationOverVelocity(v) => v.apply(particle, delta_time),
            Modifier::SizeOverTime(v) => v.apply(particle, delta_time),
            Modifier::SizeOverSpeed(v) => v.apply(particle, delta_time),
            Modifier::SpeedOverTime(v) => v.apply(particle, delta_time),
            Modifier::VelocityOverTime(v) => v.apply(particle, delta_time),
            Modifier::AngularVelocityOverTime(v) => v.apply(particle, delta_time),
            Modifier::LinearVelocity(v) => v.apply(particle, delta_time),
            Modifier::Orbital(v) => v.apply(particle, delta_time),
            Modifier::ColorOverLifeTime(v) => v.apply(particle),
            Modifier::ColorOverSpeed(v) => v.apply(particle),
        }
    }
}

/// One per-particle pass of the pipeline over a whole sequence.
pub open spec fn pass_spec(m: Modifier, s: Seq<Particle>, dt: int) -> Seq<Particle> {
    s.map_values(|p: Particle| modifier_apply_spec(m, p, dt))
}

/// The per-particle passes of the pipeline from modifier `i` on, in
/// order; population caps are skipped here (they run afterwards).
pub open spec fn pipeline_spec(ms: Seq<Modifier>, s: Seq<Particle>, dt: int, i: int) -> Seq<
    Particle,
>
    decreases ms.len() - i,
{
    if i < 0 || i >= ms.len() {
        s
    } else {
        let s2 = if ms[i] is MaxCount {
            s
        } else {
            pass_spec(ms[i], s, dt)
        };
        pipeline_spec(ms, s2, dt, i + 1)
    }
}

/// One population cap: the newest `cap` particles survive.
pub open spec fn trim_spec(cap: usize, s: Seq<Particle>) -> Seq<Particle> {
    if s.len() <= cap {
        s
    } else {
        s.subrange(s.len() - cap, s.len() as int)
    }
}

/// The population caps of the pipeline from modifier `i` on, in order;
/// everything else is skipped here (it already ran).
pub open spec fn caps_spec(ms: Seq<Modifier>, s: Seq<Particle>, i: int) -> Seq<Particle>
    decreases ms.len() - i,
{
    if i < 0 || i >= ms.len() {
        s
    } else {
        let s2 = match ms[i] {
            Modifier::MaxCount(c) => trim_spec(c.0, s),
            _ => s,
        };
        caps_spec(ms, s2, i + 1)
    }
}

/// How the factory pins a new particle to its emission sample: position
/// and fallback direction copied, lifetimes starting equal, every other
/// field drawn from (or interpolated inside) its distribution.
pub open spec fn factory_built_ok(params: ParticleParams, e: EmittedParticle, p: Particle) -> bool {
    &&& p.translation == e.position
    &&& p.start_direction == e.direction
    &&& p.lifetime == p.start_lifetime
    &&& params.start_lifetime.contains(p.start_lifetime)
    &&& params.start_size.contains(p.size)
    &&& (match params.rotation {
        RotationMode::AlignToDirection { offset } => p.rotation == (
        ParticleRotation::AlignToDirection { offset }),
        RotationMode::FreeRotation { start_rotation, start_angular_velocity } => match p.rotation {
            ParticleRotation::FreeRotation { rotation, angular_velocity } => {
                start_rotation.contains(rotation) && start_angular_velocity.contains(
                    angular_velocity,
                )
            },
            _ => false,
        },
    })
    &&& (exists|sp: i64|
        params.start_speed.contains(sp) && p.velocity == #[trigger] vec3_scale_spec(
            e.direction,
            sp as int,
        ))
    &&& (match params.start_color {
        RangeOrFixed::Fixed(c) => p.color == c,
        RangeOrFixed::Range { min, max } => exists|d: int|
            0 <= d <= SCALE && p.color == #[trigger] rgba_lerp_exact(min, max, d),
    })
}

/// A freshly emitted particle: factory-built from some sample the emitter
/// yielded (a transformed shape sample).
pub open spec fn built_particle_ok(pre: ParticleEffect, p: Particle) -> bool {
    exists|e: EmittedParticle|
        #[trigger] factory_built_ok(pre.params, e, p) && transformed_sample_ok(
            pre.emitter.shape.shape,
            pre.emitter.shape.thickness,
            samples_randomly(pre.emitter.shape),
            pre.emitter.transform,
            e,
        )
}

/// What one tick emits: nothing past an expired fixed duration; otherwise
/// every new particle is factory-built from an emitter sample, and their
/// number is the rate count plus the due bursts' draws.
pub open spec fn tick_emission_ok(pre: ParticleEffect, dt: int, fresh: Seq<Particle>) -> bool {
    &&& (forall|i: int| 0 <= i < fresh.len() ==> built_particle_ok(pre, #[trigger] fresh[i]))
    &&& (emitter_expired(pre.emitter) ==> fresh.len() == 0)
    &&& (!emitter_expired(pre.emitter) ==> ({
        let start = pre.emitter.current_delta_time as int;
        let rc = rate_count_spec(
            pre.emitter.rate,
            start + dt,
            pre.emitter.last_emitted_delta_time as int,
        );
        bursts_low(pre.emitter.bursts@, start, dt) + rc <= fresh.len() <= bursts_high(
            pre.emitter.bursts@,
            start,
            dt,
        ) + rc
    }))
}

/// What one tick does to the store: the fresh particles are appended
/// (placed into world space if the store keeps world coordinates), every
/// particle is stepped by `dt` and the expired are reaped, the
/// per-particle modifiers run in pipeline order, and the population caps
/// run last.
pub open spec fn tick_store_ok(
    pre: ParticleEffect,
    dt: int,
    fresh: Seq<Particle>,
    post: Seq<Particle>,
) -> bool {
    post == caps_spec(
        pre.modifiers@,
        pipeline_spec(
            pre.modifiers@,
            integrate_spec(
                pre.system.particles_seq() + fresh.map_values(
                    |p: Particle| placed_spec(p, pre.system.is_world_space(), pre.transform),
                ),
                dt,
            ),
            dt,
            0,
        ),
        0,
    )
}

/// Unfolds one step of the per-particle pipeline.
proof fn lemma_pipeline_unfold(ms: Seq<Modifier>, s: Seq<Particle>, dt: int, i: int)
    requires
        0 <= i < ms.len(),
    ensures
        ms[i] is MaxCount ==> pipeline_spec(ms, s, dt, i) == pipeline_spec(ms, s, dt, i + 1),
        !(ms[i] is MaxCount) ==> pipeline_spec(ms, s, dt, i) == pipeline_spec(
            ms,
            pass_spec(ms[i], s, dt),
            dt,
            i + 1,
        ),
{
}

/// A sequence that agrees pointwise with one pipeline pass is that pass.
proof fn lemma_pass_pointwise(m: Modifier, s: Seq<Particle>, dt: int, t: Seq<Particle>)
    requires
        t.len() == s.len(),
        forall|j: int| 0 <= j < s.len() ==> #[trigger] t[j] == modifier_apply_spec(m, s[j], dt),
    ensures
        t == pass_spec(m, s, dt),
{
    assert(t =~= pass_spec(m, s, dt));
}

/// Unfolds one step of the population-cap pass.
proof fn lemma_caps_unfold(ms: Seq<Modifier>, s: Seq<Particle>, i: int)
    requires
        0 <= i < ms.len(),
    ensures
        ms[i] matches Modifier::MaxCount(c) ==> caps_spec(ms, s, i) == caps_spec(
            ms,
            trim_spec(c.0, s),
            i + 1,
        ),
        !(ms[i] is MaxCount) ==> caps_spec(ms, s, i) == caps_spec(ms, s, i + 1),
{
}

/// A complete particle system instance.
pub struct ParticleEffect {
    /// The live particles.
    pub system: ParticleSystem,
    /// The emitter.
    pub emitter: ParticleEmitter,
    /// Initial-value distributions for new particles.
    pub params: ParticleParams,
    /// The system's own seeded generator.
    pub rng: ParticleRng,
    /// The modifier pipeline, applied in order after integration, with
    /// population caps always last.
    pub modifiers: Vec<Modifier>,
    /// The owning entity's transform, used when the store keeps world
    /// coordinates.
    pub transform: Transform,
}

impl ParticleEffect {
    /// The effect's invariant.
    pub open spec fn wf(self) -> bool {
        &&& self.system.wf()
        &&& emitter_wf(self.emitter)
        &&& params_wf(self.params)
        &&& transform_ok(self.transform)
        &&& forall|i: int| 0 <= i < self.modifiers@.len() ==> modifier_wf(#[trigger] self.modifiers@[i])
    }

    /// A fresh effect from its parts.
    pub fn new(
        system: ParticleSystem,
        emitter: ParticleEmitter,
        params: ParticleParams,
        rng: ParticleRng,
        modifiers: Vec<Modifier>,
        transform: Transform,
    ) -> (e: ParticleEffect)
        requires
            system.wf(),
            emitter_wf(emitter),
            params_wf(params),
            transform_ok(transform),
            forall|i: int| 0 <= i < modifiers@.len() ==> modifier_wf(#[trigger] modifiers@[i]),
        ensures
            e.wf(),
            e.system == system,
            e.emitter == emitter,
    {
        ParticleEffect { system, emitter, params, rng, modifiers, transform }
    }

    /// One simulation step: emit and append new particles, integrate and
    /// reap, then run the modifier pipeline (population caps last).
    /// Afterwards every stored particle is alive and well formed.
    #[verifier::rlimit(100)]
    pub fn tick(&mut self, delta_time: i64)
        requires
            old(self).wf(),
            0 <= delta_time,
            fp_ok(delta_time as int),
            old(self).emitter.current_delta_time + delta_time <= u64::MAX,
        ensures
            final(self).wf(),
            final(self).system.is_world_space() == old(self).system.is_world_space(),
            forall|i: int|
                0 <= i < final(self).system.particles_seq().len() ==> #[trigger] final(self).system.particles_seq()[i].lifetime > 0,
            final(self).params == old(self).params,
            final(self).modifiers == old(self).modifiers,
            final(self).transform == old(self).transform,
            final(self).emitter.duration == old(self).emitter.duration,
            final(self).emitter.rate == old(self).emitter.rate,
            final(self).emitter.bursts == old(self).emitter.bursts,
            final(self).emitter.transform == old(self).emitter.transform,
            emitter_shape_same_config(old(self).emitter.shape, final(self).emitter.shape),
            !emitter_expired(old(self).emitter) ==> final(self).emitter.current_delta_time == old(self).emitter.current_delta_time + delta_time,
            !emitter_expired(old(self).emitter) ==> final(self).emitter.last_emitted_delta_time
                == old(self).emitter.last_emitted_delta_time + rate_count_spec(
                old(self).emitter.rate,
                old(self).emitter.current_delta_time + delta_time,
                old(self).emitter.last_emitted_delta_time as int,
            ) * (if old(self).emitter.rate == 0 {
                1int
            } else {
                rate_interval_spec(old(self).emitter.rate)
            }),
            emitter_expired(old(self).emitter) ==> (old(self).emitter.duration matches crate::emitter::EmitterDuration::FixedDuration {
                looping: true,
                ..
            } ==> final(self).emitter.current_delta_time == 0 && final(self).emitter.last_emitted_delta_time == 0),
            emitter_expired(old(self).emitter) ==> (old(self).emitter.duration matches crate::emitter::EmitterDuration::FixedDuration {
                looping: false,
                ..
            } ==> final(self).emitter.current_delta_time == old(self).emitter.current_delta_time
                && final(self).emitter.last_emitted_delta_time == old(self).emitter.last_emitted_delta_time),
            exists|fresh: Seq<Particle>|
                #[trigger] tick_emission_ok(*old(self), delta_time as int, fresh)
                    && tick_store_ok(
                    *old(self),
                    delta_time as int,
                    fresh,
                    final(self).system.particles_seq(),
                ),
    {
        let ghost ms = old(self).modifiers@;
        // Emission: new particles enter the store.
        let emitted = self.emitter.emit(delta_time as u64, &mut self.rng);
        let ghost em1 = self.emitter;
        let mut fresh: Vec<Particle> = Vec::new();
        let n = emitted.len();
        let mut i: usize = 0;
        while i < n
            invariant
                0 <= i <= n,
                n == emitted@.len(),
                self.wf(),
                self.system == old(self).system,
                self.params == old(self).params,
                self.modifiers == old(self).modifiers,
                self.transform == old(self).transform,
                self.emitter == em1,
                forall|j: int|
                    0 <= j < emitted@.len() ==> crate::shapes::emitted_wf(#[trigger] emitted@[j]),
                forall|j: int|
                    0 <= j < emitted@.len() ==> transformed_sample_ok(
                        old(self).emitter.shape.shape,
                        old(self).emitter.shape.thickness,
                        samples_randomly(old(self).emitter.shape),
                        old(self).emitter.transform,
                        #[trigger] emitted@[j],
                    ),
                fresh@.len() == i,
                particles_wf(fresh@),
                forall|j: int|
                    0 <= j < i ==> built_particle_ok(*old(self), #[trigger] fresh@[j]),
            decreases n - i,
        {
            let e = emitted[i];
            let p = self.params.get_particle(e.position, e.direction, &mut self.rng);
            proof {
                assert(factory_built_ok(old(self).params, emitted@[i as int], p));
            }
            fresh.push(p);
            i = i + 1;
        }
        let ghost fresh_seq = fresh@;
        self.system.extend(&fresh, &self.transform);
        // Integration: age, move, reap.
        self.system.update(delta_time);
        let ghost base0 = self.system.particles_seq();
        proof {
            assert(base0 == integrate_spec(
                old(self).system.particles_seq() + fresh_seq.map_values(
                    |p: Particle| placed_spec(
                        p,
                        old(self).system.is_world_space(),
                        old(self).transform,
                    ),
                ),
                delta_time as int,
            ));
        }
        // Per-particle modifiers, in pipeline order.
        let m = self.modifiers.len();
        let mut mi: usize = 0;
        while mi < m
            invariant
                0 <= mi <= m,
                m == ms.len(),
                self.modifiers@ == ms,
                self.modifiers == old(self).modifiers,
                self.params == old(self).params,
                self.transform == old(self).transform,
                self.wf(),
                self.system.is_world_space() == old(self).system.is_world_space(),
                forall|i: int|
                    0 <= i < self.system.particles_seq().len() ==> #[trigger] self.system.particles_seq()[i].lifetime
                        > 0,
                0 <= delta_time,
                fp_ok(delta_time as int),
                pipeline_spec(ms, base0, delta_time as int, 0) == pipeline_spec(
                    ms,
                    self.system.particles_seq(),
                    delta_time as int,
                    mi as int,
                ),
                self.emitter == em1,
            decreases m - mi,
        {
            let ghost entry = self.system.particles_seq();
            let is_particle_modifier = match &self.modifiers[mi] {
                Modifier::MaxCount(_) => false,
                _ => true,
            };
            if is_particle_modifier {
                let count = self.system.len();
                let mut pi: usize = 0;
                while pi < count
                    invariant
                        0 <= pi <= count,
                        mi < ms.len(),
                        m == ms.len(),
                        self.modifiers@ == ms,
                        self.modifiers == old(self).modifiers,
                        self.params == old(self).params,
                        self.transform == old(self).transform,
                        !(ms[mi as int] is MaxCount),
                        count == entry.len(),
                        count == self.system.particles_seq().len(),
                        self.wf(),
                        self.system.is_world_space() == old(self).system.is_world_space(),
                        forall|i: int|
                            0 <= i < self.system.particles_seq().len()
                                ==> #[trigger] self.system.particles_seq()[i].lifetime > 0,
                        0 <= delta_time,
                        fp_ok(delta_time as int),
                        forall|j: int|
                            0 <= j < pi ==> #[trigger] self.system.particles_seq()[j]
                                == modifier_apply_spec(
                                ms[mi as int],
                                entry[j],
                                delta_time as int,
                            ),
                        forall|j: int|
                            pi <= j < count ==> #[trigger] self.system.particles_seq()[j]
                                == entry[j],
                        self.emitter == em1,
                    decreases count - pi,
                {
                    let mut p = *self.system.get(pi);
                    let ghost life = p.lifetime;
                    // A per-particle pass cannot change the store's shape:
                    // read, modify, write back one slot.
                    let m_ref = &self.modifiers[mi];
                    m_ref.apply_to_particle(&mut p, delta_time);
                    self.system.set_particle(pi, p);
                    proof {
                        assert(self.system.particles_seq()[pi as int].lifetime == life);
                    }
                    pi = pi + 1;
                }
                proof {
                    lemma_pass_pointwise(
                        ms[mi as int],
                        entry,
                        delta_time as int,
                        self.system.particles_seq(),
                    );
                }
            }
            proof {
                lemma_pipeline_unfold(ms, entry, delta_time as int, mi as int);
            }
            mi = mi + 1;
        }
        let ghost base1 = self.system.particles_seq();
        proof {
            assert(base1 == pipeline_spec(ms, base0, delta_time as int, 0));
        }
        // Population caps, last: a burst may exceed a cap only within this
        // same tick.
        let mut ci: usize = 0;
        while ci < m
            invariant
                0 <= ci <= m,
                m == ms.len(),
                self.modifiers@ == ms,
                self.modifiers == old(self).modifiers,
                self.params == old(self).params,
                self.transform == old(self).transform,
                self.wf(),
                self.system.is_world_space() == old(self).system.is_world_space(),
                forall|i: int|
                    0 <= i < self.system.particles_seq().len() ==> #[trigger] self.system.particles_seq()[i].lifetime
                        > 0,
                caps_spec(ms, base1, 0) == caps_spec(
                    ms,
                    self.system.particles_seq(),
                    ci as int,
                ),
                self.emitter == em1,
            decreases m - ci,
        {
            let ghost entry = self.system.particles_seq();
            if let Modifier::MaxCount(cap) = &self.modifiers[ci] {
                cap.apply(&mut self.system);
                proof {
                    assert(self.system.particles_seq() == trim_spec(cap.0, entry));
                    assert(forall|i: int|
                        0 <= i < self.system.particles_seq().len()
                            ==> #[trigger] self.system.particles_seq()[i].lifetime > 0);
                }
            }
            proof {
                lemma_caps_unfold(ms, entry, ci as int);
            }
            ci = ci + 1;
        }
        proof {
            assert(tick_emission_ok(*old(self), delta_time as int, fresh_seq));
            assert(tick_store_ok(
                *old(self),
                delta_time as int,
                fresh_seq,
                self.system.particles_seq(),
            ));
        }
    }

    /// Applies one noise modifier: the caller supplies one value set per
    /// live particle (each channel in `[-SCALE, SCALE]`), since the noise
    /// source lives outside the verified core.
    pub fn apply_noise(&mut self, noise: &PerlinNoise, samples: &Vec<[i64; 3]>, delta_time: i64)
        requires
            old(self).wf(),
            perlin_wf(*noise),
            samples@.len() == old(self).system.particles_seq().len(),
            forall|i: int|
                0 <= i < samples@.len() ==> ({
                    let s = #[trigger] samples@[i];
                    -crate::fixed::SCALE <= s[0] <= crate::fixed::SCALE && -crate::fixed::SCALE
                        <= s[1] <= crate::fixed::SCALE && -crate::fixed::SCALE <= s[2]
                        <= crate::fixed::SCALE
                }),
            0 <= delta_time,
            fp_ok(delta_time as int),
        ensures
            final(self).wf(),
            final(self).system.is_world_space() == old(self).system.is_world_space(),
            final(self).system.particles_seq().len() == old(self).system.particles_seq().len(),
            forall|i: int|
                0 <= i < old(self).system.particles_seq().len() ==> final(self).system.particles_seq()[i] == crate::modifiers::perlin_apply_spec(
                    *noise,
                    #[trigger] samples@[i],
                    old(self).system.particles_seq()[i],
                    delta_time as int,
                ),
    {
        let count = self.system.len();
        let mut pi: usize = 0;
        while pi < count
            invariant
                0 <= pi <= count,
                count == self.system.particles_seq().len(),
                count == samples@.len(),
                self.wf(),
                perlin_wf(*noise),
                self.system.is_world_space() == old(self).system.is_world_space(),
                forall|j: int|
                    0 <= j < pi ==> self.system.particles_seq()[j]
                        == crate::modifiers::perlin_apply_spec(
                        *noise,
                        #[trigger] samples@[j],
                        old(self).system.particles_seq()[j],
                        delta_time as int,
                    ),
                forall|j: int|
                    pi <= j < count ==> #[trigger] self.system.particles_seq()[j] == old(self).system.particles_seq()[j],
                forall|i: int|
                    0 <= i < samples@.len() ==> ({
                        let s = #[trigger] samples@[i];
                        -crate::fixed::SCALE <= s[0] <= crate::fixed::SCALE && -crate::fixed::SCALE
                            <= s[1] <= crate::fixed::SCALE && -crate::fixed::SCALE <= s[2]
                            <= crate::fixed::SCALE
                    }),
                0 <= delta_time,
                fp_ok(delta_time as int),
            decreases count - pi,
        {
            let mut p = *self.system.get(pi);
            noise.apply(samples[pi], &mut p, delta_time);
            self.system.set_particle(pi, p);
            pi = pi + 1;
        }
    }
}

} // verus!
