//! The particle emitter: decides each tick how many particles to create
//! and where, from a rate accumulator, scheduled bursts, and a shape.
//!
//! Times and rates are `u64` values scaled by `SCALE`: a duration of one
//! second is `SCALE` steps, a rate of one particle per second is `SCALE`.

use vstd::prelude::*;

use crate::fixed::SCALE;
use crate::rng::ParticleRng;
use crate::sample::RangeOrFixed;
use crate::shapes::{
    dir_mode_kept, dir_mode_wf, emitted_wf, inner_radius_spec, scaled_bound,
    shape_supports_spread, shape_wf, shell_bound, thickness_wf, EmittedParticle,
    EmitterDirectionMode, Shape,
};
use crate::spread::{spread_wf, EmissionSpread};
use crate::transform::{transform_ok, transform_point_spec, transform_vector_spec, Transform};
use crate::vec3::{norm_sq_int, normalize_spec, vec3_add_spec, vec3_ok, vec3_scale_spec, Vec3,
    UNIT_MAX, UNIT_MIN};

verus! {

/// One second of emitter time squared: the numerator that turns a rate
/// into the interval between two rate-driven emissions.
pub const TIME_SQ: u64 = 1_000_000_000_000;

/// Extra per-sample direction shaping applied after the shape.
#[derive(Clone, Copy, Debug, PartialEq, Eq, Structural)]
pub struct EmitterDirectionParams {
    /// Base direction mode handed to the shape.
    pub base_mode: EmitterDirectionMode,
    /// How far the direction is blended toward a random one, `0` to `SCALE`.
    pub randomize_direction: i64,
    /// How far the direction is blended toward the position, `0` to `SCALE`.
    pub spherize_direction: i64,
}

/// The direction parameters' scalars are fractions.
pub open spec fn dir_params_wf(p: EmitterDirectionParams) -> bool {
    &&& dir_mode_wf(p.base_mode)
    &&& 0 <= p.randomize_direction <= SCALE
    &&& 0 <= p.spherize_direction <= SCALE
}

impl Default for EmitterDirectionParams {
    /// Automatic direction, no extra shaping.
    fn default() -> (p: EmitterDirectionParams)
        ensures
            p.base_mode == EmitterDirectionMode::Automatic,
            p.randomize_direction == 0,
            p.spherize_direction == 0,
            dir_params_wf(p),
    {
        EmitterDirectionParams {
            base_mode: EmitterDirectionMode::Automatic,
            randomize_direction: 0,
            spherize_direction: 0,
        }
    }
}

/// How samples are placed in the volume.
#[derive(Clone, Copy, Debug, PartialEq, Eq)]
pub enum EmissionMode {
    /// Uniform random placement.
    Random,
    /// Deterministic sweep of the volume.
    Spread(EmissionSpread),
}

/// A valid emission mode.
pub open spec fn emission_mode_wf(m: EmissionMode) -> bool {
    m matches EmissionMode::Spread(s) ==> spread_wf(s)
}

/// The emission volume with its sampling options.
#[derive(Clone, Debug)]
pub struct EmitterShape {
    /// The shape itself.
    pub shape: Shape,
    /// Fraction of the volume that emits: `0` only the surface, `SCALE`
    /// everything.
    pub thickness: i64,
    /// Extra direction shaping.
    pub direction_params: EmitterDirectionParams,
    /// Random or spread placement.
    pub mode: EmissionMode,
}

/// A valid emitter shape.
pub open spec fn emitter_shape_wf(s: EmitterShape) -> bool {
    &&& shape_wf(s.shape)
    &&& thickness_wf(s.thickness)
    &&& dir_params_wf(s.direction_params)
    &&& emission_mode_wf(s.mode)
}

/// Whether a shape configuration places samples randomly: either random
/// mode is selected, or the shape cannot sweep and falls back to random
/// placement.
pub open spec fn samples_randomly(s: EmitterShape) -> bool {
    s.mode is Random || !shape_supports_spread(s.shape)
}

/// What every raw sample's position obeys, by shape. Shapes without
/// spread support always sample randomly, so their full random-mode
/// clauses hold in every mode; the others keep what both modes share.
pub open spec fn shape_sample_ok(
    shape: Shape,
    thickness: i64,
    random_mode: bool,
    e: EmittedParticle,
) -> bool {
    match shape {
        Shape::Sphere(s) => {
            &&& (s.hemisphere ==> e.position.y >= 0)
            &&& norm_sq_int(e.position) <= scaled_bound(s.radius as int, UNIT_MAX as int)
                * scaled_bound(s.radius as int, UNIT_MAX as int)
            &&& norm_sq_int(e.position) >= shell_bound(
                inner_radius_spec(s.radius as int, thickness as int),
            )
        },
        Shape::Circle(s) => {
            &&& e.position.y == 0
            &&& (random_mode ==> norm_sq_int(e.position) <= scaled_bound(
                s.radius as int,
                UNIT_MAX as int,
            ) * scaled_bound(s.radius as int, UNIT_MAX as int) && norm_sq_int(e.position)
                >= shell_bound(inner_radius_spec(s.radius as int, thickness as int)))
            &&& (!random_mode ==> crate::fixed::abs_int(e.position.x as int) <= s.radius
                && crate::fixed::abs_int(e.position.z as int) <= s.radius)
        },
        Shape::Cone(_) => e.position == (Vec3 { x: 0, y: 0, z: 0 }),
        Shape::Box(b) => {
            &&& crate::fixed::abs_int(e.position.x as int) <= b.extents.x
            &&& crate::fixed::abs_int(e.position.y as int) <= b.extents.y
            &&& crate::fixed::abs_int(e.position.z as int) <= b.extents.z
            &&& (random_mode ==> inner_radius_spec(b.extents.x as int, thickness as int)
                <= crate::fixed::abs_int(e.position.x as int) || inner_radius_spec(
                b.extents.y as int,
                thickness as int,
            ) <= crate::fixed::abs_int(e.position.y as int) || inner_radius_spec(
                b.extents.z as int,
                thickness as int,
            ) <= crate::fixed::abs_int(e.position.z as int))
        },
        Shape::Edge(ed) => {
            &&& e.position.x == 0
            &&& e.position.y == 0
            &&& crate::fixed::abs_int(e.position.z as int) * 2 <= ed.length
            &&& inner_radius_spec((ed.length / 2) as int, thickness as int)
                <= crate::fixed::abs_int(e.position.z as int)
        },
        Shape::ConvexMesh(_) => true,
    }
}

/// One post-processing blend of the direction shaping: the prior
/// direction pulled toward `target` by `amount / SCALE`, then renormalized
/// (+Y on degeneracy).
pub open spec fn blend_toward(target: Vec3, d: Vec3, amount: i64) -> Vec3 {
    normalize_spec(
        vec3_add_spec(
            vec3_scale_spec(target, amount as int),
            vec3_scale_spec(d, SCALE - amount),
        ),
        Vec3 { x: 0, y: SCALE, z: 0 },
    )
}

/// The direction post-processing chain: first the blend toward a random
/// unit draw `ru` (if requested), then the blend toward the position (if
/// requested); with both factors zero the shape's direction `d0` stands.
pub open spec fn direction_shaped(
    params: EmitterDirectionParams,
    position: Vec3,
    d0: Vec3,
    ru: Vec3,
    d: Vec3,
) -> bool {
    let d1 = if params.randomize_direction > 0 {
        blend_toward(ru, d0, params.randomize_direction)
    } else {
        d0
    };
    d == (if params.spherize_direction > 0 {
        blend_toward(position, d1, params.spherize_direction)
    } else {
        d1
    })
}

/// Everything but the spread state is unchanged after sampling.
pub open spec fn emitter_shape_same_config(a: EmitterShape, b: EmitterShape) -> bool {
    &&& a.shape == b.shape
    &&& a.thickness == b.thickness
    &&& a.direction_params == b.direction_params
    &&& (a.mode is Random <==> b.mode is Random)
}

impl EmitterShape {
    /// One sample: the shape emits (randomly, or along the spread sweep),
    /// then the direction is optionally blended toward a random direction
    /// and toward the position.
    #[verifier::rlimit(60)]
    pub fn emit_particle(&mut self, rng: &mut ParticleRng) -> (e: EmittedParticle)
        requires
            emitter_shape_wf(*old(self)),
        ensures
            emitter_shape_wf(*final(self)),
            emitter_shape_same_config(*old(self), *final(self)),
            emitted_wf(e),
            shape_sample_ok(old(self).shape, old(self).thickness, samples_randomly(*old(self)), e),
            old(self).mode is Random ==> final(self).mode == old(self).mode,
            old(self).mode matches EmissionMode::Spread(sp) ==> final(self).mode
                == EmissionMode::Spread(crate::spread::spread_step_spec(sp)) || final(self).mode
                == old(self).mode,
            old(self).mode matches EmissionMode::Spread(sp) ==> ((old(self).shape is Circle || old(self).shape is Box || (old(self).shape is Cone && old(self).direction_params.base_mode is Automatic)) ==> final(self).mode
                == EmissionMode::Spread(crate::spread::spread_step_spec(sp))),
            old(self).mode is Spread && !shape_supports_spread(old(self).shape) ==> final(self).mode == old(self).mode,
            exists|d0: Vec3, ru: Vec3|
                {
                    &&& vec3_ok(d0)
                    &&& vec3_ok(ru)
                    &&& UNIT_MIN * UNIT_MIN <= norm_sq_int(ru) <= UNIT_MAX * UNIT_MAX
                    &&& (!(old(self).shape is ConvexMesh) ==> dir_mode_kept(
                        old(self).direction_params.base_mode,
                        EmittedParticle { position: e.position, direction: d0 },
                    ))
                    &&& #[trigger] direction_shaped(
                        old(self).direction_params,
                        e.position,
                        d0,
                        ru,
                        e.direction,
                    )
                },
            old(self).direction_params.randomize_direction > 0 || old(self).direction_params.spherize_direction > 0 ==> UNIT_MIN * UNIT_MIN <= norm_sq_int(
                e.direction,
            ) <= UNIT_MAX * UNIT_MAX,
            old(self).direction_params.randomize_direction == 0 && old(self).direction_params.spherize_direction == 0 && !(old(self).shape is ConvexMesh)
                ==> crate::shapes::dir_mode_kept(old(self).direction_params.base_mode, e),
    {
        let mut sample = match &mut self.mode {
            EmissionMode::Random => self.shape.emit_random_particle(
                rng,
                self.thickness,
                self.direction_params.base_mode,
            ),
            EmissionMode::Spread(spread) => {
                match self.shape.spread_particle(
                    spread,
                    rng,
                    self.thickness,
                    self.direction_params.base_mode,
                ) {
                    Some(e) => e,
                    // The shape has no spread support: fall back to a
                    // random sample rather than fail.
                    None => self.shape.emit_random_particle(
                        rng,
                        self.thickness,
                        self.direction_params.base_mode,
                    ),
                }
            },
        };
        let ghost d0 = sample.direction;
        let ghost mut ru = Vec3 { x: 0, y: SCALE, z: 0 };
        proof {
            lemma_unit_y_norm();
        }
        if self.direction_params.randomize_direction > 0 {
            let rx = rng.next_inclusive_i64(-SCALE, SCALE);
            let ry = rng.next_inclusive_i64(-SCALE, SCALE);
            let rz = rng.next_inclusive_i64(-SCALE, SCALE);
            let random_direction = Vec3 { x: rx, y: ry, z: rz }.normalize_or(Vec3::unit_y());
            proof {
                ru = random_direction;
            }
            let a = self.direction_params.randomize_direction;
            sample.direction = random_direction.scale(a).add(
                sample.direction.scale(SCALE - a),
            ).normalize_or(Vec3::unit_y());
            proof {
                lemma_unit_y_norm();
            }
        }
        if self.direction_params.spherize_direction > 0 {
            let a = self.direction_params.spherize_direction;
            sample.direction = sample.position.scale(a).add(
                sample.direction.scale(SCALE - a),
            ).normalize_or(Vec3::unit_y());
            proof {
                lemma_unit_y_norm();
            }
        }
        proof {
            assert({
                &&& vec3_ok(d0)
                &&& vec3_ok(ru)
                &&& UNIT_MIN * UNIT_MIN <= norm_sq_int(ru) <= UNIT_MAX * UNIT_MAX
                &&& (!(old(self).shape is ConvexMesh) ==> dir_mode_kept(
                    old(self).direction_params.base_mode,
                    EmittedParticle { position: sample.position, direction: d0 },
                ))
                &&& direction_shaped(
                    old(self).direction_params,
                    sample.position,
                    d0,
                    ru,
                    sample.direction,
                )
            });
        }
        sample
    }
}

/// The +Y fallback direction is a unit vector, inside the normalization
/// bounds.
proof fn lemma_unit_y_norm()
    ensures
        norm_sq_int(Vec3 { x: 0, y: SCALE, z: 0 }) == (SCALE as int) * (SCALE as int),
        UNIT_MIN * UNIT_MIN <= (SCALE as int) * (SCALE as int) <= UNIT_MAX * UNIT_MAX,
{
    assert(norm_sq_int(Vec3 { x: 0, y: SCALE, z: 0 }) == (SCALE as int) * (SCALE as int)
        && UNIT_MIN * UNIT_MIN <= (SCALE as int) * (SCALE as int) <= UNIT_MAX * UNIT_MAX)
        by (nonlinear_arith)
        requires
            SCALE == 1_000_000i64,
            UNIT_MIN == 999_996i64,
            UNIT_MAX == 1_001_000i64,
            norm_sq_int(Vec3 { x: 0, y: SCALE, z: 0 }) == 0int * 0int + (SCALE as int) * (
            SCALE as int) + 0int * 0int,
    ;
}

impl Default for EmissionMode {
    /// Uniform random placement.
    fn default() -> (m: EmissionMode)
        ensures
            m == EmissionMode::Random,
    {
        EmissionMode::Random
    }
}

impl Default for EmitterShape {
    /// A full unit sphere, automatic directions, random placement.
    fn default() -> (s: EmitterShape)
        ensures
            emitter_shape_wf(s),
            s.thickness == SCALE,
            s.mode is Random,
    {
        EmitterShape {
            shape: Shape::Sphere(crate::shapes::Sphere { radius: SCALE, hemisphere: false }),
            thickness: SCALE,
            direction_params: EmitterDirectionParams::default(),
            mode: EmissionMode::Random,
        }
    }
}

impl Default for EmitterDuration {
    /// No duration limit.
    fn default() -> (d: EmitterDuration)
        ensures
            d == EmitterDuration::Infinite,
    {
        EmitterDuration::Infinite
    }
}

/// How a yielded sample relates to the emitter: it is a raw shape sample
/// with its position mapped through the emitter's transform as a point,
/// and its (post-processed) direction mapped as a vector and renormalized.
pub open spec fn transformed_sample_ok(
    shape: Shape,
    thickness: i64,
    random_mode: bool,
    t: Transform,
    e: EmittedParticle,
) -> bool {
    exists|s: EmittedParticle|
        {
            &&& emitted_wf(s)
            &&& shape_sample_ok(shape, thickness, random_mode, s)
            &&& e.position == transform_point_spec(t, s.position)
            &&& e.direction == normalize_spec(
                #[trigger] transform_vector_spec(t, s.direction),
                Vec3 { x: 0, y: SCALE, z: 0 },
            )
        }
}

/// A one-time scheduled emission.
#[derive(Clone, Copy, Debug)]
pub struct Burst {
    /// When the burst fires, measured from the start of the emission.
    pub time: u64,
    /// How many particles it emits.
    pub count: RangeOrFixed<u64>,
}

/// A valid burst.
pub open spec fn burst_wf(b: Burst) -> bool {
    b.count.wf()
}

/// How long the emitter runs.
#[derive(Clone, Copy, Debug, PartialEq, Eq, Structural)]
pub enum EmitterDuration {
    /// Forever.
    Infinite,
    /// For a fixed time, after which it stops, or restarts if looping.
    FixedDuration {
        /// Emission time per cycle.
        duration: u64,
        /// Restart when the duration has passed.
        looping: bool,
    },
}

/// A burst fires in the tick whose half-open window `[start, start + dt)`
/// contains its scheduled time.
pub open spec fn burst_due(b: Burst, start: int, dt: int) -> bool {
    start <= b.time < start + dt
}

/// Smallest possible number of particles from the bursts due in a window.
pub open spec fn bursts_low(s: Seq<Burst>, start: int, dt: int) -> int
    decreases s.len(),
{
    if s.len() == 0 {
        0
    } else {
        bursts_low(s.drop_last(), start, dt) + if burst_due(s.last(), start, dt) {
            s.last().count.low() as int
        } else {
            0
        }
    }
}

/// Largest possible number of particles from the bursts due in a window.
pub open spec fn bursts_high(s: Seq<Burst>, start: int, dt: int) -> int
    decreases s.len(),
{
    if s.len() == 0 {
        0
    } else {
        bursts_high(s.drop_last(), start, dt) + if burst_due(s.last(), start, dt) {
            s.last().count.high() as int
        } else {
            0
        }
    }
}

/// The interval between two rate-driven emissions, in time steps: the
/// reciprocal of the rate, never below one step.
pub open spec fn rate_interval_spec(rate: u64) -> int
    recommends
        rate > 0,
{
    let i = (TIME_SQ as int) / (rate as int);
    if i == 0 {
        1
    } else {
        i
    }
}

/// How many rate-driven particles are due once `elapsed` has been reached:
/// one per full interval since the last rate emission.
pub open spec fn rate_count_spec(rate: u64, elapsed: int, last: int) -> int {
    if rate == 0 {
        0
    } else {
        (elapsed - last) / rate_interval_spec(rate)
    }
}

/// Emitter of particles.
#[derive(Clone, Debug)]
pub struct ParticleEmitter {
    /// How long emission runs.
    pub duration: EmitterDuration,
    /// The emission volume.
    pub shape: EmitterShape,
    /// Particles per second, scaled by `SCALE`; zero disables rate
    /// emission (bursts still fire).
    pub rate: u64,
    /// Scheduled one-time emissions.
    pub bursts: Vec<Burst>,
    /// Time since the start of the current cycle.
    pub current_delta_time: u64,
    /// Time of the last rate-driven emission.
    pub last_emitted_delta_time: u64,
    /// Applied to every sample before it leaves the emitter.
    pub transform: Transform,
}

/// The emitter's invariant: valid parts, and the rate marker never ahead
/// of the clock.
pub open spec fn emitter_wf(e: ParticleEmitter) -> bool {
    &&& emitter_shape_wf(e.shape)
    &&& transform_ok(e.transform)
    &&& e.last_emitted_delta_time <= e.current_delta_time
    &&& forall|i: int| 0 <= i < e.bursts@.len() ==> burst_wf(#[trigger] e.bursts@[i])
}

/// The emitter has passed its fixed duration and emits nothing this tick.
pub open spec fn emitter_expired(e: ParticleEmitter) -> bool {
    e.duration matches EmitterDuration::FixedDuration { duration, .. } && e.current_delta_time
        > duration
}

impl ParticleEmitter {
    /// Computes the particles to emit over the next `delta_time`.
    ///
    /// An expired fixed duration emits nothing (and resets the clock when
    /// looping, so the next call starts a new cycle). Otherwise every due
    /// burst fires once, and the rate contributes one particle per full
    /// interval since the last rate emission, the remainder carrying over.
    pub fn emit(&mut self, delta_time: u64, rng: &mut ParticleRng) -> (out: Vec<
        EmittedParticle,
    >)
        requires
            emitter_wf(*old(self)),
            old(self).current_delta_time + delta_time <= u64::MAX,
        ensures
            emitter_wf(*final(self)),
            final(self).duration == old(self).duration,
            final(self).rate == old(self).rate,
            final(self).bursts == old(self).bursts,
            final(self).transform == old(self).transform,
            emitter_shape_same_config(old(self).shape, final(self).shape),
            emitter_expired(*old(self)) ==> ({
                &&& out@.len() == 0
                &&& *final(rng) == *old(rng)
                &&& final(self).shape == old(self).shape
                &&& (old(self).duration matches EmitterDuration::FixedDuration {
                    looping: true,
                    ..
                } ==> final(self).current_delta_time == 0 && final(self).last_emitted_delta_time == 0)
                &&& (old(self).duration matches EmitterDuration::FixedDuration {
                    looping: false,
                    ..
                } ==> final(self).current_delta_time == old(self).current_delta_time && final(self).last_emitted_delta_time == old(self).last_emitted_delta_time)
            }),
            !emitter_expired(*old(self)) ==> ({
                let start = old(self).current_delta_time as int;
                let elapsed = start + delta_time;
                let rc = rate_count_spec(old(self).rate, elapsed, old(self).last_emitted_delta_time as int);
                &&& final(self).current_delta_time == elapsed
                &&& final(self).last_emitted_delta_time == old(self).last_emitted_delta_time + rc
                    * (if old(self).rate == 0 {
                    1int
                } else {
                    rate_interval_spec(old(self).rate)
                })
                &&& (old(self).rate == 0 ==> final(self).last_emitted_delta_time == old(self).last_emitted_delta_time)
                &&& bursts_low(old(self).bursts@, start, delta_time as int) + rc <= out@.len()
                    <= bursts_high(old(self).bursts@, start, delta_time as int) + rc
            }),
            forall|i: int| 0 <= i < out@.len() ==> emitted_wf(#[trigger] out@[i]),
            forall|i: int|
                0 <= i < out@.len() ==> transformed_sample_ok(
                    old(self).shape.shape,
                    old(self).shape.thickness,
                    samples_randomly(old(self).shape),
                    old(self).transform,
                    #[trigger] out@[i],
                ),
    {
        if let EmitterDuration::FixedDuration { duration, looping } = self.duration {
            if self.current_delta_time > duration {
                if looping {
                    self.current_delta_time = 0;
                    self.last_emitted_delta_time = 0;
                }
                return Vec::new();
            }
        }
        let ghost start = self.current_delta_time as int;
        let mut out: Vec<EmittedParticle> = Vec::new();
        // Bursts whose scheduled time falls inside this tick's window.
        let n = self.bursts.len();
        let mut bi: usize = 0;
        while bi < n
            invariant
                0 <= bi <= n,
                n == self.bursts@.len(),
                emitter_wf(*self),
                emitter_shape_same_config(old(self).shape, self.shape),
                self.bursts == old(self).bursts,
                self.duration == old(self).duration,
                self.rate == old(self).rate,
                self.transform == old(self).transform,
                self.current_delta_time == old(self).current_delta_time,
                self.last_emitted_delta_time == old(self).last_emitted_delta_time,
                start == self.current_delta_time as int,
                start + delta_time <= u64::MAX,
                bursts_low(self.bursts@.subrange(0, bi as int), start, delta_time as int)
                    <= out@.len() <= bursts_high(
                    self.bursts@.subrange(0, bi as int),
                    start,
                    delta_time as int,
                ),
                forall|i: int| 0 <= i < out@.len() ==> emitted_wf(#[trigger] out@[i]),
                forall|i: int|
                    0 <= i < out@.len() ==> transformed_sample_ok(
                        old(self).shape.shape,
                        old(self).shape.thickness,
                        samples_randomly(old(self).shape),
                        old(self).transform,
                        #[trigger] out@[i],
                    ),
            decreases n - bi,
        {
            let b = self.bursts[bi];
            let ghost len_before = out@.len();
            if b.time >= self.current_delta_time && b.time < self.current_delta_time
                + delta_time {
                let c = b.count.evaluate(rng);
                let mut k: u64 = 0;
                while k < c
                    invariant
                        0 <= k <= c,
                        emitter_wf(*self),
                        emitter_shape_same_config(old(self).shape, self.shape),
                        self.bursts == old(self).bursts,
                        self.duration == old(self).duration,
                        self.rate == old(self).rate,
                        self.transform == old(self).transform,
                        self.current_delta_time == old(self).current_delta_time,
                        self.last_emitted_delta_time == old(self).last_emitted_delta_time,
                        out@.len() == len_before + k,
                        forall|i: int| 0 <= i < out@.len() ==> emitted_wf(#[trigger] out@[i]),
                        forall|i: int|
                            0 <= i < out@.len() ==> transformed_sample_ok(
                                old(self).shape.shape,
                                old(self).shape.thickness,
                                samples_randomly(old(self).shape),
                                old(self).transform,
                                #[trigger] out@[i],
                            ),
                    decreases c - k,
                {
                    let e = self.sample_one(rng);
                    out.push(e);
                    k = k + 1;
                }
            }
            proof {
                assert(self.bursts@.subrange(0, bi + 1).drop_last() =~= self.bursts@.subrange(
                    0,
                    bi as int,
                ));
                assert(self.bursts@.subrange(0, bi + 1).last() == self.bursts@[bi as int]);
            }
            bi = bi + 1;
        }
        proof {
            assert(self.bursts@.subrange(0, n as int) =~= self.bursts@);
        }
        self.current_delta_time = self.current_delta_time + delta_time;
        // Rate-driven emission: one particle per full interval, with the
        // fractional remainder carried forward.
        if self.rate > 0 {
            let interval0 = TIME_SQ / self.rate;
            let interval = if interval0 == 0 {
                1
            } else {
                interval0
            };
            let delay = self.current_delta_time - self.last_emitted_delta_time;
            let count = delay / interval;
            proof {
                vstd::arithmetic::div_mod::lemma_fundamental_div_mod(
                    delay as int,
                    interval as int,
                );
                vstd::arithmetic::div_mod::lemma_remainder_lower(delay as int, interval as int);
                vstd::arithmetic::div_mod::lemma_div_pos_is_pos(delay as int, interval as int);
            }
            self.last_emitted_delta_time = self.last_emitted_delta_time + count * interval;
            let ghost len_bursts = out@.len();
            let mut k: u64 = 0;
            while k < count
                invariant
                    0 <= k <= count,
                    emitter_wf(*self),
                    emitter_shape_same_config(old(self).shape, self.shape),
                    self.bursts == old(self).bursts,
                    self.duration == old(self).duration,
                    self.rate == old(self).rate,
                    self.transform == old(self).transform,
                    self.current_delta_time == old(self).current_delta_time + delta_time,
                    self.last_emitted_delta_time == old(self).last_emitted_delta_time + count
                        * interval,
                    out@.len() == len_bursts + k,
                    forall|i: int| 0 <= i < out@.len() ==> emitted_wf(#[trigger] out@[i]),
                    forall|i: int|
                        0 <= i < out@.len() ==> transformed_sample_ok(
                            old(self).shape.shape,
                            old(self).shape.thickness,
                            samples_randomly(old(self).shape),
                            old(self).transform,
                            #[trigger] out@[i],
                        ),
                decreases count - k,
            {
                let e = self.sample_one(rng);
                out.push(e);
                k = k + 1;
            }
        }
        out
    }

    /// One shaped, transformed sample: the shape emits, the emitter's
    /// transform maps the position as a point and the direction as a
    /// renormalized vector.
    fn sample_one(&mut self, rng: &mut ParticleRng) -> (e: EmittedParticle)
        requires
            emitter_wf(*old(self)),
        ensures
            emitter_wf(*final(self)),
            emitter_shape_same_config(old(self).shape, final(self).shape),
            final(self).bursts == old(self).bursts,
            final(self).duration == old(self).duration,
            final(self).rate == old(self).rate,
            final(self).transform == old(self).transform,
            final(self).current_delta_time == old(self).current_delta_time,
            final(self).last_emitted_delta_time == old(self).last_emitted_delta_time,
            emitted_wf(e),
            transformed_sample_ok(
                old(self).shape.shape,
                old(self).shape.thickness,
                samples_randomly(old(self).shape),
                old(self).transform,
                e,
            ),
    {
        let sample = self.shape.emit_particle(rng);
        let position = self.transform.apply_point(sample.position);
        let direction = self.transform.apply_vector(sample.direction).normalize_or(
            Vec3::unit_y(),
        );
        let e = EmittedParticle { position, direction };
        proof {
            assert(emitted_wf(sample));
            assert(shape_sample_ok(
                old(self).shape.shape,
                old(self).shape.thickness,
                samples_randomly(old(self).shape),
                sample,
            ));
            assert(e.position == transform_point_spec(old(self).transform, sample.position));
            assert(e.direction == normalize_spec(
                transform_vector_spec(old(self).transform, sample.direction),
                Vec3 { x: 0, y: SCALE, z: 0 },
            ));
        }
        e
    }
}

impl Default for ParticleEmitter {
    /// Five particles per second, forever, from a unit sphere, untransformed.
    fn default() -> (e: ParticleEmitter)
        ensures
            emitter_wf(e),
            e.duration == EmitterDuration::Infinite,
            e.rate == 5 * SCALE,
            e.bursts@.len() == 0,
            e.current_delta_time == 0,
            e.last_emitted_delta_time == 0,
    {
        ParticleEmitter {
            duration: EmitterDuration::Infinite,
            shape: EmitterShape {
                shape: Shape::Sphere(crate::shapes::Sphere { radius: SCALE, hemisphere: false }),
                thickness: SCALE,
                direction_params: EmitterDirectionParams::default(),
                mode: EmissionMode::Random,
            },
            rate: 5 * (SCALE as u64),
            bursts: Vec::new(),
            current_delta_time: 0,
            last_emitted_delta_time: 0,
            transform: Transform::identity(),
        }
    }
}

} // verus!
