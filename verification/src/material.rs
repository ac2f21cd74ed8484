//! Particle materials: a single image, or an animated texture sheet whose
//! cell is picked per particle.

use vstd::prelude::*;

use crate::fixed::{fp_clamp, fp_mul, fp_mul_exact, fp_ok, isqrt_spec, tdiv, SCALE};
use crate::particle::{alive_ratio_spec, particle_wf, Particle};
use crate::rng::ParticleRng;
use crate::vec3::norm_sq_int;

verus! {

/// One cell of a texture sheet, as UV coordinates.
#[derive(Clone, Copy, Debug, PartialEq, Eq, Structural)]
pub struct UvRect {
    /// Left edge.
    pub min_x: i64,
    /// Top edge.
    pub min_y: i64,
    /// Right edge.
    pub max_x: i64,
    /// Bottom edge.
    pub max_y: i64,
}

/// The cells of a texture sheet, in order.
#[derive(Clone, Debug)]
pub struct TextureAtlas {
    /// The cells.
    pub textures: Vec<UvRect>,
}

/// How an animated sheet behaves past its last cell.
#[derive(Clone, Copy, Debug, PartialEq, Eq, Structural)]
pub enum TextureSheetLoopingMode {
    /// Stay on the last cell.
    Still,
    /// Wrap back to the first cell.
    Loop,
}

/// Animation parameters for a texture sheet.
#[derive(Clone, Copy, Debug, PartialEq, Eq, Structural)]
pub struct TextureSheetAnimation {
    /// First cell of the animation.
    pub start_index: usize,
    /// Behavior past the last cell.
    pub looping_mode: TextureSheetLoopingMode,
    /// Scales how fast the driving quantity advances the cells.
    pub ratio: i64,
}

/// How a particle picks its cell.
#[derive(Clone, Copy, Debug)]
pub enum TextureSheetMode {
    /// Always this cell.
    FixedIndex(usize),
    /// A cell drawn at random per query.
    RandomIndex,
    /// The cell advances with the particle's lived time.
    AnimateOverTime(TextureSheetAnimation),
    /// The cell advances with the particle's lived share of its lifetime.
    AnimateOverLifetime(TextureSheetAnimation),
    /// The cell advances with the particle's speed.
    AnimateOverSpeed(TextureSheetAnimation),
}

/// Texture sheet with its resolve mode.
#[derive(Clone, Debug)]
pub struct ParticleTextureSheet {
    /// The atlas holding the cells.
    pub texture_atlas: TextureAtlas,
    /// How cells are picked.
    pub mode: TextureSheetMode,
}

/// The particle visual: one image (by an opaque handle), or a sheet.
#[derive(Clone, Debug)]
pub enum ParticleMaterial {
    /// A single image, identified by the host's handle.
    Image(u64),
    /// An animated texture sheet.
    TextureSheet(ParticleTextureSheet),
}

/// The quantity driving an animation, already scaled by its ratio.
pub open spec fn animation_delta_spec(a: TextureSheetAnimation, mode: TextureSheetMode, p: Particle) -> int {
    let base: int = match mode {
        TextureSheetMode::AnimateOverLifetime(_) => alive_ratio_spec(p),
        TextureSheetMode::AnimateOverTime(_) => p.start_lifetime - p.lifetime,
        _ => fp_clamp(isqrt_spec(norm_sq_int(p.velocity))),
    };
    fp_clamp(fp_mul_exact(base, a.ratio as int))
}

/// The cell an animation lands on for a given (scaled) driving value:
/// cells advance linearly, and past the end of the sheet either hold the
/// last cell or wrap around to the first.
pub open spec fn animation_index_spec(a: TextureSheetAnimation, len: int, delta: int) -> int {
    let raw = if delta >= 0 {
        tdiv(len * delta, SCALE as int)
    } else {
        0
    };
    match a.looping_mode {
        TextureSheetLoopingMode::Still => if raw > len - 1 {
            len - 1
        } else {
            raw
        },
        TextureSheetLoopingMode::Loop => raw % len,
    }
}

/// A valid resolve mode for a given atlas: the atlas is never empty, a
/// fixed index is in range, and an animation advances at a valid rate.
pub open spec fn sheet_mode_wf(mode: TextureSheetMode, len: int) -> bool {
    &&& len >= 1
    &&& (mode matches TextureSheetMode::FixedIndex(i) ==> i < len)
    &&& (animation_of(mode) matches Some(a) ==> fp_ok(a.ratio as int) && a.ratio >= 0)
}

/// The animation parameters of a mode, if it has any.
pub open spec fn animation_of(mode: TextureSheetMode) -> Option<TextureSheetAnimation> {
    match mode {
        TextureSheetMode::AnimateOverTime(a) => Some(a),
        TextureSheetMode::AnimateOverLifetime(a) => Some(a),
        TextureSheetMode::AnimateOverSpeed(a) => Some(a),
        _ => None,
    }
}

impl Default for TextureSheetAnimation {
    /// Start at the first cell, unanimated, full-rate.
    fn default() -> (a: TextureSheetAnimation)
        ensures
            a == (TextureSheetAnimation {
                start_index: 0,
                looping_mode: TextureSheetLoopingMode::Still,
                ratio: SCALE,
            }),
    {
        TextureSheetAnimation {
            start_index: 0,
            looping_mode: TextureSheetLoopingMode::Still,
            ratio: SCALE,
        }
    }
}

impl Default for TextureSheetMode {
    /// Animate over the particle's lifetime.
    fn default() -> (m: TextureSheetMode)
        ensures
            m matches TextureSheetMode::AnimateOverLifetime(a) && a == (TextureSheetAnimation {
                start_index: 0,
                looping_mode: TextureSheetLoopingMode::Still,
                ratio: SCALE,
            }),
    {
        TextureSheetMode::AnimateOverLifetime(TextureSheetAnimation::default())
    }
}

impl TextureSheetAnimation {
    /// The cell for `particle`, driven by `delta` (the lived time, the
    /// lifetime ratio, or the speed, picked by the caller).
    fn rect_for_delta(&self, atlas: &TextureAtlas, delta: i64) -> (r: UvRect)
        requires
            atlas.textures@.len() >= 1,
            0 <= delta,
            fp_ok(delta as int),
        ensures
            r == atlas.textures@[animation_index_spec(
                *self,
                atlas.textures@.len() as int,
                delta as int,
            )],
    {
        let len = atlas.textures.len();
        proof {
            crate::fixed::lemma_mul_le(
                len as int,
                delta as int,
                usize::MAX as int,
                crate::fixed::FP_MAX as int,
            );
            vstd::arithmetic::div_mod::lemma_div_pos_is_pos(
                (len as int) * (delta as int),
                SCALE as int,
            );
        }
        let raw_u: u128 = ((len as u128) * (delta as u128)) / (SCALE as u128);
        let index = match self.looping_mode {
            TextureSheetLoopingMode::Still => {
                if raw_u > (len - 1) as u128 {
                    len - 1
                } else {
                    raw_u as usize
                }
            },
            TextureSheetLoopingMode::Loop => {
                proof {
                    vstd::arithmetic::div_mod::lemma_mod_division_less_than_divisor(
                        raw_u as int,
                        len as int,
                    );
                }
                (raw_u % (len as u128)) as usize
            },
        };
        atlas.textures[index]
    }
}

impl TextureSheetMode {
    /// The cell for `particle`: fixed, random, or animated by time,
    /// lifetime or speed.
    pub fn rect(&self, atlas: &TextureAtlas, particle: &Particle, rng: &mut ParticleRng) -> (r:
        UvRect)
        requires
            particle_wf(*particle),
            sheet_mode_wf(*self, atlas.textures@.len() as int),
        ensures
            (*self) matches TextureSheetMode::FixedIndex(i) ==> r == atlas.textures@[i as int],
            (*self) is RandomIndex ==> exists|i: int|
                0 <= i < atlas.textures@.len() && r == #[trigger] atlas.textures@[i],
            animation_of(*self) matches Some(a) ==> r == atlas.textures@[animation_index_spec(
                a,
                atlas.textures@.len() as int,
                animation_delta_spec(a, *self, *particle),
            )],
    {
        match self {
            TextureSheetMode::FixedIndex(i) => atlas.textures[*i],
            TextureSheetMode::RandomIndex => {
                let n = atlas.textures.len();
                let i64v = rng.next_inclusive_u64(0, (n - 1) as u64);
                let i = i64v as usize;
                let r = atlas.textures[i];
                proof {
                    assert(0 <= i < atlas.textures@.len() && r == atlas.textures@[i as int]);
                }
                r
            },
            TextureSheetMode::AnimateOverLifetime(a) => {
                let base = particle.alive_time_ratio();
                let delta = fp_mul(base, a.ratio);
                proof {
                    lemma_nonneg_mul(base as int, a.ratio as int);
                }
                a.rect_for_delta(atlas, delta)
            },
            TextureSheetMode::AnimateOverTime(a) => {
                let base = particle.alive_time();
                let delta = fp_mul(base, a.ratio);
                proof {
                    lemma_nonneg_mul(base as int, a.ratio as int);
                }
                a.rect_for_delta(atlas, delta)
            },
            TextureSheetMode::AnimateOverSpeed(a) => {
                let base = particle.speed();
                let delta = fp_mul(base, a.ratio);
                proof {
                    lemma_nonneg_mul(base as int, a.ratio as int);
                }
                a.rect_for_delta(atlas, delta)
            },
        }
    }
}

/// A product of non-negative factors is non-negative, through the
/// fixed-point scaling.
proof fn lemma_nonneg_mul(a: int, b: int)
    requires
        0 <= a,
        0 <= b,
    ensures
        0 <= fp_clamp(crate::fixed::fp_mul_exact(a, b)),
{
    assert(0 <= a * b) by (nonlinear_arith)
        requires
            0 <= a,
            0 <= b,
    ;
    vstd::arithmetic::div_mod::lemma_div_pos_is_pos(a * b, SCALE as int);
}

} // verus!
