//! Random draws, through rand's `SmallRng`.
//!
//! Every random value the simulation consumes is drawn here, so one seeded
//! generator per particle system keeps a run reproducible.

use rand::rngs::SmallRng;
use rand::{Rng, SeedableRng};
use vstd::prelude::*;

verus! {

/// `rand::rngs::SmallRng`, declared so the library can own and pass one.
#[verifier::external_type_specification]
#[verifier::external_body]
pub struct ExSmallRng(SmallRng);

/// Relies on rand's `SeedableRng::seed_from_u64`: builds a generator whose
/// draws depend only on the seed within one build of the library.
#[verifier::external_body]
fn rng_from_seed(seed: u64) -> SmallRng {
    SmallRng::seed_from_u64(seed)
}

/// Relies on rand's `Rng::gen_range` over `lo..=hi`: returns a value inside
/// the inclusive range; the precondition rules out the empty range, the one
/// case in which `gen_range` panics.
#[verifier::external_body]
fn rng_range_u64(rng: &mut SmallRng, lo: u64, hi: u64) -> (r: u64)
    requires
        lo <= hi,
    ensures
        lo <= r <= hi,
{
    rng.gen_range(lo..=hi)
}

/// Relies on rand's `Rng::gen_range` over `lo..=hi`: returns a value inside
/// the inclusive range; the precondition rules out the empty range, the one
/// case in which `gen_range` panics.
#[verifier::external_body]
fn rng_range_i64(rng: &mut SmallRng, lo: i64, hi: i64) -> (r: i64)
    requires
        lo <= hi,
    ensures
        lo <= r <= hi,
{
    rng.gen_range(lo..=hi)
}

/// Relies on rand's `Rng::gen_ratio` with ratio 1/2: a fair coin flip.
#[verifier::external_body]
fn rng_coin(rng: &mut SmallRng) -> bool {
    rng.gen_ratio(1, 2)
}

/// Per-system random generator.
pub struct ParticleRng(pub SmallRng);

impl ParticleRng {
    /// Builds a generator from a seed; the same seed replays the same draws.
    pub fn from_seed(seed: u64) -> ParticleRng {
        ParticleRng(rng_from_seed(seed))
    }

    /// Draws an unsigned value uniformly from `[lo, hi]`.
    pub fn next_inclusive_u64(&mut self, lo: u64, hi: u64) -> (r: u64)
        requires
            lo <= hi,
        ensures
            lo <= r <= hi,
    {
        rng_range_u64(&mut self.0, lo, hi)
    }

    /// Draws a signed value uniformly from `[lo, hi]`.
    pub fn next_inclusive_i64(&mut self, lo: i64, hi: i64) -> (r: i64)
        requires
            lo <= hi,
        ensures
            lo <= r <= hi,
    {
        rng_range_i64(&mut self.0, lo, hi)
    }

    /// Draws a fair coin flip.
    pub fn coin(&mut self) -> bool {
        rng_coin(&mut self.0)
    }
}

} // verus!
