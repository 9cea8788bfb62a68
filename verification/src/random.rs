//! The seeded random source that food placement draws from.

use vstd::prelude::*;
use rand::Rng;
use rand::SeedableRng;

verus! {

/// `rand::rngs::StdRng`, the generator behind [`RandomSource`]. Its state is
/// opaque to the proofs: nothing is known of a generator but what the
/// functions below state of their results.
#[verifier::external_type_specification]
#[verifier::external_body]
pub struct ExStdRng(rand::rngs::StdRng);

/// Calls `StdRng::seed_from_u64`, which builds a generator from `seed`.
/// Nothing is claimed of the generator it returns.
#[verifier::external_body]
fn generator_from_seed(seed: u64) -> (generator: rand::rngs::StdRng) {
    rand::rngs::StdRng::seed_from_u64(seed)
}

/// Calls `Rng::gen_range(0, bound)` on the generator. The call panics unless
/// `0 < bound`, so that is required; it samples from the half-open range
/// `[0, bound)`, and that the result lies in it is all that is claimed.
#[verifier::external_body]
fn sample_below(generator: &mut rand::rngs::StdRng, bound: u64) -> (index: u64)
    requires
        0 < bound,
    ensures
        index < bound,
{
    generator.gen_range(0u64, bound)
}

/// A source of random indices, reproducible from its seed: two sources made
/// from one seed hand out the same indices for the same requests.
pub struct RandomSource {
    generator: rand::rngs::StdRng,
}

impl RandomSource {
    /// A source that starts from `seed`.
    pub fn seeded(seed: u64) -> (source: RandomSource) {
        RandomSource { generator: generator_from_seed(seed) }
    }

    /// Draws an index below `bound`, each with the same chance. There is
    /// nothing to draw below zero: then, and only then, the answer is `None`.
    pub fn below(&mut self, bound: u64) -> (index: Option<u64>)
        ensures
            match index {
                Some(i) => i < bound,
                None => bound == 0,
            },
    {
        if bound == 0 {
            None
        } else {
            Some(sample_below(&mut self.generator, bound))
        }
    }
}

} // verus!
