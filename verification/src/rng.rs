//! The node's single source of randomness: one uniform draw per drop decision,
//! from a Xoshiro256++ generator freshly seeded from the thread-local
//! generator, as an unpredictable pseudo-random source.

use vstd::prelude::*;

use rand::Rng;
use rand::RngCore;
use rand::SeedableRng;
use rand_xoshiro::Xoshiro256PlusPlus;

verus! {

/// Relies on rand's `Rng::gen_range` over `0..bound`: it returns a uniformly
/// distributed value of that range and panics only when the range is empty.
/// The generator is `rand_xoshiro::Xoshiro256PlusPlus`, seeded from
/// `rand::thread_rng`. Nothing is assumed of which value comes back beyond
/// membership in the range.
#[verifier::external_body]
pub(crate) fn draw_uniform(bound: u64) -> (r: u64)
    requires
        bound > 0,
    ensures
        r < bound,
{
    let xoshiro_seed = rand::thread_rng().next_u64();
    let mut xoshiro = Xoshiro256PlusPlus::seed_from_u64(xoshiro_seed);
    xoshiro.gen_range(0..bound)
}

} // verus!
