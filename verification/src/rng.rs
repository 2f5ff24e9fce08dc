//! A seeded pseudo-random source for the dataset bootstrapper.
//!
//! The generator draws bounded values from `rand`'s `StdRng`, which is a
//! deterministic pseudo-random generator: after seeding with a fixed value,
//! the value of each draw is a function of the seed, of the bounds of all
//! draws made before it, and of its own bound. `rng_draw` names that
//! function; it is what makes the generated dataset reproducible.

use vstd::prelude::*;
use rand::Rng;
use rand::SeedableRng;

verus! {

#[verifier::external_type_specification]
#[verifier::external_body]
pub struct ExStdRng(rand::rngs::StdRng);

/// The value of a bounded draw from `StdRng`: a function of the seed, the
/// bounds of the earlier draws, and the bound of this draw. The library
/// states nothing about its value beyond the wrapper's range bound.
pub uninterp spec fn rng_draw(seed: u64, prior: Seq<u32>, bound: u32) -> u32;

/// A `StdRng` seeded once, together with the record of every bound drawn
/// from it so far. The fields are private: only `new` builds one and only
/// `draw` advances it, so `prior` always is the generator's true history
/// and the `rng_draw` clause of `draw` is grounded.
pub struct SeedRng {
    inner: rand::rngs::StdRng,
    seed: u64,
    prior: Vec<u32>,
}

impl SeedRng {
    pub closed spec fn seed(self) -> u64 {
        self.seed
    }

    pub closed spec fn prior(self) -> Seq<u32> {
        self.prior@
    }

    /// Relies on `rand::rngs::StdRng` via `SeedableRng::seed_from_u64`:
    /// seeding is deterministic in the seed.
    #[verifier::external_body]
    pub fn new(seed: u64) -> (r: SeedRng)
        ensures
            r.seed() == seed,
            r.prior() == Seq::<u32>::empty(),
    {
        SeedRng { inner: rand::rngs::StdRng::seed_from_u64(seed), seed, prior: Vec::new() }
    }

    /// Relies on `rand::Rng::gen_range` over `0..bound`: the result is below
    /// `bound`, and `StdRng` being deterministic, it is a function of the
    /// seed and of the history of bounds alone, here named `rng_draw`.
    #[verifier::external_body]
    pub fn draw(&mut self, bound: u32) -> (r: u32)
        requires
            bound > 0,
        ensures
            r == rng_draw(old(self).seed(), old(self).prior(), bound),
            r < bound,
            final(self).seed() == old(self).seed(),
            final(self).prior() == old(self).prior().push(bound),
    {
        self.prior.push(bound);
        self.inner.gen_range(0..bound)
    }
}

} // verus!
