//! A second generator with the same sequence as the linear congruential
//! generator of `rng`, kept as a type of its own.
use vstd::prelude::*;
use crate::rng::{lcg_step, RandomSource, DEFAULT_SEED, LCG_A, LCG_C};

verus! {

/// 16-bit linear congruential generator; each draw replaces the seed by its
/// successor and returns it.
pub struct SimpleRng {
    pub seed: u16,
}

impl Default for SimpleRng {
    fn default() -> (generator: Self)
        ensures
            generator.seed == DEFAULT_SEED,
    {
        Self { seed: DEFAULT_SEED }
    }
}

impl RandomSource for SimpleRng {
    open spec fn upcoming(&self) -> u16 {
        lcg_step(self.seed)
    }

    open spec fn advanced(&self) -> Self {
        SimpleRng { seed: lcg_step(self.seed) }
    }

    fn next(&mut self) -> (value: u16)
        ensures
            value == lcg_step(old(self).seed),
            final(self).seed == value,
    {
        self.seed = LCG_A.wrapping_mul(self.seed).wrapping_add(LCG_C);
        self.seed
    }
}

} // verus!
