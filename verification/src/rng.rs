//! Sources of 16-bit pseudo-random values.
use vstd::prelude::*;

verus! {

/// Seed of a generator that was not seeded explicitly.
pub const DEFAULT_SEED: u16 = 996;

/// Multiplier of the linear congruential sequence.
pub const LCG_A: u16 = 75;

/// Increment of the linear congruential sequence.
pub const LCG_C: u16 = 74;

/// The successor of `seed` in the sequence `seed * 75 + 74 (mod 65536)`.
pub open spec fn lcg_step(seed: u16) -> u16 {
    ((LCG_A * seed + LCG_C) % 0x1_0000) as u16
}

/// An unbounded, deterministic stream of 16-bit values.
///
/// What a source yields is a function of its current state alone: the two
/// spec functions name the next value and the state that follows it, and
/// `next` must agree with them. A verified source defines both; where they
/// are left at their defaults nothing is known of what the source yields.
pub trait RandomSource: Sized {
    /// The value that the next draw returns.
    open spec fn upcoming(&self) -> u16 {
        arbitrary()
    }

    /// The source as it stands after one draw.
    open spec fn advanced(&self) -> Self {
        arbitrary()
    }

    /// Draws one value and moves the source on.
    fn next(&mut self) -> (value: u16)
        ensures
            value == old(self).upcoming(),
            *final(self) == old(self).advanced(),
    ;
}

/// 16-bit linear congruential generator; each draw replaces the seed by its
/// successor and returns it.
pub struct LinearCongruentialGenerator {
    pub seed: u16,
}

impl Default for LinearCongruentialGenerator {
    fn default() -> (generator: Self)
        ensures
            generator.seed == DEFAULT_SEED,
    {
        Self { seed: DEFAULT_SEED }
    }
}

impl RandomSource for LinearCongruentialGenerator {
    open spec fn upcoming(&self) -> u16 {
        lcg_step(self.seed)
    }

    open spec fn advanced(&self) -> Self {
        LinearCongruentialGenerator { seed: lcg_step(self.seed) }
    }

    fn next(&mut self) -> (value: u16)
        ensures
            value == lcg_step(old(self).seed),
            final(self).seed == value,
    {
        self.seed = LCG_A.wrapping_mul(self.seed).wrapping_add(LCG_C);
        self.seed
    }
}

} // verus!
