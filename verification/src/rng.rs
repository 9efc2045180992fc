//! The machine's pseudo-random byte source.
//!
//! A 32-bit linear congruential generator. The whole state is the last value
//! produced, so a machine started from a given seed always draws the same
//! bytes in the same order.

use vstd::prelude::*;

verus! {

/// Multiplier of the generator.
pub const RNG_MULTIPLIER: u64 = 1664525;

/// Increment of the generator.
pub const RNG_INCREMENT: u64 = 1013904223;

/// Seed of a machine that was not given one.
pub const DEFAULT_SEED: u32 = 0x2545_f491;

/// The state that follows `state`.
pub open spec fn next_state(state: u32) -> u32 {
    ((state * RNG_MULTIPLIER + RNG_INCREMENT) % 0x1_0000_0000) as u32
}

/// The byte drawn when the generator moves on from `state`: the top eight
/// bits of the state that follows.
pub open spec fn next_byte_of(state: u32) -> u8 {
    (next_state(state) / 0x100_0000) as u8
}

/// The generator. Two generators in the same state draw the same bytes.
#[derive(Clone, Copy, Debug, PartialEq, Eq)]
pub struct Rng {
    /// The last state reached, or the seed if nothing was drawn yet.
    pub state: u32,
}

impl Rng {
    /// A generator that starts from `seed`.
    pub fn new(seed: u32) -> (rng: Rng)
        ensures
            rng.state == seed,
    {
        Rng { state: seed }
    }

    /// Moves the generator on by one state and returns the byte drawn.
    pub fn next_byte(&mut self) -> (b: u8)
        ensures
            final(self).state == next_state(old(self).state),
            b == next_byte_of(old(self).state),
    {
        let next: u64 = (self.state as u64 * RNG_MULTIPLIER + RNG_INCREMENT) % 0x1_0000_0000;
        self.state = next as u32;
        (next / 0x100_0000) as u8
    }
}

} // verus!
