//! Deterministic pseudo-random source for spawn scheduling.
//!
//! The draw sequence is a pure function of the seed, so a whole game run is
//! reproducible; the seed itself is supplied by the embedding environment at
//! construction. Every draw has an exact contract: the spec functions below
//! mirror the mixing steps, so callers can pin what a draw from a given
//! state returns.

use vstd::prelude::*;

verus! {

/// The state after one advance: the fixed odd increment is added, wrapping.
pub open spec fn spec_rng_next_state(state: u64) -> u64 {
    vstd::wrapping::u64_specs::wrapping_add(state, 0x9E3779B97F4A7C15)
}

/// The raw 64-bit output drawn from a given state: the advanced state run
/// through two multiply-xor-shift mixing rounds and a final shift.
pub open spec fn spec_rng_output(state: u64) -> u64 {
    let s = spec_rng_next_state(state);
    let z1 = vstd::wrapping::u64_specs::wrapping_mul(s ^ (s >> 30), 0xBF58476D1CE4E5B9);
    let z2 = vstd::wrapping::u64_specs::wrapping_mul(z1 ^ (z1 >> 27), 0x94D049BB133111EB);
    z2 ^ (z2 >> 31)
}

/// The bounded draw `gen_below(n)` makes from a given state.
pub open spec fn spec_gen_below(state: u64, n: u32) -> u32 {
    (spec_rng_output(state) % (n as u64)) as u32
}

/// A 64-bit mixing generator advanced by a fixed odd increment.
pub struct Rng {
    pub state: u64,
}

impl Rng {
    pub fn new(seed: u64) -> (r: Rng)
        ensures
            r.state == seed,
    {
        Rng { state: seed }
    }

    /// The next raw 64-bit draw.
    fn next_u64(&mut self) -> (r: u64)
        ensures
            r == spec_rng_output(old(self).state),
            final(self).state == spec_rng_next_state(old(self).state),
    {
        self.state = self.state.wrapping_add(0x9E3779B97F4A7C15);
        let mut z = self.state;
        z = (z ^ (z >> 30)).wrapping_mul(0xBF58476D1CE4E5B9);
        z = (z ^ (z >> 27)).wrapping_mul(0x94D049BB133111EB);
        z ^ (z >> 31)
    }

    /// A draw in `0 .. n`: exactly the bounded draw of the current state.
    pub fn gen_below(&mut self, n: u32) -> (r: u32)
        requires
            n > 0,
        ensures
            r < n,
            r == spec_gen_below(old(self).state, n),
            final(self).state == spec_rng_next_state(old(self).state),
    {
        let x = self.next_u64();
        (x % (n as u64)) as u32
    }
}

} // verus!
