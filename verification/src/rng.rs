//! A seedable deterministic random stream.
//!
//! The simulation consumes uniform draws in three places: the AI's aim
//! resampling, the serve launch angle, and the initial serve direction.
//! Threading this small xorshift generator through those call sites keeps
//! every run reproducible from its seed, which the tests rely on.  The
//! state update is a bijection on the nonzero 64-bit words, so a nonzero
//! state never reaches zero.

use vstd::prelude::*;

use crate::num::sample_in_range;
use crate::num::sample_spec;

verus! {

/// State used when a seed of zero is supplied, since the all-zero word is
/// the one fixed point of the xorshift step.
pub const SEED_FALLBACK: u64 = 0x9E37_79B9_7F4A_7C15;

/// One xorshift step of the generator state.
pub open spec fn rng_next(x: u64) -> u64 {
    let a = x ^ (x << 13);
    let b = a ^ (a >> 7);
    b ^ (b << 17)
}

/// The 32-bit draw produced by one step: the high word of the new state.
pub open spec fn rng_out(x: u64) -> u32 {
    (rng_next(x) >> 32) as u32
}

/// The state a seed starts the stream in.
pub open spec fn seed_state(seed: u64) -> u64 {
    if seed == 0 {
        SEED_FALLBACK
    } else {
        seed
    }
}

/// A deterministic pseudo-random stream.
#[derive(Debug, Clone, Copy, PartialEq, Eq, Structural)]
pub struct Rng {
    pub state: u64,
}

impl Rng {
    /// Seed the stream; any seed is accepted and a zero seed is replaced.
    pub fn new(seed: u64) -> (r: Rng)
        ensures
            r.state == seed_state(seed),
    {
        if seed == 0 {
            Rng { state: SEED_FALLBACK }
        } else {
            Rng { state: seed }
        }
    }

    /// Advance the stream and hand out 32 bits.
    pub fn next_u32(&mut self) -> (r: u32)
        ensures
            final(self).state == rng_next(old(self).state),
            r == rng_out(old(self).state),
    {
        let mut x = self.state;
        x = x ^ (x << 13);
        x = x ^ (x >> 7);
        x = x ^ (x << 17);
        self.state = x;
        (x >> 32) as u32
    }

    /// Draw a value uniformly from the closed interval `[lo, hi]`.
    pub fn gen_range(&mut self, lo: i64, hi: i64) -> (r: i64)
        requires
            lo <= hi,
        ensures
            final(self).state == rng_next(old(self).state),
            r == sample_spec(lo as int, hi as int, rng_out(old(self).state)),
            lo <= r <= hi,
    {
        let raw = self.next_u32();
        sample_in_range(lo, hi, raw)
    }
}

} // verus!
