//! A small deterministic linear-congruential generator. World generation
//! draws its decoration rolls from here so that a fixed seed reproduces the
//! exact same world, decorations included.

use vstd::prelude::*;

verus! {

/// Multiplier of the linear-congruential step.
pub const LCG_MUL: u64 = 6_364_136_223_846_793_005;

/// Increment of the linear-congruential step.
pub const LCG_ADD: u64 = 1_442_695_040_888_963_407;

/// One step of the generator: multiply, add, keep the low 64 bits.
pub open spec fn lcg_next_spec(s: u64) -> u64 {
    ((((s as int) * (LCG_MUL as int)) + (LCG_ADD as int)) % 0x1_0000_0000_0000_0000) as u64
}

/// A draw in `[0, n)` taken from the upper half of the next state, which
/// mixes better than the low bits of a linear-congruential generator.
pub open spec fn lcg_draw_spec(s: u64, n: u32) -> u32 {
    (((lcg_next_spec(s) >> 32) % (n as u64)) % 0x1_0000_0000) as u32
}

/// Deterministic pseudo-random source, fully determined by its seed.
#[derive(Clone, Copy, PartialEq, Eq, Structural, Debug)]
pub struct SimRng {
    pub state: u64,
}

impl SimRng {
    /// Starts the stream that belongs to `seed`.
    pub fn seeded(seed: u64) -> (r: SimRng)
        ensures
            r.state == seed,
    {
        SimRng { state: seed }
    }

    /// Advances the generator once and hands out the new state.
    pub fn next(&mut self) -> (r: u64)
        ensures
            final(self).state == lcg_next_spec(old(self).state),
            r == final(self).state,
    {
        let wide: u128 = (self.state as u128) * (LCG_MUL as u128) + (LCG_ADD as u128);
        proof {
            assert((self.state as int) * (LCG_MUL as int) <= (18_446_744_073_709_551_615 as int) * (
            LCG_MUL as int)) by (nonlinear_arith)
                requires
                    self.state <= 18_446_744_073_709_551_615u64;
        }
        let next: u64 = (wide % 0x1_0000_0000_0000_0000_u128) as u64;
        self.state = next;
        next
    }

    /// Draws a value below `n`, advancing the generator once.
    pub fn next_below(&mut self, n: u32) -> (r: u32)
        requires
            n > 0,
        ensures
            final(self).state == lcg_next_spec(old(self).state),
            r == lcg_draw_spec(old(self).state, n),
            r < n,
    {
        let v = self.next();
        let high: u64 = v >> 32;
        proof {
            assert(high < 0x1_0000_0000) by (bit_vector)
                requires
                    high == v >> 32u64;
        }
        let r: u32 = (high % (n as u64)) as u32;
        r
    }
}

} // verus!
