//! SplitMix64: the single deterministic generator behind room shapes, loot and duels.

use vstd::prelude::*;

verus! {

/// Additive increment of the generator (the 64-bit golden ratio).
pub const GOLDEN_GAMMA: u64 = 0x9E37_79B9_7F4A_7C15;

pub const MIX_MUL_1: u64 = 0xBF58_476D_1CE4_E5B9;

pub const MIX_MUL_2: u64 = 0x94D0_49BB_1331_11EB;

pub open spec fn wrap_add(a: u64, b: u64) -> u64 {
    vstd::wrapping::u64_specs::wrapping_add(a, b)
}

pub open spec fn wrap_mul(a: u64, b: u64) -> u64 {
    vstd::wrapping::u64_specs::wrapping_mul(a, b)
}

/// The state after one step.
pub open spec fn step(state: u64) -> u64 {
    wrap_add(state, GOLDEN_GAMMA)
}

/// The output finaliser applied to a freshly stepped state.
#[verifier::opaque]
pub open spec fn mix(z: u64) -> u64 {
    let a = wrap_mul(z ^ (z >> 30u64), MIX_MUL_1);
    let b = wrap_mul(a ^ (a >> 27u64), MIX_MUL_2);
    b ^ (b >> 31u64)
}

/// The value drawn from a generator in state `state`.
pub open spec fn draw(state: u64) -> u64 {
    mix(step(state))
}

/// A SplitMix64 stream; `state` is the whole of it.
#[derive(Clone, Copy, Debug, PartialEq, Eq)]
pub struct SplitMix64 {
    pub state: u64,
}

impl SplitMix64 {
    /// A stream seeded from an integer; the seed is whitened with the gamma.
    pub fn new(seed: u64) -> (r: SplitMix64)
        ensures
            r.state == seed ^ GOLDEN_GAMMA,
    {
        SplitMix64 { state: seed ^ GOLDEN_GAMMA }
    }

    /// A stream seeded from the first eight bytes of `bytes` read little-endian.
    pub fn from_bytes(bytes: &[u8; 32]) -> (r: SplitMix64)
        ensures
            r.state == (le_u64(bytes@) as u64) ^ GOLDEN_GAMMA,
    {
        SplitMix64 { state: read_le_u64(bytes) ^ GOLDEN_GAMMA }
    }

    /// Advances the stream and returns the next 64-bit value.
    pub fn next_u64(&mut self) -> (r: u64)
        ensures
            final(self).state == step(old(self).state),
            r == draw(old(self).state),
    {
        proof {
            reveal(mix);
        }
        self.state = self.state.wrapping_add(GOLDEN_GAMMA);
        let z0 = self.state;
        let z1 = (z0 ^ (z0 >> 30u64)).wrapping_mul(MIX_MUL_1);
        let z2 = (z1 ^ (z1 >> 27u64)).wrapping_mul(MIX_MUL_2);
        z2 ^ (z2 >> 31u64)
    }

    /// A value in `[0, upper)` by modulo; bounds of 0 or 1 yield 0 without drawing.
    pub fn range_u32(&mut self, upper_exclusive: u32) -> (r: u32)
        ensures
            upper_exclusive <= 1 ==> r == 0 && *final(self) == *old(self),
            upper_exclusive > 1 ==> final(self).state == step(old(self).state) && r as int
                == draw(old(self).state) as int % upper_exclusive as int,
            upper_exclusive > 1 ==> r < upper_exclusive,
    {
        if upper_exclusive <= 1 {
            return 0;
        }
        let v = self.next_u64();
        (v % (upper_exclusive as u64)) as u32
    }
}

/// Little-endian value of the first eight bytes.
pub open spec fn le_u64(b: Seq<u8>) -> int
    recommends
        b.len() >= 8,
{
    b[0] as int + 0x100 * b[1] as int + 0x1_0000 * b[2] as int + 0x100_0000 * b[3] as int
        + 0x1_0000_0000 * b[4] as int + 0x100_0000_0000 * b[5] as int + 0x1_0000_0000_0000
        * b[6] as int + 0x100_0000_0000_0000 * b[7] as int
}

/// Reads the first eight bytes as a little-endian integer.
pub fn read_le_u64(bytes: &[u8; 32]) -> (r: u64)
    ensures
        r as int == le_u64(bytes@),
{
    bytes[0] as u64 + 0x100 * (bytes[1] as u64) + 0x1_0000 * (bytes[2] as u64) + 0x100_0000 * (
    bytes[3] as u64) + 0x1_0000_0000 * (bytes[4] as u64) + 0x100_0000_0000 * (bytes[5] as u64)
        + 0x1_0000_0000_0000 * (bytes[6] as u64) + 0x100_0000_0000_0000 * (bytes[7] as u64)
}

} // verus!
