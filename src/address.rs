//! Account addresses, held as the four little-endian 64-bit words of their 32 bytes.

use vstd::prelude::*;

verus! {

/// A 32-byte account address (a wallet, a room record, an escrow); `words[i]` is
/// bytes `8 * i .. 8 * i + 8` read little-endian.
#[derive(Clone, Copy, Debug, PartialEq, Eq, Structural)]
pub struct Address {
    pub w0: u64,
    pub w1: u64,
    pub w2: u64,
    pub w3: u64,
}

impl Address {
    /// The all-zero address, which marks a record that was never initialised.
    pub fn zero() -> (r: Address)
        ensures
            r.is_zero_spec(),
    {
        Address { w0: 0, w1: 0, w2: 0, w3: 0 }
    }

    pub open spec fn is_zero_spec(&self) -> bool {
        self.w0 == 0 && self.w1 == 0 && self.w2 == 0 && self.w3 == 0
    }

    /// Whether this is the all-zero address.
    pub fn is_zero(&self) -> (r: bool)
        ensures
            r == self.is_zero_spec(),
    {
        self.w0 == 0 && self.w1 == 0 && self.w2 == 0 && self.w3 == 0
    }

    /// The address whose bytes are `bytes`.
    pub fn from_bytes(bytes: &[u8; 32]) -> (r: Address)
        ensures
            r.w0 as int == le_word(bytes@, 0),
            r.w1 as int == le_word(bytes@, 8),
            r.w2 as int == le_word(bytes@, 16),
            r.w3 as int == le_word(bytes@, 24),
    {
        Address {
            w0: read_le_word(bytes, 0),
            w1: read_le_word(bytes, 8),
            w2: read_le_word(bytes, 16),
            w3: read_le_word(bytes, 24),
        }
    }

    /// The 32 bytes of the address.
    pub fn to_bytes(&self) -> (r: [u8; 32])
        ensures
            forall|j: int| 0 <= j < 8 ==> r@[j] == byte_of(self.w0, j),
            forall|j: int| 0 <= j < 8 ==> r@[8 + j] == byte_of(self.w1, j),
            forall|j: int| 0 <= j < 8 ==> r@[16 + j] == byte_of(self.w2, j),
            forall|j: int| 0 <= j < 8 ==> r@[24 + j] == byte_of(self.w3, j),
    {
        let mut out = [0u8; 32];
        put_le_word(&mut out, 0, self.w0);
        put_le_word(&mut out, 8, self.w1);
        put_le_word(&mut out, 16, self.w2);
        put_le_word(&mut out, 24, self.w3);
        out
    }
}

/// Byte `j` (from the least significant) of `v`.
pub open spec fn byte_of(v: u64, j: int) -> u8 {
    ((v >> (8 * j) as u64) & 0xff) as u8
}

/// Writes `v` little-endian into the eight bytes from `at`, leaving the others alone.
pub fn put_le_word(out: &mut [u8; 32], at: usize, v: u64)
    requires
        at + 8 <= 32,
    ensures
        forall|j: int| 0 <= j < 8 ==> final(out)@[at + j] == byte_of(v, j),
        forall|i: int|
            0 <= i < 32 && !(at <= i < at + 8) ==> final(out)@[i] == old(out)@[i],
{
    out[at] = (v & 0xff) as u8;
    out[at + 1] = ((v >> 8u64) & 0xff) as u8;
    out[at + 2] = ((v >> 16u64) & 0xff) as u8;
    out[at + 3] = ((v >> 24u64) & 0xff) as u8;
    out[at + 4] = ((v >> 32u64) & 0xff) as u8;
    out[at + 5] = ((v >> 40u64) & 0xff) as u8;
    out[at + 6] = ((v >> 48u64) & 0xff) as u8;
    out[at + 7] = ((v >> 56u64) & 0xff) as u8;
    assert forall|j: int| 0 <= j < 8 implies out@[at + j] == byte_of(v, j) by {
        assert(v >> 0u64 == v) by (bit_vector);
        if j == 0 {
        } else if j == 1 {
        } else if j == 2 {
        } else if j == 3 {
        } else if j == 4 {
        } else if j == 5 {
        } else if j == 6 {
        } else {
        }
    }
}

/// Little-endian value of the eight bytes from `at`.
pub open spec fn le_word(b: Seq<u8>, at: int) -> int
    recommends
        0 <= at && at + 8 <= b.len(),
{
    b[at] as int + 0x100 * b[at + 1] as int + 0x1_0000 * b[at + 2] as int + 0x100_0000 * b[at
        + 3] as int + 0x1_0000_0000 * b[at + 4] as int + 0x100_0000_0000 * b[at + 5] as int
        + 0x1_0000_0000_0000 * b[at + 6] as int + 0x100_0000_0000_0000 * b[at + 7] as int
}

/// Reads the eight bytes from `at` as a little-endian integer.
pub fn read_le_word(bytes: &[u8; 32], at: usize) -> (r: u64)
    requires
        at + 8 <= 32,
    ensures
        r as int == le_word(bytes@, at as int),
{
    bytes[at] as u64 + 0x100 * (bytes[at + 1] as u64) + 0x1_0000 * (bytes[at + 2] as u64)
        + 0x100_0000 * (bytes[at + 3] as u64) + 0x1_0000_0000 * (bytes[at + 4] as u64)
        + 0x100_0000_0000 * (bytes[at + 5] as u64) + 0x1_0000_0000_0000 * (bytes[at + 6] as u64)
        + 0x100_0000_0000_0000 * (bytes[at + 7] as u64)
}

} // verus!
