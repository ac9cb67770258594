//! CRC-16/CCITT-style checksum engine: polynomial 0x1021, initial state 0.
//!
//! The flight controller accepts an output frame only when this checksum
//! matches bit for bit, so the algorithm is pinned down here as a spec
//! function and the executable engine is proved to compute exactly that.

use vstd::prelude::*;

verus! {

/// The generator polynomial of the checksum.
pub const CRC_POLYNOME: u16 = 0x1021;

/// One round of the bit loop: shift the register left and, when the bit
/// shifted out was set, fold in the polynomial.
pub open spec fn crc_round(c: u16) -> u16 {
    if c & 0x8000 != 0 {
        (c << 1) ^ CRC_POLYNOME
    } else {
        c << 1
    }
}

/// `crc_round` applied `n` times.
pub open spec fn crc_rounds(c: u16, n: nat) -> u16
    decreases n,
{
    if n == 0 {
        c
    } else {
        crc_round(crc_rounds(c, (n - 1) as nat))
    }
}

/// Feeding one byte into the register: xor it into the high byte, then run
/// eight rounds of the bit loop.
pub open spec fn crc_update(state: u16, byte: u8) -> u16 {
    crc_rounds(state ^ ((byte as u16) << 8), 8)
}

/// The checksum of a byte sequence, fed in order from the reset state 0.
pub open spec fn crc_of(bytes: Seq<u8>) -> u16
    decreases bytes.len(),
{
    if bytes.len() == 0 {
        0
    } else {
        crc_update(crc_of(bytes.drop_last()), bytes.last())
    }
}

/// The checksum depends only on the bytes fed in: two runs from the reset
/// state over the same sequence end in the same register value.
pub proof fn lemma_crc_deterministic(a: Seq<u8>, b: Seq<u8>)
    requires
        a == b,
    ensures
        crc_of(a) == crc_of(b),
{
}

/// Feeding one more byte extends the checksum of the sequence fed so far.
pub proof fn lemma_crc_of_push(s: Seq<u8>, b: u8)
    ensures
        crc_of(s.push(b)) == crc_update(crc_of(s), b),
{
    assert(s.push(b).drop_last() =~= s);
    assert(s.push(b).last() == b);
}

/// The 16-bit checksum accumulator.
pub struct Crc16(u16);

impl Crc16 {
    /// The current register value.
    pub closed spec fn state(self) -> u16 {
        self.0
    }

    /// A fresh accumulator in the reset state.
    pub fn new() -> (r: Self)
        ensures
            r.state() == 0,
    {
        Crc16(0)
    }

    /// Return the register to the reset state.
    pub fn reset(&mut self)
        ensures
            final(self).state() == 0,
    {
        self.0 = 0;
    }

    /// Read the register out.
    pub fn value(&self) -> (r: u16)
        ensures
            r == self.state(),
    {
        self.0
    }

    /// Feed one byte through the register.
    pub fn update(&mut self, value: u8)
        ensures
            final(self).state() == crc_update(old(self).state(), value),
    {
        let mut crc: u16 = self.0 ^ ((value as u16) << 8);
        let mut i: usize = 0;
        while i < 8
            invariant
                i <= 8,
                crc == crc_rounds(old(self).state() ^ ((value as u16) << 8), i as nat),
            decreases 8 - i,
        {
            if (crc & 0x8000) != 0 {
                crc = (crc << 1) ^ CRC_POLYNOME;
            } else {
                crc = crc << 1;
            }
            i = i + 1;
        }
        self.0 = crc;
    }
}

impl Default for Crc16 {
    /// An accumulator in the reset state.
    fn default() -> (r: Self)
        ensures
            r.state() == 0,
    {
        Crc16(0)
    }
}

/// The checksum of a byte slice, computed from a reset accumulator.
pub fn checksum(bytes: &[u8]) -> (r: u16)
    ensures
        r == crc_of(bytes@),
{
    let mut crc = Crc16::new();
    let mut i: usize = 0;
    while i < bytes.len()
        invariant
            i <= bytes@.len(),
            crc.state() == crc_of(bytes@.take(i as int)),
        decreases bytes@.len() - i,
    {
        crc.update(bytes[i]);
        proof {
            assert(bytes@.take(i + 1).drop_last() =~= bytes@.take(i as int));
            assert(bytes@.take(i + 1).last() == bytes@[i as int]);
        }
        i = i + 1;
    }
    proof {
        assert(bytes@.take(bytes@.len() as int) =~= bytes@);
    }
    crc.value()
}

} // verus!
