//! The checksum engine: a CRC-8 over exactly one 2-byte data word.
//!
//! The protocol protects every transmitted 2-byte word with this checksum:
//! polynomial 0x31, initial value 0xFF, no input or output reflection. The
//! two bytes are folded in most-significant-bit first, eight polynomial
//! rounds per byte.

use vstd::prelude::*;

verus! {

/// One polynomial round: shift the accumulator left one bit and, if the bit
/// shifted out was set, fold in the polynomial 0x31.
pub open spec fn crc_step(c: u8) -> u8 {
    if c & 0x80 != 0 {
        (c << 1) ^ 0x31
    } else {
        c << 1
    }
}

/// `n` polynomial rounds applied to the accumulator `c`.
pub open spec fn crc_rounds(c: u8, n: nat) -> u8
    decreases n,
{
    if n == 0 {
        c
    } else {
        crc_step(crc_rounds(c, (n - 1) as nat))
    }
}

/// Folding one byte into the accumulator: XOR it in, then eight rounds.
pub open spec fn crc_byte(c: u8, b: u8) -> u8 {
    crc_rounds(c ^ b, 8)
}

/// The checksum of the 2-byte word `[b0, b1]`: start from 0xFF and fold in
/// both bytes in order.
pub open spec fn crc8(b0: u8, b1: u8) -> u8 {
    crc_byte(crc_byte(0xFF, b0), b1)
}

/// The known checksum vector: the word `[0xBE, 0xEF]` checksums to 0x92.
/// Together with [`calc_crc`]'s contract this pins the whole engine: the
/// checksum is a function of the 2 input bytes alone, and on this word that
/// function yields 0x92.
pub proof fn lemma_crc_known_vector()
    ensures
        crc8(0xBE, 0xEF) == 0x92,
{
    assert(crc8(0xBE, 0xEF) == 0x92) by (bit_vector);
}

/// Fold one byte into a running checksum accumulator.
fn push_byte(c: u8, b: u8) -> (r: u8)
    ensures
        r == crc_byte(c, b),
{
    let mut crc: u8 = c ^ b;
    let ghost start: u8 = crc;
    let mut round: usize = 0;
    while round < 8
        invariant
            round <= 8,
            crc == crc_rounds(start, round as nat),
        decreases 8 - round,
    {
        if crc & 0x80 != 0 {
            crc = (crc << 1) ^ 0x31;
        } else {
            crc = crc << 1;
        }
        round = round + 1;
    }
    crc
}

/// Compute the checksum of the data word whose bytes are `b0` then `b1`.
pub fn calc_crc_pair(b0: u8, b1: u8) -> (crc: u8)
    ensures
        crc == crc8(b0, b1),
{
    let crc: u8 = push_byte(0xFF, b0);
    push_byte(crc, b1)
}

/// Compute the checksum of one 2-byte data word.
pub fn calc_crc(data: &[u8; 2]) -> (crc: u8)
    ensures
        crc == crc8(data[0], data[1]),
{
    calc_crc_pair(data[0], data[1])
}

} // verus!
