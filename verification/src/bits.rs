//! Facts about bit operations on bytes and words, each proved once by the
//! bit-vector solver and used wherever masks and shifts meet arithmetic.

use vstd::prelude::*;

verus! {

/// A pixel's colour number, built from one bit of each of two bytes, is at
/// most 3.
pub proof fn lemma_two_bit_color(byte0: u8, byte1: u8, bit: u8)
    by (bit_vector)
    requires
        bit < 8,
    ensures
        ((((byte1 >> bit) & 1) << 1) | ((byte0 >> bit) & 1)) <= 3,
{
}

/// Four flags in their own bits of a byte: the low nibble stays clear and
/// each flag can be read back from its bit.
pub proof fn lemma_flag_bits(z: u8, n: u8, h: u8, c: u8)
    by (bit_vector)
    requires
        z == 0 || z == 0x80,
        n == 0 || n == 0x40,
        h == 0 || h == 0x20,
        c == 0 || c == 0x10,
    ensures
        (z | n | h | c) & 0x0F == 0,
        ((z | n | h | c) & 0x80 != 0) <==> (z == 0x80),
        ((z | n | h | c) & 0x40 != 0) <==> (n == 0x40),
        ((z | n | h | c) & 0x20 != 0) <==> (h == 0x20),
        ((z | n | h | c) & 0x10 != 0) <==> (c == 0x10),
{
}

/// A mask that keeps the low bits of a byte is a remainder, and a shift
/// right a division: the fields of an opcode, written either way.
pub proof fn lemma_byte_fields(b: u8)
    by (bit_vector)
    ensures
        b & 0x0F == b % 16,
        b & 0x07 == b % 8,
        (b >> 3) & 0x07 == (b / 8) % 8,
        b >> 6 == b / 64,
{
}

/// The same for a word: its low nibble, low byte and low twelve bits, and
/// its two bytes as quotient and remainder by 256.
pub proof fn lemma_word_fields(w: u16)
    by (bit_vector)
    ensures
        w & 0x0F == w % 16,
        w & 0xFF == w % 256,
        w & 0x0FFF == w % 4096,
        w >> 8 == w / 256,
{
}

/// Truncating a word to a byte keeps its remainder by 256.
pub proof fn lemma_word_truncate(w: u16)
    by (bit_vector)
    ensures
        w as u8 == (w % 256) as u8,
        (w & 0xFF) as u8 == (w % 256) as u8,
{
}

/// Two bytes joined by shift and or are the word `hi * 256 + lo`.
pub proof fn lemma_join(hi: u8, lo: u8)
    by (bit_vector)
    ensures
        ((hi as u16) << 8) | (lo as u16) == (hi as u16) * 256 + (lo as u16),
        0xFF00u16 | (lo as u16) == 0xFF00u16 + (lo as u16),
{
}

/// The four flag bits of a byte, put back together, are its high nibble.
pub proof fn lemma_high_nibble(b: u8)
    by (bit_vector)
    ensures
        (if b & 0x80 != 0 { 0x80u8 } else { 0x00u8 }) | (if b & 0x40 != 0 { 0x40u8 } else { 0x00u8 })
            | (if b & 0x20 != 0 { 0x20u8 } else { 0x00u8 }) | (if b & 0x10 != 0 {
            0x10u8
        } else {
            0x00u8
        }) == b & 0xF0,
        b & 0xF0 == (b / 16) * 16,
{
}

/// A word without its low nibble, in arithmetic.
pub proof fn lemma_clear_low_nibble(w: u16)
    by (bit_vector)
    ensures
        w & 0xFFF0 == (w / 16) * 16,
        w & 0x000F == w % 16,
{
}

/// A request bit that is set reads as set, also after requests for other
/// interrupts; and a request for another interrupt leaves bit 1 as it was.
pub proof fn lemma_request_bits(flags: u8)
    by (bit_vector)
    ensures
        (flags | 0x01) & 0x01 != 0,
        (flags | 0x02) & 0x02 != 0,
        (flags | 0x04) & 0x04 != 0,
        ((flags | 0x02) | 0x04) & 0x02 != 0,
        ((flags | 0x01) | 0x02) & 0x02 != 0,
        (((flags | 0x01) | 0x02) | 0x04) & 0x02 != 0,
        (flags | 0x04) & 0x02 == flags & 0x02,
        (flags | 0x01) & 0x02 == flags & 0x02,
{
}

/// Bit `k` of a byte is read alike by shifting the byte down and by
/// masking it.
pub proof fn lemma_bit_test(p: u8, k: u8)
    by (bit_vector)
    requires
        k < 8,
    ensures
        ((p >> k) & 1 == 1) <==> (p & (1u8 << k) != 0),
{
}

} // verus!
