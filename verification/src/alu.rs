//! The arithmetic of the processor as mathematics: what each operation
//! yields and which flags it leaves. The interpreter's contracts are stated
//! over these functions.

use vstd::prelude::*;
use crate::bits::lemma_flag_bits;

verus! {

/// The four condition flags. As a byte they are the high nibble of F; the
/// low nibble of F does not exist and reads as zero.
#[derive(Clone, Copy, Debug, PartialEq, Eq, Structural)]
pub struct Flags {
    /// Zero.
    pub z: bool,
    /// Subtract.
    pub n: bool,
    /// Half carry.
    pub h: bool,
    /// Carry.
    pub c: bool,
}

impl Flags {
    /// F as a byte: Z, N, H, C in bits 7 to 4.
    pub open spec fn byte(self) -> u8 {
        (if self.z { 0x80u8 } else { 0x00u8 }) | (if self.n { 0x40u8 } else { 0x00u8 }) | (
        if self.h { 0x20u8 } else { 0x00u8 }) | (if self.c { 0x10u8 } else { 0x00u8 })
    }

    /// The flags that a byte holds in bits 7 to 4.
    pub open spec fn of_byte(v: u8) -> Flags {
        Flags { z: v & 0x80 != 0, n: v & 0x40 != 0, h: v & 0x20 != 0, c: v & 0x10 != 0 }
    }

    /// Packs the flags into F. The low nibble is zero, and unpacking the
    /// byte gives the same flags back.
    pub fn to_byte(self) -> (r: u8)
        ensures
            r == self.byte(),
            r & 0x0F == 0,
            Flags::of_byte(r) == self,
    {
        let z: u8 = if self.z { 0x80 } else { 0x00 };
        let n: u8 = if self.n { 0x40 } else { 0x00 };
        let h: u8 = if self.h { 0x20 } else { 0x00 };
        let c: u8 = if self.c { 0x10 } else { 0x00 };
        proof {
            lemma_flag_bits(z, n, h, c);
        }
        z | n | h | c
    }

    /// Unpacks F; the low nibble of `v` is ignored.
    pub fn from_byte(v: u8) -> (r: Flags)
        ensures
            r == Flags::of_byte(v),
    {
        Flags { z: v & 0x80 != 0, n: v & 0x40 != 0, h: v & 0x20 != 0, c: v & 0x10 != 0 }
    }
}

/// A flag as a number: 1 when set.
pub open spec fn bit_of(flag: bool) -> int {
    if flag {
        1
    } else {
        0
    }
}

/// The high byte of a word.
pub open spec fn hi_byte(v: u16) -> u8 {
    (v / 256) as u8
}

/// The low byte of a word.
pub open spec fn lo_byte(v: u16) -> u8 {
    (v % 256) as u8
}

/// The word with high byte `hi` and low byte `lo`.
pub open spec fn word(hi: u8, lo: u8) -> u16 {
    (hi * 256 + lo) as u16
}

/// A byte read as a two's-complement number.
pub open spec fn signed(off: u8) -> int {
    if off < 128 {
        off as int
    } else {
        off - 256
    }
}

/// `base` moved by the signed offset `off`, wrapping at 16 bits.
pub open spec fn add_signed(base: u16, off: u8) -> u16 {
    ((base + signed(off)) % 0x1_0000) as u16
}

/// `a + v + carry`: the sum modulo 256; Z from the sum, N clear, H when the
/// low nibbles carry, C when the sum does not fit a byte.
pub open spec fn add8(a: u8, v: u8, carry: bool) -> (u8, Flags) {
    let sum = a + v + bit_of(carry);
    let res = (sum % 256) as u8;
    (
        res,
        Flags {
            z: res == 0,
            n: false,
            h: (a & 0x0F) + (v & 0x0F) + bit_of(carry) > 0x0F,
            c: sum > 0xFF,
        },
    )
}

/// `a - v - borrow`: the difference modulo 256; Z from the difference, N
/// set, H when the low nibbles borrow, C when the difference is negative.
pub open spec fn sub8(a: u8, v: u8, borrow: bool) -> (u8, Flags) {
    let diff = a - v - bit_of(borrow);
    let res = (diff % 256) as u8;
    (
        res,
        Flags {
            z: res == 0,
            n: true,
            h: (a & 0x0F) < (v & 0x0F) + bit_of(borrow),
            c: diff < 0,
        },
    )
}

/// Bitwise and: H set, N and C clear.
pub open spec fn and8(a: u8, v: u8) -> (u8, Flags) {
    (a & v, Flags { z: a & v == 0, n: false, h: true, c: false })
}

/// Bitwise exclusive or: N, H and C clear.
pub open spec fn xor8(a: u8, v: u8) -> (u8, Flags) {
    (a ^ v, Flags { z: a ^ v == 0, n: false, h: false, c: false })
}

/// Bitwise or: N, H and C clear.
pub open spec fn or8(a: u8, v: u8) -> (u8, Flags) {
    (a | v, Flags { z: a | v == 0, n: false, h: false, c: false })
}

/// `v + 1` modulo 256; C is kept.
pub open spec fn inc8(v: u8, f: Flags) -> (u8, Flags) {
    let res = ((v + 1) % 256) as u8;
    (res, Flags { z: res == 0, n: false, h: v & 0x0F == 0x0F, c: f.c })
}

/// `v - 1` modulo 256; C is kept.
pub open spec fn dec8(v: u8, f: Flags) -> (u8, Flags) {
    let res = ((v - 1) % 256) as u8;
    (res, Flags { z: res == 0, n: true, h: v & 0x0F == 0, c: f.c })
}

/// `hl + v` modulo 65536; Z is kept, N clear, H on a carry out of bit 11,
/// C on a carry out of bit 15.
pub open spec fn add16(hl: u16, v: u16, f: Flags) -> (u16, Flags) {
    (
        ((hl + v) % 0x1_0000) as u16,
        Flags { z: f.z, n: false, h: (hl & 0x0FFF) + (v & 0x0FFF) > 0x0FFF, c: hl + v > 0xFFFF },
    )
}

/// The flags of adding a signed offset to SP: Z and N clear, H and C from
/// the unsigned sums of the low nibbles and of the low bytes.
pub open spec fn offset_flags(sp: u16, off: u8) -> Flags {
    Flags {
        z: false,
        n: false,
        h: (sp & 0x0F) + (off & 0x0F) > 0x0F,
        c: (sp & 0xFF) + off > 0xFF,
    }
}

/// Decimal adjustment of `a` after an addition (N clear) or a subtraction
/// (N set) of packed decimal numbers. H is cleared; after an addition C is
/// set exactly when the high digit was corrected.
pub open spec fn daa(a: u8, f: Flags) -> (u8, Flags) {
    if !f.n {
        let low = f.h || (a & 0x0F) > 9;
        let high = f.c || a > 0x99;
        let res = ((a + (if low { 0x06int } else { 0 }) + (if high { 0x60int } else { 0 })) % 256) as u8;
        (res, Flags { z: res == 0, n: false, h: false, c: high })
    } else {
        let res = ((a - (if f.h { 0x06int } else { 0 }) - (if f.c { 0x60int } else { 0 })) % 256) as u8;
        (res, Flags { z: res == 0, n: true, h: false, c: f.c })
    }
}

/// The eight rotations and shifts, by their number in the prefixed table:
/// 0 RLC, 1 RRC, 2 RL, 3 RR, 4 SLA, 5 SRA, 6 SWAP, 7 SRL. Yields the new
/// byte and the carry that falls out (none for SWAP).
pub open spec fn shifted(kind: int, v: u8, carry: bool) -> (u8, bool) {
    if kind == 0 {
        ((v << 1) | (v >> 7), v & 0x80 != 0)
    } else if kind == 1 {
        ((v >> 1) | (v << 7), v & 0x01 != 0)
    } else if kind == 2 {
        ((v << 1) | (if carry { 0x01u8 } else { 0x00u8 }), v & 0x80 != 0)
    } else if kind == 3 {
        ((v >> 1) | (if carry { 0x80u8 } else { 0x00u8 }), v & 0x01 != 0)
    } else if kind == 4 {
        (v << 1, v & 0x80 != 0)
    } else if kind == 5 {
        ((v >> 1) | (v & 0x80), v & 0x01 != 0)
    } else if kind == 6 {
        ((v >> 4) | (v << 4), false)
    } else {
        (v >> 1, v & 0x01 != 0)
    }
}

/// The flags after a rotation or shift of the prefixed table: Z from the
/// result, N and H clear.
pub open spec fn shift_flags(res: u8, carry: bool) -> Flags {
    Flags { z: res == 0, n: false, h: false, c: carry }
}

/// The byte with only bit `b` set.
pub open spec fn bit_mask(b: u8) -> u8 {
    1u8 << b
}

} // verus!
