use vstd::prelude::*;
use vstd::std_specs::bits::axiom_u8_trailing_zeros;
use crate::alu;
use crate::alu::{
    Flags, add16, add8, add_signed, and8, hi_byte, lo_byte, offset_flags, or8, shifted, sub8, word,
    xor8,
};
use crate::bits::{lemma_byte_fields, lemma_join, lemma_word_fields, lemma_word_truncate};
use crate::bus::Bus;
use crate::error::EmuError;
use crate::machine::Machine;

verus! {

/// The processor's registers.
#[derive(Clone, Copy, Debug, PartialEq, Eq, Structural)]
pub struct Cpu {
    pub a: u8,
    pub f: Flags,
    pub b: u8,
    pub c: u8,
    pub d: u8,
    pub e: u8,
    pub h: u8,
    pub l: u8,
    pub sp: u16,
    pub pc: u16,
    /// Interrupt master enable.
    pub ime: bool,
    /// Set by HALT, cleared by a pending interrupt.
    pub halted: bool,
}

impl Cpu {
    /// The registers as the boot sequence leaves them.
    pub open spec fn initial() -> Cpu {
        Cpu {
            a: 0x01,
            f: Flags { z: true, n: false, h: true, c: true },
            b: 0x00,
            c: 0x13,
            d: 0x00,
            e: 0xD8,
            h: 0x01,
            l: 0x4D,
            sp: 0xFFFE,
            pc: 0x0100,
            ime: false,
            halted: false,
        }
    }

    /// An 8-bit register by its number in an opcode: 0 B, 1 C, 2 D, 3 E,
    /// 4 H, 5 L, 7 A. (Number 6 names the byte at HL, which is no register.)
    pub open spec fn reg(self, idx: int) -> u8 {
        if idx == 0 {
            self.b
        } else if idx == 1 {
            self.c
        } else if idx == 2 {
            self.d
        } else if idx == 3 {
            self.e
        } else if idx == 4 {
            self.h
        } else if idx == 5 {
            self.l
        } else {
            self.a
        }
    }

    /// The registers with register `idx` set to `v`.
    pub open spec fn with_reg(self, idx: int, v: u8) -> Cpu {
        if idx == 0 {
            Cpu { b: v, ..self }
        } else if idx == 1 {
            Cpu { c: v, ..self }
        } else if idx == 2 {
            Cpu { d: v, ..self }
        } else if idx == 3 {
            Cpu { e: v, ..self }
        } else if idx == 4 {
            Cpu { h: v, ..self }
        } else if idx == 5 {
            Cpu { l: v, ..self }
        } else {
            Cpu { a: v, ..self }
        }
    }

    /// A 16-bit register by its number in an opcode: 0 BC, 1 DE, 2 HL,
    /// 3 SP. A pair is its first register times 256 plus its second.
    pub open spec fn pair(self, p: int) -> u16 {
        if p == 0 {
            word(self.b, self.c)
        } else if p == 1 {
            word(self.d, self.e)
        } else if p == 2 {
            word(self.h, self.l)
        } else {
            self.sp
        }
    }

    /// The registers with 16-bit register `p` set to `v`.
    pub open spec fn with_pair(self, p: int, v: u16) -> Cpu {
        if p == 0 {
            Cpu { b: hi_byte(v), c: lo_byte(v), ..self }
        } else if p == 1 {
            Cpu { d: hi_byte(v), e: lo_byte(v), ..self }
        } else if p == 2 {
            Cpu { h: hi_byte(v), l: lo_byte(v), ..self }
        } else {
            Cpu { sp: v, ..self }
        }
    }

    /// A 16-bit register as PUSH and POP number them: 0 BC, 1 DE, 2 HL,
    /// 3 AF.
    pub open spec fn stack_pair(self, p: int) -> u16 {
        if p == 3 {
            word(self.a, self.f.byte())
        } else {
            self.pair(p)
        }
    }

    /// The registers with the pair that POP numbers `p` set to `v`. F takes
    /// only the high nibble of the low byte.
    pub open spec fn with_stack_pair(self, p: int, v: u16) -> Cpu {
        if p == 3 {
            Cpu { a: hi_byte(v), f: Flags::of_byte(lo_byte(v)), ..self }
        } else {
            self.with_pair(p, v)
        }
    }

    /// A branch condition by its number in an opcode: 0 NZ, 1 Z, 2 NC, 3 C.
    pub open spec fn cond(self, i: int) -> bool {
        if i == 0 {
            !self.f.z
        } else if i == 1 {
            self.f.z
        } else if i == 2 {
            !self.f.c
        } else {
            self.f.c
        }
    }

    /// The registers with A and F replaced.
    pub open spec fn with_af(self, r: (u8, Flags)) -> Cpu {
        Cpu { a: r.0, f: r.1, ..self }
    }

    /// The registers after the arithmetic operation that an opcode numbers
    /// `y`, on A and `v`: 0 ADD, 1 ADC, 2 SUB, 3 SBC, 4 AND, 5 XOR, 6 OR,
    /// 7 CP. CP sets the flags of SUB and keeps A.
    pub open spec fn alu(self, y: int, v: u8) -> Cpu {
        if y == 0 {
            self.with_af(add8(self.a, v, false))
        } else if y == 1 {
            self.with_af(add8(self.a, v, self.f.c))
        } else if y == 2 {
            self.with_af(sub8(self.a, v, false))
        } else if y == 3 {
            self.with_af(sub8(self.a, v, self.f.c))
        } else if y == 4 {
            self.with_af(and8(self.a, v))
        } else if y == 5 {
            self.with_af(xor8(self.a, v))
        } else if y == 6 {
            self.with_af(or8(self.a, v))
        } else {
            Cpu { f: sub8(self.a, v, false).1, ..self }
        }
    }

    /// The processor as the boot sequence leaves it, about to run the
    /// cartridge's entry point at 0x0100.
    pub fn new() -> (r: Cpu)
        ensures
            r == Cpu::initial(),
    {
        Cpu {
            a: 0x01,
            f: Flags { z: true, n: false, h: true, c: true },
            b: 0x00,
            c: 0x13,
            d: 0x00,
            e: 0xD8,
            h: 0x01,
            l: 0x4D,
            sp: 0xFFFE,
            pc: 0x0100,
            ime: false,
            halted: false,
        }
    }

    /// BC as a word.
    pub fn bc(&self) -> (r: u16)
        ensures
            r == self.pair(0),
    {
        proof {
            lemma_join(self.b, self.c);
        }
        ((self.b as u16) << 8) | self.c as u16
    }

    /// Sets B and C from a word.
    pub fn set_bc(&mut self, v: u16)
        ensures
            *final(self) == old(self).with_pair(0, v),
    {
        proof {
            lemma_word_fields(v);
            lemma_word_truncate(v);
        }
        self.b = (v >> 8) as u8;
        self.c = v as u8;
    }

    /// DE as a word.
    pub fn de(&self) -> (r: u16)
        ensures
            r == self.pair(1),
    {
        proof {
            lemma_join(self.d, self.e);
        }
        ((self.d as u16) << 8) | self.e as u16
    }

    /// Sets D and E from a word.
    pub fn set_de(&mut self, v: u16)
        ensures
            *final(self) == old(self).with_pair(1, v),
    {
        proof {
            lemma_word_fields(v);
            lemma_word_truncate(v);
        }
        self.d = (v >> 8) as u8;
        self.e = v as u8;
    }

    /// HL as a word.
    pub fn hl(&self) -> (r: u16)
        ensures
            r == self.pair(2),
    {
        proof {
            lemma_join(self.h, self.l);
        }
        ((self.h as u16) << 8) | self.l as u16
    }

    /// Sets H and L from a word.
    pub fn set_hl(&mut self, v: u16)
        ensures
            *final(self) == old(self).with_pair(2, v),
    {
        proof {
            lemma_word_fields(v);
            lemma_word_truncate(v);
        }
        self.h = (v >> 8) as u8;
        self.l = v as u8;
    }

    /// The 16-bit register that an opcode numbers `p`.
    pub fn get_pair(&self, p: u8) -> (r: u16)
        ensures
            r == self.pair(p as int),
    {
        match p {
            0 => self.bc(),
            1 => self.de(),
            2 => self.hl(),
            _ => self.sp,
        }
    }

    /// Sets the 16-bit register that an opcode numbers `p`.
    pub fn set_pair(&mut self, p: u8, v: u16)
        ensures
            *final(self) == old(self).with_pair(p as int, v),
    {
        match p {
            0 => self.set_bc(v),
            1 => self.set_de(v),
            2 => self.set_hl(v),
            _ => {
                self.sp = v;
            },
        }
    }

    /// The 8-bit register that an opcode numbers `idx`. Number 6 is no
    /// register.
    pub fn get_reg(&self, idx: usize) -> (r: u8)
        requires
            idx != 6,
        ensures
            r == self.reg(idx as int),
    {
        match idx {
            0 => self.b,
            1 => self.c,
            2 => self.d,
            3 => self.e,
            4 => self.h,
            5 => self.l,
            _ => self.a,
        }
    }

    /// Sets the 8-bit register that an opcode numbers `idx`. Number 6 is no
    /// register.
    pub fn set_reg(&mut self, idx: usize, v: u8)
        requires
            idx != 6,
        ensures
            *final(self) == old(self).with_reg(idx as int, v),
    {
        match idx {
            0 => {
                self.b = v;
            },
            1 => {
                self.c = v;
            },
            2 => {
                self.d = v;
            },
            3 => {
                self.e = v;
            },
            4 => {
                self.h = v;
            },
            5 => {
                self.l = v;
            },
            _ => {
                self.a = v;
            },
        }
    }

    /// Whether the branch condition that an opcode numbers `i` holds.
    pub fn test_cond(&self, i: u8) -> (r: bool)
        ensures
            r == self.cond(i as int),
    {
        match i {
            0 => !self.f.z,
            1 => self.f.z,
            2 => !self.f.c,
            _ => self.f.c,
        }
    }

    /// The flags after `v + 1`; returns the sum.
    pub fn inc8(&mut self, v: u8) -> (r: u8)
        ensures
            r == alu::inc8(v, old(self).f).0,
            *final(self) == (Cpu { f: alu::inc8(v, old(self).f).1, ..*old(self) }),
    {
        let res: u8 = v.wrapping_add(1);
        self.f.z = res == 0;
        self.f.n = false;
        self.f.h = (v & 0x0F) == 0x0F;
        res
    }

    /// The flags after `v - 1`; returns the difference.
    pub fn dec8(&mut self, v: u8) -> (r: u8)
        ensures
            r == alu::dec8(v, old(self).f).0,
            *final(self) == (Cpu { f: alu::dec8(v, old(self).f).1, ..*old(self) }),
    {
        let res: u8 = v.wrapping_sub(1);
        self.f.z = res == 0;
        self.f.n = true;
        self.f.h = (v & 0x0F) == 0;
        res
    }

    /// A and F after `a + v + carry`.
    fn add_carry(&mut self, v: u8, carry: bool)
        ensures
            *final(self) == old(self).with_af(add8(old(self).a, v, carry)),
    {
        proof {
            lemma_byte_fields(self.a);
            lemma_byte_fields(v);
        }
        let c: u8 = if carry { 1 } else { 0 };
        let sum: u16 = self.a as u16 + v as u16 + c as u16;
        let res: u8 = (sum % 256) as u8;
        self.f.z = res == 0;
        self.f.n = false;
        self.f.h = (self.a & 0x0F) + (v & 0x0F) + c > 0x0F;
        self.f.c = sum > 0xFF;
        self.a = res;
    }

    /// The flags, and the difference, of `a - v - borrow`.
    fn sub_borrow(&mut self, v: u8, borrow: bool) -> (r: u8)
        ensures
            r == sub8(old(self).a, v, borrow).0,
            *final(self) == (Cpu { f: sub8(old(self).a, v, borrow).1, ..*old(self) }),
    {
        proof {
            lemma_byte_fields(self.a);
            lemma_byte_fields(v);
        }
        let c: u8 = if borrow { 1 } else { 0 };
        let res: u8 = self.a.wrapping_sub(v).wrapping_sub(c);
        self.f.z = res == 0;
        self.f.n = true;
        self.f.h = (self.a & 0x0F) < (v & 0x0F) + c;
        self.f.c = (self.a as u16) < v as u16 + c as u16;
        res
    }

    /// ADD A,v.
    pub fn add_a(&mut self, v: u8)
        ensures
            *final(self) == old(self).alu(0, v),
    {
        self.add_carry(v, false);
    }

    /// ADC A,v.
    pub fn adc_a(&mut self, v: u8)
        ensures
            *final(self) == old(self).alu(1, v),
    {
        let carry: bool = self.f.c;
        self.add_carry(v, carry);
    }

    /// SUB v.
    pub fn sub_a(&mut self, v: u8)
        ensures
            *final(self) == old(self).alu(2, v),
    {
        self.a = self.sub_borrow(v, false);
    }

    /// SBC A,v.
    pub fn sbc_a(&mut self, v: u8)
        ensures
            *final(self) == old(self).alu(3, v),
    {
        let borrow: bool = self.f.c;
        self.a = self.sub_borrow(v, borrow);
    }

    /// AND v.
    pub fn and_a(&mut self, v: u8)
        ensures
            *final(self) == old(self).alu(4, v),
    {
        self.a &= v;
        self.f = Flags { z: self.a == 0, n: false, h: true, c: false };
    }

    /// XOR v.
    pub fn xor_a(&mut self, v: u8)
        ensures
            *final(self) == old(self).alu(5, v),
    {
        self.a ^= v;
        self.f = Flags { z: self.a == 0, n: false, h: false, c: false };
    }

    /// OR v.
    pub fn or_a(&mut self, v: u8)
        ensures
            *final(self) == old(self).alu(6, v),
    {
        self.a |= v;
        self.f = Flags { z: self.a == 0, n: false, h: false, c: false };
    }

    /// CP v: the flags of SUB v, with A kept.
    pub fn cp_a(&mut self, v: u8)
        ensures
            *final(self) == old(self).alu(7, v),
    {
        self.sub_borrow(v, false);
    }

    /// The arithmetic operation that an opcode numbers `y`, on A and `v`.
    pub fn alu_op(&mut self, y: u8, v: u8)
        ensures
            *final(self) == old(self).alu(y as int, v),
    {
        match y {
            0 => self.add_a(v),
            1 => self.adc_a(v),
            2 => self.sub_a(v),
            3 => self.sbc_a(v),
            4 => self.and_a(v),
            5 => self.xor_a(v),
            6 => self.or_a(v),
            _ => self.cp_a(v),
        }
    }

    /// `base` moved by the signed offset `off`.
    pub fn offset_addr(base: u16, off: u8) -> (r: u16)
        ensures
            r == add_signed(base, off),
    {
        if off < 128 {
            base.wrapping_add(off as u16)
        } else {
            base.wrapping_sub(256 - off as u16)
        }
    }

    /// The flags of SP plus the signed offset `off`.
    fn sp_offset_flags(&self, off: u8) -> (r: Flags)
        ensures
            r == offset_flags(self.sp, off),
    {
        proof {
            lemma_word_fields(self.sp);
            lemma_byte_fields(off);
        }
        Flags {
            z: false,
            n: false,
            h: (self.sp & 0x0F) + ((off & 0x0F) as u16) > 0x0F,
            c: (self.sp & 0xFF) + (off as u16) > 0xFF,
        }
    }

    /// ADD HL,v.
    fn add_hl(&mut self, v: u16)
        ensures
            *final(self) == (Cpu {
                f: add16(old(self).pair(2), v, old(self).f).1,
                ..old(self).with_pair(2, add16(old(self).pair(2), v, old(self).f).0)
            }),
    {
        let hl: u16 = self.hl();
        proof {
            lemma_word_fields(hl);
            lemma_word_fields(v);
        }
        let res: u16 = hl.wrapping_add(v);
        self.f.n = false;
        self.f.h = (hl & 0x0FFF) + (v & 0x0FFF) > 0x0FFF;
        self.f.c = hl > 0xFFFF - v;
        self.set_hl(res);
    }

    /// DAA.
    fn decimal_adjust(&mut self)
        ensures
            *final(self) == old(self).with_af(alu::daa(old(self).a, old(self).f)),
    {
        let a: u8 = self.a;
        let mut res: u8 = a;
        if !self.f.n {
            if self.f.h || (a & 0x0F) > 9 {
                res = res.wrapping_add(0x06);
            }
            if self.f.c || a > 0x99 {
                res = res.wrapping_add(0x60);
                self.f.c = true;
            }
        } else {
            if self.f.h {
                res = res.wrapping_sub(0x06);
            }
            if self.f.c {
                res = res.wrapping_sub(0x60);
            }
        }
        self.a = res;
        self.f.z = res == 0;
        self.f.h = false;
    }

    /// The rotation or shift that the prefixed table numbers `kind`.
    pub fn shift(kind: u8, v: u8, carry: bool) -> (r: (u8, bool))
        ensures
            r == shifted(kind as int, v, carry),
    {
        match kind {
            0 => ((v << 1) | (v >> 7), v & 0x80 != 0),
            1 => ((v >> 1) | (v << 7), v & 0x01 != 0),
            2 => ((v << 1) | (if carry { 0x01 } else { 0x00 }), v & 0x80 != 0),
            3 => ((v >> 1) | (if carry { 0x80 } else { 0x00 }), v & 0x01 != 0),
            4 => (v << 1, v & 0x80 != 0),
            5 => ((v >> 1) | (v & 0x80), v & 0x01 != 0),
            6 => ((v >> 4) | (v << 4), false),
            _ => (v >> 1, v & 0x01 != 0),
        }
    }

    /// Reads the byte at PC and moves PC past it.
    pub fn fetch8(&mut self, bus: &Bus) -> (r: u8)
        ensures
            (Machine::at(*final(self), bus@), r) == Machine::at(*old(self), bus@).fetch8(),
    {
        let v: u8 = bus.read8(self.pc);
        self.pc = self.pc.wrapping_add(1);
        v
    }

    /// Reads the word at PC, low byte first, and moves PC past it.
    pub fn fetch16(&mut self, bus: &Bus) -> (r: u16)
        ensures
            (Machine::at(*final(self), bus@), r) == Machine::at(*old(self), bus@).fetch16(),
    {
        let lo: u8 = self.fetch8(bus);
        let hi: u8 = self.fetch8(bus);
        proof {
            lemma_join(hi, lo);
        }
        ((hi as u16) << 8) | lo as u16
    }

    /// Pushes a word: SP drops by two, the high byte lies above the low.
    pub fn push16(&mut self, bus: &mut Bus, v: u16)
        ensures
            Machine::at(*final(self), final(bus)@) == Machine::at(*old(self), old(bus)@).push16(v),
            old(bus).wf() ==> final(bus).wf(),
    {
        proof {
            lemma_word_fields(v);
            lemma_word_truncate(v);
        }
        self.sp = self.sp.wrapping_sub(1);
        bus.write8(self.sp, (v >> 8) as u8);
        self.sp = self.sp.wrapping_sub(1);
        bus.write8(self.sp, (v & 0xFF) as u8);
    }

    /// Pops a word: the low byte from SP, the high byte from above it.
    pub fn pop16(&mut self, bus: &Bus) -> (r: u16)
        ensures
            (Machine::at(*final(self), bus@), r) == Machine::at(*old(self), bus@).pop16(),
    {
        let lo: u8 = bus.read8(self.sp);
        self.sp = self.sp.wrapping_add(1);
        let hi: u8 = bus.read8(self.sp);
        self.sp = self.sp.wrapping_add(1);
        proof {
            lemma_join(hi, lo);
        }
        ((hi as u16) << 8) | lo as u16
    }

    /// The operand that an opcode numbers `idx`: a register, or the byte
    /// at HL.
    pub fn load_operand(&self, bus: &Bus, idx: u8) -> (r: u8)
        ensures
            r == Machine::at(*self, bus@).operand(idx as int),
    {
        if idx == 6 {
            bus.read8(self.hl())
        } else {
            self.get_reg(idx as usize)
        }
    }

    /// Stores `v` in the operand that an opcode numbers `idx`.
    pub fn store_operand(&mut self, bus: &mut Bus, idx: u8, v: u8)
        ensures
            Machine::at(*final(self), final(bus)@) == Machine::at(
                *old(self),
                old(bus)@,
            ).with_operand(idx as int, v),
            old(bus).wf() ==> final(bus).wf(),
    {
        if idx == 6 {
            bus.write8(self.hl(), v);
        } else {
            self.set_reg(idx as usize, v);
        }
    }

    /// Column 0 of block 0: NOP, LD (a16),SP, STOP, JR and JR cc.
    fn block0_control(&mut self, bus: &mut Bus, y: u8) -> (r: u8)
        requires
            y < 8,
        ensures
            (Machine::at(*final(self), final(bus)@), r) == Machine::at(*old(self), old(bus)@).block0_control(y as int),
            old(bus).wf() ==> final(bus).wf(),
    {
        if y == 0 || y == 2 {
            4
        } else if y == 1 {
            let addr: u16 = self.fetch16(bus);
            proof {
                lemma_word_fields(self.sp);
                lemma_word_truncate(self.sp);
            }
            bus.write8(addr, (self.sp & 0xFF) as u8);
            bus.write8(addr.wrapping_add(1), (self.sp >> 8) as u8);
            20
        } else {
            let off: u8 = self.fetch8(bus);
            if y == 3 || self.test_cond(y - 4) {
                self.pc = Self::offset_addr(self.pc, off);
                12
            } else {
                8
            }
        }
    }

    /// Column 1 of block 0: LD rr,d16 and ADD HL,rr.
    fn block0_pair(&mut self, bus: &mut Bus, y: u8) -> (r: u8)
        requires
            y < 8,
        ensures
            (Machine::at(*final(self), final(bus)@), r) == Machine::at(*old(self), old(bus)@).block0_pair(y as int),
            old(bus).wf() ==> final(bus).wf(),
    {
        if y % 2 == 0 {
            let v: u16 = self.fetch16(bus);
            self.set_pair(y / 2, v);
            12
        } else {
            let v: u16 = self.get_pair(y / 2);
            self.add_hl(v);
            8
        }
    }

    /// Column 2 of block 0: A to or from the byte at BC, DE, HL+ or HL-.
    fn block0_indirect(&mut self, bus: &mut Bus, y: u8) -> (r: u8)
        requires
            y < 8,
        ensures
            (Machine::at(*final(self), final(bus)@), r) == Machine::at(*old(self), old(bus)@).block0_indirect(y as int),
            old(bus).wf() ==> final(bus).wf(),
    {
        let p: u8 = y / 2;
        let addr: u16 = self.get_pair(if p == 3 { 2 } else { p });
        if y % 2 == 0 {
            bus.write8(addr, self.a);
        } else {
            self.a = bus.read8(addr);
        }
        if p == 2 {
            self.set_hl(addr.wrapping_add(1));
        } else if p == 3 {
            self.set_hl(addr.wrapping_sub(1));
        }
        8
    }

    /// Column 3 of block 0: INC rr and DEC rr.
    fn block0_step_pair(&mut self, bus: &mut Bus, y: u8) -> (r: u8)
        requires
            y < 8,
        ensures
            (Machine::at(*final(self), final(bus)@), r) == Machine::at(*old(self), old(bus)@).block0_step_pair(y as int),
            old(bus).wf() ==> final(bus).wf(),
    {
        let v: u16 = self.get_pair(y / 2);
        let stepped: u16 = if y % 2 == 0 {
            v.wrapping_add(1)
        } else {
            v.wrapping_sub(1)
        };
        self.set_pair(y / 2, stepped);
        8
    }

    /// Columns 4 and 5 of block 0: INC and DEC of an operand.
    fn block0_step(&mut self, bus: &mut Bus, y: u8, down: bool) -> (r: u8)
        requires
            y < 8,
        ensures
            (Machine::at(*final(self), final(bus)@), r) == Machine::at(*old(self), old(bus)@).block0_step(y as int, down),
            old(bus).wf() ==> final(bus).wf(),
    {
        let v: u8 = self.load_operand(bus, y);
        let res: u8 = if down {
            self.dec8(v)
        } else {
            self.inc8(v)
        };
        self.store_operand(bus, y, res);
        if y == 6 {
            12
        } else {
            4
        }
    }

    /// Column 6 of block 0: LD of the next byte into an operand.
    fn block0_immediate(&mut self, bus: &mut Bus, y: u8) -> (r: u8)
        requires
            y < 8,
        ensures
            (Machine::at(*final(self), final(bus)@), r) == Machine::at(*old(self), old(bus)@).block0_immediate(y as int),
            old(bus).wf() ==> final(bus).wf(),
    {
        let v: u8 = self.fetch8(bus);
        self.store_operand(bus, y, v);
        if y == 6 {
            12
        } else {
            8
        }
    }

    /// Column 7 of block 0: the rotations of A, DAA, CPL, SCF, CCF.
    fn block0_accumulator(&mut self, bus: &mut Bus, y: u8) -> (r: u8)
        requires
            y < 8,
        ensures
            (Machine::at(*final(self), final(bus)@), r) == Machine::at(*old(self), old(bus)@).block0_accumulator(y as int),
            old(bus).wf() ==> final(bus).wf(),
    {
        if y < 4 {
            let (res, carry) = Self::shift(y, self.a, self.f.c);
            self.a = res;
            self.f = Flags { z: false, n: false, h: false, c: carry };
        } else if y == 4 {
            self.decimal_adjust();
        } else if y == 5 {
            self.a = !self.a;
            self.f.n = true;
            self.f.h = true;
        } else if y == 6 {
            self.f.c = true;
            self.f.n = false;
            self.f.h = false;
        } else {
            self.f.c = !self.f.c;
            self.f.n = false;
            self.f.h = false;
        }
        4
    }

    /// Block 0, opcodes 0x00 to 0x3F.
    fn block0(&mut self, bus: &mut Bus, op: u8) -> (r: u8)
        requires
            op < 0x40,
        ensures
            (Machine::at(*final(self), final(bus)@), r) == Machine::at(*old(self), old(bus)@).block0(op),
            old(bus).wf() ==> final(bus).wf(),
    {
        proof {
            lemma_byte_fields(op);
        }
        let y: u8 = (op >> 3) & 0x07;
        match op & 0x07 {
            0 => self.block0_control(bus, y),
            1 => self.block0_pair(bus, y),
            2 => self.block0_indirect(bus, y),
            3 => self.block0_step_pair(bus, y),
            4 => self.block0_step(bus, y, false),
            5 => self.block0_step(bus, y, true),
            6 => self.block0_immediate(bus, y),
            _ => self.block0_accumulator(bus, y),
        }
    }

    /// Block 1, opcodes 0x40 to 0x7F: the loads between operands, and HALT.
    fn block1(&mut self, bus: &mut Bus, op: u8) -> (r: u8)
        ensures
            (Machine::at(*final(self), final(bus)@), r) == Machine::at(*old(self), old(bus)@).block1(op),
            old(bus).wf() ==> final(bus).wf(),
    {
        proof {
            lemma_byte_fields(op);
        }
        if op == 0x76 {
            self.halted = true;
            return 4;
        }
        let dst: u8 = (op >> 3) & 0x07;
        let src: u8 = op & 0x07;
        let val: u8 = self.load_operand(bus, src);
        self.store_operand(bus, dst, val);
        if src == 6 || dst == 6 {
            8
        } else {
            4
        }
    }

    /// Block 2, opcodes 0x80 to 0xBF: arithmetic on A and an operand.
    fn block2(&mut self, bus: &mut Bus, op: u8) -> (r: u8)
        ensures
            (Machine::at(*final(self), final(bus)@), r) == Machine::at(*old(self), old(bus)@).block2(op),
            old(bus).wf() ==> final(bus).wf(),
    {
        proof {
            lemma_byte_fields(op);
        }
        let src: u8 = op & 0x07;
        let v: u8 = self.load_operand(bus, src);
        self.alu_op((op >> 3) & 0x07, v);
        if src == 6 {
            8
        } else {
            4
        }
    }

    /// Column 0 of block 3: RET cc, LDH, ADD SP,r8, LD HL,SP+r8.
    fn block3_control(&mut self, bus: &mut Bus, y: u8) -> (r: u8)
        requires
            y < 8,
        ensures
            (Machine::at(*final(self), final(bus)@), r) == Machine::at(*old(self), old(bus)@).block3_control(y as int),
            old(bus).wf() ==> final(bus).wf(),
    {
        if y < 4 {
            if self.test_cond(y) {
                self.pc = self.pop16(bus);
                20
            } else {
                8
            }
        } else {
            let n: u8 = self.fetch8(bus);
            proof {
                lemma_join(0xFF, n);
            }
            if y == 4 {
                bus.write8(0xFF00 | n as u16, self.a);
                12
            } else if y == 5 {
                let flags: Flags = self.sp_offset_flags(n);
                self.sp = Self::offset_addr(self.sp, n);
                self.f = flags;
                16
            } else if y == 6 {
                self.a = bus.read8(0xFF00 | n as u16);
                12
            } else {
                self.f = self.sp_offset_flags(n);
                self.set_hl(Self::offset_addr(self.sp, n));
                12
            }
        }
    }

    /// Column 1 of block 3: POP, RET, RETI, JP (HL), LD SP,HL.
    fn block3_pop(&mut self, bus: &mut Bus, y: u8) -> (r: u8)
        requires
            y < 8,
        ensures
            (Machine::at(*final(self), final(bus)@), r) == Machine::at(*old(self), old(bus)@).block3_pop(y as int),
            old(bus).wf() ==> final(bus).wf(),
    {
        let p: u8 = y / 2;
        if y % 2 == 0 {
            let v: u16 = self.pop16(bus);
            if p == 3 {
                proof {
                    lemma_word_fields(v);
                    lemma_word_truncate(v);
                }
                self.a = (v >> 8) as u8;
                self.f = Flags::from_byte(v as u8);
            } else {
                self.set_pair(p, v);
            }
            12
        } else if p == 0 {
            self.pc = self.pop16(bus);
            16
        } else if p == 1 {
            self.pc = self.pop16(bus);
            self.ime = true;
            16
        } else if p == 2 {
            self.pc = self.hl();
            4
        } else {
            self.sp = self.hl();
            8
        }
    }

    /// Column 2 of block 3: JP cc,a16 and the loads of A through 0xFF00 + C
    /// or a16.
    fn block3_jump(&mut self, bus: &mut Bus, y: u8) -> (r: u8)
        requires
            y < 8,
        ensures
            (Machine::at(*final(self), final(bus)@), r) == Machine::at(*old(self), old(bus)@).block3_jump(y as int),
            old(bus).wf() ==> final(bus).wf(),
    {
        proof {
            lemma_join(0xFF, self.c);
        }
        if y < 4 {
            let addr: u16 = self.fetch16(bus);
            if self.test_cond(y) {
                self.pc = addr;
                16
            } else {
                12
            }
        } else if y == 4 {
            bus.write8(0xFF00 | self.c as u16, self.a);
            8
        } else if y == 5 {
            let addr: u16 = self.fetch16(bus);
            bus.write8(addr, self.a);
            16
        } else if y == 6 {
            self.a = bus.read8(0xFF00 | self.c as u16);
            8
        } else {
            let addr: u16 = self.fetch16(bus);
            self.a = bus.read8(addr);
            16
        }
    }

    /// Runs one instruction of the prefixed table.
    pub fn cb_op(&mut self, op: u8, bus: &mut Bus) -> (r: u8)
        ensures
            (Machine::at(*final(self), final(bus)@), r) == Machine::at(*old(self), old(bus)@).cb_op(op),
            old(bus).wf() ==> final(bus).wf(),
    {
        proof {
            lemma_byte_fields(op);
        }
        let target: u8 = op & 0x07;
        let sel: u8 = (op >> 3) & 0x07;
        let group: u8 = op >> 6;
        let val: u8 = self.load_operand(bus, target);
        let slow: bool = target == 6;
        if group == 0 {
            let (res, carry) = Self::shift(sel, val, self.f.c);
            self.store_operand(bus, target, res);
            self.f = Flags { z: res == 0, n: false, h: false, c: carry };
        } else if group == 1 {
            self.f.z = val & (1u8 << sel) == 0;
            self.f.n = false;
            self.f.h = true;
            return if slow {
                12
            } else {
                8
            };
        } else if group == 2 {
            self.store_operand(bus, target, val & !(1u8 << sel));
        } else {
            self.store_operand(bus, target, val | (1u8 << sel));
        }
        if slow {
            16
        } else {
            8
        }
    }

    /// Column 3 of block 3: JP a16, the prefix, DI, EI.
    fn block3_misc(&mut self, bus: &mut Bus, y: u8) -> (r: Option<u8>)
        requires
            y < 8,
        ensures
            (Machine::at(*final(self), final(bus)@), r) == Machine::at(*old(self), old(bus)@).block3_misc(y as int),
            old(bus).wf() ==> final(bus).wf(),
    {
        if y == 0 {
            self.pc = self.fetch16(bus);
            Some(16)
        } else if y == 1 {
            let cb: u8 = self.fetch8(bus);
            Some(self.cb_op(cb, bus))
        } else if y == 6 {
            self.ime = false;
            Some(4)
        } else if y == 7 {
            self.ime = true;
            Some(4)
        } else {
            None
        }
    }

    /// A call: pushes PC and jumps to `addr`.
    fn call(&mut self, bus: &mut Bus, addr: u16)
        ensures
            Machine::at(*final(self), final(bus)@) == Machine::at(*old(self), old(bus)@).call(addr),
            old(bus).wf() ==> final(bus).wf(),
    {
        let pc: u16 = self.pc;
        self.push16(bus, pc);
        self.pc = addr;
    }

    /// Column 4 of block 3: CALL cc,a16.
    fn block3_call(&mut self, bus: &mut Bus, y: u8) -> (r: Option<u8>)
        requires
            y < 8,
        ensures
            (Machine::at(*final(self), final(bus)@), r) == Machine::at(*old(self), old(bus)@).block3_call(y as int),
            old(bus).wf() ==> final(bus).wf(),
    {
        if y < 4 {
            let addr: u16 = self.fetch16(bus);
            if self.test_cond(y) {
                self.call(bus, addr);
                Some(24)
            } else {
                Some(12)
            }
        } else {
            None
        }
    }

    /// Column 5 of block 3: PUSH and CALL a16.
    fn block3_push(&mut self, bus: &mut Bus, y: u8) -> (r: Option<u8>)
        requires
            y < 8,
        ensures
            (Machine::at(*final(self), final(bus)@), r) == Machine::at(*old(self), old(bus)@).block3_push(y as int),
            old(bus).wf() ==> final(bus).wf(),
    {
        if y % 2 == 0 {
            let v: u16 = if y == 6 {
                let f: u8 = self.f.to_byte();
                proof {
                    lemma_join(self.a, f);
                }
                ((self.a as u16) << 8) | f as u16
            } else {
                self.get_pair(y / 2)
            };
            self.push16(bus, v);
            Some(16)
        } else if y == 1 {
            let addr: u16 = self.fetch16(bus);
            self.call(bus, addr);
            Some(24)
        } else {
            None
        }
    }

    /// Block 3, opcodes 0xC0 to 0xFF.
    fn block3(&mut self, bus: &mut Bus, op: u8) -> (r: Option<u8>)
        requires
            op >= 0xC0,
        ensures
            (Machine::at(*final(self), final(bus)@), r) == Machine::at(*old(self), old(bus)@).block3(op),
            old(bus).wf() ==> final(bus).wf(),
    {
        proof {
            lemma_byte_fields(op);
        }
        let y: u8 = (op >> 3) & 0x07;
        match op & 0x07 {
            0 => Some(self.block3_control(bus, y)),
            1 => Some(self.block3_pop(bus, y)),
            2 => Some(self.block3_jump(bus, y)),
            3 => self.block3_misc(bus, y),
            4 => self.block3_call(bus, y),
            5 => self.block3_push(bus, y),
            6 => {
                let v: u8 = self.fetch8(bus);
                self.alu_op(y, v);
                Some(8)
            },
            _ => {
                self.call(bus, (y as u16) * 8);
                Some(16)
            },
        }
    }

    /// Fetches the byte at PC and runs it as an instruction.
    pub fn execute(&mut self, bus: &mut Bus) -> (r: Result<u8, EmuError>)
        ensures
            (Machine::at(*final(self), final(bus)@), r) == Machine::at(*old(self), old(bus)@).execute(),
            old(bus).wf() ==> final(bus).wf(),
    {
        let at: u16 = self.pc;
        let op: u8 = self.fetch8(bus);
        let cycles: Option<u8> = if op < 0x40 {
            Some(self.block0(bus, op))
        } else if op < 0x80 {
            Some(self.block1(bus, op))
        } else if op < 0xC0 {
            Some(self.block2(bus, op))
        } else {
            self.block3(bus, op)
        };
        match cycles {
            Some(n) => Ok(n),
            None => Err(EmuError::UnimplementedOpcode { op, pc: at }),
        }
    }

    /// Takes the lowest-numbered interrupt of `pending`.
    fn service(&mut self, bus: &mut Bus, pending: u8)
        requires
            pending != 0,
        ensures
            Machine::at(*final(self), final(bus)@) == Machine::at(*old(self), old(bus)@).service(
                pending,
            ),
            old(bus).wf() ==> final(bus).wf(),
    {
        broadcast use axiom_u8_trailing_zeros;

        self.halted = false;
        let bit: u32 = pending.trailing_zeros();
        bus.iflag &= !(1u8 << bit);
        self.ime = false;
        let pc: u16 = self.pc;
        self.push16(bus, pc);
        self.pc = 0x40 + (bit as u16) * 8;
    }

    /// Runs the processor for one step and returns the cycles it took: an
    /// interrupt is taken, or a halted processor idles, or one instruction
    /// runs. Fails on a byte that is no instruction, naming the byte and the
    /// address it was fetched from.
    pub fn step(&mut self, bus: &mut Bus) -> (r: Result<u8, EmuError>)
        ensures
            (Machine::at(*final(self), final(bus)@), r) == Machine::at(*old(self), old(bus)@).step(),
            old(bus).wf() ==> final(bus).wf(),
    {
        let pending: u8 = bus.ie & bus.iflag;
        if pending != 0 {
            if self.ime {
                self.service(bus, pending);
                return Ok(20);
            } else if self.halted {
                self.halted = false;
            }
        }
        if self.halted {
            return Ok(4);
        }
        self.execute(bus)
    }
}

} // verus!
