//! The processor and the bus together, as a mathematical value, and the
//! meaning of every instruction as a function on it.
//!
//! An opcode is read by its fields: `op / 64` names one of four blocks,
//! `(op / 8) % 8` and `op % 8` name a row and a column within it.

use vstd::prelude::*;
use vstd::std_specs::bits::u8_trailing_zeros;
use crate::alu::{
    Flags, add16, add_signed, bit_mask, daa, dec8, hi_byte, inc8, lo_byte, offset_flags, shift_flags,
    shifted, word,
};
use crate::bus::BusView;
use crate::cpu::Cpu;
use crate::error::EmuError;

verus! {

/// The state that an instruction works on.
pub struct Machine {
    pub cpu: Cpu,
    pub bus: BusView,
}

/// The bytes that are no instruction.
pub open spec fn is_illegal(op: u8) -> bool {
    ||| op == 0xD3
    ||| op == 0xDB
    ||| op == 0xDD
    ||| op == 0xE3
    ||| op == 0xE4
    ||| op == 0xEB
    ||| op == 0xEC
    ||| op == 0xED
    ||| op == 0xF4
    ||| op == 0xFC
    ||| op == 0xFD
}

impl Machine {
    /// The machine made of these registers and this bus.
    pub open spec fn at(cpu: Cpu, bus: BusView) -> Machine {
        Machine { cpu, bus }
    }

    /// The same bus with other registers.
    pub open spec fn with_cpu(self, cpu: Cpu) -> Machine {
        Machine { cpu, ..self }
    }

    /// The machine after a write of `v` to `addr`.
    pub open spec fn write8(self, addr: u16, v: u8) -> Machine {
        Machine { bus: self.bus.write8(addr, v), ..self }
    }

    /// The machine with PC set to `addr`.
    pub open spec fn jump(self, addr: u16) -> Machine {
        self.with_cpu(Cpu { pc: addr, ..self.cpu })
    }

    /// The byte at PC, with PC moved past it.
    pub open spec fn fetch8(self) -> (Machine, u8) {
        (self.jump(self.cpu.pc.wrapping_add(1)), self.bus.read8(self.cpu.pc))
    }

    /// The word at PC, low byte first, with PC moved past it.
    pub open spec fn fetch16(self) -> (Machine, u16) {
        let lo = self.fetch8();
        let hi = lo.0.fetch8();
        (hi.0, word(hi.1, lo.1))
    }

    /// The machine after a push of `v`: the high byte goes to SP - 1, then
    /// the low byte to SP - 2, which becomes SP.
    pub open spec fn push16(self, v: u16) -> Machine {
        let sp1 = self.cpu.sp.wrapping_sub(1);
        let sp2 = sp1.wrapping_sub(1);
        Machine {
            cpu: Cpu { sp: sp2, ..self.cpu },
            bus: self.bus.write8(sp1, hi_byte(v)).write8(sp2, lo_byte(v)),
        }
    }

    /// The word on top of the stack, low byte at SP, with SP moved past it.
    pub open spec fn pop16(self) -> (Machine, u16) {
        let sp1 = self.cpu.sp.wrapping_add(1);
        (
            self.with_cpu(Cpu { sp: sp1.wrapping_add(1), ..self.cpu }),
            word(self.bus.read8(sp1), self.bus.read8(self.cpu.sp)),
        )
    }

    /// The operand that an opcode numbers `idx`: a register, or for 6 the
    /// byte at HL.
    pub open spec fn operand(self, idx: int) -> u8 {
        if idx == 6 {
            self.bus.read8(self.cpu.pair(2))
        } else {
            self.cpu.reg(idx)
        }
    }

    /// The machine with operand `idx` set to `v`.
    pub open spec fn with_operand(self, idx: int, v: u8) -> Machine {
        if idx == 6 {
            self.write8(self.cpu.pair(2), v)
        } else {
            self.with_cpu(self.cpu.with_reg(idx, v))
        }
    }

    /// Column 0 of block 0: NOP, LD (a16),SP, STOP and the relative jumps.
    /// STOP does nothing.
    pub open spec fn block0_control(self, y: int) -> (Machine, u8) {
        if y == 0 || y == 2 {
            (self, 4)
        } else if y == 1 {
            let f = self.fetch16();
            let sp = f.0.cpu.sp;
            (f.0.write8(f.1, lo_byte(sp)).write8(f.1.wrapping_add(1), hi_byte(sp)), 20)
        } else {
            let f = self.fetch8();
            if y == 3 || f.0.cpu.cond(y - 4) {
                (f.0.jump(add_signed(f.0.cpu.pc, f.1)), 12)
            } else {
                (f.0, 8)
            }
        }
    }

    /// Column 1 of block 0: LD rr,d16 on even rows, ADD HL,rr on odd ones.
    pub open spec fn block0_pair(self, y: int) -> (Machine, u8) {
        if y % 2 == 0 {
            let f = self.fetch16();
            (f.0.with_cpu(f.0.cpu.with_pair(y / 2, f.1)), 12)
        } else {
            let r = add16(self.cpu.pair(2), self.cpu.pair(y / 2), self.cpu.f);
            (self.with_cpu(Cpu { f: r.1, ..self.cpu.with_pair(2, r.0) }), 8)
        }
    }

    /// Column 2 of block 0: A to or from the byte at BC, DE, HL+ or HL-.
    /// Even rows store A, odd rows load it; HL+ and HL- move HL afterwards.
    pub open spec fn block0_indirect(self, y: int) -> (Machine, u8) {
        let p = y / 2;
        let addr = self.cpu.pair(if p == 3 { 2 } else { p });
        let moved = if y % 2 == 0 {
            self.write8(addr, self.cpu.a)
        } else {
            self.with_cpu(Cpu { a: self.bus.read8(addr), ..self.cpu })
        };
        if p == 2 {
            (moved.with_cpu(moved.cpu.with_pair(2, addr.wrapping_add(1))), 8)
        } else if p == 3 {
            (moved.with_cpu(moved.cpu.with_pair(2, addr.wrapping_sub(1))), 8)
        } else {
            (moved, 8)
        }
    }

    /// Column 3 of block 0: INC rr on even rows, DEC rr on odd ones. No
    /// flag changes.
    pub open spec fn block0_step_pair(self, y: int) -> (Machine, u8) {
        let v = self.cpu.pair(y / 2);
        let stepped = if y % 2 == 0 {
            v.wrapping_add(1)
        } else {
            v.wrapping_sub(1)
        };
        (self.with_cpu(self.cpu.with_pair(y / 2, stepped)), 8)
    }

    /// Columns 4 and 5 of block 0: INC and DEC of operand `y`.
    pub open spec fn block0_step(self, y: int, down: bool) -> (Machine, u8) {
        let r = if down {
            dec8(self.operand(y), self.cpu.f)
        } else {
            inc8(self.operand(y), self.cpu.f)
        };
        let stored = self.with_operand(y, r.0);
        (stored.with_cpu(Cpu { f: r.1, ..stored.cpu }), if y == 6 { 12u8 } else { 4u8 })
    }

    /// Column 6 of block 0: LD of the next byte into operand `y`.
    pub open spec fn block0_immediate(self, y: int) -> (Machine, u8) {
        let f = self.fetch8();
        (f.0.with_operand(y, f.1), if y == 6 { 12u8 } else { 8u8 })
    }

    /// Column 7 of block 0: RLCA, RRCA, RLA, RRA (which clear Z), DAA, CPL,
    /// SCF, CCF.
    pub open spec fn block0_accumulator(self, y: int) -> (Machine, u8) {
        let c = self.cpu;
        let cpu = if y < 4 {
            let r = shifted(y, c.a, c.f.c);
            Cpu { a: r.0, f: Flags { z: false, n: false, h: false, c: r.1 }, ..c }
        } else if y == 4 {
            c.with_af(daa(c.a, c.f))
        } else if y == 5 {
            Cpu { a: !c.a, f: Flags { n: true, h: true, ..c.f }, ..c }
        } else if y == 6 {
            Cpu { f: Flags { n: false, h: false, c: true, ..c.f }, ..c }
        } else {
            Cpu { f: Flags { n: false, h: false, c: !c.f.c, ..c.f }, ..c }
        };
        (self.with_cpu(cpu), 4)
    }

    /// Block 0, opcodes 0x00 to 0x3F.
    pub open spec fn block0(self, op: u8) -> (Machine, u8) {
        let y = (op / 8) as int;
        let z = op % 8;
        if z == 0 {
            self.block0_control(y)
        } else if z == 1 {
            self.block0_pair(y)
        } else if z == 2 {
            self.block0_indirect(y)
        } else if z == 3 {
            self.block0_step_pair(y)
        } else if z == 4 {
            self.block0_step(y, false)
        } else if z == 5 {
            self.block0_step(y, true)
        } else if z == 6 {
            self.block0_immediate(y)
        } else {
            self.block0_accumulator(y)
        }
    }

    /// Block 1, opcodes 0x40 to 0x7F: LD of operand `op % 8` into operand
    /// `(op / 8) % 8`, but for 0x76, which is HALT.
    pub open spec fn block1(self, op: u8) -> (Machine, u8) {
        let dst = ((op / 8) % 8) as int;
        let src = (op % 8) as int;
        if op == 0x76 {
            (self.with_cpu(Cpu { halted: true, ..self.cpu }), 4)
        } else {
            (
                self.with_operand(dst, self.operand(src)),
                if src == 6 || dst == 6 {
                    8u8
                } else {
                    4u8
                },
            )
        }
    }

    /// Block 2, opcodes 0x80 to 0xBF: arithmetic `(op / 8) % 8` on A and
    /// operand `op % 8`.
    pub open spec fn block2(self, op: u8) -> (Machine, u8) {
        let src = (op % 8) as int;
        (
            self.with_cpu(self.cpu.alu(((op / 8) % 8) as int, self.operand(src))),
            if src == 6 {
                8u8
            } else {
                4u8
            },
        )
    }

    /// A return: PC is popped.
    pub open spec fn ret(self) -> Machine {
        let p = self.pop16();
        p.0.jump(p.1)
    }

    /// A call: PC is pushed, then set to `addr`.
    pub open spec fn call(self, addr: u16) -> Machine {
        self.push16(self.cpu.pc).jump(addr)
    }

    /// Column 0 of block 3: RET cc, the two LDH, ADD SP,r8 and
    /// LD HL,SP+r8.
    pub open spec fn block3_control(self, y: int) -> (Machine, u8) {
        if y < 4 {
            if self.cpu.cond(y) {
                (self.ret(), 20)
            } else {
                (self, 8)
            }
        } else {
            let f = self.fetch8();
            let m = f.0;
            if y == 4 {
                (m.write8(word(0xFF, f.1), m.cpu.a), 12)
            } else if y == 5 {
                (
                    m.with_cpu(
                        Cpu {
                            sp: add_signed(m.cpu.sp, f.1),
                            f: offset_flags(m.cpu.sp, f.1),
                            ..m.cpu
                        },
                    ),
                    16,
                )
            } else if y == 6 {
                (m.with_cpu(Cpu { a: m.bus.read8(word(0xFF, f.1)), ..m.cpu }), 12)
            } else {
                (
                    m.with_cpu(
                        Cpu { f: offset_flags(m.cpu.sp, f.1), ..m.cpu }.with_pair(
                            2,
                            add_signed(m.cpu.sp, f.1),
                        ),
                    ),
                    12,
                )
            }
        }
    }

    /// Column 1 of block 3: POP on even rows; RET, RETI, JP (HL) and
    /// LD SP,HL on odd ones.
    pub open spec fn block3_pop(self, y: int) -> (Machine, u8) {
        let p = y / 2;
        if y % 2 == 0 {
            let popped = self.pop16();
            (popped.0.with_cpu(popped.0.cpu.with_stack_pair(p, popped.1)), 12)
        } else if p == 0 {
            (self.ret(), 16)
        } else if p == 1 {
            let r = self.ret();
            (r.with_cpu(Cpu { ime: true, ..r.cpu }), 16)
        } else if p == 2 {
            (self.jump(self.cpu.pair(2)), 4)
        } else {
            (self.with_cpu(Cpu { sp: self.cpu.pair(2), ..self.cpu }), 8)
        }
    }

    /// Column 2 of block 3: JP cc,a16, and A to or from the byte at
    /// 0xFF00 + C or at a16.
    pub open spec fn block3_jump(self, y: int) -> (Machine, u8) {
        if y < 4 {
            let f = self.fetch16();
            if f.0.cpu.cond(y) {
                (f.0.jump(f.1), 16)
            } else {
                (f.0, 12)
            }
        } else if y == 4 {
            (self.write8(word(0xFF, self.cpu.c), self.cpu.a), 8)
        } else if y == 5 {
            let f = self.fetch16();
            (f.0.write8(f.1, f.0.cpu.a), 16)
        } else if y == 6 {
            (self.with_cpu(Cpu { a: self.bus.read8(word(0xFF, self.cpu.c)), ..self.cpu }), 8)
        } else {
            let f = self.fetch16();
            (f.0.with_cpu(Cpu { a: f.0.bus.read8(f.1), ..f.0.cpu }), 16)
        }
    }

    /// An instruction of the prefixed table. `op % 8` names the operand,
    /// `op / 64` the group: 0 rotations and shifts, chosen by
    /// `(op / 8) % 8`; 1 BIT, 2 RES, 3 SET, on bit `(op / 8) % 8`. BIT
    /// changes Z, N and H only and stores nothing.
    pub open spec fn cb_op(self, op: u8) -> (Machine, u8) {
        let target = (op % 8) as int;
        let sel = (op / 8) % 8;
        let group = op / 64;
        let val = self.operand(target);
        let slow = target == 6;
        if group == 0 {
            let r = shifted(sel as int, val, self.cpu.f.c);
            let stored = self.with_operand(target, r.0);
            (
                stored.with_cpu(Cpu { f: shift_flags(r.0, r.1), ..stored.cpu }),
                if slow {
                    16u8
                } else {
                    8u8
                },
            )
        } else if group == 1 {
            (
                self.with_cpu(
                    Cpu {
                        f: Flags { z: val & bit_mask(sel) == 0, n: false, h: true, c: self.cpu.f.c },
                        ..self.cpu
                    },
                ),
                if slow {
                    12u8
                } else {
                    8u8
                },
            )
        } else if group == 2 {
            (
                self.with_operand(target, val & !bit_mask(sel)),
                if slow {
                    16u8
                } else {
                    8u8
                },
            )
        } else {
            (
                self.with_operand(target, val | bit_mask(sel)),
                if slow {
                    16u8
                } else {
                    8u8
                },
            )
        }
    }

    /// Column 3 of block 3: JP a16, the prefix, DI and EI; the other four
    /// rows hold no instruction.
    pub open spec fn block3_misc(self, y: int) -> (Machine, Option<u8>) {
        if y == 0 {
            let f = self.fetch16();
            (f.0.jump(f.1), Some(16u8))
        } else if y == 1 {
            let f = self.fetch8();
            let r = f.0.cb_op(f.1);
            (r.0, Some(r.1))
        } else if y == 6 {
            (self.with_cpu(Cpu { ime: false, ..self.cpu }), Some(4u8))
        } else if y == 7 {
            (self.with_cpu(Cpu { ime: true, ..self.cpu }), Some(4u8))
        } else {
            (self, None)
        }
    }

    /// Column 4 of block 3: CALL cc,a16 in the first four rows; the other
    /// four hold no instruction.
    pub open spec fn block3_call(self, y: int) -> (Machine, Option<u8>) {
        if y < 4 {
            let f = self.fetch16();
            if f.0.cpu.cond(y) {
                (f.0.call(f.1), Some(24u8))
            } else {
                (f.0, Some(12u8))
            }
        } else {
            (self, None)
        }
    }

    /// Column 5 of block 3: PUSH on even rows, CALL a16 in row 1; rows 3,
    /// 5 and 7 hold no instruction.
    pub open spec fn block3_push(self, y: int) -> (Machine, Option<u8>) {
        if y % 2 == 0 {
            (self.push16(self.cpu.stack_pair(y / 2)), Some(16u8))
        } else if y == 1 {
            let f = self.fetch16();
            (f.0.call(f.1), Some(24u8))
        } else {
            (self, None)
        }
    }

    /// Block 3, opcodes 0xC0 to 0xFF. `None` where the byte is no
    /// instruction; the machine is then unchanged.
    pub open spec fn block3(self, op: u8) -> (Machine, Option<u8>) {
        let y = ((op / 8) % 8) as int;
        let z = op % 8;
        if z == 0 {
            let r = self.block3_control(y);
            (r.0, Some(r.1))
        } else if z == 1 {
            let r = self.block3_pop(y);
            (r.0, Some(r.1))
        } else if z == 2 {
            let r = self.block3_jump(y);
            (r.0, Some(r.1))
        } else if z == 3 {
            self.block3_misc(y)
        } else if z == 4 {
            self.block3_call(y)
        } else if z == 5 {
            self.block3_push(y)
        } else if z == 6 {
            let f = self.fetch8();
            (f.0.with_cpu(f.0.cpu.alu(y, f.1)), Some(8u8))
        } else {
            (self.call((y * 8) as u16), Some(16u8))
        }
    }

    /// The instruction `op`, already fetched: the machine after it and the
    /// cycles it took, or `None` where `op` is no instruction.
    pub open spec fn dispatch(self, op: u8) -> (Machine, Option<u8>) {
        if op < 0x40 {
            let r = self.block0(op);
            (r.0, Some(r.1))
        } else if op < 0x80 {
            let r = self.block1(op);
            (r.0, Some(r.1))
        } else if op < 0xC0 {
            let r = self.block2(op);
            (r.0, Some(r.1))
        } else {
            self.block3(op)
        }
    }

    /// Fetches the byte at PC and runs it as an instruction. A byte that is
    /// none leaves the machine with PC past it and reports the byte and the
    /// address it came from.
    pub open spec fn execute(self) -> (Machine, Result<u8, EmuError>) {
        let f = self.fetch8();
        let r = f.0.dispatch(f.1);
        match r.1 {
            Some(cycles) => (r.0, Ok(cycles)),
            None => (r.0, Err(EmuError::UnimplementedOpcode { op: f.1, pc: self.cpu.pc })),
        }
    }

    /// The interrupts that are both requested and enabled.
    pub open spec fn pending(self) -> u8 {
        self.bus.ie & self.bus.iflag
    }

    /// The machine after the lowest-numbered interrupt of `pending` is
    /// taken: its request is cleared, interrupts are disabled, the
    /// processor wakes, PC is pushed and set to the interrupt's vector,
    /// 0x40 plus eight times its number.
    pub open spec fn service(self, pending: u8) -> Machine {
        let bit = u8_trailing_zeros(pending);
        let acked = Machine {
            cpu: Cpu { halted: false, ime: false, ..self.cpu },
            bus: BusView { iflag: self.bus.iflag & !(1u8 << bit), ..self.bus },
        };
        acked.push16(self.cpu.pc).jump((0x40 + bit * 8) as u16)
    }

    /// One step of the processor. A pending interrupt is taken if
    /// interrupts are enabled (20 cycles); otherwise it wakes a halted
    /// processor. A processor that stays halted idles for 4 cycles. In
    /// every other case one instruction runs.
    pub open spec fn step(self) -> (Machine, Result<u8, EmuError>) {
        let pending = self.pending();
        if pending != 0 && self.cpu.ime {
            (self.service(pending), Ok(20u8))
        } else if pending == 0 && self.cpu.halted {
            (self, Ok(4u8))
        } else {
            self.with_cpu(Cpu { halted: false, ..self.cpu }).execute()
        }
    }
}

} // verus!
