//! The cycle table of the instruction set, written out opcode by opcode,
//! and the proof that the interpreter keeps to it.

use vstd::prelude::*;
use crate::alu::Flags;
use crate::error::EmuError;
use crate::machine::{Machine, is_illegal};

verus! {

/// One row of the table: the cycles of the sixteen opcodes that share a
/// high nibble, a conditional branch counted as not taken. A byte that is no
/// instruction has a 0, and so has the prefix byte, whose cost depends on
/// the byte that follows it.
pub open spec fn cycle_row(row: int) -> Seq<int> {
    if row == 0x0 {
        seq![4, 12, 8, 8, 4, 4, 8, 4, 20, 8, 8, 8, 4, 4, 8, 4]
    } else if row == 0x1 {
        seq![4, 12, 8, 8, 4, 4, 8, 4, 12, 8, 8, 8, 4, 4, 8, 4]
    } else if row == 0x2 {
        seq![8, 12, 8, 8, 4, 4, 8, 4, 8, 8, 8, 8, 4, 4, 8, 4]
    } else if row == 0x3 {
        seq![8, 12, 8, 8, 12, 12, 12, 4, 8, 8, 8, 8, 4, 4, 8, 4]
    } else if row == 0x7 {
        seq![8, 8, 8, 8, 8, 8, 4, 8, 4, 4, 4, 4, 4, 4, 8, 4]
    } else if row <= 0xB {
        seq![4, 4, 4, 4, 4, 4, 8, 4, 4, 4, 4, 4, 4, 4, 8, 4]
    } else if row == 0xC {
        seq![8, 12, 12, 16, 12, 16, 8, 16, 8, 16, 12, 0, 12, 24, 8, 16]
    } else if row == 0xD {
        seq![8, 12, 12, 0, 12, 16, 8, 16, 8, 16, 12, 0, 12, 0, 8, 16]
    } else if row == 0xE {
        seq![12, 12, 8, 0, 0, 16, 8, 16, 16, 4, 16, 0, 0, 0, 8, 16]
    } else {
        seq![12, 12, 8, 4, 0, 16, 8, 16, 12, 8, 16, 4, 0, 0, 8, 16]
    }
}

/// The cycles of opcode `op` when it does not branch.
pub open spec fn base_cycles(op: u8) -> int {
    cycle_row(op as int / 16)[op as int % 16]
}

/// The condition that a conditional branch tests, or `None` for an opcode
/// that is none: NZ, Z, NC, C for JR, RET, JP and CALL.
pub open spec fn branch_condition(op: u8, f: Flags) -> Option<bool> {
    if op == 0x20 || op == 0xC0 || op == 0xC2 || op == 0xC4 {
        Some(!f.z)
    } else if op == 0x28 || op == 0xC8 || op == 0xCA || op == 0xCC {
        Some(f.z)
    } else if op == 0x30 || op == 0xD0 || op == 0xD2 || op == 0xD4 {
        Some(!f.c)
    } else if op == 0x38 || op == 0xD8 || op == 0xDA || op == 0xDC {
        Some(f.c)
    } else {
        None
    }
}

/// The cycles that a taken branch costs more than one not taken: 4 for JR
/// and JP, 12 for RET and CALL.
pub open spec fn taken_extra(op: u8) -> int {
    if op < 0x40 || op as int % 8 == 2 {
        4
    } else {
        12
    }
}

/// The cycles of the prefixed instruction `cb`: 8 on a register; on the
/// byte at HL 12 for BIT and 16 for the others.
pub open spec fn prefixed_cycles(cb: u8) -> int {
    if cb as int % 8 != 6 {
        8
    } else if 0x40 <= cb < 0x80 {
        12
    } else {
        16
    }
}

/// The standard cycle count of the instruction that starts with `op`,
/// followed by `next`, under flags `f`.
pub open spec fn standard_cycles(op: u8, next: u8, f: Flags) -> int {
    if op == 0xCB {
        prefixed_cycles(next)
    } else if branch_condition(op, f) == Some(true) {
        base_cycles(op) + taken_extra(op)
    } else {
        base_cycles(op)
    }
}

/// Every instruction takes its standard number of cycles, a conditional
/// branch the count of the way it went; a byte that is no instruction is
/// reported with the address it was fetched from.
pub proof fn law_standard_cycles(m: Machine)
    ensures
        ({
            let op = m.bus.read8(m.cpu.pc);
            let next = m.bus.read8(m.cpu.pc.wrapping_add(1));
            if is_illegal(op) {
                m.execute().1 == Err::<u8, EmuError>(
                    EmuError::UnimplementedOpcode { op, pc: m.cpu.pc },
                )
            } else {
                m.execute().1 == Ok::<u8, EmuError>(standard_cycles(op, next, m.cpu.f) as u8)
            }
        }),
{
    let op = m.bus.read8(m.cpu.pc);
    let f = m.fetch8().0;
    if op < 0x40 {
        lemma_block0_cycles(f, op);
    } else if op < 0xC0 {
        lemma_block12_cycles(f, op);
    } else {
        lemma_block3_cycles(f, op);
    }
}

/// Blocks 1 and 2 keep to the table: four cycles, eight through HL.
proof fn lemma_block12_cycles(f: Machine, op: u8)
    requires
        0x40 <= op < 0xC0,
    ensures
        op < 0x80 ==> f.block1(op).1 == standard_cycles(op, f.bus.read8(f.cpu.pc), f.cpu.f),
        op >= 0x80 ==> f.block2(op).1 == standard_cycles(op, f.bus.read8(f.cpu.pc), f.cpu.f),
{
    let row = cycle_row(op as int / 16);
    assert(row.len() == 16);
    assert(base_cycles(op) == row[op as int % 16]);
}

/// Block 0 keeps to the table.
proof fn lemma_block0_cycles(f: Machine, op: u8)
    requires
        op < 0x40,
    ensures
        f.block0(op).1 == standard_cycles(op, f.bus.read8(f.cpu.pc), f.cpu.f),
{
}

/// Column 0 of block 3 keeps to the table.
proof fn lemma_block3_column0(f: Machine, op: u8)
    requires
        op >= 0xC0,
        op as int % 8 == 0,
    ensures
        is_illegal(op) <==> f.block3(op).1 is None,
        !is_illegal(op) ==> f.block3(op).1 == Some(
            standard_cycles(op, f.bus.read8(f.cpu.pc), f.cpu.f) as u8,
        ),
{
}

/// Column 1 of block 3 keeps to the table.
proof fn lemma_block3_column1(f: Machine, op: u8)
    requires
        op >= 0xC0,
        op as int % 8 == 1,
    ensures
        is_illegal(op) <==> f.block3(op).1 is None,
        !is_illegal(op) ==> f.block3(op).1 == Some(
            standard_cycles(op, f.bus.read8(f.cpu.pc), f.cpu.f) as u8,
        ),
{
}

/// Column 2 of block 3 keeps to the table.
proof fn lemma_block3_column2(f: Machine, op: u8)
    requires
        op >= 0xC0,
        op as int % 8 == 2,
    ensures
        is_illegal(op) <==> f.block3(op).1 is None,
        !is_illegal(op) ==> f.block3(op).1 == Some(
            standard_cycles(op, f.bus.read8(f.cpu.pc), f.cpu.f) as u8,
        ),
{
}

/// Column 3 of block 3 keeps to the table.
proof fn lemma_block3_column3(f: Machine, op: u8)
    requires
        op >= 0xC0,
        op as int % 8 == 3,
    ensures
        is_illegal(op) <==> f.block3(op).1 is None,
        !is_illegal(op) ==> f.block3(op).1 == Some(
            standard_cycles(op, f.bus.read8(f.cpu.pc), f.cpu.f) as u8,
        ),
{
}

/// Column 4 of block 3 keeps to the table.
proof fn lemma_block3_column4(f: Machine, op: u8)
    requires
        op >= 0xC0,
        op as int % 8 == 4,
    ensures
        is_illegal(op) <==> f.block3(op).1 is None,
        !is_illegal(op) ==> f.block3(op).1 == Some(
            standard_cycles(op, f.bus.read8(f.cpu.pc), f.cpu.f) as u8,
        ),
{
}

/// Column 5 of block 3 keeps to the table.
proof fn lemma_block3_column5(f: Machine, op: u8)
    requires
        op >= 0xC0,
        op as int % 8 == 5,
    ensures
        is_illegal(op) <==> f.block3(op).1 is None,
        !is_illegal(op) ==> f.block3(op).1 == Some(
            standard_cycles(op, f.bus.read8(f.cpu.pc), f.cpu.f) as u8,
        ),
{
}

/// Column 6 of block 3 keeps to the table.
proof fn lemma_block3_column6(f: Machine, op: u8)
    requires
        op >= 0xC0,
        op as int % 8 == 6,
    ensures
        is_illegal(op) <==> f.block3(op).1 is None,
        !is_illegal(op) ==> f.block3(op).1 == Some(
            standard_cycles(op, f.bus.read8(f.cpu.pc), f.cpu.f) as u8,
        ),
{
}

/// Column 7 of block 3 keeps to the table.
proof fn lemma_block3_column7(f: Machine, op: u8)
    requires
        op >= 0xC0,
        op as int % 8 == 7,
    ensures
        is_illegal(op) <==> f.block3(op).1 is None,
        !is_illegal(op) ==> f.block3(op).1 == Some(
            standard_cycles(op, f.bus.read8(f.cpu.pc), f.cpu.f) as u8,
        ),
{
}

/// Block 3 keeps to the table, column by column.
proof fn lemma_block3_cycles(f: Machine, op: u8)
    requires
        op >= 0xC0,
    ensures
        is_illegal(op) <==> f.block3(op).1 is None,
        !is_illegal(op) ==> f.block3(op).1 == Some(
            standard_cycles(op, f.bus.read8(f.cpu.pc), f.cpu.f) as u8,
        ),
{
    let z = op as int % 8;
    if z == 0 {
        lemma_block3_column0(f, op);
    } else if z == 1 {
        lemma_block3_column1(f, op);
    } else if z == 2 {
        lemma_block3_column2(f, op);
    } else if z == 3 {
        lemma_block3_column3(f, op);
    } else if z == 4 {
        lemma_block3_column4(f, op);
    } else if z == 5 {
        lemma_block3_column5(f, op);
    } else if z == 6 {
        lemma_block3_column6(f, op);
    } else {
        lemma_block3_column7(f, op);
    }
}

/// A step takes 20 cycles where it takes an interrupt and 4 where the
/// processor stays halted; in every other case it takes the standard count
/// of the instruction at PC.
pub proof fn law_step_cycles(m: Machine)
    ensures
        ({
            let op = m.bus.read8(m.cpu.pc);
            let next = m.bus.read8(m.cpu.pc.wrapping_add(1));
            if m.pending() != 0 && m.cpu.ime {
                m.step().1 == Ok::<u8, EmuError>(20u8)
            } else if m.pending() == 0 && m.cpu.halted {
                m.step() == (m, Ok::<u8, EmuError>(4u8))
            } else if is_illegal(op) {
                m.step().1 == Err::<u8, EmuError>(
                    EmuError::UnimplementedOpcode { op, pc: m.cpu.pc },
                )
            } else {
                m.step().1 == Ok::<u8, EmuError>(standard_cycles(op, next, m.cpu.f) as u8)
            }
        }),
{
    law_standard_cycles(m.with_cpu(crate::cpu::Cpu { halted: false, ..m.cpu }));
}

/// A step takes at least four cycles wherever it succeeds.
pub proof fn lemma_step_takes_time(m: Machine)
    ensures
        m.step().1 matches Ok(cycles) ==> cycles >= 4,
{
    let woken = m.with_cpu(crate::cpu::Cpu { halted: false, ..m.cpu });
    law_standard_cycles(woken);
    let op = woken.bus.read8(woken.cpu.pc);
    let next = woken.bus.read8(woken.cpu.pc.wrapping_add(1));
    if !is_illegal(op) {
        lemma_cycle_range(op, next, woken.cpu.f);
    }
}

/// Every instruction's standard count lies between 4 and 24.
pub proof fn lemma_cycle_range(op: u8, next: u8, f: Flags)
    requires
        !is_illegal(op),
    ensures
        4 <= standard_cycles(op, next, f) <= 24,
{
}

} // verus!
