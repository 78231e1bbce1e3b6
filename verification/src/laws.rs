//! Laws of the machine: what holds of every state, and how operations
//! relate to one another.

use vstd::prelude::*;
use vstd::std_specs::bits::{axiom_u8_trailing_zeros, u8_trailing_zeros};
use crate::alu::{Flags, add8, hi_byte, lo_byte, sub8, word};
use crate::bits::{
    lemma_bit_test, lemma_byte_fields, lemma_clear_low_nibble, lemma_flag_bits, lemma_high_nibble,
    lemma_request_bits, lemma_word_fields,
};
use crate::bus::BusView;
use crate::cpu::Cpu;
use crate::emu::FRAME_CYCLES;
use crate::machine::Machine;
use crate::timing::lemma_step_takes_time;
use crate::ppu::{
    FRAME_BYTES, PpuView, blank_frame, tile_map_base, tile_map_index, tile_row_index,
};

verus! {

/// The low nibble of F is zero, whatever the flags are; so is the low
/// nibble of AF.
pub proof fn law_flag_low_nibble(cpu: Cpu)
    ensures
        cpu.f.byte() & 0x0F == 0,
        cpu.stack_pair(3) & 0x000F == 0,
{
    let f = cpu.f;
    let z = if f.z { 0x80u8 } else { 0x00u8 };
    let n = if f.n { 0x40u8 } else { 0x00u8 };
    let h = if f.h { 0x20u8 } else { 0x00u8 };
    let c = if f.c { 0x10u8 } else { 0x00u8 };
    lemma_flag_bits(z, n, h, c);
    lemma_byte_fields(f.byte());
    lemma_clear_low_nibble(cpu.stack_pair(3));
}

/// Every arithmetic operation on A leaves F with a zero low nibble.
pub proof fn law_arithmetic_low_nibble(cpu: Cpu, y: int, v: u8)
    ensures
        cpu.alu(y, v).f.byte() & 0x0F == 0,
{
    law_flag_low_nibble(cpu.alu(y, v));
}

/// Packing the flags into F and unpacking them gives the same flags.
pub proof fn law_flags_round_trip(f: Flags)
    ensures
        Flags::of_byte(f.byte()) == f,
{
    let z = if f.z { 0x80u8 } else { 0x00u8 };
    let n = if f.n { 0x40u8 } else { 0x00u8 };
    let h = if f.h { 0x20u8 } else { 0x00u8 };
    let c = if f.c { 0x10u8 } else { 0x00u8 };
    lemma_flag_bits(z, n, h, c);
}

/// `ADD A,v` followed by `SUB v` restores A. The flags of the addition are
/// those of the table: Z from the sum, N clear, H from the low nibbles, C
/// from the whole sum; the subtraction sets N.
pub proof fn law_add_then_sub(cpu: Cpu, v: u8)
    ensures
        cpu.alu(0, v).alu(2, v).a == cpu.a,
        cpu.alu(0, v).a as int == (cpu.a + v) % 256,
        cpu.alu(0, v).f == (Flags {
            z: (cpu.a + v) % 256 == 0,
            n: false,
            h: (cpu.a & 0x0F) + (v & 0x0F) > 0x0F,
            c: cpu.a + v > 0xFF,
        }),
        cpu.alu(0, v).alu(2, v).f.n,
        cpu.alu(0, v).alu(2, v).f.z == (cpu.a == 0),
        cpu.alu(0, v).alu(2, v).f.c == (cpu.a + v > 0xFF),
{
}

/// The addresses at which the bus keeps a written byte as it is: video and
/// work RAM with its echo, object attribute memory, high RAM, and the
/// registers that have no read-only or self-clearing bits.
pub open spec fn stores_byte(addr: u16) -> bool {
    ||| 0x8000 <= addr <= 0x9FFF
    ||| 0xC000 <= addr <= 0xFDFF
    ||| 0xFE00 <= addr <= 0xFE9F
    ||| 0xFF80 <= addr
    ||| addr == 0xFF05
    ||| addr == 0xFF06
    ||| addr == 0xFF0F
    ||| addr == 0xFF40
    ||| addr == 0xFF42
    ||| addr == 0xFF43
    ||| addr == 0xFF45
    ||| addr == 0xFF47
    ||| addr == 0xFF4A
    ||| addr == 0xFF4B
}

/// Whether two addresses name the same byte: they are equal, or one is the
/// echo of the other.
pub open spec fn same_cell(a: u16, b: u16) -> bool {
    ||| a == b
    ||| 0xC000 <= a <= 0xDDFF && b == a + 0x2000
    ||| 0xC000 <= b <= 0xDDFF && a == b + 0x2000
}

/// A byte written where the bus stores bytes is read back, there and at
/// its echo, and no other address reads differently for it.
pub proof fn law_read_after_write(bus: BusView, addr: u16, v: u8, other: u16)
    requires
        bus.wf(),
        stores_byte(addr),
    ensures
        bus.write8(addr, v).wf(),
        bus.write8(addr, v).read8(addr) == v,
        same_cell(addr, other) ==> bus.write8(addr, v).read8(other) == v,
        !same_cell(addr, other) ==> bus.write8(addr, v).read8(other) == bus.read8(other),
{
    let after = bus.write8(addr, v);
    if 0x8000 <= addr <= 0x9FFF {
        assert(after == BusView { vram: bus.vram.update(addr - 0x8000, v), ..bus });
    } else if 0xC000 <= addr <= 0xDFFF {
        assert(after == BusView { wram: bus.wram.update(addr - 0xC000, v), ..bus });
    } else if 0xE000 <= addr <= 0xFDFF {
        assert(after == BusView { wram: bus.wram.update(addr - 0xE000, v), ..bus });
    } else if 0xFE00 <= addr <= 0xFE9F {
        assert(after == BusView { oam: bus.oam.update(addr - 0xFE00, v), ..bus });
    } else if 0xFF80 <= addr <= 0xFFFE {
        assert(after == BusView { hram: bus.hram.update(addr - 0xFF80, v), ..bus });
    } else if addr == 0xFFFF {
        assert(after == BusView { ie: v, ..bus });
    } else if addr == 0xFF05 {
        assert(after == BusView { tima: v, ..bus });
    } else if addr == 0xFF06 {
        assert(after == BusView { tma: v, ..bus });
    } else if addr == 0xFF0F {
        assert(after == BusView { iflag: v, ..bus });
    } else {
        assert(after.vram == bus.vram && after.wram == bus.wram && after.oam == bus.oam
            && after.hram == bus.hram && after.rom == bus.rom);
    }
}

/// A word pushed and popped again comes back, and the registers are as
/// before the push, wherever the two bytes below SP are stored as written.
pub proof fn law_push_pop(m: Machine, v: u16)
    requires
        m.bus.wf(),
        stores_byte(m.cpu.sp.wrapping_sub(1)),
        stores_byte(m.cpu.sp.wrapping_sub(2)),
    ensures
        m.push16(v).pop16().1 == v,
        m.push16(v).pop16().0.cpu == m.cpu,
{
    let sp1 = m.cpu.sp.wrapping_sub(1);
    let sp2 = sp1.wrapping_sub(1);
    let b1 = m.bus.write8(sp1, hi_byte(v));
    law_read_after_write(m.bus, sp1, hi_byte(v), sp1);
    law_read_after_write(b1, sp2, lo_byte(v), sp1);
    law_read_after_write(b1, sp2, lo_byte(v), sp2);
}

/// PUSH of BC, DE or HL followed by POP into the same pair leaves the pair
/// as it was; so does PUSH AF followed by POP AF.
pub proof fn law_push_pop_pair(m: Machine, p: int)
    requires
        0 <= p <= 3,
        m.bus.wf(),
        stores_byte(m.cpu.sp.wrapping_sub(1)),
        stores_byte(m.cpu.sp.wrapping_sub(2)),
    ensures
        ({
            let popped = m.push16(m.cpu.stack_pair(p)).pop16();
            popped.0.cpu.with_stack_pair(p, popped.1) == m.cpu
        }),
{
    law_push_pop(m, m.cpu.stack_pair(p));
    law_flags_round_trip(m.cpu.f);
}

/// PUSH of a register pair followed by POP into the same pair leaves every
/// register as it was, AF included, wherever the stack is stored as
/// written.
pub proof fn law_push_pop_instructions(m: Machine, p: int)
    requires
        0 <= p <= 3,
        m.bus.wf(),
        stores_byte(m.cpu.sp.wrapping_sub(1)),
        stores_byte(m.cpu.sp.wrapping_sub(2)),
    ensures
        m.block3_push(2 * p).0.block3_pop(2 * p).0.cpu == m.cpu,
        m.block3_push(2 * p).1 == Some(16u8),
        m.block3_push(2 * p).0.block3_pop(2 * p).1 == 12,
{
    law_push_pop_pair(m, p);
}

/// POP AF takes the high nibble of the low byte only: whatever word is
/// popped, AF then reads as that word with its low nibble zeroed.
pub proof fn law_pop_af_masks(cpu: Cpu, v: u16)
    ensures
        cpu.with_stack_pair(3, v).stack_pair(3) == v & 0xFFF0,
{
    let lo = lo_byte(v);
    lemma_high_nibble(lo);
    lemma_clear_low_nibble(v);
    assert(Flags::of_byte(lo).byte() == lo & 0xF0);
    assert(word(hi_byte(v), lo & 0xF0) == (v / 16) * 16);
}

/// A write to 0xFF04 resets the divider, whatever is written, and a read
/// of 0xFF04 returns the divider's high byte.
pub proof fn law_divider(bus: BusView, v: u8)
    ensures
        bus.write8(0xFF04, v).div == 0,
        bus.write8(0xFF04, v).read8(0xFF04) == 0,
        bus.read8(0xFF04) == hi_byte(bus.div),
{
    lemma_word_fields(bus.div);
    lemma_word_fields(0);
}

/// Of the pending interrupts the one with the lowest number is taken:
/// where bit `k` of `pending` is set and no bit below it, the request in
/// bit `k` is cleared, the return address is pushed, and the processor
/// starts at vector `0x40 + 8 * k`, awake and with interrupts disabled.
pub proof fn law_interrupt_priority(m: Machine, pending: u8, k: u8)
    requires
        k < 8,
        pending & (1u8 << k) != 0,
        forall|j: u8| j < k ==> pending & (1u8 << j) == 0,
    ensures
        u8_trailing_zeros(pending) == k,
        m.service(pending) == (Machine {
            cpu: Cpu { halted: false, ime: false, ..m.cpu },
            bus: BusView { iflag: m.bus.iflag & !(1u8 << k), ..m.bus },
        }).push16(m.cpu.pc).jump((0x40 + 8 * k) as u16),
        m.service(pending).cpu == (Cpu {
            pc: (0x40 + 8 * k) as u16,
            sp: m.cpu.sp.wrapping_sub(1).wrapping_sub(1),
            ime: false,
            halted: false,
            ..m.cpu
        }),
{
    axiom_u8_trailing_zeros(pending);
    let tz = u8_trailing_zeros(pending);
    lemma_bit_test(pending, k);
    assert(pending != 0) by (bit_vector)
        requires
            pending & (1u8 << k) != 0,
    ;
    if tz < k {
        lemma_bit_test(pending, tz as u8);
        assert(pending & (1u8 << (tz as u8)) == 0);
        assert(false);
    } else if tz > k {
        assert((pending >> k) & 1u8 == 0u8);
        assert(false);
    }
    assert(1u8 << tz == 1u8 << k);
}

/// After every step of a valid unit LY is at most 153, and the unit is
/// valid again.
pub proof fn law_ly_range(ppu: PpuView, cycles: u32, vram: Seq<u8>)
    requires
        ppu.wf(),
    ensures
        ppu.step(cycles, vram).0.ly <= 153,
        ppu.step(cycles, vram).0.wf(),
{
}

/// A frame is 154 scanlines of 456 cycles, 70224 in all: after that many
/// cycles an enabled unit is back on the same scanline, at the same point
/// of it, and has drawn once and begun one vertical blank.
pub proof fn law_frame_period(ppu: PpuView, vram: Seq<u8>)
    requires
        ppu.wf(),
        ppu.lcdc & 0x80 != 0,
    ensures
        154 * 456 == 70224,
        ppu.lines_after(70224) == 154,
        ppu.step(70224, vram).0.ly == ppu.ly,
        ppu.step(70224, vram).0.cycle_acc == ppu.cycle_acc,
        ppu.step(70224, vram).0.fb == ppu.rendered(vram),
        ppu.step(70224, vram).1,
{
}

/// While the display is disabled every step holds LY at 0, leaves the
/// frame blank, every byte 0xFF, and raises nothing.
pub proof fn law_display_off(ppu: PpuView, cycles: u32, vram: Seq<u8>)
    requires
        ppu.lcdc & 0x80 == 0,
    ensures
        ppu.step(cycles, vram).0.ly == 0,
        ppu.step(cycles, vram).0.mode == 0,
        ppu.step(cycles, vram).0.fb.len() == FRAME_BYTES,
        forall|i: int| 0 <= i < FRAME_BYTES ==> ppu.step(cycles, vram).0.fb[i] == 0xFF,
        !ppu.step(cycles, vram).1,
        !ppu.step(cycles, vram).2,
{
    assert(ppu.step(cycles, vram).0.fb == blank_frame());
}

impl PpuView {
    /// Where in video RAM the tile number for screen pixel (`x`, `y`)
    /// stands: in the window's map where the window covers the pixel, in
    /// the scrolled background's map elsewhere.
    pub open spec fn source_map_index(self, x: int, y: int) -> int {
        if self.in_window(x, y) {
            tile_map_index(
                tile_map_base(self.lcdc & 0x40 != 0),
                x - self.window_left(),
                y - self.wy,
            )
        } else {
            tile_map_index(
                tile_map_base(self.lcdc & 0x08 != 0),
                (x + self.scx) % 256,
                (y + self.scy) % 256,
            )
        }
    }

    /// Where in video RAM the first of the two bytes stands that hold the
    /// tile row for screen pixel (`x`, `y`).
    pub open spec fn source_row_index(self, vram: Seq<u8>, x: int, y: int) -> int {
        let line = if self.in_window(x, y) {
            (y - self.wy) % 8
        } else {
            ((y + self.scy) % 256) % 8
        };
        tile_row_index(self.lcdc, vram[self.source_map_index(x, y)], line)
    }
}

/// A pixel depends on three bytes of video RAM only: its entry in the tile
/// map and the two bytes of its tile row. Two video RAMs that agree on them
/// give the pixel the same grey level.
pub proof fn law_pixel_sources(ppu: PpuView, vram: Seq<u8>, other: Seq<u8>, x: int, y: int)
    requires
        ({
            let map = ppu.source_map_index(x, y);
            let row = ppu.source_row_index(vram, x, y);
            &&& other[map] == vram[map]
            &&& other[row] == vram[row]
            &&& other[row + 1] == vram[row + 1]
        }),
    ensures
        ppu.pixel_shade(other, x, y) == ppu.pixel_shade(vram, x, y),
{
}

/// A change to any other byte of video RAM leaves the pixel, and its four
/// bytes in the drawn frame, as they were.
pub proof fn law_unrelated_tile(ppu: PpuView, vram: Seq<u8>, at: int, b: u8, x: int, y: int)
    requires
        vram.len() == 0x2000,
        0 <= at < 0x2000,
        0 <= x < 160,
        0 <= y < 144,
        at != ppu.source_map_index(x, y),
        at != ppu.source_row_index(vram, x, y),
        at != ppu.source_row_index(vram, x, y) + 1,
    ensures
        ppu.pixel_shade(vram.update(at, b), x, y) == ppu.pixel_shade(vram, x, y),
        forall|i: int|
            (y * 160 + x) * 4 <= i < (y * 160 + x) * 4 + 4 ==> ppu.rendered(vram.update(at, b))[i]
                == ppu.rendered(vram)[i],
{
    let other = vram.update(at, b);
    let map = ppu.source_map_index(x, y);
    let row = ppu.source_row_index(vram, x, y);
    lemma_source_bounds(ppu, vram, x, y);
    assert(other[map] == vram[map]);
    assert(other[row] == vram[row]);
    assert(other[row + 1] == vram[row + 1]);
    law_pixel_sources(ppu, vram, other, x, y);
    assert forall|i: int| (y * 160 + x) * 4 <= i < (y * 160 + x) * 4 + 4 implies ppu.rendered(
        other,
    )[i] == ppu.rendered(vram)[i] by {
        assert(i / 4 == y * 160 + x);
        assert((i / 4) % 160 == x);
        assert(i / 640 == y);
    }
}

/// The three bytes that a pixel is drawn from lie inside video RAM.
pub proof fn lemma_source_bounds(ppu: PpuView, vram: Seq<u8>, x: int, y: int)
    requires
        0 <= x < 160,
        0 <= y < 144,
    ensures
        0x1800 <= ppu.source_map_index(x, y) < 0x2000,
        0 <= ppu.source_row_index(vram, x, y) < 0x17FF,
{
}

/// A step after which LY equals LYC, with the LYC source enabled in STAT
/// bit 6, requests the STAT interrupt: the unit reports it, and the bus
/// latches it in bit 1 of the interrupt requests, once for the step.
pub proof fn law_lyc_interrupt(bus: BusView, cycles: u8)
    requires
        bus.wf(),
        bus.ppu.lcdc & 0x80 != 0,
        bus.ppu.stat & 0x40 != 0,
        bus.ppu.step(cycles as u32, bus.vram).0.ly == bus.ppu.lyc,
    ensures
        bus.ppu.step(cycles as u32, bus.vram).2,
        bus.step(cycles).iflag & 0x02 != 0,
        bus.step(cycles).ppu.stat & 0x04 != 0,
{
    lemma_request_bits(bus.iflag);
    lemma_request_bits(bus.iflag | 0x01);
    let ly = bus.ppu.step(cycles as u32, bus.vram).0.ly;
    let mode = bus.ppu.step(cycles as u32, bus.vram).0.mode;
    lemma_stat_match(bus.ppu.stat, mode);
}

/// With no STAT source enabled a step leaves bit 1 of the interrupt
/// requests as it was.
pub proof fn law_stat_disabled(bus: BusView, cycles: u8)
    requires
        bus.wf(),
        bus.ppu.stat & 0x78 == 0,
    ensures
        bus.step(cycles).iflag & 0x02 == bus.iflag & 0x02,
{
    lemma_request_bits(bus.iflag);
    lemma_request_bits(bus.iflag | 0x01);
    lemma_stat_enables(bus.ppu.stat);
}

/// STAT with the match bit set reads as matching.
proof fn lemma_stat_match(stat: u8, mode: u8)
    by (bit_vector)
    ensures
        ((stat & 0xF8) | 0x04u8 | (mode & 0x03)) & 0x04 != 0,
{
}

/// STAT without enable bits enables no source.
proof fn lemma_stat_enables(stat: u8)
    by (bit_vector)
    requires
        stat & 0x78 == 0,
    ensures
        stat & 0x40 == 0,
        stat & 0x20 == 0,
        stat & 0x10 == 0,
        stat & 0x08 == 0,
{
}

/// A write leaves a valid bus valid, whatever is written where.
pub broadcast proof fn law_write_keeps_valid(bus: BusView, addr: u16, v: u8)
    requires
        bus.wf(),
    ensures
        #[trigger] bus.write8(addr, v).wf(),
{
}

/// Fetches, pushes, pops, calls and returns leave a valid bus valid.
proof fn lemma_stack_keeps_valid(m: Machine, v: u16)
    requires
        m.bus.wf(),
    ensures
        m.push16(v).bus.wf(),
        m.pop16().0.bus.wf(),
        m.fetch8().0.bus.wf(),
        m.fetch16().0.bus.wf(),
        m.call(v).bus.wf(),
        m.ret().bus.wf(),
{
    broadcast use law_write_keeps_valid;

}

/// The instructions of block 0 leave a valid bus valid.
proof fn lemma_block0_keeps_valid(m: Machine, op: u8)
    requires
        m.bus.wf(),
    ensures
        m.block0(op).0.bus.wf(),
{
    broadcast use law_write_keeps_valid;

}

/// So do those of blocks 1 and 2 and of the prefixed table.
proof fn lemma_block12_keeps_valid(m: Machine, op: u8)
    requires
        m.bus.wf(),
    ensures
        m.block1(op).0.bus.wf(),
        m.block2(op).0.bus.wf(),
        m.cb_op(op).0.bus.wf(),
{
    broadcast use law_write_keeps_valid;

}

/// So do those of block 3.
proof fn lemma_block3_keeps_valid(m: Machine, op: u8)
    requires
        m.bus.wf(),
    ensures
        m.block3(op).0.bus.wf(),
{
    broadcast use law_write_keeps_valid;

    let y = ((op / 8) % 8) as int;
    lemma_stack_keeps_valid(m, 0);
    lemma_stack_keeps_valid(m, m.cpu.pc);
    lemma_stack_keeps_valid(m, (y * 8) as u16);
    lemma_stack_keeps_valid(m, m.cpu.stack_pair(y / 2));
    lemma_stack_keeps_valid(m.fetch16().0, m.fetch16().1);
    lemma_block12_keeps_valid(m.fetch8().0, m.fetch8().1);
}

/// A step of the processor leaves a valid bus valid, whether it succeeds or
/// not.
pub proof fn law_step_keeps_valid(m: Machine)
    requires
        m.bus.wf(),
    ensures
        m.step().0.bus.wf(),
{
    broadcast use law_write_keeps_valid;

    let woken = m.with_cpu(Cpu { halted: false, ..m.cpu });
    let f = woken.fetch8();
    lemma_block0_keeps_valid(f.0, f.1);
    lemma_block12_keeps_valid(f.0, f.1);
    lemma_block3_keeps_valid(f.0, f.1);
    let pending = m.pending();
    let bit = u8_trailing_zeros(pending);
    let acked = Machine {
        cpu: Cpu { halted: false, ime: false, ..m.cpu },
        bus: BusView { iflag: m.bus.iflag & !(1u8 << bit), ..m.bus },
    };
    lemma_stack_keeps_valid(acked, m.cpu.pc);
}

/// A step of the bus leaves it valid, and so does a whole tick.
pub proof fn law_tick_keeps_valid(m: Machine)
    requires
        m.bus.wf(),
    ensures
        forall|cycles: u8| #[trigger] m.bus.step(cycles).wf(),
        m.tick().0.bus.wf(),
{
    law_step_keeps_valid(m);
}

/// The rest of a frame leaves a valid machine valid.
pub proof fn law_run_keeps_valid(m: Machine, spent: int)
    requires
        m.bus.wf(),
    ensures
        m.run(spent).0.bus.wf(),
    decreases FRAME_CYCLES + 256 - spent,
{
    if spent < FRAME_CYCLES {
        law_tick_keeps_valid(m);
        lemma_step_takes_time(m);
        let t = m.tick();
        if t.1 is Ok {
            law_run_keeps_valid(t.0, spent + t.1->Ok_0);
        }
    }
}

/// A frame leaves a valid machine valid: LY below 154, the scanline clock
/// below 456, the frame at its full size.
pub proof fn law_frame_keeps_valid(m: Machine)
    requires
        m.bus.wf(),
    ensures
        m.run_frame().0.bus.wf(),
        m.run_frame().0.bus.ppu.ly <= 153,
{
    law_run_keeps_valid(m, 0);
}

} // verus!
