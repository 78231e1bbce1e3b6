use vstd::prelude::*;
use vstd::arithmetic::div_mod::lemma_fundamental_div_mod_converse;
use vstd::array::group_array_axioms;
use crate::cart::{Cartridge, rom_byte};
use crate::ppu::{Ppu, PpuView};

verus! {

/// The eight buttons of the pad; `true` is pressed.
#[derive(Copy, Clone, Debug, PartialEq, Eq, Structural)]
pub struct JoypadState {
    pub up: bool,
    pub down: bool,
    pub left: bool,
    pub right: bool,
    pub a: bool,
    pub b: bool,
    pub start: bool,
    pub select: bool,
}

/// One of the eight keys of the pad.
#[derive(Copy, Clone, Debug, PartialEq, Eq, Structural)]
pub enum Button {
    Up,
    Down,
    Left,
    Right,
    A,
    B,
    Start,
    Select,
}

impl JoypadState {
    /// The pad with `button` pressed or released and the other keys as they
    /// are.
    pub open spec fn with_button(self, button: Button, pressed: bool) -> JoypadState {
        match button {
            Button::Up => JoypadState { up: pressed, ..self },
            Button::Down => JoypadState { down: pressed, ..self },
            Button::Left => JoypadState { left: pressed, ..self },
            Button::Right => JoypadState { right: pressed, ..self },
            Button::A => JoypadState { a: pressed, ..self },
            Button::B => JoypadState { b: pressed, ..self },
            Button::Start => JoypadState { start: pressed, ..self },
            Button::Select => JoypadState { select: pressed, ..self },
        }
    }

    /// Presses or releases one key.
    pub fn set_button(&mut self, button: Button, pressed: bool)
        ensures
            *final(self) == old(self).with_button(button, pressed),
    {
        match button {
            Button::Up => {
                self.up = pressed;
            },
            Button::Down => {
                self.down = pressed;
            },
            Button::Left => {
                self.left = pressed;
            },
            Button::Right => {
                self.right = pressed;
            },
            Button::A => {
                self.a = pressed;
            },
            Button::B => {
                self.b = pressed;
            },
            Button::Start => {
                self.start = pressed;
            },
            Button::Select => {
                self.select = pressed;
            },
        }
    }

    /// The pad with no button pressed.
    pub open spec fn released() -> JoypadState {
        JoypadState {
            up: false,
            down: false,
            left: false,
            right: false,
            a: false,
            b: false,
            start: false,
            select: false,
        }
    }

    /// The direction keys as bits 0 to 3: right, left, up, down.
    pub open spec fn dpad_mask(self) -> u8 {
        (if self.right { 0x01u8 } else { 0x00u8 }) | (if self.left { 0x02u8 } else { 0x00u8 }) | (
        if self.up { 0x04u8 } else { 0x00u8 }) | (if self.down { 0x08u8 } else { 0x00u8 })
    }

    /// The action keys as bits 0 to 3: a, b, select, start.
    pub open spec fn button_mask(self) -> u8 {
        (if self.a { 0x01u8 } else { 0x00u8 }) | (if self.b { 0x02u8 } else { 0x00u8 }) | (
        if self.select { 0x04u8 } else { 0x00u8 }) | (if self.start { 0x08u8 } else { 0x00u8 })
    }
}

impl Default for JoypadState {
    fn default() -> (r: JoypadState)
        ensures
            r == JoypadState::released(),
    {
        JoypadState {
            up: false,
            down: false,
            left: false,
            right: false,
            a: false,
            b: false,
            start: false,
            select: false,
        }
    }
}

/// The memory bus: it owns every store and register that the processor can
/// address, the pixel-processing unit and the timer among them.
pub struct Bus {
    pub cart: Cartridge,
    /// Work RAM, 0xC000 to 0xDFFF, echoed at 0xE000 to 0xFDFF.
    pub wram: [u8; 0x2000],
    /// High RAM, 0xFF80 to 0xFFFE.
    pub hram: [u8; 0x007F],
    /// Video RAM, 0x8000 to 0x9FFF.
    pub vram: [u8; 0x2000],
    /// Object attribute memory, 0xFE00 to 0xFE9F.
    pub oam: [u8; 0x00A0],
    pub ppu: Ppu,
    pub joypad: JoypadState,
    /// Bits 4 and 5 of the pad register, as last written.
    pub joyp_select: u8,
    /// Interrupt enable, 0xFFFF.
    pub ie: u8,
    /// Interrupt requests, 0xFF0F.
    pub iflag: u8,
    /// The divider; its high byte reads at 0xFF04.
    pub div: u16,
    pub tima: u8,
    pub tma: u8,
    pub tac: u8,
    /// Cycles counted towards the next increment of TIMA.
    pub timer_counter: u32,
}

/// The mathematical value of a `Bus`: each store as a sequence of bytes.
pub struct BusView {
    pub rom: Seq<u8>,
    pub wram: Seq<u8>,
    pub hram: Seq<u8>,
    pub vram: Seq<u8>,
    pub oam: Seq<u8>,
    pub ppu: PpuView,
    pub joypad: JoypadState,
    pub joyp_select: u8,
    pub ie: u8,
    pub iflag: u8,
    pub div: u16,
    pub tima: u8,
    pub tma: u8,
    pub tac: u8,
    pub timer_counter: u32,
}

/// What the pad register reads. Bits 6 and 7 read 1, bits 4 and 5 as
/// written. A low bit reads 0 where a key of a selected group is pressed; a
/// group is selected by a 0 in bit 4 (directions) or bit 5 (actions).
pub open spec fn joyp_byte(select: u8, pad: JoypadState) -> u8 {
    let dpad = if select & 0x10 == 0 {
        pad.dpad_mask()
    } else {
        0x00u8
    };
    let buttons = if select & 0x20 == 0 {
        pad.button_mask()
    } else {
        0x00u8
    };
    (0xCF | (select & 0x30)) & !(dpad | buttons)
}

/// Cycles between two increments of TIMA, chosen by bits 0 and 1 of TAC.
pub open spec fn timer_period(tac: u8) -> int {
    let sel = tac & 0x03;
    if sel == 0 {
        1024
    } else if sel == 1 {
        16
    } else if sel == 2 {
        64
    } else {
        256
    }
}

/// TIMA after `n` increments, and whether it overflowed on the way. An
/// increment of 0xFF reloads TIMA from `tma`.
pub open spec fn tima_after(tima: u8, tma: u8, n: nat) -> (u8, bool)
    decreases n,
{
    if n == 0 {
        (tima, false)
    } else if tima == 0xFF {
        (tima_after(tma, tma, (n - 1) as nat).0, true)
    } else {
        tima_after((tima + 1) as u8, tma, (n - 1) as nat)
    }
}

/// One more increment of TIMA, applied last.
proof fn lemma_tima_next(tima: u8, tma: u8, n: nat)
    ensures
        tima_after(tima, tma, n + 1) == ({
            let r = tima_after(tima, tma, n);
            if r.0 == 0xFF {
                (tma, true)
            } else {
                ((r.0 + 1) as u8, r.1)
            }
        }),
    decreases n,
{
    reveal_with_fuel(tima_after, 3);
    if n > 0 {
        if tima == 0xFF {
            lemma_tima_next(tma, tma, (n - 1) as nat);
        } else {
            lemma_tima_next((tima + 1) as u8, tma, (n - 1) as nat);
        }
    }
}

impl BusView {
    /// Every store has its size, and the pixel-processing unit is valid.
    pub open spec fn wf(self) -> bool {
        &&& self.wram.len() == 0x2000
        &&& self.hram.len() == 0x7F
        &&& self.vram.len() == 0x2000
        &&& self.oam.len() == 0xA0
        &&& self.ppu.wf()
    }

    /// The byte that a read of `addr` returns.
    pub open spec fn read8(self, addr: u16) -> u8 {
        if addr <= 0x7FFF {
            rom_byte(self.rom, addr)
        } else if addr <= 0x9FFF {
            self.vram[addr - 0x8000]
        } else if 0xC000 <= addr <= 0xDFFF {
            self.wram[addr - 0xC000]
        } else if 0xE000 <= addr <= 0xFDFF {
            self.wram[addr - 0xE000]
        } else if 0xFE00 <= addr <= 0xFE9F {
            self.oam[addr - 0xFE00]
        } else if addr == 0xFF00 {
            joyp_byte(self.joyp_select, self.joypad)
        } else if addr == 0xFF04 {
            (self.div >> 8) as u8
        } else if addr == 0xFF05 {
            self.tima
        } else if addr == 0xFF06 {
            self.tma
        } else if addr == 0xFF07 {
            self.tac | 0xF8
        } else if addr == 0xFF0F {
            self.iflag
        } else if addr == 0xFF40 {
            self.ppu.lcdc
        } else if addr == 0xFF41 {
            self.ppu.stat
        } else if addr == 0xFF42 {
            self.ppu.scy
        } else if addr == 0xFF43 {
            self.ppu.scx
        } else if addr == 0xFF44 {
            self.ppu.ly
        } else if addr == 0xFF45 {
            self.ppu.lyc
        } else if addr == 0xFF47 {
            self.ppu.bgp
        } else if addr == 0xFF4A {
            self.ppu.wy
        } else if addr == 0xFF4B {
            self.ppu.wx
        } else if 0xFF80 <= addr <= 0xFFFE {
            self.hram[addr - 0xFF80]
        } else if addr == 0xFFFF {
            self.ie
        } else {
            0xFF
        }
    }

    /// Object attribute memory after a transfer from page `page`: byte `i`
    /// is what the bus read at `page * 256 + i` before the transfer.
    pub open spec fn dma_source(self, page: u8) -> Seq<u8> {
        Seq::new(0xA0, |i: int| self.read8((page * 256 + i) as u16))
    }

    /// The bus after a write of `v` to `addr`.
    pub open spec fn write8(self, addr: u16, v: u8) -> BusView {
        if 0x8000 <= addr <= 0x9FFF {
            BusView { vram: self.vram.update(addr - 0x8000, v), ..self }
        } else if 0xC000 <= addr <= 0xDFFF {
            BusView { wram: self.wram.update(addr - 0xC000, v), ..self }
        } else if 0xE000 <= addr <= 0xFDFF {
            BusView { wram: self.wram.update(addr - 0xE000, v), ..self }
        } else if 0xFE00 <= addr <= 0xFE9F {
            BusView { oam: self.oam.update(addr - 0xFE00, v), ..self }
        } else if addr == 0xFF00 {
            BusView { joyp_select: v & 0x30, ..self }
        } else if addr == 0xFF04 {
            BusView { div: 0, ..self }
        } else if addr == 0xFF05 {
            BusView { tima: v, ..self }
        } else if addr == 0xFF06 {
            BusView { tma: v, ..self }
        } else if addr == 0xFF07 {
            BusView { tac: v & 0x07, ..self }
        } else if addr == 0xFF0F {
            BusView { iflag: v, ..self }
        } else if addr == 0xFF40 {
            BusView { ppu: PpuView { lcdc: v, ..self.ppu }, ..self }
        } else if addr == 0xFF41 {
            BusView { ppu: PpuView { stat: (self.ppu.stat & 0x07) | (v & 0x78), ..self.ppu }, ..self }
        } else if addr == 0xFF42 {
            BusView { ppu: PpuView { scy: v, ..self.ppu }, ..self }
        } else if addr == 0xFF43 {
            BusView { ppu: PpuView { scx: v, ..self.ppu }, ..self }
        } else if addr == 0xFF44 {
            BusView { ppu: PpuView { ly: 0, ..self.ppu }, ..self }
        } else if addr == 0xFF45 {
            BusView { ppu: PpuView { lyc: v, ..self.ppu }, ..self }
        } else if addr == 0xFF46 {
            BusView { oam: self.dma_source(v), ..self }
        } else if addr == 0xFF47 {
            BusView { ppu: PpuView { bgp: v, ..self.ppu }, ..self }
        } else if addr == 0xFF4A {
            BusView { ppu: PpuView { wy: v, ..self.ppu }, ..self }
        } else if addr == 0xFF4B {
            BusView { ppu: PpuView { wx: v, ..self.ppu }, ..self }
        } else if 0xFF80 <= addr <= 0xFFFE {
            BusView { hram: self.hram.update(addr - 0xFF80, v), ..self }
        } else if addr == 0xFFFF {
            BusView { ie: v, ..self }
        } else {
            self
        }
    }

    /// The bus after the timer has counted `cycles` cycles. The divider
    /// gains four per cycle, wrapping at 16 bits. While bit 2 of TAC is set,
    /// TIMA is incremented once for every full period that the counter
    /// holds, and an overflow requests the timer interrupt.
    pub open spec fn tick_timer(self, cycles: u32) -> BusView {
        let div = ((self.div + cycles * 4) % 0x1_0000) as u16;
        if self.tac & 0x04 == 0 {
            BusView { div, ..self }
        } else {
            let period = timer_period(self.tac);
            let total = self.timer_counter + cycles;
            let ticked = tima_after(self.tima, self.tma, (total / period) as nat);
            BusView {
                div,
                timer_counter: (total % period) as u32,
                tima: ticked.0,
                iflag: if ticked.1 {
                    self.iflag | 0x04
                } else {
                    self.iflag
                },
                ..self
            }
        }
    }

    /// The bus after `cycles` cycles: the pixel-processing unit steps and
    /// its two signals are latched into bits 0 and 1 of the interrupt
    /// requests, then the timer counts.
    pub open spec fn step(self, cycles: u8) -> BusView {
        let stepped = self.ppu.step(cycles as u32, self.vram);
        let with_vblank = if stepped.1 {
            self.iflag | 0x01
        } else {
            self.iflag
        };
        let with_stat = if stepped.2 {
            with_vblank | 0x02
        } else {
            with_vblank
        };
        (BusView { ppu: stepped.0, iflag: with_stat, ..self }).tick_timer(cycles as u32)
    }
}

impl Bus {
    pub open spec fn view(&self) -> BusView {
        BusView {
            rom: self.cart.rom@,
            wram: self.wram@,
            hram: self.hram@,
            vram: self.vram@,
            oam: self.oam@,
            ppu: self.ppu@,
            joypad: self.joypad,
            joyp_select: self.joyp_select,
            ie: self.ie,
            iflag: self.iflag,
            div: self.div,
            tima: self.tima,
            tma: self.tma,
            tac: self.tac,
            timer_counter: self.timer_counter,
        }
    }

    pub open spec fn wf(&self) -> bool {
        self@.wf()
    }

    /// The bus at power-on around the cartridge image `rom`.
    pub open spec fn initial(rom: Seq<u8>) -> BusView {
        BusView {
            rom,
            wram: Seq::new(0x2000, |i: int| 0u8),
            hram: Seq::new(0x7F, |i: int| 0u8),
            vram: Seq::new(0x2000, |i: int| 0u8),
            oam: Seq::new(0xA0, |i: int| 0u8),
            ppu: PpuView::initial(),
            joypad: JoypadState::released(),
            joyp_select: 0,
            ie: 0,
            iflag: 0,
            div: 0,
            tima: 0,
            tma: 0,
            tac: 0,
            timer_counter: 0,
        }
    }

    /// A bus with every store zeroed and every register at its power-on
    /// value.
    pub fn new(cart: Cartridge) -> (r: Bus)
        ensures
            r@ == Bus::initial(cart.rom@),
            r.wf(),
    {
        broadcast use group_array_axioms;

        let r = Bus {
            cart,
            wram: [0; 0x2000],
            hram: [0; 0x007F],
            vram: [0; 0x2000],
            oam: [0; 0x00A0],
            ppu: Ppu::new(),
            joypad: JoypadState::default(),
            joyp_select: 0x00,
            ie: 0,
            iflag: 0,
            div: 0,
            tima: 0,
            tma: 0,
            tac: 0,
            timer_counter: 0,
        };
        assert(r.wram@ =~= Bus::initial(cart.rom@).wram);
        assert(r.hram@ =~= Bus::initial(cart.rom@).hram);
        assert(r.vram@ =~= Bus::initial(cart.rom@).vram);
        assert(r.oam@ =~= Bus::initial(cart.rom@).oam);
        r
    }

    /// Whether the bus is valid, which it is when its pixel-processing unit
    /// is.
    pub fn is_valid(&self) -> (ok: bool)
        ensures
            ok == self.wf(),
    {
        broadcast use group_array_axioms;

        self.ppu.is_valid()
    }

    /// The pad register as the processor reads it.
    pub fn read_joyp(&self) -> (r: u8)
        ensures
            r == joyp_byte(self.joyp_select, self.joypad),
    {
        let mut pressed: u8 = 0;
        if self.joyp_select & 0x10 == 0 {
            let right: u8 = if self.joypad.right { 0x01 } else { 0x00 };
            let left: u8 = if self.joypad.left { 0x02 } else { 0x00 };
            let up: u8 = if self.joypad.up { 0x04 } else { 0x00 };
            let down: u8 = if self.joypad.down { 0x08 } else { 0x00 };
            pressed = right | left | up | down;
        }
        let mut buttons: u8 = 0;
        if self.joyp_select & 0x20 == 0 {
            let ka: u8 = if self.joypad.a { 0x01 } else { 0x00 };
            let kb: u8 = if self.joypad.b { 0x02 } else { 0x00 };
            let select: u8 = if self.joypad.select { 0x04 } else { 0x00 };
            let start: u8 = if self.joypad.start { 0x08 } else { 0x00 };
            buttons = ka | kb | select | start;
        }
        (0xCF | (self.joyp_select & 0x30)) & !(pressed | buttons)
    }

    /// Reads the byte at `addr`; an address that nothing answers reads 0xFF.
    pub fn read8(&self, addr: u16) -> (r: u8)
        ensures
            r == self@.read8(addr),
    {
        broadcast use group_array_axioms;

        match addr {
            0x0000..=0x7FFF => self.cart.read(addr),
            0x8000..=0x9FFF => self.vram[(addr - 0x8000) as usize],
            0xC000..=0xDFFF => self.wram[(addr - 0xC000) as usize],
            0xE000..=0xFDFF => self.wram[(addr - 0xE000) as usize],
            0xFE00..=0xFE9F => self.oam[(addr - 0xFE00) as usize],
            0xFF00 => self.read_joyp(),
            0xFF04 => (self.div >> 8) as u8,
            0xFF05 => self.tima,
            0xFF06 => self.tma,
            0xFF07 => self.tac | 0xF8,
            0xFF0F => self.iflag,
            0xFF40 => self.ppu.lcdc,
            0xFF41 => self.ppu.stat,
            0xFF42 => self.ppu.scy,
            0xFF43 => self.ppu.scx,
            0xFF44 => self.ppu.ly,
            0xFF45 => self.ppu.lyc,
            0xFF47 => self.ppu.bgp,
            0xFF4A => self.ppu.wy,
            0xFF4B => self.ppu.wx,
            0xFF80..=0xFFFE => self.hram[(addr - 0xFF80) as usize],
            0xFFFF => self.ie,
            _ => 0xFF,
        }
    }

    /// Copies 160 bytes from page `page` into object attribute memory, at
    /// once.
    fn dma(&mut self, page: u8)
        ensures
            final(self)@ == (BusView { oam: old(self)@.dma_source(page), ..old(self)@ }),
    {
        broadcast use group_array_axioms;

        let ghost pre = self@;
        let base: u16 = (page as u16) << 8;
        assert(base == page * 256) by (bit_vector)
            requires
                base == (page as u16) << 8,
        ;
        let mut i: u16 = 0;
        while i < 0xA0
            invariant
                i <= 0xA0,
                base == page * 256,
                self@ == (BusView { oam: self.oam@, ..pre }),
                forall|j: int| 0 <= j < i ==> self.oam@[j] == pre.read8((page * 256 + j) as u16),
                forall|j: int| i <= j < 0xA0 ==> self.oam@[j] == pre.oam[j],
            decreases 0xA0 - i,
        {
            let data: u8 = self.read8(base + i);
            self.oam[i as usize] = data;
            i += 1;
        }
        assert(self.oam@ =~= pre.dma_source(page));
    }

    /// Writes `v` to `addr`. Registers keep only their writable bits; a
    /// write to the divider or to LY resets it; a write to 0xFF46 starts a
    /// transfer into object attribute memory; a write that nothing takes is
    /// dropped.
    pub fn write8(&mut self, addr: u16, v: u8)
        ensures
            final(self)@ == old(self)@.write8(addr, v),
            old(self).wf() ==> final(self).wf(),
    {
        broadcast use group_array_axioms;

        match addr {
            0x8000..=0x9FFF => {
                self.vram[(addr - 0x8000) as usize] = v;
            },
            0xC000..=0xDFFF => {
                self.wram[(addr - 0xC000) as usize] = v;
            },
            0xE000..=0xFDFF => {
                self.wram[(addr - 0xE000) as usize] = v;
            },
            0xFE00..=0xFE9F => {
                self.oam[(addr - 0xFE00) as usize] = v;
            },
            0xFF00 => {
                self.joyp_select = v & 0x30;
            },
            0xFF04 => {
                self.div = 0;
            },
            0xFF05 => {
                self.tima = v;
            },
            0xFF06 => {
                self.tma = v;
            },
            0xFF07 => {
                self.tac = v & 0x07;
            },
            0xFF0F => {
                self.iflag = v;
            },
            0xFF40 => {
                self.ppu.lcdc = v;
            },
            0xFF41 => {
                self.ppu.stat = (self.ppu.stat & 0x07) | (v & 0x78);
            },
            0xFF42 => {
                self.ppu.scy = v;
            },
            0xFF43 => {
                self.ppu.scx = v;
            },
            0xFF44 => {
                self.ppu.ly = 0;
            },
            0xFF45 => {
                self.ppu.lyc = v;
            },
            0xFF46 => {
                self.dma(v);
            },
            0xFF47 => {
                self.ppu.bgp = v;
            },
            0xFF4A => {
                self.ppu.wy = v;
            },
            0xFF4B => {
                self.ppu.wx = v;
            },
            0xFF80..=0xFFFE => {
                self.hram[(addr - 0xFF80) as usize] = v;
            },
            0xFFFF => {
                self.ie = v;
            },
            _ => {},
        }
    }

    /// Cycles between two increments of TIMA under the current TAC.
    pub fn timer_freq_divider(&self) -> (r: u32)
        ensures
            r == timer_period(self.tac),
    {
        match self.tac & 0x03 {
            0 => 1024,
            1 => 16,
            2 => 64,
            _ => 256,
        }
    }

    /// Lets the timer count `cycles` cycles.
    pub fn tick_timer(&mut self, cycles: u32)
        ensures
            final(self)@ == old(self)@.tick_timer(cycles),
            final(self).ppu == old(self).ppu,
    {
        let ghost pre = self@;
        let inc: u16 = ((cycles % 0x4000) * 4) as u16;
        self.div = self.div.wrapping_add(inc);
        assert(self.div as int == (pre.div + cycles * 4) % 0x1_0000);
        if self.tac & 0x04 == 0 {
            return ;
        }
        let period: u64 = self.timer_freq_divider() as u64;
        let mut counter: u64 = self.timer_counter as u64 + cycles as u64;
        let ghost total: int = counter as int;
        let ghost flag: u8 = pre.iflag;
        let ghost mut done: nat = 0;
        let mut overflowed: bool = false;
        while counter >= period
            invariant
                period == timer_period(pre.tac),
                self.ppu == old(self).ppu,
                total == pre.timer_counter + cycles,
                counter + done * period == total,
                flag == pre.iflag,
                (self.tima, overflowed) == tima_after(pre.tima, pre.tma, done),
                self@ == (BusView {
                    tima: self.tima,
                    iflag: if overflowed {
                        pre.iflag | 0x04
                    } else {
                        pre.iflag
                    },
                    div: ((pre.div + cycles * 4) % 0x1_0000) as u16,
                    ..pre
                }),
            decreases counter,
        {
            proof {
                lemma_tima_next(pre.tima, pre.tma, done);
                assert((counter - period) + (done + 1) * period == total) by (nonlinear_arith)
                    requires
                        counter + done * period == total,
                ;
                assert((flag | 0x04) | 0x04 == flag | 0x04) by (bit_vector);
                done = done + 1;
            }
            counter -= period;
            if self.tima == 0xFF {
                self.tima = self.tma;
                self.iflag |= 0x04;
                overflowed = true;
            } else {
                self.tima = self.tima + 1;
            }
        }
        proof {
            lemma_fundamental_div_mod_converse(total, period as int, done as int, counter as int);
        }
        self.timer_counter = counter as u32;
    }

    /// Advances the pixel-processing unit and the timer by `cycles` cycles
    /// and latches the interrupts that they request.
    pub fn step(&mut self, cycles: u8)
        requires
            old(self).wf(),
        ensures
            final(self)@ == old(self)@.step(cycles),
            final(self).wf(),
    {
        broadcast use group_array_axioms;

        let (vblank, stat_irq) = self.ppu.step(cycles as u32, &self.vram);
        if vblank {
            self.iflag |= 0x01;
        }
        if stat_irq {
            self.iflag |= 0x02;
        }
        self.tick_timer(cycles as u32);
    }
}

} // verus!
