use vstd::prelude::*;
use crate::bus::{Bus, BusView, JoypadState};
use crate::cart::{Cartridge, MIN_ROM_LEN};
use crate::cpu::Cpu;
use crate::error::EmuError;
use crate::machine::Machine;
use crate::timing::lemma_step_takes_time;

verus! {

/// Cycles in one frame: 154 scanlines of 456 cycles.
pub const FRAME_CYCLES: u32 = 70224;

/// The whole machine: a processor and the bus it drives.
pub struct Emulator {
    pub cpu: Cpu,
    pub bus: Bus,
}

impl Machine {
    /// The machine at power-on around a cartridge image.
    pub open spec fn power_on(rom: Seq<u8>) -> Machine {
        Machine::at(Cpu::initial(), Bus::initial(rom))
    }

    /// One tick: the processor steps, then the bus advances by the cycles
    /// that the step took. After a failed step the bus does not advance.
    pub open spec fn tick(self) -> (Machine, Result<u8, EmuError>) {
        let s = self.step();
        match s.1 {
            Ok(cycles) => (Machine { bus: s.0.bus.step(cycles), ..s.0 }, s.1),
            Err(_) => s,
        }
    }

    /// The rest of a frame of which `spent` cycles have passed: ticks until
    /// the frame's cycles are used up. A failed step ends the frame and is
    /// reported.
    pub open spec fn run(self, spent: int) -> (Machine, Result<(), EmuError>)
        decreases FRAME_CYCLES + 256 - spent,
    {
        if spent >= FRAME_CYCLES {
            (self, Ok(()))
        } else {
            let t = self.tick();
            match t.1 {
                Ok(cycles) => {
                    proof {
                        lemma_step_takes_time(self);
                    }
                    t.0.run(spent + cycles)
                },
                Err(e) => (t.0, Err(e)),
            }
        }
    }

    /// One whole frame.
    pub open spec fn run_frame(self) -> (Machine, Result<(), EmuError>) {
        self.run(0)
    }
}

impl Emulator {
    pub open spec fn view(&self) -> Machine {
        Machine::at(self.cpu, self.bus@)
    }

    pub open spec fn wf(&self) -> bool {
        self.bus.wf()
    }

    /// Builds the machine around a cartridge image, refusing an image that
    /// is too short to hold a header.
    pub fn new(rom: Vec<u8>) -> (r: Result<Emulator, EmuError>)
        ensures
            rom@.len() >= MIN_ROM_LEN ==> r is Ok && r->Ok_0@ == Machine::power_on(rom@)
                && r->Ok_0.wf(),
            rom@.len() < MIN_ROM_LEN ==> r is Err && r->Err_0 == EmuError::RomLoad,
    {
        match Cartridge::load(rom) {
            Ok(cart) => Ok(Emulator { cpu: Cpu::new(), bus: Bus::new(cart) }),
            Err(e) => Err(e),
        }
    }

    /// Whether the machine is valid, as `new` builds it and every operation
    /// keeps it.
    pub fn is_valid(&self) -> (ok: bool)
        ensures
            ok == self.wf(),
    {
        self.bus.is_valid()
    }

    /// Runs one frame: ticks until 70224 cycles have passed. Stops at a
    /// byte that is no instruction and reports it; the machine then stands
    /// where the step failed.
    pub fn run_frame(&mut self) -> (r: Result<(), EmuError>)
        requires
            old(self).wf(),
        ensures
            (final(self)@, r) == old(self)@.run_frame(),
            final(self).wf(),
    {
        let mut cycles: u32 = 0;
        while cycles < FRAME_CYCLES
            invariant
                self.wf(),
                cycles < FRAME_CYCLES + 256,
                old(self)@.run_frame() == self@.run(cycles as int),
            decreases FRAME_CYCLES + 256 - cycles,
        {
            proof {
                lemma_step_takes_time(self@);
            }
            let c: u8 = match self.cpu.step(&mut self.bus) {
                Ok(c) => c,
                Err(e) => {
                    return Err(e);
                },
            };
            self.bus.step(c);
            cycles += c as u32;
        }
        Ok(())
    }

    /// The latest frame: 160 x 144 pixels, four bytes each, row by row.
    pub fn framebuffer_rgba(&self) -> (r: &[u8])
        ensures
            r@ == self@.bus.ppu.fb,
    {
        self.bus.ppu.framebuffer_rgba()
    }

    /// Replaces the state of the pad.
    pub fn set_joypad(&mut self, s: JoypadState)
        ensures
            final(self)@ == (Machine {
                bus: BusView { joypad: s, ..old(self)@.bus },
                ..old(self)@
            }),
            final(self).wf() == old(self).wf(),
    {
        self.bus.joypad = s;
    }
}

} // verus!
