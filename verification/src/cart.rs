use vstd::prelude::*;
use crate::error::EmuError;

verus! {

/// The smallest image that holds a complete cartridge header.
pub const MIN_ROM_LEN: usize = 0x150;

/// A fixed-ROM cartridge: the image, never written after loading.
#[derive(Clone)]
pub struct Cartridge {
    pub rom: Vec<u8>,
}

/// The byte that a ROM image answers at `addr`: the image's byte, or 0xFF
/// past its end.
pub open spec fn rom_byte(rom: Seq<u8>, addr: u16) -> u8 {
    if addr < rom.len() {
        rom[addr as int]
    } else {
        0xFF
    }
}

impl Cartridge {
    /// A loaded cartridge holds at least a header.
    pub open spec fn wf(&self) -> bool {
        self.rom@.len() >= MIN_ROM_LEN
    }

    /// Takes ownership of an image, refusing one that is too short to hold a
    /// header.
    pub fn load(rom: Vec<u8>) -> (r: Result<Cartridge, EmuError>)
        ensures
            rom@.len() >= MIN_ROM_LEN ==> r == Ok::<Cartridge, EmuError>(Cartridge { rom }),
            r matches Ok(cart) ==> cart.wf(),
            rom@.len() < MIN_ROM_LEN ==> r == Err::<Cartridge, EmuError>(EmuError::RomLoad),
    {
        if rom.len() < MIN_ROM_LEN {
            return Err(EmuError::RomLoad);
        }
        Ok(Cartridge { rom })
    }

    /// Reads one byte of the image; addresses past the end read 0xFF.
    pub fn read(&self, addr: u16) -> (r: u8)
        ensures
            r == rom_byte(self.rom@, addr),
    {
        let i: usize = addr as usize;
        if i < self.rom.len() {
            self.rom[i]
        } else {
            0xFF
        }
    }
}

} // verus!
