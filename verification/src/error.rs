use vstd::prelude::*;

verus! {

/// The two ways in which the core can fail.
#[derive(Debug, Clone, Copy, PartialEq, Eq, Structural)]
pub enum EmuError {
    /// The cartridge image is shorter than the 0x150 bytes of a header.
    RomLoad,
    /// The interpreter fetched a byte that is no instruction.
    UnimplementedOpcode {
        /// The byte that was fetched.
        op: u8,
        /// The address it was fetched from.
        pc: u16,
    },
}

} // verus!
