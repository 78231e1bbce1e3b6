//! A verified core for an emulator of the first monochrome 8-bit handheld console:
//! the instruction interpreter, the memory bus with its divider and timer,
//! the pixel-processing unit, and the frame loop that ties them together.
//!
//! Every executable function carries a contract over a mathematical model of
//! the machine (`BusView`, `PpuView`, `Machine`), and the laws that relate
//! several operations are stated as proof functions in `laws`.

pub mod bits;
pub mod error;
pub mod alu;
pub mod cart;
pub mod ppu;
pub mod bus;
pub mod cpu;
pub mod machine;
pub mod timing;
pub mod emu;
pub mod laws;

pub use alu::Flags;
pub use bus::{Bus, Button, JoypadState};
pub use cart::Cartridge;
pub use cpu::Cpu;
pub use emu::Emulator;
pub use error::EmuError;
pub use ppu::Ppu;
