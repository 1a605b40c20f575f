//! Core of a Game Boy Advance emulator: an ARM7TDMI interpreter, the system bus
//! with its memory map and wait states, the scanline-driven graphics unit, the
//! interrupt controller and the frame loop that ties them together.
//!
//! Every function in this crate carries a contract that Verus proves; the few
//! calls into other crates are confined to small functions whose contracts are
//! stated from those crates' documentation.

pub mod arm7tdmi;
pub mod arrays;
pub mod bits;
pub mod bus;
pub mod cartridge;
pub mod debugger;
pub mod disass;
pub mod endian;
pub mod gba;
pub mod gpio;
pub mod gpu;
pub mod input;
pub mod interrupt;
pub mod iodev;
pub mod keypad;
pub mod sysbus;
pub mod util;
