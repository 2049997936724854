//! Core of a Virtual Boy emulator: a V810 CPU bound to a memory-mapped bus
//! that routes accesses to work RAM, cartridge ROM, the video and sound
//! stubs, and a small bank of hardware control registers.

pub mod bits;
pub mod errors;
pub mod instruction;
pub mod interconnect;
pub mod ram;
pub mod rom;
pub mod v810;
pub mod virtualboy;
pub mod vip;
pub mod vsu;
