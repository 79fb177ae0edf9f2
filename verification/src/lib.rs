//! Cycle-accurate NES core: a 6502-variant CPU interpreter, a dot-stepped
//! PPU state machine, the bus fabric that links them to a cartridge, and a
//! top-level scheduler that drives three PPU dots per CPU cycle.

pub mod cpu;
pub mod interrupt;
pub mod memory_map;
pub mod nes;
pub mod ppu;
pub mod rom;
pub mod types;

pub use nes::NES;
pub use rom::ROM;
pub use types::{FlatMemory, Memory, Mirroring};
