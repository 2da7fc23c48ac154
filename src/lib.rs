//! A MOS 6502 core as used by the NES: status register, opcode table,
//! addressing modes, instruction semantics, memory bus and iNES loader.

pub mod cartridge;
pub mod common;
pub mod cpu;
pub mod memory;
pub mod vm;
