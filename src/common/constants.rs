use vstd::prelude::*;

verus! {

/// Bytes of CPU work RAM; the window `0x0000..=0x1FFF` mirrors it.
pub const RAM_SIZE: usize = 2048;

pub const RAM_START: u16 = 0x0000;

pub const RAM_END: u16 = 0x1FFF;

pub const PPU_START: u16 = 0x2000;

pub const PPU_END: u16 = 0x3FFF;

pub const PRG_ROM_START: u16 = 0x8000;

pub const PRG_ROM_END: u16 = 0xFFFF;

/// Base of the hardware stack page.
pub const STACK_START: u16 = 0x0100;

pub const STACK_POINTER_INIT: u8 = 0xFF;

/// Location of the interrupt vector read by `BRK`.
pub const IRQ_VECTOR: u16 = 0xFFFE;

/// Location of the reset vector read by `reset`.
pub const PC_START_ADDRESS: u16 = 0xFFFC;

pub const PRG_ROM_PAGE_SIZE: usize = 16384;

pub const CHR_ROM_PAGE_SIZE: usize = 8192;

pub const NES_HEADER_SIZE: usize = 16;

pub const NES_TRAINER_SIZE: usize = 512;

} // verus!
