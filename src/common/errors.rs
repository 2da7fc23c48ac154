use vstd::prelude::*;

use crate::cpu::types::AddressingMode;

verus! {

/// Every way in which loading or running a program can fail.
#[derive(Debug, Clone, Copy, PartialEq, Eq, Structural)]
pub enum EmulatorError {
    /// The fetched byte has no entry in the opcode table.
    InvalidOpcode(u8),
    /// The opcode is in the table but has no semantics wired.
    UnimplementedOpcode(u8),
    /// The addressing mode has no effective address.
    UnimplementedAddressingMode(AddressingMode),
    /// A read or write outside every mapped range.
    AccessViolation(u16),
    /// Program ROM was accessed before a cartridge was installed.
    RomNotLoaded,
    /// The buffer is not an iNES image this core accepts.
    InvalidNesFile,
}

} // verus!
