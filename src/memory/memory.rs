use vstd::prelude::*;

use crate::common::errors::EmulatorError;
use crate::cpu::CPU;
use crate::memory::bus::{Bus, MemView};

verus! {

/// Byte and little-endian word access to the CPU's address space.
pub trait Memory {
    /// The address space behind this accessor.
    spec fn memory(&self) -> MemView;

    fn read(&self, address: u16) -> (r: Result<u8, EmulatorError>)
        ensures
            r == self.memory().read(address),
    ;

    fn read_u16(&self, address: u16) -> (r: Result<u16, EmulatorError>)
        ensures
            r == self.memory().read_u16(address),
    ;

    fn write(&mut self, address: u16, value: u8) -> (r: Result<(), EmulatorError>)
        ensures
            match old(self).memory().write(address, value) {
                Ok(m) => r is Ok && final(self).memory() == m,
                Err(e) => r == Err::<(), EmulatorError>(e) && final(self).memory() == old(
                    self,
                ).memory(),
            },
    ;

    fn write_u16(&mut self, address: u16, value: u16) -> (r: Result<(), EmulatorError>)
        ensures
            (r, final(self).memory()) == old(self).memory().write_u16(address, value),
    ;
}

impl Memory for Bus {
    open spec fn memory(&self) -> MemView {
        self@
    }

    fn read(&self, address: u16) -> (r: Result<u8, EmulatorError>) {
        Bus::read(self, address)
    }

    fn read_u16(&self, address: u16) -> (r: Result<u16, EmulatorError>) {
        Bus::read_u16(self, address)
    }

    fn write(&mut self, address: u16, value: u8) -> (r: Result<(), EmulatorError>) {
        Bus::write(self, address, value)
    }

    fn write_u16(&mut self, address: u16, value: u16) -> (r: Result<(), EmulatorError>) {
        Bus::write_u16(self, address, value)
    }
}

impl Memory for CPU {
    open spec fn memory(&self) -> MemView {
        self@.mem
    }

    fn read(&self, address: u16) -> (r: Result<u8, EmulatorError>) {
        CPU::read(self, address)
    }

    fn read_u16(&self, address: u16) -> (r: Result<u16, EmulatorError>) {
        CPU::read_u16(self, address)
    }

    fn write(&mut self, address: u16, value: u8) -> (r: Result<(), EmulatorError>) {
        CPU::write(self, address, value)
    }

    fn write_u16(&mut self, address: u16, value: u16) -> (r: Result<(), EmulatorError>) {
        CPU::write_u16(self, address, value)
    }
}

} // verus!
