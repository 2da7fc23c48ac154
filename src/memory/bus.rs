use vstd::prelude::*;

use crate::cartridge::rom::{Rom, RomView};
use crate::common::constants::{PPU_END, PRG_ROM_PAGE_SIZE, PRG_ROM_START, RAM_END, RAM_SIZE};
use crate::common::errors::EmulatorError;

verus! {

/// The CPU's address space as mathematical values: work RAM and the
/// installed cartridge, if any.
pub struct MemView {
    pub ram: Seq<u8>,
    pub rom: Option<RomView>,
}

/// Offset into program ROM for an offset `v` into the `0x8000..=0xFFFF`
/// window: a single 16 KiB page is mirrored into the upper half.
pub open spec fn prg_index(prg_len: nat, v: int) -> int {
    if prg_len == PRG_ROM_PAGE_SIZE && v >= PRG_ROM_PAGE_SIZE {
        v % (PRG_ROM_PAGE_SIZE as int)
    } else {
        v
    }
}

/// Little-endian word from two bytes.
pub open spec fn word(low: u8, high: u8) -> u16 {
    (high as int * 256 + low as int) as u16
}

impl MemView {
    /// Where the write or read of `address` would land in program ROM, if
    /// that slot exists.
    pub open spec fn prg_slot(self, address: u16) -> Result<int, EmulatorError> {
        match self.rom {
            None => Err(EmulatorError::RomNotLoaded),
            Some(rom) => {
                let i = prg_index(rom.prg_rom.len(), address - PRG_ROM_START);
                if i < rom.prg_rom.len() {
                    Ok(i)
                } else {
                    Err(EmulatorError::AccessViolation(address))
                }
            },
        }
    }

    pub open spec fn read(self, address: u16) -> Result<u8, EmulatorError> {
        if address <= RAM_END {
            Ok(self.ram[address as int % (RAM_SIZE as int)])
        } else if address <= PPU_END {
            Err(EmulatorError::AccessViolation(address))
        } else if address >= PRG_ROM_START {
            match self.prg_slot(address) {
                Ok(i) => Ok(self.rom.unwrap().prg_rom[i]),
                Err(e) => Err(e),
            }
        } else {
            Err(EmulatorError::AccessViolation(address))
        }
    }

    pub open spec fn write(self, address: u16, data: u8) -> Result<MemView, EmulatorError> {
        if address <= RAM_END {
            Ok(MemView { ram: self.ram.update(address as int % (RAM_SIZE as int), data), ..self })
        } else if address <= PPU_END {
            Err(EmulatorError::AccessViolation(address))
        } else if address >= PRG_ROM_START {
            match self.prg_slot(address) {
                Ok(i) => {
                    let rom = self.rom.unwrap();
                    Ok(
                        MemView {
                            rom: Some(RomView { prg_rom: rom.prg_rom.update(i, data), ..rom }),
                            ..self
                        },
                    )
                },
                Err(e) => Err(e),
            }
        } else {
            Err(EmulatorError::AccessViolation(address))
        }
    }

    /// Little-endian word at `address` and the byte after it, wrapping at
    /// the top of the address space.
    pub open spec fn read_u16(self, address: u16) -> Result<u16, EmulatorError> {
        match self.read(address) {
            Err(e) => Err(e),
            Ok(low) => match self.read(address.wrapping_add(1)) {
                Err(e) => Err(e),
                Ok(high) => Ok(word(low, high)),
            },
        }
    }

    /// Writes the low byte of `value` at `address`, then the high byte at
    /// the next address (wrapping). When only the second write fails, the
    /// first one has happened: the error comes with the memory after it.
    pub open spec fn write_u16(self, address: u16, value: u16) -> (Result<(), EmulatorError>, MemView) {
        match self.write(address, (value % 256) as u8) {
            Err(e) => (Err(e), self),
            Ok(m1) => match m1.write(address.wrapping_add(1), (value / 256) as u8) {
                Err(e) => (Err(e), m1),
                Ok(m2) => (Ok(()), m2),
            },
        }
    }

    /// Little-endian word from page zero, the second byte wrapping within
    /// the page.
    pub open spec fn read_u16_zero_page(self, address: u8) -> u16 {
        word(
            self.ram[address as int],
            self.ram[address.wrapping_add(1) as int],
        )
    }
}

/// CPU RAM and the cartridge, with address decoding and mirroring.
pub struct Bus {
    pub cpu_ram: [u8; RAM_SIZE],
    pub rom: Option<Rom>,
}

impl View for Bus {
    type V = MemView;

    open spec fn view(&self) -> MemView {
        MemView {
            ram: self.cpu_ram@,
            rom: match self.rom {
                Some(r) => Some(r@),
                None => None,
            },
        }
    }
}

impl Bus {
    pub fn new() -> (r: Self)
        ensures
            r@.ram == Seq::new(RAM_SIZE as nat, |i: int| 0u8),
            r@.rom is None,
    {
        let b = Bus { cpu_ram: [0; RAM_SIZE], rom: None };
        assert(b@.ram =~= Seq::new(RAM_SIZE as nat, |i: int| 0u8));
        b
    }

    /// Installs a cartridge, replacing any earlier one.
    pub fn load_rom(&mut self, rom: Rom)
        ensures
            final(self)@ == (MemView { rom: Some(rom@), ..old(self)@ }),
    {
        self.rom = Some(rom);
    }

    pub fn read(&self, address: u16) -> (r: Result<u8, EmulatorError>)
        ensures
            r == self@.read(address),
    {
        if address <= RAM_END {
            let mirror_address = (address % RAM_SIZE as u16) as usize;
            Ok(self.cpu_ram[mirror_address])
        } else if address <= PPU_END {
            Err(EmulatorError::AccessViolation(address))
        } else if address >= PRG_ROM_START {
            let v_address = address - PRG_ROM_START;
            match &self.rom {
                Some(rom) => {
                    let index = if rom.prg_rom.len() == PRG_ROM_PAGE_SIZE && v_address
                        >= PRG_ROM_PAGE_SIZE as u16 {
                        (v_address % PRG_ROM_PAGE_SIZE as u16) as usize
                    } else {
                        v_address as usize
                    };
                    if index < rom.prg_rom.len() {
                        Ok(rom.prg_rom[index])
                    } else {
                        Err(EmulatorError::AccessViolation(address))
                    }
                },
                None => Err(EmulatorError::RomNotLoaded),
            }
        } else {
            Err(EmulatorError::AccessViolation(address))
        }
    }

    pub fn write(&mut self, address: u16, data: u8) -> (r: Result<(), EmulatorError>)
        ensures
            match old(self)@.write(address, data) {
                Ok(m) => r is Ok && final(self)@ == m,
                Err(e) => r == Err::<(), EmulatorError>(e) && final(self)@ == old(self)@,
            },
    {
        if address <= RAM_END {
            let mirror_address = (address % RAM_SIZE as u16) as usize;
            self.cpu_ram[mirror_address] = data;
            Ok(())
        } else if address <= PPU_END {
            Err(EmulatorError::AccessViolation(address))
        } else if address >= PRG_ROM_START {
            let v_address = address - PRG_ROM_START;
            match &mut self.rom {
                Some(rom) => {
                    let index = if rom.prg_rom.len() == PRG_ROM_PAGE_SIZE && v_address
                        >= PRG_ROM_PAGE_SIZE as u16 {
                        (v_address % PRG_ROM_PAGE_SIZE as u16) as usize
                    } else {
                        v_address as usize
                    };
                    if index < rom.prg_rom.len() {
                        rom.prg_rom.set(index, data);
                        Ok(())
                    } else {
                        Err(EmulatorError::AccessViolation(address))
                    }
                },
                None => Err(EmulatorError::RomNotLoaded),
            }
        } else {
            Err(EmulatorError::AccessViolation(address))
        }
    }

    pub fn read_u16(&self, address: u16) -> (r: Result<u16, EmulatorError>)
        ensures
            r == self@.read_u16(address),
    {
        let low_byte = self.read(address)?;
        let high_byte = self.read(address.wrapping_add(1))?;
        Ok((high_byte as u16) * 256 + low_byte as u16)
    }

    pub fn write_u16(&mut self, address: u16, value: u16) -> (r: Result<(), EmulatorError>)
        ensures
            (r, final(self)@) == old(self)@.write_u16(address, value),
    {
        let low_byte = (value % 256) as u8;
        let high_byte = (value / 256) as u8;
        self.write(address, low_byte)?;
        self.write(address.wrapping_add(1), high_byte)?;
        Ok(())
    }

    pub fn read_u16_zero_page(&self, address: u8) -> (r: u16)
        ensures
            r == self@.read_u16_zero_page(address),
    {
        let low_byte = self.cpu_ram[address as usize];
        let high_byte = self.cpu_ram[address.wrapping_add(1) as usize];
        (high_byte as u16) * 256 + low_byte as u16
    }
}

/// Every address of the RAM window reads the same as its alias in the
/// first 2 KiB, also after a write to any address of the window.
pub proof fn lemma_ram_mirroring(m: MemView, a: u16, b: u16, data: u8)
    requires
        m.ram.len() == RAM_SIZE,
        a <= RAM_END,
        b <= RAM_END,
    ensures
        m.read(a) == m.read(a % (RAM_SIZE as u16)),
        m.write(b, data) matches Ok(m2) && m2.read(a) == m2.read(a % (RAM_SIZE as u16)),
        m.write(b, data) matches Ok(m2) && (a % (RAM_SIZE as u16) == b % (RAM_SIZE as u16)
            ==> m2.read(a) == Ok::<u8, EmulatorError>(data)),
{
}

} // verus!
