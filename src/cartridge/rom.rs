use vstd::prelude::*;

use crate::common::constants::{CHR_ROM_PAGE_SIZE, NES_HEADER_SIZE, NES_TRAINER_SIZE, PRG_ROM_PAGE_SIZE};
use crate::common::errors::EmulatorError;
use crate::common::types::Mirroring;

verus! {

/// What a cartridge holds, as mathematical values.
pub struct RomView {
    pub prg_rom: Seq<u8>,
    pub chr_rom: Seq<u8>,
    pub mapper: u8,
    pub mirroring: Mirroring,
}

/// A parsed iNES cartridge image.
pub struct Rom {
    pub prg_rom: Vec<u8>,
    pub chr_rom: Vec<u8>,
    pub mapper: u8,
    pub mirroring: Mirroring,
}

impl View for Rom {
    type V = RomView;

    open spec fn view(&self) -> RomView {
        RomView {
            prg_rom: self.prg_rom@,
            chr_rom: self.chr_rom@,
            mapper: self.mapper,
            mirroring: self.mirroring,
        }
    }
}

/// The magic bytes `"NES"` followed by MS-DOS end-of-file.
pub open spec fn has_nes_tag(bytes: Seq<u8>) -> bool {
    &&& bytes.len() >= 4
    &&& bytes[0] == 0x4E
    &&& bytes[1] == 0x45
    &&& bytes[2] == 0x53
    &&& bytes[3] == 0x1A
}

/// Mirroring from control byte 1: four-screen wins over vertical, else
/// horizontal.
pub open spec fn spec_mirroring(ctrl_byte_1: u8) -> Mirroring {
    if ctrl_byte_1 & 0b0000_1000 != 0 {
        Mirroring::FourScreen
    } else if ctrl_byte_1 & 0b0000_0001 != 0 {
        Mirroring::Vertical
    } else {
        Mirroring::Horizontal
    }
}

/// Mapper number: upper nibble from control byte 2, lower nibble from the
/// upper nibble of control byte 1.
pub open spec fn spec_mapper(ctrl_byte_1: u8, ctrl_byte_2: u8) -> u8 {
    (ctrl_byte_2 & 0b1111_0000) | ((ctrl_byte_1 & 0b1111_0000) >> 4u8)
}

/// Where program ROM starts: after the header and, when flagged, the
/// trainer.
pub open spec fn spec_prg_start(ctrl_byte_1: u8) -> int {
    NES_HEADER_SIZE + if ctrl_byte_1 & 0b0000_0100 != 0 {
        NES_TRAINER_SIZE as int
    } else {
        0
    }
}

pub open spec fn spec_prg_size(bytes: Seq<u8>) -> int {
    bytes[4] * PRG_ROM_PAGE_SIZE
}

pub open spec fn spec_chr_size(bytes: Seq<u8>) -> int {
    bytes[5] * CHR_ROM_PAGE_SIZE
}

/// Whether a buffer is an iNES image this core accepts: tagged, no header
/// extension in the low nibble of control byte 2, and long enough for the
/// sections that the header announces.
pub open spec fn spec_valid_nes(bytes: Seq<u8>) -> bool {
    &&& has_nes_tag(bytes)
    &&& bytes.len() >= NES_HEADER_SIZE
    &&& bytes[7] & 0b0000_1111 == 0
    &&& spec_prg_start(bytes[6]) + spec_prg_size(bytes) + spec_chr_size(bytes) <= bytes.len()
}

/// The cartridge that a valid buffer describes.
pub open spec fn spec_parse(bytes: Seq<u8>) -> RomView {
    let prg_start = spec_prg_start(bytes[6]);
    let chr_start = prg_start + spec_prg_size(bytes);
    RomView {
        prg_rom: bytes.subrange(prg_start, chr_start),
        chr_rom: bytes.subrange(chr_start, chr_start + spec_chr_size(bytes)),
        mapper: spec_mapper(bytes[6], bytes[7]),
        mirroring: spec_mirroring(bytes[6]),
    }
}

/// A vector of `len` zero bytes.
fn zeroed(len: usize) -> (r: Vec<u8>)
    ensures
        r@ == Seq::new(len as nat, |i: int| 0u8),
{
    let mut r: Vec<u8> = Vec::new();
    let mut i: usize = 0;
    while i < len
        invariant
            i <= len,
            r@ == Seq::new(i as nat, |j: int| 0u8),
        decreases len - i,
    {
        r.push(0);
        i = i + 1;
        assert(r@ =~= Seq::new(i as nat, |j: int| 0u8));
    }
    r
}

/// A copy of `bytes[start..start + len]`.
fn copy_range(bytes: &Vec<u8>, start: usize, len: usize) -> (r: Vec<u8>)
    requires
        start + len <= bytes.len(),
    ensures
        r@ == bytes@.subrange(start as int, start + len),
{
    let mut r: Vec<u8> = Vec::new();
    let mut i: usize = 0;
    while i < len
        invariant
            i <= len,
            start + len <= bytes.len(),
            r@ == bytes@.subrange(start as int, start + i),
        decreases len - i,
    {
        r.push(bytes[start + i]);
        i = i + 1;
        assert(r@ =~= bytes@.subrange(start as int, start + i));
    }
    r
}

impl Rom {
    /// The blank cartridge that `default` builds.
    pub open spec fn default_view() -> RomView {
        RomView {
            prg_rom: Seq::new(PRG_ROM_PAGE_SIZE as nat, |i: int| 0u8),
            chr_rom: Seq::new(CHR_ROM_PAGE_SIZE as nat, |i: int| 0u8),
            mapper: 0,
            mirroring: Mirroring::Horizontal,
        }
    }

    /// Parses an iNES image.
    pub fn new(bytes: &Vec<u8>) -> (r: Result<Self, EmulatorError>)
        ensures
            spec_valid_nes(bytes@) ==> (r matches Ok(rom) && rom@ == spec_parse(bytes@)),
            !spec_valid_nes(bytes@) ==> r == Err::<Rom, EmulatorError>(EmulatorError::InvalidNesFile),
    {
        Self::validate_file_format(bytes)?;
        let (mirroring, mapper) = Self::parse_control_bytes(bytes)?;
        let (prg_rom, chr_rom) = Self::extract_rom_sections(bytes)?;

        Ok(Rom { prg_rom, chr_rom, mapper, mirroring })
    }

    /// A blank cartridge: one page of zeroed program ROM and one of
    /// character ROM, mapper 0, horizontal mirroring.
    pub fn default() -> (r: Self)
        ensures
            r@ == Rom::default_view(),
    {
        Rom {
            prg_rom: zeroed(PRG_ROM_PAGE_SIZE),
            chr_rom: zeroed(CHR_ROM_PAGE_SIZE),
            mapper: 0,
            mirroring: Mirroring::Horizontal,
        }
    }

    /// Checks the tag and that the whole header is present.
    fn validate_file_format(bytes: &Vec<u8>) -> (r: Result<(), EmulatorError>)
        ensures
            r is Ok <==> has_nes_tag(bytes@) && bytes@.len() >= NES_HEADER_SIZE,
            r is Err ==> r == Err::<(), EmulatorError>(EmulatorError::InvalidNesFile),
    {
        if bytes.len() >= NES_HEADER_SIZE && bytes[0] == 0x4E && bytes[1] == 0x45 && bytes[2]
            == 0x53 && bytes[3] == 0x1A {
            Ok(())
        } else {
            Err(EmulatorError::InvalidNesFile)
        }
    }

    fn parse_control_bytes(bytes: &Vec<u8>) -> (r: Result<(Mirroring, u8), EmulatorError>)
        requires
            bytes@.len() >= NES_HEADER_SIZE,
        ensures
            bytes@[7] & 0b0000_1111 == 0 ==> r == Ok::<(Mirroring, u8), EmulatorError>(
                (spec_mirroring(bytes@[6]), spec_mapper(bytes@[6], bytes@[7])),
            ),
            bytes@[7] & 0b0000_1111 != 0 ==> r == Err::<(Mirroring, u8), EmulatorError>(
                EmulatorError::InvalidNesFile,
            ),
    {
        let ctrl_byte_1 = bytes[6];
        let ctrl_byte_2 = bytes[7];
        if ctrl_byte_2 & 0b0000_1111 != 0 {
            return Err(EmulatorError::InvalidNesFile);
        }
        let mirroring = if ctrl_byte_1 & 0b0000_1000 != 0 {
            Mirroring::FourScreen
        } else if ctrl_byte_1 & 0b0000_0001 != 0 {
            Mirroring::Vertical
        } else {
            Mirroring::Horizontal
        };

        let mapper_upper = ctrl_byte_2 & 0b1111_0000;
        let mapper_lower = (ctrl_byte_1 & 0b1111_0000) >> 4u8;
        let mapper = mapper_upper | mapper_lower;

        Ok((mirroring, mapper))
    }

    fn extract_rom_sections(bytes: &Vec<u8>) -> (r: Result<(Vec<u8>, Vec<u8>), EmulatorError>)
        requires
            bytes@.len() >= NES_HEADER_SIZE,
        ensures
            spec_prg_start(bytes@[6]) + spec_prg_size(bytes@) + spec_chr_size(bytes@)
                <= bytes@.len() ==> (r matches Ok((prg, chr)) && prg@ == spec_parse(bytes@).prg_rom
                && chr@ == spec_parse(bytes@).chr_rom),
            spec_prg_start(bytes@[6]) + spec_prg_size(bytes@) + spec_chr_size(bytes@)
                > bytes@.len() ==> r == Err::<(Vec<u8>, Vec<u8>), EmulatorError>(
                EmulatorError::InvalidNesFile,
            ),
    {
        let prg_rom_size = bytes[4] as usize * PRG_ROM_PAGE_SIZE;
        let chr_rom_size = bytes[5] as usize * CHR_ROM_PAGE_SIZE;
        let has_trainer = bytes[6] & 0b0000_0100 != 0;
        let prg_rom_start = NES_HEADER_SIZE + if has_trainer {
            NES_TRAINER_SIZE
        } else {
            0
        };
        let chr_rom_start = prg_rom_start + prg_rom_size;
        if chr_rom_start > bytes.len() || chr_rom_size > bytes.len() - chr_rom_start {
            return Err(EmulatorError::InvalidNesFile);
        }
        let prg_rom = copy_range(bytes, prg_rom_start, prg_rom_size);
        let chr_rom = copy_range(bytes, chr_rom_start, chr_rom_size);

        Ok((prg_rom, chr_rom))
    }
}

} // verus!
