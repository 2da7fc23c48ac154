use vstd::prelude::*;

use vstd::string::StringSliceAdditionalSpecFns;

use crate::cpu::types::AddressingMode;

verus! {

/// Instruction mnemonics, official and unofficial, as named in the table.
#[derive(Debug, Clone, Copy, PartialEq, Eq, Structural)]
pub enum Mnemonic {
    AAC,
    AAX,
    ADC,
    AND,
    ARR,
    ASL,
    ASR,
    ATX,
    AXA,
    AXS,
    BCC,
    BCS,
    BEQ,
    BIT,
    BMI,
    BNE,
    BPL,
    BRK,
    BVC,
    BVS,
    CLC,
    CLD,
    CLI,
    CLV,
    CMP,
    CPX,
    CPY,
    DCP,
    DEC,
    DEX,
    DEY,
    EOR,
    INC,
    INX,
    INY,
    ISC,
    JMP,
    JSR,
    KIL,
    LAR,
    LAX,
    LDA,
    LDX,
    LDY,
    LSR,
    NOP,
    ORA,
    PHA,
    PHP,
    PLA,
    PLP,
    RLA,
    ROL,
    ROR,
    RRA,
    RTI,
    RTS,
    SBC,
    SEC,
    SED,
    SEI,
    SLO,
    SRE,
    STA,
    STX,
    STY,
    SXA,
    SYA,
    TAX,
    TAY,
    TSX,
    TXA,
    TXS,
    TYA,
    XAA,
    XAS,
}

/// The three ASCII letters of a mnemonic.
pub open spec fn mnemonic_bytes(m: Mnemonic) -> Seq<u8> {
    match m {
        Mnemonic::AAC => seq![0x41, 0x41, 0x43],
        Mnemonic::AAX => seq![0x41, 0x41, 0x58],
        Mnemonic::ADC => seq![0x41, 0x44, 0x43],
        Mnemonic::AND => seq![0x41, 0x4E, 0x44],
        Mnemonic::ARR => seq![0x41, 0x52, 0x52],
        Mnemonic::ASL => seq![0x41, 0x53, 0x4C],
        Mnemonic::ASR => seq![0x41, 0x53, 0x52],
        Mnemonic::ATX => seq![0x41, 0x54, 0x58],
        Mnemonic::AXA => seq![0x41, 0x58, 0x41],
        Mnemonic::AXS => seq![0x41, 0x58, 0x53],
        Mnemonic::BCC => seq![0x42, 0x43, 0x43],
        Mnemonic::BCS => seq![0x42, 0x43, 0x53],
        Mnemonic::BEQ => seq![0x42, 0x45, 0x51],
        Mnemonic::BIT => seq![0x42, 0x49, 0x54],
        Mnemonic::BMI => seq![0x42, 0x4D, 0x49],
        Mnemonic::BNE => seq![0x42, 0x4E, 0x45],
        Mnemonic::BPL => seq![0x42, 0x50, 0x4C],
        Mnemonic::BRK => seq![0x42, 0x52, 0x4B],
        Mnemonic::BVC => seq![0x42, 0x56, 0x43],
        Mnemonic::BVS => seq![0x42, 0x56, 0x53],
        Mnemonic::CLC => seq![0x43, 0x4C, 0x43],
        Mnemonic::CLD => seq![0x43, 0x4C, 0x44],
        Mnemonic::CLI => seq![0x43, 0x4C, 0x49],
        Mnemonic::CLV => seq![0x43, 0x4C, 0x56],
        Mnemonic::CMP => seq![0x43, 0x4D, 0x50],
        Mnemonic::CPX => seq![0x43, 0x50, 0x58],
        Mnemonic::CPY => seq![0x43, 0x50, 0x59],
        Mnemonic::DCP => seq![0x44, 0x43, 0x50],
        Mnemonic::DEC => seq![0x44, 0x45, 0x43],
        Mnemonic::DEX => seq![0x44, 0x45, 0x58],
        Mnemonic::DEY => seq![0x44, 0x45, 0x59],
        Mnemonic::EOR => seq![0x45, 0x4F, 0x52],
        Mnemonic::INC => seq![0x49, 0x4E, 0x43],
        Mnemonic::INX => seq![0x49, 0x4E, 0x58],
        Mnemonic::INY => seq![0x49, 0x4E, 0x59],
        Mnemonic::ISC => seq![0x49, 0x53, 0x43],
        Mnemonic::JMP => seq![0x4A, 0x4D, 0x50],
        Mnemonic::JSR => seq![0x4A, 0x53, 0x52],
        Mnemonic::KIL => seq![0x4B, 0x49, 0x4C],
        Mnemonic::LAR => seq![0x4C, 0x41, 0x52],
        Mnemonic::LAX => seq![0x4C, 0x41, 0x58],
        Mnemonic::LDA => seq![0x4C, 0x44, 0x41],
        Mnemonic::LDX => seq![0x4C, 0x44, 0x58],
        Mnemonic::LDY => seq![0x4C, 0x44, 0x59],
        Mnemonic::LSR => seq![0x4C, 0x53, 0x52],
        Mnemonic::NOP => seq![0x4E, 0x4F, 0x50],
        Mnemonic::ORA => seq![0x4F, 0x52, 0x41],
        Mnemonic::PHA => seq![0x50, 0x48, 0x41],
        Mnemonic::PHP => seq![0x50, 0x48, 0x50],
        Mnemonic::PLA => seq![0x50, 0x4C, 0x41],
        Mnemonic::PLP => seq![0x50, 0x4C, 0x50],
        Mnemonic::RLA => seq![0x52, 0x4C, 0x41],
        Mnemonic::ROL => seq![0x52, 0x4F, 0x4C],
        Mnemonic::ROR => seq![0x52, 0x4F, 0x52],
        Mnemonic::RRA => seq![0x52, 0x52, 0x41],
        Mnemonic::RTI => seq![0x52, 0x54, 0x49],
        Mnemonic::RTS => seq![0x52, 0x54, 0x53],
        Mnemonic::SBC => seq![0x53, 0x42, 0x43],
        Mnemonic::SEC => seq![0x53, 0x45, 0x43],
        Mnemonic::SED => seq![0x53, 0x45, 0x44],
        Mnemonic::SEI => seq![0x53, 0x45, 0x49],
        Mnemonic::SLO => seq![0x53, 0x4C, 0x4F],
        Mnemonic::SRE => seq![0x53, 0x52, 0x45],
        Mnemonic::STA => seq![0x53, 0x54, 0x41],
        Mnemonic::STX => seq![0x53, 0x54, 0x58],
        Mnemonic::STY => seq![0x53, 0x54, 0x59],
        Mnemonic::SXA => seq![0x53, 0x58, 0x41],
        Mnemonic::SYA => seq![0x53, 0x59, 0x41],
        Mnemonic::TAX => seq![0x54, 0x41, 0x58],
        Mnemonic::TAY => seq![0x54, 0x41, 0x59],
        Mnemonic::TSX => seq![0x54, 0x53, 0x58],
        Mnemonic::TXA => seq![0x54, 0x58, 0x41],
        Mnemonic::TXS => seq![0x54, 0x58, 0x53],
        Mnemonic::TYA => seq![0x54, 0x59, 0x41],
        Mnemonic::XAA => seq![0x58, 0x41, 0x41],
        Mnemonic::XAS => seq![0x58, 0x41, 0x53],
    }
}

impl Mnemonic {
    /// The mnemonic spelled by `name`, if any.
    pub fn from_name(name: &str) -> (r: Option<Mnemonic>)
        ensures
            r matches Some(m) ==> mnemonic_bytes(m) == name.spec_bytes(),
            r is None ==> forall|m: Mnemonic| mnemonic_bytes(m) != name.spec_bytes(),
    {
        let b = name.as_bytes();
        if b.len() != 3 {
            return None;
        }
        let r = match (b[0], b[1], b[2]) {
            (0x41, 0x41, 0x43) => Some(Mnemonic::AAC),
            (0x41, 0x41, 0x58) => Some(Mnemonic::AAX),
            (0x41, 0x44, 0x43) => Some(Mnemonic::ADC),
            (0x41, 0x4E, 0x44) => Some(Mnemonic::AND),
            (0x41, 0x52, 0x52) => Some(Mnemonic::ARR),
            (0x41, 0x53, 0x4C) => Some(Mnemonic::ASL),
            (0x41, 0x53, 0x52) => Some(Mnemonic::ASR),
            (0x41, 0x54, 0x58) => Some(Mnemonic::ATX),
            (0x41, 0x58, 0x41) => Some(Mnemonic::AXA),
            (0x41, 0x58, 0x53) => Some(Mnemonic::AXS),
            (0x42, 0x43, 0x43) => Some(Mnemonic::BCC),
            (0x42, 0x43, 0x53) => Some(Mnemonic::BCS),
            (0x42, 0x45, 0x51) => Some(Mnemonic::BEQ),
            (0x42, 0x49, 0x54) => Some(Mnemonic::BIT),
            (0x42, 0x4D, 0x49) => Some(Mnemonic::BMI),
            (0x42, 0x4E, 0x45) => Some(Mnemonic::BNE),
            (0x42, 0x50, 0x4C) => Some(Mnemonic::BPL),
            (0x42, 0x52, 0x4B) => Some(Mnemonic::BRK),
            (0x42, 0x56, 0x43) => Some(Mnemonic::BVC),
            (0x42, 0x56, 0x53) => Some(Mnemonic::BVS),
            (0x43, 0x4C, 0x43) => Some(Mnemonic::CLC),
            (0x43, 0x4C, 0x44) => Some(Mnemonic::CLD),
            (0x43, 0x4C, 0x49) => Some(Mnemonic::CLI),
            (0x43, 0x4C, 0x56) => Some(Mnemonic::CLV),
            (0x43, 0x4D, 0x50) => Some(Mnemonic::CMP),
            (0x43, 0x50, 0x58) => Some(Mnemonic::CPX),
            (0x43, 0x50, 0x59) => Some(Mnemonic::CPY),
            (0x44, 0x43, 0x50) => Some(Mnemonic::DCP),
            (0x44, 0x45, 0x43) => Some(Mnemonic::DEC),
            (0x44, 0x45, 0x58) => Some(Mnemonic::DEX),
            (0x44, 0x45, 0x59) => Some(Mnemonic::DEY),
            (0x45, 0x4F, 0x52) => Some(Mnemonic::EOR),
            (0x49, 0x4E, 0x43) => Some(Mnemonic::INC),
            (0x49, 0x4E, 0x58) => Some(Mnemonic::INX),
            (0x49, 0x4E, 0x59) => Some(Mnemonic::INY),
            (0x49, 0x53, 0x43) => Some(Mnemonic::ISC),
            (0x4A, 0x4D, 0x50) => Some(Mnemonic::JMP),
            (0x4A, 0x53, 0x52) => Some(Mnemonic::JSR),
            (0x4B, 0x49, 0x4C) => Some(Mnemonic::KIL),
            (0x4C, 0x41, 0x52) => Some(Mnemonic::LAR),
            (0x4C, 0x41, 0x58) => Some(Mnemonic::LAX),
            (0x4C, 0x44, 0x41) => Some(Mnemonic::LDA),
            (0x4C, 0x44, 0x58) => Some(Mnemonic::LDX),
            (0x4C, 0x44, 0x59) => Some(Mnemonic::LDY),
            (0x4C, 0x53, 0x52) => Some(Mnemonic::LSR),
            (0x4E, 0x4F, 0x50) => Some(Mnemonic::NOP),
            (0x4F, 0x52, 0x41) => Some(Mnemonic::ORA),
            (0x50, 0x48, 0x41) => Some(Mnemonic::PHA),
            (0x50, 0x48, 0x50) => Some(Mnemonic::PHP),
            (0x50, 0x4C, 0x41) => Some(Mnemonic::PLA),
            (0x50, 0x4C, 0x50) => Some(Mnemonic::PLP),
            (0x52, 0x4C, 0x41) => Some(Mnemonic::RLA),
            (0x52, 0x4F, 0x4C) => Some(Mnemonic::ROL),
            (0x52, 0x4F, 0x52) => Some(Mnemonic::ROR),
            (0x52, 0x52, 0x41) => Some(Mnemonic::RRA),
            (0x52, 0x54, 0x49) => Some(Mnemonic::RTI),
            (0x52, 0x54, 0x53) => Some(Mnemonic::RTS),
            (0x53, 0x42, 0x43) => Some(Mnemonic::SBC),
            (0x53, 0x45, 0x43) => Some(Mnemonic::SEC),
            (0x53, 0x45, 0x44) => Some(Mnemonic::SED),
            (0x53, 0x45, 0x49) => Some(Mnemonic::SEI),
            (0x53, 0x4C, 0x4F) => Some(Mnemonic::SLO),
            (0x53, 0x52, 0x45) => Some(Mnemonic::SRE),
            (0x53, 0x54, 0x41) => Some(Mnemonic::STA),
            (0x53, 0x54, 0x58) => Some(Mnemonic::STX),
            (0x53, 0x54, 0x59) => Some(Mnemonic::STY),
            (0x53, 0x58, 0x41) => Some(Mnemonic::SXA),
            (0x53, 0x59, 0x41) => Some(Mnemonic::SYA),
            (0x54, 0x41, 0x58) => Some(Mnemonic::TAX),
            (0x54, 0x41, 0x59) => Some(Mnemonic::TAY),
            (0x54, 0x53, 0x58) => Some(Mnemonic::TSX),
            (0x54, 0x58, 0x41) => Some(Mnemonic::TXA),
            (0x54, 0x58, 0x53) => Some(Mnemonic::TXS),
            (0x54, 0x59, 0x41) => Some(Mnemonic::TYA),
            (0x58, 0x41, 0x41) => Some(Mnemonic::XAA),
            (0x58, 0x41, 0x53) => Some(Mnemonic::XAS),
            _ => None,
        };
        proof {
            assert(b@ =~= seq![b@[0], b@[1], b@[2]]);
        }
        r
    }
}

/// One entry of the opcode table.
#[derive(Debug, Clone, Copy, PartialEq, Eq, Structural)]
pub struct Opcode {
    pub mnemonic: Mnemonic,
    pub code: u8,
    /// Encoded length in bytes, opcode included.
    pub bytes: usize,
    /// Nominal cycle count.
    pub cycles: usize,
    pub address_mode: AddressingMode,
    pub unofficial: bool,
}

/// The opcode table: every byte value names an instruction.
#[verifier::opaque]
pub open spec fn spec_opcode(code: u8) -> Opcode {
    match code {
        0x00 => Opcode { mnemonic: Mnemonic::BRK, code: 0x00, bytes: 1, cycles: 7, address_mode: AddressingMode::Implied, unofficial: false },
        0x01 => Opcode { mnemonic: Mnemonic::ORA, code: 0x01, bytes: 2, cycles: 6, address_mode: AddressingMode::IndexedIndirect, unofficial: false },
        0x02 => Opcode { mnemonic: Mnemonic::KIL, code: 0x02, bytes: 1, cycles: 0, address_mode: AddressingMode::Implied, unofficial: true },
        0x03 => Opcode { mnemonic: Mnemonic::SLO, code: 0x03, bytes: 2, cycles: 8, address_mode: AddressingMode::IndexedIndirect, unofficial: true },
        0x04 => Opcode { mnemonic: Mnemonic::NOP, code: 0x04, bytes: 2, cycles: 3, address_mode: AddressingMode::ZeroPage, unofficial: true },
        0x05 => Opcode { mnemonic: Mnemonic::ORA, code: 0x05, bytes: 2, cycles: 3, address_mode: AddressingMode::ZeroPage, unofficial: false },
        0x06 => Opcode { mnemonic: Mnemonic::ASL, code: 0x06, bytes: 2, cycles: 5, address_mode: AddressingMode::ZeroPage, unofficial: false },
        0x07 => Opcode { mnemonic: Mnemonic::SLO, code: 0x07, bytes: 2, cycles: 5, address_mode: AddressingMode::ZeroPage, unofficial: true },
        0x08 => Opcode { mnemonic: Mnemonic::PHP, code: 0x08, bytes: 1, cycles: 3, address_mode: AddressingMode::Implied, unofficial: false },
        0x09 => Opcode { mnemonic: Mnemonic::ORA, code: 0x09, bytes: 2, cycles: 2, address_mode: AddressingMode::Immediate, unofficial: false },
        0x0A => Opcode { mnemonic: Mnemonic::ASL, code: 0x0A, bytes: 1, cycles: 2, address_mode: AddressingMode::Accumulator, unofficial: false },
        0x0B => Opcode { mnemonic: Mnemonic::AAC, code: 0x0B, bytes: 2, cycles: 2, address_mode: AddressingMode::Immediate, unofficial: true },
        0x0C => Opcode { mnemonic: Mnemonic::NOP, code: 0x0C, bytes: 3, cycles: 4, address_mode: AddressingMode::Absolute, unofficial: true },
        0x0D => Opcode { mnemonic: Mnemonic::ORA, code: 0x0D, bytes: 3, cycles: 4, address_mode: AddressingMode::Absolute, unofficial: false },
        0x0E => Opcode { mnemonic: Mnemonic::ASL, code: 0x0E, bytes: 3, cycles: 6, address_mode: AddressingMode::Absolute, unofficial: false },
        0x0F => Opcode { mnemonic: Mnemonic::SLO, code: 0x0F, bytes: 3, cycles: 6, address_mode: AddressingMode::Absolute, unofficial: true },
        0x10 => Opcode { mnemonic: Mnemonic::BPL, code: 0x10, bytes: 2, cycles: 2, address_mode: AddressingMode::Relative, unofficial: false },
        0x11 => Opcode { mnemonic: Mnemonic::ORA, code: 0x11, bytes: 2, cycles: 5, address_mode: AddressingMode::IndirectIndexed, unofficial: false },
        0x12 => Opcode { mnemonic: Mnemonic::KIL, code: 0x12, bytes: 1, cycles: 0, address_mode: AddressingMode::Implied, unofficial: true },
        0x13 => Opcode { mnemonic: Mnemonic::SLO, code: 0x13, bytes: 2, cycles: 8, address_mode: AddressingMode::IndirectIndexed, unofficial: true },
        0x14 => Opcode { mnemonic: Mnemonic::NOP, code: 0x14, bytes: 2, cycles: 4, address_mode: AddressingMode::ZeroPageX, unofficial: true },
        0x15 => Opcode { mnemonic: Mnemonic::ORA, code: 0x15, bytes: 2, cycles: 4, address_mode: AddressingMode::ZeroPageX, unofficial: false },
        0x16 => Opcode { mnemonic: Mnemonic::ASL, code: 0x16, bytes: 2, cycles: 6, address_mode: AddressingMode::ZeroPageX, unofficial: false },
        0x17 => Opcode { mnemonic: Mnemonic::SLO, code: 0x17, bytes: 2, cycles: 6, address_mode: AddressingMode::ZeroPageX, unofficial: true },
        0x18 => Opcode { mnemonic: Mnemonic::CLC, code: 0x18, bytes: 1, cycles: 2, address_mode: AddressingMode::Implied, unofficial: false },
        0x19 => Opcode { mnemonic: Mnemonic::ORA, code: 0x19, bytes: 3, cycles: 4, address_mode: AddressingMode::AbsoluteY, unofficial: false },
        0x1A => Opcode { mnemonic: Mnemonic::NOP, code: 0x1A, bytes: 1, cycles: 2, address_mode: AddressingMode::Implied, unofficial: true },
        0x1B => Opcode { mnemonic: Mnemonic::SLO, code: 0x1B, bytes: 3, cycles: 7, address_mode: AddressingMode::AbsoluteY, unofficial: true },
        0x1C => Opcode { mnemonic: Mnemonic::NOP, code: 0x1C, bytes: 3, cycles: 4, address_mode: AddressingMode::AbsoluteX, unofficial: true },
        0x1D => Opcode { mnemonic: Mnemonic::ORA, code: 0x1D, bytes: 3, cycles: 4, address_mode: AddressingMode::AbsoluteX, unofficial: false },
        0x1E => Opcode { mnemonic: Mnemonic::ASL, code: 0x1E, bytes: 3, cycles: 7, address_mode: AddressingMode::AbsoluteX, unofficial: false },
        0x1F => Opcode { mnemonic: Mnemonic::SLO, code: 0x1F, bytes: 3, cycles: 7, address_mode: AddressingMode::AbsoluteX, unofficial: true },
        0x20 => Opcode { mnemonic: Mnemonic::JSR, code: 0x20, bytes: 3, cycles: 6, address_mode: AddressingMode::Absolute, unofficial: false },
        0x21 => Opcode { mnemonic: Mnemonic::AND, code: 0x21, bytes: 2, cycles: 6, address_mode: AddressingMode::IndexedIndirect, unofficial: false },
        0x22 => Opcode { mnemonic: Mnemonic::KIL, code: 0x22, bytes: 1, cycles: 0, address_mode: AddressingMode::Implied, unofficial: true },
        0x23 => Opcode { mnemonic: Mnemonic::RLA, code: 0x23, bytes: 2, cycles: 8, address_mode: AddressingMode::IndexedIndirect, unofficial: true },
        0x24 => Opcode { mnemonic: Mnemonic::BIT, code: 0x24, bytes: 2, cycles: 3, address_mode: AddressingMode::ZeroPage, unofficial: false },
        0x25 => Opcode { mnemonic: Mnemonic::AND, code: 0x25, bytes: 2, cycles: 3, address_mode: AddressingMode::ZeroPage, unofficial: false },
        0x26 => Opcode { mnemonic: Mnemonic::ROL, code: 0x26, bytes: 2, cycles: 5, address_mode: AddressingMode::ZeroPage, unofficial: false },
        0x27 => Opcode { mnemonic: Mnemonic::RLA, code: 0x27, bytes: 2, cycles: 5, address_mode: AddressingMode::ZeroPage, unofficial: true },
        0x28 => Opcode { mnemonic: Mnemonic::PLP, code: 0x28, bytes: 1, cycles: 4, address_mode: AddressingMode::Implied, unofficial: false },
        0x29 => Opcode { mnemonic: Mnemonic::AND, code: 0x29, bytes: 2, cycles: 2, address_mode: AddressingMode::Immediate, unofficial: false },
        0x2A => Opcode { mnemonic: Mnemonic::ROL, code: 0x2A, bytes: 1, cycles: 2, address_mode: AddressingMode::Accumulator, unofficial: false },
        0x2B => Opcode { mnemonic: Mnemonic::AAC, code: 0x2B, bytes: 2, cycles: 2, address_mode: AddressingMode::Immediate, unofficial: true },
        0x2C => Opcode { mnemonic: Mnemonic::BIT, code: 0x2C, bytes: 3, cycles: 4, address_mode: AddressingMode::Absolute, unofficial: false },
        0x2D => Opcode { mnemonic: Mnemonic::AND, code: 0x2D, bytes: 3, cycles: 4, address_mode: AddressingMode::Absolute, unofficial: false },
        0x2E => Opcode { mnemonic: Mnemonic::ROL, code: 0x2E, bytes: 3, cycles: 6, address_mode: AddressingMode::Absolute, unofficial: false },
        0x2F => Opcode { mnemonic: Mnemonic::RLA, code: 0x2F, bytes: 3, cycles: 6, address_mode: AddressingMode::Absolute, unofficial: true },
        0x30 => Opcode { mnemonic: Mnemonic::BMI, code: 0x30, bytes: 2, cycles: 2, address_mode: AddressingMode::Relative, unofficial: false },
        0x31 => Opcode { mnemonic: Mnemonic::AND, code: 0x31, bytes: 2, cycles: 5, address_mode: AddressingMode::IndirectIndexed, unofficial: false },
        0x32 => Opcode { mnemonic: Mnemonic::KIL, code: 0x32, bytes: 1, cycles: 0, address_mode: AddressingMode::Implied, unofficial: true },
        0x33 => Opcode { mnemonic: Mnemonic::RLA, code: 0x33, bytes: 2, cycles: 8, address_mode: AddressingMode::IndirectIndexed, unofficial: true },
        0x34 => Opcode { mnemonic: Mnemonic::NOP, code: 0x34, bytes: 2, cycles: 4, address_mode: AddressingMode::ZeroPageX, unofficial: true },
        0x35 => Opcode { mnemonic: Mnemonic::AND, code: 0x35, bytes: 2, cycles: 4, address_mode: AddressingMode::ZeroPageX, unofficial: false },
        0x36 => Opcode { mnemonic: Mnemonic::ROL, code: 0x36, bytes: 2, cycles: 6, address_mode: AddressingMode::ZeroPageX, unofficial: false },
        0x37 => Opcode { mnemonic: Mnemonic::RLA, code: 0x37, bytes: 2, cycles: 6, address_mode: AddressingMode::ZeroPageX, unofficial: true },
        0x38 => Opcode { mnemonic: Mnemonic::SEC, code: 0x38, bytes: 1, cycles: 2, address_mode: AddressingMode::Implied, unofficial: false },
        0x39 => Opcode { mnemonic: Mnemonic::AND, code: 0x39, bytes: 3, cycles: 4, address_mode: AddressingMode::AbsoluteY, unofficial: false },
        0x3A => Opcode { mnemonic: Mnemonic::NOP, code: 0x3A, bytes: 1, cycles: 2, address_mode: AddressingMode::Implied, unofficial: true },
        0x3B => Opcode { mnemonic: Mnemonic::RLA, code: 0x3B, bytes: 3, cycles: 7, address_mode: AddressingMode::AbsoluteY, unofficial: true },
        0x3C => Opcode { mnemonic: Mnemonic::NOP, code: 0x3C, bytes: 3, cycles: 4, address_mode: AddressingMode::AbsoluteX, unofficial: true },
        0x3D => Opcode { mnemonic: Mnemonic::AND, code: 0x3D, bytes: 3, cycles: 4, address_mode: AddressingMode::AbsoluteX, unofficial: false },
        0x3E => Opcode { mnemonic: Mnemonic::ROL, code: 0x3E, bytes: 3, cycles: 7, address_mode: AddressingMode::AbsoluteX, unofficial: false },
        0x3F => Opcode { mnemonic: Mnemonic::RLA, code: 0x3F, bytes: 3, cycles: 7, address_mode: AddressingMode::AbsoluteX, unofficial: true },
        0x40 => Opcode { mnemonic: Mnemonic::RTI, code: 0x40, bytes: 1, cycles: 6, address_mode: AddressingMode::Implied, unofficial: false },
        0x41 => Opcode { mnemonic: Mnemonic::EOR, code: 0x41, bytes: 2, cycles: 6, address_mode: AddressingMode::IndexedIndirect, unofficial: false },
        0x42 => Opcode { mnemonic: Mnemonic::KIL, code: 0x42, bytes: 1, cycles: 0, address_mode: AddressingMode::Implied, unofficial: true },
        0x43 => Opcode { mnemonic: Mnemonic::SRE, code: 0x43, bytes: 2, cycles: 8, address_mode: AddressingMode::IndexedIndirect, unofficial: true },
        0x44 => Opcode { mnemonic: Mnemonic::NOP, code: 0x44, bytes: 2, cycles: 3, address_mode: AddressingMode::ZeroPage, unofficial: true },
        0x45 => Opcode { mnemonic: Mnemonic::EOR, code: 0x45, bytes: 2, cycles: 3, address_mode: AddressingMode::ZeroPage, unofficial: false },
        0x46 => Opcode { mnemonic: Mnemonic::LSR, code: 0x46, bytes: 2, cycles: 5, address_mode: AddressingMode::ZeroPage, unofficial: false },
        0x47 => Opcode { mnemonic: Mnemonic::SRE, code: 0x47, bytes: 2, cycles: 5, address_mode: AddressingMode::ZeroPage, unofficial: true },
        0x48 => Opcode { mnemonic: Mnemonic::PHA, code: 0x48, bytes: 1, cycles: 3, address_mode: AddressingMode::Implied, unofficial: false },
        0x49 => Opcode { mnemonic: Mnemonic::EOR, code: 0x49, bytes: 2, cycles: 2, address_mode: AddressingMode::Immediate, unofficial: false },
        0x4A => Opcode { mnemonic: Mnemonic::LSR, code: 0x4A, bytes: 1, cycles: 2, address_mode: AddressingMode::Accumulator, unofficial: false },
        0x4B => Opcode { mnemonic: Mnemonic::ASR, code: 0x4B, bytes: 2, cycles: 2, address_mode: AddressingMode::Immediate, unofficial: true },
        0x4C => Opcode { mnemonic: Mnemonic::JMP, code: 0x4C, bytes: 3, cycles: 3, address_mode: AddressingMode::Absolute, unofficial: false },
        0x4D => Opcode { mnemonic: Mnemonic::EOR, code: 0x4D, bytes: 3, cycles: 4, address_mode: AddressingMode::Absolute, unofficial: false },
        0x4E => Opcode { mnemonic: Mnemonic::LSR, code: 0x4E, bytes: 3, cycles: 6, address_mode: AddressingMode::Absolute, unofficial: false },
        0x4F => Opcode { mnemonic: Mnemonic::SRE, code: 0x4F, bytes: 3, cycles: 6, address_mode: AddressingMode::Absolute, unofficial: true },
        0x50 => Opcode { mnemonic: Mnemonic::BVC, code: 0x50, bytes: 2, cycles: 2, address_mode: AddressingMode::Relative, unofficial: false },
        0x51 => Opcode { mnemonic: Mnemonic::EOR, code: 0x51, bytes: 2, cycles: 5, address_mode: AddressingMode::IndirectIndexed, unofficial: false },
        0x52 => Opcode { mnemonic: Mnemonic::KIL, code: 0x52, bytes: 1, cycles: 0, address_mode: AddressingMode::Implied, unofficial: true },
        0x53 => Opcode { mnemonic: Mnemonic::SRE, code: 0x53, bytes: 2, cycles: 8, address_mode: AddressingMode::IndirectIndexed, unofficial: true },
        0x54 => Opcode { mnemonic: Mnemonic::NOP, code: 0x54, bytes: 2, cycles: 4, address_mode: AddressingMode::ZeroPageX, unofficial: true },
        0x55 => Opcode { mnemonic: Mnemonic::EOR, code: 0x55, bytes: 2, cycles: 4, address_mode: AddressingMode::ZeroPageX, unofficial: false },
        0x56 => Opcode { mnemonic: Mnemonic::LSR, code: 0x56, bytes: 2, cycles: 6, address_mode: AddressingMode::ZeroPageX, unofficial: false },
        0x57 => Opcode { mnemonic: Mnemonic::SRE, code: 0x57, bytes: 2, cycles: 6, address_mode: AddressingMode::ZeroPageX, unofficial: true },
        0x58 => Opcode { mnemonic: Mnemonic::CLI, code: 0x58, bytes: 1, cycles: 2, address_mode: AddressingMode::Implied, unofficial: false },
        0x59 => Opcode { mnemonic: Mnemonic::EOR, code: 0x59, bytes: 3, cycles: 4, address_mode: AddressingMode::AbsoluteY, unofficial: false },
        0x5A => Opcode { mnemonic: Mnemonic::NOP, code: 0x5A, bytes: 1, cycles: 2, address_mode: AddressingMode::Implied, unofficial: true },
        0x5B => Opcode { mnemonic: Mnemonic::SRE, code: 0x5B, bytes: 3, cycles: 7, address_mode: AddressingMode::AbsoluteY, unofficial: true },
        0x5C => Opcode { mnemonic: Mnemonic::NOP, code: 0x5C, bytes: 3, cycles: 4, address_mode: AddressingMode::AbsoluteX, unofficial: true },
        0x5D => Opcode { mnemonic: Mnemonic::EOR, code: 0x5D, bytes: 3, cycles: 4, address_mode: AddressingMode::AbsoluteX, unofficial: false },
        0x5E => Opcode { mnemonic: Mnemonic::LSR, code: 0x5E, bytes: 3, cycles: 7, address_mode: AddressingMode::AbsoluteX, unofficial: false },
        0x5F => Opcode { mnemonic: Mnemonic::SRE, code: 0x5F, bytes: 3, cycles: 7, address_mode: AddressingMode::AbsoluteX, unofficial: true },
        0x60 => Opcode { mnemonic: Mnemonic::RTS, code: 0x60, bytes: 1, cycles: 6, address_mode: AddressingMode::Implied, unofficial: false },
        0x61 => Opcode { mnemonic: Mnemonic::ADC, code: 0x61, bytes: 2, cycles: 6, address_mode: AddressingMode::IndexedIndirect, unofficial: false },
        0x62 => Opcode { mnemonic: Mnemonic::KIL, code: 0x62, bytes: 1, cycles: 0, address_mode: AddressingMode::Implied, unofficial: true },
        0x63 => Opcode { mnemonic: Mnemonic::RRA, code: 0x63, bytes: 2, cycles: 8, address_mode: AddressingMode::IndexedIndirect, unofficial: true },
        0x64 => Opcode { mnemonic: Mnemonic::NOP, code: 0x64, bytes: 2, cycles: 3, address_mode: AddressingMode::ZeroPage, unofficial: true },
        0x65 => Opcode { mnemonic: Mnemonic::ADC, code: 0x65, bytes: 2, cycles: 3, address_mode: AddressingMode::ZeroPage, unofficial: false },
        0x66 => Opcode { mnemonic: Mnemonic::ROR, code: 0x66, bytes: 2, cycles: 5, address_mode: AddressingMode::ZeroPage, unofficial: false },
        0x67 => Opcode { mnemonic: Mnemonic::RRA, code: 0x67, bytes: 2, cycles: 5, address_mode: AddressingMode::ZeroPage, unofficial: true },
        0x68 => Opcode { mnemonic: Mnemonic::PLA, code: 0x68, bytes: 1, cycles: 4, address_mode: AddressingMode::Implied, unofficial: false },
        0x69 => Opcode { mnemonic: Mnemonic::ADC, code: 0x69, bytes: 2, cycles: 2, address_mode: AddressingMode::Immediate, unofficial: false },
        0x6A => Opcode { mnemonic: Mnemonic::ROR, code: 0x6A, bytes: 1, cycles: 2, address_mode: AddressingMode::Accumulator, unofficial: false },
        0x6B => Opcode { mnemonic: Mnemonic::ARR, code: 0x6B, bytes: 2, cycles: 2, address_mode: AddressingMode::Immediate, unofficial: true },
        0x6C => Opcode { mnemonic: Mnemonic::JMP, code: 0x6C, bytes: 3, cycles: 5, address_mode: AddressingMode::Indirect, unofficial: false },
        0x6D => Opcode { mnemonic: Mnemonic::ADC, code: 0x6D, bytes: 3, cycles: 4, address_mode: AddressingMode::Absolute, unofficial: false },
        0x6E => Opcode { mnemonic: Mnemonic::ROR, code: 0x6E, bytes: 3, cycles: 6, address_mode: AddressingMode::Absolute, unofficial: false },
        0x6F => Opcode { mnemonic: Mnemonic::RRA, code: 0x6F, bytes: 3, cycles: 6, address_mode: AddressingMode::Absolute, unofficial: true },
        0x70 => Opcode { mnemonic: Mnemonic::BVS, code: 0x70, bytes: 2, cycles: 2, address_mode: AddressingMode::Relative, unofficial: false },
        0x71 => Opcode { mnemonic: Mnemonic::ADC, code: 0x71, bytes: 2, cycles: 5, address_mode: AddressingMode::IndirectIndexed, unofficial: false },
        0x72 => Opcode { mnemonic: Mnemonic::KIL, code: 0x72, bytes: 1, cycles: 0, address_mode: AddressingMode::Implied, unofficial: true },
        0x73 => Opcode { mnemonic: Mnemonic::RRA, code: 0x73, bytes: 2, cycles: 8, address_mode: AddressingMode::IndirectIndexed, unofficial: true },
        0x74 => Opcode { mnemonic: Mnemonic::NOP, code: 0x74, bytes: 2, cycles: 4, address_mode: AddressingMode::ZeroPageX, unofficial: true },
        0x75 => Opcode { mnemonic: Mnemonic::ADC, code: 0x75, bytes: 2, cycles: 4, address_mode: AddressingMode::ZeroPageX, unofficial: false },
        0x76 => Opcode { mnemonic: Mnemonic::ROR, code: 0x76, bytes: 2, cycles: 6, address_mode: AddressingMode::ZeroPageX, unofficial: false },
        0x77 => Opcode { mnemonic: Mnemonic::RRA, code: 0x77, bytes: 2, cycles: 6, address_mode: AddressingMode::ZeroPageX, unofficial: true },
        0x78 => Opcode { mnemonic: Mnemonic::SEI, code: 0x78, bytes: 1, cycles: 2, address_mode: AddressingMode::Implied, unofficial: false },
        0x79 => Opcode { mnemonic: Mnemonic::ADC, code: 0x79, bytes: 3, cycles: 4, address_mode: AddressingMode::AbsoluteY, unofficial: false },
        0x7A => Opcode { mnemonic: Mnemonic::NOP, code: 0x7A, bytes: 1, cycles: 2, address_mode: AddressingMode::Implied, unofficial: true },
        0x7B => Opcode { mnemonic: Mnemonic::RRA, code: 0x7B, bytes: 3, cycles: 7, address_mode: AddressingMode::AbsoluteY, unofficial: true },
        0x7C => Opcode { mnemonic: Mnemonic::NOP, code: 0x7C, bytes: 3, cycles: 4, address_mode: AddressingMode::AbsoluteX, unofficial: true },
        0x7D => Opcode { mnemonic: Mnemonic::ADC, code: 0x7D, bytes: 3, cycles: 4, address_mode: AddressingMode::AbsoluteX, unofficial: false },
        0x7E => Opcode { mnemonic: Mnemonic::ROR, code: 0x7E, bytes: 3, cycles: 7, address_mode: AddressingMode::AbsoluteX, unofficial: false },
        0x7F => Opcode { mnemonic: Mnemonic::RRA, code: 0x7F, bytes: 3, cycles: 7, address_mode: AddressingMode::AbsoluteX, unofficial: true },
        0x80 => Opcode { mnemonic: Mnemonic::NOP, code: 0x80, bytes: 2, cycles: 2, address_mode: AddressingMode::Immediate, unofficial: true },
        0x81 => Opcode { mnemonic: Mnemonic::STA, code: 0x81, bytes: 2, cycles: 6, address_mode: AddressingMode::IndexedIndirect, unofficial: false },
        0x82 => Opcode { mnemonic: Mnemonic::NOP, code: 0x82, bytes: 2, cycles: 2, address_mode: AddressingMode::Immediate, unofficial: true },
        0x83 => Opcode { mnemonic: Mnemonic::AAX, code: 0x83, bytes: 2, cycles: 6, address_mode: AddressingMode::IndexedIndirect, unofficial: true },
        0x84 => Opcode { mnemonic: Mnemonic::STY, code: 0x84, bytes: 2, cycles: 3, address_mode: AddressingMode::ZeroPage, unofficial: false },
        0x85 => Opcode { mnemonic: Mnemonic::STA, code: 0x85, bytes: 2, cycles: 3, address_mode: AddressingMode::ZeroPage, unofficial: false },
        0x86 => Opcode { mnemonic: Mnemonic::STX, code: 0x86, bytes: 2, cycles: 3, address_mode: AddressingMode::ZeroPage, unofficial: false },
        0x87 => Opcode { mnemonic: Mnemonic::AAX, code: 0x87, bytes: 2, cycles: 3, address_mode: AddressingMode::ZeroPage, unofficial: true },
        0x88 => Opcode { mnemonic: Mnemonic::DEY, code: 0x88, bytes: 1, cycles: 2, address_mode: AddressingMode::Implied, unofficial: false },
        0x89 => Opcode { mnemonic: Mnemonic::NOP, code: 0x89, bytes: 2, cycles: 2, address_mode: AddressingMode::Immediate, unofficial: true },
        0x8A => Opcode { mnemonic: Mnemonic::TXA, code: 0x8A, bytes: 1, cycles: 2, address_mode: AddressingMode::Implied, unofficial: false },
        0x8B => Opcode { mnemonic: Mnemonic::XAA, code: 0x8B, bytes: 2, cycles: 2, address_mode: AddressingMode::Immediate, unofficial: true },
        0x8C => Opcode { mnemonic: Mnemonic::STY, code: 0x8C, bytes: 3, cycles: 4, address_mode: AddressingMode::Absolute, unofficial: false },
        0x8D => Opcode { mnemonic: Mnemonic::STA, code: 0x8D, bytes: 3, cycles: 4, address_mode: AddressingMode::Absolute, unofficial: false },
        0x8E => Opcode { mnemonic: Mnemonic::STX, code: 0x8E, bytes: 3, cycles: 4, address_mode: AddressingMode::Absolute, unofficial: false },
        0x8F => Opcode { mnemonic: Mnemonic::AAX, code: 0x8F, bytes: 3, cycles: 4, address_mode: AddressingMode::Absolute, unofficial: true },
        0x90 => Opcode { mnemonic: Mnemonic::BCC, code: 0x90, bytes: 2, cycles: 2, address_mode: AddressingMode::Relative, unofficial: false },
        0x91 => Opcode { mnemonic: Mnemonic::STA, code: 0x91, bytes: 2, cycles: 6, address_mode: AddressingMode::IndirectIndexed, unofficial: false },
        0x92 => Opcode { mnemonic: Mnemonic::KIL, code: 0x92, bytes: 1, cycles: 0, address_mode: AddressingMode::Implied, unofficial: true },
        0x93 => Opcode { mnemonic: Mnemonic::AXA, code: 0x93, bytes: 2, cycles: 6, address_mode: AddressingMode::IndirectIndexed, unofficial: true },
        0x94 => Opcode { mnemonic: Mnemonic::STY, code: 0x94, bytes: 2, cycles: 4, address_mode: AddressingMode::ZeroPageX, unofficial: false },
        0x95 => Opcode { mnemonic: Mnemonic::STA, code: 0x95, bytes: 2, cycles: 4, address_mode: AddressingMode::ZeroPageX, unofficial: false },
        0x96 => Opcode { mnemonic: Mnemonic::STX, code: 0x96, bytes: 2, cycles: 4, address_mode: AddressingMode::ZeroPageY, unofficial: false },
        0x97 => Opcode { mnemonic: Mnemonic::AAX, code: 0x97, bytes: 2, cycles: 4, address_mode: AddressingMode::ZeroPageY, unofficial: true },
        0x98 => Opcode { mnemonic: Mnemonic::TYA, code: 0x98, bytes: 1, cycles: 2, address_mode: AddressingMode::Implied, unofficial: false },
        0x99 => Opcode { mnemonic: Mnemonic::STA, code: 0x99, bytes: 3, cycles: 5, address_mode: AddressingMode::AbsoluteY, unofficial: false },
        0x9A => Opcode { mnemonic: Mnemonic::TXS, code: 0x9A, bytes: 1, cycles: 2, address_mode: AddressingMode::Implied, unofficial: false },
        0x9B => Opcode { mnemonic: Mnemonic::XAS, code: 0x9B, bytes: 3, cycles: 5, address_mode: AddressingMode::AbsoluteY, unofficial: true },
        0x9C => Opcode { mnemonic: Mnemonic::SYA, code: 0x9C, bytes: 3, cycles: 5, address_mode: AddressingMode::AbsoluteX, unofficial: true },
        0x9D => Opcode { mnemonic: Mnemonic::STA, code: 0x9D, bytes: 3, cycles: 5, address_mode: AddressingMode::AbsoluteX, unofficial: false },
        0x9E => Opcode { mnemonic: Mnemonic::SXA, code: 0x9E, bytes: 3, cycles: 5, address_mode: AddressingMode::AbsoluteY, unofficial: true },
        0x9F => Opcode { mnemonic: Mnemonic::AXA, code: 0x9F, bytes: 3, cycles: 5, address_mode: AddressingMode::AbsoluteY, unofficial: true },
        0xA0 => Opcode { mnemonic: Mnemonic::LDY, code: 0xA0, bytes: 2, cycles: 2, address_mode: AddressingMode::Immediate, unofficial: false },
        0xA1 => Opcode { mnemonic: Mnemonic::LDA, code: 0xA1, bytes: 2, cycles: 4, address_mode: AddressingMode::IndexedIndirect, unofficial: false },
        0xA2 => Opcode { mnemonic: Mnemonic::LDX, code: 0xA2, bytes: 2, cycles: 2, address_mode: AddressingMode::Immediate, unofficial: false },
        0xA3 => Opcode { mnemonic: Mnemonic::LAX, code: 0xA3, bytes: 2, cycles: 6, address_mode: AddressingMode::IndexedIndirect, unofficial: true },
        0xA4 => Opcode { mnemonic: Mnemonic::LDY, code: 0xA4, bytes: 2, cycles: 3, address_mode: AddressingMode::ZeroPage, unofficial: false },
        0xA5 => Opcode { mnemonic: Mnemonic::LDA, code: 0xA5, bytes: 2, cycles: 3, address_mode: AddressingMode::ZeroPage, unofficial: false },
        0xA6 => Opcode { mnemonic: Mnemonic::LDX, code: 0xA6, bytes: 2, cycles: 3, address_mode: AddressingMode::ZeroPage, unofficial: false },
        0xA7 => Opcode { mnemonic: Mnemonic::LAX, code: 0xA7, bytes: 2, cycles: 3, address_mode: AddressingMode::ZeroPage, unofficial: true },
        0xA8 => Opcode { mnemonic: Mnemonic::TAY, code: 0xA8, bytes: 1, cycles: 2, address_mode: AddressingMode::Implied, unofficial: false },
        0xA9 => Opcode { mnemonic: Mnemonic::LDA, code: 0xA9, bytes: 2, cycles: 2, address_mode: AddressingMode::Immediate, unofficial: false },
        0xAA => Opcode { mnemonic: Mnemonic::TAX, code: 0xAA, bytes: 1, cycles: 2, address_mode: AddressingMode::Implied, unofficial: false },
        0xAB => Opcode { mnemonic: Mnemonic::ATX, code: 0xAB, bytes: 2, cycles: 2, address_mode: AddressingMode::Immediate, unofficial: true },
        0xAC => Opcode { mnemonic: Mnemonic::LDY, code: 0xAC, bytes: 3, cycles: 4, address_mode: AddressingMode::Absolute, unofficial: false },
        0xAD => Opcode { mnemonic: Mnemonic::LDA, code: 0xAD, bytes: 3, cycles: 4, address_mode: AddressingMode::Absolute, unofficial: false },
        0xAE => Opcode { mnemonic: Mnemonic::LDX, code: 0xAE, bytes: 3, cycles: 4, address_mode: AddressingMode::Absolute, unofficial: false },
        0xAF => Opcode { mnemonic: Mnemonic::LAX, code: 0xAF, bytes: 3, cycles: 4, address_mode: AddressingMode::Absolute, unofficial: true },
        0xB0 => Opcode { mnemonic: Mnemonic::BCS, code: 0xB0, bytes: 2, cycles: 2, address_mode: AddressingMode::Relative, unofficial: false },
        0xB1 => Opcode { mnemonic: Mnemonic::LDA, code: 0xB1, bytes: 2, cycles: 4, address_mode: AddressingMode::IndirectIndexed, unofficial: false },
        0xB2 => Opcode { mnemonic: Mnemonic::KIL, code: 0xB2, bytes: 1, cycles: 0, address_mode: AddressingMode::Implied, unofficial: true },
        0xB3 => Opcode { mnemonic: Mnemonic::LAX, code: 0xB3, bytes: 2, cycles: 5, address_mode: AddressingMode::IndirectIndexed, unofficial: true },
        0xB4 => Opcode { mnemonic: Mnemonic::LDY, code: 0xB4, bytes: 2, cycles: 4, address_mode: AddressingMode::ZeroPageX, unofficial: false },
        0xB5 => Opcode { mnemonic: Mnemonic::LDA, code: 0xB5, bytes: 2, cycles: 4, address_mode: AddressingMode::ZeroPageX, unofficial: false },
        0xB6 => Opcode { mnemonic: Mnemonic::LDX, code: 0xB6, bytes: 2, cycles: 4, address_mode: AddressingMode::ZeroPageY, unofficial: false },
        0xB7 => Opcode { mnemonic: Mnemonic::LAX, code: 0xB7, bytes: 2, cycles: 4, address_mode: AddressingMode::ZeroPageY, unofficial: true },
        0xB8 => Opcode { mnemonic: Mnemonic::CLV, code: 0xB8, bytes: 1, cycles: 2, address_mode: AddressingMode::Implied, unofficial: false },
        0xB9 => Opcode { mnemonic: Mnemonic::LDA, code: 0xB9, bytes: 3, cycles: 4, address_mode: AddressingMode::AbsoluteY, unofficial: false },
        0xBA => Opcode { mnemonic: Mnemonic::TSX, code: 0xBA, bytes: 1, cycles: 2, address_mode: AddressingMode::Implied, unofficial: false },
        0xBB => Opcode { mnemonic: Mnemonic::LAR, code: 0xBB, bytes: 3, cycles: 4, address_mode: AddressingMode::AbsoluteY, unofficial: true },
        0xBC => Opcode { mnemonic: Mnemonic::LDY, code: 0xBC, bytes: 3, cycles: 4, address_mode: AddressingMode::AbsoluteX, unofficial: false },
        0xBD => Opcode { mnemonic: Mnemonic::LDA, code: 0xBD, bytes: 3, cycles: 4, address_mode: AddressingMode::AbsoluteX, unofficial: false },
        0xBE => Opcode { mnemonic: Mnemonic::LDX, code: 0xBE, bytes: 3, cycles: 4, address_mode: AddressingMode::AbsoluteY, unofficial: false },
        0xBF => Opcode { mnemonic: Mnemonic::LAX, code: 0xBF, bytes: 3, cycles: 4, address_mode: AddressingMode::AbsoluteY, unofficial: true },
        0xC0 => Opcode { mnemonic: Mnemonic::CPY, code: 0xC0, bytes: 2, cycles: 2, address_mode: AddressingMode::Immediate, unofficial: false },
        0xC1 => Opcode { mnemonic: Mnemonic::CMP, code: 0xC1, bytes: 2, cycles: 6, address_mode: AddressingMode::IndexedIndirect, unofficial: false },
        0xC2 => Opcode { mnemonic: Mnemonic::NOP, code: 0xC2, bytes: 2, cycles: 2, address_mode: AddressingMode::Immediate, unofficial: true },
        0xC3 => Opcode { mnemonic: Mnemonic::DCP, code: 0xC3, bytes: 2, cycles: 8, address_mode: AddressingMode::IndexedIndirect, unofficial: true },
        0xC4 => Opcode { mnemonic: Mnemonic::CPY, code: 0xC4, bytes: 2, cycles: 3, address_mode: AddressingMode::ZeroPage, unofficial: false },
        0xC5 => Opcode { mnemonic: Mnemonic::CMP, code: 0xC5, bytes: 2, cycles: 3, address_mode: AddressingMode::ZeroPage, unofficial: false },
        0xC6 => Opcode { mnemonic: Mnemonic::DEC, code: 0xC6, bytes: 2, cycles: 5, address_mode: AddressingMode::ZeroPage, unofficial: false },
        0xC7 => Opcode { mnemonic: Mnemonic::DCP, code: 0xC7, bytes: 2, cycles: 5, address_mode: AddressingMode::ZeroPage, unofficial: true },
        0xC8 => Opcode { mnemonic: Mnemonic::INY, code: 0xC8, bytes: 1, cycles: 2, address_mode: AddressingMode::Implied, unofficial: false },
        0xC9 => Opcode { mnemonic: Mnemonic::CMP, code: 0xC9, bytes: 2, cycles: 2, address_mode: AddressingMode::Immediate, unofficial: false },
        0xCA => Opcode { mnemonic: Mnemonic::DEX, code: 0xCA, bytes: 1, cycles: 2, address_mode: AddressingMode::Implied, unofficial: false },
        0xCB => Opcode { mnemonic: Mnemonic::AXS, code: 0xCB, bytes: 2, cycles: 2, address_mode: AddressingMode::Immediate, unofficial: true },
        0xCC => Opcode { mnemonic: Mnemonic::CPY, code: 0xCC, bytes: 3, cycles: 4, address_mode: AddressingMode::Absolute, unofficial: false },
        0xCD => Opcode { mnemonic: Mnemonic::CMP, code: 0xCD, bytes: 3, cycles: 4, address_mode: AddressingMode::Absolute, unofficial: false },
        0xCE => Opcode { mnemonic: Mnemonic::DEC, code: 0xCE, bytes: 3, cycles: 6, address_mode: AddressingMode::Absolute, unofficial: false },
        0xCF => Opcode { mnemonic: Mnemonic::DCP, code: 0xCF, bytes: 3, cycles: 6, address_mode: AddressingMode::Absolute, unofficial: true },
        0xD0 => Opcode { mnemonic: Mnemonic::BNE, code: 0xD0, bytes: 2, cycles: 2, address_mode: AddressingMode::Relative, unofficial: false },
        0xD1 => Opcode { mnemonic: Mnemonic::CMP, code: 0xD1, bytes: 2, cycles: 5, address_mode: AddressingMode::IndirectIndexed, unofficial: false },
        0xD2 => Opcode { mnemonic: Mnemonic::KIL, code: 0xD2, bytes: 1, cycles: 0, address_mode: AddressingMode::Implied, unofficial: true },
        0xD3 => Opcode { mnemonic: Mnemonic::DCP, code: 0xD3, bytes: 2, cycles: 8, address_mode: AddressingMode::IndirectIndexed, unofficial: true },
        0xD4 => Opcode { mnemonic: Mnemonic::NOP, code: 0xD4, bytes: 2, cycles: 4, address_mode: AddressingMode::ZeroPageX, unofficial: true },
        0xD5 => Opcode { mnemonic: Mnemonic::CMP, code: 0xD5, bytes: 2, cycles: 4, address_mode: AddressingMode::ZeroPageX, unofficial: false },
        0xD6 => Opcode { mnemonic: Mnemonic::DEC, code: 0xD6, bytes: 2, cycles: 6, address_mode: AddressingMode::ZeroPageX, unofficial: false },
        0xD7 => Opcode { mnemonic: Mnemonic::DCP, code: 0xD7, bytes: 2, cycles: 6, address_mode: AddressingMode::ZeroPageX, unofficial: true },
        0xD8 => Opcode { mnemonic: Mnemonic::CLD, code: 0xD8, bytes: 1, cycles: 2, address_mode: AddressingMode::Implied, unofficial: false },
        0xD9 => Opcode { mnemonic: Mnemonic::CMP, code: 0xD9, bytes: 3, cycles: 4, address_mode: AddressingMode::AbsoluteY, unofficial: false },
        0xDA => Opcode { mnemonic: Mnemonic::NOP, code: 0xDA, bytes: 1, cycles: 2, address_mode: AddressingMode::Implied, unofficial: true },
        0xDB => Opcode { mnemonic: Mnemonic::DCP, code: 0xDB, bytes: 3, cycles: 7, address_mode: AddressingMode::AbsoluteY, unofficial: true },
        0xDC => Opcode { mnemonic: Mnemonic::NOP, code: 0xDC, bytes: 3, cycles: 4, address_mode: AddressingMode::AbsoluteX, unofficial: true },
        0xDD => Opcode { mnemonic: Mnemonic::CMP, code: 0xDD, bytes: 3, cycles: 4, address_mode: AddressingMode::AbsoluteX, unofficial: false },
        0xDE => Opcode { mnemonic: Mnemonic::DEC, code: 0xDE, bytes: 3, cycles: 7, address_mode: AddressingMode::AbsoluteX, unofficial: false },
        0xDF => Opcode { mnemonic: Mnemonic::DCP, code: 0xDF, bytes: 3, cycles: 7, address_mode: AddressingMode::AbsoluteX, unofficial: true },
        0xE0 => Opcode { mnemonic: Mnemonic::CPX, code: 0xE0, bytes: 2, cycles: 2, address_mode: AddressingMode::Immediate, unofficial: false },
        0xE1 => Opcode { mnemonic: Mnemonic::SBC, code: 0xE1, bytes: 2, cycles: 6, address_mode: AddressingMode::IndexedIndirect, unofficial: false },
        0xE2 => Opcode { mnemonic: Mnemonic::NOP, code: 0xE2, bytes: 2, cycles: 2, address_mode: AddressingMode::Immediate, unofficial: true },
        0xE3 => Opcode { mnemonic: Mnemonic::ISC, code: 0xE3, bytes: 2, cycles: 8, address_mode: AddressingMode::IndexedIndirect, unofficial: true },
        0xE4 => Opcode { mnemonic: Mnemonic::CPX, code: 0xE4, bytes: 2, cycles: 3, address_mode: AddressingMode::ZeroPage, unofficial: false },
        0xE5 => Opcode { mnemonic: Mnemonic::SBC, code: 0xE5, bytes: 2, cycles: 3, address_mode: AddressingMode::ZeroPage, unofficial: false },
        0xE6 => Opcode { mnemonic: Mnemonic::INC, code: 0xE6, bytes: 2, cycles: 5, address_mode: AddressingMode::ZeroPage, unofficial: false },
        0xE7 => Opcode { mnemonic: Mnemonic::ISC, code: 0xE7, bytes: 2, cycles: 5, address_mode: AddressingMode::ZeroPage, unofficial: true },
        0xE8 => Opcode { mnemonic: Mnemonic::INX, code: 0xE8, bytes: 1, cycles: 2, address_mode: AddressingMode::Implied, unofficial: false },
        0xE9 => Opcode { mnemonic: Mnemonic::SBC, code: 0xE9, bytes: 2, cycles: 2, address_mode: AddressingMode::Immediate, unofficial: false },
        0xEA => Opcode { mnemonic: Mnemonic::NOP, code: 0xEA, bytes: 1, cycles: 2, address_mode: AddressingMode::Implied, unofficial: false },
        0xEB => Opcode { mnemonic: Mnemonic::SBC, code: 0xEB, bytes: 2, cycles: 2, address_mode: AddressingMode::Immediate, unofficial: true },
        0xEC => Opcode { mnemonic: Mnemonic::CPX, code: 0xEC, bytes: 3, cycles: 4, address_mode: AddressingMode::Absolute, unofficial: false },
        0xED => Opcode { mnemonic: Mnemonic::SBC, code: 0xED, bytes: 3, cycles: 4, address_mode: AddressingMode::Absolute, unofficial: false },
        0xEE => Opcode { mnemonic: Mnemonic::INC, code: 0xEE, bytes: 3, cycles: 6, address_mode: AddressingMode::Absolute, unofficial: false },
        0xEF => Opcode { mnemonic: Mnemonic::ISC, code: 0xEF, bytes: 3, cycles: 6, address_mode: AddressingMode::Absolute, unofficial: true },
        0xF0 => Opcode { mnemonic: Mnemonic::BEQ, code: 0xF0, bytes: 2, cycles: 2, address_mode: AddressingMode::Relative, unofficial: false },
        0xF1 => Opcode { mnemonic: Mnemonic::SBC, code: 0xF1, bytes: 2, cycles: 5, address_mode: AddressingMode::IndirectIndexed, unofficial: false },
        0xF2 => Opcode { mnemonic: Mnemonic::KIL, code: 0xF2, bytes: 1, cycles: 0, address_mode: AddressingMode::Implied, unofficial: true },
        0xF3 => Opcode { mnemonic: Mnemonic::ISC, code: 0xF3, bytes: 2, cycles: 8, address_mode: AddressingMode::IndirectIndexed, unofficial: true },
        0xF4 => Opcode { mnemonic: Mnemonic::NOP, code: 0xF4, bytes: 2, cycles: 4, address_mode: AddressingMode::ZeroPageX, unofficial: true },
        0xF5 => Opcode { mnemonic: Mnemonic::SBC, code: 0xF5, bytes: 2, cycles: 4, address_mode: AddressingMode::ZeroPageX, unofficial: false },
        0xF6 => Opcode { mnemonic: Mnemonic::INC, code: 0xF6, bytes: 2, cycles: 6, address_mode: AddressingMode::ZeroPageX, unofficial: false },
        0xF7 => Opcode { mnemonic: Mnemonic::ISC, code: 0xF7, bytes: 2, cycles: 6, address_mode: AddressingMode::ZeroPageX, unofficial: true },
        0xF8 => Opcode { mnemonic: Mnemonic::SED, code: 0xF8, bytes: 1, cycles: 2, address_mode: AddressingMode::Implied, unofficial: false },
        0xF9 => Opcode { mnemonic: Mnemonic::SBC, code: 0xF9, bytes: 3, cycles: 4, address_mode: AddressingMode::AbsoluteY, unofficial: false },
        0xFA => Opcode { mnemonic: Mnemonic::NOP, code: 0xFA, bytes: 1, cycles: 2, address_mode: AddressingMode::Implied, unofficial: true },
        0xFB => Opcode { mnemonic: Mnemonic::ISC, code: 0xFB, bytes: 3, cycles: 7, address_mode: AddressingMode::AbsoluteY, unofficial: true },
        0xFC => Opcode { mnemonic: Mnemonic::NOP, code: 0xFC, bytes: 3, cycles: 4, address_mode: AddressingMode::AbsoluteX, unofficial: true },
        0xFD => Opcode { mnemonic: Mnemonic::SBC, code: 0xFD, bytes: 3, cycles: 4, address_mode: AddressingMode::AbsoluteX, unofficial: false },
        0xFE => Opcode { mnemonic: Mnemonic::INC, code: 0xFE, bytes: 3, cycles: 7, address_mode: AddressingMode::AbsoluteX, unofficial: false },
        0xFF => Opcode { mnemonic: Mnemonic::ISC, code: 0xFF, bytes: 3, cycles: 7, address_mode: AddressingMode::AbsoluteX, unofficial: true },
    }
}

/// Looks up the descriptor of an opcode byte.
pub fn get_opcode(code: u8) -> (r: Option<Opcode>)
    ensures
        r == Some(spec_opcode(code)),
        spec_opcode(code).code == code,
{
    reveal(spec_opcode);
    let op = match code {
        0x00 => Opcode { mnemonic: Mnemonic::BRK, code: 0x00, bytes: 1, cycles: 7, address_mode: AddressingMode::Implied, unofficial: false },
        0x01 => Opcode { mnemonic: Mnemonic::ORA, code: 0x01, bytes: 2, cycles: 6, address_mode: AddressingMode::IndexedIndirect, unofficial: false },
        0x02 => Opcode { mnemonic: Mnemonic::KIL, code: 0x02, bytes: 1, cycles: 0, address_mode: AddressingMode::Implied, unofficial: true },
        0x03 => Opcode { mnemonic: Mnemonic::SLO, code: 0x03, bytes: 2, cycles: 8, address_mode: AddressingMode::IndexedIndirect, unofficial: true },
        0x04 => Opcode { mnemonic: Mnemonic::NOP, code: 0x04, bytes: 2, cycles: 3, address_mode: AddressingMode::ZeroPage, unofficial: true },
        0x05 => Opcode { mnemonic: Mnemonic::ORA, code: 0x05, bytes: 2, cycles: 3, address_mode: AddressingMode::ZeroPage, unofficial: false },
        0x06 => Opcode { mnemonic: Mnemonic::ASL, code: 0x06, bytes: 2, cycles: 5, address_mode: AddressingMode::ZeroPage, unofficial: false },
        0x07 => Opcode { mnemonic: Mnemonic::SLO, code: 0x07, bytes: 2, cycles: 5, address_mode: AddressingMode::ZeroPage, unofficial: true },
        0x08 => Opcode { mnemonic: Mnemonic::PHP, code: 0x08, bytes: 1, cycles: 3, address_mode: AddressingMode::Implied, unofficial: false },
        0x09 => Opcode { mnemonic: Mnemonic::ORA, code: 0x09, bytes: 2, cycles: 2, address_mode: AddressingMode::Immediate, unofficial: false },
        0x0A => Opcode { mnemonic: Mnemonic::ASL, code: 0x0A, bytes: 1, cycles: 2, address_mode: AddressingMode::Accumulator, unofficial: false },
        0x0B => Opcode { mnemonic: Mnemonic::AAC, code: 0x0B, bytes: 2, cycles: 2, address_mode: AddressingMode::Immediate, unofficial: true },
        0x0C => Opcode { mnemonic: Mnemonic::NOP, code: 0x0C, bytes: 3, cycles: 4, address_mode: AddressingMode::Absolute, unofficial: true },
        0x0D => Opcode { mnemonic: Mnemonic::ORA, code: 0x0D, bytes: 3, cycles: 4, address_mode: AddressingMode::Absolute, unofficial: false },
        0x0E => Opcode { mnemonic: Mnemonic::ASL, code: 0x0E, bytes: 3, cycles: 6, address_mode: AddressingMode::Absolute, unofficial: false },
        0x0F => Opcode { mnemonic: Mnemonic::SLO, code: 0x0F, bytes: 3, cycles: 6, address_mode: AddressingMode::Absolute, unofficial: true },
        0x10 => Opcode { mnemonic: Mnemonic::BPL, code: 0x10, bytes: 2, cycles: 2, address_mode: AddressingMode::Relative, unofficial: false },
        0x11 => Opcode { mnemonic: Mnemonic::ORA, code: 0x11, bytes: 2, cycles: 5, address_mode: AddressingMode::IndirectIndexed, unofficial: false },
        0x12 => Opcode { mnemonic: Mnemonic::KIL, code: 0x12, bytes: 1, cycles: 0, address_mode: AddressingMode::Implied, unofficial: true },
        0x13 => Opcode { mnemonic: Mnemonic::SLO, code: 0x13, bytes: 2, cycles: 8, address_mode: AddressingMode::IndirectIndexed, unofficial: true },
        0x14 => Opcode { mnemonic: Mnemonic::NOP, code: 0x14, bytes: 2, cycles: 4, address_mode: AddressingMode::ZeroPageX, unofficial: true },
        0x15 => Opcode { mnemonic: Mnemonic::ORA, code: 0x15, bytes: 2, cycles: 4, address_mode: AddressingMode::ZeroPageX, unofficial: false },
        0x16 => Opcode { mnemonic: Mnemonic::ASL, code: 0x16, bytes: 2, cycles: 6, address_mode: AddressingMode::ZeroPageX, unofficial: false },
        0x17 => Opcode { mnemonic: Mnemonic::SLO, code: 0x17, bytes: 2, cycles: 6, address_mode: AddressingMode::ZeroPageX, unofficial: true },
        0x18 => Opcode { mnemonic: Mnemonic::CLC, code: 0x18, bytes: 1, cycles: 2, address_mode: AddressingMode::Implied, unofficial: false },
        0x19 => Opcode { mnemonic: Mnemonic::ORA, code: 0x19, bytes: 3, cycles: 4, address_mode: AddressingMode::AbsoluteY, unofficial: false },
        0x1A => Opcode { mnemonic: Mnemonic::NOP, code: 0x1A, bytes: 1, cycles: 2, address_mode: AddressingMode::Implied, unofficial: true },
        0x1B => Opcode { mnemonic: Mnemonic::SLO, code: 0x1B, bytes: 3, cycles: 7, address_mode: AddressingMode::AbsoluteY, unofficial: true },
        0x1C => Opcode { mnemonic: Mnemonic::NOP, code: 0x1C, bytes: 3, cycles: 4, address_mode: AddressingMode::AbsoluteX, unofficial: true },
        0x1D => Opcode { mnemonic: Mnemonic::ORA, code: 0x1D, bytes: 3, cycles: 4, address_mode: AddressingMode::AbsoluteX, unofficial: false },
        0x1E => Opcode { mnemonic: Mnemonic::ASL, code: 0x1E, bytes: 3, cycles: 7, address_mode: AddressingMode::AbsoluteX, unofficial: false },
        0x1F => Opcode { mnemonic: Mnemonic::SLO, code: 0x1F, bytes: 3, cycles: 7, address_mode: AddressingMode::AbsoluteX, unofficial: true },
        0x20 => Opcode { mnemonic: Mnemonic::JSR, code: 0x20, bytes: 3, cycles: 6, address_mode: AddressingMode::Absolute, unofficial: false },
        0x21 => Opcode { mnemonic: Mnemonic::AND, code: 0x21, bytes: 2, cycles: 6, address_mode: AddressingMode::IndexedIndirect, unofficial: false },
        0x22 => Opcode { mnemonic: Mnemonic::KIL, code: 0x22, bytes: 1, cycles: 0, address_mode: AddressingMode::Implied, unofficial: true },
        0x23 => Opcode { mnemonic: Mnemonic::RLA, code: 0x23, bytes: 2, cycles: 8, address_mode: AddressingMode::IndexedIndirect, unofficial: true },
        0x24 => Opcode { mnemonic: Mnemonic::BIT, code: 0x24, bytes: 2, cycles: 3, address_mode: AddressingMode::ZeroPage, unofficial: false },
        0x25 => Opcode { mnemonic: Mnemonic::AND, code: 0x25, bytes: 2, cycles: 3, address_mode: AddressingMode::ZeroPage, unofficial: false },
        0x26 => Opcode { mnemonic: Mnemonic::ROL, code: 0x26, bytes: 2, cycles: 5, address_mode: AddressingMode::ZeroPage, unofficial: false },
        0x27 => Opcode { mnemonic: Mnemonic::RLA, code: 0x27, bytes: 2, cycles: 5, address_mode: AddressingMode::ZeroPage, unofficial: true },
        0x28 => Opcode { mnemonic: Mnemonic::PLP, code: 0x28, bytes: 1, cycles: 4, address_mode: AddressingMode::Implied, unofficial: false },
        0x29 => Opcode { mnemonic: Mnemonic::AND, code: 0x29, bytes: 2, cycles: 2, address_mode: AddressingMode::Immediate, unofficial: false },
        0x2A => Opcode { mnemonic: Mnemonic::ROL, code: 0x2A, bytes: 1, cycles: 2, address_mode: AddressingMode::Accumulator, unofficial: false },
        0x2B => Opcode { mnemonic: Mnemonic::AAC, code: 0x2B, bytes: 2, cycles: 2, address_mode: AddressingMode::Immediate, unofficial: true },
        0x2C => Opcode { mnemonic: Mnemonic::BIT, code: 0x2C, bytes: 3, cycles: 4, address_mode: AddressingMode::Absolute, unofficial: false },
        0x2D => Opcode { mnemonic: Mnemonic::AND, code: 0x2D, bytes: 3, cycles: 4, address_mode: AddressingMode::Absolute, unofficial: false },
        0x2E => Opcode { mnemonic: Mnemonic::ROL, code: 0x2E, bytes: 3, cycles: 6, address_mode: AddressingMode::Absolute, unofficial: false },
        0x2F => Opcode { mnemonic: Mnemonic::RLA, code: 0x2F, bytes: 3, cycles: 6, address_mode: AddressingMode::Absolute, unofficial: true },
        0x30 => Opcode { mnemonic: Mnemonic::BMI, code: 0x30, bytes: 2, cycles: 2, address_mode: AddressingMode::Relative, unofficial: false },
        0x31 => Opcode { mnemonic: Mnemonic::AND, code: 0x31, bytes: 2, cycles: 5, address_mode: AddressingMode::IndirectIndexed, unofficial: false },
        0x32 => Opcode { mnemonic: Mnemonic::KIL, code: 0x32, bytes: 1, cycles: 0, address_mode: AddressingMode::Implied, unofficial: true },
        0x33 => Opcode { mnemonic: Mnemonic::RLA, code: 0x33, bytes: 2, cycles: 8, address_mode: AddressingMode::IndirectIndexed, unofficial: true },
        0x34 => Opcode { mnemonic: Mnemonic::NOP, code: 0x34, bytes: 2, cycles: 4, address_mode: AddressingMode::ZeroPageX, unofficial: true },
        0x35 => Opcode { mnemonic: Mnemonic::AND, code: 0x35, bytes: 2, cycles: 4, address_mode: AddressingMode::ZeroPageX, unofficial: false },
        0x36 => Opcode { mnemonic: Mnemonic::ROL, code: 0x36, bytes: 2, cycles: 6, address_mode: AddressingMode::ZeroPageX, unofficial: false },
        0x37 => Opcode { mnemonic: Mnemonic::RLA, code: 0x37, bytes: 2, cycles: 6, address_mode: AddressingMode::ZeroPageX, unofficial: true },
        0x38 => Opcode { mnemonic: Mnemonic::SEC, code: 0x38, bytes: 1, cycles: 2, address_mode: AddressingMode::Implied, unofficial: false },
        0x39 => Opcode { mnemonic: Mnemonic::AND, code: 0x39, bytes: 3, cycles: 4, address_mode: AddressingMode::AbsoluteY, unofficial: false },
        0x3A => Opcode { mnemonic: Mnemonic::NOP, code: 0x3A, bytes: 1, cycles: 2, address_mode: AddressingMode::Implied, unofficial: true },
        0x3B => Opcode { mnemonic: Mnemonic::RLA, code: 0x3B, bytes: 3, cycles: 7, address_mode: AddressingMode::AbsoluteY, unofficial: true },
        0x3C => Opcode { mnemonic: Mnemonic::NOP, code: 0x3C, bytes: 3, cycles: 4, address_mode: AddressingMode::AbsoluteX, unofficial: true },
        0x3D => Opcode { mnemonic: Mnemonic::AND, code: 0x3D, bytes: 3, cycles: 4, address_mode: AddressingMode::AbsoluteX, unofficial: false },
        0x3E => Opcode { mnemonic: Mnemonic::ROL, code: 0x3E, bytes: 3, cycles: 7, address_mode: AddressingMode::AbsoluteX, unofficial: false },
        0x3F => Opcode { mnemonic: Mnemonic::RLA, code: 0x3F, bytes: 3, cycles: 7, address_mode: AddressingMode::AbsoluteX, unofficial: true },
        0x40 => Opcode { mnemonic: Mnemonic::RTI, code: 0x40, bytes: 1, cycles: 6, address_mode: AddressingMode::Implied, unofficial: false },
        0x41 => Opcode { mnemonic: Mnemonic::EOR, code: 0x41, bytes: 2, cycles: 6, address_mode: AddressingMode::IndexedIndirect, unofficial: false },
        0x42 => Opcode { mnemonic: Mnemonic::KIL, code: 0x42, bytes: 1, cycles: 0, address_mode: AddressingMode::Implied, unofficial: true },
        0x43 => Opcode { mnemonic: Mnemonic::SRE, code: 0x43, bytes: 2, cycles: 8, address_mode: AddressingMode::IndexedIndirect, unofficial: true },
        0x44 => Opcode { mnemonic: Mnemonic::NOP, code: 0x44, bytes: 2, cycles: 3, address_mode: AddressingMode::ZeroPage, unofficial: true },
        0x45 => Opcode { mnemonic: Mnemonic::EOR, code: 0x45, bytes: 2, cycles: 3, address_mode: AddressingMode::ZeroPage, unofficial: false },
        0x46 => Opcode { mnemonic: Mnemonic::LSR, code: 0x46, bytes: 2, cycles: 5, address_mode: AddressingMode::ZeroPage, unofficial: false },
        0x47 => Opcode { mnemonic: Mnemonic::SRE, code: 0x47, bytes: 2, cycles: 5, address_mode: AddressingMode::ZeroPage, unofficial: true },
        0x48 => Opcode { mnemonic: Mnemonic::PHA, code: 0x48, bytes: 1, cycles: 3, address_mode: AddressingMode::Implied, unofficial: false },
        0x49 => Opcode { mnemonic: Mnemonic::EOR, code: 0x49, bytes: 2, cycles: 2, address_mode: AddressingMode::Immediate, unofficial: false },
        0x4A => Opcode { mnemonic: Mnemonic::LSR, code: 0x4A, bytes: 1, cycles: 2, address_mode: AddressingMode::Accumulator, unofficial: false },
        0x4B => Opcode { mnemonic: Mnemonic::ASR, code: 0x4B, bytes: 2, cycles: 2, address_mode: AddressingMode::Immediate, unofficial: true },
        0x4C => Opcode { mnemonic: Mnemonic::JMP, code: 0x4C, bytes: 3, cycles: 3, address_mode: AddressingMode::Absolute, unofficial: false },
        0x4D => Opcode { mnemonic: Mnemonic::EOR, code: 0x4D, bytes: 3, cycles: 4, address_mode: AddressingMode::Absolute, unofficial: false },
        0x4E => Opcode { mnemonic: Mnemonic::LSR, code: 0x4E, bytes: 3, cycles: 6, address_mode: AddressingMode::Absolute, unofficial: false },
        0x4F => Opcode { mnemonic: Mnemonic::SRE, code: 0x4F, bytes: 3, cycles: 6, address_mode: AddressingMode::Absolute, unofficial: true },
        0x50 => Opcode { mnemonic: Mnemonic::BVC, code: 0x50, bytes: 2, cycles: 2, address_mode: AddressingMode::Relative, unofficial: false },
        0x51 => Opcode { mnemonic: Mnemonic::EOR, code: 0x51, bytes: 2, cycles: 5, address_mode: AddressingMode::IndirectIndexed, unofficial: false },
        0x52 => Opcode { mnemonic: Mnemonic::KIL, code: 0x52, bytes: 1, cycles: 0, address_mode: AddressingMode::Implied, unofficial: true },
        0x53 => Opcode { mnemonic: Mnemonic::SRE, code: 0x53, bytes: 2, cycles: 8, address_mode: AddressingMode::IndirectIndexed, unofficial: true },
        0x54 => Opcode { mnemonic: Mnemonic::NOP, code: 0x54, bytes: 2, cycles: 4, address_mode: AddressingMode::ZeroPageX, unofficial: true },
        0x55 => Opcode { mnemonic: Mnemonic::EOR, code: 0x55, bytes: 2, cycles: 4, address_mode: AddressingMode::ZeroPageX, unofficial: false },
        0x56 => Opcode { mnemonic: Mnemonic::LSR, code: 0x56, bytes: 2, cycles: 6, address_mode: AddressingMode::ZeroPageX, unofficial: false },
        0x57 => Opcode { mnemonic: Mnemonic::SRE, code: 0x57, bytes: 2, cycles: 6, address_mode: AddressingMode::ZeroPageX, unofficial: true },
        0x58 => Opcode { mnemonic: Mnemonic::CLI, code: 0x58, bytes: 1, cycles: 2, address_mode: AddressingMode::Implied, unofficial: false },
        0x59 => Opcode { mnemonic: Mnemonic::EOR, code: 0x59, bytes: 3, cycles: 4, address_mode: AddressingMode::AbsoluteY, unofficial: false },
        0x5A => Opcode { mnemonic: Mnemonic::NOP, code: 0x5A, bytes: 1, cycles: 2, address_mode: AddressingMode::Implied, unofficial: true },
        0x5B => Opcode { mnemonic: Mnemonic::SRE, code: 0x5B, bytes: 3, cycles: 7, address_mode: AddressingMode::AbsoluteY, unofficial: true },
        0x5C => Opcode { mnemonic: Mnemonic::NOP, code: 0x5C, bytes: 3, cycles: 4, address_mode: AddressingMode::AbsoluteX, unofficial: true },
        0x5D => Opcode { mnemonic: Mnemonic::EOR, code: 0x5D, bytes: 3, cycles: 4, address_mode: AddressingMode::AbsoluteX, unofficial: false },
        0x5E => Opcode { mnemonic: Mnemonic::LSR, code: 0x5E, bytes: 3, cycles: 7, address_mode: AddressingMode::AbsoluteX, unofficial: false },
        0x5F => Opcode { mnemonic: Mnemonic::SRE, code: 0x5F, bytes: 3, cycles: 7, address_mode: AddressingMode::AbsoluteX, unofficial: true },
        0x60 => Opcode { mnemonic: Mnemonic::RTS, code: 0x60, bytes: 1, cycles: 6, address_mode: AddressingMode::Implied, unofficial: false },
        0x61 => Opcode { mnemonic: Mnemonic::ADC, code: 0x61, bytes: 2, cycles: 6, address_mode: AddressingMode::IndexedIndirect, unofficial: false },
        0x62 => Opcode { mnemonic: Mnemonic::KIL, code: 0x62, bytes: 1, cycles: 0, address_mode: AddressingMode::Implied, unofficial: true },
        0x63 => Opcode { mnemonic: Mnemonic::RRA, code: 0x63, bytes: 2, cycles: 8, address_mode: AddressingMode::IndexedIndirect, unofficial: true },
        0x64 => Opcode { mnemonic: Mnemonic::NOP, code: 0x64, bytes: 2, cycles: 3, address_mode: AddressingMode::ZeroPage, unofficial: true },
        0x65 => Opcode { mnemonic: Mnemonic::ADC, code: 0x65, bytes: 2, cycles: 3, address_mode: AddressingMode::ZeroPage, unofficial: false },
        0x66 => Opcode { mnemonic: Mnemonic::ROR, code: 0x66, bytes: 2, cycles: 5, address_mode: AddressingMode::ZeroPage, unofficial: false },
        0x67 => Opcode { mnemonic: Mnemonic::RRA, code: 0x67, bytes: 2, cycles: 5, address_mode: AddressingMode::ZeroPage, unofficial: true },
        0x68 => Opcode { mnemonic: Mnemonic::PLA, code: 0x68, bytes: 1, cycles: 4, address_mode: AddressingMode::Implied, unofficial: false },
        0x69 => Opcode { mnemonic: Mnemonic::ADC, code: 0x69, bytes: 2, cycles: 2, address_mode: AddressingMode::Immediate, unofficial: false },
        0x6A => Opcode { mnemonic: Mnemonic::ROR, code: 0x6A, bytes: 1, cycles: 2, address_mode: AddressingMode::Accumulator, unofficial: false },
        0x6B => Opcode { mnemonic: Mnemonic::ARR, code: 0x6B, bytes: 2, cycles: 2, address_mode: AddressingMode::Immediate, unofficial: true },
        0x6C => Opcode { mnemonic: Mnemonic::JMP, code: 0x6C, bytes: 3, cycles: 5, address_mode: AddressingMode::Indirect, unofficial: false },
        0x6D => Opcode { mnemonic: Mnemonic::ADC, code: 0x6D, bytes: 3, cycles: 4, address_mode: AddressingMode::Absolute, unofficial: false },
        0x6E => Opcode { mnemonic: Mnemonic::ROR, code: 0x6E, bytes: 3, cycles: 6, address_mode: AddressingMode::Absolute, unofficial: false },
        0x6F => Opcode { mnemonic: Mnemonic::RRA, code: 0x6F, bytes: 3, cycles: 6, address_mode: AddressingMode::Absolute, unofficial: true },
        0x70 => Opcode { mnemonic: Mnemonic::BVS, code: 0x70, bytes: 2, cycles: 2, address_mode: AddressingMode::Relative, unofficial: false },
        0x71 => Opcode { mnemonic: Mnemonic::ADC, code: 0x71, bytes: 2, cycles: 5, address_mode: AddressingMode::IndirectIndexed, unofficial: false },
        0x72 => Opcode { mnemonic: Mnemonic::KIL, code: 0x72, bytes: 1, cycles: 0, address_mode: AddressingMode::Implied, unofficial: true },
        0x73 => Opcode { mnemonic: Mnemonic::RRA, code: 0x73, bytes: 2, cycles: 8, address_mode: AddressingMode::IndirectIndexed, unofficial: true },
        0x74 => Opcode { mnemonic: Mnemonic::NOP, code: 0x74, bytes: 2, cycles: 4, address_mode: AddressingMode::ZeroPageX, unofficial: true },
        0x75 => Opcode { mnemonic: Mnemonic::ADC, code: 0x75, bytes: 2, cycles: 4, address_mode: AddressingMode::ZeroPageX, unofficial: false },
        0x76 => Opcode { mnemonic: Mnemonic::ROR, code: 0x76, bytes: 2, cycles: 6, address_mode: AddressingMode::ZeroPageX, unofficial: false },
        0x77 => Opcode { mnemonic: Mnemonic::RRA, code: 0x77, bytes: 2, cycles: 6, address_mode: AddressingMode::ZeroPageX, unofficial: true },
        0x78 => Opcode { mnemonic: Mnemonic::SEI, code: 0x78, bytes: 1, cycles: 2, address_mode: AddressingMode::Implied, unofficial: false },
        0x79 => Opcode { mnemonic: Mnemonic::ADC, code: 0x79, bytes: 3, cycles: 4, address_mode: AddressingMode::AbsoluteY, unofficial: false },
        0x7A => Opcode { mnemonic: Mnemonic::NOP, code: 0x7A, bytes: 1, cycles: 2, address_mode: AddressingMode::Implied, unofficial: true },
        0x7B => Opcode { mnemonic: Mnemonic::RRA, code: 0x7B, bytes: 3, cycles: 7, address_mode: AddressingMode::AbsoluteY, unofficial: true },
        0x7C => Opcode { mnemonic: Mnemonic::NOP, code: 0x7C, bytes: 3, cycles: 4, address_mode: AddressingMode::AbsoluteX, unofficial: true },
        0x7D => Opcode { mnemonic: Mnemonic::ADC, code: 0x7D, bytes: 3, cycles: 4, address_mode: AddressingMode::AbsoluteX, unofficial: false },
        0x7E => Opcode { mnemonic: Mnemonic::ROR, code: 0x7E, bytes: 3, cycles: 7, address_mode: AddressingMode::AbsoluteX, unofficial: false },
        0x7F => Opcode { mnemonic: Mnemonic::RRA, code: 0x7F, bytes: 3, cycles: 7, address_mode: AddressingMode::AbsoluteX, unofficial: true },
        0x80 => Opcode { mnemonic: Mnemonic::NOP, code: 0x80, bytes: 2, cycles: 2, address_mode: AddressingMode::Immediate, unofficial: true },
        0x81 => Opcode { mnemonic: Mnemonic::STA, code: 0x81, bytes: 2, cycles: 6, address_mode: AddressingMode::IndexedIndirect, unofficial: false },
        0x82 => Opcode { mnemonic: Mnemonic::NOP, code: 0x82, bytes: 2, cycles: 2, address_mode: AddressingMode::Immediate, unofficial: true },
        0x83 => Opcode { mnemonic: Mnemonic::AAX, code: 0x83, bytes: 2, cycles: 6, address_mode: AddressingMode::IndexedIndirect, unofficial: true },
        0x84 => Opcode { mnemonic: Mnemonic::STY, code: 0x84, bytes: 2, cycles: 3, address_mode: AddressingMode::ZeroPage, unofficial: false },
        0x85 => Opcode { mnemonic: Mnemonic::STA, code: 0x85, bytes: 2, cycles: 3, address_mode: AddressingMode::ZeroPage, unofficial: false },
        0x86 => Opcode { mnemonic: Mnemonic::STX, code: 0x86, bytes: 2, cycles: 3, address_mode: AddressingMode::ZeroPage, unofficial: false },
        0x87 => Opcode { mnemonic: Mnemonic::AAX, code: 0x87, bytes: 2, cycles: 3, address_mode: AddressingMode::ZeroPage, unofficial: true },
        0x88 => Opcode { mnemonic: Mnemonic::DEY, code: 0x88, bytes: 1, cycles: 2, address_mode: AddressingMode::Implied, unofficial: false },
        0x89 => Opcode { mnemonic: Mnemonic::NOP, code: 0x89, bytes: 2, cycles: 2, address_mode: AddressingMode::Immediate, unofficial: true },
        0x8A => Opcode { mnemonic: Mnemonic::TXA, code: 0x8A, bytes: 1, cycles: 2, address_mode: AddressingMode::Implied, unofficial: false },
        0x8B => Opcode { mnemonic: Mnemonic::XAA, code: 0x8B, bytes: 2, cycles: 2, address_mode: AddressingMode::Immediate, unofficial: true },
        0x8C => Opcode { mnemonic: Mnemonic::STY, code: 0x8C, bytes: 3, cycles: 4, address_mode: AddressingMode::Absolute, unofficial: false },
        0x8D => Opcode { mnemonic: Mnemonic::STA, code: 0x8D, bytes: 3, cycles: 4, address_mode: AddressingMode::Absolute, unofficial: false },
        0x8E => Opcode { mnemonic: Mnemonic::STX, code: 0x8E, bytes: 3, cycles: 4, address_mode: AddressingMode::Absolute, unofficial: false },
        0x8F => Opcode { mnemonic: Mnemonic::AAX, code: 0x8F, bytes: 3, cycles: 4, address_mode: AddressingMode::Absolute, unofficial: true },
        0x90 => Opcode { mnemonic: Mnemonic::BCC, code: 0x90, bytes: 2, cycles: 2, address_mode: AddressingMode::Relative, unofficial: false },
        0x91 => Opcode { mnemonic: Mnemonic::STA, code: 0x91, bytes: 2, cycles: 6, address_mode: AddressingMode::IndirectIndexed, unofficial: false },
        0x92 => Opcode { mnemonic: Mnemonic::KIL, code: 0x92, bytes: 1, cycles: 0, address_mode: AddressingMode::Implied, unofficial: true },
        0x93 => Opcode { mnemonic: Mnemonic::AXA, code: 0x93, bytes: 2, cycles: 6, address_mode: AddressingMode::IndirectIndexed, unofficial: true },
        0x94 => Opcode { mnemonic: Mnemonic::STY, code: 0x94, bytes: 2, cycles: 4, address_mode: AddressingMode::ZeroPageX, unofficial: false },
        0x95 => Opcode { mnemonic: Mnemonic::STA, code: 0x95, bytes: 2, cycles: 4, address_mode: AddressingMode::ZeroPageX, unofficial: false },
        0x96 => Opcode { mnemonic: Mnemonic::STX, code: 0x96, bytes: 2, cycles: 4, address_mode: AddressingMode::ZeroPageY, unofficial: false },
        0x97 => Opcode { mnemonic: Mnemonic::AAX, code: 0x97, bytes: 2, cycles: 4, address_mode: AddressingMode::ZeroPageY, unofficial: true },
        0x98 => Opcode { mnemonic: Mnemonic::TYA, code: 0x98, bytes: 1, cycles: 2, address_mode: AddressingMode::Implied, unofficial: false },
        0x99 => Opcode { mnemonic: Mnemonic::STA, code: 0x99, bytes: 3, cycles: 5, address_mode: AddressingMode::AbsoluteY, unofficial: false },
        0x9A => Opcode { mnemonic: Mnemonic::TXS, code: 0x9A, bytes: 1, cycles: 2, address_mode: AddressingMode::Implied, unofficial: false },
        0x9B => Opcode { mnemonic: Mnemonic::XAS, code: 0x9B, bytes: 3, cycles: 5, address_mode: AddressingMode::AbsoluteY, unofficial: true },
        0x9C => Opcode { mnemonic: Mnemonic::SYA, code: 0x9C, bytes: 3, cycles: 5, address_mode: AddressingMode::AbsoluteX, unofficial: true },
        0x9D => Opcode { mnemonic: Mnemonic::STA, code: 0x9D, bytes: 3, cycles: 5, address_mode: AddressingMode::AbsoluteX, unofficial: false },
        0x9E => Opcode { mnemonic: Mnemonic::SXA, code: 0x9E, bytes: 3, cycles: 5, address_mode: AddressingMode::AbsoluteY, unofficial: true },
        0x9F => Opcode { mnemonic: Mnemonic::AXA, code: 0x9F, bytes: 3, cycles: 5, address_mode: AddressingMode::AbsoluteY, unofficial: true },
        0xA0 => Opcode { mnemonic: Mnemonic::LDY, code: 0xA0, bytes: 2, cycles: 2, address_mode: AddressingMode::Immediate, unofficial: false },
        0xA1 => Opcode { mnemonic: Mnemonic::LDA, code: 0xA1, bytes: 2, cycles: 4, address_mode: AddressingMode::IndexedIndirect, unofficial: false },
        0xA2 => Opcode { mnemonic: Mnemonic::LDX, code: 0xA2, bytes: 2, cycles: 2, address_mode: AddressingMode::Immediate, unofficial: false },
        0xA3 => Opcode { mnemonic: Mnemonic::LAX, code: 0xA3, bytes: 2, cycles: 6, address_mode: AddressingMode::IndexedIndirect, unofficial: true },
        0xA4 => Opcode { mnemonic: Mnemonic::LDY, code: 0xA4, bytes: 2, cycles: 3, address_mode: AddressingMode::ZeroPage, unofficial: false },
        0xA5 => Opcode { mnemonic: Mnemonic::LDA, code: 0xA5, bytes: 2, cycles: 3, address_mode: AddressingMode::ZeroPage, unofficial: false },
        0xA6 => Opcode { mnemonic: Mnemonic::LDX, code: 0xA6, bytes: 2, cycles: 3, address_mode: AddressingMode::ZeroPage, unofficial: false },
        0xA7 => Opcode { mnemonic: Mnemonic::LAX, code: 0xA7, bytes: 2, cycles: 3, address_mode: AddressingMode::ZeroPage, unofficial: true },
        0xA8 => Opcode { mnemonic: Mnemonic::TAY, code: 0xA8, bytes: 1, cycles: 2, address_mode: AddressingMode::Implied, unofficial: false },
        0xA9 => Opcode { mnemonic: Mnemonic::LDA, code: 0xA9, bytes: 2, cycles: 2, address_mode: AddressingMode::Immediate, unofficial: false },
        0xAA => Opcode { mnemonic: Mnemonic::TAX, code: 0xAA, bytes: 1, cycles: 2, address_mode: AddressingMode::Implied, unofficial: false },
        0xAB => Opcode { mnemonic: Mnemonic::ATX, code: 0xAB, bytes: 2, cycles: 2, address_mode: AddressingMode::Immediate, unofficial: true },
        0xAC => Opcode { mnemonic: Mnemonic::LDY, code: 0xAC, bytes: 3, cycles: 4, address_mode: AddressingMode::Absolute, unofficial: false },
        0xAD => Opcode { mnemonic: Mnemonic::LDA, code: 0xAD, bytes: 3, cycles: 4, address_mode: AddressingMode::Absolute, unofficial: false },
        0xAE => Opcode { mnemonic: Mnemonic::LDX, code: 0xAE, bytes: 3, cycles: 4, address_mode: AddressingMode::Absolute, unofficial: false },
        0xAF => Opcode { mnemonic: Mnemonic::LAX, code: 0xAF, bytes: 3, cycles: 4, address_mode: AddressingMode::Absolute, unofficial: true },
        0xB0 => Opcode { mnemonic: Mnemonic::BCS, code: 0xB0, bytes: 2, cycles: 2, address_mode: AddressingMode::Relative, unofficial: false },
        0xB1 => Opcode { mnemonic: Mnemonic::LDA, code: 0xB1, bytes: 2, cycles: 4, address_mode: AddressingMode::IndirectIndexed, unofficial: false },
        0xB2 => Opcode { mnemonic: Mnemonic::KIL, code: 0xB2, bytes: 1, cycles: 0, address_mode: AddressingMode::Implied, unofficial: true },
        0xB3 => Opcode { mnemonic: Mnemonic::LAX, code: 0xB3, bytes: 2, cycles: 5, address_mode: AddressingMode::IndirectIndexed, unofficial: true },
        0xB4 => Opcode { mnemonic: Mnemonic::LDY, code: 0xB4, bytes: 2, cycles: 4, address_mode: AddressingMode::ZeroPageX, unofficial: false },
        0xB5 => Opcode { mnemonic: Mnemonic::LDA, code: 0xB5, bytes: 2, cycles: 4, address_mode: AddressingMode::ZeroPageX, unofficial: false },
        0xB6 => Opcode { mnemonic: Mnemonic::LDX, code: 0xB6, bytes: 2, cycles: 4, address_mode: AddressingMode::ZeroPageY, unofficial: false },
        0xB7 => Opcode { mnemonic: Mnemonic::LAX, code: 0xB7, bytes: 2, cycles: 4, address_mode: AddressingMode::ZeroPageY, unofficial: true },
        0xB8 => Opcode { mnemonic: Mnemonic::CLV, code: 0xB8, bytes: 1, cycles: 2, address_mode: AddressingMode::Implied, unofficial: false },
        0xB9 => Opcode { mnemonic: Mnemonic::LDA, code: 0xB9, bytes: 3, cycles: 4, address_mode: AddressingMode::AbsoluteY, unofficial: false },
        0xBA => Opcode { mnemonic: Mnemonic::TSX, code: 0xBA, bytes: 1, cycles: 2, address_mode: AddressingMode::Implied, unofficial: false },
        0xBB => Opcode { mnemonic: Mnemonic::LAR, code: 0xBB, bytes: 3, cycles: 4, address_mode: AddressingMode::AbsoluteY, unofficial: true },
        0xBC => Opcode { mnemonic: Mnemonic::LDY, code: 0xBC, bytes: 3, cycles: 4, address_mode: AddressingMode::AbsoluteX, unofficial: false },
        0xBD => Opcode { mnemonic: Mnemonic::LDA, code: 0xBD, bytes: 3, cycles: 4, address_mode: AddressingMode::AbsoluteX, unofficial: false },
        0xBE => Opcode { mnemonic: Mnemonic::LDX, code: 0xBE, bytes: 3, cycles: 4, address_mode: AddressingMode::AbsoluteY, unofficial: false },
        0xBF => Opcode { mnemonic: Mnemonic::LAX, code: 0xBF, bytes: 3, cycles: 4, address_mode: AddressingMode::AbsoluteY, unofficial: true },
        0xC0 => Opcode { mnemonic: Mnemonic::CPY, code: 0xC0, bytes: 2, cycles: 2, address_mode: AddressingMode::Immediate, unofficial: false },
        0xC1 => Opcode { mnemonic: Mnemonic::CMP, code: 0xC1, bytes: 2, cycles: 6, address_mode: AddressingMode::IndexedIndirect, unofficial: false },
        0xC2 => Opcode { mnemonic: Mnemonic::NOP, code: 0xC2, bytes: 2, cycles: 2, address_mode: AddressingMode::Immediate, unofficial: true },
        0xC3 => Opcode { mnemonic: Mnemonic::DCP, code: 0xC3, bytes: 2, cycles: 8, address_mode: AddressingMode::IndexedIndirect, unofficial: true },
        0xC4 => Opcode { mnemonic: Mnemonic::CPY, code: 0xC4, bytes: 2, cycles: 3, address_mode: AddressingMode::ZeroPage, unofficial: false },
        0xC5 => Opcode { mnemonic: Mnemonic::CMP, code: 0xC5, bytes: 2, cycles: 3, address_mode: AddressingMode::ZeroPage, unofficial: false },
        0xC6 => Opcode { mnemonic: Mnemonic::DEC, code: 0xC6, bytes: 2, cycles: 5, address_mode: AddressingMode::ZeroPage, unofficial: false },
        0xC7 => Opcode { mnemonic: Mnemonic::DCP, code: 0xC7, bytes: 2, cycles: 5, address_mode: AddressingMode::ZeroPage, unofficial: true },
        0xC8 => Opcode { mnemonic: Mnemonic::INY, code: 0xC8, bytes: 1, cycles: 2, address_mode: AddressingMode::Implied, unofficial: false },
        0xC9 => Opcode { mnemonic: Mnemonic::CMP, code: 0xC9, bytes: 2, cycles: 2, address_mode: AddressingMode::Immediate, unofficial: false },
        0xCA => Opcode { mnemonic: Mnemonic::DEX, code: 0xCA, bytes: 1, cycles: 2, address_mode: AddressingMode::Implied, unofficial: false },
        0xCB => Opcode { mnemonic: Mnemonic::AXS, code: 0xCB, bytes: 2, cycles: 2, address_mode: AddressingMode::Immediate, unofficial: true },
        0xCC => Opcode { mnemonic: Mnemonic::CPY, code: 0xCC, bytes: 3, cycles: 4, address_mode: AddressingMode::Absolute, unofficial: false },
        0xCD => Opcode { mnemonic: Mnemonic::CMP, code: 0xCD, bytes: 3, cycles: 4, address_mode: AddressingMode::Absolute, unofficial: false },
        0xCE => Opcode { mnemonic: Mnemonic::DEC, code: 0xCE, bytes: 3, cycles: 6, address_mode: AddressingMode::Absolute, unofficial: false },
        0xCF => Opcode { mnemonic: Mnemonic::DCP, code: 0xCF, bytes: 3, cycles: 6, address_mode: AddressingMode::Absolute, unofficial: true },
        0xD0 => Opcode { mnemonic: Mnemonic::BNE, code: 0xD0, bytes: 2, cycles: 2, address_mode: AddressingMode::Relative, unofficial: false },
        0xD1 => Opcode { mnemonic: Mnemonic::CMP, code: 0xD1, bytes: 2, cycles: 5, address_mode: AddressingMode::IndirectIndexed, unofficial: false },
        0xD2 => Opcode { mnemonic: Mnemonic::KIL, code: 0xD2, bytes: 1, cycles: 0, address_mode: AddressingMode::Implied, unofficial: true },
        0xD3 => Opcode { mnemonic: Mnemonic::DCP, code: 0xD3, bytes: 2, cycles: 8, address_mode: AddressingMode::IndirectIndexed, unofficial: true },
        0xD4 => Opcode { mnemonic: Mnemonic::NOP, code: 0xD4, bytes: 2, cycles: 4, address_mode: AddressingMode::ZeroPageX, unofficial: true },
        0xD5 => Opcode { mnemonic: Mnemonic::CMP, code: 0xD5, bytes: 2, cycles: 4, address_mode: AddressingMode::ZeroPageX, unofficial: false },
        0xD6 => Opcode { mnemonic: Mnemonic::DEC, code: 0xD6, bytes: 2, cycles: 6, address_mode: AddressingMode::ZeroPageX, unofficial: false },
        0xD7 => Opcode { mnemonic: Mnemonic::DCP, code: 0xD7, bytes: 2, cycles: 6, address_mode: AddressingMode::ZeroPageX, unofficial: true },
        0xD8 => Opcode { mnemonic: Mnemonic::CLD, code: 0xD8, bytes: 1, cycles: 2, address_mode: AddressingMode::Implied, unofficial: false },
        0xD9 => Opcode { mnemonic: Mnemonic::CMP, code: 0xD9, bytes: 3, cycles: 4, address_mode: AddressingMode::AbsoluteY, unofficial: false },
        0xDA => Opcode { mnemonic: Mnemonic::NOP, code: 0xDA, bytes: 1, cycles: 2, address_mode: AddressingMode::Implied, unofficial: true },
        0xDB => Opcode { mnemonic: Mnemonic::DCP, code: 0xDB, bytes: 3, cycles: 7, address_mode: AddressingMode::AbsoluteY, unofficial: true },
        0xDC => Opcode { mnemonic: Mnemonic::NOP, code: 0xDC, bytes: 3, cycles: 4, address_mode: AddressingMode::AbsoluteX, unofficial: true },
        0xDD => Opcode { mnemonic: Mnemonic::CMP, code: 0xDD, bytes: 3, cycles: 4, address_mode: AddressingMode::AbsoluteX, unofficial: false },
        0xDE => Opcode { mnemonic: Mnemonic::DEC, code: 0xDE, bytes: 3, cycles: 7, address_mode: AddressingMode::AbsoluteX, unofficial: false },
        0xDF => Opcode { mnemonic: Mnemonic::DCP, code: 0xDF, bytes: 3, cycles: 7, address_mode: AddressingMode::AbsoluteX, unofficial: true },
        0xE0 => Opcode { mnemonic: Mnemonic::CPX, code: 0xE0, bytes: 2, cycles: 2, address_mode: AddressingMode::Immediate, unofficial: false },
        0xE1 => Opcode { mnemonic: Mnemonic::SBC, code: 0xE1, bytes: 2, cycles: 6, address_mode: AddressingMode::IndexedIndirect, unofficial: false },
        0xE2 => Opcode { mnemonic: Mnemonic::NOP, code: 0xE2, bytes: 2, cycles: 2, address_mode: AddressingMode::Immediate, unofficial: true },
        0xE3 => Opcode { mnemonic: Mnemonic::ISC, code: 0xE3, bytes: 2, cycles: 8, address_mode: AddressingMode::IndexedIndirect, unofficial: true },
        0xE4 => Opcode { mnemonic: Mnemonic::CPX, code: 0xE4, bytes: 2, cycles: 3, address_mode: AddressingMode::ZeroPage, unofficial: false },
        0xE5 => Opcode { mnemonic: Mnemonic::SBC, code: 0xE5, bytes: 2, cycles: 3, address_mode: AddressingMode::ZeroPage, unofficial: false },
        0xE6 => Opcode { mnemonic: Mnemonic::INC, code: 0xE6, bytes: 2, cycles: 5, address_mode: AddressingMode::ZeroPage, unofficial: false },
        0xE7 => Opcode { mnemonic: Mnemonic::ISC, code: 0xE7, bytes: 2, cycles: 5, address_mode: AddressingMode::ZeroPage, unofficial: true },
        0xE8 => Opcode { mnemonic: Mnemonic::INX, code: 0xE8, bytes: 1, cycles: 2, address_mode: AddressingMode::Implied, unofficial: false },
        0xE9 => Opcode { mnemonic: Mnemonic::SBC, code: 0xE9, bytes: 2, cycles: 2, address_mode: AddressingMode::Immediate, unofficial: false },
        0xEA => Opcode { mnemonic: Mnemonic::NOP, code: 0xEA, bytes: 1, cycles: 2, address_mode: AddressingMode::Implied, unofficial: false },
        0xEB => Opcode { mnemonic: Mnemonic::SBC, code: 0xEB, bytes: 2, cycles: 2, address_mode: AddressingMode::Immediate, unofficial: true },
        0xEC => Opcode { mnemonic: Mnemonic::CPX, code: 0xEC, bytes: 3, cycles: 4, address_mode: AddressingMode::Absolute, unofficial: false },
        0xED => Opcode { mnemonic: Mnemonic::SBC, code: 0xED, bytes: 3, cycles: 4, address_mode: AddressingMode::Absolute, unofficial: false },
        0xEE => Opcode { mnemonic: Mnemonic::INC, code: 0xEE, bytes: 3, cycles: 6, address_mode: AddressingMode::Absolute, unofficial: false },
        0xEF => Opcode { mnemonic: Mnemonic::ISC, code: 0xEF, bytes: 3, cycles: 6, address_mode: AddressingMode::Absolute, unofficial: true },
        0xF0 => Opcode { mnemonic: Mnemonic::BEQ, code: 0xF0, bytes: 2, cycles: 2, address_mode: AddressingMode::Relative, unofficial: false },
        0xF1 => Opcode { mnemonic: Mnemonic::SBC, code: 0xF1, bytes: 2, cycles: 5, address_mode: AddressingMode::IndirectIndexed, unofficial: false },
        0xF2 => Opcode { mnemonic: Mnemonic::KIL, code: 0xF2, bytes: 1, cycles: 0, address_mode: AddressingMode::Implied, unofficial: true },
        0xF3 => Opcode { mnemonic: Mnemonic::ISC, code: 0xF3, bytes: 2, cycles: 8, address_mode: AddressingMode::IndirectIndexed, unofficial: true },
        0xF4 => Opcode { mnemonic: Mnemonic::NOP, code: 0xF4, bytes: 2, cycles: 4, address_mode: AddressingMode::ZeroPageX, unofficial: true },
        0xF5 => Opcode { mnemonic: Mnemonic::SBC, code: 0xF5, bytes: 2, cycles: 4, address_mode: AddressingMode::ZeroPageX, unofficial: false },
        0xF6 => Opcode { mnemonic: Mnemonic::INC, code: 0xF6, bytes: 2, cycles: 6, address_mode: AddressingMode::ZeroPageX, unofficial: false },
        0xF7 => Opcode { mnemonic: Mnemonic::ISC, code: 0xF7, bytes: 2, cycles: 6, address_mode: AddressingMode::ZeroPageX, unofficial: true },
        0xF8 => Opcode { mnemonic: Mnemonic::SED, code: 0xF8, bytes: 1, cycles: 2, address_mode: AddressingMode::Implied, unofficial: false },
        0xF9 => Opcode { mnemonic: Mnemonic::SBC, code: 0xF9, bytes: 3, cycles: 4, address_mode: AddressingMode::AbsoluteY, unofficial: false },
        0xFA => Opcode { mnemonic: Mnemonic::NOP, code: 0xFA, bytes: 1, cycles: 2, address_mode: AddressingMode::Implied, unofficial: true },
        0xFB => Opcode { mnemonic: Mnemonic::ISC, code: 0xFB, bytes: 3, cycles: 7, address_mode: AddressingMode::AbsoluteY, unofficial: true },
        0xFC => Opcode { mnemonic: Mnemonic::NOP, code: 0xFC, bytes: 3, cycles: 4, address_mode: AddressingMode::AbsoluteX, unofficial: true },
        0xFD => Opcode { mnemonic: Mnemonic::SBC, code: 0xFD, bytes: 3, cycles: 4, address_mode: AddressingMode::AbsoluteX, unofficial: false },
        0xFE => Opcode { mnemonic: Mnemonic::INC, code: 0xFE, bytes: 3, cycles: 7, address_mode: AddressingMode::AbsoluteX, unofficial: false },
        0xFF => Opcode { mnemonic: Mnemonic::ISC, code: 0xFF, bytes: 3, cycles: 7, address_mode: AddressingMode::AbsoluteX, unofficial: true },
    };
    Some(op)
}

/// Whether table entry `code` is the instruction spelled `name` in `mode`.
pub open spec fn entry_matches(code: u8, name: Seq<u8>, mode: AddressingMode) -> bool {
    mnemonic_bytes(spec_opcode(code).mnemonic) == name && spec_opcode(code).address_mode == mode
}

/// Finds the encoding of a named instruction in a given addressing mode.
/// Where several entries match, an official one is preferred, then the
/// lowest code.
pub fn get_opcode_by_name_and_address_mode(name: &str, address_mode: AddressingMode) -> (r:
    Option<Opcode>)
    ensures
        r is None ==> forall|c: u8| !entry_matches(c, name.spec_bytes(), address_mode),
        r matches Some(op) ==> {
            &&& op == spec_opcode(op.code)
            &&& entry_matches(op.code, name.spec_bytes(), address_mode)
            &&& forall|c: u8| #[trigger]
                entry_matches(c, name.spec_bytes(), address_mode) ==> (op.unofficial
                    ==> spec_opcode(c).unofficial) && (spec_opcode(c).unofficial == op.unofficial
                    ==> op.code <= c)
        },
{
    let mnemonic = match Mnemonic::from_name(name) {
        Some(m) => m,
        None => return None,
    };
    let ghost name_bytes = name.spec_bytes();
    let mut fallback: Option<Opcode> = None;
    let mut code: u16 = 0;
    while code < 256
        invariant
            code <= 256,
            name_bytes == name.spec_bytes(),
            mnemonic_bytes(mnemonic) == name_bytes,
            forall|c: u8|
                c < code && #[trigger] entry_matches(c, name_bytes, address_mode)
                    ==> spec_opcode(c).unofficial,
            fallback is None ==> forall|c: u8|
                c < code ==> !#[trigger] entry_matches(c, name_bytes, address_mode),
            fallback matches Some(op) ==> {
                &&& op == spec_opcode(op.code)
                &&& op.code < code
                &&& op.unofficial
                &&& entry_matches(op.code, name_bytes, address_mode)
                &&& forall|c: u8|
                    c < code && #[trigger] entry_matches(c, name_bytes, address_mode)
                        ==> op.code <= c
            },
        decreases 256 - code,
    {
        let op = match get_opcode(code as u8) {
            Some(op) => op,
            None => return None,
        };
        if op.mnemonic == mnemonic && op.address_mode == address_mode {
            proof {
                assert(entry_matches(code as u8, name_bytes, address_mode));
            }
            if !op.unofficial {
                return Some(op);
            }
            if fallback.is_none() {
                fallback = Some(op);
            }
        } else {
            proof {
                lemma_mnemonic_bytes_injective(op.mnemonic, mnemonic);
            }
        }
        code = code + 1;
    }
    fallback
}

/// Distinct mnemonics are spelled differently.
pub proof fn lemma_mnemonic_bytes_injective(a: Mnemonic, b: Mnemonic)
    ensures
        mnemonic_bytes(a) == mnemonic_bytes(b) ==> a == b,
{
    if mnemonic_bytes(a) == mnemonic_bytes(b) {
        assert(mnemonic_bytes(a)[0] == mnemonic_bytes(b)[0]);
        assert(mnemonic_bytes(a)[1] == mnemonic_bytes(b)[1]);
        assert(mnemonic_bytes(a)[2] == mnemonic_bytes(b)[2]);
    }
}

} // verus!
