use vstd::prelude::*;

verus! {

pub const CARRY_FLAG: u8 = 0b0000_0001;

pub const ZERO_FLAG: u8 = 0b0000_0010;

pub const INTERRUPT_DISABLE_FLAG: u8 = 0b0000_0100;

pub const DECIMAL_MODE_FLAG: u8 = 0b0000_1000;

pub const BREAK_FLAG: u8 = 0b0001_0000;

/// Bit 5 of the packed status byte, always read as set.
pub const UNUSED_FLAG: u8 = 0b0010_0000;

pub const OVERFLOW_FLAG: u8 = 0b0100_0000;

pub const NEGATIVE_FLAG: u8 = 0b1000_0000;

/// The seven condition flags of the status register.
#[derive(Debug, Clone, Copy, PartialEq, Eq, Structural)]
pub struct ProcessorStatus {
    pub carry: bool,
    pub zero: bool,
    pub interrupt_disable: bool,
    pub decimal_mode: bool,
    pub break_command: bool,
    pub overflow: bool,
    pub negative: bool,
}

/// `mask` when `set`, else no bits.
pub open spec fn flag_bits(set: bool, mask: u8) -> u8 {
    if set {
        mask
    } else {
        0
    }
}

impl ProcessorStatus {
    /// All flags clear.
    pub open spec fn cleared() -> ProcessorStatus {
        ProcessorStatus {
            carry: false,
            zero: false,
            interrupt_disable: false,
            decimal_mode: false,
            break_command: false,
            overflow: false,
            negative: false,
        }
    }

    /// The packed byte: one bit per flag, bit 5 set.
    pub open spec fn spec_to_u8(self) -> u8 {
        UNUSED_FLAG | flag_bits(self.carry, CARRY_FLAG) | flag_bits(self.zero, ZERO_FLAG)
            | flag_bits(self.interrupt_disable, INTERRUPT_DISABLE_FLAG) | flag_bits(
            self.decimal_mode,
            DECIMAL_MODE_FLAG,
        ) | flag_bits(self.break_command, BREAK_FLAG) | flag_bits(self.overflow, OVERFLOW_FLAG)
            | flag_bits(self.negative, NEGATIVE_FLAG)
    }

    /// Each flag read from its bit; bit 5 is ignored.
    pub open spec fn spec_from_u8(status: u8) -> ProcessorStatus {
        ProcessorStatus {
            carry: status & CARRY_FLAG != 0,
            zero: status & ZERO_FLAG != 0,
            interrupt_disable: status & INTERRUPT_DISABLE_FLAG != 0,
            decimal_mode: status & DECIMAL_MODE_FLAG != 0,
            break_command: status & BREAK_FLAG != 0,
            overflow: status & OVERFLOW_FLAG != 0,
            negative: status & NEGATIVE_FLAG != 0,
        }
    }

    /// These flags with `zero` and `negative` taken from `value`.
    pub open spec fn with_zn(self, value: u8) -> ProcessorStatus {
        ProcessorStatus { zero: value == 0, negative: value >= 0x80, ..self }
    }

    pub fn new() -> (r: ProcessorStatus)
        ensures
            r == ProcessorStatus::cleared(),
    {
        ProcessorStatus {
            carry: false,
            zero: false,
            interrupt_disable: false,
            decimal_mode: false,
            break_command: false,
            overflow: false,
            negative: false,
        }
    }

    pub fn to_u8(&self) -> (r: u8)
        ensures
            r == self.spec_to_u8(),
    {
        let mut status: u8 = UNUSED_FLAG;
        proof {
            lemma_or_none(status);
        }
        if self.carry {
            status = status | CARRY_FLAG;
        }
        proof {
            lemma_or_none(status);
        }
        if self.zero {
            status = status | ZERO_FLAG;
        }
        proof {
            lemma_or_none(status);
        }
        if self.interrupt_disable {
            status = status | INTERRUPT_DISABLE_FLAG;
        }
        proof {
            lemma_or_none(status);
        }
        if self.decimal_mode {
            status = status | DECIMAL_MODE_FLAG;
        }
        proof {
            lemma_or_none(status);
        }
        if self.break_command {
            status = status | BREAK_FLAG;
        }
        proof {
            lemma_or_none(status);
        }
        if self.overflow {
            status = status | OVERFLOW_FLAG;
        }
        proof {
            lemma_or_none(status);
        }
        if self.negative {
            status = status | NEGATIVE_FLAG;
        }
        status
    }

    pub fn from_u8(status: u8) -> (r: ProcessorStatus)
        ensures
            r == ProcessorStatus::spec_from_u8(status),
    {
        ProcessorStatus {
            carry: status & CARRY_FLAG != 0,
            zero: status & ZERO_FLAG != 0,
            interrupt_disable: status & INTERRUPT_DISABLE_FLAG != 0,
            decimal_mode: status & DECIMAL_MODE_FLAG != 0,
            break_command: status & BREAK_FLAG != 0,
            overflow: status & OVERFLOW_FLAG != 0,
            negative: status & NEGATIVE_FLAG != 0,
        }
    }
}

proof fn lemma_or_none(x: u8)
    ensures
        x | 0 == x,
{
    assert(x | 0 == x) by (bit_vector);
}

/// Packing the flags into a byte and reading them back gives the same flags.
pub proof fn lemma_status_round_trip(s: ProcessorStatus)
    ensures
        ProcessorStatus::spec_from_u8(s.spec_to_u8()) == s,
{
    let c = flag_bits(s.carry, 0x01);
    let z = flag_bits(s.zero, 0x02);
    let i = flag_bits(s.interrupt_disable, 0x04);
    let d = flag_bits(s.decimal_mode, 0x08);
    let b = flag_bits(s.break_command, 0x10);
    let v = flag_bits(s.overflow, 0x40);
    let n = flag_bits(s.negative, 0x80);
    let byte = s.spec_to_u8();
    assert(byte == 0x20u8 | c | z | i | d | b | v | n);
    assert({
        &&& (c == 0 || c == 0x01)
        &&& (z == 0 || z == 0x02)
        &&& (i == 0 || i == 0x04)
        &&& (d == 0 || d == 0x08)
        &&& (b == 0 || b == 0x10)
        &&& (v == 0 || v == 0x40)
        &&& (n == 0 || n == 0x80)
        &&& byte == 0x20u8 | c | z | i | d | b | v | n
    } ==> {
        &&& ((byte & 0x01 != 0) == (c == 0x01))
        &&& ((byte & 0x02 != 0) == (z == 0x02))
        &&& ((byte & 0x04 != 0) == (i == 0x04))
        &&& ((byte & 0x08 != 0) == (d == 0x08))
        &&& ((byte & 0x10 != 0) == (b == 0x10))
        &&& ((byte & 0x40 != 0) == (v == 0x40))
        &&& ((byte & 0x80 != 0) == (n == 0x80))
    }) by (bit_vector);
}

/// Reading the flags out of a byte and packing them again gives the byte
/// with bit 5 set.
pub proof fn lemma_byte_round_trip(byte: u8)
    ensures
        ProcessorStatus::spec_from_u8(byte).spec_to_u8() == byte | UNUSED_FLAG,
{
    let s = ProcessorStatus::spec_from_u8(byte);
    let c = flag_bits(s.carry, 0x01);
    let z = flag_bits(s.zero, 0x02);
    let i = flag_bits(s.interrupt_disable, 0x04);
    let d = flag_bits(s.decimal_mode, 0x08);
    let b = flag_bits(s.break_command, 0x10);
    let v = flag_bits(s.overflow, 0x40);
    let n = flag_bits(s.negative, 0x80);
    assert(s.spec_to_u8() == 0x20u8 | c | z | i | d | b | v | n);
    assert({
        &&& c == (if byte & 0x01 != 0 { 0x01u8 } else { 0u8 })
        &&& z == (if byte & 0x02 != 0 { 0x02u8 } else { 0u8 })
        &&& i == (if byte & 0x04 != 0 { 0x04u8 } else { 0u8 })
        &&& d == (if byte & 0x08 != 0 { 0x08u8 } else { 0u8 })
        &&& b == (if byte & 0x10 != 0 { 0x10u8 } else { 0u8 })
        &&& v == (if byte & 0x40 != 0 { 0x40u8 } else { 0u8 })
        &&& n == (if byte & 0x80 != 0 { 0x80u8 } else { 0u8 })
    } ==> 0x20u8 | c | z | i | d | b | v | n == byte | 0x20u8) by (bit_vector);
}

/// How an instruction finds its operand.
#[derive(Debug, Clone, Copy, PartialEq, Eq, Structural)]
pub enum AddressingMode {
    Implied,
    Relative,
    Immediate,
    ZeroPage,
    ZeroPageX,
    ZeroPageY,
    Absolute,
    AbsoluteX,
    AbsoluteY,
    Indirect,
    IndexedIndirect,
    IndirectIndexed,
    Accumulator,
}

} // verus!
