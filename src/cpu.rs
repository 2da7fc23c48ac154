pub mod instructions;
pub mod opcode;
pub mod stack;
pub mod types;

use vstd::prelude::*;

use crate::cartridge::rom::{spec_parse, spec_valid_nes, Rom};
use crate::common::constants::{PC_START_ADDRESS, PRG_ROM_START, STACK_POINTER_INIT};
use crate::common::errors::EmulatorError;
use crate::cpu::instructions::{
    add_with_carry,
    bit_0,
    bit_7,
    branch,
    compare,
    load_a,
    load_x,
    load_y,
    masked_high,
    push,
    pushed_status,
    rotate_left,
    rotate_right,
    shift_a,
    shift_left,
    shift_right,
    spec_aac,
    spec_arr,
    spec_asl,
    spec_asr,
    spec_atx,
    spec_axa,
    spec_axs,
    spec_bit,
    spec_brk,
    spec_dcp,
    spec_dec,
    spec_inc,
    spec_isb,
    spec_jsr,
    spec_lar,
    spec_lax,
    spec_lsr,
    spec_pla,
    spec_plp,
    spec_rla,
    spec_rol,
    spec_ror,
    spec_rra,
    spec_rti,
    spec_rts,
    spec_sax,
    spec_slo,
    spec_sre,
    spec_xas,
    subtract_with_borrow,
    with_status,
};
use crate::cpu::opcode::{get_opcode, spec_opcode, Mnemonic, Opcode};
use crate::cpu::types::{AddressingMode, ProcessorStatus};
use crate::memory::bus::{word, Bus, MemView};

verus! {

/// The whole machine state as mathematical values.
pub struct CpuState {
    pub program_counter: u16,
    pub stack_pointer: u8,
    pub register_a: u8,
    pub register_x: u8,
    pub register_y: u8,
    pub status: ProcessorStatus,
    pub mem: MemView,
    pub test_mode: bool,
}

/// A 6502 with its registers, status flags and memory bus.
pub struct CPU {
    /// When set, `BRK` ends a run without pushing an interrupt frame; the
    /// program counter just moves past it.
    pub test_mode: bool,
    pub program_counter: u16,
    pub stack_pointer: u8,
    pub register_a: u8,
    pub register_x: u8,
    pub register_y: u8,
    pub status: ProcessorStatus,
    pub bus: Bus,
}

impl View for CPU {
    type V = CpuState;

    open spec fn view(&self) -> CpuState {
        CpuState {
            program_counter: self.program_counter,
            stack_pointer: self.stack_pointer,
            register_a: self.register_a,
            register_x: self.register_x,
            register_y: self.register_y,
            status: self.status,
            mem: self.bus@,
            test_mode: self.test_mode,
        }
    }
}

/// How a fallible operation left the state: on success the expected state,
/// on failure the expected error and the state untouched.
pub open spec fn performed(
    before: CpuState,
    after: CpuState,
    r: Result<(), EmulatorError>,
    expected: Result<CpuState, EmulatorError>,
) -> bool {
    match expected {
        Ok(s) => r is Ok && after == s,
        Err(e) => r == Err::<(), EmulatorError>(e) && after == before,
    }
}

/// The state after a write through the bus, if the address is writable.
pub open spec fn spec_write(s: CpuState, address: u16, data: u8) -> Result<
    CpuState,
    EmulatorError,
> {
    match s.mem.write(address, data) {
        Ok(m) => Ok(CpuState { mem: m, ..s }),
        Err(e) => Err(e),
    }
}

impl CPU {
    /// A powered-on machine: registers and RAM zeroed, stack pointer at the
    /// top of its page, no cartridge.
    pub open spec fn new_view() -> CpuState {
        CpuState {
            program_counter: 0,
            stack_pointer: STACK_POINTER_INIT,
            register_a: 0,
            register_x: 0,
            register_y: 0,
            status: ProcessorStatus::cleared(),
            mem: MemView { ram: Seq::new(2048, |i: int| 0u8), rom: None },
            test_mode: false,
        }
    }

    pub fn new() -> (r: CPU)
        ensures
            r@ == CPU::new_view(),
    {
        CPU {
            test_mode: false,
            program_counter: 0,
            stack_pointer: STACK_POINTER_INIT,
            register_a: 0,
            register_x: 0,
            register_y: 0,
            status: ProcessorStatus::new(),
            bus: Bus::new(),
        }
    }

    pub fn read(&self, address: u16) -> (r: Result<u8, EmulatorError>)
        ensures
            r == self@.mem.read(address),
    {
        self.bus.read(address)
    }

    pub fn write(&mut self, address: u16, data: u8) -> (r: Result<(), EmulatorError>)
        ensures
            performed(old(self)@, final(self)@, r, spec_write(old(self)@, address, data)),
    {
        self.bus.write(address, data)
    }

    pub fn read_u16(&self, address: u16) -> (r: Result<u16, EmulatorError>)
        ensures
            r == self@.mem.read_u16(address),
    {
        self.bus.read_u16(address)
    }

    pub fn write_u16(&mut self, address: u16, value: u16) -> (r: Result<(), EmulatorError>)
        ensures
            r == old(self)@.mem.write_u16(address, value).0,
            final(self)@ == (CpuState { mem: old(self)@.mem.write_u16(address, value).1, ..old(self)@ }),
    {
        self.bus.write_u16(address, value)
    }

    pub fn read_u16_zero_page(&self, address: u8) -> (r: u16)
        ensures
            r == self@.mem.read_u16_zero_page(address),
    {
        self.bus.read_u16_zero_page(address)
    }
}

/// The effective address of the operand of the instruction at the program
/// counter, for the given addressing mode.
pub open spec fn spec_param_address(s: CpuState, mode: AddressingMode) -> Result<
    u16,
    EmulatorError,
> {
    let param = s.program_counter.wrapping_add(1);
    match mode {
        AddressingMode::Immediate => Ok(param),
        AddressingMode::ZeroPage | AddressingMode::Relative => match s.mem.read(param) {
            Ok(b) => Ok(b as u16),
            Err(e) => Err(e),
        },
        AddressingMode::ZeroPageX => match s.mem.read(param) {
            Ok(b) => Ok(b.wrapping_add(s.register_x) as u16),
            Err(e) => Err(e),
        },
        AddressingMode::ZeroPageY => match s.mem.read(param) {
            Ok(b) => Ok(b.wrapping_add(s.register_y) as u16),
            Err(e) => Err(e),
        },
        AddressingMode::Absolute => s.mem.read_u16(param),
        AddressingMode::AbsoluteX => match s.mem.read_u16(param) {
            Ok(a) => Ok(a.wrapping_add(s.register_x as u16)),
            Err(e) => Err(e),
        },
        AddressingMode::AbsoluteY => match s.mem.read_u16(param) {
            Ok(a) => Ok(a.wrapping_add(s.register_y as u16)),
            Err(e) => Err(e),
        },
        AddressingMode::Indirect => match s.mem.read_u16(param) {
            Ok(pointer) => spec_indirect_target(s.mem, pointer),
            Err(e) => Err(e),
        },
        AddressingMode::IndexedIndirect => match s.mem.read(param) {
            Ok(b) => Ok(s.mem.read_u16_zero_page(b.wrapping_add(s.register_x))),
            Err(e) => Err(e),
        },
        AddressingMode::IndirectIndexed => match s.mem.read(param) {
            Ok(b) => Ok(s.mem.read_u16_zero_page(b).wrapping_add(s.register_y as u16)),
            Err(e) => Err(e),
        },
        AddressingMode::Implied | AddressingMode::Accumulator => Err(
            EmulatorError::UnimplementedAddressingMode(mode),
        ),
    }
}

/// The target of an indirect jump through `pointer`. As on the hardware,
/// a pointer at the end of a page takes its high byte from the start of
/// the same page.
pub open spec fn spec_indirect_target(m: MemView, pointer: u16) -> Result<u16, EmulatorError> {
    if pointer & 0x00FF == 0x00FF {
        match m.read(pointer) {
            Ok(low) => match m.read(pointer & 0xFF00) {
                Ok(high) => Ok(word(low, high)),
                Err(e) => Err(e),
            },
            Err(e) => Err(e),
        }
    } else {
        m.read_u16(pointer)
    }
}

/// The operand value: the byte at the effective address.
pub open spec fn spec_operand(s: CpuState, mode: AddressingMode) -> Result<u8, EmulatorError> {
    match spec_param_address(s, mode) {
        Ok(a) => s.mem.read(a),
        Err(e) => Err(e),
    }
}

/// Moves the program counter past an instruction of `bytes` bytes.
pub open spec fn advance(s: CpuState, bytes: usize) -> CpuState {
    CpuState { program_counter: s.program_counter.wrapping_add(bytes as u16), ..s }
}

/// Instructions that work on the value of their operand.
pub open spec fn value_semantics(m: Mnemonic, s: CpuState, p: u8) -> CpuState {
    match m {
        Mnemonic::LDA => load_a(s, p),
        Mnemonic::LDX => load_x(s, p),
        Mnemonic::LDY => load_y(s, p),
        Mnemonic::ADC => add_with_carry(s, p, s.status.carry),
        Mnemonic::SBC => subtract_with_borrow(s, p, s.status.carry),
        Mnemonic::AND => load_a(s, s.register_a & p),
        Mnemonic::EOR => load_a(s, s.register_a ^ p),
        Mnemonic::ORA => load_a(s, s.register_a | p),
        Mnemonic::CMP => compare(s, s.register_a, p),
        Mnemonic::CPX => compare(s, s.register_x, p),
        Mnemonic::CPY => compare(s, s.register_y, p),
        Mnemonic::BIT => spec_bit(s, p),
        Mnemonic::AAC => spec_aac(s, p),
        Mnemonic::ARR => spec_arr(s, p),
        Mnemonic::ASR => spec_asr(s, p),
        Mnemonic::ATX => spec_atx(s, p),
        Mnemonic::LAR => spec_lar(s, p),
        _ => s,
    }
}

/// Instructions that work on registers and the stack only.
pub open spec fn implied_semantics(m: Mnemonic, s: CpuState) -> CpuState {
    match m {
        Mnemonic::INX => load_x(s, s.register_x.wrapping_add(1)),
        Mnemonic::INY => load_y(s, s.register_y.wrapping_add(1)),
        Mnemonic::DEX => load_x(s, s.register_x.wrapping_sub(1)),
        Mnemonic::DEY => load_y(s, s.register_y.wrapping_sub(1)),
        Mnemonic::TAX => load_x(s, s.register_a),
        Mnemonic::TAY => load_y(s, s.register_a),
        Mnemonic::TXA => load_a(s, s.register_x),
        Mnemonic::TYA => load_a(s, s.register_y),
        Mnemonic::TSX => load_x(s, s.stack_pointer),
        Mnemonic::TXS => CpuState { stack_pointer: s.register_x, ..s },
        Mnemonic::PHA => push(s, s.register_a),
        Mnemonic::PHP => push(s, pushed_status(s)),
        Mnemonic::PLA => spec_pla(s),
        Mnemonic::PLP => spec_plp(s),
        Mnemonic::CLC => with_status(s, ProcessorStatus { carry: false, ..s.status }),
        Mnemonic::CLD => with_status(s, ProcessorStatus { decimal_mode: false, ..s.status }),
        Mnemonic::CLI => with_status(s, ProcessorStatus { interrupt_disable: false, ..s.status }),
        Mnemonic::CLV => with_status(s, ProcessorStatus { overflow: false, ..s.status }),
        Mnemonic::SEC => with_status(s, ProcessorStatus { carry: true, ..s.status }),
        Mnemonic::SED => with_status(s, ProcessorStatus { decimal_mode: true, ..s.status }),
        Mnemonic::SEI => with_status(s, ProcessorStatus { interrupt_disable: true, ..s.status }),
        Mnemonic::ASL => shift_a(s, shift_left(s.register_a), bit_7(s.register_a)),
        Mnemonic::LSR => shift_a(s, shift_right(s.register_a), bit_0(s.register_a)),
        Mnemonic::ROL => shift_a(s, rotate_left(s.register_a, s.status.carry), bit_7(s.register_a)),
        Mnemonic::ROR => shift_a(
            s,
            rotate_right(s.register_a, s.status.carry),
            bit_0(s.register_a),
        ),
        _ => s,
    }
}

/// Instructions that read or write memory at their effective address.
pub open spec fn address_semantics(m: Mnemonic, s: CpuState, a: u16) -> Result<
    CpuState,
    EmulatorError,
> {
    match m {
        Mnemonic::STA => spec_write(s, a, s.register_a),
        Mnemonic::STX => spec_write(s, a, s.register_x),
        Mnemonic::STY => spec_write(s, a, s.register_y),
        Mnemonic::INC => spec_inc(s, a),
        Mnemonic::DEC => spec_dec(s, a),
        Mnemonic::ASL => spec_asl(s, a),
        Mnemonic::LSR => spec_lsr(s, a),
        Mnemonic::ROL => spec_rol(s, a),
        Mnemonic::ROR => spec_ror(s, a),
        Mnemonic::AAX => spec_sax(s, a),
        Mnemonic::AXA => spec_axa(s, a),
        Mnemonic::DCP => spec_dcp(s, a),
        Mnemonic::ISC => spec_isb(s, a),
        Mnemonic::RLA => spec_rla(s, a),
        Mnemonic::RRA => spec_rra(s, a),
        Mnemonic::AXS => spec_axs(s, a),
        Mnemonic::LAX => spec_lax(s, a),
        Mnemonic::SLO => spec_slo(s, a),
        Mnemonic::SRE => spec_sre(s, a),
        Mnemonic::SXA => spec_write(s, a, masked_high(s.register_x, a)),
        Mnemonic::SYA => spec_write(s, a, masked_high(s.register_y, a)),
        Mnemonic::XAS => spec_xas(s, a),
        _ => Ok(s),
    }
}

/// Whether a branch mnemonic's condition holds.
pub open spec fn branch_taken(m: Mnemonic, status: ProcessorStatus) -> bool {
    match m {
        Mnemonic::BCC => !status.carry,
        Mnemonic::BCS => status.carry,
        Mnemonic::BEQ => status.zero,
        Mnemonic::BMI => status.negative,
        Mnemonic::BNE => !status.zero,
        Mnemonic::BPL => !status.negative,
        Mnemonic::BVC => !status.overflow,
        _ => status.overflow,
    }
}

/// An instruction that reads or writes memory at its effective address.
pub open spec fn spec_memory_instruction(s: CpuState, op: Opcode) -> Result<
    (CpuState, bool),
    EmulatorError,
> {
    match spec_param_address(s, op.address_mode) {
        Ok(a) => match address_semantics(op.mnemonic, s, a) {
            Ok(s2) => Ok((advance(s2, op.bytes), false)),
            Err(e) => Err(e),
        },
        Err(e) => Err(e),
    }
}

/// One instruction: the state after it and whether it ended the run.
/// Jumps, calls and returns from interrupts set the program counter
/// themselves; every other instruction moves it past its own bytes.
pub open spec fn spec_execute(s: CpuState, op: Opcode) -> Result<(CpuState, bool), EmulatorError> {
    match op.mnemonic {
        Mnemonic::LDA | Mnemonic::LDX | Mnemonic::LDY | Mnemonic::ADC | Mnemonic::SBC
        | Mnemonic::AND | Mnemonic::EOR | Mnemonic::ORA | Mnemonic::CMP | Mnemonic::CPX
        | Mnemonic::CPY | Mnemonic::BIT | Mnemonic::AAC | Mnemonic::ARR | Mnemonic::ASR
        | Mnemonic::ATX | Mnemonic::LAR => match spec_operand(s, op.address_mode) {
            Ok(p) => Ok((advance(value_semantics(op.mnemonic, s, p), op.bytes), false)),
            Err(e) => Err(e),
        },
        Mnemonic::INX | Mnemonic::INY | Mnemonic::DEX | Mnemonic::DEY | Mnemonic::TAX
        | Mnemonic::TAY | Mnemonic::TXA | Mnemonic::TYA | Mnemonic::TSX | Mnemonic::TXS
        | Mnemonic::PHA | Mnemonic::PHP | Mnemonic::PLA | Mnemonic::PLP | Mnemonic::CLC
        | Mnemonic::CLD | Mnemonic::CLI | Mnemonic::CLV | Mnemonic::SEC | Mnemonic::SED
        | Mnemonic::SEI => Ok((advance(implied_semantics(op.mnemonic, s), op.bytes), false)),
        Mnemonic::ASL | Mnemonic::LSR | Mnemonic::ROL | Mnemonic::ROR => if op.address_mode
            == AddressingMode::Accumulator {
            Ok((advance(implied_semantics(op.mnemonic, s), op.bytes), false))
        } else {
            spec_memory_instruction(s, op)
        },
        Mnemonic::STA | Mnemonic::STX | Mnemonic::STY | Mnemonic::INC | Mnemonic::DEC
        | Mnemonic::AAX | Mnemonic::AXA | Mnemonic::DCP | Mnemonic::ISC | Mnemonic::RLA
        | Mnemonic::RRA | Mnemonic::AXS | Mnemonic::LAX | Mnemonic::SLO | Mnemonic::SRE
        | Mnemonic::SXA | Mnemonic::SYA | Mnemonic::XAS => spec_memory_instruction(s, op),
        Mnemonic::BCC | Mnemonic::BCS | Mnemonic::BEQ | Mnemonic::BMI | Mnemonic::BNE
        | Mnemonic::BPL | Mnemonic::BVC | Mnemonic::BVS => match spec_param_address(
            s,
            op.address_mode,
        ) {
            Ok(a) => Ok(
                (
                    advance(
                        branch(s, branch_taken(op.mnemonic, s.status), (a as u8) as i8),
                        op.bytes,
                    ),
                    false,
                ),
            ),
            Err(e) => Err(e),
        },
        Mnemonic::JMP => match spec_param_address(s, op.address_mode) {
            Ok(a) => Ok((CpuState { program_counter: a, ..s }, false)),
            Err(e) => Err(e),
        },
        Mnemonic::JSR => match spec_param_address(s, op.address_mode) {
            Ok(a) => Ok((spec_jsr(s, a), false)),
            Err(e) => Err(e),
        },
        Mnemonic::RTS => Ok((advance(spec_rts(s), op.bytes), false)),
        Mnemonic::RTI => Ok((spec_rti(s), false)),
        Mnemonic::BRK => if s.test_mode {
            Ok((advance(s, op.bytes), true))
        } else {
            match spec_brk(s) {
                Ok(s2) => Ok((s2, true)),
                Err(e) => Err(e),
            }
        },
        Mnemonic::NOP => Ok((advance(s, op.bytes), false)),
        Mnemonic::KIL | Mnemonic::XAA => Err(EmulatorError::UnimplementedOpcode(op.code)),
    }
}

/// Fetch, decode and execute the instruction at the program counter.
pub open spec fn spec_step(s: CpuState) -> Result<(CpuState, bool), EmulatorError> {
    match s.mem.read(s.program_counter) {
        Ok(code) => spec_execute(s, spec_opcode(code)),
        Err(e) => Err(e),
    }
}

/// At most `n` steps, stopping at the first that halts or fails: the final
/// state and whether the run halted, or the error.
pub open spec fn spec_run(s: CpuState, n: nat) -> (CpuState, Result<bool, EmulatorError>)
    decreases n,
{
    if n == 0 {
        (s, Ok(false))
    } else {
        match spec_step(s) {
            Err(e) => (s, Err(e)),
            Ok((s2, true)) => (s2, Ok(true)),
            Ok((s2, false)) => spec_run(s2, (n - 1) as nat),
        }
    }
}

/// Program ROM after writing `bytes` one by one from the start of the
/// program window, or the first write error.
pub open spec fn spec_write_program(m: MemView, bytes: Seq<u8>) -> Result<MemView, EmulatorError>
    decreases bytes.len(),
{
    if bytes.len() == 0 {
        Ok(m)
    } else {
        match spec_write_program(m, bytes.drop_last()) {
            Ok(m1) => m1.write((PRG_ROM_START + bytes.len() - 1) as u16, bytes.last()),
            Err(e) => Err(e),
        }
    }
}

impl CPU {
    pub fn get_param_address(&self, mode: AddressingMode) -> (r: Result<u16, EmulatorError>)
        ensures
            r == spec_param_address(self@, mode),
    {
        let param = self.program_counter.wrapping_add(1);
        match mode {
            AddressingMode::Immediate => Ok(param),
            AddressingMode::ZeroPage | AddressingMode::Relative => {
                let address = self.read(param)?;
                Ok(address as u16)
            },
            AddressingMode::ZeroPageX => {
                let address = self.read(param)?;
                Ok(address.wrapping_add(self.register_x) as u16)
            },
            AddressingMode::ZeroPageY => {
                let address = self.read(param)?;
                Ok(address.wrapping_add(self.register_y) as u16)
            },
            AddressingMode::Absolute => self.read_u16(param),
            AddressingMode::AbsoluteX => {
                let address = self.read_u16(param)?;
                Ok(address.wrapping_add(self.register_x as u16))
            },
            AddressingMode::AbsoluteY => {
                let address = self.read_u16(param)?;
                Ok(address.wrapping_add(self.register_y as u16))
            },
            AddressingMode::Indirect => {
                let reference = self.read_u16(param)?;
                if reference & 0x00FF == 0x00FF {
                    let low_byte = self.read(reference)?;
                    let high_byte = self.read(reference & 0xFF00)?;
                    Ok(high_byte as u16 * 256 + low_byte as u16)
                } else {
                    self.read_u16(reference)
                }
            },
            AddressingMode::IndexedIndirect => {
                let address = self.read(param)?.wrapping_add(self.register_x);
                Ok(self.read_u16_zero_page(address))
            },
            AddressingMode::IndirectIndexed => {
                let address = self.read(param)?;
                Ok(self.read_u16_zero_page(address).wrapping_add(self.register_y as u16))
            },
            AddressingMode::Implied | AddressingMode::Accumulator => Err(
                EmulatorError::UnimplementedAddressingMode(mode),
            ),
        }
    }

    fn advance(&mut self, bytes: usize)
        ensures
            final(self)@ == advance(old(self)@, bytes),
    {
        self.program_counter = self.program_counter.wrapping_add(bytes as u16);
    }

    fn execute_value(&mut self, m: Mnemonic, p: u8)
        ensures
            final(self)@ == value_semantics(m, old(self)@, p),
    {
        match m {
            Mnemonic::LDA => instructions::lda(self, p),
            Mnemonic::LDX => instructions::ldx(self, p),
            Mnemonic::LDY => instructions::ldy(self, p),
            Mnemonic::ADC => instructions::adc(self, p),
            Mnemonic::SBC => instructions::sbc(self, p),
            Mnemonic::AND => instructions::and(self, p),
            Mnemonic::EOR => instructions::eor(self, p),
            Mnemonic::ORA => instructions::ora(self, p),
            Mnemonic::CMP => instructions::cmp(self, p),
            Mnemonic::CPX => instructions::cpx(self, p),
            Mnemonic::CPY => instructions::cpy(self, p),
            Mnemonic::BIT => instructions::bit(self, p),
            Mnemonic::AAC => instructions::aac(self, p),
            Mnemonic::ARR => instructions::arr(self, p),
            Mnemonic::ASR => instructions::asr(self, p),
            Mnemonic::ATX => instructions::atx(self, p),
            Mnemonic::LAR => instructions::lar(self, p),
            _ => {},
        }
    }

    fn execute_implied(&mut self, m: Mnemonic)
        ensures
            final(self)@ == implied_semantics(m, old(self)@),
    {
        match m {
            Mnemonic::INX => instructions::inx(self),
            Mnemonic::INY => instructions::iny(self),
            Mnemonic::DEX => instructions::dex(self),
            Mnemonic::DEY => instructions::dey(self),
            Mnemonic::TAX => instructions::tax(self),
            Mnemonic::TAY => instructions::tay(self),
            Mnemonic::TXA => instructions::txa(self),
            Mnemonic::TYA => instructions::tya(self),
            Mnemonic::TSX => instructions::tsx(self),
            Mnemonic::TXS => instructions::txs(self),
            Mnemonic::PHA => {
                let _ = instructions::pha(self);
            },
            Mnemonic::PHP => {
                let _ = instructions::php(self);
            },
            Mnemonic::PLA => {
                let _ = instructions::pla(self);
            },
            Mnemonic::PLP => {
                let _ = instructions::plp(self);
            },
            Mnemonic::CLC => instructions::clc(self),
            Mnemonic::CLD => instructions::cld(self),
            Mnemonic::CLI => instructions::cli(self),
            Mnemonic::CLV => instructions::clv(self),
            Mnemonic::SEC => instructions::sec(self),
            Mnemonic::SED => instructions::sed(self),
            Mnemonic::SEI => instructions::sei(self),
            Mnemonic::ASL => instructions::asl_accumulator(self),
            Mnemonic::LSR => instructions::lsr_accumulator(self),
            Mnemonic::ROL => instructions::rol_accumulator(self),
            Mnemonic::ROR => instructions::ror_accumulator(self),
            _ => {},
        }
    }

    fn execute_address(&mut self, m: Mnemonic, a: u16) -> (r: Result<(), EmulatorError>)
        ensures
            performed(old(self)@, final(self)@, r, address_semantics(m, old(self)@, a)),
    {
        match m {
            Mnemonic::STA => instructions::sta(self, a),
            Mnemonic::STX => instructions::stx(self, a),
            Mnemonic::STY => instructions::sty(self, a),
            Mnemonic::INC => instructions::inc(self, a),
            Mnemonic::DEC => instructions::dec(self, a),
            Mnemonic::ASL => instructions::asl(self, a),
            Mnemonic::LSR => instructions::lsr(self, a),
            Mnemonic::ROL => instructions::rol(self, a),
            Mnemonic::ROR => instructions::ror(self, a),
            Mnemonic::AAX => instructions::sax(self, a),
            Mnemonic::AXA => instructions::axa(self, a),
            Mnemonic::DCP => instructions::dcp(self, a),
            Mnemonic::ISC => instructions::isb(self, a),
            Mnemonic::RLA => instructions::rla(self, a),
            Mnemonic::RRA => instructions::rra(self, a),
            Mnemonic::AXS => instructions::axs(self, a),
            Mnemonic::LAX => instructions::lax(self, a),
            Mnemonic::SLO => instructions::slo(self, a),
            Mnemonic::SRE => instructions::sre(self, a),
            Mnemonic::SXA => instructions::sxa(self, a),
            Mnemonic::SYA => instructions::sya(self, a),
            Mnemonic::XAS => instructions::xas(self, a),
            _ => Ok(()),
        }
    }

    fn execute_memory(&mut self, op: Opcode) -> (r: Result<bool, EmulatorError>)
        ensures
            match spec_memory_instruction(old(self)@, op) {
                Ok((s, halted)) => r == Ok::<bool, EmulatorError>(halted) && final(self)@ == s,
                Err(e) => r == Err::<bool, EmulatorError>(e) && final(self)@ == old(self)@,
            },
    {
        let address = self.get_param_address(op.address_mode)?;
        self.execute_address(op.mnemonic, address)?;
        self.advance(op.bytes);
        Ok(false)
    }

    /// Executes one decoded instruction; `Ok(true)` when it ends the run.
    pub fn execute(&mut self, op: Opcode) -> (r: Result<bool, EmulatorError>)
        ensures
            match spec_execute(old(self)@, op) {
                Ok((s, halted)) => r == Ok::<bool, EmulatorError>(halted) && final(self)@ == s,
                Err(e) => r == Err::<bool, EmulatorError>(e) && final(self)@ == old(self)@,
            },
    {
        match op.mnemonic {
            Mnemonic::LDA | Mnemonic::LDX | Mnemonic::LDY | Mnemonic::ADC | Mnemonic::SBC
            | Mnemonic::AND | Mnemonic::EOR | Mnemonic::ORA | Mnemonic::CMP | Mnemonic::CPX
            | Mnemonic::CPY | Mnemonic::BIT | Mnemonic::AAC | Mnemonic::ARR | Mnemonic::ASR
            | Mnemonic::ATX | Mnemonic::LAR => {
                let address = self.get_param_address(op.address_mode)?;
                let param = self.read(address)?;
                self.execute_value(op.mnemonic, param);
                self.advance(op.bytes);
                Ok(false)
            },
            Mnemonic::INX | Mnemonic::INY | Mnemonic::DEX | Mnemonic::DEY | Mnemonic::TAX
            | Mnemonic::TAY | Mnemonic::TXA | Mnemonic::TYA | Mnemonic::TSX | Mnemonic::TXS
            | Mnemonic::PHA | Mnemonic::PHP | Mnemonic::PLA | Mnemonic::PLP | Mnemonic::CLC
            | Mnemonic::CLD | Mnemonic::CLI | Mnemonic::CLV | Mnemonic::SEC | Mnemonic::SED
            | Mnemonic::SEI => {
                self.execute_implied(op.mnemonic);
                self.advance(op.bytes);
                Ok(false)
            },
            Mnemonic::ASL | Mnemonic::LSR | Mnemonic::ROL | Mnemonic::ROR => {
                if op.address_mode == AddressingMode::Accumulator {
                    self.execute_implied(op.mnemonic);
                    self.advance(op.bytes);
                    Ok(false)
                } else {
                    self.execute_memory(op)
                }
            },
            Mnemonic::STA | Mnemonic::STX | Mnemonic::STY | Mnemonic::INC | Mnemonic::DEC
            | Mnemonic::AAX | Mnemonic::AXA | Mnemonic::DCP | Mnemonic::ISC | Mnemonic::RLA
            | Mnemonic::RRA | Mnemonic::AXS | Mnemonic::LAX | Mnemonic::SLO | Mnemonic::SRE
            | Mnemonic::SXA | Mnemonic::SYA | Mnemonic::XAS => self.execute_memory(op),
            Mnemonic::BCC | Mnemonic::BCS | Mnemonic::BEQ | Mnemonic::BMI | Mnemonic::BNE
            | Mnemonic::BPL | Mnemonic::BVC | Mnemonic::BVS => {
                let offset = self.get_param_address(op.address_mode)? as u8 as i8;
                let _ = match op.mnemonic {
                    Mnemonic::BCC => instructions::bcc(self, offset),
                    Mnemonic::BCS => instructions::bcs(self, offset),
                    Mnemonic::BEQ => instructions::beq(self, offset),
                    Mnemonic::BMI => instructions::bmi(self, offset),
                    Mnemonic::BNE => instructions::bne(self, offset),
                    Mnemonic::BPL => instructions::bpl(self, offset),
                    Mnemonic::BVC => instructions::bvc(self, offset),
                    _ => instructions::bvs(self, offset),
                };
                self.advance(op.bytes);
                Ok(false)
            },
            Mnemonic::JMP => {
                let address = self.get_param_address(op.address_mode)?;
                instructions::jmp(self, address);
                Ok(false)
            },
            Mnemonic::JSR => {
                let address = self.get_param_address(op.address_mode)?;
                let _ = instructions::jsr(self, address);
                Ok(false)
            },
            Mnemonic::RTS => {
                let _ = instructions::rts(self);
                self.advance(op.bytes);
                Ok(false)
            },
            Mnemonic::RTI => {
                let _ = instructions::rti(self);
                Ok(false)
            },
            Mnemonic::BRK => {
                if self.test_mode {
                    self.advance(op.bytes);
                } else {
                    instructions::brk(self)?;
                }
                Ok(true)
            },
            Mnemonic::NOP => {
                self.advance(op.bytes);
                Ok(false)
            },
            Mnemonic::KIL | Mnemonic::XAA => Err(EmulatorError::UnimplementedOpcode(op.code)),
        }
    }

    /// Fetches, decodes and executes one instruction; `Ok(true)` when it
    /// was the `BRK` that ends a run. A failing step changes nothing.
    pub fn step(&mut self) -> (r: Result<bool, EmulatorError>)
        ensures
            match spec_step(old(self)@) {
                Ok((s, halted)) => r == Ok::<bool, EmulatorError>(halted) && final(self)@ == s,
                Err(e) => r == Err::<bool, EmulatorError>(e) && final(self)@ == old(self)@,
            },
    {
        let opcode_u8 = self.read(self.program_counter)?;
        let opcode = match get_opcode(opcode_u8) {
            Some(op) => op,
            None => return Err(EmulatorError::InvalidOpcode(opcode_u8)),
        };
        self.execute(opcode)
    }
}

impl CPU {
    /// Runs at most `max_steps` instructions, stopping at the `BRK` that
    /// ends the run (`Ok(true)`) or at the first error; `Ok(false)` when
    /// the budget ran out first. After an error the state is the one before
    /// the failing instruction.
    pub fn run_for(&mut self, max_steps: u64) -> (r: Result<bool, EmulatorError>)
        ensures
            (final(self)@, r) == spec_run(old(self)@, max_steps as nat),
    {
        let mut remaining: u64 = max_steps;
        while remaining > 0
            invariant
                spec_run(self@, remaining as nat) == spec_run(old(self)@, max_steps as nat),
            decreases remaining,
        {
            let halted = self.step()?;
            if halted {
                return Ok(true);
            }
            remaining = remaining - 1;
        }
        Ok(false)
    }

    /// Parses an iNES image and installs it as the cartridge.
    pub fn load(&mut self, rom: &Vec<u8>) -> (r: Result<(), EmulatorError>)
        ensures
            spec_valid_nes(rom@) ==> r is Ok && final(self)@ == (CpuState {
                mem: MemView { rom: Some(spec_parse(rom@)), ..old(self)@.mem },
                ..old(self)@
            }),
            !spec_valid_nes(rom@) ==> r == Err::<(), EmulatorError>(EmulatorError::InvalidNesFile)
                && final(self)@ == old(self)@,
    {
        let rom = Rom::new(rom)?;
        self.bus.load_rom(rom);
        Ok(())
    }

    /// Reloads the program counter from the reset vector and clears the
    /// registers and flags; the stack pointer returns to its initial value.
    pub fn reset(&mut self) -> (r: Result<(), EmulatorError>)
        ensures
            match old(self)@.mem.read_u16(PC_START_ADDRESS) {
                Ok(pc) => r is Ok && final(self)@ == (CpuState {
                    program_counter: pc,
                    stack_pointer: STACK_POINTER_INIT,
                    register_a: 0,
                    register_x: 0,
                    register_y: 0,
                    status: ProcessorStatus::cleared(),
                    ..old(self)@
                }),
                Err(e) => r == Err::<(), EmulatorError>(e) && final(self)@ == old(self)@,
            },
    {
        self.program_counter = self.read_u16(PC_START_ADDRESS)?;
        self.stack_pointer = STACK_POINTER_INIT;
        self.register_a = 0;
        self.register_x = 0;
        self.register_y = 0;
        self.status = ProcessorStatus::new();
        Ok(())
    }

    /// Copies `program` into program ROM from the start of its window.
    pub fn write_program(&mut self, program: &Vec<u8>) -> (r: Result<(), EmulatorError>)
        requires
            program@.len() <= 0x8000,
        ensures
            match spec_write_program(old(self)@.mem, program@) {
                Ok(m) => r is Ok && final(self)@ == (CpuState { mem: m, ..old(self)@ }),
                Err(e) => r == Err::<(), EmulatorError>(e),
            },
    {
        let mut i: usize = 0;
        while i < program.len()
            invariant
                i <= program@.len() <= 0x8000,
                spec_write_program(old(self)@.mem, program@.subrange(0, i as int)) == Ok::<
                    MemView,
                    EmulatorError,
                >(self@.mem),
                self@ == (CpuState { mem: self@.mem, ..old(self)@ }),
            decreases program@.len() - i,
        {
            let ghost before = self@;
            proof {
                assert(program@.subrange(0, i as int + 1).drop_last() =~= program@.subrange(0, i as int));
            }
            let r = self.write(PRG_ROM_START + i as u16, program[i]);
            if r.is_err() {
                proof {
                    assert(spec_write_program(old(self)@.mem, program@.subrange(0, i as int + 1)) is Err);
                    lemma_write_program_error_persists(
                        old(self)@.mem,
                        program@,
                        (i + 1) as nat,
                    );
                }
                return r;
            }
            i = i + 1;
        }
        proof {
            assert(program@.subrange(0, i as int) =~= program@);
        }
        Ok(())
    }

    /// Installs a blank cartridge if none is present, copies `program` to
    /// the start of program ROM and runs from the current program counter
    /// until `BRK` or an error (for at most `u64::MAX` instructions).
    pub fn load_and_run(&mut self, program: Vec<u8>) -> (r: Result<(), EmulatorError>)
        requires
            program@.len() <= 0x8000,
        ensures
            ({
                let loaded = match old(self)@.mem.rom {
                    Some(_) => old(self)@.mem,
                    None => MemView { rom: Some(Rom::default_view()), ..old(self)@.mem },
                };
                match spec_write_program(loaded, program@) {
                    Ok(m) => {
                        let run = spec_run(CpuState { mem: m, ..old(self)@ }, u64::MAX as nat);
                        final(self)@ == run.0 && (r is Ok <==> run.1 is Ok) && (run.1 matches Err(
                            e,
                        ) ==> r == Err::<(), EmulatorError>(e))
                    },
                    Err(e) => r == Err::<(), EmulatorError>(e),
                }
            }),
    {
        if self.bus.rom.is_none() {
            self.bus.load_rom(Rom::default());
        }
        self.write_program(&program)?;
        self.run_for(u64::MAX)?;
        Ok(())
    }
}

/// Once writing a prefix of a program fails, writing the whole program
/// fails with the same error.
proof fn lemma_write_program_error_persists(m: MemView, bytes: Seq<u8>, n: nat)
    requires
        n <= bytes.len(),
        spec_write_program(m, bytes.subrange(0, n as int)) is Err,
    ensures
        spec_write_program(m, bytes) == spec_write_program(m, bytes.subrange(0, n as int)),
    decreases bytes.len() - n,
{
    if n == bytes.len() {
        assert(bytes.subrange(0, n as int) =~= bytes);
    } else {
        assert(bytes.subrange(0, n as int + 1).drop_last() =~= bytes.subrange(0, n as int));
        lemma_write_program_error_persists(m, bytes, n + 1);
    }
}

/// An indirect `JMP` through a pointer at the end of a page takes the high
/// byte of its target from the start of that same page, not from the next
/// page, as the hardware does.
pub proof fn lemma_indirect_jump_page_wrap(s: CpuState, pointer: u16, low: u8, high: u8)
    requires
        s.mem.read(s.program_counter) == Ok::<u8, EmulatorError>(0x6C),
        s.mem.read_u16(s.program_counter.wrapping_add(1)) == Ok::<u16, EmulatorError>(pointer),
        pointer & 0x00FF == 0x00FF,
        s.mem.read(pointer) == Ok::<u8, EmulatorError>(low),
        s.mem.read(pointer & 0xFF00) == Ok::<u8, EmulatorError>(high),
    ensures
        pointer & 0xFF00 == pointer - 0xFF,
        spec_step(s) == Ok::<(CpuState, bool), EmulatorError>(
            (CpuState { program_counter: word(low, high), ..s }, false),
        ),
{
    reveal(spec_opcode);
    assert(pointer & 0x00FF == 0x00FF ==> pointer & 0xFF00 == pointer - 0xFF) by (bit_vector);
}

} // verus!
