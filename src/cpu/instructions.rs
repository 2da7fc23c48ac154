use vstd::prelude::*;

use crate::common::constants::{IRQ_VECTOR, STACK_START};
use crate::common::errors::EmulatorError;
use crate::common::util::{
    is_negative,
    overflows_negative,
    overflows_positive,
    spec_overflows_negative,
    spec_overflows_positive,
};
use crate::cpu::types::{ProcessorStatus, BREAK_FLAG};
use crate::cpu::{performed, spec_write, CpuState, CPU};
use crate::memory::bus::{word, MemView};

verus! {

// ---------------------------------------------------------------------
// Semantics
// ---------------------------------------------------------------------

/// `A := value`, with zero and negative taken from it.
pub open spec fn load_a(s: CpuState, value: u8) -> CpuState {
    CpuState { register_a: value, status: s.status.with_zn(value), ..s }
}

/// `X := value`, with zero and negative taken from it.
pub open spec fn load_x(s: CpuState, value: u8) -> CpuState {
    CpuState { register_x: value, status: s.status.with_zn(value), ..s }
}

/// `Y := value`, with zero and negative taken from it.
pub open spec fn load_y(s: CpuState, value: u8) -> CpuState {
    CpuState { register_y: value, status: s.status.with_zn(value), ..s }
}

pub open spec fn with_status(s: CpuState, status: ProcessorStatus) -> CpuState {
    CpuState { status, ..s }
}

/// `A + value + carry_in`, carry out of bit 7, overflow by the sign rule.
pub open spec fn add_with_carry(s: CpuState, value: u8, carry_in: bool) -> CpuState {
    let sum = s.register_a as u16 + value as u16 + if carry_in {
        1u16
    } else {
        0u16
    };
    let result = sum as u8;
    CpuState {
        register_a: result,
        status: ProcessorStatus {
            carry: sum > 0xFF,
            overflow: spec_overflows_positive(sum as u16, s.register_a, value),
            ..s.status.with_zn(result)
        },
        ..s
    }
}

/// `A - value - (1 - carry_in)`, carry set when no borrow occurred,
/// overflow by the complementary sign rule.
pub open spec fn subtract_with_borrow(s: CpuState, value: u8, carry_in: bool) -> CpuState {
    let biased = s.register_a as int + 256 - value as int - if carry_in {
        0int
    } else {
        1int
    };
    let result = biased as u8;
    CpuState {
        register_a: result,
        status: ProcessorStatus {
            carry: biased >= 256,
            overflow: spec_overflows_negative(result as u16, s.register_a, value),
            ..s.status.with_zn(result)
        },
        ..s
    }
}

/// `register - value` sets the flags; no register changes.
pub open spec fn compare(s: CpuState, register: u8, value: u8) -> CpuState {
    let result = register.wrapping_sub(value);
    CpuState { status: ProcessorStatus { carry: register >= value, ..s.status.with_zn(result) }, ..s }
}

pub open spec fn spec_bit(s: CpuState, value: u8) -> CpuState {
    CpuState {
        status: ProcessorStatus {
            zero: s.register_a & value == 0,
            negative: value >= 0x80,
            overflow: value & 0b0100_0000 != 0,
            ..s.status
        },
        ..s
    }
}

pub open spec fn spec_aac(s: CpuState, value: u8) -> CpuState {
    let result = s.register_a & value;
    CpuState {
        register_a: result,
        status: ProcessorStatus { carry: result >= 0x80, ..s.status.with_zn(result) },
        ..s
    }
}

/// `A & value` rotated right, bit 7 set from bit 0 or the carry; carry and
/// overflow from bits 6 and 5 of the result.
pub open spec fn spec_arr(s: CpuState, value: u8) -> CpuState {
    let anded = s.register_a & value;
    let rotated = (anded >> 1u8) | ((anded & 1) << 7u8) | if s.status.carry {
        0x80u8
    } else {
        0u8
    };
    let bit_5 = rotated & 0b0010_0000 != 0;
    let bit_6 = rotated & 0b0100_0000 != 0;
    CpuState {
        register_a: rotated,
        status: ProcessorStatus {
            carry: bit_6,
            overflow: bit_5 != bit_6,
            ..s.status.with_zn(rotated)
        },
        ..s
    }
}

pub open spec fn spec_asr(s: CpuState, value: u8) -> CpuState {
    let anded = s.register_a & value;
    let result = anded >> 1u8;
    CpuState {
        register_a: result,
        status: ProcessorStatus { carry: anded & 1 != 0, ..s.status.with_zn(result) },
        ..s
    }
}

pub open spec fn spec_atx(s: CpuState, value: u8) -> CpuState {
    let result = s.register_a & value;
    CpuState { register_a: result, register_x: result, status: s.status.with_zn(result), ..s }
}

pub open spec fn spec_lar(s: CpuState, value: u8) -> CpuState {
    let result = s.stack_pointer & value;
    CpuState {
        register_a: result,
        register_x: result,
        stack_pointer: result,
        status: s.status.with_zn(result),
        ..s
    }
}

pub open spec fn shift_left(value: u8) -> u8 {
    value << 1u8
}

pub open spec fn shift_right(value: u8) -> u8 {
    value >> 1u8
}

pub open spec fn rotate_left(value: u8, carry: bool) -> u8 {
    (value << 1u8) | if carry {
        1u8
    } else {
        0u8
    }
}

pub open spec fn rotate_right(value: u8, carry: bool) -> u8 {
    (value >> 1u8) | if carry {
        0x80u8
    } else {
        0u8
    }
}

pub open spec fn bit_7(value: u8) -> bool {
    value & 0b1000_0000 != 0
}

pub open spec fn bit_0(value: u8) -> bool {
    value & 0b0000_0001 != 0
}

/// A with a shifted or rotated value and the bit that left it in carry.
pub open spec fn shift_a(s: CpuState, result: u8, carry: bool) -> CpuState {
    CpuState {
        register_a: result,
        status: ProcessorStatus { carry, ..s.status.with_zn(result) },
        ..s
    }
}

/// Write `result` at `address`; on success set carry and zero/negative
/// from it.
pub open spec fn shift_memory(s: CpuState, address: u16, result: u8, carry: bool) -> Result<
    CpuState,
    EmulatorError,
> {
    match spec_write(s, address, result) {
        Ok(s2) => Ok(
            CpuState { status: ProcessorStatus { carry, ..s.status.with_zn(result) }, ..s2 },
        ),
        Err(e) => Err(e),
    }
}

/// Increments the byte at `address`; zero and negative follow the result.
pub open spec fn spec_inc(s: CpuState, address: u16) -> Result<CpuState, EmulatorError> {
    match s.mem.read(address) {
        Err(e) => Err(e),
        Ok(v) => {
            let result = v.wrapping_add(1);
            match spec_write(s, address, result) {
                Ok(s2) => Ok(with_status(s2, s.status.with_zn(result))),
                Err(e) => Err(e),
            }
        },
    }
}

pub open spec fn spec_dec(s: CpuState, address: u16) -> Result<CpuState, EmulatorError> {
    match s.mem.read(address) {
        Err(e) => Err(e),
        Ok(v) => {
            let result = v.wrapping_sub(1);
            match spec_write(s, address, result) {
                Ok(s2) => Ok(with_status(s2, s.status.with_zn(result))),
                Err(e) => Err(e),
            }
        },
    }
}

pub open spec fn spec_asl(s: CpuState, address: u16) -> Result<CpuState, EmulatorError> {
    match s.mem.read(address) {
        Err(e) => Err(e),
        Ok(v) => shift_memory(s, address, shift_left(v), bit_7(v)),
    }
}

pub open spec fn spec_lsr(s: CpuState, address: u16) -> Result<CpuState, EmulatorError> {
    match s.mem.read(address) {
        Err(e) => Err(e),
        Ok(v) => shift_memory(s, address, shift_right(v), bit_0(v)),
    }
}

pub open spec fn spec_rol(s: CpuState, address: u16) -> Result<CpuState, EmulatorError> {
    match s.mem.read(address) {
        Err(e) => Err(e),
        Ok(v) => shift_memory(s, address, rotate_left(v, s.status.carry), bit_7(v)),
    }
}

pub open spec fn spec_ror(s: CpuState, address: u16) -> Result<CpuState, EmulatorError> {
    match s.mem.read(address) {
        Err(e) => Err(e),
        Ok(v) => shift_memory(s, address, rotate_right(v, s.status.carry), bit_0(v)),
    }
}

/// The stack slot the pointer designates.
pub open spec fn stack_address(stack_pointer: u8) -> u16 {
    (STACK_START + stack_pointer) as u16
}

/// Writes `value` at the top of the stack, then moves the pointer down
/// (wrapping within page one).
pub open spec fn push(s: CpuState, value: u8) -> CpuState {
    CpuState {
        mem: MemView { ram: s.mem.ram.update(stack_address(s.stack_pointer) as int, value), ..s.mem },
        stack_pointer: s.stack_pointer.wrapping_sub(1),
        ..s
    }
}

/// Moves the pointer up (wrapping), then reads the slot it designates.
pub open spec fn pop(s: CpuState) -> (CpuState, u8) {
    let sp = s.stack_pointer.wrapping_add(1);
    (CpuState { stack_pointer: sp, ..s }, s.mem.ram[stack_address(sp) as int])
}

pub open spec fn pushed_status(s: CpuState) -> u8 {
    s.status.spec_to_u8() | BREAK_FLAG
}

/// Flags pulled from the stack, the break flag cleared.
pub open spec fn pulled_status(value: u8) -> ProcessorStatus {
    ProcessorStatus { break_command: false, ..ProcessorStatus::spec_from_u8(value) }
}

pub open spec fn spec_pla(s: CpuState) -> CpuState {
    load_a(pop(s).0, pop(s).1)
}

pub open spec fn spec_plp(s: CpuState) -> CpuState {
    with_status(pop(s).0, pulled_status(pop(s).1))
}

/// Pushes the address of the last byte of the `JSR` (high byte first) and
/// jumps.
pub open spec fn spec_jsr(s: CpuState, address: u16) -> CpuState {
    let ret = s.program_counter.wrapping_add(2);
    let s1 = push(push(s, (ret / 256) as u8), (ret % 256) as u8);
    CpuState { program_counter: address, ..s1 }
}

/// Pulls the low then the high byte of the return address.
pub open spec fn spec_rts(s: CpuState) -> CpuState {
    let (s1, low) = pop(s);
    let (s2, high) = pop(s1);
    CpuState { program_counter: word(low, high), ..s2 }
}

pub open spec fn spec_rti(s: CpuState) -> CpuState {
    let (s1, flags) = pop(s);
    let (s2, low) = pop(s1);
    let (s3, high) = pop(s2);
    CpuState { program_counter: word(low, high), status: pulled_status(flags), ..s3 }
}

/// Pushes the program counter (high byte first) and the status with the
/// break bit set, then jumps through the interrupt vector.
pub open spec fn spec_brk(s: CpuState) -> Result<CpuState, EmulatorError> {
    match s.mem.read_u16(IRQ_VECTOR) {
        Err(e) => Err(e),
        Ok(vector) => {
            let pc = s.program_counter;
            let s1 = push(push(push(s, (pc / 256) as u8), (pc % 256) as u8), pushed_status(s));
            Ok(CpuState { program_counter: vector, ..s1 })
        },
    }
}

/// Moves the program counter by a signed offset when the condition holds.
pub open spec fn branch(s: CpuState, condition: bool, offset: i8) -> CpuState {
    if condition {
        CpuState { program_counter: s.program_counter.wrapping_add(offset as u16), ..s }
    } else {
        s
    }
}

/// Stores `A & X`; zero and negative follow the stored value.
pub open spec fn spec_sax(s: CpuState, address: u16) -> Result<CpuState, EmulatorError> {
    let result = s.register_a & s.register_x;
    match spec_write(s, address, result) {
        Ok(s2) => Ok(with_status(s2, s.status.with_zn(result))),
        Err(e) => Err(e),
    }
}

pub open spec fn spec_axa(s: CpuState, address: u16) -> Result<CpuState, EmulatorError> {
    spec_write(s, address, (s.register_a & s.register_x) & 7)
}

pub open spec fn spec_dcp(s: CpuState, address: u16) -> Result<CpuState, EmulatorError> {
    match s.mem.read(address) {
        Err(e) => Err(e),
        Ok(v) => {
            let decrement = v.wrapping_sub(1);
            match spec_write(s, address, decrement) {
                Ok(s2) => Ok(
                    with_status(
                        s2,
                        ProcessorStatus {
                            zero: s.register_a == decrement,
                            negative: decrement >= 0x80,
                            carry: s.register_a >= decrement,
                            ..s.status
                        },
                    ),
                ),
                Err(e) => Err(e),
            }
        },
    }
}

pub open spec fn spec_isb(s: CpuState, address: u16) -> Result<CpuState, EmulatorError> {
    match s.mem.read(address) {
        Err(e) => Err(e),
        Ok(v) => {
            let increment = v.wrapping_add(1);
            match spec_write(s, address, increment) {
                Ok(s2) => Ok(subtract_with_borrow(s2, increment, s.status.carry)),
                Err(e) => Err(e),
            }
        },
    }
}

pub open spec fn spec_rla(s: CpuState, address: u16) -> Result<CpuState, EmulatorError> {
    match s.mem.read(address) {
        Err(e) => Err(e),
        Ok(v) => {
            let rotated = rotate_left(v, s.status.carry);
            match spec_write(s, address, rotated) {
                Ok(s2) => {
                    let result = rotated & s.register_a;
                    Ok(
                        CpuState {
                            register_a: result,
                            status: ProcessorStatus { carry: bit_7(v), ..s.status.with_zn(result) },
                            ..s2
                        },
                    )
                },
                Err(e) => Err(e),
            }
        },
    }
}

pub open spec fn spec_rra(s: CpuState, address: u16) -> Result<CpuState, EmulatorError> {
    match s.mem.read(address) {
        Err(e) => Err(e),
        Ok(v) => {
            let rotated = rotate_right(v, s.status.carry);
            match spec_write(s, address, rotated) {
                Ok(s2) => Ok(add_with_carry(s2, rotated, bit_0(v))),
                Err(e) => Err(e),
            }
        },
    }
}

pub open spec fn spec_axs(s: CpuState, address: u16) -> Result<CpuState, EmulatorError> {
    match s.mem.read(address) {
        Err(e) => Err(e),
        Ok(v) => {
            let anded = s.register_a & s.register_x;
            let result = anded.wrapping_sub(v);
            Ok(
                CpuState {
                    register_x: result,
                    status: ProcessorStatus { carry: anded >= v, ..s.status.with_zn(result) },
                    ..s
                },
            )
        },
    }
}

pub open spec fn spec_lax(s: CpuState, address: u16) -> Result<CpuState, EmulatorError> {
    match s.mem.read(address) {
        Err(e) => Err(e),
        Ok(v) => Ok(CpuState { register_x: v, ..load_a(s, v) }),
    }
}

pub open spec fn spec_slo(s: CpuState, address: u16) -> Result<CpuState, EmulatorError> {
    match s.mem.read(address) {
        Err(e) => Err(e),
        Ok(v) => {
            let shifted = shift_left(v);
            match spec_write(s, address, shifted) {
                Ok(s2) => {
                    let result = s.register_a | shifted;
                    Ok(
                        CpuState {
                            register_a: result,
                            status: ProcessorStatus { carry: bit_7(v), ..s.status.with_zn(result) },
                            ..s2
                        },
                    )
                },
                Err(e) => Err(e),
            }
        },
    }
}

pub open spec fn spec_sre(s: CpuState, address: u16) -> Result<CpuState, EmulatorError> {
    match s.mem.read(address) {
        Err(e) => Err(e),
        Ok(v) => {
            let shifted = shift_right(v);
            match spec_write(s, address, shifted) {
                Ok(s2) => {
                    let result = s.register_a ^ shifted;
                    Ok(
                        CpuState {
                            register_a: result,
                            status: ProcessorStatus { carry: bit_0(v), ..s.status.with_zn(result) },
                            ..s2
                        },
                    )
                },
                Err(e) => Err(e),
            }
        },
    }
}

/// `(register & high byte of address) + 1`, as the unofficial stores
/// compute it.
pub open spec fn masked_high(register: u8, address: u16) -> u8 {
    (register & ((address / 256) as u8)).wrapping_add(1)
}

pub open spec fn spec_xas(s: CpuState, address: u16) -> Result<CpuState, EmulatorError> {
    let sp = s.register_a & s.register_x;
    match spec_write(s, address, masked_high(sp, address)) {
        Ok(s2) => Ok(CpuState { stack_pointer: sp, ..s2 }),
        Err(e) => Err(e),
    }
}

// ---------------------------------------------------------------------
// Helpers
// ---------------------------------------------------------------------

fn set_zero_negative(cpu: &mut CPU, value: u8)
    ensures
        final(cpu)@ == with_status(old(cpu)@, old(cpu)@.status.with_zn(value)),
{
    cpu.status.zero = value == 0;
    cpu.status.negative = is_negative(value);
}

pub fn stack_push(cpu: &mut CPU, value: u8)
    ensures
        final(cpu)@ == push(old(cpu)@, value),
{
    let sp_address = cpu.stack_pointer as u16 + STACK_START;
    let _ = cpu.write(sp_address, value);
    proof {
        assert(old(cpu)@.mem.write(sp_address, value) is Ok);
    }
    cpu.stack_pointer = cpu.stack_pointer.wrapping_sub(1);
}

pub fn stack_pop(cpu: &mut CPU) -> (r: u8)
    ensures
        (final(cpu)@, r) == pop(old(cpu)@),
{
    cpu.stack_pointer = cpu.stack_pointer.wrapping_add(1);
    let sp_address = cpu.stack_pointer as u16 + STACK_START;
    let value = cpu.bus.cpu_ram[sp_address as usize];
    value
}

// ---------------------------------------------------------------------
// Load, store, transfer
// ---------------------------------------------------------------------

pub fn lda(cpu: &mut CPU, param: u8)
    ensures
        final(cpu)@ == load_a(old(cpu)@, param),
{
    cpu.register_a = param;
    set_zero_negative(cpu, param);
}

pub fn ldx(cpu: &mut CPU, param: u8)
    ensures
        final(cpu)@ == load_x(old(cpu)@, param),
{
    cpu.register_x = param;
    set_zero_negative(cpu, param);
}

pub fn ldy(cpu: &mut CPU, param: u8)
    ensures
        final(cpu)@ == load_y(old(cpu)@, param),
{
    cpu.register_y = param;
    set_zero_negative(cpu, param);
}

pub fn sta(cpu: &mut CPU, param: u16) -> (r: Result<(), EmulatorError>)
    ensures
        performed(old(cpu)@, final(cpu)@, r, spec_write(old(cpu)@, param, old(cpu).register_a)),
{
    let value = cpu.register_a;
    cpu.write(param, value)
}

pub fn stx(cpu: &mut CPU, param: u16) -> (r: Result<(), EmulatorError>)
    ensures
        performed(old(cpu)@, final(cpu)@, r, spec_write(old(cpu)@, param, old(cpu).register_x)),
{
    let value = cpu.register_x;
    cpu.write(param, value)
}

pub fn sty(cpu: &mut CPU, param: u16) -> (r: Result<(), EmulatorError>)
    ensures
        performed(old(cpu)@, final(cpu)@, r, spec_write(old(cpu)@, param, old(cpu).register_y)),
{
    let value = cpu.register_y;
    cpu.write(param, value)
}

pub fn tax(cpu: &mut CPU)
    ensures
        final(cpu)@ == load_x(old(cpu)@, old(cpu).register_a),
{
    let value = cpu.register_a;
    ldx(cpu, value);
}

pub fn tay(cpu: &mut CPU)
    ensures
        final(cpu)@ == load_y(old(cpu)@, old(cpu).register_a),
{
    let value = cpu.register_a;
    ldy(cpu, value);
}

pub fn txa(cpu: &mut CPU)
    ensures
        final(cpu)@ == load_a(old(cpu)@, old(cpu).register_x),
{
    let value = cpu.register_x;
    lda(cpu, value);
}

pub fn tya(cpu: &mut CPU)
    ensures
        final(cpu)@ == load_a(old(cpu)@, old(cpu).register_y),
{
    let value = cpu.register_y;
    lda(cpu, value);
}

pub fn tsx(cpu: &mut CPU)
    ensures
        final(cpu)@ == load_x(old(cpu)@, old(cpu).stack_pointer),
{
    let value = cpu.stack_pointer;
    ldx(cpu, value);
}

pub fn txs(cpu: &mut CPU)
    ensures
        final(cpu)@ == (CpuState { stack_pointer: old(cpu).register_x, ..old(cpu)@ }),
{
    cpu.stack_pointer = cpu.register_x;
}

// ---------------------------------------------------------------------
// Arithmetic and logic
// ---------------------------------------------------------------------

fn add_to_a(cpu: &mut CPU, param: u8, carry_in: bool)
    ensures
        final(cpu)@ == add_with_carry(old(cpu)@, param, carry_in),
{
    let carry: u16 = if carry_in {
        1
    } else {
        0
    };
    let result = cpu.register_a as u16 + param as u16 + carry;
    let old_a = cpu.register_a;
    cpu.register_a = result as u8;
    set_zero_negative(cpu, result as u8);
    cpu.status.carry = result > 0xFF;
    cpu.status.overflow = overflows_positive(result, old_a, param);
}

fn subtract_from_a(cpu: &mut CPU, param: u8, carry_in: bool)
    ensures
        final(cpu)@ == subtract_with_borrow(old(cpu)@, param, carry_in),
{
    let borrow: u16 = if carry_in {
        0
    } else {
        1
    };
    let biased = cpu.register_a as u16 + 256 - param as u16 - borrow;
    let result = biased as u8;
    let old_a = cpu.register_a;
    cpu.register_a = result;
    set_zero_negative(cpu, result);
    cpu.status.carry = biased >= 256;
    cpu.status.overflow = overflows_negative(result as u16, old_a, param);
}

pub fn adc(cpu: &mut CPU, param: u8)
    ensures
        final(cpu)@ == add_with_carry(old(cpu)@, param, old(cpu).status.carry),
{
    let carry = cpu.status.carry;
    add_to_a(cpu, param, carry);
}

pub fn sbc(cpu: &mut CPU, param: u8)
    ensures
        final(cpu)@ == subtract_with_borrow(old(cpu)@, param, old(cpu).status.carry),
{
    let carry = cpu.status.carry;
    subtract_from_a(cpu, param, carry);
}

pub fn and(cpu: &mut CPU, param: u8)
    ensures
        final(cpu)@ == load_a(old(cpu)@, old(cpu).register_a & param),
{
    let value = cpu.register_a & param;
    lda(cpu, value);
}

pub fn eor(cpu: &mut CPU, param: u8)
    ensures
        final(cpu)@ == load_a(old(cpu)@, old(cpu).register_a ^ param),
{
    let value = cpu.register_a ^ param;
    lda(cpu, value);
}

pub fn ora(cpu: &mut CPU, param: u8)
    ensures
        final(cpu)@ == load_a(old(cpu)@, old(cpu).register_a | param),
{
    let value = cpu.register_a | param;
    lda(cpu, value);
}

fn compare_register(cpu: &mut CPU, register: u8, param: u8)
    ensures
        final(cpu)@ == compare(old(cpu)@, register, param),
{
    let result = register.wrapping_sub(param);
    set_zero_negative(cpu, result);
    cpu.status.carry = register >= param;
}

pub fn cmp(cpu: &mut CPU, param: u8)
    ensures
        final(cpu)@ == compare(old(cpu)@, old(cpu).register_a, param),
{
    let register = cpu.register_a;
    compare_register(cpu, register, param);
}

pub fn cpx(cpu: &mut CPU, param: u8)
    ensures
        final(cpu)@ == compare(old(cpu)@, old(cpu).register_x, param),
{
    let register = cpu.register_x;
    compare_register(cpu, register, param);
}

pub fn cpy(cpu: &mut CPU, param: u8)
    ensures
        final(cpu)@ == compare(old(cpu)@, old(cpu).register_y, param),
{
    let register = cpu.register_y;
    compare_register(cpu, register, param);
}

pub fn bit(cpu: &mut CPU, param: u8)
    ensures
        final(cpu)@ == spec_bit(old(cpu)@, param),
{
    cpu.status.zero = cpu.register_a & param == 0;
    cpu.status.negative = is_negative(param);
    cpu.status.overflow = param & 0b0100_0000 != 0;
}

// ---------------------------------------------------------------------
// Increment and decrement
// ---------------------------------------------------------------------

pub fn inc(cpu: &mut CPU, address: u16) -> (r: Result<(), EmulatorError>)
    ensures
        performed(old(cpu)@, final(cpu)@, r, spec_inc(old(cpu)@, address)),
{
    let value = cpu.read(address)?;
    let result = value.wrapping_add(1);
    cpu.write(address, result)?;
    set_zero_negative(cpu, result);
    Ok(())
}

pub fn dec(cpu: &mut CPU, address: u16) -> (r: Result<(), EmulatorError>)
    ensures
        performed(old(cpu)@, final(cpu)@, r, spec_dec(old(cpu)@, address)),
{
    let value = cpu.read(address)?;
    let result = value.wrapping_sub(1);
    cpu.write(address, result)?;
    set_zero_negative(cpu, result);
    Ok(())
}

pub fn inx(cpu: &mut CPU)
    ensures
        final(cpu)@ == load_x(old(cpu)@, old(cpu).register_x.wrapping_add(1)),
{
    let value = cpu.register_x.wrapping_add(1);
    ldx(cpu, value);
}

pub fn iny(cpu: &mut CPU)
    ensures
        final(cpu)@ == load_y(old(cpu)@, old(cpu).register_y.wrapping_add(1)),
{
    let value = cpu.register_y.wrapping_add(1);
    ldy(cpu, value);
}

pub fn dex(cpu: &mut CPU)
    ensures
        final(cpu)@ == load_x(old(cpu)@, old(cpu).register_x.wrapping_sub(1)),
{
    let value = cpu.register_x.wrapping_sub(1);
    ldx(cpu, value);
}

pub fn dey(cpu: &mut CPU)
    ensures
        final(cpu)@ == load_y(old(cpu)@, old(cpu).register_y.wrapping_sub(1)),
{
    let value = cpu.register_y.wrapping_sub(1);
    ldy(cpu, value);
}

// ---------------------------------------------------------------------
// Shifts and rotates
// ---------------------------------------------------------------------

proof fn lemma_shift_right_positive(value: u8)
    ensures
        !(value >> 1u8 >= 0x80),
{
    assert(!(value >> 1u8 >= 0x80)) by (bit_vector);
}

pub fn asl_accumulator(cpu: &mut CPU)
    ensures
        final(cpu)@ == shift_a(old(cpu)@, shift_left(old(cpu).register_a), bit_7(old(cpu).register_a)),
{
    cpu.status.carry = cpu.register_a & 0b1000_0000 != 0;
    cpu.register_a = cpu.register_a << 1u8;
    let value = cpu.register_a;
    set_zero_negative(cpu, value);
}

pub fn lsr_accumulator(cpu: &mut CPU)
    ensures
        final(cpu)@ == shift_a(old(cpu)@, shift_right(old(cpu).register_a), bit_0(old(cpu).register_a)),
{
    proof {
        lemma_shift_right_positive(cpu.register_a);
    }
    cpu.status.carry = cpu.register_a & 0b0000_0001 != 0;
    cpu.register_a = cpu.register_a >> 1u8;
    cpu.status.zero = cpu.register_a == 0;
    cpu.status.negative = false;
}

pub fn rol_accumulator(cpu: &mut CPU)
    ensures
        final(cpu)@ == shift_a(
            old(cpu)@,
            rotate_left(old(cpu).register_a, old(cpu).status.carry),
            bit_7(old(cpu).register_a),
        ),
{
    let carry: u8 = if cpu.status.carry {
        1
    } else {
        0
    };
    cpu.status.carry = cpu.register_a & 0b1000_0000 != 0;
    cpu.register_a = (cpu.register_a << 1u8) | carry;
    let value = cpu.register_a;
    set_zero_negative(cpu, value);
}

pub fn ror_accumulator(cpu: &mut CPU)
    ensures
        final(cpu)@ == shift_a(
            old(cpu)@,
            rotate_right(old(cpu).register_a, old(cpu).status.carry),
            bit_0(old(cpu).register_a),
        ),
{
    let carry: u8 = if cpu.status.carry {
        0b1000_0000
    } else {
        0
    };
    cpu.status.carry = cpu.register_a & 0b0000_0001 != 0;
    cpu.register_a = (cpu.register_a >> 1u8) | carry;
    let value = cpu.register_a;
    set_zero_negative(cpu, value);
}

/// Writes a shifted value back, then sets carry, zero and negative.
fn store_shifted(cpu: &mut CPU, address: u16, result: u8, carry: bool) -> (r: Result<
    (),
    EmulatorError,
>)
    ensures
        performed(old(cpu)@, final(cpu)@, r, shift_memory(old(cpu)@, address, result, carry)),
{
    cpu.write(address, result)?;
    cpu.status.carry = carry;
    set_zero_negative(cpu, result);
    Ok(())
}

pub fn asl(cpu: &mut CPU, address: u16) -> (r: Result<(), EmulatorError>)
    ensures
        performed(old(cpu)@, final(cpu)@, r, spec_asl(old(cpu)@, address)),
{
    let value = cpu.read(address)?;
    store_shifted(cpu, address, value << 1u8, value & 0b1000_0000 != 0)
}

pub fn lsr(cpu: &mut CPU, address: u16) -> (r: Result<(), EmulatorError>)
    ensures
        performed(old(cpu)@, final(cpu)@, r, spec_lsr(old(cpu)@, address)),
{
    let value = cpu.read(address)?;
    store_shifted(cpu, address, value >> 1u8, value & 0b0000_0001 != 0)
}

pub fn rol(cpu: &mut CPU, address: u16) -> (r: Result<(), EmulatorError>)
    ensures
        performed(old(cpu)@, final(cpu)@, r, spec_rol(old(cpu)@, address)),
{
    let value = cpu.read(address)?;
    let carry: u8 = if cpu.status.carry {
        1
    } else {
        0
    };
    store_shifted(cpu, address, (value << 1u8) | carry, value & 0b1000_0000 != 0)
}

pub fn ror(cpu: &mut CPU, address: u16) -> (r: Result<(), EmulatorError>)
    ensures
        performed(old(cpu)@, final(cpu)@, r, spec_ror(old(cpu)@, address)),
{
    let value = cpu.read(address)?;
    let carry: u8 = if cpu.status.carry {
        0b1000_0000
    } else {
        0
    };
    store_shifted(cpu, address, (value >> 1u8) | carry, value & 0b0000_0001 != 0)
}

// ---------------------------------------------------------------------
// Jumps and branches
// ---------------------------------------------------------------------

pub fn jmp(cpu: &mut CPU, address: u16)
    ensures
        final(cpu)@ == (CpuState { program_counter: address, ..old(cpu)@ }),
{
    cpu.program_counter = address;
}

fn branch_if(cpu: &mut CPU, condition: bool, offset: i8)
    ensures
        final(cpu)@ == branch(old(cpu)@, condition, offset),
{
    if condition {
        cpu.program_counter = cpu.program_counter.wrapping_add(offset as u16);
    }
}

pub fn bcc(cpu: &mut CPU, offset: i8) -> (r: Result<(), EmulatorError>)
    ensures
        r is Ok,
        final(cpu)@ == branch(old(cpu)@, !old(cpu).status.carry, offset),
{
    let condition = !cpu.status.carry;
    branch_if(cpu, condition, offset);
    Ok(())
}

pub fn bcs(cpu: &mut CPU, offset: i8) -> (r: Result<(), EmulatorError>)
    ensures
        r is Ok,
        final(cpu)@ == branch(old(cpu)@, old(cpu).status.carry, offset),
{
    let condition = cpu.status.carry;
    branch_if(cpu, condition, offset);
    Ok(())
}

pub fn beq(cpu: &mut CPU, offset: i8) -> (r: Result<(), EmulatorError>)
    ensures
        r is Ok,
        final(cpu)@ == branch(old(cpu)@, old(cpu).status.zero, offset),
{
    let condition = cpu.status.zero;
    branch_if(cpu, condition, offset);
    Ok(())
}

pub fn bmi(cpu: &mut CPU, offset: i8) -> (r: Result<(), EmulatorError>)
    ensures
        r is Ok,
        final(cpu)@ == branch(old(cpu)@, old(cpu).status.negative, offset),
{
    let condition = cpu.status.negative;
    branch_if(cpu, condition, offset);
    Ok(())
}

pub fn bne(cpu: &mut CPU, offset: i8) -> (r: Result<(), EmulatorError>)
    ensures
        r is Ok,
        final(cpu)@ == branch(old(cpu)@, !old(cpu).status.zero, offset),
{
    let condition = !cpu.status.zero;
    branch_if(cpu, condition, offset);
    Ok(())
}

pub fn bpl(cpu: &mut CPU, offset: i8) -> (r: Result<(), EmulatorError>)
    ensures
        r is Ok,
        final(cpu)@ == branch(old(cpu)@, !old(cpu).status.negative, offset),
{
    let condition = !cpu.status.negative;
    branch_if(cpu, condition, offset);
    Ok(())
}

pub fn bvc(cpu: &mut CPU, offset: i8) -> (r: Result<(), EmulatorError>)
    ensures
        r is Ok,
        final(cpu)@ == branch(old(cpu)@, !old(cpu).status.overflow, offset),
{
    let condition = !cpu.status.overflow;
    branch_if(cpu, condition, offset);
    Ok(())
}

pub fn bvs(cpu: &mut CPU, offset: i8) -> (r: Result<(), EmulatorError>)
    ensures
        r is Ok,
        final(cpu)@ == branch(old(cpu)@, old(cpu).status.overflow, offset),
{
    let condition = cpu.status.overflow;
    branch_if(cpu, condition, offset);
    Ok(())
}

// ---------------------------------------------------------------------
// Stack
// ---------------------------------------------------------------------

pub fn pha(cpu: &mut CPU) -> (r: Result<(), EmulatorError>)
    ensures
        r is Ok,
        final(cpu)@ == push(old(cpu)@, old(cpu).register_a),
{
    let value = cpu.register_a;
    stack_push(cpu, value);
    Ok(())
}

pub fn php(cpu: &mut CPU) -> (r: Result<(), EmulatorError>)
    ensures
        r is Ok,
        final(cpu)@ == push(old(cpu)@, pushed_status(old(cpu)@)),
{
    let status = cpu.status.to_u8() | BREAK_FLAG;
    stack_push(cpu, status);
    Ok(())
}

pub fn pla(cpu: &mut CPU) -> (r: Result<(), EmulatorError>)
    ensures
        r is Ok,
        final(cpu)@ == spec_pla(old(cpu)@),
{
    let value = stack_pop(cpu);
    lda(cpu, value);
    Ok(())
}

pub fn plp(cpu: &mut CPU) -> (r: Result<(), EmulatorError>)
    ensures
        r is Ok,
        final(cpu)@ == spec_plp(old(cpu)@),
{
    let status_bits = stack_pop(cpu);
    cpu.status = ProcessorStatus::from_u8(status_bits);
    cpu.status.break_command = false;
    Ok(())
}

// ---------------------------------------------------------------------
// Status flags
// ---------------------------------------------------------------------

pub fn clc(cpu: &mut CPU)
    ensures
        final(cpu)@ == with_status(old(cpu)@, ProcessorStatus { carry: false, ..old(cpu).status }),
{
    cpu.status.carry = false;
}

pub fn cli(cpu: &mut CPU)
    ensures
        final(cpu)@ == with_status(
            old(cpu)@,
            ProcessorStatus { interrupt_disable: false, ..old(cpu).status },
        ),
{
    cpu.status.interrupt_disable = false;
}

pub fn cld(cpu: &mut CPU)
    ensures
        final(cpu)@ == with_status(old(cpu)@, ProcessorStatus { decimal_mode: false, ..old(cpu).status }),
{
    cpu.status.decimal_mode = false;
}

pub fn clv(cpu: &mut CPU)
    ensures
        final(cpu)@ == with_status(old(cpu)@, ProcessorStatus { overflow: false, ..old(cpu).status }),
{
    cpu.status.overflow = false;
}

pub fn sec(cpu: &mut CPU)
    ensures
        final(cpu)@ == with_status(old(cpu)@, ProcessorStatus { carry: true, ..old(cpu).status }),
{
    cpu.status.carry = true;
}

pub fn sei(cpu: &mut CPU)
    ensures
        final(cpu)@ == with_status(
            old(cpu)@,
            ProcessorStatus { interrupt_disable: true, ..old(cpu).status },
        ),
{
    cpu.status.interrupt_disable = true;
}

pub fn sed(cpu: &mut CPU)
    ensures
        final(cpu)@ == with_status(old(cpu)@, ProcessorStatus { decimal_mode: true, ..old(cpu).status }),
{
    cpu.status.decimal_mode = true;
}

// ---------------------------------------------------------------------
// Subroutines and interrupts
// ---------------------------------------------------------------------

pub fn jsr(cpu: &mut CPU, address: u16) -> (r: Result<(), EmulatorError>)
    ensures
        r is Ok,
        final(cpu)@ == spec_jsr(old(cpu)@, address),
{
    let return_address = cpu.program_counter.wrapping_add(2);
    let return_address_low = (return_address % 256) as u8;
    let return_address_high = (return_address / 256) as u8;

    stack_push(cpu, return_address_high);
    stack_push(cpu, return_address_low);

    cpu.program_counter = address;
    Ok(())
}

pub fn rts(cpu: &mut CPU) -> (r: Result<(), EmulatorError>)
    ensures
        r is Ok,
        final(cpu)@ == spec_rts(old(cpu)@),
{
    let return_address_low = stack_pop(cpu);
    let return_address_high = stack_pop(cpu);
    cpu.program_counter = return_address_high as u16 * 256 + return_address_low as u16;
    Ok(())
}

pub fn rti(cpu: &mut CPU) -> (r: Result<(), EmulatorError>)
    ensures
        r is Ok,
        final(cpu)@ == spec_rti(old(cpu)@),
{
    let status_bits = stack_pop(cpu);
    let return_address_low = stack_pop(cpu);
    let return_address_high = stack_pop(cpu);
    cpu.program_counter = return_address_high as u16 * 256 + return_address_low as u16;
    cpu.status = ProcessorStatus::from_u8(status_bits);
    cpu.status.break_command = false;
    Ok(())
}

pub fn brk(cpu: &mut CPU) -> (r: Result<(), EmulatorError>)
    ensures
        performed(old(cpu)@, final(cpu)@, r, spec_brk(old(cpu)@)),
{
    let vector = cpu.read_u16(IRQ_VECTOR)?;
    let pc = cpu.program_counter;
    stack_push(cpu, (pc / 256) as u8);
    stack_push(cpu, (pc % 256) as u8);
    let status = cpu.status.to_u8() | BREAK_FLAG;
    stack_push(cpu, status);
    cpu.program_counter = vector;
    Ok(())
}

// ---------------------------------------------------------------------
// Unofficial instructions
// ---------------------------------------------------------------------

pub fn aac(cpu: &mut CPU, param: u8)
    ensures
        final(cpu)@ == spec_aac(old(cpu)@, param),
{
    let value = cpu.register_a & param;
    lda(cpu, value);
    cpu.status.carry = cpu.status.negative;
}

pub fn sax(cpu: &mut CPU, address: u16) -> (r: Result<(), EmulatorError>)
    ensures
        performed(old(cpu)@, final(cpu)@, r, spec_sax(old(cpu)@, address)),
{
    let result = cpu.register_a & cpu.register_x;
    cpu.write(address, result)?;
    set_zero_negative(cpu, result);
    Ok(())
}

pub fn arr(cpu: &mut CPU, param: u8)
    ensures
        final(cpu)@ == spec_arr(old(cpu)@, param),
{
    let mut result = cpu.register_a & param;
    let bit_0 = result & 0b0000_0001;
    result = result >> 1u8;
    result = result | (bit_0 << 7u8);
    if cpu.status.carry {
        result = result | 0b1000_0000;
    } else {
        proof {
            assert(result | 0u8 == result) by (bit_vector);
        }
    }
    let bit_5 = result & 0b0010_0000 != 0;
    let bit_6 = result & 0b0100_0000 != 0;
    if bit_5 && bit_6 {
        cpu.status.carry = true;
        cpu.status.overflow = false;
    } else if !bit_5 && !bit_6 {
        cpu.status.carry = false;
        cpu.status.overflow = false;
    } else if bit_5 && !bit_6 {
        cpu.status.carry = false;
        cpu.status.overflow = true;
    } else {
        cpu.status.carry = true;
        cpu.status.overflow = true;
    }
    cpu.register_a = result;
    set_zero_negative(cpu, result);
}

pub fn asr(cpu: &mut CPU, param: u8)
    ensures
        final(cpu)@ == spec_asr(old(cpu)@, param),
{
    cpu.register_a = cpu.register_a & param;
    cpu.status.carry = (cpu.register_a & 1) != 0;
    cpu.register_a = cpu.register_a >> 1u8;
    let value = cpu.register_a;
    set_zero_negative(cpu, value);
}

pub fn atx(cpu: &mut CPU, param: u8)
    ensures
        final(cpu)@ == spec_atx(old(cpu)@, param),
{
    let value = cpu.register_a & param;
    lda(cpu, value);
    cpu.register_x = cpu.register_a;
}

pub fn axa(cpu: &mut CPU, address: u16) -> (r: Result<(), EmulatorError>)
    ensures
        performed(old(cpu)@, final(cpu)@, r, spec_axa(old(cpu)@, address)),
{
    let result = (cpu.register_a & cpu.register_x) & 7;
    cpu.write(address, result)
}

pub fn dcp(cpu: &mut CPU, address: u16) -> (r: Result<(), EmulatorError>)
    ensures
        performed(old(cpu)@, final(cpu)@, r, spec_dcp(old(cpu)@, address)),
{
    let value = cpu.read(address)?;
    let decrement = value.wrapping_sub(1);
    cpu.write(address, decrement)?;
    cpu.status.zero = cpu.register_a == decrement;
    cpu.status.negative = is_negative(decrement);
    cpu.status.carry = cpu.register_a >= decrement;
    Ok(())
}

pub fn isb(cpu: &mut CPU, address: u16) -> (r: Result<(), EmulatorError>)
    ensures
        performed(old(cpu)@, final(cpu)@, r, spec_isb(old(cpu)@, address)),
{
    let value = cpu.read(address)?;
    let increment = value.wrapping_add(1);
    cpu.write(address, increment)?;
    let carry = cpu.status.carry;
    subtract_from_a(cpu, increment, carry);
    Ok(())
}

pub fn lar(cpu: &mut CPU, param: u8)
    ensures
        final(cpu)@ == spec_lar(old(cpu)@, param),
{
    let result = cpu.stack_pointer & param;
    cpu.register_a = result;
    cpu.register_x = result;
    cpu.stack_pointer = result;
    set_zero_negative(cpu, result);
}

pub fn rla(cpu: &mut CPU, address: u16) -> (r: Result<(), EmulatorError>)
    ensures
        performed(old(cpu)@, final(cpu)@, r, spec_rla(old(cpu)@, address)),
{
    let value = cpu.read(address)?;
    let carry: u8 = if cpu.status.carry {
        1
    } else {
        0
    };
    let result = (value << 1u8) | carry;
    cpu.write(address, result)?;
    cpu.status.carry = value & 0b1000_0000 != 0;
    let result_and = result & cpu.register_a;
    cpu.register_a = result_and;
    set_zero_negative(cpu, result_and);
    Ok(())
}

pub fn rra(cpu: &mut CPU, address: u16) -> (r: Result<(), EmulatorError>)
    ensures
        performed(old(cpu)@, final(cpu)@, r, spec_rra(old(cpu)@, address)),
{
    let value = cpu.read(address)?;
    let carry_old: u8 = if cpu.status.carry {
        0b1000_0000
    } else {
        0
    };
    let result = (value >> 1u8) | carry_old;
    cpu.write(address, result)?;
    add_to_a(cpu, result, value & 1 != 0);
    Ok(())
}

pub fn axs(cpu: &mut CPU, address: u16) -> (r: Result<(), EmulatorError>)
    ensures
        performed(old(cpu)@, final(cpu)@, r, spec_axs(old(cpu)@, address)),
{
    let value = cpu.read(address)?;
    let anded = cpu.register_a & cpu.register_x;
    let result = anded.wrapping_sub(value);
    cpu.register_x = result;
    set_zero_negative(cpu, result);
    cpu.status.carry = anded >= value;
    Ok(())
}

pub fn lax(cpu: &mut CPU, address: u16) -> (r: Result<(), EmulatorError>)
    ensures
        performed(old(cpu)@, final(cpu)@, r, spec_lax(old(cpu)@, address)),
{
    let value = cpu.read(address)?;
    lda(cpu, value);
    cpu.register_x = value;
    Ok(())
}

pub fn slo(cpu: &mut CPU, address: u16) -> (r: Result<(), EmulatorError>)
    ensures
        performed(old(cpu)@, final(cpu)@, r, spec_slo(old(cpu)@, address)),
{
    let value = cpu.read(address)?;
    let result = value << 1u8;
    cpu.write(address, result)?;
    cpu.status.carry = value & 0b1000_0000 != 0;
    let combined = cpu.register_a | result;
    cpu.register_a = combined;
    set_zero_negative(cpu, combined);
    Ok(())
}

pub fn sre(cpu: &mut CPU, address: u16) -> (r: Result<(), EmulatorError>)
    ensures
        performed(old(cpu)@, final(cpu)@, r, spec_sre(old(cpu)@, address)),
{
    let value = cpu.read(address)?;
    let result = value >> 1u8;
    cpu.write(address, result)?;
    cpu.status.carry = value & 0b0000_0001 != 0;
    let combined = cpu.register_a ^ result;
    cpu.register_a = combined;
    set_zero_negative(cpu, combined);
    Ok(())
}

pub fn sxa(cpu: &mut CPU, address: u16) -> (r: Result<(), EmulatorError>)
    ensures
        performed(
            old(cpu)@,
            final(cpu)@,
            r,
            spec_write(old(cpu)@, address, masked_high(old(cpu).register_x, address)),
        ),
{
    let address_high = (address / 256) as u8;
    let result = (cpu.register_x & address_high).wrapping_add(1);
    cpu.write(address, result)
}

pub fn sya(cpu: &mut CPU, address: u16) -> (r: Result<(), EmulatorError>)
    ensures
        performed(
            old(cpu)@,
            final(cpu)@,
            r,
            spec_write(old(cpu)@, address, masked_high(old(cpu).register_y, address)),
        ),
{
    let address_high = (address / 256) as u8;
    let result = (cpu.register_y & address_high).wrapping_add(1);
    cpu.write(address, result)
}

pub fn xas(cpu: &mut CPU, address: u16) -> (r: Result<(), EmulatorError>)
    ensures
        performed(old(cpu)@, final(cpu)@, r, spec_xas(old(cpu)@, address)),
{
    let new_sp = cpu.register_a & cpu.register_x;
    let address_high = (address / 256) as u8;
    let result = (new_sp & address_high).wrapping_add(1);
    cpu.write(address, result)?;
    cpu.stack_pointer = new_sp;
    Ok(())
}

} // verus!
