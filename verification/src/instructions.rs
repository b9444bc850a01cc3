//! One handler per mnemonic and addressing mode.
//!
//! Each handler's contract states the whole architectural effect of its
//! instruction, except the opcode fetch that the dispatcher performs: which
//! register or memory byte changes, how the flags follow, and exactly how
//! many cycles are charged.

use vstd::prelude::*;

use crate::cpu::AddressingMode;
use crate::cpu::MemoryModifications;
use crate::cpu::MemoryOperation;
use crate::cpu::Registers;
use crate::cpu::CPU;
use crate::model::branch_step;
use crate::model::cmp_step;
use crate::model::flag_of;
use crate::model::jmp_step;
use crate::model::jsr_step;
use crate::model::load_step;
use crate::model::reg_step;
use crate::model::room;
use crate::model::rts_step;
use crate::model::spec_modify;
use crate::model::store_step;
use crate::model::wf;
use crate::model::yields_address;
use crate::status::Flags;

verus! {

fn ld(cpu: &mut CPU, addr_mode: AddressingMode, register: Registers)
    requires
        wf(old(cpu)@),
        room(old(cpu)@, 6),
        yields_address(addr_mode),
    ensures
        final(cpu)@ == load_step(old(cpu)@, addr_mode, register),
{
    // The mode yields an address by the precondition, so the read returns a
    // byte; the fallback arm is never taken.
    let value = match cpu.read_memory(addr_mode) {
        Some(value) => value,
        None => 0,
    };
    cpu.set_register(register, value);
    cpu.set_load_status(register);
}

/// `LDA` with immediate operand addressing: loads the accumulator and sets Z and N.
pub fn lda_im(cpu: &mut CPU)
    requires
        wf(old(cpu)@),
        room(old(cpu)@, 6),
    ensures
        final(cpu)@ == load_step(old(cpu)@, AddressingMode::Immediate, Registers::Accumulator),
{
    ld(cpu, AddressingMode::Immediate, Registers::Accumulator);
}

/// `LDA` with zero-page addressing: loads the accumulator and sets Z and N.
pub fn lda_zp(cpu: &mut CPU)
    requires
        wf(old(cpu)@),
        room(old(cpu)@, 6),
    ensures
        final(cpu)@ == load_step(old(cpu)@, AddressingMode::ZeroPage, Registers::Accumulator),
{
    ld(cpu, AddressingMode::ZeroPage, Registers::Accumulator);
}

/// `LDA` with zero-page, X-indexed addressing: loads the accumulator and sets Z and N.
pub fn lda_zpx(cpu: &mut CPU)
    requires
        wf(old(cpu)@),
        room(old(cpu)@, 6),
    ensures
        final(cpu)@ == load_step(old(cpu)@, AddressingMode::ZeroPageX, Registers::Accumulator),
{
    ld(cpu, AddressingMode::ZeroPageX, Registers::Accumulator);
}

/// `LDA` with absolute addressing: loads the accumulator and sets Z and N.
pub fn lda_a(cpu: &mut CPU)
    requires
        wf(old(cpu)@),
        room(old(cpu)@, 6),
    ensures
        final(cpu)@ == load_step(old(cpu)@, AddressingMode::Absolute, Registers::Accumulator),
{
    ld(cpu, AddressingMode::Absolute, Registers::Accumulator);
}

/// `LDA` with absolute, X-indexed addressing: loads the accumulator and sets Z and N.
pub fn lda_a_x(cpu: &mut CPU)
    requires
        wf(old(cpu)@),
        room(old(cpu)@, 6),
    ensures
        final(cpu)@ == load_step(old(cpu)@, AddressingMode::AbsoluteX, Registers::Accumulator),
{
    ld(cpu, AddressingMode::AbsoluteX, Registers::Accumulator);
}

/// `LDA` with absolute, Y-indexed addressing: loads the accumulator and sets Z and N.
pub fn lda_a_y(cpu: &mut CPU)
    requires
        wf(old(cpu)@),
        room(old(cpu)@, 6),
    ensures
        final(cpu)@ == load_step(old(cpu)@, AddressingMode::AbsoluteY, Registers::Accumulator),
{
    ld(cpu, AddressingMode::AbsoluteY, Registers::Accumulator);
}

/// `LDA` with indexed-indirect through X addressing: loads the accumulator and sets Z and N.
pub fn lda_in_x(cpu: &mut CPU)
    requires
        wf(old(cpu)@),
        room(old(cpu)@, 6),
    ensures
        final(cpu)@ == load_step(old(cpu)@, AddressingMode::IndexIndirectX, Registers::Accumulator),
{
    ld(cpu, AddressingMode::IndexIndirectX, Registers::Accumulator);
}

/// `LDA` with indirect-indexed through Y addressing: loads the accumulator and sets Z and N.
pub fn lda_in_y(cpu: &mut CPU)
    requires
        wf(old(cpu)@),
        room(old(cpu)@, 6),
    ensures
        final(cpu)@ == load_step(old(cpu)@, AddressingMode::IndirectIndexY, Registers::Accumulator),
{
    ld(cpu, AddressingMode::IndirectIndexY, Registers::Accumulator);
}

/// `LDY` with immediate operand addressing: loads index register Y and sets Z and N.
pub fn ldy_im(cpu: &mut CPU)
    requires
        wf(old(cpu)@),
        room(old(cpu)@, 6),
    ensures
        final(cpu)@ == load_step(old(cpu)@, AddressingMode::Immediate, Registers::IndexY),
{
    ld(cpu, AddressingMode::Immediate, Registers::IndexY);
}

/// `LDY` with zero-page addressing: loads index register Y and sets Z and N.
pub fn ldy_zp(cpu: &mut CPU)
    requires
        wf(old(cpu)@),
        room(old(cpu)@, 6),
    ensures
        final(cpu)@ == load_step(old(cpu)@, AddressingMode::ZeroPage, Registers::IndexY),
{
    ld(cpu, AddressingMode::ZeroPage, Registers::IndexY);
}

/// `LDY` with zero-page, X-indexed addressing: loads index register Y and sets Z and N.
pub fn ldy_zpx(cpu: &mut CPU)
    requires
        wf(old(cpu)@),
        room(old(cpu)@, 6),
    ensures
        final(cpu)@ == load_step(old(cpu)@, AddressingMode::ZeroPageX, Registers::IndexY),
{
    ld(cpu, AddressingMode::ZeroPageX, Registers::IndexY);
}

/// `LDY` with absolute addressing: loads index register Y and sets Z and N.
pub fn ldy_a(cpu: &mut CPU)
    requires
        wf(old(cpu)@),
        room(old(cpu)@, 6),
    ensures
        final(cpu)@ == load_step(old(cpu)@, AddressingMode::Absolute, Registers::IndexY),
{
    ld(cpu, AddressingMode::Absolute, Registers::IndexY);
}

/// `LDY` with absolute, X-indexed addressing: loads index register Y and sets Z and N.
pub fn ldy_a_x(cpu: &mut CPU)
    requires
        wf(old(cpu)@),
        room(old(cpu)@, 6),
    ensures
        final(cpu)@ == load_step(old(cpu)@, AddressingMode::AbsoluteX, Registers::IndexY),
{
    ld(cpu, AddressingMode::AbsoluteX, Registers::IndexY);
}

/// `LDX` with immediate operand addressing: loads index register X and sets Z and N.
pub fn ldx_im(cpu: &mut CPU)
    requires
        wf(old(cpu)@),
        room(old(cpu)@, 6),
    ensures
        final(cpu)@ == load_step(old(cpu)@, AddressingMode::Immediate, Registers::IndexX),
{
    ld(cpu, AddressingMode::Immediate, Registers::IndexX);
}

/// `LDX` with zero-page addressing: loads index register X and sets Z and N.
pub fn ldx_zp(cpu: &mut CPU)
    requires
        wf(old(cpu)@),
        room(old(cpu)@, 6),
    ensures
        final(cpu)@ == load_step(old(cpu)@, AddressingMode::ZeroPage, Registers::IndexX),
{
    ld(cpu, AddressingMode::ZeroPage, Registers::IndexX);
}

/// `LDX` with zero-page, Y-indexed addressing: loads index register X and sets Z and N.
pub fn ldx_zpy(cpu: &mut CPU)
    requires
        wf(old(cpu)@),
        room(old(cpu)@, 6),
    ensures
        final(cpu)@ == load_step(old(cpu)@, AddressingMode::ZeroPageY, Registers::IndexX),
{
    ld(cpu, AddressingMode::ZeroPageY, Registers::IndexX);
}

/// `LDX` with absolute addressing: loads index register X and sets Z and N.
pub fn ldx_a(cpu: &mut CPU)
    requires
        wf(old(cpu)@),
        room(old(cpu)@, 6),
    ensures
        final(cpu)@ == load_step(old(cpu)@, AddressingMode::Absolute, Registers::IndexX),
{
    ld(cpu, AddressingMode::Absolute, Registers::IndexX);
}

/// `LDX` with absolute, Y-indexed addressing: loads index register X and sets Z and N.
pub fn ldx_a_y(cpu: &mut CPU)
    requires
        wf(old(cpu)@),
        room(old(cpu)@, 6),
    ensures
        final(cpu)@ == load_step(old(cpu)@, AddressingMode::AbsoluteY, Registers::IndexX),
{
    ld(cpu, AddressingMode::AbsoluteY, Registers::IndexX);
}

/// `JSR` with absolute addressing: fetches the two-byte target, pushes the
/// address of the instruction's last byte high-then-low, and jumps. Six
/// cycles with the opcode fetch.
pub fn jsr_a(cpu: &mut CPU)
    requires
        wf(old(cpu)@),
        room(old(cpu)@, 5),
    ensures
        final(cpu)@ == jsr_step(old(cpu)@),
{
    let jump_addr_lo = cpu.fetch_zero_page_address();
    let jump_addr_hi: u16 = cpu.access_memory(cpu.program_counter) as u16;
    cpu.cycle = cpu.cycle + 1;

    let return_addr = cpu.program_counter;
    cpu.push_word_to_stack(return_addr);

    cpu.program_counter = jump_addr_hi * 256 + jump_addr_lo;
    cpu.cycle = cpu.cycle + 1;
}

/// `RTS`: discards the byte after the opcode, pops the saved address
/// low-then-high, and resumes one byte past it. Six cycles with the opcode
/// fetch.
pub fn rts(cpu: &mut CPU)
    requires
        wf(old(cpu)@),
        room(old(cpu)@, 5),
    ensures
        final(cpu)@ == rts_step(old(cpu)@),
{
    let discarded = cpu.access_memory(cpu.program_counter);
    cpu.cycle = cpu.cycle + 1;

    let saved = cpu.pop_word_from_stack();
    cpu.program_counter = saved;
    cpu.cycle = cpu.cycle + 1;
    cpu.increment_program_counter();
}

fn jmp(cpu: &mut CPU, addr_mode: AddressingMode)
    requires
        wf(old(cpu)@),
        room(old(cpu)@, 5),
        yields_address(addr_mode),
    ensures
        final(cpu)@ == jmp_step(old(cpu)@, addr_mode),
{
    match cpu.get_address(addr_mode, MemoryOperation::Read) {
        Some(address) => cpu.program_counter = address,
        None => (),
    }
}

/// `JMP` with absolute addressing: the program counter becomes the fetched
/// 16-bit target. Three cycles with the opcode fetch.
pub fn jmp_a(cpu: &mut CPU)
    requires
        wf(old(cpu)@),
        room(old(cpu)@, 5),
    ensures
        final(cpu)@ == jmp_step(old(cpu)@, AddressingMode::Absolute),
{
    jmp(cpu, AddressingMode::Absolute);
}

/// `JMP` with indirect addressing: the program counter becomes the word the
/// fetched pointer selects, with the hardware page-wrap quirk when the
/// pointer's low byte is `0xFF`. Five cycles with the opcode fetch.
pub fn jmp_in(cpu: &mut CPU)
    requires
        wf(old(cpu)@),
        room(old(cpu)@, 5),
    ensures
        final(cpu)@ == jmp_step(old(cpu)@, AddressingMode::Indirect),
{
    jmp(cpu, AddressingMode::Indirect);
}

fn branch(cpu: &mut CPU, taken: bool)
    requires
        wf(old(cpu)@),
        room(old(cpu)@, 3),
    ensures
        final(cpu)@ == branch_step(old(cpu)@, taken),
{
    let operand = cpu.access_memory(cpu.program_counter);
    cpu.increment_program_counter();
    if !taken {
        return ;
    }
    cpu.offset_program_counter(operand);
}

/// `BCC`: branches by the signed operand when the carry flag is clear.
pub fn bcc(cpu: &mut CPU)
    requires
        wf(old(cpu)@),
        room(old(cpu)@, 3),
    ensures
        final(cpu)@ == branch_step(old(cpu)@, !flag_of(old(cpu)@.p, Flags::Carry)),
{
    let taken = !cpu.processor_status.get_carry_flag();
    branch(cpu, taken);
}

/// `BCS`: branches by the signed operand when the carry flag is set.
pub fn bcs(cpu: &mut CPU)
    requires
        wf(old(cpu)@),
        room(old(cpu)@, 3),
    ensures
        final(cpu)@ == branch_step(old(cpu)@, flag_of(old(cpu)@.p, Flags::Carry)),
{
    let taken = cpu.processor_status.get_carry_flag();
    branch(cpu, taken);
}

/// `BNE`: branches by the signed operand when the zero flag is clear.
pub fn bne(cpu: &mut CPU)
    requires
        wf(old(cpu)@),
        room(old(cpu)@, 3),
    ensures
        final(cpu)@ == branch_step(old(cpu)@, !flag_of(old(cpu)@.p, Flags::Zero)),
{
    let taken = !cpu.processor_status.get_zero_flag();
    branch(cpu, taken);
}

/// `BEQ`: branches by the signed operand when the zero flag is set.
pub fn beq(cpu: &mut CPU)
    requires
        wf(old(cpu)@),
        room(old(cpu)@, 3),
    ensures
        final(cpu)@ == branch_step(old(cpu)@, flag_of(old(cpu)@.p, Flags::Zero)),
{
    let taken = cpu.processor_status.get_zero_flag();
    branch(cpu, taken);
}

fn compare(cpu: &mut CPU, addr_mode: AddressingMode, register: Registers)
    requires
        wf(old(cpu)@),
        room(old(cpu)@, 6),
        yields_address(addr_mode),
    ensures
        final(cpu)@ == cmp_step(old(cpu)@, addr_mode, register),
{
    // The mode yields an address by the precondition, so the read returns a
    // byte; the fallback arm is never taken.
    let value = match cpu.read_memory(addr_mode) {
        Some(value) => value,
        None => 0,
    };
    cpu.set_cmp_status(register, value);
}

/// `CMP` with immediate operand addressing: compares the accumulator with the operand, setting C, Z and N.
pub fn cmp_im(cpu: &mut CPU)
    requires
        wf(old(cpu)@),
        room(old(cpu)@, 6),
    ensures
        final(cpu)@ == cmp_step(old(cpu)@, AddressingMode::Immediate, Registers::Accumulator),
{
    compare(cpu, AddressingMode::Immediate, Registers::Accumulator);
}

/// `CMP` with zero-page addressing: compares the accumulator with the operand, setting C, Z and N.
pub fn cmp_zp(cpu: &mut CPU)
    requires
        wf(old(cpu)@),
        room(old(cpu)@, 6),
    ensures
        final(cpu)@ == cmp_step(old(cpu)@, AddressingMode::ZeroPage, Registers::Accumulator),
{
    compare(cpu, AddressingMode::ZeroPage, Registers::Accumulator);
}

/// `CMP` with zero-page, X-indexed addressing: compares the accumulator with the operand, setting C, Z and N.
pub fn cmp_zpx(cpu: &mut CPU)
    requires
        wf(old(cpu)@),
        room(old(cpu)@, 6),
    ensures
        final(cpu)@ == cmp_step(old(cpu)@, AddressingMode::ZeroPageX, Registers::Accumulator),
{
    compare(cpu, AddressingMode::ZeroPageX, Registers::Accumulator);
}

/// `CMP` with absolute addressing: compares the accumulator with the operand, setting C, Z and N.
pub fn cmp_a(cpu: &mut CPU)
    requires
        wf(old(cpu)@),
        room(old(cpu)@, 6),
    ensures
        final(cpu)@ == cmp_step(old(cpu)@, AddressingMode::Absolute, Registers::Accumulator),
{
    compare(cpu, AddressingMode::Absolute, Registers::Accumulator);
}

/// `CMP` with absolute, X-indexed addressing: compares the accumulator with the operand, setting C, Z and N.
pub fn cmp_a_x(cpu: &mut CPU)
    requires
        wf(old(cpu)@),
        room(old(cpu)@, 6),
    ensures
        final(cpu)@ == cmp_step(old(cpu)@, AddressingMode::AbsoluteX, Registers::Accumulator),
{
    compare(cpu, AddressingMode::AbsoluteX, Registers::Accumulator);
}

/// `CMP` with absolute, Y-indexed addressing: compares the accumulator with the operand, setting C, Z and N.
pub fn cmp_a_y(cpu: &mut CPU)
    requires
        wf(old(cpu)@),
        room(old(cpu)@, 6),
    ensures
        final(cpu)@ == cmp_step(old(cpu)@, AddressingMode::AbsoluteY, Registers::Accumulator),
{
    compare(cpu, AddressingMode::AbsoluteY, Registers::Accumulator);
}

/// `CMP` with indexed-indirect through X addressing: compares the accumulator with the operand, setting C, Z and N.
pub fn cmp_in_x(cpu: &mut CPU)
    requires
        wf(old(cpu)@),
        room(old(cpu)@, 6),
    ensures
        final(cpu)@ == cmp_step(old(cpu)@, AddressingMode::IndexIndirectX, Registers::Accumulator),
{
    compare(cpu, AddressingMode::IndexIndirectX, Registers::Accumulator);
}

/// `CMP` with indirect-indexed through Y addressing: compares the accumulator with the operand, setting C, Z and N.
pub fn cmp_in_y(cpu: &mut CPU)
    requires
        wf(old(cpu)@),
        room(old(cpu)@, 6),
    ensures
        final(cpu)@ == cmp_step(old(cpu)@, AddressingMode::IndirectIndexY, Registers::Accumulator),
{
    compare(cpu, AddressingMode::IndirectIndexY, Registers::Accumulator);
}

/// `CPX` with immediate operand addressing: compares index register X with the operand, setting C, Z and N.
pub fn cpx_im(cpu: &mut CPU)
    requires
        wf(old(cpu)@),
        room(old(cpu)@, 6),
    ensures
        final(cpu)@ == cmp_step(old(cpu)@, AddressingMode::Immediate, Registers::IndexX),
{
    compare(cpu, AddressingMode::Immediate, Registers::IndexX);
}

/// `CPX` with zero-page addressing: compares index register X with the operand, setting C, Z and N.
pub fn cpx_zp(cpu: &mut CPU)
    requires
        wf(old(cpu)@),
        room(old(cpu)@, 6),
    ensures
        final(cpu)@ == cmp_step(old(cpu)@, AddressingMode::ZeroPage, Registers::IndexX),
{
    compare(cpu, AddressingMode::ZeroPage, Registers::IndexX);
}

/// `CPX` with absolute addressing: compares index register X with the operand, setting C, Z and N.
pub fn cpx_a(cpu: &mut CPU)
    requires
        wf(old(cpu)@),
        room(old(cpu)@, 6),
    ensures
        final(cpu)@ == cmp_step(old(cpu)@, AddressingMode::Absolute, Registers::IndexX),
{
    compare(cpu, AddressingMode::Absolute, Registers::IndexX);
}

/// `CPY` with immediate operand addressing: compares index register Y with the operand, setting C, Z and N.
pub fn cpy_im(cpu: &mut CPU)
    requires
        wf(old(cpu)@),
        room(old(cpu)@, 6),
    ensures
        final(cpu)@ == cmp_step(old(cpu)@, AddressingMode::Immediate, Registers::IndexY),
{
    compare(cpu, AddressingMode::Immediate, Registers::IndexY);
}

/// `CPY` with zero-page addressing: compares index register Y with the operand, setting C, Z and N.
pub fn cpy_zp(cpu: &mut CPU)
    requires
        wf(old(cpu)@),
        room(old(cpu)@, 6),
    ensures
        final(cpu)@ == cmp_step(old(cpu)@, AddressingMode::ZeroPage, Registers::IndexY),
{
    compare(cpu, AddressingMode::ZeroPage, Registers::IndexY);
}

/// `CPY` with absolute addressing: compares index register Y with the operand, setting C, Z and N.
pub fn cpy_a(cpu: &mut CPU)
    requires
        wf(old(cpu)@),
        room(old(cpu)@, 6),
    ensures
        final(cpu)@ == cmp_step(old(cpu)@, AddressingMode::Absolute, Registers::IndexY),
{
    compare(cpu, AddressingMode::Absolute, Registers::IndexY);
}

fn decrement_register(cpu: &mut CPU, register: Registers)
    requires
        room(old(cpu)@, 1),
        register == Registers::IndexX || register == Registers::IndexY,
    ensures
        final(cpu)@ == reg_step(old(cpu)@, register, false),
{
    cpu.decrement_register(register);
    cpu.set_load_status(register);
}

fn increment_register(cpu: &mut CPU, register: Registers)
    requires
        room(old(cpu)@, 1),
        register == Registers::IndexX || register == Registers::IndexY,
    ensures
        final(cpu)@ == reg_step(old(cpu)@, register, true),
{
    cpu.increment_register(register);
    cpu.set_load_status(register);
}

/// `DEC` with zero-page addressing: decrements the addressed memory byte, read-modify-write.
pub fn dec_zp(cpu: &mut CPU)
    requires
        wf(old(cpu)@),
        room(old(cpu)@, 7),
    ensures
        final(cpu)@ == spec_modify(old(cpu)@, AddressingMode::ZeroPage, MemoryModifications::Decrement),
{
    cpu.modify_memory(AddressingMode::ZeroPage, MemoryModifications::Decrement);
}

/// `DEC` with zero-page, X-indexed addressing: decrements the addressed memory byte, read-modify-write.
pub fn dec_zpx(cpu: &mut CPU)
    requires
        wf(old(cpu)@),
        room(old(cpu)@, 7),
    ensures
        final(cpu)@ == spec_modify(old(cpu)@, AddressingMode::ZeroPageX, MemoryModifications::Decrement),
{
    cpu.modify_memory(AddressingMode::ZeroPageX, MemoryModifications::Decrement);
}

/// `DEC` with absolute addressing: decrements the addressed memory byte, read-modify-write.
pub fn dec_a(cpu: &mut CPU)
    requires
        wf(old(cpu)@),
        room(old(cpu)@, 7),
    ensures
        final(cpu)@ == spec_modify(old(cpu)@, AddressingMode::Absolute, MemoryModifications::Decrement),
{
    cpu.modify_memory(AddressingMode::Absolute, MemoryModifications::Decrement);
}

/// `DEC` with absolute, X-indexed addressing: decrements the addressed memory byte, read-modify-write.
pub fn dec_a_x(cpu: &mut CPU)
    requires
        wf(old(cpu)@),
        room(old(cpu)@, 7),
    ensures
        final(cpu)@ == spec_modify(old(cpu)@, AddressingMode::AbsoluteX, MemoryModifications::Decrement),
{
    cpu.modify_memory(AddressingMode::AbsoluteX, MemoryModifications::Decrement);
}

/// `DEX`: decrements index register X, setting Z and N.
pub fn dex_im(cpu: &mut CPU)
    requires
        wf(old(cpu)@),
        room(old(cpu)@, 1),
    ensures
        final(cpu)@ == reg_step(old(cpu)@, Registers::IndexX, false),
{
    decrement_register(cpu, Registers::IndexX);
}

/// `DEY`: decrements index register Y, setting Z and N.
pub fn dey_im(cpu: &mut CPU)
    requires
        wf(old(cpu)@),
        room(old(cpu)@, 1),
    ensures
        final(cpu)@ == reg_step(old(cpu)@, Registers::IndexY, false),
{
    decrement_register(cpu, Registers::IndexY);
}

/// `INC` with zero-page addressing: increments the addressed memory byte, read-modify-write.
pub fn inc_zp(cpu: &mut CPU)
    requires
        wf(old(cpu)@),
        room(old(cpu)@, 7),
    ensures
        final(cpu)@ == spec_modify(old(cpu)@, AddressingMode::ZeroPage, MemoryModifications::Increment),
{
    cpu.modify_memory(AddressingMode::ZeroPage, MemoryModifications::Increment);
}

/// `INC` with zero-page, X-indexed addressing: increments the addressed memory byte, read-modify-write.
pub fn inc_zpx(cpu: &mut CPU)
    requires
        wf(old(cpu)@),
        room(old(cpu)@, 7),
    ensures
        final(cpu)@ == spec_modify(old(cpu)@, AddressingMode::ZeroPageX, MemoryModifications::Increment),
{
    cpu.modify_memory(AddressingMode::ZeroPageX, MemoryModifications::Increment);
}

/// `INC` with absolute addressing: increments the addressed memory byte, read-modify-write.
pub fn inc_a(cpu: &mut CPU)
    requires
        wf(old(cpu)@),
        room(old(cpu)@, 7),
    ensures
        final(cpu)@ == spec_modify(old(cpu)@, AddressingMode::Absolute, MemoryModifications::Increment),
{
    cpu.modify_memory(AddressingMode::Absolute, MemoryModifications::Increment);
}

/// `INC` with absolute, X-indexed addressing: increments the addressed memory byte, read-modify-write.
pub fn inc_a_x(cpu: &mut CPU)
    requires
        wf(old(cpu)@),
        room(old(cpu)@, 7),
    ensures
        final(cpu)@ == spec_modify(old(cpu)@, AddressingMode::AbsoluteX, MemoryModifications::Increment),
{
    cpu.modify_memory(AddressingMode::AbsoluteX, MemoryModifications::Increment);
}

/// `INX`: increments index register X, setting Z and N.
pub fn inx_im(cpu: &mut CPU)
    requires
        wf(old(cpu)@),
        room(old(cpu)@, 1),
    ensures
        final(cpu)@ == reg_step(old(cpu)@, Registers::IndexX, true),
{
    increment_register(cpu, Registers::IndexX);
}

/// `INY`: increments index register Y, setting Z and N.
pub fn iny_im(cpu: &mut CPU)
    requires
        wf(old(cpu)@),
        room(old(cpu)@, 1),
    ensures
        final(cpu)@ == reg_step(old(cpu)@, Registers::IndexY, true),
{
    increment_register(cpu, Registers::IndexY);
}

/// Writes a register through an addressing mode; the shared body of every
/// store handler. No flags change.
pub fn store(cpu: &mut CPU, addr_mode: AddressingMode, register: Registers)
    requires
        wf(old(cpu)@),
        room(old(cpu)@, 6),
        yields_address(addr_mode),
    ensures
        final(cpu)@ == store_step(old(cpu)@, addr_mode, register),
{
    let value = cpu.get_register(register);
    match cpu.write_memory(addr_mode, value) {
        Some(result) => result,
        None => (),
    }
}

/// `STA` with zero-page addressing: stores the accumulator at the effective address.
pub fn sta_zp(cpu: &mut CPU)
    requires
        wf(old(cpu)@),
        room(old(cpu)@, 6),
    ensures
        final(cpu)@ == store_step(old(cpu)@, AddressingMode::ZeroPage, Registers::Accumulator),
{
    store(cpu, AddressingMode::ZeroPage, Registers::Accumulator);
}

/// `STA` with zero-page, X-indexed addressing: stores the accumulator at the effective address.
pub fn sta_zpx(cpu: &mut CPU)
    requires
        wf(old(cpu)@),
        room(old(cpu)@, 6),
    ensures
        final(cpu)@ == store_step(old(cpu)@, AddressingMode::ZeroPageX, Registers::Accumulator),
{
    store(cpu, AddressingMode::ZeroPageX, Registers::Accumulator);
}

/// `STA` with absolute addressing: stores the accumulator at the effective address.
pub fn sta_a(cpu: &mut CPU)
    requires
        wf(old(cpu)@),
        room(old(cpu)@, 6),
    ensures
        final(cpu)@ == store_step(old(cpu)@, AddressingMode::Absolute, Registers::Accumulator),
{
    store(cpu, AddressingMode::Absolute, Registers::Accumulator);
}

/// `STA` with absolute, X-indexed addressing: stores the accumulator at the effective address.
pub fn sta_a_x(cpu: &mut CPU)
    requires
        wf(old(cpu)@),
        room(old(cpu)@, 6),
    ensures
        final(cpu)@ == store_step(old(cpu)@, AddressingMode::AbsoluteX, Registers::Accumulator),
{
    store(cpu, AddressingMode::AbsoluteX, Registers::Accumulator);
}

/// `STA` with absolute, Y-indexed addressing: stores the accumulator at the effective address.
pub fn sta_a_y(cpu: &mut CPU)
    requires
        wf(old(cpu)@),
        room(old(cpu)@, 6),
    ensures
        final(cpu)@ == store_step(old(cpu)@, AddressingMode::AbsoluteY, Registers::Accumulator),
{
    store(cpu, AddressingMode::AbsoluteY, Registers::Accumulator);
}

/// `STA` with indexed-indirect through X addressing: stores the accumulator at the effective address.
pub fn sta_in_x(cpu: &mut CPU)
    requires
        wf(old(cpu)@),
        room(old(cpu)@, 6),
    ensures
        final(cpu)@ == store_step(old(cpu)@, AddressingMode::IndexIndirectX, Registers::Accumulator),
{
    store(cpu, AddressingMode::IndexIndirectX, Registers::Accumulator);
}

/// `STA` with indirect-indexed through Y addressing: stores the accumulator at the effective address.
pub fn sta_in_y(cpu: &mut CPU)
    requires
        wf(old(cpu)@),
        room(old(cpu)@, 6),
    ensures
        final(cpu)@ == store_step(old(cpu)@, AddressingMode::IndirectIndexY, Registers::Accumulator),
{
    store(cpu, AddressingMode::IndirectIndexY, Registers::Accumulator);
}

/// `STX` with zero-page addressing: stores index register X at the effective address.
pub fn stx_zp(cpu: &mut CPU)
    requires
        wf(old(cpu)@),
        room(old(cpu)@, 6),
    ensures
        final(cpu)@ == store_step(old(cpu)@, AddressingMode::ZeroPage, Registers::IndexX),
{
    store(cpu, AddressingMode::ZeroPage, Registers::IndexX);
}

/// `STX` with zero-page, Y-indexed addressing: stores index register X at the effective address.
pub fn stx_zpy(cpu: &mut CPU)
    requires
        wf(old(cpu)@),
        room(old(cpu)@, 6),
    ensures
        final(cpu)@ == store_step(old(cpu)@, AddressingMode::ZeroPageY, Registers::IndexX),
{
    store(cpu, AddressingMode::ZeroPageY, Registers::IndexX);
}

/// `STX` with absolute addressing: stores index register X at the effective address.
pub fn stx_a(cpu: &mut CPU)
    requires
        wf(old(cpu)@),
        room(old(cpu)@, 6),
    ensures
        final(cpu)@ == store_step(old(cpu)@, AddressingMode::Absolute, Registers::IndexX),
{
    store(cpu, AddressingMode::Absolute, Registers::IndexX);
}

/// `STY` with zero-page addressing: stores index register Y at the effective address.
pub fn sty_zp(cpu: &mut CPU)
    requires
        wf(old(cpu)@),
        room(old(cpu)@, 6),
    ensures
        final(cpu)@ == store_step(old(cpu)@, AddressingMode::ZeroPage, Registers::IndexY),
{
    store(cpu, AddressingMode::ZeroPage, Registers::IndexY);
}

/// `STY` with zero-page, X-indexed addressing: stores index register Y at the effective address.
pub fn sty_zpx(cpu: &mut CPU)
    requires
        wf(old(cpu)@),
        room(old(cpu)@, 6),
    ensures
        final(cpu)@ == store_step(old(cpu)@, AddressingMode::ZeroPageX, Registers::IndexY),
{
    store(cpu, AddressingMode::ZeroPageX, Registers::IndexY);
}

/// `STY` with absolute addressing: stores index register Y at the effective address.
pub fn sty_a(cpu: &mut CPU)
    requires
        wf(old(cpu)@),
        room(old(cpu)@, 6),
    ensures
        final(cpu)@ == store_step(old(cpu)@, AddressingMode::Absolute, Registers::IndexY),
{
    store(cpu, AddressingMode::Absolute, Registers::IndexY);
}

} // verus!
