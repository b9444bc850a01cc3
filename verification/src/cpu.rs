//! The processor core: registers, clock, addressing and the fetch-execute
//! loop.
//!
//! Every method's contract relates the ghost state `self@` after the call to
//! the state before it, through the spec functions of [`crate::model`]; cycle
//! accounting is exact, including page-cross penalties.

use vstd::prelude::*;

use crate::memory::VecMemory;
use crate::model::branch_crossed;
use crate::model::branch_step;
use crate::model::branch_target;
use crate::model::byte_add;
use crate::model::byte_sub;
use crate::model::cmp_flags;
use crate::model::cmp_step;
use crate::model::extra_cycle_mode;
use crate::model::flag_of;
use crate::model::jmp_step;
use crate::model::jsr_step;
use crate::model::load_flags;
use crate::model::load_step;
use crate::model::mem_at;
use crate::model::offset_cycles;
use crate::model::pc_advanced;
use crate::model::pop_byte_step;
use crate::model::pop_word_step;
use crate::model::popped_byte;
use crate::model::popped_word;
use crate::model::push_byte_step;
use crate::model::push_word_step;
use crate::model::reg_get;
use crate::model::reg_set;
use crate::model::reg_step;
use crate::model::resolved;
use crate::model::room;
use crate::model::rts_step;
use crate::model::spec_modify;
use crate::model::spec_read;
use crate::model::spec_write;
use crate::model::store_step;
use crate::model::supported_modification;
use crate::model::ticked;
use crate::model::wf;
use crate::model::word_add;
use crate::model::word_of;
use crate::model::written;
use crate::model::yields_address;
use crate::model::CpuState;
use crate::status::Flags;
use crate::status::ProcessorStatus;

verus! {

/// The rule by which an instruction computes the effective address of its
/// operand.
#[derive(Copy, Clone, PartialEq, Eq, Structural)]
pub enum AddressingMode {
    /// The operand byte stands at the program counter itself.
    Immediate,
    /// A two-byte pointer is fetched and dereferenced, with the hardware
    /// page-wrap quirk when the pointer's low byte is `0xFF`.
    Indirect,
    /// The instruction carries no operand and yields no address.
    Implicit,
    /// Branch instructions read their signed offset themselves; no address.
    Relative,
    /// One operand byte addresses the first 256 bytes of memory.
    ZeroPage,
    /// Zero-page address summed with index register X, wrapping in the page.
    ZeroPageX,
    /// Zero-page address summed with index register Y, wrapping in the page.
    ZeroPageY,
    /// Two operand bytes form the address, low byte first.
    Absolute,
    /// Absolute address offset by index register X.
    AbsoluteX,
    /// Absolute address offset by index register Y.
    AbsoluteY,
    /// Zero-page operand summed with X selects a two-byte pointer.
    IndexIndirectX,
    /// Zero-page operand selects a two-byte pointer, then Y is added.
    IndirectIndexY,
}

/// The registers addressable by tag.
#[derive(Copy, Clone, PartialEq, Eq, Structural)]
pub enum Registers {
    /// The stack pointer.
    StackPointer,
    /// The processor-status byte.
    ProcessorStatus,
    /// The accumulator.
    Accumulator,
    /// Index register X.
    IndexX,
    /// Index register Y.
    IndexY,
}

/// The transformations a read-modify-write instruction applies to a memory
/// byte. Rotations are reserved for instructions outside the supported set.
#[derive(Copy, Clone, PartialEq, Eq, Structural)]
pub enum MemoryModifications {
    /// Add one, wrapping.
    Increment,
    /// Subtract one, wrapping.
    Decrement,
    /// Reserved; no supported instruction uses it.
    RotateLeft,
    /// Reserved; no supported instruction uses it.
    RotateRight,
}

/// The kind of access an instruction makes through an addressing mode; it
/// selects the cycle accounting for the indexed modes.
#[derive(Copy, Clone, PartialEq, Eq, Structural)]
pub enum MemoryOperation {
    /// The operand byte is only read.
    Read,
    /// The operand byte is read, transformed and written back.
    Modify,
    /// The operand byte is only written.
    Write,
}

/// The processor: architectural registers, the bus-cycle counter, and its
/// exclusively owned memory collaborator.
pub struct CPU {
    /// Monotone bus-cycle counter; the emulator's only clock.
    pub cycle: u64,
    /// Program counter.
    pub program_counter: u16,
    /// Stack pointer into page one.
    pub stack_pointer: u8,
    /// Accumulator.
    pub accumulator: u8,
    /// Index register X.
    pub index_register_x: u8,
    /// Index register Y.
    pub index_register_y: u8,
    /// Processor-status byte.
    pub processor_status: ProcessorStatus,
    /// The byte-addressable store the processor drives.
    pub memory: VecMemory,
}

impl View for CPU {
    type V = CpuState;

    open spec fn view(&self) -> CpuState {
        CpuState {
            cycle: self.cycle as int,
            pc: self.program_counter,
            sp: self.stack_pointer,
            a: self.accumulator,
            x: self.index_register_x,
            y: self.index_register_y,
            p: self.processor_status.flags,
            mem: self.memory.data@,
        }
    }
}

impl CPU {
    /// Constructs a processor over the given memory, in the reset state of a
    /// freshly powered part: the program counter at `0xFFFC`, every register
    /// and the clock at zero.
    pub fn new(memory: VecMemory) -> (r: CPU)
        requires
            memory.wf(),
        ensures
            wf(r@),
            r@.cycle == 0,
            r@.pc == 0xFFFC,
            r@.sp == 0,
            r@.a == 0,
            r@.x == 0,
            r@.y == 0,
            r@.p == 0,
            r@.mem == memory.data@,
    {
        return CPU {
            cycle: 0,
            program_counter: 0xFFFC,
            stack_pointer: 0,
            accumulator: 0,
            index_register_x: 0,
            index_register_y: 0,
            processor_status: ProcessorStatus { flags: 0 },
            memory,
        };
    }

    /// Returns to the reset state: the program counter at `0xFFFC`, stack
    /// pointer, registers and clock at zero, the decimal-mode flag cleared.
    /// Memory and the other flags keep their contents.
    pub fn reset(&mut self)
        ensures
            final(self)@ == crate::model::reset_state(old(self)@),
    {
        self.cycle = 0;
        self.program_counter = 0xFFFC;
        self.stack_pointer = 0x00;
        self.processor_status.set_decimal_mode_flag(false);
        self.accumulator = 0;
        self.index_register_x = 0;
        self.index_register_y = 0;
    }

    /// Replaces the memory collaborator; intended for program loading between
    /// runs.
    pub fn set_memory(&mut self, memory: VecMemory)
        ensures
            final(self)@ == (CpuState { mem: memory.data@, ..old(self)@ }),
    {
        self.memory = memory;
    }

    /// Reads the byte at an address off the bus. The cycle for the access is
    /// charged by the caller.
    pub fn access_memory(&self, addr: u16) -> (r: u8)
        requires
            wf(self@),
        ensures
            r == mem_at(self@, addr),
    {
        return self.memory.read(addr);
    }

    /// Writes a byte to an address on the bus. The cycle for the access is
    /// charged by the caller.
    pub fn put_into_memory(&mut self, addr: u16, value: u8)
        requires
            wf(old(self)@),
        ensures
            wf(final(self)@),
            final(self)@ == written(old(self)@, addr, value),
    {
        self.memory.write(addr, value);
    }

    /// Advances the program counter by one, wrapping, and charges one cycle.
    pub fn increment_program_counter(&mut self)
        requires
            room(old(self)@, 1),
        ensures
            final(self)@ == pc_advanced(old(self)@),
    {
        self.program_counter = self.program_counter.wrapping_add(1);
        self.cycle = self.cycle + 1;
    }

    /// The value of one register, by tag.
    pub fn get_register(&self, register: Registers) -> (r: u8)
        ensures
            r == reg_get(self@, register),
    {
        return match register {
            Registers::Accumulator => self.accumulator,
            Registers::IndexX => self.index_register_x,
            Registers::IndexY => self.index_register_y,
            Registers::ProcessorStatus => self.processor_status.flags,
            Registers::StackPointer => self.stack_pointer,
        };
    }

    /// Replaces the value of one register, by tag.
    pub fn set_register(&mut self, register: Registers, value: u8)
        ensures
            final(self)@ == reg_set(old(self)@, register, value),
    {
        match register {
            Registers::Accumulator => self.accumulator = value,
            Registers::IndexX => self.index_register_x = value,
            Registers::IndexY => self.index_register_y = value,
            Registers::ProcessorStatus => self.processor_status.flags = value,
            Registers::StackPointer => self.stack_pointer = value,
        };
    }

    /// Adds one to a register, wrapping, and charges the internal cycle the
    /// hardware spends on a register increment.
    pub fn increment_register(&mut self, register: Registers)
        requires
            room(old(self)@, 1),
        ensures
            final(self)@ == ticked(
                reg_set(old(self)@, register, byte_add(reg_get(old(self)@, register), 1)),
                1,
            ),
    {
        let v = self.get_register(register);
        self.set_register(register, v.wrapping_add(1));
        self.cycle = self.cycle + 1;
    }

    /// Subtracts one from a register, wrapping, and charges the internal
    /// cycle the hardware spends on a register decrement.
    pub fn decrement_register(&mut self, register: Registers)
        requires
            room(old(self)@, 1),
        ensures
            final(self)@ == ticked(
                reg_set(old(self)@, register, byte_sub(reg_get(old(self)@, register), 1)),
                1,
            ),
    {
        let v = self.get_register(register);
        self.set_register(register, v.wrapping_sub(1));
        self.cycle = self.cycle + 1;
    }

    /// Fetches the opcode byte at the program counter and advances past it;
    /// one cycle.
    pub fn fetch_instruction(&mut self) -> (r: u8)
        requires
            wf(old(self)@),
            room(old(self)@, 1),
        ensures
            r == mem_at(old(self)@, old(self)@.pc),
            final(self)@ == pc_advanced(old(self)@),
    {
        let opcode = self.access_memory(self.program_counter);
        self.increment_program_counter();
        return opcode;
    }

    /// Fetches a little-endian 16-bit address from the program counter,
    /// advancing past both bytes; two cycles.
    pub fn fetch_address(&mut self) -> (r: u16)
        requires
            wf(old(self)@),
            room(old(self)@, 2),
        ensures
            r == word_of(
                mem_at(old(self)@, old(self)@.pc),
                mem_at(old(self)@, word_add(old(self)@.pc, 1)),
            ),
            final(self)@ == pc_advanced(pc_advanced(old(self)@)),
    {
        let lo = self.access_memory(self.program_counter);
        self.increment_program_counter();
        let hi = self.access_memory(self.program_counter);
        self.increment_program_counter();
        return (hi as u16) * 256 + (lo as u16);
    }

    /// Reads a little-endian 16-bit word from two consecutive memory
    /// addresses; two cycles.
    pub fn fetch_address_from(&mut self, addr: u16) -> (r: u16)
        requires
            wf(old(self)@),
            room(old(self)@, 2),
            addr < 0xFFFF,
        ensures
            r == word_of(mem_at(old(self)@, addr), mem_at(old(self)@, (addr + 1) as u16)),
            final(self)@ == ticked(old(self)@, 2),
    {
        let lo = self.access_memory(addr);
        self.cycle = self.cycle + 1;
        let hi = self.access_memory(addr + 1);
        self.cycle = self.cycle + 1;
        return (hi as u16) * 256 + (lo as u16);
    }

    /// Fetches one operand byte and widens it to a zero-page address; one
    /// cycle.
    pub fn fetch_zero_page_address(&mut self) -> (r: u16)
        requires
            wf(old(self)@),
            room(old(self)@, 1),
        ensures
            r == mem_at(old(self)@, old(self)@.pc) as u16,
            final(self)@ == pc_advanced(old(self)@),
    {
        let address: u16 = self.access_memory(self.program_counter) as u16;
        self.increment_program_counter();
        return address;
    }

    /// Fetches one operand byte, the low byte of a zero-page address; one
    /// cycle.
    pub fn fetch_zero_page_address_lsb(&mut self) -> (r: u8)
        requires
            wf(old(self)@),
            room(old(self)@, 1),
        ensures
            r == mem_at(old(self)@, old(self)@.pc),
            final(self)@ == pc_advanced(old(self)@),
    {
        let address: u8 = self.access_memory(self.program_counter);
        self.increment_program_counter();
        return address;
    }

    /// Fetches a zero-page operand and adds index register Y, wrapping inside
    /// the zero page; two cycles.
    pub fn fetch_zero_page_address_with_y_offset(&mut self) -> (r: u16)
        requires
            wf(old(self)@),
            room(old(self)@, 2),
        ensures
            r == byte_add(mem_at(old(self)@, old(self)@.pc), old(self)@.y) as u16,
            final(self)@ == ticked(pc_advanced(old(self)@), 1),
    {
        let zero_page_addr = self.fetch_zero_page_address_lsb();
        return self.sum_with_y(zero_page_addr) as u16;
    }

    /// Fetches a zero-page operand and adds index register X, wrapping inside
    /// the zero page; two cycles.
    pub fn fetch_zero_page_address_with_x_offset(&mut self) -> (r: u16)
        requires
            wf(old(self)@),
            room(old(self)@, 2),
        ensures
            r == byte_add(mem_at(old(self)@, old(self)@.pc), old(self)@.x) as u16,
            final(self)@ == ticked(pc_advanced(old(self)@), 1),
    {
        let zero_page_addr = self.fetch_zero_page_address_lsb();
        return self.sum_with_x(zero_page_addr) as u16;
    }

    /// Adds index register X to a byte, wrapping, and charges the internal
    /// cycle of the index addition.
    pub fn sum_with_x(&mut self, val: u8) -> (r: u8)
        requires
            room(old(self)@, 1),
        ensures
            r == byte_add(val, old(self)@.x),
            final(self)@ == ticked(old(self)@, 1),
    {
        let reg_x = self.index_register_x;
        let res = val.wrapping_add(reg_x);
        self.cycle = self.cycle + 1;
        return res;
    }

    /// Adds index register Y to a byte, wrapping, and charges the internal
    /// cycle of the index addition.
    pub fn sum_with_y(&mut self, val: u8) -> (r: u8)
        requires
            room(old(self)@, 1),
        ensures
            r == byte_add(val, old(self)@.y),
            final(self)@ == ticked(old(self)@, 1),
    {
        let reg_y = self.index_register_y;
        let res = val.wrapping_add(reg_y);
        self.cycle = self.cycle + 1;
        return res;
    }

    /// Sets the zero and negative flags from the value a load deposited into
    /// a register: Z exactly when the value is zero, N exactly when bit 7 is
    /// set.
    pub fn set_load_status(&mut self, register: Registers)
        ensures
            final(self)@ == (CpuState {
                p: load_flags(old(self)@.p, reg_get(old(self)@, register)),
                ..old(self)@
            }),
    {
        let target_register = self.get_register(register);
        self.processor_status.set_zero_flag(target_register == 0);
        self.processor_status.set_negative_flag((target_register & 0x80) != 0);
    }

    /// Sets the carry, zero and negative flags from comparing a register with
    /// a memory operand: C exactly when the register is not below the
    /// operand, Z exactly on equality, N exactly when the wrapped difference
    /// has bit 7 set.
    pub fn set_cmp_status(&mut self, register: Registers, value: u8)
        ensures
            final(self)@ == (CpuState {
                p: cmp_flags(old(self)@.p, reg_get(old(self)@, register), value),
                ..old(self)@
            }),
    {
        let target_register = self.get_register(register);
        self.processor_status.set_carry_flag(target_register >= value);
        self.processor_status.set_zero_flag(target_register == value);
        let difference = target_register.wrapping_sub(value);
        self.processor_status.set_negative_flag((difference & 0x80) != 0);
    }

    /// Pushes one byte: writes it at the stack pointer's cell in page one,
    /// then decrements the stack pointer, wrapping; one cycle.
    pub fn push_byte_to_stack(&mut self, val: u8)
        requires
            wf(old(self)@),
            room(old(self)@, 1),
        ensures
            final(self)@ == push_byte_step(old(self)@, val),
    {
        let addr: u16 = 0x0100 + (self.stack_pointer as u16);
        self.put_into_memory(addr, val);
        self.decrement_register(Registers::StackPointer);
    }

    /// Pushes a 16-bit word: the high byte first, then the low byte, so that
    /// the word lies little-endian in the stack page and popping low-then-high
    /// restores it; two cycles.
    pub fn push_word_to_stack(&mut self, val: u16)
        requires
            wf(old(self)@),
            room(old(self)@, 2),
        ensures
            final(self)@ == push_word_step(old(self)@, val),
    {
        let lo = (val % 256) as u8;
        let hi = (val / 256) as u8;
        self.push_byte_to_stack(hi);
        self.push_byte_to_stack(lo);
    }

    /// Pops one byte: increments the stack pointer, wrapping, then reads the
    /// cell it addresses in page one; one cycle.
    pub fn pop_byte_from_stack(&mut self) -> (r: u8)
        requires
            wf(old(self)@),
            room(old(self)@, 1),
        ensures
            r == popped_byte(old(self)@),
            final(self)@ == pop_byte_step(old(self)@),
    {
        self.increment_register(Registers::StackPointer);
        let addr: u16 = 0x0100 + (self.stack_pointer as u16);
        let val = self.access_memory(addr);
        return val;
    }

    /// Pops a 16-bit word: low byte first, then high byte; two cycles.
    pub fn pop_word_from_stack(&mut self) -> (r: u16)
        requires
            wf(old(self)@),
            room(old(self)@, 2),
        ensures
            r == popped_word(old(self)@),
            final(self)@ == pop_word_step(old(self)@),
    {
        let lo = self.pop_byte_from_stack();
        let hi = self.pop_byte_from_stack();
        return (hi as u16) * 256 + (lo as u16);
    }
}

impl CPU {
    /// Moves a base address forward by an index register's value, wrapping
    /// modulo 65536, with the exact cycle accounting of the indexed modes:
    /// one cycle for the addition, one more on a page cross or whenever the
    /// operation is not a plain read.
    pub fn offset_addr(&mut self, addr: u16, offset: u8, operation: MemoryOperation) -> (r: u16)
        requires
            room(old(self)@, 2),
        ensures
            r == word_add(addr, offset as int),
            final(self)@ == ticked(old(self)@, offset_cycles(addr, offset, operation)),
    {
        let lo = (addr % 256) as u8;
        let hi = (addr / 256) as u8;
        let new_lo = lo.wrapping_add(offset);
        let carry = (lo as u16) + (offset as u16) > 0xFF;
        self.cycle = self.cycle + 1;

        if !carry {
            if operation != MemoryOperation::Read {
                self.cycle = self.cycle + 1;
            }
            return (hi as u16) * 256 + (new_lo as u16);
        }
        let new_hi = hi.wrapping_add(1);
        self.cycle = self.cycle + 1;
        return (new_hi as u16) * 256 + (new_lo as u16);
    }

    /// Moves the program counter by a branch operand: bit 7 gives the
    /// direction, bits 0 to 6 the distance; one cycle, and one more when the
    /// move leaves the current page.
    pub fn offset_program_counter(&mut self, offset: u8)
        requires
            room(old(self)@, 2),
        ensures
            final(self)@ == (CpuState {
                pc: branch_target(old(self)@.pc, offset),
                cycle: old(self)@.cycle + 1 + if branch_crossed(old(self)@.pc, offset) {
                    1int
                } else {
                    0int
                },
                ..old(self)@
            }),
    {
        let pc_lo = (self.program_counter % 256) as u8;
        let pc_hi = (self.program_counter / 256) as u8;
        let negative_offset_direction = offset >= 0x80;
        let magnitude = offset % 0x80;
        let new_lo: u8;
        let carry: bool;

        if negative_offset_direction {
            new_lo = pc_lo.wrapping_sub(magnitude);
            carry = pc_lo < magnitude;
        } else {
            new_lo = pc_lo.wrapping_add(magnitude);
            carry = (pc_lo as u16) + (magnitude as u16) > 0xFF;
        }

        self.program_counter = (pc_hi as u16) * 256 + (new_lo as u16);
        self.cycle = self.cycle + 1;
        if !carry {
            return ;
        }

        let new_hi: u8;
        if negative_offset_direction {
            new_hi = pc_hi.wrapping_sub(1);
        } else {
            new_hi = pc_hi.wrapping_add(1);
        }
        self.program_counter = (new_hi as u16) * 256 + (new_lo as u16);
        self.cycle = self.cycle + 1;
    }

    /// The addressing-mode resolver: fetches the operand bytes the mode needs,
    /// computes the effective address, and charges the exact cycles the mode
    /// costs for the given operation kind. Returns no address for `Implicit`
    /// and `Relative`, leaving the state untouched.
    pub fn get_address(&mut self, addr_mode: AddressingMode, operation: MemoryOperation) -> (r:
        Option<u16>)
        requires
            wf(old(self)@),
            room(old(self)@, 5),
        ensures
            yields_address(addr_mode) ==> r == Some(
                resolved(old(self)@, addr_mode, operation).addr,
            ) && final(self)@ == resolved(old(self)@, addr_mode, operation).state,
            !yields_address(addr_mode) ==> r == None::<u16> && final(self)@ == old(self)@,
    {
        match addr_mode {
            AddressingMode::ZeroPage => {
                return Some(self.fetch_zero_page_address());
            },
            AddressingMode::IndexIndirectX => {
                let address = self.fetch_zero_page_address_with_x_offset();
                let effective_address = self.fetch_address_from(address);
                return Some(effective_address);
            },
            AddressingMode::IndirectIndexY => {
                let address = self.fetch_zero_page_address();
                let partial = self.fetch_address_from(address);
                let y = self.index_register_y;
                let effective_address = self.offset_addr(partial, y, operation);
                return Some(effective_address);
            },
            AddressingMode::ZeroPageY => {
                return Some(self.fetch_zero_page_address_with_y_offset());
            },
            AddressingMode::ZeroPageX => {
                return Some(self.fetch_zero_page_address_with_x_offset());
            },
            AddressingMode::Absolute => {
                return Some(self.fetch_address());
            },
            AddressingMode::AbsoluteX => {
                let partial = self.fetch_address();
                let x = self.index_register_x;
                let effective_addr = self.offset_addr(partial, x, operation);
                return Some(effective_addr);
            },
            AddressingMode::AbsoluteY => {
                let partial = self.fetch_address();
                let y = self.index_register_y;
                let effective_addr = self.offset_addr(partial, y, operation);
                return Some(effective_addr);
            },
            AddressingMode::Indirect => {
                let address = self.fetch_address();
                let should_incorrectly_jump = address % 256 == 255;
                if !should_incorrectly_jump {
                    return Some(self.fetch_address_from(address));
                }
                let lo = self.access_memory(address);
                self.cycle = self.cycle + 1;
                let hi = self.access_memory(address - 255);
                self.cycle = self.cycle + 1;
                return Some((hi as u16) * 256 + (lo as u16));
            },
            AddressingMode::Immediate => {
                return Some(self.program_counter);
            },
            _ => {
                return None;
            },
        }
    }

    /// Reads one operand byte through an addressing mode: for `Immediate` the
    /// byte at the program counter, advancing past it; otherwise the byte at
    /// the resolved address, with the data cycle charged unless the mode's
    /// fix-up already paid it. Returns nothing, and leaves the state
    /// untouched, for modes without an address.
    pub fn read_memory(&mut self, addr_mode: AddressingMode) -> (r: Option<u8>)
        requires
            wf(old(self)@),
            room(old(self)@, 6),
        ensures
            yields_address(addr_mode) ==> r == Some(spec_read(old(self)@, addr_mode).value)
                && final(self)@ == spec_read(old(self)@, addr_mode).state,
            !yields_address(addr_mode) ==> r == None::<u8> && final(self)@ == old(self)@,
    {
        let address = match self.get_address(addr_mode, MemoryOperation::Read) {
            Some(address) => address,
            None => {
                return None;
            },
        };
        if addr_mode == AddressingMode::Immediate {
            let value = self.access_memory(address);
            self.increment_program_counter();
            return Some(value);
        }
        let value = self.access_memory(address);
        if !addressing_takes_extra_cycle_to_fix(addr_mode) {
            self.cycle = self.cycle + 1;
        }
        return Some(value);
    }

    /// Performs a read-modify-write through an addressing mode: reads the
    /// byte at the resolved address, applies the transformation with one
    /// internal cycle, and writes the result back. Returns nothing, and
    /// leaves the state untouched, for modes without an address.
    #[verifier::rlimit(30)]
    pub fn modify_memory(
        &mut self,
        addr_mode: AddressingMode,
        modification: MemoryModifications,
    ) -> (r: Option<()>)
        requires
            wf(old(self)@),
            room(old(self)@, 7),
            supported_modification(modification),
        ensures
            yields_address(addr_mode) ==> r == Some(()) && final(self)@ == spec_modify(
                old(self)@,
                addr_mode,
                modification,
            ),
            !yields_address(addr_mode) ==> r == None::<()> && final(self)@ == old(self)@,
    {
        let address = match self.get_address(addr_mode, MemoryOperation::Modify) {
            Some(address) => address,
            None => {
                return None;
            },
        };
        let value = self.access_memory(address);
        if !addressing_takes_extra_cycle_to_fix(addr_mode) {
            self.cycle = self.cycle + 1;
        }
        let modified_value = match modification {
            MemoryModifications::Increment => value.wrapping_add(1),
            MemoryModifications::Decrement => value.wrapping_sub(1),
            _ => value,
        };
        self.cycle = self.cycle + 1;
        self.put_into_memory(address, modified_value);
        self.cycle = self.cycle + 1;
        return Some(());
    }

    /// Writes one byte through an addressing mode, with the data cycle
    /// charged unless the mode's fix-up already paid it: writes never take a
    /// page-cross-only penalty, the indexed cost is always the pessimistic
    /// path. Returns nothing, and leaves the state untouched, for modes
    /// without an address.
    pub fn write_memory(&mut self, addr_mode: AddressingMode, value: u8) -> (r: Option<()>)
        requires
            wf(old(self)@),
            room(old(self)@, 6),
        ensures
            yields_address(addr_mode) ==> r == Some(()) && final(self)@ == spec_write(
                old(self)@,
                addr_mode,
                value,
            ),
            !yields_address(addr_mode) ==> r == None::<()> && final(self)@ == old(self)@,
    {
        let address = match self.get_address(addr_mode, MemoryOperation::Write) {
            Some(address) => address,
            None => {
                return None;
            },
        };
        self.put_into_memory(address, value);
        if !addressing_takes_extra_cycle_to_fix(addr_mode) {
            self.cycle = self.cycle + 1;
        }
        return Some(());
    }
}

/// Whether a mode's address resolution already charges the data-access cycle
/// through its index-addition fix-up.
pub fn addressing_takes_extra_cycle_to_fix(addr_mode: AddressingMode) -> (r: bool)
    ensures
        r == extra_cycle_mode(addr_mode),
{
    return addr_mode == AddressingMode::AbsoluteX || addr_mode == AddressingMode::AbsoluteY
        || addr_mode == AddressingMode::IndirectIndexY;
}


/// One byte of machine code: the opcodes the dispatcher recognizes.
pub const INSTRUCTION_LDA_IM: u8 = 0xA9;
pub const INSTRUCTION_LDA_ZP: u8 = 0xA5;
pub const INSTRUCTION_LDA_ZPX: u8 = 0xB5;
pub const INSTRUCTION_LDA_A: u8 = 0xAD;
pub const INSTRUCTION_LDA_A_X: u8 = 0xBD;
pub const INSTRUCTION_LDA_A_Y: u8 = 0xB9;
pub const INSTRUCTION_LDA_IN_X: u8 = 0xA1;
pub const INSTRUCTION_LDA_IN_Y: u8 = 0xB1;
pub const INSTRUCTION_LDY_IM: u8 = 0xA0;
pub const INSTRUCTION_LDY_ZP: u8 = 0xA4;
pub const INSTRUCTION_LDY_ZPX: u8 = 0xB4;
pub const INSTRUCTION_LDY_A: u8 = 0xAC;
pub const INSTRUCTION_LDY_A_X: u8 = 0xBC;
pub const INSTRUCTION_LDX_IM: u8 = 0xA2;
pub const INSTRUCTION_LDX_ZP: u8 = 0xA6;
pub const INSTRUCTION_LDX_ZPY: u8 = 0xB6;
pub const INSTRUCTION_LDX_A: u8 = 0xAE;
pub const INSTRUCTION_LDX_A_Y: u8 = 0xBE;
pub const INSTRUCTION_JMP_A: u8 = 0x4C;
pub const INSTRUCTION_JMP_IN: u8 = 0x6C;
pub const INSTRUCTION_JSR_A: u8 = 0x20;
pub const INSTRUCTION_RTS: u8 = 0x60;
pub const INSTRUCTION_BCC: u8 = 0x90;
pub const INSTRUCTION_BCS: u8 = 0xB0;
pub const INSTRUCTION_BEQ: u8 = 0xF0;
pub const INSTRUCTION_BNE: u8 = 0xD0;
pub const INSTRUCTION_CMP_IM: u8 = 0xC9;
pub const INSTRUCTION_CMP_ZP: u8 = 0xC5;
pub const INSTRUCTION_CMP_ZPX: u8 = 0xD5;
pub const INSTRUCTION_CMP_A: u8 = 0xCD;
pub const INSTRUCTION_CMP_A_X: u8 = 0xDD;
pub const INSTRUCTION_CMP_A_Y: u8 = 0xD9;
pub const INSTRUCTION_CMP_IN_X: u8 = 0xC1;
pub const INSTRUCTION_CMP_IN_Y: u8 = 0xD1;
pub const INSTRUCTION_CPX_IM: u8 = 0xE0;
pub const INSTRUCTION_CPX_ZP: u8 = 0xE4;
pub const INSTRUCTION_CPX_A: u8 = 0xEC;
pub const INSTRUCTION_CPY_IM: u8 = 0xC0;
pub const INSTRUCTION_CPY_ZP: u8 = 0xC4;
pub const INSTRUCTION_CPY_A: u8 = 0xCC;
pub const INSTRUCTION_INC_ZP: u8 = 0xE6;
pub const INSTRUCTION_INC_ZPX: u8 = 0xF6;
pub const INSTRUCTION_INC_A: u8 = 0xEE;
pub const INSTRUCTION_INC_A_X: u8 = 0xFE;
pub const INSTRUCTION_INX_IM: u8 = 0xE8;
pub const INSTRUCTION_INY_IM: u8 = 0xC8;
pub const INSTRUCTION_DEC_ZP: u8 = 0xC6;
pub const INSTRUCTION_DEC_ZPX: u8 = 0xD6;
pub const INSTRUCTION_DEC_A: u8 = 0xCE;
pub const INSTRUCTION_DEC_A_X: u8 = 0xDE;
pub const INSTRUCTION_DEX_IM: u8 = 0xCA;
pub const INSTRUCTION_DEY_IM: u8 = 0x88;
pub const INSTRUCTION_STA_ZP: u8 = 0x85;
pub const INSTRUCTION_STA_ZPX: u8 = 0x95;
pub const INSTRUCTION_STA_A: u8 = 0x8D;
pub const INSTRUCTION_STA_A_X: u8 = 0x9D;
pub const INSTRUCTION_STA_A_Y: u8 = 0x99;
pub const INSTRUCTION_STA_IN_X: u8 = 0x81;
pub const INSTRUCTION_STA_IN_Y: u8 = 0x91;
pub const INSTRUCTION_STX_ZP: u8 = 0x86;
pub const INSTRUCTION_STX_ZPY: u8 = 0x96;
pub const INSTRUCTION_STX_A: u8 = 0x8E;
pub const INSTRUCTION_STY_ZP: u8 = 0x84;
pub const INSTRUCTION_STY_ZPX: u8 = 0x94;
pub const INSTRUCTION_STY_A: u8 = 0x8C;

/// Whether an opcode byte has a handler in the dispatch table.
pub open spec fn opcode_supported(op: u8) -> bool {
    op == INSTRUCTION_LDA_IM
    || op == INSTRUCTION_LDA_ZP
    || op == INSTRUCTION_LDA_ZPX
    || op == INSTRUCTION_LDA_A
    || op == INSTRUCTION_LDA_A_X
    || op == INSTRUCTION_LDA_A_Y
    || op == INSTRUCTION_LDA_IN_X
    || op == INSTRUCTION_LDA_IN_Y
    || op == INSTRUCTION_LDY_IM
    || op == INSTRUCTION_LDY_ZP
    || op == INSTRUCTION_LDY_ZPX
    || op == INSTRUCTION_LDY_A
    || op == INSTRUCTION_LDY_A_X
    || op == INSTRUCTION_LDX_IM
    || op == INSTRUCTION_LDX_ZP
    || op == INSTRUCTION_LDX_ZPY
    || op == INSTRUCTION_LDX_A
    || op == INSTRUCTION_LDX_A_Y
    || op == INSTRUCTION_JMP_A
    || op == INSTRUCTION_JMP_IN
    || op == INSTRUCTION_JSR_A
    || op == INSTRUCTION_RTS
    || op == INSTRUCTION_BCC
    || op == INSTRUCTION_BCS
    || op == INSTRUCTION_BEQ
    || op == INSTRUCTION_BNE
    || op == INSTRUCTION_CMP_IM
    || op == INSTRUCTION_CMP_ZP
    || op == INSTRUCTION_CMP_ZPX
    || op == INSTRUCTION_CMP_A
    || op == INSTRUCTION_CMP_A_X
    || op == INSTRUCTION_CMP_A_Y
    || op == INSTRUCTION_CMP_IN_X
    || op == INSTRUCTION_CMP_IN_Y
    || op == INSTRUCTION_CPX_IM
    || op == INSTRUCTION_CPX_ZP
    || op == INSTRUCTION_CPX_A
    || op == INSTRUCTION_CPY_IM
    || op == INSTRUCTION_CPY_ZP
    || op == INSTRUCTION_CPY_A
    || op == INSTRUCTION_INC_ZP
    || op == INSTRUCTION_INC_ZPX
    || op == INSTRUCTION_INC_A
    || op == INSTRUCTION_INC_A_X
    || op == INSTRUCTION_INX_IM
    || op == INSTRUCTION_INY_IM
    || op == INSTRUCTION_DEC_ZP
    || op == INSTRUCTION_DEC_ZPX
    || op == INSTRUCTION_DEC_A
    || op == INSTRUCTION_DEC_A_X
    || op == INSTRUCTION_DEX_IM
    || op == INSTRUCTION_DEY_IM
    || op == INSTRUCTION_STA_ZP
    || op == INSTRUCTION_STA_ZPX
    || op == INSTRUCTION_STA_A
    || op == INSTRUCTION_STA_A_X
    || op == INSTRUCTION_STA_A_Y
    || op == INSTRUCTION_STA_IN_X
    || op == INSTRUCTION_STA_IN_Y
    || op == INSTRUCTION_STX_ZP
    || op == INSTRUCTION_STX_ZPY
    || op == INSTRUCTION_STX_A
    || op == INSTRUCTION_STY_ZP
    || op == INSTRUCTION_STY_ZPX
    || op == INSTRUCTION_STY_A
}

/// The architectural effect of one handler on the state `s` that holds after
/// the opcode fetch. Meaningful only for supported opcodes. Opaque: reveal it
/// to relate one opcode to its instruction's effect.
#[verifier::opaque]
pub open spec fn handler_step(op: u8, s: CpuState) -> CpuState
    recommends
        wf(s),
        opcode_supported(op),
{
    if op == INSTRUCTION_LDA_IM {
        load_step(s, AddressingMode::Immediate, Registers::Accumulator)
    } else if op == INSTRUCTION_LDA_ZP {
        load_step(s, AddressingMode::ZeroPage, Registers::Accumulator)
    } else if op == INSTRUCTION_LDA_ZPX {
        load_step(s, AddressingMode::ZeroPageX, Registers::Accumulator)
    } else if op == INSTRUCTION_LDA_A {
        load_step(s, AddressingMode::Absolute, Registers::Accumulator)
    } else if op == INSTRUCTION_LDA_A_X {
        load_step(s, AddressingMode::AbsoluteX, Registers::Accumulator)
    } else if op == INSTRUCTION_LDA_A_Y {
        load_step(s, AddressingMode::AbsoluteY, Registers::Accumulator)
    } else if op == INSTRUCTION_LDA_IN_X {
        load_step(s, AddressingMode::IndexIndirectX, Registers::Accumulator)
    } else if op == INSTRUCTION_LDA_IN_Y {
        load_step(s, AddressingMode::IndirectIndexY, Registers::Accumulator)
    } else if op == INSTRUCTION_LDY_IM {
        load_step(s, AddressingMode::Immediate, Registers::IndexY)
    } else if op == INSTRUCTION_LDY_ZP {
        load_step(s, AddressingMode::ZeroPage, Registers::IndexY)
    } else if op == INSTRUCTION_LDY_ZPX {
        load_step(s, AddressingMode::ZeroPageX, Registers::IndexY)
    } else if op == INSTRUCTION_LDY_A {
        load_step(s, AddressingMode::Absolute, Registers::IndexY)
    } else if op == INSTRUCTION_LDY_A_X {
        load_step(s, AddressingMode::AbsoluteX, Registers::IndexY)
    } else if op == INSTRUCTION_LDX_IM {
        load_step(s, AddressingMode::Immediate, Registers::IndexX)
    } else if op == INSTRUCTION_LDX_ZP {
        load_step(s, AddressingMode::ZeroPage, Registers::IndexX)
    } else if op == INSTRUCTION_LDX_ZPY {
        load_step(s, AddressingMode::ZeroPageY, Registers::IndexX)
    } else if op == INSTRUCTION_LDX_A {
        load_step(s, AddressingMode::Absolute, Registers::IndexX)
    } else if op == INSTRUCTION_LDX_A_Y {
        load_step(s, AddressingMode::AbsoluteY, Registers::IndexX)
    } else if op == INSTRUCTION_JMP_A {
        jmp_step(s, AddressingMode::Absolute)
    } else if op == INSTRUCTION_JMP_IN {
        jmp_step(s, AddressingMode::Indirect)
    } else if op == INSTRUCTION_JSR_A {
        jsr_step(s)
    } else if op == INSTRUCTION_RTS {
        rts_step(s)
    } else if op == INSTRUCTION_BCC {
        branch_step(s, !flag_of(s.p, Flags::Carry))
    } else if op == INSTRUCTION_BCS {
        branch_step(s, flag_of(s.p, Flags::Carry))
    } else if op == INSTRUCTION_BEQ {
        branch_step(s, flag_of(s.p, Flags::Zero))
    } else if op == INSTRUCTION_BNE {
        branch_step(s, !flag_of(s.p, Flags::Zero))
    } else if op == INSTRUCTION_CMP_IM {
        cmp_step(s, AddressingMode::Immediate, Registers::Accumulator)
    } else if op == INSTRUCTION_CMP_ZP {
        cmp_step(s, AddressingMode::ZeroPage, Registers::Accumulator)
    } else if op == INSTRUCTION_CMP_ZPX {
        cmp_step(s, AddressingMode::ZeroPageX, Registers::Accumulator)
    } else if op == INSTRUCTION_CMP_A {
        cmp_step(s, AddressingMode::Absolute, Registers::Accumulator)
    } else if op == INSTRUCTION_CMP_A_X {
        cmp_step(s, AddressingMode::AbsoluteX, Registers::Accumulator)
    } else if op == INSTRUCTION_CMP_A_Y {
        cmp_step(s, AddressingMode::AbsoluteY, Registers::Accumulator)
    } else if op == INSTRUCTION_CMP_IN_X {
        cmp_step(s, AddressingMode::IndexIndirectX, Registers::Accumulator)
    } else if op == INSTRUCTION_CMP_IN_Y {
        cmp_step(s, AddressingMode::IndirectIndexY, Registers::Accumulator)
    } else if op == INSTRUCTION_CPX_IM {
        cmp_step(s, AddressingMode::Immediate, Registers::IndexX)
    } else if op == INSTRUCTION_CPX_ZP {
        cmp_step(s, AddressingMode::ZeroPage, Registers::IndexX)
    } else if op == INSTRUCTION_CPX_A {
        cmp_step(s, AddressingMode::Absolute, Registers::IndexX)
    } else if op == INSTRUCTION_CPY_IM {
        cmp_step(s, AddressingMode::Immediate, Registers::IndexY)
    } else if op == INSTRUCTION_CPY_ZP {
        cmp_step(s, AddressingMode::ZeroPage, Registers::IndexY)
    } else if op == INSTRUCTION_CPY_A {
        cmp_step(s, AddressingMode::Absolute, Registers::IndexY)
    } else if op == INSTRUCTION_INC_ZP {
        spec_modify(s, AddressingMode::ZeroPage, MemoryModifications::Increment)
    } else if op == INSTRUCTION_INC_ZPX {
        spec_modify(s, AddressingMode::ZeroPageX, MemoryModifications::Increment)
    } else if op == INSTRUCTION_INC_A {
        spec_modify(s, AddressingMode::Absolute, MemoryModifications::Increment)
    } else if op == INSTRUCTION_INC_A_X {
        spec_modify(s, AddressingMode::AbsoluteX, MemoryModifications::Increment)
    } else if op == INSTRUCTION_INX_IM {
        reg_step(s, Registers::IndexX, true)
    } else if op == INSTRUCTION_INY_IM {
        reg_step(s, Registers::IndexY, true)
    } else if op == INSTRUCTION_DEC_ZP {
        spec_modify(s, AddressingMode::ZeroPage, MemoryModifications::Decrement)
    } else if op == INSTRUCTION_DEC_ZPX {
        spec_modify(s, AddressingMode::ZeroPageX, MemoryModifications::Decrement)
    } else if op == INSTRUCTION_DEC_A {
        spec_modify(s, AddressingMode::Absolute, MemoryModifications::Decrement)
    } else if op == INSTRUCTION_DEC_A_X {
        spec_modify(s, AddressingMode::AbsoluteX, MemoryModifications::Decrement)
    } else if op == INSTRUCTION_DEX_IM {
        reg_step(s, Registers::IndexX, false)
    } else if op == INSTRUCTION_DEY_IM {
        reg_step(s, Registers::IndexY, false)
    } else if op == INSTRUCTION_STA_ZP {
        store_step(s, AddressingMode::ZeroPage, Registers::Accumulator)
    } else if op == INSTRUCTION_STA_ZPX {
        store_step(s, AddressingMode::ZeroPageX, Registers::Accumulator)
    } else if op == INSTRUCTION_STA_A {
        store_step(s, AddressingMode::Absolute, Registers::Accumulator)
    } else if op == INSTRUCTION_STA_A_X {
        store_step(s, AddressingMode::AbsoluteX, Registers::Accumulator)
    } else if op == INSTRUCTION_STA_A_Y {
        store_step(s, AddressingMode::AbsoluteY, Registers::Accumulator)
    } else if op == INSTRUCTION_STA_IN_X {
        store_step(s, AddressingMode::IndexIndirectX, Registers::Accumulator)
    } else if op == INSTRUCTION_STA_IN_Y {
        store_step(s, AddressingMode::IndirectIndexY, Registers::Accumulator)
    } else if op == INSTRUCTION_STX_ZP {
        store_step(s, AddressingMode::ZeroPage, Registers::IndexX)
    } else if op == INSTRUCTION_STX_ZPY {
        store_step(s, AddressingMode::ZeroPageY, Registers::IndexX)
    } else if op == INSTRUCTION_STX_A {
        store_step(s, AddressingMode::Absolute, Registers::IndexX)
    } else if op == INSTRUCTION_STY_ZP {
        store_step(s, AddressingMode::ZeroPage, Registers::IndexY)
    } else if op == INSTRUCTION_STY_ZPX {
        store_step(s, AddressingMode::ZeroPageX, Registers::IndexY)
    } else if op == INSTRUCTION_STY_A {
        store_step(s, AddressingMode::Absolute, Registers::IndexY)
    } else {
        s
    }
}

/// The opcode byte the next fetch will read.
pub open spec fn fetched_opcode(s: CpuState) -> u8 {
    mem_at(s, s.pc)
}

/// One whole instruction from state `s`: the opcode fetch, which advances the
/// program counter and costs one cycle, followed by the handler's effect.
pub open spec fn spec_step(s: CpuState) -> CpuState
    recommends
        wf(s),
        opcode_supported(fetched_opcode(s)),
{
    handler_step(fetched_opcode(s), pc_advanced(s))
}

/// The state after `n` whole instructions from `s`.
pub open spec fn spec_run_n(s: CpuState, n: nat) -> CpuState
    decreases n,
{
    if n == 0 {
        s
    } else {
        spec_step(spec_run_n(s, (n - 1) as nat))
    }
}

/// Whether a run of `n` instructions from `s` stays within the cycle budget:
/// before each of the `n` fetches the clock is below `stop`, and each fetched
/// opcode is supported.
pub open spec fn budget_run(s: CpuState, n: nat, stop: int) -> bool {
    forall |i: nat|
        i < n ==> (#[trigger] spec_run_n(s, i)).cycle < stop && opcode_supported(
            fetched_opcode(spec_run_n(s, i)),
        )
}

/// Every handler moves the clock forward, never backwards, and keeps the
/// memory covering the whole address space.
pub proof fn lemma_handler_cycle(op: u8, s: CpuState)
    ensures
        handler_step(op, s).cycle >= s.cycle,
        wf(s) ==> wf(handler_step(op, s)),
{
    reveal(handler_step);
}

/// Whether `post` is the state after some whole number of instructions from
/// `pre`, each fetched while the clock was below `stop` and each supported.
/// This is the contract of a successful `execute` call: together with
/// `post.cycle >= stop` it pins `post` down, since each instruction is a
/// deterministic function of the state before it.
pub open spec fn completed_run(pre: CpuState, post: CpuState, stop: int) -> bool {
    exists |n: nat| #[trigger] budget_run(pre, n, stop) && post == spec_run_n(pre, n)
}

/// Whether `post` is the state in which `execute` surfaced the unsupported
/// opcode `op`: some whole number of supported instructions ran within the
/// budget, then, still below `stop`, the fetch returned `op`, and execution
/// stopped with the program counter just past it.
pub open spec fn halted_run(pre: CpuState, post: CpuState, stop: int, op: u8) -> bool {
    exists |n: nat|
        {
            &&& #[trigger] budget_run(pre, n, stop)
            &&& spec_run_n(pre, n).cycle < stop
            &&& op == fetched_opcode(spec_run_n(pre, n))
            &&& post == pc_advanced(spec_run_n(pre, n))
        }
}

impl CPU {
    /// Runs the handler of one fetched opcode; `true` exactly when the opcode
    /// is in the dispatch table, in which case the handler's whole effect has
    /// taken place. An unsupported opcode changes nothing.
    fn dispatch_opcode(&mut self, opcode: u8) -> (r: bool)
        requires
            wf(old(self)@),
            room(old(self)@, 7),
        ensures
            r == opcode_supported(opcode),
            opcode_supported(opcode) ==> final(self)@ == handler_step(opcode, old(self)@),
            !opcode_supported(opcode) ==> final(self)@ == old(self)@,
    {
        proof {
            reveal(handler_step);
        }
        match opcode {
            INSTRUCTION_LDA_IM => {
                crate::instructions::lda_im(self);
            },
            INSTRUCTION_LDA_ZP => {
                crate::instructions::lda_zp(self);
            },
            INSTRUCTION_LDA_ZPX => {
                crate::instructions::lda_zpx(self);
            },
            INSTRUCTION_LDA_A => {
                crate::instructions::lda_a(self);
            },
            INSTRUCTION_LDA_A_X => {
                crate::instructions::lda_a_x(self);
            },
            INSTRUCTION_LDA_A_Y => {
                crate::instructions::lda_a_y(self);
            },
            INSTRUCTION_LDA_IN_X => {
                crate::instructions::lda_in_x(self);
            },
            INSTRUCTION_LDA_IN_Y => {
                crate::instructions::lda_in_y(self);
            },
            INSTRUCTION_LDY_IM => {
                crate::instructions::ldy_im(self);
            },
            INSTRUCTION_LDY_ZP => {
                crate::instructions::ldy_zp(self);
            },
            INSTRUCTION_LDY_ZPX => {
                crate::instructions::ldy_zpx(self);
            },
            INSTRUCTION_LDY_A => {
                crate::instructions::ldy_a(self);
            },
            INSTRUCTION_LDY_A_X => {
                crate::instructions::ldy_a_x(self);
            },
            INSTRUCTION_LDX_IM => {
                crate::instructions::ldx_im(self);
            },
            INSTRUCTION_LDX_ZP => {
                crate::instructions::ldx_zp(self);
            },
            INSTRUCTION_LDX_ZPY => {
                crate::instructions::ldx_zpy(self);
            },
            INSTRUCTION_LDX_A => {
                crate::instructions::ldx_a(self);
            },
            INSTRUCTION_LDX_A_Y => {
                crate::instructions::ldx_a_y(self);
            },
            INSTRUCTION_JMP_A => {
                crate::instructions::jmp_a(self);
            },
            INSTRUCTION_JMP_IN => {
                crate::instructions::jmp_in(self);
            },
            INSTRUCTION_JSR_A => {
                crate::instructions::jsr_a(self);
            },
            INSTRUCTION_RTS => {
                crate::instructions::rts(self);
            },
            INSTRUCTION_BCC => {
                crate::instructions::bcc(self);
            },
            INSTRUCTION_BCS => {
                crate::instructions::bcs(self);
            },
            INSTRUCTION_BEQ => {
                crate::instructions::beq(self);
            },
            INSTRUCTION_BNE => {
                crate::instructions::bne(self);
            },
            INSTRUCTION_CMP_IM => {
                crate::instructions::cmp_im(self);
            },
            INSTRUCTION_CMP_ZP => {
                crate::instructions::cmp_zp(self);
            },
            INSTRUCTION_CMP_ZPX => {
                crate::instructions::cmp_zpx(self);
            },
            INSTRUCTION_CMP_A => {
                crate::instructions::cmp_a(self);
            },
            INSTRUCTION_CMP_A_X => {
                crate::instructions::cmp_a_x(self);
            },
            INSTRUCTION_CMP_A_Y => {
                crate::instructions::cmp_a_y(self);
            },
            INSTRUCTION_CMP_IN_X => {
                crate::instructions::cmp_in_x(self);
            },
            INSTRUCTION_CMP_IN_Y => {
                crate::instructions::cmp_in_y(self);
            },
            INSTRUCTION_CPX_IM => {
                crate::instructions::cpx_im(self);
            },
            INSTRUCTION_CPX_ZP => {
                crate::instructions::cpx_zp(self);
            },
            INSTRUCTION_CPX_A => {
                crate::instructions::cpx_a(self);
            },
            INSTRUCTION_CPY_IM => {
                crate::instructions::cpy_im(self);
            },
            INSTRUCTION_CPY_ZP => {
                crate::instructions::cpy_zp(self);
            },
            INSTRUCTION_CPY_A => {
                crate::instructions::cpy_a(self);
            },
            INSTRUCTION_INC_ZP => {
                crate::instructions::inc_zp(self);
            },
            INSTRUCTION_INC_ZPX => {
                crate::instructions::inc_zpx(self);
            },
            INSTRUCTION_INC_A => {
                crate::instructions::inc_a(self);
            },
            INSTRUCTION_INC_A_X => {
                crate::instructions::inc_a_x(self);
            },
            INSTRUCTION_INX_IM => {
                crate::instructions::inx_im(self);
            },
            INSTRUCTION_INY_IM => {
                crate::instructions::iny_im(self);
            },
            INSTRUCTION_DEC_ZP => {
                crate::instructions::dec_zp(self);
            },
            INSTRUCTION_DEC_ZPX => {
                crate::instructions::dec_zpx(self);
            },
            INSTRUCTION_DEC_A => {
                crate::instructions::dec_a(self);
            },
            INSTRUCTION_DEC_A_X => {
                crate::instructions::dec_a_x(self);
            },
            INSTRUCTION_DEX_IM => {
                crate::instructions::dex_im(self);
            },
            INSTRUCTION_DEY_IM => {
                crate::instructions::dey_im(self);
            },
            INSTRUCTION_STA_ZP => {
                crate::instructions::sta_zp(self);
            },
            INSTRUCTION_STA_ZPX => {
                crate::instructions::sta_zpx(self);
            },
            INSTRUCTION_STA_A => {
                crate::instructions::sta_a(self);
            },
            INSTRUCTION_STA_A_X => {
                crate::instructions::sta_a_x(self);
            },
            INSTRUCTION_STA_A_Y => {
                crate::instructions::sta_a_y(self);
            },
            INSTRUCTION_STA_IN_X => {
                crate::instructions::sta_in_x(self);
            },
            INSTRUCTION_STA_IN_Y => {
                crate::instructions::sta_in_y(self);
            },
            INSTRUCTION_STX_ZP => {
                crate::instructions::stx_zp(self);
            },
            INSTRUCTION_STX_ZPY => {
                crate::instructions::stx_zpy(self);
            },
            INSTRUCTION_STX_A => {
                crate::instructions::stx_a(self);
            },
            INSTRUCTION_STY_ZP => {
                crate::instructions::sty_zp(self);
            },
            INSTRUCTION_STY_ZPX => {
                crate::instructions::sty_zpx(self);
            },
            INSTRUCTION_STY_A => {
                crate::instructions::sty_a(self);
            },
            _ => {
                return false;
            },
        }
        return true;
    }

    /// The fetch-execute loop. Computes the target clock value, the clock
    /// before the call plus the budget, and runs whole instructions until the
    /// clock reaches it; an instruction in flight is never aborted, so the
    /// clock may overshoot the target by the tail of the last instruction.
    ///
    /// Returns the target on success, for the caller to compare with the
    /// clock it observes. When a byte with no handler is fetched, execution
    /// stops with that byte as the error, the program counter just past it.
    pub fn execute(&mut self, cycles: u64) -> (r: Result<u64, u8>)
        requires
            wf(old(self)@),
            old(self)@.cycle + cycles + 8 <= u64::MAX,
        ensures
            wf(final(self)@),
            final(self)@.cycle >= old(self)@.cycle,
            (r matches Ok(stop) ==> stop == old(self)@.cycle + cycles),
            (r matches Ok(stop) ==> final(self)@.cycle >= stop),
            (r matches Ok(stop) ==> completed_run(old(self)@, final(self)@, stop as int)),
            (r matches Err(op) ==> !opcode_supported(op)),
            (r matches Err(op) ==> halted_run(
                old(self)@,
                final(self)@,
                old(self)@.cycle + cycles,
                op,
            )),
    {
        let cycles_before_execution = self.cycle;
        let stop_cycle = cycles_before_execution + cycles;
        let ghost s0 = self@;
        let ghost mut n: nat = 0nat;

        while self.cycle < stop_cycle
            invariant
                s0 == old(self)@,
                stop_cycle == s0.cycle + cycles,
                wf(self@),
                self@ == spec_run_n(s0, n),
                budget_run(s0, n, stop_cycle as int),
                self@.cycle >= s0.cycle,
                stop_cycle + 8 <= u64::MAX,
            decreases crate::model::cycles_left(self@.cycle, stop_cycle as int),
        {
            let ghost previous = self@;
            let opcode = self.fetch_instruction();
            let handled = self.dispatch_opcode(opcode);
            if !handled {
                proof {
                    assert(spec_run_n(s0, n).cycle < stop_cycle as int);
                    assert(halted_run(s0, self@, stop_cycle as int, opcode));
                }
                return Err(opcode);
            }
            proof {
                lemma_handler_cycle(opcode, pc_advanced(previous));
                assert(self@ == spec_step(previous));
                n = n + 1;
                assert(spec_run_n(s0, n) == spec_step(spec_run_n(s0, (n - 1) as nat)));
                assert forall |i: nat|
                    i < n implies (#[trigger] spec_run_n(s0, i)).cycle < stop_cycle as int
                    && opcode_supported(fetched_opcode(spec_run_n(s0, i))) by {
                    if i + 1 == n {
                        assert(spec_run_n(s0, i) == previous);
                    }
                }
            }
        }
        proof {
            assert(budget_run(old(self)@, n, stop_cycle as int));
            assert(completed_run(old(self)@, self@, stop_cycle as int));
        }
        return Ok(stop_cycle);
    }
}

} // verus!
