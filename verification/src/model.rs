//! The mathematical model of the processor.
//!
//! [`CpuState`] is the ghost image of the executable [`crate::cpu::CPU`]: the
//! six architectural registers, the bus-cycle counter and the whole
//! byte-addressable memory as a sequence. Every executable operation of the
//! emulator has a spec function here that maps a state to the state after the
//! operation, and the executable code is proved equal to it.

use vstd::prelude::*;

use crate::cpu::AddressingMode;
use crate::cpu::MemoryModifications;
use crate::cpu::MemoryOperation;
use crate::cpu::Registers;
use crate::status::Flags;

verus! {

/// The ghost state of the processor: registers, flags, clock and memory.
pub ghost struct CpuState {
    /// Bus-cycle counter. Unbounded in the model; the executable counter is
    /// 64-bit and callers keep it far from the top.
    pub cycle: int,
    /// Program counter.
    pub pc: u16,
    /// Stack pointer; the stack lives at `0x0100 | sp`.
    pub sp: u8,
    /// Accumulator.
    pub a: u8,
    /// Index register X.
    pub x: u8,
    /// Index register Y.
    pub y: u8,
    /// Processor status byte.
    pub p: u8,
    /// The 65,536-byte address space.
    pub mem: Seq<u8>,
}

/// The size of the address space: one byte per 16-bit address.
pub open spec fn address_space() -> int {
    0x10000
}

/// A state is well formed when its memory covers the whole address space.
pub open spec fn wf(s: CpuState) -> bool {
    s.mem.len() == address_space()
}

/// The byte in memory at a 16-bit address.
pub open spec fn mem_at(s: CpuState, addr: u16) -> u8 {
    s.mem[addr as int]
}

/// Addition of two bytes, wrapping modulo 256.
pub open spec fn byte_add(a: u8, b: u8) -> u8 {
    ((a + b) % 256) as u8
}

/// Subtraction of two bytes, wrapping modulo 256.
pub open spec fn byte_sub(a: u8, b: u8) -> u8 {
    ((a + 256 - b) % 256) as u8
}

/// A 16-bit word assembled from its low and high bytes.
pub open spec fn word_of(lo: u8, hi: u8) -> u16 {
    (hi * 256 + lo) as u16
}

/// The low byte of a word.
pub open spec fn lo_of(w: u16) -> u8 {
    (w % 256) as u8
}

/// The high byte of a word.
pub open spec fn hi_of(w: u16) -> u8 {
    (w / 256) as u8
}

/// A word moved forward by `n`, wrapping modulo 65536. `n` is not negative.
pub open spec fn word_add(w: u16, n: int) -> u16 {
    ((w + n) % 0x10000) as u16
}

/// The physical address of a stack cell: the stack occupies page one.
pub open spec fn stack_addr(sp: u8) -> u16 {
    (0x0100 + sp) as u16
}

/// The bit mask of one processor-status flag.
pub open spec fn flag_mask(flag: Flags) -> u8 {
    match flag {
        Flags::Carry => 0x01,
        Flags::Zero => 0x02,
        Flags::DecimalMode => 0x08,
        Flags::Negative => 0x80,
    }
}

/// The status byte with the bits of `mask` set or cleared.
pub open spec fn set_mask(p: u8, mask: u8, value: bool) -> u8 {
    if value {
        p | mask
    } else {
        p & !mask
    }
}

/// Whether any bit of `mask` is set in the status byte.
pub open spec fn get_mask(p: u8, mask: u8) -> bool {
    p & mask != 0
}

/// Whether one flag is set in the status byte.
pub open spec fn flag_of(p: u8, flag: Flags) -> bool {
    get_mask(p, flag_mask(flag))
}

/// The status byte after a load or register increment deposited `value`:
/// Z holds exactly when the value is zero, N exactly when bit 7 is set.
pub open spec fn load_flags(p: u8, value: u8) -> u8 {
    set_mask(set_mask(p, flag_mask(Flags::Zero), value == 0), flag_mask(Flags::Negative), value
        & 0x80 != 0)
}

/// The status byte after comparing register contents `r` with memory operand
/// `m`: C holds exactly when `r >= m`, Z exactly when they are equal, N
/// exactly when the wrapped difference has bit 7 set.
pub open spec fn cmp_flags(p: u8, r: u8, m: u8) -> u8 {
    set_mask(
        set_mask(set_mask(p, flag_mask(Flags::Carry), r >= m), flag_mask(Flags::Zero), r == m),
        flag_mask(Flags::Negative),
        byte_sub(r, m) & 0x80 != 0,
    )
}

/// The value of one register, read by tag.
pub open spec fn reg_get(s: CpuState, r: Registers) -> u8 {
    match r {
        Registers::Accumulator => s.a,
        Registers::IndexX => s.x,
        Registers::IndexY => s.y,
        Registers::ProcessorStatus => s.p,
        Registers::StackPointer => s.sp,
    }
}

/// The state with one register replaced, by tag.
pub open spec fn reg_set(s: CpuState, r: Registers, v: u8) -> CpuState {
    match r {
        Registers::Accumulator => CpuState { a: v, ..s },
        Registers::IndexX => CpuState { x: v, ..s },
        Registers::IndexY => CpuState { y: v, ..s },
        Registers::ProcessorStatus => CpuState { p: v, ..s },
        Registers::StackPointer => CpuState { sp: v, ..s },
    }
}

/// The state after `n` further bus or internal cycles.
pub open spec fn ticked(s: CpuState, n: int) -> CpuState {
    CpuState { cycle: s.cycle + n, ..s }
}

/// The state after the program counter advanced by one, which costs a cycle.
pub open spec fn pc_advanced(s: CpuState) -> CpuState {
    CpuState { pc: word_add(s.pc, 1), cycle: s.cycle + 1, ..s }
}

/// The state after one byte was written to memory; the cycle for the bus
/// access is charged separately.
pub open spec fn written(s: CpuState, addr: u16, v: u8) -> CpuState {
    CpuState { mem: s.mem.update(addr as int, v), ..s }
}

/// Whether an addressing mode produces an effective address. `Implicit` and
/// `Relative` do not: the former has no operand, and branch handlers read
/// their signed offset themselves.
pub open spec fn yields_address(m: AddressingMode) -> bool {
    match m {
        AddressingMode::Implicit => false,
        AddressingMode::Relative => false,
        _ => true,
    }
}

/// Whether adding the index to the base address leaves the 256-byte page of
/// the base: exactly when the low byte wraps past `0xFF`.
pub open spec fn page_crossed(base: u16, offset: u8) -> bool {
    base % 256 + offset > 255
}

/// The cycles the indexed modes spend on the index addition: one for the
/// addition itself, and one more on a page cross or whenever the access is
/// not a plain read (modifies and writes always pay the pessimistic path).
pub open spec fn offset_cycles(base: u16, offset: u8, op: MemoryOperation) -> int {
    if page_crossed(base, offset) {
        2
    } else if op == MemoryOperation::Read {
        1
    } else {
        2
    }
}

/// An effective address together with the state after computing it.
pub ghost struct Resolution {
    /// The state after the operand fetches and address arithmetic, with all
    /// their cycles charged.
    pub state: CpuState,
    /// The effective 16-bit address.
    pub addr: u16,
}

/// The addressing-mode resolver: fetches the operand bytes the mode needs
/// from the program counter, computes the effective address, and charges the
/// exact cycles, including page-cross penalties selected by the operation
/// kind. Meaningful only for modes that yield an address.
pub open spec fn resolved(s: CpuState, m: AddressingMode, op: MemoryOperation) -> Resolution
    recommends
        wf(s),
        yields_address(m),
{
    match m {
        AddressingMode::Immediate => Resolution { state: s, addr: s.pc },
        AddressingMode::ZeroPage => Resolution {
            state: pc_advanced(s),
            addr: mem_at(s, s.pc) as u16,
        },
        AddressingMode::ZeroPageX => Resolution {
            state: ticked(pc_advanced(s), 1),
            addr: byte_add(mem_at(s, s.pc), s.x) as u16,
        },
        AddressingMode::ZeroPageY => Resolution {
            state: ticked(pc_advanced(s), 1),
            addr: byte_add(mem_at(s, s.pc), s.y) as u16,
        },
        AddressingMode::Absolute => Resolution {
            state: pc_advanced(pc_advanced(s)),
            addr: absolute_operand(s),
        },
        AddressingMode::AbsoluteX => Resolution {
            state: ticked(pc_advanced(pc_advanced(s)), offset_cycles(absolute_operand(s), s.x, op)),
            addr: word_add(absolute_operand(s), s.x as int),
        },
        AddressingMode::AbsoluteY => Resolution {
            state: ticked(pc_advanced(pc_advanced(s)), offset_cycles(absolute_operand(s), s.y, op)),
            addr: word_add(absolute_operand(s), s.y as int),
        },
        AddressingMode::IndexIndirectX => Resolution {
            state: ticked(pc_advanced(s), 3),
            addr: pointer_at(s, byte_add(mem_at(s, s.pc), s.x) as u16),
        },
        AddressingMode::IndirectIndexY => Resolution {
            state: ticked(
                pc_advanced(s),
                2 + offset_cycles(pointer_at(s, mem_at(s, s.pc) as u16), s.y, op),
            ),
            addr: word_add(pointer_at(s, mem_at(s, s.pc) as u16), s.y as int),
        },
        AddressingMode::Indirect => Resolution {
            state: ticked(pc_advanced(pc_advanced(s)), 2),
            addr: indirect_target(s, absolute_operand(s)),
        },
        AddressingMode::Implicit => Resolution { state: s, addr: 0 },
        AddressingMode::Relative => Resolution { state: s, addr: 0 },
    }
}

/// The little-endian word in the two operand bytes at the program counter.
pub open spec fn absolute_operand(s: CpuState) -> u16 {
    word_of(mem_at(s, s.pc), mem_at(s, word_add(s.pc, 1)))
}

/// The little-endian word at `ptr` and `ptr + 1`; `ptr` stays at or below
/// `0x0100`, so the plain successor address is read.
pub open spec fn pointer_at(s: CpuState, ptr: u16) -> u16 {
    word_of(mem_at(s, ptr), mem_at(s, (ptr + 1) as u16))
}

/// The target of an indirect jump through `ptr`, with the hardware page-wrap
/// quirk: when the pointer's low byte is `0xFF`, the high byte of the target
/// is read from the start of the pointer's own page instead of `ptr + 1`.
pub open spec fn indirect_target(s: CpuState, ptr: u16) -> u16 {
    if ptr % 256 == 255 {
        word_of(mem_at(s, ptr), mem_at(s, (ptr - 255) as u16))
    } else {
        word_of(mem_at(s, ptr), mem_at(s, (ptr + 1) as u16))
    }
}

/// The modes whose resolution already charges the data-access cycle through
/// the index-addition fix-up, so the memory helpers do not charge it again.
pub open spec fn extra_cycle_mode(m: AddressingMode) -> bool {
    m == AddressingMode::AbsoluteX || m == AddressingMode::AbsoluteY || m
        == AddressingMode::IndirectIndexY
}

/// A read value together with the state after the read.
pub ghost struct ReadOut {
    /// The state with the address resolution and the data read charged.
    pub state: CpuState,
    /// The byte that was read.
    pub value: u8,
}

/// The effect of reading one operand byte through an addressing mode: for
/// `Immediate` the byte at the program counter is taken and the counter
/// advances past it; otherwise the resolved address is read, with the data
/// cycle charged unless the mode's fix-up already paid it.
pub open spec fn spec_read(s: CpuState, m: AddressingMode) -> ReadOut
    recommends
        wf(s),
        yields_address(m),
{
    if m == AddressingMode::Immediate {
        ReadOut { state: pc_advanced(s), value: mem_at(s, s.pc) }
    } else {
        let r = resolved(s, m, MemoryOperation::Read);
        ReadOut {
            state: if extra_cycle_mode(m) {
                r.state
            } else {
                ticked(r.state, 1)
            },
            value: mem_at(s, r.addr),
        }
    }
}

/// Whether a read-modify-write transformation is one the supported
/// instruction set implements.
pub open spec fn supported_modification(m: MemoryModifications) -> bool {
    m == MemoryModifications::Increment || m == MemoryModifications::Decrement
}

/// The byte a read-modify-write instruction writes back.
pub open spec fn modified_value(v: u8, m: MemoryModifications) -> u8 {
    match m {
        MemoryModifications::Increment => byte_add(v, 1),
        MemoryModifications::Decrement => byte_sub(v, 1),
        MemoryModifications::RotateLeft => v,
        MemoryModifications::RotateRight => v,
    }
}

/// The effect of a read-modify-write through an addressing mode: resolve with
/// `Modify` accounting, read the byte (one cycle unless the fix-up paid it),
/// transform it (one internal cycle), write it back (one cycle).
pub open spec fn spec_modify(s: CpuState, m: AddressingMode, change: MemoryModifications) -> CpuState
    recommends
        wf(s),
        yields_address(m),
        supported_modification(change),
{
    let r = resolved(s, m, MemoryOperation::Modify);
    let s1 = if extra_cycle_mode(m) {
        r.state
    } else {
        ticked(r.state, 1)
    };
    ticked(written(ticked(s1, 1), r.addr, modified_value(mem_at(s, r.addr), change)), 1)
}

/// The effect of writing one byte through an addressing mode: resolve with
/// `Write` accounting, write, and charge the data cycle unless the mode's
/// fix-up already paid it.
pub open spec fn spec_write(s: CpuState, m: AddressingMode, value: u8) -> CpuState
    recommends
        wf(s),
        yields_address(m),
{
    let r = resolved(s, m, MemoryOperation::Write);
    let s1 = written(r.state, r.addr, value);
    if extra_cycle_mode(m) {
        s1
    } else {
        ticked(s1, 1)
    }
}

/// Whether a branch operand points backwards: bit 7 carries the direction.
pub open spec fn branch_negative(offset: u8) -> bool {
    offset >= 0x80
}

/// The distance a branch operand encodes: bits 0 to 6.
pub open spec fn branch_magnitude(offset: u8) -> u8 {
    (offset % 0x80) as u8
}

/// The program counter after a taken branch: moved by the operand's
/// magnitude, backwards when bit 7 is set, wrapping modulo 65536.
pub open spec fn branch_target(pc: u16, offset: u8) -> u16 {
    if branch_negative(offset) {
        ((pc + 0x10000 - branch_magnitude(offset)) % 0x10000) as u16
    } else {
        word_add(pc, branch_magnitude(offset) as int)
    }
}

/// Whether a taken branch leaves the current page, which costs one more
/// cycle: exactly when the low byte of the program counter wraps.
pub open spec fn branch_crossed(pc: u16, offset: u8) -> bool {
    if branch_negative(offset) {
        pc % 256 < branch_magnitude(offset)
    } else {
        pc % 256 + branch_magnitude(offset) > 255
    }
}

/// The effect of a load instruction: the byte read through the mode lands in
/// the target register, and Z and N are set from the new register value.
pub open spec fn load_step(s: CpuState, m: AddressingMode, r: Registers) -> CpuState
    recommends
        wf(s),
        yields_address(m),
{
    let rd = spec_read(s, m);
    let s1 = reg_set(rd.state, r, rd.value);
    CpuState { p: load_flags(s1.p, reg_get(s1, r)), ..s1 }
}

/// The effect of a store instruction: the register's value is written through
/// the mode; no flag changes.
pub open spec fn store_step(s: CpuState, m: AddressingMode, r: Registers) -> CpuState
    recommends
        wf(s),
        yields_address(m),
{
    spec_write(s, m, reg_get(s, r))
}

/// The effect of a compare instruction: the byte read through the mode is
/// compared with the register, setting C, Z and N; nothing else changes.
pub open spec fn cmp_step(s: CpuState, m: AddressingMode, r: Registers) -> CpuState
    recommends
        wf(s),
        yields_address(m),
{
    let rd = spec_read(s, m);
    CpuState { p: cmp_flags(rd.state.p, reg_get(rd.state, r), rd.value), ..rd.state }
}

/// The effect of a register increment or decrement: the register moves by
/// one, wrapping, one internal cycle is charged, and Z and N are set from the
/// new register value.
pub open spec fn reg_step(s: CpuState, r: Registers, up: bool) -> CpuState {
    let v = if up {
        byte_add(reg_get(s, r), 1)
    } else {
        byte_sub(reg_get(s, r), 1)
    };
    let s1 = ticked(reg_set(s, r, v), 1);
    CpuState { p: load_flags(s1.p, reg_get(s1, r)), ..s1 }
}

/// The effect of a conditional branch: the operand byte is fetched and the
/// counter advances past it; when the branch is taken, the counter then moves
/// by the operand with one extra cycle, and one more on a page cross.
pub open spec fn branch_step(s: CpuState, taken: bool) -> CpuState
    recommends
        wf(s),
{
    let operand = mem_at(s, s.pc);
    let s1 = pc_advanced(s);
    if taken {
        CpuState {
            pc: branch_target(s1.pc, operand),
            cycle: s1.cycle + 1 + if branch_crossed(s1.pc, operand) {
                1int
            } else {
                0int
            },
            ..s1
        }
    } else {
        s1
    }
}

/// The effect of an unconditional jump: the program counter becomes the
/// address the mode resolves to.
pub open spec fn jmp_step(s: CpuState, m: AddressingMode) -> CpuState
    recommends
        wf(s),
        yields_address(m),
{
    let r = resolved(s, m, MemoryOperation::Read);
    CpuState { pc: r.addr, ..r.state }
}

/// The effect of `JSR`: the two target bytes are fetched (the counter stops
/// on the second, the last byte of the instruction), that address is pushed
/// high-then-low with one internal cycle before and one after, and the
/// counter becomes the target. Six cycles with the opcode fetch.
pub open spec fn jsr_step(s: CpuState) -> CpuState
    recommends
        wf(s),
{
    let target_lo = mem_at(s, s.pc);
    let s1 = pc_advanced(s);
    let target_hi = mem_at(s1, s1.pc);
    let s2 = ticked(s1, 1);
    let s3 = push_word_step(s2, s2.pc);
    CpuState { pc: word_of(target_lo, target_hi), cycle: s3.cycle + 1, ..s3 }
}

/// The effect of `RTS`: the byte after the opcode is fetched and discarded,
/// the saved address is popped low-then-high, one internal cycle is charged,
/// and the counter advances once past the saved address. Six cycles with the
/// opcode fetch.
pub open spec fn rts_step(s: CpuState) -> CpuState
    recommends
        wf(s),
{
    let s1 = ticked(s, 1);
    let lo = mem_at(s, stack_addr(byte_add(s.sp, 1)));
    let hi = mem_at(s, stack_addr(byte_add(s.sp, 2)));
    let s2 = ticked(reg_set(s1, Registers::StackPointer, byte_add(s.sp, 2)), 2);
    pc_advanced(CpuState { pc: word_of(lo, hi), cycle: s2.cycle + 1, ..s2 })
}

/// The state after a 16-bit word was pushed onto the stack: its high byte at
/// the stack pointer's cell, its low byte one below, the stack pointer two
/// lower, the clock two cycles later.
pub open spec fn push_word_step(s: CpuState, val: u16) -> CpuState {
    ticked(
        reg_set(
            written(
                written(s, stack_addr(s.sp), hi_of(val)),
                stack_addr(byte_sub(s.sp, 1)),
                lo_of(val),
            ),
            Registers::StackPointer,
            byte_sub(s.sp, 2),
        ),
        2,
    )
}

/// The state after one byte was pushed onto the stack: the byte at the stack
/// pointer's cell in page one, the stack pointer one lower, wrapping, the
/// clock one cycle later.
pub open spec fn push_byte_step(s: CpuState, v: u8) -> CpuState {
    ticked(
        reg_set(written(s, stack_addr(s.sp), v), Registers::StackPointer, byte_sub(s.sp, 1)),
        1,
    )
}

/// The byte a pop returns: the cell one above the stack pointer, in page one.
pub open spec fn popped_byte(s: CpuState) -> u8 {
    mem_at(s, stack_addr(byte_add(s.sp, 1)))
}

/// The state after one byte was popped: the stack pointer one higher,
/// wrapping, the clock one cycle later; memory is untouched.
pub open spec fn pop_byte_step(s: CpuState) -> CpuState {
    ticked(reg_set(s, Registers::StackPointer, byte_add(s.sp, 1)), 1)
}

/// The state after a word was popped: the stack pointer two higher, wrapping,
/// the clock two cycles later; memory is untouched.
pub open spec fn pop_word_step(s: CpuState) -> CpuState {
    ticked(reg_set(s, Registers::StackPointer, byte_add(s.sp, 2)), 2)
}

/// The word a pop reconstructs: its low byte one above the stack pointer,
/// its high byte two above, little-endian as `JSR` left it.
pub open spec fn popped_word(s: CpuState) -> u16 {
    word_of(mem_at(s, stack_addr(byte_add(s.sp, 1))), mem_at(s, stack_addr(byte_add(s.sp, 2))))
}

/// The state `reset()` establishes: program counter at `0xFFFC`, stack
/// pointer, registers and clock at zero, the decimal-mode flag cleared;
/// memory and the remaining flags keep their contents.
pub open spec fn reset_state(s: CpuState) -> CpuState {
    CpuState {
        cycle: 0,
        pc: 0xFFFC,
        sp: 0,
        a: 0,
        x: 0,
        y: 0,
        p: set_mask(s.p, flag_mask(Flags::DecimalMode), false),
        mem: s.mem,
    }
}

/// The cycles still owed before the clock reaches `stop`; zero once it has.
/// The fetch-execute loop terminates because this shrinks with every
/// instruction.
pub open spec fn cycles_left(cycle: int, stop: int) -> int {
    if cycle < stop {
        stop - cycle
    } else {
        0
    }
}

/// Whether the executable cycle counter has room for `n` more cycles.
pub open spec fn room(s: CpuState, n: int) -> bool {
    s.cycle + n <= u64::MAX
}

} // verus!
