//! The laws of the emulator: properties that hold of every input, stated and
//! proved over the spec model that the executable contracts use.

use vstd::prelude::*;

use crate::cpu::fetched_opcode;
use crate::cpu::lemma_handler_cycle;
use crate::cpu::spec_run_n;
use crate::cpu::spec_step;
use crate::cpu::AddressingMode;
use crate::cpu::MemoryOperation;
use crate::cpu::Registers;
use crate::model::absolute_operand;
use crate::model::byte_add;
use crate::model::byte_sub;
use crate::model::cmp_flags;
use crate::model::flag_mask;
use crate::model::flag_of;
use crate::model::get_mask;
use crate::model::indirect_target;
use crate::model::lo_of;
use crate::model::hi_of;
use crate::model::load_flags;
use crate::model::load_step;
use crate::model::mem_at;
use crate::model::page_crossed;
use crate::model::pc_advanced;
use crate::model::pointer_at;
use crate::model::pop_byte_step;
use crate::model::pop_word_step;
use crate::model::popped_byte;
use crate::model::popped_word;
use crate::model::push_byte_step;
use crate::model::push_word_step;
use crate::model::reg_get;
use crate::model::reg_set;
use crate::model::reset_state;
use crate::model::resolved;
use crate::model::set_mask;
use crate::model::spec_read;
use crate::model::stack_addr;
use crate::model::store_step;
use crate::model::wf;
use crate::model::word_of;
use crate::model::yields_address;
use crate::model::CpuState;
use crate::status::Flags;

verus! {

/// Setting a flag mask decides exactly the masked bits: after `set_mask` the
/// mask reads back as the value that was set.
proof fn lemma_mask_set_get(p: u8, m: u8, v: bool)
    requires
        m != 0,
    ensures
        get_mask(set_mask(p, m, v), m) == v,
{
    if v {
        assert((p | m) & m != 0) by (bit_vector)
            requires
                m != 0,
        ;
    } else {
        assert((p & !m) & m == 0) by (bit_vector);
    }
}

/// Setting one flag mask leaves every disjoint mask as it was.
proof fn lemma_mask_set_other(p: u8, m1: u8, m2: u8, v: bool)
    requires
        m1 & m2 == 0,
    ensures
        get_mask(set_mask(p, m2, v), m1) == get_mask(p, m1),
{
    if v {
        assert((p | m2) & m1 == p & m1) by (bit_vector)
            requires
                m1 & m2 == 0,
        ;
    } else {
        assert((p & !m2) & m1 == p & m1) by (bit_vector)
            requires
                m1 & m2 == 0,
        ;
    }
}

/// The cycle counter is monotone non-decreasing: however many instructions
/// run, and whatever they are, the clock never moves backwards.
pub proof fn lemma_cycle_monotone(s: CpuState, n: nat)
    ensures
        spec_run_n(s, n).cycle >= s.cycle,
    decreases n,
{
    if n > 0 {
        let prev = spec_run_n(s, (n - 1) as nat);
        lemma_cycle_monotone(s, (n - 1) as nat);
        lemma_handler_cycle(fetched_opcode(prev), pc_advanced(prev));
        assert(spec_run_n(s, n) == spec_step(prev));
    }
}

/// Resetting is idempotent: a second reset right after a first one changes
/// nothing.
pub proof fn lemma_reset_idempotent(s: CpuState)
    ensures
        reset_state(reset_state(s)) == reset_state(s),
{
    let p = s.p;
    assert((p & !0x08u8) & !0x08u8 == p & !0x08u8) by (bit_vector);
}

/// Load/store round trip: storing a register through a mode and then loading
/// the same register through a mode that resolves to the same effective
/// address, over the memory the store left, yields the stored value, with Z
/// and N following it. `s1` is the state before the store, `s2` the state the
/// load starts from.
pub proof fn lemma_load_store_roundtrip(
    s1: CpuState,
    s2: CpuState,
    m: AddressingMode,
    r: Registers,
    v: u8,
)
    requires
        wf(s1),
        wf(s2),
        yields_address(m),
        m != AddressingMode::Immediate,
        r == Registers::Accumulator || r == Registers::IndexX || r == Registers::IndexY,
        reg_get(s1, r) == v,
        s2.mem == store_step(s1, m, r).mem,
        resolved(s2, m, MemoryOperation::Read).addr == resolved(s1, m, MemoryOperation::Write).addr,
    ensures
        reg_get(load_step(s2, m, r), r) == v,
        flag_of(load_step(s2, m, r).p, Flags::Zero) == (v == 0),
        flag_of(load_step(s2, m, r).p, Flags::Negative) == (v & 0x80 != 0),
{
    let addr = resolved(s1, m, MemoryOperation::Write).addr;
    assert(store_step(s1, m, r).mem == s1.mem.update(addr as int, v));
    assert(spec_read(s2, m).value == v);
    lemma_load_flag_discipline(reg_set(spec_read(s2, m).state, r, v).p, v);
}

/// Push/pop inverse for one byte: popping right after a push returns the
/// pushed byte and restores the stack pointer, leaving memory as the push
/// left it.
pub proof fn lemma_push_pop_byte(s: CpuState, v: u8)
    requires
        wf(s),
    ensures
        popped_byte(push_byte_step(s, v)) == v,
        pop_byte_step(push_byte_step(s, v)).sp == s.sp,
        pop_byte_step(push_byte_step(s, v)).mem == push_byte_step(s, v).mem,
{
    assert(byte_add(byte_sub(s.sp, 1), 1) == s.sp);
}

/// Push/pop inverse for a word: popping right after a push returns the pushed
/// word and restores the stack pointer.
pub proof fn lemma_push_pop_word(s: CpuState, w: u16)
    requires
        wf(s),
    ensures
        popped_word(push_word_step(s, w)) == w,
        pop_word_step(push_word_step(s, w)).sp == s.sp,
{
    assert(byte_add(byte_sub(s.sp, 2), 1) == byte_sub(s.sp, 1));
    assert(byte_add(byte_sub(s.sp, 2), 2) == s.sp);
    assert(byte_sub(s.sp, 1) != s.sp);
    assert(stack_addr(byte_sub(s.sp, 1)) != stack_addr(s.sp));
    assert(word_of(lo_of(w), hi_of(w)) == w);
}

/// Flag discipline on loads: Z is set exactly when the loaded value is zero,
/// and N exactly when its bit 7 is set, whatever the status byte held before.
pub proof fn lemma_load_flag_discipline(p: u8, v: u8)
    ensures
        flag_of(load_flags(p, v), Flags::Zero) == (v == 0),
        flag_of(load_flags(p, v), Flags::Negative) == (v & 0x80 != 0),
{
    let z = flag_mask(Flags::Zero);
    let n = flag_mask(Flags::Negative);
    assert(0x02u8 & 0x80u8 == 0) by (bit_vector);
    lemma_mask_set_get(p, z, v == 0);
    lemma_mask_set_other(set_mask(p, z, v == 0), z, n, v & 0x80 != 0);
    lemma_mask_set_get(set_mask(p, z, v == 0), n, v & 0x80 != 0);
}

/// Compare semantics: after comparing register contents `r` with operand `m`,
/// C holds exactly when `r >= m`, Z exactly when they are equal, and N
/// exactly when the wrapped difference has bit 7 set.
pub proof fn lemma_compare_semantics(p: u8, r: u8, m: u8)
    ensures
        flag_of(cmp_flags(p, r, m), Flags::Carry) == (r >= m),
        flag_of(cmp_flags(p, r, m), Flags::Zero) == (r == m),
        flag_of(cmp_flags(p, r, m), Flags::Negative) == (byte_sub(r, m) & 0x80 != 0),
{
    let c = flag_mask(Flags::Carry);
    let z = flag_mask(Flags::Zero);
    let n = flag_mask(Flags::Negative);
    let p1 = set_mask(p, c, r >= m);
    let p2 = set_mask(p1, z, r == m);
    assert(0x01u8 & 0x02u8 == 0 && 0x01u8 & 0x80u8 == 0 && 0x02u8 & 0x80u8 == 0) by (bit_vector);
    lemma_mask_set_get(p, c, r >= m);
    lemma_mask_set_other(p1, c, z, r == m);
    lemma_mask_set_other(p2, c, n, byte_sub(r, m) & 0x80 != 0);
    lemma_mask_set_get(p1, z, r == m);
    lemma_mask_set_other(p2, z, n, byte_sub(r, m) & 0x80 != 0);
    lemma_mask_set_get(p2, n, byte_sub(r, m) & 0x80 != 0);
}

/// Page-cross cycle accounting for the indexed modes: a read resolution
/// charges the base fetches plus one cycle for the index addition, and one
/// more exactly on a page cross; modify and write resolutions always charge
/// the pessimistic extra cycle.
pub proof fn lemma_indexed_cycles(s: CpuState, op: MemoryOperation)
    ensures
        resolved(s, AddressingMode::AbsoluteX, MemoryOperation::Read).state.cycle == s.cycle + 3 + (
        if page_crossed(absolute_operand(s), s.x) {
            1int
        } else {
            0int
        }),
        resolved(s, AddressingMode::AbsoluteY, MemoryOperation::Read).state.cycle == s.cycle + 3 + (
        if page_crossed(absolute_operand(s), s.y) {
            1int
        } else {
            0int
        }),
        resolved(s, AddressingMode::IndirectIndexY, MemoryOperation::Read).state.cycle == s.cycle
            + 4 + (if page_crossed(pointer_at(s, mem_at(s, s.pc) as u16), s.y) {
            1int
        } else {
            0int
        }),
        op != MemoryOperation::Read ==> resolved(s, AddressingMode::AbsoluteX, op).state.cycle
            == s.cycle + 4,
        op != MemoryOperation::Read ==> resolved(s, AddressingMode::AbsoluteY, op).state.cycle
            == s.cycle + 4,
        op != MemoryOperation::Read ==> resolved(s, AddressingMode::IndirectIndexY, op).state.cycle
            == s.cycle + 5,
{
}

/// The indirect-jump page-wrap quirk: when the pointer's low byte is `0xFF`,
/// the high byte of the target is read from the pointer's own page base, the
/// pointer AND `0xFF00`, not from the following address.
pub proof fn lemma_indirect_jmp_wrap(s: CpuState, ptr: u16)
    requires
        ptr % 256 == 255,
    ensures
        indirect_target(s, ptr) == word_of(mem_at(s, ptr), mem_at(s, ptr & 0xFF00)),
{
    assert(ptr == (ptr & 0xFF00) + 255) by (bit_vector)
        requires
            ptr % 256 == 255,
    ;
}

} // verus!
