//! The top-level wrapper that wires a processor and a memory together.

use vstd::prelude::*;

use crate::cpu::completed_run;
use crate::cpu::halted_run;
use crate::cpu::opcode_supported;
use crate::cpu::CPU;
use crate::memory::stored;
use crate::memory::VecMemory;
use crate::model::address_space;
use crate::model::reset_state;
use crate::model::wf;
use crate::model::CpuState;

verus! {

/// A machine: one processor owning one 65,536-byte memory.
pub struct Machine {
    /// The processor, with its memory collaborator inside.
    pub cpu: CPU,
}

impl Machine {
    /// A machine over a zero-filled memory, its processor in the power-on
    /// state.
    pub fn new() -> (r: Machine)
        ensures
            wf(r.cpu@),
            r.cpu@ == (CpuState {
                cycle: 0,
                pc: 0xFFFC,
                sp: 0,
                a: 0,
                x: 0,
                y: 0,
                p: 0,
                mem: Seq::<u8>::new(address_space() as nat, |i: int| 0u8),
            }),
    {
        return Machine { cpu: CPU::new(VecMemory::new()) };
    }

    /// Loads a program, given as `(address, byte)` pairs over a zero-filled
    /// memory, and runs the processor for the cycle budget. Returns what the
    /// fetch-execute loop returned: the target clock value, or the first
    /// unsupported opcode byte.
    pub fn execute_cycles(&mut self, program: &[(u16, u8)], cycles: u64) -> (r: Result<u64, u8>)
        requires
            old(self).cpu@.cycle + cycles + 8 <= u64::MAX,
        ensures
            wf(final(self).cpu@),
            (r matches Ok(stop) ==> stop == old(self).cpu@.cycle + cycles && completed_run(
                loaded_state(old(self).cpu@, program@),
                final(self).cpu@,
                stop as int,
            ) && final(self).cpu@.cycle >= stop),
            (r matches Err(op) ==> !opcode_supported(op) && halted_run(
                loaded_state(old(self).cpu@, program@),
                final(self).cpu@,
                old(self).cpu@.cycle + cycles,
                op,
            )),
    {
        let mut memory = VecMemory::new();
        memory.store(program);
        self.cpu.set_memory(memory);
        return self.cpu.execute(cycles);
    }

    /// Returns the processor to its reset state; memory keeps its contents.
    pub fn reset(&mut self)
        ensures
            final(self).cpu@ == reset_state(old(self).cpu@),
    {
        self.cpu.reset();
    }
}

/// The processor state after a program was loaded: the registers unchanged,
/// the memory a zero-filled address space with the program's `(address,
/// byte)` pairs written in order.
pub open spec fn loaded_state(s: CpuState, program: Seq<(u16, u8)>) -> CpuState {
    CpuState { mem: stored(Seq::<u8>::new(address_space() as nat, |i: int| 0u8), program), ..s }
}

} // verus!
