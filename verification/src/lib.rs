//! A cycle-accurate functional emulator of the MOS 6502 8-bit microprocessor.
//!
//! Given a memory image and a cycle budget, the [`CPU`] executes machine-code
//! instructions while reproducing the processor's architectural state
//! transitions and the exact number of bus cycles each instruction consumes,
//! including the documented quirks: page-cross penalties, the indirect-JMP
//! page-wrap bug, and stack wrap inside page one.
//!
//! The intended behaviour of every operation is written down once, as spec
//! functions over [`model::CpuState`], and each executable function is proved
//! to realise exactly the corresponding state transformer.

pub mod cpu;
pub mod instructions;
pub mod laws;
pub mod machine;
pub mod memory;
pub mod model;
pub mod status;

pub use cpu::AddressingMode;
pub use cpu::MemoryModifications;
pub use cpu::MemoryOperation;
pub use cpu::Registers;
pub use cpu::CPU;
pub use machine::Machine;
pub use memory::VecMemory;
pub use status::Flags;
pub use status::ProcessorStatus;
