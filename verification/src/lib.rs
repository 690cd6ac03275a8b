//! An emulator core for a 6502-class 8-bit processor: memory, addressing-mode
//! resolution and the fetch-decode-execute loop, each with a machine-checked
//! contract over a mathematical model of the processor.
//!
//! * [`error`]: the conditions under which an operation is refused.
//! * [`memory`] and [`wrap`]: the model of the address space and of wrapping
//!   arithmetic.
//! * [`flags`]: the status register and the Zero/Negative rule.
//! * [`addressing`]: addressing modes and their effective addresses.
//! * [`cpu`]: the processor, its registers, memory access and instructions.
//! * [`execution`]: the instruction table, single cycles and whole runs.
//! * [`halting`]: deciding whether a run comes to an end.
#![allow(unused_imports)]

pub mod addressing;
pub mod cpu;
pub mod error;
pub mod execution;
pub mod flags;
pub mod halting;
pub mod memory;
pub mod wrap;

pub use addressing::AddressingMode;
pub use cpu::CPU;
pub use error::CpuError;
pub use execution::Flow;
pub use execution::Instruction;
