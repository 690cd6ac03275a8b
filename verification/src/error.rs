//! The conditions under which the emulator refuses to go on.

use vstd::prelude::*;

verus! {

/// Why an operation of the emulator did not complete.
#[derive(Debug, Clone, Copy, PartialEq, Eq, Structural)]
pub enum CpuError {
    /// A program does not fit between its load address and the end of the
    /// address space. Nothing was copied.
    OutOfBounds,
    /// The byte fetched as an opcode has no defined instruction. Fatal: the
    /// run was aborted at that byte.
    UnknownOpcode(u8),
    /// The address resolver was asked for the operand of an instruction that
    /// has none. Fatal: a fault of the engine, not of the program.
    NonAddressing,
    /// The run would go on for ever: it never fetches the halt instruction
    /// nor an undefined opcode. No cycle was executed.
    NeverHalts,
}

} // verus!
