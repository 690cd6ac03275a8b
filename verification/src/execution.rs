//! The fetch-decode-execute loop: the instruction table, what one cycle
//! does, and what a run to the halt instruction leaves behind.

use crate::addressing::operand_len;
use crate::addressing::AddressingMode;
use crate::cpu::inx_state;
use crate::cpu::lda_state;
use crate::cpu::load_state;
use crate::cpu::reset_state;
use crate::cpu::tax_state;
use crate::cpu::CpuState;
use crate::cpu::CPU;
use crate::error::CpuError;
use crate::flags::lemma_flag_rule;
use crate::flags::other_flags;
use crate::memory::next_address;
use crate::memory::ADDRESS_SPACE;
use crate::memory::PROGRAM_BASE;
use crate::wrap::add16;
use crate::wrap::wrap16;
use vstd::prelude::*;

verus! {

/// The instructions the processor knows.
#[derive(Debug, Clone, Copy, PartialEq, Eq, Structural)]
pub enum Instruction {
    /// Halt.
    Brk,
    /// Load the accumulator from the operand that the mode denotes.
    Lda(AddressingMode),
    /// Copy the accumulator into register X.
    Tax,
    /// Add one to register X.
    Inx,
}

/// Whether the run goes on after a cycle.
#[derive(Debug, Clone, Copy, PartialEq, Eq, Structural)]
pub enum Flow {
    /// The instruction was executed; the next cycle may start.
    Continue,
    /// The halt instruction was fetched; the run is over.
    Halt,
}

/// The instruction table: the instruction that an opcode byte stands for,
/// or `None` where the byte has no defined instruction.
pub open spec fn instruction_of(opcode: u8) -> Option<Instruction> {
    if opcode == 0x00 {
        Some(Instruction::Brk)
    } else if opcode == 0xA9 {
        Some(Instruction::Lda(AddressingMode::Immediate))
    } else if opcode == 0xA5 {
        Some(Instruction::Lda(AddressingMode::ZeroPage))
    } else if opcode == 0xAD {
        Some(Instruction::Lda(AddressingMode::Absolute))
    } else if opcode == 0xAA {
        Some(Instruction::Tax)
    } else if opcode == 0xE8 {
        Some(Instruction::Inx)
    } else {
        None
    }
}

/// Looks `opcode` up in the instruction table.
pub fn decode(opcode: u8) -> (instruction: Option<Instruction>)
    ensures
        instruction == instruction_of(opcode),
{
    match opcode {
        0x00 => Some(Instruction::Brk),
        0xA9 => Some(Instruction::Lda(AddressingMode::Immediate)),
        0xA5 => Some(Instruction::Lda(AddressingMode::ZeroPage)),
        0xAD => Some(Instruction::Lda(AddressingMode::Absolute)),
        0xAA => Some(Instruction::Tax),
        0xE8 => Some(Instruction::Inx),
        _ => None,
    }
}

/// The opcode byte that the next cycle fetches.
pub open spec fn next_opcode(s: CpuState) -> u8 {
    s.mem[s.pc as int]
}

/// The processor after the opcode fetch: the program counter has moved to
/// the byte after the opcode.
pub open spec fn fetched(s: CpuState) -> CpuState {
    CpuState { pc: next_address(s.pc), ..s }
}

/// The processor after one fetch-decode-execute cycle. The program counter
/// moves past the opcode and then past the operand bytes of the
/// instruction; the halt instruction and an undefined opcode change nothing
/// else.
pub open spec fn step_state(s: CpuState) -> CpuState {
    let f = fetched(s);
    match instruction_of(next_opcode(s)) {
        Some(Instruction::Lda(mode)) => {
            let loaded = lda_state(f, mode);
            CpuState { pc: wrap16(loaded.pc + operand_len(mode)), ..loaded }
        },
        Some(Instruction::Tax) => tax_state(f),
        Some(Instruction::Inx) => inx_state(f),
        Some(Instruction::Brk) => f,
        None => f,
    }
}

/// How one cycle ends: the run continues, halts, or is aborted because the
/// opcode is undefined.
pub open spec fn step_outcome(s: CpuState) -> Result<Flow, CpuError> {
    match instruction_of(next_opcode(s)) {
        Some(Instruction::Brk) => Ok(Flow::Halt),
        Some(_) => Ok(Flow::Continue),
        None => Err(CpuError::UnknownOpcode(next_opcode(s))),
    }
}

/// The next cycle ends the run: the opcode at the program counter is the
/// halt instruction or is undefined.
pub open spec fn stops(s: CpuState) -> bool {
    step_outcome(s) != Ok::<Flow, CpuError>(Flow::Continue)
}

/// The address before `addr`; the address before `0x0000` is `0xFFFF`.
pub open spec fn previous_address(addr: u16) -> u16 {
    wrap16(addr - 1)
}

/// How the run ends with a cycle that ends it: `Ok` at the halt
/// instruction, the fault at an undefined opcode.
pub open spec fn stop_outcome(s: CpuState) -> Result<(), CpuError> {
    match step_outcome(s) {
        Ok(_) => Ok(()),
        Err(e) => Err(e),
    }
}

/// The run from `s`, followed for at most `cycles` cycles: the processor
/// after the cycle that ended the run and how the run ended, or `None`
/// where none of these cycles ends it.
pub open spec fn run_within(s: CpuState, cycles: nat) -> Option<(CpuState, Result<(), CpuError>)>
    decreases cycles,
{
    if cycles == 0 {
        None
    } else if stops(s) {
        Some((step_state(s), stop_outcome(s)))
    } else {
        run_within(step_state(s), (cycles - 1) as nat)
    }
}

/// The run from `s` comes to an end: after finitely many cycles the halt
/// instruction or an undefined opcode is fetched.
pub open spec fn terminates(s: CpuState) -> bool {
    exists|cycles: nat| run_within(s, cycles) is Some
}

/// The end of the run from `s`, where that run terminates: the processor
/// after the last cycle, and `Ok` or the fault.
pub open spec fn run_end(s: CpuState) -> (CpuState, Result<(), CpuError>) {
    run_within(s, choose|cycles: nat| run_within(s, cycles) is Some).unwrap()
}

/// What `run` makes of the processor `s`: the end of the run where the run
/// terminates; where it does not, `s` as it is and `NeverHalts`.
pub open spec fn run_result(s: CpuState) -> (CpuState, Result<(), CpuError>) {
    if terminates(s) {
        run_end(s)
    } else {
        (s, Err(CpuError::NeverHalts))
    }
}

/// Following a run for longer does not change how it ended.
proof fn lemma_run_within_longer(s: CpuState, c1: nat, c2: nat)
    requires
        run_within(s, c1) is Some,
        run_within(s, c2) is Some,
    ensures
        run_within(s, c1) == run_within(s, c2),
    decreases c1,
{
    if !stops(s) {
        lemma_run_within_longer(step_state(s), (c1 - 1) as nat, (c2 - 1) as nat);
    }
}

/// A run that ends within `cycles` cycles terminates, and its end is the
/// one found within that many cycles.
pub proof fn lemma_run_ends_within(s: CpuState, cycles: nat)
    requires
        run_within(s, cycles) is Some,
    ensures
        terminates(s),
        run_within(s, cycles) == Some(run_end(s)),
{
    let chosen = choose|c: nat| run_within(s, c) is Some;
    lemma_run_within_longer(s, chosen, cycles);
}

/// Where a run ends: memory, register Y and the status bits other than
/// Zero and Negative are as they were when it started, the program counter
/// stands just after the opcode that ended the run, and that opcode is the
/// halt instruction where the run ended well, an undefined one, named in
/// the fault, where it did not.
pub proof fn lemma_run_end(s: CpuState)
    requires
        terminates(s),
    ensures
        run_end(s).0.mem == s.mem,
        run_end(s).0.y == s.y,
        other_flags(run_end(s).0.status) == other_flags(s.status),
        run_end(s).1 is Ok ==> s.mem[previous_address(run_end(s).0.pc) as int] == 0x00,
        run_end(s).1 is Err ==> run_end(s).1 == Err::<(), CpuError>(
            CpuError::UnknownOpcode(s.mem[previous_address(run_end(s).0.pc) as int]),
        ) && instruction_of(s.mem[previous_address(run_end(s).0.pc) as int]) is None,
{
    let cycles = choose|c: nat| run_within(s, c) is Some;
    lemma_run_end_within(s, cycles);
}

/// The facts of `lemma_run_end`, for a run followed for `cycles` cycles.
proof fn lemma_run_end_within(s: CpuState, cycles: nat)
    requires
        run_within(s, cycles) is Some,
    ensures
        ({
            let (end, outcome) = run_within(s, cycles).unwrap();
            let last = s.mem[previous_address(end.pc) as int];
            &&& end.mem == s.mem
            &&& end.y == s.y
            &&& other_flags(end.status) == other_flags(s.status)
            &&& outcome is Ok ==> last == 0x00
            &&& outcome is Err ==> outcome == Err::<(), CpuError>(CpuError::UnknownOpcode(last))
                && instruction_of(last) is None
        }),
    decreases cycles,
{
    lemma_step_keeps_other_flags(s);
    if !stops(s) {
        lemma_run_end_within(step_state(s), (cycles - 1) as nat);
    }
}

/// No cycle changes a status bit other than Zero and Negative.
proof fn lemma_step_keeps_other_flags(s: CpuState)
    ensures
        other_flags(step_state(s).status) == other_flags(s.status),
{
    let f = fetched(s);
    match instruction_of(next_opcode(s)) {
        Some(Instruction::Lda(mode)) => {
            lemma_flag_rule(f.status, lda_state(f, mode).a);
        },
        Some(Instruction::Tax) => {
            lemma_flag_rule(f.status, f.a);
        },
        Some(Instruction::Inx) => {
            lemma_flag_rule(f.status, inx_state(f).x);
        },
        _ => {},
    }
}

/// An undefined opcode aborts the run at once: where the byte at the
/// program counter has no instruction, the run ends with that cycle, with
/// the fault that names the byte, and with nothing changed but the program
/// counter, which has moved past the byte. The byte is not skipped and no
/// later instruction is executed.
pub proof fn lemma_undefined_opcode_aborts_run(s: CpuState)
    requires
        instruction_of(next_opcode(s)) is None,
    ensures
        terminates(s),
        run_result(s) == (
            fetched(s),
            Err::<(), CpuError>(CpuError::UnknownOpcode(next_opcode(s))),
        ),
{
    lemma_run_ends_within(s, 1);
}

impl CPU {
    /// One fetch-decode-execute cycle: fetches the opcode at the program
    /// counter, moves the program counter past it, and executes the
    /// instruction it stands for. An undefined opcode aborts the cycle with
    /// `UnknownOpcode`; it is never skipped.
    pub fn step(&mut self) -> (r: Result<Flow, CpuError>)
        ensures
            final(self)@ == step_state(old(self)@),
            r == step_outcome(old(self)@),
            instruction_of(next_opcode(old(self)@)) is None ==> r == Err::<Flow, CpuError>(
                CpuError::UnknownOpcode(next_opcode(old(self)@)),
            ) && final(self)@ == fetched(old(self)@),
    {
        let opcode: u8 = self.mem_read(self.program_counter);
        self.program_counter = add16(self.program_counter, 1);
        match decode(opcode) {
            Some(Instruction::Brk) => Ok(Flow::Halt),
            Some(Instruction::Lda(mode)) => {
                match self.lda(&mode) {
                    Ok(()) => {
                        self.program_counter = add16(
                            self.program_counter,
                            mode.operand_len() as u16,
                        );
                        Ok(Flow::Continue)
                    },
                    Err(e) => Err(e),
                }
            },
            Some(Instruction::Tax) => {
                self.tax();
                Ok(Flow::Continue)
            },
            Some(Instruction::Inx) => {
                self.inx();
                Ok(Flow::Continue)
            },
            None => Err(CpuError::UnknownOpcode(opcode)),
        }
    }

    /// Runs fetch-decode-execute cycles from the program counter until the
    /// halt instruction is fetched (`Ok`) or an undefined opcode aborts the
    /// run (`UnknownOpcode` with that byte). In both cases the program
    /// counter is left just after that opcode.
    ///
    /// A run that would never fetch either is not started: nothing changes
    /// and `NeverHalts` is returned.
    ///
    /// Whatever the outcome, memory, register Y and the status bits other
    /// than Zero and Negative are as before the run.
    pub fn run(&mut self) -> (r: Result<(), CpuError>)
        ensures
            (final(self)@, r) == run_result(old(self)@),
            r == Err::<(), CpuError>(CpuError::NeverHalts) <==> !terminates(old(self)@),
            final(self)@.mem == old(self)@.mem,
            final(self)@.y == old(self)@.y,
            other_flags(final(self)@.status) == other_flags(old(self)@.status),
            r is Ok ==> final(self)@.mem[previous_address(final(self)@.pc) as int] == 0x00,
            r is Err && terminates(old(self)@) ==> r == Err::<(), CpuError>(
                CpuError::UnknownOpcode(
                    final(self)@.mem[previous_address(final(self)@.pc) as int],
                ),
            ),
    {
        if !self.run_terminates() {
            return Err(CpuError::NeverHalts);
        }
        let ghost mut cycles: nat = choose|c: nat| run_within(old(self)@, c) is Some;
        loop
            invariant
                terminates(old(self)@),
                run_within(self@, cycles) == Some(run_end(old(self)@)),
            decreases cycles,
        {
            let flow = self.step();
            proof {
                lemma_run_end(old(self)@);
            }
            match flow {
                Ok(Flow::Continue) => {
                    proof {
                        cycles = (cycles - 1) as nat;
                    }
                },
                Ok(Flow::Halt) => {
                    return Ok(());
                },
                Err(e) => {
                    return Err(e);
                },
            }
        }
    }

    /// Loads `program`, resets the processor and runs it. A program that
    /// does not fit is refused with `OutOfBounds` before anything changes;
    /// one whose run would never end is loaded, the processor is reset, and
    /// `NeverHalts` is returned.
    pub fn load_and_run(&mut self, program: Vec<u8>) -> (r: Result<(), CpuError>)
        ensures
            PROGRAM_BASE + program@.len() <= ADDRESS_SPACE ==> (final(self)@, r) == run_result(
                reset_state(load_state(old(self)@, program@)),
            ),
            PROGRAM_BASE + program@.len() > ADDRESS_SPACE ==> r == Err::<(), CpuError>(
                CpuError::OutOfBounds,
            ) && final(self)@ == old(self)@,
            r == Err::<(), CpuError>(CpuError::OutOfBounds) <==> PROGRAM_BASE + program@.len()
                > ADDRESS_SPACE,
            final(self)@.mem == load_state(old(self)@, program@).mem,
            final(self)@.y == old(self)@.y,
    {
        match self.load(program) {
            Ok(()) => {
                self.reset();
                self.run()
            },
            Err(e) => Err(e),
        }
    }
}

} // verus!
