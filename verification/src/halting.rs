//! Whether a run comes to an end. No instruction writes memory or jumps, so
//! the addresses at which a run fetches its opcodes depend on memory and the
//! starting program counter alone, and a run that has not stopped after one
//! fetch per address never stops.

use crate::addressing::operand_len;
use crate::cpu::CpuState;
use crate::cpu::CPU;
use crate::execution::decode;
use crate::execution::instruction_of;
use crate::execution::step_state;
use crate::execution::run_within;
use crate::execution::stops;
use crate::execution::terminates;
use crate::execution::Instruction;
use crate::memory::next_address;
use crate::memory::ADDRESS_SPACE;
use crate::wrap::add16;
use crate::wrap::wrap16;
use vstd::prelude::*;
use vstd::relations::injective_on;
use vstd::set_lib::lemma_int_range;
use vstd::set_lib::lemma_len_subset;
use vstd::set_lib::lemma_map_size;
use vstd::set_lib::set_int_range;

verus! {

/// The cycle that fetches its opcode at `pc` ends the run: the byte there
/// is the halt instruction or is undefined.
spec fn ends_run_at(mem: Seq<u8>, pc: u16) -> bool {
    instruction_of(mem[pc as int]) is None || instruction_of(mem[pc as int]) == Some(
        Instruction::Brk,
    )
}

/// Where the cycle after the one that fetches at `pc` fetches its opcode:
/// past the opcode at `pc` and its operand bytes.
spec fn next_fetch(mem: Seq<u8>, pc: u16) -> u16 {
    match instruction_of(mem[pc as int]) {
        Some(Instruction::Lda(mode)) => wrap16(next_address(pc) + operand_len(mode)),
        _ => next_address(pc),
    }
}

/// The address at which cycle number `n` of a run fetches its opcode,
/// counting from cycle 0, which fetches at `pc`, in a run that goes on for
/// that long.
spec fn fetch_address(mem: Seq<u8>, pc: u16, n: nat) -> u16
    decreases n,
{
    if n == 0 {
        pc
    } else {
        fetch_address(mem, next_fetch(mem, pc), (n - 1) as nat)
    }
}

/// One cycle leaves memory as it is, moves the program counter to the next
/// fetch address, and ends the run exactly where `ends_run_at` says.
proof fn lemma_step_follows_fetches(s: CpuState)
    ensures
        step_state(s).mem == s.mem,
        step_state(s).pc == next_fetch(s.mem, s.pc),
        stops(s) <==> ends_run_at(s.mem, s.pc),
{
}

/// Cycle `a + b` of a run fetches where cycle `b` of the run that starts at
/// the fetch address of cycle `a` does.
proof fn lemma_fetch_address_add(mem: Seq<u8>, pc: u16, a: nat, b: nat)
    ensures
        fetch_address(mem, pc, a + b) == fetch_address(mem, fetch_address(mem, pc, a), b),
    decreases a,
{
    if a > 0 {
        lemma_fetch_address_add(mem, next_fetch(mem, pc), (a - 1) as nat, b);
    }
}

/// A run that ends within `cycles` cycles has a cycle, among the first
/// `cycles`, whose fetch ends the run.
proof fn lemma_end_has_cycle(s: CpuState, cycles: nat) -> (k: nat)
    requires
        run_within(s, cycles) is Some,
    ensures
        k < cycles,
        ends_run_at(s.mem, fetch_address(s.mem, s.pc, k)),
    decreases cycles,
{
    lemma_step_follows_fetches(s);
    if stops(s) {
        0
    } else {
        let k = lemma_end_has_cycle(step_state(s), (cycles - 1) as nat);
        k + 1
    }
}

/// A run with a cycle `k` whose fetch ends it ends within any number of
/// cycles above `k`.
proof fn lemma_cycle_ends_run(s: CpuState, k: nat, cycles: nat)
    requires
        k < cycles,
        ends_run_at(s.mem, fetch_address(s.mem, s.pc, k)),
    ensures
        run_within(s, cycles) is Some,
    decreases k,
{
    lemma_step_follows_fetches(s);
    if !stops(s) {
        lemma_cycle_ends_run(step_state(s), (k - 1) as nat, (cycles - 1) as nat);
    }
}

/// Among the first `ADDRESS_SPACE + 1` cycles of a run, two fetch at the
/// same address: there are only `ADDRESS_SPACE` addresses.
proof fn lemma_fetch_address_repeats(mem: Seq<u8>, pc: u16) -> (r: (nat, nat))
    ensures
        r.0 < r.1 <= ADDRESS_SPACE,
        fetch_address(mem, pc, r.0) == fetch_address(mem, pc, r.1),
{
    let f = |k: int| fetch_address(mem, pc, k as nat) as int;
    let cycles = set_int_range(0, ADDRESS_SPACE + 1);
    let addresses = set_int_range(0, ADDRESS_SPACE as int);
    lemma_int_range(0, ADDRESS_SPACE + 1);
    lemma_int_range(0, ADDRESS_SPACE as int);
    if injective_on(f, cycles) {
        let fetched = cycles.map(f);
        lemma_map_size(cycles, fetched, f);
        assert(fetched.subset_of(addresses));
        lemma_len_subset(fetched, addresses);
        assert(false);
    }
    let (i, j) = choose|i: int, j: int|
        cycles.contains(i) && cycles.contains(j) && #[trigger] f(i) == #[trigger] f(j) && i != j;
    if i < j {
        (i as nat, j as nat)
    } else {
        (j as nat, i as nat)
    }
}

/// Whatever cycle `k` fetches was already fetched by one of the first
/// `ADDRESS_SPACE` cycles.
proof fn lemma_fetch_address_seen_early(mem: Seq<u8>, pc: u16, k: nat) -> (early: nat)
    ensures
        early < ADDRESS_SPACE,
        fetch_address(mem, pc, early) == fetch_address(mem, pc, k),
    decreases k,
{
    if k < ADDRESS_SPACE {
        k
    } else {
        let (i, j) = lemma_fetch_address_repeats(mem, pc);
        let rest = (k - j) as nat;
        lemma_fetch_address_add(mem, pc, j, rest);
        lemma_fetch_address_add(mem, pc, i, rest);
        lemma_fetch_address_seen_early(mem, pc, i + rest)
    }
}

/// A run that terminates does so within one cycle per address: where the
/// first `ADDRESS_SPACE` cycles do not end the run, no later cycle will.
pub proof fn lemma_terminating_run_is_short(s: CpuState)
    requires
        terminates(s),
    ensures
        run_within(s, ADDRESS_SPACE as nat) is Some,
{
    let cycles = choose|cycles: nat| run_within(s, cycles) is Some;
    let k = lemma_end_has_cycle(s, cycles);
    let early = lemma_fetch_address_seen_early(s.mem, s.pc, k);
    lemma_cycle_ends_run(s, early, ADDRESS_SPACE as nat);
}

impl CPU {
    /// Whether the run that would start now comes to an end, at the halt
    /// instruction or at an undefined opcode. Follows the opcodes from the
    /// program counter without executing them; nothing changes.
    pub fn run_terminates(&self) -> (b: bool)
        ensures
            b == terminates(self@),
    {
        let mut pc: u16 = self.program_counter;
        let mut n: usize = 0;
        while n < ADDRESS_SPACE
            invariant
                n <= ADDRESS_SPACE,
                pc == fetch_address(self@.mem, self@.pc, n as nat),
                forall|k: nat|
                    k < n ==> !ends_run_at(
                        self@.mem,
                        #[trigger] fetch_address(self@.mem, self@.pc, k),
                    ),
            decreases ADDRESS_SPACE - n,
        {
            proof {
                lemma_fetch_address_add(self@.mem, self@.pc, n as nat, 1);
                assert(fetch_address(self@.mem, pc, 1) == next_fetch(self@.mem, pc)) by {
                    reveal_with_fuel(fetch_address, 2);
                }
            }
            match decode(self.mem_read(pc)) {
                None | Some(Instruction::Brk) => {
                    proof {
                        lemma_cycle_ends_run(self@, n as nat, (n + 1) as nat);
                    }
                    return true;
                },
                Some(Instruction::Lda(mode)) => {
                    pc = add16(add16(pc, 1), mode.operand_len() as u16);
                },
                Some(Instruction::Tax) | Some(Instruction::Inx) => {
                    pc = add16(pc, 1);
                },
            }
            n += 1;
        }
        proof {
            if terminates(self@) {
                lemma_terminating_run_is_short(self@);
                let k = lemma_end_has_cycle(self@, ADDRESS_SPACE as nat);
                assert(!ends_run_at(self@.mem, fetch_address(self@.mem, self@.pc, k)));
            }
        }
        false
    }
}

} // verus!
