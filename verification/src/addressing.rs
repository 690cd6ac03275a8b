//! Addressing modes and the effective address each of them denotes.

use crate::memory::word;
use crate::memory::word_at;
use crate::wrap::wrap16;
use crate::wrap::wrap8;
use vstd::prelude::*;

verus! {

/// The ways in which an instruction locates its operand.
#[derive(Debug, Clone, Copy, PartialEq, Eq, Structural)]
#[allow(non_camel_case_types)]
pub enum AddressingMode {
    /// The operand is the byte that follows the opcode.
    Immediate,
    /// The byte that follows the opcode is an address in page zero.
    ZeroPage,
    /// As `ZeroPage`, with register X added within page zero.
    ZeroPage_X,
    /// As `ZeroPage`, with register Y added within page zero.
    ZeroPage_Y,
    /// The word that follows the opcode is the address.
    Absolute,
    /// As `Absolute`, with register X added.
    Absolute_X,
    /// As `Absolute`, with register Y added.
    Absolute_Y,
    /// The byte that follows the opcode, plus register X within page zero,
    /// points at a word in page zero that is the address.
    Indirect_X,
    /// The byte that follows the opcode points at a word in page zero;
    /// that word plus register Y is the address.
    Indirect_Y,
    /// The instruction has no memory operand.
    NonAddressing,
}

/// The word whose low byte lies at the page-zero address `ptr` and whose
/// high byte lies at the page-zero address after it. After `0xFF` comes
/// `0x00`: the high byte is never fetched from page one.
pub open spec fn zero_page_word_at(mem: Seq<u8>, ptr: u8) -> u16 {
    word(mem[ptr as int], mem[wrap8(ptr + 1) as int])
}

/// The address an instruction operates on, given its addressing mode, the
/// program counter (which points at the instruction's operand bytes), the two
/// index registers and memory. `NonAddressing` denotes no address.
pub open spec fn effective_address(
    mode: AddressingMode,
    pc: u16,
    x: u8,
    y: u8,
    mem: Seq<u8>,
) -> Option<u16> {
    match mode {
        AddressingMode::Immediate => Some(pc),
        AddressingMode::ZeroPage => Some(mem[pc as int] as u16),
        AddressingMode::ZeroPage_X => Some(wrap8(mem[pc as int] + x) as u16),
        AddressingMode::ZeroPage_Y => Some(wrap8(mem[pc as int] + y) as u16),
        AddressingMode::Absolute => Some(word_at(mem, pc)),
        AddressingMode::Absolute_X => Some(wrap16(word_at(mem, pc) + x)),
        AddressingMode::Absolute_Y => Some(wrap16(word_at(mem, pc) + y)),
        AddressingMode::Indirect_X => Some(
            zero_page_word_at(mem, wrap8(mem[pc as int] + x)),
        ),
        AddressingMode::Indirect_Y => Some(
            wrap16(zero_page_word_at(mem, mem[pc as int]) + y),
        ),
        AddressingMode::NonAddressing => None,
    }
}

/// Number of operand bytes that follow the opcode of an instruction with
/// this addressing mode.
pub open spec fn operand_len(mode: AddressingMode) -> u8 {
    match mode {
        AddressingMode::Immediate => 1,
        AddressingMode::ZeroPage => 1,
        AddressingMode::ZeroPage_X => 1,
        AddressingMode::ZeroPage_Y => 1,
        AddressingMode::Absolute => 2,
        AddressingMode::Absolute_X => 2,
        AddressingMode::Absolute_Y => 2,
        AddressingMode::Indirect_X => 1,
        AddressingMode::Indirect_Y => 1,
        AddressingMode::NonAddressing => 0,
    }
}

impl AddressingMode {
    /// Number of operand bytes that follow the opcode.
    pub fn operand_len(&self) -> (len: u8)
        ensures
            len == operand_len(*self),
    {
        match self {
            AddressingMode::Immediate
            | AddressingMode::ZeroPage
            | AddressingMode::ZeroPage_X
            | AddressingMode::ZeroPage_Y
            | AddressingMode::Indirect_X
            | AddressingMode::Indirect_Y => 1,
            AddressingMode::Absolute | AddressingMode::Absolute_X | AddressingMode::Absolute_Y => 2,
            AddressingMode::NonAddressing => 0,
        }
    }
}

/// Zero-page indexed addressing wraps within page zero: whatever the base
/// byte and the index register hold, the effective address is their sum
/// modulo 256, an address below `0x100`.
pub proof fn lemma_zero_page_indexed_stays_in_page_zero(pc: u16, x: u8, y: u8, mem: Seq<u8>)
    ensures
        effective_address(AddressingMode::ZeroPage_X, pc, x, y, mem) == Some(
            ((mem[pc as int] + x) % 0x100) as u16,
        ),
        effective_address(AddressingMode::ZeroPage_Y, pc, x, y, mem) == Some(
            ((mem[pc as int] + y) % 0x100) as u16,
        ),
        effective_address(AddressingMode::ZeroPage_X, pc, x, y, mem).unwrap() < 0x100,
        effective_address(AddressingMode::ZeroPage_Y, pc, x, y, mem).unwrap() < 0x100,
{
}

/// The pointer of the two indirect modes is followed within page zero:
/// its low byte comes from the pointer's address and its high byte from the
/// page-zero address after it, which for a pointer of `0xFF` is `0x00`, not
/// `0x100`.
pub proof fn lemma_indirect_pointer_wraps_in_page_zero(pc: u16, x: u8, y: u8, mem: Seq<u8>)
    ensures
        ({
            let ptr = mem[pc as int];
            &&& effective_address(AddressingMode::Indirect_Y, pc, x, y, mem) == Some(
                wrap16(word(mem[ptr as int], mem[(ptr + 1) % 0x100]) + y),
            )
            &&& ptr == 0xFF ==> effective_address(AddressingMode::Indirect_Y, pc, x, y, mem)
                == Some(wrap16(word(mem[0xFF], mem[0x00]) + y))
        }),
        ({
            let ptr = wrap8(mem[pc as int] + x);
            &&& effective_address(AddressingMode::Indirect_X, pc, x, y, mem) == Some(
                word(mem[ptr as int], mem[(ptr + 1) % 0x100]),
            )
            &&& ptr == 0xFF ==> effective_address(AddressingMode::Indirect_X, pc, x, y, mem)
                == Some(word(mem[0xFF], mem[0x00]))
        }),
{
}

} // verus!
