//! The mathematical model of the 64 KiB address space: a sequence of
//! `ADDRESS_SPACE` bytes, read and written one byte or one little-endian
//! 16-bit word at a time.

use crate::wrap::wrap16;
use vstd::prelude::*;

verus! {

/// Number of bytes in the address space; every `u16` is a valid address.
pub const ADDRESS_SPACE: usize = 0x10000;

/// Address at which `load` places a program.
pub const PROGRAM_BASE: u16 = 0x8000;

/// Address of the little-endian word that `reset` copies into the program
/// counter.
pub const RESET_VECTOR: u16 = 0xFFFC;

/// A sequence of bytes is a memory image when it covers the whole address
/// space.
pub open spec fn is_memory(mem: Seq<u8>) -> bool {
    mem.len() == ADDRESS_SPACE
}

/// The memory image in which every byte is zero.
pub open spec fn zeroed() -> Seq<u8> {
    Seq::new(ADDRESS_SPACE as nat, |i: int| 0u8)
}

/// The address after `addr`; the address after `0xFFFF` is `0x0000`.
pub open spec fn next_address(addr: u16) -> u16 {
    wrap16(addr + 1)
}

/// The 16-bit value whose low byte is `lo` and whose high byte is `hi`.
pub open spec fn word(lo: u8, hi: u8) -> u16 {
    (lo + 256 * hi) as u16
}

/// The low byte of `value`.
pub open spec fn low_byte(value: u16) -> u8 {
    (value % 256) as u8
}

/// The high byte of `value`.
pub open spec fn high_byte(value: u16) -> u8 {
    (value / 256) as u8
}

/// The little-endian word stored at `addr`: low byte at `addr`, high byte at
/// the next address.
pub open spec fn word_at(mem: Seq<u8>, addr: u16) -> u16 {
    word(mem[addr as int], mem[next_address(addr) as int])
}

/// `mem` after `value` was stored at `addr` as a little-endian word.
pub open spec fn store_word(mem: Seq<u8>, addr: u16, value: u16) -> Seq<u8> {
    mem.update(addr as int, low_byte(value)).update(next_address(addr) as int, high_byte(value))
}

/// `mem` after `bytes` were copied to the addresses `at`, `at + 1`, ...;
/// every other address keeps its byte.
pub open spec fn store_bytes(mem: Seq<u8>, at: u16, bytes: Seq<u8>) -> Seq<u8> {
    Seq::new(
        mem.len(),
        |i: int|
            if at <= i < at + bytes.len() {
                bytes[i - at]
            } else {
                mem[i]
            },
    )
}

/// A word is made of its own low and high bytes.
pub proof fn lemma_word_of_bytes(value: u16)
    ensures
        word(low_byte(value), high_byte(value)) == value,
{
}

/// Round trip: a word stored at any address is the word read back from that
/// address, also at `0xFFFF`, where the high byte lies at `0x0000`.
pub proof fn lemma_store_word_round_trip(mem: Seq<u8>, addr: u16, value: u16)
    requires
        is_memory(mem),
    ensures
        word_at(store_word(mem, addr, value), addr) == value,
        is_memory(store_word(mem, addr, value)),
{
    lemma_word_of_bytes(value);
}

} // verus!
