//! Unsigned arithmetic that wraps within its operand width: sums of
//! registers and page-zero addresses are taken modulo 256, sums of
//! addresses modulo 65536.

use vstd::prelude::*;

verus! {

/// `n` modulo 256: the byte an 8-bit register holds after wrapping.
pub open spec fn wrap8(n: int) -> u8 {
    (n % 0x100) as u8
}

/// `n` modulo 65536: the address a 16-bit register holds after wrapping.
pub open spec fn wrap16(n: int) -> u16 {
    (n % 0x10000) as u16
}

/// The 8-bit sum of `a` and `b`.
pub(crate) fn add8(a: u8, b: u8) -> (sum: u8)
    ensures
        sum == wrap8(a + b),
{
    a.wrapping_add(b)
}

/// The 16-bit sum of `a` and `b`.
pub(crate) fn add16(a: u16, b: u16) -> (sum: u16)
    ensures
        sum == wrap16(a + b),
{
    a.wrapping_add(b)
}

} // verus!
