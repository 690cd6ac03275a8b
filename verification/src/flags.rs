//! The processor status register and the rule by which a result byte sets
//! its Zero and Negative bits.

use vstd::prelude::*;

verus! {

/// Bit 1 of the status register: the last result was zero.
pub const ZERO_FLAG: u8 = 0b0000_0010;

/// Bit 7 of the status register: bit 7 of the last result was set.
pub const NEGATIVE_FLAG: u8 = 0b1000_0000;

/// Whether the Zero bit of `status` is set.
pub open spec fn zero_flag(status: u8) -> bool {
    status & ZERO_FLAG != 0
}

/// Whether the Negative bit of `status` is set.
pub open spec fn negative_flag(status: u8) -> bool {
    status & NEGATIVE_FLAG != 0
}

/// The six bits of `status` that are neither Zero nor Negative.
pub open spec fn other_flags(status: u8) -> u8 {
    status & !(ZERO_FLAG | NEGATIVE_FLAG)
}

/// The status register after a flag-updating instruction produced `result`:
/// the Zero and Negative bits are recomputed from `result`, the six other
/// bits are those of `status`.
pub open spec fn with_zero_negative(status: u8, result: u8) -> u8 {
    let zero = if result == 0 {
        ZERO_FLAG
    } else {
        0u8
    };
    let negative = result & NEGATIVE_FLAG;
    other_flags(status) | zero | negative
}

/// The flag rule: after an update from `result`, Zero is set exactly when
/// `result` is zero, Negative exactly when `result` is at least `0x80`, and
/// every other bit of the status register is as it was.
pub proof fn lemma_flag_rule(status: u8, result: u8)
    by (bit_vector)
    ensures
        zero_flag(with_zero_negative(status, result)) <==> result == 0,
        negative_flag(with_zero_negative(status, result)) <==> result >= 0x80,
        other_flags(with_zero_negative(status, result)) == other_flags(status),
{
}

} // verus!
