//! Bits of a byte, as arithmetic.

use vstd::prelude::*;

verus! {

/// The bits that the registers have a meaning for.
pub(crate) proof fn lemma_bits_of(b: u8)
    ensures
        (b & 0x80 != 0) == (b >= 0x80),
        b & 0x7F == b % 128,
        b & 0x01 == b % 2,
        b & 0x07 == b % 8,
        (b & 0x02 != 0) == (b / 2 % 2 == 1),
        (b & 0x04 != 0) == (b / 4 % 2 == 1),
        (b & 0x08 != 0) == (b / 8 % 2 == 1),
        (b & 0x10 != 0) == (b / 16 % 2 == 1),
        b | 0x7E == 128 * (b / 128) + 0x7E + b % 2,
{
    assert((b & 0x80 != 0) == (b >= 0x80) && b & 0x7F == b % 128 && b & 0x01 == b % 2 && b & 0x07
        == b % 8 && (b & 0x02 != 0) == (b / 2 % 2 == 1) && (b & 0x04 != 0) == (b / 4 % 2 == 1) && (b
        & 0x08 != 0) == (b / 8 % 2 == 1) && (b & 0x10 != 0) == (b / 16 % 2 == 1) && b | 0x7E == 128
        * (b / 128) + 0x7E + b % 2) by (bit_vector);
}

/// The 31 bits of a timestamp.
pub(crate) proof fn lemma_timestamp(timestamp: u32)
    ensures
        timestamp & 0x7FFF_FFFF == timestamp % 0x8000_0000,
{
    assert(timestamp & 0x7FFF_FFFF == timestamp % 0x8000_0000) by (bit_vector);
}

} // verus!
