//! How the native library spells numbers in memory.
//!
//! The library runs on little-endian machines and uses two's complement for
//! signed numbers. The functions here say, as plain arithmetic, which number
//! a run of bytes stands for.

use vstd::prelude::*;

verus! {

/// The unsigned number that two bytes spell, least significant byte first.
pub open spec fn le_u16(bytes: Seq<u8>) -> int {
    bytes[0] + 0x100 * bytes[1]
}

/// The unsigned number that four bytes spell, least significant byte first.
pub open spec fn le_u32(bytes: Seq<u8>) -> int {
    bytes[0] + 0x100 * bytes[1] + 0x1_0000 * bytes[2] + 0x100_0000 * bytes[3]
}

/// The unsigned number that eight bytes spell, least significant byte first.
pub open spec fn le_u64(bytes: Seq<u8>) -> int {
    le_u32(bytes) + 0x1_0000_0000 * le_u32(bytes.skip(4))
}

/// Reads an unsigned number below `modulus` as a two's complement number:
/// the upper half of the range stands for the negative numbers.
pub open spec fn as_signed(value: int, modulus: int) -> int {
    if 2 * value < modulus {
        value
    } else {
        value - modulus
    }
}

} // verus!
