//! Real parameters (crop edges, lens coefficients, tilt) are carried through
//! the library as the 32 bits of their IEEE 754 single-precision encoding.
//! This module says what those bits mean where a decision depends on them.

use vstd::prelude::*;

verus! {

/// The encoding of `0.0`.
pub const ZERO: u32 = 0;

/// The encoding of `0.5`.
pub const HALF: u32 = 0x3f00_0000;

/// The encoding of `1.0`.
pub const ONE: u32 = 0x3f80_0000;

/// The encoding of `0.25`.
pub const QUARTER: u32 = 0x3e80_0000;

/// The encoding of `0.75`.
pub const THREE_QUARTERS: u32 = 0x3f40_0000;

/// The encoding of positive infinity, the largest magnitude that is a number.
pub const INFINITY: u32 = 0x7f80_0000;

/// The encoding of negative zero, which is also the weight of the sign bit.
pub const SIGN: u32 = 0x8000_0000;

/// The encoding of the absolute value.
pub open spec fn magnitude_of(bits: u32) -> int {
    if bits >= SIGN {
        bits - SIGN
    } else {
        bits as int
    }
}

/// Whether the bits encode no number at all.
pub open spec fn is_nan(bits: u32) -> bool {
    magnitude_of(bits) > INFINITY
}

/// Equality of the encoded numbers: the two zeros are equal, and what is no
/// number equals nothing.
pub open spec fn same_number(a: u32, b: u32) -> bool {
    &&& !is_nan(a)
    &&& !is_nan(b)
    &&& a == b || (magnitude_of(a) == 0 && magnitude_of(b) == 0)
}

/// Whether the absolute value of the number is above `bound`, the encoding
/// of a number that is not negative.
pub open spec fn beyond(bits: u32, bound: u32) -> bool {
    !is_nan(bits) && magnitude_of(bits) > bound
}

/// The encoding of the absolute value.
pub fn magnitude(bits: u32) -> (m: u32)
    ensures
        m == magnitude_of(bits),
{
    if bits >= SIGN {
        bits - SIGN
    } else {
        bits
    }
}

/// Compares two encoded numbers.
pub fn equal(a: u32, b: u32) -> (same: bool)
    ensures
        same == same_number(a, b),
{
    let ma: u32 = magnitude(a);
    let mb: u32 = magnitude(b);
    ma <= INFINITY && mb <= INFINITY && (a == b || (ma == 0 && mb == 0))
}

/// Tells whether the absolute value is above `bound`.
pub fn exceeds(bits: u32, bound: u32) -> (above: bool)
    ensures
        above == beyond(bits, bound),
{
    let m: u32 = magnitude(bits);
    m <= INFINITY && m > bound
}

} // verus!
