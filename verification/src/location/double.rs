//! Comparisons of IEEE 754 doubles, on their bit patterns.
//!
//! The top bit of a pattern is the sign; among patterns without it, the order of the patterns is
//! the order of the numbers.

use vstd::prelude::*;

verus! {

/// The pattern's sign bit.
pub const SIGN: u64 = 0x8000_0000_0000_0000;

/// The least pattern, apart from its sign, that is no finite number.
pub const INFINITE: u64 = 0x7ff0_0000_0000_0000;

/// -1.0
pub const MINUS_ONE: u64 = 0xbff0_0000_0000_0000;

/// The least finite double.
pub const LEAST: u64 = 0xffef_ffff_ffff_ffff;

/// 90.0
pub const NINETY: u64 = 0x4056_8000_0000_0000;

/// 180.0
pub const HALF_TURN: u64 = 0x4066_8000_0000_0000;

/// 360.0
pub const FULL_TURN: u64 = 0x4076_8000_0000_0000;

/// The pattern without its sign.
pub open spec fn magnitude(bits: u64) -> int {
    if bits >= SIGN {
        bits - SIGN
    } else {
        bits as int
    }
}

/// Neither infinite nor not a number.
pub open spec fn finite(bits: u64) -> bool {
    magnitude(bits) < INFINITE
}

/// Numbers compare as their ranks do; both zeros have rank zero.
pub open spec fn rank(bits: u64) -> int {
    if bits >= SIGN {
        -magnitude(bits)
    } else {
        magnitude(bits)
    }
}

pub fn is_finite(bits: u64) -> (r: bool)
    ensures
        r == finite(bits),
{
    if bits >= SIGN {
        bits - SIGN < INFINITE
    } else {
        bits < INFINITE
    }
}

/// Whether the number lies in `-limit ..= limit`.
pub fn is_within(bits: u64, limit: u64) -> (r: bool)
    requires
        limit < SIGN,
    ensures
        r == (-rank(limit) <= rank(bits) <= rank(limit)),
{
    if bits >= SIGN {
        bits - SIGN <= limit
    } else {
        bits <= limit
    }
}

/// Whether the number lies in `0.0 .. limit`. Negative zero does.
pub fn is_nonnegative_below(bits: u64, limit: u64) -> (r: bool)
    requires
        limit < SIGN,
    ensures
        r == (0 <= rank(bits) < rank(limit)),
{
    if bits >= SIGN {
        bits == SIGN && limit > 0
    } else {
        bits < limit
    }
}

pub fn is_negative(bits: u64) -> (r: bool)
    ensures
        r == (rank(bits) < 0),
{
    bits > SIGN
}

} // verus!
