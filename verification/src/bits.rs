//! Bit patterns of the single-precision values that the library names.
//!
//! A single-precision value is held by its IEEE-754 bit pattern. For two
//! positive finite values the greater value has the greater pattern.

use vstd::prelude::*;

verus! {

/// The pattern of 0.0.
pub const ZERO: u32 = 0;

/// The pattern of 0.5.
pub const HALF: u32 = 0x3f00_0000;

/// The pattern of 1.0.
pub const ONE: u32 = 0x3f80_0000;

/// The pattern of 2.0.
pub const TWO: u32 = 0x4000_0000;

/// The pattern of positive infinity: every positive finite value lies below it.
pub const INFINITY: u32 = 0x7f80_0000;

/// `bits` is the pattern of a finite value greater than zero.
pub open spec fn positive_finite(bits: u32) -> bool {
    0 < bits < INFINITY
}

/// Twice the product of `v` and the value of a pattern, for the patterns of
/// 0.0, 0.5 and 1.0.
pub open spec fn twice_times(bits: u32, v: int) -> int
    recommends
        bits == ZERO || bits == HALF || bits == ONE,
{
    if bits == ONE {
        2 * v
    } else if bits == HALF {
        v
    } else {
        0
    }
}

} // verus!
