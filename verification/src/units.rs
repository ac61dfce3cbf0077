//! Fixed-point scalars.
//!
//! Every analog quantity (stick deflection, trigger travel, thresholds) is an
//! `i32` counting millionths, so that `UNIT` stands for 1.0.

use vstd::prelude::*;

verus! {

/// One whole, in millionths.
pub const UNIT: i32 = 1_000_000;

/// One half, in millionths.
pub const HALF: i32 = 500_000;

/// `v` limited to the closed interval from `lo` to `hi`.
pub open spec fn clamp_int(v: int, lo: int, hi: int) -> int {
    if v < lo {
        lo
    } else if v > hi {
        hi
    } else {
        v
    }
}

/// The magnitude of `v`.
pub open spec fn magnitude(v: int) -> int {
    if v < 0 {
        -v
    } else {
        v
    }
}

/// Limits `v` to the closed interval from `lo` to `hi`.
pub fn clamp(v: i32, lo: i32, hi: i32) -> (r: i32)
    requires
        lo <= hi,
    ensures
        r == clamp_int(v as int, lo as int, hi as int),
{
    if v < lo {
        lo
    } else if v > hi {
        hi
    } else {
        v
    }
}

} // verus!
