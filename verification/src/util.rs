//! Minimum, maximum, and clamping on fixed-width integers.
//!
//! Ties go the same way in every variant: `mini`/`minu` return the second
//! operand when the two are equal, and so do `maxi`/`maxu`.

use vstd::prelude::*;

verus! {

/// Smaller of two signed values; the second operand on a tie.
pub fn mini(a: i32, b: i32) -> (r: i32)
    ensures
        r == if a < b { a } else { b },
        r <= a && r <= b,
        r == a || r == b,
{
    if a < b {
        a
    } else {
        b
    }
}

/// Larger of two signed values; the second operand on a tie.
pub fn maxi(a: i32, b: i32) -> (r: i32)
    ensures
        r == if a > b { a } else { b },
        r >= a && r >= b,
        r == a || r == b,
{
    if a > b {
        a
    } else {
        b
    }
}

/// Signed value clamped into `[lo, hi]`; the result always lies in that
/// interval when `lo <= hi`.
pub fn clampi(x: i32, lo: i32, hi: i32) -> (r: i32)
    ensures
        r == if x < lo { lo } else if x > hi { hi } else { x },
        lo <= hi ==> lo <= r && r <= hi,
{
    if x < lo {
        lo
    } else if x > hi {
        hi
    } else {
        x
    }
}

/// Smaller of two unsigned values; the second operand on a tie.
pub fn minu(a: u32, b: u32) -> (r: u32)
    ensures
        r == if a < b { a } else { b },
        r <= a && r <= b,
        r == a || r == b,
{
    if a < b {
        a
    } else {
        b
    }
}

/// Larger of two unsigned values; the second operand on a tie.
pub fn maxu(a: u32, b: u32) -> (r: u32)
    ensures
        r == if a > b { a } else { b },
        r >= a && r >= b,
        r == a || r == b,
{
    if a > b {
        a
    } else {
        b
    }
}

/// Unsigned value clamped into `[lo, hi]`; the result always lies in that
/// interval when `lo <= hi`.
pub fn clampu(x: u32, lo: u32, hi: u32) -> (r: u32)
    ensures
        r == if x < lo { lo } else if x > hi { hi } else { x },
        lo <= hi ==> lo <= r && r <= hi,
{
    if x < lo {
        lo
    } else if x > hi {
        hi
    } else {
        x
    }
}

} // verus!
