//! Serial (modulo 2^32) sequence-number arithmetic.
//!
//! TCP sequence numbers live in a 32-bit space that wraps around, so plain
//! `<` comparisons are wrong near the wraparound boundary.  Every comparison
//! the engine makes goes through the unsigned-difference forms below: `b` is
//! serially after `a` when `b - a` (mod 2^32) is small (below half the
//! space), and a number `x` lies in a window starting at `l` when `x - l`
//! (mod 2^32) is below the window's length.

use vstd::prelude::*;

verus! {

/// `b` comes strictly after `a` in serial order.
pub open spec fn seq_lt(a: u32, b: u32) -> bool {
    a != b && b.wrapping_sub(a) < 0x8000_0000
}

/// `b` equals `a` or comes after it in serial order.
pub open spec fn seq_le(a: u32, b: u32) -> bool {
    a == b || seq_lt(a, b)
}

/// `x` lies in the closed serial interval `[lo, hi]`.
pub open spec fn seq_between(lo: u32, x: u32, hi: u32) -> bool {
    x.wrapping_sub(lo) <= hi.wrapping_sub(lo)
}

/// `x` lies in the half-open serial window `[l, l + n)`.
pub open spec fn in_window(x: u32, l: u32, n: u32) -> bool {
    x.wrapping_sub(l) < n
}

/// Executable form of [`seq_lt`].
pub fn seq_lt_ex(a: u32, b: u32) -> (r: bool)
    ensures
        r == seq_lt(a, b),
{
    a != b && b.wrapping_sub(a) < 0x8000_0000
}

/// Executable form of [`seq_le`].
pub fn seq_le_ex(a: u32, b: u32) -> (r: bool)
    ensures
        r == seq_le(a, b),
{
    a == b || seq_lt_ex(a, b)
}

/// Executable form of [`seq_between`].
pub fn seq_between_ex(lo: u32, x: u32, hi: u32) -> (r: bool)
    ensures
        r == seq_between(lo, x, hi),
{
    x.wrapping_sub(lo) <= hi.wrapping_sub(lo)
}

/// Executable form of [`in_window`].
pub fn in_window_ex(x: u32, l: u32, n: u32) -> (r: bool)
    ensures
        r == in_window(x, l, n),
{
    x.wrapping_sub(l) < n
}

} // verus!
