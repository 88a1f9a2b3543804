//! Arithmetic modulo a power of two, and the interval tests of the skip
//! instructions.

use vstd::prelude::*;

verus! {

/// `v` reduced modulo 2^8.
pub open spec fn wrap8(v: int) -> u8 {
    (v % 0x100) as u8
}

/// `v` reduced modulo 2^16.
pub open spec fn wrap16(v: int) -> u16 {
    (v % 0x1_0000) as u16
}

/// `a` starts before `b` and reaches past it.
pub open spec fn overlap_before(a: u8, b: u8) -> bool {
    a < b && wrap8(a + 8) > b
}

/// `a` starts before the far edge of `b`, taken modulo 64, and reaches past
/// it.
pub open spec fn overlap_after(a: u8, b: u8) -> bool {
    let edge = (b + 8) % 64;
    a < edge && a + 8 > edge
}

/// Either overlap test holds, or the two values are equal.
pub open spec fn collide(a: u8, b: u8) -> bool {
    overlap_before(a, b) || overlap_after(a, b) || a == b
}

/// Whether `a` starts before `b` and reaches past it.
pub(crate) fn overlaps_before(a: u8, b: u8) -> (hit: bool)
    ensures
        hit == overlap_before(a, b),
{
    a < b && a.wrapping_add(8) > b
}

/// Whether `a` starts before the far edge of `b`, taken modulo 64, and
/// reaches past it.
pub(crate) fn overlaps_after(a: u8, b: u8) -> (hit: bool)
    ensures
        hit == overlap_after(a, b),
{
    let edge = b.wrapping_add(8) % 64;
    a < edge && a + 8 > edge
}

} // verus!
