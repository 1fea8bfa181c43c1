//! Random numbers.

use vstd::prelude::*;

verus! {

/// Generate a random byte from `start` up to, but not including, `end`.
///
/// This calls `fastrand::u8` on the range `start..end`. What is believed of it
/// is that the number lies in the range; which number it is depends on chance.
/// An empty range would make it panic.
#[verifier::external_body]
pub(crate) fn random_u8(start: u8, end: u8) -> (number: u8)
    requires
        start < end,
    ensures
        start <= number < end,
{
    fastrand::u8(start..end)
}

/// Generate a random number of 32 bits that is at least `start`.
///
/// This calls `fastrand::u32` on the range `start..`. What is believed of it is
/// that the number lies in the range; which number it is depends on chance.
#[verifier::external_body]
pub(crate) fn random_u32(start: u32) -> (number: u32)
    ensures
        start <= number,
{
    fastrand::u32(start..)
}

} // verus!
