//! The random draws that generation consumes.
//!
//! Each function here hands one call to the `fastrand` crate's thread-local
//! generator. Their bodies are not verified: what is stated of a draw is only
//! the range that `fastrand` documents for it.

use vstd::prelude::*;

verus! {

/// `fastrand::u32` on the range `low..high`: some value of that range.
/// `fastrand` panics on an empty range, so one is not admitted.
#[verifier::external_body]
pub(crate) fn draw_u32(low: u32, high: u32) -> (r: u32)
    requires
        low < high,
    ensures
        low <= r < high,
{
    fastrand::u32(low..high)
}

/// `fastrand::u8` on the range `low..high`: some value of that range.
/// `fastrand` panics on an empty range, so one is not admitted.
#[verifier::external_body]
pub(crate) fn draw_u8(low: u8, high: u8) -> (r: u8)
    requires
        low < high,
    ensures
        low <= r < high,
{
    fastrand::u8(low..high)
}

/// `fastrand::bool`: either value.
#[verifier::external_body]
pub(crate) fn draw_bool() -> bool {
    fastrand::bool()
}

} // verus!
