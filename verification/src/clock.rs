//! The monotonic clock, as far as the library reads it.
//!
//! The library never computes with a clock reading. It keeps readings,
//! asks how long ago one was taken, and leaves every decision that depends
//! on the answer to a function that takes the answer as an argument.

use vstd::prelude::*;

verus! {

/// `std::time::Instant`, a reading of the monotonic clock. Nothing is
/// known of what a reading holds.
#[verifier::external_type_specification]
#[verifier::external_body]
pub struct ExInstant(std::time::Instant);

/// `Instant::now` reads the monotonic clock. Nothing is promised of the
/// reading.
pub assume_specification[ std::time::Instant::now ]() -> (now: std::time::Instant);

/// `Instant::elapsed` gives the time that has passed since the reading was
/// taken. Nothing is promised of the amount.
pub assume_specification[ std::time::Instant::elapsed ](
    since: &std::time::Instant,
) -> (d: std::time::Duration);

/// `Duration::as_nanos` gives the whole number of nanoseconds in the
/// duration. A duration is opaque here, so nothing is promised of the
/// number.
pub assume_specification[ std::time::Duration::as_nanos ](d: &std::time::Duration) -> (n: u128);

/// Nanoseconds that have passed since `since` was read from the clock.
pub(crate) fn nanos_since(since: &std::time::Instant) -> u128 {
    let d = since.elapsed();
    d.as_nanos()
}

} // verus!
