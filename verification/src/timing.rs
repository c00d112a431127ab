//! Wall-clock timing for the measurement passes.
//!
//! The monotonic clock is the one capability of std that the passes need and
//! that carries no specification: nothing can be promised about what a clock
//! returns, so the two wrappers below have no `ensures` and every caller's
//! contract holds whatever readings come back. Elapsed times are reported in
//! whole milliseconds and are non-negative by type.

use vstd::prelude::*;

verus! {

/// Declares `std::time::Instant`, the opaque monotonic-clock reading that a
/// pass holds between starting and stopping its stopwatch.
#[verifier::external_type_specification]
#[verifier::external_body]
pub struct ExInstant(std::time::Instant);

/// Relies on `std::time::Instant::now`: a reading of the monotonic clock.
#[verifier::external_body]
pub(crate) fn monotonic_now() -> std::time::Instant {
    std::time::Instant::now()
}

/// Relies on `std::time::Instant::elapsed` and
/// `std::time::Duration::as_millis`: whole milliseconds of wall-clock time
/// since the reading `start` was taken.
#[verifier::external_body]
pub(crate) fn millis_since(start: &std::time::Instant) -> u128 {
    start.elapsed().as_millis()
}

} // verus!
