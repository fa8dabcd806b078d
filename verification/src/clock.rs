//! Reading the monotonic clock, for the elapsed time a search reports.

use vstd::prelude::*;

verus! {

#[verifier::external_type_specification]
#[verifier::external_body]
pub struct ExInstant(std::time::Instant);

/// Relies on std's `Instant::now`: a reading of the monotonic clock. Which
/// instant comes back depends on the machine and the moment of the call, so
/// nothing is stated of it.
#[verifier::external_body]
pub(crate) fn monotonic_now() -> (r: std::time::Instant) {
    std::time::Instant::now()
}

/// Relies on std's `Instant::elapsed` and `Duration::as_millis`: the whole
/// milliseconds since `start`. The value depends on the moment of the call,
/// so nothing is stated of it.
#[verifier::external_body]
pub(crate) fn elapsed_millis(start: &std::time::Instant) -> (r: u128) {
    start.elapsed().as_millis()
}

} // verus!
