//! The monotonic clock that message ages are measured on.
//!
//! Time enters the queue as a count of nanoseconds since the moment a
//! handler was built. The two functions here read the clock; what they
//! return depends on when they run, so nothing is stated of it, and every
//! rule that involves time lives in a function that takes the reading as an
//! argument.

use tokio::time::Instant;
use vstd::prelude::*;

verus! {

#[verifier::external_type_specification]
#[verifier::external_body]
pub struct ExInstant(Instant);

/// `Instant::now`: the present moment, to measure later moments from.
#[verifier::external_body]
pub(crate) fn clock_start() -> Instant {
    Instant::now()
}

/// `Instant::now`, `Instant::duration_since` and `Duration::as_nanos`: the
/// nanoseconds that have passed since `epoch`, zero if the clock reads
/// earlier than `epoch`.
#[verifier::external_body]
pub(crate) fn nanos_since(epoch: &Instant) -> u128 {
    Instant::now().duration_since(*epoch).as_nanos()
}

} // verus!
