//! Reading the monotonic clock (std).
//!
//! What the clock shows depends on when it is read, so nothing is stated of
//! the readings; comparing two durations depends on the durations alone.

use std::time::{Duration, Instant};
use vstd::prelude::*;

verus! {

#[verifier::external_type_specification]
#[verifier::external_body]
pub struct ExInstant(Instant);

/// Calls `Instant::now`.
#[verifier::external_body]
pub(crate) fn now() -> Instant {
    Instant::now()
}

/// `d` is a reading of the time elapsed since `since`: a result that
/// `elapsed(&since)` can return.
pub closed spec fn elapsed_reading(since: Instant, d: Duration) -> bool {
    call_ensures(elapsed, (&since,), d)
}

/// Reads the time elapsed since `since`.
pub(crate) fn read_elapsed(since: &Instant) -> (d: Duration)
    ensures
        elapsed_reading(*since, d),
{
    elapsed(since)
}

/// Calls `Instant::elapsed`.
#[verifier::external_body]
pub(crate) fn elapsed(since: &Instant) -> Duration {
    since.elapsed()
}

/// Whether the duration `d` is at least `bound` (`Duration`'s `>=`).
pub uninterp spec fn duration_ge(d: Duration, bound: Duration) -> bool;

/// Calls `<Duration as PartialOrd>::ge`.
#[verifier::external_body]
pub(crate) fn duration_at_least(d: &Duration, bound: &Duration) -> (r: bool)
    ensures
        r == duration_ge(*d, *bound),
{
    *d >= *bound
}

} // verus!
