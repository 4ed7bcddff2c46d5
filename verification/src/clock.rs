//! Points in time, as `std::time::Instant` gives them.
//!
//! Nothing in this module is proved. The functions of `std::time` that the handler relies on
//! get their results named here, so that contracts can say which instant a deadline is.

use std::time::{Duration, Instant};
use vstd::prelude::*;

verus! {

/// `std::time::Instant`: a reading of the monotonic clock, of which nothing is seen but whether
/// two readings are equal.
#[verifier::external_type_specification]
#[verifier::external_body]
pub struct ExInstant(std::time::Instant);

/// The `Duration` that `Duration::from_secs` makes of a number of whole seconds.
pub uninterp spec fn duration_of_secs(secs: u64) -> Duration;

/// What `Instant::checked_add` returns: the instant that lies `duration` after `start`, or `None`
/// where the clock cannot represent it.
pub uninterp spec fn instant_plus(start: Instant, duration: Duration) -> Option<Instant>;

/// `Instant::now`: the current reading of the monotonic clock. Nothing is claimed of it.
#[verifier::external_body]
pub(crate) fn instant_now() -> Instant {
    Instant::now()
}

/// `Duration::from_secs`: the duration of that many whole seconds.
#[verifier::external_body]
pub(crate) fn duration_from_secs(secs: u64) -> (duration: Duration)
    ensures
        duration == duration_of_secs(secs),
{
    Duration::from_secs(secs)
}

/// `Instant::checked_add`: the instant `duration` after `start`, `None` where there is none.
#[verifier::external_body]
pub(crate) fn instant_checked_add(start: Instant, duration: Duration) -> (end: Option<Instant>)
    ensures
        end == instant_plus(start, duration),
{
    start.checked_add(duration)
}

} // verus!
