//! Monotonic time stamps and durations, as the capture pipeline reads them.
use vstd::prelude::*;

use std::time::Duration;
use std::time::Instant;

verus! {

/// `std::time::Instant`, carried through the library as an opaque value.
#[verifier::external_type_specification]
#[verifier::external_body]
pub struct ExInstant(Instant);

/// `Instant` is `Copy`: its `clone` returns the same instant.
pub assume_specification[ <Instant as Clone>::clone ](i: &Instant) -> (r: Instant)
    ensures
        r == *i,
;

/// Calls `std::time::Instant::now`. Nothing is claimed of the result: it is
/// the reading of the machine's monotonic clock at the time of the call.
#[verifier::external_body]
pub(crate) fn instant_now() -> Instant {
    Instant::now()
}

/// What `now.duration_since(earlier)` returns: a function of the two
/// instants alone.
pub uninterp spec fn time_between(now: Instant, earlier: Instant) -> Duration;

/// Calls `std::time::Instant::duration_since`; the result is named by
/// `time_between` of the two instants (zero when `earlier` is later).
#[verifier::external_body]
pub(crate) fn duration_between(now: Instant, earlier: Instant) -> (d: Duration)
    ensures
        d == time_between(now, earlier),
{
    now.duration_since(earlier)
}

} // verus!
