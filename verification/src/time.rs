//! What the library assumes of `std::time::Duration`.

use std::time::Duration;
use vstd::prelude::*;

verus! {

/// The whole time span that a `Duration` holds, in nanoseconds.
pub uninterp spec fn duration_nanos(d: Duration) -> nat;

/// Nanoseconds in one millisecond.
pub open spec fn nanos_per_milli() -> nat {
    1_000_000
}

/// `Duration::from_millis` builds the span of exactly `millis` milliseconds:
/// whole seconds plus the remainder as nanoseconds, which together are
/// `millis` times a million nanoseconds. It never fails.
pub assume_specification[ Duration::from_millis ](millis: u64) -> (d: Duration)
    ensures
        duration_nanos(d) == millis as nat * nanos_per_milli(),
;

} // verus!
