//! The monotonic clock, taken on trust.
//!
//! Elapsed time depends on the machine and the moment, so nothing is
//! promised of these values; callers treat them as opaque readings.

use vstd::prelude::*;

verus! {

#[verifier::external_type_specification]
#[verifier::external_body]
pub struct ExInstant(std::time::Instant);

/// Relies on Instant's Clone: an instant clones as itself.
pub assume_specification[ <std::time::Instant as std::clone::Clone>::clone ](
    i: &std::time::Instant,
) -> (r: std::time::Instant)
    ensures
        r == *i,
;

/// Relies on std::time::Instant::now: a reading of the monotonic clock.
/// Nothing can be promised of the reading.
pub assume_specification[ std::time::Instant::now ]() -> std::time::Instant;

/// Relies on std::time::Instant::elapsed: the time since the instant was
/// taken.  Nothing can be promised of the reading.
pub assume_specification[ std::time::Instant::elapsed ](
    i: &std::time::Instant,
) -> core::time::Duration;

} // verus!
