//! Clock readings and spans of time, as std provides them.
//!
//! Readings of the clock depend on when they are taken, so nothing is
//! promised of them; the logic that depends on elapsed time takes the
//! elapsed nanoseconds as an argument.

use vstd::prelude::*;
use std::time::{Duration, Instant};

verus! {

/// `std::time::Instant`, a reading of the monotonic clock.
#[verifier::external_type_specification]
#[verifier::external_body]
pub struct ExInstant(Instant);

/// `Instant` is `Copy`: its clone is the same reading.
pub assume_specification[ <Instant as Clone>::clone ](i: &Instant) -> (r: Instant)
    ensures
        r == *i,
;

/// `Duration` is `Copy`: its clone is the same span.
pub assume_specification[ <Duration as Clone>::clone ](d: &Duration) -> (r: Duration)
    ensures
        r == *d,
;

/// Calls `Instant::now`; the reading depends on the time of the call, so
/// nothing is promised of it.
#[verifier::external_body]
pub fn instant_now() -> (r: Instant) {
    Instant::now()
}

/// Calls `Instant::elapsed`; the span depends on the time of the call, so
/// nothing is promised of it.
#[verifier::external_body]
pub fn instant_elapsed(i: &Instant) -> (r: Duration) {
    i.elapsed()
}

/// The total number of whole nanoseconds a span holds, as
/// `Duration::as_nanos` gives it.
pub uninterp spec fn duration_nanos(d: Duration) -> u128;

/// Calls `Duration::as_nanos`, which the standard library documents as the
/// total number of whole nanoseconds of the span.
#[verifier::external_body]
pub fn duration_as_nanos(d: Duration) -> (r: u128)
    ensures
        r == duration_nanos(d),
{
    d.as_nanos()
}

/// Calls `Duration::from_secs`, which the standard library documents as a
/// span of `secs` whole seconds.
#[verifier::external_body]
pub fn duration_from_secs(secs: u64) -> (r: Duration)
    ensures
        duration_nanos(r) == secs as int * 1_000_000_000,
{
    Duration::from_secs(secs)
}

/// Calls `Duration::from_millis`, which the standard library documents as a
/// span of `millis` milliseconds.
#[verifier::external_body]
pub fn duration_from_millis(millis: u64) -> (r: Duration)
    ensures
        duration_nanos(r) == millis as int * 1_000_000,
{
    Duration::from_millis(millis)
}

/// Calls `Duration::from_micros`, which the standard library documents as a
/// span of `micros` microseconds.
#[verifier::external_body]
pub fn duration_from_micros(micros: u64) -> (r: Duration)
    ensures
        duration_nanos(r) == micros as int * 1_000,
{
    Duration::from_micros(micros)
}

} // verus!
