//! Monotonic time, which only the standard library can read.

use vstd::prelude::*;

verus! {

#[verifier::external_type_specification]
#[verifier::external_body]
pub struct ExInstant(std::time::Instant);

/// `Instant` is `Copy`, and its `clone` hands back the same instant.
pub assume_specification[ <std::time::Instant as Clone>::clone ](t: &std::time::Instant) -> (r:
    std::time::Instant)
    ensures
        r == *t,
;

/// Calls `Instant::now`. Nothing is promised of the instant it returns.
#[verifier::external_body]
pub(crate) fn instant_now() -> (t: std::time::Instant) {
    std::time::Instant::now()
}

/// Calls `Instant::elapsed`. Nothing is promised of the duration it
/// returns: it depends on the clock.
#[verifier::external_body]
pub(crate) fn instant_elapsed(t: &std::time::Instant) -> (d: std::time::Duration) {
    t.elapsed()
}

/// Calls `Instant::duration_since`, which saturates at zero. Nothing is
/// promised of the duration it returns.
#[verifier::external_body]
pub(crate) fn instant_duration_since(later: &std::time::Instant, earlier: &std::time::Instant) -> (d:
    std::time::Duration) {
    later.duration_since(*earlier)
}

/// Calls `Duration::from_millis`. The duration is opaque here, so nothing
/// is stated of it.
#[verifier::external_body]
pub(crate) fn duration_from_millis(millis: u64) -> (d: std::time::Duration) {
    std::time::Duration::from_millis(millis)
}

/// Calls `Duration::from_secs`. The duration is opaque here, so nothing is
/// stated of it.
#[verifier::external_body]
pub(crate) fn duration_from_secs(secs: u64) -> (d: std::time::Duration) {
    std::time::Duration::from_secs(secs)
}

/// Calls `Duration::as_nanos`, the whole duration in nanoseconds. The
/// duration is opaque here, so nothing is stated of the number.
#[verifier::external_body]
pub(crate) fn duration_as_nanos(d: &std::time::Duration) -> (n: u128) {
    d.as_nanos()
}

} // verus!
