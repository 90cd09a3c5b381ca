//! Points in time, as the system clock gives them.
use vstd::prelude::*;
use std::time::{Duration, Instant};

verus! {

/// A point in time, carried through as an opaque value.
#[verifier::external_type_specification]
#[verifier::external_body]
pub struct ExInstant(Instant);

/// `Instant::now`: the current time. Nothing is promised of it.
#[verifier::external_body]
pub(crate) fn instant_now() -> Instant {
    Instant::now()
}

/// `Instant::elapsed`: the time since `since`, saturating at zero. It depends on
/// the clock, so nothing is promised of it.
#[verifier::external_body]
fn instant_elapsed(since: &Instant) -> Duration {
    since.elapsed()
}

/// `Duration::as_millis`: the whole milliseconds of a duration, which Verus
/// sees only as an opaque value; nothing is promised of it.
#[verifier::external_body]
fn duration_millis(d: &Duration) -> u128 {
    d.as_millis()
}

/// The whole milliseconds since `since`.
pub(crate) fn elapsed_millis(since: &Instant) -> u128 {
    let d = instant_elapsed(since);
    duration_millis(&d)
}

} // verus!
