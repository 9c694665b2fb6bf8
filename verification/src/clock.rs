//! Reading the clock.
use vstd::prelude::*;

use std::time::{Duration, Instant};

verus! {

/// A moment of the monotonic clock.
#[verifier::external_type_specification]
#[verifier::external_body]
pub struct ExInstant(Instant);

/// Calls `std::time::Instant::now`, which reads the monotonic clock. What
/// it returns depends on the time and is left unsaid.
#[verifier::external_body]
pub(crate) fn instant_now() -> (r: Instant) {
    Instant::now()
}

/// Calls `std::time::Instant::duration_since`, the time elapsed from
/// `earlier` to `later` (zero when `earlier` is the later one). What it
/// returns is left unsaid.
#[verifier::external_body]
pub(crate) fn duration_since(later: &Instant, earlier: &Instant) -> (r: Duration) {
    later.duration_since(*earlier)
}

/// Calls `std::time::Duration::as_millis`, the whole number of
/// milliseconds in `d`. What it returns is left unsaid.
#[verifier::external_body]
pub(crate) fn as_millis(d: &Duration) -> (r: u128) {
    d.as_millis()
}

} // verus!
