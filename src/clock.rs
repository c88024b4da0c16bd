//! The monotonic clock, through std's `Instant`.
use vstd::prelude::*;

verus! {

/// std's monotonic instant, carried through opaquely.
#[verifier::external_type_specification]
#[verifier::external_body]
pub struct ExInstant(std::time::Instant);

/// Relies on std::time::Instant::now for the current instant; nothing is
/// known of its value.
pub assume_specification[ std::time::Instant::now ]() -> std::time::Instant;

/// Relies on std::time::Instant::elapsed for the time since an instant;
/// nothing is known of its value.
pub assume_specification[ std::time::Instant::elapsed ](i: &std::time::Instant) -> core::time::Duration;

/// Relies on core::time::Duration::as_nanos for a duration in nanoseconds;
/// nothing is stated of its value.
pub assume_specification[ core::time::Duration::as_nanos ](d: &core::time::Duration) -> u128;

/// A duration in whole nanoseconds, clamped at `u64::MAX` (about 584 years).
pub(crate) fn duration_nanos(d: &core::time::Duration) -> (r: u64) {
    let n = d.as_nanos();
    if n > u64::MAX as u128 {
        u64::MAX
    } else {
        n as u64
    }
}

/// Nanoseconds elapsed since `start`, clamped at `u64::MAX`.
pub(crate) fn elapsed_nanos(start: &std::time::Instant) -> (r: u64) {
    let d = start.elapsed();
    duration_nanos(&d)
}

} // verus!
