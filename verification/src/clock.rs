use vstd::prelude::*;

verus! {

/// `std::time::Instant`, carried through the library as an opaque value.
#[verifier::external_type_specification]
#[verifier::external_body]
pub struct ExInstant(std::time::Instant);

/// `std::time::Instant::now`: reads the monotonic clock. Nothing is promised of the
/// value it returns.
pub assume_specification[ std::time::Instant::now ]() -> std::time::Instant;

/// `std::time::Instant::elapsed`: the time passed since the instant. It depends on the
/// clock, so nothing is promised of it.
pub assume_specification[ std::time::Instant::elapsed ](
    instant: &std::time::Instant,
) -> std::time::Duration;

/// The whole milliseconds `Duration::as_millis` gives for a duration.
pub uninterp spec fn duration_millis(duration: std::time::Duration) -> u128;

/// `std::time::Duration::as_millis`: whole milliseconds of a duration, named by
/// `duration_millis`.
pub assume_specification[ std::time::Duration::as_millis ](duration: &std::time::Duration) -> (millis: u128)
    ensures
        millis == duration_millis(*duration),
;

/// The duration `Duration::from_secs` gives for a number of seconds.
pub uninterp spec fn duration_from_secs(secs: u64) -> std::time::Duration;

/// `std::time::Duration::from_secs`: the duration of whole seconds, named by
/// `duration_from_secs`.
pub assume_specification[ std::time::Duration::from_secs ](secs: u64) -> (duration: std::time::Duration)
    ensures
        duration == duration_from_secs(secs),
;

/// Whole milliseconds since `started_at`, cut to 64 bits as the snapshot reports them. The
/// time passed is read from the clock, so no clause can state the number.
pub fn elapsed_millis(started_at: &std::time::Instant) -> u64 {
    let elapsed = started_at.elapsed();
    let millis = elapsed.as_millis();
    #[verifier::truncate]
    (millis as u64)
}

} // verus!
