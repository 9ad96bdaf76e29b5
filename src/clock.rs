use vstd::prelude::*;

verus! {

#[verifier::external_type_specification]
#[verifier::external_body]
pub struct ExInstant(std::time::Instant);

/// Relies on std's `Instant::now`: reads the monotonic clock. Nothing is
/// known of the value it reads.
pub assume_specification[ std::time::Instant::now ]() -> std::time::Instant;

/// Relies on std's `Instant::elapsed`: the time since the instant was read.
/// Nothing is known of the value, which depends on the clock.
pub assume_specification[ std::time::Instant::elapsed ](
    this: &std::time::Instant,
) -> core::time::Duration;

/// Relies on std's `Duration::as_micros`: the whole microseconds of a duration.
/// The duration is opaque here, so nothing is stated of the number.
pub assume_specification[ core::time::Duration::as_micros ](
    this: &core::time::Duration,
) -> u128;

/// The current instant of the monotonic clock.
pub fn get_time() -> (r: std::time::Instant) {
    std::time::Instant::now()
}

/// Whole microseconds since `start`, saturating at `u64::MAX`.
pub fn micros_since(start: &std::time::Instant) -> (r: u64) {
    let d = start.elapsed();
    let us: u128 = d.as_micros();
    saturate_micros(us)
}

/// `us` where it fits in a `u64`, else `u64::MAX`.
pub fn saturate_micros(us: u128) -> (r: u64)
    ensures
        r as int == if us <= u64::MAX { us as int } else { u64::MAX as int },
{
    if us <= u64::MAX as u128 {
        us as u64
    } else {
        u64::MAX
    }
}

/// Time between two frame-budget checks, in milliseconds: one sixtieth of a
/// second, rounded down.
pub const FRAME_BUDGET_MILLIS: u128 = 16;

/// Whether a new frame is due after `elapsed_millis` milliseconds since the
/// last one was drawn: only once more than the frame budget has gone by.
pub fn frame_due(elapsed_millis: u128) -> (r: bool)
    ensures
        r == (elapsed_millis > FRAME_BUDGET_MILLIS),
{
    elapsed_millis > FRAME_BUDGET_MILLIS
}

} // verus!
