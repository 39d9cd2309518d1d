//! Wall-clock time, used for packet IDs and clipboard timestamps.
use vstd::prelude::*;
use std::time::{Duration, SystemTime, SystemTimeError};

verus! {

#[verifier::external_type_specification]
#[verifier::external_body]
pub struct ExSystemTime(SystemTime);

#[verifier::external_type_specification]
#[verifier::external_body]
pub struct ExSystemTimeError(SystemTimeError);

/// Relies on std's `SystemTime::now`: the current wall-clock time; nothing
/// is promised of its value.
pub assume_specification[ SystemTime::now ]() -> SystemTime;

/// Relies on std's `SystemTime::duration_since`: an error when `earlier` is
/// later than `self`; nothing is promised of the amount.
pub assume_specification[ SystemTime::duration_since ](
    this: &SystemTime,
    earlier: SystemTime,
) -> Result<Duration, SystemTimeError>;

/// Relies on std's `Duration::as_millis`: whole milliseconds of the duration.
pub assume_specification[ Duration::as_millis ](d: &Duration) -> u128;

/// Relies on std's `SystemTime::UNIX_EPOCH`: the Unix epoch as a `SystemTime`.
#[verifier::external_body]
fn unix_epoch() -> SystemTime {
    SystemTime::UNIX_EPOCH
}

/// Milliseconds since the Unix epoch, or 0 when the clock reads earlier.
pub fn get_time_ms() -> u128 {
    match SystemTime::now().duration_since(unix_epoch()) {
        Ok(d) => d.as_millis(),
        Err(_) => 0,
    }
}

} // verus!
