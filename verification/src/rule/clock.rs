//! The client's clock.
use std::time::Duration;
use std::time::SystemTime;
use vstd::prelude::*;
use crate::interval::whole_seconds;

verus! {

/// `std::time::SystemTime`: a reading of the machine's clock.
#[verifier::external_type_specification]
#[verifier::external_body]
pub struct ExSystemTime(SystemTime);

/// `SystemTime::now` reads the machine's clock. Nothing is claimed of the
/// reading: two calls may return anything, in any order.
pub assume_specification[ SystemTime::now ]() -> (reading: SystemTime)
;

/// What `SystemTime::duration_since` tells of a reading, with `UNIX_EPOCH` as
/// the earlier instant: the time passed, or nothing before the epoch.
pub uninterp spec fn elapsed_at(reading: SystemTime) -> Option<Duration>;

/// The whole seconds since the epoch at a reading; zero before the epoch.
pub open spec fn seconds_at(reading: SystemTime) -> u64 {
    match elapsed_at(reading) {
        Some(elapsed) => whole_seconds(elapsed),
        None => 0,
    }
}

/// Returns the current time in seconds since the Unix epoch: what
/// [`seconds_since_epoch`] makes of one reading of this machine's clock.
pub fn now() -> (seconds: u64)
    ensures
        exists|reading: SystemTime| seconds == #[trigger] seconds_at(reading),
{
    let reading = SystemTime::now();
    seconds_since_epoch(&reading)
}

/// `SystemTime::duration_since` with `UNIX_EPOCH` as the earlier instant: the
/// time that has passed since the epoch, or nothing for a reading before it.
/// What it tells depends on the reading alone.
#[verifier::external_body]
fn since_epoch(reading: &SystemTime) -> (elapsed: Option<Duration>)
    ensures
        elapsed == elapsed_at(*reading),
{
    match reading.duration_since(std::time::UNIX_EPOCH) {
        Ok(elapsed) => Some(elapsed),
        Err(_) => None,
    }
}

/// The whole seconds between the Unix epoch and a reading of the clock; what
/// is left of a second is dropped. A reading before the epoch counts as zero.
///
/// The token bucket takes its time from here, so its decisions are right only
/// as far as the clocks of all clients are monotonic and reasonably in step.
pub fn seconds_since_epoch(reading: &SystemTime) -> (seconds: u64)
    ensures
        seconds == seconds_at(*reading),
{
    match since_epoch(reading) {
        Some(elapsed) => elapsed.as_secs(),
        None => 0,
    }
}

} // verus!
