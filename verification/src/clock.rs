//! Engine time: milliseconds since the Unix epoch, read from the system
//! clock.
use vstd::prelude::*;
use std::time::{Duration, SystemTime, SystemTimeError, UNIX_EPOCH};

verus! {

/// `std::time::SystemTime`, a reading of the system clock. Nothing is known
/// of what a reading holds.
#[verifier::external_type_specification]
#[verifier::external_body]
pub struct ExSystemTime(std::time::SystemTime);

/// `std::time::SystemTimeError`, returned when one reading lies before
/// another it was measured from.
#[verifier::external_type_specification]
#[verifier::external_body]
pub struct ExSystemTimeError(std::time::SystemTimeError);

/// `SystemTime::now` reads the clock. Nothing is claimed of the reading.
pub assume_specification[ SystemTime::now ]() -> (now: SystemTime);

/// `SystemTime::duration_since`, measured from `std::time::UNIX_EPOCH`: the
/// time from the epoch to `reading`, or an error where `reading` lies before
/// the epoch. Nothing is claimed of which it is.
#[verifier::external_body]
fn since_unix_epoch(reading: &SystemTime) -> (elapsed: Result<Duration, SystemTimeError>) {
    reading.duration_since(UNIX_EPOCH)
}

/// `Duration::as_millis` gives the whole milliseconds of a duration. Nothing
/// is claimed of their number.
pub assume_specification[ Duration::as_millis ](duration: &Duration) -> (millis: u128);

/// Why no timestamp could be produced.
#[derive(Debug, Clone, Copy, PartialEq, Eq, Structural)]
pub enum ClockError {
    /// The system clock reads a time before the Unix epoch.
    BeforeUnixEpoch,
}

/// The timestamp that stands for `millis` milliseconds since the epoch: its
/// low 64 bits.
pub open spec fn timestamp_of_millis(millis: u128) -> u64 {
    (millis % 0x1_0000_0000_0000_0000) as u64
}

/// The outcome for one measurement of the clock: the timestamp of the
/// milliseconds measured since the epoch, or `BeforeUnixEpoch` where the
/// clock read before the epoch and so measured none.
pub open spec fn timestamp_of_reading(elapsed_millis: Option<u128>) -> Result<u64, ClockError> {
    match elapsed_millis {
        Some(millis) => Ok::<u64, ClockError>(timestamp_of_millis(millis)),
        None => Err::<u64, ClockError>(ClockError::BeforeUnixEpoch),
    }
}

/// Turns what the clock measured since the epoch into a timestamp.
///
/// `None` stands for a clock that reads before the epoch. No timestamp is
/// made up for it.
pub fn epoch_timestamp(elapsed_millis: Option<u128>) -> (timestamp: Result<u64, ClockError>)
    ensures
        timestamp == timestamp_of_reading(elapsed_millis),
{
    match elapsed_millis {
        Some(millis) => {
            let low: u64 = #[verifier::truncate] (millis as u64);
            assert(low == millis % 0x1_0000_0000_0000_0000) by (bit_vector)
                requires
                    low == millis as u64,
            ;
            Ok(low)
        },
        None => Err(ClockError::BeforeUnixEpoch),
    }
}

/// The current engine time in milliseconds since the Unix epoch, or
/// `BeforeUnixEpoch` where the system clock cannot give one.
///
/// The result is the outcome for what the clock measured: the low 64 bits
/// of a count of milliseconds, or the error for a clock before the epoch.
/// Which measurement the clock gives is not known here.
pub fn now_ms_utc() -> (timestamp: Result<u64, ClockError>)
    ensures
        exists|elapsed_millis: Option<u128>| timestamp == timestamp_of_reading(elapsed_millis),
{
    let now = SystemTime::now();
    let elapsed_millis = match since_unix_epoch(&now) {
        Ok(elapsed) => Some(elapsed.as_millis()),
        Err(_) => None,
    };
    let timestamp = epoch_timestamp(elapsed_millis);
    assert(timestamp == timestamp_of_reading(elapsed_millis));
    timestamp
}

} // verus!
