use vstd::prelude::*;

verus! {

/// The system clock could not be read as a Unix timestamp.
#[derive(PartialEq, Eq, Structural, Clone, Copy, Debug)]
pub struct ClockUnavailable;

/// Lets a `std::time::SystemTime` stand in signatures; its value is opaque.
#[verifier::external_type_specification]
#[verifier::external_body]
pub struct ExSystemTime(std::time::SystemTime);

/// The system clock's reading, through `std::time::SystemTime::now`.
/// Nothing is stated of it: it is the clock's reading.
#[verifier::external_body]
fn system_time_now() -> std::time::SystemTime {
    std::time::SystemTime::now()
}

/// Whole seconds from the Unix epoch to the time, through
/// `SystemTime::duration_since(UNIX_EPOCH)` read with `Duration::as_secs`;
/// `None` when the time is before the epoch (std answers with an error).
/// Nothing is stated of the number, which depends on the time read.
#[verifier::external_body]
fn seconds_since_epoch(t: &std::time::SystemTime) -> Option<u64> {
    match t.duration_since(std::time::UNIX_EPOCH) {
        Ok(elapsed) => Some(elapsed.as_secs()),
        Err(_) => None,
    }
}

/// A number of seconds since the Unix epoch as a timestamp: the same
/// number when an `i64` holds it, else none; no seconds give none.
pub fn timestamp_from_secs(secs: Option<u64>) -> (r: Option<i64>)
    ensures
        r == match secs {
            Some(s) => if s <= i64::MAX { Some(s as i64) } else { None::<i64> },
            None => None::<i64>,
        },
{
    match secs {
        Some(s) => if s <= 9_223_372_036_854_775_807u64 {
            Some(s as i64)
        } else {
            None
        },
        None => None,
    }
}

/// The current time as a Unix timestamp in seconds; `None` when the system
/// clock is set before the Unix epoch or its seconds do not fit an `i64`.
/// It is `timestamp_from_secs` of the clock's reading.
pub fn current_timestamp() -> (r: Option<i64>)
    ensures
        r matches Some(t) ==> t >= 0,
{
    let now = system_time_now();
    timestamp_from_secs(seconds_since_epoch(&now))
}

} // verus!
