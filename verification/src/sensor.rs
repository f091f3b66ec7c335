//! The sensor client's share of the work that is not network transfer:
//! what a fetch can end in, and the stamping of a decoded reading with the
//! wall-clock time at which the fetch completed.

use crate::reading::{HistoryEntry, Reading};
use std::time::{Duration, SystemTime, SystemTimeError};
use vstd::prelude::*;

verus! {

/// Address of the device's JSON endpoint.
pub const DEVICE_URL: &'static str = "http://192.168.2.106/j";

/// Upper bound on the whole of one request, in milliseconds.
pub const FETCH_TIMEOUT_MILLIS: u64 = 3000;

/// Why one fetch produced no entry.
#[derive(Clone, Copy, Debug, PartialEq, Eq)]
pub enum FetchError {
    /// The connection could not be established.
    Connect,
    /// The request did not complete within `FETCH_TIMEOUT_MILLIS`.
    Timeout,
    /// The device answered with a status other than success.
    Status,
    /// The body was not JSON of the expected shape.
    Shape,
    /// The wall clock stood before the Unix epoch when the fetch completed.
    Clock,
}

/// `std::time::SystemTime`, a reading of the wall clock. Nothing is known
/// of what a value holds; it is only handed from one clock call to the next.
#[verifier::external_type_specification]
#[verifier::external_body]
pub struct ExSystemTime(std::time::SystemTime);

/// `std::time::SystemTimeError`, the error of `SystemTime::duration_since`.
/// Nothing is known of what a value holds.
#[verifier::external_type_specification]
#[verifier::external_body]
pub struct ExSystemTimeError(std::time::SystemTimeError);

/// Calls `SystemTime::now`. Nothing is assumed of the reading: the wall
/// clock may stand anywhere and may step backwards between two calls.
#[verifier::external_body]
fn wall_clock() -> SystemTime {
    SystemTime::now()
}

/// Calls `SystemTime::duration_since` with the Unix epoch as the earlier
/// moment. Nothing is assumed of the outcome; it is an error when `moment`
/// lies before the epoch.
#[verifier::external_body]
fn since_epoch(moment: &SystemTime) -> Result<Duration, SystemTimeError> {
    moment.duration_since(SystemTime::UNIX_EPOCH)
}

/// Calls `Duration::as_millis`. Nothing is assumed of the number returned.
#[verifier::external_body]
fn whole_millis(span: &Duration) -> u128 {
    span.as_millis()
}

/// Whether an HTTP status code means success: the codes from 200 to 299.
pub open spec fn is_success(status: u16) -> bool {
    200 <= status <= 299
}

/// Accepts a response by its status code: any status other than success
/// fails the fetch, whatever the body holds.
pub fn check_status(status: u16) -> (outcome: Result<(), FetchError>)
    ensures
        outcome == (if is_success(status) {
            Ok::<(), FetchError>(())
        } else {
            Err(FetchError::Status)
        }),
{
    if 200 <= status && status <= 299 {
        Ok(())
    } else {
        Err(FetchError::Status)
    }
}

/// The outcome of stamping `reading` when the clock read `elapsed`
/// milliseconds since the epoch, or `None` when it stood before the epoch.
pub open spec fn stamped(reading: Reading, elapsed: Option<u128>) -> Result<HistoryEntry, FetchError> {
    match elapsed {
        Some(millis) => Ok(HistoryEntry { timestamp: millis, reading }),
        None => Err(FetchError::Clock),
    }
}

/// Stamps `reading` with a clock reading that the caller supplies.
pub fn stamp(reading: Reading, elapsed: Option<u128>) -> (outcome: Result<HistoryEntry, FetchError>)
    ensures
        outcome == stamped(reading, elapsed),
{
    match elapsed {
        Some(millis) => Ok(HistoryEntry::new(millis, reading)),
        None => Err(FetchError::Clock),
    }
}

/// Stamps a freshly decoded reading with the current wall-clock time.
///
/// Whatever the clock says, a returned entry carries `reading` unchanged,
/// and the only possible error is `FetchError::Clock`.
pub fn capture(reading: Reading) -> (outcome: Result<HistoryEntry, FetchError>)
    ensures
        match outcome {
            Ok(entry) => entry.reading == reading,
            Err(error) => error == FetchError::Clock,
        },
{
    let moment = wall_clock();
    let elapsed = match since_epoch(&moment) {
        Ok(span) => Some(whole_millis(&span)),
        Err(_) => None,
    };
    stamp(reading, elapsed)
}

} // verus!
