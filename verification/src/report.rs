//! Where a failure is reported. The dispatcher throws away what the handler
//! prints, so the report goes to a file of its own, named by the time.

use crate::error::{message_of, ErrorView, PipelineError};
use crate::text::{decimal, decimal_text};
use vstd::prelude::*;
use vstd::string::StringExecFns;

verus! {

/// A point in time as the standard library reads it from the system clock.
#[verifier::external_type_specification]
#[verifier::external_body]
pub struct ExSystemTime(std::time::SystemTime);

/// Calls `std::time::SystemTime::now`. Nothing is claimed of the time.
#[verifier::external_body]
fn now() -> std::time::SystemTime {
    std::time::SystemTime::now()
}

/// Calls `std::time::SystemTime::duration_since` with the Unix epoch; `None`
/// where the time is before the epoch. Nothing is claimed of the duration.
#[verifier::external_body]
fn since_epoch(time: &std::time::SystemTime) -> Option<std::time::Duration> {
    match time.duration_since(std::time::UNIX_EPOCH) {
        Ok(elapsed) => Some(elapsed),
        Err(_) => None,
    }
}

/// The most milliseconds that a duration of the standard library can hold:
/// its whole seconds are a `u64`, and its part of a second is less than a
/// second.
pub const MILLIS_LIMIT: u128 = 18_446_744_073_709_551_615_999;

/// Calls `std::time::Duration::as_millis`, which gives the whole
/// milliseconds of a duration. Which number that is depends on the duration,
/// of which nothing is known; the contract claims only that it is within
/// what a duration can hold.
#[verifier::external_body]
fn whole_millis(elapsed: &std::time::Duration) -> (millis: u128)
    ensures
        millis <= MILLIS_LIMIT,
{
    elapsed.as_millis()
}

/// The whole milliseconds since the Unix epoch by the system clock; `None`
/// where the clock stands before the epoch. Which number it is, is the
/// clock's to say; it is never more than a duration can hold.
pub fn timestamp() -> (stamp: Option<u128>)
    ensures
        stamp matches Some(millis) ==> millis <= MILLIS_LIMIT,
{
    match since_epoch(&now()) {
        Some(elapsed) => Some(whole_millis(&elapsed)),
        None => None,
    }
}

/// The path of the report written at a given time.
pub open spec fn log_path(millis: nat) -> Seq<char> {
    "/tmp/sellafield_"@ + decimal(millis) + ".log"@
}

/// The contents of the report on an error: its message on a line of its own.
pub open spec fn log_line(error: ErrorView) -> Seq<char> {
    message_of(error) + "\n"@
}

/// Names the file that reports a failure that happened at `millis`.
pub fn log_file_name(millis: u128) -> (path: String)
    ensures
        path@ == log_path(millis as nat),
{
    let mut path = String::from_str("/tmp/sellafield_");
    path.append(decimal_text(millis).as_str());
    path.append(".log");
    path
}

/// Writes out what the report on an error holds.
pub fn log_contents(error: &PipelineError) -> (line: String)
    ensures
        line@ == log_line(error@),
{
    let mut line = error.message();
    line.append("\n");
    line
}

} // verus!
