//! The wall clock, read through `std::time`. Nothing is known of what it says but that the
//! library's own arithmetic on it stays in range.
use vstd::prelude::*;
use crate::text::{decimal, u128_decimal, concat3};

verus! {

/// A reading of the system clock (`std::time::SystemTime`).
#[verifier::external_type_specification]
#[verifier::external_body]
pub struct ExSystemTime(std::time::SystemTime);

/// The error of a clock reading that lies before the Unix epoch.
#[verifier::external_type_specification]
#[verifier::external_body]
pub struct ExSystemTimeError(std::time::SystemTimeError);

/// Reads the system clock with `SystemTime::now`. What it reads depends on the time.
#[verifier::external_body]
fn system_now() -> (r: std::time::SystemTime) {
    std::time::SystemTime::now()
}

/// The time elapsed from the Unix epoch to `t`, with `SystemTime::duration_since`; an error
/// when `t` lies before the epoch.
#[verifier::external_body]
fn since_unix_epoch(t: &std::time::SystemTime) -> (r: Result<
    core::time::Duration,
    std::time::SystemTimeError,
>) {
    t.duration_since(std::time::UNIX_EPOCH)
}

/// The whole microseconds of a duration, with `Duration::as_micros`.
#[verifier::external_body]
fn duration_micros(d: &core::time::Duration) -> (r: u128) {
    d.as_micros()
}

/// The whole milliseconds of a duration, with `Duration::as_millis`.
#[verifier::external_body]
fn duration_millis(d: &core::time::Duration) -> (r: u128) {
    d.as_millis()
}

/// Microseconds since the Unix epoch; zero when the clock reads before the epoch.
pub fn unix_micros_now() -> (r: u128) {
    let now = system_now();
    match since_unix_epoch(&now) {
        Ok(d) => duration_micros(&d),
        Err(_) => 0,
    }
}

/// Milliseconds since the Unix epoch, capped at `i64::MAX`; zero when the clock reads before
/// the epoch.
pub fn current_timestamp_millis() -> (r: i64)
    ensures
        r >= 0,
{
    let now = system_now();
    let millis: u128 = match since_unix_epoch(&now) {
        Ok(d) => duration_millis(&d),
        Err(_) => 0,
    };
    timestamp_from_millis(millis)
}

/// An event timestamp from milliseconds since the Unix epoch: the count itself, capped at
/// `i64::MAX`.
pub open spec fn millis_timestamp(millis: u128) -> int {
    if millis > i64::MAX {
        i64::MAX as int
    } else {
        millis as int
    }
}

/// Turns milliseconds since the Unix epoch into an event timestamp, as `millis_timestamp`
/// says.
pub fn timestamp_from_millis(millis: u128) -> (r: i64)
    ensures
        r == millis_timestamp(millis),
{
    if millis > 0x7fff_ffff_ffff_ffffu128 {
        0x7fff_ffff_ffff_ffffi64
    } else {
        millis as i64
    }
}

/// An identifier made of a prefix, a hyphen and a number in decimal.
pub open spec fn numbered_id(prefix: Seq<char>, n: nat) -> Seq<char> {
    prefix + "-"@ + decimal(n)
}

/// Builds `prefix-n`, as `numbered_id` says.
pub fn format_id(prefix: &str, n: u128) -> (r: String)
    ensures
        r@ == numbered_id(prefix@, n as nat),
{
    let digits = u128_decimal(n);
    concat3(prefix, "-", digits.as_str())
}

/// A fresh identifier: the prefix, a hyphen, and the microseconds since the Unix epoch.
pub fn generate_id(prefix: &str) -> (r: String)
    ensures
        exists|n: u128| r@ == numbered_id(prefix@, n as nat),
{
    let micros = unix_micros_now();
    format_id(prefix, micros)
}

} // verus!
