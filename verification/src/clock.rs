//! The wall clock and fresh identifiers.
//!
//! Both come from outside the program, so nothing is assumed about the
//! values beyond their shape.

use vstd::prelude::*;

verus! {

/// A point in time of the system clock, carried through as an opaque value.
#[verifier::external_type_specification]
#[verifier::external_body]
pub struct ExSystemTime(std::time::SystemTime);

/// The error of a clock that stands before the epoch.
#[verifier::external_type_specification]
#[verifier::external_body]
pub struct ExSystemTimeError(std::time::SystemTimeError);

/// `SystemTime::now` reads the system clock.
pub assume_specification[ std::time::SystemTime::now ]() -> (t: std::time::SystemTime)
;

/// `SystemTime::duration_since` measures the time from `earlier` to `t`, and
/// fails where `earlier` is the later of the two.
pub assume_specification[ std::time::SystemTime::duration_since ](
    t: &std::time::SystemTime,
    earlier: std::time::SystemTime,
) -> (r: Result<core::time::Duration, std::time::SystemTimeError>)
;

/// `Duration::as_millis` gives the whole milliseconds of a duration.
pub assume_specification[ core::time::Duration::as_millis ](d: &core::time::Duration) -> (ms: u128)
;

/// The start of Unix time, the constant `std::time::UNIX_EPOCH`.
#[verifier::external_body]
fn unix_epoch() -> (t: std::time::SystemTime) {
    std::time::UNIX_EPOCH
}

/// The words that `SystemTimeError` displays for a clock that stands
/// before the epoch, from `to_string`.
#[verifier::external_body]
fn clock_error_text(error: &std::time::SystemTimeError) -> (text: String) {
    error.to_string()
}

/// A fresh random identifier from `Uuid::new_v4`, written with
/// `to_string`, which gives the hyphenated form in lower case: 36
/// characters.
#[verifier::external_body]
pub(crate) fn fresh_id() -> (id: String)
    ensures
        id@.len() == 36,
{
    uuid::Uuid::new_v4().to_string()
}

/// Milliseconds since the start of Unix time, or the standard library's
/// message where the clock stands before it.
pub fn unix_millis() -> (r: Result<i64, String>) {
    let now = std::time::SystemTime::now();
    match now.duration_since(unix_epoch()) {
        Ok(elapsed) => {
            let ms: u128 = elapsed.as_millis();
            Ok(#[verifier::truncate] (ms as i64))
        },
        Err(e) => Err(clock_error_text(&e)),
    }
}

/// Milliseconds since the start of Unix time; zero where the clock stands
/// before it.
pub fn unix_millis_or_zero() -> (ms: i64) {
    match unix_millis() {
        Ok(ms) => ms,
        Err(_) => 0,
    }
}

} // verus!
