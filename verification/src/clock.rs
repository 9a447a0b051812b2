//! Wall-clock readings for the elapsed-time fields that processing results
//! carry. Nothing is promised of the values.

use vstd::prelude::*;

verus! {

/// Milliseconds of the system clock since the Unix epoch.
///
/// Relies on `std::time::SystemTime::now`; the value depends on the
/// machine's clock, so nothing is promised of it.
#[verifier::external_body]
pub fn now_millis() -> u64 {
    std::time::SystemTime::now().duration_since(std::time::UNIX_EPOCH).map(
        |d| d.as_millis() as u64,
    ).unwrap_or(0)
}

/// The milliseconds between two clock readings; zero where the clock
/// stepped backwards.
pub fn elapsed_ms(start: u64, end: u64) -> (r: u64)
    ensures
        end >= start ==> r == end - start,
        end < start ==> r == 0,
{
    if end >= start {
        end - start
    } else {
        0
    }
}

/// Milliseconds of the system clock since the Unix epoch, as a signed
/// count: a clock set before the epoch gives a negative reading rather
/// than a failure.
///
/// Relies on `std::time::SystemTime::now`; the value depends on the
/// machine's clock, so nothing is promised of it.
#[verifier::external_body]
pub fn utc_now_millis() -> i64 {
    match std::time::SystemTime::now().duration_since(std::time::UNIX_EPOCH) {
        Ok(d) => d.as_millis() as i64,
        Err(e) => -(e.duration().as_millis() as i64),
    }
}

} // verus!
