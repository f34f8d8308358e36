//! Access to wall-clock time, behind trusted wrappers. Every operation of
//! the dispatcher that needs a time also exists in a form that takes the
//! time as an argument, and that form carries the exact contract.

use vstd::prelude::*;

verus! {

/// Relies on chrono's `Utc::now` (the current time as a UTC date-time) and
/// `DateTime::to_rfc3339` (its RFC 3339 rendering). The result depends on the
/// wall clock, so nothing is stated of it. `Utc::now` panics if the system
/// clock reads before the Unix epoch.
#[verifier::external_body]
pub(crate) fn now_rfc3339() -> (r: String) {
    chrono::Utc::now().to_rfc3339()
}

/// Relies on chrono's `Utc::now` and `DateTime::timestamp_millis` (the
/// number of non-leap milliseconds since the Unix epoch). The result depends
/// on the wall clock, so nothing is stated of it. `Utc::now` panics if the
/// system clock reads before the Unix epoch.
#[verifier::external_body]
pub(crate) fn now_timestamp_millis() -> (r: i64) {
    chrono::Utc::now().timestamp_millis()
}

/// The current time in milliseconds, clamped to be non-negative so that
/// callers can treat it as an unsigned instant.
pub fn now_millis() -> (r: u64) {
    let t = now_timestamp_millis();
    if t < 0 {
        0
    } else {
        t as u64
    }
}

} // verus!
