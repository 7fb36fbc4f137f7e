//! The current time, read through chrono.

use vstd::prelude::*;

verus! {

/// The current UTC time as `YYYY-MM-DDTHH:MM:SSZ`.
///
/// Relies on chrono's `Utc::now` and its `format`; the result depends on the clock.
#[verifier::external_body]
pub fn now_utc() -> String {
    chrono::Utc::now().format("%Y-%m-%dT%H:%M:%SZ").to_string()
}

/// Seconds since the Unix epoch.
///
/// Relies on chrono's `Utc::now` and `timestamp`; the result depends on the clock.
#[verifier::external_body]
pub fn unix_seconds() -> i64 {
    chrono::Utc::now().timestamp()
}

} // verus!
