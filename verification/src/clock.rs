//! The current time, read through chrono. Nothing is promised of these
//! values: they differ from call to call, and every caller must hold for any
//! outcome.

use vstd::prelude::*;

verus! {

/// Relies on chrono's `Utc::now` and `timestamp_millis`: the current time as
/// milliseconds since the Unix epoch.
#[verifier::external_body]
pub fn now_timestamp_millis() -> i64 {
    chrono::Utc::now().timestamp_millis()
}

/// Relies on chrono's `Utc::now` and `to_rfc3339`: the current time rendered
/// as an RFC 3339 timestamp.
#[verifier::external_body]
pub fn now_rfc3339() -> String {
    chrono::Utc::now().to_rfc3339()
}

} // verus!
