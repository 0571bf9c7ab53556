//! Wall-clock readings, rendered as text. The clock is outside the verified
//! world: nothing is promised of the values, and every contract downstream
//! holds whatever they are.

use vstd::prelude::*;

verus! {

/// Relies on chrono's `Utc::now` and `DateTime::to_rfc3339`: the current
/// wall-clock time as an RFC 3339 string. The value differs between calls,
/// so nothing is stated of it.
#[verifier::external_body]
pub(crate) fn now_rfc3339() -> String {
    chrono::Utc::now().to_rfc3339()
}

/// Relies on chrono's `Utc::now` and `DateTime::format`: the current
/// wall-clock time written as `YYYY-MM-DD HH:MM:SS UTC`. The value differs
/// between calls, so nothing is stated of it.
#[verifier::external_body]
pub(crate) fn now_alert_timestamp() -> String {
    chrono::Utc::now().format("%Y-%m-%d %H:%M:%S UTC").to_string()
}

} // verus!
