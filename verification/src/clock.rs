//! The one wall-clock read.  Every operation that needs the current time
//! captures it exactly once through this module and then computes on the
//! captured value, so no transition compares two different readings.

use vstd::prelude::*;

verus! {

/// Relies on `chrono::Utc::now` for the current UTC instant and on
/// `chrono::DateTime::timestamp_millis` to turn it into milliseconds since
/// the Unix epoch.  `Utc::now` aborts the process if the system clock is set
/// before the epoch; when it returns, the instant is at or after the epoch,
/// so the milliseconds are non-negative.
#[verifier::external_body]
pub(crate) fn now_millis() -> (t: i64)
    ensures
        0 <= t,
{
    chrono::Utc::now().timestamp_millis()
}

} // verus!
