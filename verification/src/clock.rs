//! The ambient clock, behind trusted wrappers. Dates are plain day numbers
//! counted from the common era; instants are seconds since the epoch.

use vstd::prelude::*;

verus! {

/// Relies on chrono::Utc::now and chrono::Datelike::num_days_from_ce:
/// the current civil date in UTC as a day count from the common era.
/// The value depends on the wall clock, so nothing is promised of it.
#[verifier::external_body]
pub(crate) fn current_day_number() -> i32 {
    chrono::Datelike::num_days_from_ce(&chrono::Utc::now().date_naive())
}

/// Relies on chrono::Utc::now and chrono::DateTime::timestamp:
/// the current instant as whole seconds since the Unix epoch.
/// The value depends on the wall clock, so nothing is promised of it.
#[verifier::external_body]
pub(crate) fn current_timestamp() -> i64 {
    chrono::Utc::now().timestamp()
}

} // verus!
