use vstd::prelude::*;

verus! {

/// Relies on chrono::Utc::now and chrono::DateTime::timestamp_millis: the
/// wall-clock time as milliseconds since the Unix epoch. The value depends
/// on the system clock, so nothing is assumed of it.
#[verifier::external_body]
pub(crate) fn now_millis() -> i64 {
    chrono::Utc::now().timestamp_millis()
}

} // verus!
