//! A snapshot of the wall clock, formatted once per log call.

use vstd::prelude::*;

verus! {

/// One reading of the local wall clock, formatted three ways: time of day,
/// calendar date, and both together.
pub struct Timestamp {
    pub time: String,
    pub date: String,
    pub datetime: String,
}

/// Relies on chrono's `Local::now` and `DateTime::format`: `%H:%M:%S`
/// always yields two zero-padded digits per field, eight characters in all;
/// the date and datetime forms are whatever the clock reads, so nothing
/// more is promised of them.
#[verifier::external_body]
pub(crate) fn now_timestamp() -> (t: Timestamp)
    ensures
        t.time@.len() == 8,
{
    let now = chrono::Local::now();
    Timestamp {
        time: now.format("%H:%M:%S").to_string(),
        date: now.format("%Y-%m-%d").to_string(),
        datetime: now.format("%Y-%m-%d %H:%M:%S").to_string(),
    }
}

} // verus!
