//! The clock of the machine.

use vstd::prelude::*;

verus! {

/// The present moment in UTC as RFC 3339 text.
///
/// Calls `chrono::Utc::now().to_rfc3339()`. Nothing is claimed of the text: it
/// depends on the clock.
#[verifier::external_body]
pub(crate) fn current_timestamp() -> (text: String) {
    chrono::Utc::now().to_rfc3339()
}

/// The present moment in UTC: the seconds since the Unix epoch and the
/// nanoseconds into the second.
///
/// Calls `chrono::Utc::now()` and reads its `timestamp()` and its
/// `timestamp_subsec_nanos()`. Believed of them, not proved: the seconds are
/// not negative. `Utc::now` takes the time that has passed since the Unix
/// epoch as a duration, and does not return where the clock stands before
/// the epoch. Nothing else is claimed of the numbers: they depend on the
/// clock.
#[verifier::external_body]
pub(crate) fn current_time() -> (now: (i64, u32))
    ensures
        now.0 >= 0,
{
    let now = chrono::Utc::now();
    (now.timestamp(), now.timestamp_subsec_nanos())
}

/// The text `YYYY-MM-DD` of the day that lies `days` days after 1 January 1970
/// in the proleptic Gregorian calendar, or nothing where the calendar of
/// `chrono` does not reach that day.
pub uninterp spec fn date_text(days: int) -> Option<Seq<char>>;

/// The text `YYYY-MM-DD` of a day counted from 1 January 1970.
///
/// Calls `chrono::NaiveDate::from_epoch_days` and, on the date it gives,
/// `format("%Y-%m-%d")`. Believed of them, not proved: whether there is such a
/// date and what its text is are functions of the number alone, here named
/// `date_text`.
#[verifier::external_body]
pub(crate) fn format_epoch_day(days: i32) -> (text: Option<String>)
    ensures
        match text {
            Some(text) => date_text(days as int) == Some(text@),
            None => date_text(days as int) is None,
        },
{
    match chrono::NaiveDate::from_epoch_days(days) {
        Some(date) => Some(date.format("%Y-%m-%d").to_string()),
        None => None,
    }
}

} // verus!
