//! Instants as the API reports them, and their reading in the system's
//! time zone.  What an instant is in local time depends on the time zone
//! configured on the machine, so nothing below promises a particular
//! result: the library's logic takes whatever the calls return.

use vstd::prelude::*;

use jiff::Timestamp;

verus! {

#[verifier::external_type_specification]
#[verifier::external_body]
pub struct ExTimestamp(jiff::Timestamp);

/// A calendar date in the system's time zone.
#[derive(Clone, Copy, Debug, PartialEq, Eq, Structural)]
pub struct LocalDate {
    pub year: i16,
    pub month: i8,
    pub day: i8,
}

/// The calendar date of `ts` in the system time zone.
/// Trusted: `Timestamp::to_zoned` with `TimeZone::system()`, then
/// `Zoned::date`.  The result depends on the machine's time zone
/// setting, so the contract states nothing about it.
#[verifier::external_body]
pub fn local_date(ts: &Timestamp) -> (d: LocalDate) {
    let date = ts.to_zoned(jiff::tz::TimeZone::system()).date();
    LocalDate { year: date.year(), month: date.month(), day: date.day() }
}

/// `ts` in the system time zone as `YYYY-MM-DD HH:MM:SS`.
/// Trusted: `Timestamp::to_zoned` with `TimeZone::system()`, then
/// `strftime("%Y-%m-%d %H:%M:%S")`.  The text depends on the machine's
/// time zone, so the contract states nothing about it.
#[verifier::external_body]
pub fn local_datetime_text(ts: &Timestamp) -> (s: String) {
    ts.to_zoned(jiff::tz::TimeZone::system()).strftime("%Y-%m-%d %H:%M:%S").to_string()
}

/// `ts` in the system time zone as `HH:MM`.
/// Trusted: `Timestamp::to_zoned` with `TimeZone::system()`, then
/// `strftime("%H:%M")`.  The text depends on the machine's time zone, so
/// the contract states nothing about it.
#[verifier::external_body]
pub fn local_time_text(ts: &Timestamp) -> (s: String) {
    ts.to_zoned(jiff::tz::TimeZone::system()).strftime("%H:%M").to_string()
}

/// The day of `ts` in the system time zone as weekday, day of month and
/// month (`Mon 3 Feb`).
/// Trusted: `Timestamp::to_zoned` with `TimeZone::system()`, then
/// `strftime("%a %-d %b")`.  The text depends on the machine's time zone,
/// so the contract states nothing about it.
#[verifier::external_body]
pub fn local_day_label(ts: &Timestamp) -> (s: String) {
    ts.to_zoned(jiff::tz::TimeZone::system()).strftime("%a %-d %b").to_string()
}

} // verus!
