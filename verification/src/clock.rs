//! The wall clock, and instants as text.
//!
//! Records are stamped with RFC 3339 text. The clock is read and instants
//! are rendered through `chrono`; the arithmetic on instants in between is
//! this crate's own.

use vstd::prelude::*;

verus! {

/// An instant in UTC: whole seconds since the Unix epoch and the nanoseconds
/// into that second.
#[derive(Debug, Clone, Copy, PartialEq, Eq, Structural)]
pub struct Timestamp {
    pub secs: i64,
    pub nanos: u32,
}

/// The RFC 3339 text of the instant `secs` seconds and `nanos` nanoseconds
/// after the Unix epoch, as `chrono` renders it in UTC; `None` for an instant
/// outside the range of `chrono`'s calendar.
pub uninterp spec fn rfc3339_text(secs: i64, nanos: u32) -> Option<Seq<char>>;

/// The characters of an optional string.
pub open spec fn text_of(s: Option<String>) -> Option<Seq<char>> {
    match s {
        Some(s) => Some(s@),
        None => None,
    }
}

impl Timestamp {
    /// The instant `secs` seconds later, as integers.
    pub open spec fn spec_plus_secs(self, secs: u64) -> Option<Timestamp> {
        if self.secs + secs <= i64::MAX {
            Some(Timestamp { secs: (self.secs + secs) as i64, nanos: self.nanos })
        } else {
            None
        }
    }

    /// The instant `secs` seconds later; `None` where the seconds since the
    /// epoch would no longer fit.
    pub fn plus_secs(self, secs: u64) -> (r: Option<Timestamp>)
        ensures
            r == self.spec_plus_secs(secs),
    {
        let sum: i128 = self.secs as i128 + secs as i128;
        if sum <= i64::MAX as i128 {
            Some(Timestamp { secs: sum as i64, nanos: self.nanos })
        } else {
            None
        }
    }

    /// The RFC 3339 text of the instant.
    pub open spec fn text(self) -> Option<Seq<char>> {
        rfc3339_text(self.secs, self.nanos)
    }
}

/// Whether `text` is the RFC 3339 text of some instant.
pub open spec fn is_instant_text(text: Seq<char>) -> bool {
    exists|at: Timestamp| #[trigger] at.text() == Some(text)
}

/// Reads the wall clock with `chrono::Utc::now` and hands the reading back as
/// seconds and nanoseconds since the epoch. Nothing is claimed of the
/// instant but that it lies in the range of `chrono`'s calendar, so that it
/// has an RFC 3339 text: `now` itself builds its result from such a pair.
/// `now` panics if the system clock stands before the Unix epoch.
#[verifier::external_body]
pub(crate) fn utc_now() -> (t: Timestamp)
    ensures
        rfc3339_text(t.secs, t.nanos) is Some,
{
    let now = chrono::Utc::now();
    Timestamp { secs: now.timestamp(), nanos: now.timestamp_subsec_nanos() }
}

/// Renders an instant with `chrono::DateTime::to_rfc3339`, after building
/// the `DateTime<Utc>` with `DateTime::from_timestamp`. The contract gives
/// the text a name and claims that it depends on the two integers alone.
#[verifier::external_body]
pub(crate) fn rfc3339(t: Timestamp) -> (r: Option<String>)
    ensures
        text_of(r) == rfc3339_text(t.secs, t.nanos),
{
    match chrono::DateTime::from_timestamp(t.secs, t.nanos) {
        Some(instant) => Some(instant.to_rfc3339()),
        None => None,
    }
}

/// The year of the instant `secs` seconds and `nanos` nanoseconds after the
/// Unix epoch in the proleptic Gregorian calendar, in UTC, as `chrono`
/// computes it; `None` for an instant outside the range of `chrono`'s
/// calendar.
pub uninterp spec fn calendar_year(secs: i64, nanos: u32) -> Option<i32>;

/// Finds the year of an instant with `chrono::Datelike::year`, after
/// building the `DateTime<Utc>` with `DateTime::from_timestamp`. The contract
/// gives the year a name and claims that it depends on the two integers
/// alone.
#[verifier::external_body]
pub(crate) fn year_of(t: Timestamp) -> (r: Option<i32>)
    ensures
        r == calendar_year(t.secs, t.nanos),
{
    match chrono::DateTime::from_timestamp(t.secs, t.nanos) {
        Some(instant) => Some(chrono::Datelike::year(&instant)),
        None => None,
    }
}

} // verus!
