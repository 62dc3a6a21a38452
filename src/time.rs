//! Instants and calendar dates, held as their normalised wire text.
//!
//! Parsing and normalising is chrono's work; the library keeps the text that
//! chrono writes back, which is what goes out on the wire again.

use vstd::prelude::*;

verus! {

/// What chrono makes of an RFC 3339 timestamp: the same instant written in
/// UTC, or `None` where chrono refuses the text.
pub uninterp spec fn rfc3339_utc_of(s: Seq<char>) -> Option<Seq<char>>;

/// What chrono makes of a `%Y-%m-%d` calendar date: the date written back,
/// or `None` where chrono refuses the text.
pub uninterp spec fn iso_date_of(s: Seq<char>) -> Option<Seq<char>>;

/// Relies on chrono's `FromStr for DateTime<FixedOffset>` (relaxed RFC 3339)
/// and `DateTime::to_rfc3339_opts(SecondsFormat::AutoSi, true)` after
/// `with_timezone(&Utc)`: the form chrono's serde support reads and writes.
#[verifier::external_body]
fn utc_rfc3339(s: &str) -> (r: Option<String>)
    ensures
        match r {
            Some(t) => rfc3339_utc_of(s@) == Some(t@),
            None => rfc3339_utc_of(s@) is None,
        },
{
    match s.parse::<chrono::DateTime<chrono::FixedOffset>>() {
        Ok(d) => Some(d.with_timezone(&chrono::Utc).to_rfc3339_opts(chrono::SecondsFormat::AutoSi, true)),
        Err(_) => None,
    }
}

/// Relies on chrono's `FromStr for NaiveDate` (`%Y-%m-%d`) and its `Display`,
/// the form chrono's serde support reads and writes.
#[verifier::external_body]
fn iso_date(s: &str) -> (r: Option<String>)
    ensures
        match r {
            Some(t) => iso_date_of(s@) == Some(t@),
            None => iso_date_of(s@) is None,
        },
{
    match s.parse::<chrono::NaiveDate>() {
        Ok(d) => Some(d.to_string()),
        Err(_) => None,
    }
}

/// An instant, kept as its RFC 3339 text in UTC.
#[derive(Clone, Debug, PartialEq, Eq)]
pub struct Timestamp {
    text: String,
}

impl View for Timestamp {
    type V = Seq<char>;

    closed spec fn view(&self) -> Seq<char> {
        self.text@
    }
}

impl Timestamp {
    /// Reads an RFC 3339 timestamp; text that chrono refuses gives `None`.
    pub fn parse(s: &str) -> (r: Option<Timestamp>)
        ensures
            match r {
                Some(t) => rfc3339_utc_of(s@) == Some(t@),
                None => rfc3339_utc_of(s@) is None,
            },
    {
        match utc_rfc3339(s) {
            Some(text) => Some(Timestamp { text }),
            None => None,
        }
    }

    /// The RFC 3339 text of this instant, in UTC.
    pub fn as_str(&self) -> (r: &str)
        ensures
            r@ == self@,
    {
        self.text.as_str()
    }
}

/// A calendar date, kept as its `%Y-%m-%d` text.
#[derive(Clone, Debug, PartialEq, Eq)]
pub struct Date {
    text: String,
}

impl View for Date {
    type V = Seq<char>;

    closed spec fn view(&self) -> Seq<char> {
        self.text@
    }
}

impl Date {
    /// Reads a `%Y-%m-%d` date; text that chrono refuses gives `None`.
    pub fn parse(s: &str) -> (r: Option<Date>)
        ensures
            match r {
                Some(d) => iso_date_of(s@) == Some(d@),
                None => iso_date_of(s@) is None,
            },
    {
        match iso_date(s) {
            Some(text) => Some(Date { text }),
            None => None,
        }
    }

    /// The `%Y-%m-%d` text of this date.
    pub fn as_str(&self) -> (r: &str)
        ensures
            r@ == self@,
    {
        self.text.as_str()
    }
}

/// A span of time in whole minutes, the unit the API counts timers in.
#[derive(Clone, Copy, Debug, PartialEq, Eq, Structural)]
pub struct Minutes {
    pub minutes: i64,
}

} // verus!
