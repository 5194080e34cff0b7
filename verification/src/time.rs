//! Instants in UTC, and their RFC 3339 text.
//!
//! An instant is held as seconds and nanoseconds since the Unix epoch.  The
//! calendar arithmetic that turns an instant into text and back is chrono's.

use vstd::prelude::*;
use chrono::{DateTime, NaiveDateTime, Utc};
use std::fmt::Write;

verus! {

/// The RFC 3339 text that chrono writes for the instant `secs` seconds and
/// `nanos` nanoseconds after the Unix epoch, in UTC; `None` where chrono
/// cannot represent the instant.
pub uninterp spec fn rfc3339_text(secs: int, nanos: int) -> Option<Seq<char>>;

/// The instant that chrono reads from an RFC 3339 text, as seconds and
/// nanoseconds since the Unix epoch; `None` where the text is not RFC 3339.
pub uninterp spec fn rfc3339_instant(text: Seq<char>) -> Option<(int, int)>;

/// Calls `chrono::Utc::now` and takes the reading apart with
/// `DateTime::timestamp` and `DateTime::timestamp_subsec_nanos`.  Nothing is
/// claimed of the reading but that chrono can represent it: it came out of a
/// `DateTime`.
#[verifier::external_body]
fn clock_reading() -> (r: (i64, u32))
    ensures
        rfc3339_text(r.0 as int, r.1 as int) is Some,
{
    let now: DateTime<Utc> = Utc::now();
    (now.timestamp(), now.timestamp_subsec_nanos())
}

/// Calls `chrono::DateTime::from_timestamp` and, where that gives an instant,
/// `DateTime::to_rfc3339` on it.  The result is what [`rfc3339_text`] names.
#[verifier::external_body]
fn format_instant(secs: i64, nanos: u32) -> (r: Option<String>)
    ensures
        match r {
            Some(s) => rfc3339_text(secs as int, nanos as int) == Some(s@),
            None => rfc3339_text(secs as int, nanos as int) is None,
        },
{
    match DateTime::from_timestamp(secs, nanos) {
        Some(instant) => Some(instant.to_rfc3339()),
        None => None,
    }
}

/// Calls `chrono::DateTime::parse_from_rfc3339` and takes the instant apart
/// with `DateTime::timestamp` and `DateTime::timestamp_subsec_nanos`.  The
/// result is what [`rfc3339_instant`] names, and chrono can represent it.
#[verifier::external_body]
fn parse_instant(text: &str) -> (r: Option<(i64, u32)>)
    ensures
        match r {
            Some(t) => rfc3339_instant(text@) == Some((t.0 as int, t.1 as int))
                && rfc3339_text(t.0 as int, t.1 as int) is Some,
            None => rfc3339_instant(text@) is None,
        },
{
    match DateTime::parse_from_rfc3339(text) {
        Ok(instant) => Some((instant.timestamp(), instant.timestamp_subsec_nanos())),
        Err(_) => None,
    }
}

/// What chrono writes for the instant under a `strftime` pattern, in UTC;
/// `None` where chrono cannot represent the instant or cannot write it under
/// the pattern.
pub uninterp spec fn pattern_text(secs: int, nanos: int, pattern: Seq<char>) -> Option<Seq<char>>;

/// The instant that chrono reads from a text under a `strftime` pattern, the
/// text taken as a date and time in UTC; `None` where the text does not fit
/// the pattern.
pub uninterp spec fn pattern_instant(text: Seq<char>, pattern: Seq<char>) -> Option<(int, int)>;

/// Calls `chrono::DateTime::from_timestamp` and writes the `Display` of
/// `DateTime::format` with the pattern.  The result is what [`pattern_text`]
/// names.
#[verifier::external_body]
fn format_instant_as(secs: i64, nanos: u32, pattern: &str) -> (r: Option<String>)
    ensures
        (match r { Some(s) => Some(s@), None => None }) == pattern_text(secs as int, nanos as int, pattern@),
{
    let instant = DateTime::from_timestamp(secs, nanos)?;
    let mut out = String::new();
    write!(out, "{}", instant.format(pattern)).ok()?;
    Some(out)
}

/// Calls `chrono::NaiveDateTime::parse_from_str` with the pattern and takes
/// the result, as a time in UTC, apart with `DateTime::timestamp` and
/// `DateTime::timestamp_subsec_nanos`.  The result is what
/// [`pattern_instant`] names, and chrono can represent it.
#[verifier::external_body]
fn parse_instant_as(text: &str, pattern: &str) -> (r: Option<(i64, u32)>)
    ensures
        match r {
            Some(t) => pattern_instant(text@, pattern@) == Some((t.0 as int, t.1 as int))
                && rfc3339_text(t.0 as int, t.1 as int) is Some,
            None => pattern_instant(text@, pattern@) is None,
        },
{
    let instant = NaiveDateTime::parse_from_str(text, pattern).ok()?.and_utc();
    Some((instant.timestamp(), instant.timestamp_subsec_nanos()))
}

/// An instant in UTC that has an RFC 3339 text.
#[derive(Clone, Copy, Debug, PartialEq, Eq, Structural)]
pub struct Timestamp {
    secs: i64,
    nanos: u32,
}

impl Timestamp {
    #[verifier::type_invariant]
    spec fn representable(self) -> bool {
        rfc3339_text(self.secs as int, self.nanos as int) is Some
    }

    /// Whole seconds since the Unix epoch.
    pub closed spec fn seconds(self) -> int {
        self.secs as int
    }

    /// Nanoseconds past the whole second.
    pub closed spec fn subsec_nanos(self) -> int {
        self.nanos as int
    }

    /// The instant with the given seconds and nanoseconds.
    pub closed spec fn at(secs: int, nanos: int) -> Timestamp {
        Timestamp { secs: secs as i64, nanos: nanos as u32 }
    }

    /// The RFC 3339 text of the instant.
    pub open spec fn text(self) -> Seq<char> {
        rfc3339_text(self.seconds(), self.subsec_nanos())->Some_0
    }

    /// Whether `self` is no later than `other`.
    pub open spec fn at_or_before(self, other: Timestamp) -> bool {
        self.seconds() < other.seconds() || (self.seconds() == other.seconds()
            && self.subsec_nanos() <= other.subsec_nanos())
    }

    /// The current time.
    pub fn now() -> Timestamp {
        let reading: (i64, u32) = clock_reading();
        Timestamp { secs: reading.0, nanos: reading.1 }
    }

    /// The instant `secs` seconds and `nanos` nanoseconds after the Unix epoch,
    /// if it has an RFC 3339 text.
    pub fn from_unix(secs: i64, nanos: u32) -> (r: Option<Timestamp>)
        ensures
            r is Some <==> rfc3339_text(secs as int, nanos as int) is Some,
            r matches Some(t) ==> t == Timestamp::at(secs as int, nanos as int),
    {
        match format_instant(secs, nanos) {
            Some(_) => Some(Timestamp { secs, nanos }),
            None => None,
        }
    }

    pub fn unix_seconds(&self) -> (r: i64)
        ensures
            r == self.seconds(),
    {
        self.secs
    }

    pub fn nanoseconds(&self) -> (r: u32)
        ensures
            r == self.subsec_nanos(),
    {
        self.nanos
    }

    /// Writes the instant as RFC 3339 text.
    pub fn to_rfc3339(&self) -> (r: String)
        ensures
            r@ == self.text(),
    {
        proof {
            use_type_invariant(self);
        }
        match format_instant(self.secs, self.nanos) {
            Some(s) => s,
            None => String::new(),
        }
    }

    /// Reads an RFC 3339 text.
    pub fn parse_rfc3339(text: &str) -> (r: Option<Timestamp>)
        ensures
            match r {
                Some(t) => rfc3339_instant(text@) == Some((t.seconds(), t.subsec_nanos()))
                    && t == Timestamp::at(t.seconds(), t.subsec_nanos()),
                None => rfc3339_instant(text@) is None,
            },
    {
        match parse_instant(text) {
            Some(t) => Some(Timestamp { secs: t.0, nanos: t.1 }),
            None => None,
        }
    }

    /// Writes the instant under a `strftime` pattern; `None` where the
    /// pattern cannot be written.
    pub fn format_as(&self, pattern: &str) -> (r: Option<String>)
        ensures
            (match r { Some(s) => Some(s@), None => None }) == pattern_text(
                self.seconds(),
                self.subsec_nanos(),
                pattern@,
            ),
    {
        format_instant_as(self.secs, self.nanos, pattern)
    }

    /// Reads a date and time in UTC under a `strftime` pattern.
    pub fn parse_as(text: &str, pattern: &str) -> (r: Option<Timestamp>)
        ensures
            match r {
                Some(t) => pattern_instant(text@, pattern@) == Some((t.seconds(), t.subsec_nanos())),
                None => pattern_instant(text@, pattern@) is None,
            },
    {
        match parse_instant_as(text, pattern) {
            Some(t) => Some(Timestamp { secs: t.0, nanos: t.1 }),
            None => None,
        }
    }

    /// Whether `self` is no later than `other`.
    pub fn is_at_or_before(&self, other: &Timestamp) -> (r: bool)
        ensures
            r == self.at_or_before(*other),
    {
        self.secs < other.secs || (self.secs == other.secs && self.nanos <= other.nanos)
    }
}

/// An instant is its seconds and nanoseconds, no more.
pub proof fn timestamp_is_its_parts(t: Timestamp)
    ensures
        t == Timestamp::at(t.seconds(), t.subsec_nanos()),
{
}

/// The seconds of an instant are a 64-bit number, its nanoseconds one of 32
/// bits.
pub proof fn timestamp_parts_are_bounded(t: Timestamp)
    ensures
        i64::MIN <= t.seconds() <= i64::MAX,
        0 <= t.subsec_nanos() <= u32::MAX,
{
}

/// The instant that a stored text stands for: the one it spells, or `fallback`
/// where it spells none.
pub open spec fn stored_instant(text: Seq<char>, fallback: Timestamp) -> Timestamp {
    match rfc3339_instant(text) {
        Some(t) => Timestamp::at(t.0, t.1),
        None => fallback,
    }
}

/// Reads a stored timestamp, falling back on `fallback` where the text is not
/// RFC 3339.
pub fn parse_datetime(text: &str, fallback: Timestamp) -> (r: Timestamp)
    ensures
        r == stored_instant(text@, fallback),
{
    match Timestamp::parse_rfc3339(text) {
        Some(t) => t,
        None => fallback,
    }
}

} // verus!
