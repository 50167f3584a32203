//! Instants on the UTC time line, as plain integers.

use vstd::prelude::*;

verus! {

/// The last second of the year 9999, in seconds since the Unix epoch.
pub const LAST_FOUR_DIGIT_YEAR_SECOND: i64 = 253_402_300_799;

/// An instant: whole seconds since the Unix epoch, and the nanoseconds past that second.
#[derive(Clone, Copy, Debug, PartialEq, Eq, Structural)]
pub struct Timestamp {
    pub secs: i64,
    pub nanos: u32,
}

impl Timestamp {
    /// `self` is not later than `other`: the order of the pairs `(secs, nanos)`.
    pub open spec fn at_or_before(self, other: Timestamp) -> bool {
        self.secs < other.secs || (self.secs == other.secs && self.nanos <= other.nanos)
    }

    /// The instant `n` seconds after `self`, unless its seconds leave the range of `i64`.
    pub open spec fn spec_plus_seconds(self, n: int) -> Option<Timestamp> {
        if i64::MIN <= self.secs + n <= i64::MAX {
            Some(Timestamp { secs: (self.secs + n) as i64, nanos: self.nanos })
        } else {
            None
        }
    }

    pub fn new(secs: i64, nanos: u32) -> (t: Timestamp)
        ensures
            t.secs == secs,
            t.nanos == nanos,
    {
        Timestamp { secs, nanos }
    }

    pub fn is_at_or_before(&self, other: &Timestamp) -> (r: bool)
        ensures
            r == self.at_or_before(*other),
    {
        self.secs < other.secs || (self.secs == other.secs && self.nanos <= other.nanos)
    }

    pub fn plus_seconds(&self, n: i64) -> (r: Option<Timestamp>)
        ensures
            r == self.spec_plus_seconds(n as int),
    {
        match self.secs.checked_add(n) {
            Some(secs) => Some(Timestamp { secs, nanos: self.nanos }),
            None => None,
        }
    }
}

/// What `chrono` writes for the instant `secs` seconds after the Unix epoch under the pattern
/// `%a, %d %b %Y %T GMT`, or `None` where `chrono` has no date for that many seconds.
pub uninterp spec fn http_date_text(secs: i64) -> Option<Seq<char>>;

/// Every character is a printable ASCII character or a space.
pub open spec fn is_printable_ascii(s: Seq<char>) -> bool {
    forall|i: int| 0 <= i < s.len() ==> ' ' <= #[trigger] s[i] <= '~'
}

/// What a reading of the system clock is known to satisfy: it is not before the Unix epoch, and
/// its nanoseconds stay below one second.
pub open spec fn is_clock_reading(t: Timestamp) -> bool {
    t.secs >= 0 && t.nanos < 1_000_000_000
}

/// Reads the system clock with `chrono::Utc::now`.
///
/// Trusted: the clock is read as a duration since the Unix epoch, so the seconds are not
/// negative and the nanoseconds are below one second. Nothing else is known of the result.
#[verifier::external_body]
pub(crate) fn current_time() -> (t: Timestamp)
    ensures
        is_clock_reading(t),
{
    let now = chrono::Utc::now();
    Timestamp { secs: now.timestamp(), nanos: now.timestamp_subsec_nanos() }
}

/// Formats an instant as an HTTP date with `chrono::DateTime::from_timestamp` and
/// `DateTime::format`.
///
/// Trusted: the text is a function of the seconds alone; `chrono` has a date for every second
/// of the years 1970 to 9999; and the pattern writes only names, digits, signs, spaces, commas
/// and colons.
#[verifier::external_body]
pub(crate) fn format_http_date(secs: i64) -> (r: Option<String>)
    ensures
        match r {
            Some(text) => http_date_text(secs) == Some(text@),
            None => http_date_text(secs) is None,
        },
        0 <= secs <= LAST_FOUR_DIGIT_YEAR_SECOND ==> r is Some,
        r matches Some(text) ==> is_printable_ascii(text@),
{
    match chrono::DateTime::from_timestamp(secs, 0) {
        Some(date) => Some(date.format("%a, %d %b %Y %T GMT").to_string()),
        None => None,
    }
}

} // verus!
