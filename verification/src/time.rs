//! Instants, as `chrono` writes and reads them.

use vstd::prelude::*;

verus! {

/// The text that `chrono` writes for an instant, in RFC 3339.
pub uninterp spec fn rfc3339_text(seconds: i64, nanos: u32) -> Seq<char>;

/// The instant that `chrono` reads from an RFC 3339 text, if it reads one.
pub uninterp spec fn rfc3339_instant(text: Seq<char>) -> Option<(i64, u32)>;

/// The first second that `chrono` can represent.
pub const MIN_SECONDS: i64 = -8_334_601_228_800;

/// The last second that `chrono` can represent.
pub const MAX_SECONDS: i64 = 8_210_266_876_799;

/// The first second of the year 0.
pub const FIRST_FOUR_DIGIT_SECOND: i64 = -62_167_219_200;

/// The last second of the year 9999.
pub const LAST_FOUR_DIGIT_SECOND: i64 = 253_402_300_799;

/// Whether a count of seconds since 1970 and a fraction in nanoseconds name an
/// instant. A fraction of a second or more marks a leap second, which only the
/// last second of a minute can have.
pub open spec fn is_instant(seconds: i64, nanos: u32) -> bool {
    &&& MIN_SECONDS <= seconds <= MAX_SECONDS
    &&& nanos < 2_000_000_000
    &&& nanos >= 1_000_000_000 ==> seconds % 60 == 59
}

/// An instant in UTC: whole seconds since 1970 and a fraction in nanoseconds.
#[derive(Debug, Clone, Copy, PartialEq, Eq, Structural, Hash, PartialOrd, Ord)]
pub struct Timestamp {
    seconds: i64,
    nanos: u32,
}

impl Timestamp {
    #[verifier::type_invariant]
    closed spec fn is_valid(self) -> bool {
        is_instant(self.seconds, self.nanos)
    }

    pub closed spec fn spec_seconds(self) -> i64 {
        self.seconds
    }

    pub closed spec fn spec_nanos(self) -> u32 {
        self.nanos
    }

    /// Whether this instant comes before another.
    pub open spec fn earlier(self, other: Timestamp) -> bool {
        self.spec_seconds() < other.spec_seconds() || (self.spec_seconds() == other.spec_seconds()
            && self.spec_nanos() < other.spec_nanos())
    }

    /// The instant's text in RFC 3339.
    pub open spec fn text(self) -> Seq<char> {
        rfc3339_text(self.spec_seconds(), self.spec_nanos())
    }

    /// Whether the instant lies in a year of four digits.
    pub open spec fn has_four_digit_year(self) -> bool {
        FIRST_FOUR_DIGIT_SECOND <= self.spec_seconds() <= LAST_FOUR_DIGIT_SECOND
    }

    /// Whether the clock may tell the instant: it is in no leap second, and in a year
    /// of four digits it reads back from its text.
    pub open spec fn is_told_by_clock(self) -> bool {
        &&& is_instant(self.spec_seconds(), self.spec_nanos())
        &&& self.spec_nanos() < 1_000_000_000
        &&& self.has_four_digit_year() ==> parsed_timestamp(self.text()) == Some(self)
    }

    /// Makes an instant of seconds and nanoseconds, if they name one.
    pub fn new(seconds: i64, nanos: u32) -> (result: Option<Timestamp>)
        ensures
            match result {
                Some(timestamp) => {
                    &&& is_instant(seconds, nanos)
                    &&& timestamp.spec_seconds() == seconds
                    &&& timestamp.spec_nanos() == nanos
                },
                None => !is_instant(seconds, nanos),
            },
    {
        if seconds < MIN_SECONDS || seconds > MAX_SECONDS || nanos >= 2_000_000_000 {
            return None;
        }
        let within_minute: i64 = if seconds >= 0 {
            seconds % 60
        } else {
            59 - (-(seconds + 1)) % 60
        };
        if nanos >= 1_000_000_000 && within_minute != 59 {
            return None;
        }
        Some(Timestamp { seconds, nanos })
    }

    pub fn seconds(&self) -> (result: i64)
        ensures
            result == self.spec_seconds(),
    {
        self.seconds
    }

    pub fn nanos(&self) -> (result: u32)
        ensures
            result == self.spec_nanos(),
    {
        self.nanos
    }

    /// Tests whether this instant comes before another.
    pub fn is_before(&self, other: &Timestamp) -> (result: bool)
        ensures
            result == self.earlier(*other),
    {
        self.seconds < other.seconds || (self.seconds == other.seconds && self.nanos < other.nanos)
    }

    /// Writes the instant in RFC 3339. The text of an instant in a year of four
    /// digits reads back as the same instant.
    pub fn to_rfc3339(&self) -> (result: String)
        ensures
            result@ == self.text(),
            self.has_four_digit_year() ==> parsed_timestamp(result@) == Some(*self),
    {
        proof {
            use_type_invariant(self);
        }
        format_rfc3339(self.seconds, self.nanos)
    }

    /// Reads an instant in RFC 3339.
    pub fn parse(text: &str) -> (result: Option<Timestamp>)
        ensures
            result == parsed_timestamp(text@),
    {
        match read_rfc3339(text) {
            Some((seconds, nanos)) => Some(Timestamp { seconds, nanos }),
            None => None,
        }
    }
}

/// The instant that an RFC 3339 text stands for, if it stands for one.
pub closed spec fn parsed_timestamp(text: Seq<char>) -> Option<Timestamp> {
    match rfc3339_instant(text) {
        Some((seconds, nanos)) => Some(Timestamp { seconds, nanos }),
        None => None,
    }
}

/// Writes an instant with `chrono::DateTime::to_rfc3339`. Where the year has four
/// digits, `chrono::DateTime::parse_from_rfc3339` reads the text back.
#[verifier::external_body]
fn format_rfc3339(seconds: i64, nanos: u32) -> (result: String)
    requires
        is_instant(seconds, nanos),
    ensures
        result@ == rfc3339_text(seconds, nanos),
        FIRST_FOUR_DIGIT_SECOND <= seconds <= LAST_FOUR_DIGIT_SECOND ==> rfc3339_instant(result@)
            == Some((seconds, nanos)),
{
    let instant = chrono::DateTime::<chrono::Utc>::from_timestamp(seconds, nanos);
    instant.expect("seconds and nanoseconds of an instant").to_rfc3339()
}

/// Reads an instant with `chrono::DateTime::parse_from_rfc3339`, a function of
/// the text alone. What it reads is an instant that `chrono` can represent.
#[verifier::external_body]
fn read_rfc3339(text: &str) -> (result: Option<(i64, u32)>)
    ensures
        result == rfc3339_instant(text@),
        match result {
            Some((seconds, nanos)) => is_instant(seconds, nanos),
            None => true,
        },
{
    match chrono::DateTime::parse_from_rfc3339(text) {
        Ok(instant) => Some((instant.timestamp(), instant.timestamp_subsec_nanos())),
        Err(_) => None,
    }
}

/// Reads the clock with `chrono::Utc::now`. Which instant it is depends on the
/// clock; whichever it is, its fraction is below a second, as the clock tells no leap
/// seconds.
#[verifier::external_body]
fn read_clock() -> (result: (i64, u32))
    ensures
        is_instant(result.0, result.1),
        result.1 < 1_000_000_000,
{
    let instant = chrono::Utc::now();
    (instant.timestamp(), instant.timestamp_subsec_nanos())
}

/// The present instant, which is never in a leap second. Which one it is depends on
/// the clock. That it reads back from its text is known once it is written out.
pub fn now() -> (result: Timestamp)
    ensures
        result.is_told_by_clock(),
{
    let (seconds, nanos) = read_clock();
    let instant = Timestamp { seconds, nanos };
    let _ = instant.to_rfc3339();
    instant
}

/// Instants are ordered: none comes before itself, the order is transitive, and
/// of two that differ exactly one comes first.
pub proof fn law_timestamp_order(a: Timestamp, b: Timestamp, c: Timestamp)
    ensures
        !a.earlier(a),
        a.earlier(b) && b.earlier(c) ==> a.earlier(c),
        a != b ==> (a.earlier(b) != b.earlier(a)),
{
}

/// Of two instants the one with fewer seconds is the earlier; within a second, the one
/// with fewer nanoseconds.
pub proof fn law_seconds_go_before_nanoseconds(a: Timestamp, b: Timestamp)
    ensures
        a.spec_seconds() < b.spec_seconds() ==> a.earlier(b) && !b.earlier(a),
        a.spec_seconds() == b.spec_seconds() ==> (a.earlier(b) <==> a.spec_nanos()
            < b.spec_nanos()),
{
}

} // verus!
