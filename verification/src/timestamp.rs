//! UTC instants.
//!
//! A [`Timestamp`] holds the whole seconds since the Unix epoch and the
//! nanoseconds past that second, as `chrono` reports them for a
//! `DateTime<Utc>`. The clock, and the RFC 3339 text form, come from `chrono`;
//! comparing instants and measuring ages is done here.

use vstd::prelude::*;

verus! {

/// Nanoseconds in a second.
pub const NANOS_PER_SEC: i128 = 1_000_000_000;

/// An instant on the UTC time line.
#[derive(Debug, Clone, Copy, PartialEq, Eq, Structural)]
pub struct Timestamp {
    /// Whole seconds since 1970-01-01T00:00:00Z.
    pub secs: i64,
    /// Nanoseconds past `secs`.
    pub nanos: u32,
}

/// What `chrono::DateTime::parse_from_rfc3339` reads from a text, as seconds
/// and nanoseconds since the epoch: `None` where it reports an error.
pub uninterp spec fn parsed_rfc3339(text: Seq<char>) -> Option<(i64, u32)>;

/// The text that `chrono::DateTime::<Utc>::to_rfc3339` writes for the instant
/// that `chrono::DateTime::from_timestamp` makes of the seconds and
/// nanoseconds: `None` where `from_timestamp` has no such instant.
pub uninterp spec fn rfc3339_text(secs: i64, nanos: u32) -> Option<Seq<char>>;

/// The instant that an optional pair of seconds and nanoseconds denotes.
pub open spec fn timestamp_of(parts: Option<(i64, u32)>) -> Option<Timestamp> {
    match parts {
        Some((secs, nanos)) => Some(Timestamp { secs, nanos }),
        None => None,
    }
}

/// The view of an optional text.
pub open spec fn text_view(text: Option<String>) -> Option<Seq<char>> {
    match text {
        Some(t) => Some(t@),
        None => None,
    }
}

/// Reads the system clock through `chrono::Utc::now` and hands back the
/// seconds and nanoseconds of the instant. The result depends on the clock, so
/// the contract promises nothing of it. `chrono` gives up where the system
/// clock stands before 1970.
#[verifier::external_body]
fn outside_now() -> (t: (i64, u32)) {
    let now = chrono::Utc::now();
    (now.timestamp(), now.timestamp_subsec_nanos())
}

/// Calls `chrono::DateTime::parse_from_rfc3339` and hands back the seconds
/// and nanoseconds of the instant read, `None` where the crate reports an
/// error. The contract names the result and claims no more.
#[verifier::external_body]
fn outside_parse_rfc3339(text: &str) -> (r: Option<(i64, u32)>)
    ensures
        r == parsed_rfc3339(text@),
{
    match chrono::DateTime::parse_from_rfc3339(text) {
        Ok(dt) => Some((dt.timestamp(), dt.timestamp_subsec_nanos())),
        Err(_) => None,
    }
}

/// Builds the instant with `chrono::DateTime::from_timestamp` and writes it
/// with `to_rfc3339`; `None` where `from_timestamp` returns `None`. The
/// contract names the text and claims no more.
#[verifier::external_body]
fn outside_to_rfc3339(secs: i64, nanos: u32) -> (r: Option<String>)
    ensures
        text_view(r) == rfc3339_text(secs, nanos),
{
    match chrono::DateTime::from_timestamp(secs, nanos) {
        Some(dt) => Some(dt.to_rfc3339()),
        None => None,
    }
}

impl Timestamp {
    /// The instant in nanoseconds since the epoch.
    pub open spec fn nanos_since_epoch(self) -> int {
        self.secs * NANOS_PER_SEC + self.nanos
    }

    /// The time elapsed from `self` to `now` is less than `max_age_secs`
    /// seconds. An instant later than `now` has a negative age.
    pub open spec fn younger_than(self, now: Timestamp, max_age_secs: u64) -> bool {
        now.nanos_since_epoch() - self.nanos_since_epoch() < max_age_secs * NANOS_PER_SEC
    }

    /// `self` is not later than `other`.
    pub open spec fn at_or_before(self, other: Timestamp) -> bool {
        self.nanos_since_epoch() <= other.nanos_since_epoch()
    }

    pub fn new(secs: i64, nanos: u32) -> (t: Timestamp)
        ensures
            t == (Timestamp { secs, nanos }),
    {
        Timestamp { secs, nanos }
    }

    /// The current instant, read from the system clock.
    pub fn now() -> Timestamp {
        let (secs, nanos) = outside_now();
        Timestamp { secs, nanos }
    }

    /// Reads an RFC 3339 date and time, such as `2024-05-01T12:00:00Z`.
    pub fn parse_from_rfc3339(text: &str) -> (r: Option<Timestamp>)
        ensures
            r == timestamp_of(parsed_rfc3339(text@)),
    {
        match outside_parse_rfc3339(text) {
            Some((secs, nanos)) => Some(Timestamp { secs, nanos }),
            None => None,
        }
    }

    /// The RFC 3339 text of the instant, `None` where the instant lies
    /// outside the range of dates that have one.
    pub fn to_rfc3339(&self) -> (r: Option<String>)
        ensures
            text_view(r) == rfc3339_text(self.secs, self.nanos),
    {
        outside_to_rfc3339(self.secs, self.nanos)
    }

    /// The instant in nanoseconds since the epoch, as a machine integer.
    fn total_nanos(&self) -> (n: i128)
        ensures
            n == self.nanos_since_epoch(),
            -10_000_000_000_000_000_000_000_000_000 <= n <= 10_000_000_000_000_000_000_000_000_000,
    {
        let secs: i128 = self.secs as i128;
        let nanos: i128 = self.nanos as i128;
        secs * NANOS_PER_SEC + nanos
    }

    /// Whether less than `max_age_secs` seconds have passed from `self` to
    /// `now`.
    pub fn is_younger_than(&self, now: &Timestamp, max_age_secs: u64) -> (r: bool)
        ensures
            r == self.younger_than(*now, max_age_secs),
    {
        let limit: i128 = (max_age_secs as i128) * NANOS_PER_SEC;
        now.total_nanos() - self.total_nanos() < limit
    }

    /// Whether `self` is not later than `other`.
    pub fn is_at_or_before(&self, other: &Timestamp) -> (r: bool)
        ensures
            r == self.at_or_before(*other),
    {
        self.total_nanos() <= other.total_nanos()
    }
}

} // verus!
