//! Instants in UTC, held as seconds since the UNIX epoch and nanoseconds.
//! Reading the clock, parsing and printing RFC 3339 text are done by `chrono`.

use vstd::prelude::*;

verus! {

/// The first second that `chrono` can represent (`DateTime::<Utc>::MIN_UTC`).
pub const MIN_SECS: i64 = -8334601228800i64;

/// The last second that `chrono` can represent (`DateTime::<Utc>::MAX_UTC`).
pub const MAX_SECS: i64 = 8210266876799i64;

/// The first second whose RFC 3339 text has a four-digit year
/// (0000-01-01T00:00:00Z).
pub const RFC3339_MIN_SECS: i64 = -62167219200i64;

/// The last second whose RFC 3339 text has a four-digit year
/// (9999-12-31T23:59:59Z).
pub const RFC3339_MAX_SECS: i64 = 253402300799i64;

/// An instant in UTC: `DateTime::<Utc>::timestamp` and
/// `timestamp_subsec_nanos`.
#[derive(Debug, Clone, Copy, PartialEq, Eq, Hash, Structural)]
pub struct Timestamp {
    pub secs: i64,
    pub nanos: u32,
}

impl Timestamp {
    /// Whether `chrono::DateTime::from_timestamp` accepts this pair: the
    /// seconds lie in `chrono`'s range, and the nanoseconds are below one
    /// second, or below two at the last second of a minute (a leap second).
    pub open spec fn in_range(self) -> bool {
        &&& MIN_SECS <= self.secs <= MAX_SECS
        &&& (self.nanos < 1_000_000_000 || (self.nanos < 2_000_000_000 && self.secs % 60 == 59))
    }

    /// Whether the instant's year has four digits, so that its RFC 3339
    /// text is one that `DateTime::parse_from_rfc3339` reads.
    pub open spec fn four_digit_year(self) -> bool {
        RFC3339_MIN_SECS <= self.secs <= RFC3339_MAX_SECS
    }

    /// Strictly earlier than `other`.
    pub open spec fn earlier(self, other: Timestamp) -> bool {
        self.secs < other.secs || (self.secs == other.secs && self.nanos < other.nanos)
    }

    /// Whether `chrono` can represent this instant (see `in_range`).
    pub fn is_in_range(&self) -> (r: bool)
        ensures
            r == self.in_range(),
    {
        if !(MIN_SECS <= self.secs && self.secs <= MAX_SECS) {
            return false;
        }
        // MIN_SECS is a multiple of 60, so shifting by it keeps the second
        // of the minute and makes the count non-negative.
        let shifted: u64 = (self.secs - MIN_SECS) as u64;
        let second_of_minute: u64 = shifted % 60;
        proof {
            let s = self.secs as int;
            assert((s + 60 * 138910020480) % 60 == s % 60) by {
                vstd::arithmetic::div_mod::lemma_mod_multiples_vanish(138910020480, s, 60);
            }
        }
        self.nanos < 1_000_000_000 || (self.nanos < 2_000_000_000 && second_of_minute == 59)
    }

    /// Strictly earlier than `other` (the order of `DateTime<Utc>`).
    pub fn is_before(&self, other: &Timestamp) -> (r: bool)
        ensures
            r == self.earlier(*other),
    {
        self.secs < other.secs || (self.secs == other.secs && self.nanos < other.nanos)
    }
}

/// The RFC 3339 text that `DateTime::<Utc>::to_rfc3339` prints for an instant.
pub uninterp spec fn rfc3339_text(secs: i64, nanos: u32) -> Seq<char>;

/// The instant that `DateTime::parse_from_rfc3339` reads from a text, taken to
/// UTC; `None` where it refuses the text.
pub uninterp spec fn rfc3339_parse(text: Seq<char>) -> Option<(i64, u32)>;

/// The current instant from `chrono::Utc::now`. Nothing is said of its value
/// but that `chrono` produced it, so it lies in `chrono`'s range.
#[verifier::external_body]
pub fn now() -> (r: Timestamp)
    ensures
        r.in_range(),
{
    let d = chrono::Utc::now();
    Timestamp { secs: d.timestamp(), nanos: d.timestamp_subsec_nanos() }
}

/// Parses RFC 3339 text with `DateTime::parse_from_rfc3339` and takes it to
/// UTC. What `chrono` parses lies in its range.
#[verifier::external_body]
pub fn parse_rfc3339(text: &str) -> (r: Option<Timestamp>)
    ensures
        match r {
            Some(t) => rfc3339_parse(text@) == Some((t.secs, t.nanos)) && t.in_range(),
            None => rfc3339_parse(text@) is None,
        },
{
    match chrono::DateTime::parse_from_rfc3339(text) {
        Ok(d) => Some(Timestamp { secs: d.timestamp(), nanos: d.timestamp_subsec_nanos() }),
        Err(_) => None,
    }
}

/// The RFC 3339 text of an instant: `DateTime::from_timestamp` then
/// `to_rfc3339`. Where the year has four digits, `parse_from_rfc3339` reads
/// that text back as the same instant: the year, month, day, hour, minute
/// and second are printed in full (a leap second as second 60), the
/// nanoseconds as a fraction when there are any, and the offset `+00:00`.
#[verifier::external_body]
pub fn to_rfc3339(t: &Timestamp) -> (r: String)
    requires
        t.in_range(),
    ensures
        r@ == rfc3339_text(t.secs, t.nanos),
        t.four_digit_year() ==> rfc3339_parse(r@) == Some((t.secs, t.nanos)),
{
    chrono::DateTime::from_timestamp(t.secs, t.nanos).expect("in range").to_rfc3339()
}

/// The later of two optional instants; an absent one is ignored.
pub open spec fn spec_max_dt(a: Option<Timestamp>, b: Option<Timestamp>) -> Option<Timestamp> {
    match (a, b) {
        (Some(x), Some(y)) => Some(if y.earlier(x) { x } else { y }),
        (None, y) => y,
        (x, None) => x,
    }
}

/// The later of two optional instants; an absent one is ignored.
pub fn max_dt(a: Option<Timestamp>, b: Option<Timestamp>) -> (r: Option<Timestamp>)
    ensures
        r == spec_max_dt(a, b),
{
    match (a, b) {
        (Some(x), Some(y)) => Some(if y.is_before(&x) { x } else { y }),
        (None, y) => y,
        (x, None) => x,
    }
}

} // verus!
