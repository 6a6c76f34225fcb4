//! Instants and spans in milliseconds since the Unix epoch, with the
//! conversions to and from text that chrono performs.

use vstd::prelude::*;

verus! {

/// The first millisecond of year 1 (0001-01-01T00:00:00Z).
pub const MIN_MILLIS: i64 = -62_135_596_800_000;

/// The last millisecond of year 9999 (9999-12-31T23:59:59.999Z).
pub const MAX_MILLIS: i64 = 253_402_300_799_999;

pub const SECOND_MS: i64 = 1000;

pub const MINUTE_MS: i64 = 60_000;

pub const HOUR_MS: i64 = 3_600_000;

pub const DAY_MS: i64 = 86_400_000;

/// An absolute point in time, in UTC milliseconds since the Unix epoch.
#[derive(Clone, Copy, Debug, PartialEq, Eq, Structural)]
pub struct Instant {
    pub ms: i64,
}

impl Instant {
    /// Instants of the years 1 to 9999, the range that the text forms cover.
    pub open spec fn valid(self) -> bool {
        MIN_MILLIS <= self.ms <= MAX_MILLIS
    }

    /// The instant `ms` milliseconds after the epoch, if it is in range.
    pub fn from_millis(ms: i64) -> (r: Option<Instant>)
        ensures
            r == (if MIN_MILLIS <= ms <= MAX_MILLIS {
                Some(Instant { ms })
            } else {
                None::<Instant>
            }),
    {
        if MIN_MILLIS <= ms && ms <= MAX_MILLIS {
            Some(Instant { ms })
        } else {
            None
        }
    }

    /// The instant `delta` milliseconds later (earlier when negative), if it is in range.
    pub fn checked_add_millis(self, delta: i64) -> (r: Option<Instant>)
        requires
            self.valid(),
        ensures
            r == (if MIN_MILLIS <= self.ms + delta <= MAX_MILLIS {
                Some(Instant { ms: (self.ms + delta) as i64 })
            } else {
                None::<Instant>
            }),
    {
        if delta > MAX_MILLIS - self.ms || delta < MIN_MILLIS - self.ms {
            None
        } else {
            Some(Instant { ms: self.ms + delta })
        }
    }

    /// Milliseconds from `earlier` to `self` (negative when `self` comes first).
    pub fn millis_since(self, earlier: Instant) -> (r: i64)
        requires
            self.valid(),
            earlier.valid(),
        ensures
            r == self.ms - earlier.ms,
    {
        self.ms - earlier.ms
    }

    /// The instant that a timestamp text denotes, when chrono reads one and
    /// it lies in the supported range.
    pub open spec fn parse_spec(s: Seq<char>) -> Option<Instant> {
        match parsed_utc_millis(s) {
            Some(m) => if MIN_MILLIS <= m <= MAX_MILLIS {
                Some(Instant { ms: m as i64 })
            } else {
                None::<Instant>
            },
            None => None::<Instant>,
        }
    }

    /// Parses a timestamp as chrono reads a `DateTime<Utc>` (RFC 3339 with
    /// an offset), keeping it only when it lies in the supported range.
    pub fn parse(s: &str) -> (r: Option<Instant>)
        ensures
            r == Instant::parse_spec(s@),
            r matches Some(t) ==> t.valid(),
    {
        match parse_utc_millis(s) {
            Some(m) => Instant::from_millis(m),
            None => None,
        }
    }
}

/// The UTC milliseconds that chrono reads from a timestamp text, if it reads one.
pub uninterp spec fn parsed_utc_millis(s: Seq<char>) -> Option<int>;

/// The RFC 3339 text, to the second and with a `Z` suffix, that chrono writes
/// for an instant given in milliseconds.
pub uninterp spec fn iso_seconds_utc(ms: int) -> Seq<char>;

/// Relies on chrono's `FromStr for DateTime<Utc>` (the parse that serde uses
/// for this type) and on `DateTime::timestamp_millis`, which is total.
#[verifier::external_body]
fn parse_utc_millis(s: &str) -> (r: Option<i64>)
    ensures
        r matches Some(m) ==> parsed_utc_millis(s@) == Some(m as int),
        r is None ==> parsed_utc_millis(s@) is None,
{
    s.parse::<chrono::DateTime<chrono::Utc>>().ok().map(|d| d.timestamp_millis())
}

/// Relies on chrono's `DateTime::from_timestamp_millis`, which succeeds for
/// every instant of the years 1 to 9999, and on
/// `DateTime::to_rfc3339_opts(SecondsFormat::Secs, true)`, which never fails.
#[verifier::external_body]
pub(crate) fn format_iso(t: Instant) -> (r: String)
    requires
        t.valid(),
    ensures
        r@ == iso_seconds_utc(t.ms as int),
{
    let dt = chrono::DateTime::<chrono::Utc>::from_timestamp_millis(t.ms).unwrap();
    dt.to_rfc3339_opts(chrono::SecondsFormat::Secs, true)
}

/// Relies on chrono's conversion of a `DateTime<Utc>` to `DateTime<Local>` and
/// its `format("%a %d %b %H:%M")`. The text depends on the machine's time zone,
/// so nothing is stated of it.
#[verifier::external_body]
pub(crate) fn format_readable(t: Instant) -> (r: String)
    requires
        t.valid(),
{
    let dt = chrono::DateTime::<chrono::Utc>::from_timestamp_millis(t.ms).unwrap();
    let local: chrono::DateTime<chrono::Local> = dt.into();
    local.format("%a %d %b %H:%M").to_string()
}

} // verus!
