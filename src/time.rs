//! An absolute UTC instant, and what chrono and the system clock say of
//! instants.
use vstd::prelude::*;

verus! {

/// An absolute instant: whole milliseconds since 1970-01-01T00:00:00Z
/// (negative before it), and the nanoseconds past that millisecond.
#[derive(Clone, Copy, Debug, PartialEq, Eq, Structural, Hash)]
pub struct Timestamp {
    pub millis: i64,
    pub sub_millis_nanos: u32,
}

impl Timestamp {
    /// The nanoseconds past the millisecond are fewer than a millisecond.
    pub open spec fn wf(self) -> bool {
        self.sub_millis_nanos < 1_000_000
    }

    /// The instant `millis` milliseconds after 1970-01-01T00:00:00Z.
    pub fn from_unix_millis(millis: i64) -> (r: Timestamp)
        ensures
            r == (Timestamp { millis, sub_millis_nanos: 0 }),
            r.wf(),
    {
        Timestamp { millis, sub_millis_nanos: 0 }
    }

    /// The instant `sub_millis_nanos` nanoseconds after the millisecond
    /// `millis` since 1970-01-01T00:00:00Z.
    pub fn new(millis: i64, sub_millis_nanos: u32) -> (r: Timestamp)
        requires
            sub_millis_nanos < 1_000_000,
        ensures
            r == (Timestamp { millis, sub_millis_nanos }),
            r.wf(),
    {
        Timestamp { millis, sub_millis_nanos }
    }

    /// Whole milliseconds since 1970-01-01T00:00:00Z.
    pub fn unix_millis(&self) -> (r: i64)
        ensures
            r == self.millis,
    {
        self.millis
    }

    /// Nanoseconds past the whole millisecond.
    pub fn sub_millis_nanos(&self) -> (r: u32)
        ensures
            r == self.sub_millis_nanos,
    {
        self.sub_millis_nanos
    }
}

/// What chrono makes of RFC 3339 text: the instant in whole milliseconds since
/// the Unix epoch, or chrono's error.
pub uninterp spec fn rfc3339_millis(s: Seq<char>) -> Result<i64, chrono::ParseError>;

/// Relies on chrono's `FromStr for DateTime<Utc>` (a relaxed RFC 3339 parser,
/// which depends on the text alone) and on `DateTime::timestamp_millis` to
/// turn the parsed instant into milliseconds since the Unix epoch.
#[verifier::external_body]
pub(crate) fn parse_rfc3339_millis(s: &str) -> (r: Result<i64, chrono::ParseError>)
    ensures
        r == rfc3339_millis(s@),
{
    match s.parse::<chrono::DateTime<chrono::Utc>>() {
        Ok(dt) => Ok(dt.timestamp_millis()),
        Err(e) => Err(e),
    }
}

/// A reading of the system clock.
#[verifier::external_type_specification]
#[verifier::external_body]
pub struct ExSystemTime(std::time::SystemTime);

/// How long after the Unix epoch a clock reading lies; `None` where it lies
/// before it.
pub uninterp spec fn unix_duration_of(t: std::time::SystemTime) -> Option<std::time::Duration>;

/// Relies on `SystemTime::duration_since(UNIX_EPOCH)`: the distance of a clock
/// reading after the Unix epoch, or an error where the reading lies before it.
#[verifier::external_body]
pub(crate) fn duration_since_unix_epoch(t: &std::time::SystemTime) -> (r: Option<
    std::time::Duration,
>)
    ensures
        r == unix_duration_of(*t),
{
    t.duration_since(std::time::UNIX_EPOCH).ok()
}

/// The whole milliseconds in a duration.
pub uninterp spec fn whole_millis_of(d: std::time::Duration) -> u128;

/// Relies on `Duration::as_millis`: the whole milliseconds in a duration.
#[verifier::external_body]
pub(crate) fn duration_millis(d: &std::time::Duration) -> (r: u128)
    ensures
        r == whole_millis_of(*d),
{
    d.as_millis()
}

} // verus!
