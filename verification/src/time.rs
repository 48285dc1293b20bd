//! Points in time, as the engines compare and print them.
use vstd::prelude::*;

verus! {

/// A point in time: seconds since 1970-01-01T00:00:00Z, and the nanoseconds
/// into that second.
#[derive(Clone, Copy, Debug, PartialEq, Eq, Structural)]
pub struct Timestamp {
    pub seconds: i64,
    pub nanos: u32,
}

/// Whether `a` is not before `b`.
pub open spec fn not_before(a: Timestamp, b: Timestamp) -> bool {
    a.seconds > b.seconds || (a.seconds == b.seconds && a.nanos >= b.nanos)
}

/// The date and time of a point in time as `YYYY-MM-DDTHH:MM:SS`, where the
/// calendar reaches that far.
pub uninterp spec fn iso8601(seconds: int, nanos: int) -> Option<Seq<char>>;

/// Writes a point in time as `YYYY-MM-DDTHH:MM:SS`.
///
/// Trusted: wraps `chrono::DateTime::from_timestamp`, which gives no time
/// for seconds outside the calendar or nanoseconds that no second has, and
/// `DateTime::format`, whose text depends on the point in time alone since
/// the time zone is UTC.
#[verifier::external_body]
fn format_utc(seconds: i64, nanos: u32) -> (text: Option<String>)
    ensures
        match iso8601(seconds as int, nanos as int) {
            Some(t) => text matches Some(s) && s@ == t,
            None => text is None,
        },
{
    chrono::DateTime::from_timestamp(seconds, nanos).map(
        |t| t.format("%Y-%m-%dT%H:%M:%S").to_string(),
    )
}

impl Timestamp {
    pub fn new(seconds: i64, nanos: u32) -> (t: Timestamp)
        ensures
            t.seconds == seconds,
            t.nanos == nanos,
    {
        Timestamp { seconds, nanos }
    }

    /// Whether this point in time is not before `other`.
    pub fn is_not_before(&self, other: &Timestamp) -> (b: bool)
        ensures
            b == not_before(*self, *other),
    {
        self.seconds > other.seconds || (self.seconds == other.seconds && self.nanos >= other.nanos)
    }

    /// The date and time as `YYYY-MM-DDTHH:MM:SS`, where the calendar
    /// reaches that far.
    pub fn to_iso8601(&self) -> (text: Option<String>)
        ensures
            match iso8601(self.seconds as int, self.nanos as int) {
                Some(t) => text matches Some(s) && s@ == t,
                None => text is None,
            },
    {
        format_utc(self.seconds, self.nanos)
    }
}

} // verus!
