use vstd::prelude::*;

verus! {

/// A point in time: whole seconds since the Unix epoch and the nanoseconds
/// past that second.
#[derive(Clone, Copy, Debug, PartialEq, Eq, Structural)]
pub struct Timestamp {
    pub secs: i64,
    pub nanos: u32,
}

impl Timestamp {
    /// Nanoseconds since the Unix epoch.
    pub open spec fn as_nanos(self) -> int {
        self.secs * 1_000_000_000 + self.nanos
    }

    /// The earliest representable point in time.
    pub open spec fn spec_min() -> Timestamp {
        Timestamp { secs: i64::MIN, nanos: 0 }
    }

    /// The earliest representable point in time. A slot that has never been
    /// refreshed carries it.
    pub fn min() -> (t: Timestamp)
        ensures
            t == Self::spec_min(),
    {
        Timestamp { secs: i64::MIN, nanos: 0 }
    }

    /// A point in time a whole number of seconds from the epoch.
    pub fn from_secs(secs: i64) -> (t: Timestamp)
        ensures
            t == (Timestamp { secs, nanos: 0 }),
            t.as_nanos() == secs * 1_000_000_000,
    {
        Timestamp { secs, nanos: 0 }
    }

    /// True when `self` is not later than `other`.
    pub fn not_after(&self, other: &Timestamp) -> (r: bool)
        ensures
            r == (self.as_nanos() <= other.as_nanos()),
    {
        let a: i128 = self.secs as i128 * 1_000_000_000 + self.nanos as i128;
        let b: i128 = other.secs as i128 * 1_000_000_000 + other.nanos as i128;
        a <= b
    }
}

/// No point in time lies before `Timestamp::min()`.
pub proof fn lemma_min_is_least(t: Timestamp)
    ensures
        Timestamp::spec_min().as_nanos() <= t.as_nanos(),
{
}

/// The instant that chrono reads from an RFC 3339 date-and-time text, as
/// seconds since the Unix epoch and nanoseconds past the second; `None` where
/// chrono rejects the text.
pub uninterp spec fn rfc3339_instant(text: Seq<char>) -> Option<(i64, u32)>;

/// What `parse_rfc3339` returns for a text.
pub open spec fn spec_parse_rfc3339(text: Seq<char>) -> Option<Timestamp> {
    match rfc3339_instant(text) {
        Some((secs, nanos)) => Some(Timestamp { secs, nanos }),
        None => None,
    }
}

/// Calls `chrono::DateTime::parse_from_rfc3339` and hands back the instant it
/// found as a `Timestamp`. Nothing is claimed of which texts chrono accepts,
/// only that the answer depends on the text alone.
#[verifier::external_body]
pub(crate) fn parse_rfc3339(text: &str) -> (parsed: Option<Timestamp>)
    ensures
        parsed == match rfc3339_instant(text@) {
            Some((secs, nanos)) => Some(Timestamp { secs, nanos }),
            None => None,
        },
{
    match chrono::DateTime::parse_from_rfc3339(text) {
        Ok(at) => Some(Timestamp { secs: at.timestamp(), nanos: at.timestamp_subsec_nanos() }),
        Err(_) => None,
    }
}

} // verus!
