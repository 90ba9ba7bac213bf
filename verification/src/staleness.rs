use crate::timestamp::Timestamp;
use vstd::prelude::*;

verus! {

/// The data sources that are cached, each with its own slot and threshold.
#[derive(Clone, Copy, Debug, PartialEq, Eq, Structural)]
pub enum SourceKind {
    Hourly,
    Daily,
    Instant,
}

/// Seconds between two passes of the refresh loop.
pub const TICK_INTERVAL_SECS: u64 = 900;

impl SourceKind {
    /// Age in seconds beyond which cached data of this source is stale:
    /// half an hour for observations, eight hours for the hourly forecast, a
    /// day for the daily forecast.
    pub open spec fn spec_threshold_secs(self) -> u64 {
        match self {
            SourceKind::Instant => 1_800,
            SourceKind::Hourly => 28_800,
            SourceKind::Daily => 86_400,
        }
    }

    #[verifier::when_used_as_spec(spec_threshold_secs)]
    pub fn threshold_secs(self) -> (secs: u64)
        ensures
            secs == self.spec_threshold_secs(),
    {
        match self {
            SourceKind::Instant => 1_800,
            SourceKind::Hourly => 28_800,
            SourceKind::Daily => 86_400,
        }
    }

    /// How many of the most recent stored records are read back to fill an
    /// empty slot: a day and an hour of hours, a week and a day of days, one
    /// observation.
    pub open spec fn spec_recent_limit(self) -> usize {
        match self {
            SourceKind::Instant => 1,
            SourceKind::Hourly => 25,
            SourceKind::Daily => 8,
        }
    }

    #[verifier::when_used_as_spec(spec_recent_limit)]
    pub fn recent_limit(self) -> (limit: usize)
        ensures
            limit == self.spec_recent_limit(),
    {
        match self {
            SourceKind::Instant => 1,
            SourceKind::Hourly => 25,
            SourceKind::Daily => 8,
        }
    }

    /// How far ahead of the request, in seconds, the forecast of this source
    /// is asked for: a day of hours, five days of days. Observations are of
    /// the present.
    pub open spec fn spec_forecast_horizon_secs(self) -> u64 {
        match self {
            SourceKind::Instant => 0,
            SourceKind::Hourly => 86_400,
            SourceKind::Daily => 432_000,
        }
    }

    #[verifier::when_used_as_spec(spec_forecast_horizon_secs)]
    pub fn forecast_horizon_secs(self) -> (secs: u64)
        ensures
            secs == self.spec_forecast_horizon_secs(),
    {
        match self {
            SourceKind::Instant => 0,
            SourceKind::Hourly => 86_400,
            SourceKind::Daily => 432_000,
        }
    }

    /// Whether storage is asked at startup when this source was last
    /// persisted. Observations are not: they always start out stale.
    pub open spec fn spec_has_startup_probe(self) -> bool {
        self != SourceKind::Instant
    }

    #[verifier::when_used_as_spec(spec_has_startup_probe)]
    pub fn has_startup_probe(self) -> (probed: bool)
        ensures
            probed == self.spec_has_startup_probe(),
    {
        match self {
            SourceKind::Instant => false,
            SourceKind::Hourly => true,
            SourceKind::Daily => true,
        }
    }

    /// Whether data of this source, last refreshed at `last_refreshed_at`, is
    /// stale at `now`.
    pub open spec fn spec_is_stale_at(self, now: Timestamp, last_refreshed_at: Timestamp) -> bool {
        spec_is_stale(now, last_refreshed_at, self.spec_threshold_secs())
    }

    pub fn is_stale_at(self, now: Timestamp, last_refreshed_at: Timestamp) -> (stale: bool)
        ensures
            stale == self.spec_is_stale_at(now, last_refreshed_at),
    {
        is_stale(now, last_refreshed_at, self.threshold_secs())
    }
}

/// Staleness as a relation on points in time: the gap from
/// `last_refreshed_at` to `now` is strictly greater than the threshold.
pub open spec fn spec_is_stale(now: Timestamp, last_refreshed_at: Timestamp, threshold_secs: u64) -> bool {
    now.as_nanos() - last_refreshed_at.as_nanos() > threshold_secs * 1_000_000_000
}

/// True when more than `threshold_secs` seconds lie between
/// `last_refreshed_at` and `now`. A gap of exactly the threshold is still
/// fresh.
pub fn is_stale(now: Timestamp, last_refreshed_at: Timestamp, threshold_secs: u64) -> (stale: bool)
    ensures
        stale == spec_is_stale(now, last_refreshed_at, threshold_secs),
{
    let gap: i128 = (now.secs as i128 - last_refreshed_at.secs as i128) * 1_000_000_000 + (now.nanos
        as i128 - last_refreshed_at.nanos as i128);
    gap > threshold_secs as i128 * 1_000_000_000
}

/// Data whose age equals the threshold is fresh, and any greater age is stale.
pub proof fn lemma_stale_boundary(now: Timestamp, last_refreshed_at: Timestamp, threshold_secs: u64)
    ensures
        now.as_nanos() - last_refreshed_at.as_nanos() == threshold_secs * 1_000_000_000
            ==> !spec_is_stale(now, last_refreshed_at, threshold_secs),
        now.as_nanos() - last_refreshed_at.as_nanos() > threshold_secs * 1_000_000_000
            ==> spec_is_stale(now, last_refreshed_at, threshold_secs),
{
}

/// Staleness never reverts as time passes: once stale, stale at every later
/// moment until the next refresh.
pub proof fn lemma_stale_is_upward_closed(
    earlier: Timestamp,
    later: Timestamp,
    last_refreshed_at: Timestamp,
    threshold_secs: u64,
)
    requires
        earlier.as_nanos() <= later.as_nanos(),
        spec_is_stale(earlier, last_refreshed_at, threshold_secs),
    ensures
        spec_is_stale(later, last_refreshed_at, threshold_secs),
{
}

/// A slot that was never refreshed is stale at every moment from the epoch
/// on, whatever the source.
pub proof fn lemma_never_refreshed_is_stale(kind: SourceKind, now: Timestamp)
    requires
        now.secs >= 0,
    ensures
        kind.spec_is_stale_at(now, Timestamp::spec_min()),
{
}

} // verus!
