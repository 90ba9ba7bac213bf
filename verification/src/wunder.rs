use crate::reading::Reading;
use crate::timestamp::Timestamp;
use vstd::prelude::*;

verus! {

/// One observation of the weather station. `id` is given by storage and is
/// 0 until then; `created_at` is when the record was captured.
/// `obs_time_local` is the station's wall-clock time, kept as the moment it
/// would name in UTC.
#[derive(Clone, Copy, Debug, PartialEq, Eq, Structural)]
pub struct InstantObservation {
    pub id: i32,
    pub created_at: Timestamp,
    pub obs_time_utc: Timestamp,
    pub obs_time_local: Timestamp,
    pub temp: Reading,
    pub heat_index: Reading,
    pub wind_chill: Reading,
    pub dewpt: Reading,
    pub humidity: Reading,
    pub precip_rate: Reading,
    pub precip_total: Reading,
    pub wind_speed: Reading,
    pub winddir: Reading,
    pub wind_gust: Reading,
    pub pressure: Reading,
    pub solar_radiation: Reading,
    pub uv: Reading,
}

} // verus!
