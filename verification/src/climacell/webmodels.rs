use crate::climacell::moon_phase::MoonPhase;
use crate::climacell::precipitation_type::PrecipitationType;
use crate::climacell::weather_code::WeatherCode;
use crate::reading::Reading;
use vstd::prelude::*;

verus! {

/// The provider's answer to a request for hourly timelines.
#[derive(Clone, Debug, PartialEq, Eq)]
pub struct HourlyRoot {
    pub data: Data,
}

#[derive(Clone, Debug, PartialEq, Eq)]
pub struct Data {
    pub timelines: Vec<Timeline>,
}

#[derive(Clone, Debug, PartialEq, Eq)]
pub struct Timeline {
    pub timestep: String,
    pub end_time: String,
    pub start_time: String,
    pub intervals: Vec<Interval>,
}

/// One hour of the forecast. `start_time` is an RFC 3339 text.
#[derive(Clone, Debug, PartialEq, Eq)]
pub struct Interval {
    pub start_time: String,
    pub values: Values,
}

#[derive(Clone, Copy, Debug, PartialEq, Eq, Structural)]
pub struct Values {
    /// Chance of precipitation in percent.
    pub precipitation_probability: Reading,
    pub precipitation_type: PrecipitationType,
    pub temperature: Reading,
    pub temperature_apparent: Reading,
    pub weather_code: WeatherCode,
    pub humidity: Option<Reading>,
    pub dew_point: Option<Reading>,
}

/// The provider's answer to a request for daily timelines.
#[derive(Clone, Debug, PartialEq, Eq)]
pub struct DailyRoot {
    pub data: DailyData,
}

#[derive(Clone, Debug, PartialEq, Eq)]
pub struct DailyData {
    pub timelines: Vec<DailyTimelines>,
}

#[derive(Clone, Debug, PartialEq, Eq)]
pub struct DailyTimelines {
    pub timestep: String,
    pub end_time: String,
    pub start_time: String,
    pub intervals: Vec<DailyIntervals>,
}

/// One day of the forecast. `start_time` is an RFC 3339 text.
#[derive(Clone, Debug, PartialEq, Eq)]
pub struct DailyIntervals {
    pub start_time: String,
    pub values: DailyValues,
}

/// `sunrise_time` and `sunset_time` are RFC 3339 texts.
#[derive(Clone, Debug, PartialEq, Eq)]
pub struct DailyValues {
    pub moon_phase: MoonPhase,
    pub sunrise_time: String,
    pub sunset_time: String,
    pub temperature_max: Reading,
    pub temperature_min: Reading,
    pub weather_code: WeatherCode,
}

} // verus!
