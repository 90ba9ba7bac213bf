use crate::climacell::moon_phase::MoonPhase;
use crate::climacell::precipitation_type::PrecipitationType;
use crate::climacell::weather_code::WeatherCode;
use crate::climacell::webmodels::{DailyIntervals, DailyRoot, HourlyRoot, Interval};
use crate::error::FetchError;
use crate::reading::Reading;
use crate::timestamp::{parse_rfc3339, spec_parse_rfc3339, Timestamp};
use vstd::prelude::*;

verus! {

/// The forecast for one day. `id` is given by storage and is 0 until then;
/// `created_at` is when the record was captured, `weather_time` the day it
/// describes.
#[derive(Clone, Copy, Debug, PartialEq, Eq, Structural)]
pub struct DailyWeather {
    pub id: i32,
    pub created_at: Timestamp,
    pub weather_time: Timestamp,
    pub high: Reading,
    pub low: Reading,
    pub weather_code: WeatherCode,
    pub moon_phase: MoonPhase,
    pub sunrise_time: Option<Timestamp>,
    pub sunset_time: Option<Timestamp>,
}

/// The forecast for one hour. `id` is given by storage and is 0 until then;
/// `created_at` is when the record was captured, `weather_time` the hour it
/// describes.
#[derive(Clone, Copy, Debug, PartialEq, Eq, Structural)]
pub struct HourlyWeather {
    pub id: i32,
    pub created_at: Timestamp,
    pub weather_time: Timestamp,
    pub temp: Reading,
    pub feels_like: Reading,
    pub weather_code: WeatherCode,
    pub precipitation_type: PrecipitationType,
    pub precipitation_chance: Reading,
    pub humidity: Option<Reading>,
    pub dew_point: Option<Reading>,
}

impl HourlyWeather {
    /// The record for one interval of the provider's answer, given the hour
    /// that its start text names.
    pub open spec fn spec_from_interval(
        interval: Interval,
        weather_time: Timestamp,
        created_at: Timestamp,
    ) -> HourlyWeather {
        HourlyWeather {
            id: 0,
            created_at,
            weather_time,
            temp: interval.values.temperature,
            feels_like: interval.values.temperature_apparent,
            weather_code: interval.values.weather_code,
            precipitation_type: interval.values.precipitation_type,
            precipitation_chance: interval.values.precipitation_probability,
            humidity: interval.values.humidity,
            dew_point: interval.values.dew_point,
        }
    }

    pub fn from_interval(interval: &Interval, weather_time: Timestamp, created_at: Timestamp) -> (record:
        HourlyWeather)
        ensures
            record == Self::spec_from_interval(*interval, weather_time, created_at),
    {
        HourlyWeather {
            id: 0,
            created_at,
            weather_time,
            temp: interval.values.temperature,
            feels_like: interval.values.temperature_apparent,
            weather_code: interval.values.weather_code,
            precipitation_type: interval.values.precipitation_type,
            precipitation_chance: interval.values.precipitation_probability,
            humidity: interval.values.humidity,
            dew_point: interval.values.dew_point,
        }
    }

    /// Whether the start text of an interval can be read.
    pub open spec fn readable_interval(interval: Interval) -> bool {
        spec_parse_rfc3339(interval.start_time@) is Some
    }

    pub open spec fn readable(intervals: Seq<Interval>) -> bool {
        forall|i: int| 0 <= i < intervals.len() ==> Self::readable_interval(#[trigger] intervals[i])
    }

    /// The record that an interval decodes to.
    pub open spec fn spec_decode_interval(interval: Interval, created_at: Timestamp) -> HourlyWeather
        recommends
            Self::readable_interval(interval),
    {
        Self::spec_from_interval(
            interval,
            spec_parse_rfc3339(interval.start_time@).unwrap(),
            created_at,
        )
    }

    /// The records of an answer: one for each interval of its first
    /// timeline, in the same order. An answer without a timeline, or with an
    /// interval whose start cannot be read, does not decode.
    pub open spec fn spec_convert(hourly: HourlyRoot, created_at: Timestamp) -> Result<
        Seq<HourlyWeather>,
        FetchError,
    > {
        if hourly.data.timelines@.len() == 0 {
            Err(FetchError::Decode)
        } else {
            let intervals = hourly.data.timelines@[0].intervals@;
            if Self::readable(intervals) {
                Ok(
                    Seq::new(
                        intervals.len(),
                        |i: int| Self::spec_decode_interval(intervals[i], created_at),
                    ),
                )
            } else {
                Err(FetchError::Decode)
            }
        }
    }

    /// Reads the start text of an interval and builds its record; `None`
    /// where the text cannot be read.
    pub fn decode_interval(interval: &Interval, created_at: Timestamp) -> (record: Option<
        HourlyWeather,
    >)
        ensures
            record == if Self::readable_interval(*interval) {
                Some(Self::spec_decode_interval(*interval, created_at))
            } else {
                None
            },
    {
        match parse_rfc3339(interval.start_time.as_str()) {
            Some(weather_time) => Some(Self::from_interval(interval, weather_time, created_at)),
            None => None,
        }
    }

    /// Turns the provider's answer into records captured at `created_at`.
    pub fn convert(hourly: HourlyRoot, created_at: Timestamp) -> (records: Result<
        Vec<HourlyWeather>,
        FetchError,
    >)
        ensures
            match (records, Self::spec_convert(hourly, created_at)) {
                (Ok(found), Ok(expected)) => found@ == expected,
                (Err(e), Err(expected)) => e == expected,
                _ => false,
            },
    {
        if hourly.data.timelines.len() == 0 {
            return Err(FetchError::Decode);
        }
        let intervals = &hourly.data.timelines[0].intervals;
        let mut found: Vec<HourlyWeather> = Vec::new();
        let mut i: usize = 0;
        while i < intervals.len()
            invariant
                hourly.data.timelines@.len() > 0,
                intervals@ == hourly.data.timelines@[0].intervals@,
                i <= intervals@.len(),
                found@.len() == i,
                forall|j: int| 0 <= j < i ==> Self::readable_interval(#[trigger] intervals@[j]),
                forall|j: int|
                    0 <= j < i ==> (#[trigger] found@[j]) == Self::spec_decode_interval(
                        intervals@[j],
                        created_at,
                    ),
            decreases intervals@.len() - i,
        {
            match Self::decode_interval(&intervals[i], created_at) {
                Some(record) => {
                    found.push(record);
                },
                None => {
                    assert(!Self::readable(intervals@));
                    return Err(FetchError::Decode);
                },
            }
            i += 1;
        }
        assert(Self::readable(intervals@));
        assert(found@ =~= Self::spec_convert(hourly, created_at).unwrap());
        Ok(found)
    }
}

impl DailyWeather {
    /// The record for one interval of the provider's answer, given the
    /// moments that its three texts name.
    pub open spec fn spec_from_interval(
        interval: DailyIntervals,
        weather_time: Timestamp,
        sunrise_time: Timestamp,
        sunset_time: Timestamp,
        created_at: Timestamp,
    ) -> DailyWeather {
        DailyWeather {
            id: 0,
            created_at,
            weather_time,
            high: interval.values.temperature_max,
            low: interval.values.temperature_min,
            weather_code: interval.values.weather_code,
            moon_phase: interval.values.moon_phase,
            sunrise_time: Some(sunrise_time),
            sunset_time: Some(sunset_time),
        }
    }

    pub fn from_interval(
        interval: &DailyIntervals,
        weather_time: Timestamp,
        sunrise_time: Timestamp,
        sunset_time: Timestamp,
        created_at: Timestamp,
    ) -> (record: DailyWeather)
        ensures
            record == Self::spec_from_interval(
                *interval,
                weather_time,
                sunrise_time,
                sunset_time,
                created_at,
            ),
    {
        DailyWeather {
            id: 0,
            created_at,
            weather_time,
            high: interval.values.temperature_max,
            low: interval.values.temperature_min,
            weather_code: interval.values.weather_code,
            moon_phase: interval.values.moon_phase,
            sunrise_time: Some(sunrise_time),
            sunset_time: Some(sunset_time),
        }
    }

    /// Whether the start, sunrise and sunset texts of an interval can all be
    /// read.
    pub open spec fn readable_interval(interval: DailyIntervals) -> bool {
        &&& spec_parse_rfc3339(interval.start_time@) is Some
        &&& spec_parse_rfc3339(interval.values.sunrise_time@) is Some
        &&& spec_parse_rfc3339(interval.values.sunset_time@) is Some
    }

    pub open spec fn readable(intervals: Seq<DailyIntervals>) -> bool {
        forall|i: int| 0 <= i < intervals.len() ==> Self::readable_interval(#[trigger] intervals[i])
    }

    /// The record that an interval decodes to.
    pub open spec fn spec_decode_interval(interval: DailyIntervals, created_at: Timestamp) -> DailyWeather
        recommends
            Self::readable_interval(interval),
    {
        Self::spec_from_interval(
            interval,
            spec_parse_rfc3339(interval.start_time@).unwrap(),
            spec_parse_rfc3339(interval.values.sunrise_time@).unwrap(),
            spec_parse_rfc3339(interval.values.sunset_time@).unwrap(),
            created_at,
        )
    }

    /// The records of an answer: one for each interval of its first
    /// timeline, in the same order. An answer without a timeline, or with an
    /// interval of which a text cannot be read, does not decode.
    pub open spec fn spec_convert(daily: DailyRoot, created_at: Timestamp) -> Result<
        Seq<DailyWeather>,
        FetchError,
    > {
        if daily.data.timelines@.len() == 0 {
            Err(FetchError::Decode)
        } else {
            let intervals = daily.data.timelines@[0].intervals@;
            if Self::readable(intervals) {
                Ok(
                    Seq::new(
                        intervals.len(),
                        |i: int| Self::spec_decode_interval(intervals[i], created_at),
                    ),
                )
            } else {
                Err(FetchError::Decode)
            }
        }
    }

    /// Reads the three texts of an interval and builds its record; `None`
    /// where one of them cannot be read.
    pub fn decode_interval(interval: &DailyIntervals, created_at: Timestamp) -> (record: Option<
        DailyWeather,
    >)
        ensures
            record == if Self::readable_interval(*interval) {
                Some(Self::spec_decode_interval(*interval, created_at))
            } else {
                None
            },
    {
        let weather_time = match parse_rfc3339(interval.start_time.as_str()) {
            Some(at) => at,
            None => { return None; },
        };
        let sunrise_time = match parse_rfc3339(interval.values.sunrise_time.as_str()) {
            Some(at) => at,
            None => { return None; },
        };
        let sunset_time = match parse_rfc3339(interval.values.sunset_time.as_str()) {
            Some(at) => at,
            None => { return None; },
        };
        Some(Self::from_interval(interval, weather_time, sunrise_time, sunset_time, created_at))
    }

    /// Turns the provider's answer into records captured at `created_at`.
    pub fn convert(daily: DailyRoot, created_at: Timestamp) -> (records: Result<
        Vec<DailyWeather>,
        FetchError,
    >)
        ensures
            match (records, Self::spec_convert(daily, created_at)) {
                (Ok(found), Ok(expected)) => found@ == expected,
                (Err(e), Err(expected)) => e == expected,
                _ => false,
            },
    {
        if daily.data.timelines.len() == 0 {
            return Err(FetchError::Decode);
        }
        let intervals = &daily.data.timelines[0].intervals;
        let mut found: Vec<DailyWeather> = Vec::new();
        let mut i: usize = 0;
        while i < intervals.len()
            invariant
                daily.data.timelines@.len() > 0,
                intervals@ == daily.data.timelines@[0].intervals@,
                i <= intervals@.len(),
                found@.len() == i,
                forall|j: int| 0 <= j < i ==> Self::readable_interval(#[trigger] intervals@[j]),
                forall|j: int|
                    0 <= j < i ==> (#[trigger] found@[j]) == Self::spec_decode_interval(
                        intervals@[j],
                        created_at,
                    ),
            decreases intervals@.len() - i,
        {
            match Self::decode_interval(&intervals[i], created_at) {
                Some(record) => {
                    found.push(record);
                },
                None => {
                    assert(!Self::readable(intervals@));
                    return Err(FetchError::Decode);
                },
            }
            i += 1;
        }
        assert(Self::readable(intervals@));
        assert(found@ =~= Self::spec_convert(daily, created_at).unwrap());
        Ok(found)
    }
}

impl Default for DailyWeather {
    /// A record of the epoch with zero readings and no sun times.
    fn default() -> (record: DailyWeather)
        ensures
            record == (DailyWeather {
                id: 0,
                created_at: Timestamp { secs: 0, nanos: 0 },
                weather_time: Timestamp { secs: 0, nanos: 0 },
                high: Reading { bits: 0 },
                low: Reading { bits: 0 },
                weather_code: WeatherCode::Unknown,
                moon_phase: MoonPhase::New,
                sunrise_time: None,
                sunset_time: None,
            }),
    {
        DailyWeather {
            id: 0,
            created_at: Timestamp::from_secs(0),
            weather_time: Timestamp::from_secs(0),
            high: Reading::zero(),
            low: Reading::zero(),
            weather_code: WeatherCode::Unknown,
            moon_phase: MoonPhase::New,
            sunrise_time: None,
            sunset_time: None,
        }
    }
}

impl Default for HourlyWeather {
    /// A record of the epoch with zero readings and no humidity or dew point.
    fn default() -> (record: HourlyWeather)
        ensures
            record == (HourlyWeather {
                id: 0,
                created_at: Timestamp { secs: 0, nanos: 0 },
                weather_time: Timestamp { secs: 0, nanos: 0 },
                temp: Reading { bits: 0 },
                feels_like: Reading { bits: 0 },
                weather_code: WeatherCode::Unknown,
                precipitation_type: PrecipitationType::NA,
                precipitation_chance: Reading { bits: 0 },
                humidity: None,
                dew_point: None,
            }),
    {
        HourlyWeather {
            id: 0,
            created_at: Timestamp::from_secs(0),
            weather_time: Timestamp::from_secs(0),
            temp: Reading::zero(),
            feels_like: Reading::zero(),
            weather_code: WeatherCode::Unknown,
            precipitation_type: PrecipitationType::NA,
            precipitation_chance: Reading::zero(),
            humidity: None,
            dew_point: None,
        }
    }
}

} // verus!
