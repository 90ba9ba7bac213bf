use rusty_forecast::climacell::models::{DailyWeather, HourlyWeather};
use rusty_forecast::climacell::moon_phase::MoonPhase;
use rusty_forecast::climacell::precipitation_type::PrecipitationType;
use rusty_forecast::climacell::weather_code::WeatherCode;
use rusty_forecast::climacell::webmodels::{
    DailyData, DailyIntervals, DailyRoot, DailyTimelines, DailyValues, Data, HourlyRoot, Interval,
    Timeline, Values,
};
use rusty_forecast::error::FetchError;
use rusty_forecast::reading::Reading;
use rusty_forecast::timestamp::Timestamp;

fn reading(value: f64) -> Reading {
    Reading::from_bits(value.to_bits())
}

fn hour(start_time: &str, temperature: f64, code: WeatherCode) -> Interval {
    Interval {
        start_time: start_time.to_string(),
        values: Values {
            precipitation_probability: reading(40.0),
            precipitation_type: PrecipitationType::Rain,
            temperature: reading(temperature),
            temperature_apparent: reading(temperature - 2.5),
            weather_code: code,
            humidity: Some(reading(81.0)),
            dew_point: None,
        },
    }
}

fn hourly_root(timelines: Vec<Vec<Interval>>) -> HourlyRoot {
    HourlyRoot {
        data: Data {
            timelines: timelines
                .into_iter()
                .map(|intervals| Timeline {
                    timestep: "1h".to_string(),
                    end_time: "2024-01-02T00:00:00Z".to_string(),
                    start_time: "2024-01-01T00:00:00Z".to_string(),
                    intervals,
                })
                .collect(),
        },
    }
}

fn day(start_time: &str, sunrise_time: &str, sunset_time: &str) -> DailyIntervals {
    DailyIntervals {
        start_time: start_time.to_string(),
        values: DailyValues {
            moon_phase: MoonPhase::Waning_Gibbous,
            sunrise_time: sunrise_time.to_string(),
            sunset_time: sunset_time.to_string(),
            temperature_max: reading(55.5),
            temperature_min: reading(-3.25),
            weather_code: WeatherCode::Light_Snow,
        },
    }
}

fn daily_root(timelines: Vec<Vec<DailyIntervals>>) -> DailyRoot {
    DailyRoot {
        data: DailyData {
            timelines: timelines
                .into_iter()
                .map(|intervals| DailyTimelines {
                    timestep: "1d".to_string(),
                    end_time: "2024-01-06T11:00:00Z".to_string(),
                    start_time: "2024-01-01T11:00:00Z".to_string(),
                    intervals,
                })
                .collect(),
        },
    }
}

const CAPTURED: Timestamp = Timestamp { secs: 1_704_070_000, nanos: 250 };

#[test]
fn hourly_intervals_become_records_in_order() {
    let root = hourly_root(vec![vec![
        hour("2024-01-01T00:00:00Z", 30.0, WeatherCode::Clear),
        hour("2024-01-01T01:00:00Z", 31.5, WeatherCode::Cloudy),
        hour("2024-01-01T02:00:00Z", 29.0, WeatherCode::Fog),
    ]]);
    let records = HourlyWeather::convert(root, CAPTURED).unwrap();
    assert_eq!(records.len(), 3);
    assert_eq!(
        records[0],
        HourlyWeather {
            id: 0,
            created_at: CAPTURED,
            weather_time: Timestamp { secs: 1_704_067_200, nanos: 0 },
            temp: reading(30.0),
            feels_like: reading(27.5),
            weather_code: WeatherCode::Clear,
            precipitation_type: PrecipitationType::Rain,
            precipitation_chance: reading(40.0),
            humidity: Some(reading(81.0)),
            dew_point: None,
        }
    );
    assert_eq!(records[1].weather_time, Timestamp::from_secs(1_704_067_200 + 3_600));
    assert_eq!(records[1].weather_code, WeatherCode::Cloudy);
    assert_eq!(records[1].temp, reading(31.5));
    assert_eq!(records[2].weather_time, Timestamp::from_secs(1_704_067_200 + 7_200));
    assert_eq!(records[2].weather_code, WeatherCode::Fog);
    for record in &records {
        assert_eq!(record.id, 0);
        assert_eq!(record.created_at, CAPTURED);
    }
}

#[test]
fn the_hour_is_the_instant_that_the_text_names() {
    let root = hourly_root(vec![vec![
        hour("2024-01-01T00:00:00-08:00", 1.0, WeatherCode::Clear),
        hour("2024-01-01T00:00:00+05:30", 1.0, WeatherCode::Clear),
        hour("1969-12-31T23:59:59Z", 1.0, WeatherCode::Clear),
        hour("2024-06-15T12:30:45.123456789Z", 1.0, WeatherCode::Clear),
        hour("2016-12-31T23:59:60Z", 1.0, WeatherCode::Clear),
        hour("2024-01-01t00:00:00z", 1.0, WeatherCode::Clear),
    ]]);
    let records = HourlyWeather::convert(root, CAPTURED).unwrap();
    assert_eq!(records[0].weather_time, Timestamp::from_secs(1_704_067_200 + 8 * 3_600));
    assert_eq!(records[1].weather_time, Timestamp::from_secs(1_704_067_200 - 19_800));
    assert_eq!(records[2].weather_time, Timestamp::from_secs(-1));
    assert_eq!(records[3].weather_time, Timestamp { secs: 1_718_454_645, nanos: 123_456_789 });
    assert_eq!(records[4].weather_time, Timestamp { secs: 1_483_228_799, nanos: 1_000_000_000 });
    assert_eq!(records[5].weather_time, Timestamp::from_secs(1_704_067_200));
}

#[test]
fn the_hour_agrees_with_chrono() {
    let texts = [
        "2024-02-29T23:00:00+01:00",
        "1999-12-31T23:59:59.5-11:00",
        "2038-01-19T03:14:08Z",
        "0001-01-01T00:00:00Z",
        "9999-12-31T23:59:59.999999999+23:59",
    ];
    let root = hourly_root(vec![texts.iter().map(|text| hour(text, 0.0, WeatherCode::Wind)).collect()]);
    let records = HourlyWeather::convert(root, CAPTURED).unwrap();
    assert_eq!(records.len(), texts.len());
    for (record, text) in records.iter().zip(texts.iter()) {
        let parsed = chrono::DateTime::parse_from_rfc3339(text).unwrap();
        assert_eq!(record.weather_time.secs, parsed.timestamp());
        assert_eq!(record.weather_time.nanos, parsed.timestamp_subsec_nanos());
    }
}

#[test]
fn only_the_first_timeline_is_read() {
    let root = hourly_root(vec![
        vec![hour("2024-01-01T00:00:00Z", 30.0, WeatherCode::Clear)],
        vec![
            hour("2024-01-02T00:00:00Z", 10.0, WeatherCode::Snow),
            hour("not a time", 10.0, WeatherCode::Snow),
        ],
    ]);
    let records = HourlyWeather::convert(root, CAPTURED).unwrap();
    assert_eq!(records.len(), 1);
    assert_eq!(records[0].weather_code, WeatherCode::Clear);
}

#[test]
fn a_timeline_without_intervals_gives_no_records() {
    let records = HourlyWeather::convert(hourly_root(vec![vec![]]), CAPTURED).unwrap();
    assert!(records.is_empty());
    let records = DailyWeather::convert(daily_root(vec![vec![]]), CAPTURED).unwrap();
    assert!(records.is_empty());
}

#[test]
fn an_answer_without_timelines_does_not_decode() {
    assert_eq!(HourlyWeather::convert(hourly_root(vec![]), CAPTURED), Err(FetchError::Decode));
    assert_eq!(DailyWeather::convert(daily_root(vec![]), CAPTURED), Err(FetchError::Decode));
}

#[test]
fn an_unreadable_hour_fails_the_whole_answer() {
    for bad in ["", "yesterday", "2024-01-01", "2024-01-01T00:00:00", "2024-13-01T00:00:00Z",
        "2024-01-01T24:00:00Z", "2024-01-01T00:00:00Z ", "2023-02-29T00:00:00Z"]
    {
        let root = hourly_root(vec![vec![
            hour("2024-01-01T00:00:00Z", 30.0, WeatherCode::Clear),
            hour(bad, 31.0, WeatherCode::Clear),
            hour("2024-01-01T02:00:00Z", 32.0, WeatherCode::Clear),
        ]]);
        assert_eq!(HourlyWeather::convert(root, CAPTURED), Err(FetchError::Decode), "{:?}", bad);
    }
}

#[test]
fn one_hour_is_decoded_alone() {
    let interval = hour("2024-01-01T05:00:00Z", 12.0, WeatherCode::Drizzle);
    let record = HourlyWeather::decode_interval(&interval, CAPTURED).unwrap();
    assert_eq!(record.weather_time, Timestamp::from_secs(1_704_067_200 + 5 * 3_600));
    assert_eq!(record.weather_code, WeatherCode::Drizzle);
    assert_eq!(
        record,
        HourlyWeather::from_interval(&interval, Timestamp::from_secs(1_704_085_200), CAPTURED)
    );
    assert_eq!(HourlyWeather::decode_interval(&hour("soon", 12.0, WeatherCode::Drizzle), CAPTURED), None);
}

#[test]
fn from_interval_copies_every_value() {
    let interval = Interval {
        start_time: "ignored here".to_string(),
        values: Values {
            precipitation_probability: reading(15.0),
            precipitation_type: PrecipitationType::Ice_Pellets,
            temperature: reading(-40.0),
            temperature_apparent: reading(-55.125),
            weather_code: WeatherCode::Heavy_Ice_Pellets,
            humidity: None,
            dew_point: Some(reading(-41.0)),
        },
    };
    let at = Timestamp { secs: 77, nanos: 5 };
    assert_eq!(
        HourlyWeather::from_interval(&interval, at, CAPTURED),
        HourlyWeather {
            id: 0,
            created_at: CAPTURED,
            weather_time: at,
            temp: reading(-40.0),
            feels_like: reading(-55.125),
            weather_code: WeatherCode::Heavy_Ice_Pellets,
            precipitation_type: PrecipitationType::Ice_Pellets,
            precipitation_chance: reading(15.0),
            humidity: None,
            dew_point: Some(reading(-41.0)),
        }
    );
}

#[test]
fn daily_intervals_become_records_in_order() {
    let root = daily_root(vec![vec![
        day("2024-01-01T11:00:00Z", "2024-01-01T12:21:00Z", "2024-01-01T21:50:00Z"),
        day("2024-01-02T11:00:00Z", "2024-01-02T12:21:30Z", "2024-01-02T21:51:00Z"),
    ]]);
    let records = DailyWeather::convert(root, CAPTURED).unwrap();
    assert_eq!(records.len(), 2);
    assert_eq!(
        records[0],
        DailyWeather {
            id: 0,
            created_at: CAPTURED,
            weather_time: Timestamp::from_secs(1_704_106_800),
            high: reading(55.5),
            low: reading(-3.25),
            weather_code: WeatherCode::Light_Snow,
            moon_phase: MoonPhase::Waning_Gibbous,
            sunrise_time: Some(Timestamp::from_secs(1_704_111_660)),
            sunset_time: Some(Timestamp::from_secs(1_704_145_800)),
        }
    );
    assert_eq!(records[1].weather_time, Timestamp::from_secs(1_704_106_800 + 86_400));
    assert_eq!(records[1].sunrise_time, Some(Timestamp::from_secs(1_704_111_660 + 86_400 + 30)));
    assert_eq!(records[1].sunset_time, Some(Timestamp::from_secs(1_704_145_800 + 86_400 + 60)));
}

#[test]
fn each_of_the_three_daily_texts_must_be_readable() {
    let good = "2024-01-01T11:00:00Z";
    let cases = [
        day("noon", good, good),
        day(good, "dawn", good),
        day(good, good, "dusk"),
    ];
    for bad in cases {
        assert_eq!(DailyWeather::decode_interval(&bad, CAPTURED), None);
        let root = daily_root(vec![vec![day(good, good, good), bad]]);
        assert_eq!(DailyWeather::convert(root, CAPTURED), Err(FetchError::Decode));
    }
    assert!(DailyWeather::decode_interval(&day(good, good, good), CAPTURED).is_some());
}

#[test]
fn daily_from_interval_copies_every_value() {
    let interval = day("a", "b", "c");
    let record = DailyWeather::from_interval(
        &interval,
        Timestamp::from_secs(1),
        Timestamp::from_secs(2),
        Timestamp::from_secs(3),
        CAPTURED,
    );
    assert_eq!(
        record,
        DailyWeather {
            id: 0,
            created_at: CAPTURED,
            weather_time: Timestamp::from_secs(1),
            high: reading(55.5),
            low: reading(-3.25),
            weather_code: WeatherCode::Light_Snow,
            moon_phase: MoonPhase::Waning_Gibbous,
            sunrise_time: Some(Timestamp::from_secs(2)),
            sunset_time: Some(Timestamp::from_secs(3)),
        }
    );
}

#[test]
fn default_records_are_of_the_epoch() {
    assert_eq!(
        HourlyWeather::default(),
        HourlyWeather {
            id: 0,
            created_at: Timestamp::from_secs(0),
            weather_time: Timestamp::from_secs(0),
            temp: reading(0.0),
            feels_like: reading(0.0),
            weather_code: WeatherCode::Unknown,
            precipitation_type: PrecipitationType::NA,
            precipitation_chance: reading(0.0),
            humidity: None,
            dew_point: None,
        }
    );
    assert_eq!(
        DailyWeather::default(),
        DailyWeather {
            id: 0,
            created_at: Timestamp::from_secs(0),
            weather_time: Timestamp::from_secs(0),
            high: reading(0.0),
            low: reading(0.0),
            weather_code: WeatherCode::Unknown,
            moon_phase: MoonPhase::New,
            sunrise_time: None,
            sunset_time: None,
        }
    );
}

#[test]
fn readings_keep_their_bits() {
    for value in [0.0, -0.0, 1.5, -273.15, f64::MAX, f64::MIN_POSITIVE, f64::INFINITY] {
        let kept = Reading::from_bits(value.to_bits());
        assert_eq!(kept.to_bits(), value.to_bits());
        assert_eq!(f64::from_bits(kept.to_bits()), value);
    }
    let nan = Reading::from_bits(f64::NAN.to_bits());
    assert!(f64::from_bits(nan.to_bits()).is_nan());
    assert_eq!(Reading::zero().to_bits(), 0.0f64.to_bits());
}
