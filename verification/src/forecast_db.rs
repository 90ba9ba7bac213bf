use crate::climacell::models::{DailyWeather, HourlyWeather};
use crate::climacell::moon_phase::MoonPhase;
use crate::climacell::precipitation_type::PrecipitationType;
use crate::climacell::weather_code::WeatherCode;
use crate::error::StoreError;
use crate::reading::Reading;
use crate::text::str_eq;
use crate::timestamp::Timestamp;
use vstd::prelude::*;
use vstd::string::StringExecFns;
use vstd::utf8::encode_utf8;

verus! {

/// How a request for past observations selects them.
#[derive(Clone, Copy, Debug, PartialEq, Eq, Structural)]
pub enum HistoricalSearchType {
    Daily,
    TimeRange,
}

impl HistoricalSearchType {
    /// The search type that a request parameter names, if any.
    pub open spec fn spec_from_str(input: Seq<char>) -> Result<HistoricalSearchType, ()> {
        if input == "daily"@ {
            Ok(HistoricalSearchType::Daily)
        } else if input == "timerange"@ {
            Ok(HistoricalSearchType::TimeRange)
        } else {
            Err(())
        }
    }

    pub fn from_str(input: &str) -> (parsed: Result<HistoricalSearchType, ()>)
        ensures
            parsed == Self::spec_from_str(input@),
    {
        if str_eq(input, "daily") {
            Ok(HistoricalSearchType::Daily)
        } else if str_eq(input, "timerange") {
            Ok(HistoricalSearchType::TimeRange)
        } else {
            Err(())
        }
    }
}

/// The two parameter values name different search types.
pub proof fn lemma_search_types_are_told_apart()
    ensures
        HistoricalSearchType::spec_from_str("daily"@) == Ok::<HistoricalSearchType, ()>(
            HistoricalSearchType::Daily,
        ),
        HistoricalSearchType::spec_from_str("timerange"@) == Ok::<HistoricalSearchType, ()>(
            HistoricalSearchType::TimeRange,
        ),
{
    reveal_strlit("daily");
    reveal_strlit("timerange");
    assert("daily"@.len() == 5);
    assert("timerange"@.len() == 9);
}

/// The connection text for the store, from its five settings.
pub open spec fn spec_conn_str(
    hostname: Seq<char>,
    name: Seq<char>,
    port: Seq<char>,
    username: Seq<char>,
    password: Seq<char>,
) -> Seq<char> {
    "host='"@ + hostname + "' dbname='"@ + name + "' port="@ + port + " user='"@ + username
        + "' password='"@ + password + "'"@
}

pub fn get_conn_str(hostname: &str, name: &str, port: &str, username: &str, password: &str) -> (conn_str:
    String)
    ensures
        conn_str@ == spec_conn_str(hostname@, name@, port@, username@, password@),
{
    let mut conn_str = String::from_str("host='");
    conn_str.append(hostname);
    conn_str.append("' dbname='");
    conn_str.append(name);
    conn_str.append("' port=");
    conn_str.append(port);
    conn_str.append(" user='");
    conn_str.append(username);
    conn_str.append("' password='");
    conn_str.append(password);
    conn_str.append("'");
    conn_str
}

/// The query for the observations of one local day.
pub open spec fn spec_historical_day_query(day: Seq<char>) -> Seq<char> {
    "SELECT * FROM historical_weather WHERE date(obs_time_local) = '"@ + day + "'"@
}

pub fn historical_day_query(day: &str) -> (query: String)
    ensures
        query@ == spec_historical_day_query(day@),
{
    let mut query = String::from_str(
        "SELECT * FROM historical_weather WHERE date(obs_time_local) = '",
    );
    query.append(day);
    query.append("'");
    query
}

/// The query for the observations of a range of local days, both ends
/// included.
pub open spec fn spec_historical_range_query(day1: Seq<char>, day2: Seq<char>) -> Seq<char> {
    "SELECT * FROM historical_weather WHERE date(obs_time_local) BETWEEN '"@ + day1 + "' AND '"@
        + day2 + "'"@
}

pub fn historical_range_query(day1: &str, day2: &str) -> (query: String)
    ensures
        query@ == spec_historical_range_query(day1@, day2@),
{
    let mut query = String::from_str(
        "SELECT * FROM historical_weather WHERE date(obs_time_local) BETWEEN '",
    );
    query.append(day1);
    query.append("' AND '");
    query.append(day2);
    query.append("'");
    query
}

/// Whether a column type of the store, by its name, holds the text that a
/// condition, phase or precipitation kind is stored as.
pub fn accepts(column_type: &str) -> (accepted: bool)
    ensures
        accepted == (column_type@ == "varchar"@),
{
    str_eq(column_type, "varchar")
}

/// A row of the daily table as it is read: the codes still as the bytes of
/// their text columns.
#[derive(Clone, Debug, PartialEq, Eq)]
pub struct DailyRow {
    pub id: i32,
    pub created_at: Timestamp,
    pub weather_time: Timestamp,
    pub high: Reading,
    pub low: Reading,
    pub weather_code: Vec<u8>,
    pub moon_phase: Vec<u8>,
    pub sunrise_time: Option<Timestamp>,
    pub sunset_time: Option<Timestamp>,
}

/// A row of the hourly table as it is read: the codes still as the bytes of
/// their text columns.
#[derive(Clone, Debug, PartialEq, Eq)]
pub struct HourlyRow {
    pub id: i32,
    pub created_at: Timestamp,
    pub weather_time: Timestamp,
    pub temp: Reading,
    pub feels_like: Reading,
    pub weather_code: Vec<u8>,
    pub precipitation_type: Vec<u8>,
    pub precipitation_chance: Reading,
    pub humidity: Option<Reading>,
    pub dew_point: Option<Reading>,
}

/// What is written for one day. The store gives `id` and `created_at`.
#[derive(Clone, Debug, PartialEq, Eq)]
pub struct DailyInsert {
    pub weather_time: Timestamp,
    pub high: Reading,
    pub low: Reading,
    pub weather_code: String,
    pub moon_phase: String,
    pub sunrise_time: Timestamp,
    pub sunset_time: Timestamp,
}

/// What is written for one hour. The store gives `id` and `created_at`.
#[derive(Clone, Debug, PartialEq, Eq)]
pub struct HourlyInsert {
    pub weather_time: Timestamp,
    pub temp: Reading,
    pub feels_like: Reading,
    pub weather_code: String,
    pub precipitation_type: String,
    pub precipitation_chance: Reading,
    pub humidity: Option<Reading>,
    pub dew_point: Option<Reading>,
}

impl DailyWeather {
    /// The record that a row holds. A row whose condition or phase does not
    /// spell a known name does not decode.
    pub open spec fn spec_from_row(row: DailyRow) -> Result<DailyWeather, StoreError> {
        match (
            WeatherCode::spec_from_sql(row.weather_code@),
            MoonPhase::spec_from_sql(row.moon_phase@),
        ) {
            (Some(weather_code), Some(moon_phase)) => Ok(
                DailyWeather {
                    id: row.id,
                    created_at: row.created_at,
                    weather_time: row.weather_time,
                    high: row.high,
                    low: row.low,
                    weather_code,
                    moon_phase,
                    sunrise_time: row.sunrise_time,
                    sunset_time: row.sunset_time,
                },
            ),
            _ => Err(StoreError::RowDecode),
        }
    }

    pub fn from_row(row: &DailyRow) -> (record: Result<DailyWeather, StoreError>)
        ensures
            record == Self::spec_from_row(*row),
    {
        let weather_code = match WeatherCode::from_sql(row.weather_code.as_slice()) {
            Some(code) => code,
            None => { return Err(StoreError::RowDecode); },
        };
        let moon_phase = match MoonPhase::from_sql(row.moon_phase.as_slice()) {
            Some(phase) => phase,
            None => { return Err(StoreError::RowDecode); },
        };
        Ok(
            DailyWeather {
                id: row.id,
                created_at: row.created_at,
                weather_time: row.weather_time,
                high: row.high,
                low: row.low,
                weather_code,
                moon_phase,
                sunrise_time: row.sunrise_time,
                sunset_time: row.sunset_time,
            },
        )
    }

    /// Whether the record can be written: both sun times are there.
    pub open spec fn storable(self) -> bool {
        self.sunrise_time is Some && self.sunset_time is Some
    }

    /// What is written for the record: none where a sun time is missing,
    /// else all but `id` and `created_at`, with the codes by name.
    pub fn to_insert(&self) -> (insert: Option<DailyInsert>)
        ensures
            insert is Some == self.storable(),
            insert matches Some(row) ==> {
                &&& row.weather_time == self.weather_time
                &&& row.high == self.high
                &&& row.low == self.low
                &&& row.weather_code@ == self.weather_code.spec_name()
                &&& row.moon_phase@ == self.moon_phase.spec_name()
                &&& Some(row.sunrise_time) == self.sunrise_time
                &&& Some(row.sunset_time) == self.sunset_time
            },
    {
        match (self.sunrise_time, self.sunset_time) {
            (Some(sunrise_time), Some(sunset_time)) => Some(
                DailyInsert {
                    weather_time: self.weather_time,
                    high: self.high,
                    low: self.low,
                    weather_code: String::from_str(self.weather_code.name()),
                    moon_phase: String::from_str(self.moon_phase.name()),
                    sunrise_time,
                    sunset_time,
                },
            ),
            _ => None,
        }
    }
}

impl HourlyWeather {
    /// The record that a row holds. A row whose condition or precipitation
    /// kind does not spell a known name does not decode.
    pub open spec fn spec_from_row(row: HourlyRow) -> Result<HourlyWeather, StoreError> {
        match (
            WeatherCode::spec_from_sql(row.weather_code@),
            PrecipitationType::spec_from_sql(row.precipitation_type@),
        ) {
            (Some(weather_code), Some(precipitation_type)) => Ok(
                HourlyWeather {
                    id: row.id,
                    created_at: row.created_at,
                    weather_time: row.weather_time,
                    temp: row.temp,
                    feels_like: row.feels_like,
                    weather_code,
                    precipitation_type,
                    precipitation_chance: row.precipitation_chance,
                    humidity: row.humidity,
                    dew_point: row.dew_point,
                },
            ),
            _ => Err(StoreError::RowDecode),
        }
    }

    pub fn from_row(row: &HourlyRow) -> (record: Result<HourlyWeather, StoreError>)
        ensures
            record == Self::spec_from_row(*row),
    {
        let weather_code = match WeatherCode::from_sql(row.weather_code.as_slice()) {
            Some(code) => code,
            None => { return Err(StoreError::RowDecode); },
        };
        let precipitation_type = match PrecipitationType::from_sql(
            row.precipitation_type.as_slice(),
        ) {
            Some(kind) => kind,
            None => { return Err(StoreError::RowDecode); },
        };
        Ok(
            HourlyWeather {
                id: row.id,
                created_at: row.created_at,
                weather_time: row.weather_time,
                temp: row.temp,
                feels_like: row.feels_like,
                weather_code,
                precipitation_type,
                precipitation_chance: row.precipitation_chance,
                humidity: row.humidity,
                dew_point: row.dew_point,
            },
        )
    }

    /// What is written for the record: all but `id` and `created_at`, with
    /// the codes by name.
    pub fn to_insert(&self) -> (row: HourlyInsert)
        ensures
            row.weather_time == self.weather_time,
            row.temp == self.temp,
            row.feels_like == self.feels_like,
            row.weather_code@ == self.weather_code.spec_name(),
            row.precipitation_type@ == self.precipitation_type.spec_name(),
            row.precipitation_chance == self.precipitation_chance,
            row.humidity == self.humidity,
            row.dew_point == self.dew_point,
    {
        HourlyInsert {
            weather_time: self.weather_time,
            temp: self.temp,
            feels_like: self.feels_like,
            weather_code: String::from_str(self.weather_code.name()),
            precipitation_type: String::from_str(self.precipitation_type.name()),
            precipitation_chance: self.precipitation_chance,
            humidity: self.humidity,
            dew_point: self.dew_point,
        }
    }
}

/// The records that rows hold, in the order of the rows; the first row that
/// does not decode fails them all.
pub open spec fn spec_daily_from_rows(rows: Seq<DailyRow>) -> Result<Seq<DailyWeather>, StoreError> {
    if forall|i: int| 0 <= i < rows.len() ==> DailyWeather::spec_from_row(#[trigger] rows[i]) is Ok {
        Ok(Seq::new(rows.len(), |i: int| DailyWeather::spec_from_row(rows[i])->Ok_0))
    } else {
        Err(StoreError::RowDecode)
    }
}

pub fn daily_from_rows(rows: &Vec<DailyRow>) -> (records: Result<Vec<DailyWeather>, StoreError>)
    ensures
        match (records, spec_daily_from_rows(rows@)) {
            (Ok(found), Ok(expected)) => found@ == expected,
            (Err(e), Err(expected)) => e == expected,
            _ => false,
        },
{
    let mut found: Vec<DailyWeather> = Vec::new();
    let mut i: usize = 0;
    while i < rows.len()
        invariant
            i <= rows@.len(),
            found@.len() == i,
            forall|j: int| 0 <= j < i ==> DailyWeather::spec_from_row(#[trigger] rows@[j]) is Ok,
            forall|j: int|
                0 <= j < i ==> (#[trigger] found@[j]) == DailyWeather::spec_from_row(rows@[j])->Ok_0,
        decreases rows@.len() - i,
    {
        match DailyWeather::from_row(&rows[i]) {
            Ok(record) => {
                found.push(record);
            },
            Err(_) => {
                assert(!(DailyWeather::spec_from_row(rows@[i as int]) is Ok));
                return Err(StoreError::RowDecode);
            },
        }
        i += 1;
    }
    assert(found@ =~= spec_daily_from_rows(rows@)->Ok_0);
    Ok(found)
}

/// The records that rows hold, in the order of the rows; the first row that
/// does not decode fails them all.
pub open spec fn spec_hourly_from_rows(rows: Seq<HourlyRow>) -> Result<Seq<HourlyWeather>, StoreError> {
    if forall|i: int| 0 <= i < rows.len() ==> HourlyWeather::spec_from_row(#[trigger] rows[i]) is Ok {
        Ok(Seq::new(rows.len(), |i: int| HourlyWeather::spec_from_row(rows[i])->Ok_0))
    } else {
        Err(StoreError::RowDecode)
    }
}

pub fn hourly_from_rows(rows: &Vec<HourlyRow>) -> (records: Result<Vec<HourlyWeather>, StoreError>)
    ensures
        match (records, spec_hourly_from_rows(rows@)) {
            (Ok(found), Ok(expected)) => found@ == expected,
            (Err(e), Err(expected)) => e == expected,
            _ => false,
        },
{
    let mut found: Vec<HourlyWeather> = Vec::new();
    let mut i: usize = 0;
    while i < rows.len()
        invariant
            i <= rows@.len(),
            found@.len() == i,
            forall|j: int| 0 <= j < i ==> HourlyWeather::spec_from_row(#[trigger] rows@[j]) is Ok,
            forall|j: int|
                0 <= j < i ==> (#[trigger] found@[j]) == HourlyWeather::spec_from_row(rows@[j])->Ok_0,
        decreases rows@.len() - i,
    {
        match HourlyWeather::from_row(&rows[i]) {
            Ok(record) => {
                found.push(record);
            },
            Err(_) => {
                assert(!(HourlyWeather::spec_from_row(rows@[i as int]) is Ok));
                return Err(StoreError::RowDecode);
            },
        }
        i += 1;
    }
    assert(found@ =~= spec_hourly_from_rows(rows@)->Ok_0);
    Ok(found)
}

/// A row that holds what was written for an hourly record, with the codes
/// as the bytes of their names, reads back as that record.
pub proof fn lemma_hourly_row_round_trip(record: HourlyWeather, row: HourlyRow)
    requires
        row.id == record.id,
        row.created_at == record.created_at,
        row.weather_time == record.weather_time,
        row.temp == record.temp,
        row.feels_like == record.feels_like,
        row.weather_code@ == encode_utf8(record.weather_code.spec_name()),
        row.precipitation_type@ == encode_utf8(record.precipitation_type.spec_name()),
        row.precipitation_chance == record.precipitation_chance,
        row.humidity == record.humidity,
        row.dew_point == record.dew_point,
    ensures
        HourlyWeather::spec_from_row(row) == Ok::<HourlyWeather, StoreError>(record),
{
    record.weather_code.lemma_sql_round_trip();
    record.precipitation_type.lemma_sql_round_trip();
}

/// A row that holds what was written for a daily record, with the codes as
/// the bytes of their names, reads back as that record.
pub proof fn lemma_daily_row_round_trip(record: DailyWeather, row: DailyRow)
    requires
        row.id == record.id,
        row.created_at == record.created_at,
        row.weather_time == record.weather_time,
        row.high == record.high,
        row.low == record.low,
        row.weather_code@ == encode_utf8(record.weather_code.spec_name()),
        row.moon_phase@ == encode_utf8(record.moon_phase.spec_name()),
        row.sunrise_time == record.sunrise_time,
        row.sunset_time == record.sunset_time,
    ensures
        DailyWeather::spec_from_row(row) == Ok::<DailyWeather, StoreError>(record),
{
    record.weather_code.lemma_sql_round_trip();
    record.moon_phase.lemma_sql_round_trip();
}

} // verus!
