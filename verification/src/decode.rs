//! Decoding of the two response payloads: the geolocation lookup and the
//! two-day forecast. Every JSON call is deterministic in the payload bytes
//! alone, so each call's result carries a name, and the decoding contracts
//! are exact over those names: success owed if and only if the named
//! document has the required shape, every decoded field pinned, every error
//! tied to its cause. Decoding is all-or-nothing: no partially populated
//! result exists.

use vstd::prelude::*;

use crate::codes::code_of;
use crate::codes::WeatherCode;
use crate::json::json_array;
use crate::json::json_doc_of;
use crate::json::json_field_of;
use crate::json::json_get;
use crate::json::json_items_of;
use crate::json::json_number;
use crate::json::json_number_of;
use crate::json::json_parse;
use crate::json::json_str;
use crate::json::json_str_of;
use crate::json::json_u64;
use crate::json::json_u64_of;
use crate::json::number_text;
use crate::json::number_text_of;
use crate::time::date_of_text;
use crate::time::datetime_of_text;
use crate::time::is_date_text;
use crate::time::is_datetime_text;
use crate::time::parse_date;
use crate::time::parse_datetime;
use crate::time::date_before;
use crate::time::datetime_before;
use crate::time::LocalDate;
use crate::time::LocalDateTime;
use crate::zones::tz_resolves;
use crate::zones::tz_valid;

verus! {

/// Why a payload was rejected. `Malformed`: not a JSON document.
/// `MissingField`: a required field is absent. `NotParseable`: a value has
/// the wrong type, a timestamp text does not name a valid instant, a
/// timestamp series is not strictly increasing, or a weather code exceeds
/// the 32-bit range. `LengthMismatch`: a series differs in length from its
/// block's timestamp series. `TimezoneResolution`: the timezone identifier
/// is unknown to the timezone database.
#[derive(Clone, Copy, Debug, PartialEq, Eq, Structural)]
pub enum DecodeError {
    Malformed,
    MissingField,
    NotParseable,
    LengthMismatch,
    TimezoneResolution,
}

/// A decoded geolocation answer. Latitude and longitude keep the numeric
/// text the payload carried; the timezone is a resolved IANA identifier.
/// Consumed immediately to build the forecast request.
#[derive(Clone, Debug, PartialEq, Eq)]
pub struct Geolocation {
    pub latitude: String,
    pub longitude: String,
    pub timezone: String,
}

impl Geolocation {
    pub open spec fn wf(self) -> bool {
        tz_valid(self.timezone@)
    }
}

/// Parallel hourly series. All five vectors share one length and the
/// timestamps are strictly increasing.
#[derive(Clone, Debug, PartialEq, Eq)]
pub struct HourlySeries {
    pub time: Vec<LocalDateTime>,
    pub weather_code: Vec<WeatherCode>,
    pub temperature: Vec<String>,
    pub apparent_temperature: Vec<String>,
    pub wind_speed: Vec<String>,
}

impl HourlySeries {
    pub open spec fn wf(self) -> bool {
        &&& self.weather_code@.len() == self.time@.len()
        &&& self.temperature@.len() == self.time@.len()
        &&& self.apparent_temperature@.len() == self.time@.len()
        &&& self.wind_speed@.len() == self.time@.len()
        &&& forall|i: int| 0 <= i < self.time@.len() ==> (#[trigger] self.time@[i]).wf()
        &&& forall|i: int|
            0 <= i && i + 1 < self.time@.len() ==> (#[trigger] self.time@[i]).key()
                < self.time@[i + 1].key()
    }
}

/// Parallel daily series. All six vectors share one length and the dates
/// are strictly increasing.
#[derive(Clone, Debug, PartialEq, Eq)]
pub struct DailySeries {
    pub dates: Vec<LocalDate>,
    pub weather_code: Vec<WeatherCode>,
    pub temp_min: Vec<String>,
    pub temp_max: Vec<String>,
    pub apparent_temp_min: Vec<String>,
    pub apparent_temp_max: Vec<String>,
}

impl DailySeries {
    pub open spec fn wf(self) -> bool {
        &&& self.weather_code@.len() == self.dates@.len()
        &&& self.temp_min@.len() == self.dates@.len()
        &&& self.temp_max@.len() == self.dates@.len()
        &&& self.apparent_temp_min@.len() == self.dates@.len()
        &&& self.apparent_temp_max@.len() == self.dates@.len()
        &&& forall|i: int| 0 <= i < self.dates@.len() ==> (#[trigger] self.dates@[i]).wf()
        &&& forall|i: int|
            0 <= i && i + 1 < self.dates@.len() ==> (#[trigger] self.dates@[i]).key()
                < self.dates@[i + 1].key()
    }
}

/// A complete decoded forecast. Replaced wholesale on each successful
/// fetch, never mutated in place.
#[derive(Clone, Debug, PartialEq, Eq)]
pub struct ForecastSnapshot {
    pub timezone: String,
    pub hourly: HourlySeries,
    pub daily: DailySeries,
}

impl ForecastSnapshot {
    pub open spec fn wf(self) -> bool {
        tz_valid(self.timezone@) && self.hourly.wf() && self.daily.wf()
    }
}

/// The forecast payload's fields as plain values, extracted from the JSON
/// document but not yet validated: timestamps still text, codes still raw.
#[derive(Clone, Debug, PartialEq, Eq)]
pub struct RawForecast {
    pub timezone: String,
    pub hourly_time: Vec<String>,
    pub hourly_weather_code: Vec<u64>,
    pub hourly_temperature: Vec<String>,
    pub hourly_apparent_temperature: Vec<String>,
    pub hourly_wind_speed: Vec<String>,
    pub daily_time: Vec<String>,
    pub daily_weather_code: Vec<u64>,
    pub daily_temp_min: Vec<String>,
    pub daily_temp_max: Vec<String>,
    pub daily_apparent_temp_min: Vec<String>,
    pub daily_apparent_temp_max: Vec<String>,
}

/// The texts of a string vector.
pub open spec fn texts_of(ss: Seq<String>) -> Seq<Seq<char>> {
    ss.map_values(|s: String| s@)
}

/// The forecast payload's fields at the specification level: the texts and
/// raw codes the document names, before validation.
#[verifier::ext_equal]
pub struct RawForecastView {
    pub timezone: Seq<char>,
    pub hourly_time: Seq<Seq<char>>,
    pub hourly_weather_code: Seq<u64>,
    pub hourly_temperature: Seq<Seq<char>>,
    pub hourly_apparent_temperature: Seq<Seq<char>>,
    pub hourly_wind_speed: Seq<Seq<char>>,
    pub daily_time: Seq<Seq<char>>,
    pub daily_weather_code: Seq<u64>,
    pub daily_temp_min: Seq<Seq<char>>,
    pub daily_temp_max: Seq<Seq<char>>,
    pub daily_apparent_temp_min: Seq<Seq<char>>,
    pub daily_apparent_temp_max: Seq<Seq<char>>,
}

/// The geolocation payload's fields at the specification level.
#[verifier::ext_equal]
pub struct GeolocationView {
    pub latitude: Seq<char>,
    pub longitude: Seq<char>,
    pub timezone: Seq<char>,
}

impl RawForecast {
    /// The extracted fields as texts.
    pub open spec fn texts(self) -> RawForecastView {
        RawForecastView {
            timezone: self.timezone@,
            hourly_time: texts_of(self.hourly_time@),
            hourly_weather_code: self.hourly_weather_code@,
            hourly_temperature: texts_of(self.hourly_temperature@),
            hourly_apparent_temperature: texts_of(self.hourly_apparent_temperature@),
            hourly_wind_speed: texts_of(self.hourly_wind_speed@),
            daily_time: texts_of(self.daily_time@),
            daily_weather_code: self.daily_weather_code@,
            daily_temp_min: texts_of(self.daily_temp_min@),
            daily_temp_max: texts_of(self.daily_temp_max@),
            daily_apparent_temp_min: texts_of(self.daily_apparent_temp_min@),
            daily_apparent_temp_max: texts_of(self.daily_apparent_temp_max@),
        }
    }
}

/// Every hourly timestamp text names a valid local instant.
pub open spec fn datetimes_parse(ts: Seq<Seq<char>>) -> bool {
    forall|i: int| 0 <= i < ts.len() ==> is_datetime_text(#[trigger] ts[i])
}

/// The instants named by the texts are strictly increasing.
pub open spec fn datetimes_increasing(ts: Seq<Seq<char>>) -> bool {
    forall|i: int|
        0 <= i && i + 1 < ts.len() ==> datetime_of_text(#[trigger] ts[i]).key() < datetime_of_text(
            ts[i + 1],
        ).key()
}

/// Every daily date text names a valid calendar date.
pub open spec fn dates_parse(ts: Seq<Seq<char>>) -> bool {
    forall|i: int| 0 <= i < ts.len() ==> is_date_text(#[trigger] ts[i])
}

/// The dates named by the texts are strictly increasing.
pub open spec fn dates_increasing(ts: Seq<Seq<char>>) -> bool {
    forall|i: int|
        0 <= i && i + 1 < ts.len() ==> date_of_text(#[trigger] ts[i]).key() < date_of_text(
            ts[i + 1],
        ).key()
}

/// Every raw weather code fits the 32-bit code space.
pub open spec fn codes_in_range(cs: Seq<u64>) -> bool {
    forall|i: int| 0 <= i < cs.len() ==> (#[trigger] cs[i]) <= u32::MAX
}

/// Every series of a block has the length of that block's timestamp series.
pub open spec fn lengths_match(v: RawForecastView) -> bool {
    &&& v.hourly_weather_code.len() == v.hourly_time.len()
    &&& v.hourly_temperature.len() == v.hourly_time.len()
    &&& v.hourly_apparent_temperature.len() == v.hourly_time.len()
    &&& v.hourly_wind_speed.len() == v.hourly_time.len()
    &&& v.daily_weather_code.len() == v.daily_time.len()
    &&& v.daily_temp_min.len() == v.daily_time.len()
    &&& v.daily_temp_max.len() == v.daily_time.len()
    &&& v.daily_apparent_temp_min.len() == v.daily_time.len()
    &&& v.daily_apparent_temp_max.len() == v.daily_time.len()
}

/// The timestamp and code series themselves are sound: timestamps parse and
/// increase, codes are in range.
pub open spec fn raw_series_ok(v: RawForecastView) -> bool {
    &&& datetimes_parse(v.hourly_time)
    &&& datetimes_increasing(v.hourly_time)
    &&& dates_parse(v.daily_time)
    &&& dates_increasing(v.daily_time)
    &&& codes_in_range(v.hourly_weather_code)
    &&& codes_in_range(v.daily_weather_code)
}

/// Extracted forecast fields validate exactly when the timezone resolves,
/// all lengths match, and the series are sound.
pub open spec fn raw_forecast_ok(v: RawForecastView) -> bool {
    tz_valid(v.timezone) && lengths_match(v) && raw_series_ok(v)
}

/// The snapshot is the validated form of the extracted fields: timezone and
/// numeric texts kept, timestamps parsed, codes classified.
pub open spec fn snapshot_matches(snap: ForecastSnapshot, v: RawForecastView) -> bool {
    &&& snap.timezone@ == v.timezone
    &&& snap.hourly.time@.len() == v.hourly_time.len()
    &&& forall|i: int|
        0 <= i < v.hourly_time.len() ==> (#[trigger] snap.hourly.time@[i]) == datetime_of_text(
            v.hourly_time[i],
        )
    &&& snap.hourly.weather_code@.len() == v.hourly_weather_code.len()
    &&& forall|i: int|
        0 <= i < v.hourly_weather_code.len() ==> (#[trigger] snap.hourly.weather_code@[i])
            == code_of(v.hourly_weather_code[i] as u32)
    &&& texts_of(snap.hourly.temperature@) == v.hourly_temperature
    &&& texts_of(snap.hourly.apparent_temperature@) == v.hourly_apparent_temperature
    &&& texts_of(snap.hourly.wind_speed@) == v.hourly_wind_speed
    &&& snap.daily.dates@.len() == v.daily_time.len()
    &&& forall|i: int|
        0 <= i < v.daily_time.len() ==> (#[trigger] snap.daily.dates@[i]) == date_of_text(
            v.daily_time[i],
        )
    &&& snap.daily.weather_code@.len() == v.daily_weather_code.len()
    &&& forall|i: int|
        0 <= i < v.daily_weather_code.len() ==> (#[trigger] snap.daily.weather_code@[i]) == code_of(
            v.daily_weather_code[i] as u32,
        )
    &&& texts_of(snap.daily.temp_min@) == v.daily_temp_min
    &&& texts_of(snap.daily.temp_max@) == v.daily_temp_max
    &&& texts_of(snap.daily.apparent_temp_min@) == v.daily_apparent_temp_min
    &&& texts_of(snap.daily.apparent_temp_max@) == v.daily_apparent_temp_max
}

/// Parses every timestamp text, or reports the first that does not parse.
fn parse_datetime_vec(ts: &Vec<String>) -> (r: Option<Vec<LocalDateTime>>)
    ensures
        r is Some <==> datetimes_parse(texts_of(ts@)),
        r is Some ==> {
            let out = r.unwrap()@;
            &&& out.len() == ts@.len()
            &&& forall|i: int|
                0 <= i < ts@.len() ==> (#[trigger] out[i]) == datetime_of_text(ts@[i]@)
                    && out[i].wf()
        },
{
    let mut out: Vec<LocalDateTime> = Vec::new();
    let mut i: usize = 0;
    while i < ts.len()
        invariant
            i <= ts@.len(),
            out@.len() == i,
            forall|k: int|
                0 <= k < i ==> is_datetime_text((#[trigger] ts@[k])@) && out@[k]
                    == datetime_of_text(ts@[k]@) && out@[k].wf(),
        decreases ts@.len() - i,
    {
        match parse_datetime(ts[i].as_str()) {
            Some(t) => out.push(t),
            None => {
                assert(texts_of(ts@)[i as int] == ts@[i as int]@);
                return None;
            },
        }
        i += 1;
    }
    assert(datetimes_parse(texts_of(ts@))) by {
        assert forall|k: int|
            0 <= k < texts_of(ts@).len() implies is_datetime_text(#[trigger] texts_of(ts@)[k]) by {
            assert(texts_of(ts@)[k] == ts@[k]@);
        }
    }
    Some(out)
}

/// Parses every date text, or reports the first that does not parse.
fn parse_date_vec(ts: &Vec<String>) -> (r: Option<Vec<LocalDate>>)
    ensures
        r is Some <==> dates_parse(texts_of(ts@)),
        r is Some ==> {
            let out = r.unwrap()@;
            &&& out.len() == ts@.len()
            &&& forall|i: int|
                0 <= i < ts@.len() ==> (#[trigger] out[i]) == date_of_text(ts@[i]@) && out[i].wf()
        },
{
    let mut out: Vec<LocalDate> = Vec::new();
    let mut i: usize = 0;
    while i < ts.len()
        invariant
            i <= ts@.len(),
            out@.len() == i,
            forall|k: int|
                0 <= k < i ==> is_date_text((#[trigger] ts@[k])@) && out@[k] == date_of_text(
                    ts@[k]@,
                ) && out@[k].wf(),
        decreases ts@.len() - i,
    {
        match parse_date(ts[i].as_str()) {
            Some(t) => out.push(t),
            None => {
                assert(texts_of(ts@)[i as int] == ts@[i as int]@);
                return None;
            },
        }
        i += 1;
    }
    assert(dates_parse(texts_of(ts@))) by {
        assert forall|k: int|
            0 <= k < texts_of(ts@).len() implies is_date_text(#[trigger] texts_of(ts@)[k]) by {
            assert(texts_of(ts@)[k] == ts@[k]@);
        }
    }
    Some(out)
}

/// Whether the instants named by the texts are strictly increasing,
/// checked on their already-parsed values.
fn datetimes_sorted(ts: &Vec<String>, v: &Vec<LocalDateTime>) -> (r: bool)
    requires
        v@.len() == ts@.len(),
        forall|i: int|
            0 <= i < ts@.len() ==> (#[trigger] v@[i]) == datetime_of_text(ts@[i]@) && v@[i].wf(),
    ensures
        r == datetimes_increasing(texts_of(ts@)),
{
    if v.len() == 0 {
        return true;
    }
    let mut i: usize = 0;
    while i < v.len() - 1
        invariant
            v@.len() == ts@.len(),
            v@.len() >= 1,
            forall|k: int|
                0 <= k < ts@.len() ==> (#[trigger] v@[k]) == datetime_of_text(ts@[k]@)
                    && v@[k].wf(),
            i <= v@.len() - 1,
            forall|k: int|
                0 <= k < i ==> datetime_of_text((#[trigger] ts@[k])@).key() < datetime_of_text(
                    ts@[k + 1]@,
                ).key(),
        decreases v@.len() - i,
    {
        if !datetime_before(&v[i], &v[i + 1]) {
            assert(texts_of(ts@)[i as int] == ts@[i as int]@);
            assert(texts_of(ts@)[i as int + 1] == ts@[i as int + 1]@);
            assert(!(datetime_of_text(texts_of(ts@)[i as int]).key() < datetime_of_text(
                texts_of(ts@)[i as int + 1],
            ).key()));
            return false;
        }
        i += 1;
    }
    assert(datetimes_increasing(texts_of(ts@))) by {
        assert forall|k: int|
            0 <= k && k + 1 < texts_of(ts@).len() implies datetime_of_text(
            #[trigger] texts_of(ts@)[k],
        ).key() < datetime_of_text(texts_of(ts@)[k + 1]).key() by {
            assert(texts_of(ts@)[k] == ts@[k]@);
            assert(texts_of(ts@)[k + 1] == ts@[k + 1]@);
            assert(0 <= k < i);
        }
    }
    true
}

/// Whether the dates named by the texts are strictly increasing, checked on
/// their already-parsed values.
fn dates_sorted(ts: &Vec<String>, v: &Vec<LocalDate>) -> (r: bool)
    requires
        v@.len() == ts@.len(),
        forall|i: int|
            0 <= i < ts@.len() ==> (#[trigger] v@[i]) == date_of_text(ts@[i]@) && v@[i].wf(),
    ensures
        r == dates_increasing(texts_of(ts@)),
{
    if v.len() == 0 {
        return true;
    }
    let mut i: usize = 0;
    while i < v.len() - 1
        invariant
            v@.len() == ts@.len(),
            v@.len() >= 1,
            forall|k: int|
                0 <= k < ts@.len() ==> (#[trigger] v@[k]) == date_of_text(ts@[k]@) && v@[k].wf(),
            i <= v@.len() - 1,
            forall|k: int|
                0 <= k < i ==> date_of_text((#[trigger] ts@[k])@).key() < date_of_text(
                    ts@[k + 1]@,
                ).key(),
        decreases v@.len() - i,
    {
        if !date_before(&v[i], &v[i + 1]) {
            assert(texts_of(ts@)[i as int] == ts@[i as int]@);
            assert(texts_of(ts@)[i as int + 1] == ts@[i as int + 1]@);
            assert(!(date_of_text(texts_of(ts@)[i as int]).key() < date_of_text(
                texts_of(ts@)[i as int + 1],
            ).key()));
            return false;
        }
        i += 1;
    }
    assert(dates_increasing(texts_of(ts@))) by {
        assert forall|k: int|
            0 <= k && k + 1 < texts_of(ts@).len() implies date_of_text(
            #[trigger] texts_of(ts@)[k],
        ).key() < date_of_text(texts_of(ts@)[k + 1]).key() by {
            assert(texts_of(ts@)[k] == ts@[k]@);
            assert(texts_of(ts@)[k + 1] == ts@[k + 1]@);
            assert(0 <= k < i);
        }
    }
    true
}

/// Maps every raw code to its condition, or reports one out of range.
fn classify_codes(cs: &Vec<u64>) -> (r: Option<Vec<WeatherCode>>)
    ensures
        r is Some <==> codes_in_range(cs@),
        r is Some ==> {
            let out = r.unwrap()@;
            &&& out.len() == cs@.len()
            &&& forall|i: int| 0 <= i < cs@.len() ==> (#[trigger] out[i]) == code_of(cs@[i] as u32)
        },
{
    let mut out: Vec<WeatherCode> = Vec::new();
    let mut i: usize = 0;
    while i < cs.len()
        invariant
            i <= cs@.len(),
            out@.len() == i,
            forall|k: int| 0 <= k < i ==> (#[trigger] cs@[k]) <= u32::MAX,
            forall|k: int| 0 <= k < i ==> (#[trigger] out@[k]) == code_of(cs@[k] as u32),
        decreases cs@.len() - i,
    {
        let c = cs[i];
        if c > u32::MAX as u64 {
            return None;
        }
        out.push(WeatherCode::from(c as u32));
        i += 1;
    }
    Some(out)
}

/// Validates the extracted forecast fields and assembles the snapshot:
/// succeeds exactly when the timezone resolves, every series length matches
/// its block's timestamp length, all timestamps parse and strictly
/// increase, and all codes are in range. On success every field of the
/// snapshot is pinned to the raw input; on failure the error names the
/// first rule broken, checked in the order timezone, lengths, series.
pub fn validate_forecast(raw: RawForecast) -> (r: Result<ForecastSnapshot, DecodeError>)
    ensures
        r is Ok <==> raw_forecast_ok(raw.texts()),
        !tz_valid(raw.texts().timezone) ==> r == Err::<ForecastSnapshot, DecodeError>(
            DecodeError::TimezoneResolution,
        ),
        tz_valid(raw.texts().timezone) && !lengths_match(raw.texts()) ==> r == Err::<
            ForecastSnapshot,
            DecodeError,
        >(DecodeError::LengthMismatch),
        tz_valid(raw.texts().timezone) && lengths_match(raw.texts()) && !raw_series_ok(
            raw.texts(),
        ) ==> r == Err::<ForecastSnapshot, DecodeError>(DecodeError::NotParseable),
        r matches Ok(snap) ==> snap.wf() && snapshot_matches(snap, raw.texts()),
{
    if !tz_resolves(raw.timezone.as_str()) {
        return Err(DecodeError::TimezoneResolution);
    }
    let n = raw.hourly_time.len();
    if raw.hourly_weather_code.len() != n || raw.hourly_temperature.len() != n
        || raw.hourly_apparent_temperature.len() != n || raw.hourly_wind_speed.len() != n {
        return Err(DecodeError::LengthMismatch);
    }
    let m = raw.daily_time.len();
    if raw.daily_weather_code.len() != m || raw.daily_temp_min.len() != m
        || raw.daily_temp_max.len() != m || raw.daily_apparent_temp_min.len() != m
        || raw.daily_apparent_temp_max.len() != m {
        return Err(DecodeError::LengthMismatch);
    }
    let time = match parse_datetime_vec(&raw.hourly_time) {
        Some(v) => v,
        None => {
            return Err(DecodeError::NotParseable);
        },
    };
    if !datetimes_sorted(&raw.hourly_time, &time) {
        return Err(DecodeError::NotParseable);
    }
    let dates = match parse_date_vec(&raw.daily_time) {
        Some(v) => v,
        None => {
            return Err(DecodeError::NotParseable);
        },
    };
    if !dates_sorted(&raw.daily_time, &dates) {
        return Err(DecodeError::NotParseable);
    }
    let hourly_codes = match classify_codes(&raw.hourly_weather_code) {
        Some(v) => v,
        None => {
            return Err(DecodeError::NotParseable);
        },
    };
    let daily_codes = match classify_codes(&raw.daily_weather_code) {
        Some(v) => v,
        None => {
            return Err(DecodeError::NotParseable);
        },
    };
    proof {
        assert forall|i: int|
            0 <= i && i + 1 < time@.len() implies (#[trigger] time@[i]).key()
            < time@[i + 1].key() by {
            assert(texts_of(raw.hourly_time@)[i] == raw.hourly_time@[i]@);
            assert(texts_of(raw.hourly_time@)[i + 1] == raw.hourly_time@[i + 1]@);
            assert(datetime_of_text(texts_of(raw.hourly_time@)[i]).key() < datetime_of_text(
                texts_of(raw.hourly_time@)[i + 1],
            ).key());
        }
        assert forall|i: int|
            0 <= i && i + 1 < dates@.len() implies (#[trigger] dates@[i]).key()
            < dates@[i + 1].key() by {
            assert(texts_of(raw.daily_time@)[i] == raw.daily_time@[i]@);
            assert(texts_of(raw.daily_time@)[i + 1] == raw.daily_time@[i + 1]@);
            assert(date_of_text(texts_of(raw.daily_time@)[i]).key() < date_of_text(
                texts_of(raw.daily_time@)[i + 1],
            ).key());
        }
        assert forall|i: int|
            0 <= i < raw.hourly_time@.len() implies (#[trigger] time@[i]) == datetime_of_text(
            raw.texts().hourly_time[i],
        ) by {
            assert(texts_of(raw.hourly_time@)[i] == raw.hourly_time@[i]@);
        }
        assert forall|i: int|
            0 <= i < raw.daily_time@.len() implies (#[trigger] dates@[i]) == date_of_text(
            raw.texts().daily_time[i],
        ) by {
            assert(texts_of(raw.daily_time@)[i] == raw.daily_time@[i]@);
        }
    }
    Ok(
        ForecastSnapshot {
            timezone: raw.timezone,
            hourly: HourlySeries {
                time,
                weather_code: hourly_codes,
                temperature: raw.hourly_temperature,
                apparent_temperature: raw.hourly_apparent_temperature,
                wind_speed: raw.hourly_wind_speed,
            },
            daily: DailySeries {
                dates,
                weather_code: daily_codes,
                temp_min: raw.daily_temp_min,
                temp_max: raw.daily_temp_max,
                apparent_temp_min: raw.daily_apparent_temp_min,
                apparent_temp_max: raw.daily_apparent_temp_max,
            },
        },
    )
}

/// The text under `key`: the field must exist and be a string node.
pub open spec fn spec_str_field(v: serde_json::Value, key: Seq<char>) -> Result<
    Seq<char>,
    DecodeError,
> {
    match json_field_of(v, key) {
        Option::Some(f) => match json_str_of(f) {
            Option::Some(s) => Ok(s),
            Option::None => Err(DecodeError::NotParseable),
        },
        Option::None => Err(DecodeError::MissingField),
    }
}

/// The elements under `key`: the field must exist and be an array node.
pub open spec fn spec_array_field(v: serde_json::Value, key: Seq<char>) -> Result<
    Seq<serde_json::Value>,
    DecodeError,
> {
    match json_field_of(v, key) {
        Option::Some(f) => match json_items_of(f) {
            Option::Some(items) => Ok(items),
            Option::None => Err(DecodeError::NotParseable),
        },
        Option::None => Err(DecodeError::MissingField),
    }
}

/// Every element is a string node.
pub open spec fn all_strings(items: Seq<serde_json::Value>) -> bool {
    forall|i: int| 0 <= i < items.len() ==> json_str_of(#[trigger] items[i]) is Some
}

/// The texts of the string elements.
pub open spec fn string_texts(items: Seq<serde_json::Value>) -> Seq<Seq<char>> {
    Seq::new(items.len(), |i: int| json_str_of(items[i]).unwrap())
}

/// Every element is a nonnegative 64-bit integer node.
pub open spec fn all_u64s(items: Seq<serde_json::Value>) -> bool {
    forall|i: int| 0 <= i < items.len() ==> json_u64_of(#[trigger] items[i]) is Some
}

/// The values of the integer elements.
pub open spec fn u64_values(items: Seq<serde_json::Value>) -> Seq<u64> {
    Seq::new(items.len(), |i: int| json_u64_of(items[i]).unwrap())
}

/// Every element is a number node.
pub open spec fn all_numbers(items: Seq<serde_json::Value>) -> bool {
    forall|i: int| 0 <= i < items.len() ==> json_number_of(#[trigger] items[i]) is Some
}

/// The texts the number elements print as.
pub open spec fn number_texts(items: Seq<serde_json::Value>) -> Seq<Seq<char>> {
    Seq::new(items.len(), |i: int| number_text_of(json_number_of(items[i]).unwrap()))
}

/// The string texts of the array under `key` of block `v`.
pub open spec fn spec_extract_strings(v: serde_json::Value, key: Seq<char>) -> Result<
    Seq<Seq<char>>,
    DecodeError,
> {
    match spec_array_field(v, key) {
        Ok(items) => if all_strings(items) {
            Ok(string_texts(items))
        } else {
            Err(DecodeError::NotParseable)
        },
        Err(e) => Err(e),
    }
}

/// The integer values of the array under `key` of block `v`.
pub open spec fn spec_extract_u64s(v: serde_json::Value, key: Seq<char>) -> Result<
    Seq<u64>,
    DecodeError,
> {
    match spec_array_field(v, key) {
        Ok(items) => if all_u64s(items) {
            Ok(u64_values(items))
        } else {
            Err(DecodeError::NotParseable)
        },
        Err(e) => Err(e),
    }
}

/// The numeric texts of the array under `key` of block `v`.
pub open spec fn spec_extract_numbers(v: serde_json::Value, key: Seq<char>) -> Result<
    Seq<Seq<char>>,
    DecodeError,
> {
    match spec_array_field(v, key) {
        Ok(items) => if all_numbers(items) {
            Ok(number_texts(items))
        } else {
            Err(DecodeError::NotParseable)
        },
        Err(e) => Err(e),
    }
}

/// What extraction yields on the forecast document: the fields in the order
/// they are read, the first failure naming its cause.
pub open spec fn forecast_extract_of(doc: serde_json::Value) -> Result<
    RawForecastView,
    DecodeError,
> {
    match spec_str_field(doc, "timezone"@) {
        Err(e) => Err(e),
        Ok(timezone) => match json_field_of(doc, "hourly"@) {
            Option::None => Err(DecodeError::MissingField),
            Option::Some(hourly) => match spec_extract_strings(hourly, "time"@) {
                Err(e) => Err(e),
                Ok(hourly_time) => match spec_extract_u64s(hourly, "weather_code"@) {
                    Err(e) => Err(e),
                    Ok(hourly_weather_code) => match spec_extract_numbers(
                        hourly,
                        "temperature_2m"@,
                    ) {
                        Err(e) => Err(e),
                        Ok(hourly_temperature) => match spec_extract_numbers(
                            hourly,
                            "apparent_temperature"@,
                        ) {
                            Err(e) => Err(e),
                            Ok(hourly_apparent_temperature) => match spec_extract_numbers(
                                hourly,
                                "wind_speed_10m"@,
                            ) {
                                Err(e) => Err(e),
                                Ok(hourly_wind_speed) => match json_field_of(doc, "daily"@) {
                                    Option::None => Err(DecodeError::MissingField),
                                    Option::Some(daily) => match spec_extract_strings(
                                        daily,
                                        "time"@,
                                    ) {
                                        Err(e) => Err(e),
                                        Ok(daily_time) => match spec_extract_u64s(
                                            daily,
                                            "weather_code"@,
                                        ) {
                                            Err(e) => Err(e),
                                            Ok(daily_weather_code) => match spec_extract_numbers(
                                                daily,
                                                "temperature_2m_min"@,
                                            ) {
                                                Err(e) => Err(e),
                                                Ok(daily_temp_min) => match spec_extract_numbers(
                                                    daily,
                                                    "temperature_2m_max"@,
                                                ) {
                                                    Err(e) => Err(e),
                                                    Ok(
                                                        daily_temp_max,
                                                    ) => match spec_extract_numbers(
                                                        daily,
                                                        "apparent_temperature_min"@,
                                                    ) {
                                                        Err(e) => Err(e),
                                                        Ok(
                                                            daily_apparent_temp_min,
                                                        ) => match spec_extract_numbers(
                                                            daily,
                                                            "apparent_temperature_max"@,
                                                        ) {
                                                            Err(e) => Err(e),
                                                            Ok(daily_apparent_temp_max) => Ok(
                                                                RawForecastView {
                                                                    timezone,
                                                                    hourly_time,
                                                                    hourly_weather_code,
                                                                    hourly_temperature,
                                                                    hourly_apparent_temperature,
                                                                    hourly_wind_speed,
                                                                    daily_time,
                                                                    daily_weather_code,
                                                                    daily_temp_min,
                                                                    daily_temp_max,
                                                                    daily_apparent_temp_min,
                                                                    daily_apparent_temp_max,
                                                                },
                                                            ),
                                                        },
                                                    },
                                                },
                                            },
                                        },
                                    },
                                },
                            },
                        },
                    },
                },
            },
        },
    }
}

/// What decoding yields on the forecast payload bytes: parse, extract, then
/// validate, with the error precedence the decoder follows.
pub open spec fn forecast_outcome(body: Seq<u8>) -> Result<RawForecastView, DecodeError> {
    match json_doc_of(body) {
        Option::None => Err(DecodeError::Malformed),
        Option::Some(doc) => match forecast_extract_of(doc) {
            Err(e) => Err(e),
            Ok(v) => if !tz_valid(v.timezone) {
                Err(DecodeError::TimezoneResolution)
            } else if !lengths_match(v) {
                Err(DecodeError::LengthMismatch)
            } else if !raw_series_ok(v) {
                Err(DecodeError::NotParseable)
            } else {
                Ok(v)
            },
        },
    }
}

/// What decoding yields on the geolocation payload bytes: numeric `lat` and
/// `lon`, a string `timezone` that the timezone database resolves.
pub open spec fn geolocation_outcome(body: Seq<u8>) -> Result<GeolocationView, DecodeError> {
    match json_doc_of(body) {
        Option::None => Err(DecodeError::Malformed),
        Option::Some(doc) => match json_field_of(doc, "lat"@) {
            Option::None => Err(DecodeError::MissingField),
            Option::Some(latf) => match json_number_of(latf) {
                Option::None => Err(DecodeError::NotParseable),
                Option::Some(latn) => match json_field_of(doc, "lon"@) {
                    Option::None => Err(DecodeError::MissingField),
                    Option::Some(lonf) => match json_number_of(lonf) {
                        Option::None => Err(DecodeError::NotParseable),
                        Option::Some(lonn) => match spec_str_field(doc, "timezone"@) {
                            Err(e) => Err(e),
                            Ok(tz) => if tz_valid(tz) {
                                Ok(
                                    GeolocationView {
                                        latitude: number_text_of(latn),
                                        longitude: number_text_of(lonn),
                                        timezone: tz,
                                    },
                                )
                            } else {
                                Err(DecodeError::TimezoneResolution)
                            },
                        },
                    },
                },
            },
        },
    }
}

/// The string under `key`, or the error for an absent or non-string field.
fn obj_string_field(v: &serde_json::Value, key: &str) -> (r: Result<String, DecodeError>)
    ensures
        match spec_str_field(*v, key@) {
            Ok(s) => r matches Ok(out) && out@ == s,
            Err(e) => r == Err::<String, DecodeError>(e),
        },
{
    match json_get(v, key) {
        Some(f) => match json_str(f) {
            Some(s) => Ok(s),
            None => Err(DecodeError::NotParseable),
        },
        None => Err(DecodeError::MissingField),
    }
}

/// The array under `key`, or the error for an absent or non-array field.
fn obj_array_field<'a>(v: &'a serde_json::Value, key: &str) -> (r: Result<
    &'a Vec<serde_json::Value>,
    DecodeError,
>)
    ensures
        match spec_array_field(*v, key@) {
            Ok(items) => r matches Ok(a) && a@ == items,
            Err(e) => r matches Err(out) && out == e,
        },
{
    match json_get(v, key) {
        Some(f) => match json_array(f) {
            Some(a) => Ok(a),
            None => Err(DecodeError::NotParseable),
        },
        None => Err(DecodeError::MissingField),
    }
}

/// Every element as a string, or `NotParseable` at the first that is not.
fn string_items(arr: &Vec<serde_json::Value>) -> (r: Result<Vec<String>, DecodeError>)
    ensures
        all_strings(arr@) ==> (r matches Ok(out) && texts_of(out@) == string_texts(arr@)),
        !all_strings(arr@) ==> r == Err::<Vec<String>, DecodeError>(DecodeError::NotParseable),
{
    let mut out: Vec<String> = Vec::new();
    let mut i: usize = 0;
    while i < arr.len()
        invariant
            i <= arr@.len(),
            out@.len() == i,
            forall|k: int|
                0 <= k < i ==> json_str_of(#[trigger] arr@[k]) is Some && out@[k]@ == json_str_of(
                    arr@[k],
                ).unwrap(),
        decreases arr@.len() - i,
    {
        match json_str(&arr[i]) {
            Some(s) => out.push(s),
            None => {
                return Err(DecodeError::NotParseable);
            },
        }
        i += 1;
    }
    proof {
        assert(texts_of(out@) =~= string_texts(arr@));
    }
    Ok(out)
}

/// Every element as a nonnegative 64-bit integer, or `NotParseable` at the
/// first that is not.
fn u64_items(arr: &Vec<serde_json::Value>) -> (r: Result<Vec<u64>, DecodeError>)
    ensures
        all_u64s(arr@) ==> (r matches Ok(out) && out@ == u64_values(arr@)),
        !all_u64s(arr@) ==> r == Err::<Vec<u64>, DecodeError>(DecodeError::NotParseable),
{
    let mut out: Vec<u64> = Vec::new();
    let mut i: usize = 0;
    while i < arr.len()
        invariant
            i <= arr@.len(),
            out@.len() == i,
            forall|k: int|
                0 <= k < i ==> json_u64_of(#[trigger] arr@[k]) is Some && out@[k] == json_u64_of(
                    arr@[k],
                ).unwrap(),
        decreases arr@.len() - i,
    {
        match json_u64(&arr[i]) {
            Some(n) => out.push(n),
            None => {
                return Err(DecodeError::NotParseable);
            },
        }
        i += 1;
    }
    proof {
        assert(out@ =~= u64_values(arr@));
    }
    Ok(out)
}

/// Every element's numeric text, or `NotParseable` at the first element
/// that is not a number.
fn number_items(arr: &Vec<serde_json::Value>) -> (r: Result<Vec<String>, DecodeError>)
    ensures
        all_numbers(arr@) ==> (r matches Ok(out) && texts_of(out@) == number_texts(arr@)),
        !all_numbers(arr@) ==> r == Err::<Vec<String>, DecodeError>(DecodeError::NotParseable),
{
    let mut out: Vec<String> = Vec::new();
    let mut i: usize = 0;
    while i < arr.len()
        invariant
            i <= arr@.len(),
            out@.len() == i,
            forall|k: int|
                0 <= k < i ==> json_number_of(#[trigger] arr@[k]) is Some && out@[k]@
                    == number_text_of(json_number_of(arr@[k]).unwrap()),
        decreases arr@.len() - i,
    {
        match json_number(&arr[i]) {
            Some(n) => out.push(number_text(n)),
            None => {
                return Err(DecodeError::NotParseable);
            },
        }
        i += 1;
    }
    proof {
        assert(texts_of(out@) =~= number_texts(arr@));
    }
    Ok(out)
}

/// Pulls the forecast fields out of the parsed document as plain values,
/// exactly as `forecast_extract_of` names them.
fn extract_forecast(doc: &serde_json::Value) -> (r: Result<RawForecast, DecodeError>)
    ensures
        match forecast_extract_of(*doc) {
            Ok(v) => r matches Ok(raw) && raw.texts() == v,
            Err(e) => r matches Err(out) && out == e,
        },
{
    let timezone = obj_string_field(doc, "timezone")?;
    let hourly = match json_get(doc, "hourly") {
        Some(v) => v,
        None => {
            return Err(DecodeError::MissingField);
        },
    };
    let hourly_time = string_items(obj_array_field(hourly, "time")?)?;
    let hourly_weather_code = u64_items(obj_array_field(hourly, "weather_code")?)?;
    let hourly_temperature = number_items(obj_array_field(hourly, "temperature_2m")?)?;
    let hourly_apparent_temperature = number_items(
        obj_array_field(hourly, "apparent_temperature")?,
    )?;
    let hourly_wind_speed = number_items(obj_array_field(hourly, "wind_speed_10m")?)?;
    let daily = match json_get(doc, "daily") {
        Some(v) => v,
        None => {
            return Err(DecodeError::MissingField);
        },
    };
    let daily_time = string_items(obj_array_field(daily, "time")?)?;
    let daily_weather_code = u64_items(obj_array_field(daily, "weather_code")?)?;
    let daily_temp_min = number_items(obj_array_field(daily, "temperature_2m_min")?)?;
    let daily_temp_max = number_items(obj_array_field(daily, "temperature_2m_max")?)?;
    let daily_apparent_temp_min = number_items(
        obj_array_field(daily, "apparent_temperature_min")?,
    )?;
    let daily_apparent_temp_max = number_items(
        obj_array_field(daily, "apparent_temperature_max")?,
    )?;
    let raw = RawForecast {
        timezone,
        hourly_time,
        hourly_weather_code,
        hourly_temperature,
        hourly_apparent_temperature,
        hourly_wind_speed,
        daily_time,
        daily_weather_code,
        daily_temp_min,
        daily_temp_max,
        daily_apparent_temp_min,
        daily_apparent_temp_max,
    };
    proof {
        assert(raw.texts() =~~= forecast_extract_of(*doc).unwrap());
    }
    Ok(raw)
}

/// Decodes a forecast payload: parses the JSON document, pulls the fields
/// out, and validates them, exactly as `forecast_outcome` names the result.
/// All-or-nothing: a well-formed snapshot or an error, never a partial
/// result.
pub fn decode_forecast(body: &[u8]) -> (r: Result<ForecastSnapshot, DecodeError>)
    ensures
        match forecast_outcome(body@) {
            Ok(v) => r matches Ok(snap) && snap.wf() && snapshot_matches(snap, v),
            Err(e) => r == Err::<ForecastSnapshot, DecodeError>(e),
        },
        r is Ok ==> r.unwrap().wf(),
{
    let doc = match json_parse(body) {
        Some(v) => v,
        None => {
            return Err(DecodeError::Malformed);
        },
    };
    let raw = extract_forecast(&doc)?;
    validate_forecast(raw)
}

/// Decodes a geolocation payload, exactly as `geolocation_outcome` names the
/// result: numeric `lat` and `lon` and a `timezone` identifier that the
/// timezone database resolves. An unresolvable zone is a hard failure,
/// never a silent default.
pub fn decode_geolocation(body: &[u8]) -> (r: Result<Geolocation, DecodeError>)
    ensures
        match geolocation_outcome(body@) {
            Ok(v) => r matches Ok(g) && g.latitude@ == v.latitude && g.longitude@ == v.longitude
                && g.timezone@ == v.timezone && g.wf(),
            Err(e) => r == Err::<Geolocation, DecodeError>(e),
        },
        r is Ok ==> r.unwrap().wf(),
{
    let doc = match json_parse(body) {
        Some(v) => v,
        None => {
            return Err(DecodeError::Malformed);
        },
    };
    let latitude = match json_get(&doc, "lat") {
        Some(f) => match json_number(f) {
            Some(n) => number_text(n),
            None => {
                return Err(DecodeError::NotParseable);
            },
        },
        None => {
            return Err(DecodeError::MissingField);
        },
    };
    let longitude = match json_get(&doc, "lon") {
        Some(f) => match json_number(f) {
            Some(n) => number_text(n),
            None => {
                return Err(DecodeError::NotParseable);
            },
        },
        None => {
            return Err(DecodeError::MissingField);
        },
    };
    let timezone = obj_string_field(&doc, "timezone")?;
    if !tz_resolves(timezone.as_str()) {
        return Err(DecodeError::TimezoneResolution);
    }
    Ok(Geolocation { latitude, longitude, timezone })
}

/// Decoding is all-or-nothing on series lengths: once the timestamp and
/// code series themselves are sound, extracted forecast fields validate
/// exactly when the timezone resolves and every series length matches its
/// block's timestamp length; any mismatch fails.
pub proof fn lemma_validate_iff_lengths(v: RawForecastView)
    requires
        raw_series_ok(v),
    ensures
        raw_forecast_ok(v) <==> (tz_valid(v.timezone) && lengths_match(v)),
{
}

/// The same law at the payload level: for any forecast payload whose
/// fields extract, whose timezone resolves and whose timestamp and code
/// series are sound, decoding succeeds exactly when every hourly series
/// has the hourly timestamp count and every daily series the daily one;
/// any mismatch fails, with `LengthMismatch`.
pub proof fn lemma_decode_iff_lengths(body: Seq<u8>)
    ensures
        (match json_doc_of(body) {
            Option::Some(doc) => match forecast_extract_of(doc) {
                Ok(v) => tz_valid(v.timezone) && raw_series_ok(v) ==> {
                    &&& forecast_outcome(body) is Ok <==> lengths_match(v)
                    &&& !lengths_match(v) ==> forecast_outcome(body) == Err::<
                        RawForecastView,
                        DecodeError,
                    >(DecodeError::LengthMismatch)
                },
                Err(_) => true,
            },
            Option::None => true,
        }),
{
}

} // verus!
