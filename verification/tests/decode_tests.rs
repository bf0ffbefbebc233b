use weather_core::codes::WeatherCode;
use weather_core::decode::decode_forecast;
use weather_core::decode::decode_geolocation;
use weather_core::decode::validate_forecast;
use weather_core::decode::DecodeError;
use weather_core::decode::RawForecast;
use weather_core::time::parse_date;
use weather_core::time::parse_datetime;

const GEO_SRC: &str = "{\"status\":\"success\",\"country\":\"Japan\",\"countryCode\":\"JP\",\"region\":\"13\",\"regionName\":\"Tokyo\",\"city\":\"Chiyoda\",\"zip\":\"100-0001\",\"lat\":35.694,\"lon\":139.754,\"timezone\":\"Asia/Tokyo\",\"isp\":\"Google LLC\",\"org\":\"Google LLC\",\"as\":\"AS15169 Google LLC\",\"query\":\"142.250.196.110\"}";

fn forecast_src() -> String {
    let mut hourly_time = String::new();
    let mut temps = String::new();
    let mut codes = String::new();
    for day in 15..17 {
        for h in 0..24 {
            if !hourly_time.is_empty() {
                hourly_time.push(',');
                temps.push(',');
                codes.push(',');
            }
            hourly_time.push_str(&format!("\"2023-12-{}T{:02}:00\"", day, h));
            temps.push_str("1.5");
            codes.push('3');
        }
    }
    format!(
        "{{\"latitude\":40.710335,\"longitude\":-73.99307,\"generationtime_ms\":0.092,\"utc_offset_seconds\":32400,\"timezone\":\"Asia/Seoul\",\"timezone_abbreviation\":\"KST\",\"elevation\":32.0,\"hourly\":{{\"time\":[{t}],\"temperature_2m\":[{v}],\"apparent_temperature\":[{v}],\"weather_code\":[{c}],\"wind_speed_10m\":[{v}]}},\"daily\":{{\"time\":[\"2023-12-15\",\"2023-12-16\"],\"temperature_2m_min\":[0.1,2.0],\"temperature_2m_max\":[5.0,12.8],\"apparent_temperature_min\":[-4.8,-1.4],\"apparent_temperature_max\":[0.0,9.5],\"weather_code\":[3,3]}}}}",
        t = hourly_time,
        v = temps,
        c = codes,
    )
}

#[test]
fn parse_ip_geolocation_response() {
    let parsed = decode_geolocation(GEO_SRC.as_bytes()).unwrap();
    assert!(parsed.latitude.parse::<f64>().unwrap() - 35.694 < 0.0001);
    assert!(parsed.longitude.parse::<f64>().unwrap() - 139.754 < 0.0001);
    assert_eq!(parsed.timezone.parse::<chrono_tz::Tz>().unwrap(), chrono_tz::Asia::Tokyo);
}

#[test]
fn parse_weather_forecast_response() {
    let src = r#"
{
    "latitude": 40.710335,
    "longitude": -73.99307,
    "generationtime_ms": 0.09298324584960938,
    "utc_offset_seconds": 32400,
    "timezone": "Asia/Seoul",
    "timezone_abbreviation": "KST",
    "elevation": 32.0,
    "hourly_units": {
        "time": "iso8601",
        "temperature_2m": "°C",
        "apparent_temperature": "°C",
        "weather_code": "wmo code",
        "wind_speed_10m": "km/h"
    },
    "hourly": {
        "time": [
            "2023-12-15T00:00",
            "2023-12-15T01:00",
            "2023-12-15T02:00",
            "2023-12-15T03:00",
            "2023-12-15T04:00",
            "2023-12-15T05:00",
            "2023-12-15T06:00",
            "2023-12-15T07:00",
            "2023-12-15T08:00",
            "2023-12-15T09:00",
            "2023-12-15T10:00",
            "2023-12-15T11:00",
            "2023-12-15T12:00",
            "2023-12-15T13:00",
            "2023-12-15T14:00",
            "2023-12-15T15:00",
            "2023-12-15T16:00",
            "2023-12-15T17:00",
            "2023-12-15T18:00",
            "2023-12-15T19:00",
            "2023-12-15T20:00",
            "2023-12-15T21:00",
            "2023-12-15T22:00",
            "2023-12-15T23:00",
            "2023-12-16T00:00",
            "2023-12-16T01:00",
            "2023-12-16T02:00",
            "2023-12-16T03:00",
            "2023-12-16T04:00",
            "2023-12-16T05:00",
            "2023-12-16T06:00",
            "2023-12-16T07:00",
            "2023-12-16T08:00",
            "2023-12-16T09:00",
            "2023-12-16T10:00",
            "2023-12-16T11:00",
            "2023-12-16T12:00",
            "2023-12-16T13:00",
            "2023-12-16T14:00",
            "2023-12-16T15:00",
            "2023-12-16T16:00",
            "2023-12-16T17:00",
            "2023-12-16T18:00",
            "2023-12-16T19:00",
            "2023-12-16T20:00",
            "2023-12-16T21:00",
            "2023-12-16T22:00",
            "2023-12-16T23:00"
        ],
        "temperature_2m": [
            2.3,
            3.2,
            3.8,
            4.4,
            4.8,
            5.0,
            4.4,
            2.9,
            2.1,
            2.2,
            1.7,
            1.5,
            1.4,
            1.1,
            1.2,
            0.9,
            0.5,
            0.5,
            0.2,
            0.1,
            0.3,
            0.4,
            1.0,
            2.9,
            4.7,
            7.1,
            10.4,
            11.8,
            12.8,
            12.6,
            10.5,
            8.1,
            6.8,
            5.9,
            5.3,
            5.0,
            4.9,
            4.7,
            4.5,
            4.2,
            3.6,
            3.1,
            2.7,
            2.5,
            2.3,
            2.0,
            2.4,
            4.8
        ],
        "apparent_temperature": [
            -2.2,
            -1.6,
            -1.0,
            -0.5,
            -0.7,
            -0.0,
            0.0,
            -1.8,
            -2.0,
            -1.9,
            -2.9,
            -2.6,
            -3.2,
            -3.6,
            -4.0,
            -4.3,
            -4.3,
            -4.2,
            -4.8,
            -4.7,
            -4.2,
            -4.4,
            -3.7,
            -1.7,
            0.6,
            3.5,
            6.9,
            8.4,
            9.5,
            9.5,
            7.6,
            5.1,
            3.9,
            3.1,
            2.4,
            1.8,
            1.6,
            1.3,
            1.0,
            0.6,
            0.1,
            -0.4,
            -0.8,
            -1.1,
            -1.3,
            -1.4,
            -0.6,
            2.9
        ],
        "weather_code": [
            3,
            3,
            1,
            0,
            0,
            0,
            0,
            0,
            0,
            0,
            0,
            0,
            0,
            0,
            0,
            0,
            0,
            0,
            0,
            0,
            0,
            0,
            0,
            0,
            0,
            0,
            0,
            0,
            0,
            0,
            0,
            0,
            0,
            0,
            0,
            0,
            0,
            0,
            0,
            0,
            0,
            0,
            1,
            0,
            3,
            3,
            3,
            3
        ],
        "wind_speed_10m": [
            10.3,
            12.1,
            12.9,
            12.8,
            15.9,
            13.0,
            7.8,
            9.9,
            7.7,
            7.7,
            11.6,
            8.3,
            11.5,
            12.7,
            15.8,
            15.1,
            12.5,
            12.1,
            14.6,
            14.0,
            13.1,
            14.6,
            15.0,
            15.8,
            14.3,
            12.9,
            13.8,
            14.1,
            13.3,
            10.8,
            9.7,
            10.4,
            10.2,
            8.9,
            9.2,
            10.5,
            11.6,
            11.3,
            11.3,
            11.4,
            10.4,
            9.9,
            9.4,
            9.7,
            9.4,
            8.7,
            6.0,
            1.8
        ]
    },
    "daily_units": {
        "time": "iso8601",
        "temperature_2m_min": "°C",
        "temperature_2m_max": "°C",
        "apparent_temperature_min": "°C",
        "apparent_temperature_max": "°C",
        "weather_code": "wmo code"
    },
    "daily": {
        "time": [
            "2023-12-15",
            "2023-12-16"
        ],
        "temperature_2m_min": [
            0.1,
            2.0
        ],
        "temperature_2m_max": [
            5.0,
            12.8
        ],
        "apparent_temperature_min": [
            -4.8,
            -1.4
        ],
        "apparent_temperature_max": [
            0.0,
            9.5
        ],
        "weather_code": [
            3,
            3
        ]
    }
}        "#;
    let _parsed = decode_forecast(src.as_bytes()).unwrap();
}

#[test]
fn forecast_example_has_48_rows_and_overcast_days() {
    let src = r#"
{
    "latitude": 40.710335,
    "longitude": -73.99307,
    "generationtime_ms": 0.09298324584960938,
    "utc_offset_seconds": 32400,
    "timezone": "Asia/Seoul",
    "timezone_abbreviation": "KST",
    "elevation": 32.0,
    "hourly_units": {
        "time": "iso8601",
        "temperature_2m": "°C",
        "apparent_temperature": "°C",
        "weather_code": "wmo code",
        "wind_speed_10m": "km/h"
    },
    "hourly": {
        "time": [
            "2023-12-15T00:00",
            "2023-12-15T01:00",
            "2023-12-15T02:00",
            "2023-12-15T03:00",
            "2023-12-15T04:00",
            "2023-12-15T05:00",
            "2023-12-15T06:00",
            "2023-12-15T07:00",
            "2023-12-15T08:00",
            "2023-12-15T09:00",
            "2023-12-15T10:00",
            "2023-12-15T11:00",
            "2023-12-15T12:00",
            "2023-12-15T13:00",
            "2023-12-15T14:00",
            "2023-12-15T15:00",
            "2023-12-15T16:00",
            "2023-12-15T17:00",
            "2023-12-15T18:00",
            "2023-12-15T19:00",
            "2023-12-15T20:00",
            "2023-12-15T21:00",
            "2023-12-15T22:00",
            "2023-12-15T23:00",
            "2023-12-16T00:00",
            "2023-12-16T01:00",
            "2023-12-16T02:00",
            "2023-12-16T03:00",
            "2023-12-16T04:00",
            "2023-12-16T05:00",
            "2023-12-16T06:00",
            "2023-12-16T07:00",
            "2023-12-16T08:00",
            "2023-12-16T09:00",
            "2023-12-16T10:00",
            "2023-12-16T11:00",
            "2023-12-16T12:00",
            "2023-12-16T13:00",
            "2023-12-16T14:00",
            "2023-12-16T15:00",
            "2023-12-16T16:00",
            "2023-12-16T17:00",
            "2023-12-16T18:00",
            "2023-12-16T19:00",
            "2023-12-16T20:00",
            "2023-12-16T21:00",
            "2023-12-16T22:00",
            "2023-12-16T23:00"
        ],
        "temperature_2m": [
            2.3,
            3.2,
            3.8,
            4.4,
            4.8,
            5.0,
            4.4,
            2.9,
            2.1,
            2.2,
            1.7,
            1.5,
            1.4,
            1.1,
            1.2,
            0.9,
            0.5,
            0.5,
            0.2,
            0.1,
            0.3,
            0.4,
            1.0,
            2.9,
            4.7,
            7.1,
            10.4,
            11.8,
            12.8,
            12.6,
            10.5,
            8.1,
            6.8,
            5.9,
            5.3,
            5.0,
            4.9,
            4.7,
            4.5,
            4.2,
            3.6,
            3.1,
            2.7,
            2.5,
            2.3,
            2.0,
            2.4,
            4.8
        ],
        "apparent_temperature": [
            -2.2,
            -1.6,
            -1.0,
            -0.5,
            -0.7,
            -0.0,
            0.0,
            -1.8,
            -2.0,
            -1.9,
            -2.9,
            -2.6,
            -3.2,
            -3.6,
            -4.0,
            -4.3,
            -4.3,
            -4.2,
            -4.8,
            -4.7,
            -4.2,
            -4.4,
            -3.7,
            -1.7,
            0.6,
            3.5,
            6.9,
            8.4,
            9.5,
            9.5,
            7.6,
            5.1,
            3.9,
            3.1,
            2.4,
            1.8,
            1.6,
            1.3,
            1.0,
            0.6,
            0.1,
            -0.4,
            -0.8,
            -1.1,
            -1.3,
            -1.4,
            -0.6,
            2.9
        ],
        "weather_code": [
            3,
            3,
            1,
            0,
            0,
            0,
            0,
            0,
            0,
            0,
            0,
            0,
            0,
            0,
            0,
            0,
            0,
            0,
            0,
            0,
            0,
            0,
            0,
            0,
            0,
            0,
            0,
            0,
            0,
            0,
            0,
            0,
            0,
            0,
            0,
            0,
            0,
            0,
            0,
            0,
            0,
            0,
            1,
            0,
            3,
            3,
            3,
            3
        ],
        "wind_speed_10m": [
            10.3,
            12.1,
            12.9,
            12.8,
            15.9,
            13.0,
            7.8,
            9.9,
            7.7,
            7.7,
            11.6,
            8.3,
            11.5,
            12.7,
            15.8,
            15.1,
            12.5,
            12.1,
            14.6,
            14.0,
            13.1,
            14.6,
            15.0,
            15.8,
            14.3,
            12.9,
            13.8,
            14.1,
            13.3,
            10.8,
            9.7,
            10.4,
            10.2,
            8.9,
            9.2,
            10.5,
            11.6,
            11.3,
            11.3,
            11.4,
            10.4,
            9.9,
            9.4,
            9.7,
            9.4,
            8.7,
            6.0,
            1.8
        ]
    },
    "daily_units": {
        "time": "iso8601",
        "temperature_2m_min": "°C",
        "temperature_2m_max": "°C",
        "apparent_temperature_min": "°C",
        "apparent_temperature_max": "°C",
        "weather_code": "wmo code"
    },
    "daily": {
        "time": [
            "2023-12-15",
            "2023-12-16"
        ],
        "temperature_2m_min": [
            0.1,
            2.0
        ],
        "temperature_2m_max": [
            5.0,
            12.8
        ],
        "apparent_temperature_min": [
            -4.8,
            -1.4
        ],
        "apparent_temperature_max": [
            0.0,
            9.5
        ],
        "weather_code": [
            3,
            3
        ]
    }
}        "#;
    let snap = decode_forecast(src.as_bytes()).unwrap();
    assert_eq!(snap.hourly.time.len(), 48);
    let first = snap.hourly.time[0];
    assert_eq!((first.year, first.month, first.day, first.hour, first.minute), (2023, 12, 15, 0, 0));
    assert_eq!(snap.daily.dates.len(), 2);
    assert_eq!(snap.daily.weather_code, vec![WeatherCode::Overcast, WeatherCode::Overcast]);
    for code in &snap.daily.weather_code {
        assert_eq!(code.need_umbrella(), weather_core::NeedsUmbrella::No);
    }
}

#[test]
fn forecast_example_decodes_to_two_day_snapshot() {
    let src = forecast_src();
    let snap = decode_forecast(src.as_bytes()).unwrap();
    assert_eq!(snap.timezone, "Asia/Seoul");
    assert_eq!(snap.hourly.time.len(), 48);
    let first = snap.hourly.time[0];
    assert_eq!(first.year, 2023);
    assert_eq!(first.month, 12);
    assert_eq!(first.day, 15);
    assert_eq!(first.hour, 0);
    assert_eq!(first.minute, 0);
    assert_eq!(snap.daily.dates.len(), 2);
    assert_eq!(snap.daily.weather_code.len(), 2);
    for code in &snap.daily.weather_code {
        assert_eq!(*code, WeatherCode::Overcast);
        assert_eq!(code.need_umbrella(), weather_core::NeedsUmbrella::No);
    }
    assert_eq!(snap.daily.temp_min[0], "0.1");
    assert_eq!(snap.daily.temp_max[0], "5.0");
}

#[test]
fn geolocation_rejects_unknown_timezone() {
    let src = "{\"lat\":1.0,\"lon\":2.0,\"timezone\":\"Nowhere/Nowhere\"}";
    assert_eq!(decode_geolocation(src.as_bytes()), Err(DecodeError::TimezoneResolution));
}

#[test]
fn geolocation_rejects_missing_field() {
    let src = "{\"lat\":1.0,\"timezone\":\"Asia/Tokyo\"}";
    assert_eq!(decode_geolocation(src.as_bytes()), Err(DecodeError::MissingField));
}

#[test]
fn geolocation_rejects_non_numeric_coordinate() {
    let src = "{\"lat\":\"north\",\"lon\":2.0,\"timezone\":\"Asia/Tokyo\"}";
    assert_eq!(decode_geolocation(src.as_bytes()), Err(DecodeError::NotParseable));
}

#[test]
fn geolocation_rejects_malformed_document() {
    assert_eq!(decode_geolocation(b"not json"), Err(DecodeError::Malformed));
}

fn small_raw() -> RawForecast {
    RawForecast {
        timezone: "Asia/Tokyo".to_string(),
        hourly_time: vec!["2023-12-15T00:00".to_string(), "2023-12-15T01:00".to_string()],
        hourly_weather_code: vec![0, 61],
        hourly_temperature: vec!["1.0".to_string(), "2.0".to_string()],
        hourly_apparent_temperature: vec!["0.5".to_string(), "1.5".to_string()],
        hourly_wind_speed: vec!["3.0".to_string(), "4.0".to_string()],
        daily_time: vec!["2023-12-15".to_string()],
        daily_weather_code: vec![3],
        daily_temp_min: vec!["0.1".to_string()],
        daily_temp_max: vec!["5.0".to_string()],
        daily_apparent_temp_min: vec!["-1.0".to_string()],
        daily_apparent_temp_max: vec!["4.0".to_string()],
    }
}

#[test]
fn validate_accepts_matching_lengths() {
    let snap = validate_forecast(small_raw()).unwrap();
    assert_eq!(snap.hourly.time.len(), 2);
    assert_eq!(snap.hourly.weather_code[1], WeatherCode::RainSlight);
    assert_eq!(snap.daily.weather_code[0], WeatherCode::Overcast);
}

#[test]
fn validate_rejects_hourly_length_mismatch() {
    let mut raw = small_raw();
    raw.hourly_temperature.pop();
    assert_eq!(validate_forecast(raw), Err(DecodeError::LengthMismatch));
}

#[test]
fn validate_rejects_daily_length_mismatch() {
    let mut raw = small_raw();
    raw.daily_temp_max.push("9.9".to_string());
    assert_eq!(validate_forecast(raw), Err(DecodeError::LengthMismatch));
}

#[test]
fn validate_rejects_unordered_timestamps() {
    let mut raw = small_raw();
    raw.hourly_time = vec!["2023-12-15T01:00".to_string(), "2023-12-15T00:00".to_string()];
    assert_eq!(validate_forecast(raw), Err(DecodeError::NotParseable));
}

#[test]
fn validate_rejects_bad_timestamp_text() {
    let mut raw = small_raw();
    raw.hourly_time[0] = "2023-13-15T00:00".to_string();
    assert_eq!(validate_forecast(raw), Err(DecodeError::NotParseable));
}

#[test]
fn validate_rejects_unknown_timezone() {
    let mut raw = small_raw();
    raw.timezone = "Pacific/Atlantis".to_string();
    assert_eq!(validate_forecast(raw), Err(DecodeError::TimezoneResolution));
}

#[test]
fn validate_rejects_oversized_weather_code() {
    let mut raw = small_raw();
    raw.hourly_weather_code[0] = (u32::MAX as u64) + 1;
    assert_eq!(validate_forecast(raw), Err(DecodeError::NotParseable));
}

#[test]
fn forecast_rejects_length_mismatch_in_payload() {
    let src = forecast_src().replace(
        "\"weather_code\":[3,3]",
        "\"weather_code\":[3,3,3]",
    );
    assert_eq!(decode_forecast(src.as_bytes()), Err(DecodeError::LengthMismatch));
}

#[test]
fn forecast_rejects_missing_block() {
    let src = forecast_src().replace("\"daily\":", "\"weekly\":");
    assert_eq!(decode_forecast(src.as_bytes()), Err(DecodeError::MissingField));
}

#[test]
fn datetime_parsing_is_exact() {
    let t = parse_datetime("2023-12-15T23:59").unwrap();
    assert_eq!((t.year, t.month, t.day, t.hour, t.minute), (2023, 12, 15, 23, 59));
    assert!(parse_datetime("2023-12-15T24:00").is_none());
    assert!(parse_datetime("2023-12-15 00:00").is_none());
    assert!(parse_datetime("2023-12-15T00:00:00").is_none());
}

#[test]
fn date_parsing_honours_leap_years() {
    assert!(parse_date("2024-02-29").is_some());
    assert!(parse_date("2023-02-29").is_none());
    assert!(parse_date("1900-02-29").is_none());
    assert!(parse_date("2000-02-29").is_some());
    assert!(parse_date("2023-00-01").is_none());
    assert!(parse_date("2023-04-31").is_none());
}
