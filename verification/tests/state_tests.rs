use weather_core::codes::NeedsUmbrella;
use weather_core::codes::WeatherCode;
use weather_core::decode::Geolocation;
use weather_core::request::forecast_url;
use weather_core::schedule::should_fetch;
use weather_core::schedule::STALL_TIMEOUT_SECS;
use weather_core::Action;
use weather_core::ApiTag;
use weather_core::FetchStage;
use weather_core::WeatherState;

const HOUR: u64 = 3600;

fn forecast_body() -> String {
    "{\"timezone\":\"Asia/Seoul\",\
      \"hourly\":{\"time\":[\"2023-12-15T00:00\",\"2023-12-15T01:00\"],\
      \"temperature_2m\":[2.3,3.2],\"apparent_temperature\":[-2.2,-1.6],\
      \"weather_code\":[3,3],\"wind_speed_10m\":[10.3,12.1]},\
      \"daily\":{\"time\":[\"2023-12-15\"],\"temperature_2m_min\":[0.1],\
      \"temperature_2m_max\":[5.0],\"apparent_temperature_min\":[-4.8],\
      \"apparent_temperature_max\":[0.0],\"weather_code\":[3]}}"
        .to_string()
}

#[test]
fn classify_table_and_advisories() {
    assert_eq!(WeatherCode::from(61), WeatherCode::RainSlight);
    assert_eq!(WeatherCode::from(61).need_umbrella(), NeedsUmbrella::Sure);
    assert_eq!(WeatherCode::from(63), WeatherCode::RainModerate);
    assert_eq!(WeatherCode::from(63).need_umbrella(), NeedsUmbrella::Sure);
    assert_eq!(WeatherCode::from(51), WeatherCode::DrizzleLight);
    assert_eq!(WeatherCode::from(51).need_umbrella(), NeedsUmbrella::Maybe);
    assert_eq!(WeatherCode::from(3), WeatherCode::Overcast);
    assert_eq!(WeatherCode::from(3).need_umbrella(), NeedsUmbrella::No);
    assert_eq!(WeatherCode::from(42), WeatherCode::Unknown(42));
    assert_eq!(WeatherCode::from(42).need_umbrella(), NeedsUmbrella::No);
    assert_eq!(WeatherCode::from(66).need_umbrella(), NeedsUmbrella::No);
    assert_eq!(WeatherCode::from(95).need_umbrella(), NeedsUmbrella::Sure);
}

#[test]
fn should_fetch_gates_on_hour_boundary() {
    let nine_early: u64 = 9 * HOUR;
    let nine_late: u64 = 9 * HOUR + 59 * 60;
    let ten: u64 = 10 * HOUR;
    assert!(!should_fetch(FetchStage::Idle, nine_late, Some(nine_early)));
    assert!(should_fetch(FetchStage::Idle, ten, Some(nine_late)));
    assert!(should_fetch(FetchStage::Idle, ten, None));
    assert!(!should_fetch(FetchStage::FetchingLocation, ten, Some(nine_early)));
    assert!(!should_fetch(FetchStage::FetchingForecast, ten, None));
}

#[test]
fn timer_triggers_from_idle() {
    let mut st = WeatherState::new();
    let act = st.on_timer_at(10 * HOUR);
    assert!(matches!(act, Action::RequestLocation));
    assert_eq!(st.stage, FetchStage::FetchingLocation);
    assert_eq!(st.last_requested, Some(10 * HOUR));
}

#[test]
fn timer_waits_within_same_hour() {
    let mut st = WeatherState::new();
    st.last_updated = Some(9 * HOUR);
    let act = st.on_timer_at(9 * HOUR + 30 * 60);
    assert!(matches!(act, Action::NoRequest));
    assert_eq!(st.stage, FetchStage::Idle);
    assert_eq!(st.last_requested, None);
}

#[test]
fn stalled_fetch_reverts_to_idle() {
    let mut st = WeatherState::new();
    st.stage = FetchStage::FetchingLocation;
    st.last_requested = Some(100);
    let act = st.on_timer_at(100 + STALL_TIMEOUT_SECS - 1);
    assert!(matches!(act, Action::NoRequest));
    assert_eq!(st.stage, FetchStage::FetchingLocation);
    let act = st.on_timer_at(100 + STALL_TIMEOUT_SECS);
    assert!(matches!(act, Action::NoRequest));
    assert_eq!(st.stage, FetchStage::Idle);
}

#[test]
fn forecast_response_while_idle_is_ignored() {
    let mut st = WeatherState::new();
    st.last_updated = Some(7);
    let body = forecast_body();
    let act = st.on_response_at(ApiTag::Forecast, 200, body.as_bytes(), 50);
    assert!(matches!(act, Action::NoRequest));
    assert_eq!(st.stage, FetchStage::Idle);
    assert_eq!(st.forecast, None);
    assert_eq!(st.last_updated, Some(7));
    assert_eq!(st.last_requested, None);
    assert_eq!(st.last_rendered, None);
}

#[test]
fn location_response_while_fetching_forecast_is_ignored() {
    let mut st = WeatherState::new();
    st.stage = FetchStage::FetchingForecast;
    st.last_requested = Some(40);
    let geo_body = "{\"lat\":35.694,\"lon\":139.754,\"timezone\":\"Asia/Tokyo\"}";
    let act = st.on_response_at(ApiTag::Location, 200, geo_body.as_bytes(), 60);
    assert!(matches!(act, Action::NoRequest));
    assert_eq!(st.stage, FetchStage::FetchingForecast);
    assert_eq!(st.forecast, None);
    assert_eq!(st.last_requested, Some(40));
}

#[test]
fn location_success_requests_forecast_with_encoded_url() {
    let mut st = WeatherState::new();
    start_location_fetch(&mut st);
    let geo_body = "{\"lat\":35.694,\"lon\":139.754,\"timezone\":\"Asia/Tokyo\"}";
    let act = st.on_response_at(ApiTag::Location, 200, geo_body.as_bytes(), 123);
    match act {
        Action::RequestForecast(url) => {
            assert_eq!(
                url,
                "https://api.open-meteo.com/v1/forecast?latitude=35.694&longitude=139.754\
                 &hourly=temperature_2m,apparent_temperature,weather_code,wind_speed_10m\
                 &daily=weather_code,temperature_2m_max,temperature_2m_min,\
                 apparent_temperature_max,apparent_temperature_min\
                 &timezone=Asia%2FTokyo&forecast_days=2"
            );
        },
        other => panic!("expected a forecast request, got {:?}", other),
    }
    assert_eq!(st.stage, FetchStage::FetchingForecast);
    assert_eq!(st.last_requested, Some(123));
}

#[test]
fn transport_failure_reverts_and_keeps_cache() {
    let mut st = WeatherState::new();
    start_location_fetch(&mut st);
    let act = st.on_response_at(ApiTag::Location, 503, b"oops", 10);
    assert!(matches!(act, Action::NoRequest));
    assert_eq!(st.stage, FetchStage::Idle);
}

#[test]
fn decode_failure_reverts_and_keeps_cache() {
    let mut st = WeatherState::new();
    st.stage = FetchStage::FetchingForecast;
    let act = st.on_response_at(ApiTag::Forecast, 200, b"not json", 10);
    assert!(matches!(act, Action::NoRequest));
    assert_eq!(st.stage, FetchStage::Idle);
    assert_eq!(st.forecast, None);
    assert_eq!(st.last_updated, None);
}

#[test]
fn forecast_success_caches_snapshot_and_advisory() {
    let mut st = WeatherState::new();
    st.stage = FetchStage::FetchingForecast;
    let body = forecast_body();
    let act = st.on_response_at(ApiTag::Forecast, 200, body.as_bytes(), 777);
    assert!(matches!(act, Action::NoRequest));
    assert_eq!(st.stage, FetchStage::Idle);
    assert_eq!(st.last_updated, Some(777));
    let snap = st.forecast.as_ref().unwrap();
    assert_eq!(snap.hourly.time.len(), 2);
    let adv = st.get_advisory().unwrap();
    assert_eq!(adv.condition, WeatherCode::Overcast);
    assert_eq!(adv.umbrella, NeedsUmbrella::No);
    assert_eq!(adv.temp_min, "0.1");
    assert_eq!(adv.temp_max, "5.0");
}

#[test]
fn advisory_is_none_without_forecast() {
    let st = WeatherState::new();
    assert!(st.get_advisory().is_none());
}

#[test]
fn url_builder_encodes_timezone_separators() {
    let geo = Geolocation {
        latitude: "-12.5".to_string(),
        longitude: "130.9".to_string(),
        timezone: "America/Argentina/Ushuaia".to_string(),
    };
    let url = forecast_url(&geo);
    assert!(url.contains("timezone=America%2FArgentina%2FUshuaia"));
    assert!(url.contains("latitude=-12.5&longitude=130.9"));
    assert!(url.ends_with("&forecast_days=2"));
}

fn start_location_fetch(st: &mut WeatherState) {
    let act = st.trigger_at(5);
    assert!(matches!(act, Action::RequestLocation));
    assert_eq!(st.stage, FetchStage::FetchingLocation);
}

#[test]
fn run_forces_fetch_from_idle_only() {
    let mut st = WeatherState::new();
    let act = st.run();
    assert!(matches!(act, Action::RequestLocation));
    assert_eq!(st.stage, FetchStage::FetchingLocation);
    assert!(st.last_requested.is_some());
    let act = st.run();
    assert!(matches!(act, Action::NoRequest));
    assert_eq!(st.stage, FetchStage::FetchingLocation);
}

#[test]
fn timer_with_real_clock_triggers_on_fresh_state() {
    let mut st = WeatherState::new();
    let act = st.on_timer();
    assert!(matches!(act, Action::RequestLocation));
    assert_eq!(st.stage, FetchStage::FetchingLocation);
}

#[test]
fn response_with_real_clock_ignores_mismatched_tag() {
    let mut st = WeatherState::new();
    let act = st.on_response(ApiTag::Forecast, 200, b"{}");
    assert!(matches!(act, Action::NoRequest));
    assert_eq!(st.stage, FetchStage::Idle);
    assert_eq!(st.forecast, None);
}
