//! Core logic of a small terminal weather widget: it geolocates the host by
//! an IP-lookup service, fetches a two-day hourly/daily forecast for that
//! location, classifies the reported conditions, and decides when the cached
//! data is stale enough to refresh.
//!
//! The crate holds the verified parts: the weather-code classifier, the
//! response decoding and validation, the refresh scheduling policy, and the
//! two-stage fetch state machine. The host-facing glue (plugin registration,
//! the HTTP transport, rendering) lives outside.

mod clock;
pub mod codes;
pub mod decode;
mod json;
pub mod request;
pub mod schedule;
pub mod state;
pub mod time;
pub mod zones;

pub use codes::NeedsUmbrella;
pub use codes::WeatherCode;
pub use state::Action;
pub use state::ApiTag;
pub use state::FetchStage;
pub use state::WeatherState;
