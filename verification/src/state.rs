//! The two-stage fetch state machine. It owns the widget state, decides
//! every transition, and tells its caller which request to issue next; the
//! caller performs the transport and hands each response back with its
//! correlation tag.

use vstd::prelude::*;

use crate::clock::clamp_epoch;
use crate::clock::now_unix;
use crate::codes::umbrella_of;
use crate::codes::NeedsUmbrella;
use crate::codes::WeatherCode;
use crate::decode::decode_forecast;
use crate::decode::decode_geolocation;
use crate::decode::forecast_outcome;
use crate::decode::geolocation_outcome;
use crate::decode::snapshot_matches;
use crate::decode::ForecastSnapshot;
use crate::decode::Geolocation;
use crate::request::forecast_url;
use crate::request::forecast_url_text;
use crate::schedule::should_fetch;
use crate::schedule::should_fetch_spec;
use crate::schedule::stalled;
use crate::schedule::stalled_spec;

verus! {

/// The stage of the fetch pipeline. Exactly one is active at a time; the
/// machine leaves `Idle` only through a trigger and returns to it on every
/// terminal event of the active stage.
#[derive(Clone, Copy, Debug, PartialEq, Eq, Structural)]
pub enum FetchStage {
    Idle,
    FetchingLocation,
    FetchingForecast,
}

/// The correlation tag a response arrives under, echoed back verbatim from
/// the request that carried it.
#[derive(Clone, Copy, Debug, PartialEq, Eq, Structural)]
pub enum ApiTag {
    Location,
    Forecast,
}

/// What the caller is to do after an event: nothing, issue the geolocation
/// request (to be tagged `Location`), or issue a GET of the carried URL
/// (to be tagged `Forecast`).
#[derive(Clone, Debug)]
pub enum Action {
    NoRequest,
    RequestLocation,
    RequestForecast(String),
}

/// The widget's fetch state: the active stage, the cached forecast, and
/// the times of the last success, last outbound request and last render.
/// The forecast persists across failed refresh attempts: stale data is
/// preferred over none.
pub struct WeatherState {
    pub stage: FetchStage,
    pub forecast: Option<ForecastSnapshot>,
    pub last_updated: Option<u64>,
    pub last_requested: Option<u64>,
    pub last_rendered: Option<u64>,
}

/// The render-facing summary of the cached forecast, derived without
/// touching fetch state.
#[derive(Clone, Debug)]
pub struct Advisory {
    pub condition: WeatherCode,
    pub umbrella: NeedsUmbrella,
    pub temp_min: String,
    pub temp_max: String,
}

/// Every field but the stage is unchanged between the two states.
pub open spec fn only_stage_changed(pre: WeatherState, post: WeatherState) -> bool {
    &&& post.forecast == pre.forecast
    &&& post.last_updated == pre.last_updated
    &&& post.last_requested == pre.last_requested
    &&& post.last_rendered == pre.last_rendered
}

/// The cached forecast, its success time and the render time are unchanged
/// between the two states.
pub open spec fn cache_kept(pre: WeatherState, post: WeatherState) -> bool {
    &&& post.forecast == pre.forecast
    &&& post.last_updated == pre.last_updated
    &&& post.last_rendered == pre.last_rendered
}

impl WeatherState {
    /// Whatever forecast is cached is a well-formed snapshot.
    pub open spec fn wf(self) -> bool {
        self.forecast matches Some(f) ==> f.wf()
    }

    /// A fresh machine: idle, nothing cached, nothing recorded.
    pub fn new() -> (r: Self)
        ensures
            r.stage == FetchStage::Idle,
            r.forecast is None,
            r.last_updated is None,
            r.last_requested is None,
            r.last_rendered is None,
            r.wf(),
    {
        WeatherState {
            stage: FetchStage::Idle,
            forecast: None,
            last_updated: None,
            last_requested: None,
            last_rendered: None,
        }
    }

    /// Starts a fetch cycle at the given time: valid only from `Idle`,
    /// where it moves to `FetchingLocation`, records the request time and
    /// asks for the geolocation request; from any other stage it is a
    /// no-op.
    pub fn trigger_at(&mut self, now_secs: u64) -> (r: Action)
        ensures
            old(self).stage == FetchStage::Idle ==> {
                &&& final(self).stage == FetchStage::FetchingLocation
                &&& final(self).last_requested == Some(now_secs)
                &&& cache_kept(*old(self), *final(self))
                &&& r matches Action::RequestLocation
            },
            old(self).stage != FetchStage::Idle ==> *final(self) == *old(self) && (
            r matches Action::NoRequest),
            old(self).wf() ==> final(self).wf(),
    {
        if self.stage != FetchStage::Idle {
            return Action::NoRequest;
        }
        self.stage = FetchStage::FetchingLocation;
        self.last_requested = Some(now_secs);
        Action::RequestLocation
    }

    /// The forced fetch path: reads the clock and triggers regardless of
    /// when the last success was. Equivalent to `trigger_at` at the
    /// current time; the hour-boundary gate plays no part.
    pub fn run(&mut self) -> (r: Action)
        ensures
            old(self).stage == FetchStage::Idle ==> {
                &&& final(self).stage == FetchStage::FetchingLocation
                &&& final(self).last_requested is Some
                &&& cache_kept(*old(self), *final(self))
                &&& r matches Action::RequestLocation
            },
            old(self).stage != FetchStage::Idle ==> *final(self) == *old(self) && (
            r matches Action::NoRequest),
            old(self).wf() ==> final(self).wf(),
    {
        let now_secs = clamp_epoch(now_unix());
        self.trigger_at(now_secs)
    }

    /// A timer tick at the given time. Out of idle, an outstanding request
    /// past the stall bound forces the machine back to `Idle` (the cached
    /// forecast untouched) and the next tick may refresh; within the bound
    /// the tick waits. From idle, the hour-boundary gate decides whether a
    /// fetch starts.
    pub fn on_timer_at(&mut self, now_secs: u64) -> (r: Action)
        ensures
            old(self).stage != FetchStage::Idle && stalled_spec(now_secs, old(self).last_requested)
                ==> {
                &&& final(self).stage == FetchStage::Idle
                &&& only_stage_changed(*old(self), *final(self))
                &&& r matches Action::NoRequest
            },
            old(self).stage != FetchStage::Idle && !stalled_spec(
                now_secs,
                old(self).last_requested,
            ) ==> *final(self) == *old(self) && (r matches Action::NoRequest),
            old(self).stage == FetchStage::Idle && should_fetch_spec(
                old(self).stage,
                now_secs,
                old(self).last_updated,
            ) ==> {
                &&& final(self).stage == FetchStage::FetchingLocation
                &&& final(self).last_requested == Some(now_secs)
                &&& cache_kept(*old(self), *final(self))
                &&& r matches Action::RequestLocation
            },
            old(self).stage == FetchStage::Idle && !should_fetch_spec(
                old(self).stage,
                now_secs,
                old(self).last_updated,
            ) ==> *final(self) == *old(self) && (r matches Action::NoRequest),
            old(self).wf() ==> final(self).wf(),
    {
        if self.stage != FetchStage::Idle {
            if stalled(now_secs, self.last_requested) {
                self.stage = FetchStage::Idle;
            }
            return Action::NoRequest;
        }
        if should_fetch(self.stage, now_secs, self.last_updated) {
            self.trigger_at(now_secs)
        } else {
            Action::NoRequest
        }
    }

    /// A timer tick at the current wall-clock time: reads the clock once
    /// and decides as `on_timer_at` does for the time read.
    pub fn on_timer(&mut self) -> (r: Action)
        ensures
            cache_kept(*old(self), *final(self)),
            old(self).stage != FetchStage::Idle ==> {
                &&& r matches Action::NoRequest
                &&& final(self).last_requested == old(self).last_requested
                &&& (final(self).stage == old(self).stage || final(self).stage == FetchStage::Idle)
            },
            old(self).stage == FetchStage::Idle ==> (*final(self) == *old(self) && (
            r matches Action::NoRequest)) || {
                &&& final(self).stage == FetchStage::FetchingLocation
                &&& final(self).last_requested is Some
                &&& r matches Action::RequestLocation
            },
            old(self).wf() ==> final(self).wf(),
    {
        let now_secs = clamp_epoch(now_unix());
        self.on_timer_at(now_secs)
    }

    /// The step taken when the geolocation stage succeeds: move to the
    /// forecast stage, record the request time, and ask for the forecast
    /// request built from the decoded geolocation.
    pub fn apply_location_success(&mut self, geo: &Geolocation, now_secs: u64) -> (r: Action)
        ensures
            final(self).stage == FetchStage::FetchingForecast,
            final(self).last_requested == Some(now_secs),
            cache_kept(*old(self), *final(self)),
            r matches Action::RequestForecast(u) && u@ == forecast_url_text(
                geo.latitude@,
                geo.longitude@,
                geo.timezone@,
            ),
            old(self).wf() ==> final(self).wf(),
    {
        self.stage = FetchStage::FetchingForecast;
        self.last_requested = Some(now_secs);
        Action::RequestForecast(forecast_url(geo))
    }

    /// The step taken when the active stage fails, by transport or decode:
    /// back to `Idle` with every other field, the cached forecast above
    /// all, left untouched.
    pub fn apply_fetch_failure(&mut self) -> (r: Action)
        ensures
            final(self).stage == FetchStage::Idle,
            only_stage_changed(*old(self), *final(self)),
            r matches Action::NoRequest,
            old(self).wf() ==> final(self).wf(),
    {
        self.stage = FetchStage::Idle;
        Action::NoRequest
    }

    /// The step taken when the forecast stage succeeds: the snapshot
    /// replaces the cache wholesale, the success time is recorded, and the
    /// machine returns to `Idle`.
    pub fn apply_forecast_success(&mut self, snap: ForecastSnapshot, now_secs: u64) -> (r: Action)
        requires
            snap.wf(),
        ensures
            final(self).stage == FetchStage::Idle,
            final(self).forecast == Some(snap),
            final(self).last_updated == Some(now_secs),
            final(self).last_requested == old(self).last_requested,
            final(self).last_rendered == old(self).last_rendered,
            r matches Action::NoRequest,
            final(self).wf(),
    {
        self.forecast = Some(snap);
        self.last_updated = Some(now_secs);
        self.stage = FetchStage::Idle;
        Action::NoRequest
    }

    /// A response delivered at the given time under its correlation tag.
    /// Only the response the active stage is waiting for is acted on: a
    /// non-2xx status or a payload that does not decode reverts the stage
    /// to `Idle` with everything else untouched; a decoded geolocation
    /// advances to the forecast stage and asks for the forecast request; a
    /// decoded forecast replaces the cache, records the success time and
    /// returns to `Idle`. Any other combination of stage and tag — a
    /// stale or mismatched correlation — changes nothing.
    pub fn on_response_at(&mut self, tag: ApiTag, status: u16, body: &[u8], now_secs: u64) -> (r:
        Action)
        ensures
            !(old(self).stage == FetchStage::FetchingLocation && tag == ApiTag::Location) && !(
            old(self).stage == FetchStage::FetchingForecast && tag == ApiTag::Forecast) ==> *final(self) == *old(self) && (r matches Action::NoRequest),
            old(self).stage == FetchStage::FetchingLocation && tag == ApiTag::Location && !(200
                <= status < 300) ==> {
                &&& final(self).stage == FetchStage::Idle
                &&& only_stage_changed(*old(self), *final(self))
                &&& r matches Action::NoRequest
            },
            old(self).stage == FetchStage::FetchingLocation && tag == ApiTag::Location && 200
                <= status < 300 ==> match geolocation_outcome(body@) {
                Ok(v) => {
                    &&& final(self).stage == FetchStage::FetchingForecast
                    &&& final(self).last_requested == Some(now_secs)
                    &&& cache_kept(*old(self), *final(self))
                    &&& r matches Action::RequestForecast(u) && u@ == forecast_url_text(
                        v.latitude,
                        v.longitude,
                        v.timezone,
                    )
                },
                Err(_) => {
                    &&& final(self).stage == FetchStage::Idle
                    &&& only_stage_changed(*old(self), *final(self))
                    &&& r matches Action::NoRequest
                },
            },
            old(self).stage == FetchStage::FetchingForecast && tag == ApiTag::Forecast && !(200
                <= status < 300) ==> {
                &&& final(self).stage == FetchStage::Idle
                &&& only_stage_changed(*old(self), *final(self))
                &&& r matches Action::NoRequest
            },
            old(self).stage == FetchStage::FetchingForecast && tag == ApiTag::Forecast && 200
                <= status < 300 ==> match forecast_outcome(body@) {
                Ok(v) => {
                    &&& final(self).stage == FetchStage::Idle
                    &&& final(self).forecast matches Some(f) && f.wf() && snapshot_matches(f, v)
                    &&& final(self).last_updated == Some(now_secs)
                    &&& final(self).last_requested == old(self).last_requested
                    &&& final(self).last_rendered == old(self).last_rendered
                    &&& r matches Action::NoRequest
                },
                Err(_) => {
                    &&& final(self).stage == FetchStage::Idle
                    &&& only_stage_changed(*old(self), *final(self))
                    &&& r matches Action::NoRequest
                },
            },
            old(self).forecast is Some ==> final(self).forecast is Some,
            old(self).wf() ==> final(self).wf(),
    {
        if self.stage == FetchStage::FetchingLocation && tag == ApiTag::Location {
            if !(200 <= status && status < 300) {
                return self.apply_fetch_failure();
            }
            match decode_geolocation(body) {
                Ok(geo) => self.apply_location_success(&geo, now_secs),
                Err(_) => self.apply_fetch_failure(),
            }
        } else if self.stage == FetchStage::FetchingForecast && tag == ApiTag::Forecast {
            if !(200 <= status && status < 300) {
                return self.apply_fetch_failure();
            }
            match decode_forecast(body) {
                Ok(snap) => self.apply_forecast_success(snap, now_secs),
                Err(_) => self.apply_fetch_failure(),
            }
        } else {
            Action::NoRequest
        }
    }

    /// A response delivered at the current wall-clock time: reads the
    /// clock once and decides as `on_response_at` does for the time read.
    pub fn on_response(&mut self, tag: ApiTag, status: u16, body: &[u8]) -> (r: Action)
        ensures
            !(old(self).stage == FetchStage::FetchingLocation && tag == ApiTag::Location) && !(
            old(self).stage == FetchStage::FetchingForecast && tag == ApiTag::Forecast) ==> *final(self) == *old(self) && (r matches Action::NoRequest),
            old(self).stage == FetchStage::FetchingLocation && tag == ApiTag::Location && !(200
                <= status < 300) ==> {
                &&& final(self).stage == FetchStage::Idle
                &&& only_stage_changed(*old(self), *final(self))
                &&& r matches Action::NoRequest
            },
            old(self).stage == FetchStage::FetchingLocation && tag == ApiTag::Location && 200
                <= status < 300 ==> match geolocation_outcome(body@) {
                Ok(v) => {
                    &&& final(self).stage == FetchStage::FetchingForecast
                    &&& final(self).last_requested is Some
                    &&& cache_kept(*old(self), *final(self))
                    &&& r matches Action::RequestForecast(u) && u@ == forecast_url_text(
                        v.latitude,
                        v.longitude,
                        v.timezone,
                    )
                },
                Err(_) => {
                    &&& final(self).stage == FetchStage::Idle
                    &&& only_stage_changed(*old(self), *final(self))
                    &&& r matches Action::NoRequest
                },
            },
            old(self).stage == FetchStage::FetchingForecast && tag == ApiTag::Forecast && !(200
                <= status < 300) ==> {
                &&& final(self).stage == FetchStage::Idle
                &&& only_stage_changed(*old(self), *final(self))
                &&& r matches Action::NoRequest
            },
            old(self).stage == FetchStage::FetchingForecast && tag == ApiTag::Forecast && 200
                <= status < 300 ==> match forecast_outcome(body@) {
                Ok(v) => {
                    &&& final(self).stage == FetchStage::Idle
                    &&& final(self).forecast matches Some(f) && f.wf() && snapshot_matches(f, v)
                    &&& final(self).last_updated is Some
                    &&& final(self).last_requested == old(self).last_requested
                    &&& final(self).last_rendered == old(self).last_rendered
                    &&& r matches Action::NoRequest
                },
                Err(_) => {
                    &&& final(self).stage == FetchStage::Idle
                    &&& only_stage_changed(*old(self), *final(self))
                    &&& r matches Action::NoRequest
                },
            },
            old(self).forecast is Some ==> final(self).forecast is Some,
            old(self).wf() ==> final(self).wf(),
    {
        let now_secs = clamp_epoch(now_unix());
        self.on_response_at(tag, status, body, now_secs)
    }

    /// The render-facing view of the cached forecast: the condition and
    /// umbrella advisory of the first hourly row and the first day's
    /// temperature range. `None` while nothing usable is cached. Fetch
    /// state plays no part.
    pub fn get_advisory(&self) -> (r: Option<Advisory>)
        ensures
            r is Some <==> (self.forecast matches Some(f) && f.hourly.weather_code@.len() > 0
                && f.daily.temp_min@.len() > 0 && f.daily.temp_max@.len() > 0),
            r matches Some(a) ==> (self.forecast matches Some(f) && {
                &&& a.condition == f.hourly.weather_code@[0]
                &&& a.umbrella == umbrella_of(f.hourly.weather_code@[0])
                &&& a.temp_min == f.daily.temp_min@[0]
                &&& a.temp_max == f.daily.temp_max@[0]
            }),
    {
        match &self.forecast {
            Some(f) => {
                if f.hourly.weather_code.len() > 0 && f.daily.temp_min.len() > 0
                    && f.daily.temp_max.len() > 0 {
                    let condition = f.hourly.weather_code[0];
                    Some(
                        Advisory {
                            condition,
                            umbrella: condition.need_umbrella(),
                            temp_min: f.daily.temp_min[0].clone(),
                            temp_max: f.daily.temp_max[0].clone(),
                        },
                    )
                } else {
                    None
                }
            },
            None => None,
        }
    }
}

} // verus!
