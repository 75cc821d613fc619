//! The pipeline orchestrator.
//!
//! One run is a linear walk `Start -> Classified -> Geocoded ->
//! ZoneResolved -> Rendered`, or `Failed` from any state; a failure is
//! terminal and no stage is retried. The orchestrator is a step
//! function from the current state and the stage's outcome to the next
//! state and the single action the surrounding program must perform:
//! one network call per stage, a final report, or an abort with the
//! stage's message. The forecast shape (detailed or hourly) is chosen
//! once, right after zone resolution; an hourly request against a
//! location without an hourly product fails before any fetch.

use vstd::prelude::*;
use vstd::string::StringExecFns;

use crate::fetch::HttpOutcome;
use crate::location::{classify, classify_spec, LocationInput};
use crate::nomatim::{
    geocode_error_message_spec, geocode_outcome, geocode_outcome_spec, geocode_query,
    geocode_query_spec, GeocodeError, NominatimLocation,
};
use crate::render::{
    detailed_line_spec, hourly_line_spec, render_detailed, render_hourly,
};
use crate::weatherdotgov::{
    weather_error_message_spec, weather_outcome, weather_outcome_spec, ForecastResponse,
    HourlyForecastResponse, PointsProperties, PointsResponse, WeatherServiceError,
};

verus! {

/// Which forecast shape the caller asked for.
#[derive(Clone, Copy, PartialEq, Eq, Structural, Debug)]
pub enum ForecastType {
    Detailed,
    Hourly,
}

/// The stage a failure belongs to.
#[derive(Clone, Copy, PartialEq, Eq, Structural, Debug)]
pub enum Stage {
    Input,
    Geocode,
    ZoneResolve,
    ForecastFetch,
}

/// Why a run failed, one variant per cause in the pipeline's taxonomy,
/// so that a caller can match on the cause without reading message text.
#[derive(Debug)]
pub enum PipelineError {
    /// The input text matched no accepted grammar.
    InvalidInput,
    /// The geocoding stage failed.
    Geocode { error: GeocodeError },
    /// A weather-provider call failed.
    WeatherService { error: WeatherServiceError },
    /// Hourly mode was requested for a location without an hourly product.
    HourlyUnavailable,
}

/// Where a run stands. `Rendered` and `Failed` are terminal.
#[derive(Debug)]
pub enum PipelineState {
    Start,
    Classified { query: LocationInput },
    Geocoded { location: NominatimLocation },
    ZoneResolved { url: String, hourly: bool },
    Rendered,
    Failed { stage: Stage, error: PipelineError },
}

/// What the surrounding program reports to the orchestrator: the input
/// text to begin with, then the outcome of each requested call.
#[derive(Debug)]
pub enum PipelineEvent {
    TextProvided { text: String },
    GeocodeCompleted { outcome: HttpOutcome<Vec<NominatimLocation>> },
    ZoneCompleted { outcome: HttpOutcome<PointsResponse> },
    DetailedCompleted { outcome: HttpOutcome<ForecastResponse> },
    HourlyCompleted { outcome: HttpOutcome<HourlyForecastResponse> },
}

/// The one thing the surrounding program must do next.
#[derive(Debug)]
pub enum PipelineAction {
    /// GET the geocoder's search endpoint with this free-text query.
    Geocode { query: String },
    /// GET the points record for this coordinate.
    ResolveZone { lat: String, lon: String },
    /// GET this detailed-forecast URL.
    FetchDetailed { url: String },
    /// GET this hourly-forecast URL.
    FetchHourly { url: String },
    /// Print these report lines and exit successfully.
    Report { lines: Vec<String> },
    /// Print this message and exit with failure.
    Abort { message: String },
}

/// Which event a state accepts: exactly the outcome of the call that the
/// state's action requested. Terminal states accept nothing.
pub open spec fn accepts(state: PipelineState, event: PipelineEvent) -> bool {
    match (state, event) {
        (PipelineState::Start, PipelineEvent::TextProvided { .. }) => true,
        (PipelineState::Classified { .. }, PipelineEvent::GeocodeCompleted { .. }) => true,
        (PipelineState::Geocoded { .. }, PipelineEvent::ZoneCompleted { .. }) => true,
        (
            PipelineState::ZoneResolved { hourly: false, .. },
            PipelineEvent::DetailedCompleted { .. },
        ) => true,
        (
            PipelineState::ZoneResolved { hourly: true, .. },
            PipelineEvent::HourlyCompleted { .. },
        ) => true,
        _ => false,
    }
}

/// Law: a rendered or failed run is over; no event advances it, so the
/// first failure aborts the pipeline and nothing is retried.
pub proof fn lemma_terminal_states_accept_nothing(state: PipelineState, event: PipelineEvent)
    requires
        state is Rendered || state is Failed,
    ensures
        !accepts(state, event),
{
}

/// How far along a run is; failures are terminal and have no rank.
pub open spec fn state_rank(state: PipelineState) -> int {
    match state {
        PipelineState::Start => 0,
        PipelineState::Classified { .. } => 1,
        PipelineState::Geocoded { .. } => 2,
        PipelineState::ZoneResolved { .. } => 3,
        PipelineState::Rendered => 4,
        PipelineState::Failed { .. } => 5,
    }
}

/// The message for rejected input.
pub open spec fn invalid_input_message() -> Seq<char> {
    "Invalid input: expected a 5-digit postal code, a postal code with extension, a city, or a city, ST"@
}

/// The message when hourly mode was requested for a location without an
/// hourly product.
pub open spec fn hourly_unavailable_message() -> Seq<char> {
    "Hourly forecast not available for this location"@
}

/// The user-facing message for each pipeline failure.
pub open spec fn pipeline_error_message_spec(e: PipelineError) -> Seq<char> {
    match e {
        PipelineError::InvalidInput => invalid_input_message(),
        PipelineError::Geocode { error } => geocode_error_message_spec(error),
        PipelineError::WeatherService { error } => weather_error_message_spec(error),
        PipelineError::HourlyUnavailable => hourly_unavailable_message(),
    }
}

impl PipelineError {
    /// Renders the failure for the user.
    pub fn message(&self) -> (r: String)
        ensures
            r@ == pipeline_error_message_spec(*self),
    {
        match self {
            PipelineError::InvalidInput => String::from_str(
                "Invalid input: expected a 5-digit postal code, a postal code with extension, a city, or a city, ST",
            ),
            PipelineError::Geocode { error } => error.message(),
            PipelineError::WeatherService { error } => error.message(),
            PipelineError::HourlyUnavailable => String::from_str(
                "Hourly forecast not available for this location",
            ),
        }
    }
}

/// The step failed at `stage` with cause `e`: the new state records both,
/// and the one action is an abort carrying the cause's message.
pub open spec fn failed_with(
    r: (PipelineState, PipelineAction),
    stage: Stage,
    e: PipelineError,
) -> bool {
    &&& r.0 matches PipelineState::Failed { stage: st, error } && st == stage && error == e
    &&& r.1 matches PipelineAction::Abort { message } && message@ == pipeline_error_message_spec(
        e,
    )
}

/// The forecast URL the requested shape needs, if the points record
/// offers it: the detailed URL is always present, the hourly URL may be
/// absent.
pub open spec fn select_forecast_url_spec(p: PointsProperties, mode: ForecastType) -> Option<
    String,
> {
    match mode {
        ForecastType::Detailed => Some(p.forecast),
        ForecastType::Hourly => p.forecast_hourly,
    }
}

/// Picks the forecast URL for the requested shape from a points record.
pub fn select_forecast_url(p: &PointsProperties, mode: ForecastType) -> (r: Option<String>)
    ensures
        r == select_forecast_url_spec(*p, mode),
{
    match mode {
        ForecastType::Detailed => Some(p.forecast.clone()),
        ForecastType::Hourly => {
            match &p.forecast_hourly {
                Some(url) => Some(url.clone()),
                None => None,
            }
        },
    }
}

/// Law: a points record without an hourly URL refuses an hourly request
/// and still serves a detailed one.
pub proof fn lemma_hourly_unavailable(p: PointsProperties)
    requires
        p.forecast_hourly is None,
    ensures
        select_forecast_url_spec(p, ForecastType::Hourly) is None,
        select_forecast_url_spec(p, ForecastType::Detailed) == Some(p.forecast),
{
}

/// Advances the pipeline by one stage.
///
/// Every transition is pinned: classification follows `classify_spec`,
/// each provider stage follows its outcome function, the forecast shape
/// is selected once from `mode`, and a failure at any stage yields a
/// terminal `Failed` state whose only action is an abort carrying that
/// stage's message — in particular, rejected input and a missing hourly
/// product abort before any further call is requested.
pub fn pipeline_step(state: PipelineState, event: PipelineEvent, mode: ForecastType) -> (r: (
    PipelineState,
    PipelineAction,
))
    requires
        accepts(state, event),
    ensures
        r.0 is Failed || state_rank(r.0) == state_rank(state) + 1,
        r.0 is Failed <==> r.1 is Abort,
        (event matches PipelineEvent::TextProvided { text } ==> match classify_spec(text@) {
            Some(q) => {
                &&& r.0 matches PipelineState::Classified { query } && query@ == q
                &&& r.1 matches PipelineAction::Geocode { query } && query@
                    == geocode_query_spec(q)
            },
            None => failed_with(r, Stage::Input, PipelineError::InvalidInput),
        }),
        (event matches PipelineEvent::GeocodeCompleted { outcome } ==> match geocode_outcome_spec(
            outcome,
        ) {
            Ok(loc) => {
                &&& r.0 matches PipelineState::Geocoded { location } && location == loc
                &&& r.1 matches PipelineAction::ResolveZone { lat, lon } && lat@ == loc.lat@
                    && lon@ == loc.lon@
            },
            Err(e) => failed_with(r, Stage::Geocode, PipelineError::Geocode { error: e }),
        }),
        (event matches PipelineEvent::ZoneCompleted { outcome } ==> match weather_outcome_spec(
            outcome,
        ) {
            Ok(resp) => match select_forecast_url_spec(resp.properties, mode) {
                Some(u) => {
                    &&& r.0 matches PipelineState::ZoneResolved { url, hourly } && url@ == u@
                        && hourly == (mode is Hourly)
                    &&& mode is Hourly ==> (r.1 matches PipelineAction::FetchHourly { url }
                        && url@ == u@)
                    &&& mode is Detailed ==> (r.1 matches PipelineAction::FetchDetailed { url }
                        && url@ == u@)
                },
                None => failed_with(r, Stage::ForecastFetch, PipelineError::HourlyUnavailable),
            },
            Err(e) => failed_with(r, Stage::ZoneResolve, PipelineError::WeatherService { error: e }),
        }),
        (event matches PipelineEvent::DetailedCompleted { outcome } ==> match weather_outcome_spec(
            outcome,
        ) {
            Ok(resp) => {
                &&& r.0 is Rendered
                &&& r.1 matches PipelineAction::Report { lines } && lines@.len()
                    == resp.properties.periods@.len() && (forall|i: int|
                    0 <= i < lines@.len() ==> #[trigger] lines@[i]@ == detailed_line_spec(
                        resp.properties.periods@[i],
                    ))
            },
            Err(e) => failed_with(r, Stage::ForecastFetch, PipelineError::WeatherService { error: e }),
        }),
        (event matches PipelineEvent::HourlyCompleted { outcome } ==> match weather_outcome_spec(
            outcome,
        ) {
            Ok(resp) => {
                &&& r.0 is Rendered
                &&& r.1 matches PipelineAction::Report { lines } && lines@.len()
                    == resp.properties.periods@.len() && (forall|i: int|
                    0 <= i < lines@.len() ==> #[trigger] lines@[i]@ == hourly_line_spec(
                        resp.properties.periods@[i],
                    ))
            },
            Err(e) => failed_with(r, Stage::ForecastFetch, PipelineError::WeatherService { error: e }),
        }),
{
    match event {
        PipelineEvent::TextProvided { text } => {
            match classify(text.as_str()) {
                Some(query) => {
                    let q = geocode_query(&query);
                    (
                        PipelineState::Classified { query },
                        PipelineAction::Geocode { query: q },
                    )
                },
                None => {
                    let error = PipelineError::InvalidInput;
                    let message = error.message();
                    (
                        PipelineState::Failed { stage: Stage::Input, error },
                        PipelineAction::Abort { message },
                    )
                },
            }
        },
        PipelineEvent::GeocodeCompleted { outcome } => {
            match geocode_outcome(outcome) {
                Ok(location) => {
                    let lat = location.lat.clone();
                    let lon = location.lon.clone();
                    (
                        PipelineState::Geocoded { location },
                        PipelineAction::ResolveZone { lat, lon },
                    )
                },
                Err(e) => {
                    let error = PipelineError::Geocode { error: e };
                    let message = error.message();
                    (
                        PipelineState::Failed { stage: Stage::Geocode, error },
                        PipelineAction::Abort { message },
                    )
                },
            }
        },
        PipelineEvent::ZoneCompleted { outcome } => {
            match weather_outcome(outcome) {
                Ok(resp) => {
                    match select_forecast_url(&resp.properties, mode) {
                        Some(url) => {
                            let hourly = mode == ForecastType::Hourly;
                            let action = if hourly {
                                PipelineAction::FetchHourly { url: url.clone() }
                            } else {
                                PipelineAction::FetchDetailed { url: url.clone() }
                            };
                            (PipelineState::ZoneResolved { url, hourly }, action)
                        },
                        None => {
                            let error = PipelineError::HourlyUnavailable;
                            let message = error.message();
                            (
                                PipelineState::Failed { stage: Stage::ForecastFetch, error },
                                PipelineAction::Abort { message },
                            )
                        },
                    }
                },
                Err(e) => {
                    let error = PipelineError::WeatherService { error: e };
                    let message = error.message();
                    (
                        PipelineState::Failed { stage: Stage::ZoneResolve, error },
                        PipelineAction::Abort { message },
                    )
                },
            }
        },
        PipelineEvent::DetailedCompleted { outcome } => {
            match weather_outcome(outcome) {
                Ok(resp) => {
                    let lines = render_detailed(&resp.properties.periods);
                    (PipelineState::Rendered, PipelineAction::Report { lines })
                },
                Err(e) => {
                    let error = PipelineError::WeatherService { error: e };
                    let message = error.message();
                    (
                        PipelineState::Failed { stage: Stage::ForecastFetch, error },
                        PipelineAction::Abort { message },
                    )
                },
            }
        },
        PipelineEvent::HourlyCompleted { outcome } => {
            match weather_outcome(outcome) {
                Ok(resp) => {
                    let lines = render_hourly(&resp.properties.periods);
                    (PipelineState::Rendered, PipelineAction::Report { lines })
                },
                Err(e) => {
                    let error = PipelineError::WeatherService { error: e };
                    let message = error.message();
                    (
                        PipelineState::Failed { stage: Stage::ForecastFetch, error },
                        PipelineAction::Abort { message },
                    )
                },
            }
        },
    }
}

} // verus!
