//! Forecast-zone resolution and forecast fetching against the weather
//! provider.
//!
//! A coordinate resolves to a points record naming the detailed-forecast
//! URL and, when the location offers one, the hourly-forecast URL. Each
//! forecast fetch returns the provider's ordered periods. The library
//! builds the points URL and decides every response outcome; the
//! surrounding program only carries the GETs.

use vstd::prelude::*;
use vstd::string::StringExecFns;

use crate::fetch::{is_success_status, success_status, HttpOutcome};

verus! {

/// The points record for a coordinate.
#[derive(Debug)]
pub struct PointsResponse {
    pub properties: PointsProperties,
}

/// The forecast endpoints of a points record. The hourly URL is absent
/// for locations without an hourly product; that is a valid record, not
/// an error.
#[derive(Debug)]
pub struct PointsProperties {
    pub forecast: String,
    pub forecast_hourly: Option<String>,
}

/// A detailed (multi-day) forecast response.
#[derive(Debug)]
pub struct ForecastResponse {
    pub properties: ForecastProperties,
}

#[derive(Debug)]
pub struct ForecastProperties {
    pub periods: Vec<Period>,
}

/// One detailed-forecast period: a label and a narrative.
#[derive(Debug)]
pub struct Period {
    pub name: String,
    pub detailed_forecast: String,
}

/// An hourly forecast response.
#[derive(Debug)]
pub struct HourlyForecastResponse {
    pub properties: HourlyForecastProperties,
}

#[derive(Debug)]
pub struct HourlyForecastProperties {
    pub periods: Vec<HourlyPeriod>,
}

/// One hourly period.
#[derive(Debug)]
pub struct HourlyPeriod {
    pub start_time: String,
    pub temperature: i32,
    pub temperature_unit: String,
    pub wind_speed: String,
    pub wind_direction: String,
    pub short_forecast: String,
}

/// Why a weather-provider call failed.
#[derive(Debug)]
pub enum WeatherServiceError {
    /// The request never completed.
    Transport { message: String },
    /// The provider answered with a non-success status; the body is kept
    /// for diagnostics.
    Status { status: u16, body: String },
    /// The response body was not the expected JSON shape.
    Malformed,
}

/// The points-lookup URL: the coordinate strings are interpolated
/// verbatim, never reformatted.
pub open spec fn points_url_spec(base: Seq<char>, lat: Seq<char>, lon: Seq<char>) -> Seq<char> {
    base + "/points/"@ + lat + ","@ + lon
}

/// Builds the points-lookup URL for a coordinate.
pub fn points_url(base: &str, lat: &str, lon: &str) -> (r: String)
    ensures
        r@ == points_url_spec(base@, lat@, lon@),
{
    let mut s = base.to_owned();
    s.append("/points/");
    s.append(lat);
    s.append(",");
    s.append(lon);
    s
}

/// What a weather-provider call returns for each possible outcome: the
/// decoded body of a 2xx response, and the exact failure cause otherwise.
pub open spec fn weather_outcome_spec<T>(o: HttpOutcome<T>) -> Result<T, WeatherServiceError> {
    match o {
        HttpOutcome::Transport { message } => Err(WeatherServiceError::Transport { message }),
        HttpOutcome::Response { status, body, parsed } => {
            if !is_success_status(status) {
                Err(WeatherServiceError::Status { status, body })
            } else {
                match parsed {
                    None => Err(WeatherServiceError::Malformed),
                    Some(value) => Ok(value),
                }
            }
        },
    }
}

/// Decides a weather-provider stage from the call's outcome.
pub fn weather_outcome<T>(o: HttpOutcome<T>) -> (r: Result<T, WeatherServiceError>)
    ensures
        r == weather_outcome_spec(o),
{
    match o {
        HttpOutcome::Transport { message } => Err(WeatherServiceError::Transport { message }),
        HttpOutcome::Response { status, body, parsed } => {
            if !success_status(status) {
                Err(WeatherServiceError::Status { status, body })
            } else {
                match parsed {
                    None => Err(WeatherServiceError::Malformed),
                    Some(value) => Ok(value),
                }
            }
        },
    }
}

/// Law: a success response that decodes to a points record without an
/// hourly URL resolves successfully, with the hourly product marked
/// absent rather than failing.
pub proof fn lemma_zone_without_hourly_succeeds(status: u16, body: String, resp: PointsResponse)
    requires
        is_success_status(status),
        resp.properties.forecast_hourly is None,
    ensures
        weather_outcome_spec(HttpOutcome::Response { status, body, parsed: Some(resp) })
            matches Ok::<PointsResponse, WeatherServiceError>(p)
            && p.properties.forecast_hourly is None
            && p.properties.forecast == resp.properties.forecast,
{
}

/// The user-facing message for each weather-provider failure.
pub open spec fn weather_error_message_spec(e: WeatherServiceError) -> Seq<char> {
    match e {
        WeatherServiceError::Transport { message } => "Error sending request to Weather.gov: "@
            + message@,
        WeatherServiceError::Status { status, body } => "Weather.gov returned an error: "@ + body@,
        WeatherServiceError::Malformed => "Error parsing JSON from Weather.gov response"@,
    }
}

impl WeatherServiceError {
    /// Renders the failure for the user.
    pub fn message(&self) -> (r: String)
        ensures
            r@ == weather_error_message_spec(*self),
    {
        match self {
            WeatherServiceError::Transport { message } => {
                let mut s = String::from_str("Error sending request to Weather.gov: ");
                s.append(message.as_str());
                s
            },
            WeatherServiceError::Status { status: _, body } => {
                let mut s = String::from_str("Weather.gov returned an error: ");
                s.append(body.as_str());
                s
            },
            WeatherServiceError::Malformed => {
                String::from_str("Error parsing JSON from Weather.gov response")
            },
        }
    }
}

} // verus!
