use wxdotgov::fetch::HttpOutcome;
use wxdotgov::nomatim::{GeocodeError, NominatimLocation};
use wxdotgov::pipeline::{
    pipeline_step, ForecastType, PipelineAction, PipelineError, PipelineEvent, PipelineState,
    Stage,
};
use wxdotgov::weatherdotgov::WeatherServiceError;
use wxdotgov::weatherdotgov::{
    ForecastProperties, ForecastResponse, HourlyForecastProperties, HourlyForecastResponse,
    HourlyPeriod, Period, PointsProperties, PointsResponse,
};

fn geocode_hit() -> PipelineEvent {
    PipelineEvent::GeocodeCompleted {
        outcome: HttpOutcome::Response {
            status: 200,
            body: String::new(),
            parsed: Some(vec![NominatimLocation {
                lat: "40.7128".to_string(),
                lon: "-74.0060".to_string(),
                display_name: "X".to_string(),
            }]),
        },
    }
}

fn zone_hit() -> PipelineEvent {
    PipelineEvent::ZoneCompleted {
        outcome: HttpOutcome::Response {
            status: 200,
            body: String::new(),
            parsed: Some(PointsResponse {
                properties: PointsProperties {
                    forecast: "U1".to_string(),
                    forecast_hourly: Some("U2".to_string()),
                },
            }),
        },
    }
}

#[test]
fn scenario_detailed_end_to_end() {
    let mode = ForecastType::Detailed;

    let (state, action) = pipeline_step(
        PipelineState::Start,
        PipelineEvent::TextProvided { text: "12345".to_string() },
        mode,
    );
    assert!(matches!(state, PipelineState::Classified { .. }));
    match &action {
        PipelineAction::Geocode { query } => assert_eq!(query, "12345, USA"),
        other => panic!("expected Geocode action, got {:?}", other),
    }

    let (state, action) = pipeline_step(state, geocode_hit(), mode);
    assert!(matches!(state, PipelineState::Geocoded { .. }));
    match &action {
        PipelineAction::ResolveZone { lat, lon } => {
            assert_eq!(lat, "40.7128");
            assert_eq!(lon, "-74.0060");
        }
        other => panic!("expected ResolveZone action, got {:?}", other),
    }

    let (state, action) = pipeline_step(state, zone_hit(), mode);
    match &action {
        PipelineAction::FetchDetailed { url } => assert_eq!(url, "U1"),
        other => panic!("expected FetchDetailed action, got {:?}", other),
    }

    let forecast = PipelineEvent::DetailedCompleted {
        outcome: HttpOutcome::Response {
            status: 200,
            body: String::new(),
            parsed: Some(ForecastResponse {
                properties: ForecastProperties {
                    periods: vec![Period {
                        name: "Tonight".to_string(),
                        detailed_forecast: "Clear".to_string(),
                    }],
                },
            }),
        },
    };
    let (state, action) = pipeline_step(state, forecast, mode);
    assert!(matches!(state, PipelineState::Rendered));
    match action {
        PipelineAction::Report { lines } => {
            assert_eq!(lines.len(), 1);
            assert!(lines[0].contains("Tonight"));
            assert!(lines[0].contains("Clear"));
        }
        other => panic!("expected Report action, got {:?}", other),
    }
}

#[test]
fn scenario_hourly_end_to_end() {
    let mode = ForecastType::Hourly;

    let (state, _) = pipeline_step(
        PipelineState::Start,
        PipelineEvent::TextProvided { text: "12345".to_string() },
        mode,
    );
    let (state, _) = pipeline_step(state, geocode_hit(), mode);
    let (state, action) = pipeline_step(state, zone_hit(), mode);
    match &action {
        PipelineAction::FetchHourly { url } => assert_eq!(url, "U2"),
        other => panic!("expected FetchHourly action, got {:?}", other),
    }

    let forecast = PipelineEvent::HourlyCompleted {
        outcome: HttpOutcome::Response {
            status: 200,
            body: String::new(),
            parsed: Some(HourlyForecastResponse {
                properties: HourlyForecastProperties {
                    periods: vec![HourlyPeriod {
                        start_time: "2024-01-29T02:00:00+00:00".to_string(),
                        temperature: 51,
                        temperature_unit: "F".to_string(),
                        wind_speed: "5 mph".to_string(),
                        wind_direction: "SSW".to_string(),
                        short_forecast: "Partly Cloudy".to_string(),
                    }],
                },
            }),
        },
    };
    let (state, action) = pipeline_step(state, forecast, mode);
    assert!(matches!(state, PipelineState::Rendered));
    match action {
        PipelineAction::Report { lines } => {
            assert_eq!(lines.len(), 1);
            assert!(lines[0].contains("51"));
            assert!(lines[0].contains("F"));
        }
        other => panic!("expected Report action, got {:?}", other),
    }
}

#[test]
fn scenario_rejected_input_aborts_without_network() {
    let (state, action) = pipeline_step(
        PipelineState::Start,
        PipelineEvent::TextProvided { text: "???".to_string() },
        ForecastType::Detailed,
    );
    match state {
        PipelineState::Failed { stage, error } => {
            assert_eq!(stage, Stage::Input);
            assert!(matches!(error, PipelineError::InvalidInput));
        }
        other => panic!("expected Failed state, got {:?}", other),
    }
    // the only requested action is the abort: no network call happens
    match action {
        PipelineAction::Abort { message } => assert!(message.contains("Invalid input")),
        other => panic!("expected Abort action, got {:?}", other),
    }
}

#[test]
fn scenario_empty_geocode_aborts_before_zone() {
    let mode = ForecastType::Detailed;
    let (state, _) = pipeline_step(
        PipelineState::Start,
        PipelineEvent::TextProvided { text: "12345".to_string() },
        mode,
    );
    let empty = PipelineEvent::GeocodeCompleted {
        outcome: HttpOutcome::Response {
            status: 200,
            body: "[]".to_string(),
            parsed: Some(vec![]),
        },
    };
    let (state, action) = pipeline_step(state, empty, mode);
    match state {
        PipelineState::Failed { stage, error } => {
            assert_eq!(stage, Stage::Geocode);
            assert!(matches!(
                error,
                PipelineError::Geocode { error: GeocodeError::NoLocationFound }
            ));
        }
        other => panic!("expected Failed state, got {:?}", other),
    }
    match action {
        PipelineAction::Abort { message } => assert!(message.contains("No location found")),
        other => panic!("expected Abort action, got {:?}", other),
    }
}

#[test]
fn scenario_hourly_unavailable_aborts_before_fetch() {
    let mode = ForecastType::Hourly;
    let (state, _) = pipeline_step(
        PipelineState::Start,
        PipelineEvent::TextProvided { text: "12345".to_string() },
        mode,
    );
    let (state, _) = pipeline_step(state, geocode_hit(), mode);
    let zone_without_hourly = PipelineEvent::ZoneCompleted {
        outcome: HttpOutcome::Response {
            status: 200,
            body: String::new(),
            parsed: Some(PointsResponse {
                properties: PointsProperties {
                    forecast: "U1".to_string(),
                    forecast_hourly: None,
                },
            }),
        },
    };
    let (state, action) = pipeline_step(state, zone_without_hourly, mode);
    match state {
        PipelineState::Failed { stage, error } => {
            assert_eq!(stage, Stage::ForecastFetch);
            assert!(matches!(error, PipelineError::HourlyUnavailable));
        }
        other => panic!("expected Failed state, got {:?}", other),
    }
    match action {
        PipelineAction::Abort { message } => {
            assert!(message.contains("Hourly forecast not available"))
        }
        other => panic!("expected Abort action, got {:?}", other),
    }
}

#[test]
fn zone_without_hourly_still_serves_detailed() {
    let mode = ForecastType::Detailed;
    let (state, _) = pipeline_step(
        PipelineState::Start,
        PipelineEvent::TextProvided { text: "12345".to_string() },
        mode,
    );
    let (state, _) = pipeline_step(state, geocode_hit(), mode);
    let zone_without_hourly = PipelineEvent::ZoneCompleted {
        outcome: HttpOutcome::Response {
            status: 200,
            body: String::new(),
            parsed: Some(PointsResponse {
                properties: PointsProperties {
                    forecast: "U1".to_string(),
                    forecast_hourly: None,
                },
            }),
        },
    };
    let (state, action) = pipeline_step(state, zone_without_hourly, mode);
    assert!(matches!(state, PipelineState::ZoneResolved { .. }));
    match action {
        PipelineAction::FetchDetailed { url } => assert_eq!(url, "U1"),
        other => panic!("expected FetchDetailed action, got {:?}", other),
    }
}

#[test]
fn zone_error_carries_body() {
    let mode = ForecastType::Detailed;
    let (state, _) = pipeline_step(
        PipelineState::Start,
        PipelineEvent::TextProvided { text: "12345".to_string() },
        mode,
    );
    let (state, _) = pipeline_step(state, geocode_hit(), mode);
    let bad_zone = PipelineEvent::ZoneCompleted {
        outcome: HttpOutcome::Response {
            status: 400,
            body: "{\"error\": \"Invalid coordinates\"}".to_string(),
            parsed: None,
        },
    };
    let (state, action) = pipeline_step(state, bad_zone, mode);
    match state {
        PipelineState::Failed { stage, error } => {
            assert_eq!(stage, Stage::ZoneResolve);
            assert!(matches!(
                error,
                PipelineError::WeatherService { error: WeatherServiceError::Status { .. } }
            ));
        }
        other => panic!("expected Failed state, got {:?}", other),
    }
    match action {
        PipelineAction::Abort { message } => assert!(message.contains("Invalid coordinates")),
        other => panic!("expected Abort action, got {:?}", other),
    }
}
