//! Geocoding against a Nominatim-style provider.
//!
//! The library builds the free-text search query for a classified
//! location and decides the outcome of the provider's response: the
//! first result of a non-empty collection is the geocoded point, an
//! empty collection is a hard failure, and transport errors, non-success
//! statuses and undecodable bodies each fail with their own cause.

use vstd::prelude::*;
use vstd::string::StringExecFns;

use crate::fetch::{is_success_status, success_status, HttpOutcome};
use crate::location::{LocationInput, LocationQuery};

verus! {

/// A geocoded point: provider-native decimal coordinate strings and the
/// provider's display name for the location.
#[derive(Debug)]
pub struct NominatimLocation {
    pub lat: String,
    pub lon: String,
    pub display_name: String,
}

/// Why geocoding failed.
#[derive(Debug)]
pub enum GeocodeError {
    /// The request never completed.
    Transport { message: String },
    /// The provider answered with a non-success status.
    Status { status: u16, body: String },
    /// The response body was not the expected JSON shape.
    Malformed,
    /// The provider answered with an empty result collection.
    NoLocationFound,
}

/// The free-text search string sent to the geocoder: postal codes drop
/// their extension, and every query is anchored to the USA.
pub open spec fn geocode_query_spec(q: LocationQuery) -> Seq<char> {
    match q {
        LocationQuery::PostalCode { code } => code + ", USA"@,
        LocationQuery::PostalCodePlusFour { code, plus_four } => code + ", USA"@,
        LocationQuery::City { name } => name + ", USA"@,
        LocationQuery::CityWithState { name, state } => name + ", "@ + state + ", USA"@,
    }
}

/// Builds the geocoder search text for a classified location.
pub fn geocode_query(q: &LocationInput) -> (r: String)
    ensures
        r@ == geocode_query_spec(q@),
{
    match q {
        LocationInput::PostalCode(code) => {
            let mut s = code.clone();
            s.append(", USA");
            s
        },
        LocationInput::PostalCodePlusFour(code, _plus_four) => {
            let mut s = code.clone();
            s.append(", USA");
            s
        },
        LocationInput::City(name) => {
            let mut s = name.clone();
            s.append(", USA");
            s
        },
        LocationInput::CityWithState(name, state) => {
            let mut s = name.clone();
            s.append(", ");
            s.append(state.as_str());
            s.append(", USA");
            s
        },
    }
}

/// The search endpoint under a geocoder base URL.
pub fn search_url(base: &str) -> (r: String)
    ensures
        r@ == base@ + "/search"@,
{
    let mut s = base.to_owned();
    s.append("/search");
    s
}

/// What geocoding returns for each possible provider outcome.
pub open spec fn geocode_outcome_spec(o: HttpOutcome<Vec<NominatimLocation>>) -> Result<
    NominatimLocation,
    GeocodeError,
> {
    match o {
        HttpOutcome::Transport { message } => Err(GeocodeError::Transport { message }),
        HttpOutcome::Response { status, body, parsed } => {
            if !is_success_status(status) {
                Err(GeocodeError::Status { status, body })
            } else {
                match parsed {
                    None => Err(GeocodeError::Malformed),
                    Some(locations) => {
                        if locations@.len() == 0 {
                            Err(GeocodeError::NoLocationFound)
                        } else {
                            Ok(locations@[0])
                        }
                    },
                }
            }
        },
    }
}

/// Decides the geocoding stage from the provider's outcome: the first
/// element of a non-empty 2xx result collection, and the exact failure
/// cause otherwise. An empty collection is never a coordinate.
pub fn geocode_outcome(o: HttpOutcome<Vec<NominatimLocation>>) -> (r: Result<
    NominatimLocation,
    GeocodeError,
>)
    ensures
        r == geocode_outcome_spec(o),
{
    match o {
        HttpOutcome::Transport { message } => Err(GeocodeError::Transport { message }),
        HttpOutcome::Response { status, body, parsed } => {
            if !success_status(status) {
                Err(GeocodeError::Status { status, body })
            } else {
                match parsed {
                    None => Err(GeocodeError::Malformed),
                    Some(mut locations) => {
                        if locations.len() == 0 {
                            Err(GeocodeError::NoLocationFound)
                        } else {
                            let first = locations.remove(0);
                            Ok(first)
                        }
                    },
                }
            }
        },
    }
}

/// Law: a success response whose result collection is empty fails with
/// `NoLocationFound`; it never yields a default or zero coordinate.
pub proof fn lemma_empty_geocode_results_fail(
    status: u16,
    body: String,
    locations: Vec<NominatimLocation>,
)
    requires
        is_success_status(status),
        locations@.len() == 0,
    ensures
        geocode_outcome_spec(HttpOutcome::Response { status, body, parsed: Some(locations) })
            == Err::<NominatimLocation, GeocodeError>(GeocodeError::NoLocationFound),
{
}

/// The user-facing message for each geocoding failure.
pub open spec fn geocode_error_message_spec(e: GeocodeError) -> Seq<char> {
    match e {
        GeocodeError::Transport { message } => "Error sending request to Nominatim: "@ + message@,
        GeocodeError::Status { status, body } => "Nominatim returned an error: "@ + body@,
        GeocodeError::Malformed => "Error parsing JSON from Nominatim response"@,
        GeocodeError::NoLocationFound => "No location found. Make sure your query is correct."@,
    }
}

impl GeocodeError {
    /// Renders the failure for the user.
    pub fn message(&self) -> (r: String)
        ensures
            r@ == geocode_error_message_spec(*self),
    {
        match self {
            GeocodeError::Transport { message } => {
                let mut s = String::from_str("Error sending request to Nominatim: ");
                s.append(message.as_str());
                s
            },
            GeocodeError::Status { status: _, body } => {
                let mut s = String::from_str("Nominatim returned an error: ");
                s.append(body.as_str());
                s
            },
            GeocodeError::Malformed => {
                String::from_str("Error parsing JSON from Nominatim response")
            },
            GeocodeError::NoLocationFound => {
                String::from_str("No location found. Make sure your query is correct.")
            },
        }
    }
}

} // verus!
