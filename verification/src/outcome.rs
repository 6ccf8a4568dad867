//! HTTP outcome classification and the run's decision chain.
//!
//! The network calls themselves live outside the library; what comes back —
//! a status code, a decoded body or the failure to decode one — is
//! classified here into the error taxonomy, and the fetch result is turned
//! into the color to publish, or into the decision to publish nothing.

use vstd::prelude::*;
use vstd::string::StringExecFns;

use crate::endpoints::{decimal_chars, decimal_string};
use crate::model::{Color, Departure};
use crate::rules::decide;
use crate::rules::decided_color;

verus! {

/// Why a fetch of the departure list failed.
#[derive(Debug)]
pub enum FetchError {
    /// A transport-level failure (connection, timeout, name resolution),
    /// with the underlying cause's description.
    Transport { detail: String },
    /// The departures endpoint answered with a non-success status.
    StationUnavailable { status: u16 },
    /// The endpoint answered successfully but the body could not be decoded.
    MalformedResponse,
}

/// What became of pushing the color to the indicator; a non-success status
/// is absorbed, not propagated.
#[derive(Debug)]
pub enum PublishOutcome {
    /// The indicator acknowledged the update.
    Updated,
    /// The indicator endpoint answered with a non-success status.
    IndicatorUnavailable { status: u16 },
}

/// Whether an HTTP status code counts as success.
pub open spec fn http_success(status: u16) -> bool {
    200 <= status < 300
}

/// Classifies the answer of the departures endpoint: the decoded list on a
/// success status, `MalformedResponse` when a success body did not decode,
/// `StationUnavailable` on any other status.
pub fn classify_fetch(status: u16, body: Option<Vec<Departure>>) -> (r: Result<
    Vec<Departure>,
    FetchError,
>)
    ensures
        r is Ok <==> http_success(status) && body is Some,
        http_success(status) && body is Some ==> r->Ok_0 == body->Some_0,
        http_success(status) && body is None ==> r == Err::<Vec<Departure>, FetchError>(
            FetchError::MalformedResponse,
        ),
        !http_success(status) ==> r == Err::<Vec<Departure>, FetchError>(
            (FetchError::StationUnavailable { status }),
        ),
{
    if 200 <= status && status < 300 {
        match body {
            Some(departures) => Ok(departures),
            None => Err(FetchError::MalformedResponse),
        }
    } else {
        Err(FetchError::StationUnavailable { status })
    }
}

/// Classifies the answer of the indicator endpoint.
pub fn classify_publish(status: u16) -> (o: PublishOutcome)
    ensures
        http_success(status) ==> o == PublishOutcome::Updated,
        !http_success(status) ==> o == (PublishOutcome::IndicatorUnavailable { status }),
{
    if 200 <= status && status < 300 {
        PublishOutcome::Updated
    } else {
        PublishOutcome::IndicatorUnavailable { status }
    }
}

impl FetchError {
    /// The observable notice for this failure: the station-unavailable case
    /// reports the status code; the other failures stay silent.
    pub fn notice(&self) -> (m: Option<String>)
        ensures
            m is Some <==> self is StationUnavailable,
            self is StationUnavailable ==> m->Some_0@ == "Failed to fetch station info. Status: "@
                + decimal_chars(self->StationUnavailable_status as int),
    {
        match self {
            FetchError::StationUnavailable { status } => {
                let m = String::from_str("Failed to fetch station info. Status: ");
                Some(m.concat(decimal_string(*status).as_str()))
            },
            _ => None,
        }
    }
}

impl PublishOutcome {
    /// The observable notice for this outcome, reporting the status code
    /// when the indicator endpoint refused the update.
    pub fn notice(&self) -> (m: String)
        ensures
            self is Updated ==> m@ == "Successfully updated awtrix light."@,
            self is IndicatorUnavailable ==> m@ == "Failed to update awtrix light. Status: "@
                + decimal_chars(self->IndicatorUnavailable_status as int),
    {
        match self {
            PublishOutcome::Updated => String::from_str("Successfully updated awtrix light."),
            PublishOutcome::IndicatorUnavailable { status } => {
                let m = String::from_str("Failed to update awtrix light. Status: ");
                m.concat(decimal_string(*status).as_str())
            },
        }
    }
}

/// The run's one decision: on a fetched departure list, the color the rule
/// engine decides; on any fetch failure, nothing — the run publishes no
/// update and ends quietly.
pub fn run_decision(fetch: Result<Vec<Departure>, FetchError>) -> (r: Option<Color>)
    ensures
        fetch is Ok ==> r == Some(decided_color(fetch->Ok_0@)),
        fetch is Err ==> r is None,
{
    match fetch {
        Ok(departures) => Some(decide(&departures)),
        Err(_) => None,
    }
}

} // verus!
