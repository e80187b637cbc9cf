//! Classification of probe outcomes.
//!
//! A probe issues one HTTP GET against one endpoint. What the transport
//! handed back — a status code, or a failure description — is classified
//! here against the endpoint's expected status, with no other input and no
//! state carried between ticks.

use vstd::prelude::*;
use crate::endpoint::{Endpoint, EndpointModel, expected_of};

verus! {

/// The fixed per-request timeout, in seconds, that the shared HTTP client
/// is built with: a hanging request surfaces as a transport failure, not a
/// hang.
pub const REQUEST_TIMEOUT_SECS: u64 = 10;

/// What one HTTP GET produced at the transport level: a response with its
/// status code, or a transport failure with a human-readable description.
#[derive(Debug, Clone, PartialEq)]
pub enum ProbeOutcome {
    Response { status: u16 },
    Failure { description: String },
}

/// The mathematical model of a probe outcome.
#[verifier::ext_equal]
pub enum OutcomeModel {
    Response { status: u16 },
    Failure { description: Seq<char> },
}

impl View for ProbeOutcome {
    type V = OutcomeModel;

    open spec fn view(&self) -> OutcomeModel {
        match self {
            ProbeOutcome::Response { status } => OutcomeModel::Response { status: *status },
            ProbeOutcome::Failure { description } => OutcomeModel::Failure {
                description: description@,
            },
        }
    }
}

/// The result of one probe: exactly one of success, a status mismatch, or
/// a transport failure, each carrying the probed URL and a timestamp.
#[derive(Debug, Clone, PartialEq)]
pub enum ProbeResult {
    Success { url: String, observed_status: u16, timestamp: String },
    StatusMismatch { url: String, expected_status: u16, observed_status: u16, timestamp: String },
    TransportFailure { url: String, error_description: String, timestamp: String },
}

/// The mathematical model of a probe result.
#[verifier::ext_equal]
pub enum ResultModel {
    Success { url: Seq<char>, observed_status: u16, timestamp: Seq<char> },
    StatusMismatch {
        url: Seq<char>,
        expected_status: u16,
        observed_status: u16,
        timestamp: Seq<char>,
    },
    TransportFailure { url: Seq<char>, error_description: Seq<char>, timestamp: Seq<char> },
}

impl View for ProbeResult {
    type V = ResultModel;

    open spec fn view(&self) -> ResultModel {
        match self {
            ProbeResult::Success { url, observed_status, timestamp } => ResultModel::Success {
                url: url@,
                observed_status: *observed_status,
                timestamp: timestamp@,
            },
            ProbeResult::StatusMismatch {
                url,
                expected_status,
                observed_status,
                timestamp,
            } => ResultModel::StatusMismatch {
                url: url@,
                expected_status: *expected_status,
                observed_status: *observed_status,
                timestamp: timestamp@,
            },
            ProbeResult::TransportFailure {
                url,
                error_description,
                timestamp,
            } => ResultModel::TransportFailure {
                url: url@,
                error_description: error_description@,
                timestamp: timestamp@,
            },
        }
    }
}

/// What the classification of an outcome must be: a received status equal
/// to the endpoint's expected one is a success; a received status unequal
/// to it is a status mismatch; a transport failure is passed through with
/// its description. The URL and timestamp are carried, nothing else enters.
pub open spec fn classify_model(e: EndpointModel, ts: Seq<char>, o: OutcomeModel) -> ResultModel {
    match o {
        OutcomeModel::Response { status } => if status == expected_of(e) {
            ResultModel::Success { url: e.url, observed_status: status, timestamp: ts }
        } else {
            ResultModel::StatusMismatch {
                url: e.url,
                expected_status: expected_of(e),
                observed_status: status,
                timestamp: ts,
            }
        },
        OutcomeModel::Failure { description } => ResultModel::TransportFailure {
            url: e.url,
            error_description: description,
            timestamp: ts,
        },
    }
}

/// Classifies what one probe of `endpoint` produced, exactly as
/// `classify_model` says: equality with the expected status is exact
/// integer equality, not a range or class match.
pub fn classify(endpoint: &Endpoint, timestamp: String, outcome: ProbeOutcome) -> (r: ProbeResult)
    ensures
        r@ == classify_model(endpoint@, timestamp@, outcome@),
{
    match outcome {
        ProbeOutcome::Response { status } => {
            let expected = endpoint.expected_status();
            if status == expected {
                ProbeResult::Success {
                    url: endpoint.url.clone(),
                    observed_status: status,
                    timestamp,
                }
            } else {
                ProbeResult::StatusMismatch {
                    url: endpoint.url.clone(),
                    expected_status: expected,
                    observed_status: status,
                    timestamp,
                }
            }
        },
        ProbeOutcome::Failure { description } => ProbeResult::TransportFailure {
            url: endpoint.url.clone(),
            error_description: description,
            timestamp,
        },
    }
}

/// The URL a probe result speaks of, whichever case it falls under.
pub open spec fn url_of(r: ResultModel) -> Seq<char> {
    match r {
        ResultModel::Success { url, .. } => url,
        ResultModel::StatusMismatch { url, .. } => url,
        ResultModel::TransportFailure { url, .. } => url,
    }
}

/// Every probe result is exactly one of success, status mismatch and
/// transport failure: the three cases cover everything and exclude each
/// other.
pub proof fn lemma_result_exclusive(r: ResultModel)
    ensures
        r is Success || r is StatusMismatch || r is TransportFailure,
        r is Success ==> !(r is StatusMismatch) && !(r is TransportFailure),
        r is StatusMismatch ==> !(r is Success) && !(r is TransportFailure),
        r is TransportFailure ==> !(r is Success) && !(r is StatusMismatch),
{
}

/// Two probe results have the same classification when they fall under the
/// same case and agree on everything but the timestamp.
pub open spec fn same_classification(a: ResultModel, b: ResultModel) -> bool {
    match (a, b) {
        (
            ResultModel::Success { url: u1, observed_status: o1, .. },
            ResultModel::Success { url: u2, observed_status: o2, .. },
        ) => u1 == u2 && o1 == o2,
        (
            ResultModel::StatusMismatch { url: u1, expected_status: e1, observed_status: o1, .. },
            ResultModel::StatusMismatch { url: u2, expected_status: e2, observed_status: o2, .. },
        ) => u1 == u2 && e1 == e2 && o1 == o2,
        (
            ResultModel::TransportFailure { url: u1, error_description: d1, .. },
            ResultModel::TransportFailure { url: u2, error_description: d2, .. },
        ) => u1 == u2 && d1 == d2,
        _ => false,
    }
}

/// Repeated identical probes classify identically: the classification is a
/// function of the endpoint and the outcome alone, so two probes of the
/// same endpoint with the same outcome yield the same classification
/// whatever their timestamps — no state carries over between ticks.
pub proof fn lemma_classification_stateless(
    e: EndpointModel,
    o: OutcomeModel,
    t1: Seq<char>,
    t2: Seq<char>,
)
    ensures
        same_classification(classify_model(e, t1, o), classify_model(e, t2, o)),
{
}

} // verus!
