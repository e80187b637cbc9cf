//! Turning one probe result into its side-effect inputs: the log line that
//! is always written, and the alert that is raised exactly when the probe
//! was not a success.

use vstd::prelude::*;
use crate::decimal::{dec_str, u64_to_string};
use crate::endpoint::Endpoint;
use crate::probe::{classify, classify_model, url_of, ProbeOutcome, ProbeResult, ResultModel};

verus! {

use vstd::string::StringExecFns;

/// The log line for a probe result:
/// `[<timestamp>] <url> - OK (Status: <n>)` on success,
/// `[<timestamp>] <url> - ERROR: Expected <n>, got <m>` on a mismatch,
/// `[<timestamp>] <url> - ERROR: <description>` on a transport failure.
pub open spec fn log_line_of(r: ResultModel) -> Seq<char> {
    match r {
        ResultModel::Success { url, observed_status, timestamp } => "["@ + timestamp + "] "@
            + url + " - OK (Status: "@ + dec_str(observed_status as int) + ")"@,
        ResultModel::StatusMismatch { url, expected_status, observed_status, timestamp } => "["@
            + timestamp + "] "@ + url + " - ERROR: Expected "@ + dec_str(expected_status as int)
            + ", got "@ + dec_str(observed_status as int),
        ResultModel::TransportFailure { url, error_description, timestamp } => "["@ + timestamp
            + "] "@ + url + " - ERROR: "@ + error_description,
    }
}

/// An alert is owed exactly when the probe was not a success.
pub open spec fn needs_alert_of(r: ResultModel) -> bool {
    !(r is Success)
}

/// The alert summary names the failing URL.
pub open spec fn alert_summary_of(url: Seq<char>) -> Seq<char> {
    "Healthcheck Failed: "@ + url
}

/// The alert body: `Expected <n>, got <m>` for a mismatch, the raw
/// transport error description for a transport failure, and empty for a
/// success (which never raises an alert).
pub open spec fn alert_body_of(r: ResultModel) -> Seq<char> {
    match r {
        ResultModel::Success { .. } => Seq::<char>::empty(),
        ResultModel::StatusMismatch { expected_status, observed_status, .. } => "Expected "@
            + dec_str(expected_status as int) + ", got "@ + dec_str(observed_status as int),
        ResultModel::TransportFailure { error_description, .. } => error_description,
    }
}

/// Renders the log line for a probe result, exactly as `log_line_of` says.
pub fn render_log_line(r: &ProbeResult) -> (line: String)
    ensures
        line@ == log_line_of(r@),
{
    match r {
        ProbeResult::Success { url, observed_status, timestamp } => {
            let mut line = String::from_str("[");
            line.append(timestamp.as_str());
            line.append("] ");
            line.append(url.as_str());
            line.append(" - OK (Status: ");
            let status = u64_to_string(*observed_status as u64);
            line.append(status.as_str());
            line.append(")");
            proof {
                assert(line@ =~= log_line_of(r@));
            }
            line
        },
        ProbeResult::StatusMismatch { url, expected_status, observed_status, timestamp } => {
            let mut line = String::from_str("[");
            line.append(timestamp.as_str());
            line.append("] ");
            line.append(url.as_str());
            line.append(" - ERROR: Expected ");
            let expected = u64_to_string(*expected_status as u64);
            line.append(expected.as_str());
            line.append(", got ");
            let observed = u64_to_string(*observed_status as u64);
            line.append(observed.as_str());
            proof {
                assert(line@ =~= log_line_of(r@));
            }
            line
        },
        ProbeResult::TransportFailure { url, error_description, timestamp } => {
            let mut line = String::from_str("[");
            line.append(timestamp.as_str());
            line.append("] ");
            line.append(url.as_str());
            line.append(" - ERROR: ");
            line.append(error_description.as_str());
            proof {
                assert(line@ =~= log_line_of(r@));
            }
            line
        },
    }
}

/// Whether a probe result must raise an alert: every result that is not a
/// success, and no success, does.
pub fn needs_alert(r: &ProbeResult) -> (b: bool)
    ensures
        b == needs_alert_of(r@),
{
    match r {
        ProbeResult::Success { .. } => false,
        _ => true,
    }
}

/// One desktop alert: a summary naming the failing URL, and a body
/// describing the failure.
#[derive(Debug, Clone, PartialEq)]
pub struct Alert {
    pub summary: String,
    pub body: String,
}

/// Everything one probe tick asks of the side-effect sinks: the result
/// itself, the log line that is always written (and mirrored to standard
/// output), and the alert to raise — present exactly when the probe was
/// not a success.
#[derive(Debug, Clone, PartialEq)]
pub struct Report {
    pub result: ProbeResult,
    pub line: String,
    pub alert: Option<Alert>,
}

/// Whether a report is the one owed for `r`: its log line is the line for
/// `r`, and it carries an alert, with the right summary and body, if and
/// only if `r` is not a success.
pub open spec fn report_matches(rep: Report, r: ResultModel) -> bool {
    &&& rep.result@ == r
    &&& rep.line@ == log_line_of(r)
    &&& (rep.alert is Some) == needs_alert_of(r)
    &&& (rep.alert matches Some(a) ==> a.summary@ == alert_summary_of(url_of(r)) && a.body@
        == alert_body_of(r))
}

/// Builds the alert for a failing probe result.
fn build_alert(r: &ProbeResult) -> (a: Alert)
    requires
        needs_alert_of(r@),
    ensures
        a.summary@ == alert_summary_of(url_of(r@)),
        a.body@ == alert_body_of(r@),
{
    match r {
        ProbeResult::Success { url, .. } => {
            // unreachable under the precondition; kept total for Verus
            let mut summary = String::from_str("Healthcheck Failed: ");
            summary.append(url.as_str());
            Alert { summary, body: String::new() }
        },
        ProbeResult::StatusMismatch { url, expected_status, observed_status, .. } => {
            let mut summary = String::from_str("Healthcheck Failed: ");
            summary.append(url.as_str());
            let mut body = String::from_str("Expected ");
            let expected = u64_to_string(*expected_status as u64);
            body.append(expected.as_str());
            body.append(", got ");
            let observed = u64_to_string(*observed_status as u64);
            body.append(observed.as_str());
            proof {
                assert(body@ =~= alert_body_of(r@));
            }
            Alert { summary, body }
        },
        ProbeResult::TransportFailure { url, error_description, .. } => {
            let mut summary = String::from_str("Healthcheck Failed: ");
            summary.append(url.as_str());
            let body = error_description.clone();
            Alert { summary, body }
        },
    }
}

/// Classifies one probe outcome and produces everything the sinks need:
/// the classified result, its log line, and its alert exactly when the
/// probe was not a success.
pub fn probe_report(endpoint: &Endpoint, timestamp: String, outcome: ProbeOutcome) -> (rep: Report)
    ensures
        rep.result@ == classify_model(endpoint@, timestamp@, outcome@),
        report_matches(rep, classify_model(endpoint@, timestamp@, outcome@)),
{
    let result = classify(endpoint, timestamp, outcome);
    let line = render_log_line(&result);
    let alert = if needs_alert(&result) {
        Some(build_alert(&result))
    } else {
        None
    };
    Report { result, line, alert }
}

/// Relies on chrono's `Local::now` and `format`: reads the wall clock and
/// renders it as `YYYY-MM-DD HH:MM:SS`. The result depends on the clock,
/// so nothing is promised of it.
#[verifier::external_body]
fn current_timestamp() -> String {
    chrono::Local::now().format("%Y-%m-%d %H:%M:%S").to_string()
}

/// `probe_report` with the timestamp taken from the wall clock, as a probe
/// loop uses it: whatever the clock read, the report is the one owed for
/// the classification of `outcome` under that timestamp.
pub fn probe_report_now(endpoint: &Endpoint, outcome: ProbeOutcome) -> (rep: Report)
    ensures
        exists|ts: Seq<char>|
            rep.result@ == classify_model(endpoint@, ts, outcome@),
        report_matches(rep, rep.result@),
{
    let timestamp = current_timestamp();
    let ghost ts = timestamp@;
    let rep = probe_report(endpoint, timestamp, outcome);
    proof {
        assert(rep.result@ == classify_model(endpoint@, ts, outcome@));
    }
    rep
}

} // verus!
