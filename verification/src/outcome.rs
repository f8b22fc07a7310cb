//! Outcomes of a pipeline run and the responses they translate to.

use vstd::prelude::*;
use vstd::string::*;
use crate::text::join;

verus! {

/// How one run of the pipeline ended.
#[derive(Clone, Copy, PartialEq, Eq, Structural, Debug)]
pub enum OutcomeKind {
    /// Build, export and the upload stage all ran.
    Success,
    /// The build succeeded; export or upload did not.
    PartialSuccess,
    /// The push, the readiness wait or the build failed.
    Failure,
    /// The push succeeded but carried no digest, so nothing was run.
    Warning,
}

impl OutcomeKind {
    /// The status word of the response body.
    pub open spec fn label_spec(self) -> Seq<char> {
        match self {
            OutcomeKind::Success => "Success"@,
            OutcomeKind::PartialSuccess => "Partial Success"@,
            OutcomeKind::Failure => "Failed"@,
            OutcomeKind::Warning => "Warning"@,
        }
    }

    /// The HTTP status of the response: 500 for a failure, 200 otherwise.
    pub open spec fn http_status_spec(self) -> int {
        if self == OutcomeKind::Failure {
            500
        } else {
            200
        }
    }

    pub fn label(&self) -> (r: &'static str)
        ensures
            r@ == self.label_spec(),
    {
        match self {
            OutcomeKind::Success => "Success",
            OutcomeKind::PartialSuccess => "Partial Success",
            OutcomeKind::Failure => "Failed",
            OutcomeKind::Warning => "Warning",
        }
    }

    pub fn http_status(&self) -> (r: u16)
        ensures
            r == self.http_status_spec(),
    {
        match self {
            OutcomeKind::Failure => 500,
            _ => 200,
        }
    }
}

/// The final classification of one run, with its message and the image it was about.
#[derive(Clone, Debug)]
pub struct PipelineOutcome {
    pub kind: OutcomeKind,
    pub message: String,
    pub container: String,
}

/// Mathematical model of a [`PipelineOutcome`].
pub struct OutcomeView {
    pub kind: OutcomeKind,
    pub message: Seq<char>,
    pub container: Seq<char>,
}

impl View for PipelineOutcome {
    type V = OutcomeView;

    open spec fn view(&self) -> OutcomeView {
        OutcomeView { kind: self.kind, message: self.message@, container: self.container@ }
    }
}

/// A point in time: seconds since the Unix epoch and the nanoseconds within that second.
#[derive(Clone, Copy, PartialEq, Eq, Structural, Debug)]
pub struct Timestamp {
    pub seconds: i64,
    pub nanos: u32,
}

/// What is sent back for a notification.
#[derive(Clone, Debug)]
pub struct Response {
    pub http_status: u16,
    pub message: String,
    pub container: String,
    pub status: String,
    pub timestamp: Timestamp,
}

/// Translates an outcome into the response for the notification received at `received_at`.
pub fn respond(outcome: PipelineOutcome, received_at: Timestamp) -> (r: Response)
    ensures
        r.http_status == outcome.kind.http_status_spec(),
        r.message@ == outcome.message@,
        r.container@ == outcome.container@,
        r.status@ == outcome.kind.label_spec(),
        r.timestamp == received_at,
{
    Response {
        http_status: outcome.kind.http_status(),
        status: String::from_str(outcome.kind.label()),
        message: outcome.message,
        container: outcome.container,
        timestamp: received_at,
    }
}

/// The body of the liveness probe.
#[derive(Clone, Debug)]
pub struct HealthReport {
    pub status: String,
    pub timestamp: Timestamp,
}

/// Answers the liveness probe. The answer depends on the time alone: it is
/// always healthy, whatever any pipeline is doing.
pub fn health(now: Timestamp) -> (r: HealthReport)
    ensures
        r.status@ == "healthy"@,
        r.timestamp == now,
{
    HealthReport { status: String::from_str("healthy"), timestamp: now }
}

/// The HTTP status of the liveness probe.
pub fn health_status() -> (r: u16)
    ensures
        r == 200,
{
    200
}

/// The HTTP status for a route that does not exist.
pub fn not_found_status() -> (r: u16)
    ensures
        r == 404,
{
    404
}

/// The plain-text body for a route that does not exist.
pub fn not_found_body(uri: &str) -> (r: String)
    ensures
        r@ == "Not found: "@ + uri@,
{
    join("Not found: ", uri)
}

} // verus!
