//! The fixed workflow behind the `create` subcommand and the connectivity
//! probe behind the `test` subcommand.  The step sequence and the verdict
//! on a probe outcome are decided here; performing the HTTP calls is left
//! to the caller.

use vstd::prelude::*;

use crate::client::HttpRequest;

verus! {

/// Canvas width of a created draft, in pixels.
pub const CANVAS_WIDTH: u32 = 1080;

/// Canvas height of a created draft, in pixels.
pub const CANVAS_HEIGHT: u32 = 1920;

/// Start of the attached clip's interval, in milliseconds.
pub const VIDEO_START_MS: u64 = 0;

/// End of the attached clip's interval, in milliseconds.
pub const VIDEO_END_MS: u64 = 10000;

/// Volume of the attached clip, in thousandths of full scale.
pub const VIDEO_VOLUME_MILLI: u64 = 1000;

/// Start of the title overlay's interval, in milliseconds.
pub const TITLE_START_MS: u64 = 0;

/// End of the title overlay's interval, in milliseconds.
pub const TITLE_END_MS: u64 = 3000;

/// One step of the `create` workflow, each standing for one remote call.
#[derive(Debug, PartialEq, Eq, Structural, Clone, Copy)]
pub enum WorkflowStep {
    CreateDraft,
    AddVideo,
    AddText,
    SaveDraft,
}

/// The calls the `create` workflow makes, in order: the title step appears
/// exactly when a title was given.
pub open spec fn plan_create_spec(has_title: bool) -> Seq<WorkflowStep> {
    if has_title {
        seq![
            WorkflowStep::CreateDraft,
            WorkflowStep::AddVideo,
            WorkflowStep::AddText,
            WorkflowStep::SaveDraft,
        ]
    } else {
        seq![WorkflowStep::CreateDraft, WorkflowStep::AddVideo, WorkflowStep::SaveDraft]
    }
}

/// The ordered list of remote calls for one `create` invocation.
pub fn plan_create(has_title: bool) -> (r: Vec<WorkflowStep>)
    ensures
        r@ == plan_create_spec(has_title),
{
    let mut v: Vec<WorkflowStep> = Vec::new();
    v.push(WorkflowStep::CreateDraft);
    v.push(WorkflowStep::AddVideo);
    if has_title {
        v.push(WorkflowStep::AddText);
    }
    v.push(WorkflowStep::SaveDraft);
    proof {
        assert(v@ =~= plan_create_spec(has_title));
    }
    v
}

/// The connectivity probe: a bare create-draft request with an empty JSON
/// body, reusing the one endpoint the service is sure to expose.
pub fn probe_request(server: &str) -> (r: HttpRequest)
    ensures
        r.url@ == server@ + "/create_draft"@,
        r.body@ == "{}"@,
{
    let mut url = String::from_str(server);
    url.append("/create_draft");
    HttpRequest { url, body: String::from_str("{}") }
}

/// What a finished probe means to the user.
#[derive(Debug, PartialEq, Eq, Structural, Clone, Copy)]
pub enum ProbeVerdict {
    /// The server answered with a success status.
    Reachable,
    /// The server answered, but with a non-success status.
    ServerError,
    /// No answer at all; the command reports it and still ends normally.
    Unreachable,
}

/// Classifies a probe outcome: the HTTP status code if an answer came,
/// `None` if the transport failed.  Every outcome gets a verdict, so the
/// probe never turns into a process failure.
pub fn probe_verdict(status: Option<u16>) -> (r: ProbeVerdict)
    ensures
        match status {
            Some(code) => (200 <= code < 300 ==> r == ProbeVerdict::Reachable) && (!(200 <= code
                < 300) ==> r == ProbeVerdict::ServerError),
            None => r == ProbeVerdict::Unreachable,
        },
{
    match status {
        Some(code) => if 200 <= code && code < 300 {
            ProbeVerdict::Reachable
        } else {
            ProbeVerdict::ServerError
        },
        None => ProbeVerdict::Unreachable,
    }
}

} // verus!
