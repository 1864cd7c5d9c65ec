//! The small commands: the pull request of a `workflow_run` event, the
//! branch gate of `main`, and the placeholder of the stable-dependency check.

use vstd::prelude::*;

use crate::args::{args_view, flag_value, flag_value_or, opt_string_view, CommandArgs};
use crate::patterns::{
    captures_all, captures_view, group, group_at, regex_captures, regex_compiles, CaptureTexts,
    WORKFLOW_RUN_PR_NUMBER,
};
use crate::text::{
    chars_of, concat2, concat3, copy_str, decimal, parse_u64, parse_u64_str, starts_with, starts_with_str,
    str_eq, u64_to_string,
};
use crate::workflow::{fail, fail_unexpected, failed, finish_ok, succeeded, unexpected_reply, Act, Action, Reply};

verus! {

// ---------------------------------------------------------------------------
// The pull request of a workflow run
// ---------------------------------------------------------------------------

/// The command writing the number of the pull request a `workflow_run`
/// event is about.
pub struct WorkflowRunPr {
    pub args: CommandArgs,
}

/// The number the first match of the event pattern captures, when it reads
/// as a `u64`.
pub open spec fn first_captured_number(caps: Seq<Seq<Option<Seq<char>>>>) -> Option<u64> {
    if caps.len() == 0 {
        None
    } else {
        match group(caps[0], 1) {
            Some(t) => parse_u64(t),
            None => None,
        }
    }
}

/// The pull request number of an event payload: the first `number` after
/// the opening of the `pull_requests` list.
pub open spec fn event_pr_number(payload: Seq<char>) -> Option<u64> {
    if regex_compiles(WORKFLOW_RUN_PR_NUMBER@) {
        first_captured_number(regex_captures(WORKFLOW_RUN_PR_NUMBER@, payload))
    } else {
        None
    }
}

/// The event file: `--event-path`, else `GITHUB_EVENT_PATH`.
pub open spec fn event_path_choice(args: Seq<Seq<char>>, github_event_path: Option<Seq<char>>) -> Result<
    Seq<char>,
    Seq<char>,
> {
    match flag_value(args, "--event-path"@) {
        Ok(p) => Ok(p),
        Err(_) => match github_event_path {
            Some(p) => Ok(p),
            None => Err("Missing --event-path and GITHUB_EVENT_PATH"@),
        },
    }
}

/// Where a run stands.
pub enum EventAt {
    Start,
    /// The event file at this path was asked.
    Reading(String),
    /// The skip was announced.
    Skipped,
    /// The output was written.
    Written,
}

/// The view of where a run stands.
pub enum EventState {
    Start,
    Reading(Seq<char>),
    Skipped,
    Written,
}

impl View for EventAt {
    type V = EventState;

    open spec fn view(&self) -> EventState {
        match self {
            EventAt::Start => EventState::Start,
            EventAt::Reading(p) => EventState::Reading(p@),
            EventAt::Skipped => EventState::Skipped,
            EventAt::Written => EventState::Written,
        }
    }
}

/// The next state and action of a run.
pub open spec fn workflow_run_next(
    args: Seq<Seq<char>>,
    github_event_path: Option<Seq<char>>,
    at: EventState,
    reply: Reply,
) -> (EventState, Act) {
    match at {
        EventState::Start => match event_path_choice(args, github_event_path) {
            Ok(p) => (EventState::Reading(p), Act::ReadFile(p)),
            Err(e) => (at, failed(e)),
        },
        EventState::Reading(p) => match reply {
            Reply::Text(Ok(payload)) => match event_pr_number(payload@) {
                Some(n) => (EventState::Written, Act::SetOutput("pr_number"@, decimal(n as nat))),
                None => (EventState::Skipped, Act::Print("No pull request associated with this workflow run; skipping."@)),
            },
            Reply::Text(Err(e)) => (at, failed("Failed to read event payload '"@ + p + "': "@ + e@)),
            _ => (at, failed(unexpected_reply())),
        },
        EventState::Skipped => match reply {
            Reply::Done(Ok(())) => (EventState::Written, Act::SetOutput("pr_number"@, ""@)),
            Reply::Done(Err(e)) => (at, failed(e@)),
            _ => (at, failed(unexpected_reply())),
        },
        EventState::Written => match reply {
            Reply::Done(Ok(())) => (at, succeeded()),
            Reply::Done(Err(e)) => (at, failed(e@)),
            _ => (at, failed(unexpected_reply())),
        },
    }
}

/// The number the first match captures in group 1, when it reads as a
/// `u64`.
pub fn first_captured_pr_number(caps: &CaptureTexts) -> (r: Option<u64>)
    ensures
        r == first_captured_number(captures_view(caps@)),
{
    if caps.len() == 0 {
        return None;
    }
    match group_at(&caps[0], 1) {
        Some(t) => parse_u64_str(t.as_str()),
        None => None,
    }
}

impl WorkflowRunPr {
    /// The command for the given arguments.
    pub fn new(args: CommandArgs) -> (r: Self)
        ensures
            r.args == args,
    {
        Self { args }
    }

    /// The event file: `--event-path`, else `github_event_path` (the
    /// environment's `GITHUB_EVENT_PATH`).
    pub fn resolve_event_path(&self, github_event_path: Option<String>) -> (r: Result<String, String>)
        ensures
            match (r, event_path_choice(args_view(self.args.args@), opt_string_view(github_event_path))) {
                (Ok(a), Ok(b)) => a@ == b,
                (Err(a), Err(b)) => a@ == b,
                _ => false,
            },
    {
        match self.args.extract_flag_value("--event-path") {
            Ok(p) => Ok(p),
            Err(_) => match github_event_path {
                Some(p) => Ok(p),
                None => Err(copy_str("Missing --event-path and GITHUB_EVENT_PATH")),
            },
        }
    }

    /// The pull request number of an event payload (none when there is
    /// none or it does not read as a `u64`).
    pub fn extract_pr_number(&self, event_payload: &str) -> (r: Option<u64>)
        ensures
            r == event_pr_number(event_payload@),
    {
        match captures_all(WORKFLOW_RUN_PR_NUMBER, event_payload) {
            Ok(caps) => first_captured_pr_number(&caps),
            Err(_) => None,
        }
    }

    /// One step of the run: reads the event file, and writes the output
    /// `pr_number` with the number found in it, or empty after saying that
    /// there is none.
    pub fn resolve_to_github_output(&self, github_event_path: Option<String>, at: EventAt, reply: Reply) -> (r: (
        EventAt,
        Action,
    ))
        ensures
            (r.0@, r.1@) == workflow_run_next(
                args_view(self.args.args@),
                opt_string_view(github_event_path),
                at@,
                reply,
            ),
    {
        match at {
            EventAt::Start => match self.resolve_event_path(github_event_path) {
                Ok(p) => {
                    let a = Action::ReadFile(copy_str(p.as_str()));
                    (EventAt::Reading(p), a)
                },
                Err(e) => (EventAt::Start, fail(e)),
            },
            EventAt::Reading(p) => match reply {
                Reply::Text(Ok(payload)) => match self.extract_pr_number(payload.as_str()) {
                    Some(n) => (EventAt::Written, Action::SetOutput(copy_str("pr_number"), u64_to_string(n))),
                    None => {
                        let m = copy_str("No pull request associated with this workflow run; skipping.");
                        (EventAt::Skipped, Action::Print(m))
                    },
                },
                Reply::Text(Err(e)) => {
                    let head = concat3("Failed to read event payload '", p.as_str(), "': ");
                    let m = concat2(head.as_str(), e.as_str());
                    (EventAt::Reading(p), fail(m))
                },
                _ => (EventAt::Reading(p), fail_unexpected()),
            },
            EventAt::Skipped => match reply {
                Reply::Done(Ok(())) => (EventAt::Written, Action::SetOutput(copy_str("pr_number"), copy_str(""))),
                Reply::Done(Err(e)) => (EventAt::Skipped, fail(e)),
                _ => (EventAt::Skipped, fail_unexpected()),
            },
            EventAt::Written => match reply {
                Reply::Done(Ok(())) => (EventAt::Written, finish_ok()),
                Reply::Done(Err(e)) => (EventAt::Written, fail(e)),
                _ => (EventAt::Written, fail_unexpected()),
            },
        }
    }
}

// ---------------------------------------------------------------------------
// The branch gate of main
// ---------------------------------------------------------------------------

/// The command allowing only `dev` and `hotfix/*` to merge into `main`.
pub struct MainPrGate {
    pub args: CommandArgs,
}

/// Whether a branch may merge into `main`.
pub open spec fn may_merge_into_main(head: Seq<char>) -> bool {
    head == "dev"@ || starts_with(head, "hotfix/"@)
}

/// The verdict on `--head-ref`: the line to print, or the error.
pub open spec fn main_gate_verdict(args: Seq<Seq<char>>) -> Result<Seq<char>, Seq<char>> {
    let head = flag_value_or(args, "--head-ref"@, ""@);
    if may_merge_into_main(head) {
        Ok("OK: Branch '"@ + head + "' is allowed to merge into main."@)
    } else {
        Err("Only 'dev' or 'hotfix/*' branches can merge into main. Received: '"@ + head + "'."@)
    }
}

impl MainPrGate {
    /// The command for the given arguments.
    pub fn new(args: CommandArgs) -> (r: Self)
        ensures
            r.args == args,
    {
        Self { args }
    }

    /// Checks `--head-ref`: `Ok` with the line to print when it is `dev` or
    /// starts with `hotfix/`, else the error.
    pub fn run(&self) -> (r: Result<String, String>)
        ensures
            match (r, main_gate_verdict(args_view(self.args.args@))) {
                (Ok(a), Ok(b)) => a@ == b,
                (Err(a), Err(b)) => a@ == b,
                _ => false,
            },
    {
        let head = self.args.extract_flag_value_or("--head-ref", "");
        let hv = chars_of(head.as_str());
        if str_eq(head.as_str(), "dev") || starts_with_str(&hv, "hotfix/") {
            return Ok(concat3("OK: Branch '", head.as_str(), "' is allowed to merge into main."));
        }
        Err(concat3("Only 'dev' or 'hotfix/*' branches can merge into main. Received: '", head.as_str(), "'."))
    }
}

// ---------------------------------------------------------------------------
// The stable-dependency placeholder
// ---------------------------------------------------------------------------

/// The placeholder of the stable-dependency check.
pub struct StableDepsPlaceholder;

/// What the placeholder prints.
pub open spec fn placeholder_lines() -> Seq<Seq<char>> {
    seq![
        "Stable dependency verification is not yet defined for the multi-repository template."@,
        "Replace this placeholder workflow when repository dependency boundaries are formalized."@,
    ]
}

impl StableDepsPlaceholder {
    /// The placeholder.
    pub fn new() -> (r: Self) {
        Self
    }

    /// The lines to print.
    pub fn run(&self) -> (r: Vec<String>)
        ensures
            crate::patterns::strings_view(r@) == placeholder_lines(),
    {
        let mut r: Vec<String> = Vec::new();
        crate::pr_body::push_line(&mut r, "Stable dependency verification is not yet defined for the multi-repository template.");
        crate::pr_body::push_line(&mut r, "Replace this placeholder workflow when repository dependency boundaries are formalized.");
        assert(crate::patterns::strings_view(r@) =~= placeholder_lines());
        r
    }
}

} // verus!
