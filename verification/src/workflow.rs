//! The steps of the commands that talk to GitHub, git and the runner.
//!
//! A command is a state machine: given its state and the reply to its last
//! action, it names its next state and the next action. The program performs
//! the action and hands the reply back, until the command finishes.

use vstd::prelude::*;

use crate::github::{GhCall, GhExpect};
use crate::json::JsonValue;
use crate::patterns::strings_view;

verus! {

/// A process other than `gh` run in a working directory.
pub struct ToolCall {
    /// The program (`git`, `rustfmt`, `pnpm`).
    pub program: String,
    pub args: Vec<String>,
    /// The working directory.
    pub dir: String,
    /// What the program calls the process in an error message when it cannot
    /// be started (`Failed to execute <label>: ...`).
    pub label: String,
}

/// What a finished process left behind.
pub struct RunOutput {
    pub success: bool,
    pub stdout: String,
    pub stderr: String,
}

/// The next thing a command asks for.
pub enum Action {
    /// Run `gh`; the reply depends on the call's `expect`.
    Gh(GhCall),
    /// Run another process; the reply is `Reply::Run`.
    Tool(ToolCall),
    /// Print a line on standard output; the reply is `Reply::Done(Ok)`.
    Print(String),
    /// Append `key=value` to the file named by `GITHUB_OUTPUT` (an error when
    /// it is not set); the reply is `Reply::Done`.
    SetOutput(String, String),
    /// Append `key=value` to the file named by `GITHUB_ENV` when it is set;
    /// the reply is `Reply::Done`.
    SetEnv(String, String),
    /// Whether the path `file`, taken from the directory `dir`, names a
    /// regular file; the reply is `Reply::Flag`.
    IsFile(String, String),
    /// Read the file at this path as text; the reply is `Reply::Text`, with
    /// the error's text when it cannot be read.
    ReadFile(String),
    /// The command is over, with this outcome.
    Finish(Result<(), String>),
}

/// What the program hands back after an action.
pub enum Reply {
    /// Before the first action.
    Start,
    /// For `GhExpect::Output`: the trimmed output, or why the call failed;
    /// for a file read: its text, or why it could not be read.
    Text(Result<String, String>),
    /// For `GhExpect::Status`: whether the call succeeded; for a file
    /// check: whether the file is there.
    Flag(Result<bool, String>),
    /// For `GhExpect::Raw`: the JSON output, `None` when the call failed.
    Details(Result<Option<JsonValue>, String>),
    /// For `GhExpect::Json`.
    Json(Result<JsonValue, String>),
    /// For `GhExpect::JsonLines`.
    JsonLines(Result<Vec<JsonValue>, String>),
    /// For a process other than `gh`.
    Run(Result<RunOutput, String>),
    /// For printing and for the runner's files.
    Done(Result<(), String>),
}

/// The view of an action.
pub enum Act {
    Gh(Seq<Seq<char>>, GhExpect),
    Tool(Seq<char>, Seq<Seq<char>>, Seq<char>, Seq<char>),
    Print(Seq<char>),
    SetOutput(Seq<char>, Seq<char>),
    SetEnv(Seq<char>, Seq<char>),
    IsFile(Seq<char>, Seq<char>),
    ReadFile(Seq<char>),
    Finish(Result<(), Seq<char>>),
}

impl View for Action {
    type V = Act;

    open spec fn view(&self) -> Act {
        match self {
            Action::Gh(c) => Act::Gh(strings_view(c.args@), c.expect),
            Action::Tool(t) => Act::Tool(t.program@, strings_view(t.args@), t.dir@, t.label@),
            Action::Print(s) => Act::Print(s@),
            Action::SetOutput(k, v) => Act::SetOutput(k@, v@),
            Action::SetEnv(k, v) => Act::SetEnv(k@, v@),
            Action::IsFile(d, f) => Act::IsFile(d@, f@),
            Action::ReadFile(p) => Act::ReadFile(p@),
            Action::Finish(Ok(())) => Act::Finish(Ok(())),
            Action::Finish(Err(e)) => Act::Finish(Err(e@)),
        }
    }
}

/// The end of a command with an error.
pub open spec fn failed(e: Seq<char>) -> Act {
    Act::Finish(Err(e))
}

/// The end of a command without error.
pub open spec fn succeeded() -> Act {
    Act::Finish(Ok(()))
}

/// What a reply that does not fit the action reads as.
pub open spec fn unexpected_reply() -> Seq<char> {
    "Unexpected reply to the last action."@
}

/// Ends the command with an error.
pub fn fail(e: String) -> (r: Action)
    ensures
        r@ == failed(e@),
{
    Action::Finish(Err(e))
}

/// Ends the command without error.
pub fn finish_ok() -> (r: Action)
    ensures
        r@ == succeeded(),
{
    Action::Finish(Ok(()))
}

/// Ends the command because a reply did not fit.
pub fn fail_unexpected() -> (r: Action)
    ensures
        r@ == failed(unexpected_reply()),
{
    Action::Finish(Err(crate::text::copy_str("Unexpected reply to the last action.")))
}

/// A `gh` action.
pub fn gh(c: GhCall) -> (r: Action)
    ensures
        r@ == Act::Gh(strings_view(c.args@), c.expect),
{
    Action::Gh(c)
}

} // verus!
