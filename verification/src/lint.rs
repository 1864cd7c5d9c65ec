//! The formatting commands: `rustfmt` on the Rust files and
//! `markdownlint-cli2` on the Markdown files a branch changed, with the
//! outcome written to the step's outputs.

use vstd::prelude::*;

use crate::args::{args_view, flag_value_or, CommandArgs};
use crate::git::{diff_args, diff_files, diff_filter_args, rustfmt_args, GitCli};
use crate::github::rows_view;
use crate::patterns::strings_view;
use crate::pr_body::push_line;
use crate::text::{chars_of, concat2, concat3, copy_str, ends_with, ends_with_str};
use crate::workflow::{
    fail, fail_unexpected, failed, finish_ok, succeeded, unexpected_reply, Act, Action, Reply,
    ToolCall,
};

verus! {

/// The files of a list whose names end with `suffix`, in order.
pub open spec fn with_suffix(files: Seq<Seq<char>>, suffix: Seq<char>) -> Seq<Seq<char>>
    decreases files.len(),
{
    if files.len() == 0 {
        Seq::<Seq<char>>::empty()
    } else {
        let rest = with_suffix(files.drop_last(), suffix);
        if ends_with(files.last(), suffix) {
            rest.push(files.last())
        } else {
            rest
        }
    }
}

/// Filtering by suffix keeps exactly the files with that suffix: every file
/// kept ends with it and is in the list, and every file of the list that
/// ends with it is kept.
pub proof fn lemma_with_suffix(files: Seq<Seq<char>>, suffix: Seq<char>)
    ensures
        forall|i: int| 0 <= i < with_suffix(files, suffix).len() ==> ends_with(#[trigger] with_suffix(files, suffix)[i], suffix)
            && files.contains(with_suffix(files, suffix)[i]),
        forall|f: Seq<char>| #[trigger] files.contains(f) && ends_with(f, suffix) ==> with_suffix(files, suffix).contains(f),
    decreases files.len(),
{
    if files.len() > 0 {
        let t = files.drop_last();
        lemma_with_suffix(t, suffix);
        let rest = with_suffix(t, suffix);
        let r = with_suffix(files, suffix);
        assert forall|i: int| 0 <= i < r.len() implies ends_with(#[trigger] r[i], suffix) && files.contains(r[i]) by {
            if i < rest.len() {
                assert(r[i] == rest[i]);
                let k = choose|k: int| 0 <= k < t.len() && t[k] == rest[i];
                assert(files[k] == t[k]);
            } else {
                assert(r[i] == files.last());
                assert(files[files.len() - 1] == r[i]);
            }
        }
        assert forall|f: Seq<char>| #[trigger] files.contains(f) && ends_with(f, suffix) implies r.contains(f) by {
            let k = choose|k: int| 0 <= k < files.len() && files[k] == f;
            if k < t.len() {
                assert(t[k] == f);
                assert(t.contains(f));
                let j = choose|j: int| 0 <= j < rest.len() && rest[j] == f;
                assert(r[j] == f);
            } else {
                assert(r[r.len() - 1] == f);
            }
        }
    }
}

/// `true` or `false`, as the runner's outputs write a flag.
pub open spec fn flag_text(b: bool) -> Seq<char> {
    if b {
        "true"@
    } else {
        "false"@
    }
}

/// The files of a list whose names end with `suffix`, in order.
pub fn files_with_suffix(files: &Vec<String>, suffix: &str) -> (r: Vec<String>)
    ensures
        strings_view(r@) == with_suffix(strings_view(files@), suffix@),
{
    let mut out: Vec<String> = Vec::new();
    let mut i: usize = 0;
    while i < files.len()
        invariant
            i <= files.len(),
            strings_view(out@) == with_suffix(strings_view(files@).take(i as int), suffix@),
        decreases files.len() - i,
    {
        assert(strings_view(files@).take(i + 1).drop_last() =~= strings_view(files@).take(i as int));
        let f = chars_of(files[i].as_str());
        if ends_with_str(&f, suffix) {
            push_line(&mut out, files[i].as_str());
        }
        i += 1;
    }
    assert(strings_view(files@).take(files.len() as int) =~= strings_view(files@));
    out
}

fn flag_string(b: bool) -> (r: String)
    ensures
        r@ == flag_text(b),
{
    if b {
        copy_str("true")
    } else {
        copy_str("false")
    }
}

fn two_outputs(k1: &str, v1: bool, k2: &str, v2: bool) -> (r: Vec<(String, String)>)
    ensures
        rows_view(r@) == seq![(k1@, flag_text(v1)), (k2@, flag_text(v2))],
{
    let mut r: Vec<(String, String)> = Vec::new();
    r.push((copy_str(k1), flag_string(v1)));
    r.push((copy_str(k2), flag_string(v2)));
    assert(rows_view(r@) =~= seq![(k1@, flag_text(v1)), (k2@, flag_text(v2))]);
    r
}

// ---------------------------------------------------------------------------
// Writing the outputs
// ---------------------------------------------------------------------------

/// The last part of a run: a message was printed and the outputs follow, or
/// output `i` is being written.
pub enum Report {
    Printed(Vec<(String, String)>),
    Writing(Vec<(String, String)>, usize),
}

/// The view of the last part of a run.
pub enum ReportState {
    Printed(Seq<(Seq<char>, Seq<char>)>),
    Writing(Seq<(Seq<char>, Seq<char>)>, int),
}

impl View for Report {
    type V = ReportState;

    open spec fn view(&self) -> ReportState {
        match self {
            Report::Printed(o) => ReportState::Printed(rows_view(o@)),
            Report::Writing(o, i) => ReportState::Writing(rows_view(o@), *i as int),
        }
    }
}

/// Writing output `i`, or ending past the last.
pub open spec fn write_from(outs: Seq<(Seq<char>, Seq<char>)>, i: int) -> (ReportState, Act) {
    if 0 <= i < outs.len() {
        (ReportState::Writing(outs, i), Act::SetOutput(outs[i].0, outs[i].1))
    } else {
        (ReportState::Writing(outs, i), succeeded())
    }
}

/// The next step of the last part of a run.
pub open spec fn report_next(at: ReportState, reply: Reply) -> (ReportState, Act) {
    match at {
        ReportState::Printed(outs) => match reply {
            Reply::Done(Ok(())) => write_from(outs, 0),
            Reply::Done(Err(e)) => (at, failed(e@)),
            _ => (at, failed(unexpected_reply())),
        },
        ReportState::Writing(outs, i) => match reply {
            Reply::Done(Ok(())) => if 0 <= i && i + 1 < outs.len() {
                write_from(outs, i + 1)
            } else {
                (at, succeeded())
            },
            Reply::Done(Err(e)) => (at, failed(e@)),
            _ => (at, failed(unexpected_reply())),
        },
    }
}

fn write_output_at(outs: Vec<(String, String)>, i: usize) -> (r: (Report, Action))
    ensures
        (r.0@, r.1@) == write_from(rows_view(outs@), i as int),
{
    if i < outs.len() {
        let k = copy_str(outs[i].0.as_str());
        let v = copy_str(outs[i].1.as_str());
        (Report::Writing(outs, i), Action::SetOutput(k, v))
    } else {
        (Report::Writing(outs, i), finish_ok())
    }
}

fn report_step(at: Report, reply: Reply) -> (r: (Report, Action))
    ensures
        (r.0@, r.1@) == report_next(at@, reply),
{
    match at {
        Report::Printed(outs) => match reply {
            Reply::Done(Ok(())) => write_output_at(outs, 0),
            Reply::Done(Err(e)) => (Report::Printed(outs), fail(e)),
            _ => (Report::Printed(outs), fail_unexpected()),
        },
        Report::Writing(outs, i) => match reply {
            Reply::Done(Ok(())) => {
                if i >= outs.len() || i + 1 >= outs.len() {
                    return (Report::Writing(outs, i), finish_ok());
                }
                let (r2, a) = write_output_at(outs, i + 1);
                (r2, a)
            },
            Reply::Done(Err(e)) => (Report::Writing(outs, i), fail(e)),
            _ => (Report::Writing(outs, i), fail_unexpected()),
        },
    }
}

fn git_diff_quiet(worktree: &str) -> (r: Action)
    ensures
        r@ == Act::Tool("git"@, seq!["diff"@, "--quiet"@], worktree@, "git diff --quiet"@),
{
    Action::Tool(GitCli.has_diff(worktree))
}

// ---------------------------------------------------------------------------
// rustfmt
// ---------------------------------------------------------------------------

/// The command formatting the Rust files changed since `origin/<base-ref>`.
pub struct RustfmtAutomation {
    pub args: CommandArgs,
}

/// Where a `rustfmt` run stands.
pub enum FormatAt {
    Start,
    /// The changed files were asked, in the worktree.
    Diff(String),
    /// `rustfmt --check` ran on the files.
    Check(String, Vec<String>),
    /// `rustfmt` rewrote the files.
    Format(String),
    /// `git diff --quiet` ran.
    Quiet,
    Reporting(Report),
}

/// The view of where a `rustfmt` run stands.
pub enum FormatState {
    Start,
    Diff(Seq<char>),
    Check(Seq<char>, Seq<Seq<char>>),
    Format(Seq<char>),
    Quiet,
    Reporting(ReportState),
}

impl View for FormatAt {
    type V = FormatState;

    open spec fn view(&self) -> FormatState {
        match self {
            FormatAt::Start => FormatState::Start,
            FormatAt::Diff(w) => FormatState::Diff(w@),
            FormatAt::Check(w, f) => FormatState::Check(w@, strings_view(f@)),
            FormatAt::Format(w) => FormatState::Format(w@),
            FormatAt::Quiet => FormatState::Quiet,
            FormatAt::Reporting(r) => FormatState::Reporting(r@),
        }
    }
}

/// The outputs of a `rustfmt` run.
pub open spec fn format_outputs(needs_formatting: bool, has_changes: bool) -> Seq<(Seq<char>, Seq<char>)> {
    seq![("needs_formatting"@, flag_text(needs_formatting)), ("has_changes"@, flag_text(has_changes))]
}

/// Printing `message`, then writing the outputs of a run that changed
/// nothing.
pub open spec fn format_unchanged(message: Seq<char>) -> (FormatState, Act) {
    (FormatState::Reporting(ReportState::Printed(format_outputs(false, false))), Act::Print(message))
}

/// The next state and action of a `rustfmt` run.
pub open spec fn rustfmt_next(args: Seq<Seq<char>>, at: FormatState, reply: Reply) -> (FormatState, Act) {
    match at {
        FormatState::Start => {
            let base = flag_value_or(args, "--base-ref"@, "dev"@);
            let wt = flag_value_or(args, "--worktree"@, "."@);
            (FormatState::Diff(wt), Act::Tool("git"@, diff_args("origin/"@ + base + "..HEAD"@), wt, "git diff"@))
        },
        FormatState::Diff(wt) => match reply {
            Reply::Run(Ok(out)) => {
                let files = with_suffix(diff_files(out.success, out.stdout@), ".rs"@);
                if files.len() == 0 {
                    format_unchanged("No Rust files modified. Skipping formatting."@)
                } else {
                    (FormatState::Check(wt, files), Act::Tool("rustfmt"@, rustfmt_args(files, true), wt, "rustfmt"@))
                }
            },
            Reply::Run(Err(e)) => (at, failed(e@)),
            _ => (at, failed(unexpected_reply())),
        },
        FormatState::Check(wt, files) => match reply {
            Reply::Run(Ok(out)) => if out.success {
                format_unchanged("Rust files already formatted."@)
            } else if files.len() == 0 {
                (FormatState::Quiet, Act::Tool("git"@, seq!["diff"@, "--quiet"@], wt, "git diff --quiet"@))
            } else {
                (FormatState::Format(wt), Act::Tool("rustfmt"@, rustfmt_args(files, false), wt, "rustfmt"@))
            },
            Reply::Run(Err(e)) => (at, failed(e@)),
            _ => (at, failed(unexpected_reply())),
        },
        FormatState::Format(wt) => match reply {
            Reply::Run(Ok(_)) => (FormatState::Quiet, Act::Tool("git"@, seq!["diff"@, "--quiet"@], wt, "git diff --quiet"@)),
            Reply::Run(Err(e)) => (at, failed(e@)),
            _ => (at, failed(unexpected_reply())),
        },
        FormatState::Quiet => match reply {
            Reply::Run(Ok(out)) => {
                let w = write_from(format_outputs(true, !out.success), 0);
                (FormatState::Reporting(w.0), w.1)
            },
            Reply::Run(Err(e)) => (at, failed(e@)),
            _ => (at, failed(unexpected_reply())),
        },
        FormatState::Reporting(r) => {
            let n = report_next(r, reply);
            (FormatState::Reporting(n.0), n.1)
        },
    }
}

impl RustfmtAutomation {
    /// The command for the given arguments.
    pub fn new(args: CommandArgs) -> (r: Self)
        ensures
            r.args == args,
    {
        Self { args }
    }

    fn unchanged(&self, message: &str) -> (r: (FormatAt, Action))
        ensures
            (r.0@, r.1@) == format_unchanged(message@),
    {
        let outs = two_outputs("needs_formatting", false, "has_changes", false);
        (FormatAt::Reporting(Report::Printed(outs)), Action::Print(copy_str(message)))
    }

    /// One step of the run: `rustfmt --check` on the `.rs` files changed
    /// between `origin/<--base-ref>` (`dev` by default) and `HEAD` in the
    /// `--worktree` (`.` by default); when it fails, `rustfmt` on them and
    /// `git diff --quiet`. The outputs `needs_formatting` and `has_changes`
    /// say what was found.
    pub fn run(&self, at: FormatAt, reply: Reply) -> (r: (FormatAt, Action))
        ensures
            (r.0@, r.1@) == rustfmt_next(args_view(self.args.args@), at@, reply),
    {
        let git = GitCli;
        match at {
            FormatAt::Start => {
                let base = self.args.extract_flag_value_or("--base-ref", "dev");
                let wt = self.args.extract_flag_value_or("--worktree", ".");
                let range = concat3("origin/", base.as_str(), "..HEAD");
                let call = git.diff_name_only(wt.as_str(), range.as_str());
                (FormatAt::Diff(wt), Action::Tool(call))
            },
            FormatAt::Diff(wt) => match reply {
                Reply::Run(Ok(out)) => {
                    let files = files_with_suffix(&git.diff_files(&out), ".rs");
                    match git.rustfmt_files(wt.as_str(), &files, true) {
                        None => self.unchanged("No Rust files modified. Skipping formatting."),
                        Some(call) => (FormatAt::Check(wt, files), Action::Tool(call)),
                    }
                },
                Reply::Run(Err(e)) => (FormatAt::Diff(wt), fail(e)),
                _ => (FormatAt::Diff(wt), fail_unexpected()),
            },
            FormatAt::Check(wt, files) => match reply {
                Reply::Run(Ok(out)) => {
                    if out.success {
                        return self.unchanged("Rust files already formatted.");
                    }
                    match git.rustfmt_files(wt.as_str(), &files, false) {
                        Some(call) => (FormatAt::Format(wt), Action::Tool(call)),
                        None => (FormatAt::Quiet, git_diff_quiet(wt.as_str())),
                    }
                },
                Reply::Run(Err(e)) => (FormatAt::Check(wt, files), fail(e)),
                _ => (FormatAt::Check(wt, files), fail_unexpected()),
            },
            FormatAt::Format(wt) => match reply {
                Reply::Run(Ok(_)) => (FormatAt::Quiet, git_diff_quiet(wt.as_str())),
                Reply::Run(Err(e)) => (FormatAt::Format(wt), fail(e)),
                _ => (FormatAt::Format(wt), fail_unexpected()),
            },
            FormatAt::Quiet => match reply {
                Reply::Run(Ok(out)) => {
                    let outs = two_outputs("needs_formatting", true, "has_changes", !out.success);
                    let (r2, a) = write_output_at(outs, 0);
                    (FormatAt::Reporting(r2), a)
                },
                Reply::Run(Err(e)) => (FormatAt::Quiet, fail(e)),
                _ => (FormatAt::Quiet, fail_unexpected()),
            },
            FormatAt::Reporting(rep) => {
                let (r2, a) = report_step(rep, reply);
                (FormatAt::Reporting(r2), a)
            },
        }
    }
}

// ---------------------------------------------------------------------------
// markdownlint
// ---------------------------------------------------------------------------

/// The command linting the Markdown files changed since `--base-sha`.
pub struct MarkdownlintAutomation {
    pub args: CommandArgs,
}

/// Where a `markdownlint-cli2` run stands.
pub enum LintAt {
    Start,
    /// The changed files were asked, in the worktree.
    Diff(String),
    /// Whether candidate `i` is a file was asked; the kept ones follow.
    Exists(String, Vec<String>, Vec<String>, usize),
    /// The linter checked the files.
    Lint(String, Vec<String>),
    /// The fixing was announced.
    Announced(String, Vec<String>),
    /// The linter fixed the files.
    Fix(String),
    /// `git diff --quiet` ran.
    Quiet,
    Reporting(Report),
}

/// The view of where a `markdownlint-cli2` run stands.
pub enum LintState {
    Start,
    Diff(Seq<char>),
    Exists(Seq<char>, Seq<Seq<char>>, Seq<Seq<char>>, int),
    Lint(Seq<char>, Seq<Seq<char>>),
    Announced(Seq<char>, Seq<Seq<char>>),
    Fix(Seq<char>),
    Quiet,
    Reporting(ReportState),
}

impl View for LintAt {
    type V = LintState;

    open spec fn view(&self) -> LintState {
        match self {
            LintAt::Start => LintState::Start,
            LintAt::Diff(w) => LintState::Diff(w@),
            LintAt::Exists(w, c, k, i) => LintState::Exists(w@, strings_view(c@), strings_view(k@), *i as int),
            LintAt::Lint(w, f) => LintState::Lint(w@, strings_view(f@)),
            LintAt::Announced(w, f) => LintState::Announced(w@, strings_view(f@)),
            LintAt::Fix(w) => LintState::Fix(w@),
            LintAt::Quiet => LintState::Quiet,
            LintAt::Reporting(r) => LintState::Reporting(r@),
        }
    }
}

/// `pnpm dlx markdownlint-cli2 [--fix] <files>`.
pub open spec fn markdownlint_args(files: Seq<Seq<char>>, fix: bool) -> Seq<Seq<char>> {
    if fix {
        seq!["dlx"@, "markdownlint-cli2"@, "--fix"@] + files
    } else {
        seq!["dlx"@, "markdownlint-cli2"@] + files
    }
}

/// What an error calls the linter when it cannot be started.
pub open spec fn markdownlint_label() -> Seq<char> {
    "markdownlint-cli2 via pnpm"@
}

/// The outputs of a `markdownlint-cli2` run.
pub open spec fn lint_outputs(has_issues: bool, has_changes: bool) -> Seq<(Seq<char>, Seq<char>)> {
    seq![("has_issues"@, flag_text(has_issues)), ("has_changes"@, flag_text(has_changes))]
}

/// Printing `message`, then writing the outputs of a run that found
/// nothing.
pub open spec fn lint_clean(message: Seq<char>) -> (LintState, Act) {
    (LintState::Reporting(ReportState::Printed(lint_outputs(false, false))), Act::Print(message))
}

/// Checking candidate `i`, or, past the last, linting the kept files.
pub open spec fn lint_candidate(wt: Seq<char>, cands: Seq<Seq<char>>, kept: Seq<Seq<char>>, i: int) -> (LintState, Act) {
    if 0 <= i < cands.len() {
        (LintState::Exists(wt, cands, kept, i), Act::IsFile(wt, cands[i]))
    } else if kept.len() == 0 {
        lint_clean("No Markdown files modified. Skipping linting."@)
    } else {
        (LintState::Lint(wt, kept), Act::Tool("pnpm"@, markdownlint_args(kept, false), wt, markdownlint_label()))
    }
}

/// The next state and action of a `markdownlint-cli2` run.
pub open spec fn markdownlint_next(args: Seq<Seq<char>>, at: LintState, reply: Reply) -> (LintState, Act) {
    match at {
        LintState::Start => {
            let base = flag_value_or(args, "--base-sha"@, ""@);
            let wt = flag_value_or(args, "--worktree"@, "."@);
            if base.len() == 0 {
                (at, failed("Missing --base-sha"@))
            } else {
                (LintState::Diff(wt), Act::Tool("git"@, diff_filter_args(base + "..HEAD"@, "ACMRT"@), wt, "git diff"@))
            }
        },
        LintState::Diff(wt) => match reply {
            Reply::Run(Ok(out)) => lint_candidate(
                wt,
                with_suffix(diff_files(out.success, out.stdout@), ".md"@),
                Seq::<Seq<char>>::empty(),
                0,
            ),
            Reply::Run(Err(e)) => (at, failed(e@)),
            _ => (at, failed(unexpected_reply())),
        },
        LintState::Exists(wt, cands, kept, i) => match reply {
            Reply::Flag(Ok(is_file)) => if 0 <= i < cands.len() {
                lint_candidate(wt, cands, if is_file { kept.push(cands[i]) } else { kept }, i + 1)
            } else {
                (at, failed(unexpected_reply()))
            },
            Reply::Flag(Err(e)) => (at, failed(e@)),
            _ => (at, failed(unexpected_reply())),
        },
        LintState::Lint(wt, files) => match reply {
            Reply::Run(Ok(out)) => if out.success {
                lint_clean("Markdown files already clean."@)
            } else {
                (LintState::Announced(wt, files), Act::Print("Markdown issues detected. Applying automatic fixes."@))
            },
            Reply::Run(Err(e)) => (at, failed(e@)),
            _ => (at, failed(unexpected_reply())),
        },
        LintState::Announced(wt, files) => match reply {
            Reply::Done(Ok(())) => (LintState::Fix(wt), Act::Tool("pnpm"@, markdownlint_args(files, true), wt, markdownlint_label())),
            Reply::Done(Err(e)) => (at, failed(e@)),
            _ => (at, failed(unexpected_reply())),
        },
        LintState::Fix(wt) => match reply {
            Reply::Run(Ok(_)) => (LintState::Quiet, Act::Tool("git"@, seq!["diff"@, "--quiet"@], wt, "git diff --quiet"@)),
            Reply::Run(Err(e)) => (at, failed(e@)),
            _ => (at, failed(unexpected_reply())),
        },
        LintState::Quiet => match reply {
            Reply::Run(Ok(out)) => {
                let w = write_from(lint_outputs(true, !out.success), 0);
                (LintState::Reporting(w.0), w.1)
            },
            Reply::Run(Err(e)) => (at, failed(e@)),
            _ => (at, failed(unexpected_reply())),
        },
        LintState::Reporting(r) => {
            let n = report_next(r, reply);
            (LintState::Reporting(n.0), n.1)
        },
    }
}

impl MarkdownlintAutomation {
    /// The command for the given arguments.
    pub fn new(args: CommandArgs) -> (r: Self)
        ensures
            r.args == args,
    {
        Self { args }
    }

    /// The `git diff` naming the files added, copied, modified, renamed or
    /// retyped between `base_sha` and `HEAD`.
    pub fn list_modified_markdown_files(&self, worktree: &str, base_sha: &str) -> (r: ToolCall)
        ensures
            crate::git::tool_view(r) == ("git"@, diff_filter_args(base_sha@ + "..HEAD"@, "ACMRT"@), worktree@, "git diff"@),
    {
        let range = concat2(base_sha, "..HEAD");
        GitCli.diff_name_only_with_filter(worktree, range.as_str(), "ACMRT")
    }

    /// The linter run on files, fixing them when `fix` is set.
    pub fn run_markdownlint(&self, worktree: &str, files: &Vec<String>, fix: bool) -> (r: ToolCall)
        ensures
            crate::git::tool_view(r) == ("pnpm"@, markdownlint_args(strings_view(files@), fix), worktree@, markdownlint_label()),
    {
        let mut a: Vec<String> = Vec::new();
        push_line(&mut a, "dlx");
        push_line(&mut a, "markdownlint-cli2");
        if fix {
            push_line(&mut a, "--fix");
        }
        let ghost head = strings_view(a@);
        let mut i: usize = 0;
        while i < files.len()
            invariant
                i <= files.len(),
                strings_view(a@) == head + strings_view(files@).take(i as int),
            decreases files.len() - i,
        {
            push_line(&mut a, files[i].as_str());
            i += 1;
            assert(strings_view(files@).take(i as int) =~= strings_view(files@).take(i - 1).push(files@[i - 1]@));
        }
        assert(strings_view(files@).take(files.len() as int) =~= strings_view(files@));
        assert(strings_view(a@) =~= markdownlint_args(strings_view(files@), fix));
        ToolCall {
            program: copy_str("pnpm"),
            args: a,
            dir: copy_str(worktree),
            label: copy_str("markdownlint-cli2 via pnpm"),
        }
    }

    fn clean(&self, message: &str) -> (r: (LintAt, Action))
        ensures
            (r.0@, r.1@) == lint_clean(message@),
    {
        let outs = two_outputs("has_issues", false, "has_changes", false);
        (LintAt::Reporting(Report::Printed(outs)), Action::Print(copy_str(message)))
    }

    fn candidate(&self, wt: String, cands: Vec<String>, kept: Vec<String>, i: usize) -> (r: (LintAt, Action))
        ensures
            (r.0@, r.1@) == lint_candidate(wt@, strings_view(cands@), strings_view(kept@), i as int),
    {
        if i < cands.len() {
            let d = copy_str(wt.as_str());
            let f = copy_str(cands[i].as_str());
            return (LintAt::Exists(wt, cands, kept, i), Action::IsFile(d, f));
        }
        if kept.len() == 0 {
            return self.clean("No Markdown files modified. Skipping linting.");
        }
        let call = self.run_markdownlint(wt.as_str(), &kept, false);
        (LintAt::Lint(wt, kept), Action::Tool(call))
    }

    /// One step of the run: `pnpm dlx markdownlint-cli2` on the `.md` files
    /// that changed between `--base-sha` and `HEAD` and are still files in
    /// the `--worktree` (`.` by default); when it reports issues, the same
    /// with `--fix` and `git diff --quiet`. The outputs `has_issues` and
    /// `has_changes` say what was found.
    pub fn run(&self, at: LintAt, reply: Reply) -> (r: (LintAt, Action))
        ensures
            (r.0@, r.1@) == markdownlint_next(args_view(self.args.args@), at@, reply),
    {
        match at {
            LintAt::Start => {
                let base = self.args.extract_flag_value_or("--base-sha", "");
                let wt = self.args.extract_flag_value_or("--worktree", ".");
                if base.as_str().is_empty() {
                    return (LintAt::Start, fail(copy_str("Missing --base-sha")));
                }
                let call = self.list_modified_markdown_files(wt.as_str(), base.as_str());
                (LintAt::Diff(wt), Action::Tool(call))
            },
            LintAt::Diff(wt) => match reply {
                Reply::Run(Ok(out)) => {
                    let cands = files_with_suffix(&GitCli.diff_files(&out), ".md");
                    let kept: Vec<String> = Vec::new();
                    assert(strings_view(kept@) =~= Seq::<Seq<char>>::empty());
                    self.candidate(wt, cands, kept, 0)
                },
                Reply::Run(Err(e)) => (LintAt::Diff(wt), fail(e)),
                _ => (LintAt::Diff(wt), fail_unexpected()),
            },
            LintAt::Exists(wt, cands, kept, i) => match reply {
                Reply::Flag(Ok(is_file)) => {
                    if i >= cands.len() {
                        return (LintAt::Exists(wt, cands, kept, i), fail_unexpected());
                    }
                    let mut kept = kept;
                    if is_file {
                        push_line(&mut kept, cands[i].as_str());
                    }
                    self.candidate(wt, cands, kept, i + 1)
                },
                Reply::Flag(Err(e)) => (LintAt::Exists(wt, cands, kept, i), fail(e)),
                _ => (LintAt::Exists(wt, cands, kept, i), fail_unexpected()),
            },
            LintAt::Lint(wt, files) => match reply {
                Reply::Run(Ok(out)) => {
                    if out.success {
                        return self.clean("Markdown files already clean.");
                    }
                    let m = copy_str("Markdown issues detected. Applying automatic fixes.");
                    (LintAt::Announced(wt, files), Action::Print(m))
                },
                Reply::Run(Err(e)) => (LintAt::Lint(wt, files), fail(e)),
                _ => (LintAt::Lint(wt, files), fail_unexpected()),
            },
            LintAt::Announced(wt, files) => match reply {
                Reply::Done(Ok(())) => {
                    let call = self.run_markdownlint(wt.as_str(), &files, true);
                    (LintAt::Fix(wt), Action::Tool(call))
                },
                Reply::Done(Err(e)) => (LintAt::Announced(wt, files), fail(e)),
                _ => (LintAt::Announced(wt, files), fail_unexpected()),
            },
            LintAt::Fix(wt) => match reply {
                Reply::Run(Ok(_)) => (LintAt::Quiet, git_diff_quiet(wt.as_str())),
                Reply::Run(Err(e)) => (LintAt::Fix(wt), fail(e)),
                _ => (LintAt::Fix(wt), fail_unexpected()),
            },
            LintAt::Quiet => match reply {
                Reply::Run(Ok(out)) => {
                    let outs = two_outputs("has_issues", true, "has_changes", !out.success);
                    let (r2, a) = write_output_at(outs, 0);
                    (LintAt::Reporting(r2), a)
                },
                Reply::Run(Err(e)) => (LintAt::Quiet, fail(e)),
                _ => (LintAt::Quiet, fail_unexpected()),
            },
            LintAt::Reporting(rep) => {
                let (r2, a) = report_step(rep, reply);
                (LintAt::Reporting(r2), a)
            },
        }
    }
}

} // verus!
