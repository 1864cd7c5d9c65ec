//! The `done-in-dev` label: added to the issues a pull request merged into
//! `dev` closes, removed when an issue is closed, and removed from the issues
//! a pull request into `dev` reopens.

use vstd::prelude::*;

use crate::args::{
    args_view, flag_reference, flag_value, flag_value_or, opt_string_view, repo_choice, CommandArgs,
    FlagProblem,
};
use crate::github::{
    add_label_args, has_line, issue_details_args, issue_labels_args, label_list_args,
    nonempty_lines, pr_commits_args, pr_field_args, remove_label_args, reopen_args, GhExpect,
    GitHubCli,
};
use crate::json::string_member;
use crate::patterns::strings_view;
use crate::reference::{
    collected_references, show_number_of, text_lines, LineFilter, ReferenceKind, ReferenceNumber,
    ReferenceText,
};
use crate::text::{concat3, copy_str, decimal, lines, str_eq};
use crate::workflow::{fail, fail_unexpected, failed, gh, succeeded, unexpected_reply, Act, Action, Reply};

verus! {

/// The label of issues done in `dev`, by default.
pub const DONE_IN_DEV: &'static str = "done-in-dev";

/// The issue references of the selected lines of a pull request's title,
/// body and commit messages, each number once, in order.
pub open spec fn pr_issue_references(
    title: Seq<char>,
    body: Seq<char>,
    messages: Seq<Seq<char>>,
    filter: LineFilter,
) -> Seq<ReferenceNumber> {
    collected_references(lines(title) + lines(body) + messages, filter)
}

/// A field read that may fail, as text: empty on failure.
pub open spec fn text_or_empty(r: Result<String, String>) -> Seq<char> {
    match r {
        Ok(s) => s@,
        Err(_) => Seq::<char>::empty(),
    }
}

fn collect_pr_references(title: &str, body: &str, messages: &Vec<String>, filter: LineFilter) -> (r: Vec<
    ReferenceNumber,
>)
    ensures
        r@ == pr_issue_references(title@, body@, strings_view(messages@), filter),
{
    let mut all = text_lines(title);
    let b = text_lines(body);
    let ghost head = strings_view(all@);
    let mut i: usize = 0;
    while i < b.len()
        invariant
            i <= b.len(),
            strings_view(all@) == head + strings_view(b@).take(i as int),
        decreases b.len() - i,
    {
        crate::pr_body::push_string(&mut all, copy_str(b[i].as_str()));
        i += 1;
        assert(strings_view(b@).take(i as int) =~= strings_view(b@).take(i - 1).push(b@[i - 1]@));
    }
    assert(strings_view(b@).take(b.len() as int) =~= strings_view(b@));
    let ghost mid = strings_view(all@);
    let mut j: usize = 0;
    while j < messages.len()
        invariant
            j <= messages.len(),
            strings_view(all@) == mid + strings_view(messages@).take(j as int),
        decreases messages.len() - j,
    {
        crate::pr_body::push_string(&mut all, copy_str(messages[j].as_str()));
        j += 1;
        assert(strings_view(messages@).take(j as int) =~= strings_view(messages@).take(j - 1).push(
            messages@[j - 1]@,
        ));
    }
    assert(strings_view(messages@).take(messages.len() as int) =~= strings_view(messages@));
    ReferenceText::collect_issue_references(&all, filter)
}

fn label_text(prefix: &str, label: &str, suffix: &str) -> (r: String)
    ensures
        r@ == prefix@ + label@ + suffix@,
{
    concat3(prefix, label, suffix)
}

/// `Issue #<n><rest>`.
pub open spec fn issue_message(n: u64, rest: Seq<char>) -> Seq<char> {
    "Issue "@ + show_number_of(n) + rest
}

fn issue_text(r: &ReferenceNumber, rest: &str) -> (s: String)
    ensures
        s@ == issue_message(r.value, rest@),
{
    concat3("Issue ", r.show_number().as_str(), rest)
}

/// The repository, label and pull request or issue number of a run, and
/// whether the repository has the label.
pub struct DevContext {
    pub repo: String,
    pub label: String,
    pub number: String,
    pub label_exists: bool,
}

/// The view of a run's context.
pub struct DevCtx {
    pub repo: Seq<char>,
    pub label: Seq<char>,
    pub number: Seq<char>,
    pub label_exists: bool,
}

impl View for DevContext {
    type V = DevCtx;

    open spec fn view(&self) -> DevCtx {
        DevCtx { repo: self.repo@, label: self.label@, number: self.number@, label_exists: self.label_exists }
    }
}

// ---------------------------------------------------------------------------
// Marking issues done in dev
// ---------------------------------------------------------------------------

/// The command keeping the `done-in-dev` label.
pub struct DoneInDevStatus {
    pub args: CommandArgs,
}

/// Where a run stands.
pub enum DoneAt {
    Start,
    /// The repository's labels were asked.
    LabelList(DevContext),
    /// The pull request's state was asked.
    MergeState(DevContext),
    /// The title was asked.
    Title(DevContext),
    /// The body was asked; the title follows.
    Body(DevContext, String),
    /// The commit messages were asked; title and body follow.
    Commits(DevContext, String, String),
    /// The details of issue `i` were asked.
    Issue(DevContext, Vec<ReferenceNumber>, usize),
    /// The labels of issue `i` were asked.
    Labels(DevContext, Vec<ReferenceNumber>, usize),
    /// The label was added to issue `i`.
    Adding(DevContext, Vec<ReferenceNumber>, usize),
    /// A message about issue `i` was printed.
    Printed(DevContext, Vec<ReferenceNumber>, usize),
    /// The closed issue's details were asked.
    ClosedDetails(DevContext, ReferenceNumber),
    /// The closed issue's labels were asked.
    ClosedLabels(DevContext, ReferenceNumber),
    /// The label was removed from the closed issue.
    Removing(DevContext, ReferenceNumber),
    /// The last message was printed.
    Ending,
}

/// The view of where a run stands.
pub enum DoneState {
    Start,
    LabelList(DevCtx),
    MergeState(DevCtx),
    Title(DevCtx),
    Body(DevCtx, Seq<char>),
    Commits(DevCtx, Seq<char>, Seq<char>),
    Issue(DevCtx, Seq<ReferenceNumber>, int),
    Labels(DevCtx, Seq<ReferenceNumber>, int),
    Adding(DevCtx, Seq<ReferenceNumber>, int),
    Printed(DevCtx, Seq<ReferenceNumber>, int),
    ClosedDetails(DevCtx, ReferenceNumber),
    ClosedLabels(DevCtx, ReferenceNumber),
    Removing(DevCtx, ReferenceNumber),
    Ending,
}

impl View for DoneAt {
    type V = DoneState;

    open spec fn view(&self) -> DoneState {
        match self {
            DoneAt::Start => DoneState::Start,
            DoneAt::LabelList(c) => DoneState::LabelList(c@),
            DoneAt::MergeState(c) => DoneState::MergeState(c@),
            DoneAt::Title(c) => DoneState::Title(c@),
            DoneAt::Body(c, t) => DoneState::Body(c@, t@),
            DoneAt::Commits(c, t, b) => DoneState::Commits(c@, t@, b@),
            DoneAt::Issue(c, l, i) => DoneState::Issue(c@, l@, *i as int),
            DoneAt::Labels(c, l, i) => DoneState::Labels(c@, l@, *i as int),
            DoneAt::Adding(c, l, i) => DoneState::Adding(c@, l@, *i as int),
            DoneAt::Printed(c, l, i) => DoneState::Printed(c@, l@, *i as int),
            DoneAt::ClosedDetails(c, r) => DoneState::ClosedDetails(c@, *r),
            DoneAt::ClosedLabels(c, r) => DoneState::ClosedLabels(c@, *r),
            DoneAt::Removing(c, r) => DoneState::Removing(c@, *r),
            DoneAt::Ending => DoneState::Ending,
        }
    }
}

/// The message of a flag problem.
pub open spec fn problem_text(p: FlagProblem) -> Seq<char> {
    match p {
        FlagProblem::NoValue => "flag requires a value"@,
        FlagProblem::Absent => "flag is required"@,
    }
}

/// Going on with issue `i` of the list, or ending past the last.
pub open spec fn done_issue_step(c: DevCtx, l: Seq<ReferenceNumber>, i: int) -> (DoneState, Act) {
    if 0 <= i < l.len() {
        (DoneState::Issue(c, l, i), Act::Gh(issue_details_args(c.repo, decimal(l[i].value as nat)), GhExpect::Raw))
    } else {
        (DoneState::Ending, succeeded())
    }
}

/// The first step of the `on-dev-merge` mode: the state of the `--pr` pull
/// request is asked.
pub open spec fn dev_merge_start(args: Seq<Seq<char>>, c: DevCtx) -> (DoneState, Act) {
    match flag_reference(args, "--pr"@, Some(ReferenceKind::PullRequest)) {
        None => (DoneState::LabelList(c), failed("Invalid or missing pr."@)),
        Some(pr) => {
            let c2 = DevCtx { number: decimal(pr.value as nat), ..c };
            (DoneState::MergeState(c2), Act::Gh(pr_field_args(c.repo, c2.number, "state"@), GhExpect::Output))
        },
    }
}

/// The first step of the `on-issue-closed` mode: the details of the
/// `--issue` issue are asked.
pub open spec fn issue_closed_start(args: Seq<Seq<char>>, c: DevCtx) -> (DoneState, Act) {
    match flag_reference(args, "--issue"@, Some(ReferenceKind::Issue)) {
        None => (DoneState::LabelList(c), failed("Invalid or missing issue."@)),
        Some(issue) => (
            DoneState::ClosedDetails(c, issue),
            Act::Gh(issue_details_args(c.repo, decimal(issue.value as nat)), GhExpect::Raw),
        ),
    }
}

/// The next state and action of a run.
pub open spec fn done_next(
    args: Seq<Seq<char>>,
    gh_repo: Option<Seq<char>>,
    github_repository: Option<Seq<char>>,
    at: DoneState,
    reply: Reply,
) -> (DoneState, Act) {
    match at {
        DoneState::Start => match repo_choice(args, gh_repo, github_repository) {
            Err(e) => (at, failed(e)),
            Ok(repo) => {
                let c = DevCtx {
                    repo,
                    label: flag_value_or(args, "--label"@, DONE_IN_DEV@),
                    number: Seq::<char>::empty(),
                    label_exists: true,
                };
                (DoneState::LabelList(c), Act::Gh(label_list_args(repo), GhExpect::Output))
            },
        },
        DoneState::LabelList(c) => match reply {
            Reply::Text(Ok(out)) => if !has_line(lines(out@), c.label) {
                (
                    DoneState::Ending,
                    Act::Print("Label '"@ + c.label + "' does not exist in "@ + c.repo + "; skipping."@),
                )
            } else {
                match flag_value(args, "--mode"@) {
                    Err(p) => (at, failed(problem_text(p))),
                    Ok(mode) => if mode == "on-dev-merge"@ {
                        dev_merge_start(args, c)
                    } else if mode == "on-issue-closed"@ {
                        issue_closed_start(args, c)
                    } else {
                        (at, failed("Unsupported --mode '"@ + mode + "'. Expected on-dev-merge or on-issue-closed."@))
                    },
                }
            },
            Reply::Text(Err(e)) => (at, failed(e@)),
            _ => (at, failed(unexpected_reply())),
        },
        DoneState::MergeState(c) => match reply {
            Reply::Text(Ok(state)) => if state@ != "MERGED"@ {
                (DoneState::Ending, Act::Print("PR #"@ + c.number + " is not merged; nothing to do."@))
            } else {
                (DoneState::Title(c), Act::Gh(pr_field_args(c.repo, c.number, "title"@), GhExpect::Output))
            },
            Reply::Text(Err(e)) => (at, failed(e@)),
            _ => (at, failed(unexpected_reply())),
        },
        DoneState::Title(c) => match reply {
            Reply::Text(r) => (DoneState::Body(c, text_or_empty(r)), Act::Gh(pr_field_args(c.repo, c.number, "body"@), GhExpect::Output)),
            _ => (at, failed(unexpected_reply())),
        },
        DoneState::Body(c, t) => match reply {
            Reply::Text(r) => (DoneState::Commits(c, t, text_or_empty(r)), Act::Gh(pr_commits_args(c.repo, c.number), GhExpect::Output)),
            _ => (at, failed(unexpected_reply())),
        },
        DoneState::Commits(c, t, b) => match reply {
            Reply::Text(Ok(out)) => done_issue_step(
                c,
                pr_issue_references(t, b, nonempty_lines(lines(out@)), LineFilter::ClosingKeyword),
                0,
            ),
            Reply::Text(Err(e)) => (at, failed(e@)),
            _ => (at, failed(unexpected_reply())),
        },
        DoneState::Issue(c, l, i) => match reply {
            Reply::Details(Ok(None)) => done_issue_step(c, l, i + 1),
            Reply::Details(Ok(Some(d))) => if 0 <= i < l.len() {
                if string_member(d, "state"@) != "OPEN"@ {
                    (DoneState::Printed(c, l, i), Act::Print(issue_message(l[i].value, " is not open; skipping."@)))
                } else {
                    (DoneState::Labels(c, l, i), Act::Gh(issue_labels_args(c.repo, decimal(l[i].value as nat)), GhExpect::Output))
                }
            } else {
                (at, failed(unexpected_reply()))
            },
            Reply::Details(Err(e)) => (at, failed(e@)),
            _ => (at, failed(unexpected_reply())),
        },
        DoneState::Labels(c, l, i) => match reply {
            Reply::Text(Ok(out)) => if 0 <= i < l.len() {
                if has_line(lines(out@), c.label) {
                    (
                        DoneState::Printed(c, l, i),
                        Act::Print(issue_message(l[i].value, " already has '"@ + c.label + "'."@)),
                    )
                } else {
                    (
                        DoneState::Adding(c, l, i),
                        Act::Gh(add_label_args(c.repo, decimal(l[i].value as nat), c.label), GhExpect::Output),
                    )
                }
            } else {
                (at, failed(unexpected_reply()))
            },
            Reply::Text(Err(e)) => (at, failed(e@)),
            _ => (at, failed(unexpected_reply())),
        },
        DoneState::Adding(c, l, i) => match reply {
            Reply::Text(Ok(_)) => if 0 <= i < l.len() {
                (DoneState::Printed(c, l, i), Act::Print(issue_message(l[i].value, ": added '"@ + c.label + "'."@)))
            } else {
                (at, failed(unexpected_reply()))
            },
            Reply::Text(Err(e)) => (at, failed(e@)),
            _ => (at, failed(unexpected_reply())),
        },
        DoneState::Printed(c, l, i) => done_issue_step(c, l, i + 1),
        DoneState::ClosedDetails(c, issue) => match reply {
            Reply::Details(Ok(None)) => (at, failed(issue_message(issue.value, " was not found."@))),
            Reply::Details(Ok(Some(d))) => if string_member(d, "state"@) != "CLOSED"@ {
                (DoneState::Ending, Act::Print(issue_message(issue.value, " is not closed; nothing to do."@)))
            } else {
                (DoneState::ClosedLabels(c, issue), Act::Gh(issue_labels_args(c.repo, decimal(issue.value as nat)), GhExpect::Output))
            },
            Reply::Details(Err(e)) => (at, failed(e@)),
            _ => (at, failed(unexpected_reply())),
        },
        DoneState::ClosedLabels(c, issue) => match reply {
            Reply::Text(Ok(out)) => if has_line(lines(out@), c.label) {
                (
                    DoneState::Removing(c, issue),
                    Act::Gh(remove_label_args(c.repo, decimal(issue.value as nat), c.label), GhExpect::Output),
                )
            } else {
                (DoneState::Ending, Act::Print(issue_message(issue.value, " has no '"@ + c.label + "' label."@)))
            },
            Reply::Text(Err(e)) => (at, failed(e@)),
            _ => (at, failed(unexpected_reply())),
        },
        DoneState::Removing(c, issue) => match reply {
            Reply::Text(Ok(_)) => (DoneState::Ending, Act::Print(issue_message(issue.value, ": removed '"@ + c.label + "'."@))),
            Reply::Text(Err(e)) => (at, failed(e@)),
            _ => (at, failed(unexpected_reply())),
        },
        DoneState::Ending => (at, succeeded()),
    }
}

impl DoneInDevStatus {
    /// The command for the given arguments.
    pub fn new(args: CommandArgs) -> (r: Self)
        ensures
            r.args == args,
    {
        Self { args }
    }

    /// The value of `--mode`, or the message of its problem.
    pub fn resolve_mode(&self) -> (r: Result<String, String>)
        ensures
            match (r, flag_value(args_view(self.args.args@), "--mode"@)) {
                (Ok(a), Ok(b)) => a@ == b,
                (Err(a), Err(p)) => a@ == problem_text(p),
                _ => false,
            },
    {
        match self.args.flag_lookup("--mode") {
            Ok(v) => Ok(v),
            Err(FlagProblem::NoValue) => Err(copy_str("flag requires a value")),
            Err(FlagProblem::Absent) => Err(copy_str("flag is required")),
        }
    }

    /// The issues a pull request closes: the references on the lines of its
    /// title, body and commit messages that mention `closes` or `fixes`.
    pub fn read_closes_issue_numbers(&self, title: &str, body: &str, commit_messages: &Vec<String>) -> (r: Vec<
        ReferenceNumber,
    >)
        ensures
            r@ == pr_issue_references(title@, body@, strings_view(commit_messages@), LineFilter::ClosingKeyword),
    {
        collect_pr_references(title, body, commit_messages, LineFilter::ClosingKeyword)
    }

    fn issue_from(&self, c: DevContext, l: Vec<ReferenceNumber>, i: usize) -> (r: (DoneAt, Action))
        ensures
            (r.0@, r.1@) == done_issue_step(c@, l@, i as int),
    {
        if i < l.len() {
            let call = GitHubCli.issue_details_call(c.repo.as_str(), l[i].as_string().as_str());
            return (DoneAt::Issue(c, l, i), gh(call));
        }
        (DoneAt::Ending, crate::workflow::finish_ok())
    }

    /// The `on-dev-merge` mode, once the label is known to exist: asks
    /// whether the `--pr` pull request is merged; its closing references
    /// then get the label.
    pub fn on_dev_merge(&self, c: DevContext) -> (r: (DoneAt, Action))
        ensures
            (r.0@, r.1@) == dev_merge_start(args_view(self.args.args@), c@),
    {
        match self.args.extract_reference_number("--pr", Some(ReferenceKind::PullRequest)) {
            None => (DoneAt::LabelList(c), fail(copy_str("Invalid or missing pr."))),
            Some(pr) => {
                let n = pr.as_string();
                let call = GitHubCli.read_pull_request_field(c.repo.as_str(), n.as_str(), "state");
                (DoneAt::MergeState(DevContext { number: n, ..c }), gh(call))
            },
        }
    }

    /// The `on-issue-closed` mode, once the label is known to exist: asks
    /// for the `--issue` issue; when closed, the label is removed from it.
    pub fn on_issue_closed(&self, c: DevContext) -> (r: (DoneAt, Action))
        ensures
            (r.0@, r.1@) == issue_closed_start(args_view(self.args.args@), c@),
    {
        match self.args.extract_reference_number("--issue", Some(ReferenceKind::Issue)) {
            None => (DoneAt::LabelList(c), fail(copy_str("Invalid or missing issue."))),
            Some(issue) => {
                let call = GitHubCli.issue_details_call(c.repo.as_str(), issue.as_string().as_str());
                (DoneAt::ClosedDetails(c, issue), gh(call))
            },
        }
    }

    fn after_label_list(&self, c: DevContext, out: String) -> (r: (DoneAt, Action))
        ensures
            (r.0@, r.1@) == done_next(args_view(self.args.args@), None, None, DoneState::LabelList(c@), Reply::Text(Ok(out))),
    {
        let github = GitHubCli;
        if !github.label_exists(out.as_str(), c.label.as_str()) {
            let mut m = label_text("Label '", c.label.as_str(), "' does not exist in ");
            m.append(c.repo.as_str());
            m.append("; skipping.");
            return (DoneAt::Ending, Action::Print(m));
        }
        let mode = match self.resolve_mode() {
            Ok(m) => m,
            Err(e) => {
                return (DoneAt::LabelList(c), fail(e));
            },
        };
        if str_eq(mode.as_str(), "on-dev-merge") {
            self.on_dev_merge(c)
        } else if str_eq(mode.as_str(), "on-issue-closed") {
            self.on_issue_closed(c)
        } else {
            let m = concat3("Unsupported --mode '", mode.as_str(), "'. Expected on-dev-merge or on-issue-closed.");
            (DoneAt::LabelList(c), fail(m))
        }
    }

    /// One step of the run: when the repository has the `--label` label
    /// (`done-in-dev` by default), with `--mode on-dev-merge` adds it to the
    /// open issues the merged `--pr` pull request closes, and with `--mode
    /// on-issue-closed` removes it from the closed `--issue` issue.
    /// `gh_repo` and `github_repository` are the environment's `GH_REPO` and
    /// `GITHUB_REPOSITORY`.
    pub fn run(&self, gh_repo: Option<String>, github_repository: Option<String>, at: DoneAt, reply: Reply) -> (r: (
        DoneAt,
        Action,
    ))
        ensures
            (r.0@, r.1@) == done_next(
                args_view(self.args.args@),
                opt_string_view(gh_repo),
                opt_string_view(github_repository),
                at@,
                reply,
            ),
    {
        let github = GitHubCli;
        match at {
            DoneAt::Start => {
                let repo = match self.args.resolve_repo(gh_repo, github_repository) {
                    Ok(r) => r,
                    Err(e) => {
                        return (DoneAt::Start, fail(e));
                    },
                };
                let label = self.args.extract_flag_value_or("--label", DONE_IN_DEV);
                let call = github.label_list_call(repo.as_str());
                (DoneAt::LabelList(DevContext { repo, label, number: String::new(), label_exists: true }), gh(call))
            },
            DoneAt::LabelList(c) => match reply {
                Reply::Text(Ok(out)) => self.after_label_list(c, out),
                Reply::Text(Err(e)) => (DoneAt::LabelList(c), fail(e)),
                _ => (DoneAt::LabelList(c), fail_unexpected()),
            },
            DoneAt::MergeState(c) => match reply {
                Reply::Text(Ok(state)) => {
                    if !str_eq(state.as_str(), "MERGED") {
                        let m = concat3("PR #", c.number.as_str(), " is not merged; nothing to do.");
                        return (DoneAt::Ending, Action::Print(m));
                    }
                    let call = github.read_pull_request_field(c.repo.as_str(), c.number.as_str(), "title");
                    (DoneAt::Title(c), gh(call))
                },
                Reply::Text(Err(e)) => (DoneAt::MergeState(c), fail(e)),
                _ => (DoneAt::MergeState(c), fail_unexpected()),
            },
            DoneAt::Title(c) => match reply {
                Reply::Text(r) => {
                    let t = match r {
                        Ok(s) => s,
                        Err(_) => String::new(),
                    };
                    let call = github.read_pull_request_field(c.repo.as_str(), c.number.as_str(), "body");
                    (DoneAt::Body(c, t), gh(call))
                },
                _ => (DoneAt::Title(c), fail_unexpected()),
            },
            DoneAt::Body(c, t) => match reply {
                Reply::Text(r) => {
                    let b = match r {
                        Ok(s) => s,
                        Err(_) => String::new(),
                    };
                    let call = github.pull_request_commits_call(c.repo.as_str(), c.number.as_str());
                    (DoneAt::Commits(c, t, b), gh(call))
                },
                _ => (DoneAt::Body(c, t), fail_unexpected()),
            },
            DoneAt::Commits(c, t, b) => match reply {
                Reply::Text(Ok(out)) => {
                    let messages = github.read_pull_request_commit_messages(out.as_str());
                    let l = self.read_closes_issue_numbers(t.as_str(), b.as_str(), &messages);
                    self.issue_from(c, l, 0)
                },
                Reply::Text(Err(e)) => (DoneAt::Commits(c, t, b), fail(e)),
                _ => (DoneAt::Commits(c, t, b), fail_unexpected()),
            },
            DoneAt::Issue(c, l, i) => match reply {
                Reply::Details(Ok(None)) => {
                    if i >= l.len() {
                        return (DoneAt::Ending, crate::workflow::finish_ok());
                    }
                    self.issue_from(c, l, i + 1)
                },
                Reply::Details(Ok(Some(d))) => {
                    if i >= l.len() {
                        return (DoneAt::Issue(c, l, i), fail_unexpected());
                    }
                    let details = github.read_issue_details(&d);
                    if !str_eq(details.state.as_str(), "OPEN") {
                        let m = issue_text(&l[i], " is not open; skipping.");
                        return (DoneAt::Printed(c, l, i), Action::Print(m));
                    }
                    let call = github.issue_labels_call(c.repo.as_str(), l[i].as_string().as_str());
                    (DoneAt::Labels(c, l, i), gh(call))
                },
                Reply::Details(Err(e)) => (DoneAt::Issue(c, l, i), fail(e)),
                _ => (DoneAt::Issue(c, l, i), fail_unexpected()),
            },
            DoneAt::Labels(c, l, i) => match reply {
                Reply::Text(Ok(out)) => {
                    if i >= l.len() {
                        return (DoneAt::Labels(c, l, i), fail_unexpected());
                    }
                    if github.issue_has_label(out.as_str(), c.label.as_str()) {
                        let m = issue_text(&l[i], label_text(" already has '", c.label.as_str(), "'.").as_str());
                        return (DoneAt::Printed(c, l, i), Action::Print(m));
                    }
                    let call = github.add_issue_label(c.repo.as_str(), l[i].as_string().as_str(), c.label.as_str());
                    (DoneAt::Adding(c, l, i), gh(call))
                },
                Reply::Text(Err(e)) => (DoneAt::Labels(c, l, i), fail(e)),
                _ => (DoneAt::Labels(c, l, i), fail_unexpected()),
            },
            DoneAt::Adding(c, l, i) => match reply {
                Reply::Text(Ok(_)) => {
                    if i >= l.len() {
                        return (DoneAt::Adding(c, l, i), fail_unexpected());
                    }
                    let m = issue_text(&l[i], label_text(": added '", c.label.as_str(), "'.").as_str());
                    (DoneAt::Printed(c, l, i), Action::Print(m))
                },
                Reply::Text(Err(e)) => (DoneAt::Adding(c, l, i), fail(e)),
                _ => (DoneAt::Adding(c, l, i), fail_unexpected()),
            },
            DoneAt::Printed(c, l, i) => {
                if i >= l.len() {
                    return (DoneAt::Ending, crate::workflow::finish_ok());
                }
                self.issue_from(c, l, i + 1)
            },
            DoneAt::ClosedDetails(c, issue) => match reply {
                Reply::Details(Ok(None)) => (DoneAt::ClosedDetails(c, issue), fail(issue_text(&issue, " was not found."))),
                Reply::Details(Ok(Some(d))) => {
                    let details = github.read_issue_details(&d);
                    if !str_eq(details.state.as_str(), "CLOSED") {
                        return (DoneAt::Ending, Action::Print(issue_text(&issue, " is not closed; nothing to do.")));
                    }
                    let call = github.issue_labels_call(c.repo.as_str(), issue.as_string().as_str());
                    (DoneAt::ClosedLabels(c, issue), gh(call))
                },
                Reply::Details(Err(e)) => (DoneAt::ClosedDetails(c, issue), fail(e)),
                _ => (DoneAt::ClosedDetails(c, issue), fail_unexpected()),
            },
            DoneAt::ClosedLabels(c, issue) => match reply {
                Reply::Text(Ok(out)) => {
                    if github.issue_has_label(out.as_str(), c.label.as_str()) {
                        let call = github.remove_issue_label(c.repo.as_str(), issue.as_string().as_str(), c.label.as_str());
                        return (DoneAt::Removing(c, issue), gh(call));
                    }
                    let m = issue_text(&issue, label_text(" has no '", c.label.as_str(), "' label.").as_str());
                    (DoneAt::Ending, Action::Print(m))
                },
                Reply::Text(Err(e)) => (DoneAt::ClosedLabels(c, issue), fail(e)),
                _ => (DoneAt::ClosedLabels(c, issue), fail_unexpected()),
            },
            DoneAt::Removing(c, issue) => match reply {
                Reply::Text(Ok(_)) => {
                    let m = issue_text(&issue, label_text(": removed '", c.label.as_str(), "'.").as_str());
                    (DoneAt::Ending, Action::Print(m))
                },
                Reply::Text(Err(e)) => (DoneAt::Removing(c, issue), fail(e)),
                _ => (DoneAt::Removing(c, issue), fail_unexpected()),
            },
            DoneAt::Ending => (DoneAt::Ending, crate::workflow::finish_ok()),
        }
    }
}

// ---------------------------------------------------------------------------
// Reopening issues on dev
// ---------------------------------------------------------------------------

/// The command reopening the issues a pull request into `dev` reopens.
pub struct IssueReopenOnDev {
    pub args: CommandArgs,
}

/// Where a run stands.
pub enum ReopenAt {
    Start,
    /// The base branch was asked.
    Base(DevContext),
    /// The repository's labels were asked.
    LabelList(DevContext),
    /// The title was asked.
    Title(DevContext),
    /// The body was asked; the title follows.
    Body(DevContext, String),
    /// The commit messages were asked; title and body follow.
    Commits(DevContext, String, String),
    /// The details of issue `i` were asked.
    Issue(DevContext, Vec<ReferenceNumber>, usize),
    /// Issue `i` was reopened.
    Reopening(DevContext, Vec<ReferenceNumber>, usize),
    /// The state of issue `i` was reported.
    Reported(DevContext, Vec<ReferenceNumber>, usize),
    /// The labels of issue `i` were asked.
    Labels(DevContext, Vec<ReferenceNumber>, usize),
    /// The label was removed from issue `i`.
    Removing(DevContext, Vec<ReferenceNumber>, usize),
    /// The removal from issue `i` was reported.
    Removed(DevContext, Vec<ReferenceNumber>, usize),
    /// The last message was printed.
    Ending,
}

/// The view of where a run stands.
pub enum ReopenState {
    Start,
    Base(DevCtx),
    LabelList(DevCtx),
    Title(DevCtx),
    Body(DevCtx, Seq<char>),
    Commits(DevCtx, Seq<char>, Seq<char>),
    Issue(DevCtx, Seq<ReferenceNumber>, int),
    Reopening(DevCtx, Seq<ReferenceNumber>, int),
    Reported(DevCtx, Seq<ReferenceNumber>, int),
    Labels(DevCtx, Seq<ReferenceNumber>, int),
    Removing(DevCtx, Seq<ReferenceNumber>, int),
    Removed(DevCtx, Seq<ReferenceNumber>, int),
    Ending,
}

impl View for ReopenAt {
    type V = ReopenState;

    open spec fn view(&self) -> ReopenState {
        match self {
            ReopenAt::Start => ReopenState::Start,
            ReopenAt::Base(c) => ReopenState::Base(c@),
            ReopenAt::LabelList(c) => ReopenState::LabelList(c@),
            ReopenAt::Title(c) => ReopenState::Title(c@),
            ReopenAt::Body(c, t) => ReopenState::Body(c@, t@),
            ReopenAt::Commits(c, t, b) => ReopenState::Commits(c@, t@, b@),
            ReopenAt::Issue(c, l, i) => ReopenState::Issue(c@, l@, *i as int),
            ReopenAt::Reopening(c, l, i) => ReopenState::Reopening(c@, l@, *i as int),
            ReopenAt::Reported(c, l, i) => ReopenState::Reported(c@, l@, *i as int),
            ReopenAt::Labels(c, l, i) => ReopenState::Labels(c@, l@, *i as int),
            ReopenAt::Removing(c, l, i) => ReopenState::Removing(c@, l@, *i as int),
            ReopenAt::Removed(c, l, i) => ReopenState::Removed(c@, l@, *i as int),
            ReopenAt::Ending => ReopenState::Ending,
        }
    }
}

/// Going on with issue `i` of the list, or ending past the last.
pub open spec fn reopen_issue_step(c: DevCtx, l: Seq<ReferenceNumber>, i: int) -> (ReopenState, Act) {
    if 0 <= i < l.len() {
        (ReopenState::Issue(c, l, i), Act::Gh(issue_details_args(c.repo, decimal(l[i].value as nat)), GhExpect::Raw))
    } else {
        (ReopenState::Ending, succeeded())
    }
}

/// After the state of issue `i` is settled: check its labels when the
/// repository has the label.
pub open spec fn reopen_label_step(c: DevCtx, l: Seq<ReferenceNumber>, i: int) -> (ReopenState, Act) {
    if c.label_exists && 0 <= i < l.len() {
        (ReopenState::Labels(c, l, i), Act::Gh(issue_labels_args(c.repo, decimal(l[i].value as nat)), GhExpect::Output))
    } else {
        reopen_issue_step(c, l, i + 1)
    }
}

/// The next state and action of a run.
pub open spec fn reopen_next(
    args: Seq<Seq<char>>,
    gh_repo: Option<Seq<char>>,
    github_repository: Option<Seq<char>>,
    at: ReopenState,
    reply: Reply,
) -> (ReopenState, Act) {
    match at {
        ReopenState::Start => match repo_choice(args, gh_repo, github_repository) {
            Err(e) => (at, failed(e)),
            Ok(repo) => match flag_reference(args, "--pr"@, Some(ReferenceKind::PullRequest)) {
                None => (at, failed("Invalid or missing pr."@)),
                Some(pr) => {
                    let c = DevCtx {
                        repo,
                        label: flag_value_or(args, "--label"@, DONE_IN_DEV@),
                        number: decimal(pr.value as nat),
                        label_exists: false,
                    };
                    (ReopenState::Base(c), Act::Gh(pr_field_args(repo, c.number, "baseRefName"@), GhExpect::Output))
                },
            },
        },
        ReopenState::Base(c) => match reply {
            Reply::Text(Ok(base)) => if base@ != "dev"@ {
                (ReopenState::Ending, Act::Print("PR #"@ + c.number + " does not target dev; nothing to do."@))
            } else {
                (ReopenState::LabelList(c), Act::Gh(label_list_args(c.repo), GhExpect::Output))
            },
            Reply::Text(Err(e)) => (at, failed(e@)),
            _ => (at, failed(unexpected_reply())),
        },
        ReopenState::LabelList(c) => match reply {
            Reply::Text(Ok(out)) => {
                let c2 = DevCtx { label_exists: has_line(lines(out@), c.label), ..c };
                (ReopenState::Title(c2), Act::Gh(pr_field_args(c.repo, c.number, "title"@), GhExpect::Output))
            },
            Reply::Text(Err(e)) => (at, failed(e@)),
            _ => (at, failed(unexpected_reply())),
        },
        ReopenState::Title(c) => match reply {
            Reply::Text(r) => (ReopenState::Body(c, text_or_empty(r)), Act::Gh(pr_field_args(c.repo, c.number, "body"@), GhExpect::Output)),
            _ => (at, failed(unexpected_reply())),
        },
        ReopenState::Body(c, t) => match reply {
            Reply::Text(r) => (ReopenState::Commits(c, t, text_or_empty(r)), Act::Gh(pr_commits_args(c.repo, c.number), GhExpect::Output)),
            _ => (at, failed(unexpected_reply())),
        },
        ReopenState::Commits(c, t, b) => match reply {
            Reply::Text(Ok(out)) => reopen_issue_step(
                c,
                pr_issue_references(t, b, nonempty_lines(lines(out@)), LineFilter::Reopen),
                0,
            ),
            Reply::Text(Err(e)) => (at, failed(e@)),
            _ => (at, failed(unexpected_reply())),
        },
        ReopenState::Issue(c, l, i) => match reply {
            Reply::Details(Ok(None)) => reopen_issue_step(c, l, i + 1),
            Reply::Details(Ok(Some(d))) => if 0 <= i < l.len() {
                if string_member(d, "state"@) == "CLOSED"@ {
                    (ReopenState::Reopening(c, l, i), Act::Gh(reopen_args(c.repo, decimal(l[i].value as nat)), GhExpect::Output))
                } else {
                    (ReopenState::Reported(c, l, i), Act::Print(issue_message(l[i].value, ": already open."@)))
                }
            } else {
                (at, failed(unexpected_reply()))
            },
            Reply::Details(Err(e)) => (at, failed(e@)),
            _ => (at, failed(unexpected_reply())),
        },
        ReopenState::Reopening(c, l, i) => match reply {
            Reply::Text(Ok(_)) => if 0 <= i < l.len() {
                (ReopenState::Reported(c, l, i), Act::Print(issue_message(l[i].value, ": reopened."@)))
            } else {
                (at, failed(unexpected_reply()))
            },
            Reply::Text(Err(e)) => (at, failed(e@)),
            _ => (at, failed(unexpected_reply())),
        },
        ReopenState::Reported(c, l, i) => reopen_label_step(c, l, i),
        ReopenState::Labels(c, l, i) => match reply {
            Reply::Text(Ok(out)) => if 0 <= i < l.len() {
                if has_line(lines(out@), c.label) {
                    (
                        ReopenState::Removing(c, l, i),
                        Act::Gh(remove_label_args(c.repo, decimal(l[i].value as nat), c.label), GhExpect::Output),
                    )
                } else {
                    reopen_issue_step(c, l, i + 1)
                }
            } else {
                (at, failed(unexpected_reply()))
            },
            Reply::Text(Err(e)) => (at, failed(e@)),
            _ => (at, failed(unexpected_reply())),
        },
        ReopenState::Removing(c, l, i) => match reply {
            Reply::Text(Ok(_)) => if 0 <= i < l.len() {
                (ReopenState::Removed(c, l, i), Act::Print(issue_message(l[i].value, ": removed '"@ + c.label + "'."@)))
            } else {
                (at, failed(unexpected_reply()))
            },
            Reply::Text(Err(e)) => (at, failed(e@)),
            _ => (at, failed(unexpected_reply())),
        },
        ReopenState::Removed(c, l, i) => reopen_issue_step(c, l, i + 1),
        ReopenState::Ending => (at, succeeded()),
    }
}

impl IssueReopenOnDev {
    /// The command for the given arguments.
    pub fn new(args: CommandArgs) -> (r: Self)
        ensures
            r.args == args,
    {
        Self { args }
    }

    /// The issues a pull request reopens: the references on the lines of its
    /// title, body and commit messages that mention `reopen`.
    pub fn read_reopen_issue_numbers(&self, title: &str, body: &str, commit_messages: &Vec<String>) -> (r: Vec<
        ReferenceNumber,
    >)
        ensures
            r@ == pr_issue_references(title@, body@, strings_view(commit_messages@), LineFilter::Reopen),
    {
        collect_pr_references(title, body, commit_messages, LineFilter::Reopen)
    }

    fn issue_from(&self, c: DevContext, l: Vec<ReferenceNumber>, i: usize) -> (r: (ReopenAt, Action))
        ensures
            (r.0@, r.1@) == reopen_issue_step(c@, l@, i as int),
    {
        if i < l.len() {
            let call = GitHubCli.issue_details_call(c.repo.as_str(), l[i].as_string().as_str());
            return (ReopenAt::Issue(c, l, i), gh(call));
        }
        (ReopenAt::Ending, crate::workflow::finish_ok())
    }

    fn next_issue(&self, c: DevContext, l: Vec<ReferenceNumber>, i: usize) -> (r: (ReopenAt, Action))
        ensures
            (r.0@, r.1@) == reopen_issue_step(c@, l@, i + 1),
    {
        if i >= l.len() {
            return (ReopenAt::Ending, crate::workflow::finish_ok());
        }
        self.issue_from(c, l, i + 1)
    }

    /// One step of the run: for a `--pr` pull request into `dev`, reopens the
    /// closed issues it reopens and removes the `--label` label
    /// (`done-in-dev` by default) from them when the repository has it.
    /// `gh_repo` and `github_repository` are the environment's `GH_REPO` and
    /// `GITHUB_REPOSITORY`.
    pub fn run(&self, gh_repo: Option<String>, github_repository: Option<String>, at: ReopenAt, reply: Reply) -> (r: (
        ReopenAt,
        Action,
    ))
        ensures
            (r.0@, r.1@) == reopen_next(
                args_view(self.args.args@),
                opt_string_view(gh_repo),
                opt_string_view(github_repository),
                at@,
                reply,
            ),
    {
        let github = GitHubCli;
        match at {
            ReopenAt::Start => {
                let repo = match self.args.resolve_repo(gh_repo, github_repository) {
                    Ok(r) => r,
                    Err(e) => {
                        return (ReopenAt::Start, fail(e));
                    },
                };
                let label = self.args.extract_flag_value_or("--label", DONE_IN_DEV);
                let pr = match self.args.extract_reference_number("--pr", Some(ReferenceKind::PullRequest)) {
                    Some(p) => p,
                    None => {
                        return (ReopenAt::Start, fail(copy_str("Invalid or missing pr.")));
                    },
                };
                let n = pr.as_string();
                let call = github.read_pull_request_field(repo.as_str(), n.as_str(), "baseRefName");
                (ReopenAt::Base(DevContext { repo, label, number: n, label_exists: false }), gh(call))
            },
            ReopenAt::Base(c) => match reply {
                Reply::Text(Ok(base)) => {
                    if !str_eq(base.as_str(), "dev") {
                        let m = concat3("PR #", c.number.as_str(), " does not target dev; nothing to do.");
                        return (ReopenAt::Ending, Action::Print(m));
                    }
                    let call = github.label_list_call(c.repo.as_str());
                    (ReopenAt::LabelList(c), gh(call))
                },
                Reply::Text(Err(e)) => (ReopenAt::Base(c), fail(e)),
                _ => (ReopenAt::Base(c), fail_unexpected()),
            },
            ReopenAt::LabelList(c) => match reply {
                Reply::Text(Ok(out)) => {
                    let exists = github.label_exists(out.as_str(), c.label.as_str());
                    let call = github.read_pull_request_field(c.repo.as_str(), c.number.as_str(), "title");
                    (ReopenAt::Title(DevContext { label_exists: exists, ..c }), gh(call))
                },
                Reply::Text(Err(e)) => (ReopenAt::LabelList(c), fail(e)),
                _ => (ReopenAt::LabelList(c), fail_unexpected()),
            },
            ReopenAt::Title(c) => match reply {
                Reply::Text(r) => {
                    let t = match r {
                        Ok(s) => s,
                        Err(_) => String::new(),
                    };
                    let call = github.read_pull_request_field(c.repo.as_str(), c.number.as_str(), "body");
                    (ReopenAt::Body(c, t), gh(call))
                },
                _ => (ReopenAt::Title(c), fail_unexpected()),
            },
            ReopenAt::Body(c, t) => match reply {
                Reply::Text(r) => {
                    let b = match r {
                        Ok(s) => s,
                        Err(_) => String::new(),
                    };
                    let call = github.pull_request_commits_call(c.repo.as_str(), c.number.as_str());
                    (ReopenAt::Commits(c, t, b), gh(call))
                },
                _ => (ReopenAt::Body(c, t), fail_unexpected()),
            },
            ReopenAt::Commits(c, t, b) => match reply {
                Reply::Text(Ok(out)) => {
                    let messages = github.read_pull_request_commit_messages(out.as_str());
                    let l = self.read_reopen_issue_numbers(t.as_str(), b.as_str(), &messages);
                    self.issue_from(c, l, 0)
                },
                Reply::Text(Err(e)) => (ReopenAt::Commits(c, t, b), fail(e)),
                _ => (ReopenAt::Commits(c, t, b), fail_unexpected()),
            },
            ReopenAt::Issue(c, l, i) => match reply {
                Reply::Details(Ok(None)) => self.next_issue(c, l, i),
                Reply::Details(Ok(Some(d))) => {
                    if i >= l.len() {
                        return (ReopenAt::Issue(c, l, i), fail_unexpected());
                    }
                    let details = github.read_issue_details(&d);
                    if str_eq(details.state.as_str(), "CLOSED") {
                        let call = github.reopen_issue(c.repo.as_str(), l[i].as_string().as_str());
                        return (ReopenAt::Reopening(c, l, i), gh(call));
                    }
                    let m = issue_text(&l[i], ": already open.");
                    (ReopenAt::Reported(c, l, i), Action::Print(m))
                },
                Reply::Details(Err(e)) => (ReopenAt::Issue(c, l, i), fail(e)),
                _ => (ReopenAt::Issue(c, l, i), fail_unexpected()),
            },
            ReopenAt::Reopening(c, l, i) => match reply {
                Reply::Text(Ok(_)) => {
                    if i >= l.len() {
                        return (ReopenAt::Reopening(c, l, i), fail_unexpected());
                    }
                    let m = issue_text(&l[i], ": reopened.");
                    (ReopenAt::Reported(c, l, i), Action::Print(m))
                },
                Reply::Text(Err(e)) => (ReopenAt::Reopening(c, l, i), fail(e)),
                _ => (ReopenAt::Reopening(c, l, i), fail_unexpected()),
            },
            ReopenAt::Reported(c, l, i) => {
                if c.label_exists && i < l.len() {
                    let call = github.issue_labels_call(c.repo.as_str(), l[i].as_string().as_str());
                    return (ReopenAt::Labels(c, l, i), gh(call));
                }
                self.next_issue(c, l, i)
            },
            ReopenAt::Labels(c, l, i) => match reply {
                Reply::Text(Ok(out)) => {
                    if i >= l.len() {
                        return (ReopenAt::Labels(c, l, i), fail_unexpected());
                    }
                    if github.issue_has_label(out.as_str(), c.label.as_str()) {
                        let call = github.remove_issue_label(c.repo.as_str(), l[i].as_string().as_str(), c.label.as_str());
                        return (ReopenAt::Removing(c, l, i), gh(call));
                    }
                    self.next_issue(c, l, i)
                },
                Reply::Text(Err(e)) => (ReopenAt::Labels(c, l, i), fail(e)),
                _ => (ReopenAt::Labels(c, l, i), fail_unexpected()),
            },
            ReopenAt::Removing(c, l, i) => match reply {
                Reply::Text(Ok(_)) => {
                    if i >= l.len() {
                        return (ReopenAt::Removing(c, l, i), fail_unexpected());
                    }
                    let m = issue_text(&l[i], label_text(": removed '", c.label.as_str(), "'.").as_str());
                    (ReopenAt::Removed(c, l, i), Action::Print(m))
                },
                Reply::Text(Err(e)) => (ReopenAt::Removing(c, l, i), fail(e)),
                _ => (ReopenAt::Removing(c, l, i), fail_unexpected()),
            },
            ReopenAt::Removed(c, l, i) => self.next_issue(c, l, i),
            ReopenAt::Ending => (ReopenAt::Ending, crate::workflow::finish_ok()),
        }
    }
}

} // verus!
