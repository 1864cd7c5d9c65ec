//! The breaking-change analysis of a branch range, and the refresh of a pull
//! request's `Validation Gate` section.

use vstd::prelude::*;

use crate::args::{args_view, flag_reference, flag_value_or, opt_string_view, repo_choice, CommandArgs};
use crate::breaking::{
    analysis_of, gate_replaced, gate_text, inferred_scopes, sorted_dedup_of, BreakingChangeAnalysis,
    ValidationGateState,
};
use crate::git::{diff_args, diff_files, fetch_args, log_args, log_records, GitCli};
use crate::github::{edit_body_args, pr_field_args, GhExpect, GitHubCli};
use crate::patterns::strings_view;
use crate::reference::ReferenceKind;
use crate::text::{concat2, concat3, decimal, str_eq};
use crate::workflow::{fail, fail_unexpected, failed, gh, succeeded, unexpected_reply, Act, Action, Reply};

verus! {

/// `origin/<base>..origin/<head>`.
pub open spec fn branch_range(base: Seq<char>, head: Seq<char>) -> Seq<char> {
    "origin/"@ + base + "..origin/"@ + head
}

/// The view of an analysis: whether it is breaking, its scopes and commits.
pub open spec fn analysis_view(a: BreakingChangeAnalysis) -> (bool, Seq<Seq<char>>, Seq<Seq<char>>) {
    (a.is_breaking, strings_view(a.scopes@), strings_view(a.commits@))
}

/// Where an analysis stands.
pub enum AnalyzeAt {
    /// Nothing asked yet.
    Begin,
    /// The log of the range was asked.
    Log,
    /// The changed files were asked to infer the scopes of the analysis.
    Diff(BreakingChangeAnalysis),
}

/// The view of where an analysis stands.
pub enum AnalyzeState {
    Begin,
    Log,
    Diff((bool, Seq<Seq<char>>, Seq<Seq<char>>)),
}

impl View for AnalyzeAt {
    type V = AnalyzeState;

    open spec fn view(&self) -> AnalyzeState {
        match self {
            AnalyzeAt::Begin => AnalyzeState::Begin,
            AnalyzeAt::Log => AnalyzeState::Log,
            AnalyzeAt::Diff(a) => AnalyzeState::Diff(analysis_view(*a)),
        }
    }
}

/// A step of an analysis: the next state and action, or the result.
pub enum Analyzed {
    Next(AnalyzeAt, Action),
    Done(BreakingChangeAnalysis),
}

/// The view of a step of an analysis.
pub enum AnalyzedV {
    Next(AnalyzeState, Act),
    Done((bool, Seq<Seq<char>>, Seq<Seq<char>>)),
}

impl View for Analyzed {
    type V = AnalyzedV;

    open spec fn view(&self) -> AnalyzedV {
        match self {
            Analyzed::Next(at, act) => AnalyzedV::Next(at@, act@),
            Analyzed::Done(a) => AnalyzedV::Done(analysis_view(*a)),
        }
    }
}

/// Whether `res` may be the step of an analysis of the range `base..head`
/// run in `worktree`: the breaking commits of the log, and, for a breaking
/// change without scopes, the scopes inferred from the changed files, sorted
/// and each once.
#[verifier::opaque]
pub open spec fn analyze_step(
    worktree: Seq<char>,
    base: Seq<char>,
    head: Seq<char>,
    at: AnalyzeState,
    reply: Reply,
    res: AnalyzedV,
) -> bool {
    let range = branch_range(base, head);
    match at {
        AnalyzeState::Begin => res == AnalyzedV::Next(
            AnalyzeState::Log,
            Act::Tool("git"@, log_args(range), worktree, "git log"@),
        ),
        AnalyzeState::Log => match reply {
            Reply::Run(Ok(out)) => {
                let a = analysis_of(log_records(out.success, out.stdout@));
                if a.0 && a.1.len() == 0 {
                    res == AnalyzedV::Next(
                        AnalyzeState::Diff(a),
                        Act::Tool("git"@, diff_args(range), worktree, "git diff"@),
                    )
                } else {
                    res == AnalyzedV::Done(a)
                }
            },
            Reply::Run(Err(e)) => res == AnalyzedV::Next(at, failed(e@)),
            _ => res == AnalyzedV::Next(at, failed(unexpected_reply())),
        },
        AnalyzeState::Diff(a) => match reply {
            Reply::Run(Ok(out)) => match res {
                AnalyzedV::Done(b) => b.0 == a.0 && b.2 == a.2 && if a.0 && a.1.len() == 0 {
                    sorted_dedup_of(b.1, inferred_scopes(diff_files(out.success, out.stdout@)))
                } else {
                    b.1 == a.1
                },
                _ => false,
            },
            Reply::Run(Err(e)) => res == AnalyzedV::Next(at, failed(e@)),
            _ => res == AnalyzedV::Next(at, failed(unexpected_reply())),
        },
    }
}

impl BreakingChangeAnalysis {
    /// One step of the analysis of the range `origin/<base>..origin/<head>`
    /// in `worktree`: reads the log, keeps the commits announcing a breaking
    /// change with the scopes their subjects name, and infers the scopes from
    /// the changed files when none is named.
    pub fn analyze(worktree: &str, base_ref: &str, head_ref: &str, at: AnalyzeAt, reply: Reply) -> (r:
        Analyzed)
        ensures
            analyze_step(worktree@, base_ref@, head_ref@, at@, reply, r@),
    {
        reveal(analyze_step);
        let git = GitCli;
        let mut range = concat3("origin/", base_ref, "..origin/");
        range.append(head_ref);
        match at {
            AnalyzeAt::Begin => Analyzed::Next(AnalyzeAt::Log, Action::Tool(git.log_call(worktree, range.as_str()))),
            AnalyzeAt::Log => match reply {
                Reply::Run(Ok(out)) => {
                    let records = git.log_commit_records(&out);
                    let a = Self::from_commit_records(&records);
                    if a.is_breaking && a.scopes.len() == 0 {
                        let call = git.diff_name_only(worktree, range.as_str());
                        Analyzed::Next(AnalyzeAt::Diff(a), Action::Tool(call))
                    } else {
                        Analyzed::Done(a)
                    }
                },
                Reply::Run(Err(e)) => Analyzed::Next(AnalyzeAt::Log, fail(e)),
                _ => Analyzed::Next(AnalyzeAt::Log, fail_unexpected()),
            },
            AnalyzeAt::Diff(a) => match reply {
                Reply::Run(Ok(out)) => {
                    let files = git.diff_files(&out);
                    Analyzed::Done(a.with_inferred_scopes(&files))
                },
                Reply::Run(Err(e)) => Analyzed::Next(AnalyzeAt::Diff(a), fail(e)),
                _ => Analyzed::Next(AnalyzeAt::Diff(a), fail_unexpected()),
            },
        }
    }
}

// ---------------------------------------------------------------------------
// Refreshing the validation gate of a pull request
// ---------------------------------------------------------------------------

/// The command refreshing a pull request's validation gate.
pub struct PrValidationRefresh {
    pub args: CommandArgs,
}

/// Where a refresh stands; each state after the first carries the
/// repository and the pull request number.
pub enum RefreshAt {
    Start,
    /// The base branch was asked.
    Base(String, String),
    /// The head branch was asked; the base follows.
    Head(String, String, String),
    /// Both branches are being fetched; base and head follow.
    Fetch(String, String, String, String),
    /// The body was asked; base and head follow.
    Body(String, String, String, String),
    /// The analysis runs; base, head and body follow.
    Analyzing(String, String, String, String, String, AnalyzeAt),
    /// The new body was sent.
    Updating(String, String),
    /// The last message was printed.
    Ending,
}

/// The view of where a refresh stands.
pub enum RefreshState {
    Start,
    Base(Seq<char>, Seq<char>),
    Head(Seq<char>, Seq<char>, Seq<char>),
    Fetch(Seq<char>, Seq<char>, Seq<char>, Seq<char>),
    Body(Seq<char>, Seq<char>, Seq<char>, Seq<char>),
    Analyzing(Seq<char>, Seq<char>, Seq<char>, Seq<char>, Seq<char>, AnalyzeState),
    Updating(Seq<char>, Seq<char>),
    Ending,
}

impl View for RefreshAt {
    type V = RefreshState;

    open spec fn view(&self) -> RefreshState {
        match self {
            RefreshAt::Start => RefreshState::Start,
            RefreshAt::Base(r, p) => RefreshState::Base(r@, p@),
            RefreshAt::Head(r, p, b) => RefreshState::Head(r@, p@, b@),
            RefreshAt::Fetch(r, p, b, h) => RefreshState::Fetch(r@, p@, b@, h@),
            RefreshAt::Body(r, p, b, h) => RefreshState::Body(r@, p@, b@, h@),
            RefreshAt::Analyzing(r, p, b, h, body, at) => RefreshState::Analyzing(r@, p@, b@, h@, body@, at@),
            RefreshAt::Updating(r, p) => RefreshState::Updating(r@, p@),
            RefreshAt::Ending => RefreshState::Ending,
        }
    }
}

/// The body with its validation gate rewritten for an analysis.
#[verifier::opaque]
pub open spec fn refreshed_body(body: Seq<char>, a: (bool, Seq<Seq<char>>, Seq<Seq<char>>)) -> Seq<char> {
    gate_replaced(body, gate_text(a.0, a.1, a.2))
}

/// After the analysis: write the body when the Validation Gate changed it.
pub open spec fn after_analysis(
    repo: Seq<char>,
    pr: Seq<char>,
    body: Seq<char>,
    a: (bool, Seq<Seq<char>>, Seq<Seq<char>>),
) -> (RefreshState, Act) {
    if refreshed_body(body, a) == body {
        (RefreshState::Ending, Act::Print("PR unchanged: #"@ + pr))
    } else {
        (
            RefreshState::Updating(repo, pr),
            Act::Gh(edit_body_args(repo, pr, refreshed_body(body, a)), GhExpect::Output),
        )
    }
}

/// Whether `(next, act)` may follow while the analysis runs.
pub open spec fn analyzing_step(
    worktree: Seq<char>,
    repo: Seq<char>,
    pr: Seq<char>,
    base: Seq<char>,
    head: Seq<char>,
    body: Seq<char>,
    aat: AnalyzeState,
    reply: Reply,
    next: RefreshState,
    act: Act,
) -> bool {
    exists|res: AnalyzedV|
        analyze_step(worktree, base, head, aat, reply, res) && match res {
            AnalyzedV::Next(aat2, act2) => next == RefreshState::Analyzing(repo, pr, base, head, body, aat2)
                && act == act2,
            AnalyzedV::Done(a) => (next, act) == after_analysis(repo, pr, body, a),
        }
}

/// Whether `(next, act)` is a step the refresh may take.
pub open spec fn refresh_step(
    args: Seq<Seq<char>>,
    gh_repo: Option<Seq<char>>,
    github_repository: Option<Seq<char>>,
    at: RefreshState,
    reply: Reply,
    next: RefreshState,
    act: Act,
) -> bool {
    let worktree = flag_value_or(args, "--worktree"@, "."@);
    match at {
        RefreshState::Start => match repo_choice(args, gh_repo, github_repository) {
            Err(e) => next == at && act == failed(e),
            Ok(repo) => match flag_reference(args, "--pr"@, Some(ReferenceKind::PullRequest)) {
                None => next == at && act == failed("Invalid or missing pr."@),
                Some(pr) => {
                    let n = decimal(pr.value as nat);
                    next == RefreshState::Base(repo, n) && act == Act::Gh(
                        pr_field_args(repo, n, "baseRefName"@),
                        GhExpect::Output,
                    )
                },
            },
        },
        RefreshState::Base(repo, pr) => match reply {
            Reply::Text(Ok(base)) => next == RefreshState::Head(repo, pr, base@) && act == Act::Gh(
                pr_field_args(repo, pr, "headRefName"@),
                GhExpect::Output,
            ),
            Reply::Text(Err(e)) => next == at && act == failed(e@),
            _ => next == at && act == failed(unexpected_reply()),
        },
        RefreshState::Head(repo, pr, base) => match reply {
            Reply::Text(Ok(head)) => next == RefreshState::Fetch(repo, pr, base, head@) && act
                == Act::Tool("git"@, fetch_args(base, head@), worktree, "git fetch"@),
            Reply::Text(Err(e)) => next == at && act == failed(e@),
            _ => next == at && act == failed(unexpected_reply()),
        },
        RefreshState::Fetch(repo, pr, base, head) => match reply {
            Reply::Run(_) => next == RefreshState::Body(repo, pr, base, head) && act == Act::Gh(
                pr_field_args(repo, pr, "body"@),
                GhExpect::Output,
            ),
            _ => next == at && act == failed(unexpected_reply()),
        },
        RefreshState::Body(repo, pr, base, head) => match reply {
            Reply::Text(Ok(body)) => next == RefreshState::Analyzing(repo, pr, base, head, body@, AnalyzeState::Log)
                && act == Act::Tool("git"@, log_args(branch_range(base, head)), worktree, "git log"@),
            Reply::Text(Err(e)) => next == at && act == failed(e@),
            _ => next == at && act == failed(unexpected_reply()),
        },
        RefreshState::Analyzing(repo, pr, base, head, body, aat) => analyzing_step(
            worktree,
            repo,
            pr,
            base,
            head,
            body,
            aat,
            reply,
            next,
            act,
        ),
        RefreshState::Updating(repo, pr) => match reply {
            Reply::Text(Ok(_)) => next == RefreshState::Ending && act == Act::Print("PR updated: #"@ + pr),
            Reply::Text(Err(e)) => next == at && act == failed(e@),
            _ => next == at && act == failed(unexpected_reply()),
        },
        RefreshState::Ending => next == at && act == succeeded(),
    }
}

impl PrValidationRefresh {
    /// The command for the given arguments.
    pub fn new(args: CommandArgs) -> (r: Self)
        ensures
            r.args == args,
    {
        Self { args }
    }

    #[verifier::rlimit(60)]
    fn analyzing(
        &self,
        worktree: String,
        repo: String,
        pr: String,
        base: String,
        head: String,
        body: String,
        aat: AnalyzeAt,
        reply: Reply,
    ) -> (r: (RefreshAt, Action))
        ensures
            analyzing_step(worktree@, repo@, pr@, base@, head@, body@, aat@, reply, r.0@, r.1@),
    {
        let ghost (wv, rv, pv, bv, hv, bodyv) = (worktree@, repo@, pr@, base@, head@, body@);
        let ghost aat0 = aat@;
        let ghost reply0 = reply;
        let step = BreakingChangeAnalysis::analyze(worktree.as_str(), base.as_str(), head.as_str(), aat, reply);
        let ghost sv = step@;
        let res = match step {
            Analyzed::Next(aat2, act) => (RefreshAt::Analyzing(repo, pr, base, head, body, aat2), act),
            Analyzed::Done(a) => {
                let ghost av = analysis_view(a);
                let new_body = ValidationGateState::new(a).replace_in_body(body.as_str());
                assert(new_body@ == refreshed_body(bodyv, av)) by {
                    reveal(refreshed_body);
                }
                if str_eq(new_body.as_str(), body.as_str()) {
                    let m = concat2("PR unchanged: #", pr.as_str());
                    (RefreshAt::Ending, Action::Print(m))
                } else {
                    let call = GitHubCli.update_pull_request_body(repo.as_str(), pr.as_str(), new_body.as_str());
                    (RefreshAt::Updating(repo, pr), gh(call))
                }
            },
        };
        assert(match sv {
            AnalyzedV::Next(aat2, act2) => res.0@ == RefreshState::Analyzing(rv, pv, bv, hv, bodyv, aat2) && res.1@ == act2,
            AnalyzedV::Done(a) => (res.0@, res.1@) == after_analysis(rv, pv, bodyv, a),
        });
        assert(analyze_step(wv, bv, hv, aat0, reply0, sv));
        res
    }

    /// One step of the refresh of the `--pr` pull request: reads its
    /// branches, fetches them, analyzes the range for breaking changes and
    /// rewrites the body's validation gate when it changes. `gh_repo` and
    /// `github_repository` are the environment's `GH_REPO` and
    /// `GITHUB_REPOSITORY`.
    pub fn refresh(
        &self,
        gh_repo: Option<String>,
        github_repository: Option<String>,
        at: RefreshAt,
        reply: Reply,
    ) -> (r: (RefreshAt, Action))
        ensures
            refresh_step(
                args_view(self.args.args@),
                opt_string_view(gh_repo),
                opt_string_view(github_repository),
                at@,
                reply,
                r.0@,
                r.1@,
            ),
    {
        let github = GitHubCli;
        let worktree = self.args.extract_flag_value_or("--worktree", ".");
        match at {
            RefreshAt::Start => {
                let repo = match self.args.resolve_repo(gh_repo, github_repository) {
                    Ok(r) => r,
                    Err(e) => {
                        return (RefreshAt::Start, fail(e));
                    },
                };
                let pr = match self.args.resolve_pull_request_number("--pr") {
                    Ok(p) => p,
                    Err(e) => {
                        return (RefreshAt::Start, fail(e));
                    },
                };
                let n = pr.as_string();
                let call = github.read_pull_request_field(repo.as_str(), n.as_str(), "baseRefName");
                (RefreshAt::Base(repo, n), gh(call))
            },
            RefreshAt::Base(repo, pr) => match reply {
                Reply::Text(Ok(base)) => {
                    let call = github.read_pull_request_field(repo.as_str(), pr.as_str(), "headRefName");
                    (RefreshAt::Head(repo, pr, base), gh(call))
                },
                Reply::Text(Err(e)) => (RefreshAt::Base(repo, pr), fail(e)),
                _ => (RefreshAt::Base(repo, pr), fail_unexpected()),
            },
            RefreshAt::Head(repo, pr, base) => match reply {
                Reply::Text(Ok(head)) => {
                    let call = GitCli.fetch_branches(worktree.as_str(), base.as_str(), head.as_str());
                    (RefreshAt::Fetch(repo, pr, base, head), Action::Tool(call))
                },
                Reply::Text(Err(e)) => (RefreshAt::Head(repo, pr, base), fail(e)),
                _ => (RefreshAt::Head(repo, pr, base), fail_unexpected()),
            },
            RefreshAt::Fetch(repo, pr, base, head) => match reply {
                Reply::Run(_) => {
                    let call = github.read_pull_request_field(repo.as_str(), pr.as_str(), "body");
                    (RefreshAt::Body(repo, pr, base, head), gh(call))
                },
                _ => (RefreshAt::Fetch(repo, pr, base, head), fail_unexpected()),
            },
            RefreshAt::Body(repo, pr, base, head) => match reply {
                Reply::Text(Ok(body)) => {
                    proof {
                        reveal(analyze_step);
                    }
                    let step = BreakingChangeAnalysis::analyze(
                        worktree.as_str(),
                        base.as_str(),
                        head.as_str(),
                        AnalyzeAt::Begin,
                        Reply::Start,
                    );
                    match step {
                        Analyzed::Next(aat, act) => (RefreshAt::Analyzing(repo, pr, base, head, body, aat), act),
                        Analyzed::Done(_) => (RefreshAt::Body(repo, pr, base, head), fail_unexpected()),
                    }
                },
                Reply::Text(Err(e)) => (RefreshAt::Body(repo, pr, base, head), fail(e)),
                _ => (RefreshAt::Body(repo, pr, base, head), fail_unexpected()),
            },
            RefreshAt::Analyzing(repo, pr, base, head, body, aat) => self.analyzing(
                worktree,
                repo,
                pr,
                base,
                head,
                body,
                aat,
                reply,
            ),
            RefreshAt::Updating(repo, pr) => match reply {
                Reply::Text(Ok(_)) => {
                    let m = concat2("PR updated: #", pr.as_str());
                    (RefreshAt::Ending, Action::Print(m))
                },
                Reply::Text(Err(e)) => (RefreshAt::Updating(repo, pr), fail(e)),
                _ => (RefreshAt::Updating(repo, pr), fail_unexpected()),
            },
            RefreshAt::Ending => (RefreshAt::Ending, crate::workflow::finish_ok()),
        }
    }
}

} // verus!
