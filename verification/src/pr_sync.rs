//! Generating a pull request's description from its branches, commits and
//! directives, and the commands that resolve its context, write it or check
//! it.

use vstd::prelude::*;

use crate::args::{
    args_view, flag_reference, flag_value_or, opt_string_view, repo_choice, CommandArgs,
};
use crate::breaking::{gate_text, BreakingChangeAnalysis, ValidationGateState};
use crate::git::{diff_args, diff_files, fetch_args, log_args, GitCli};
use crate::github::{
    commits_from, edit_body_args, pr_commit_objects_args, pr_field_args, GhExpect, GitHubCli,
};
use crate::patterns::{regex_compiles, regex_error_text, strings_view, DIRECTIVE_DECISION, ISSUE_DIRECTIVE_EVENT};
use crate::pr_body::{
    body_text, commits_view,
    directive_payload, footprint_text, key_changes_text, payload_outcomes, render_body,
    PrBodyContractSync, PullRequestCommit,
};
use crate::reference::ReferenceKind;
use crate::text::{concat2, concat3, copy_str, decimal, join, str_eq};
use crate::validation::{analysis_view, analyze_step, branch_range, AnalyzeAt, AnalyzeState, Analyzed, AnalyzedV};
use crate::workflow::{fail, fail_unexpected, failed, gh, succeeded, unexpected_reply, Act, Action, Reply};

verus! {

// ---------------------------------------------------------------------------
// Generating the description
// ---------------------------------------------------------------------------

/// Where the description is generated for.
pub struct GenerationContext {
    pub repo: String,
    pub pr_number: String,
    pub base_ref: String,
    pub head_ref: String,
    pub worktree: String,
}

/// The view of a generation context.
pub struct GenCtx {
    pub repo: Seq<char>,
    pub pr: Seq<char>,
    pub base: Seq<char>,
    pub head: Seq<char>,
    pub worktree: Seq<char>,
}

impl View for GenerationContext {
    type V = GenCtx;

    open spec fn view(&self) -> GenCtx {
        GenCtx {
            repo: self.repo@,
            pr: self.pr_number@,
            base: self.base_ref@,
            head: self.head_ref@,
            worktree: self.worktree@,
        }
    }
}

/// Where a generation stands.
pub enum GenerateAt {
    /// Nothing asked yet (and where a failed generation stops).
    Begin,
    /// The branches are being fetched.
    Fetched,
    /// The body was asked.
    Body,
    /// The title was asked; the body follows.
    Title(String),
    /// The commits were asked; body and title follow.
    Commits(String, String),
    /// The breaking-change analysis runs; the commits and the directive
    /// payload follow.
    Analyzing(Vec<PullRequestCommit>, String, AnalyzeAt),
    /// The changed files were asked; the analysis, the issue outcomes and the
    /// key changes follow.
    Footprint(BreakingChangeAnalysis, String, String),
}

/// The view of where a generation stands.
pub enum GenerateState {
    Begin,
    Fetched,
    Body,
    Title(Seq<char>),
    Commits(Seq<char>, Seq<char>),
    Analyzing(Seq<(Seq<char>, Seq<char>)>, Seq<char>, AnalyzeState),
    Footprint((bool, Seq<Seq<char>>, Seq<Seq<char>>), Seq<char>, Seq<char>),
}

impl View for GenerateAt {
    type V = GenerateState;

    open spec fn view(&self) -> GenerateState {
        match self {
            GenerateAt::Begin => GenerateState::Begin,
            GenerateAt::Fetched => GenerateState::Fetched,
            GenerateAt::Body => GenerateState::Body,
            GenerateAt::Title(b) => GenerateState::Title(b@),
            GenerateAt::Commits(b, t) => GenerateState::Commits(b@, t@),
            GenerateAt::Analyzing(c, p, a) => GenerateState::Analyzing(commits_view(c@), p@, a@),
            GenerateAt::Footprint(a, o, k) => GenerateState::Footprint(analysis_view(*a), o@, k@),
        }
    }
}

/// A step of a generation: the next state and action, or the description.
pub enum Generated {
    Next(GenerateAt, Action),
    Done(String),
}

/// The view of a step of a generation.
pub enum GeneratedV {
    Next(GenerateState, Act),
    Done(Seq<char>),
}

impl View for Generated {
    type V = GeneratedV;

    open spec fn view(&self) -> GeneratedV {
        match self {
            Generated::Next(at, act) => GeneratedV::Next(at@, act@),
            Generated::Done(b) => GeneratedV::Done(b@),
        }
    }
}

/// The messages of commits.
pub open spec fn messages_of(c: Seq<(Seq<char>, Seq<char>)>) -> Seq<Seq<char>> {
    c.map_values(|x: (Seq<char>, Seq<char>)| x.1)
}

/// The text the directives are read from: title, body and commit messages.
pub open spec fn description_payload(title: Seq<char>, body: Seq<char>, c: Seq<(Seq<char>, Seq<char>)>) -> Seq<char> {
    title + "\n"@ + body + "\n"@ + join(messages_of(c), "\n"@)
}

/// Whether `res` may follow the analysis `a`: the issue outcomes of the
/// payload (conflicts ordered by number, equal numbers in any order) and the
/// key changes, then the changed files are asked.
pub open spec fn after_generation_analysis(
    g: GenCtx,
    c: Seq<(Seq<char>, Seq<char>)>,
    payload: Seq<char>,
    a: (bool, Seq<Seq<char>>, Seq<Seq<char>>),
    res: GeneratedV,
) -> bool {
    if !regex_compiles(DIRECTIVE_DECISION@) {
        res == GeneratedV::Next(GenerateState::Begin, failed("Directive regex failed: "@ + regex_error_text(DIRECTIVE_DECISION@)))
    } else if !regex_compiles(ISSUE_DIRECTIVE_EVENT@) {
        res == GeneratedV::Next(GenerateState::Begin, failed("Event regex failed: "@ + regex_error_text(ISSUE_DIRECTIVE_EVENT@)))
    } else {
        exists|out: Seq<char>|
            payload_outcomes(out, payload) && res == GeneratedV::Next(
                GenerateState::Footprint(a, out, key_changes_text(c)),
                Act::Tool("git"@, diff_args(branch_range(g.base, g.head)), g.worktree, "git diff"@),
            )
    }
}

/// Whether `res` may be the step of a generation for `g`: the description
/// with the validation gate of the breaking-change analysis, the issue
/// outcomes of the directives, the key changes of the commits and the
/// footprint of the changed files.
#[verifier::opaque]
pub open spec fn generate_step(g: GenCtx, at: GenerateState, reply: Reply, res: GeneratedV) -> bool {
    match at {
        GenerateState::Begin => res == GeneratedV::Next(
            GenerateState::Fetched,
            Act::Tool("git"@, fetch_args(g.base, g.head), g.worktree, "git fetch"@),
        ),
        GenerateState::Fetched => match reply {
            Reply::Run(_) => res == GeneratedV::Next(
                GenerateState::Body,
                Act::Gh(pr_field_args(g.repo, g.pr, "body"@), GhExpect::Output),
            ),
            _ => res == GeneratedV::Next(GenerateState::Begin, failed(unexpected_reply())),
        },
        GenerateState::Body => match reply {
            Reply::Text(Ok(b)) => res == GeneratedV::Next(
                GenerateState::Title(b@),
                Act::Gh(pr_field_args(g.repo, g.pr, "title"@), GhExpect::Output),
            ),
            Reply::Text(Err(e)) => res == GeneratedV::Next(GenerateState::Begin, failed(e@)),
            _ => res == GeneratedV::Next(GenerateState::Begin, failed(unexpected_reply())),
        },
        GenerateState::Title(b) => match reply {
            Reply::Text(Ok(t)) => res == GeneratedV::Next(
                GenerateState::Commits(b, t@),
                Act::Gh(pr_commit_objects_args(g.repo, g.pr), GhExpect::JsonLines),
            ),
            Reply::Text(Err(e)) => res == GeneratedV::Next(GenerateState::Begin, failed(e@)),
            _ => res == GeneratedV::Next(GenerateState::Begin, failed(unexpected_reply())),
        },
        GenerateState::Commits(b, t) => match reply {
            Reply::JsonLines(Ok(values)) => {
                let c = commits_from(values@);
                res == GeneratedV::Next(
                    GenerateState::Analyzing(c, description_payload(t, b, c), AnalyzeState::Log),
                    Act::Tool("git"@, log_args(branch_range(g.base, g.head)), g.worktree, "git log"@),
                )
            },
            Reply::JsonLines(Err(e)) => res == GeneratedV::Next(GenerateState::Begin, failed(e@)),
            _ => res == GeneratedV::Next(GenerateState::Begin, failed(unexpected_reply())),
        },
        GenerateState::Analyzing(c, payload, aat) => exists|ares: AnalyzedV|
            analyze_step(g.worktree, g.base, g.head, aat, reply, ares) && match ares {
                AnalyzedV::Next(aat2, act) => res == GeneratedV::Next(GenerateState::Analyzing(c, payload, aat2), act),
                AnalyzedV::Done(a) => after_generation_analysis(g, c, payload, a, res),
            },
        GenerateState::Footprint(a, outcomes, key) => match reply {
            Reply::Run(Ok(out)) => res == GeneratedV::Done(
                body_text(
                    g.head,
                    g.base,
                    gate_text(a.0, a.1, a.2),
                    outcomes,
                    key,
                    footprint_text(diff_files(out.success, out.stdout@)),
                ),
            ),
            Reply::Run(Err(e)) => res == GeneratedV::Next(GenerateState::Begin, failed(e@)),
            _ => res == GeneratedV::Next(GenerateState::Begin, failed(unexpected_reply())),
        },
    }
}

impl PrBodyContractSync {
    fn after_analysis(&self, g: &GenerationContext, commits: Vec<PullRequestCommit>, payload: String, a: BreakingChangeAnalysis) -> (r: Generated)
        ensures
            after_generation_analysis(g@, commits_view(commits@), payload@, analysis_view(a), r@),
    {
        match Self::build_issue_outcomes_section(payload.as_str()) {
            Err(e) => Generated::Next(GenerateAt::Begin, fail(e)),
            Ok(outcomes) => {
                let key = PrBodyContractSync::build_key_changes_section(&commits);
                let mut range = concat3("origin/", g.base_ref.as_str(), "..origin/");
                range.append(g.head_ref.as_str());
                let call = GitCli.diff_name_only(g.worktree.as_str(), range.as_str());
                let ghost ov = outcomes@;
                let r = Generated::Next(GenerateAt::Footprint(a, outcomes, key), Action::Tool(call));
                assert(payload_outcomes(ov, payload@));
                r
            },
        }
    }

    /// One step of the generation of the description for `g`: fetches the
    /// branches, reads the body, title and commits, analyzes the range for
    /// breaking changes, and assembles the validation gate, the issue
    /// outcomes, the key changes and the change footprint.
    pub fn generate_body(&self, g: &GenerationContext, at: GenerateAt, reply: Reply) -> (r: Generated)
        ensures
            generate_step(g@, at@, reply, r@),
    {
        reveal(generate_step);
        let github = GitHubCli;
        match at {
            GenerateAt::Begin => {
                let call = GitCli.fetch_branches(g.worktree.as_str(), g.base_ref.as_str(), g.head_ref.as_str());
                Generated::Next(GenerateAt::Fetched, Action::Tool(call))
            },
            GenerateAt::Fetched => match reply {
                Reply::Run(_) => {
                    let call = github.read_pull_request_field(g.repo.as_str(), g.pr_number.as_str(), "body");
                    Generated::Next(GenerateAt::Body, gh(call))
                },
                _ => Generated::Next(GenerateAt::Begin, fail_unexpected()),
            },
            GenerateAt::Body => match reply {
                Reply::Text(Ok(b)) => {
                    let call = github.read_pull_request_field(g.repo.as_str(), g.pr_number.as_str(), "title");
                    Generated::Next(GenerateAt::Title(b), gh(call))
                },
                Reply::Text(Err(e)) => Generated::Next(GenerateAt::Begin, fail(e)),
                _ => Generated::Next(GenerateAt::Begin, fail_unexpected()),
            },
            GenerateAt::Title(b) => match reply {
                Reply::Text(Ok(t)) => {
                    let call = github.pull_request_commit_objects_call(g.repo.as_str(), g.pr_number.as_str());
                    Generated::Next(GenerateAt::Commits(b, t), gh(call))
                },
                Reply::Text(Err(e)) => Generated::Next(GenerateAt::Begin, fail(e)),
                _ => Generated::Next(GenerateAt::Begin, fail_unexpected()),
            },
            GenerateAt::Commits(b, t) => match reply {
                Reply::JsonLines(Ok(values)) => {
                    let commits = github.read_pull_request_commits(&values);
                    let mut messages: Vec<String> = Vec::new();
                    let mut i: usize = 0;
                    while i < commits.len()
                        invariant
                            i <= commits.len(),
                            strings_view(messages@) == messages_of(commits_view(commits@)).take(i as int),
                        decreases commits.len() - i,
                    {
                        crate::pr_body::push_string(&mut messages, copy_str(commits[i].message.as_str()));
                        i += 1;
                        assert(messages_of(commits_view(commits@)).take(i as int) =~= messages_of(
                            commits_view(commits@),
                        ).take(i - 1).push(commits@[i - 1].message@));
                    }
                    assert(messages_of(commits_view(commits@)).take(commits.len() as int) =~= messages_of(
                        commits_view(commits@),
                    ));
                    let payload = directive_payload(t.as_str(), b.as_str(), &messages);
                    match BreakingChangeAnalysis::analyze(
                        g.worktree.as_str(),
                        g.base_ref.as_str(),
                        g.head_ref.as_str(),
                        AnalyzeAt::Begin,
                        Reply::Start,
                    ) {
                        Analyzed::Next(aat, act) => {
                            proof {
                                reveal(analyze_step);
                            }
                            Generated::Next(GenerateAt::Analyzing(commits, payload, aat), act)
                        },
                        Analyzed::Done(_) => {
                            proof {
                                reveal(analyze_step);
                            }
                            Generated::Next(GenerateAt::Begin, fail_unexpected())
                        },
                    }
                },
                Reply::JsonLines(Err(e)) => Generated::Next(GenerateAt::Begin, fail(e)),
                _ => Generated::Next(GenerateAt::Begin, fail_unexpected()),
            },
            GenerateAt::Analyzing(commits, payload, aat) => {
                let ghost (cv, pv, av, rv) = (commits_view(commits@), payload@, aat@, reply);
                let step = BreakingChangeAnalysis::analyze(
                    g.worktree.as_str(),
                    g.base_ref.as_str(),
                    g.head_ref.as_str(),
                    aat,
                    reply,
                );
                let ghost sv = step@;
                let res = match step {
                    Analyzed::Next(aat2, act) => Generated::Next(GenerateAt::Analyzing(commits, payload, aat2), act),
                    Analyzed::Done(a) => self.after_analysis(g, commits, payload, a),
                };
                assert(analyze_step(g@.worktree, g@.base, g@.head, av, rv, sv));
                res
            },
            GenerateAt::Footprint(a, outcomes, key) => match reply {
                Reply::Run(Ok(out)) => {
                    let files = GitCli.diff_files(&out);
                    let footprint = PrBodyContractSync::build_change_footprint_section(&files);
                    let gate = ValidationGateState::new(a).render_section();
                    Generated::Done(
                        render_body(
                            g.head_ref.as_str(),
                            g.base_ref.as_str(),
                            gate.as_str(),
                            outcomes.as_str(),
                            key.as_str(),
                            footprint.as_str(),
                        ),
                    )
                },
                Reply::Run(Err(e)) => Generated::Next(GenerateAt::Begin, fail(e)),
                _ => Generated::Next(GenerateAt::Begin, fail_unexpected()),
            },
        }
    }
}

// ---------------------------------------------------------------------------
// Generating, writing and checking the description
// ---------------------------------------------------------------------------

/// What a run does with the description.
#[derive(Clone, Copy, Debug, PartialEq, Eq, Structural)]
pub enum SyncMode {
    /// Print it, or write it with `--write-pr`.
    Describe,
    /// Fail when the body differs from it.
    Guard,
}

/// Where a run stands.
pub enum SyncAt {
    Start,
    /// The base branch was asked; repository, number, head and worktree
    /// follow.
    Base(String, String, String, String),
    /// The head branch was asked; repository, number, base and worktree
    /// follow.
    Head(String, String, String, String),
    /// The description is being generated.
    Generating(GenerationContext, GenerateAt),
    /// The current body was asked; repository, number and the description
    /// follow.
    Current(String, String, String),
    /// The description was written; the number follows.
    Updating(String),
    /// The last output was printed.
    Ending,
}

/// The view of where a run stands.
pub enum SyncState {
    Start,
    Base(Seq<char>, Seq<char>, Seq<char>, Seq<char>),
    Head(Seq<char>, Seq<char>, Seq<char>, Seq<char>),
    Generating(GenCtx, GenerateState),
    Current(Seq<char>, Seq<char>, Seq<char>),
    Updating(Seq<char>),
    Ending,
}

impl View for SyncAt {
    type V = SyncState;

    open spec fn view(&self) -> SyncState {
        match self {
            SyncAt::Start => SyncState::Start,
            SyncAt::Base(r, n, h, w) => SyncState::Base(r@, n@, h@, w@),
            SyncAt::Head(r, n, b, w) => SyncState::Head(r@, n@, b@, w@),
            SyncAt::Generating(g, at) => SyncState::Generating(g@, at@),
            SyncAt::Current(r, n, d) => SyncState::Current(r@, n@, d@),
            SyncAt::Updating(n) => SyncState::Updating(n@),
            SyncAt::Ending => SyncState::Ending,
        }
    }
}

/// Once both branches are known: generate, unless one is still empty.
pub open spec fn resolved_step(g: GenCtx) -> (SyncState, Act) {
    if g.base.len() == 0 || g.head.len() == 0 {
        (SyncState::Start, failed("Unable to resolve base/head refs for PR #"@ + g.pr + "."@))
    } else {
        (
            SyncState::Generating(g, GenerateState::Fetched),
            Act::Tool("git"@, fetch_args(g.base, g.head), g.worktree, "git fetch"@),
        )
    }
}

/// Asking for the head branch when the flag left it empty.
pub open spec fn head_step(repo: Seq<char>, n: Seq<char>, base: Seq<char>, head: Seq<char>, w: Seq<char>) -> (
    SyncState,
    Act,
) {
    if head.len() == 0 {
        (SyncState::Head(repo, n, base, w), Act::Gh(pr_field_args(repo, n, "headRefName"@), GhExpect::Output))
    } else {
        resolved_step(GenCtx { repo, pr: n, base, head, worktree: w })
    }
}

/// Once the description is generated.
pub open spec fn generated_step(mode: SyncMode, write: bool, g: GenCtx, body: Seq<char>) -> (SyncState, Act) {
    if mode == SyncMode::Guard || write {
        (SyncState::Current(g.repo, g.pr, body), Act::Gh(pr_field_args(g.repo, g.pr, "body"@), GhExpect::Output))
    } else {
        (SyncState::Ending, Act::Print(body))
    }
}

/// Whether `(next, act)` may follow while the description is generated.
pub open spec fn generating_step(
    mode: SyncMode,
    write: bool,
    g: GenCtx,
    gat: GenerateState,
    reply: Reply,
    next: SyncState,
    act: Act,
) -> bool {
    exists|gres: GeneratedV|
        generate_step(g, gat, reply, gres) && match gres {
            GeneratedV::Next(gat2, act2) => next == SyncState::Generating(g, gat2) && act == act2,
            GeneratedV::Done(body) => (next, act) == generated_step(mode, write, g, body),
        }
}

/// The first step of resolving a run's context: the repository and the
/// `--pr` number, then the branches from `--base`/`--head` or, when empty,
/// from GitHub.
pub open spec fn context_start(
    args: Seq<Seq<char>>,
    gh_repo: Option<Seq<char>>,
    github_repository: Option<Seq<char>>,
) -> (SyncState, Act) {
    match repo_choice(args, gh_repo, github_repository) {
        Err(e) => (SyncState::Start, failed(e)),
        Ok(repo) => match flag_reference(args, "--pr"@, Some(ReferenceKind::PullRequest)) {
            None => (SyncState::Start, failed("Invalid or missing pr."@)),
            Some(pr) => {
                let n = decimal(pr.value as nat);
                let base = flag_value_or(args, "--base"@, ""@);
                let head = flag_value_or(args, "--head"@, ""@);
                let w = flag_value_or(args, "--worktree"@, "."@);
                if base.len() == 0 {
                    (SyncState::Base(repo, n, head, w), Act::Gh(pr_field_args(repo, n, "baseRefName"@), GhExpect::Output))
                } else {
                    head_step(repo, n, base, head, w)
                }
            },
        },
    }
}

/// Whether `(next, act)` is a step a run may take.
pub open spec fn sync_step(
    mode: SyncMode,
    args: Seq<Seq<char>>,
    gh_repo: Option<Seq<char>>,
    github_repository: Option<Seq<char>>,
    at: SyncState,
    reply: Reply,
    next: SyncState,
    act: Act,
) -> bool {
    let write = args.contains("--write-pr"@);
    match at {
        SyncState::Start => (next, act) == context_start(args, gh_repo, github_repository),
        SyncState::Base(repo, n, head, w) => match reply {
            Reply::Text(Ok(base)) => (next, act) == head_step(repo, n, base@, head, w),
            Reply::Text(Err(e)) => next == at && act == failed(e@),
            _ => next == at && act == failed(unexpected_reply()),
        },
        SyncState::Head(repo, n, base, w) => match reply {
            Reply::Text(Ok(head)) => (next, act) == resolved_step(GenCtx { repo, pr: n, base, head: head@, worktree: w }),
            Reply::Text(Err(e)) => next == at && act == failed(e@),
            _ => next == at && act == failed(unexpected_reply()),
        },
        SyncState::Generating(g, gat) => generating_step(mode, write, g, gat, reply, next, act),
        SyncState::Current(repo, n, body) => match reply {
            Reply::Text(Ok(current)) => if mode == SyncMode::Guard {
                if body != current@ {
                    next == at && act == failed("PR body contract mismatch after auto-sync."@)
                } else {
                    next == SyncState::Ending && act == succeeded()
                }
            } else if body != current@ {
                next == SyncState::Updating(n) && act == Act::Gh(edit_body_args(repo, n, body), GhExpect::Output)
            } else {
                next == SyncState::Ending && act == Act::Print("PR body already up-to-date: #"@ + n)
            },
            Reply::Text(Err(e)) => next == at && act == failed(e@),
            _ => next == at && act == failed(unexpected_reply()),
        },
        SyncState::Updating(n) => match reply {
            Reply::Text(Ok(_)) => next == SyncState::Ending && act == Act::Print("Updated PR body: #"@ + n),
            Reply::Text(Err(e)) => next == at && act == failed(e@),
            _ => next == at && act == failed(unexpected_reply()),
        },
        SyncState::Ending => next == at && act == succeeded(),
    }
}

impl PrBodyContractSync {
    fn resolved(&self, g: GenerationContext) -> (r: (SyncAt, Action))
        ensures
            (r.0@, r.1@) == resolved_step(g@),
    {
        if g.base_ref.as_str().is_empty() || g.head_ref.as_str().is_empty() {
            let m = concat3("Unable to resolve base/head refs for PR #", g.pr_number.as_str(), ".");
            return (SyncAt::Start, fail(m));
        }
        let call = GitCli.fetch_branches(g.worktree.as_str(), g.base_ref.as_str(), g.head_ref.as_str());
        (SyncAt::Generating(g, GenerateAt::Fetched), Action::Tool(call))
    }

    fn head_or_resolved(&self, repo: String, n: String, base: String, head: String, w: String) -> (r: (
        SyncAt,
        Action,
    ))
        ensures
            (r.0@, r.1@) == head_step(repo@, n@, base@, head@, w@),
    {
        if head.as_str().is_empty() {
            let call = GitHubCli.read_pull_request_field(repo.as_str(), n.as_str(), "headRefName");
            return (SyncAt::Head(repo, n, base, w), gh(call));
        }
        self.resolved(GenerationContext { repo, pr_number: n, base_ref: base, head_ref: head, worktree: w })
    }

    fn generating(&self, mode: SyncMode, g: GenerationContext, gat: GenerateAt, reply: Reply) -> (r: (
        SyncAt,
        Action,
    ))
        ensures
            generating_step(
                mode,
                args_view(self.args.args@).contains("--write-pr"@),
                g@,
                gat@,
                reply,
                r.0@,
                r.1@,
            ),
    {
        let ghost (gv, av, rv) = (g@, gat@, reply);
        let write = self.args.has_flag("--write-pr");
        let step = self.generate_body(&g, gat, reply);
        let ghost sv = step@;
        let res = match step {
            Generated::Next(gat2, act) => (SyncAt::Generating(g, gat2), act),
            Generated::Done(body) => {
                let is_guard = match mode {
                    SyncMode::Guard => true,
                    SyncMode::Describe => false,
                };
                if is_guard || write {
                    let call = GitHubCli.read_pull_request_field(g.repo.as_str(), g.pr_number.as_str(), "body");
                    (SyncAt::Current(g.repo, g.pr_number, body), gh(call))
                } else {
                    (SyncAt::Ending, Action::Print(body))
                }
            },
        };
        assert(generate_step(gv, av, rv, sv));
        res
    }

    /// The first step of resolving the run's context: the repository, the
    /// `--pr` number, the `--worktree` (`.` by default) and the branches from
    /// `--base`/`--head`, asking GitHub for an empty one; `gh_repo` and
    /// `github_repository` are the environment's `GH_REPO` and
    /// `GITHUB_REPOSITORY`.
    pub fn resolve_generation_context(&self, gh_repo: Option<String>, github_repository: Option<String>) -> (r: (
        SyncAt,
        Action,
    ))
        ensures
            (r.0@, r.1@) == context_start(args_view(self.args.args@), opt_string_view(gh_repo), opt_string_view(github_repository)),
    {
        let repo = match self.args.resolve_repo(gh_repo, github_repository) {
            Ok(r) => r,
            Err(e) => {
                return (SyncAt::Start, fail(e));
            },
        };
        let pr = match self.args.extract_reference_number("--pr", Some(ReferenceKind::PullRequest)) {
            Some(p) => p,
            None => {
                return (SyncAt::Start, fail(copy_str("Invalid or missing pr.")));
            },
        };
        let n = pr.as_string();
        let base = self.args.extract_flag_value_or("--base", "");
        let head = self.args.extract_flag_value_or("--head", "");
        let w = self.args.extract_flag_value_or("--worktree", ".");
        if base.as_str().is_empty() {
            let call = GitHubCli.read_pull_request_field(repo.as_str(), n.as_str(), "baseRefName");
            return (SyncAt::Base(repo, n, head, w), gh(call));
        }
        self.head_or_resolved(repo, n, base, head, w)
    }

    fn sync(&self, mode: SyncMode, gh_repo: Option<String>, github_repository: Option<String>, at: SyncAt, reply: Reply) -> (r: (
        SyncAt,
        Action,
    ))
        ensures
            sync_step(
                mode,
                args_view(self.args.args@),
                opt_string_view(gh_repo),
                opt_string_view(github_repository),
                at@,
                reply,
                r.0@,
                r.1@,
            ),
    {
        match at {
            SyncAt::Start => self.resolve_generation_context(gh_repo, github_repository),
            SyncAt::Base(repo, n, head, w) => match reply {
                Reply::Text(Ok(base)) => self.head_or_resolved(repo, n, base, head, w),
                Reply::Text(Err(e)) => (SyncAt::Base(repo, n, head, w), fail(e)),
                _ => (SyncAt::Base(repo, n, head, w), fail_unexpected()),
            },
            SyncAt::Head(repo, n, base, w) => match reply {
                Reply::Text(Ok(head)) => self.resolved(
                    GenerationContext { repo, pr_number: n, base_ref: base, head_ref: head, worktree: w },
                ),
                Reply::Text(Err(e)) => (SyncAt::Head(repo, n, base, w), fail(e)),
                _ => (SyncAt::Head(repo, n, base, w), fail_unexpected()),
            },
            SyncAt::Generating(g, gat) => self.generating(mode, g, gat, reply),
            SyncAt::Current(repo, n, body) => match reply {
                Reply::Text(Ok(current)) => {
                    let same = str_eq(body.as_str(), current.as_str());
                    match mode {
                        SyncMode::Guard => {
                            if !same {
                                return (
                                    SyncAt::Current(repo, n, body),
                                    fail(copy_str("PR body contract mismatch after auto-sync.")),
                                );
                            }
                            (SyncAt::Ending, crate::workflow::finish_ok())
                        },
                        SyncMode::Describe => {
                            if !same {
                                let call = GitHubCli.update_pull_request_body(repo.as_str(), n.as_str(), body.as_str());
                                return (SyncAt::Updating(n), gh(call));
                            }
                            let m = concat2("PR body already up-to-date: #", n.as_str());
                            (SyncAt::Ending, Action::Print(m))
                        },
                    }
                },
                Reply::Text(Err(e)) => (SyncAt::Current(repo, n, body), fail(e)),
                _ => (SyncAt::Current(repo, n, body), fail_unexpected()),
            },
            SyncAt::Updating(n) => match reply {
                Reply::Text(Ok(_)) => {
                    let m = concat2("Updated PR body: #", n.as_str());
                    (SyncAt::Ending, Action::Print(m))
                },
                Reply::Text(Err(e)) => (SyncAt::Updating(n), fail(e)),
                _ => (SyncAt::Updating(n), fail_unexpected()),
            },
            SyncAt::Ending => (SyncAt::Ending, crate::workflow::finish_ok()),
        }
    }

    /// One step of generating the description of the `--pr` pull request
    /// (its branches from `--base`/`--head` or from GitHub): printed, or with
    /// `--write-pr` written when it differs from the body.
    pub fn generate_and_optionally_write(
        &self,
        gh_repo: Option<String>,
        github_repository: Option<String>,
        at: SyncAt,
        reply: Reply,
    ) -> (r: (SyncAt, Action))
        ensures
            sync_step(
                SyncMode::Describe,
                args_view(self.args.args@),
                opt_string_view(gh_repo),
                opt_string_view(github_repository),
                at@,
                reply,
                r.0@,
                r.1@,
            ),
    {
        self.sync(SyncMode::Describe, gh_repo, github_repository, at, reply)
    }

    /// One step of checking that the `--pr` pull request's body is the
    /// description generated for it; a mismatch fails the run.
    pub fn guard_contract(
        &self,
        gh_repo: Option<String>,
        github_repository: Option<String>,
        at: SyncAt,
        reply: Reply,
    ) -> (r: (SyncAt, Action))
        ensures
            sync_step(
                SyncMode::Guard,
                args_view(self.args.args@),
                opt_string_view(gh_repo),
                opt_string_view(github_repository),
                at@,
                reply,
                r.0@,
                r.1@,
            ),
    {
        self.sync(SyncMode::Guard, gh_repo, github_repository, at, reply)
    }
}

// ---------------------------------------------------------------------------
// Writing the description of a known pull request
// ---------------------------------------------------------------------------

/// Where the writing of a description stands.
pub enum WriteForAt {
    /// The description is being generated.
    Generating(GenerateAt),
    /// The description was sent.
    Writing,
}

/// The view of where the writing stands.
pub enum WriteForState {
    Generating(GenerateState),
    Writing,
}

impl View for WriteForAt {
    type V = WriteForState;

    open spec fn view(&self) -> WriteForState {
        match self {
            WriteForAt::Generating(g) => WriteForState::Generating(g@),
            WriteForAt::Writing => WriteForState::Writing,
        }
    }
}

/// Whether `(next, act)` may follow in the writing of the description for
/// `g`; it ends with `Finish(Ok(()))` once the body is written.
pub open spec fn write_for_step(g: GenCtx, at: WriteForState, reply: Reply, next: WriteForState, act: Act) -> bool {
    match at {
        WriteForState::Generating(gat) => exists|gres: GeneratedV|
            generate_step(g, gat, reply, gres) && match gres {
                GeneratedV::Next(gat2, act2) => next == WriteForState::Generating(gat2) && act == act2,
                GeneratedV::Done(body) => next == WriteForState::Writing && act == Act::Gh(
                    edit_body_args(g.repo, g.pr, body),
                    GhExpect::Output,
                ),
            },
        WriteForState::Writing => match reply {
            Reply::Text(Ok(_)) => next == at && act == succeeded(),
            Reply::Text(Err(e)) => next == at && act == failed(e@),
            _ => next == at && act == failed(unexpected_reply()),
        },
    }
}

impl PrBodyContractSync {
    /// One step of writing the generated description of pull request
    /// `pr_number` of `repo` for the branches `base_ref` and `head_ref` in
    /// `worktree`; ends with `Finish(Ok(()))` once written.
    pub fn generate_and_write_for(
        &self,
        repo: &str,
        pr_number: &str,
        base_ref: &str,
        head_ref: &str,
        worktree: &str,
        at: WriteForAt,
        reply: Reply,
    ) -> (r: (WriteForAt, Action))
        ensures
            write_for_step(
                GenCtx { repo: repo@, pr: pr_number@, base: base_ref@, head: head_ref@, worktree: worktree@ },
                at@,
                reply,
                r.0@,
                r.1@,
            ),
    {
        let g = GenerationContext {
            repo: copy_str(repo),
            pr_number: copy_str(pr_number),
            base_ref: copy_str(base_ref),
            head_ref: copy_str(head_ref),
            worktree: copy_str(worktree),
        };
        match at {
            WriteForAt::Generating(gat) => {
                let ghost (av, rv) = (gat@, reply);
                let step = self.generate_body(&g, gat, reply);
                let ghost sv = step@;
                let res = match step {
                    Generated::Next(gat2, act) => (WriteForAt::Generating(gat2), act),
                    Generated::Done(body) => {
                        let call = GitHubCli.update_pull_request_body(repo, pr_number, body.as_str());
                        (WriteForAt::Writing, gh(call))
                    },
                };
                assert(generate_step(g@, av, rv, sv));
                res
            },
            WriteForAt::Writing => match reply {
                Reply::Text(Ok(_)) => (WriteForAt::Writing, crate::workflow::finish_ok()),
                Reply::Text(Err(e)) => (WriteForAt::Writing, fail(e)),
                _ => (WriteForAt::Writing, fail_unexpected()),
            },
        }
    }
}

// ---------------------------------------------------------------------------
// Resolving the context of a pull request event
// ---------------------------------------------------------------------------

/// Where the resolution of a pull request's context stands.
pub enum ResolveAt {
    Start,
    /// The skip message was printed.
    Skipping,
    /// The base branch was asked; repository, number and head follow.
    Base(String, String, String),
    /// The head branch was asked; repository, number and base follow.
    Head(String, String, String),
    /// Output `i` of the list was written.
    Outputs(Vec<(String, String)>, usize),
}

/// The view of where the resolution stands.
pub enum ResolveState {
    Start,
    Skipping,
    Base(Seq<char>, Seq<char>, Seq<char>),
    Head(Seq<char>, Seq<char>, Seq<char>),
    Outputs(Seq<(Seq<char>, Seq<char>)>, int),
}

impl View for ResolveAt {
    type V = ResolveState;

    open spec fn view(&self) -> ResolveState {
        match self {
            ResolveAt::Start => ResolveState::Start,
            ResolveAt::Skipping => ResolveState::Skipping,
            ResolveAt::Base(r, n, h) => ResolveState::Base(r@, n@, h@),
            ResolveAt::Head(r, n, b) => ResolveState::Head(r@, n@, b@),
            ResolveAt::Outputs(o, i) => ResolveState::Outputs(crate::github::rows_view(o@), *i as int),
        }
    }
}

/// Writing the outputs of a resolved context, once both branches are known.
pub open spec fn context_outputs(n: Seq<char>, base: Seq<char>, head: Seq<char>) -> (ResolveState, Act) {
    if base.len() == 0 || head.len() == 0 {
        (ResolveState::Start, failed("Unable to resolve base/head refs for PR #"@ + n + "."@))
    } else {
        let outs = seq![("pr_number"@, n), ("base_ref"@, base), ("head_ref"@, head), ("skip"@, "false"@)];
        (ResolveState::Outputs(outs, 0), Act::SetOutput("pr_number"@, n))
    }
}

/// Asking for the head branch when the flag left it empty.
pub open spec fn context_head(repo: Seq<char>, n: Seq<char>, base: Seq<char>, head: Seq<char>) -> (ResolveState, Act) {
    if head.len() == 0 {
        (ResolveState::Head(repo, n, base), Act::Gh(pr_field_args(repo, n, "headRefName"@), GhExpect::Output))
    } else {
        context_outputs(n, base, head)
    }
}

/// The next state and action of the resolution of a pull request's
/// context.
pub open spec fn resolve_next(
    args: Seq<Seq<char>>,
    gh_repo: Option<Seq<char>>,
    github_repository: Option<Seq<char>>,
    at: ResolveState,
    reply: Reply,
) -> (ResolveState, Act) {
    match at {
        ResolveState::Start => match flag_reference(args, "--pr"@, Some(ReferenceKind::PullRequest)) {
            None => (ResolveState::Skipping, Act::Print("No pull request linked to this event; skipping."@)),
            Some(pr) => match repo_choice(args, gh_repo, github_repository) {
                Err(e) => (at, failed(e)),
                Ok(repo) => {
                    let n = decimal(pr.value as nat);
                    let base = flag_value_or(args, "--base"@, ""@);
                    let head = flag_value_or(args, "--head"@, ""@);
                    if base.len() == 0 {
                        (ResolveState::Base(repo, n, head), Act::Gh(pr_field_args(repo, n, "baseRefName"@), GhExpect::Output))
                    } else {
                        context_head(repo, n, base, head)
                    }
                },
            },
        },
        ResolveState::Skipping => (ResolveState::Outputs(seq![("skip"@, "true"@)], 0), Act::SetOutput("skip"@, "true"@)),
        ResolveState::Base(repo, n, head) => match reply {
            Reply::Text(Ok(base)) => context_head(repo, n, base@, head),
            Reply::Text(Err(e)) => (at, failed(e@)),
            _ => (at, failed(unexpected_reply())),
        },
        ResolveState::Head(repo, n, base) => match reply {
            Reply::Text(Ok(head)) => context_outputs(n, base, head@),
            Reply::Text(Err(e)) => (at, failed(e@)),
            _ => (at, failed(unexpected_reply())),
        },
        ResolveState::Outputs(outs, i) => match reply {
            Reply::Done(Ok(())) => if 0 <= i && i + 1 < outs.len() {
                (ResolveState::Outputs(outs, i + 1), Act::SetOutput(outs[i + 1].0, outs[i + 1].1))
            } else {
                (at, succeeded())
            },
            Reply::Done(Err(e)) => (at, failed(e@)),
            _ => (at, failed(unexpected_reply())),
        },
    }
}

fn output_list(pairs: &[(&str, &str)]) -> (r: Vec<(String, String)>)
    ensures
        crate::github::rows_view(r@) == pairs@.map_values(|p: (&str, &str)| (p.0@, p.1@)),
{
    let mut out: Vec<(String, String)> = Vec::new();
    let mut i: usize = 0;
    while i < pairs.len()
        invariant
            i <= pairs.len(),
            crate::github::rows_view(out@) == pairs@.map_values(|p: (&str, &str)| (p.0@, p.1@)).take(i as int),
        decreases pairs.len() - i,
    {
        let ghost before = crate::github::rows_view(out@);
        let (k, v) = pairs[i];
        out.push((copy_str(k), copy_str(v)));
        assert(crate::github::rows_view(out@) =~= before.push((k@, v@)));
        i += 1;
        assert(pairs@.map_values(|p: (&str, &str)| (p.0@, p.1@)).take(i as int) =~= before.push((k@, v@)));
    }
    assert(pairs@.map_values(|p: (&str, &str)| (p.0@, p.1@)).take(pairs.len() as int) =~= pairs@.map_values(
        |p: (&str, &str)| (p.0@, p.1@),
    ));
    out
}

impl PrBodyContractSync {
    fn context_outputs(&self, n: String, base: String, head: String) -> (r: (ResolveAt, Action))
        ensures
            (r.0@, r.1@) == context_outputs(n@, base@, head@),
    {
        if base.as_str().is_empty() || head.as_str().is_empty() {
            let m = concat3("Unable to resolve base/head refs for PR #", n.as_str(), ".");
            return (ResolveAt::Start, fail(m));
        }
        let outs = output_list(
            &[("pr_number", n.as_str()), ("base_ref", base.as_str()), ("head_ref", head.as_str()), ("skip", "false")],
        );
        proof {
            reveal_strlit("pr_number");
            reveal_strlit("base_ref");
            reveal_strlit("head_ref");
            reveal_strlit("skip");
            reveal_strlit("false");
        }
        assert(crate::github::rows_view(outs@) =~= seq![
            ("pr_number"@, n@),
            ("base_ref"@, base@),
            ("head_ref"@, head@),
            ("skip"@, "false"@),
        ]);
        (ResolveAt::Outputs(outs, 0), Action::SetOutput(copy_str("pr_number"), n))
    }

    fn context_head(&self, repo: String, n: String, base: String, head: String) -> (r: (ResolveAt, Action))
        ensures
            (r.0@, r.1@) == context_head(repo@, n@, base@, head@),
    {
        if head.as_str().is_empty() {
            let call = GitHubCli.read_pull_request_field(repo.as_str(), n.as_str(), "headRefName");
            return (ResolveAt::Head(repo, n, base), gh(call));
        }
        self.context_outputs(n, base, head)
    }

    /// One step of resolving the `--pr` pull request's number and branches
    /// (from `--base`/`--head` or from GitHub) into the runner's outputs
    /// `pr_number`, `base_ref`, `head_ref` and `skip`; without a pull
    /// request, only `skip=true` is written.
    pub fn resolve_context_to_github_output(
        &self,
        gh_repo: Option<String>,
        github_repository: Option<String>,
        at: ResolveAt,
        reply: Reply,
    ) -> (r: (ResolveAt, Action))
        ensures
            (r.0@, r.1@) == resolve_next(
                args_view(self.args.args@),
                opt_string_view(gh_repo),
                opt_string_view(github_repository),
                at@,
                reply,
            ),
    {
        match at {
            ResolveAt::Start => {
                let pr = match self.args.extract_reference_number("--pr", Some(ReferenceKind::PullRequest)) {
                    Some(p) => p,
                    None => {
                        return (
                            ResolveAt::Skipping,
                            Action::Print(copy_str("No pull request linked to this event; skipping.")),
                        );
                    },
                };
                let repo = match self.args.resolve_repo(gh_repo, github_repository) {
                    Ok(r) => r,
                    Err(e) => {
                        return (ResolveAt::Start, fail(e));
                    },
                };
                let n = pr.as_string();
                let base = self.args.extract_flag_value_or("--base", "");
                let head = self.args.extract_flag_value_or("--head", "");
                if base.as_str().is_empty() {
                    let call = GitHubCli.read_pull_request_field(repo.as_str(), n.as_str(), "baseRefName");
                    return (ResolveAt::Base(repo, n, head), gh(call));
                }
                self.context_head(repo, n, base, head)
            },
            ResolveAt::Skipping => {
                let outs = output_list(&[("skip", "true")]);
                proof {
                    reveal_strlit("skip");
                    reveal_strlit("true");
                }
                assert(crate::github::rows_view(outs@) =~= seq![("skip"@, "true"@)]);
                (ResolveAt::Outputs(outs, 0), Action::SetOutput(copy_str("skip"), copy_str("true")))
            },
            ResolveAt::Base(repo, n, head) => match reply {
                Reply::Text(Ok(base)) => self.context_head(repo, n, base, head),
                Reply::Text(Err(e)) => (ResolveAt::Base(repo, n, head), fail(e)),
                _ => (ResolveAt::Base(repo, n, head), fail_unexpected()),
            },
            ResolveAt::Head(repo, n, base) => match reply {
                Reply::Text(Ok(head)) => self.context_outputs(n, base, head),
                Reply::Text(Err(e)) => (ResolveAt::Head(repo, n, base), fail(e)),
                _ => (ResolveAt::Head(repo, n, base), fail_unexpected()),
            },
            ResolveAt::Outputs(outs, i) => match reply {
                Reply::Done(Ok(())) => {
                    if i < outs.len() && i + 1 < outs.len() {
                        let k = copy_str(outs[i + 1].0.as_str());
                        let v = copy_str(outs[i + 1].1.as_str());
                        return (ResolveAt::Outputs(outs, i + 1), Action::SetOutput(k, v));
                    }
                    (ResolveAt::Outputs(outs, i), crate::workflow::finish_ok())
                },
                Reply::Done(Err(e)) => (ResolveAt::Outputs(outs, i), fail(e)),
                _ => (ResolveAt::Outputs(outs, i), fail_unexpected()),
            },
        }
    }
}

// ---------------------------------------------------------------------------
// Creating or updating a pull request
// ---------------------------------------------------------------------------

/// The command creating a pull request and writing its description.
pub struct PullRequestAutomation {
    pub args: CommandArgs,
}

/// The repository, branches, title and worktree of a run.
pub struct PrRequest {
    pub repo: String,
    pub base: String,
    pub head: String,
    pub title: String,
    pub worktree: String,
}

/// The view of a run's request.
pub struct PrReq {
    pub repo: Seq<char>,
    pub base: Seq<char>,
    pub head: Seq<char>,
    pub title: Seq<char>,
    pub worktree: Seq<char>,
}

impl View for PrRequest {
    type V = PrReq;

    open spec fn view(&self) -> PrReq {
        PrReq { repo: self.repo@, base: self.base@, head: self.head@, title: self.title@, worktree: self.worktree@ }
    }
}

/// Where a run stands.
pub enum PrAutomationAt {
    Start,
    /// The open pull request was looked up.
    Finding(PrRequest),
    /// The existing pull request was reported; its number follows.
    Existing(PrRequest, String),
    /// The pull request was created.
    Creating(PrRequest),
    /// The created pull request was looked up.
    Refinding(PrRequest),
    /// The label was added; the number follows.
    Labelling(PrRequest, String),
    /// The description is being written; the number follows.
    Describing(PrRequest, String, WriteForAt),
    /// The last message was printed.
    Ending,
}

/// The view of where a run stands.
pub enum PrAutomationState {
    Start,
    Finding(PrReq),
    Existing(PrReq, Seq<char>),
    Creating(PrReq),
    Refinding(PrReq),
    Labelling(PrReq, Seq<char>),
    Describing(PrReq, Seq<char>, WriteForState),
    Ending,
}

impl View for PrAutomationAt {
    type V = PrAutomationState;

    open spec fn view(&self) -> PrAutomationState {
        match self {
            PrAutomationAt::Start => PrAutomationState::Start,
            PrAutomationAt::Finding(q) => PrAutomationState::Finding(q@),
            PrAutomationAt::Existing(q, n) => PrAutomationState::Existing(q@, n@),
            PrAutomationAt::Creating(q) => PrAutomationState::Creating(q@),
            PrAutomationAt::Refinding(q) => PrAutomationState::Refinding(q@),
            PrAutomationAt::Labelling(q, n) => PrAutomationState::Labelling(q@, n@),
            PrAutomationAt::Describing(q, n, w) => PrAutomationState::Describing(q@, n@, w@),
            PrAutomationAt::Ending => PrAutomationState::Ending,
        }
    }
}

/// The generation context of a run's pull request.
pub open spec fn request_context(q: PrReq, n: Seq<char>) -> GenCtx {
    GenCtx { repo: q.repo, pr: n, base: q.base, head: q.head, worktree: q.worktree }
}

/// Labelling the pull request.
pub open spec fn label_step(q: PrReq, n: Seq<char>) -> (PrAutomationState, Act) {
    (
        PrAutomationState::Labelling(q, n),
        Act::Gh(crate::github::pr_labels_args(q.repo, n, seq!["pull-request"@]), GhExpect::Output),
    )
}

/// Whether `(next, act)` is a step the run may take.
pub open spec fn pr_automation_step(
    args: Seq<Seq<char>>,
    gh_repo: Option<Seq<char>>,
    github_repository: Option<Seq<char>>,
    at: PrAutomationState,
    reply: Reply,
    next: PrAutomationState,
    act: Act,
) -> bool {
    match at {
        PrAutomationState::Start => match repo_choice(args, gh_repo, github_repository) {
            Err(e) => next == at && act == failed(e),
            Ok(repo) => match (
                crate::args::flag_value(args, "--base"@),
                crate::args::flag_value(args, "--head"@),
                crate::args::flag_value(args, "--title"@),
            ) {
                (Err(_), _, _) => next == at && act == failed("Missing required flag --base"@),
                (Ok(_), Err(_), _) => next == at && act == failed("Missing required flag --head"@),
                (Ok(_), Ok(_), Err(_)) => next == at && act == failed("Missing required flag --title"@),
                (Ok(base), Ok(head), Ok(title)) => {
                    let q = PrReq { repo, base, head, title, worktree: flag_value_or(args, "--worktree"@, "."@) };
                    next == PrAutomationState::Finding(q) && act == Act::Gh(
                        crate::github::find_pr_args(repo, head, base),
                        GhExpect::Output,
                    )
                },
            },
        },
        PrAutomationState::Finding(q) => match reply {
            Reply::Text(Ok(out)) => match crate::github::optional_reference(out@, Some(ReferenceKind::PullRequest)) {
                Some(p) => next == PrAutomationState::Existing(q, decimal(p.value as nat)) && act == Act::Print(
                    "Pull request already exists: "@ + crate::reference::show_number_of(p.value),
                ),
                None => next == PrAutomationState::Creating(q) && act == Act::Gh(
                    crate::github::create_pr_args(
                        q.repo,
                        q.head,
                        q.base,
                        q.title,
                        "Preparing pull request body through automation."@,
                    ),
                    GhExpect::Output,
                ),
            },
            Reply::Text(Err(e)) => next == at && act == failed(e@),
            _ => next == at && act == failed(unexpected_reply()),
        },
        PrAutomationState::Existing(q, n) => (next, act) == label_step(q, n),
        PrAutomationState::Creating(q) => match reply {
            Reply::Text(Ok(_)) => next == PrAutomationState::Refinding(q) && act == Act::Gh(
                crate::github::find_pr_args(q.repo, q.head, q.base),
                GhExpect::Output,
            ),
            Reply::Text(Err(e)) => next == at && act == failed(e@),
            _ => next == at && act == failed(unexpected_reply()),
        },
        PrAutomationState::Refinding(q) => match reply {
            Reply::Text(Ok(out)) => match crate::github::optional_reference(out@, Some(ReferenceKind::PullRequest)) {
                Some(p) => (next, act) == label_step(q, decimal(p.value as nat)),
                None => next == at && act == failed("Failed to resolve the created pull request."@),
            },
            Reply::Text(Err(e)) => next == at && act == failed(e@),
            _ => next == at && act == failed(unexpected_reply()),
        },
        PrAutomationState::Labelling(q, n) => match reply {
            Reply::Text(Ok(_)) => next == PrAutomationState::Describing(q, n, WriteForState::Generating(GenerateState::Fetched))
                && act == Act::Tool("git"@, fetch_args(q.base, q.head), q.worktree, "git fetch"@),
            Reply::Text(Err(e)) => next == at && act == failed(e@),
            _ => next == at && act == failed(unexpected_reply()),
        },
        PrAutomationState::Describing(q, n, w) => exists|w2: WriteForState, act2: Act|
            write_for_step(request_context(q, n), w, reply, w2, act2) && if act2 == succeeded() {
                next == PrAutomationState::Ending && act == Act::Print(
                    "Pull request body synchronized for #"@ + n + "."@,
                )
            } else {
                next == PrAutomationState::Describing(q, n, w2) && act == act2
            },
        PrAutomationState::Ending => next == at && act == succeeded(),
    }
}

impl PullRequestAutomation {
    /// The command for the given arguments.
    pub fn new(args: CommandArgs) -> (r: Self)
        ensures
            r.args == args,
    {
        Self { args }
    }

    fn label(&self, q: PrRequest, n: String) -> (r: (PrAutomationAt, Action))
        ensures
            (r.0@, r.1@) == label_step(q@, n@),
    {
        let mut labels: Vec<String> = Vec::new();
        crate::pr_body::push_line(&mut labels, "pull-request");
        assert(strings_view(labels@) =~= seq!["pull-request"@]);
        let call = GitHubCli.add_pull_request_labels(q.repo.as_str(), n.as_str(), &labels);
        (PrAutomationAt::Labelling(q, n), gh(call))
    }

    fn describing(&self, q: PrRequest, n: String, w: WriteForAt, reply: Reply) -> (r: (PrAutomationAt, Action))
        ensures
            pr_automation_step(Seq::empty(), None, None, PrAutomationState::Describing(q@, n@, w@), reply, r.0@, r.1@),
    {
        let ghost (qv, nv, wv, rv) = (q@, n@, w@, reply);
        let sync = PrBodyContractSync::new(CommandArgs::new(Vec::new()));
        let (w2, act) = sync.generate_and_write_for(
            q.repo.as_str(),
            n.as_str(),
            q.base.as_str(),
            q.head.as_str(),
            q.worktree.as_str(),
            w,
            reply,
        );
        let ghost (w2v, av) = (w2@, act@);
        let done = match &act {
            Action::Finish(Ok(())) => true,
            _ => false,
        };
        assert(done == (av == succeeded()));
        let res = if done {
            let m = concat3("Pull request body synchronized for #", n.as_str(), ".");
            (PrAutomationAt::Ending, Action::Print(m))
        } else {
            (PrAutomationAt::Describing(q, n, w2), act)
        };
        assert(write_for_step(request_context(qv, nv), wv, rv, w2v, av));
        assert(if av == succeeded() {
            res.0@ == PrAutomationState::Ending && res.1@ == Act::Print(
                "Pull request body synchronized for #"@ + nv + "."@,
            )
        } else {
            res.0@ == PrAutomationState::Describing(qv, nv, w2v) && res.1@ == av
        });
        res
    }

    /// One step of the run: finds the open pull request from `--head` into
    /// `--base` or creates it with `--title`, labels it `pull-request` and
    /// writes its generated description. `gh_repo` and `github_repository`
    /// are the environment's `GH_REPO` and `GITHUB_REPOSITORY`.
    pub fn create_or_update_pull_request(
        &self,
        gh_repo: Option<String>,
        github_repository: Option<String>,
        at: PrAutomationAt,
        reply: Reply,
    ) -> (r: (PrAutomationAt, Action))
        ensures
            pr_automation_step(
                args_view(self.args.args@),
                opt_string_view(gh_repo),
                opt_string_view(github_repository),
                at@,
                reply,
                r.0@,
                r.1@,
            ),
    {
        let github = GitHubCli;
        match at {
            PrAutomationAt::Start => {
                let repo = match self.args.resolve_repo(gh_repo, github_repository) {
                    Ok(r) => r,
                    Err(e) => {
                        return (PrAutomationAt::Start, fail(e));
                    },
                };
                let base = match self.args.flag_lookup("--base") {
                    Ok(v) => v,
                    Err(_) => {
                        return (PrAutomationAt::Start, fail(copy_str("Missing required flag --base")));
                    },
                };
                let head = match self.args.flag_lookup("--head") {
                    Ok(v) => v,
                    Err(_) => {
                        return (PrAutomationAt::Start, fail(copy_str("Missing required flag --head")));
                    },
                };
                let title = match self.args.flag_lookup("--title") {
                    Ok(v) => v,
                    Err(_) => {
                        return (PrAutomationAt::Start, fail(copy_str("Missing required flag --title")));
                    },
                };
                let worktree = self.args.extract_flag_value_or("--worktree", ".");
                let call = github.find_open_pull_request(repo.as_str(), head.as_str(), base.as_str());
                (PrAutomationAt::Finding(PrRequest { repo, base, head, title, worktree }), gh(call))
            },
            PrAutomationAt::Finding(q) => match reply {
                Reply::Text(Ok(out)) => match github.read_optional_reference_command(
                    out.as_str(),
                    Some(ReferenceKind::PullRequest),
                ) {
                    Some(p) => {
                        let m = concat2("Pull request already exists: ", p.show_number().as_str());
                        (PrAutomationAt::Existing(q, p.as_string()), Action::Print(m))
                    },
                    None => {
                        let call = github.create_pull_request(
                            q.repo.as_str(),
                            q.head.as_str(),
                            q.base.as_str(),
                            q.title.as_str(),
                            "Preparing pull request body through automation.",
                        );
                        (PrAutomationAt::Creating(q), gh(call))
                    },
                },
                Reply::Text(Err(e)) => (PrAutomationAt::Finding(q), fail(e)),
                _ => (PrAutomationAt::Finding(q), fail_unexpected()),
            },
            PrAutomationAt::Existing(q, n) => self.label(q, n),
            PrAutomationAt::Creating(q) => match reply {
                Reply::Text(Ok(_)) => {
                    let call = github.find_open_pull_request(q.repo.as_str(), q.head.as_str(), q.base.as_str());
                    (PrAutomationAt::Refinding(q), gh(call))
                },
                Reply::Text(Err(e)) => (PrAutomationAt::Creating(q), fail(e)),
                _ => (PrAutomationAt::Creating(q), fail_unexpected()),
            },
            PrAutomationAt::Refinding(q) => match reply {
                Reply::Text(Ok(out)) => match github.read_optional_reference_command(
                    out.as_str(),
                    Some(ReferenceKind::PullRequest),
                ) {
                    Some(p) => self.label(q, p.as_string()),
                    None => (
                        PrAutomationAt::Refinding(q),
                        fail(copy_str("Failed to resolve the created pull request.")),
                    ),
                },
                Reply::Text(Err(e)) => (PrAutomationAt::Refinding(q), fail(e)),
                _ => (PrAutomationAt::Refinding(q), fail_unexpected()),
            },
            PrAutomationAt::Labelling(q, n) => match reply {
                Reply::Text(Ok(_)) => {
                    let call = GitCli.fetch_branches(q.worktree.as_str(), q.base.as_str(), q.head.as_str());
                    (PrAutomationAt::Describing(q, n, WriteForAt::Generating(GenerateAt::Fetched)), Action::Tool(call))
                },
                Reply::Text(Err(e)) => (PrAutomationAt::Labelling(q, n), fail(e)),
                _ => (PrAutomationAt::Labelling(q, n), fail_unexpected()),
            },
            PrAutomationAt::Describing(q, n, w) => self.describing(q, n, w, reply),
            PrAutomationAt::Ending => (PrAutomationAt::Ending, crate::workflow::finish_ok()),
        }
    }
}

} // verus!
