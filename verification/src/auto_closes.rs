//! Adds `Closes #<n>` lines to an open pull request into `dev` for each issue
//! it is `Part of` that is assigned to the pull request's author alone.

use vstd::prelude::*;

use crate::args::{args_view, flag_reference, opt_string_view, repo_choice, CommandArgs};
use crate::body_block::{replaced_text, ManagedBodyBlock};
use crate::github::{
    assignees_args, edit_body_args, nonempty_lines, pr_author_args, pr_commits_args,
    pr_field_args, GhExpect, GitHubCli,
};
use crate::patterns::strings_view;
use crate::reference::{
    collected_references, show_number_of, text_lines, LineFilter, ReferenceKind, ReferenceNumber,
    ReferenceText,
};
use crate::text::{copy_str, decimal, join, join_strings, lines, str_eq};
use crate::workflow::{fail, fail_unexpected, failed, gh, unexpected_reply, Act, Action, Reply};

verus! {

/// The first line of the managed block.
pub const AUTO_CLOSES_START: &'static str = "<!-- auto-closes:start -->";

/// The last line of the managed block.
pub const AUTO_CLOSES_END: &'static str = "<!-- auto-closes:end -->";

/// Which references to extract.
#[derive(Clone, Copy, Debug, PartialEq, Eq, Structural)]
pub enum ExtractAction {
    /// References on lines saying `closes` or `fixes`.
    Closes,
    /// References on lines saying `part of`.
    PartOf,
}

/// The lines an extraction reads.
pub open spec fn action_filter(a: ExtractAction) -> LineFilter {
    match a {
        ExtractAction::Closes => LineFilter::ClosingKeyword,
        ExtractAction::PartOf => LineFilter::PartOf,
    }
}

/// `Closes #<n>\n` for each reference.
pub open spec fn closes_lines(refs: Seq<ReferenceNumber>) -> Seq<char>
    decreases refs.len(),
{
    if refs.len() == 0 {
        Seq::<char>::empty()
    } else {
        closes_lines(refs.drop_last()) + "Closes "@ + show_number_of(refs.last().value) + "\n"@
    }
}

/// The managed block listing the closing references.
pub open spec fn managed_block(refs: Seq<ReferenceNumber>) -> Seq<char> {
    AUTO_CLOSES_START@ + "\n### Auto-managed Issue Closures\n"@ + closes_lines(refs) + AUTO_CLOSES_END@
}

/// The body with its managed block replaced by one closing `refs`.
pub open spec fn updated_body(body: Seq<char>, refs: Seq<ReferenceNumber>) -> Seq<char> {
    replaced_text(body, AUTO_CLOSES_START@, AUTO_CLOSES_END@, managed_block(refs))
}

/// The text searched for references: title, body and commit messages.
pub open spec fn pr_payload(title: Seq<char>, body: Seq<char>, messages: Seq<Seq<char>>) -> Seq<char> {
    join(seq![title, body, join(messages, "\n"@)], "\n"@)
}

/// Whether some reference of `refs` has number `v`.
pub open spec fn has_number(refs: Seq<ReferenceNumber>, v: u64) -> bool {
    exists|k: int| 0 <= k < refs.len() && refs[k].value == v
}

/// The first index from `i` on whose issue is not closed already.
pub open spec fn next_candidate(part_of: Seq<ReferenceNumber>, closing: Seq<ReferenceNumber>, i: int) -> int
    decreases part_of.len() - i,
{
    if i < 0 || i >= part_of.len() {
        part_of.len() as int
    } else if has_number(closing, part_of[i].value) {
        next_candidate(part_of, closing, i + 1)
    } else {
        i
    }
}

/// The command adding closing references.
pub struct PrAutoClosesEnrichment {
    pub args: CommandArgs,
}

/// The repository and pull request of a run.
pub struct PrContext {
    pub repo: String,
    pub pr_number: String,
}

/// The view of a run's context.
pub struct PrCtx {
    pub repo: Seq<char>,
    pub pr: Seq<char>,
}

impl View for PrContext {
    type V = PrCtx;

    open spec fn view(&self) -> PrCtx {
        PrCtx { repo: self.repo@, pr: self.pr_number@ }
    }
}

/// What a run has read when it checks the issues it is part of.
pub struct Scan {
    pub author: String,
    pub body: String,
    pub part_of: Vec<ReferenceNumber>,
    pub closing: Vec<ReferenceNumber>,
    /// The issues to close, so far.
    pub selected: Vec<ReferenceNumber>,
}

/// The view of a scan.
pub struct ScanV {
    pub author: Seq<char>,
    pub body: Seq<char>,
    pub part_of: Seq<ReferenceNumber>,
    pub closing: Seq<ReferenceNumber>,
    pub selected: Seq<ReferenceNumber>,
}

impl View for Scan {
    type V = ScanV;

    open spec fn view(&self) -> ScanV {
        ScanV {
            author: self.author@,
            body: self.body@,
            part_of: self.part_of@,
            closing: self.closing@,
            selected: self.selected@,
        }
    }
}

/// Where a run stands.
pub enum AutoClosesAt {
    Start,
    /// The state was asked.
    State(PrContext),
    /// The base branch was asked.
    Base(PrContext),
    /// The author was asked.
    Author(PrContext),
    /// The body was asked; the author follows.
    Body(PrContext, String),
    /// The title was asked; author and body follow.
    Title(PrContext, String, String),
    /// The commit messages were asked; author, body and title follow.
    Commits(PrContext, String, String, String),
    /// The assignees of `part_of[i]` were asked.
    Assignees(PrContext, Scan, usize),
    /// The new body was sent.
    Updating(PrContext),
    /// A last message was printed.
    Ending,
}

/// The view of where a run stands.
pub enum AutoClosesState {
    Start,
    State(PrCtx),
    Base(PrCtx),
    Author(PrCtx),
    Body(PrCtx, Seq<char>),
    Title(PrCtx, Seq<char>, Seq<char>),
    Commits(PrCtx, Seq<char>, Seq<char>, Seq<char>),
    Assignees(PrCtx, ScanV, int),
    Updating(PrCtx),
    Ending,
}

impl View for AutoClosesAt {
    type V = AutoClosesState;

    open spec fn view(&self) -> AutoClosesState {
        match self {
            AutoClosesAt::Start => AutoClosesState::Start,
            AutoClosesAt::State(c) => AutoClosesState::State(c@),
            AutoClosesAt::Base(c) => AutoClosesState::Base(c@),
            AutoClosesAt::Author(c) => AutoClosesState::Author(c@),
            AutoClosesAt::Body(c, a) => AutoClosesState::Body(c@, a@),
            AutoClosesAt::Title(c, a, b) => AutoClosesState::Title(c@, a@, b@),
            AutoClosesAt::Commits(c, a, b, t) => AutoClosesState::Commits(c@, a@, b@, t@),
            AutoClosesAt::Assignees(c, s, i) => AutoClosesState::Assignees(c@, s@, *i as int),
            AutoClosesAt::Updating(c) => AutoClosesState::Updating(c@),
            AutoClosesAt::Ending => AutoClosesState::Ending,
        }
    }
}

/// `PR #<n><rest>`.
pub open spec fn pr_message(pr: Seq<char>, rest: Seq<char>) -> Seq<char> {
    "PR #"@ + pr + rest
}

/// Printing a last message.
pub open spec fn say(m: Seq<char>) -> (AutoClosesState, Act) {
    (AutoClosesState::Ending, Act::Print(m))
}

/// Going on with the issues from index `i`: ask the assignees of the next
/// issue not closed already; past the last one, write the body when it
/// changes.
pub open spec fn scan_step(c: PrCtx, s: ScanV, i: int) -> (AutoClosesState, Act) {
    let j = next_candidate(s.part_of, s.closing, i);
    if j < s.part_of.len() {
        (
            AutoClosesState::Assignees(c, s, j),
            Act::Gh(assignees_args(c.repo, decimal(s.part_of[j].value as nat)), GhExpect::Output),
        )
    } else if s.selected.len() == 0 {
        say(pr_message(c.pr, ": no qualifying single-assignee issue found; nothing to enrich."@))
    } else if updated_body(s.body, s.selected) == s.body {
        say(pr_message(c.pr, ": body already up-to-date."@))
    } else {
        (
            AutoClosesState::Updating(c),
            Act::Gh(edit_body_args(c.repo, c.pr, updated_body(s.body, s.selected)), GhExpect::Output),
        )
    }
}

/// The next state and action of a run, the environment's `GH_REPO` and
/// `GITHUB_REPOSITORY` given.
pub open spec fn auto_closes_next(
    args: Seq<Seq<char>>,
    gh_repo: Option<Seq<char>>,
    github_repository: Option<Seq<char>>,
    at: AutoClosesState,
    reply: Reply,
) -> (AutoClosesState, Act) {
    match at {
        AutoClosesState::Start => match repo_choice(args, gh_repo, github_repository) {
            Err(e) => (at, failed(e)),
            Ok(repo) => match flag_reference(args, "--pr"@, Some(ReferenceKind::PullRequest)) {
                None => (at, failed("Invalid or missing pr."@)),
                Some(pr) => {
                    let c = PrCtx { repo, pr: decimal(pr.value as nat) };
                    (AutoClosesState::State(c), Act::Gh(pr_field_args(c.repo, c.pr, "state"@), GhExpect::Output))
                },
            },
        },
        AutoClosesState::State(c) => match reply {
            Reply::Text(Ok(state)) => if state@ != "OPEN"@ {
                say(pr_message(c.pr, " is not open; skipping."@))
            } else {
                (AutoClosesState::Base(c), Act::Gh(pr_field_args(c.repo, c.pr, "baseRefName"@), GhExpect::Output))
            },
            Reply::Text(Err(e)) => (at, failed(e@)),
            _ => (at, failed(unexpected_reply())),
        },
        AutoClosesState::Base(c) => match reply {
            Reply::Text(Ok(base)) => if base@ != "dev"@ {
                say(pr_message(c.pr, " does not target dev; skipping."@))
            } else {
                (AutoClosesState::Author(c), Act::Gh(pr_author_args(c.repo, c.pr), GhExpect::Output))
            },
            Reply::Text(Err(e)) => (at, failed(e@)),
            _ => (at, failed(unexpected_reply())),
        },
        AutoClosesState::Author(c) => match reply {
            Reply::Text(Ok(author)) => if author@.len() == 0 {
                say(pr_message(c.pr, ": author login unavailable; skipping."@))
            } else {
                (
                    AutoClosesState::Body(c, author@),
                    Act::Gh(pr_field_args(c.repo, c.pr, "body"@), GhExpect::Output),
                )
            },
            Reply::Text(Err(e)) => (at, failed(e@)),
            _ => (at, failed(unexpected_reply())),
        },
        AutoClosesState::Body(c, author) => match reply {
            Reply::Text(Ok(body)) => (
                AutoClosesState::Title(c, author, body@),
                Act::Gh(pr_field_args(c.repo, c.pr, "title"@), GhExpect::Output),
            ),
            Reply::Text(Err(e)) => (at, failed(e@)),
            _ => (at, failed(unexpected_reply())),
        },
        AutoClosesState::Title(c, author, body) => match reply {
            Reply::Text(Ok(title)) => (
                AutoClosesState::Commits(c, author, body, title@),
                Act::Gh(pr_commits_args(c.repo, c.pr), GhExpect::Output),
            ),
            Reply::Text(Err(e)) => (at, failed(e@)),
            _ => (at, failed(unexpected_reply())),
        },
        AutoClosesState::Commits(c, author, body, title) => match reply {
            Reply::Text(Ok(out)) => {
                let payload = pr_payload(title, body, nonempty_lines(lines(out@)));
                let part_of = collected_references(lines(payload), LineFilter::PartOf);
                let closing = collected_references(lines(payload), LineFilter::ClosingKeyword);
                if part_of.len() == 0 {
                    say(pr_message(c.pr, ": no Part of refs detected; nothing to enrich."@))
                } else {
                    scan_step(
                        c,
                        ScanV { author, body, part_of, closing, selected: Seq::<ReferenceNumber>::empty() },
                        0,
                    )
                }
            },
            Reply::Text(Err(e)) => (at, failed(e@)),
            _ => (at, failed(unexpected_reply())),
        },
        AutoClosesState::Assignees(c, s, i) => match reply {
            Reply::Text(Ok(out)) => if 0 <= i < s.part_of.len() {
                let logins = nonempty_lines(lines(out@));
                let s2 = if logins.len() == 1 && logins[0] == s.author {
                    ScanV { selected: s.selected.push(s.part_of[i]), ..s }
                } else {
                    s
                };
                scan_step(c, s2, i + 1)
            } else {
                (at, failed(unexpected_reply()))
            },
            Reply::Text(Err(e)) => (at, failed(e@)),
            _ => (at, failed(unexpected_reply())),
        },
        AutoClosesState::Updating(c) => match reply {
            Reply::Text(Ok(_)) => say(pr_message(c.pr, ": updated body with auto-managed Closes refs."@)),
            Reply::Text(Err(e)) => (at, failed(e@)),
            _ => (at, failed(unexpected_reply())),
        },
        AutoClosesState::Ending => (at, Act::Finish(Ok(()))),
    }
}

/// An issue joins the managed `Closes` block only when its assignees are
/// exactly one login, the pull request's author: with no assignee, another
/// one, or two and more, the scan goes on to the next issue with the
/// selection unchanged.
pub proof fn lemma_single_assignee_selected(
    args: Seq<Seq<char>>,
    gh_repo: Option<Seq<char>>,
    github_repository: Option<Seq<char>>,
    c: PrCtx,
    s: ScanV,
    i: int,
    out: String,
)
    requires
        0 <= i < s.part_of.len(),
    ensures
        nonempty_lines(lines(out@)) == seq![s.author] ==> auto_closes_next(
            args,
            gh_repo,
            github_repository,
            AutoClosesState::Assignees(c, s, i),
            Reply::Text(Ok(out)),
        ) == scan_step(c, (ScanV { selected: s.selected.push(s.part_of[i]), ..s }), i + 1),
        nonempty_lines(lines(out@)) != seq![s.author] ==> auto_closes_next(
            args,
            gh_repo,
            github_repository,
            AutoClosesState::Assignees(c, s, i),
            Reply::Text(Ok(out)),
        ) == scan_step(c, s, i + 1),
        nonempty_lines(lines(out@)).len() >= 2 ==> auto_closes_next(
            args,
            gh_repo,
            github_repository,
            AutoClosesState::Assignees(c, s, i),
            Reply::Text(Ok(out)),
        ) == scan_step(c, s, i + 1),
{
    let logins = nonempty_lines(lines(out@));
    if logins.len() == 1 && logins[0] == s.author {
        assert(logins =~= seq![s.author]);
    }
}

fn pr_text(pr: &str, rest: &str) -> (r: String)
    ensures
        r@ == pr_message(pr@, rest@),
{
    crate::text::concat3("PR #", pr, rest)
}

fn closes_text(refs: &Vec<ReferenceNumber>) -> (r: String)
    ensures
        r@ == closes_lines(refs@),
{
    let mut out = String::new();
    let mut i: usize = 0;
    while i < refs.len()
        invariant
            i <= refs.len(),
            out@ == closes_lines(refs@.take(i as int)),
        decreases refs.len() - i,
    {
        assert(refs@.take(i + 1).drop_last() =~= refs@.take(i as int));
        out.append("Closes ");
        out.append(refs[i].show_number().as_str());
        out.append("\n");
        i += 1;
    }
    assert(refs@.take(refs.len() as int) =~= refs@);
    out
}

fn has_number_exec(refs: &Vec<ReferenceNumber>, v: u64) -> (r: bool)
    ensures
        r == has_number(refs@, v),
{
    let mut i: usize = 0;
    while i < refs.len()
        invariant
            i <= refs.len(),
            forall|k: int| 0 <= k < i ==> refs@[k].value != v,
        decreases refs.len() - i,
    {
        if refs[i].value == v {
            return true;
        }
        i += 1;
    }
    false
}

impl PrAutoClosesEnrichment {
    /// The command for the given arguments.
    pub fn new(args: CommandArgs) -> (r: Self)
        ensures
            r.args == args,
    {
        Self { args }
    }

    /// The issue references of the lines of `text` that `action` reads, each
    /// number once, in order of first appearance.
    pub fn extract_issue_numbers(&self, text: &str, action: ExtractAction) -> (r: Vec<
        ReferenceNumber,
    >)
        ensures
            r@ == collected_references(lines(text@), action_filter(action)),
    {
        let ls = text_lines(text);
        let filter = match action {
            ExtractAction::Closes => LineFilter::ClosingKeyword,
            ExtractAction::PartOf => LineFilter::PartOf,
        };
        ReferenceText::collect_issue_references(&ls, filter)
    }

    /// The body with its managed block replaced by one closing each issue of
    /// `closes_to_add`.
    pub fn build_updated_body(&self, pr_body: &str, closes_to_add: &Vec<ReferenceNumber>) -> (r:
        String)
        ensures
            r@ == updated_body(pr_body@, closes_to_add@),
    {
        let mut block = copy_str(AUTO_CLOSES_START);
        block.append("\n### Auto-managed Issue Closures\n");
        block.append(closes_text(closes_to_add).as_str());
        block.append(AUTO_CLOSES_END);
        ManagedBodyBlock::replace(pr_body, AUTO_CLOSES_START, AUTO_CLOSES_END, block.as_str())
    }

    fn scan_from(&self, c: PrContext, s: Scan, i: usize) -> (r: (AutoClosesAt, Action))
        ensures
            (r.0@, r.1@) == scan_step(c@, s@, i as int),
    {
        let github = GitHubCli;
        let mut j = i;
        while j < s.part_of.len() && has_number_exec(&s.closing, s.part_of[j].value)
            invariant
                i <= j,
                next_candidate(s.part_of@, s.closing@, i as int) == next_candidate(
                    s.part_of@,
                    s.closing@,
                    j as int,
                ),
            decreases s.part_of.len() - j,
        {
            j += 1;
        }
        if j < s.part_of.len() {
            let call = github.issue_assignees_call(c.repo.as_str(), s.part_of[j].as_string().as_str());
            return (AutoClosesAt::Assignees(c, s, j), gh(call));
        }
        if s.selected.len() == 0 {
            let m = pr_text(
                c.pr_number.as_str(),
                ": no qualifying single-assignee issue found; nothing to enrich.",
            );
            return (AutoClosesAt::Ending, Action::Print(m));
        }
        let new_body = self.build_updated_body(s.body.as_str(), &s.selected);
        if str_eq(new_body.as_str(), s.body.as_str()) {
            let m = pr_text(c.pr_number.as_str(), ": body already up-to-date.");
            return (AutoClosesAt::Ending, Action::Print(m));
        }
        let call = github.update_pull_request_body(
            c.repo.as_str(),
            c.pr_number.as_str(),
            new_body.as_str(),
        );
        (AutoClosesAt::Updating(c), gh(call))
    }

    /// One step of the run: checks that the pull request is open, targets
    /// `dev` and has an author; collects the issues it is `Part of` and
    /// those it closes; asks the assignees of each issue not closed yet, and
    /// writes a managed block closing those assigned to the author alone.
    pub fn run(
        &self,
        gh_repo: Option<String>,
        github_repository: Option<String>,
        at: AutoClosesAt,
        reply: Reply,
    ) -> (r: (AutoClosesAt, Action))
        ensures
            (r.0@, r.1@) == auto_closes_next(
                args_view(self.args.args@),
                opt_string_view(gh_repo),
                opt_string_view(github_repository),
                at@,
                reply,
            ),
    {
        let github = GitHubCli;
        match at {
            AutoClosesAt::Start => {
                let repo = match self.args.resolve_repo(gh_repo, github_repository) {
                    Ok(r) => r,
                    Err(e) => {
                        return (AutoClosesAt::Start, fail(e));
                    },
                };
                let pr = match self.args.resolve_pull_request_number("--pr") {
                    Ok(p) => p,
                    Err(e) => {
                        return (AutoClosesAt::Start, fail(e));
                    },
                };
                let c = PrContext { repo, pr_number: pr.as_string() };
                let call = github.read_pull_request_field(c.repo.as_str(), c.pr_number.as_str(), "state");
                (AutoClosesAt::State(c), gh(call))
            },
            AutoClosesAt::State(c) => match reply {
                Reply::Text(Ok(state)) => {
                    if !str_eq(state.as_str(), "OPEN") {
                        return (
                            AutoClosesAt::Ending,
                            Action::Print(pr_text(c.pr_number.as_str(), " is not open; skipping.")),
                        );
                    }
                    let call = github.read_pull_request_field(
                        c.repo.as_str(),
                        c.pr_number.as_str(),
                        "baseRefName",
                    );
                    (AutoClosesAt::Base(c), gh(call))
                },
                Reply::Text(Err(e)) => (AutoClosesAt::State(c), fail(e)),
                _ => (AutoClosesAt::State(c), fail_unexpected()),
            },
            AutoClosesAt::Base(c) => match reply {
                Reply::Text(Ok(base)) => {
                    if !str_eq(base.as_str(), "dev") {
                        return (
                            AutoClosesAt::Ending,
                            Action::Print(pr_text(c.pr_number.as_str(), " does not target dev; skipping.")),
                        );
                    }
                    let call = github.read_pull_request_author_login(c.repo.as_str(), c.pr_number.as_str());
                    (AutoClosesAt::Author(c), gh(call))
                },
                Reply::Text(Err(e)) => (AutoClosesAt::Base(c), fail(e)),
                _ => (AutoClosesAt::Base(c), fail_unexpected()),
            },
            AutoClosesAt::Author(c) => match reply {
                Reply::Text(Ok(author)) => {
                    if author.as_str().is_empty() {
                        return (
                            AutoClosesAt::Ending,
                            Action::Print(
                                pr_text(c.pr_number.as_str(), ": author login unavailable; skipping."),
                            ),
                        );
                    }
                    let call = github.read_pull_request_field(c.repo.as_str(), c.pr_number.as_str(), "body");
                    (AutoClosesAt::Body(c, author), gh(call))
                },
                Reply::Text(Err(e)) => (AutoClosesAt::Author(c), fail(e)),
                _ => (AutoClosesAt::Author(c), fail_unexpected()),
            },
            AutoClosesAt::Body(c, author) => match reply {
                Reply::Text(Ok(body)) => {
                    let call = github.read_pull_request_field(c.repo.as_str(), c.pr_number.as_str(), "title");
                    (AutoClosesAt::Title(c, author, body), gh(call))
                },
                Reply::Text(Err(e)) => (AutoClosesAt::Body(c, author), fail(e)),
                _ => (AutoClosesAt::Body(c, author), fail_unexpected()),
            },
            AutoClosesAt::Title(c, author, body) => match reply {
                Reply::Text(Ok(title)) => {
                    let call = github.pull_request_commits_call(c.repo.as_str(), c.pr_number.as_str());
                    (AutoClosesAt::Commits(c, author, body, title), gh(call))
                },
                Reply::Text(Err(e)) => (AutoClosesAt::Title(c, author, body), fail(e)),
                _ => (AutoClosesAt::Title(c, author, body), fail_unexpected()),
            },
            AutoClosesAt::Commits(c, author, body, title) => match reply {
                Reply::Text(Ok(out)) => {
                    let messages = github.read_pull_request_commit_messages(out.as_str());
                    let mut parts: Vec<String> = Vec::new();
                    parts.push(copy_str(title.as_str()));
                    parts.push(copy_str(body.as_str()));
                    parts.push(join_strings(&messages, "\n"));
                    assert(messages@.map_values(|p: String| p@) =~= strings_view(messages@));
                    assert(strings_view(parts@) =~= seq![title@, body@, join(strings_view(messages@), "\n"@)]);
                    let payload = ReferenceText::build_payload(&parts);
                    let part_of = self.extract_issue_numbers(payload.as_str(), ExtractAction::PartOf);
                    let closing = self.extract_issue_numbers(payload.as_str(), ExtractAction::Closes);
                    if part_of.len() == 0 {
                        return (
                            AutoClosesAt::Ending,
                            Action::Print(
                                pr_text(
                                    c.pr_number.as_str(),
                                    ": no Part of refs detected; nothing to enrich.",
                                ),
                            ),
                        );
                    }
                    let s = Scan { author, body, part_of, closing, selected: Vec::new() };
                    assert(s@.selected =~= Seq::<ReferenceNumber>::empty());
                    self.scan_from(c, s, 0)
                },
                Reply::Text(Err(e)) => (AutoClosesAt::Commits(c, author, body, title), fail(e)),
                _ => (AutoClosesAt::Commits(c, author, body, title), fail_unexpected()),
            },
            AutoClosesAt::Assignees(c, s, i) => match reply {
                Reply::Text(Ok(out)) => {
                    if i >= s.part_of.len() {
                        return (AutoClosesAt::Assignees(c, s, i), fail_unexpected());
                    }
                    let logins = github.read_issue_assignee_logins(out.as_str());
                    let mut s = s;
                    if logins.len() == 1 && str_eq(logins[0].as_str(), s.author.as_str()) {
                        let issue = s.part_of[i];
                        s.selected.push(issue);
                    }
                    self.scan_from(c, s, i + 1)
                },
                Reply::Text(Err(e)) => (AutoClosesAt::Assignees(c, s, i), fail(e)),
                _ => (AutoClosesAt::Assignees(c, s, i), fail_unexpected()),
            },
            AutoClosesAt::Updating(c) => match reply {
                Reply::Text(Ok(_)) => (
                    AutoClosesAt::Ending,
                    Action::Print(
                        pr_text(c.pr_number.as_str(), ": updated body with auto-managed Closes refs."),
                    ),
                ),
                Reply::Text(Err(e)) => (AutoClosesAt::Updating(c), fail(e)),
                _ => (AutoClosesAt::Updating(c), fail_unexpected()),
            },
            AutoClosesAt::Ending => (AutoClosesAt::Ending, crate::workflow::finish_ok()),
        }
    }
}

} // verus!
