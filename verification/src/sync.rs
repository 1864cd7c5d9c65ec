//! Keeping `dev` in step with `main`: the sync branch, its pull request and
//! its merge.

use vstd::prelude::*;

use crate::args::{args_view, flag_reference, flag_value_or, opt_string_view, repo_choice, CommandArgs};
use crate::github::{
    branch_ref_args, branch_sha_args, create_pr_args, create_ref_args, find_pr_args, merge_args,
    optional_reference, pr_field_args, pr_labels_args, pr_number_args, update_ref_args, GhCall,
    GhExpect, GitHubCli,
};
use crate::patterns::strings_view;
use crate::reference::{
    parsed_reference, references_in_text, show_number_of, ReferenceInput, ReferenceKind,
    ReferenceNumber,
};
use crate::text::{concat2, concat3, copy_str, decimal, str_eq};
use crate::workflow::{fail, fail_unexpected, failed, gh, succeeded, unexpected_reply, Act, Action, Reply};

verus! {

/// The command keeping the sync branch and its pull request.
pub struct AutomationSync {
    pub args: CommandArgs,
}

/// The repository and branches of a run.
pub struct SyncContext {
    pub repo: String,
    pub source: String,
    pub target: String,
    pub sync: String,
}

/// The view of a run's context.
pub struct SyncCtx {
    pub repo: Seq<char>,
    pub source: Seq<char>,
    pub target: Seq<char>,
    pub sync: Seq<char>,
}

impl View for SyncContext {
    type V = SyncCtx;

    open spec fn view(&self) -> SyncCtx {
        SyncCtx { repo: self.repo@, source: self.source@, target: self.target@, sync: self.sync@ }
    }
}

/// The context the flags give: `--source-branch` (`main`), `--target-branch`
/// (`dev`) and `--sync-branch` (`sync/main-into-dev`).
pub open spec fn sync_context(args: Seq<Seq<char>>, repo: Seq<char>) -> SyncCtx {
    SyncCtx {
        repo,
        source: flag_value_or(args, "--source-branch"@, "main"@),
        target: flag_value_or(args, "--target-branch"@, "dev"@),
        sync: flag_value_or(args, "--sync-branch"@, "sync/main-into-dev"@),
    }
}

/// The title of the sync pull request.
pub open spec fn sync_title(source: Seq<char>, target: Seq<char>) -> Seq<char> {
    "Sync "@ + source + " into "@ + target
}

/// The body of the sync pull request.
pub open spec fn sync_body(source: Seq<char>, target: Seq<char>) -> Seq<char> {
    "Automated sync pull request from `"@ + source + "` into `"@ + target + "`."@
}

/// The pull request number taken from the `PR_NUMBER` variable: set, not
/// empty, not `null`, and a number.
pub open spec fn env_pr_number(v: Option<Seq<char>>) -> Option<ReferenceNumber> {
    match v {
        Some(s) => if s.len() == 0 || s == "null"@ {
            None
        } else {
            match parsed_reference(s) {
                Some(r) => Some(ReferenceNumber { value: r.value, kind: Some(ReferenceKind::PullRequest) }),
                None => None,
            }
        },
        None => None,
    }
}

/// The pull request to merge: `--pr-number`, else `PR_NUMBER`.
pub open spec fn merge_reference(args: Seq<Seq<char>>, env_pr: Option<Seq<char>>) -> Option<ReferenceNumber> {
    match flag_reference(args, "--pr-number"@, Some(ReferenceKind::PullRequest)) {
        Some(r) => Some(r),
        None => env_pr_number(env_pr),
    }
}

/// The error when no pull request number is given.
pub open spec fn missing_pr_number() -> Seq<char> {
    "Missing --pr-number and PR_NUMBER"@
}

/// What the two lookups make of a reference: a pull request when the pulls
/// endpoint knows it; otherwise an error, saying whether the issues endpoint
/// knows it.
pub open spec fn pull_request_resolution(p: ReferenceNumber, is_pull: bool, is_issue: bool) -> Result<
    ReferenceNumber,
    Seq<char>,
> {
    if is_pull {
        Ok(ReferenceNumber { value: p.value, kind: Some(ReferenceKind::PullRequest) })
    } else if is_issue {
        Err("Reference "@ + show_number_of(p.value) + " resolved to an issue, not a pull request."@)
    } else {
        Err("Reference "@ + show_number_of(p.value) + " was not found as a pull request."@)
    }
}

impl AutomationSync {
    /// The command for the given arguments.
    pub fn new(args: CommandArgs) -> (r: Self)
        ensures
            r.args == args,
    {
        Self { args }
    }

    fn context(&self, repo: String) -> (r: SyncContext)
        ensures
            r@ == sync_context(args_view(self.args.args@), repo@),
    {
        SyncContext {
            repo,
            source: self.args.extract_flag_value_or("--source-branch", "main"),
            target: self.args.extract_flag_value_or("--target-branch", "dev"),
            sync: self.args.extract_flag_value_or("--sync-branch", "sync/main-into-dev"),
        }
    }

    /// The read of a branch's head sha.
    pub fn read_branch_sha(&self, repo: &str, branch: &str) -> (r: GhCall)
        ensures
            strings_view(r.args@) == branch_sha_args(repo@, branch@),
            r.expect == GhExpect::Output,
    {
        GitHubCli.read_branch_sha(repo, branch)
    }

    /// Whether the sync branch exists.
    pub fn sync_branch_exists(&self, repo: &str, sync_branch: &str) -> (r: GhCall)
        ensures
            strings_view(r.args@) == branch_ref_args(repo@, sync_branch@),
            r.expect == GhExpect::Status,
    {
        GitHubCli.branch_exists(repo, sync_branch)
    }

    /// Moves the sync branch to a sha.
    pub fn update_sync_branch(&self, repo: &str, sync_branch: &str, source_sha: &str) -> (r: GhCall)
        ensures
            strings_view(r.args@) == update_ref_args(repo@, sync_branch@, source_sha@),
            r.expect == GhExpect::Output,
    {
        GitHubCli.update_branch_ref(repo, sync_branch, source_sha)
    }

    /// Creates the sync branch at a sha.
    pub fn create_sync_branch(&self, repo: &str, sync_branch: &str, source_sha: &str) -> (r: GhCall)
        ensures
            strings_view(r.args@) == create_ref_args(repo@, sync_branch@, source_sha@),
            r.expect == GhExpect::Output,
    {
        GitHubCli.create_branch_ref(repo, sync_branch, source_sha)
    }

    /// Looks up the open sync pull request.
    pub fn find_existing_sync_pull_request(&self, repo: &str, sync_branch: &str, target_branch: &str) -> (r:
        GhCall)
        ensures
            strings_view(r.args@) == find_pr_args(repo@, sync_branch@, target_branch@),
            r.expect == GhExpect::Output,
    {
        GitHubCli.find_open_pull_request(repo, sync_branch, target_branch)
    }

    /// Creates the sync pull request.
    pub fn create_sync_pull_request(
        &self,
        repo: &str,
        sync_branch: &str,
        target_branch: &str,
        source_branch: &str,
    ) -> (r: GhCall)
        ensures
            strings_view(r.args@) == create_pr_args(
                repo@,
                sync_branch@,
                target_branch@,
                sync_title(source_branch@, target_branch@),
                sync_body(source_branch@, target_branch@),
            ),
            r.expect == GhExpect::Output,
    {
        let mut title = concat3("Sync ", source_branch, " into ");
        title.append(target_branch);
        let mut body = concat3("Automated sync pull request from `", source_branch, "` into `");
        body.append(target_branch);
        body.append("`.");
        GitHubCli.create_pull_request(repo, sync_branch, target_branch, title.as_str(), body.as_str())
    }

    /// The created pull request named in the URL `gh` printed, if any.
    pub fn resolve_created_sync_pull_request(&self, pr_url: &str) -> (r: Option<ReferenceNumber>)
        ensures
            references_in_text(pr_url@, Some(ReferenceKind::PullRequest)).len() > 0 ==> r == Some(
                references_in_text(pr_url@, Some(ReferenceKind::PullRequest))[0],
            ),
            references_in_text(pr_url@, Some(ReferenceKind::PullRequest)).len() == 0 ==> r is None,
    {
        let found = ReferenceInput::find_in_text(pr_url, Some(ReferenceKind::PullRequest));
        if found.len() > 0 {
            Some(found[0])
        } else {
            None
        }
    }

    /// Labels the sync pull request `automation` and `pull-request`.
    pub fn add_sync_pull_request_labels(&self, repo: &str, pr_number: &str) -> (r: GhCall)
        ensures
            strings_view(r.args@) == pr_labels_args(repo@, pr_number@, seq!["automation"@, "pull-request"@]),
            r.expect == GhExpect::Output,
    {
        let mut labels: Vec<String> = Vec::new();
        crate::pr_body::push_line(&mut labels, "automation");
        crate::pr_body::push_line(&mut labels, "pull-request");
        assert(strings_view(labels@) =~= seq!["automation"@, "pull-request"@]);
        GitHubCli.add_pull_request_labels(repo, pr_number, &labels)
    }

    /// The reads of the `mergeable` and `mergeStateStatus` fields.
    pub fn read_merge_status(&self, repo: &str, pr_number: &str) -> (r: (GhCall, GhCall))
        ensures
            strings_view(r.0.args@) == pr_field_args(repo@, pr_number@, "mergeable"@),
            strings_view(r.1.args@) == pr_field_args(repo@, pr_number@, "mergeStateStatus"@),
            r.0.expect == GhExpect::Output,
            r.1.expect == GhExpect::Output,
    {
        (
            GitHubCli.read_pull_request_field(repo, pr_number, "mergeable"),
            GitHubCli.read_pull_request_field(repo, pr_number, "mergeStateStatus"),
        )
    }

    /// Merges the pull request now.
    pub fn merge_pull_request_now(&self, repo: &str, pr_number: &str) -> (r: GhCall)
        ensures
            strings_view(r.args@) == merge_args(repo@, pr_number@, false),
            r.expect == GhExpect::Output,
    {
        GitHubCli.merge_pull_request(repo, pr_number, false)
    }

    /// Enables auto-merge on the pull request.
    pub fn enable_pull_request_auto_merge(&self, repo: &str, pr_number: &str) -> (r: GhCall)
        ensures
            strings_view(r.args@) == merge_args(repo@, pr_number@, true),
            r.expect == GhExpect::Output,
    {
        GitHubCli.merge_pull_request(repo, pr_number, true)
    }

    /// The pull request to merge: `--pr-number`, else the `PR_NUMBER`
    /// variable's value `pr_number_env` when it is neither empty nor `null`;
    /// an error when neither names one. Whether it is a pull request is asked
    /// next (see `resolved_pull_request`).
    pub fn resolve_pr_number(&self, pr_number_env: Option<String>) -> (r: Result<ReferenceNumber, String>)
        ensures
            match merge_reference(args_view(self.args.args@), opt_string_view(pr_number_env)) {
                Some(p) => r == Ok::<ReferenceNumber, String>(p),
                None => r matches Err(e) && e@ == missing_pr_number(),
            },
    {
        let picked = match self.args.extract_reference_number("--pr-number", Some(ReferenceKind::PullRequest)) {
            Some(r) => Some(r),
            None => match pr_number_env {
                Some(v) => {
                    if v.as_str().is_empty() || str_eq(v.as_str(), "null") {
                        None
                    } else {
                        ReferenceInput::from_text(v.as_str()).with_kind(ReferenceKind::PullRequest).normalize()
                    }
                },
                None => None,
            },
        };
        match picked {
            Some(p) => Ok(p),
            None => Err(copy_str("Missing --pr-number and PR_NUMBER")),
        }
    }

    /// The pull request a reference names, given whether the repository's
    /// pulls endpoint knows it (asked first) and, when it does not, whether
    /// its issues endpoint does: the reference as a pull request, or the
    /// error saying it is an issue or was not found.
    pub fn resolved_pull_request(&self, reference: ReferenceNumber, is_pull_request: bool, is_issue: bool) -> (r:
        Result<ReferenceNumber, String>)
        ensures
            match (r, pull_request_resolution(reference, is_pull_request, is_issue)) {
                (Ok(a), Ok(b)) => a == b,
                (Err(a), Err(b)) => a@ == b,
                _ => false,
            },
            r matches Ok(x) ==> x.kind == Some(ReferenceKind::PullRequest),
    {
        match GitHubCli.qualify_reference(reference, is_pull_request, is_issue) {
            Some(q) => {
                if q.is_pull_request() {
                    Ok(q)
                } else {
                    Err(concat3("Reference ", q.show_number().as_str(), " resolved to an issue, not a pull request."))
                }
            },
            None => Err(concat3("Reference ", reference.show_number().as_str(), " was not found as a pull request.")),
        }
    }
}

// ---------------------------------------------------------------------------
// The sync branch
// ---------------------------------------------------------------------------

/// Where the update of the sync branch stands.
pub enum BranchAt {
    Start,
    /// The source branch's sha was asked.
    Sha(SyncContext),
    /// Whether the sync branch exists was asked; the sha follows.
    Exists(SyncContext, String),
    /// The sync branch was moved; the sha follows.
    Updating(SyncContext, String),
    /// The sync branch was created; the sha follows.
    Creating(SyncContext, String),
    /// The last message was printed.
    Ending,
}

/// The view of where the update stands.
pub enum BranchState {
    Start,
    Sha(SyncCtx),
    Exists(SyncCtx, Seq<char>),
    Updating(SyncCtx, Seq<char>),
    Creating(SyncCtx, Seq<char>),
    Ending,
}

impl View for BranchAt {
    type V = BranchState;

    open spec fn view(&self) -> BranchState {
        match self {
            BranchAt::Start => BranchState::Start,
            BranchAt::Sha(c) => BranchState::Sha(c@),
            BranchAt::Exists(c, s) => BranchState::Exists(c@, s@),
            BranchAt::Updating(c, s) => BranchState::Updating(c@, s@),
            BranchAt::Creating(c, s) => BranchState::Creating(c@, s@),
            BranchAt::Ending => BranchState::Ending,
        }
    }
}

/// `<verb> sync branch '<sync>' from '<source>' (<sha>).`
pub open spec fn branch_message(verb: Seq<char>, c: SyncCtx, sha: Seq<char>) -> Seq<char> {
    verb + " sync branch '"@ + c.sync + "' from '"@ + c.source + "' ("@ + sha + ")."@
}

/// The next state and action of the update of the sync branch.
pub open spec fn branch_next(
    args: Seq<Seq<char>>,
    gh_repo: Option<Seq<char>>,
    github_repository: Option<Seq<char>>,
    at: BranchState,
    reply: Reply,
) -> (BranchState, Act) {
    match at {
        BranchState::Start => match repo_choice(args, gh_repo, github_repository) {
            Err(e) => (at, failed(e)),
            Ok(repo) => {
                let c = sync_context(args, repo);
                (BranchState::Sha(c), Act::Gh(branch_sha_args(repo, c.source), GhExpect::Output))
            },
        },
        BranchState::Sha(c) => match reply {
            Reply::Text(Ok(sha)) => (BranchState::Exists(c, sha@), Act::Gh(branch_ref_args(c.repo, c.sync), GhExpect::Status)),
            Reply::Text(Err(e)) => (at, failed(e@)),
            _ => (at, failed(unexpected_reply())),
        },
        BranchState::Exists(c, sha) => match reply {
            Reply::Flag(Ok(true)) => (BranchState::Updating(c, sha), Act::Gh(update_ref_args(c.repo, c.sync, sha), GhExpect::Output)),
            Reply::Flag(Ok(false)) => (BranchState::Creating(c, sha), Act::Gh(create_ref_args(c.repo, c.sync, sha), GhExpect::Output)),
            Reply::Flag(Err(e)) => (at, failed(e@)),
            _ => (at, failed(unexpected_reply())),
        },
        BranchState::Updating(c, sha) => match reply {
            Reply::Text(Ok(_)) => (BranchState::Ending, Act::Print(branch_message("Updated"@, c, sha))),
            Reply::Text(Err(e)) => (at, failed(e@)),
            _ => (at, failed(unexpected_reply())),
        },
        BranchState::Creating(c, sha) => match reply {
            Reply::Text(Ok(_)) => (BranchState::Ending, Act::Print(branch_message("Created"@, c, sha))),
            Reply::Text(Err(e)) => (at, failed(e@)),
            _ => (at, failed(unexpected_reply())),
        },
        BranchState::Ending => (at, succeeded()),
    }
}

fn branch_text(verb: &str, c: &SyncContext, sha: &str) -> (r: String)
    ensures
        r@ == branch_message(verb@, c@, sha@),
{
    let mut m = concat3(verb, " sync branch '", c.sync.as_str());
    m.append("' from '");
    m.append(c.source.as_str());
    m.append("' (");
    m.append(sha);
    m.append(").");
    m
}

impl AutomationSync {
    /// One step of moving the sync branch (`--sync-branch`) to the head of
    /// the source branch (`--source-branch`), creating it when missing.
    /// `gh_repo` and `github_repository` are the environment's `GH_REPO` and
    /// `GITHUB_REPOSITORY`.
    pub fn create_or_update_sync_branch(
        &self,
        gh_repo: Option<String>,
        github_repository: Option<String>,
        at: BranchAt,
        reply: Reply,
    ) -> (r: (BranchAt, Action))
        ensures
            (r.0@, r.1@) == branch_next(
                args_view(self.args.args@),
                opt_string_view(gh_repo),
                opt_string_view(github_repository),
                at@,
                reply,
            ),
    {
        match at {
            BranchAt::Start => {
                let repo = match self.args.resolve_repo(gh_repo, github_repository) {
                    Ok(r) => r,
                    Err(e) => {
                        return (BranchAt::Start, fail(e));
                    },
                };
                let c = self.context(repo);
                let call = self.read_branch_sha(c.repo.as_str(), c.source.as_str());
                (BranchAt::Sha(c), gh(call))
            },
            BranchAt::Sha(c) => match reply {
                Reply::Text(Ok(sha)) => {
                    let call = self.sync_branch_exists(c.repo.as_str(), c.sync.as_str());
                    (BranchAt::Exists(c, sha), gh(call))
                },
                Reply::Text(Err(e)) => (BranchAt::Sha(c), fail(e)),
                _ => (BranchAt::Sha(c), fail_unexpected()),
            },
            BranchAt::Exists(c, sha) => match reply {
                Reply::Flag(Ok(exists)) => {
                    if exists {
                        let call = self.update_sync_branch(c.repo.as_str(), c.sync.as_str(), sha.as_str());
                        (BranchAt::Updating(c, sha), gh(call))
                    } else {
                        let call = self.create_sync_branch(c.repo.as_str(), c.sync.as_str(), sha.as_str());
                        (BranchAt::Creating(c, sha), gh(call))
                    }
                },
                Reply::Flag(Err(e)) => (BranchAt::Exists(c, sha), fail(e)),
                _ => (BranchAt::Exists(c, sha), fail_unexpected()),
            },
            BranchAt::Updating(c, sha) => match reply {
                Reply::Text(Ok(_)) => {
                    let m = branch_text("Updated", &c, sha.as_str());
                    (BranchAt::Ending, Action::Print(m))
                },
                Reply::Text(Err(e)) => (BranchAt::Updating(c, sha), fail(e)),
                _ => (BranchAt::Updating(c, sha), fail_unexpected()),
            },
            BranchAt::Creating(c, sha) => match reply {
                Reply::Text(Ok(_)) => {
                    let m = branch_text("Created", &c, sha.as_str());
                    (BranchAt::Ending, Action::Print(m))
                },
                Reply::Text(Err(e)) => (BranchAt::Creating(c, sha), fail(e)),
                _ => (BranchAt::Creating(c, sha), fail_unexpected()),
            },
            BranchAt::Ending => (BranchAt::Ending, crate::workflow::finish_ok()),
        }
    }
}

// ---------------------------------------------------------------------------
// The sync pull request
// ---------------------------------------------------------------------------

/// Where the creation of the sync pull request stands.
pub enum SyncPrAt {
    Start,
    /// The open sync pull request was looked up.
    Finding(SyncContext),
    /// The pull request was created.
    Creating(SyncContext),
    /// The created pull request's number was asked; the URL follows.
    Resolving(SyncContext, String),
    /// A message was printed; the number to export follows.
    Reported(String),
    /// `PR_NUMBER` was exported.
    Exporting,
}

/// The view of where the creation stands.
pub enum SyncPrState {
    Start,
    Finding(SyncCtx),
    Creating(SyncCtx),
    Resolving(SyncCtx, Seq<char>),
    Reported(Seq<char>),
    Exporting,
}

impl View for SyncPrAt {
    type V = SyncPrState;

    open spec fn view(&self) -> SyncPrState {
        match self {
            SyncPrAt::Start => SyncPrState::Start,
            SyncPrAt::Finding(c) => SyncPrState::Finding(c@),
            SyncPrAt::Creating(c) => SyncPrState::Creating(c@),
            SyncPrAt::Resolving(c, u) => SyncPrState::Resolving(c@, u@),
            SyncPrAt::Reported(n) => SyncPrState::Reported(n@),
            SyncPrAt::Exporting => SyncPrState::Exporting,
        }
    }
}

/// The next state and action of the creation of the sync pull request.
pub open spec fn sync_pr_next(
    args: Seq<Seq<char>>,
    gh_repo: Option<Seq<char>>,
    github_repository: Option<Seq<char>>,
    at: SyncPrState,
    reply: Reply,
) -> (SyncPrState, Act) {
    match at {
        SyncPrState::Start => match repo_choice(args, gh_repo, github_repository) {
            Err(e) => (at, failed(e)),
            Ok(repo) => {
                let c = sync_context(args, repo);
                (SyncPrState::Finding(c), Act::Gh(find_pr_args(repo, c.sync, c.target), GhExpect::Output))
            },
        },
        SyncPrState::Finding(c) => match reply {
            Reply::Text(Ok(out)) => match optional_reference(out@, Some(ReferenceKind::PullRequest)) {
                Some(p) => (
                    SyncPrState::Reported(decimal(p.value as nat)),
                    Act::Print("Sync pull request already exists: "@ + show_number_of(p.value)),
                ),
                None => (
                    SyncPrState::Creating(c),
                    Act::Gh(
                        create_pr_args(c.repo, c.sync, c.target, sync_title(c.source, c.target), sync_body(c.source, c.target)),
                        GhExpect::Output,
                    ),
                ),
            },
            Reply::Text(Err(e)) => (at, failed(e@)),
            _ => (at, failed(unexpected_reply())),
        },
        SyncPrState::Creating(c) => match reply {
            Reply::Text(Ok(url)) => {
                let found = references_in_text(url@, Some(ReferenceKind::PullRequest));
                if found.len() > 0 {
                    (
                        SyncPrState::Reported(decimal(found[0].value as nat)),
                        Act::Print("Created sync pull request: "@ + url@),
                    )
                } else {
                    (SyncPrState::Resolving(c, url@), Act::Gh(pr_number_args(c.repo, c.sync), GhExpect::Output))
                }
            },
            Reply::Text(Err(e)) => (at, failed(e@)),
            _ => (at, failed(unexpected_reply())),
        },
        SyncPrState::Resolving(c, url) => match reply {
            Reply::Text(Ok(out)) => match optional_reference(out@, Some(ReferenceKind::PullRequest)) {
                Some(p) => (SyncPrState::Reported(decimal(p.value as nat)), Act::Print("Created sync pull request: "@ + url)),
                None => (at, failed("Failed to resolve created sync pull request number."@)),
            },
            Reply::Text(Err(e)) => (at, failed(e@)),
            _ => (at, failed(unexpected_reply())),
        },
        SyncPrState::Reported(n) => (SyncPrState::Exporting, Act::SetEnv("PR_NUMBER"@, n)),
        SyncPrState::Exporting => match reply {
            Reply::Done(Ok(())) => (at, succeeded()),
            Reply::Done(Err(e)) => (at, failed(e@)),
            _ => (at, failed(unexpected_reply())),
        },
    }
}

// ---------------------------------------------------------------------------
// Merging the sync pull request
// ---------------------------------------------------------------------------

/// Where the merge stands; each state after the first carries the
/// repository.
pub enum MergeAt {
    Start,
    /// Whether the reference is a pull request was asked.
    LookPull(String, ReferenceNumber),
    /// Whether the reference is an issue was asked.
    LookIssue(String, ReferenceNumber),
    /// The labels were added to pull request `n`.
    Labelling(String, ReferenceNumber),
    /// The `mergeable` field was asked.
    Mergeable(String, ReferenceNumber),
    /// The `mergeStateStatus` field was asked; `mergeable` follows.
    MergeState(String, ReferenceNumber, String),
    /// The merge was sent; whether it is immediate follows.
    Merging(ReferenceNumber, bool),
    /// The last message was printed.
    Ending,
}

/// The view of where the merge stands.
pub enum MergeState {
    Start,
    LookPull(Seq<char>, ReferenceNumber),
    LookIssue(Seq<char>, ReferenceNumber),
    Labelling(Seq<char>, ReferenceNumber),
    Mergeable(Seq<char>, ReferenceNumber),
    MergeState(Seq<char>, ReferenceNumber, Seq<char>),
    Merging(ReferenceNumber, bool),
    Ending,
}

impl View for MergeAt {
    type V = MergeState;

    open spec fn view(&self) -> MergeState {
        match self {
            MergeAt::Start => MergeState::Start,
            MergeAt::LookPull(r, p) => MergeState::LookPull(r@, *p),
            MergeAt::LookIssue(r, p) => MergeState::LookIssue(r@, *p),
            MergeAt::Labelling(r, p) => MergeState::Labelling(r@, *p),
            MergeAt::Mergeable(r, p) => MergeState::Mergeable(r@, *p),
            MergeAt::MergeState(r, p, m) => MergeState::MergeState(r@, *p, m@),
            MergeAt::Merging(p, now) => MergeState::Merging(*p, *now),
            MergeAt::Ending => MergeState::Ending,
        }
    }
}

/// The next state and action of the merge, the `PR_NUMBER` variable given.
pub open spec fn merge_next(
    args: Seq<Seq<char>>,
    gh_repo: Option<Seq<char>>,
    github_repository: Option<Seq<char>>,
    env_pr: Option<Seq<char>>,
    at: MergeState,
    reply: Reply,
) -> (MergeState, Act) {
    match at {
        MergeState::Start => match repo_choice(args, gh_repo, github_repository) {
            Err(e) => (at, failed(e)),
            Ok(repo) => match merge_reference(args, env_pr) {
                None => (at, failed(missing_pr_number())),
                Some(p) => (
                    MergeState::LookPull(repo, p),
                    Act::Gh(crate::github::api_args(seq!["repos/"@ + repo + "/pulls/"@ + decimal(p.value as nat)]), GhExpect::Status),
                ),
            },
        },
        MergeState::LookPull(repo, p) => match reply {
            Reply::Flag(Ok(true)) => match pull_request_resolution(p, true, false) {
                Ok(q) => (
                    MergeState::Labelling(repo, q),
                    Act::Gh(pr_labels_args(repo, decimal(q.value as nat), seq!["automation"@, "pull-request"@]), GhExpect::Output),
                ),
                Err(e) => (at, failed(e)),
            },
            Reply::Flag(Ok(false)) => (
                MergeState::LookIssue(repo, p),
                Act::Gh(crate::github::api_args(seq!["repos/"@ + repo + "/issues/"@ + decimal(p.value as nat)]), GhExpect::Status),
            ),
            Reply::Flag(Err(e)) => (at, failed(e@)),
            _ => (at, failed(unexpected_reply())),
        },
        MergeState::LookIssue(repo, p) => match reply {
            Reply::Flag(Ok(is_issue)) => match pull_request_resolution(p, false, is_issue) {
                Ok(_) => (at, failed(unexpected_reply())),
                Err(e) => (at, failed(e)),
            },
            Reply::Flag(Err(e)) => (at, failed(e@)),
            _ => (at, failed(unexpected_reply())),
        },
        MergeState::Labelling(repo, p) => match reply {
            Reply::Text(Ok(_)) => (
                MergeState::Mergeable(repo, p),
                Act::Gh(pr_field_args(repo, decimal(p.value as nat), "mergeable"@), GhExpect::Output),
            ),
            Reply::Text(Err(e)) => (at, failed(e@)),
            _ => (at, failed(unexpected_reply())),
        },
        MergeState::Mergeable(repo, p) => match reply {
            Reply::Text(Ok(m)) => (
                MergeState::MergeState(repo, p, m@),
                Act::Gh(pr_field_args(repo, decimal(p.value as nat), "mergeStateStatus"@), GhExpect::Output),
            ),
            Reply::Text(Err(e)) => (at, failed(e@)),
            _ => (at, failed(unexpected_reply())),
        },
        MergeState::MergeState(repo, p, m) => match reply {
            Reply::Text(Ok(s)) => {
                let now = m == "MERGEABLE"@ && s@ == "CLEAN"@;
                (MergeState::Merging(p, now), Act::Gh(merge_args(repo, decimal(p.value as nat), !now), GhExpect::Output))
            },
            Reply::Text(Err(e)) => (at, failed(e@)),
            _ => (at, failed(unexpected_reply())),
        },
        MergeState::Merging(p, now) => match reply {
            Reply::Text(Ok(_)) => (
                MergeState::Ending,
                Act::Print(
                    if now {
                        "Merged sync pull request "@ + show_number_of(p.value) + " immediately."@
                    } else {
                        "Enabled auto-merge for sync pull request "@ + show_number_of(p.value) + "."@
                    },
                ),
            ),
            Reply::Text(Err(e)) => (at, failed(e@)),
            _ => (at, failed(unexpected_reply())),
        },
        MergeState::Ending => (at, succeeded()),
    }
}

impl AutomationSync {
    /// One step of opening the sync pull request from the sync branch into
    /// the target branch unless one is open, then exporting its number as
    /// `PR_NUMBER`. `gh_repo` and `github_repository` are the environment's
    /// `GH_REPO` and `GITHUB_REPOSITORY`.
    pub fn create_sync_pull_request_if_missing(
        &self,
        gh_repo: Option<String>,
        github_repository: Option<String>,
        at: SyncPrAt,
        reply: Reply,
    ) -> (r: (SyncPrAt, Action))
        ensures
            (r.0@, r.1@) == sync_pr_next(
                args_view(self.args.args@),
                opt_string_view(gh_repo),
                opt_string_view(github_repository),
                at@,
                reply,
            ),
    {
        let github = GitHubCli;
        match at {
            SyncPrAt::Start => {
                let repo = match self.args.resolve_repo(gh_repo, github_repository) {
                    Ok(r) => r,
                    Err(e) => {
                        return (SyncPrAt::Start, fail(e));
                    },
                };
                let c = self.context(repo);
                let call = self.find_existing_sync_pull_request(c.repo.as_str(), c.sync.as_str(), c.target.as_str());
                (SyncPrAt::Finding(c), gh(call))
            },
            SyncPrAt::Finding(c) => match reply {
                Reply::Text(Ok(out)) => match github.read_optional_reference_command(
                    out.as_str(),
                    Some(ReferenceKind::PullRequest),
                ) {
                    Some(p) => {
                        let m = concat2("Sync pull request already exists: ", p.show_number().as_str());
                        (SyncPrAt::Reported(p.as_string()), Action::Print(m))
                    },
                    None => {
                        let call = self.create_sync_pull_request(
                            c.repo.as_str(),
                            c.sync.as_str(),
                            c.target.as_str(),
                            c.source.as_str(),
                        );
                        (SyncPrAt::Creating(c), gh(call))
                    },
                },
                Reply::Text(Err(e)) => (SyncPrAt::Finding(c), fail(e)),
                _ => (SyncPrAt::Finding(c), fail_unexpected()),
            },
            SyncPrAt::Creating(c) => match reply {
                Reply::Text(Ok(url)) => match self.resolve_created_sync_pull_request(url.as_str()) {
                    Some(p) => {
                        let m = concat2("Created sync pull request: ", url.as_str());
                        (SyncPrAt::Reported(p.as_string()), Action::Print(m))
                    },
                    None => {
                        let call = github.read_pull_request_number(c.repo.as_str(), c.sync.as_str());
                        (SyncPrAt::Resolving(c, url), gh(call))
                    },
                },
                Reply::Text(Err(e)) => (SyncPrAt::Creating(c), fail(e)),
                _ => (SyncPrAt::Creating(c), fail_unexpected()),
            },
            SyncPrAt::Resolving(c, url) => match reply {
                Reply::Text(Ok(out)) => match github.read_optional_reference_command(
                    out.as_str(),
                    Some(ReferenceKind::PullRequest),
                ) {
                    Some(p) => {
                        let m = concat2("Created sync pull request: ", url.as_str());
                        (SyncPrAt::Reported(p.as_string()), Action::Print(m))
                    },
                    None => (
                        SyncPrAt::Resolving(c, url),
                        fail(copy_str("Failed to resolve created sync pull request number.")),
                    ),
                },
                Reply::Text(Err(e)) => (SyncPrAt::Resolving(c, url), fail(e)),
                _ => (SyncPrAt::Resolving(c, url), fail_unexpected()),
            },
            SyncPrAt::Reported(n) => (SyncPrAt::Exporting, Action::SetEnv(copy_str("PR_NUMBER"), n)),
            SyncPrAt::Exporting => match reply {
                Reply::Done(Ok(())) => (SyncPrAt::Exporting, crate::workflow::finish_ok()),
                Reply::Done(Err(e)) => (SyncPrAt::Exporting, fail(e)),
                _ => (SyncPrAt::Exporting, fail_unexpected()),
            },
        }
    }

    /// One step of merging the sync pull request (`--pr-number`, else the
    /// `PR_NUMBER` variable's value `pr_number_env`): checked to be a pull
    /// request, labelled, merged now when it is mergeable and clean,
    /// otherwise set to auto-merge. `gh_repo` and `github_repository` are the
    /// environment's `GH_REPO` and `GITHUB_REPOSITORY`.
    pub fn merge_sync_pull_request(
        &self,
        gh_repo: Option<String>,
        github_repository: Option<String>,
        pr_number_env: Option<String>,
        at: MergeAt,
        reply: Reply,
    ) -> (r: (MergeAt, Action))
        ensures
            (r.0@, r.1@) == merge_next(
                args_view(self.args.args@),
                opt_string_view(gh_repo),
                opt_string_view(github_repository),
                opt_string_view(pr_number_env),
                at@,
                reply,
            ),
    {
        let github = GitHubCli;
        match at {
            MergeAt::Start => {
                let repo = match self.args.resolve_repo(gh_repo, github_repository) {
                    Ok(r) => r,
                    Err(e) => {
                        return (MergeAt::Start, fail(e));
                    },
                };
                match self.resolve_pr_number(pr_number_env) {
                    Err(e) => (MergeAt::Start, fail(e)),
                    Ok(p) => {
                        let call = github.pull_request_lookup(repo.as_str(), &p);
                        (MergeAt::LookPull(repo, p), gh(call))
                    },
                }
            },
            MergeAt::LookPull(repo, p) => match reply {
                Reply::Flag(Ok(is_pull)) => {
                    if is_pull {
                        match self.resolved_pull_request(p, true, false) {
                            Ok(q) => {
                                let call = self.add_sync_pull_request_labels(repo.as_str(), q.as_string().as_str());
                                (MergeAt::Labelling(repo, q), gh(call))
                            },
                            Err(e) => (MergeAt::LookPull(repo, p), fail(e)),
                        }
                    } else {
                        let call = github.issue_lookup(repo.as_str(), &p);
                        (MergeAt::LookIssue(repo, p), gh(call))
                    }
                },
                Reply::Flag(Err(e)) => (MergeAt::LookPull(repo, p), fail(e)),
                _ => (MergeAt::LookPull(repo, p), fail_unexpected()),
            },
            MergeAt::LookIssue(repo, p) => match reply {
                Reply::Flag(Ok(is_issue)) => match self.resolved_pull_request(p, false, is_issue) {
                    Ok(_) => (MergeAt::LookIssue(repo, p), fail_unexpected()),
                    Err(e) => (MergeAt::LookIssue(repo, p), fail(e)),
                },
                Reply::Flag(Err(e)) => (MergeAt::LookIssue(repo, p), fail(e)),
                _ => (MergeAt::LookIssue(repo, p), fail_unexpected()),
            },
            MergeAt::Labelling(repo, p) => match reply {
                Reply::Text(Ok(_)) => {
                    let (first, _) = self.read_merge_status(repo.as_str(), p.as_string().as_str());
                    (MergeAt::Mergeable(repo, p), gh(first))
                },
                Reply::Text(Err(e)) => (MergeAt::Labelling(repo, p), fail(e)),
                _ => (MergeAt::Labelling(repo, p), fail_unexpected()),
            },
            MergeAt::Mergeable(repo, p) => match reply {
                Reply::Text(Ok(m)) => {
                    let (_, second) = self.read_merge_status(repo.as_str(), p.as_string().as_str());
                    (MergeAt::MergeState(repo, p, m), gh(second))
                },
                Reply::Text(Err(e)) => (MergeAt::Mergeable(repo, p), fail(e)),
                _ => (MergeAt::Mergeable(repo, p), fail_unexpected()),
            },
            MergeAt::MergeState(repo, p, m) => match reply {
                Reply::Text(Ok(s)) => {
                    let now = str_eq(m.as_str(), "MERGEABLE") && str_eq(s.as_str(), "CLEAN");
                    let n = p.as_string();
                    let call = if now {
                        self.merge_pull_request_now(repo.as_str(), n.as_str())
                    } else {
                        self.enable_pull_request_auto_merge(repo.as_str(), n.as_str())
                    };
                    (MergeAt::Merging(p, now), gh(call))
                },
                Reply::Text(Err(e)) => (MergeAt::MergeState(repo, p, m), fail(e)),
                _ => (MergeAt::MergeState(repo, p, m), fail_unexpected()),
            },
            MergeAt::Merging(p, now) => match reply {
                Reply::Text(Ok(_)) => {
                    let m = if now {
                        concat3("Merged sync pull request ", p.show_number().as_str(), " immediately.")
                    } else {
                        concat3("Enabled auto-merge for sync pull request ", p.show_number().as_str(), ".")
                    };
                    (MergeAt::Ending, Action::Print(m))
                },
                Reply::Text(Err(e)) => (MergeAt::Merging(p, now), fail(e)),
                _ => (MergeAt::Merging(p, now), fail_unexpected()),
            },
            MergeAt::Ending => (MergeAt::Ending, crate::workflow::finish_ok()),
        }
    }
}

} // verus!
