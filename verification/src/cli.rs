//! The `automation` command line: which subcommand runs, and the usage lines.

use vstd::prelude::*;

use crate::args::{args_view, CommandArgs};
use crate::auto_closes::PrAutoClosesEnrichment;
use crate::autolink::IssueParentAutolink;
use crate::conflict_guard::PrDirectiveConflictGuard;
use crate::dev_status::{DoneInDevStatus, IssueReopenOnDev};
use crate::gates::{MainPrGate, StableDepsPlaceholder, WorkflowRunPr};
use crate::lint::{MarkdownlintAutomation, RustfmtAutomation};
use crate::neutralizer::PrClosureNeutralizer;
use crate::parent_guard::{ClosureHygiene, ParentGuard};
use crate::patterns::strings_view;
use crate::pr_body::{PrBodyContractSync, push_line};
use crate::scripts::ScriptsIntegrity;
use crate::sync::AutomationSync;
use crate::text::{concat2, concat3, join, join_strings, str_eq};
use crate::validation::PrValidationRefresh;

verus! {

/// The subcommands of `automation`.
#[derive(Clone, Copy, PartialEq, Eq, Structural, Debug)]
pub enum Subcommand {
    SyncBranch,
    SyncPullRequest,
    MergeSyncPullRequest,
    RefreshPrValidation,
    ClosureHygiene,
    ParentGuard,
    DoneInDevStatus,
    ReopenOnDev,
    DirectiveConflictGuard,
    AutoAddCloses,
    IssueParentAutolink,
    ClosureNeutralizer,
    ClosureNeutralizerReevaluate,
    ClosureNeutralizerSkipCheck,
    ResolvePrBodyContext,
    GeneratePrDescription,
    GuardPrBodyContract,
    RustfmtPr,
    MarkdownlintPr,
    ScriptsIntegrity,
    ValidateMainPrSource,
    StableDepsPlaceholder,
    ResolveWorkflowRunPr,
}

/// The name of a subcommand on the command line.
pub open spec fn subcommand_name(s: Subcommand) -> Seq<char> {
    match s {
        Subcommand::SyncBranch => "sync-branch"@,
        Subcommand::SyncPullRequest => "sync-pull-request"@,
        Subcommand::MergeSyncPullRequest => "merge-sync-pull-request"@,
        Subcommand::RefreshPrValidation => "refresh-pr-validation"@,
        Subcommand::ClosureHygiene => "closure-hygiene"@,
        Subcommand::ParentGuard => "parent-guard"@,
        Subcommand::DoneInDevStatus => "done-in-dev-status"@,
        Subcommand::ReopenOnDev => "reopen-on-dev"@,
        Subcommand::DirectiveConflictGuard => "directive-conflict-guard"@,
        Subcommand::AutoAddCloses => "auto-add-closes"@,
        Subcommand::IssueParentAutolink => "issue-parent-autolink"@,
        Subcommand::ClosureNeutralizer => "closure-neutralizer"@,
        Subcommand::ClosureNeutralizerReevaluate => "closure-neutralizer-reevaluate"@,
        Subcommand::ClosureNeutralizerSkipCheck => "closure-neutralizer-skip-check"@,
        Subcommand::ResolvePrBodyContext => "resolve-pr-body-context"@,
        Subcommand::GeneratePrDescription => "generate-pr-description"@,
        Subcommand::GuardPrBodyContract => "guard-pr-body-contract"@,
        Subcommand::RustfmtPr => "rustfmt-pr"@,
        Subcommand::MarkdownlintPr => "markdownlint-pr"@,
        Subcommand::ScriptsIntegrity => "scripts-integrity"@,
        Subcommand::ValidateMainPrSource => "validate-main-pr-source"@,
        Subcommand::StableDepsPlaceholder => "stable-deps-placeholder"@,
        Subcommand::ResolveWorkflowRunPr => "resolve-workflow-run-pr"@,
    }
}

/// The options a subcommand's usage line lists after its name.
pub open spec fn usage_options(s: Subcommand) -> Seq<char> {
    match s {
        Subcommand::SyncBranch => "[--repo <owner/repo>] [--source-branch <branch>] [--sync-branch <branch>]"@,
        Subcommand::SyncPullRequest => "[--repo <owner/repo>] [--source-branch <branch>] [--target-branch <branch>] [--sync-branch <branch>]"@,
        Subcommand::MergeSyncPullRequest => "[--repo <owner/repo>] [--pr-number <number>]"@,
        Subcommand::RefreshPrValidation => "[--pr <number>] [--repo <owner/repo>]"@,
        Subcommand::ClosureHygiene => "[--repo <owner/repo>]"@,
        Subcommand::ParentGuard => "[--issue <number> | --child <number>] [--strict-guard <true|false>] [--repo <owner/repo>]"@,
        Subcommand::DoneInDevStatus => "--mode <on-dev-merge|on-issue-closed> [--pr <number>] [--issue <number>] [--repo <owner/repo>] [--label <label>]"@,
        Subcommand::ReopenOnDev => "[--pr <number>] [--repo <owner/repo>] [--label <label>]"@,
        Subcommand::DirectiveConflictGuard => "[--pr <number>] [--repo <owner/repo>]"@,
        Subcommand::AutoAddCloses => "[--pr <number>] [--repo <owner/repo>]"@,
        Subcommand::IssueParentAutolink => "[--issue <number>] [--repo <owner/repo>]"@,
        Subcommand::ClosureNeutralizer => "[--pr <number>] [--repo <owner/repo>]"@,
        Subcommand::ClosureNeutralizerReevaluate => "[--issue <number>] [--repo <owner/repo>]"@,
        Subcommand::ClosureNeutralizerSkipCheck => "[--previous-body <text>] [--current-body <text>]"@,
        Subcommand::ResolvePrBodyContext => "[--pr <number>] [--base <branch>] [--head <branch>] [--repo <owner/repo>]"@,
        Subcommand::GeneratePrDescription => "--pr <number> [--repo <owner/repo>] [--base <branch>] [--head <branch>] [--worktree <path>] [--write-pr]"@,
        Subcommand::GuardPrBodyContract => "--pr <number> [--repo <owner/repo>] [--base <branch>] [--head <branch>] [--worktree <path>]"@,
        Subcommand::RustfmtPr => "[--base-ref <branch>] [--worktree <path>]"@,
        Subcommand::MarkdownlintPr => "[--base-sha <sha>] [--worktree <path>]"@,
        Subcommand::ScriptsIntegrity => "[--worktree <path>]"@,
        Subcommand::ValidateMainPrSource => "--head-ref <branch>"@,
        Subcommand::StableDepsPlaceholder => ""@,
        Subcommand::ResolveWorkflowRunPr => "[--event-path <path>]"@,
    }
}

/// Every subcommand, in the order the usage of `automation` lists them.
pub open spec fn all_subcommands() -> Seq<Subcommand> {
    seq![
        Subcommand::SyncBranch,
        Subcommand::SyncPullRequest,
        Subcommand::MergeSyncPullRequest,
        Subcommand::RefreshPrValidation,
        Subcommand::ClosureHygiene,
        Subcommand::ParentGuard,
        Subcommand::DoneInDevStatus,
        Subcommand::ReopenOnDev,
        Subcommand::DirectiveConflictGuard,
        Subcommand::AutoAddCloses,
        Subcommand::IssueParentAutolink,
        Subcommand::ClosureNeutralizer,
        Subcommand::ClosureNeutralizerReevaluate,
        Subcommand::ClosureNeutralizerSkipCheck,
        Subcommand::ResolvePrBodyContext,
        Subcommand::GeneratePrDescription,
        Subcommand::GuardPrBodyContract,
        Subcommand::RustfmtPr,
        Subcommand::MarkdownlintPr,
        Subcommand::ScriptsIntegrity,
        Subcommand::ValidateMainPrSource,
        Subcommand::StableDepsPlaceholder,
        Subcommand::ResolveWorkflowRunPr,
    ]
}

/// The subcommand a name on the command line calls, if any.
pub open spec fn subcommand_named(name: Seq<char>) -> Option<Subcommand> {
    if name == subcommand_name(Subcommand::SyncBranch) {
        Some(Subcommand::SyncBranch)
    } else if name == subcommand_name(Subcommand::SyncPullRequest) {
        Some(Subcommand::SyncPullRequest)
    } else if name == subcommand_name(Subcommand::MergeSyncPullRequest) {
        Some(Subcommand::MergeSyncPullRequest)
    } else if name == subcommand_name(Subcommand::RefreshPrValidation) {
        Some(Subcommand::RefreshPrValidation)
    } else if name == subcommand_name(Subcommand::ClosureHygiene) {
        Some(Subcommand::ClosureHygiene)
    } else if name == subcommand_name(Subcommand::ParentGuard) {
        Some(Subcommand::ParentGuard)
    } else if name == subcommand_name(Subcommand::DoneInDevStatus) {
        Some(Subcommand::DoneInDevStatus)
    } else if name == subcommand_name(Subcommand::ReopenOnDev) {
        Some(Subcommand::ReopenOnDev)
    } else if name == subcommand_name(Subcommand::DirectiveConflictGuard) {
        Some(Subcommand::DirectiveConflictGuard)
    } else if name == subcommand_name(Subcommand::AutoAddCloses) {
        Some(Subcommand::AutoAddCloses)
    } else if name == subcommand_name(Subcommand::IssueParentAutolink) {
        Some(Subcommand::IssueParentAutolink)
    } else if name == subcommand_name(Subcommand::ClosureNeutralizer) {
        Some(Subcommand::ClosureNeutralizer)
    } else if name == subcommand_name(Subcommand::ClosureNeutralizerReevaluate) {
        Some(Subcommand::ClosureNeutralizerReevaluate)
    } else if name == subcommand_name(Subcommand::ClosureNeutralizerSkipCheck) {
        Some(Subcommand::ClosureNeutralizerSkipCheck)
    } else if name == subcommand_name(Subcommand::ResolvePrBodyContext) {
        Some(Subcommand::ResolvePrBodyContext)
    } else if name == subcommand_name(Subcommand::GeneratePrDescription) {
        Some(Subcommand::GeneratePrDescription)
    } else if name == subcommand_name(Subcommand::GuardPrBodyContract) {
        Some(Subcommand::GuardPrBodyContract)
    } else if name == subcommand_name(Subcommand::RustfmtPr) {
        Some(Subcommand::RustfmtPr)
    } else if name == subcommand_name(Subcommand::MarkdownlintPr) {
        Some(Subcommand::MarkdownlintPr)
    } else if name == subcommand_name(Subcommand::ScriptsIntegrity) {
        Some(Subcommand::ScriptsIntegrity)
    } else if name == subcommand_name(Subcommand::ValidateMainPrSource) {
        Some(Subcommand::ValidateMainPrSource)
    } else if name == subcommand_name(Subcommand::StableDepsPlaceholder) {
        Some(Subcommand::StableDepsPlaceholder)
    } else if name == subcommand_name(Subcommand::ResolveWorkflowRunPr) {
        Some(Subcommand::ResolveWorkflowRunPr)
    } else {
        None
    }
}

/// The usage line of a subcommand: its name, then its options.
pub open spec fn help_line(s: Subcommand) -> Seq<char> {
    if usage_options(s).len() == 0 {
        "Usage: automation "@ + subcommand_name(s)
    } else {
        "Usage: automation "@ + subcommand_name(s) + " "@ + usage_options(s)
    }
}

/// The usage line of `automation` itself: every subcommand name.
pub open spec fn general_usage() -> Seq<char> {
    "Usage: automation <"@ + join(all_subcommands().map_values(|s: Subcommand| subcommand_name(s)), "|"@)
        + "> [options]"@
}

/// Whether a name asks for the usage of `automation` itself.
pub open spec fn asks_for_usage(name: Seq<char>) -> bool {
    name == ""@ || name == "help"@ || name == "--help"@ || name == "-h"@
}

/// Different subcommands have different names.
pub proof fn lemma_subcommand_names_distinct(a: Subcommand, b: Subcommand)
    ensures
        a != b ==> subcommand_name(a) != subcommand_name(b),
{
    reveal_strlit("sync-branch");
    reveal_strlit("sync-pull-request");
    reveal_strlit("merge-sync-pull-request");
    reveal_strlit("refresh-pr-validation");
    reveal_strlit("closure-hygiene");
    reveal_strlit("parent-guard");
    reveal_strlit("done-in-dev-status");
    reveal_strlit("reopen-on-dev");
    reveal_strlit("directive-conflict-guard");
    reveal_strlit("auto-add-closes");
    reveal_strlit("issue-parent-autolink");
    reveal_strlit("closure-neutralizer");
    reveal_strlit("closure-neutralizer-reevaluate");
    reveal_strlit("closure-neutralizer-skip-check");
    reveal_strlit("resolve-pr-body-context");
    reveal_strlit("generate-pr-description");
    reveal_strlit("guard-pr-body-contract");
    reveal_strlit("rustfmt-pr");
    reveal_strlit("markdownlint-pr");
    reveal_strlit("scripts-integrity");
    reveal_strlit("validate-main-pr-source");
    reveal_strlit("stable-deps-placeholder");
    reveal_strlit("resolve-workflow-run-pr");
    assert(subcommand_name(Subcommand::SyncBranch).len() == 11);
    assert(subcommand_name(Subcommand::SyncPullRequest).len() == 17);
    assert(subcommand_name(Subcommand::MergeSyncPullRequest).len() == 23);
    assert(subcommand_name(Subcommand::RefreshPrValidation).len() == 21);
    assert(subcommand_name(Subcommand::ClosureHygiene).len() == 15);
    assert(subcommand_name(Subcommand::ParentGuard).len() == 12);
    assert(subcommand_name(Subcommand::DoneInDevStatus).len() == 18);
    assert(subcommand_name(Subcommand::ReopenOnDev).len() == 13);
    assert(subcommand_name(Subcommand::DirectiveConflictGuard).len() == 24);
    assert(subcommand_name(Subcommand::AutoAddCloses).len() == 15);
    assert(subcommand_name(Subcommand::IssueParentAutolink).len() == 21);
    assert(subcommand_name(Subcommand::ClosureNeutralizer).len() == 19);
    assert(subcommand_name(Subcommand::ClosureNeutralizerReevaluate).len() == 30);
    assert(subcommand_name(Subcommand::ClosureNeutralizerSkipCheck).len() == 30);
    assert(subcommand_name(Subcommand::ResolvePrBodyContext).len() == 23);
    assert(subcommand_name(Subcommand::GeneratePrDescription).len() == 23);
    assert(subcommand_name(Subcommand::GuardPrBodyContract).len() == 22);
    assert(subcommand_name(Subcommand::RustfmtPr).len() == 10);
    assert(subcommand_name(Subcommand::MarkdownlintPr).len() == 15);
    assert(subcommand_name(Subcommand::ScriptsIntegrity).len() == 17);
    assert(subcommand_name(Subcommand::ValidateMainPrSource).len() == 23);
    assert(subcommand_name(Subcommand::StableDepsPlaceholder).len() == 23);
    assert(subcommand_name(Subcommand::ResolveWorkflowRunPr).len() == 23);
    assert(subcommand_name(Subcommand::ScriptsIntegrity)[1] == 'c');
    assert(subcommand_name(Subcommand::SyncPullRequest)[1] == 'y');
    assert(subcommand_name(Subcommand::GeneratePrDescription)[0] == 'g');
    assert(subcommand_name(Subcommand::MergeSyncPullRequest)[0] == 'm');
    assert(subcommand_name(Subcommand::ResolvePrBodyContext)[0] == 'r');
    assert(subcommand_name(Subcommand::ResolvePrBodyContext)[8] == 'p');
    assert(subcommand_name(Subcommand::ResolveWorkflowRunPr)[0] == 'r');
    assert(subcommand_name(Subcommand::ResolveWorkflowRunPr)[8] == 'w');
    assert(subcommand_name(Subcommand::StableDepsPlaceholder)[0] == 's');
    assert(subcommand_name(Subcommand::ValidateMainPrSource)[0] == 'v');
    assert(subcommand_name(Subcommand::IssueParentAutolink)[0] == 'i');
    assert(subcommand_name(Subcommand::RefreshPrValidation)[0] == 'r');
    assert(subcommand_name(Subcommand::AutoAddCloses)[0] == 'a');
    assert(subcommand_name(Subcommand::ClosureHygiene)[0] == 'c');
    assert(subcommand_name(Subcommand::MarkdownlintPr)[0] == 'm');
    assert(subcommand_name(Subcommand::ClosureNeutralizerReevaluate)[20] == 'r');
    assert(subcommand_name(Subcommand::ClosureNeutralizerSkipCheck)[20] == 's');
}

/// Every subcommand is called by its own name: the name of a subcommand
/// leads back to that subcommand.
pub proof fn lemma_subcommand_name_round_trip(s: Subcommand)
    ensures
        subcommand_named(subcommand_name(s)) == Some(s),
{
    assert forall|t: Subcommand| t != s implies subcommand_name(t) != subcommand_name(s) by {
        lemma_subcommand_names_distinct(t, s);
    }
}

/// A name that asks for the usage of `automation` calls no subcommand.
pub proof fn lemma_usage_names_are_not_subcommands(name: Seq<char>)
    requires
        asks_for_usage(name),
    ensures
        subcommand_named(name) is None,
{
    reveal_strlit("sync-branch");
    reveal_strlit("sync-pull-request");
    reveal_strlit("merge-sync-pull-request");
    reveal_strlit("refresh-pr-validation");
    reveal_strlit("closure-hygiene");
    reveal_strlit("parent-guard");
    reveal_strlit("done-in-dev-status");
    reveal_strlit("reopen-on-dev");
    reveal_strlit("directive-conflict-guard");
    reveal_strlit("auto-add-closes");
    reveal_strlit("issue-parent-autolink");
    reveal_strlit("closure-neutralizer");
    reveal_strlit("closure-neutralizer-reevaluate");
    reveal_strlit("closure-neutralizer-skip-check");
    reveal_strlit("resolve-pr-body-context");
    reveal_strlit("generate-pr-description");
    reveal_strlit("guard-pr-body-contract");
    reveal_strlit("rustfmt-pr");
    reveal_strlit("markdownlint-pr");
    reveal_strlit("scripts-integrity");
    reveal_strlit("validate-main-pr-source");
    reveal_strlit("stable-deps-placeholder");
    reveal_strlit("resolve-workflow-run-pr");
    reveal_strlit("");
    reveal_strlit("help");
    reveal_strlit("--help");
    reveal_strlit("-h");
    assert(name.len() <= 6);
    assert forall|t: Subcommand| #[trigger] subcommand_name(t).len() >= 10 by {
        assert(subcommand_name(Subcommand::SyncBranch).len() == 11);
        assert(subcommand_name(Subcommand::SyncPullRequest).len() == 17);
        assert(subcommand_name(Subcommand::MergeSyncPullRequest).len() == 23);
        assert(subcommand_name(Subcommand::RefreshPrValidation).len() == 21);
        assert(subcommand_name(Subcommand::ClosureHygiene).len() == 15);
        assert(subcommand_name(Subcommand::ParentGuard).len() == 12);
        assert(subcommand_name(Subcommand::DoneInDevStatus).len() == 18);
        assert(subcommand_name(Subcommand::ReopenOnDev).len() == 13);
        assert(subcommand_name(Subcommand::DirectiveConflictGuard).len() == 24);
        assert(subcommand_name(Subcommand::AutoAddCloses).len() == 15);
        assert(subcommand_name(Subcommand::IssueParentAutolink).len() == 21);
        assert(subcommand_name(Subcommand::ClosureNeutralizer).len() == 19);
        assert(subcommand_name(Subcommand::ClosureNeutralizerReevaluate).len() == 30);
        assert(subcommand_name(Subcommand::ClosureNeutralizerSkipCheck).len() == 30);
        assert(subcommand_name(Subcommand::ResolvePrBodyContext).len() == 23);
        assert(subcommand_name(Subcommand::GeneratePrDescription).len() == 23);
        assert(subcommand_name(Subcommand::GuardPrBodyContract).len() == 22);
        assert(subcommand_name(Subcommand::RustfmtPr).len() == 10);
        assert(subcommand_name(Subcommand::MarkdownlintPr).len() == 15);
        assert(subcommand_name(Subcommand::ScriptsIntegrity).len() == 17);
        assert(subcommand_name(Subcommand::ValidateMainPrSource).len() == 23);
        assert(subcommand_name(Subcommand::StableDepsPlaceholder).len() == 23);
        assert(subcommand_name(Subcommand::ResolveWorkflowRunPr).len() == 23);
        assert(subcommand_name(Subcommand::ScriptsIntegrity)[1] == 'c');
        assert(subcommand_name(Subcommand::SyncPullRequest)[1] == 'y');
        assert(subcommand_name(Subcommand::GeneratePrDescription)[0] == 'g');
        assert(subcommand_name(Subcommand::MergeSyncPullRequest)[0] == 'm');
        assert(subcommand_name(Subcommand::ResolvePrBodyContext)[0] == 'r');
        assert(subcommand_name(Subcommand::ResolvePrBodyContext)[8] == 'p');
        assert(subcommand_name(Subcommand::ResolveWorkflowRunPr)[0] == 'r');
        assert(subcommand_name(Subcommand::ResolveWorkflowRunPr)[8] == 'w');
        assert(subcommand_name(Subcommand::StableDepsPlaceholder)[0] == 's');
        assert(subcommand_name(Subcommand::ValidateMainPrSource)[0] == 'v');
        assert(subcommand_name(Subcommand::IssueParentAutolink)[0] == 'i');
        assert(subcommand_name(Subcommand::RefreshPrValidation)[0] == 'r');
        assert(subcommand_name(Subcommand::AutoAddCloses)[0] == 'a');
        assert(subcommand_name(Subcommand::ClosureHygiene)[0] == 'c');
        assert(subcommand_name(Subcommand::MarkdownlintPr)[0] == 'm');
        assert(subcommand_name(Subcommand::ClosureNeutralizerReevaluate)[20] == 'r');
        assert(subcommand_name(Subcommand::ClosureNeutralizerSkipCheck)[20] == 's');
    }
}

/// What the command line does.
#[derive(Debug)]
pub enum Dispatch {
    /// Print this usage line and stop without error.
    Help(String),
    /// Run this subcommand.
    Run(Subcommand),
    /// Report this error and stop with an error.
    Unknown(String),
}

/// The view of what the command line does.
pub enum DispatchV {
    Help(Seq<char>),
    Run(Subcommand),
    Unknown(Seq<char>),
}

impl View for Dispatch {
    type V = DispatchV;

    open spec fn view(&self) -> DispatchV {
        match self {
            Dispatch::Help(s) => DispatchV::Help(s@),
            Dispatch::Run(c) => DispatchV::Run(*c),
            Dispatch::Unknown(s) => DispatchV::Unknown(s@),
        }
    }
}

/// Whether the arguments ask for help.
pub open spec fn wants_help(args: Seq<Seq<char>>) -> bool {
    args.contains("--help"@) || args.contains("-h"@)
}

/// What the command line does for a subcommand name.
pub open spec fn dispatch_of(args: Seq<Seq<char>>, name: Seq<char>) -> DispatchV {
    match subcommand_named(name) {
        Some(s) => if wants_help(args) {
            DispatchV::Help(help_line(s))
        } else {
            DispatchV::Run(s)
        },
        None => if asks_for_usage(name) {
            DispatchV::Help(general_usage())
        } else {
            DispatchV::Unknown("Unknown automation subcommand: "@ + name)
        },
    }
}

/// The name of a subcommand on the command line.
pub fn name_of(s: Subcommand) -> (r: &'static str)
    ensures
        r@ == subcommand_name(s),
{
    match s {
        Subcommand::SyncBranch => "sync-branch",
        Subcommand::SyncPullRequest => "sync-pull-request",
        Subcommand::MergeSyncPullRequest => "merge-sync-pull-request",
        Subcommand::RefreshPrValidation => "refresh-pr-validation",
        Subcommand::ClosureHygiene => "closure-hygiene",
        Subcommand::ParentGuard => "parent-guard",
        Subcommand::DoneInDevStatus => "done-in-dev-status",
        Subcommand::ReopenOnDev => "reopen-on-dev",
        Subcommand::DirectiveConflictGuard => "directive-conflict-guard",
        Subcommand::AutoAddCloses => "auto-add-closes",
        Subcommand::IssueParentAutolink => "issue-parent-autolink",
        Subcommand::ClosureNeutralizer => "closure-neutralizer",
        Subcommand::ClosureNeutralizerReevaluate => "closure-neutralizer-reevaluate",
        Subcommand::ClosureNeutralizerSkipCheck => "closure-neutralizer-skip-check",
        Subcommand::ResolvePrBodyContext => "resolve-pr-body-context",
        Subcommand::GeneratePrDescription => "generate-pr-description",
        Subcommand::GuardPrBodyContract => "guard-pr-body-contract",
        Subcommand::RustfmtPr => "rustfmt-pr",
        Subcommand::MarkdownlintPr => "markdownlint-pr",
        Subcommand::ScriptsIntegrity => "scripts-integrity",
        Subcommand::ValidateMainPrSource => "validate-main-pr-source",
        Subcommand::StableDepsPlaceholder => "stable-deps-placeholder",
        Subcommand::ResolveWorkflowRunPr => "resolve-workflow-run-pr",
    }
}

fn options_of(s: Subcommand) -> (r: &'static str)
    ensures
        r@ == usage_options(s),
{
    match s {
        Subcommand::SyncBranch => "[--repo <owner/repo>] [--source-branch <branch>] [--sync-branch <branch>]",
        Subcommand::SyncPullRequest => "[--repo <owner/repo>] [--source-branch <branch>] [--target-branch <branch>] [--sync-branch <branch>]",
        Subcommand::MergeSyncPullRequest => "[--repo <owner/repo>] [--pr-number <number>]",
        Subcommand::RefreshPrValidation => "[--pr <number>] [--repo <owner/repo>]",
        Subcommand::ClosureHygiene => "[--repo <owner/repo>]",
        Subcommand::ParentGuard => "[--issue <number> | --child <number>] [--strict-guard <true|false>] [--repo <owner/repo>]",
        Subcommand::DoneInDevStatus => "--mode <on-dev-merge|on-issue-closed> [--pr <number>] [--issue <number>] [--repo <owner/repo>] [--label <label>]",
        Subcommand::ReopenOnDev => "[--pr <number>] [--repo <owner/repo>] [--label <label>]",
        Subcommand::DirectiveConflictGuard => "[--pr <number>] [--repo <owner/repo>]",
        Subcommand::AutoAddCloses => "[--pr <number>] [--repo <owner/repo>]",
        Subcommand::IssueParentAutolink => "[--issue <number>] [--repo <owner/repo>]",
        Subcommand::ClosureNeutralizer => "[--pr <number>] [--repo <owner/repo>]",
        Subcommand::ClosureNeutralizerReevaluate => "[--issue <number>] [--repo <owner/repo>]",
        Subcommand::ClosureNeutralizerSkipCheck => "[--previous-body <text>] [--current-body <text>]",
        Subcommand::ResolvePrBodyContext => "[--pr <number>] [--base <branch>] [--head <branch>] [--repo <owner/repo>]",
        Subcommand::GeneratePrDescription => "--pr <number> [--repo <owner/repo>] [--base <branch>] [--head <branch>] [--worktree <path>] [--write-pr]",
        Subcommand::GuardPrBodyContract => "--pr <number> [--repo <owner/repo>] [--base <branch>] [--head <branch>] [--worktree <path>]",
        Subcommand::RustfmtPr => "[--base-ref <branch>] [--worktree <path>]",
        Subcommand::MarkdownlintPr => "[--base-sha <sha>] [--worktree <path>]",
        Subcommand::ScriptsIntegrity => "[--worktree <path>]",
        Subcommand::ValidateMainPrSource => "--head-ref <branch>",
        Subcommand::StableDepsPlaceholder => "",
        Subcommand::ResolveWorkflowRunPr => "[--event-path <path>]",
    }
}

fn every_subcommand() -> (r: [Subcommand; 23])
    ensures
        r@ == all_subcommands(),
{
    let r = [
        Subcommand::SyncBranch,
        Subcommand::SyncPullRequest,
        Subcommand::MergeSyncPullRequest,
        Subcommand::RefreshPrValidation,
        Subcommand::ClosureHygiene,
        Subcommand::ParentGuard,
        Subcommand::DoneInDevStatus,
        Subcommand::ReopenOnDev,
        Subcommand::DirectiveConflictGuard,
        Subcommand::AutoAddCloses,
        Subcommand::IssueParentAutolink,
        Subcommand::ClosureNeutralizer,
        Subcommand::ClosureNeutralizerReevaluate,
        Subcommand::ClosureNeutralizerSkipCheck,
        Subcommand::ResolvePrBodyContext,
        Subcommand::GeneratePrDescription,
        Subcommand::GuardPrBodyContract,
        Subcommand::RustfmtPr,
        Subcommand::MarkdownlintPr,
        Subcommand::ScriptsIntegrity,
        Subcommand::ValidateMainPrSource,
        Subcommand::StableDepsPlaceholder,
        Subcommand::ResolveWorkflowRunPr,
    ];
    assert(r@ =~= all_subcommands());
    r
}

/// The subcommand a name on the command line calls, if any.
pub fn find_subcommand(name: &str) -> (r: Option<Subcommand>)
    ensures
        r == subcommand_named(name@),
{
    let all = every_subcommand();
    let mut i: usize = 0;
    while i < all.len()
        invariant
            i <= all@.len(),
            all@ == all_subcommands(),
            forall|k: int| 0 <= k < i ==> #[trigger] subcommand_name(all@[k]) != name@,
        decreases all.len() - i,
    {
        if str_eq(name, name_of(all[i])) {
            return Some(all[i]);
        }
        i += 1;
    }
    None
}

/// The usage line of a subcommand.
pub fn subcommand_help(s: Subcommand) -> (r: String)
    ensures
        r@ == help_line(s),
{
    let options = options_of(s);
    if options.is_empty() {
        concat2("Usage: automation ", name_of(s))
    } else {
        let head = concat3("Usage: automation ", name_of(s), " ");
        concat2(head.as_str(), options)
    }
}

/// The usage line of `automation` itself.
pub fn general_usage_line() -> (r: String)
    ensures
        r@ == general_usage(),
{
    let all = every_subcommand();
    let mut names: Vec<String> = Vec::new();
    let mut i: usize = 0;
    while i < all.len()
        invariant
            i <= all@.len(),
            all@ == all_subcommands(),
            strings_view(names@) == all@.take(i as int).map_values(|s: Subcommand| subcommand_name(s)),
        decreases all.len() - i,
    {
        push_line(&mut names, name_of(all[i]));
        i += 1;
        assert(all@.take(i as int).map_values(|s: Subcommand| subcommand_name(s)) =~= all@.take(i - 1).map_values(
            |s: Subcommand| subcommand_name(s),
        ).push(subcommand_name(all@[i - 1])));
    }
    assert(all@.take(all@.len() as int) =~= all@);
    assert(names@.map_values(|p: String| p@) =~= strings_view(names@));
    let joined = join_strings(&names, "|");
    concat3("Usage: automation <", joined.as_str(), "> [options]")
}

/// Every command of `automation`, built on the same arguments.
pub struct AutomationCli {
    pub automation_sync: AutomationSync,
    pub closure_hygiene: ClosureHygiene,
    pub done_in_dev_status: DoneInDevStatus,
    pub issue_reopen_on_dev: IssueReopenOnDev,
    pub issue_parent_autolink: IssueParentAutolink,
    pub main_pr_gate: MainPrGate,
    pub markdownlint_automation: MarkdownlintAutomation,
    pub parent_guard: ParentGuard,
    pub pr_auto_closes_enrichment: PrAutoClosesEnrichment,
    pub pr_body_contract_sync: PrBodyContractSync,
    pub pr_closure_neutralizer: PrClosureNeutralizer,
    pub pr_directive_conflict_guard: PrDirectiveConflictGuard,
    pub pr_validation_refresh: PrValidationRefresh,
    pub rustfmt_automation: RustfmtAutomation,
    pub scripts_integrity: ScriptsIntegrity,
    pub stable_deps_placeholder: StableDepsPlaceholder,
    pub workflow_run_pr: WorkflowRunPr,
}

impl AutomationCli {
    /// Every command, each with a copy of the arguments.
    pub fn new(args: CommandArgs) -> (r: Self)
        ensures
            args_view(r.automation_sync.args.args@) == args_view(args.args@),
            args_view(r.closure_hygiene.args.args@) == args_view(args.args@),
            args_view(r.done_in_dev_status.args.args@) == args_view(args.args@),
            args_view(r.issue_reopen_on_dev.args.args@) == args_view(args.args@),
            args_view(r.issue_parent_autolink.args.args@) == args_view(args.args@),
            args_view(r.main_pr_gate.args.args@) == args_view(args.args@),
            args_view(r.markdownlint_automation.args.args@) == args_view(args.args@),
            args_view(r.parent_guard.args.args@) == args_view(args.args@),
            args_view(r.pr_auto_closes_enrichment.args.args@) == args_view(args.args@),
            args_view(r.pr_body_contract_sync.args.args@) == args_view(args.args@),
            args_view(r.pr_closure_neutralizer.args.args@) == args_view(args.args@),
            args_view(r.pr_directive_conflict_guard.args.args@) == args_view(args.args@),
            args_view(r.pr_validation_refresh.args.args@) == args_view(args.args@),
            args_view(r.rustfmt_automation.args.args@) == args_view(args.args@),
            args_view(r.scripts_integrity.args.args@) == args_view(args.args@),
            args_view(r.workflow_run_pr.args.args@) == args_view(args.args@),
    {
        Self {
            automation_sync: AutomationSync::new(args.duplicate()),
            closure_hygiene: ClosureHygiene::new(args.duplicate()),
            done_in_dev_status: DoneInDevStatus::new(args.duplicate()),
            issue_reopen_on_dev: IssueReopenOnDev::new(args.duplicate()),
            issue_parent_autolink: IssueParentAutolink::new(args.duplicate()),
            main_pr_gate: MainPrGate::new(args.duplicate()),
            markdownlint_automation: MarkdownlintAutomation::new(args.duplicate()),
            parent_guard: ParentGuard::new(args.duplicate()),
            pr_auto_closes_enrichment: PrAutoClosesEnrichment::new(args.duplicate()),
            pr_body_contract_sync: PrBodyContractSync::new(args.duplicate()),
            pr_closure_neutralizer: PrClosureNeutralizer::new(args.duplicate()),
            pr_directive_conflict_guard: PrDirectiveConflictGuard::new(args.duplicate()),
            pr_validation_refresh: PrValidationRefresh::new(args.duplicate()),
            rustfmt_automation: RustfmtAutomation::new(args.duplicate()),
            scripts_integrity: ScriptsIntegrity::new(args.duplicate()),
            stable_deps_placeholder: StableDepsPlaceholder::new(),
            workflow_run_pr: WorkflowRunPr::new(args),
        }
    }

    /// Whether the arguments hold `--help` or `-h`.
    pub fn should_show_help(&self) -> (r: bool)
        ensures
            r == wants_help(args_view(self.automation_sync.args.args@)),
    {
        self.automation_sync.args.has_flag("--help") || self.automation_sync.args.has_flag("-h")
    }

    /// What the command line does for a subcommand name: the subcommand's
    /// usage line when help is asked, the subcommand otherwise; the usage of
    /// `automation` for an empty name, `help`, `--help` or `-h`; an error for
    /// any other name.
    pub fn handle_subcommand(&self, subcommand: &str) -> (r: Dispatch)
        ensures
            r@ == dispatch_of(args_view(self.automation_sync.args.args@), subcommand@),
    {
        match find_subcommand(subcommand) {
            Some(s) => {
                if self.should_show_help() {
                    Dispatch::Help(subcommand_help(s))
                } else {
                    Dispatch::Run(s)
                }
            },
            None => {
                if str_eq(subcommand, "") || str_eq(subcommand, "help") || str_eq(subcommand, "--help")
                    || str_eq(subcommand, "-h") {
                    Dispatch::Help(general_usage_line())
                } else {
                    Dispatch::Unknown(concat2("Unknown automation subcommand: ", subcommand))
                }
            },
        }
    }
}

} // verus!
