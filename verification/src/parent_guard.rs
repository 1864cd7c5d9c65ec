//! Keeps a parent issue's status comment up to date with its required
//! children, closes it when they are all closed and, with the strict guard,
//! reopens it when it was closed too early.

use vstd::prelude::*;

use crate::args::{args_view, flag_reference, flag_value, opt_string_view, repo_choice, CommandArgs};
use crate::github::{
    close_args, comments_args, comments_of, issue_details_args, parent_numbers_args,
    references_of_lines, reopen_args, search_args, sub_issues_args, upsert_args, GhExpect,
    GitHubCli,
};
use crate::json::string_member;
use crate::reference::{
    add_unseen, references_in_text, show_number_of, text_lines, ReferenceInput, ReferenceKind,
    ReferenceNumber,
};
use crate::text::{
    chars_of, concat2, contains, contains_str, copy_str, decimal, lines, lower, lower_chars,
    push_decimal, str_eq, trim, trim_str,
};
use crate::workflow::{fail, fail_unexpected, failed, gh, succeeded, unexpected_reply, Act, Action, Reply};

verus! {

/// The heading of the status comment.
pub const PARENT_STATUS_TITLE: &'static str = "### Parent Issue Status";

/// The closing comment of a parent whose children are all closed.
pub const AUTO_CLOSE_COMMENT: &'static str =
    "All required child issues are closed. Auto-closed by parent-issue-guard.";

/// The command guarding parent issues.
pub struct ParentGuard {
    pub args: CommandArgs,
}

/// What the status comment reports.
pub struct ParentCommentStats {
    pub total: usize,
    pub closed_count: usize,
    pub open_count: usize,
    /// One `- #<n> <title>` line per open child.
    pub open_lines: String,
    pub parent_state: String,
    pub strict_guard: bool,
}

/// Whether `--strict-guard` is `true`, `TRUE`, `True` or `1` (trimmed).
pub open spec fn strict_guard_of(args: Seq<Seq<char>>) -> bool {
    match flag_value(args, "--strict-guard"@) {
        Ok(v) => {
            let t = trim(v);
            t == "true"@ || t == "TRUE"@ || t == "True"@ || t == "1"@
        },
        Err(_) => false,
    }
}

/// Whether a body line may list a required child: a task-list item or a
/// line mentioning `task` (any case).
pub open spec fn is_task_line(line: Seq<char>) -> bool {
    contains(line, "- ["@) || contains(lower(line), "task"@)
}

/// The first issue reference of each task line, each number once, in order.
pub open spec fn tasklist_refs(ls: Seq<Seq<char>>) -> Seq<ReferenceNumber>
    decreases ls.len(),
{
    if ls.len() == 0 {
        Seq::<ReferenceNumber>::empty()
    } else {
        let acc = tasklist_refs(ls.drop_last());
        if !is_task_line(ls.last()) {
            acc
        } else {
            let found = references_in_text(ls.last(), Some(ReferenceKind::Issue));
            if found.len() == 0 {
                acc
            } else {
                add_unseen(acc, seq![found[0]])
            }
        }
    }
}

/// `<!-- parent-issue-status:<n> -->`.
pub open spec fn status_marker(parent: Seq<char>) -> Seq<char> {
    "<!-- parent-issue-status:"@ + parent + " -->"@
}

/// The status comment of a parent.
pub open spec fn parent_comment(
    parent: ReferenceNumber,
    total: nat,
    closed: nat,
    open: nat,
    open_lines: Seq<char>,
    parent_state: Seq<char>,
    strict: bool,
) -> Seq<char> {
    let head = status_marker(decimal(parent.value as nat)) + "\n"@ + PARENT_STATUS_TITLE@ + "\nParent: "@
        + show_number_of(parent.value) + "\n\n- Required children detected: "@ + decimal(total)
        + "\n- Closed: "@ + decimal(closed) + "\n- Open: "@ + decimal(open) + "\n\n"@;
    if open == 0 {
        head + "All required child issues are closed. This parent can be closed."@
    } else if strict && parent_state == "CLOSED"@ {
        head + "Some required child issues are still open:\n"@ + open_lines
            + "\nGuard action: parent was reopened because required children are still open."@
    } else {
        head + "Some required child issues are still open:\n"@ + open_lines
    }
}

/// The references in order, each number once, leaving out `exclude`.
pub open spec fn distinct_parents(refs: Seq<ReferenceNumber>, exclude: Option<u64>) -> Seq<ReferenceNumber>
    decreases refs.len(),
{
    if refs.len() == 0 {
        Seq::<ReferenceNumber>::empty()
    } else {
        let acc = distinct_parents(refs.drop_last(), exclude);
        if exclude == Some(refs.last().value) {
            acc
        } else {
            add_unseen(acc, seq![refs.last()])
        }
    }
}

// ---------------------------------------------------------------------------
// Evaluating one parent
// ---------------------------------------------------------------------------

/// The parent under evaluation.
pub struct Eval {
    pub repo: String,
    pub parent: ReferenceNumber,
    pub strict: bool,
}

/// The view of an evaluation.
pub struct EvalV {
    pub repo: Seq<char>,
    pub parent: ReferenceNumber,
    pub strict: bool,
}

impl View for Eval {
    type V = EvalV;

    open spec fn view(&self) -> EvalV {
        EvalV { repo: self.repo@, parent: self.parent, strict: self.strict }
    }
}

/// Where an evaluation stands.
pub enum EvalAt {
    /// Nothing asked yet.
    Begin,
    /// The parent's details were asked.
    Details,
    /// The sub-issues were asked; the parent's state and body follow.
    Subs(String, String),
    /// The details of child `i` were asked; the parent's state, the
    /// children, the closed and open counts and the open lines follow.
    Child(String, Vec<ReferenceNumber>, usize, usize, usize, String),
    /// The comments were asked; the parent's state, the open count and the
    /// comment follow.
    Comments(String, usize, String),
    /// The comment was written.
    Writing(String, usize),
    /// The parent was closed.
    Closing(String, usize),
    /// The parent was reopened.
    Reopening,
}

/// The view of where an evaluation stands.
pub enum EvalState {
    Begin,
    Details,
    Subs(Seq<char>, Seq<char>),
    Child(Seq<char>, Seq<ReferenceNumber>, int, int, int, Seq<char>),
    Comments(Seq<char>, int, Seq<char>),
    Writing(Seq<char>, int),
    Closing(Seq<char>, int),
    Reopening,
}

impl View for EvalAt {
    type V = EvalState;

    open spec fn view(&self) -> EvalState {
        match self {
            EvalAt::Begin => EvalState::Begin,
            EvalAt::Details => EvalState::Details,
            EvalAt::Subs(s, b) => EvalState::Subs(s@, b@),
            EvalAt::Child(s, ch, i, c, o, l) => EvalState::Child(
                s@,
                ch@,
                *i as int,
                *c as int,
                *o as int,
                l@,
            ),
            EvalAt::Comments(s, o, m) => EvalState::Comments(s@, *o as int, m@),
            EvalAt::Writing(s, o) => EvalState::Writing(s@, *o as int),
            EvalAt::Closing(s, o) => EvalState::Closing(s@, *o as int),
            EvalAt::Reopening => EvalState::Reopening,
        }
    }
}

/// Going on with the children: ask the first one, or end without one.
pub open spec fn children_step(e: EvalV, state: Seq<char>, children: Seq<ReferenceNumber>) -> (
    EvalState,
    Act,
) {
    if children.len() == 0 {
        (EvalState::Begin, succeeded())
    } else {
        (
            EvalState::Child(state, children, 0, 0, 0, Seq::<char>::empty()),
            Act::Gh(issue_details_args(e.repo, decimal(children[0].value as nat)), GhExpect::Raw),
        )
    }
}

/// After child `i`: ask the next one, or the comments past the last.
pub open spec fn next_child_step(
    e: EvalV,
    state: Seq<char>,
    children: Seq<ReferenceNumber>,
    i: int,
    closed: int,
    open: int,
    open_lines: Seq<char>,
) -> (EvalState, Act) {
    if i < children.len() {
        (
            EvalState::Child(state, children, i, closed, open, open_lines),
            Act::Gh(issue_details_args(e.repo, decimal(children[i].value as nat)), GhExpect::Raw),
        )
    } else {
        (
            EvalState::Comments(
                state,
                open,
                parent_comment(
                    e.parent,
                    children.len(),
                    closed as nat,
                    open as nat,
                    open_lines,
                    state,
                    e.strict,
                ),
            ),
            Act::Gh(comments_args(e.repo, decimal(e.parent.value as nat)), GhExpect::JsonLines),
        )
    }
}

/// After the comment and a possible closing: reopen a closed parent with
/// open children under the strict guard.
pub open spec fn reopen_step(e: EvalV, state: Seq<char>, open: int) -> (EvalState, Act) {
    if e.strict && state == "CLOSED"@ && open != 0 {
        (EvalState::Reopening, Act::Gh(reopen_args(e.repo, decimal(e.parent.value as nat)), GhExpect::Output))
    } else {
        (EvalState::Begin, succeeded())
    }
}

/// The next state and action of an evaluation; it ends with
/// `Finish(Ok(()))` when there is nothing more to do for this parent.
pub open spec fn eval_next(e: EvalV, at: EvalState, reply: Reply) -> (EvalState, Act) {
    let n = decimal(e.parent.value as nat);
    match at {
        EvalState::Begin => (EvalState::Details, Act::Gh(issue_details_args(e.repo, n), GhExpect::Raw)),
        EvalState::Details => match reply {
            Reply::Details(Ok(None)) => (EvalState::Begin, succeeded()),
            Reply::Details(Ok(Some(d))) => {
                let state = string_member(d, "state"@);
                let body = string_member(d, "body"@);
                match GitHubCli.split_spec(e.repo) {
                    Some((owner, name)) => (
                        EvalState::Subs(state, body),
                        Act::Gh(sub_issues_args(owner, name, n), GhExpect::Output),
                    ),
                    None => children_step(e, state, tasklist_refs(lines(body))),
                }
            },
            Reply::Details(Err(m)) => (at, failed(m@)),
            _ => (at, failed(unexpected_reply())),
        },
        EvalState::Subs(state, body) => {
            let refs = match reply {
                Reply::Text(Ok(out)) => references_of_lines(lines(out@), Some(ReferenceKind::Issue)),
                _ => Seq::<ReferenceNumber>::empty(),
            };
            match reply {
                Reply::Text(_) => children_step(
                    e,
                    state,
                    if refs.len() == 0 {
                        tasklist_refs(lines(body))
                    } else {
                        refs
                    },
                ),
                _ => (at, failed(unexpected_reply())),
            }
        },
        EvalState::Child(state, children, i, closed, open, open_lines) => match reply {
            Reply::Details(Ok(found)) => if 0 <= i < children.len() && closed < usize::MAX && open
                < usize::MAX {
                let shown = show_number_of(children[i].value);
                match found {
                    Some(d) => if string_member(d, "state"@) == "CLOSED"@ {
                        next_child_step(e, state, children, i + 1, closed + 1, open, open_lines)
                    } else {
                        next_child_step(
                            e,
                            state,
                            children,
                            i + 1,
                            closed,
                            open + 1,
                            open_lines + "- "@ + shown + " "@ + trim(string_member(d, "title"@))
                                + "\n"@,
                        )
                    },
                    None => next_child_step(
                        e,
                        state,
                        children,
                        i + 1,
                        closed,
                        open + 1,
                        open_lines + "- "@ + shown + " (unreadable or missing)\n"@,
                    ),
                }
            } else {
                (at, failed(unexpected_reply()))
            },
            Reply::Details(Err(m)) => (at, failed(m@)),
            _ => (at, failed(unexpected_reply())),
        },
        EvalState::Comments(state, open, comment) => match reply {
            Reply::JsonLines(Ok(values)) => (
                EvalState::Writing(state, open),
                Act::Gh(upsert_args(comments_of(values@), e.repo, n, status_marker(n), comment), GhExpect::Output),
            ),
            Reply::JsonLines(Err(m)) => (at, failed(m@)),
            _ => (at, failed(unexpected_reply())),
        },
        EvalState::Writing(state, open) => match reply {
            Reply::Text(Ok(_)) => if open == 0 && state == "OPEN"@ {
                (
                    EvalState::Closing(state, open),
                    Act::Gh(close_args(e.repo, n, "completed"@, AUTO_CLOSE_COMMENT@), GhExpect::Output),
                )
            } else {
                reopen_step(e, state, open)
            },
            Reply::Text(Err(m)) => (at, failed(m@)),
            _ => (at, failed(unexpected_reply())),
        },
        EvalState::Closing(state, open) => match reply {
            Reply::Text(Ok(_)) => reopen_step(e, state, open),
            Reply::Text(Err(m)) => (at, failed(m@)),
            _ => (at, failed(unexpected_reply())),
        },
        EvalState::Reopening => match reply {
            Reply::Text(Ok(_)) => (EvalState::Begin, succeeded()),
            Reply::Text(Err(m)) => (at, failed(m@)),
            _ => (at, failed(unexpected_reply())),
        },
    }
}

/// The action that reopens the parent of `e`.
pub open spec fn reopens_parent(e: EvalV, a: Act) -> bool {
    a matches Act::Gh(args, _) && args == reopen_args(e.repo, decimal(e.parent.value as nat))
}

/// Asking for the first child, or ending, never reopens the parent.
proof fn lemma_children_step_keeps_parent(e: EvalV, state: Seq<char>, children: Seq<ReferenceNumber>)
    ensures
        !reopens_parent(e, children_step(e, state, children).1),
{
    if children.len() > 0 {
        assert(issue_details_args(e.repo, decimal(children[0].value as nat)).len() == 7);
    }
}

/// Asking for the next child, or for the comments, never reopens the parent.
proof fn lemma_next_child_step_keeps_parent(
    e: EvalV,
    state: Seq<char>,
    children: Seq<ReferenceNumber>,
    i: int,
    closed: int,
    open: int,
    open_lines: Seq<char>,
)
    ensures
        !reopens_parent(e, next_child_step(e, state, children, i, closed, open, open_lines).1),
{
    reveal_strlit("api");
    reveal_strlit("issue");
    let n = decimal(e.parent.value as nat);
    if i < children.len() {
        assert(issue_details_args(e.repo, decimal(children[i].value as nat)).len() == 7);
    } else {
        assert(comments_args(e.repo, n)[0] == "api"@);
        assert(reopen_args(e.repo, n)[0] == "issue"@);
        assert("api"@.len() != "issue"@.len());
    }
}

/// Without the strict guard (`--strict-guard` absent, or neither `true` nor
/// `1`), evaluating a parent never asks to reopen it, whatever state it is
/// in and whatever the replies: a closed parent with open children stays
/// closed.
pub proof fn lemma_no_reopen_without_strict_guard(e: EvalV, at: EvalState, reply: Reply)
    requires
        !e.strict,
    ensures
        !reopens_parent(e, eval_next(e, at, reply).1),
        at != EvalState::Reopening ==> eval_next(e, at, reply).0 != EvalState::Reopening,
{
    let n = decimal(e.parent.value as nat);
    assert(reopen_args(e.repo, n).len() == 5);
    assert forall|st: Seq<char>, ch: Seq<ReferenceNumber>| !reopens_parent(e, #[trigger] children_step(e, st, ch).1) by {
        lemma_children_step_keeps_parent(e, st, ch);
    }
    assert forall|st: Seq<char>, ch: Seq<ReferenceNumber>, i: int, c: int, o: int, l: Seq<char>|
        !reopens_parent(e, #[trigger] next_child_step(e, st, ch, i, c, o, l).1) by {
        lemma_next_child_step_keeps_parent(e, st, ch, i, c, o, l);
    }
    match at {
        EvalState::Details => match reply {
            Reply::Details(Ok(Some(d))) => match GitHubCli.split_spec(e.repo) {
                Some((owner, name)) => {
                    assert(sub_issues_args(owner, name, n).len() == 12);
                },
                None => {},
            },
            _ => {},
        },
        EvalState::Comments(state, open, comment) => match reply {
            Reply::JsonLines(Ok(values)) => {
                assert(upsert_args(comments_of(values@), e.repo, n, status_marker(n), comment).len() == 6);
            },
            _ => {},
        },
        EvalState::Writing(state, open) => {
            assert(close_args(e.repo, n, "completed"@, AUTO_CLOSE_COMMENT@).len() == 9);
        },
        _ => {},
    }
}

/// Under the strict guard a parent is reopened exactly when it is closed and
/// still has open children: once its status comment is written, or once it
/// is closed, the evaluation asks to reopen such a parent, and never one
/// that is not closed or has no open child.
pub proof fn lemma_strict_guard_reopens_closed_parent(e: EvalV, state: Seq<char>, open: int, out: String)
    requires
        e.strict,
        open >= 0,
    ensures
        state == "CLOSED"@ && open > 0 ==> eval_next(e, EvalState::Writing(state, open), Reply::Text(Ok(out)))
            == (EvalState::Reopening, Act::Gh(reopen_args(e.repo, decimal(e.parent.value as nat)), GhExpect::Output)),
        state == "CLOSED"@ && open > 0 ==> eval_next(e, EvalState::Closing(state, open), Reply::Text(Ok(out)))
            == (EvalState::Reopening, Act::Gh(reopen_args(e.repo, decimal(e.parent.value as nat)), GhExpect::Output)),
        state != "CLOSED"@ || open == 0 ==> !reopens_parent(
            e,
            eval_next(e, EvalState::Writing(state, open), Reply::Text(Ok(out))).1,
        ),
        state != "CLOSED"@ || open == 0 ==> !reopens_parent(
            e,
            eval_next(e, EvalState::Closing(state, open), Reply::Text(Ok(out))).1,
        ),
{
    reveal_strlit("OPEN");
    reveal_strlit("CLOSED");
    let n = decimal(e.parent.value as nat);
    assert(close_args(e.repo, n, "completed"@, AUTO_CLOSE_COMMENT@).len() == 9);
    assert(reopen_args(e.repo, n).len() == 5);
}

/// Adding one reference keeps the list when its number is there, and appends
/// it otherwise.
proof fn lemma_add_one(acc: Seq<ReferenceNumber>, x: ReferenceNumber)
    ensures
        add_unseen(acc, seq![x]) == (if exists|k: int| 0 <= k < acc.len() && acc[k].value == x.value {
            acc
        } else {
            acc.push(x)
        }),
{
    assert(seq![x].drop_last() =~= Seq::<ReferenceNumber>::empty());
    assert(add_unseen(acc, Seq::<ReferenceNumber>::empty()) == acc);
    assert(seq![x].last() == x);
}

fn has_value(v: &Vec<ReferenceNumber>, value: u64) -> (r: bool)
    ensures
        r == exists|k: int| 0 <= k < v@.len() && v@[k].value == value,
{
    let mut i: usize = 0;
    while i < v.len()
        invariant
            i <= v.len(),
            forall|k: int| 0 <= k < i ==> v@[k].value != value,
        decreases v.len() - i,
    {
        if v[i].value == value {
            return true;
        }
        i += 1;
    }
    false
}

impl Eval {
    fn children(&self, state: String, children: Vec<ReferenceNumber>) -> (r: (EvalAt, Action))
        ensures
            (r.0@, r.1@) == children_step(self@, state@, children@),
    {
        if children.len() == 0 {
            return (EvalAt::Begin, crate::workflow::finish_ok());
        }
        let call = GitHubCli.issue_details_call(self.repo.as_str(), children[0].as_string().as_str());
        (EvalAt::Child(state, children, 0, 0, 0, String::new()), gh(call))
    }

    fn next_child(
        &self,
        guard: &ParentGuard,
        state: String,
        children: Vec<ReferenceNumber>,
        i: usize,
        closed: usize,
        open: usize,
        open_lines: String,
    ) -> (r: (EvalAt, Action))
        ensures
            (r.0@, r.1@) == next_child_step(
                self@,
                state@,
                children@,
                i as int,
                closed as int,
                open as int,
                open_lines@,
            ),
    {
        if i < children.len() {
            let call = GitHubCli.issue_details_call(self.repo.as_str(), children[i].as_string().as_str());
            return (EvalAt::Child(state, children, i, closed, open, open_lines), gh(call));
        }
        let stats = ParentCommentStats {
            total: children.len(),
            closed_count: closed,
            open_count: open,
            open_lines,
            parent_state: copy_str(state.as_str()),
            strict_guard: self.strict,
        };
        let comment = guard.build_parent_comment(&self.parent, &stats);
        let call = GitHubCli.issue_comments_call(self.repo.as_str(), self.parent.as_string().as_str());
        (EvalAt::Comments(state, open, comment), gh(call))
    }

    fn reopen(&self, state: String, open: usize) -> (r: (EvalAt, Action))
        ensures
            (r.0@, r.1@) == reopen_step(self@, state@, open as int),
    {
        if self.strict && str_eq(state.as_str(), "CLOSED") && open != 0 {
            let call = GitHubCli.reopen_issue(self.repo.as_str(), self.parent.as_string().as_str());
            return (EvalAt::Reopening, gh(call));
        }
        (EvalAt::Begin, crate::workflow::finish_ok())
    }

    fn step(&self, guard: &ParentGuard, at: EvalAt, reply: Reply) -> (r: (EvalAt, Action))
        ensures
            (r.0@, r.1@) == eval_next(self@, at@, reply),
    {
        let github = GitHubCli;
        let n = self.parent.as_string();
        match at {
            EvalAt::Begin => (EvalAt::Details, gh(github.issue_details_call(self.repo.as_str(), n.as_str()))),
            EvalAt::Details => match reply {
                Reply::Details(Ok(None)) => (EvalAt::Begin, crate::workflow::finish_ok()),
                Reply::Details(Ok(Some(d))) => {
                    let details = github.read_issue_details(&d);
                    match github.read_issue_sub_issue_numbers(self.repo.as_str(), n.as_str()) {
                        Ok(call) => (EvalAt::Subs(details.state, details.body), gh(call)),
                        Err(_) => {
                            let refs = guard.extract_tasklist_refs(details.body.as_str());
                            self.children(details.state, refs)
                        },
                    }
                },
                Reply::Details(Err(m)) => (EvalAt::Details, fail(m)),
                _ => (EvalAt::Details, fail_unexpected()),
            },
            EvalAt::Subs(state, body) => match reply {
                Reply::Text(result) => {
                    let refs = match result {
                        Ok(out) => github.read_references_from_api(out.as_str(), Some(ReferenceKind::Issue)),
                        Err(_) => Vec::new(),
                    };
                    let children = if refs.len() == 0 {
                        guard.extract_tasklist_refs(body.as_str())
                    } else {
                        refs
                    };
                    self.children(state, children)
                },
                _ => (EvalAt::Subs(state, body), fail_unexpected()),
            },
            EvalAt::Child(state, children, i, closed, open, open_lines) => match reply {
                Reply::Details(Ok(found)) => {
                    if i >= children.len() || closed == usize::MAX || open == usize::MAX {
                        return (EvalAt::Child(state, children, i, closed, open, open_lines), fail_unexpected());
                    }
                    let shown = children[i].show_number();
                    match found {
                        Some(d) => {
                            let details = github.read_issue_details(&d);
                            if str_eq(details.state.as_str(), "CLOSED") {
                                self.next_child(guard, state, children, i + 1, closed + 1, open, open_lines)
                            } else {
                                let mut lines = open_lines;
                                lines.append("- ");
                                lines.append(shown.as_str());
                                lines.append(" ");
                                lines.append(trim_str(details.title.as_str()).as_str());
                                lines.append("\n");
                                self.next_child(guard, state, children, i + 1, closed, open + 1, lines)
                            }
                        },
                        None => {
                            let mut lines = open_lines;
                            lines.append("- ");
                            lines.append(shown.as_str());
                            lines.append(" (unreadable or missing)\n");
                            self.next_child(guard, state, children, i + 1, closed, open + 1, lines)
                        },
                    }
                },
                Reply::Details(Err(m)) => (EvalAt::Child(state, children, i, closed, open, open_lines), fail(m)),
                _ => (EvalAt::Child(state, children, i, closed, open, open_lines), fail_unexpected()),
            },
            EvalAt::Comments(state, open, comment) => match reply {
                Reply::JsonLines(Ok(values)) => {
                    let comments = github.read_comment_summaries(&values);
                    let mut marker = copy_str("<!-- parent-issue-status:");
                    marker.append(n.as_str());
                    marker.append(" -->");
                    let call = github.upsert_issue_comment_by_marker(
                        &comments,
                        self.repo.as_str(),
                        n.as_str(),
                        marker.as_str(),
                        comment.as_str(),
                    );
                    (EvalAt::Writing(state, open), gh(call))
                },
                Reply::JsonLines(Err(m)) => (EvalAt::Comments(state, open, comment), fail(m)),
                _ => (EvalAt::Comments(state, open, comment), fail_unexpected()),
            },
            EvalAt::Writing(state, open) => match reply {
                Reply::Text(Ok(_)) => {
                    if open == 0 && str_eq(state.as_str(), "OPEN") {
                        let call = github.close_issue(
                            self.repo.as_str(),
                            n.as_str(),
                            "completed",
                            AUTO_CLOSE_COMMENT,
                        );
                        return (EvalAt::Closing(state, open), gh(call));
                    }
                    self.reopen(state, open)
                },
                Reply::Text(Err(m)) => (EvalAt::Writing(state, open), fail(m)),
                _ => (EvalAt::Writing(state, open), fail_unexpected()),
            },
            EvalAt::Closing(state, open) => match reply {
                Reply::Text(Ok(_)) => self.reopen(state, open),
                Reply::Text(Err(m)) => (EvalAt::Closing(state, open), fail(m)),
                _ => (EvalAt::Closing(state, open), fail_unexpected()),
            },
            EvalAt::Reopening => match reply {
                Reply::Text(Ok(_)) => (EvalAt::Begin, crate::workflow::finish_ok()),
                Reply::Text(Err(m)) => (EvalAt::Reopening, fail(m)),
                _ => (EvalAt::Reopening, fail_unexpected()),
            },
        }
    }
}

impl ParentGuard {
    /// The command for the given arguments.
    pub fn new(args: CommandArgs) -> (r: Self)
        ensures
            r.args == args,
    {
        Self { args }
    }

    /// One step of the evaluation of a parent issue: reads its required
    /// children (its sub-issues, else the references of its task lines),
    /// counts those closed, writes the status comment, closes the parent
    /// when none is open and, under the strict guard, reopens a closed parent
    /// with open children. Ends with `Finish(Ok(()))` when done with this
    /// parent.
    pub fn evaluate_parent_issue(&self, parent: &Eval, at: EvalAt, reply: Reply) -> (r: (EvalAt, Action))
        ensures
            (r.0@, r.1@) == eval_next(parent@, at@, reply),
    {
        parent.step(self, at, reply)
    }

    /// The parent named by `--issue`.
    pub fn resolve_issue_number(&self) -> (r: Option<ReferenceNumber>)
        ensures
            r == flag_reference(args_view(self.args.args@), "--issue"@, Some(ReferenceKind::Issue)),
    {
        self.args.extract_reference_number("--issue", Some(ReferenceKind::Issue))
    }

    /// The child named by `--child`.
    pub fn resolve_child_number(&self) -> (r: Option<ReferenceNumber>)
        ensures
            r == flag_reference(args_view(self.args.args@), "--child"@, Some(ReferenceKind::Issue)),
    {
        self.args.extract_reference_number("--child", Some(ReferenceKind::Issue))
    }

    /// Whether `--strict-guard` asks for the strict guard.
    pub fn resolve_strict_guard(&self) -> (r: bool)
        ensures
            r == strict_guard_of(args_view(self.args.args@)),
    {
        match self.args.flag_lookup("--strict-guard") {
            Ok(v) => {
                let t = trim_str(v.as_str());
                str_eq(t.as_str(), "true") || str_eq(t.as_str(), "TRUE") || str_eq(t.as_str(), "True")
                    || str_eq(t.as_str(), "1")
            },
            Err(_) => false,
        }
    }

    /// The first issue reference of each task line of a body, each number
    /// once, in order.
    pub fn extract_tasklist_refs(&self, body: &str) -> (r: Vec<ReferenceNumber>)
        ensures
            r@ == tasklist_refs(lines(body@)),
    {
        let ls = text_lines(body);
        let ghost lv = crate::patterns::strings_view(ls@);
        let mut references: Vec<ReferenceNumber> = Vec::new();
        let mut i: usize = 0;
        while i < ls.len()
            invariant
                i <= ls.len(),
                lv == crate::patterns::strings_view(ls@),
                references@ == tasklist_refs(lv.take(i as int)),
            decreases ls.len() - i,
        {
            assert(lv.take(i + 1).drop_last() =~= lv.take(i as int));
            let line = ls[i].as_str();
            let v = chars_of(line);
            if contains_str(&v, "- [") || contains_str(&lower_chars(&v), "task") {
                let found = ReferenceInput::find_in_text(line, Some(ReferenceKind::Issue));
                if found.len() > 0 {
                    let reference = found[0];
                    proof {
                        lemma_add_one(references@, reference);
                    }
                    if !has_value(&references, reference.value) {
                        references.push(reference);
                    }
                }
            }
            i += 1;
        }
        assert(lv.take(ls.len() as int) =~= lv);
        references
    }

    /// The status comment of a parent.
    pub fn build_parent_comment(&self, parent: &ReferenceNumber, stats: &ParentCommentStats) -> (r:
        String)
        ensures
            r@ == parent_comment(
                *parent,
                stats.total as nat,
                stats.closed_count as nat,
                stats.open_count as nat,
                stats.open_lines@,
                stats.parent_state@,
                stats.strict_guard,
            ),
    {
        let mut c = copy_str("<!-- parent-issue-status:");
        c.append(parent.as_string().as_str());
        c.append(" -->");
        c.append("\n");
        c.append(PARENT_STATUS_TITLE);
        c.append("\nParent: ");
        c.append(parent.show_number().as_str());
        c.append("\n\n- Required children detected: ");
        push_decimal(&mut c, stats.total as u64);
        c.append("\n- Closed: ");
        push_decimal(&mut c, stats.closed_count as u64);
        c.append("\n- Open: ");
        push_decimal(&mut c, stats.open_count as u64);
        c.append("\n\n");
        if stats.open_count == 0 {
            c.append("All required child issues are closed. This parent can be closed.");
        } else {
            c.append("Some required child issues are still open:\n");
            c.append(stats.open_lines.as_str());
            if stats.strict_guard && str_eq(stats.parent_state.as_str(), "CLOSED") {
                c.append("\nGuard action: parent was reopened because required children are still open.");
            }
        }
        c
    }

    /// The references in order, each number once, leaving out `exclude`.
    pub fn distinct_parents(&self, refs: &Vec<ReferenceNumber>, exclude: Option<u64>) -> (r: Vec<
        ReferenceNumber,
    >)
        ensures
            r@ == distinct_parents(refs@, exclude),
    {
        let mut out: Vec<ReferenceNumber> = Vec::new();
        let mut i: usize = 0;
        while i < refs.len()
            invariant
                i <= refs.len(),
                out@ == distinct_parents(refs@.take(i as int), exclude),
            decreases refs.len() - i,
        {
            assert(refs@.take(i + 1).drop_last() =~= refs@.take(i as int));
            let r = refs[i];
            let excluded = match exclude {
                Some(x) => x == r.value,
                None => false,
            };
            if !excluded {
                proof {
                    lemma_add_one(out@, r);
                }
                if !has_value(&out, r.value) {
                    out.push(r);
                }
            }
            i += 1;
        }
        assert(refs@.take(refs.len() as int) =~= refs@);
        out
    }
}

// ---------------------------------------------------------------------------
// The run
// ---------------------------------------------------------------------------

/// Which parents a run evaluates.
#[derive(Clone, Copy, Debug)]
pub enum Phase {
    /// The parent named by `--issue`.
    Issue,
    /// The direct parents of the child.
    Direct(ReferenceNumber),
    /// The parents a search found for the child.
    Search(ReferenceNumber),
}

/// Where a run stands.
pub enum GuardAt {
    Start,
    /// The child's direct parents were asked; repository, strict guard and
    /// child follow.
    Parents(String, bool, ReferenceNumber),
    /// The search for the child's parents was sent.
    Searching(String, bool, ReferenceNumber),
    /// Parent `i` of the list is under evaluation.
    Evaluating(String, bool, Phase, Vec<ReferenceNumber>, usize, EvalAt),
}

/// The view of where a run stands.
pub enum GuardState {
    Start,
    Parents(Seq<char>, bool, ReferenceNumber),
    Searching(Seq<char>, bool, ReferenceNumber),
    Evaluating(Seq<char>, bool, Phase, Seq<ReferenceNumber>, int, EvalState),
}

impl View for GuardAt {
    type V = GuardState;

    open spec fn view(&self) -> GuardState {
        match self {
            GuardAt::Start => GuardState::Start,
            GuardAt::Parents(r, s, c) => GuardState::Parents(r@, *s, *c),
            GuardAt::Searching(r, s, c) => GuardState::Searching(r@, *s, *c),
            GuardAt::Evaluating(r, s, p, l, i, e) => GuardState::Evaluating(r@, *s, *p, l@, *i as int, e@),
        }
    }
}

/// The search for the parents of a child.
pub open spec fn parent_query(repo: Seq<char>, child: ReferenceNumber) -> Seq<char> {
    "repo:"@ + repo + " is:issue \""@ + show_number_of(child.value) + "\""@
}

/// Once a list is evaluated: search when the child has no direct parent;
/// otherwise the run is over.
pub open spec fn phase_done(repo: Seq<char>, strict: bool, phase: Phase, list: Seq<ReferenceNumber>) -> (
    GuardState,
    Act,
) {
    match phase {
        Phase::Direct(c) => if list.len() == 0 {
            (GuardState::Searching(repo, strict, c), Act::Gh(search_args(parent_query(repo, c)), GhExpect::Output))
        } else {
            (GuardState::Start, succeeded())
        },
        _ => (GuardState::Start, succeeded()),
    }
}

/// Evaluating the list from parent `i` on.
pub open spec fn eval_from(
    repo: Seq<char>,
    strict: bool,
    phase: Phase,
    list: Seq<ReferenceNumber>,
    i: int,
) -> (GuardState, Act) {
    if 0 <= i < list.len() {
        let (at, act) = eval_next(EvalV { repo, parent: list[i], strict }, EvalState::Begin, Reply::Start);
        (GuardState::Evaluating(repo, strict, phase, list, i, at), act)
    } else {
        phase_done(repo, strict, phase, list)
    }
}

/// The next state and action of a run, the environment's `GH_REPO` and
/// `GITHUB_REPOSITORY` given.
pub open spec fn guard_next(
    args: Seq<Seq<char>>,
    gh_repo: Option<Seq<char>>,
    github_repository: Option<Seq<char>>,
    at: GuardState,
    reply: Reply,
) -> (GuardState, Act) {
    match at {
        GuardState::Start => match repo_choice(args, gh_repo, github_repository) {
            Err(e) => (at, failed(e)),
            Ok(repo) => {
                let strict = strict_guard_of(args);
                match flag_reference(args, "--issue"@, Some(ReferenceKind::Issue)) {
                    Some(p) => eval_from(repo, strict, Phase::Issue, seq![p], 0),
                    None => match flag_reference(args, "--child"@, Some(ReferenceKind::Issue)) {
                        None => (at, failed("Missing --issue or invalid/missing --child"@)),
                        Some(c) => match GitHubCli.split_spec(repo) {
                            Some((owner, name)) => (
                                GuardState::Parents(repo, strict, c),
                                Act::Gh(parent_numbers_args(owner, name, decimal(c.value as nat)), GhExpect::Output),
                            ),
                            None => eval_from(repo, strict, Phase::Direct(c), Seq::<ReferenceNumber>::empty(), 0),
                        },
                    },
                }
            },
        },
        GuardState::Parents(repo, strict, c) => match reply {
            Reply::Text(result) => {
                let refs = match result {
                    Ok(out) => references_of_lines(lines(out@), Some(ReferenceKind::Issue)),
                    Err(_) => Seq::<ReferenceNumber>::empty(),
                };
                eval_from(repo, strict, Phase::Direct(c), distinct_parents(refs, None), 0)
            },
            _ => (at, failed(unexpected_reply())),
        },
        GuardState::Searching(repo, strict, c) => match reply {
            Reply::Text(Ok(out)) => eval_from(
                repo,
                strict,
                Phase::Search(c),
                distinct_parents(references_of_lines(lines(out@), Some(ReferenceKind::Issue)), Some(c.value)),
                0,
            ),
            Reply::Text(Err(e)) => if contains(e@, "gh [\"api\""@) {
                eval_from(repo, strict, Phase::Search(c), Seq::<ReferenceNumber>::empty(), 0)
            } else {
                (at, failed(e@))
            },
            _ => (at, failed(unexpected_reply())),
        },
        GuardState::Evaluating(repo, strict, phase, list, i, e) => if 0 <= i < list.len() {
            let (e2, act) = eval_next(EvalV { repo, parent: list[i], strict }, e, reply);
            if act == succeeded() {
                eval_from(repo, strict, phase, list, i + 1)
            } else {
                (GuardState::Evaluating(repo, strict, phase, list, i, e2), act)
            }
        } else {
            (at, failed(unexpected_reply()))
        },
    }
}

impl ParentGuard {
    fn eval_from(
        &self,
        repo: String,
        strict: bool,
        phase: Phase,
        list: Vec<ReferenceNumber>,
        i: usize,
    ) -> (r: (GuardAt, Action))
        ensures
            (r.0@, r.1@) == eval_from(repo@, strict, phase, list@, i as int),
    {
        if i < list.len() {
            let e = Eval { repo: copy_str(repo.as_str()), parent: list[i], strict };
            let (at, act) = self.evaluate_parent_issue(&e, EvalAt::Begin, Reply::Start);
            return (GuardAt::Evaluating(repo, strict, phase, list, i, at), act);
        }
        match phase {
            Phase::Direct(c) => {
                if list.len() == 0 {
                    let mut q = concat2("repo:", repo.as_str());
                    q.append(" is:issue \"");
                    q.append(c.show_number().as_str());
                    q.append("\"");
                    let call = GitHubCli.search_issues_call(q.as_str());
                    return (GuardAt::Searching(repo, strict, c), gh(call));
                }
                (GuardAt::Start, crate::workflow::finish_ok())
            },
            _ => (GuardAt::Start, crate::workflow::finish_ok()),
        }
    }

    /// One step of the run: evaluates the parent named by `--issue`, or else
    /// the direct parents of the `--child` issue, searching for its parents
    /// when it has none. `gh_repo` and `github_repository` are the
    /// environment's `GH_REPO` and `GITHUB_REPOSITORY`.
    pub fn run(
        &self,
        gh_repo: Option<String>,
        github_repository: Option<String>,
        at: GuardAt,
        reply: Reply,
    ) -> (r: (GuardAt, Action))
        ensures
            (r.0@, r.1@) == guard_next(
                args_view(self.args.args@),
                opt_string_view(gh_repo),
                opt_string_view(github_repository),
                at@,
                reply,
            ),
    {
        let github = GitHubCli;
        match at {
            GuardAt::Start => {
                let repo = match self.args.resolve_repo(gh_repo, github_repository) {
                    Ok(r) => r,
                    Err(e) => {
                        return (GuardAt::Start, fail(e));
                    },
                };
                let strict = self.resolve_strict_guard();
                match self.resolve_issue_number() {
                    Some(p) => {
                        let mut list: Vec<ReferenceNumber> = Vec::new();
                        list.push(p);
                        assert(list@ =~= seq![p]);
                        self.eval_from(repo, strict, Phase::Issue, list, 0)
                    },
                    None => match self.resolve_child_number() {
                        None => (
                            GuardAt::Start,
                            fail(copy_str("Missing --issue or invalid/missing --child")),
                        ),
                        Some(c) => match github.read_issue_parent_numbers(repo.as_str(), c.as_string().as_str()) {
                            Ok(call) => (GuardAt::Parents(repo, strict, c), gh(call)),
                            Err(_) => self.eval_from(repo, strict, Phase::Direct(c), Vec::new(), 0),
                        },
                    },
                }
            },
            GuardAt::Parents(repo, strict, c) => match reply {
                Reply::Text(result) => {
                    let refs = match result {
                        Ok(out) => github.read_references_from_api(out.as_str(), Some(ReferenceKind::Issue)),
                        Err(_) => Vec::new(),
                    };
                    let list = self.distinct_parents(&refs, None);
                    self.eval_from(repo, strict, Phase::Direct(c), list, 0)
                },
                _ => (GuardAt::Parents(repo, strict, c), fail_unexpected()),
            },
            GuardAt::Searching(repo, strict, c) => match reply {
                Reply::Text(result) => match github.search_issue_numbers(result) {
                    Ok(refs) => {
                        let list = self.distinct_parents(&refs, Some(c.value));
                        self.eval_from(repo, strict, Phase::Search(c), list, 0)
                    },
                    Err(e) => (GuardAt::Searching(repo, strict, c), fail(e)),
                },
                _ => (GuardAt::Searching(repo, strict, c), fail_unexpected()),
            },
            GuardAt::Evaluating(repo, strict, phase, list, i, e) => {
                if i >= list.len() {
                    return (GuardAt::Evaluating(repo, strict, phase, list, i, e), fail_unexpected());
                }
                let ev = Eval { repo: copy_str(repo.as_str()), parent: list[i], strict };
                let (e2, act) = self.evaluate_parent_issue(&ev, e, reply);
                let done = match &act {
                    Action::Finish(Ok(())) => true,
                    _ => false,
                };
                if done {
                    self.eval_from(repo, strict, phase, list, i + 1)
                } else {
                    (GuardAt::Evaluating(repo, strict, phase, list, i, e2), act)
                }
            },
        }
    }

    /// The parents of a child given the read of its direct parents (a failed
    /// read counts as none), each once.
    pub fn read_direct_parent_numbers(&self, result: Result<String, String>) -> (r: Vec<ReferenceNumber>)
        ensures
            r@ == distinct_parents(
                match result {
                    Ok(out) => references_of_lines(lines(out@), Some(ReferenceKind::Issue)),
                    Err(_) => Seq::<ReferenceNumber>::empty(),
                },
                None,
            ),
    {
        let refs = match result {
            Ok(out) => GitHubCli.read_references_from_api(out.as_str(), Some(ReferenceKind::Issue)),
            Err(_) => Vec::new(),
        };
        self.distinct_parents(&refs, None)
    }

    /// The sub-issues of a parent given their read (a failed read counts as
    /// none).
    pub fn read_sub_issue_numbers(&self, result: Result<String, String>) -> (r: Vec<ReferenceNumber>)
        ensures
            r@ == match result {
                Ok(out) => references_of_lines(lines(out@), Some(ReferenceKind::Issue)),
                Err(_) => Seq::<ReferenceNumber>::empty(),
            },
    {
        match result {
            Ok(out) => GitHubCli.read_references_from_api(out.as_str(), Some(ReferenceKind::Issue)),
            Err(_) => Vec::new(),
        }
    }

    /// The search for the parents of a child.
    pub fn search_parent_numbers(&self, repo: &str, child: &ReferenceNumber) -> (r: crate::github::GhCall)
        ensures
            crate::patterns::strings_view(r.args@) == search_args(parent_query(repo@, *child)),
            r.expect == GhExpect::Output,
    {
        let mut q = concat2("repo:", repo);
        q.append(" is:issue \"");
        q.append(child.show_number().as_str());
        q.append("\"");
        GitHubCli.search_issues_call(q.as_str())
    }
}

// ---------------------------------------------------------------------------
// Closure hygiene
// ---------------------------------------------------------------------------

/// The command evaluating every open issue as a parent and closing the
/// milestones without open issues.
pub struct ClosureHygiene {
    pub args: CommandArgs,
}

/// Where a run stands; each state after the first carries the repository.
pub enum HygieneAt {
    Start,
    /// The open issues were asked.
    Issues(String),
    /// Issue `i` is evaluated as a parent.
    Evaluating(String, Vec<ReferenceNumber>, usize, EvalAt),
    /// The open milestones were asked.
    Milestones(String),
    /// Milestone `j` was closed.
    Closing(String, Vec<crate::github::MilestoneSummary>, usize),
    /// The closing of milestone `j` was reported.
    Closed(String, Vec<crate::github::MilestoneSummary>, usize),
    /// The last message was printed.
    Ending,
}

/// The view of where a run stands.
pub enum HygieneState {
    Start,
    Issues(Seq<char>),
    Evaluating(Seq<char>, Seq<ReferenceNumber>, int, EvalState),
    Milestones(Seq<char>),
    Closing(Seq<char>, Seq<(u64, Seq<char>, u64)>, int),
    Closed(Seq<char>, Seq<(u64, Seq<char>, u64)>, int),
    Ending,
}

impl View for HygieneAt {
    type V = HygieneState;

    open spec fn view(&self) -> HygieneState {
        match self {
            HygieneAt::Start => HygieneState::Start,
            HygieneAt::Issues(r) => HygieneState::Issues(r@),
            HygieneAt::Evaluating(r, l, i, e) => HygieneState::Evaluating(r@, l@, *i as int, e@),
            HygieneAt::Milestones(r) => HygieneState::Milestones(r@),
            HygieneAt::Closing(r, m, j) => HygieneState::Closing(r@, crate::github::milestones_view(m@), *j as int),
            HygieneAt::Closed(r, m, j) => HygieneState::Closed(r@, crate::github::milestones_view(m@), *j as int),
            HygieneAt::Ending => HygieneState::Ending,
        }
    }
}

/// Evaluating the open issues from `i` on, then asking the milestones.
pub open spec fn hygiene_eval_from(repo: Seq<char>, l: Seq<ReferenceNumber>, i: int) -> (HygieneState, Act) {
    if 0 <= i < l.len() {
        let (at, act) = eval_next(EvalV { repo, parent: l[i], strict: false }, EvalState::Begin, Reply::Start);
        (HygieneState::Evaluating(repo, l, i, at), act)
    } else {
        (HygieneState::Milestones(repo), Act::Gh(crate::github::milestones_args(repo), GhExpect::Output))
    }
}

/// The first milestone from `j` on without open issues.
pub open spec fn next_empty_milestone(m: Seq<(u64, Seq<char>, u64)>, j: int) -> int
    decreases m.len() - j,
{
    if j < 0 || j >= m.len() {
        m.len() as int
    } else if m[j].2 == 0 {
        j
    } else {
        next_empty_milestone(m, j + 1)
    }
}

/// Closing the next milestone without open issues from `j` on, or ending.
pub open spec fn milestone_step(repo: Seq<char>, m: Seq<(u64, Seq<char>, u64)>, j: int) -> (HygieneState, Act) {
    let k = next_empty_milestone(m, j);
    if k < m.len() {
        (HygieneState::Closing(repo, m, k), Act::Gh(crate::github::close_milestone_args(repo, m[k].0), GhExpect::Output))
    } else {
        (HygieneState::Ending, Act::Print("Closure hygiene completed."@))
    }
}

/// The next state and action of a run.
pub open spec fn hygiene_next(
    args: Seq<Seq<char>>,
    gh_repo: Option<Seq<char>>,
    github_repository: Option<Seq<char>>,
    at: HygieneState,
    reply: Reply,
) -> (HygieneState, Act) {
    match at {
        HygieneState::Start => match repo_choice(args, gh_repo, github_repository) {
            Err(e) => (at, failed(e)),
            Ok(repo) => (HygieneState::Issues(repo), Act::Gh(crate::github::open_issues_args(repo), GhExpect::Output)),
        },
        HygieneState::Issues(repo) => match reply {
            Reply::Text(Ok(out)) => hygiene_eval_from(repo, references_of_lines(lines(out@), Some(ReferenceKind::Issue)), 0),
            Reply::Text(Err(e)) => (at, failed(e@)),
            _ => (at, failed(unexpected_reply())),
        },
        HygieneState::Evaluating(repo, l, i, e) => if 0 <= i < l.len() {
            let (e2, act) = eval_next(EvalV { repo, parent: l[i], strict: false }, e, reply);
            if act == succeeded() {
                hygiene_eval_from(repo, l, i + 1)
            } else {
                (HygieneState::Evaluating(repo, l, i, e2), act)
            }
        } else {
            (at, failed(unexpected_reply()))
        },
        HygieneState::Milestones(repo) => match reply {
            Reply::Text(Ok(out)) => milestone_step(repo, crate::github::milestones_of(lines(out@)), 0),
            Reply::Text(Err(e)) => (at, failed(e@)),
            _ => (at, failed(unexpected_reply())),
        },
        HygieneState::Closing(repo, m, j) => match reply {
            Reply::Text(Ok(_)) => if 0 <= j < m.len() {
                (
                    HygieneState::Closed(repo, m, j),
                    Act::Print("Closed milestone #"@ + decimal(m[j].0 as nat) + " ("@ + m[j].1 + ")."@),
                )
            } else {
                (at, failed(unexpected_reply()))
            },
            Reply::Text(Err(e)) => (at, failed(e@)),
            _ => (at, failed(unexpected_reply())),
        },
        HygieneState::Closed(repo, m, j) => milestone_step(repo, m, j + 1),
        HygieneState::Ending => (at, succeeded()),
    }
}

impl ClosureHygiene {
    /// The command for the given arguments.
    pub fn new(args: CommandArgs) -> (r: Self)
        ensures
            r.args == args,
    {
        Self { args }
    }

    fn eval_from(&self, guard: &ParentGuard, repo: String, l: Vec<ReferenceNumber>, i: usize) -> (r: (HygieneAt, Action))
        ensures
            (r.0@, r.1@) == hygiene_eval_from(repo@, l@, i as int),
    {
        if i < l.len() {
            let e = Eval { repo: copy_str(repo.as_str()), parent: l[i], strict: false };
            let (at, act) = guard.evaluate_parent_issue(&e, EvalAt::Begin, Reply::Start);
            return (HygieneAt::Evaluating(repo, l, i, at), act);
        }
        let call = GitHubCli.open_milestones_call(repo.as_str());
        (HygieneAt::Milestones(repo), gh(call))
    }

    fn milestones_from(&self, repo: String, m: Vec<crate::github::MilestoneSummary>, j: usize) -> (r: (HygieneAt, Action))
        requires
            j <= m.len(),
        ensures
            (r.0@, r.1@) == milestone_step(repo@, crate::github::milestones_view(m@), j as int),
    {
        let ghost mv = crate::github::milestones_view(m@);
        let mut k = j;
        while k < m.len() && m[k].open_issues != 0
            invariant
                j <= k <= m.len(),
                mv == crate::github::milestones_view(m@),
                next_empty_milestone(mv, j as int) == next_empty_milestone(mv, k as int),
            decreases m.len() - k,
        {
            k += 1;
        }
        if k < m.len() {
            let call = GitHubCli.close_milestone(repo.as_str(), m[k].number);
            return (HygieneAt::Closing(repo, m, k), gh(call));
        }
        (HygieneAt::Ending, Action::Print(copy_str("Closure hygiene completed.")))
    }

    /// One step of the run: evaluates every open issue as a parent (without
    /// the strict guard), then closes each open milestone without open
    /// issues. `gh_repo` and `github_repository` are the environment's
    /// `GH_REPO` and `GITHUB_REPOSITORY`.
    pub fn run(&self, gh_repo: Option<String>, github_repository: Option<String>, at: HygieneAt, reply: Reply) -> (r: (
        HygieneAt,
        Action,
    ))
        ensures
            (r.0@, r.1@) == hygiene_next(
                args_view(self.args.args@),
                opt_string_view(gh_repo),
                opt_string_view(github_repository),
                at@,
                reply,
            ),
    {
        let github = GitHubCli;
        let guard = ParentGuard::new(CommandArgs::new(Vec::new()));
        match at {
            HygieneAt::Start => {
                let repo = match self.args.resolve_repo(gh_repo, github_repository) {
                    Ok(r) => r,
                    Err(e) => {
                        return (HygieneAt::Start, fail(e));
                    },
                };
                let call = github.list_open_issue_numbers(repo.as_str());
                (HygieneAt::Issues(repo), gh(call))
            },
            HygieneAt::Issues(repo) => match reply {
                Reply::Text(Ok(out)) => {
                    let l = github.read_references_from_command(out.as_str(), Some(ReferenceKind::Issue));
                    self.eval_from(&guard, repo, l, 0)
                },
                Reply::Text(Err(e)) => (HygieneAt::Issues(repo), fail(e)),
                _ => (HygieneAt::Issues(repo), fail_unexpected()),
            },
            HygieneAt::Evaluating(repo, l, i, e) => {
                if i >= l.len() {
                    return (HygieneAt::Evaluating(repo, l, i, e), fail_unexpected());
                }
                let ev = Eval { repo: copy_str(repo.as_str()), parent: l[i], strict: false };
                let (e2, act) = guard.evaluate_parent_issue(&ev, e, reply);
                let done = match &act {
                    Action::Finish(Ok(())) => true,
                    _ => false,
                };
                if done {
                    self.eval_from(&guard, repo, l, i + 1)
                } else {
                    (HygieneAt::Evaluating(repo, l, i, e2), act)
                }
            },
            HygieneAt::Milestones(repo) => match reply {
                Reply::Text(Ok(out)) => {
                    let m = github.list_open_milestones(out.as_str());
                    self.milestones_from(repo, m, 0)
                },
                Reply::Text(Err(e)) => (HygieneAt::Milestones(repo), fail(e)),
                _ => (HygieneAt::Milestones(repo), fail_unexpected()),
            },
            HygieneAt::Closing(repo, m, j) => match reply {
                Reply::Text(Ok(_)) => {
                    if j >= m.len() {
                        return (HygieneAt::Closing(repo, m, j), fail_unexpected());
                    }
                    let mut t = copy_str("Closed milestone #");
                    crate::text::push_decimal(&mut t, m[j].number);
                    t.append(" (");
                    t.append(m[j].title.as_str());
                    t.append(").");
                    (HygieneAt::Closed(repo, m, j), Action::Print(t))
                },
                Reply::Text(Err(e)) => (HygieneAt::Closing(repo, m, j), fail(e)),
                _ => (HygieneAt::Closing(repo, m, j), fail_unexpected()),
            },
            HygieneAt::Closed(repo, m, j) => {
                if j >= m.len() {
                    let ghost mv = crate::github::milestones_view(m@);
                    assert(next_empty_milestone(mv, j + 1) == mv.len());
                    return (HygieneAt::Ending, Action::Print(copy_str("Closure hygiene completed.")));
                }
                self.milestones_from(repo, m, j + 1)
            },
            HygieneAt::Ending => (HygieneAt::Ending, crate::workflow::finish_ok()),
        }
    }
}

} // verus!
