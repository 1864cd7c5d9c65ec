//! A status report on an issue: label changes that apply only where the
//! repository has the label, then a comment found again by its marker.

use vstd::prelude::*;

use crate::github::{
    add_label_args, comments_args, has_line, issue_labels_args, label_list_args,
    remove_label_args, upsert_args, GhExpect, GitHubCli,
};
use crate::text::lines;
use crate::workflow::{fail, fail_unexpected, failed, gh, succeeded, unexpected_reply, Act, Action, Reply};

verus! {

/// One label change of a report.
pub enum LabelChange {
    /// Add the label when the repository has it.
    Add(String),
    /// Remove the label when the repository has it and the issue carries it.
    Remove(String),
}

/// The view of a label change.
pub enum Change {
    Add(Seq<char>),
    Remove(Seq<char>),
}

impl View for LabelChange {
    type V = Change;

    open spec fn view(&self) -> Change {
        match self {
            LabelChange::Add(l) => Change::Add(l@),
            LabelChange::Remove(l) => Change::Remove(l@),
        }
    }
}

/// The label a change is about.
pub open spec fn change_label(c: Change) -> Seq<char> {
    match c {
        Change::Add(l) => l,
        Change::Remove(l) => l,
    }
}

/// A report: the label changes, in order, then the marked comment.
pub struct StatusUpdate {
    pub repo: String,
    pub issue: String,
    pub changes: Vec<LabelChange>,
    pub marker: String,
    pub body: String,
}

/// The view of a report.
pub struct Report {
    pub repo: Seq<char>,
    pub issue: Seq<char>,
    pub changes: Seq<Change>,
    pub marker: Seq<char>,
    pub body: Seq<char>,
}

impl View for StatusUpdate {
    type V = Report;

    open spec fn view(&self) -> Report {
        Report {
            repo: self.repo@,
            issue: self.issue@,
            changes: self.changes@.map_values(|c: LabelChange| c@),
            marker: self.marker@,
            body: self.body@,
        }
    }
}

/// Where a report stands.
#[derive(Clone, Copy, Debug, PartialEq, Eq, Structural)]
pub enum StatusAt {
    /// About to make change `i`; past the last change, the comment.
    Begin(usize),
    /// The repository's labels were asked for change `i`.
    Listed(usize),
    /// The issue's labels were asked for change `i` (a removal).
    Viewed(usize),
    /// The label edit of change `i` was sent.
    Changed(usize),
    /// The issue's comments were asked.
    Comments,
    /// The comment was written.
    Written,
}

/// The step that makes change `i`, or writes the comment past the last one.
pub open spec fn begin_step(u: Report, i: int) -> (StatusAt, Act) {
    if i < u.changes.len() {
        (StatusAt::Listed(i as usize), Act::Gh(label_list_args(u.repo), GhExpect::Output))
    } else {
        (StatusAt::Comments, Act::Gh(comments_args(u.repo, u.issue), GhExpect::JsonLines))
    }
}

/// The next state and action of a report.
pub open spec fn status_next(u: Report, at: StatusAt, reply: Reply) -> (StatusAt, Act) {
    match at {
        StatusAt::Begin(i) => begin_step(u, i as int),
        StatusAt::Listed(i) => match reply {
            Reply::Text(Ok(labels)) => if i < u.changes.len() {
                if has_line(lines(labels@), change_label(u.changes[i as int])) {
                    match u.changes[i as int] {
                        Change::Add(l) => (
                            StatusAt::Changed(i),
                            Act::Gh(add_label_args(u.repo, u.issue, l), GhExpect::Output),
                        ),
                        Change::Remove(_) => (
                            StatusAt::Viewed(i),
                            Act::Gh(issue_labels_args(u.repo, u.issue), GhExpect::Output),
                        ),
                    }
                } else {
                    begin_step(u, i + 1)
                }
            } else {
                (at, failed(unexpected_reply()))
            },
            Reply::Text(Err(e)) => (at, failed(e@)),
            _ => (at, failed(unexpected_reply())),
        },
        StatusAt::Viewed(i) => match reply {
            Reply::Text(Ok(labels)) => if i < u.changes.len() {
                if has_line(lines(labels@), change_label(u.changes[i as int])) {
                    (
                        StatusAt::Changed(i),
                        Act::Gh(
                            remove_label_args(u.repo, u.issue, change_label(u.changes[i as int])),
                            GhExpect::Output,
                        ),
                    )
                } else {
                    begin_step(u, i + 1)
                }
            } else {
                (at, failed(unexpected_reply()))
            },
            Reply::Text(Err(e)) => (at, failed(e@)),
            _ => (at, failed(unexpected_reply())),
        },
        StatusAt::Changed(i) => match reply {
            Reply::Text(Ok(_)) => begin_step(u, i + 1),
            Reply::Text(Err(e)) => (at, failed(e@)),
            _ => (at, failed(unexpected_reply())),
        },
        StatusAt::Comments => match reply {
            Reply::JsonLines(Ok(values)) => (
                StatusAt::Written,
                Act::Gh(
                    upsert_args(
                        crate::github::comments_of(values@),
                        u.repo,
                        u.issue,
                        u.marker,
                        u.body,
                    ),
                    GhExpect::Output,
                ),
            ),
            Reply::JsonLines(Err(e)) => (at, failed(e@)),
            _ => (at, failed(unexpected_reply())),
        },
        StatusAt::Written => match reply {
            Reply::Text(Ok(_)) => (at, succeeded()),
            Reply::Text(Err(e)) => (at, failed(e@)),
            _ => (at, failed(unexpected_reply())),
        },
    }
}

impl StatusUpdate {
    fn begin(&self, i: usize) -> (r: (StatusAt, Action))
        ensures
            (r.0, r.1@) == begin_step(self@, i as int),
    {
        let github = GitHubCli;
        if i < self.changes.len() {
            (StatusAt::Listed(i), gh(github.label_list_call(self.repo.as_str())))
        } else {
            (StatusAt::Comments, gh(github.issue_comments_call(self.repo.as_str(), self.issue.as_str())))
        }
    }

    /// The next state and action of the report.
    pub fn step(&self, at: StatusAt, reply: Reply) -> (r: (StatusAt, Action))
        ensures
            (r.0, r.1@) == status_next(self@, at, reply),
    {
        let github = GitHubCli;
        match at {
            StatusAt::Begin(i) => self.begin(i),
            StatusAt::Listed(i) => match reply {
                Reply::Text(Ok(labels)) => {
                    if i >= self.changes.len() {
                        return (at, fail_unexpected());
                    }
                    let label = match &self.changes[i] {
                        LabelChange::Add(l) => l,
                        LabelChange::Remove(l) => l,
                    };
                    if github.label_exists(labels.as_str(), label.as_str()) {
                        match &self.changes[i] {
                            LabelChange::Add(l) => (
                                StatusAt::Changed(i),
                                gh(
                                    github.add_issue_label(
                                        self.repo.as_str(),
                                        self.issue.as_str(),
                                        l.as_str(),
                                    ),
                                ),
                            ),
                            LabelChange::Remove(_) => (
                                StatusAt::Viewed(i),
                                gh(github.issue_labels_call(self.repo.as_str(), self.issue.as_str())),
                            ),
                        }
                    } else {
                        self.begin(i + 1)
                    }
                },
                Reply::Text(Err(e)) => (at, fail(e)),
                _ => (at, fail_unexpected()),
            },
            StatusAt::Viewed(i) => match reply {
                Reply::Text(Ok(labels)) => {
                    if i >= self.changes.len() {
                        return (at, fail_unexpected());
                    }
                    let label = match &self.changes[i] {
                        LabelChange::Add(l) => l,
                        LabelChange::Remove(l) => l,
                    };
                    if github.issue_has_label(labels.as_str(), label.as_str()) {
                        (
                            StatusAt::Changed(i),
                            gh(
                                github.remove_issue_label(
                                    self.repo.as_str(),
                                    self.issue.as_str(),
                                    label.as_str(),
                                ),
                            ),
                        )
                    } else {
                        self.begin(i + 1)
                    }
                },
                Reply::Text(Err(e)) => (at, fail(e)),
                _ => (at, fail_unexpected()),
            },
            StatusAt::Changed(i) => match reply {
                Reply::Text(Ok(_)) => {
                    if i >= self.changes.len() {
                        return self.begin(i);
                    }
                    self.begin(i + 1)
                },
                Reply::Text(Err(e)) => (at, fail(e)),
                _ => (at, fail_unexpected()),
            },
            StatusAt::Comments => match reply {
                Reply::JsonLines(Ok(values)) => {
                    let comments = github.read_comment_summaries(&values);
                    (
                        StatusAt::Written,
                        gh(
                            github.upsert_issue_comment_by_marker(
                                &comments,
                                self.repo.as_str(),
                                self.issue.as_str(),
                                self.marker.as_str(),
                                self.body.as_str(),
                            ),
                        ),
                    )
                },
                Reply::JsonLines(Err(e)) => (at, fail(e)),
                _ => (at, fail_unexpected()),
            },
            StatusAt::Written => match reply {
                Reply::Text(Ok(_)) => (at, crate::workflow::finish_ok()),
                Reply::Text(Err(e)) => (at, fail(e)),
                _ => (at, fail_unexpected()),
            },
        }
    }
}

} // verus!
