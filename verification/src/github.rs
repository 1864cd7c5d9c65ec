//! The `gh` invocations of the automation commands and the reading of their
//! output.
//!
//! Each `GitHubCli` request builder returns the `gh` argument list to run
//! (`GhCall`); the program runs it and hands the output back to the readers
//! below.

use vstd::prelude::*;

use crate::json::{get, json_string, json_u64, string_member, JsonValue};
use crate::patterns::strings_view;
use crate::pr_body::{push_line, push_string};
use crate::reference::{
    parsed_reference, ReferenceInput, ReferenceKind,
    ReferenceNumber,
};
use crate::text::{
    chars_of, concat2, concat3, contains, contains_str, decimal, lines, lines_chars,
    parse_u64, parse_u64_chars, split_on, split_on_char, str_eq, string_of, trim,
    trim_chars, };

verus! {

/// What the program does with a call's result.
#[derive(Clone, Copy, Debug, PartialEq, Eq, Structural)]
pub enum GhExpect {
    /// Require success; hand back the trimmed standard output.
    Output,
    /// Hand back whether the call succeeded.
    Status,
    /// On success hand back the standard output read as JSON; a failed call
    /// reads as no value.
    Raw,
    /// Require success; hand back the standard output read as JSON.
    Json,
    /// Require success; hand back each line of the standard output read as
    /// JSON.
    JsonLines,
}

/// One `gh` invocation.
pub struct GhCall {
    pub args: Vec<String>,
    pub expect: GhExpect,
}

/// `["api"] + args`.
pub open spec fn api_args(args: Seq<Seq<char>>) -> Seq<Seq<char>> {
    seq!["api"@] + args
}

/// The views of string slices.
pub open spec fn strs_view(parts: Seq<&str>) -> Seq<Seq<char>> {
    parts.map_values(|s: &str| s@)
}

/// The arguments as owned strings.
pub fn args_from(parts: &[&str]) -> (r: Vec<String>)
    ensures
        strings_view(r@) == strs_view(parts@),
{
    let mut r: Vec<String> = Vec::new();
    let mut i: usize = 0;
    while i < parts.len()
        invariant
            i <= parts.len(),
            strings_view(r@) == strs_view(parts@).take(i as int),
        decreases parts.len() - i,
    {
        push_line(&mut r, parts[i]);
        i += 1;
        assert(strs_view(parts@).take(i as int) =~= strs_view(parts@).take(i - 1).push(
            parts@[i - 1]@,
        ));
    }
    assert(strs_view(parts@).take(parts.len() as int) =~= strs_view(parts@));
    r
}

/// `a + b + c + d`.
pub fn concat4(a: &str, b: &str, c: &str, d: &str) -> (r: String)
    ensures
        r@ == a@ + b@ + c@ + d@,
{
    let mut r = concat3(a, b, c);
    r.append(d);
    r
}

/// The CI state of a pull request.
#[derive(Clone, Copy, Debug, PartialEq, Eq, Structural)]
pub enum PullRequestCiStatus {
    Unknown,
    Fail,
    Running,
    Pass,
}

/// The label of a CI state.
pub open spec fn ci_label(s: PullRequestCiStatus) -> Seq<char> {
    match s {
        PullRequestCiStatus::Unknown => "UNKNOWN ⚪"@,
        PullRequestCiStatus::Fail => "FAIL ❌"@,
        PullRequestCiStatus::Running => "RUNNING ⏳"@,
        PullRequestCiStatus::Pass => "PASS ✅"@,
    }
}

impl PullRequestCiStatus {
    /// The label shown for the state.
    pub fn as_label(&self) -> (r: &'static str)
        ensures
            r@ == ci_label(*self),
    {
        match self {
            Self::Unknown => "UNKNOWN ⚪",
            Self::Fail => "FAIL ❌",
            Self::Running => "RUNNING ⏳",
            Self::Pass => "PASS ✅",
        }
    }
}

/// Title, body and state of an issue.
pub struct IssueDetails {
    pub title: String,
    pub body: String,
    pub state: String,
}

/// An open milestone.
pub struct MilestoneSummary {
    pub number: u64,
    pub title: String,
    pub open_issues: u64,
}

// ---------------------------------------------------------------------------
// Reading outputs
// ---------------------------------------------------------------------------

/// The first non-empty of the three rollup fields, upper-cased (ASCII).
pub open spec fn rollup_state(line: Seq<char>) -> Seq<char> {
    let parts = split_on(line, '\t');
    let c = parts[0];
    let s = if parts.len() > 1 {
        parts[1]
    } else {
        Seq::<char>::empty()
    };
    let t = if parts.len() > 2 {
        parts[2]
    } else {
        Seq::<char>::empty()
    };
    upper(if c.len() > 0 {
        c
    } else if s.len() > 0 {
        s
    } else {
        t
    })
}

/// `char::to_ascii_uppercase`.
pub open spec fn upper_char(c: char) -> char {
    if 'a' <= c <= 'z' {
        ((c as u32) - 32) as char
    } else {
        c
    }
}

/// `str::to_ascii_uppercase`.
pub open spec fn upper(s: Seq<char>) -> Seq<char> {
    s.map_values(|c: char| upper_char(c))
}

/// States that fail a pull request.
pub open spec fn failing_state(s: Seq<char>) -> bool {
    s == "FAILURE"@ || s == "FAILED"@ || s == "CANCELLED"@ || s == "TIMED_OUT"@ || s
        == "ACTION_REQUIRED"@ || s == "STARTUP_FAILURE"@
}

/// States of checks still running.
pub open spec fn running_state(s: Seq<char>) -> bool {
    s == "IN_PROGRESS"@ || s == "QUEUED"@ || s == "PENDING"@ || s == "WAITING"@ || s
        == "REQUESTED"@
}

/// States of passed checks.
pub open spec fn passing_state(s: Seq<char>) -> bool {
    s == "SUCCESS"@ || s == "PASSED"@
}

/// The CI state from the rollup lines read so far: the first failing,
/// running or empty state decides; otherwise `Pass` when one passed.
pub open spec fn ci_status_of(ls: Seq<Seq<char>>, has_pass: bool) -> PullRequestCiStatus
    decreases ls.len(),
{
    if ls.len() == 0 {
        if has_pass {
            PullRequestCiStatus::Pass
        } else {
            PullRequestCiStatus::Unknown
        }
    } else {
        let st = rollup_state(ls[0]);
        if failing_state(st) {
            PullRequestCiStatus::Fail
        } else if running_state(st) {
            PullRequestCiStatus::Running
        } else if passing_state(st) {
            ci_status_of(ls.drop_first(), true)
        } else if st.len() == 0 {
            PullRequestCiStatus::Unknown
        } else {
            ci_status_of(ls.drop_first(), has_pass)
        }
    }
}

/// The CI state of a status rollup output.
pub open spec fn ci_status_text(rollup: Seq<char>) -> PullRequestCiStatus {
    if trim(rollup).len() == 0 {
        PullRequestCiStatus::Unknown
    } else {
        ci_status_of(lines(rollup), false)
    }
}

/// The references of an output, one per non-empty line.
pub open spec fn references_of_lines(ls: Seq<Seq<char>>, kind: Option<ReferenceKind>) -> Seq<
    ReferenceNumber,
>
    decreases ls.len(),
{
    if ls.len() == 0 {
        Seq::<ReferenceNumber>::empty()
    } else {
        let rest = references_of_lines(ls.drop_last(), kind);
        let t = trim(ls.last());
        if t.len() == 0 {
            rest
        } else {
            match parsed_reference(t) {
                Some(r) => rest.push(
                    match kind {
                        Some(k) => ReferenceNumber { value: r.value, kind: Some(k) },
                        None => r,
                    },
                ),
                None => rest,
            }
        }
    }
}

/// Every reference read with a kind carries that kind.
proof fn lemma_references_kind(ls: Seq<Seq<char>>, k: ReferenceKind)
    ensures
        forall|i: int|
            0 <= i < references_of_lines(ls, Some(k)).len() ==> (#[trigger] references_of_lines(
                ls,
                Some(k),
            )[i]).kind == Some(k),
    decreases ls.len(),
{
    if ls.len() > 0 {
        lemma_references_kind(ls.drop_last(), k);
    }
}

/// The trimmed non-empty lines.
pub open spec fn nonempty_lines(ls: Seq<Seq<char>>) -> Seq<Seq<char>>
    decreases ls.len(),
{
    if ls.len() == 0 {
        ls
    } else {
        let rest = nonempty_lines(ls.drop_last());
        if trim(ls.last()).len() == 0 {
            rest
        } else {
            rest.push(trim(ls.last()))
        }
    }
}

/// The `(number, body)` rows of lines holding a tab.
pub open spec fn rows_of(ls: Seq<Seq<char>>) -> Seq<(Seq<char>, Seq<char>)>
    decreases ls.len(),
{
    if ls.len() == 0 {
        Seq::<(Seq<char>, Seq<char>)>::empty()
    } else {
        let rest = rows_of(ls.drop_last());
        let parts = split_on(ls.last(), '\t');
        if parts.len() < 2 {
            rest
        } else {
            rest.push((parts[0], ls.last().skip(parts[0].len() as int + 1)))
        }
    }
}

/// The milestones of the tab-separated lines whose number parses.
pub open spec fn milestones_of(ls: Seq<Seq<char>>) -> Seq<(u64, Seq<char>, u64)>
    decreases ls.len(),
{
    if ls.len() == 0 {
        Seq::<(u64, Seq<char>, u64)>::empty()
    } else {
        let rest = milestones_of(ls.drop_last());
        let parts = split_on(ls.last(), '\t');
        match parse_u64(parts[0]) {
            Some(n) => {
                let title = if parts.len() > 1 {
                    parts[1]
                } else {
                    Seq::<char>::empty()
                };
                let open = if parts.len() > 2 {
                    match parse_u64(parts[2]) {
                        Some(o) => o,
                        None => 0,
                    }
                } else {
                    0
                };
                rest.push((n, title, open))
            },
            None => rest,
        }
    }
}

/// Whether some line, trimmed, equals `label`.
pub open spec fn has_line(ls: Seq<Seq<char>>, label: Seq<char>) -> bool {
    exists|k: int| 0 <= k < ls.len() && trim(#[trigger] ls[k]) == label
}

/// The comment to update: the first whose body contains the marker.
pub open spec fn first_marked(comments: Seq<(u64, Seq<char>)>, marker: Seq<char>) -> Option<u64>
    decreases comments.len(),
{
    if comments.len() == 0 {
        None
    } else if contains(comments[0].1, marker) {
        Some(comments[0].0)
    } else {
        first_marked(comments.drop_first(), marker)
    }
}

/// The comments with a numeric id, `(id, body)`, in order.
pub open spec fn comments_of(values: Seq<JsonValue>) -> Seq<(u64, Seq<char>)>
    decreases values.len(),
{
    if values.len() == 0 {
        Seq::<(u64, Seq<char>)>::empty()
    } else {
        let rest = comments_of(values.drop_last());
        match crate::json::as_u64(get(values.last(), "id"@)) {
            Some(id) => rest.push((id, string_member(values.last(), "body"@))),
            None => rest,
        }
    }
}

/// `char::to_ascii_uppercase` on characters.
fn upper_chars(v: &Vec<char>) -> (r: Vec<char>)
    ensures
        r@ == upper(v@),
{
    let mut r: Vec<char> = Vec::new();
    let mut i: usize = 0;
    while i < v.len()
        invariant
            i <= v.len(),
            r@ == upper(v@.take(i as int)),
        decreases v.len() - i,
    {
        let c = v[i];
        let u = if 'a' <= c && c <= 'z' {
            let b = c as u8;
            let r2 = (b - 32) as char;
            assert(r2 == ((c as u32) - 32) as char);
            r2
        } else {
            c
        };
        r.push(u);
        i += 1;
        assert(upper(v@.take(i as int)) =~= upper(v@.take((i - 1) as int)).push(upper_char(v@[i - 1])));
    }
    assert(v@.take(v.len() as int) =~= v@);
    r
}

/// The state of one rollup line.
fn rollup_state_of(line: &Vec<char>) -> (r: Vec<char>)
    ensures
        r@ == rollup_state(line@),
{
    let parts = split_on_char(line, '\t');
    proof {
        crate::text::lemma_split_nonempty(line@, '\t');
    }
    let empty: Vec<char> = Vec::new();
    let c = &parts[0];
    let s = if parts.len() > 1 {
        &parts[1]
    } else {
        &empty
    };
    let t = if parts.len() > 2 {
        &parts[2]
    } else {
        &empty
    };
    let chosen = if c.len() > 0 {
        c
    } else if s.len() > 0 {
        s
    } else {
        t
    };
    upper_chars(chosen)
}

/// Whether the characters spell one of the words.
fn is_failing_state(s: &str) -> (r: bool)
    ensures
        r == failing_state(s@),
{
    str_eq(s, "FAILURE") || str_eq(s, "FAILED") || str_eq(s, "CANCELLED") || str_eq(s, "TIMED_OUT")
        || str_eq(s, "ACTION_REQUIRED") || str_eq(s, "STARTUP_FAILURE")
}

fn is_running_state(s: &str) -> (r: bool)
    ensures
        r == running_state(s@),
{
    str_eq(s, "IN_PROGRESS") || str_eq(s, "QUEUED") || str_eq(s, "PENDING") || str_eq(s, "WAITING")
        || str_eq(s, "REQUESTED")
}

fn is_passing_state(s: &str) -> (r: bool)
    ensures
        r == passing_state(s@),
{
    str_eq(s, "SUCCESS") || str_eq(s, "PASSED")
}

/// `gh label list` for a repository.
pub open spec fn label_list_args(repo: Seq<char>) -> Seq<Seq<char>> {
    seq!["label"@, "list"@, "-R"@, repo, "--limit"@, "1000"@, "--json"@, "name"@, "--jq"@, ".[].name"@]
}

/// `gh issue view` listing an issue's labels.
pub open spec fn issue_labels_args(repo: Seq<char>, issue: Seq<char>) -> Seq<Seq<char>> {
    seq!["issue"@, "view"@, issue, "-R"@, repo, "--json"@, "labels"@, "--jq"@, ".labels[].name // \"\""@]
}

/// `gh issue edit --add-label`.
pub open spec fn add_label_args(repo: Seq<char>, issue: Seq<char>, label: Seq<char>) -> Seq<Seq<char>> {
    seq!["issue"@, "edit"@, issue, "-R"@, repo, "--add-label"@, label]
}

/// `gh issue edit --remove-label`.
pub open spec fn remove_label_args(repo: Seq<char>, issue: Seq<char>, label: Seq<char>) -> Seq<
    Seq<char>,
> {
    seq!["issue"@, "edit"@, issue, "-R"@, repo, "--remove-label"@, label]
}

/// The API call listing an issue's comments as JSON lines.
pub open spec fn comments_args(repo: Seq<char>, issue: Seq<char>) -> Seq<Seq<char>> {
    api_args(
        seq![
            "repos/"@ + repo + "/issues/"@ + issue + "/comments"@,
            "--paginate"@,
            "--jq"@,
            ".[] | {id: .id, body: (.body // \"\")} | @json"@,
        ],
    )
}

/// The API call writing a marked comment: an update of the first comment
/// holding the marker, else a new comment.
pub open spec fn upsert_args(
    comments: Seq<(u64, Seq<char>)>,
    repo: Seq<char>,
    issue: Seq<char>,
    marker: Seq<char>,
    body: Seq<char>,
) -> Seq<Seq<char>> {
    match first_marked(comments, marker) {
        Some(id) => api_args(
            seq![
                "-X"@,
                "PATCH"@,
                "repos/"@ + repo + "/issues/comments/"@ + decimal(id as nat),
                "-f"@,
                "body="@ + body,
            ],
        ),
        None => api_args(
            seq![
                "-X"@,
                "POST"@,
                "repos/"@ + repo + "/issues/"@ + issue + "/comments"@,
                "-f"@,
                "body="@ + body,
            ],
        ),
    }
}

/// The comments as `(id, body)` views.
pub open spec fn comments_view(c: Seq<(u64, String)>) -> Seq<(u64, Seq<char>)> {
    c.map_values(|x: (u64, String)| (x.0, x.1@))
}


/// `gh issue view` reading title, body and state as JSON.
pub open spec fn issue_details_args(repo: Seq<char>, issue: Seq<char>) -> Seq<Seq<char>> {
    seq!["issue"@, "view"@, issue, "-R"@, repo, "--json"@, "title,body,state"@]
}

/// The GraphQL query reading a child issue's id and parent.
pub open spec fn child_relation_args(owner: Seq<char>, name: Seq<char>, child: Seq<char>) -> Seq<
    Seq<char>,
> {
    api_args(
        seq![
            "graphql"@,
            "-f"@,
            "query=query($owner:String!,$name:String!,$child:Int!){repository(owner:$owner,name:$name){child:issue(number:$child){id parent{number id}}}}"@,
            "-f"@,
            "owner="@ + owner,
            "-f"@,
            "name="@ + name,
            "-F"@,
            "child="@ + child,
        ],
    )
}

/// The GraphQL query reading a child issue's parent and a parent issue's id
/// and state.
pub open spec fn parent_relation_args(
    owner: Seq<char>,
    name: Seq<char>,
    child: Seq<char>,
    parent: Seq<char>,
) -> Seq<Seq<char>> {
    api_args(
        seq![
            "graphql"@,
            "-f"@,
            "query=query($owner:String!,$name:String!,$child:Int!,$parent:Int!){repository(owner:$owner,name:$name){child:issue(number:$child){id parent{number id}} parent:issue(number:$parent){id state}}}"@,
            "-f"@,
            "owner="@ + owner,
            "-f"@,
            "name="@ + name,
            "-F"@,
            "child="@ + child,
            "-F"@,
            "parent="@ + parent,
        ],
    )
}

/// The GraphQL mutation unlinking a sub-issue.
pub open spec fn unlink_args(parent_node: Seq<char>, child_node: Seq<char>) -> Seq<Seq<char>> {
    api_args(
        seq![
            "graphql"@,
            "-f"@,
            "query=mutation($issueId:ID!,$subIssueId:ID!){removeSubIssue(input:{issueId:$issueId,subIssueId:$subIssueId}){issue{id}}}"@,
            "-f"@,
            "issueId="@ + parent_node,
            "-f"@,
            "subIssueId="@ + child_node,
        ],
    )
}

/// The GraphQL mutation linking a sub-issue.
pub open spec fn link_args(parent_node: Seq<char>, child_node: Seq<char>) -> Seq<Seq<char>> {
    api_args(
        seq![
            "graphql"@,
            "-f"@,
            "query=mutation($issueId:ID!,$subIssueId:ID!){addSubIssue(input:{issueId:$issueId,subIssueId:$subIssueId}){issue{subIssues(first:1){nodes{number}}}}}"@,
            "-f"@,
            "issueId="@ + parent_node,
            "-f"@,
            "subIssueId="@ + child_node,
        ],
    )
}


/// `gh pr view` reading one field.
pub open spec fn pr_field_args(repo: Seq<char>, pr: Seq<char>, field: Seq<char>) -> Seq<Seq<char>> {
    seq!["pr"@, "view"@, "--repo"@, repo, pr, "--json"@, field, "--jq"@, "."@ + field]
}

/// `gh pr view` reading the author's login.
pub open spec fn pr_author_args(repo: Seq<char>, pr: Seq<char>) -> Seq<Seq<char>> {
    seq!["pr"@, "view"@, pr, "-R"@, repo, "--json"@, "author"@, "--jq"@, ".author.login // \"\""@]
}

/// The API call listing a pull request's commit messages.
pub open spec fn pr_commits_args(repo: Seq<char>, pr: Seq<char>) -> Seq<Seq<char>> {
    api_args(
        seq![
            "repos/"@ + repo + "/pulls/"@ + pr + "/commits"@,
            "--paginate"@,
            "--jq"@,
            ".[].commit.message"@,
        ],
    )
}

/// `gh issue view` listing the assignees' logins.
pub open spec fn assignees_args(repo: Seq<char>, issue: Seq<char>) -> Seq<Seq<char>> {
    seq!["issue"@, "view"@, issue, "-R"@, repo, "--json"@, "assignees"@, "--jq"@, ".assignees[].login // \"\""@]
}

/// `gh pr edit --body`.
pub open spec fn edit_body_args(repo: Seq<char>, pr: Seq<char>, body: Seq<char>) -> Seq<Seq<char>> {
    seq!["pr"@, "edit"@, pr, "-R"@, repo, "--body"@, body]
}


/// The GraphQL query listing an issue's sub-issues, one number per line.
pub open spec fn sub_issues_args(owner: Seq<char>, name: Seq<char>, issue: Seq<char>) -> Seq<Seq<char>> {
    api_args(
        seq![
            "graphql"@,
            "-f"@,
            "query=query($owner:String!,$name:String!,$number:Int!){repository(owner:$owner,name:$name){issue(number:$number){subIssues(first:100){nodes{number}}}}}"@,
            "-f"@,
            "owner="@ + owner,
            "-f"@,
            "name="@ + name,
            "-F"@,
            "number="@ + issue,
            "--jq"@,
            ".data.repository.issue.subIssues.nodes[]?.number"@,
        ],
    )
}

/// The GraphQL query reading an issue's parent number.
pub open spec fn parent_numbers_args(owner: Seq<char>, name: Seq<char>, issue: Seq<char>) -> Seq<
    Seq<char>,
> {
    api_args(
        seq![
            "graphql"@,
            "-f"@,
            "query=query($owner:String!,$name:String!,$number:Int!){repository(owner:$owner,name:$name){issue(number:$number){parent{number}}}}"@,
            "-f"@,
            "owner="@ + owner,
            "-f"@,
            "name="@ + name,
            "-F"@,
            "number="@ + issue,
            "--jq"@,
            ".data.repository.issue.parent.number // empty"@,
        ],
    )
}

/// The issue search call.
pub open spec fn search_args(query: Seq<char>) -> Seq<Seq<char>> {
    api_args(seq!["search/issues"@, "-f"@, "q="@ + query, "--jq"@, ".items[].number"@])
}

/// `gh issue close` with a reason and a comment.
pub open spec fn close_args(repo: Seq<char>, issue: Seq<char>, reason: Seq<char>, comment: Seq<char>) -> Seq<
    Seq<char>,
> {
    seq!["issue"@, "close"@, issue, "-R"@, repo, "--reason"@, reason, "--comment"@, comment]
}

/// `gh issue reopen`.
pub open spec fn reopen_args(repo: Seq<char>, issue: Seq<char>) -> Seq<Seq<char>> {
    seq!["issue"@, "reopen"@, issue, "-R"@, repo]
}


/// The API call listing open pull requests as `number<TAB>body` lines.
pub open spec fn open_prs_args(repo: Seq<char>) -> Seq<Seq<char>> {
    api_args(
        seq![
            "repos/"@ + repo + "/pulls?state=open&per_page=100"@,
            "--paginate"@,
            "--jq"@,
            ".[] | [.number, (.body // \"\")] | @tsv"@,
        ],
    )
}

/// The `(number, body)` views of rows.
pub open spec fn rows_view(r: Seq<(String, String)>) -> Seq<(Seq<char>, Seq<char>)> {
    r.map_values(|p: (String, String)| (p.0@, p.1@))
}


/// The API call listing a pull request's commits as JSON lines with their
/// sha and message.
pub open spec fn pr_commit_objects_args(repo: Seq<char>, pr: Seq<char>) -> Seq<Seq<char>> {
    api_args(
        seq![
            "repos/"@ + repo + "/pulls/"@ + pr + "/commits"@,
            "--paginate"@,
            "--jq"@,
            ".[] | {sha: .sha, message: .commit.message} | @json"@,
        ],
    )
}

/// The `(sha, message)` of each commit object (missing fields read as
/// empty).
pub open spec fn commits_from(values: Seq<JsonValue>) -> Seq<(Seq<char>, Seq<char>)> {
    values.map_values(|v: JsonValue| (string_member(v, "sha"@), string_member(v, "message"@)))
}


/// `gh pr list` finding the open pull request from `head` into `base`.
pub open spec fn find_pr_args(repo: Seq<char>, head: Seq<char>, base: Seq<char>) -> Seq<Seq<char>> {
    seq![
        "pr"@,
        "list"@,
        "--repo"@,
        repo,
        "--state"@,
        "open"@,
        "--head"@,
        head,
        "--base"@,
        base,
        "--json"@,
        "number"@,
        "--jq"@,
        ".[0].number"@,
    ]
}

/// `gh pr create`.
pub open spec fn create_pr_args(
    repo: Seq<char>,
    head: Seq<char>,
    base: Seq<char>,
    title: Seq<char>,
    body: Seq<char>,
) -> Seq<Seq<char>> {
    seq![
        "pr"@,
        "create"@,
        "--repo"@,
        repo,
        "--base"@,
        base,
        "--head"@,
        head,
        "--title"@,
        title,
        "--body"@,
        body,
    ]
}

/// `gh pr edit --add-label` for each label.
pub open spec fn pr_labels_args(repo: Seq<char>, pr: Seq<char>, labels: Seq<Seq<char>>) -> Seq<Seq<char>> {
    seq!["pr"@, "edit"@, "--repo"@, repo, pr] + label_flags(labels)
}

/// `gh pr view` reading a pull request's number.
pub open spec fn pr_number_args(repo: Seq<char>, selector: Seq<char>) -> Seq<Seq<char>> {
    seq!["pr"@, "view"@, "--repo"@, repo, selector, "--json"@, "number"@, "--jq"@, ".number"@]
}

/// The reference a command printed: none for an empty or `null` output.
pub open spec fn optional_reference(output: Seq<char>, kind: Option<ReferenceKind>) -> Option<ReferenceNumber> {
    if trim(output).len() == 0 || trim(output) == "null"@ {
        None
    } else {
        match parsed_reference(trim(output)) {
            Some(x) => Some(
                match kind {
                    Some(k) => ReferenceNumber { value: x.value, kind: Some(k) },
                    None => x,
                },
            ),
            None => None,
        }
    }
}


/// `gh issue list` of the open issues (at most 300), one number per line.
pub open spec fn open_issues_args(repo: Seq<char>) -> Seq<Seq<char>> {
    seq![
        "issue"@,
        "list"@,
        "-R"@,
        repo,
        "--state"@,
        "open"@,
        "--limit"@,
        "300"@,
        "--json"@,
        "number"@,
        "--jq"@,
        ".[].number"@,
    ]
}

/// The API call listing open milestones as `number<TAB>title<TAB>open` lines.
pub open spec fn milestones_args(repo: Seq<char>) -> Seq<Seq<char>> {
    api_args(
        seq![
            "repos/"@ + repo + "/milestones?state=open"@,
            "--paginate"@,
            "--jq"@,
            ".[] | [.number, (.title // \"\"), (.open_issues // 0)] | @tsv"@,
        ],
    )
}

/// The API call closing a milestone.
pub open spec fn close_milestone_args(repo: Seq<char>, n: u64) -> Seq<Seq<char>> {
    api_args(
        seq!["-X"@, "PATCH"@, "repos/"@ + repo + "/milestones/"@ + decimal(n as nat), "-f"@, "state=closed"@],
    )
}

/// The `(number, title, open issues)` views of milestones.
pub open spec fn milestones_view(m: Seq<MilestoneSummary>) -> Seq<(u64, Seq<char>, u64)> {
    m.map_values(|x: MilestoneSummary| (x.number, x.title@, x.open_issues))
}


/// The API call reading a branch's head sha.
pub open spec fn branch_sha_args(repo: Seq<char>, branch: Seq<char>) -> Seq<Seq<char>> {
    api_args(seq!["repos/"@ + repo + "/git/ref/heads/"@ + branch, "--jq"@, ".object.sha"@])
}

/// The API call reading a branch's ref.
pub open spec fn branch_ref_args(repo: Seq<char>, branch: Seq<char>) -> Seq<Seq<char>> {
    api_args(seq!["repos/"@ + repo + "/git/ref/heads/"@ + branch])
}

/// The API call moving a branch to a sha.
pub open spec fn update_ref_args(repo: Seq<char>, branch: Seq<char>, sha: Seq<char>) -> Seq<Seq<char>> {
    api_args(
        seq![
            "--method"@,
            "PATCH"@,
            "repos/"@ + repo + "/git/refs/heads/"@ + branch,
            "-f"@,
            "sha="@ + sha,
            "-F"@,
            "force=true"@,
        ],
    )
}

/// The API call creating a branch at a sha.
pub open spec fn create_ref_args(repo: Seq<char>, branch: Seq<char>, sha: Seq<char>) -> Seq<Seq<char>> {
    api_args(
        seq![
            "--method"@,
            "POST"@,
            "repos/"@ + repo + "/git/refs"@,
            "-f"@,
            "ref=refs/heads/"@ + branch,
            "-f"@,
            "sha="@ + sha,
        ],
    )
}

/// `gh pr merge`, with `--auto` to enable auto-merge.
pub open spec fn merge_args(repo: Seq<char>, pr: Seq<char>, auto: bool) -> Seq<Seq<char>> {
    seq!["pr"@, "merge"@, "--repo"@, repo, pr] + (if auto {
        seq!["--auto"@]
    } else {
        Seq::<Seq<char>>::empty()
    }) + seq!["--merge"@, "--delete-branch"@]
}

/// Readers of `gh` outputs and builders of `gh` calls.
pub struct GitHubCli;

impl GitHubCli {
    /// `["api"] + args`.
    pub fn with_api_prefix(&self, args: &Vec<String>) -> (r: Vec<String>)
        ensures
            strings_view(r@) == api_args(strings_view(args@)),
    {
        let mut r: Vec<String> = Vec::new();
        push_line(&mut r, "api");
        let mut i: usize = 0;
        while i < args.len()
            invariant
                i <= args.len(),
                strings_view(r@) == api_args(strings_view(args@).take(i as int)),
            decreases args.len() - i,
        {
            push_string(&mut r, args[i].clone());
            i += 1;
            assert(api_args(strings_view(args@).take(i as int)) =~= api_args(
                strings_view(args@).take(i - 1),
            ).push(args@[i - 1]@));
        }
        assert(strings_view(args@).take(args.len() as int) =~= strings_view(args@));
        r
    }

    /// An API call whose output is required.
    pub fn read_api(&self, args: &Vec<String>) -> (r: GhCall)
        ensures
            strings_view(r.args@) == api_args(strings_view(args@)),
            r.expect == GhExpect::Output,
    {
        GhCall { args: self.with_api_prefix(args), expect: GhExpect::Output }
    }

    /// A command whose output is required.
    pub fn read_command(&self, args: &Vec<String>) -> (r: GhCall)
        ensures
            strings_view(r.args@) == strings_view(args@),
            r.expect == GhExpect::Output,
    {
        let mut copy: Vec<String> = Vec::new();
        let mut i: usize = 0;
        while i < args.len()
            invariant
                i <= args.len(),
                strings_view(copy@) == strings_view(args@).take(i as int),
            decreases args.len() - i,
        {
            push_string(&mut copy, args[i].clone());
            i += 1;
            assert(strings_view(args@).take(i as int) =~= strings_view(args@).take(i - 1).push(
                args@[i - 1]@,
            ));
        }
        assert(strings_view(args@).take(args.len() as int) =~= strings_view(args@));
        GhCall { args: copy, expect: GhExpect::Output }
    }

    /// An API call whose success is asked.
    pub fn api_succeeded(&self, args: &Vec<String>) -> (r: GhCall)
        ensures
            strings_view(r.args@) == api_args(strings_view(args@)),
            r.expect == GhExpect::Status,
    {
        GhCall { args: self.with_api_prefix(args), expect: GhExpect::Status }
    }

    /// The reference printed by a command (`None` for empty or `null`).
    pub fn read_optional_reference_command(&self, output: &str, kind: Option<ReferenceKind>) -> (r:
        Option<ReferenceNumber>)
        ensures
            r == optional_reference(output@, kind),
    {
        let t = crate::text::trim_str(output);
        if t.as_str().is_empty() || str_eq(t.as_str(), "null") {
            return None;
        }
        ReferenceInput::from_text(t.as_str()).with_kind_opt(kind).normalize()
    }

    /// The qualified reference given whether it names a pull request (asked
    /// first) and, if not, whether it names an issue.
    pub fn qualify_reference(&self, reference: ReferenceNumber, is_pull_request: bool, is_issue: bool) -> (r:
        Option<ReferenceNumber>)
        ensures
            is_pull_request ==> r == Some(
                ReferenceNumber { value: reference.value, kind: Some(ReferenceKind::PullRequest) },
            ),
            !is_pull_request && is_issue ==> r == Some(
                ReferenceNumber { value: reference.value, kind: Some(ReferenceKind::Issue) },
            ),
            !is_pull_request && !is_issue ==> r is None,
    {
        if is_pull_request {
            Some(reference.with_kind(ReferenceKind::PullRequest))
        } else if is_issue {
            Some(reference.with_kind(ReferenceKind::Issue))
        } else {
            None
        }
    }

    /// Whether the reference is a pull request of the repository.
    pub fn pull_request_lookup(&self, repo: &str, reference: &ReferenceNumber) -> (r: GhCall)
        ensures
            strings_view(r.args@) == api_args(seq!["repos/"@ + repo@ + "/pulls/"@ + decimal(reference.value as nat)]),
            r.expect == GhExpect::Status,
    {
        let mut a2: Vec<String> = Vec::new();
        let mut p = concat3("repos/", repo, "/pulls/");
        p.append(reference.as_string().as_str());
        push_string(&mut a2, p);
        self.api_succeeded(&a2)
    }

    /// Whether the reference is an issue of the repository.
    pub fn issue_lookup(&self, repo: &str, reference: &ReferenceNumber) -> (r: GhCall)
        ensures
            strings_view(r.args@) == api_args(
                seq!["repos/"@ + repo@ + "/issues/"@ + decimal(reference.value as nat)],
            ),
            r.expect == GhExpect::Status,
    {
        let mut a: Vec<String> = Vec::new();
        let mut p = concat3("repos/", repo, "/issues/");
        p.append(reference.as_string().as_str());
        push_string(&mut a, p);
        self.api_succeeded(&a)
    }

    /// The sha a branch points to.
    pub fn read_branch_sha(&self, repo: &str, branch: &str) -> (r: GhCall)
        ensures
            strings_view(r.args@) == branch_sha_args(repo@, branch@),
            r.expect == GhExpect::Output,
    {
        let p = concat4("repos/", repo, "/git/ref/heads/", branch);
        let a = args_from(&[p.as_str(), "--jq", ".object.sha"]);
        self.read_api(&a)
    }

    /// Whether a branch exists.
    pub fn branch_exists(&self, repo: &str, branch: &str) -> (r: GhCall)
        ensures
            strings_view(r.args@) == branch_ref_args(repo@, branch@),
            r.expect == GhExpect::Status,
    {
        let p = concat4("repos/", repo, "/git/ref/heads/", branch);
        let a = args_from(&[p.as_str()]);
        self.api_succeeded(&a)
    }

    /// Force-moves a branch to a sha.
    pub fn update_branch_ref(&self, repo: &str, branch: &str, sha: &str) -> (r: GhCall)
        ensures
            strings_view(r.args@) == update_ref_args(repo@, branch@, sha@),
            r.expect == GhExpect::Output,
    {
        let p = concat4("repos/", repo, "/git/refs/heads/", branch);
        let s = concat2("sha=", sha);
        let a = args_from(&["--method", "PATCH", p.as_str(), "-f", s.as_str(), "-F", "force=true"]);
        self.read_api(&a)
    }

    /// Creates a branch at a sha.
    pub fn create_branch_ref(&self, repo: &str, branch: &str, sha: &str) -> (r: GhCall)
        ensures
            strings_view(r.args@) == create_ref_args(repo@, branch@, sha@),
            r.expect == GhExpect::Output,
    {
        let p = concat3("repos/", repo, "/git/refs");
        let rf = concat2("ref=refs/heads/", branch);
        let s = concat2("sha=", sha);
        let a = args_from(&["--method", "POST", p.as_str(), "-f", rf.as_str(), "-f", s.as_str()]);
        self.read_api(&a)
    }

    /// The open pull request from `head` into `base` (its number is read with
    /// `read_optional_reference_command`).
    pub fn find_open_pull_request(&self, repo: &str, head: &str, base: &str) -> (r: GhCall)
        ensures
            strings_view(r.args@) == find_pr_args(repo@, head@, base@),
            r.expect == GhExpect::Output,
    {
        let a = args_from(
            &[
                "pr",
                "list",
                "--repo",
                repo,
                "--state",
                "open",
                "--head",
                head,
                "--base",
                base,
                "--json",
                "number",
                "--jq",
                ".[0].number",
            ],
        );
        self.read_command(&a)
    }

    /// Creates a pull request (the output is its URL).
    pub fn create_pull_request(&self, repo: &str, head: &str, base: &str, title: &str, body: &str) -> (r:
        GhCall)
        ensures
            strings_view(r.args@) == create_pr_args(repo@, head@, base@, title@, body@),
            r.expect == GhExpect::Output,
    {
        let a = args_from(
            &["pr", "create", "--repo", repo, "--base", base, "--head", head, "--title", title, "--body", body],
        );
        self.read_command(&a)
    }

    /// The number of the pull request a selector names.
    pub fn read_pull_request_number(&self, repo: &str, selector: &str) -> (r: GhCall)
        ensures
            strings_view(r.args@) == pr_number_args(repo@, selector@),
            r.expect == GhExpect::Output,
    {
        let a = args_from(&["pr", "view", "--repo", repo, selector, "--json", "number", "--jq", ".number"]);
        self.read_command(&a)
    }

    /// One field of a pull request.
    pub fn read_pull_request_field(&self, repo: &str, pr_number: &str, field: &str) -> (r: GhCall)
        ensures
            strings_view(r.args@) == pr_field_args(repo@, pr_number@, field@),
            r.expect == GhExpect::Output,
    {
        let jq = concat2(".", field);
        let a = args_from(&["pr", "view", "--repo", repo, pr_number, "--json", field, "--jq", jq.as_str()]);
        self.read_command(&a)
    }

    /// The status rollup of a pull request, one tab-separated line per check.
    pub fn read_pull_request_status_rollup(&self, repo: &str, pr_number: &str) -> (r: GhCall)
        ensures
            strings_view(r.args@) == seq![
                "pr"@,
                "view"@,
                pr_number@,
                "-R"@,
                repo@,
                "--json"@,
                "statusCheckRollup"@,
                "--jq"@,
                ".statusCheckRollup[]? | [(.conclusion // \"\"),(.state // \"\"),(.status // \"\")] | @tsv"@,
            ],
            r.expect == GhExpect::Output,
    {
        let a = args_from(
            &[
                "pr",
                "view",
                pr_number,
                "-R",
                repo,
                "--json",
                "statusCheckRollup",
                "--jq",
                ".statusCheckRollup[]? | [(.conclusion // \"\"),(.state // \"\"),(.status // \"\")] | @tsv",
            ],
        );
        self.read_command(&a)
    }

    /// The CI state of a status rollup.
    pub fn read_pull_request_ci_status(&self, rollup: &str) -> (r: PullRequestCiStatus)
        ensures
            r == ci_status_text(rollup@),
    {
        let v = chars_of(rollup);
        let t = trim_chars(&v);
        if t.len() == 0 {
            return PullRequestCiStatus::Unknown;
        }
        let ls = lines_chars(&v);
        let ghost lv = lines(v@);
        let mut has_pass = false;
        let mut i: usize = 0;
        assert(lv.skip(0) =~= lv);
        while i < ls.len()
            invariant
                i <= ls.len(),
                ls@.len() == lv.len(),
                forall|k: int| 0 <= k < ls@.len() ==> #[trigger] ls@[k]@ == lv[k],
                ci_status_of(lv, false) == ci_status_of(lv.skip(i as int), has_pass),
                lv == lines(rollup@),
                trim(rollup@).len() > 0,
            decreases ls.len() - i,
        {
            assert(lv.skip(i as int)[0] == lv[i as int]);
            assert(lv.skip(i as int).drop_first() =~= lv.skip(i + 1));
            let st = rollup_state_of(&ls[i]);
            let sts = string_of(&st);
            if is_failing_state(sts.as_str()) {
                return PullRequestCiStatus::Fail;
            }
            if is_running_state(sts.as_str()) {
                return PullRequestCiStatus::Running;
            }
            if is_passing_state(sts.as_str()) {
                has_pass = true;
            } else if st.len() == 0 {
                return PullRequestCiStatus::Unknown;
            }
            i += 1;
        }
        if has_pass {
            PullRequestCiStatus::Pass
        } else {
            PullRequestCiStatus::Unknown
        }
    }

    /// Replaces a pull request's body.
    pub fn update_pull_request_body(&self, repo: &str, pr_number: &str, body: &str) -> (r: GhCall)
        ensures
            strings_view(r.args@) == edit_body_args(repo@, pr_number@, body@),
            r.expect == GhExpect::Output,
    {
        let a = args_from(&["pr", "edit", pr_number, "-R", repo, "--body", body]);
        self.read_command(&a)
    }

    /// The login of a pull request's author.
    pub fn read_pull_request_author_login(&self, repo: &str, pr_number: &str) -> (r: GhCall)
        ensures
            strings_view(r.args@) == pr_author_args(repo@, pr_number@),
            r.expect == GhExpect::Output,
    {
        let a = args_from(
            &["pr", "view", pr_number, "-R", repo, "--json", "author", "--jq", ".author.login // \"\""],
        );
        self.read_command(&a)
    }

    /// Adds labels to a pull request.
    pub fn add_pull_request_labels(&self, repo: &str, pr_number: &str, labels: &Vec<String>) -> (r:
        GhCall)
        ensures
            strings_view(r.args@) == pr_labels_args(repo@, pr_number@, strings_view(labels@)),
            r.expect == GhExpect::Output,
    {
        let mut a = args_from(&["pr", "edit", "--repo", repo, pr_number]);
        let ghost head = strings_view(a@);
        let ghost lv = strings_view(labels@);
        let mut i: usize = 0;
        while i < labels.len()
            invariant
                i <= labels.len(),
                lv == strings_view(labels@),
                strings_view(a@) == head + label_flags(lv.take(i as int)),
            decreases labels.len() - i,
        {
            assert(lv.take(i + 1).drop_last() =~= lv.take(i as int));
            push_line(&mut a, "--add-label");
            push_string(&mut a, labels[i].clone());
            i += 1;
        }
        assert(lv.take(labels.len() as int) =~= lv);
        self.read_command(&a)
    }

    /// Merges a pull request, or enables auto-merge.
    pub fn merge_pull_request(&self, repo: &str, pr_number: &str, auto: bool) -> (r: GhCall)
        ensures
            strings_view(r.args@) == merge_args(repo@, pr_number@, auto),
            r.expect == GhExpect::Output,
    {
        let mut a = args_from(&["pr", "merge", "--repo", repo, pr_number]);
        let ghost head = strings_view(a@);
        if auto {
            push_line(&mut a, "--auto");
        }
        push_line(&mut a, "--merge");
        push_line(&mut a, "--delete-branch");
        assert(strings_view(a@) =~= head + (if auto {
            seq!["--auto"@]
        } else {
            Seq::<Seq<char>>::empty()
        }) + seq!["--merge"@, "--delete-branch"@]);
        self.read_command(&a)
    }

    /// The call reading an issue's title, body and state as JSON.
    pub fn issue_details_call(&self, repo: &str, issue_number: &str) -> (r: GhCall)
        ensures
            strings_view(r.args@) == issue_details_args(repo@, issue_number@),
            r.expect == GhExpect::Raw,
    {
        let a = args_from(&["issue", "view", issue_number, "-R", repo, "--json", "title,body,state"]);
        GhCall { args: a, expect: GhExpect::Raw }
    }

    /// An issue's details from its JSON (missing fields read as empty).
    pub fn read_issue_details(&self, payload: &JsonValue) -> (r: IssueDetails)
        ensures
            r.title@ == string_member(*payload, "title"@),
            r.body@ == string_member(*payload, "body"@),
            r.state@ == string_member(*payload, "state"@),
    {
        IssueDetails {
            title: json_string(payload, "title"),
            body: json_string(payload, "body"),
            state: json_string(payload, "state"),
        }
    }

    /// The open issues (at most 300), one number per line.
    pub fn list_open_issue_numbers(&self, repo: &str) -> (r: GhCall)
        ensures
            strings_view(r.args@) == open_issues_args(repo@),
            r.expect == GhExpect::Output,
    {
        let a = args_from(
            &["issue", "list", "-R", repo, "--state", "open", "--limit", "300", "--json", "number", "--jq", ".[].number"],
        );
        self.read_command(&a)
    }

    /// The sub-issues of an issue (GraphQL), one number per line.
    pub fn read_issue_sub_issue_numbers(&self, repo: &str, issue_number: &str) -> (r: Result<
        GhCall,
        String,
    >)
        ensures
            match self.split_spec(repo@) {
                Some((owner, name)) => r matches Ok(c) && c.expect == GhExpect::Output
                    && strings_view(c.args@) == sub_issues_args(owner, name, issue_number@),
                None => r matches Err(e) && e@ == "Invalid repository format: "@ + repo@,
            },
    {
        let (owner, name) = self.split_repo(repo)?;
        let o = concat2("owner=", owner.as_str());
        let n = concat2("name=", name.as_str());
        let num = concat2("number=", issue_number);
        let a = args_from(
            &[
                "graphql",
                "-f",
                "query=query($owner:String!,$name:String!,$number:Int!){repository(owner:$owner,name:$name){issue(number:$number){subIssues(first:100){nodes{number}}}}}",
                "-f",
                o.as_str(),
                "-f",
                n.as_str(),
                "-F",
                num.as_str(),
                "--jq",
                ".data.repository.issue.subIssues.nodes[]?.number",
            ],
        );
        Ok(self.read_api(&a))
    }

    /// The parent of an issue (GraphQL), its number or nothing.
    pub fn read_issue_parent_numbers(&self, repo: &str, issue_number: &str) -> (r: Result<
        GhCall,
        String,
    >)
        ensures
            match self.split_spec(repo@) {
                Some((owner, name)) => r matches Ok(c) && c.expect == GhExpect::Output
                    && strings_view(c.args@) == parent_numbers_args(owner, name, issue_number@),
                None => r matches Err(e) && e@ == "Invalid repository format: "@ + repo@,
            },
    {
        let (owner, name) = self.split_repo(repo)?;
        let o = concat2("owner=", owner.as_str());
        let n = concat2("name=", name.as_str());
        let num = concat2("number=", issue_number);
        let a = args_from(
            &[
                "graphql",
                "-f",
                "query=query($owner:String!,$name:String!,$number:Int!){repository(owner:$owner,name:$name){issue(number:$number){parent{number}}}}",
                "-f",
                o.as_str(),
                "-f",
                n.as_str(),
                "-F",
                num.as_str(),
                "--jq",
                ".data.repository.issue.parent.number // empty",
            ],
        );
        Ok(self.read_api(&a))
    }

    /// The issue search call.
    pub fn search_issues_call(&self, query: &str) -> (r: GhCall)
        ensures
            strings_view(r.args@) == search_args(query@),
            r.expect == GhExpect::Output,
    {
        let q = concat2("q=", query);
        let a = args_from(&["search/issues", "-f", q.as_str(), "--jq", ".items[].number"]);
        self.read_api(&a)
    }

    /// The issues a search found; a failed API call reads as no result, other
    /// failures are errors.
    pub fn search_issue_numbers(&self, result: Result<String, String>) -> (r: Result<
        Vec<ReferenceNumber>,
        String,
    >)
        ensures
            match result {
                Ok(out) => r matches Ok(v) && v@ == references_of_lines(
                    lines(out@),
                    Some(ReferenceKind::Issue),
                ),
                Err(e) => if contains(e@, "gh [\"api\""@) {
                    r matches Ok(v) && v@.len() == 0
                } else {
                    r == Err::<Vec<ReferenceNumber>, String>(e)
                },
            },
    {
        match result {
            Ok(out) => {
                let refs = self.parse_references(out.as_str(), Some(ReferenceKind::Issue));
                proof {
                    lemma_references_kind(lines(out@), ReferenceKind::Issue);
                }
                let mut issues: Vec<ReferenceNumber> = Vec::new();
                let mut i: usize = 0;
                while i < refs.len()
                    invariant
                        i <= refs.len(),
                        issues@ == refs@.take(i as int),
                        forall|k: int| 0 <= k < refs@.len() ==> #[trigger] refs@[k].kind == Some(ReferenceKind::Issue),
                    decreases refs.len() - i,
                {
                    if refs[i].is_issue() {
                        issues.push(refs[i]);
                    }
                    i += 1;
                    assert(issues@ =~= refs@.take(i as int));
                }
                assert(refs@.take(refs.len() as int) =~= refs@);
                Ok(issues)
            },
            Err(e) => {
                if contains_str(&chars_of(e.as_str()), "gh [\"api\"") {
                    Ok(Vec::new())
                } else {
                    Err(e)
                }
            },
        }
    }

    /// The open milestones call, one tab-separated line per milestone.
    pub fn open_milestones_call(&self, repo: &str) -> (r: GhCall)
        ensures
            strings_view(r.args@) == milestones_args(repo@),
            r.expect == GhExpect::Output,
    {
        let p = concat3("repos/", repo, "/milestones?state=open");
        let a = args_from(
            &[p.as_str(), "--paginate", "--jq", ".[] | [.number, (.title // \"\"), (.open_issues // 0)] | @tsv"],
        );
        self.read_api(&a)
    }

    /// The milestones of the output lines whose number parses.
    pub fn list_open_milestones(&self, output: &str) -> (r: Vec<MilestoneSummary>)
        ensures
            milestones_view(r@) == milestones_of(lines(output@)),
    {
        let v = chars_of(output);
        let ls = lines_chars(&v);
        let ghost lv = lines(v@);
        let mut out: Vec<MilestoneSummary> = Vec::new();
        let mut i: usize = 0;
        while i < ls.len()
            invariant
                i <= ls.len(),
                ls@.len() == lv.len(),
                forall|k: int| 0 <= k < ls@.len() ==> #[trigger] ls@[k]@ == lv[k],
                milestones_view(out@)
                    == milestones_of(lv.take(i as int)),
            decreases ls.len() - i,
        {
            assert(lv.take(i + 1).drop_last() =~= lv.take(i as int));
            assert(lv.take(i + 1).last() == lv[i as int]);
            let parts = split_on_char(&ls[i], '\t');
            proof {
                crate::text::lemma_split_nonempty(ls@[i as int]@, '\t');
            }
            let ghost before = milestones_view(out@);
            match parse_u64_chars(&parts[0]) {
                Some(number) => {
                    let title = if parts.len() > 1 {
                        string_of(&parts[1])
                    } else {
                        String::new()
                    };
                    let open_issues = if parts.len() > 2 {
                        match parse_u64_chars(&parts[2]) {
                            Some(o) => o,
                            None => 0,
                        }
                    } else {
                        0
                    };
                    let m = MilestoneSummary { number, title, open_issues };
                    let ghost mv = (m.number, m.title@, m.open_issues);
                    out.push(m);
                    assert(milestones_view(out@)
                        =~= before.push(mv));
                },
                None => {},
            }
            i += 1;
        }
        assert(lv.take(ls.len() as int) =~= lv);
        out
    }

    /// Closes a milestone.
    pub fn close_milestone(&self, repo: &str, milestone_number: u64) -> (r: GhCall)
        ensures
            strings_view(r.args@) == close_milestone_args(repo@, milestone_number),
            r.expect == GhExpect::Output,
    {
        let mut p = concat3("repos/", repo, "/milestones/");
        crate::text::push_decimal(&mut p, milestone_number);
        let a = args_from(&["-X", "PATCH", p.as_str(), "-f", "state=closed"]);
        self.read_api(&a)
    }

    /// The call listing an issue's comments, one JSON object per line.
    pub fn issue_comments_call(&self, repo: &str, issue_number: &str) -> (r: GhCall)
        ensures
            strings_view(r.args@) == comments_args(repo@, issue_number@),
            r.expect == GhExpect::JsonLines,
    {
        let p = concat4("repos/", repo, "/issues/", issue_number);
        let p2 = concat2(p.as_str(), "/comments");
        let a = args_from(
            &[p2.as_str(), "--paginate", "--jq", ".[] | {id: .id, body: (.body // \"\")} | @json"],
        );
        GhCall { args: self.with_api_prefix(&a), expect: GhExpect::JsonLines }
    }

    /// The comments with a numeric id, from their JSON objects.
    pub fn read_comment_summaries(&self, values: &Vec<JsonValue>) -> (r: Vec<(u64, String)>)
        ensures
            comments_view(r@) == comments_of(values@),
    {
        let mut out: Vec<(u64, String)> = Vec::new();
        let mut i: usize = 0;
        while i < values.len()
            invariant
                i <= values.len(),
                comments_view(out@) == comments_of(values@.take(i as int)),
            decreases values.len() - i,
        {
            assert(values@.take(i + 1).drop_last() =~= values@.take(i as int));
            let ghost before = comments_view(out@);
            match json_u64(&values[i], "id") {
                Some(id) => {
                    let body = json_string(&values[i], "body");
                    let ghost bv = body@;
                    out.push((id, body));
                    assert(comments_view(out@) =~= before.push((id, bv)));
                },
                None => {},
            }
            i += 1;
        }
        assert(values@.take(values.len() as int) =~= values@);
        out
    }

    /// The call writing a marked comment: an update of the first comment
    /// holding the marker, else a new comment.
    pub fn upsert_issue_comment_by_marker(
        &self,
        comments: &Vec<(u64, String)>,
        repo: &str,
        issue_number: &str,
        marker: &str,
        body: &str,
    ) -> (r: GhCall)
        ensures
            r.expect == GhExpect::Output,
            strings_view(r.args@) == upsert_args(
                comments_view(comments@),
                repo@,
                issue_number@,
                marker@,
                body@,
            ),
    {
        let ghost cv = comments_view(comments@);
        let m = chars_of(marker);
        let mut i: usize = 0;
        assert(cv.skip(0) =~= cv);
        while i < comments.len()
            invariant
                i <= comments.len(),
                cv == comments_view(comments@),
                m@ == marker@,
                first_marked(cv, marker@) == first_marked(cv.skip(i as int), marker@),
            decreases comments.len() - i,
        {
            assert(cv.skip(i as int)[0] == cv[i as int]);
            assert(cv.skip(i as int).drop_first() =~= cv.skip(i + 1));
            if crate::text::contains_chars(&chars_of(comments[i].1.as_str()), &m) {
                let mut p = concat3("repos/", repo, "/issues/comments/");
                crate::text::push_decimal(&mut p, comments[i].0);
                let b = concat2("body=", body);
                let a = args_from(&["-X", "PATCH", p.as_str(), "-f", b.as_str()]);
                return self.read_api(&a);
            }
            i += 1;
        }
        assert(cv.skip(comments.len() as int) =~= Seq::<(u64, Seq<char>)>::empty());
        let p = concat4("repos/", repo, "/issues/", issue_number);
        let p2 = concat2(p.as_str(), "/comments");
        let b = concat2("body=", body);
        let a = args_from(&["-X", "POST", p2.as_str(), "-f", b.as_str()]);
        self.read_api(&a)
    }

    /// Closes an issue with a reason and a comment.
    pub fn close_issue(&self, repo: &str, issue_number: &str, reason: &str, comment: &str) -> (r:
        GhCall)
        ensures
            strings_view(r.args@) == close_args(repo@, issue_number@, reason@, comment@),
            r.expect == GhExpect::Output,
    {
        let a = args_from(
            &["issue", "close", issue_number, "-R", repo, "--reason", reason, "--comment", comment],
        );
        self.read_command(&a)
    }

    /// Reopens an issue.
    pub fn reopen_issue(&self, repo: &str, issue_number: &str) -> (r: GhCall)
        ensures
            strings_view(r.args@) == reopen_args(repo@, issue_number@),
            r.expect == GhExpect::Output,
    {
        let a = args_from(&["issue", "reopen", issue_number, "-R", repo]);
        self.read_command(&a)
    }

    /// Adds a label when the repository has it.
    pub fn add_label_if_exists(&self, label_exists: bool, repo: &str, issue_number: &str, label: &str) -> (r:
        Option<GhCall>)
        ensures
            label_exists ==> (r matches Some(c) && strings_view(c.args@) == seq![
                "issue"@,
                "edit"@,
                issue_number@,
                "-R"@,
                repo@,
                "--add-label"@,
                label@,
            ]),
            !label_exists ==> r is None,
    {
        if label_exists {
            Some(self.add_issue_label(repo, issue_number, label))
        } else {
            None
        }
    }

    /// Removes a label when the repository has it and the issue carries it
    /// (`has_label` is only consulted when the label exists).
    pub fn remove_label_if_exists(
        &self,
        label_exists: bool,
        has_label: bool,
        repo: &str,
        issue_number: &str,
        label: &str,
    ) -> (r: Option<GhCall>)
        ensures
            label_exists && has_label ==> (r matches Some(c) && strings_view(c.args@) == seq![
                "issue"@,
                "edit"@,
                issue_number@,
                "-R"@,
                repo@,
                "--remove-label"@,
                label@,
            ]),
            !(label_exists && has_label) ==> r is None,
    {
        if label_exists && has_label {
            Some(self.remove_issue_label(repo, issue_number, label))
        } else {
            None
        }
    }

    /// The call listing the repository's labels, one per line.
    pub fn label_list_call(&self, repo: &str) -> (r: GhCall)
        ensures
            strings_view(r.args@) == label_list_args(repo@),
            r.expect == GhExpect::Output,
    {
        let a = args_from(&["label", "list", "-R", repo, "--limit", "1000", "--json", "name", "--jq", ".[].name"]);
        self.read_command(&a)
    }

    /// Whether a label list holds `label`.
    pub fn label_exists(&self, labels: &str, label: &str) -> (r: bool)
        ensures
            r == has_line(lines(labels@), label@),
    {
        line_present(labels, label)
    }

    /// The call listing an issue's labels, one per line.
    pub fn issue_labels_call(&self, repo: &str, issue_number: &str) -> (r: GhCall)
        ensures
            strings_view(r.args@) == issue_labels_args(repo@, issue_number@),
            r.expect == GhExpect::Output,
    {
        let a = args_from(
            &["issue", "view", issue_number, "-R", repo, "--json", "labels", "--jq", ".labels[].name // \"\""],
        );
        self.read_command(&a)
    }

    /// Whether an issue's label list holds `label`.
    pub fn issue_has_label(&self, labels: &str, label: &str) -> (r: bool)
        ensures
            r == has_line(lines(labels@), label@),
    {
        line_present(labels, label)
    }

    /// Adds a label to an issue.
    pub fn add_issue_label(&self, repo: &str, issue_number: &str, label: &str) -> (r: GhCall)
        ensures
            strings_view(r.args@) == add_label_args(repo@, issue_number@, label@),
            r.expect == GhExpect::Output,
    {
        let a = args_from(&["issue", "edit", issue_number, "-R", repo, "--add-label", label]);
        self.read_command(&a)
    }

    /// Removes a label from an issue.
    pub fn remove_issue_label(&self, repo: &str, issue_number: &str, label: &str) -> (r: GhCall)
        ensures
            strings_view(r.args@) == remove_label_args(repo@, issue_number@, label@),
            r.expect == GhExpect::Output,
    {
        let a = args_from(&["issue", "edit", issue_number, "-R", repo, "--remove-label", label]);
        self.read_command(&a)
    }

    /// The call listing a pull request's commit messages.
    pub fn pull_request_commits_call(&self, repo: &str, pr_number: &str) -> (r: GhCall)
        ensures
            strings_view(r.args@) == pr_commits_args(repo@, pr_number@),
            r.expect == GhExpect::Output,
    {
        let p = concat4("repos/", repo, "/pulls/", pr_number);
        let p2 = concat2(p.as_str(), "/commits");
        let a = args_from(&[p2.as_str(), "--paginate", "--jq", ".[].commit.message"]);
        self.read_api(&a)
    }

    /// The call listing a pull request's commits with their sha and message.
    pub fn pull_request_commit_objects_call(&self, repo: &str, pr_number: &str) -> (r: GhCall)
        ensures
            strings_view(r.args@) == pr_commit_objects_args(repo@, pr_number@),
            r.expect == GhExpect::JsonLines,
    {
        let p = concat4("repos/", repo, "/pulls/", pr_number);
        let p2 = concat2(p.as_str(), "/commits");
        let a = args_from(&[p2.as_str(), "--paginate", "--jq", ".[] | {sha: .sha, message: .commit.message} | @json"]);
        GhCall { args: self.with_api_prefix(&a), expect: GhExpect::JsonLines }
    }

    /// The commits of a pull request from their JSON objects.
    pub fn read_pull_request_commits(&self, values: &Vec<JsonValue>) -> (r: Vec<crate::pr_body::PullRequestCommit>)
        ensures
            crate::pr_body::commits_view(r@) == commits_from(values@),
    {
        let mut out: Vec<crate::pr_body::PullRequestCommit> = Vec::new();
        let mut i: usize = 0;
        while i < values.len()
            invariant
                i <= values.len(),
                crate::pr_body::commits_view(out@) == commits_from(values@.take(i as int)),
            decreases values.len() - i,
        {
            let ghost before = crate::pr_body::commits_view(out@);
            let c = crate::pr_body::PullRequestCommit {
                sha: json_string(&values[i], "sha"),
                message: json_string(&values[i], "message"),
            };
            let ghost cv = (c.sha@, c.message@);
            out.push(c);
            assert(crate::pr_body::commits_view(out@) =~= before.push(cv));
            i += 1;
            assert(commits_from(values@.take(i as int)) =~= commits_from(values@.take(i - 1)).push(cv));
        }
        assert(values@.take(values.len() as int) =~= values@);
        out
    }

    /// The commit message lines: trimmed, empty ones dropped.
    pub fn read_pull_request_commit_messages(&self, output: &str) -> (r: Vec<String>)
        ensures
            strings_view(r@) == nonempty_lines(lines(output@)),
    {
        trimmed_nonempty_lines(output)
    }

    /// The call listing open pull requests as `number<TAB>body` lines.
    pub fn open_pull_requests_call(&self, repo: &str) -> (r: GhCall)
        ensures
            strings_view(r.args@) == open_prs_args(repo@),
            r.expect == GhExpect::Output,
    {
        let p = concat3("repos/", repo, "/pulls?state=open&per_page=100");
        let a = args_from(&[p.as_str(), "--paginate", "--jq", ".[] | [.number, (.body // \"\")] | @tsv"]);
        self.read_api(&a)
    }

    /// The `(number, body)` rows: each line split at its first tab; lines
    /// without a tab are skipped.
    pub fn list_open_pull_request_rows(&self, output: &str) -> (r: Vec<(String, String)>)
        ensures
            rows_view(r@) == rows_of(lines(output@)),
    {
        let v = chars_of(output);
        let ls = lines_chars(&v);
        let ghost lv = lines(v@);
        let mut out: Vec<(String, String)> = Vec::new();
        let mut i: usize = 0;
        while i < ls.len()
            invariant
                i <= ls.len(),
                ls@.len() == lv.len(),
                forall|k: int| 0 <= k < ls@.len() ==> #[trigger] ls@[k]@ == lv[k],
                rows_view(out@) == rows_of(lv.take(i as int)),
            decreases ls.len() - i,
        {
            assert(lv.take(i + 1).drop_last() =~= lv.take(i as int));
            assert(lv.take(i + 1).last() == lv[i as int]);
            let line = &ls[i];
            let parts = split_on_char(line, '\t');
            proof {
                crate::text::lemma_split_nonempty(line@, '\t');
                lemma_split_first_piece(line@, '\t');
            }
            let ghost before = rows_view(out@);
            if parts.len() >= 2 {
                let number = string_of(&parts[0]);
                let n0 = parts[0].len();
                let body = crate::text::slice_chars(line, n0 + 1, line.len());
                assert(body@ =~= line@.skip(n0 + 1));
                let row = (number, string_of(&body));
                let ghost rv = (row.0@, row.1@);
                out.push(row);
                assert(rows_view(out@) =~= before.push(rv));
            }
            i += 1;
        }
        assert(lv.take(ls.len() as int) =~= lv);
        out
    }

    /// The call listing an issue's assignees, one login per line.
    pub fn issue_assignees_call(&self, repo: &str, issue_number: &str) -> (r: GhCall)
        ensures
            strings_view(r.args@) == assignees_args(repo@, issue_number@),
            r.expect == GhExpect::Output,
    {
        let a = args_from(
            &["issue", "view", issue_number, "-R", repo, "--json", "assignees", "--jq", ".assignees[].login // \"\""],
        );
        self.read_command(&a)
    }

    /// The assignee logins: trimmed, empty ones dropped.
    pub fn read_issue_assignee_logins(&self, output: &str) -> (r: Vec<String>)
        ensures
            strings_view(r@) == nonempty_lines(lines(output@)),
    {
        trimmed_nonempty_lines(output)
    }

    /// The references printed by a command, one per line.
    pub fn read_references_from_command(&self, output: &str, kind: Option<ReferenceKind>) -> (r: Vec<
        ReferenceNumber,
    >)
        ensures
            r@ == references_of_lines(lines(output@), kind),
    {
        self.parse_references(output, kind)
    }

    /// The references printed by an API call, one per line.
    pub fn read_references_from_api(&self, output: &str, kind: Option<ReferenceKind>) -> (r: Vec<
        ReferenceNumber,
    >)
        ensures
            r@ == references_of_lines(lines(output@), kind),
    {
        self.parse_references(output, kind)
    }

    /// The references of an output: each non-empty trimmed line that parses,
    /// given `kind` when one is given.
    pub fn parse_references(&self, output: &str, kind: Option<ReferenceKind>) -> (r: Vec<
        ReferenceNumber,
    >)
        ensures
            r@ == references_of_lines(lines(output@), kind),
    {
        let v = chars_of(output);
        let ls = lines_chars(&v);
        let ghost lv = lines(v@);
        let mut out: Vec<ReferenceNumber> = Vec::new();
        let mut i: usize = 0;
        while i < ls.len()
            invariant
                i <= ls.len(),
                ls@.len() == lv.len(),
                forall|k: int| 0 <= k < ls@.len() ==> #[trigger] ls@[k]@ == lv[k],
                out@ == references_of_lines(lv.take(i as int), kind),
            decreases ls.len() - i,
        {
            assert(lv.take(i + 1).drop_last() =~= lv.take(i as int));
            assert(lv.take(i + 1).last() == lv[i as int]);
            let t = trim_chars(&ls[i]);
            if t.len() > 0 {
                let text = string_of(&t);
                match ReferenceInput::from_text(text.as_str()).with_kind_opt(kind).normalize() {
                    Some(x) => {
                        out.push(x);
                    },
                    None => {},
                }
            }
            i += 1;
        }
        assert(lv.take(ls.len() as int) =~= lv);
        out
    }

    /// `owner/name` split at the first `/`.
    pub open spec fn split_spec(&self, repo: Seq<char>) -> Option<(Seq<char>, Seq<char>)> {
        let parts = split_on(repo, '/');
        if parts.len() < 2 {
            None
        } else {
            Some((parts[0], repo.skip(parts[0].len() as int + 1)))
        }
    }

    /// Splits `owner/name` at the first `/`.
    pub fn split_repo(&self, repo: &str) -> (r: Result<(String, String), String>)
        ensures
            match self.split_spec(repo@) {
                Some((o, n)) => r matches Ok(p) && p.0@ == o && p.1@ == n,
                None => r matches Err(e) && e@ == "Invalid repository format: "@ + repo@,
            },
    {
        let v = chars_of(repo);
        let parts = split_on_char(&v, '/');
        proof {
            crate::text::lemma_split_nonempty(v@, '/');
            lemma_split_first_piece(v@, '/');
        }
        if parts.len() < 2 {
            return Err(concat2("Invalid repository format: ", repo));
        }
        let n0 = parts[0].len();
        let rest = crate::text::slice_chars(&v, n0 + 1, v.len());
        assert(rest@ =~= v@.skip(n0 + 1));
        Ok((string_of(&parts[0]), string_of(&rest)))
    }

    /// The GraphQL call reading a child issue's id and parent.
    pub fn query_issue_child_parent_relation(&self, repo: &str, child_issue_number: &str) -> (r: Result<
        GhCall,
        String,
    >)
        ensures
            match self.split_spec(repo@) {
                Some((owner, name)) => r matches Ok(c) && c.expect == GhExpect::Json
                    && strings_view(c.args@) == child_relation_args(owner, name, child_issue_number@),
                None => r matches Err(e) && e@ == "Invalid repository format: "@ + repo@,
            },
    {
        let (owner, name) = self.split_repo(repo)?;
        let o = concat2("owner=", owner.as_str());
        let n = concat2("name=", name.as_str());
        let c = concat2("child=", child_issue_number);
        let a = args_from(
            &[
                "graphql",
                "-f",
                "query=query($owner:String!,$name:String!,$child:Int!){repository(owner:$owner,name:$name){child:issue(number:$child){id parent{number id}}}}",
                "-f",
                o.as_str(),
                "-f",
                n.as_str(),
                "-F",
                c.as_str(),
            ],
        );
        Ok(GhCall { args: self.with_api_prefix(&a), expect: GhExpect::Json })
    }

    /// The GraphQL call reading a child issue's parent and a parent issue's id
    /// and state.
    pub fn query_issue_parent_child_relation(
        &self,
        repo: &str,
        child_issue_number: &str,
        parent_issue_number: &str,
    ) -> (r: Result<GhCall, String>)
        ensures
            match self.split_spec(repo@) {
                Some((owner, name)) => r matches Ok(c) && c.expect == GhExpect::Json
                    && strings_view(c.args@) == parent_relation_args(owner, name, child_issue_number@, parent_issue_number@),
                None => r matches Err(e) && e@ == "Invalid repository format: "@ + repo@,
            },
    {
        let (owner, name) = self.split_repo(repo)?;
        let o = concat2("owner=", owner.as_str());
        let n = concat2("name=", name.as_str());
        let c = concat2("child=", child_issue_number);
        let p = concat2("parent=", parent_issue_number);
        let a = args_from(
            &[
                "graphql",
                "-f",
                "query=query($owner:String!,$name:String!,$child:Int!,$parent:Int!){repository(owner:$owner,name:$name){child:issue(number:$child){id parent{number id}} parent:issue(number:$parent){id state}}}",
                "-f",
                o.as_str(),
                "-f",
                n.as_str(),
                "-F",
                c.as_str(),
                "-F",
                p.as_str(),
            ],
        );
        Ok(GhCall { args: self.with_api_prefix(&a), expect: GhExpect::Json })
    }

    /// The GraphQL mutation unlinking a sub-issue.
    pub fn remove_sub_issue_relation(&self, parent_node_id: &str, child_node_id: &str) -> (r: GhCall)
        ensures
            strings_view(r.args@) == unlink_args(parent_node_id@, child_node_id@),
            r.expect == GhExpect::Json,
    {
        let p = concat2("issueId=", parent_node_id);
        let c = concat2("subIssueId=", child_node_id);
        let a = args_from(
            &[
                "graphql",
                "-f",
                "query=mutation($issueId:ID!,$subIssueId:ID!){removeSubIssue(input:{issueId:$issueId,subIssueId:$subIssueId}){issue{id}}}",
                "-f",
                p.as_str(),
                "-f",
                c.as_str(),
            ],
        );
        GhCall { args: self.with_api_prefix(&a), expect: GhExpect::Json }
    }

    /// The GraphQL mutation linking a sub-issue.
    pub fn add_sub_issue_relation(&self, parent_node_id: &str, child_node_id: &str) -> (r: GhCall)
        ensures
            strings_view(r.args@) == link_args(parent_node_id@, child_node_id@),
            r.expect == GhExpect::Json,
    {
        let p = concat2("issueId=", parent_node_id);
        let c = concat2("subIssueId=", child_node_id);
        let a = args_from(
            &[
                "graphql",
                "-f",
                "query=mutation($issueId:ID!,$subIssueId:ID!){addSubIssue(input:{issueId:$issueId,subIssueId:$subIssueId}){issue{subIssues(first:1){nodes{number}}}}}",
                "-f",
                p.as_str(),
                "-f",
                c.as_str(),
            ],
        );
        GhCall { args: self.with_api_prefix(&a), expect: GhExpect::Json }
    }
}

/// `--add-label <label>` for each label.
pub open spec fn label_flags(labels: Seq<Seq<char>>) -> Seq<Seq<char>>
    decreases labels.len(),
{
    if labels.len() == 0 {
        Seq::<Seq<char>>::empty()
    } else {
        label_flags(labels.drop_last()) + seq!["--add-label"@, labels.last()]
    }
}

/// The first piece of a split is a prefix followed by the separator when
/// there are more pieces.
pub proof fn lemma_split_first_piece(s: Seq<char>, c: char)
    ensures
        split_on(s, c).len() >= 1,
        split_on(s, c)[0].len() <= s.len(),
        split_on(s, c).len() >= 2 ==> split_on(s, c)[0].len() < s.len() && s[split_on(
            s,
            c,
        )[0].len() as int] == c && s.take(split_on(s, c)[0].len() as int) == split_on(s, c)[0],
        split_on(s, c).len() == 1 ==> split_on(s, c)[0] == s,
    decreases s.len(),
{
    if s.len() > 0 {
        lemma_split_first_piece(s.drop_last(), c);
        let rest = split_on(s.drop_last(), c);
        crate::text::lemma_split_nonempty(s.drop_last(), c);
        if s.last() == c {
            if rest.len() == 1 {
                assert(s.take(rest[0].len() as int) =~= rest[0]);
            } else {
                assert(s.take(rest[0].len() as int) =~= s.drop_last().take(rest[0].len() as int));
            }
        } else {
            if rest.len() == 1 {
                assert(split_on(s, c)[0] =~= rest[0].push(s.last()));
                assert(s =~= s.drop_last().push(s.last()));
            } else {
                assert(split_on(s, c)[0] == rest[0]);
                assert(s.take(rest[0].len() as int) =~= s.drop_last().take(rest[0].len() as int));
            }
        }
    }
}

/// Whether some line of the text, trimmed, equals `label`.
fn line_present(text: &str, label: &str) -> (r: bool)
    ensures
        r == has_line(lines(text@), label@),
{
    let v = chars_of(text);
    let ls = lines_chars(&v);
    let ghost lv = lines(v@);
    let target = chars_of(label);
    let mut i: usize = 0;
    while i < ls.len()
        invariant
            i <= ls.len(),
            ls@.len() == lv.len(),
            forall|k: int| 0 <= k < ls@.len() ==> #[trigger] ls@[k]@ == lv[k],
            target@ == label@,
            lv == lines(text@),
            forall|k: int| 0 <= k < i ==> trim(#[trigger] lv[k]) != label@,
        decreases ls.len() - i,
    {
        let t = trim_chars(&ls[i]);
        if crate::text::eq_chars(&t, &target) {
            assert(trim(lv[i as int]) == label@);
            assert(lines(text@)[i as int] == lv[i as int]);
            return true;
        }
        i += 1;
    }
    false
}

/// The trimmed non-empty lines of a text.
pub(crate) fn trimmed_nonempty_lines(text: &str) -> (r: Vec<String>)
    ensures
        strings_view(r@) == nonempty_lines(lines(text@)),
{
    let v = chars_of(text);
    let ls = lines_chars(&v);
    let ghost lv = lines(v@);
    let mut out: Vec<String> = Vec::new();
    let mut i: usize = 0;
    while i < ls.len()
        invariant
            i <= ls.len(),
            ls@.len() == lv.len(),
            forall|k: int| 0 <= k < ls@.len() ==> #[trigger] ls@[k]@ == lv[k],
            strings_view(out@) == nonempty_lines(lv.take(i as int)),
        decreases ls.len() - i,
    {
        assert(lv.take(i + 1).drop_last() =~= lv.take(i as int));
        assert(lv.take(i + 1).last() == lv[i as int]);
        let t = trim_chars(&ls[i]);
        if t.len() > 0 {
            push_string(&mut out, string_of(&t));
        }
        i += 1;
    }
    assert(lv.take(ls.len() as int) =~= lv);
    out
}

} // verus!
