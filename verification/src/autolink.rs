//! Links an issue to the parent its body names (`Parent: #<n>`), and reports
//! the result on the issue with labels and a marked comment.

use vstd::prelude::*;

use crate::args::{args_view, flag_reference, opt_string_view, repo_choice, CommandArgs};
use crate::github::{
    child_relation_args, issue_details_args, parent_relation_args, GhExpect, GitHubCli,
};
use crate::json::string_member;
use crate::workflow::{fail, fail_unexpected, failed, gh, unexpected_reply, Act, Action, Reply};
use crate::json::{graphql_error_messages, graphql_errors_of, graphql_string, path_text, JsonValue};
use crate::reference::{parsed_reference, show_number_of, ReferenceKind, ReferenceNumber};
use crate::status::{Change, LabelChange, Report, StatusUpdate};
use crate::text::{
    chars_of, copy_str, decimal, is_whitespace, is_ws, lines, lines_chars, lower, lower_chars,
    starts_with, starts_with_str, string_of, str_eq, trim_start,
};

verus! {

/// The label of an issue whose required fields are missing or invalid.
pub const REQUIRED_MISSING_LABEL: &'static str = "issue-required-missing";

/// The command linking an issue to its parent.
pub struct IssueParentAutolink {
    pub args: CommandArgs,
}

/// The label of an issue the automation failed on.
pub const AUTOMATION_FAILED_LABEL: &'static str = "automation-failed";

// ---------------------------------------------------------------------------
// The `Parent:` field
// ---------------------------------------------------------------------------

/// The characters that are not whitespace, in order
/// (`split_whitespace().collect::<String>()`).
pub open spec fn without_ws(s: Seq<char>) -> Seq<char>
    decreases s.len(),
{
    if s.len() == 0 {
        s
    } else if is_ws(s.last()) {
        without_ws(s.drop_last())
    } else {
        without_ws(s.drop_last()).push(s.last())
    }
}

/// The text after the first `c`; empty without one.
pub open spec fn after_char(s: Seq<char>, c: char) -> Seq<char>
    decreases s.len(),
{
    if s.len() == 0 {
        s
    } else if s[0] == c {
        s.drop_first()
    } else {
        after_char(s.drop_first(), c)
    }
}

/// Whether a line holds the `Parent:` field (any case, leading whitespace
/// ignored).
pub open spec fn is_parent_line(line: Seq<char>) -> bool {
    starts_with(lower(trim_start(line)), "parent:"@)
}

/// The value of the first `Parent:` line, whitespace removed; empty without
/// such a line.
pub open spec fn parent_raw_of(ls: Seq<Seq<char>>) -> Seq<char>
    decreases ls.len(),
{
    if ls.len() == 0 {
        Seq::<char>::empty()
    } else if is_parent_line(ls[0]) {
        without_ws(after_char(ls[0], ':'))
    } else {
        parent_raw_of(ls.drop_first())
    }
}

fn without_ws_chars(v: &Vec<char>) -> (r: Vec<char>)
    ensures
        r@ == without_ws(v@),
{
    let mut r: Vec<char> = Vec::new();
    let mut i: usize = 0;
    while i < v.len()
        invariant
            i <= v.len(),
            r@ == without_ws(v@.take(i as int)),
        decreases v.len() - i,
    {
        assert(v@.take(i + 1).drop_last() =~= v@.take(i as int));
        if !is_whitespace(v[i]) {
            r.push(v[i]);
        }
        i += 1;
    }
    assert(v@.take(v.len() as int) =~= v@);
    r
}

fn after_char_chars(v: &Vec<char>, c: char) -> (r: Vec<char>)
    ensures
        r@ == after_char(v@, c),
{
    let mut i: usize = 0;
    assert(v@.skip(0) =~= v@);
    while i < v.len()
        invariant
            i <= v.len(),
            after_char(v@, c) == after_char(v@.skip(i as int), c),
        decreases v.len() - i,
    {
        assert(v@.skip(i as int)[0] == v@[i as int]);
        assert(v@.skip(i as int).drop_first() =~= v@.skip(i + 1));
        if v[i] == c {
            assert(v@.skip(i + 1) =~= v@.subrange(i + 1, v@.len() as int));
            return crate::text::slice_chars(v, i + 1, v.len());
        }
        i += 1;
    }
    Vec::new()
}

fn trim_start_chars(v: &Vec<char>) -> (r: Vec<char>)
    ensures
        r@ == trim_start(v@),
{
    let mut i: usize = 0;
    assert(v@.skip(0) =~= v@);
    while i < v.len() && is_whitespace(v[i])
        invariant
            i <= v.len(),
            trim_start(v@) == trim_start(v@.skip(i as int)),
        decreases v.len() - i,
    {
        assert(v@.skip(i as int).drop_first() =~= v@.skip(i + 1));
        i += 1;
    }
    assert(v@.skip(i as int) =~= v@.subrange(i as int, v@.len() as int));
    crate::text::slice_chars(v, i, v.len())
}

/// The value of the issue body's `Parent:` field, whitespace removed; empty
/// when the body has no such line.
pub fn extract_parent_raw(body: &str) -> (r: String)
    ensures
        r@ == parent_raw_of(lines(body@)),
{
    let v = chars_of(body);
    let ls = lines_chars(&v);
    let ghost lv = lines(v@);
    let mut i: usize = 0;
    assert(lv.skip(0) =~= lv);
    while i < ls.len()
        invariant
            i <= ls.len(),
            ls@.len() == lv.len(),
            forall|k: int| 0 <= k < ls@.len() ==> #[trigger] ls@[k]@ == lv[k],
            lv == lines(body@),
            parent_raw_of(lv) == parent_raw_of(lv.skip(i as int)),
        decreases ls.len() - i,
    {
        assert(lv.skip(i as int)[0] == lv[i as int]);
        assert(lv.skip(i as int).drop_first() =~= lv.skip(i + 1));
        let lowered = lower_chars(&trim_start_chars(&ls[i]));
        if starts_with_str(&lowered, "parent:") {
            let value = without_ws_chars(&after_char_chars(&ls[i], ':'));
            return string_of(&value);
        }
        i += 1;
    }
    String::new()
}

// ---------------------------------------------------------------------------
// Outcomes and their reports
// ---------------------------------------------------------------------------

/// How a run ends on the issue.
pub enum Outcome {
    /// The issue body is wrong: message and help.
    Validation(String, String),
    /// The automation could not finish: message and help.
    Runtime(String, String),
    /// Done, with a message.
    Success(String),
}

/// The view of an outcome.
pub enum OutcomeV {
    Validation(Seq<char>, Seq<char>),
    Runtime(Seq<char>, Seq<char>),
    Success(Seq<char>),
}

impl View for Outcome {
    type V = OutcomeV;

    open spec fn view(&self) -> OutcomeV {
        match self {
            Outcome::Validation(m, h) => OutcomeV::Validation(m@, h@),
            Outcome::Runtime(m, h) => OutcomeV::Runtime(m@, h@),
            Outcome::Success(m) => OutcomeV::Success(m@),
        }
    }
}

/// The comment heading that follows the marker.
pub open spec fn status_heading() -> Seq<char> {
    "\n### Parent Field Autolink Status\n\n"@
}

/// The report of an outcome: validation errors add the missing-field label
/// and drop the failure label, runtime errors add the failure label, success
/// drops both; the comment states the outcome under the marker.
pub open spec fn report_of(repo: Seq<char>, issue: Seq<char>, marker: Seq<char>, o: OutcomeV) -> Report {
    match o {
        OutcomeV::Validation(m, h) => Report {
            repo,
            issue,
            changes: seq![Change::Add(REQUIRED_MISSING_LABEL@), Change::Remove(AUTOMATION_FAILED_LABEL@)],
            marker,
            body: marker + status_heading() + "❌ "@ + m + "\n\n"@ + h + "\n"@,
        },
        OutcomeV::Runtime(m, h) => Report {
            repo,
            issue,
            changes: seq![Change::Add(AUTOMATION_FAILED_LABEL@)],
            marker,
            body: marker + status_heading() + "⚠️ "@ + m + "\n\n"@ + h + "\n"@,
        },
        OutcomeV::Success(m) => Report {
            repo,
            issue,
            changes: seq![
                Change::Remove(REQUIRED_MISSING_LABEL@),
                Change::Remove(AUTOMATION_FAILED_LABEL@),
            ],
            marker,
            body: marker + status_heading() + "✅ "@ + m + "\n"@,
        },
    }
}

/// `<!-- parent-field-autolink:<n> -->`.
pub open spec fn marker_of(issue_number: Seq<char>) -> Seq<char> {
    "<!-- parent-field-autolink:"@ + issue_number + " -->"@
}

fn body_of(marker: &str, symbol: &str, message: &str, help: Option<&str>) -> (r: String)
    ensures
        help matches Some(h) ==> r@ == marker@ + status_heading() + symbol@ + message@ + "\n\n"@ + h@
            + "\n"@,
        help is None ==> r@ == marker@ + status_heading() + symbol@ + message@ + "\n"@,
{
    let mut b = copy_str(marker);
    b.append("\n### Parent Field Autolink Status\n\n");
    b.append(symbol);
    b.append(message);
    match help {
        Some(h) => {
            b.append("\n\n");
            b.append(h);
            b.append("\n");
        },
        None => {
            b.append("\n");
        },
    }
    b
}

fn update_of(repo: &str, issue: &str, marker: &str, changes: Vec<LabelChange>, body: String) -> (r:
    StatusUpdate)
    ensures
        r@ == (Report {
            repo: repo@,
            issue: issue@,
            changes: changes@.map_values(|c: LabelChange| c@),
            marker: marker@,
            body: body@,
        }),
{
    StatusUpdate {
        repo: copy_str(repo),
        issue: copy_str(issue),
        changes,
        marker: copy_str(marker),
        body,
    }
}

// ---------------------------------------------------------------------------
// What the `Parent:` value asks for
// ---------------------------------------------------------------------------

/// What the issue's `Parent:` value asks for.
pub enum ParentRequest {
    /// The value cannot be used: the report to make.
    Report(Outcome),
    /// `none`, `base` or `epic` (lower-cased): no parent.
    NoParent(String),
    /// This issue as parent.
    Parent(ReferenceNumber),
}

/// The view of a parent request.
pub enum ParentRequestV {
    Report(OutcomeV),
    NoParent(Seq<char>),
    Parent(ReferenceNumber),
}

impl View for ParentRequest {
    type V = ParentRequestV;

    open spec fn view(&self) -> ParentRequestV {
        match self {
            ParentRequest::Report(o) => ParentRequestV::Report(o@),
            ParentRequest::NoParent(w) => ParentRequestV::NoParent(w@),
            ParentRequest::Parent(p) => ParentRequestV::Parent(*p),
        }
    }
}

/// The values that ask for no parent.
pub open spec fn no_parent_word(s: Seq<char>) -> bool {
    s == "none"@ || s == "base"@ || s == "epic"@
}

/// The report for a `Parent:` value that is not a reference.
pub open spec fn invalid_value(raw: Seq<char>) -> OutcomeV {
    OutcomeV::Validation(
        "Invalid `Parent:` value: `"@ + raw + "`."@,
        "Expected `Parent: #<issue_number>` or one of `Parent: none|base|epic`."@,
    )
}

/// The help shown when the field is missing.
pub open spec fn missing_help() -> Seq<char> {
    "Expected format:\n\n- `Parent: #<issue_number>` for child issues\n- `Parent: none` for independent issues\n- `Parent: base` for cascade root issues\n- `Parent: epic` for epic umbrella issues"@
}

/// What the `Parent:` value `raw` of issue `issue_number` asks for.
pub open spec fn parent_request(issue_number: Seq<char>, raw: Seq<char>) -> ParentRequestV {
    if raw.len() == 0 {
        ParentRequestV::Report(
            OutcomeV::Validation("Missing required field `Parent:` in issue body."@, missing_help()),
        )
    } else if no_parent_word(lower(raw)) {
        ParentRequestV::NoParent(lower(raw))
    } else if raw[0] != '#' || raw.len() <= 1 {
        ParentRequestV::Report(invalid_value(raw))
    } else {
        match parsed_reference(raw) {
            None => ParentRequestV::Report(invalid_value(raw)),
            Some(p) => if decimal(p.value as nat) == issue_number {
                ParentRequestV::Report(
                    OutcomeV::Validation(
                        "Issue cannot reference itself as parent (`Parent: "@ + show_number_of(
                            p.value,
                        ) + "`)."@,
                        "Use another parent issue number or `Parent: none`."@,
                    ),
                )
            } else {
                ParentRequestV::Parent(ReferenceNumber { value: p.value, kind: Some(ReferenceKind::Issue) })
            },
        }
    }
}

fn invalid_value_outcome(raw: &str) -> (r: Outcome)
    ensures
        r@ == invalid_value(raw@),
{
    let mut m = copy_str("Invalid `Parent:` value: `");
    m.append(raw);
    m.append("`.");
    Outcome::Validation(
        m,
        copy_str("Expected `Parent: #<issue_number>` or one of `Parent: none|base|epic`."),
    )
}

impl IssueParentAutolink {
    /// The report of a validation error: adds the missing-field label, drops
    /// the failure label, and writes the error and its help in the comment.
    pub fn set_validation_error(
        &self,
        repo: &str,
        issue_number: &str,
        marker: &str,
        message: &str,
        help_text: &str,
    ) -> (r: StatusUpdate)
        ensures
            r@ == report_of(repo@, issue_number@, marker@, OutcomeV::Validation(message@, help_text@)),
    {
        let mut changes: Vec<LabelChange> = Vec::new();
        changes.push(LabelChange::Add(copy_str(REQUIRED_MISSING_LABEL)));
        changes.push(LabelChange::Remove(copy_str(AUTOMATION_FAILED_LABEL)));
        let body = body_of(marker, "❌ ", message, Some(help_text));
        let r = update_of(repo, issue_number, marker, changes, body);
        assert(r@.changes =~= seq![
            Change::Add(REQUIRED_MISSING_LABEL@),
            Change::Remove(AUTOMATION_FAILED_LABEL@),
        ]);
        r
    }

    /// The report of a runtime error: adds the failure label and writes the
    /// error and its help in the comment.
    pub fn set_runtime_error(
        &self,
        repo: &str,
        issue_number: &str,
        marker: &str,
        message: &str,
        help_text: &str,
    ) -> (r: StatusUpdate)
        ensures
            r@ == report_of(repo@, issue_number@, marker@, OutcomeV::Runtime(message@, help_text@)),
    {
        let mut changes: Vec<LabelChange> = Vec::new();
        changes.push(LabelChange::Add(copy_str(AUTOMATION_FAILED_LABEL)));
        let body = body_of(marker, "⚠️ ", message, Some(help_text));
        let r = update_of(repo, issue_number, marker, changes, body);
        assert(r@.changes =~= seq![Change::Add(AUTOMATION_FAILED_LABEL@)]);
        r
    }

    /// The report of a success: drops both labels and writes the message in
    /// the comment.
    pub fn set_success(&self, repo: &str, issue_number: &str, marker: &str, message: &str) -> (r:
        StatusUpdate)
        ensures
            r@ == report_of(repo@, issue_number@, marker@, OutcomeV::Success(message@)),
    {
        let mut changes: Vec<LabelChange> = Vec::new();
        changes.push(LabelChange::Remove(copy_str(REQUIRED_MISSING_LABEL)));
        changes.push(LabelChange::Remove(copy_str(AUTOMATION_FAILED_LABEL)));
        let body = body_of(marker, "✅ ", message, None);
        let r = update_of(repo, issue_number, marker, changes, body);
        assert(r@.changes =~= seq![
            Change::Remove(REQUIRED_MISSING_LABEL@),
            Change::Remove(AUTOMATION_FAILED_LABEL@),
        ]);
        r
    }

    /// The report of an outcome.
    pub fn report(&self, repo: &str, issue_number: &str, marker: &str, outcome: &Outcome) -> (r:
        StatusUpdate)
        ensures
            r@ == report_of(repo@, issue_number@, marker@, outcome@),
    {
        match outcome {
            Outcome::Validation(m, h) => self.set_validation_error(
                repo,
                issue_number,
                marker,
                m.as_str(),
                h.as_str(),
            ),
            Outcome::Runtime(m, h) => self.set_runtime_error(repo, issue_number, marker, m.as_str(), h.as_str()),
            Outcome::Success(m) => self.set_success(repo, issue_number, marker, m.as_str()),
        }
    }

    /// What the `Parent:` value `parent_raw` of issue `issue_number` asks
    /// for.
    pub fn classify_parent(&self, issue_number: &str, parent_raw: &str) -> (r: ParentRequest)
        ensures
            r@ == parent_request(issue_number@, parent_raw@),
    {
        let raw = chars_of(parent_raw);
        if raw.len() == 0 {
            return ParentRequest::Report(
                Outcome::Validation(
                    copy_str("Missing required field `Parent:` in issue body."),
                    copy_str(
                        "Expected format:\n\n- `Parent: #<issue_number>` for child issues\n- `Parent: none` for independent issues\n- `Parent: base` for cascade root issues\n- `Parent: epic` for epic umbrella issues",
                    ),
                ),
            );
        }
        let lc = string_of(&lower_chars(&raw));
        if str_eq(lc.as_str(), "none") || str_eq(lc.as_str(), "base") || str_eq(lc.as_str(), "epic") {
            return ParentRequest::NoParent(lc);
        }
        if raw[0] != '#' || raw.len() <= 1 {
            return ParentRequest::Report(invalid_value_outcome(parent_raw));
        }
        match ReferenceNumber::parse(parent_raw) {
            None => ParentRequest::Report(invalid_value_outcome(parent_raw)),
            Some(p) => {
                let parent = p.with_kind(ReferenceKind::Issue);
                if str_eq(parent.as_string().as_str(), issue_number) {
                    let mut m = copy_str("Issue cannot reference itself as parent (`Parent: ");
                    m.append(parent.show_number().as_str());
                    m.append("`).");
                    ParentRequest::Report(
                        Outcome::Validation(
                            m,
                            copy_str("Use another parent issue number or `Parent: none`."),
                        ),
                    )
                } else {
                    ParentRequest::Parent(parent)
                }
            },
        }
    }
}

// ---------------------------------------------------------------------------
// The relation between the issue and its parent
// ---------------------------------------------------------------------------

/// The number of the issue's current parent in a relation query.
pub open spec fn current_parent_number(rel: JsonValue) -> Seq<char> {
    path_text(rel, seq!["data"@, "repository"@, "child"@, "parent"@, "number"@])
}

/// The node id of the issue's current parent.
pub open spec fn current_parent_node(rel: JsonValue) -> Seq<char> {
    path_text(rel, seq!["data"@, "repository"@, "child"@, "parent"@, "id"@])
}

/// The node id of the issue.
pub open spec fn child_node(rel: JsonValue) -> Seq<char> {
    path_text(rel, seq!["data"@, "repository"@, "child"@, "id"@])
}

/// The node id of the requested parent.
pub open spec fn parent_node(rel: JsonValue) -> Seq<char> {
    path_text(rel, seq!["data"@, "repository"@, "parent"@, "id"@])
}

fn current_parent_number_of(rel: &JsonValue) -> (r: String)
    ensures
        r@ == current_parent_number(*rel),
{
    let p: Vec<&str> = vec!["data", "repository", "child", "parent", "number"];
    assert(p@.map_values(|k: &str| k@) =~= seq!["data"@, "repository"@, "child"@, "parent"@, "number"@]);
    graphql_string(rel, &p)
}

fn current_parent_node_of(rel: &JsonValue) -> (r: String)
    ensures
        r@ == current_parent_node(*rel),
{
    let p: Vec<&str> = vec!["data", "repository", "child", "parent", "id"];
    assert(p@.map_values(|k: &str| k@) =~= seq!["data"@, "repository"@, "child"@, "parent"@, "id"@]);
    graphql_string(rel, &p)
}

fn child_node_of(rel: &JsonValue) -> (r: String)
    ensures
        r@ == child_node(*rel),
{
    let p: Vec<&str> = vec!["data", "repository", "child", "id"];
    assert(p@.map_values(|k: &str| k@) =~= seq!["data"@, "repository"@, "child"@, "id"@]);
    graphql_string(rel, &p)
}

fn parent_node_of(rel: &JsonValue) -> (r: String)
    ensures
        r@ == parent_node(*rel),
{
    let p: Vec<&str> = vec!["data", "repository", "parent", "id"];
    assert(p@.map_values(|k: &str| k@) =~= seq!["data"@, "repository"@, "parent"@, "id"@]);
    graphql_string(rel, &p)
}

/// What to do about a parent link.
pub enum LinkPlan {
    /// Nothing more to ask GitHub: the report to make.
    Report(Outcome),
    /// Unlink the current parent first.
    Unlink { current: String, current_node: String, child_node: String, parent_node: String },
    /// Link the issue under the parent, then report `success`.
    Link { parent_node: String, child_node: String, success: String },
}

/// The view of a link plan.
pub enum LinkPlanV {
    Report(OutcomeV),
    Unlink { current: Seq<char>, current_node: Seq<char>, child_node: Seq<char>, parent_node: Seq<char> },
    Link { parent_node: Seq<char>, child_node: Seq<char>, success: Seq<char> },
}

impl View for LinkPlan {
    type V = LinkPlanV;

    open spec fn view(&self) -> LinkPlanV {
        match self {
            LinkPlan::Report(o) => LinkPlanV::Report(o@),
            LinkPlan::Unlink { current, current_node, child_node, parent_node } => LinkPlanV::Unlink {
                current: current@,
                current_node: current_node@,
                child_node: child_node@,
                parent_node: parent_node@,
            },
            LinkPlan::Link { parent_node, child_node, success } => LinkPlanV::Link {
                parent_node: parent_node@,
                child_node: child_node@,
                success: success@,
            },
        }
    }
}

/// `API errors: <errors>`.
pub open spec fn api_errors(e: Seq<char>) -> Seq<char> {
    "API errors: "@ + e
}

/// Linking once the node ids are known: both are needed.
pub open spec fn link_step(child: Seq<char>, parent: Seq<char>, success: Seq<char>) -> LinkPlanV {
    if child.len() == 0 || parent.len() == 0 {
        LinkPlanV::Report(
            OutcomeV::Runtime(
                "Missing GitHub node IDs required for sub-issue linking."@,
                "Retry later. If this persists, link parent/child manually in GitHub UI."@,
            ),
        )
    } else {
        LinkPlanV::Link { parent_node: parent, child_node: child, success }
    }
}

/// What the relation query `rel` calls for when `parent` is requested.
pub open spec fn link_plan(parent: ReferenceNumber, rel: JsonValue) -> LinkPlanV {
    match graphql_errors_of(rel) {
        Some(e) => LinkPlanV::Report(
            OutcomeV::Runtime(
                "GitHub GraphQL query returned errors while reading relation state."@,
                api_errors(e),
            ),
        ),
        None => {
            let current = current_parent_number(rel);
            let shown = show_number_of(parent.value);
            if current == decimal(parent.value as nat) {
                LinkPlanV::Report(OutcomeV::Success("Issue already linked to parent "@ + shown + "."@))
            } else if current.len() > 0 {
                if current_parent_node(rel).len() == 0 || child_node(rel).len() == 0 {
                    LinkPlanV::Report(
                        OutcomeV::Runtime(
                            "Missing node IDs required to re-parent issue from #"@ + current + " to "@
                                + shown + "."@,
                            "Retry later. If this persists, update parent linkage manually in GitHub UI."@,
                        ),
                    )
                } else {
                    LinkPlanV::Unlink {
                        current,
                        current_node: current_parent_node(rel),
                        child_node: child_node(rel),
                        parent_node: parent_node(rel),
                    }
                }
            } else {
                link_step(
                    child_node(rel),
                    parent_node(rel),
                    "Linked this issue as child of "@ + shown + "."@,
                )
            }
        },
    }
}

/// What follows the unlinking of the previous parent `current`.
pub open spec fn after_unlink_plan(
    parent: ReferenceNumber,
    current: Seq<char>,
    child: Seq<char>,
    parent_id: Seq<char>,
    result: JsonValue,
) -> LinkPlanV {
    match graphql_errors_of(result) {
        Some(e) => LinkPlanV::Report(
            OutcomeV::Runtime(
                "GitHub GraphQL mutation returned errors while unlinking previous parent #"@ + current
                    + "."@,
                api_errors(e),
            ),
        ),
        None => link_step(
            child,
            parent_id,
            "Re-parented this issue from #"@ + current + " to "@ + show_number_of(parent.value) + "."@,
        ),
    }
}

/// The outcome of the linking mutation.
pub open spec fn after_link_outcome(success: Seq<char>, result: JsonValue) -> OutcomeV {
    match graphql_errors_of(result) {
        Some(e) => OutcomeV::Runtime(
            "GitHub GraphQL mutation returned errors while linking child to parent."@,
            api_errors(e),
        ),
        None => OutcomeV::Success(success),
    }
}

fn api_errors_text(e: &str) -> (r: String)
    ensures
        r@ == api_errors(e@),
{
    crate::text::concat2("API errors: ", e)
}

fn link_step_exec(child: String, parent: String, success: String) -> (r: LinkPlan)
    ensures
        r@ == link_step(child@, parent@, success@),
{
    if child.as_str().is_empty() || parent.as_str().is_empty() {
        LinkPlan::Report(
            Outcome::Runtime(
                copy_str("Missing GitHub node IDs required for sub-issue linking."),
                copy_str("Retry later. If this persists, link parent/child manually in GitHub UI."),
            ),
        )
    } else {
        LinkPlan::Link { parent_node: parent, child_node: child, success }
    }
}

impl IssueParentAutolink {
    /// What the relation query calls for when `parent` is requested.
    pub fn plan_link(&self, parent: &ReferenceNumber, relation: &JsonValue) -> (r: LinkPlan)
        ensures
            r@ == link_plan(*parent, *relation),
    {
        match graphql_error_messages(relation) {
            Some(e) => LinkPlan::Report(
                Outcome::Runtime(
                    copy_str("GitHub GraphQL query returned errors while reading relation state."),
                    api_errors_text(e.as_str()),
                ),
            ),
            None => {
                let current = current_parent_number_of(relation);
                let shown = parent.show_number();
                if str_eq(current.as_str(), parent.as_string().as_str()) {
                    let mut m = copy_str("Issue already linked to parent ");
                    m.append(shown.as_str());
                    m.append(".");
                    return LinkPlan::Report(Outcome::Success(m));
                }
                if !current.as_str().is_empty() {
                    let current_node = current_parent_node_of(relation);
                    let child = child_node_of(relation);
                    if current_node.as_str().is_empty() || child.as_str().is_empty() {
                        let mut m = copy_str("Missing node IDs required to re-parent issue from #");
                        m.append(current.as_str());
                        m.append(" to ");
                        m.append(shown.as_str());
                        m.append(".");
                        return LinkPlan::Report(
                            Outcome::Runtime(
                                m,
                                copy_str(
                                    "Retry later. If this persists, update parent linkage manually in GitHub UI.",
                                ),
                            ),
                        );
                    }
                    return LinkPlan::Unlink {
                        current,
                        current_node,
                        child_node: child,
                        parent_node: parent_node_of(relation),
                    };
                }
                let mut m = copy_str("Linked this issue as child of ");
                m.append(shown.as_str());
                m.append(".");
                link_step_exec(child_node_of(relation), parent_node_of(relation), m)
            },
        }
    }

    /// What follows the unlinking of the previous parent `current`.
    pub fn after_unlink(
        &self,
        parent: &ReferenceNumber,
        current: &str,
        child: &str,
        parent_id: &str,
        result: &JsonValue,
    ) -> (r: LinkPlan)
        ensures
            r@ == after_unlink_plan(*parent, current@, child@, parent_id@, *result),
    {
        match graphql_error_messages(result) {
            Some(e) => {
                let mut m = copy_str(
                    "GitHub GraphQL mutation returned errors while unlinking previous parent #",
                );
                m.append(current);
                m.append(".");
                LinkPlan::Report(Outcome::Runtime(m, api_errors_text(e.as_str())))
            },
            None => {
                let mut m = copy_str("Re-parented this issue from #");
                m.append(current);
                m.append(" to ");
                m.append(parent.show_number().as_str());
                m.append(".");
                link_step_exec(copy_str(child), copy_str(parent_id), m)
            },
        }
    }

    /// The outcome of the linking mutation.
    pub fn after_link(&self, success: &str, result: &JsonValue) -> (r: Outcome)
        ensures
            r@ == after_link_outcome(success@, *result),
    {
        match graphql_error_messages(result) {
            Some(e) => Outcome::Runtime(
                copy_str("GitHub GraphQL mutation returned errors while linking child to parent."),
                api_errors_text(e.as_str()),
            ),
            None => Outcome::Success(copy_str(success)),
        }
    }
}

// ---------------------------------------------------------------------------
// No parent requested
// ---------------------------------------------------------------------------

/// What to do when the issue asks for no parent.
pub enum ReleasePlan {
    /// Nothing more to ask GitHub: the report to make.
    Report(Outcome),
    /// Unlink the current parent `current`.
    Unlink { current: String, current_node: String, child_node: String },
}

/// The view of a release plan.
pub enum ReleasePlanV {
    Report(OutcomeV),
    Unlink { current: Seq<char>, current_node: Seq<char>, child_node: Seq<char> },
}

impl View for ReleasePlan {
    type V = ReleasePlanV;

    open spec fn view(&self) -> ReleasePlanV {
        match self {
            ReleasePlan::Report(o) => ReleasePlanV::Report(o@),
            ReleasePlan::Unlink { current, current_node, child_node } => ReleasePlanV::Unlink {
                current: current@,
                current_node: current_node@,
                child_node: child_node@,
            },
        }
    }
}

/// What the relation query `rel` calls for when the issue asks for no parent
/// (`Parent: <raw_lc>`): an existing parent is unlinked.
pub open spec fn release_plan(raw_lc: Seq<char>, rel: JsonValue) -> ReleasePlanV {
    match graphql_errors_of(rel) {
        Some(e) => ReleasePlanV::Report(
            OutcomeV::Runtime(
                "GitHub GraphQL query returned errors while reading current parent relation."@,
                api_errors(e),
            ),
        ),
        None => {
            let current = current_parent_number(rel);
            if current.len() > 0 {
                if current_parent_node(rel).len() == 0 || child_node(rel).len() == 0 {
                    ReleasePlanV::Report(
                        OutcomeV::Runtime(
                            "Missing node IDs required to unlink current parent #"@ + current + "."@,
                            "Retry later. If this persists, unlink parent manually in GitHub UI."@,
                        ),
                    )
                } else {
                    ReleasePlanV::Unlink {
                        current,
                        current_node: current_parent_node(rel),
                        child_node: child_node(rel),
                    }
                }
            } else {
                ReleasePlanV::Report(
                    OutcomeV::Success("No parent linking requested (`Parent: "@ + raw_lc + "`)."@),
                )
            }
        },
    }
}

/// The outcome of unlinking the parent `current` when none is requested.
pub open spec fn after_release_outcome(raw_lc: Seq<char>, current: Seq<char>, result: JsonValue) -> OutcomeV {
    match graphql_errors_of(result) {
        Some(e) => OutcomeV::Runtime(
            "GitHub GraphQL mutation returned errors while unlinking parent #"@ + current + "."@,
            api_errors(e),
        ),
        None => OutcomeV::Success(
            "Removed existing parent link #"@ + current + " (`Parent: "@ + raw_lc + "`)."@,
        ),
    }
}

impl IssueParentAutolink {
    /// What the relation query calls for when the issue asks for no parent.
    pub fn handle_no_parent_requested(&self, parent_raw_lc: &str, relation: &JsonValue) -> (r:
        ReleasePlan)
        ensures
            r@ == release_plan(parent_raw_lc@, *relation),
    {
        match graphql_error_messages(relation) {
            Some(e) => ReleasePlan::Report(
                Outcome::Runtime(
                    copy_str(
                        "GitHub GraphQL query returned errors while reading current parent relation.",
                    ),
                    api_errors_text(e.as_str()),
                ),
            ),
            None => {
                let current = current_parent_number_of(relation);
                if !current.as_str().is_empty() {
                    let current_node = current_parent_node_of(relation);
                    let child = child_node_of(relation);
                    if current_node.as_str().is_empty() || child.as_str().is_empty() {
                        let mut m = copy_str("Missing node IDs required to unlink current parent #");
                        m.append(current.as_str());
                        m.append(".");
                        return ReleasePlan::Report(
                            Outcome::Runtime(
                                m,
                                copy_str(
                                    "Retry later. If this persists, unlink parent manually in GitHub UI.",
                                ),
                            ),
                        );
                    }
                    ReleasePlan::Unlink { current, current_node, child_node: child }
                } else {
                    let mut m = copy_str("No parent linking requested (`Parent: ");
                    m.append(parent_raw_lc);
                    m.append("`).");
                    ReleasePlan::Report(Outcome::Success(m))
                }
            },
        }
    }

    /// The outcome of unlinking the parent `current` when none is requested.
    pub fn after_release(&self, parent_raw_lc: &str, current: &str, result: &JsonValue) -> (r:
        Outcome)
        ensures
            r@ == after_release_outcome(parent_raw_lc@, current@, *result),
    {
        match graphql_error_messages(result) {
            Some(e) => {
                let mut m = copy_str(
                    "GitHub GraphQL mutation returned errors while unlinking parent #",
                );
                m.append(current);
                m.append(".");
                Outcome::Runtime(m, api_errors_text(e.as_str()))
            },
            None => {
                let mut m = copy_str("Removed existing parent link #");
                m.append(current);
                m.append(" (`Parent: ");
                m.append(parent_raw_lc);
                m.append("`).");
                Outcome::Success(m)
            },
        }
    }
}

// ---------------------------------------------------------------------------
// The run
// ---------------------------------------------------------------------------

/// The repository, issue number and comment marker of a run.
pub struct Context {
    pub repo: String,
    pub issue_number: String,
    pub marker: String,
}

/// The view of a run's context.
pub struct Ctx {
    pub repo: Seq<char>,
    pub issue: Seq<char>,
    pub marker: Seq<char>,
}

impl View for Context {
    type V = Ctx;

    open spec fn view(&self) -> Ctx {
        Ctx { repo: self.repo@, issue: self.issue_number@, marker: self.marker@ }
    }
}

/// Where a run stands.
pub enum AutolinkAt {
    /// Nothing asked yet.
    Start,
    /// The issue's details were asked.
    Issue(Context),
    /// The requested parent's details were asked.
    Parent(Context, ReferenceNumber),
    /// The relation between the issue and the parent was asked.
    Relation(Context, ReferenceNumber),
    /// The previous parent `current` is being unlinked; the child and parent
    /// node ids follow.
    Unlinking(Context, ReferenceNumber, String, String, String),
    /// The issue is being linked; the success message follows.
    Linking(Context, String),
    /// No parent is requested (`Parent: <word>`); the current parent was asked.
    Release(Context, String),
    /// No parent is requested; the current parent `current` is being unlinked.
    Releasing(Context, String, String),
    /// The outcome is being reported.
    Reporting(StatusUpdate, crate::status::StatusAt),
}

/// The view of where a run stands.
pub enum AutolinkState {
    Start,
    Issue(Ctx),
    Parent(Ctx, ReferenceNumber),
    Relation(Ctx, ReferenceNumber),
    Unlinking(Ctx, ReferenceNumber, Seq<char>, Seq<char>, Seq<char>),
    Linking(Ctx, Seq<char>),
    Release(Ctx, Seq<char>),
    Releasing(Ctx, Seq<char>, Seq<char>),
    Reporting(Report, crate::status::StatusAt),
}

impl View for AutolinkAt {
    type V = AutolinkState;

    open spec fn view(&self) -> AutolinkState {
        match self {
            AutolinkAt::Start => AutolinkState::Start,
            AutolinkAt::Issue(c) => AutolinkState::Issue(c@),
            AutolinkAt::Parent(c, p) => AutolinkState::Parent(c@, *p),
            AutolinkAt::Relation(c, p) => AutolinkState::Relation(c@, *p),
            AutolinkAt::Unlinking(c, p, cur, ch, pn) => AutolinkState::Unlinking(c@, *p, cur@, ch@, pn@),
            AutolinkAt::Linking(c, m) => AutolinkState::Linking(c@, m@),
            AutolinkAt::Release(c, w) => AutolinkState::Release(c@, w@),
            AutolinkAt::Releasing(c, w, cur) => AutolinkState::Releasing(c@, w@, cur@),
            AutolinkAt::Reporting(u, at) => AutolinkState::Reporting(u@, *at),
        }
    }
}

/// Starting the report of an outcome.
pub open spec fn report_step(c: Ctx, o: OutcomeV) -> (AutolinkState, Act) {
    let u = report_of(c.repo, c.issue, c.marker, o);
    let (at, act) = crate::status::begin_step(u, 0);
    (AutolinkState::Reporting(u, at), act)
}

/// Carrying out a link plan.
pub open spec fn link_plan_step(c: Ctx, p: ReferenceNumber, plan: LinkPlanV) -> (AutolinkState, Act) {
    match plan {
        LinkPlanV::Report(o) => report_step(c, o),
        LinkPlanV::Unlink { current, current_node, child_node, parent_node } => (
            AutolinkState::Unlinking(c, p, current, child_node, parent_node),
            Act::Gh(crate::github::unlink_args(current_node, child_node), GhExpect::Json),
        ),
        LinkPlanV::Link { parent_node, child_node, success } => (
            AutolinkState::Linking(c, success),
            Act::Gh(crate::github::link_args(parent_node, child_node), GhExpect::Json),
        ),
    }
}

/// The error of a repository that is not `owner/name`.
pub open spec fn bad_repo(repo: Seq<char>) -> Seq<char> {
    "Invalid repository format: "@ + repo
}

/// The next state and action of a run, the environment's `GH_REPO` and
/// `GITHUB_REPOSITORY` given.
pub open spec fn autolink_next(
    args: Seq<Seq<char>>,
    gh_repo: Option<Seq<char>>,
    github_repository: Option<Seq<char>>,
    at: AutolinkState,
    reply: Reply,
) -> (AutolinkState, Act) {
    match at {
        AutolinkState::Start => match repo_choice(args, gh_repo, github_repository) {
            Err(e) => (at, failed(e)),
            Ok(repo) => match flag_reference(args, "--issue"@, Some(ReferenceKind::Issue)) {
                None => (at, failed("Invalid or missing issue."@)),
                Some(issue) => {
                    let n = decimal(issue.value as nat);
                    (
                        AutolinkState::Issue(Ctx { repo, issue: n, marker: marker_of(n) }),
                        Act::Gh(issue_details_args(repo, n), GhExpect::Raw),
                    )
                },
            },
        },
        AutolinkState::Issue(c) => match reply {
            Reply::Details(Ok(None)) => (at, failed("Unable to read issue #"@ + c.issue + "."@)),
            Reply::Details(Ok(Some(d))) => match parent_request(
                c.issue,
                parent_raw_of(lines(string_member(d, "body"@))),
            ) {
                ParentRequestV::Report(o) => report_step(c, o),
                ParentRequestV::NoParent(w) => match GitHubCli.split_spec(c.repo) {
                    Some((owner, name)) => (
                        AutolinkState::Release(c, w),
                        Act::Gh(child_relation_args(owner, name, c.issue), GhExpect::Json),
                    ),
                    None => (at, failed(bad_repo(c.repo))),
                },
                ParentRequestV::Parent(p) => (
                    AutolinkState::Parent(c, p),
                    Act::Gh(issue_details_args(c.repo, decimal(p.value as nat)), GhExpect::Raw),
                ),
            },
            Reply::Details(Err(e)) => (at, failed(e@)),
            _ => (at, failed(unexpected_reply())),
        },
        AutolinkState::Parent(c, p) => match reply {
            Reply::Details(Ok(None)) => report_step(
                c,
                OutcomeV::Validation(
                    "Parent issue `"@ + show_number_of(p.value) + "` was not found."@,
                    "Use an existing issue number in `Parent:`."@,
                ),
            ),
            Reply::Details(Ok(Some(d))) => {
                let state = string_member(d, "state"@);
                if state != "OPEN"@ {
                    report_step(
                        c,
                        OutcomeV::Validation(
                            "Parent issue `"@ + show_number_of(p.value) + "` is not open (state: "@
                                + state + ")."@,
                            "Reopen the parent or choose another open parent issue."@,
                        ),
                    )
                } else {
                    match GitHubCli.split_spec(c.repo) {
                        Some((owner, name)) => (
                            AutolinkState::Relation(c, p),
                            Act::Gh(
                                parent_relation_args(owner, name, c.issue, decimal(p.value as nat)),
                                GhExpect::Json,
                            ),
                        ),
                        None => (at, failed(bad_repo(c.repo))),
                    }
                }
            },
            Reply::Details(Err(e)) => (at, failed(e@)),
            _ => (at, failed(unexpected_reply())),
        },
        AutolinkState::Relation(c, p) => match reply {
            Reply::Json(Ok(rel)) => link_plan_step(c, p, link_plan(p, rel)),
            Reply::Json(Err(e)) => (at, failed(e@)),
            _ => (at, failed(unexpected_reply())),
        },
        AutolinkState::Unlinking(c, p, current, child, parent_id) => match reply {
            Reply::Json(Ok(res)) => link_plan_step(
                c,
                p,
                after_unlink_plan(p, current, child, parent_id, res),
            ),
            Reply::Json(Err(e)) => (at, failed(e@)),
            _ => (at, failed(unexpected_reply())),
        },
        AutolinkState::Linking(c, success) => match reply {
            Reply::Json(Ok(res)) => report_step(c, after_link_outcome(success, res)),
            Reply::Json(Err(e)) => (at, failed(e@)),
            _ => (at, failed(unexpected_reply())),
        },
        AutolinkState::Release(c, w) => match reply {
            Reply::Json(Ok(rel)) => match release_plan(w, rel) {
                ReleasePlanV::Report(o) => report_step(c, o),
                ReleasePlanV::Unlink { current, current_node, child_node } => (
                    AutolinkState::Releasing(c, w, current),
                    Act::Gh(crate::github::unlink_args(current_node, child_node), GhExpect::Json),
                ),
            },
            Reply::Json(Err(e)) => (at, failed(e@)),
            _ => (at, failed(unexpected_reply())),
        },
        AutolinkState::Releasing(c, w, current) => match reply {
            Reply::Json(Ok(res)) => report_step(c, after_release_outcome(w, current, res)),
            Reply::Json(Err(e)) => (at, failed(e@)),
            _ => (at, failed(unexpected_reply())),
        },
        AutolinkState::Reporting(u, sat) => {
            let (next, act) = crate::status::status_next(u, sat, reply);
            (AutolinkState::Reporting(u, next), act)
        },
    }
}

impl IssueParentAutolink {
    /// The command for the given arguments.
    pub fn new(args: CommandArgs) -> (r: Self)
        ensures
            r.args == args,
    {
        Self { args }
    }

    /// The issue named by `--issue`.
    pub fn resolve_issue_number(&self) -> (r: Result<ReferenceNumber, String>)
        ensures
            match flag_reference(args_view(self.args.args@), "--issue"@, Some(ReferenceKind::Issue)) {
                Some(x) => r == Ok::<ReferenceNumber, String>(x),
                None => r matches Err(e) && e@ == "Invalid or missing issue."@,
            },
    {
        self.args.resolve_issue_number("--issue")
    }

    fn report_start(&self, c: Context, o: Outcome) -> (r: (AutolinkAt, Action))
        ensures
            (r.0@, r.1@) == report_step(c@, o@),
    {
        let u = self.report(c.repo.as_str(), c.issue_number.as_str(), c.marker.as_str(), &o);
        let (at, act) = u.step(crate::status::StatusAt::Begin(0), Reply::Start);
        (AutolinkAt::Reporting(u, at), act)
    }

    fn follow_link_plan(&self, c: Context, p: ReferenceNumber, plan: LinkPlan) -> (r: (
        AutolinkAt,
        Action,
    ))
        ensures
            (r.0@, r.1@) == link_plan_step(c@, p, plan@),
    {
        let github = GitHubCli;
        match plan {
            LinkPlan::Report(o) => self.report_start(c, o),
            LinkPlan::Unlink { current, current_node, child_node, parent_node } => {
                let call = github.remove_sub_issue_relation(current_node.as_str(), child_node.as_str());
                (AutolinkAt::Unlinking(c, p, current, child_node, parent_node), gh(call))
            },
            LinkPlan::Link { parent_node, child_node, success } => {
                let call = github.add_sub_issue_relation(parent_node.as_str(), child_node.as_str());
                (AutolinkAt::Linking(c, success), gh(call))
            },
        }
    }

    /// One step of the run: links the issue to the parent its body names,
    /// unlinks it when it asks for none, and reports the outcome on the
    /// issue. `gh_repo` and `github_repository` are the environment's
    /// `GH_REPO` and `GITHUB_REPOSITORY`.
    pub fn run(
        &self,
        gh_repo: Option<String>,
        github_repository: Option<String>,
        at: AutolinkAt,
        reply: Reply,
    ) -> (r: (AutolinkAt, Action))
        ensures
            (r.0@, r.1@) == autolink_next(
                args_view(self.args.args@),
                opt_string_view(gh_repo),
                opt_string_view(github_repository),
                at@,
                reply,
            ),
    {
        let github = GitHubCli;
        match at {
            AutolinkAt::Start => {
                let repo = match self.args.resolve_repo(gh_repo, github_repository) {
                    Ok(r) => r,
                    Err(e) => {
                        return (AutolinkAt::Start, fail(e));
                    },
                };
                let issue = match self.resolve_issue_number() {
                    Ok(i) => i,
                    Err(e) => {
                        return (AutolinkAt::Start, fail(e));
                    },
                };
                let n = issue.as_string();
                let mut marker = copy_str("<!-- parent-field-autolink:");
                marker.append(n.as_str());
                marker.append(" -->");
                let call = github.issue_details_call(repo.as_str(), n.as_str());
                (AutolinkAt::Issue(Context { repo, issue_number: n, marker }), gh(call))
            },
            AutolinkAt::Issue(c) => match reply {
                Reply::Details(Ok(None)) => {
                    let mut m = copy_str("Unable to read issue #");
                    m.append(c.issue_number.as_str());
                    m.append(".");
                    (AutolinkAt::Issue(c), fail(m))
                },
                Reply::Details(Ok(Some(d))) => {
                    let details = github.read_issue_details(&d);
                    let raw = extract_parent_raw(details.body.as_str());
                    match self.classify_parent(c.issue_number.as_str(), raw.as_str()) {
                        ParentRequest::Report(o) => self.report_start(c, o),
                        ParentRequest::NoParent(w) => {
                            match github.query_issue_child_parent_relation(
                                c.repo.as_str(),
                                c.issue_number.as_str(),
                            ) {
                                Ok(call) => (AutolinkAt::Release(c, w), gh(call)),
                                Err(e) => (AutolinkAt::Issue(c), fail(e)),
                            }
                        },
                        ParentRequest::Parent(p) => {
                            let call = github.issue_details_call(
                                c.repo.as_str(),
                                p.as_string().as_str(),
                            );
                            (AutolinkAt::Parent(c, p), gh(call))
                        },
                    }
                },
                Reply::Details(Err(e)) => (AutolinkAt::Issue(c), fail(e)),
                _ => (AutolinkAt::Issue(c), fail_unexpected()),
            },
            AutolinkAt::Parent(c, p) => match reply {
                Reply::Details(Ok(None)) => {
                    let mut m = copy_str("Parent issue `");
                    m.append(p.show_number().as_str());
                    m.append("` was not found.");
                    self.report_start(
                        c,
                        Outcome::Validation(m, copy_str("Use an existing issue number in `Parent:`.")),
                    )
                },
                Reply::Details(Ok(Some(d))) => {
                    let details = github.read_issue_details(&d);
                    if !str_eq(details.state.as_str(), "OPEN") {
                        let mut m = copy_str("Parent issue `");
                        m.append(p.show_number().as_str());
                        m.append("` is not open (state: ");
                        m.append(details.state.as_str());
                        m.append(").");
                        return self.report_start(
                            c,
                            Outcome::Validation(
                                m,
                                copy_str("Reopen the parent or choose another open parent issue."),
                            ),
                        );
                    }
                    match github.query_issue_parent_child_relation(
                        c.repo.as_str(),
                        c.issue_number.as_str(),
                        p.as_string().as_str(),
                    ) {
                        Ok(call) => (AutolinkAt::Relation(c, p), gh(call)),
                        Err(e) => (AutolinkAt::Parent(c, p), fail(e)),
                    }
                },
                Reply::Details(Err(e)) => (AutolinkAt::Parent(c, p), fail(e)),
                _ => (AutolinkAt::Parent(c, p), fail_unexpected()),
            },
            AutolinkAt::Relation(c, p) => match reply {
                Reply::Json(Ok(rel)) => {
                    let plan = self.plan_link(&p, &rel);
                    self.follow_link_plan(c, p, plan)
                },
                Reply::Json(Err(e)) => (AutolinkAt::Relation(c, p), fail(e)),
                _ => (AutolinkAt::Relation(c, p), fail_unexpected()),
            },
            AutolinkAt::Unlinking(c, p, current, child, parent_id) => match reply {
                Reply::Json(Ok(res)) => {
                    let plan = self.after_unlink(
                        &p,
                        current.as_str(),
                        child.as_str(),
                        parent_id.as_str(),
                        &res,
                    );
                    self.follow_link_plan(c, p, plan)
                },
                Reply::Json(Err(e)) => (AutolinkAt::Unlinking(c, p, current, child, parent_id), fail(e)),
                _ => (AutolinkAt::Unlinking(c, p, current, child, parent_id), fail_unexpected()),
            },
            AutolinkAt::Linking(c, success) => match reply {
                Reply::Json(Ok(res)) => {
                    let o = self.after_link(success.as_str(), &res);
                    self.report_start(c, o)
                },
                Reply::Json(Err(e)) => (AutolinkAt::Linking(c, success), fail(e)),
                _ => (AutolinkAt::Linking(c, success), fail_unexpected()),
            },
            AutolinkAt::Release(c, w) => match reply {
                Reply::Json(Ok(rel)) => match self.handle_no_parent_requested(w.as_str(), &rel) {
                    ReleasePlan::Report(o) => self.report_start(c, o),
                    ReleasePlan::Unlink { current, current_node, child_node } => {
                        let call = github.remove_sub_issue_relation(
                            current_node.as_str(),
                            child_node.as_str(),
                        );
                        (AutolinkAt::Releasing(c, w, current), gh(call))
                    },
                },
                Reply::Json(Err(e)) => (AutolinkAt::Release(c, w), fail(e)),
                _ => (AutolinkAt::Release(c, w), fail_unexpected()),
            },
            AutolinkAt::Releasing(c, w, current) => match reply {
                Reply::Json(Ok(res)) => {
                    let o = self.after_release(w.as_str(), current.as_str(), &res);
                    self.report_start(c, o)
                },
                Reply::Json(Err(e)) => (AutolinkAt::Releasing(c, w, current), fail(e)),
                _ => (AutolinkAt::Releasing(c, w, current), fail_unexpected()),
            },
            AutolinkAt::Reporting(u, sat) => {
                let (next, act) = u.step(sat, reply);
                (AutolinkAt::Reporting(u, next), act)
            },
        }
    }
}

} // verus!
