//! Closure neutralization: `Closes #12` references to issues that miss
//! required fields are rewritten to `Closes rejected #12`, so that merging
//! does not auto-close them, and restored once the issue is compliant.

use vstd::prelude::*;

use crate::args::{args_view, flag_reference, flag_value_or, opt_string_view, repo_choice, CommandArgs};
use crate::github::{
    comments_args, comments_of, edit_body_args, has_line, issue_labels_args, open_prs_args,
    pr_field_args, rows_of, rows_view, upsert_args, GhExpect, GitHubCli,
};
use crate::workflow::{fail, fail_unexpected, failed, gh, succeeded, unexpected_reply, Act, Action, Reply};
use crate::patterns::{
    captures_all, captures_view, lemma_splice_one_piece, match_texts, escape, escaped, gaps_all, group, group_at, group_text,
    group_text_at, groups_view, matches_in, regex_captures, regex_compiles, regex_error_text,
    regex_gaps, regex_matches, splice, splice_strings, strings_view, CaptureTexts, CHECKBOX,
    ISSUE_REF, REJECTED_REF,
};
use crate::pr_body::push_string;
use crate::reference::{parsed_reference, show_number_of, ReferenceKind, ReferenceNumber};
use crate::text::{concat2, concat3, copy_str, decimal, lines, str_eq, trim};

verus! {

// ---------------------------------------------------------------------------
// Closing references
// ---------------------------------------------------------------------------

/// Whether a number text was captured before position `n`.
pub open spec fn number_seen(numbers: Seq<Seq<char>>, n: int, t: Seq<char>) -> bool {
    exists|k: int| 0 <= k < n && numbers[k] == t
}

/// The issue references of the closing matches: for each distinct captured
/// number text, in order of first appearance, its parsed issue reference (if
/// it parses).
pub open spec fn closing_refs_of(caps: Seq<Seq<Option<Seq<char>>>>) -> Seq<ReferenceNumber>
    decreases caps.len(),
{
    if caps.len() == 0 {
        Seq::<ReferenceNumber>::empty()
    } else {
        let rest = closing_refs_of(caps.drop_last());
        let c = caps.last();
        match group(c, 3) {
            Some(t) => if exists|k: int|
                0 <= k < caps.len() - 1 && #[trigger] group(caps[k], 3) == Some(t) {
                rest
            } else {
                match parsed_reference(t) {
                    Some(r) => rest.push(
                        ReferenceNumber { value: r.value, kind: Some(ReferenceKind::Issue) },
                    ),
                    None => rest,
                }
            },
            None => rest,
        }
    }
}

/// The `regex compile error: ...` message for a pattern.
pub open spec fn pattern_error(p: Seq<char>) -> Seq<char> {
    "regex compile error: "@ + regex_error_text(p)
}

/// The issue references a body closes.
pub fn extract_closing_refs(body: &str) -> (r: Result<Vec<ReferenceNumber>, String>)
    ensures
        !regex_compiles(ISSUE_REF@) ==> (r matches Err(e) && e@ == pattern_error(ISSUE_REF@)),
        regex_compiles(ISSUE_REF@) ==> (r matches Ok(v) && v@ == closing_refs_of(
            regex_captures(ISSUE_REF@, body@),
        )),
{
    let caps = match captures_all(ISSUE_REF, body) {
        Ok(c) => c,
        Err(e) => {
            return Err(concat2("regex compile error: ", e.as_str()));
        },
    };
    Ok(closing_refs_from_matches(&caps))
}

/// The closing references given the matches of `ISSUE_REF`.
pub fn closing_refs_from_matches(caps: &CaptureTexts) -> (r: Vec<ReferenceNumber>)
    ensures
        r@ == closing_refs_of(captures_view(caps@)),
{
    let ghost cv = captures_view(caps@);
    let mut out: Vec<ReferenceNumber> = Vec::new();
    let mut i: usize = 0;
    while i < caps.len()
        invariant
            i <= caps.len(),
            cv == captures_view(caps@),
            out@ == closing_refs_of(cv.take(i as int)),
        decreases caps.len() - i,
    {
        let ghost t = cv.take(i + 1);
        assert(t.drop_last() =~= cv.take(i as int));
        assert(t.last() == groups_view(caps@[i as int]));
        match group_at(&caps[i], 3) {
            Some(number) => {
                let mut seen = false;
                let mut k: usize = 0;
                while k < i
                    invariant
                        k <= i < caps.len(),
                        cv == captures_view(caps@),
                        group(cv[i as int], 3) == Some(number@),
                        seen == exists|m: int| 0 <= m < k && #[trigger] group(cv[m], 3) == Some(number@),
                    decreases i - k,
                {
                    assert(cv[k as int] == groups_view(caps@[k as int]));
                    match group_at(&caps[k], 3) {
                        Some(other) => {
                            if str_eq(other.as_str(), number.as_str()) {
                                seen = true;
                            }
                        },
                        None => {},
                    }
                    k += 1;
                }
                proof {
                    assert forall|m: int| 0 <= m < t.len() - 1 implies #[trigger] group(t[m], 3)
                        == group(cv[m], 3) by {
                        assert(t[m] == cv[m]);
                    }
                    if seen {
                        let m = choose|m: int| 0 <= m < i && #[trigger] group(cv[m], 3) == Some(number@);
                        assert(group(t[m], 3) == Some(number@));
                    }
                }
                if !seen {
                    match ReferenceNumber::parse(number.as_str()) {
                        Some(reference) => {
                            out.push(reference.with_kind(ReferenceKind::Issue));
                        },
                        None => {},
                    }
                }
            },
            None => {},
        }
        i += 1;
    }
    assert(cv.take(caps.len() as int) =~= cv);
    out
}

// ---------------------------------------------------------------------------
// Marking and unmarking references
// ---------------------------------------------------------------------------

/// The pattern of a closing reference to `issue`, possibly rejected.
pub open spec fn mark_pattern(issue: Seq<char>) -> Seq<char> {
    "(?i)\\b(?P<kw>(?:closes|fixes))\\b(?P<ws>\\s+)(?P<rej>rejected\\s+)?(?P<ref>[^\\s]*"@
        + escaped(issue) + ")\\b"@
}

/// The pattern of a rejected closing reference to `issue`.
pub open spec fn unmark_pattern(issue: Seq<char>) -> Seq<char> {
    "(?i)\\b(?P<kw>(?:closes|fixes))\\b(?P<ws>\\s+)rejected\\s+(?P<ref>[^\\s]*"@ + escaped(issue)
        + ")\\b"@
}

/// A group's text, or `default` when it did not take part.
pub open spec fn group_or(g: Seq<Option<Seq<char>>>, k: int, default: Seq<char>) -> Seq<char> {
    match group(g, k) {
        Some(t) => t,
        None => default,
    }
}

/// A closing reference marked as rejected (kept as is when already marked).
pub open spec fn marked(g: Seq<Option<Seq<char>>>, issue: Seq<char>) -> Seq<char> {
    let kw = group_or(g, 1, "Closes"@);
    let ws = group_or(g, 2, " "@);
    let rej = group_or(g, 3, ""@);
    let r = group_or(g, 4, issue);
    if rej.len() == 0 {
        kw + ws + "rejected "@ + r
    } else {
        kw + ws + rej + r
    }
}

/// A rejected closing reference restored.
pub open spec fn unmarked(g: Seq<Option<Seq<char>>>, issue: Seq<char>) -> Seq<char> {
    group_or(g, 1, "Closes"@) + group_or(g, 2, " "@) + group_or(g, 3, issue)
}

/// Each match replaced by `marked`.
pub open spec fn marked_all(caps: Seq<Seq<Option<Seq<char>>>>, issue: Seq<char>) -> Seq<Seq<char>> {
    caps.map_values(|g: Seq<Option<Seq<char>>>| marked(g, issue))
}

/// Each match replaced by `unmarked`.
pub open spec fn unmarked_all(caps: Seq<Seq<Option<Seq<char>>>>, issue: Seq<char>) -> Seq<
    Seq<char>,
> {
    caps.map_values(|g: Seq<Option<Seq<char>>>| unmarked(g, issue))
}

/// What a replace-all with a pattern gives, or the compile error.
pub open spec fn replaced_all(p: Seq<char>, body: Seq<char>, reps: Seq<Seq<char>>) -> Seq<char> {
    splice(regex_gaps(p, body), reps)
}

/// A group's text, or `default`.
fn group_or_str(g: &Vec<Option<String>>, k: usize, default: &str) -> (r: String)
    ensures
        r@ == group_or(groups_view(*g), k as int, default@),
{
    match group_at(g, k) {
        Some(s) => s,
        None => copy_str(default),
    }
}

/// The pattern for `issue`.
fn build_pattern(head: &str, issue: &str) -> (r: String)
    ensures
        r@ == head@ + escaped(issue@) + ")\\b"@,
{
    concat3(head, escape(issue).as_str(), ")\\b")
}

/// Marks the closing references to `issue` as rejected.
pub fn mark_closure_rejected(body: &str, issue: &str) -> (r: Result<String, String>)
    ensures
        !regex_compiles(mark_pattern(issue@)) ==> (r matches Err(e) && e@ == pattern_error(
            mark_pattern(issue@),
        )),
        regex_compiles(mark_pattern(issue@)) ==> (r matches Ok(s) && s@ == replaced_all(
            mark_pattern(issue@),
            body@,
            marked_all(regex_captures(mark_pattern(issue@), body@), issue@),
        )),
        regex_compiles(mark_pattern(issue@)) && regex_captures(mark_pattern(issue@), body@).len() == 0 ==> (r
            matches Ok(s) && s@ == body@),
{
    let pattern = build_pattern(
        "(?i)\\b(?P<kw>(?:closes|fixes))\\b(?P<ws>\\s+)(?P<rej>rejected\\s+)?(?P<ref>[^\\s]*",
        issue,
    );
    let gaps = match gaps_all(pattern.as_str(), body) {
        Ok(g) => g,
        Err(e) => {
            return Err(concat2("regex compile error: ", e.as_str()));
        },
    };
    let caps = match captures_all(pattern.as_str(), body) {
        Ok(c) => c,
        Err(e) => {
            return Err(concat2("regex compile error: ", e.as_str()));
        },
    };
    let ghost cv = captures_view(caps@);
    let mut reps: Vec<String> = Vec::new();
    let mut j: usize = 0;
    while j < caps.len()
        invariant
            j <= caps.len(),
            cv == captures_view(caps@),
            strings_view(reps@) == marked_all(cv, issue@).take(j as int),
        decreases caps.len() - j,
    {
        let g = &caps[j];
        assert(cv[j as int] == groups_view(*g));
        let kw = group_or_str(g, 1, "Closes");
        let ws = group_or_str(g, 2, " ");
        let rej = group_or_str(g, 3, "");
        let reference = group_or_str(g, 4, issue);
        let mut line = concat2(kw.as_str(), ws.as_str());
        if rej.as_str().is_empty() {
            line.append("rejected ");
        } else {
            line.append(rej.as_str());
        }
        line.append(reference.as_str());
        push_string(&mut reps, line);
        j += 1;
        assert(marked_all(cv, issue@).take(j as int) =~= marked_all(cv, issue@).take(j - 1).push(
            marked(cv[j - 1], issue@),
        ));
    }
    assert(marked_all(cv, issue@).take(caps.len() as int) =~= marked_all(cv, issue@));
    proof {
        if caps@.len() == 0 {
            let cv0 = regex_captures(pattern@, body@);
            lemma_splice_one_piece(strings_view(gaps@), match_texts(cv0));
            lemma_splice_one_piece(strings_view(gaps@), strings_view(reps@));
        }
    }
    Ok(splice_strings(&gaps, &reps))
}

/// Restores the rejected closing references to `issue`.
pub fn unmark_closure_rejected(body: &str, issue: &str) -> (r: Result<String, String>)
    ensures
        !regex_compiles(unmark_pattern(issue@)) ==> (r matches Err(e) && e@ == pattern_error(
            unmark_pattern(issue@),
        )),
        regex_compiles(unmark_pattern(issue@)) ==> (r matches Ok(s) && s@ == replaced_all(
            unmark_pattern(issue@),
            body@,
            unmarked_all(regex_captures(unmark_pattern(issue@), body@), issue@),
        )),
        regex_compiles(unmark_pattern(issue@)) && regex_captures(unmark_pattern(issue@), body@).len() == 0 ==> (r
            matches Ok(s) && s@ == body@),
{
    let pattern = build_pattern(
        "(?i)\\b(?P<kw>(?:closes|fixes))\\b(?P<ws>\\s+)rejected\\s+(?P<ref>[^\\s]*",
        issue,
    );
    let gaps = match gaps_all(pattern.as_str(), body) {
        Ok(g) => g,
        Err(e) => {
            return Err(concat2("regex compile error: ", e.as_str()));
        },
    };
    let caps = match captures_all(pattern.as_str(), body) {
        Ok(c) => c,
        Err(e) => {
            return Err(concat2("regex compile error: ", e.as_str()));
        },
    };
    let ghost cv = captures_view(caps@);
    let mut reps: Vec<String> = Vec::new();
    let mut j: usize = 0;
    while j < caps.len()
        invariant
            j <= caps.len(),
            cv == captures_view(caps@),
            strings_view(reps@) == unmarked_all(cv, issue@).take(j as int),
        decreases caps.len() - j,
    {
        let g = &caps[j];
        assert(cv[j as int] == groups_view(*g));
        let kw = group_or_str(g, 1, "Closes");
        let ws = group_or_str(g, 2, " ");
        let reference = group_or_str(g, 3, issue);
        push_string(&mut reps, concat3(kw.as_str(), ws.as_str(), reference.as_str()));
        j += 1;
        assert(unmarked_all(cv, issue@).take(j as int) =~= unmarked_all(cv, issue@).take(
            j - 1,
        ).push(unmarked(cv[j - 1], issue@)));
    }
    assert(unmarked_all(cv, issue@).take(caps.len() as int) =~= unmarked_all(cv, issue@));
    proof {
        if caps@.len() == 0 {
            let cv0 = regex_captures(pattern@, body@);
            lemma_splice_one_piece(strings_view(gaps@), match_texts(cv0));
            lemma_splice_one_piece(strings_view(gaps@), strings_view(reps@));
        }
    }
    Ok(splice_strings(&gaps, &reps))
}

/// The pattern of a closing line mentioning `issue`.
pub open spec fn closure_line_pattern(issue: Seq<char>) -> Seq<char> {
    "(?i)(closes|fixes)[[:space:]]+(rejected[[:space:]]+)?"@ + escaped(issue)
}

/// Whether the body has a (possibly rejected) closing reference to `issue`.
pub fn references_issue_in_closure_line(body: &str, issue: &str) -> (r: Result<bool, String>)
    ensures
        !regex_compiles(closure_line_pattern(issue@)) ==> (r matches Err(e) && e@
            == pattern_error(closure_line_pattern(issue@))),
        regex_compiles(closure_line_pattern(issue@)) ==> r == Ok::<bool, String>(
            regex_matches(closure_line_pattern(issue@), body@),
        ),
{
    let pattern = concat2(
        "(?i)(closes|fixes)[[:space:]]+(rejected[[:space:]]+)?",
        escape(issue).as_str(),
    );
    match matches_in(pattern.as_str(), body) {
        Ok(b) => Ok(b),
        Err(e) => Err(concat2("regex compile error: ", e.as_str())),
    }
}

// ---------------------------------------------------------------------------
// Comparing bodies for the skip check
// ---------------------------------------------------------------------------

/// Each checkbox written as `- [_]`.
pub open spec fn checkbox_reps(n: nat) -> Seq<Seq<char>> {
    Seq::new(n, |j: int| "- [_]"@)
}

/// Each rejected reference written as `<keyword> <#n>`.
pub open spec fn unrejected_reps(caps: Seq<Seq<Option<Seq<char>>>>) -> Seq<Seq<char>> {
    caps.map_values(|g: Seq<Option<Seq<char>>>| group_text(g, 1) + " "@ + group_text(g, 2))
}

/// A body normalized for comparison: checkbox states and `rejected` markers
/// erased.
pub open spec fn normalized_for_skip(body: Seq<char>) -> Seq<char> {
    let boxes = replaced_all(
        CHECKBOX@,
        body,
        checkbox_reps(regex_captures(CHECKBOX@, body).len()),
    );
    replaced_all(REJECTED_REF@, boxes, unrejected_reps(regex_captures(REJECTED_REF@, boxes)))
}

/// A body normalized for comparison.
pub fn normalize_skip_body(body: &str) -> (r: Result<String, String>)
    ensures
        !regex_compiles(CHECKBOX@) ==> (r matches Err(e) && e@ == pattern_error(CHECKBOX@)),
        regex_compiles(CHECKBOX@) && !regex_compiles(REJECTED_REF@) ==> (r matches Err(e) && e@
            == pattern_error(REJECTED_REF@)),
        regex_compiles(CHECKBOX@) && regex_compiles(REJECTED_REF@) ==> (r matches Ok(s) && s@
            == normalized_for_skip(body@)),
{
    let box_gaps = match gaps_all(CHECKBOX, body) {
        Ok(g) => g,
        Err(e) => {
            return Err(concat2("regex compile error: ", e.as_str()));
        },
    };
    let box_caps = match captures_all(CHECKBOX, body) {
        Ok(c) => c,
        Err(e) => {
            return Err(concat2("regex compile error: ", e.as_str()));
        },
    };
    let n = box_caps.len();
    let mut box_reps: Vec<String> = Vec::new();
    let mut j: usize = 0;
    while j < n
        invariant
            j <= n,
            strings_view(box_reps@) == checkbox_reps(n as nat).take(j as int),
        decreases n - j,
    {
        push_string(&mut box_reps, copy_str("- [_]"));
        j += 1;
        assert(checkbox_reps(n as nat).take(j as int) =~= checkbox_reps(n as nat).take(
            j - 1,
        ).push("- [_]"@));
    }
    assert(checkbox_reps(n as nat).take(n as int) =~= checkbox_reps(n as nat));
    assert(captures_view(box_caps@).len() == n);
    let boxes = splice_strings(&box_gaps, &box_reps);
    let rej_gaps = match gaps_all(REJECTED_REF, boxes.as_str()) {
        Ok(g) => g,
        Err(e) => {
            return Err(concat2("regex compile error: ", e.as_str()));
        },
    };
    let rej_caps = match captures_all(REJECTED_REF, boxes.as_str()) {
        Ok(c) => c,
        Err(e) => {
            return Err(concat2("regex compile error: ", e.as_str()));
        },
    };
    let ghost cv = captures_view(rej_caps@);
    let mut reps: Vec<String> = Vec::new();
    let mut k: usize = 0;
    while k < rej_caps.len()
        invariant
            k <= rej_caps.len(),
            cv == captures_view(rej_caps@),
            strings_view(reps@) == unrejected_reps(cv).take(k as int),
        decreases rej_caps.len() - k,
    {
        assert(cv[k as int] == groups_view(rej_caps@[k as int]));
        push_string(
            &mut reps,
            concat3(
                group_text_at(&rej_caps[k], 1).as_str(),
                " ",
                group_text_at(&rej_caps[k], 2).as_str(),
            ),
        );
        k += 1;
        assert(unrejected_reps(cv).take(k as int) =~= unrejected_reps(cv).take(k - 1).push(
            group_text(cv[k - 1], 1) + " "@ + group_text(cv[k - 1], 2),
        ));
    }
    assert(unrejected_reps(cv).take(rej_caps.len() as int) =~= unrejected_reps(cv));
    Ok(splice_strings(&rej_gaps, &reps))
}

// ---------------------------------------------------------------------------
// The neutralization of a pull request body
// ---------------------------------------------------------------------------

/// The status comment of the neutralizer.
pub open spec fn neutralizer_comment(marker: Seq<char>, issues: Seq<Seq<char>>) -> Seq<char> {
    if issues.len() == 0 {
        marker
            + "\n### Closure Neutralization Status\n\n✅ No non-compliant closure refs detected. No neutralization applied."@
    } else {
        marker
            + "\n### Closure Neutralization Status\n\n⚠️ Non-compliant issue references were neutralized to prevent incorrect auto-close.\n\n"@
            + neutralized_lines(issues)
            + "\nHow to restore standard auto-close:\n- Fix issue required fields/title contract (if applicable).\n- Remove or adjust `Reopen #...` for issues that should close now.\n- Remove `rejected` from closure lines in PR body."@
    }
}

/// One line per neutralized issue.
pub open spec fn neutralized_lines(issues: Seq<Seq<char>>) -> Seq<char>
    decreases issues.len(),
{
    if issues.len() == 0 {
        Seq::<char>::empty()
    } else {
        neutralized_lines(issues.drop_last()) + "- Closes rejected "@ + issues.last()
            + ": label issue-required-missing is set on issue\n"@
    }
}

/// The value of the `skip` output: `true` when the two bodies are the same
/// once normalized.
pub open spec fn skip_text(previous: Seq<char>, current: Seq<char>) -> Seq<char> {
    if normalized_for_skip(previous) == normalized_for_skip(current) {
        "true"@
    } else {
        "false"@
    }
}

/// The closure neutralizer command.
pub struct PrClosureNeutralizer {
    pub args: CommandArgs,
}

impl PrClosureNeutralizer {
    /// The command for the given arguments.
    pub fn new(args: CommandArgs) -> (r: Self)
        ensures
            r.args == args,
    {
        Self { args }
    }

    /// The status comment for the neutralized issues (listed by number).
    pub fn status_comment(marker: &str, issues: &Vec<String>) -> (r: String)
        ensures
            r@ == neutralizer_comment(marker@, strings_view(issues@)),
    {
        if issues.len() == 0 {
            return concat2(
                marker,
                "\n### Closure Neutralization Status\n\n✅ No non-compliant closure refs detected. No neutralization applied.",
            );
        }
        let mut body = concat2(
            marker,
            "\n### Closure Neutralization Status\n\n⚠️ Non-compliant issue references were neutralized to prevent incorrect auto-close.\n\n",
        );
        let ghost head = body@;
        let ghost iv = strings_view(issues@);
        let mut i: usize = 0;
        while i < issues.len()
            invariant
                i <= issues.len(),
                iv == strings_view(issues@),
                body@ == head + neutralized_lines(iv.take(i as int)),
            decreases issues.len() - i,
        {
            assert(iv.take(i + 1).drop_last() =~= iv.take(i as int));
            body.append("- Closes rejected ");
            body.append(issues[i].as_str());
            body.append(": label issue-required-missing is set on issue\n");
            i += 1;
        }
        assert(iv.take(issues.len() as int) =~= iv);
        body.append(
            "\nHow to restore standard auto-close:\n- Fix issue required fields/title contract (if applicable).\n- Remove or adjust `Reopen #...` for issues that should close now.\n- Remove `rejected` from closure lines in PR body.",
        );
        body
    }

    /// Whether two bodies are the same once normalized (the skip check).
    pub fn skip_check(previous: &str, current: &str) -> (r: Result<bool, String>)
        ensures
            !regex_compiles(CHECKBOX@) ==> (r matches Err(e) && e@ == pattern_error(CHECKBOX@)),
            regex_compiles(CHECKBOX@) && !regex_compiles(REJECTED_REF@) ==> (r matches Err(e)
                && e@ == pattern_error(REJECTED_REF@)),
            regex_compiles(CHECKBOX@) && regex_compiles(REJECTED_REF@) ==> r == Ok::<
                bool,
                String,
            >(normalized_for_skip(previous@) == normalized_for_skip(current@)),
    {
        let a = normalize_skip_body(previous)?;
        let b = normalize_skip_body(current)?;
        Ok(str_eq(a.as_str(), b.as_str()))
    }

    /// The skip check on the `--previous-body` and `--current-body` flags
    /// (`"true"` or `"false"`, the value written to the `skip` output).
    pub fn write_skip_check_output(&self) -> (r: Result<String, String>)
        ensures
            regex_compiles(CHECKBOX@) && regex_compiles(REJECTED_REF@) ==> (r matches Ok(s) && s@
                == skip_text(
                flag_value_or(args_view(self.args.args@), "--previous-body"@, ""@),
                flag_value_or(args_view(self.args.args@), "--current-body"@, ""@),
            )),
            !regex_compiles(CHECKBOX@) ==> (r matches Err(e) && e@ == pattern_error(CHECKBOX@)),
            regex_compiles(CHECKBOX@) && !regex_compiles(REJECTED_REF@) ==> (r matches Err(e)
                && e@ == pattern_error(REJECTED_REF@)),
    {
        let previous = self.args.extract_flag_value_or("--previous-body", "");
        let current = self.args.extract_flag_value_or("--current-body", "");
        let skip = Self::skip_check(previous.as_str(), current.as_str())?;
        Ok(
            if skip {
                copy_str("true")
            } else {
                copy_str("false")
            },
        )
    }
}

// ---------------------------------------------------------------------------
// One pull request
// ---------------------------------------------------------------------------

/// The label of an issue whose required fields are missing.
pub const REQUIRED_MISSING: &'static str = "issue-required-missing";

/// The body once the closing references to `issue` are marked (when the
/// issue carries the label) or restored.
pub open spec fn rewritten(body: Seq<char>, issue: Seq<char>, labeled: bool) -> Result<Seq<char>, Seq<char>> {
    let p = if labeled {
        mark_pattern(issue)
    } else {
        unmark_pattern(issue)
    };
    if !regex_compiles(p) {
        Err(pattern_error(p))
    } else if labeled {
        Ok(replaced_all(p, body, marked_all(regex_captures(p, body), issue)))
    } else {
        Ok(replaced_all(p, body, unmarked_all(regex_captures(p, body), issue)))
    }
}

/// `v` added to the increasing sequence `s`, which stays increasing.
pub open spec fn insert_sorted(s: Seq<u64>, v: u64) -> Seq<u64>
    decreases s.len(),
{
    if s.len() == 0 {
        seq![v]
    } else if v == s[0] {
        s
    } else if v < s[0] {
        seq![v] + s
    } else {
        seq![s[0]] + insert_sorted(s.drop_first(), v)
    }
}

/// Strictly increasing.
pub open spec fn increasing(s: Seq<u64>) -> bool {
    forall|i: int, j: int| 0 <= i < j < s.len() ==> s[i] < s[j]
}

/// `#<n>` for each number.
pub open spec fn shown_all(s: Seq<u64>) -> Seq<Seq<char>> {
    s.map_values(|v: u64| show_number_of(v))
}

proof fn lemma_insert_sorted_at(s: Seq<u64>, v: u64, j: int)
    requires
        0 <= j <= s.len(),
        forall|k: int| 0 <= k < j ==> s[k] < v,
        j < s.len() ==> s[j] >= v,
    ensures
        insert_sorted(s, v) == if j < s.len() && s[j] == v {
            s
        } else {
            s.take(j) + seq![v] + s.skip(j)
        },
    decreases j,
{
    if j == 0 {
        if s.len() == 0 {
            assert(s.take(0) + seq![v] + s.skip(0) =~= seq![v]);
        } else if v < s[0] {
            assert(s.take(0) + seq![v] + s.skip(0) =~= seq![v] + s);
        }
    } else {
        lemma_insert_sorted_at(s.drop_first(), v, j - 1);
        if j - 1 < s.len() - 1 && s.drop_first()[j - 1] == v {
        } else {
            assert(seq![s[0]] + (s.drop_first().take(j - 1) + seq![v] + s.drop_first().skip(j - 1))
                =~= s.take(j) + seq![v] + s.skip(j));
        }
    }
}

/// Inserting keeps a sequence increasing and adds exactly `v`.
pub proof fn lemma_insert_sorted(s: Seq<u64>, v: u64)
    requires
        increasing(s),
    ensures
        increasing(insert_sorted(s, v)),
        forall|x: u64| #[trigger] insert_sorted(s, v).contains(x) <==> (s.contains(x) || x == v),
    decreases s.len(),
{
    if s.len() == 0 {
        let t = insert_sorted(s, v);
        assert forall|x: u64| t.contains(x) <==> (s.contains(x) || x == v) by {
            if x == v {
                assert(t[0] == x);
            }
        }
    } else {
        lemma_insert_sorted(s.drop_first(), v);
        let t = insert_sorted(s, v);
        if v == s[0] {
            assert forall|x: u64| t.contains(x) <==> (s.contains(x) || x == v) by {
                if x == v {
                    assert(s[0] == x);
                }
            }
        } else if v < s[0] {
            assert forall|x: u64| t.contains(x) <==> (s.contains(x) || x == v) by {
                if t.contains(x) {
                    let k = choose|k: int| 0 <= k < t.len() && t[k] == x;
                    if k > 0 {
                        assert(s[k - 1] == x);
                    }
                }
                if s.contains(x) {
                    let k = choose|k: int| 0 <= k < s.len() && s[k] == x;
                    assert(t[k + 1] == x);
                }
                if x == v {
                    assert(t[0] == x);
                }
            }
        } else if v > s[0] {
            let r = insert_sorted(s.drop_first(), v);
            assert(t == seq![s[0]] + r);
            assert forall|i: int, j: int| 0 <= i < j < t.len() implies t[i] < t[j] by {
                if i == 0 {
                    assert(r.contains(t[j]));
                    if s.drop_first().contains(t[j]) {
                        let k = choose|k: int| 0 <= k < s.drop_first().len() && s.drop_first()[k] == t[j];
                        assert(s[k + 1] == t[j]);
                    }
                }
            }
            assert forall|x: u64| t.contains(x) <==> (s.contains(x) || x == v) by {
                if t.contains(x) {
                    let k = choose|k: int| 0 <= k < t.len() && t[k] == x;
                    if k > 0 {
                        assert(r[k - 1] == x);
                        assert(r.contains(x));
                        if s.drop_first().contains(x) {
                            let q = choose|q: int| 0 <= q < s.drop_first().len() && s.drop_first()[q] == x;
                            assert(s[q + 1] == x);
                        }
                    }
                }
                if s.contains(x) {
                    let k = choose|k: int| 0 <= k < s.len() && s[k] == x;
                    if k > 0 {
                        assert(s.drop_first()[k - 1] == x);
                        assert(s.drop_first().contains(x));
                        assert(r.contains(x));
                        let q = choose|q: int| 0 <= q < r.len() && r[q] == x;
                        assert(t[q + 1] == x);
                    } else {
                        assert(t[0] == x);
                    }
                }
                if x == v {
                    assert(r.contains(x));
                    let q = choose|q: int| 0 <= q < r.len() && r[q] == x;
                    assert(t[q + 1] == x);
                }
            }
        }
    }
}

fn insert_sorted_exec(s: &mut Vec<u64>, v: u64)
    requires
        increasing(old(s)@),
    ensures
        final(s)@ == insert_sorted(old(s)@, v),
{
    let mut j: usize = 0;
    while j < s.len() && s[j] < v
        invariant
            j <= s.len(),
            forall|k: int| 0 <= k < j ==> s@[k] < v,
        decreases s.len() - j,
    {
        j += 1;
    }
    proof {
        lemma_insert_sorted_at(s@, v, j as int);
    }
    if j < s.len() && s[j] == v {
        return;
    }
    let ghost before = s@;
    s.insert(j, v);
    assert(s@ =~= before.take(j as int) + seq![v] + before.skip(j as int));
}

fn rewrite(body: &str, issue: &str, labeled: bool) -> (r: Result<String, String>)
    ensures
        match (r, rewritten(body@, issue@, labeled)) {
            (Ok(a), Ok(b)) => a@ == b,
            (Err(a), Err(b)) => a@ == b,
            _ => false,
        },
{
    if labeled {
        mark_closure_rejected(body, issue)
    } else {
        unmark_closure_rejected(body, issue)
    }
}

/// Settling the closing references to an issue follows its label alone:
/// without `issue-required-missing` every rejected closing reference to it
/// is restored, as `unmark_closure_rejected` does; with the label every
/// closing reference to it is marked, as `mark_closure_rejected` does.
pub proof fn lemma_settling_follows_label(body: Seq<char>, issue: Seq<char>)
    ensures
        regex_compiles(unmark_pattern(issue)) ==> (rewritten(body, issue, false) matches Ok(b) && b
            == replaced_all(
            unmark_pattern(issue),
            body,
            unmarked_all(regex_captures(unmark_pattern(issue), body), issue),
        )),
        !regex_compiles(unmark_pattern(issue)) ==> (rewritten(body, issue, false) matches Err(e) && e
            == pattern_error(unmark_pattern(issue))),
        regex_compiles(mark_pattern(issue)) ==> (rewritten(body, issue, true) matches Ok(b) && b
            == replaced_all(mark_pattern(issue), body, marked_all(regex_captures(mark_pattern(issue), body), issue))),
        !regex_compiles(mark_pattern(issue)) ==> (rewritten(body, issue, true) matches Err(e) && e
            == pattern_error(mark_pattern(issue))),
{
}

/// In a run, the reply on an issue's labels decides how the body goes on:
/// when the issue no longer carries `issue-required-missing`, its rejected
/// closing references are restored and it is not counted as neutralized;
/// when it carries the label, its closing references are marked and it is
/// counted.
pub proof fn lemma_labels_reply_settles_body(
    args: Seq<Seq<char>>,
    gh_repo: Option<Seq<char>>,
    github_repository: Option<Seq<char>>,
    c: NCtx,
    original: Seq<char>,
    updated: Seq<char>,
    refs: Seq<ReferenceNumber>,
    i: int,
    neutralized: Seq<u64>,
    out: String,
)
    requires
        0 <= i < refs.len(),
        increasing(neutralized),
    ensures
        !has_line(lines(out@), REQUIRED_MISSING@) && regex_compiles(unmark_pattern(show_number_of(refs[i].value)))
            ==> neutralizer_next(
            args,
            gh_repo,
            github_repository,
            NeutralizerState::Labels(c, original, updated, refs, i, neutralized),
            Reply::Text(Ok(out)),
        ) == labels_step(
            c,
            original,
            replaced_all(
                unmark_pattern(show_number_of(refs[i].value)),
                updated,
                unmarked_all(
                    regex_captures(unmark_pattern(show_number_of(refs[i].value)), updated),
                    show_number_of(refs[i].value),
                ),
            ),
            refs,
            i + 1,
            neutralized,
        ),
        has_line(lines(out@), REQUIRED_MISSING@) && regex_compiles(mark_pattern(show_number_of(refs[i].value)))
            ==> neutralizer_next(
            args,
            gh_repo,
            github_repository,
            NeutralizerState::Labels(c, original, updated, refs, i, neutralized),
            Reply::Text(Ok(out)),
        ) == labels_step(
            c,
            original,
            replaced_all(
                mark_pattern(show_number_of(refs[i].value)),
                updated,
                marked_all(
                    regex_captures(mark_pattern(show_number_of(refs[i].value)), updated),
                    show_number_of(refs[i].value),
                ),
            ),
            refs,
            i + 1,
            insert_sorted(neutralized, refs[i].value),
        ),
{
    lemma_settling_follows_label(updated, show_number_of(refs[i].value));
}

/// The repository, pull request and comment marker of a run.
pub struct NeutralizerContext {
    pub repo: String,
    pub pr_number: String,
    pub marker: String,
}

/// The view of a run's context.
pub struct NCtx {
    pub repo: Seq<char>,
    pub pr: Seq<char>,
    pub marker: Seq<char>,
}

impl View for NeutralizerContext {
    type V = NCtx;

    open spec fn view(&self) -> NCtx {
        NCtx { repo: self.repo@, pr: self.pr_number@, marker: self.marker@ }
    }
}

/// Where a run on one pull request stands.
pub enum NeutralizerAt {
    Start,
    /// The body was asked.
    Body(NeutralizerContext),
    /// The labels of the issue of `refs[i]` were asked; the original body,
    /// the body so far, the references, `i` and the neutralized issue
    /// numbers (increasing) follow.
    Labels(NeutralizerContext, String, String, Vec<ReferenceNumber>, usize, Vec<u64>),
    /// The new body was sent.
    Updating(NeutralizerContext, Vec<u64>),
    /// The comments were asked; the status comment follows.
    Comments(NeutralizerContext, String),
    /// The status comment was written.
    Writing(NeutralizerContext),
    /// The last message was printed.
    Ending,
}

/// The view of where a run stands.
pub enum NeutralizerState {
    Start,
    Body(NCtx),
    Labels(NCtx, Seq<char>, Seq<char>, Seq<ReferenceNumber>, int, Seq<u64>),
    Updating(NCtx, Seq<u64>),
    Comments(NCtx, Seq<char>),
    Writing(NCtx),
    Ending,
}

impl View for NeutralizerAt {
    type V = NeutralizerState;

    open spec fn view(&self) -> NeutralizerState {
        match self {
            NeutralizerAt::Start => NeutralizerState::Start,
            NeutralizerAt::Body(c) => NeutralizerState::Body(c@),
            NeutralizerAt::Labels(c, o, u, refs, i, n) => NeutralizerState::Labels(
                c@,
                o@,
                u@,
                refs@,
                *i as int,
                n@,
            ),
            NeutralizerAt::Updating(c, n) => NeutralizerState::Updating(c@, n@),
            NeutralizerAt::Comments(c, m) => NeutralizerState::Comments(c@, m@),
            NeutralizerAt::Writing(c) => NeutralizerState::Writing(c@),
            NeutralizerAt::Ending => NeutralizerState::Ending,
        }
    }
}

/// Asking for the comments once the body is settled.
pub open spec fn comment_step(c: NCtx, neutralized: Seq<u64>) -> (NeutralizerState, Act) {
    (
        NeutralizerState::Comments(c, neutralizer_comment(c.marker, shown_all(neutralized))),
        Act::Gh(comments_args(c.repo, c.pr), GhExpect::JsonLines),
    )
}

/// After reference `i`: ask about the next issue; past the last, write the
/// body when it changed.
pub open spec fn labels_step(
    c: NCtx,
    original: Seq<char>,
    updated: Seq<char>,
    refs: Seq<ReferenceNumber>,
    i: int,
    neutralized: Seq<u64>,
) -> (NeutralizerState, Act) {
    if i < refs.len() {
        (
            NeutralizerState::Labels(c, original, updated, refs, i, neutralized),
            Act::Gh(issue_labels_args(c.repo, decimal(refs[i].value as nat)), GhExpect::Output),
        )
    } else if updated != original {
        (NeutralizerState::Updating(c, neutralized), Act::Gh(edit_body_args(c.repo, c.pr, updated), GhExpect::Output))
    } else {
        comment_step(c, neutralized)
    }
}

/// The next state and action of a run on one pull request.
pub open spec fn neutralizer_next(
    args: Seq<Seq<char>>,
    gh_repo: Option<Seq<char>>,
    github_repository: Option<Seq<char>>,
    at: NeutralizerState,
    reply: Reply,
) -> (NeutralizerState, Act) {
    match at {
        NeutralizerState::Start => match repo_choice(args, gh_repo, github_repository) {
            Err(e) => (at, failed(e)),
            Ok(repo) => match flag_reference(args, "--pr"@, Some(ReferenceKind::PullRequest)) {
                None => (at, failed("Invalid or missing pr."@)),
                Some(pr) => {
                    let n = decimal(pr.value as nat);
                    let c = NCtx { repo, pr: n, marker: "<!-- closure-neutralizer:"@ + n + " -->"@ };
                    (NeutralizerState::Body(c), Act::Gh(pr_field_args(repo, n, "body"@), GhExpect::Output))
                },
            },
        },
        NeutralizerState::Body(c) => match reply {
            Reply::Text(Ok(body)) => if trim(body@).len() == 0 {
                (at, failed("Error: unable to read PR #"@ + c.pr + "."@))
            } else if !regex_compiles(ISSUE_REF@) {
                (at, failed(pattern_error(ISSUE_REF@)))
            } else {
                labels_step(
                    c,
                    body@,
                    body@,
                    closing_refs_of(regex_captures(ISSUE_REF@, body@)),
                    0,
                    Seq::<u64>::empty(),
                )
            },
            Reply::Text(Err(e)) => (at, failed(e@)),
            _ => (at, failed(unexpected_reply())),
        },
        NeutralizerState::Labels(c, original, updated, refs, i, neutralized) => match reply {
            Reply::Text(Ok(out)) => if 0 <= i < refs.len() && increasing(neutralized) {
                let labeled = has_line(lines(out@), REQUIRED_MISSING@);
                match rewritten(updated, show_number_of(refs[i].value), labeled) {
                    Err(e) => (at, failed(e)),
                    Ok(b) => labels_step(
                        c,
                        original,
                        b,
                        refs,
                        i + 1,
                        if labeled {
                            insert_sorted(neutralized, refs[i].value)
                        } else {
                            neutralized
                        },
                    ),
                }
            } else {
                (at, failed(unexpected_reply()))
            },
            Reply::Text(Err(e)) => (at, failed(e@)),
            _ => (at, failed(unexpected_reply())),
        },
        NeutralizerState::Updating(c, neutralized) => match reply {
            Reply::Text(Ok(_)) => comment_step(c, neutralized),
            Reply::Text(Err(e)) => (at, failed(e@)),
            _ => (at, failed(unexpected_reply())),
        },
        NeutralizerState::Comments(c, comment) => match reply {
            Reply::JsonLines(Ok(values)) => (
                NeutralizerState::Writing(c),
                Act::Gh(upsert_args(comments_of(values@), c.repo, c.pr, c.marker, comment), GhExpect::Output),
            ),
            Reply::JsonLines(Err(e)) => (at, failed(e@)),
            _ => (at, failed(unexpected_reply())),
        },
        NeutralizerState::Writing(c) => match reply {
            Reply::Text(Ok(_)) => (
                NeutralizerState::Ending,
                Act::Print("Closure neutralization evaluated for PR #"@ + c.pr + "."@),
            ),
            Reply::Text(Err(e)) => (at, failed(e@)),
            _ => (at, failed(unexpected_reply())),
        },
        NeutralizerState::Ending => (at, succeeded()),
    }
}

impl PrClosureNeutralizer {
    fn comment_start(&self, c: NeutralizerContext, neutralized: Vec<u64>) -> (r: (NeutralizerAt, Action))
        ensures
            (r.0@, r.1@) == comment_step(c@, neutralized@),
    {
        let mut issues: Vec<String> = Vec::new();
        let mut i: usize = 0;
        while i < neutralized.len()
            invariant
                i <= neutralized.len(),
                strings_view(issues@) == shown_all(neutralized@.take(i as int)),
            decreases neutralized.len() - i,
        {
            push_string(&mut issues, ReferenceNumber::new(neutralized[i]).show_number());
            i += 1;
            assert(shown_all(neutralized@.take(i as int)) =~= shown_all(neutralized@.take(i - 1)).push(
                show_number_of(neutralized@[i - 1]),
            ));
        }
        assert(neutralized@.take(neutralized.len() as int) =~= neutralized@);
        let comment = Self::status_comment(c.marker.as_str(), &issues);
        let call = GitHubCli.issue_comments_call(c.repo.as_str(), c.pr_number.as_str());
        (NeutralizerAt::Comments(c, comment), gh(call))
    }

    fn labels_from(
        &self,
        c: NeutralizerContext,
        original: String,
        updated: String,
        refs: Vec<ReferenceNumber>,
        i: usize,
        neutralized: Vec<u64>,
    ) -> (r: (NeutralizerAt, Action))
        ensures
            (r.0@, r.1@) == labels_step(c@, original@, updated@, refs@, i as int, neutralized@),
    {
        if i < refs.len() {
            let call = GitHubCli.issue_labels_call(c.repo.as_str(), refs[i].as_string().as_str());
            return (NeutralizerAt::Labels(c, original, updated, refs, i, neutralized), gh(call));
        }
        if !str_eq(updated.as_str(), original.as_str()) {
            let call = GitHubCli.update_pull_request_body(
                c.repo.as_str(),
                c.pr_number.as_str(),
                updated.as_str(),
            );
            return (NeutralizerAt::Updating(c, neutralized), gh(call));
        }
        self.comment_start(c, neutralized)
    }

    /// One step of the run on the pull request named by `--pr`: marks the
    /// closing references to issues labelled `issue-required-missing` as
    /// rejected and restores the others, writes the body when it changed,
    /// and writes a status comment listing the neutralized issues by number.
    /// `gh_repo` and `github_repository` are the environment's `GH_REPO` and
    /// `GITHUB_REPOSITORY`.
    pub fn run(
        &self,
        gh_repo: Option<String>,
        github_repository: Option<String>,
        at: NeutralizerAt,
        reply: Reply,
    ) -> (r: (NeutralizerAt, Action))
        ensures
            (r.0@, r.1@) == neutralizer_next(
                args_view(self.args.args@),
                opt_string_view(gh_repo),
                opt_string_view(github_repository),
                at@,
                reply,
            ),
    {
        let github = GitHubCli;
        match at {
            NeutralizerAt::Start => {
                let repo = match self.args.resolve_repo(gh_repo, github_repository) {
                    Ok(r) => r,
                    Err(e) => {
                        return (NeutralizerAt::Start, fail(e));
                    },
                };
                let pr = match self.args.resolve_pull_request_number("--pr") {
                    Ok(p) => p,
                    Err(e) => {
                        return (NeutralizerAt::Start, fail(e));
                    },
                };
                let n = pr.as_string();
                let marker = concat3("<!-- closure-neutralizer:", n.as_str(), " -->");
                let call = github.read_pull_request_field(repo.as_str(), n.as_str(), "body");
                (NeutralizerAt::Body(NeutralizerContext { repo, pr_number: n, marker }), gh(call))
            },
            NeutralizerAt::Body(c) => match reply {
                Reply::Text(Ok(body)) => {
                    if crate::text::trim_str(body.as_str()).as_str().is_empty() {
                        let m = concat3("Error: unable to read PR #", c.pr_number.as_str(), ".");
                        return (NeutralizerAt::Body(c), fail(m));
                    }
                    match extract_closing_refs(body.as_str()) {
                        Err(e) => (NeutralizerAt::Body(c), fail(e)),
                        Ok(refs) => {
                            let original = copy_str(body.as_str());
                            self.labels_from(c, original, body, refs, 0, Vec::new())
                        },
                    }
                },
                Reply::Text(Err(e)) => (NeutralizerAt::Body(c), fail(e)),
                _ => (NeutralizerAt::Body(c), fail_unexpected()),
            },
            NeutralizerAt::Labels(c, original, updated, refs, i, neutralized) => match reply {
                Reply::Text(Ok(out)) => {
                    if i >= refs.len() || !is_increasing(&neutralized) {
                        return (
                            NeutralizerAt::Labels(c, original, updated, refs, i, neutralized),
                            fail_unexpected(),
                        );
                    }
                    let labeled = github.issue_has_label(out.as_str(), REQUIRED_MISSING);
                    match rewrite(updated.as_str(), refs[i].show_number().as_str(), labeled) {
                        Err(e) => (NeutralizerAt::Labels(c, original, updated, refs, i, neutralized), fail(e)),
                        Ok(b) => {
                            let mut neutralized = neutralized;
                            if labeled {
                                insert_sorted_exec(&mut neutralized, refs[i].value);
                            }
                            self.labels_from(c, original, b, refs, i + 1, neutralized)
                        },
                    }
                },
                Reply::Text(Err(e)) => (NeutralizerAt::Labels(c, original, updated, refs, i, neutralized), fail(e)),
                _ => (NeutralizerAt::Labels(c, original, updated, refs, i, neutralized), fail_unexpected()),
            },
            NeutralizerAt::Updating(c, neutralized) => match reply {
                Reply::Text(Ok(_)) => self.comment_start(c, neutralized),
                Reply::Text(Err(e)) => (NeutralizerAt::Updating(c, neutralized), fail(e)),
                _ => (NeutralizerAt::Updating(c, neutralized), fail_unexpected()),
            },
            NeutralizerAt::Comments(c, comment) => match reply {
                Reply::JsonLines(Ok(values)) => {
                    let comments = github.read_comment_summaries(&values);
                    let call = github.upsert_issue_comment_by_marker(
                        &comments,
                        c.repo.as_str(),
                        c.pr_number.as_str(),
                        c.marker.as_str(),
                        comment.as_str(),
                    );
                    (NeutralizerAt::Writing(c), gh(call))
                },
                Reply::JsonLines(Err(e)) => (NeutralizerAt::Comments(c, comment), fail(e)),
                _ => (NeutralizerAt::Comments(c, comment), fail_unexpected()),
            },
            NeutralizerAt::Writing(c) => match reply {
                Reply::Text(Ok(_)) => {
                    let m = concat3("Closure neutralization evaluated for PR #", c.pr_number.as_str(), ".");
                    (NeutralizerAt::Ending, Action::Print(m))
                },
                Reply::Text(Err(e)) => (NeutralizerAt::Writing(c), fail(e)),
                _ => (NeutralizerAt::Writing(c), fail_unexpected()),
            },
            NeutralizerAt::Ending => (NeutralizerAt::Ending, crate::workflow::finish_ok()),
        }
    }
}

fn is_increasing(v: &Vec<u64>) -> (r: bool)
    ensures
        r == increasing(v@),
{
    let mut i: usize = 1;
    if v.len() == 0 {
        return true;
    }
    while i < v.len()
        invariant
            1 <= i <= v.len(),
            forall|a: int, b: int| 0 <= a < b < i ==> v@[a] < v@[b],
        decreases v.len() - i,
    {
        if v[i - 1] >= v[i] {
            return false;
        }
        assert forall|a: int, b: int| 0 <= a < b < i + 1 implies v@[a] < v@[b] by {
            if b == i as int && a < i - 1 {
                assert(v@[a] < v@[i - 1]);
            }
        }
        i += 1;
    }
    true
}

// ---------------------------------------------------------------------------
// Re-evaluating the pull requests that close an issue
// ---------------------------------------------------------------------------

/// The arguments of a run on pull request `pr` of `repo`.
pub open spec fn rerun_args(pr: Seq<char>, repo: Seq<char>) -> Seq<Seq<char>> {
    seq!["automation"@, "closure-neutralizer"@, "--pr"@, pr, "--repo"@, repo]
}

/// The first row from `i` on whose body closes `key`, or the error of the
/// search.
pub open spec fn next_row(rows: Seq<(Seq<char>, Seq<char>)>, key: Seq<char>, i: int) -> Result<int, Seq<char>>
    decreases rows.len() - i,
{
    if i < 0 || i >= rows.len() {
        Ok(rows.len() as int)
    } else if !regex_compiles(closure_line_pattern(key)) {
        Err(pattern_error(closure_line_pattern(key)))
    } else if regex_matches(closure_line_pattern(key), rows[i].1) {
        Ok(i)
    } else {
        next_row(rows, key, i + 1)
    }
}

/// Where a re-evaluation stands.
pub enum ReevaluateAt {
    Start,
    /// The open pull requests were asked; repository and issue follow.
    Rows(String, ReferenceNumber),
    /// The pull request of row `i` is re-run; repository, issue, rows, `i`,
    /// the count so far and the state of that run follow.
    Running(String, ReferenceNumber, Vec<(String, String)>, usize, usize, NeutralizerAt),
    /// The summary was printed.
    Ending,
}

/// The view of where a re-evaluation stands.
pub enum ReevaluateState {
    Start,
    Rows(Seq<char>, ReferenceNumber),
    Running(Seq<char>, ReferenceNumber, Seq<(Seq<char>, Seq<char>)>, int, int, NeutralizerState),
    Ending,
}

impl View for ReevaluateAt {
    type V = ReevaluateState;

    open spec fn view(&self) -> ReevaluateState {
        match self {
            ReevaluateAt::Start => ReevaluateState::Start,
            ReevaluateAt::Rows(r, i) => ReevaluateState::Rows(r@, *i),
            ReevaluateAt::Running(r, i, rows, k, n, at) => ReevaluateState::Running(
                r@,
                *i,
                rows_view(rows@),
                *k as int,
                *n as int,
                at@,
            ),
            ReevaluateAt::Ending => ReevaluateState::Ending,
        }
    }
}

/// Going on from row `i` with `count` pull requests re-run so far.
pub open spec fn rows_step(
    repo: Seq<char>,
    issue: ReferenceNumber,
    rows: Seq<(Seq<char>, Seq<char>)>,
    i: int,
    count: int,
) -> (ReevaluateState, Act) {
    match next_row(rows, show_number_of(issue.value), i) {
        Err(e) => (ReevaluateState::Rows(repo, issue), failed(e)),
        Ok(j) => if j < rows.len() {
            let (at, act) = neutralizer_next(
                rerun_args(rows[j].0, repo),
                None,
                None,
                NeutralizerState::Start,
                Reply::Start,
            );
            (ReevaluateState::Running(repo, issue, rows, j, count, at), act)
        } else if count == 0 {
            (
                ReevaluateState::Ending,
                Act::Print("No open PRs found referencing issue "@ + show_number_of(issue.value) + "."@),
            )
        } else {
            (
                ReevaluateState::Ending,
                Act::Print("Re-evaluation complete. "@ + decimal(count as nat) + " PR(s) evaluated."@),
            )
        },
    }
}

/// The next state and action of a re-evaluation.
pub open spec fn reevaluate_next(
    args: Seq<Seq<char>>,
    gh_repo: Option<Seq<char>>,
    github_repository: Option<Seq<char>>,
    at: ReevaluateState,
    reply: Reply,
) -> (ReevaluateState, Act) {
    match at {
        ReevaluateState::Start => match repo_choice(args, gh_repo, github_repository) {
            Err(e) => (at, failed(e)),
            Ok(repo) => match flag_reference(args, "--issue"@, Some(ReferenceKind::Issue)) {
                None => (at, failed("Invalid or missing issue."@)),
                Some(issue) => (ReevaluateState::Rows(repo, issue), Act::Gh(open_prs_args(repo), GhExpect::Output)),
            },
        },
        ReevaluateState::Rows(repo, issue) => match reply {
            Reply::Text(Ok(out)) => rows_step(repo, issue, rows_of(lines(out@)), 0, 0),
            Reply::Text(Err(e)) => (at, failed(e@)),
            _ => (at, failed(unexpected_reply())),
        },
        ReevaluateState::Running(repo, issue, rows, j, count, sub) => if 0 <= j < rows.len() && count
            < usize::MAX {
            let (sub2, act) = neutralizer_next(rerun_args(rows[j].0, repo), None, None, sub, reply);
            if act == succeeded() {
                rows_step(repo, issue, rows, j + 1, count + 1)
            } else {
                (ReevaluateState::Running(repo, issue, rows, j, count, sub2), act)
            }
        } else {
            (at, failed(unexpected_reply()))
        },
        ReevaluateState::Ending => (at, succeeded()),
    }
}

fn rerun_command(pr: &str, repo: &str) -> (r: PrClosureNeutralizer)
    ensures
        args_view(r.args.args@) == rerun_args(pr@, repo@),
{
    let mut a: Vec<String> = Vec::new();
    push_string(&mut a, copy_str("automation"));
    push_string(&mut a, copy_str("closure-neutralizer"));
    push_string(&mut a, copy_str("--pr"));
    push_string(&mut a, copy_str(pr));
    push_string(&mut a, copy_str("--repo"));
    push_string(&mut a, copy_str(repo));
    assert(args_view(a@) =~= strings_view(a@));
    PrClosureNeutralizer::new(CommandArgs::new(a))
}

impl PrClosureNeutralizer {
    fn rows_from(
        &self,
        repo: String,
        issue: ReferenceNumber,
        rows: Vec<(String, String)>,
        i: usize,
        count: usize,
    ) -> (r: (ReevaluateAt, Action))
        requires
            i <= rows.len(),
        ensures
            (r.0@, r.1@) == rows_step(repo@, issue, rows_view(rows@), i as int, count as int),
    {
        let key = issue.show_number();
        let ghost rv = rows_view(rows@);
        let mut j = i;
        while j < rows.len()
            invariant
                i <= j <= rows.len(),
                rv == rows_view(rows@),
                key@ == show_number_of(issue.value),
                next_row(rv, key@, i as int) == next_row(rv, key@, j as int),
            decreases rows.len() - j,
        {
            match references_issue_in_closure_line(rows[j].1.as_str(), key.as_str()) {
                Err(e) => {
                    return (ReevaluateAt::Rows(repo, issue), fail(e));
                },
                Ok(true) => {
                    let sub = rerun_command(rows[j].0.as_str(), repo.as_str());
                    let (at, act) = sub.run(None, None, NeutralizerAt::Start, Reply::Start);
                    return (ReevaluateAt::Running(repo, issue, rows, j, count, at), act);
                },
                Ok(false) => {},
            }
            j += 1;
        }
        if count == 0 {
            let m = concat3("No open PRs found referencing issue ", key.as_str(), ".");
            return (ReevaluateAt::Ending, Action::Print(m));
        }
        let mut m = copy_str("Re-evaluation complete. ");
        crate::text::push_decimal(&mut m, count as u64);
        m.append(" PR(s) evaluated.");
        (ReevaluateAt::Ending, Action::Print(m))
    }

    /// One step of the re-evaluation of the open pull requests whose body
    /// closes the `--issue` issue: each is run through the neutralizer in
    /// turn, then the count is printed.
    pub fn reevaluate(
        &self,
        gh_repo: Option<String>,
        github_repository: Option<String>,
        at: ReevaluateAt,
        reply: Reply,
    ) -> (r: (ReevaluateAt, Action))
        ensures
            (r.0@, r.1@) == reevaluate_next(
                args_view(self.args.args@),
                opt_string_view(gh_repo),
                opt_string_view(github_repository),
                at@,
                reply,
            ),
    {
        let github = GitHubCli;
        match at {
            ReevaluateAt::Start => {
                let repo = match self.args.resolve_repo(gh_repo, github_repository) {
                    Ok(r) => r,
                    Err(e) => {
                        return (ReevaluateAt::Start, fail(e));
                    },
                };
                let issue = match self.args.resolve_issue_number("--issue") {
                    Ok(i) => i,
                    Err(e) => {
                        return (ReevaluateAt::Start, fail(e));
                    },
                };
                let call = github.open_pull_requests_call(repo.as_str());
                (ReevaluateAt::Rows(repo, issue), gh(call))
            },
            ReevaluateAt::Rows(repo, issue) => match reply {
                Reply::Text(Ok(out)) => {
                    let rows = github.list_open_pull_request_rows(out.as_str());
                    self.rows_from(repo, issue, rows, 0, 0)
                },
                Reply::Text(Err(e)) => (ReevaluateAt::Rows(repo, issue), fail(e)),
                _ => (ReevaluateAt::Rows(repo, issue), fail_unexpected()),
            },
            ReevaluateAt::Running(repo, issue, rows, j, count, sub_at) => {
                if j >= rows.len() || count == usize::MAX {
                    return (ReevaluateAt::Running(repo, issue, rows, j, count, sub_at), fail_unexpected());
                }
                let sub = rerun_command(rows[j].0.as_str(), repo.as_str());
                let (sub2, act) = sub.run(None, None, sub_at, reply);
                let done = match &act {
                    Action::Finish(Ok(())) => true,
                    _ => false,
                };
                if done {
                    self.rows_from(repo, issue, rows, j + 1, count + 1)
                } else {
                    (ReevaluateAt::Running(repo, issue, rows, j, count, sub2), act)
                }
            },
            ReevaluateAt::Ending => (ReevaluateAt::Ending, crate::workflow::finish_ok()),
        }
    }
}

} // verus!
