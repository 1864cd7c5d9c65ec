//! The directive conflict guard: issues a pull request both closes and
//! reopens must be settled by an explicit (or, for a single source branch, the
//! latest) directive.

use vstd::prelude::*;

use crate::args::{args_view, flag_reference, opt_string_view, repo_choice, CommandArgs};
use crate::github::{
    comments_args, comments_of, edit_body_args, nonempty_lines, pr_commits_args, pr_field_args,
    upsert_args, GhExpect, GitHubCli,
};
use crate::reference::ReferenceKind;
use crate::workflow::{fail, fail_unexpected, failed, gh, succeeded, unexpected_reply, Act, Action, Reply};
use crate::body_block::{removed_text, ManagedBodyBlock};
use crate::directives::{
    decision_for, directive_sets, explicit_decisions, keys_filter, keys_insert, keys_remove,
    keys_view, keys_where, lookup_decision, ordered_by_number, pairs_view, set_insert, set_remove,
    sort_by_issue_number, ParsedPrDirectives, PrDirective,
};
use crate::neutralizer::{group_or, replaced_all};
use crate::patterns::{
    captures_all, captures_view, escape, escaped, gaps_all, group_at, group_text, group_text_at,
    groups_view, regex_captures, regex_compiles, regex_error_text, splice_strings, strings_view,
    CaptureTexts, DIRECTIVE_DECISION, ISSUE_DIRECTIVE_EVENT, MERGE_SOURCE_BRANCH,
};
use crate::pr_body::{push_line, push_string};
use crate::text::{
    concat2, concat3, copy_str, decimal, join, join_strings, lines, lower, lower_str,
    str_eq, trim, trim_str,
};

verus! {

/// The start marker of the decisions block.
pub open spec fn start_marker() -> Seq<char> {
    "<!-- directive-conflicts:start -->"@
}

/// The end marker of the decisions block.
pub open spec fn end_marker() -> Seq<char> {
    "<!-- directive-conflicts:end -->"@
}

// ---------------------------------------------------------------------------
// Source branches
// ---------------------------------------------------------------------------

/// The distinct source branches of the merge commits, in order.
pub open spec fn source_branches(caps: Seq<Seq<Option<Seq<char>>>>) -> Seq<Seq<char>>
    decreases caps.len(),
{
    if caps.len() == 0 {
        Seq::<Seq<char>>::empty()
    } else {
        let rest = source_branches(caps.drop_last());
        let v = trim(group_text(caps.last(), 1));
        if v.len() > 0 {
            set_insert(rest, v)
        } else {
            rest
        }
    }
}

/// The number of source branches (at least one).
pub open spec fn source_branch_count(messages: Seq<Seq<char>>) -> nat {
    let text = join(messages, "\n"@);
    let n = if regex_compiles(MERGE_SOURCE_BRANCH@) {
        source_branches(regex_captures(MERGE_SOURCE_BRANCH@, text)).len()
    } else {
        0
    };
    if n == 0 {
        1
    } else {
        n
    }
}

// ---------------------------------------------------------------------------
// The report
// ---------------------------------------------------------------------------

/// How a conflict was settled.
pub struct DirectiveResolution {
    pub issue: String,
    pub decision: String,
    pub origin: String,
}

/// A conflict left open.
pub struct DirectiveConflict {
    pub issue: String,
    pub reason: String,
}

/// The guard's findings.
pub struct DirectiveReport {
    pub resolved: Vec<DirectiveResolution>,
    pub unresolved: Vec<DirectiveConflict>,
}

/// The views of resolutions: `(issue, decision, origin)`.
pub open spec fn resolutions_view(v: Seq<DirectiveResolution>) -> Seq<(Seq<char>, Seq<char>, Seq<char>)> {
    v.map_values(|r: DirectiveResolution| (r.issue@, r.decision@, r.origin@))
}

/// The views of conflicts: `(issue, reason)`.
pub open spec fn conflicts_view(v: Seq<DirectiveConflict>) -> Seq<(Seq<char>, Seq<char>)> {
    v.map_values(|c: DirectiveConflict| (c.issue@, c.reason@))
}

/// The inferred decisions after reading the events in order, as entries read
/// from the end (`None` records a removal): `closes`/`fixes` infer `close`,
/// `reopen`/`reopens` infer `reopen`, `cancel-closes` drops an inferred
/// `close`.
pub open spec fn inferred_entries(caps: Seq<Seq<Option<Seq<char>>>>) -> Seq<
    (Seq<char>, Option<Seq<char>>),
>
    decreases caps.len(),
{
    if caps.len() == 0 {
        Seq::<(Seq<char>, Option<Seq<char>>)>::empty()
    } else {
        let rest = inferred_entries(caps.drop_last());
        let c = caps.last();
        let action = lower(group_text(c, 1));
        let issue = group_text(c, 3);
        if issue.len() == 0 {
            rest
        } else if action == "closes"@ || action == "fixes"@ {
            rest.push((issue, Some("close"@)))
        } else if action == "reopen"@ || action == "reopens"@ {
            rest.push((issue, Some("reopen"@)))
        } else if action == "cancel-closes"@ && inferred_for(rest, issue) == Some("close"@) {
            rest.push((issue, None))
        } else {
            rest
        }
    }
}

/// The inferred decision for an issue.
pub open spec fn inferred_for(entries: Seq<(Seq<char>, Option<Seq<char>>)>, issue: Seq<char>) -> Option<
    Seq<char>,
>
    decreases entries.len(),
{
    if entries.len() == 0 {
        None
    } else if entries.last().0 == issue {
        entries.last().1
    } else {
        inferred_for(entries.drop_last(), issue)
    }
}

/// The issues named by `cancel-closes` events.
pub open spec fn cancelled(caps: Seq<Seq<Option<Seq<char>>>>) -> Seq<Seq<char>>
    decreases caps.len(),
{
    if caps.len() == 0 {
        Seq::<Seq<char>>::empty()
    } else {
        let rest = cancelled(caps.drop_last());
        let c = caps.last();
        let issue = group_text(c, 3);
        let action = lower(group_text(c, 1));
        if issue.len() == 0 {
            rest
        } else if action == "closes"@ || action == "fixes"@ {
            rest
        } else if action == "reopen"@ || action == "reopens"@ {
            rest
        } else if action == "cancel-closes"@ {
            rest.push(issue)
        } else {
            rest
        }
    }
}

/// The closing set with every cancelled issue removed.
pub open spec fn without_all(s: Seq<Seq<char>>, cancelled: Seq<Seq<char>>) -> Seq<Seq<char>>
    decreases cancelled.len(),
{
    if cancelled.len() == 0 {
        s
    } else {
        set_remove(without_all(s, cancelled.drop_last()), cancelled.last())
    }
}

/// The reason of a conflict across several source branches.
pub open spec fn multi_branch_reason() -> Seq<char> {
    "Closes + Reopen detected across multiple source branches; explicit decision required."@
}

/// The reason of a conflict without decision.
pub open spec fn no_decision_reason() -> Seq<char> {
    "Closes + Reopen detected without explicit decision."@
}

/// The resolutions and open conflicts for the conflicts `q`, in order.
pub open spec fn report_of(
    q: Seq<Seq<char>>,
    explicit: Seq<(Seq<char>, Seq<char>)>,
    inferred: Seq<(Seq<char>, Option<Seq<char>>)>,
    allow_inferred: bool,
) -> (Seq<(Seq<char>, Seq<char>, Seq<char>)>, Seq<(Seq<char>, Seq<char>)>)
    decreases q.len(),
{
    if q.len() == 0 {
        (Seq::empty(), Seq::empty())
    } else {
        let (res, unres) = report_of(q.drop_last(), explicit, inferred, allow_inferred);
        let issue = q.last();
        match decision_for(explicit, issue) {
            Some(d) => (res.push((issue, d, "explicit"@)), unres),
            None => if allow_inferred {
                match inferred_for(inferred, issue) {
                    Some(d) => (res.push((issue, d, "inferred from latest directive"@)), unres),
                    None => (res, unres.push((issue, no_decision_reason()))),
                }
            } else {
                (res, unres.push((issue, multi_branch_reason())))
            },
        }
    }
}

/// `report` is the guard's report for the payload's directives and the
/// number of source branches: the conflicts (issues closed, not cancelled, and
/// reopened) settled by explicit decision, else by the latest directive when
/// there is one source branch; conflicts by number (equal numbers in any
/// order).
pub open spec fn report_matches(
    resolved: Seq<(Seq<char>, Seq<char>, Seq<char>)>,
    unresolved: Seq<(Seq<char>, Seq<char>)>,
    decision_caps: Seq<Seq<Option<Seq<char>>>>,
    event_caps: Seq<Seq<Option<Seq<char>>>>,
    source_branch_count: nat,
) -> bool {
    let sets = directive_sets(event_caps);
    let closing = without_all(sets.0, cancelled(event_caps));
    exists|q: Seq<Seq<char>>|
        #![trigger ordered_by_number(q, keys_where(closing, sets.1, true))]
        ordered_by_number(q, keys_where(closing, sets.1, true)) && (resolved, unresolved)
            == report_of(
            q,
            explicit_decisions(decision_caps),
            inferred_entries(event_caps),
            source_branch_count <= 1,
        )
}

/// The inferred decision for an issue.
fn lookup_inferred(entries: &Vec<(String, Option<String>)>, issue: &str) -> (r: Option<String>)
    ensures
        match (r, inferred_for(inferred_view(entries@), issue@)) {
            (Some(a), Some(b)) => a@ == b,
            (None, None) => true,
            _ => false,
        },
{
    let ghost ev = inferred_view(entries@);
    let mut i: usize = entries.len();
    assert(ev.take(entries.len() as int) =~= ev);
    while i > 0
        invariant
            i <= entries.len(),
            ev == inferred_view(entries@),
            inferred_for(ev, issue@) == inferred_for(ev.take(i as int), issue@),
        decreases i,
    {
        assert(ev.take(i as int).drop_last() =~= ev.take(i - 1));
        assert(ev.take(i as int).last() == ev[i - 1]);
        if str_eq(entries[i - 1].0.as_str(), issue) {
            return match &entries[i - 1].1 {
                Some(d) => Some(d.clone()),
                None => None,
            };
        }
        i -= 1;
    }
    None
}

/// The views of inferred entries.
pub open spec fn inferred_view(v: Seq<(String, Option<String>)>) -> Seq<(Seq<char>, Option<Seq<char>>)> {
    v.map_values(
        |e: (String, Option<String>)|
            (
                e.0@,
                match e.1 {
                    Some(d) => Some(d@),
                    None => None,
                },
            ),
    )
}

/// The guard command.
pub struct PrDirectiveConflictGuard {
    pub args: CommandArgs,
}

impl PrDirectiveConflictGuard {
    /// The command for the given arguments.
    pub fn new(args: CommandArgs) -> (r: Self)
        ensures
            r.args == args,
    {
        Self { args }
    }

    /// The number of distinct source branches named by merge commits (one
    /// when there are none).
    pub fn count_source_branches(commit_messages: &Vec<String>) -> (r: usize)
        ensures
            r as nat == source_branch_count(strings_view(commit_messages@)),
    {
        let text = join_strings(commit_messages, "\n");
        assert(commit_messages@.map_values(|p: String| p@) =~= strings_view(commit_messages@));
        let caps = match captures_all(MERGE_SOURCE_BRANCH, text.as_str()) {
            Ok(c) => c,
            Err(_) => {
                return 1;
            },
        };
        let ghost cv = captures_view(caps@);
        let mut branches: Vec<String> = Vec::new();
        let mut i: usize = 0;
        while i < caps.len()
            invariant
                i <= caps.len(),
                cv == captures_view(caps@),
                keys_view(branches@) == source_branches(cv.take(i as int)),
                branches@.len() == source_branches(cv.take(i as int)).len(),
            decreases caps.len() - i,
        {
            assert(cv.take(i + 1).drop_last() =~= cv.take(i as int));
            assert(cv.take(i + 1).last() == groups_view(caps@[i as int]));
            let value = trim_str(group_text_at(&caps[i], 1).as_str());
            if !value.as_str().is_empty() {
                keys_insert(&mut branches, value);
            }
            i += 1;
        }
        assert(cv.take(caps.len() as int) =~= cv);
        if branches.len() == 0 {
            1
        } else {
            branches.len()
        }
    }

    /// The report for parsed directives, the events they were read from and
    /// the number of source branches.
    pub fn report_from(
        parsed: &ParsedPrDirectives,
        event_caps: &CaptureTexts,
        source_branch_count: usize,
    ) -> (r: DirectiveReport)
        ensures
            exists|q: Seq<Seq<char>>|
                #![trigger ordered_by_number(
                    q,
                    keys_where(
                        without_all(keys_view(parsed.closing@), cancelled(captures_view(event_caps@))),
                        keys_view(parsed.reopening@),
                        true,
                    ),
                )]
                ordered_by_number(
                    q,
                    keys_where(
                        without_all(keys_view(parsed.closing@), cancelled(captures_view(event_caps@))),
                        keys_view(parsed.reopening@),
                        true,
                    ),
                ) && (resolutions_view(r.resolved@), conflicts_view(r.unresolved@)) == report_of(
                    q,
                    pairs_view(parsed.explicit@),
                    inferred_entries(captures_view(event_caps@)),
                    source_branch_count <= 1,
                ),
    {
        let ghost cv = captures_view(event_caps@);
        let mut closing: Vec<String> = Vec::new();
        let mut ci: usize = 0;
        while ci < parsed.closing.len()
            invariant
                ci <= parsed.closing.len(),
                keys_view(closing@) == keys_view(parsed.closing@).take(ci as int),
            decreases parsed.closing.len() - ci,
        {
            let ghost before = keys_view(closing@);
            let item = parsed.closing[ci].clone();
            let ghost iv = item@;
            assert(iv == keys_view(parsed.closing@)[ci as int]);
            closing.push(item);
            assert(keys_view(closing@) =~= before.push(iv));
            assert(keys_view(parsed.closing@).take(ci + 1) =~= keys_view(parsed.closing@).take(
                ci as int,
            ).push(iv));
            ci += 1;
        }
        assert(keys_view(parsed.closing@).take(parsed.closing.len() as int) =~= keys_view(
            parsed.closing@,
        ));
        let mut inferred: Vec<(String, Option<String>)> = Vec::new();
        let mut i: usize = 0;
        while i < event_caps.len()
            invariant
                i <= event_caps.len(),
                cv == captures_view(event_caps@),
                inferred_view(inferred@) == inferred_entries(cv.take(i as int)),
                keys_view(closing@) == without_all(keys_view(parsed.closing@), cancelled(cv.take(i as int))),
            decreases event_caps.len() - i,
        {
            assert(cv.take(i + 1).drop_last() =~= cv.take(i as int));
            assert(cv.take(i + 1).last() == groups_view(event_caps@[i as int]));
            let action = lower_str(group_text_at(&event_caps[i], 1).as_str());
            let issue = group_text_at(&event_caps[i], 3);
            let ghost before = inferred_view(inferred@);
            if issue.as_str().is_empty() {
            } else if str_eq(action.as_str(), "closes") || str_eq(action.as_str(), "fixes") {
                let ghost iv = issue@;
                inferred.push((issue, Some(copy_str("close"))));
                assert(inferred_view(inferred@) =~= before.push((iv, Some("close"@))));
            } else if str_eq(action.as_str(), "reopen") || str_eq(action.as_str(), "reopens") {
                let ghost iv = issue@;
                inferred.push((issue, Some(copy_str("reopen"))));
                assert(inferred_view(inferred@) =~= before.push((iv, Some("reopen"@))));
            } else if str_eq(action.as_str(), "cancel-closes") {
                closing = keys_remove(&closing, issue.as_str());
                proof {
                    let c0 = cancelled(cv.take(i as int));
                    assert(cancelled(cv.take(i + 1)) == c0.push(issue@));
                    assert(c0.push(issue@).drop_last() =~= c0);
                }
                let current = lookup_inferred(&inferred, issue.as_str());
                let is_close = match &current {
                    Some(d) => str_eq(d.as_str(), "close"),
                    None => false,
                };
                if is_close {
                    let ghost iv = issue@;
                    inferred.push((issue, None));
                    assert(inferred_view(inferred@) =~= before.push((iv, None)));
                }
            }
            i += 1;
        }
        assert(cv.take(event_caps.len() as int) =~= cv);
        let allow_inferred = source_branch_count <= 1;
        let conflicting = sort_by_issue_number(keys_filter(&closing, &parsed.reopening, true));
        let ghost qv = keys_view(conflicting@);
        let ghost ev = pairs_view(parsed.explicit@);
        let ghost inf = inferred_view(inferred@);
        let mut resolved: Vec<DirectiveResolution> = Vec::new();
        let mut unresolved: Vec<DirectiveConflict> = Vec::new();
        let mut k: usize = 0;
        while k < conflicting.len()
            invariant
                k <= conflicting.len(),
                qv == keys_view(conflicting@),
                ev == pairs_view(parsed.explicit@),
                inf == inferred_view(inferred@),
                allow_inferred == (source_branch_count <= 1),
                (resolutions_view(resolved@), conflicts_view(unresolved@)) == report_of(
                    qv.take(k as int),
                    ev,
                    inf,
                    allow_inferred,
                ),
            decreases conflicting.len() - k,
        {
            assert(qv.take(k + 1).drop_last() =~= qv.take(k as int));
            assert(qv.take(k + 1).last() == qv[k as int]);
            let issue = &conflicting[k];
            let ghost r0 = resolutions_view(resolved@);
            let ghost u0 = conflicts_view(unresolved@);
            match lookup_decision(&parsed.explicit, issue.as_str()) {
                Some(d) => {
                    let entry = DirectiveResolution {
                        issue: issue.clone(),
                        decision: d,
                        origin: copy_str("explicit"),
                    };
                    let ghost e = (entry.issue@, entry.decision@, entry.origin@);
                    resolved.push(entry);
                    assert(resolutions_view(resolved@) =~= r0.push(e));
                },
                None => {
                    if allow_inferred {
                        match lookup_inferred(&inferred, issue.as_str()) {
                            Some(d) => {
                                let entry = DirectiveResolution {
                                    issue: issue.clone(),
                                    decision: d,
                                    origin: copy_str("inferred from latest directive"),
                                };
                                let ghost e = (entry.issue@, entry.decision@, entry.origin@);
                                resolved.push(entry);
                                assert(resolutions_view(resolved@) =~= r0.push(e));
                            },
                            None => {
                                let entry = DirectiveConflict {
                                    issue: issue.clone(),
                                    reason: copy_str(
                                        "Closes + Reopen detected without explicit decision.",
                                    ),
                                };
                                let ghost e = (entry.issue@, entry.reason@);
                                unresolved.push(entry);
                                assert(conflicts_view(unresolved@) =~= u0.push(e));
                            },
                        }
                    } else {
                        let entry = DirectiveConflict {
                            issue: issue.clone(),
                            reason: copy_str(
                                "Closes + Reopen detected across multiple source branches; explicit decision required.",
                            ),
                        };
                        let ghost e = (entry.issue@, entry.reason@);
                        unresolved.push(entry);
                        assert(conflicts_view(unresolved@) =~= u0.push(e));
                    }
                },
            }
            k += 1;
        }
        assert(qv.take(conflicting.len() as int) =~= qv);
        DirectiveReport { resolved, unresolved }
    }

    /// The report for a payload.
    pub fn build_report(payload: &str, source_branch_count: usize) -> (r: Result<
        DirectiveReport,
        String,
    >)
        ensures
            !regex_compiles(DIRECTIVE_DECISION@) ==> (r matches Err(e) && e@
                == "Directive regex failed: "@ + regex_error_text(DIRECTIVE_DECISION@)),
            regex_compiles(DIRECTIVE_DECISION@) && !regex_compiles(ISSUE_DIRECTIVE_EVENT@) ==> (
            r matches Err(e) && e@ == "Event regex failed: "@ + regex_error_text(
                ISSUE_DIRECTIVE_EVENT@,
            )),
            regex_compiles(DIRECTIVE_DECISION@) && regex_compiles(ISSUE_DIRECTIVE_EVENT@) ==> (
            r matches Ok(rep) && report_matches(
                resolutions_view(rep.resolved@),
                conflicts_view(rep.unresolved@),
                regex_captures(DIRECTIVE_DECISION@, payload@),
                regex_captures(ISSUE_DIRECTIVE_EVENT@, payload@),
                source_branch_count as nat,
            )),
    {
        let parsed = PrDirective::parse(payload)?;
        let event_caps = match captures_all(ISSUE_DIRECTIVE_EVENT, payload) {
            Ok(c) => c,
            Err(e) => {
                return Err(concat2("Event regex failed: ", e.as_str()));
            },
        };
        let rep = Self::report_from(&parsed, &event_caps, source_branch_count);
        Ok(rep)
    }

    /// The body with resolved `close` decisions applied (their reopen
    /// references rejected) and the decisions block rewritten.
    pub fn update_pr_body(pr_body: &str, report: &DirectiveReport) -> (r: String)
        ensures
            r@ == updated_body_text(
                pr_body@,
                resolutions_view(report.resolved@),
                conflicts_view(report.unresolved@),
            ),
    {
        let ghost rv = resolutions_view(report.resolved@);
        let mut updated = copy_str(pr_body);
        let mut i: usize = 0;
        while i < report.resolved.len()
            invariant
                i <= report.resolved.len(),
                rv == resolutions_view(report.resolved@),
                updated@ == reopen_rejected_all(pr_body@, rv.take(i as int)),
            decreases report.resolved.len() - i,
        {
            assert(rv.take(i + 1).drop_last() =~= rv.take(i as int));
            assert(rv.take(i + 1).last() == rv[i as int]);
            if str_eq(report.resolved[i].decision.as_str(), "close") {
                updated = reject_reopen_issue(updated.as_str(), report.resolved[i].issue.as_str());
            }
            i += 1;
        }
        assert(rv.take(report.resolved.len() as int) =~= rv);
        let clean = remove_conflict_block(updated.as_str());
        let block = build_conflict_block(report);
        if block.as_str().is_empty() {
            clean
        } else {
            let mut s = concat3(clean.as_str(), "\n\n", block.as_str());
            s.append("\n");
            s
        }
    }
}

/// The pattern of a reopen reference to `issue`.
pub open spec fn reopen_pattern(issue: Seq<char>) -> Seq<char> {
    "(?i)\\b(reopen|reopens)\\b(\\s+)(rejected\\s+)?([^\\s]*"@ + escaped(issue) + ")\\b"@
}

/// A reopen reference marked as rejected.
pub open spec fn reopen_rejected(g: Seq<Option<Seq<char>>>, issue: Seq<char>) -> Seq<char> {
    group_or(g, 1, "reopen"@) + group_or(g, 2, " "@) + "rejected "@ + group_or(g, 4, issue)
}

/// The body with the reopen references to `issue` rejected (unchanged when
/// the pattern does not compile).
pub open spec fn reopen_rejected_text(body: Seq<char>, issue: Seq<char>) -> Seq<char> {
    let p = reopen_pattern(issue);
    if regex_compiles(p) {
        replaced_all(
            p,
            body,
            regex_captures(p, body).map_values(
                |g: Seq<Option<Seq<char>>>| reopen_rejected(g, issue),
            ),
        )
    } else {
        body
    }
}

/// The body after rejecting the reopen references of every `close`
/// resolution, in order.
pub open spec fn reopen_rejected_all(body: Seq<char>, resolved: Seq<(Seq<char>, Seq<char>, Seq<char>)>) -> Seq<
    char,
>
    decreases resolved.len(),
{
    if resolved.len() == 0 {
        body
    } else {
        let b = reopen_rejected_all(body, resolved.drop_last());
        if resolved.last().1 == "close"@ {
            reopen_rejected_text(b, resolved.last().0)
        } else {
            b
        }
    }
}

/// The resolutions that decide `close`, in order.
pub open spec fn close_decisions(resolved: Seq<(Seq<char>, Seq<char>, Seq<char>)>) -> Seq<
    (Seq<char>, Seq<char>, Seq<char>),
> {
    resolved.filter(|r: (Seq<char>, Seq<char>, Seq<char>)| r.1 == "close"@)
}

/// Only decisions to close reject reopen references: applying the
/// resolutions to a body gives what applying just those that decide `close`
/// gives.
pub proof fn lemma_only_close_decisions_reject_reopens(
    body: Seq<char>,
    resolved: Seq<(Seq<char>, Seq<char>, Seq<char>)>,
)
    ensures
        reopen_rejected_all(body, resolved) == reopen_rejected_all(body, close_decisions(resolved)),
    decreases resolved.len(),
{
    reveal(Seq::filter);
    if resolved.len() > 0 {
        lemma_only_close_decisions_reject_reopens(body, resolved.drop_last());
        let f = close_decisions(resolved.drop_last());
        if resolved.last().1 == "close"@ {
            assert(close_decisions(resolved) == f.push(resolved.last()));
            assert(f.push(resolved.last()).drop_last() =~= f);
        } else {
            assert(close_decisions(resolved) == f);
        }
    }
}

/// Resolutions that decide anything but `close` leave the body's text as it
/// is.
pub proof fn lemma_other_decisions_keep_body(body: Seq<char>, resolved: Seq<(Seq<char>, Seq<char>, Seq<char>)>)
    requires
        forall|k: int| 0 <= k < resolved.len() ==> resolved[k].1 != "close"@,
    ensures
        reopen_rejected_all(body, resolved) == body,
    decreases resolved.len(),
{
    if resolved.len() > 0 {
        lemma_other_decisions_keep_body(body, resolved.drop_last());
        assert(resolved.last() == resolved[resolved.len() - 1]);
    }
}

/// When no conflict is decided `close`, the updated body keeps the body's
/// text, reopen references included: it is the body without its old
/// decisions block, then the new block.
pub proof fn lemma_no_close_decision_keeps_reopen_references(
    body: Seq<char>,
    resolved: Seq<(Seq<char>, Seq<char>, Seq<char>)>,
    unresolved: Seq<(Seq<char>, Seq<char>)>,
)
    requires
        forall|k: int| 0 <= k < resolved.len() ==> resolved[k].1 != "close"@,
    ensures
        conflict_block_text(resolved, unresolved).len() == 0 ==> updated_body_text(body, resolved, unresolved)
            == removed_text(body, start_marker(), end_marker()),
        conflict_block_text(resolved, unresolved).len() != 0 ==> updated_body_text(body, resolved, unresolved)
            == removed_text(body, start_marker(), end_marker()) + "\n\n"@ + conflict_block_text(
            resolved,
            unresolved,
        ) + "\n"@,
{
    lemma_other_decisions_keep_body(body, resolved);
}

/// The lines of the decisions block.
pub open spec fn conflict_block_lines(
    resolved: Seq<(Seq<char>, Seq<char>, Seq<char>)>,
    unresolved: Seq<(Seq<char>, Seq<char>)>,
) -> Seq<Seq<char>> {
    let head = seq![start_marker(), "### Issue Directive Decisions"@];
    let res = if resolved.len() == 0 {
        Seq::<Seq<char>>::empty()
    } else {
        seq![""@, "Resolved decisions:"@] + resolved.map_values(
            |e: (Seq<char>, Seq<char>, Seq<char>)| "- "@ + e.0 + " => "@ + e.1 + " ("@ + e.2 + ")"@,
        )
    };
    let unres = if unresolved.len() == 0 {
        Seq::<Seq<char>>::empty()
    } else {
        seq![""@, "❌ Unresolved conflicts (merge blocked):"@] + unresolved.map_values(
            |e: (Seq<char>, Seq<char>)| "- "@ + e.0 + ": "@ + e.1,
        ) + seq![
            ""@,
            "Required decision format:"@,
            "- `Directive Decision: #<issue> => close`"@,
            "- `Directive Decision: #<issue> => reopen`"@,
        ]
    };
    head + res + unres + seq![end_marker()]
}

/// The decisions block (empty when there is nothing to report).
pub open spec fn conflict_block_text(
    resolved: Seq<(Seq<char>, Seq<char>, Seq<char>)>,
    unresolved: Seq<(Seq<char>, Seq<char>)>,
) -> Seq<char> {
    if resolved.len() == 0 && unresolved.len() == 0 {
        Seq::<char>::empty()
    } else {
        join(conflict_block_lines(resolved, unresolved), "\n"@)
    }
}

/// The updated body.
pub open spec fn updated_body_text(
    body: Seq<char>,
    resolved: Seq<(Seq<char>, Seq<char>, Seq<char>)>,
    unresolved: Seq<(Seq<char>, Seq<char>)>,
) -> Seq<char> {
    let clean = removed_text(reopen_rejected_all(body, resolved), start_marker(), end_marker());
    let block = conflict_block_text(resolved, unresolved);
    if block.len() == 0 {
        clean
    } else {
        clean + "\n\n"@ + block + "\n"@
    }
}

/// Rejects the reopen references to `issue`.
pub fn reject_reopen_issue(body: &str, issue: &str) -> (r: String)
    ensures
        r@ == reopen_rejected_text(body@, issue@),
{
    let pattern = concat3(
        "(?i)\\b(reopen|reopens)\\b(\\s+)(rejected\\s+)?([^\\s]*",
        escape(issue).as_str(),
        ")\\b",
    );
    let (gaps, caps) = match (gaps_all(pattern.as_str(), body), captures_all(pattern.as_str(), body)) {
        (Ok(g), Ok(c)) => (g, c),
        _ => {
            return copy_str(body);
        },
    };
    let ghost cv = captures_view(caps@);
    let ghost want = cv.map_values(|g: Seq<Option<Seq<char>>>| reopen_rejected(g, issue@));
    let mut reps: Vec<String> = Vec::new();
    let mut j: usize = 0;
    while j < caps.len()
        invariant
            j <= caps.len(),
            cv == captures_view(caps@),
            want == cv.map_values(|g: Seq<Option<Seq<char>>>| reopen_rejected(g, issue@)),
            strings_view(reps@) == want.take(j as int),
        decreases caps.len() - j,
    {
        let g = &caps[j];
        assert(cv[j as int] == groups_view(*g));
        let keyword = match group_at(g, 1) {
            Some(s) => s,
            None => copy_str("reopen"),
        };
        let whitespace = match group_at(g, 2) {
            Some(s) => s,
            None => copy_str(" "),
        };
        let reference = match group_at(g, 4) {
            Some(s) => s,
            None => copy_str(issue),
        };
        let mut line = concat3(keyword.as_str(), whitespace.as_str(), "rejected ");
        line.append(reference.as_str());
        push_string(&mut reps, line);
        j += 1;
        assert(want.take(j as int) =~= want.take(j - 1).push(reopen_rejected(cv[j - 1], issue@)));
    }
    assert(want.take(caps.len() as int) =~= want);
    splice_strings(&gaps, &reps)
}

/// Removes the decisions block.
pub fn remove_conflict_block(body: &str) -> (r: String)
    ensures
        r@ == removed_text(body@, start_marker(), end_marker()),
{
    ManagedBodyBlock::remove(
        body,
        "<!-- directive-conflicts:start -->",
        "<!-- directive-conflicts:end -->",
    )
}

/// The decisions block for a report.
pub fn build_conflict_block(report: &DirectiveReport) -> (r: String)
    ensures
        r@ == conflict_block_text(
            resolutions_view(report.resolved@),
            conflicts_view(report.unresolved@),
        ),
{
    let ghost rv = resolutions_view(report.resolved@);
    let ghost uv = conflicts_view(report.unresolved@);
    if report.resolved.len() == 0 && report.unresolved.len() == 0 {
        return String::new();
    }
    let mut lines: Vec<String> = Vec::new();
    push_line(&mut lines, "<!-- directive-conflicts:start -->");
    push_line(&mut lines, "### Issue Directive Decisions");
    let ghost head = strings_view(lines@);
    if report.resolved.len() > 0 {
        push_line(&mut lines, "");
        push_line(&mut lines, "Resolved decisions:");
        let ghost base = strings_view(lines@);
        let mut i: usize = 0;
        while i < report.resolved.len()
            invariant
                i <= report.resolved.len(),
                rv == resolutions_view(report.resolved@),
                strings_view(lines@) == base + rv.take(i as int).map_values(
                    |e: (Seq<char>, Seq<char>, Seq<char>)|
                        "- "@ + e.0 + " => "@ + e.1 + " ("@ + e.2 + ")"@,
                ),
            decreases report.resolved.len() - i,
        {
            let e = &report.resolved[i];
            let mut line = concat3("- ", e.issue.as_str(), " => ");
            line.append(e.decision.as_str());
            line.append(" (");
            line.append(e.origin.as_str());
            line.append(")");
            push_string(&mut lines, line);
            i += 1;
            assert(rv.take(i as int).map_values(
                |e: (Seq<char>, Seq<char>, Seq<char>)|
                    "- "@ + e.0 + " => "@ + e.1 + " ("@ + e.2 + ")"@,
            ) =~= rv.take(i - 1).map_values(
                |e: (Seq<char>, Seq<char>, Seq<char>)|
                    "- "@ + e.0 + " => "@ + e.1 + " ("@ + e.2 + ")"@,
            ).push("- "@ + rv[i - 1].0 + " => "@ + rv[i - 1].1 + " ("@ + rv[i - 1].2 + ")"@));
        }
        assert(rv.take(report.resolved.len() as int) =~= rv);
    }
    let ghost mid = strings_view(lines@);
    if report.unresolved.len() > 0 {
        push_line(&mut lines, "");
        push_line(&mut lines, "❌ Unresolved conflicts (merge blocked):");
        let ghost base = strings_view(lines@);
        let mut i: usize = 0;
        while i < report.unresolved.len()
            invariant
                i <= report.unresolved.len(),
                uv == conflicts_view(report.unresolved@),
                strings_view(lines@) == base + uv.take(i as int).map_values(
                    |e: (Seq<char>, Seq<char>)| "- "@ + e.0 + ": "@ + e.1,
                ),
            decreases report.unresolved.len() - i,
        {
            let e = &report.unresolved[i];
            let mut line = concat3("- ", e.issue.as_str(), ": ");
            line.append(e.reason.as_str());
            push_string(&mut lines, line);
            i += 1;
            assert(uv.take(i as int).map_values(|e: (Seq<char>, Seq<char>)| "- "@ + e.0 + ": "@ + e.1)
                =~= uv.take(i - 1).map_values(
                |e: (Seq<char>, Seq<char>)| "- "@ + e.0 + ": "@ + e.1,
            ).push("- "@ + uv[i - 1].0 + ": "@ + uv[i - 1].1));
        }
        assert(uv.take(report.unresolved.len() as int) =~= uv);
        push_line(&mut lines, "");
        push_line(&mut lines, "Required decision format:");
        push_line(&mut lines, "- `Directive Decision: #<issue> => close`");
        push_line(&mut lines, "- `Directive Decision: #<issue> => reopen`");
    }
    push_line(&mut lines, "<!-- directive-conflicts:end -->");
    assert(strings_view(lines@) =~= conflict_block_lines(rv, uv));
    assert(lines@.map_values(|p: String| p@) =~= strings_view(lines@));
    join_strings(&lines, "\n")
}

// ---------------------------------------------------------------------------
// The run
// ---------------------------------------------------------------------------

/// The repository and pull request of a run.
pub struct GuardContext {
    pub repo: String,
    pub pr_number: String,
}

/// The view of a run's context.
pub struct GCtx {
    pub repo: Seq<char>,
    pub pr: Seq<char>,
}

impl View for GuardContext {
    type V = GCtx;

    open spec fn view(&self) -> GCtx {
        GCtx { repo: self.repo@, pr: self.pr_number@ }
    }
}

/// Where a run stands.
pub enum ConflictAt {
    Start,
    /// The body was asked.
    Body(GuardContext),
    /// The commit messages were asked; the body follows.
    Commits(GuardContext, String),
    /// The new body was sent; whether conflicts are open and whether some
    /// were settled follow.
    Updating(GuardContext, bool, bool),
    /// The comments were asked; the status comment and whether the run fails
    /// follow.
    Comments(GuardContext, String, bool),
    /// The status comment was written; whether the run fails follows.
    Writing(GuardContext, bool),
    /// The last message was printed.
    Ending,
}

/// The view of where a run stands.
pub enum ConflictState {
    Start,
    Body(GCtx),
    Commits(GCtx, Seq<char>),
    Updating(GCtx, bool, bool),
    Comments(GCtx, Seq<char>, bool),
    Writing(GCtx, bool),
    Ending,
}

impl View for ConflictAt {
    type V = ConflictState;

    open spec fn view(&self) -> ConflictState {
        match self {
            ConflictAt::Start => ConflictState::Start,
            ConflictAt::Body(c) => ConflictState::Body(c@),
            ConflictAt::Commits(c, b) => ConflictState::Commits(c@, b@),
            ConflictAt::Updating(c, u, r) => ConflictState::Updating(c@, *u, *r),
            ConflictAt::Comments(c, m, f) => ConflictState::Comments(c@, m@, *f),
            ConflictAt::Writing(c, f) => ConflictState::Writing(c@, *f),
            ConflictAt::Ending => ConflictState::Ending,
        }
    }
}

/// `<!-- directive-conflict-guard:<n> -->`.
pub open spec fn guard_marker(pr: Seq<char>) -> Seq<char> {
    "<!-- directive-conflict-guard:"@ + pr + " -->"@
}

/// The comment for open conflicts.
pub open spec fn unresolved_comment(pr: Seq<char>) -> Seq<char> {
    guard_marker(pr)
        + "\n### Directive Conflict Guard\n\n❌ Unresolved Closes/Reopen conflicts detected. Add explicit directive decisions in PR body."@
}

/// The comment for settled conflicts.
pub open spec fn resolved_comment(pr: Seq<char>) -> Seq<char> {
    guard_marker(pr) + "\n### Directive Conflict Guard\n\n✅ Directive conflicts resolved via explicit decisions."@
}

/// The last message of a run.
pub open spec fn guard_done(c: GCtx) -> (ConflictState, Act) {
    (ConflictState::Ending, Act::Print("Directive conflict guard evaluated for PR #"@ + c.pr + "."@))
}

/// Reporting on the pull request once its body is settled: a failing
/// comment for open conflicts, a success comment when some were settled.
pub open spec fn verdict_step(c: GCtx, unresolved: bool, resolved: bool) -> (ConflictState, Act) {
    if unresolved {
        (ConflictState::Comments(c, unresolved_comment(c.pr), true), Act::Gh(comments_args(c.repo, c.pr), GhExpect::JsonLines))
    } else if resolved {
        (ConflictState::Comments(c, resolved_comment(c.pr), false), Act::Gh(comments_args(c.repo, c.pr), GhExpect::JsonLines))
    } else {
        guard_done(c)
    }
}

/// After the report: write the body when it changes, then report.
pub open spec fn after_report(
    c: GCtx,
    body: Seq<char>,
    resolved: Seq<(Seq<char>, Seq<char>, Seq<char>)>,
    unresolved: Seq<(Seq<char>, Seq<char>)>,
) -> (ConflictState, Act) {
    let updated = updated_body_text(body, resolved, unresolved);
    if updated != body {
        (
            ConflictState::Updating(c, unresolved.len() > 0, resolved.len() > 0),
            Act::Gh(edit_body_args(c.repo, c.pr, updated), GhExpect::Output),
        )
    } else {
        verdict_step(c, unresolved.len() > 0, resolved.len() > 0)
    }
}

/// The text searched for directives: the body and the commit messages.
pub open spec fn guard_payload(body: Seq<char>, messages: Seq<Seq<char>>) -> Seq<char> {
    join(seq![body, join(messages, "\n"@)], "\n"@)
}

/// The next state and action of a run, except after the commit messages.
pub open spec fn conflict_next(
    args: Seq<Seq<char>>,
    gh_repo: Option<Seq<char>>,
    github_repository: Option<Seq<char>>,
    at: ConflictState,
    reply: Reply,
) -> (ConflictState, Act) {
    match at {
        ConflictState::Start => match repo_choice(args, gh_repo, github_repository) {
            Err(e) => (at, failed(e)),
            Ok(repo) => match flag_reference(args, "--pr"@, Some(ReferenceKind::PullRequest)) {
                None => (at, failed("Invalid or missing pr."@)),
                Some(pr) => {
                    let c = GCtx { repo, pr: decimal(pr.value as nat) };
                    (ConflictState::Body(c), Act::Gh(pr_field_args(c.repo, c.pr, "body"@), GhExpect::Output))
                },
            },
        },
        ConflictState::Body(c) => match reply {
            Reply::Text(Ok(body)) => (ConflictState::Commits(c, body@), Act::Gh(pr_commits_args(c.repo, c.pr), GhExpect::Output)),
            Reply::Text(Err(e)) => (at, failed(e@)),
            _ => (at, failed(unexpected_reply())),
        },
        ConflictState::Commits(c, body) => match reply {
            Reply::Text(Err(e)) => (at, failed(e@)),
            _ => (at, failed(unexpected_reply())),
        },
        ConflictState::Updating(c, unresolved, resolved) => match reply {
            Reply::Text(Ok(_)) => verdict_step(c, unresolved, resolved),
            Reply::Text(Err(e)) => (at, failed(e@)),
            _ => (at, failed(unexpected_reply())),
        },
        ConflictState::Comments(c, comment, failing) => match reply {
            Reply::JsonLines(Ok(values)) => (
                ConflictState::Writing(c, failing),
                Act::Gh(upsert_args(comments_of(values@), c.repo, c.pr, guard_marker(c.pr), comment), GhExpect::Output),
            ),
            Reply::JsonLines(Err(e)) => (at, failed(e@)),
            _ => (at, failed(unexpected_reply())),
        },
        ConflictState::Writing(c, failing) => match reply {
            Reply::Text(Ok(_)) => if failing {
                (at, failed("Unresolved directive conflicts detected for PR #"@ + c.pr + "."@))
            } else {
                guard_done(c)
            },
            Reply::Text(Err(e)) => (at, failed(e@)),
            _ => (at, failed(unexpected_reply())),
        },
        ConflictState::Ending => (at, succeeded()),
    }
}

/// Whether `(next, act)` may follow the commit messages `out`: the report is
/// built from the body and the messages, its conflicts ordered by number
/// (equal numbers in any order).
pub open spec fn commits_step(c: GCtx, body: Seq<char>, out: Seq<char>, next: ConflictState, act: Act) -> bool {
    let messages = nonempty_lines(lines(out));
    let payload = guard_payload(body, messages);
    if !regex_compiles(DIRECTIVE_DECISION@) {
        next == ConflictState::Commits(c, body) && act == failed(
            "Directive regex failed: "@ + regex_error_text(DIRECTIVE_DECISION@),
        )
    } else if !regex_compiles(ISSUE_DIRECTIVE_EVENT@) {
        next == ConflictState::Commits(c, body) && act == failed(
            "Event regex failed: "@ + regex_error_text(ISSUE_DIRECTIVE_EVENT@),
        )
    } else {
        exists|resolved: Seq<(Seq<char>, Seq<char>, Seq<char>)>, unresolved: Seq<(Seq<char>, Seq<char>)>|
            report_matches(
                resolved,
                unresolved,
                regex_captures(DIRECTIVE_DECISION@, payload),
                regex_captures(ISSUE_DIRECTIVE_EVENT@, payload),
                source_branch_count(messages),
            ) && (next, act) == after_report(c, body, resolved, unresolved)
    }
}

/// Whether `(next, act)` is a step the run may take: after the commit
/// messages the report is built from the body and the messages, and its
/// conflicts are ordered by number (equal numbers in any order).
pub open spec fn conflict_step(
    args: Seq<Seq<char>>,
    gh_repo: Option<Seq<char>>,
    github_repository: Option<Seq<char>>,
    at: ConflictState,
    reply: Reply,
    next: ConflictState,
    act: Act,
) -> bool {
    match at {
        ConflictState::Commits(c, body) => match reply {
            Reply::Text(Ok(out)) => commits_step(c, body, out@, next, act),
            _ => (next, act) == conflict_next(args, gh_repo, github_repository, at, reply),
        },
        _ => (next, act) == conflict_next(args, gh_repo, github_repository, at, reply),
    }
}

impl PrDirectiveConflictGuard {
    fn verdict(&self, c: GuardContext, unresolved: bool, resolved: bool) -> (r: (ConflictAt, Action))
        ensures
            (r.0@, r.1@) == verdict_step(c@, unresolved, resolved),
    {
        if unresolved || resolved {
            let mut m = concat3("<!-- directive-conflict-guard:", c.pr_number.as_str(), " -->");
            if unresolved {
                m.append(
                    "\n### Directive Conflict Guard\n\n❌ Unresolved Closes/Reopen conflicts detected. Add explicit directive decisions in PR body.",
                );
            } else {
                m.append("\n### Directive Conflict Guard\n\n✅ Directive conflicts resolved via explicit decisions.");
            }
            let call = GitHubCli.issue_comments_call(c.repo.as_str(), c.pr_number.as_str());
            return (ConflictAt::Comments(c, m, unresolved), gh(call));
        }
        let m = concat3("Directive conflict guard evaluated for PR #", c.pr_number.as_str(), ".");
        (ConflictAt::Ending, Action::Print(m))
    }

    fn after_commits(&self, c: GuardContext, body: String, out: String) -> (r: (ConflictAt, Action))
        ensures
            commits_step(c@, body@, out@, r.0@, r.1@),
    {
        let github = GitHubCli;
        let messages = github.read_pull_request_commit_messages(out.as_str());
        let mut parts: Vec<String> = Vec::new();
        parts.push(copy_str(body.as_str()));
        parts.push(join_strings(&messages, "\n"));
        assert(messages@.map_values(|p: String| p@) =~= strings_view(messages@));
        assert(strings_view(parts@) =~= seq![body@, join(strings_view(messages@), "\n"@)]);
        let payload = crate::reference::ReferenceText::build_payload(&parts);
        let count = Self::count_source_branches(&messages);
        match Self::build_report(payload.as_str(), count) {
            Err(e) => (ConflictAt::Commits(c, body), fail(e)),
            Ok(report) => {
                let ghost rv = resolutions_view(report.resolved@);
                let ghost cv = conflicts_view(report.unresolved@);
                let ghost cc = c@;
                let ghost bv = body@;
                let updated = Self::update_pr_body(body.as_str(), &report);
                let unresolved = report.unresolved.len() > 0;
                let resolved = report.resolved.len() > 0;
                assert(rv.len() == report.resolved@.len());
                assert(cv.len() == report.unresolved@.len());
                let res = if !str_eq(updated.as_str(), body.as_str()) {
                    let call = github.update_pull_request_body(
                        c.repo.as_str(),
                        c.pr_number.as_str(),
                        updated.as_str(),
                    );
                    (ConflictAt::Updating(c, unresolved, resolved), gh(call))
                } else {
                    self.verdict(c, unresolved, resolved)
                };
                assert((res.0@, res.1@) == after_report(cc, bv, rv, cv));
                proof {
                    let ghost msgs = nonempty_lines(lines(out@));
                    let ghost pl = guard_payload(bv, msgs);
                    assert(payload@ == pl);
                    assert(report_matches(
                        rv,
                        cv,
                        regex_captures(DIRECTIVE_DECISION@, pl),
                        regex_captures(ISSUE_DIRECTIVE_EVENT@, pl),
                        source_branch_count(msgs),
                    ));
                    assert(exists|a: Seq<(Seq<char>, Seq<char>, Seq<char>)>, b: Seq<(Seq<char>, Seq<char>)>|
                        report_matches(
                            a,
                            b,
                            regex_captures(DIRECTIVE_DECISION@, pl),
                            regex_captures(ISSUE_DIRECTIVE_EVENT@, pl),
                            source_branch_count(msgs),
                        ) && (res.0@, res.1@) == after_report(cc, bv, a, b));
                }
                res
            },
        }
    }

    /// One step of the run on the pull request named by `--pr`: builds the
    /// report of its Closes/Reopen conflicts from its body and commit
    /// messages, writes the settled decisions into the body, and reports on
    /// the pull request; open conflicts fail the run. `gh_repo` and
    /// `github_repository` are the environment's `GH_REPO` and
    /// `GITHUB_REPOSITORY`.
    pub fn run(
        &self,
        gh_repo: Option<String>,
        github_repository: Option<String>,
        at: ConflictAt,
        reply: Reply,
    ) -> (r: (ConflictAt, Action))
        ensures
            conflict_step(
                args_view(self.args.args@),
                opt_string_view(gh_repo),
                opt_string_view(github_repository),
                at@,
                reply,
                r.0@,
                r.1@,
            ),
    {
        let github = GitHubCli;
        match at {
            ConflictAt::Start => {
                let repo = match self.args.resolve_repo(gh_repo, github_repository) {
                    Ok(r) => r,
                    Err(e) => {
                        return (ConflictAt::Start, fail(e));
                    },
                };
                let pr = match self.args.resolve_pull_request_number("--pr") {
                    Ok(p) => p,
                    Err(e) => {
                        return (ConflictAt::Start, fail(e));
                    },
                };
                let c = GuardContext { repo, pr_number: pr.as_string() };
                let call = github.read_pull_request_field(c.repo.as_str(), c.pr_number.as_str(), "body");
                (ConflictAt::Body(c), gh(call))
            },
            ConflictAt::Body(c) => match reply {
                Reply::Text(Ok(body)) => {
                    let call = github.pull_request_commits_call(c.repo.as_str(), c.pr_number.as_str());
                    (ConflictAt::Commits(c, body), gh(call))
                },
                Reply::Text(Err(e)) => (ConflictAt::Body(c), fail(e)),
                _ => (ConflictAt::Body(c), fail_unexpected()),
            },
            ConflictAt::Commits(c, body) => match reply {
                Reply::Text(Ok(out)) => self.after_commits(c, body, out),
                Reply::Text(Err(e)) => (ConflictAt::Commits(c, body), fail(e)),
                _ => (ConflictAt::Commits(c, body), fail_unexpected()),
            },
            ConflictAt::Updating(c, unresolved, resolved) => match reply {
                Reply::Text(Ok(_)) => self.verdict(c, unresolved, resolved),
                Reply::Text(Err(e)) => (ConflictAt::Updating(c, unresolved, resolved), fail(e)),
                _ => (ConflictAt::Updating(c, unresolved, resolved), fail_unexpected()),
            },
            ConflictAt::Comments(c, comment, failing) => match reply {
                Reply::JsonLines(Ok(values)) => {
                    let comments = github.read_comment_summaries(&values);
                    let marker = concat3("<!-- directive-conflict-guard:", c.pr_number.as_str(), " -->");
                    let call = github.upsert_issue_comment_by_marker(
                        &comments,
                        c.repo.as_str(),
                        c.pr_number.as_str(),
                        marker.as_str(),
                        comment.as_str(),
                    );
                    (ConflictAt::Writing(c, failing), gh(call))
                },
                Reply::JsonLines(Err(e)) => (ConflictAt::Comments(c, comment, failing), fail(e)),
                _ => (ConflictAt::Comments(c, comment, failing), fail_unexpected()),
            },
            ConflictAt::Writing(c, failing) => match reply {
                Reply::Text(Ok(_)) => {
                    if failing {
                        let m = concat3("Unresolved directive conflicts detected for PR #", c.pr_number.as_str(), ".");
                        return (ConflictAt::Writing(c, failing), fail(m));
                    }
                    let m = concat3("Directive conflict guard evaluated for PR #", c.pr_number.as_str(), ".");
                    (ConflictAt::Ending, Action::Print(m))
                },
                Reply::Text(Err(e)) => (ConflictAt::Writing(c, failing), fail(e)),
                _ => (ConflictAt::Writing(c, failing), fail_unexpected()),
            },
            ConflictAt::Ending => (ConflictAt::Ending, crate::workflow::finish_ok()),
        }
    }
}

} // verus!
