//! The generated pull-request description: issue outcomes, key changes and
//! change footprint sections, and the body that holds them.

use vstd::prelude::*;

use crate::directives::{
    decision_for, directive_sets, explicit_decisions, keys_filter, keys_view, lookup_decision,
    ordered_by_number, pairs_view, sort_by_issue_number, ParsedPrDirectives, PrDirective,
};
use crate::patterns::{
    captures_all, captures_view, group, regex_captures, regex_compiles, regex_error_text,
    strings_view, DIRECTIVE_DECISION, ISSUE_DIRECTIVE_EVENT,
};
use crate::text::{
    before_first, before_first_chars, chars_of, concat2, contains, contains_str, copy_str,
    ends_with, ends_with_str, join, join_strings, lower, lower_chars, split_on, split_on_char,
    starts_with, starts_with_str, str_eq, string_of, trim, trim_chars, trim_end, trim_end_str,
};

verus! {

// ---------------------------------------------------------------------------
// Building lists of lines
// ---------------------------------------------------------------------------

/// Each item behind a prefix.
pub open spec fn bullets(prefix: Seq<char>, items: Seq<Seq<char>>) -> Seq<Seq<char>> {
    items.map_values(|i: Seq<char>| prefix + i)
}

/// The lines, or the note alone when there are none.
pub open spec fn or_note(lines: Seq<Seq<char>>, note: Seq<char>) -> Seq<Seq<char>> {
    if lines.len() == 0 {
        seq![note]
    } else {
        lines
    }
}

/// Appends one line.
pub fn push_line(lines: &mut Vec<String>, s: &str)
    ensures
        strings_view(final(lines)@) == strings_view(old(lines)@).push(s@),
{
    let ghost before = strings_view(lines@);
    lines.push(copy_str(s));
    assert(strings_view(lines@) =~= before.push(s@));
}

/// Appends one line given as a string.
pub fn push_string(lines: &mut Vec<String>, s: String)
    ensures
        strings_view(final(lines)@) == strings_view(old(lines)@).push(s@),
{
    let ghost before = strings_view(lines@);
    let ghost sv = s@;
    lines.push(s);
    assert(strings_view(lines@) =~= before.push(sv));
}

/// Appends `prefix + item` for each item, or the note when there are none.
pub fn push_bullets(lines: &mut Vec<String>, prefix: &str, items: &Vec<String>, note: &str)
    ensures
        strings_view(final(lines)@) == strings_view(old(lines)@) + or_note(
            bullets(prefix@, strings_view(items@)),
            note@,
        ),
{
    let ghost start = strings_view(lines@);
    let ghost iv = strings_view(items@);
    if items.len() == 0 {
        push_line(lines, note);
        assert(strings_view(lines@) =~= start + seq![note@]);
        return;
    }
    let mut i: usize = 0;
    while i < items.len()
        invariant
            i <= items.len(),
            iv == strings_view(items@),
            strings_view(lines@) == start + bullets(prefix@, iv.take(i as int)),
        decreases items.len() - i,
    {
        push_string(lines, concat2(prefix, items[i].as_str()));
        i += 1;
        assert(bullets(prefix@, iv.take(i as int)) =~= bullets(prefix@, iv.take(i - 1)).push(
            prefix@ + iv[i - 1],
        ));
    }
    assert(iv.take(items.len() as int) =~= iv);
}

// ---------------------------------------------------------------------------
// Issue outcomes
// ---------------------------------------------------------------------------

/// The action a decision stands for.
pub open spec fn decision_action(d: Seq<char>) -> Seq<char> {
    if d == "close"@ {
        "Closes"@
    } else {
        "Reopen"@
    }
}

/// The line of an auto-resolved conflict.
pub open spec fn resolved_line(p: (Seq<char>, Seq<char>)) -> Seq<char> {
    "- "@ + decision_action(p.1) + " "@ + p.0 + " - Resolved via directive decision => "@ + p.1
        + "."@
}

/// The line of an unresolved conflict.
pub open spec fn unresolved_line(issue: Seq<char>) -> Seq<char> {
    "- "@ + issue + ": Closes + Reopen detected without explicit decision."@
}

/// The conflicts that have an explicit decision, with it, in order.
pub open spec fn resolved_of(q: Seq<Seq<char>>, explicit: Seq<(Seq<char>, Seq<char>)>) -> Seq<
    (Seq<char>, Seq<char>),
>
    decreases q.len(),
{
    if q.len() == 0 {
        Seq::<(Seq<char>, Seq<char>)>::empty()
    } else {
        let rest = resolved_of(q.drop_last(), explicit);
        match decision_for(explicit, q.last()) {
            Some(d) => rest.push((q.last(), d)),
            None => rest,
        }
    }
}

/// The conflicts without an explicit decision, in order.
pub open spec fn unresolved_of(q: Seq<Seq<char>>, explicit: Seq<(Seq<char>, Seq<char>)>) -> Seq<
    Seq<char>,
>
    decreases q.len(),
{
    if q.len() == 0 {
        Seq::<Seq<char>>::empty()
    } else {
        let rest = unresolved_of(q.drop_last(), explicit);
        match decision_for(explicit, q.last()) {
            Some(d) => rest,
            None => rest.push(q.last()),
        }
    }
}

/// The lines of the issue outcomes section.
pub open spec fn outcome_lines(
    close_only: Seq<Seq<char>>,
    reopen_only: Seq<Seq<char>>,
    resolved: Seq<(Seq<char>, Seq<char>)>,
    unresolved: Seq<Seq<char>>,
) -> Seq<Seq<char>> {
    seq!["#### Category 1: Issues Without Conflicts"@, ""@, "##### Closes/Fixes"@, ""@]
        + or_note(
        bullets("- Closes "@, close_only),
        "- No resolved issues detected via GitHub references or PR body keywords."@,
    ) + seq![""@, "##### Reopened"@, ""@] + or_note(
        bullets("- Reopen "@, reopen_only),
        "- No reopened issues detected."@,
    ) + seq![""@, "#### Category 2: Issues With Conflicts"@, ""@, "##### Auto-resolved"@, ""@]
        + or_note(
        resolved.map_values(|p: (Seq<char>, Seq<char>)| resolved_line(p)),
        "- No auto-resolved directive conflicts."@,
    ) + seq![""@, "##### Not resolved"@, ""@] + or_note(
        unresolved.map_values(|i: Seq<char>| unresolved_line(i)),
        "- No unresolved directive conflicts."@,
    )
}

/// `out` is the issue outcomes section for the given directives: conflicts
/// (issues both closed and reopened), close-only and reopen-only issues each
/// listed by number (equal numbers in any order).
pub open spec fn outcomes_text(
    out: Seq<char>,
    explicit: Seq<(Seq<char>, Seq<char>)>,
    closing: Seq<Seq<char>>,
    reopening: Seq<Seq<char>>,
) -> bool {
    exists|q: Seq<Seq<char>>, co: Seq<Seq<char>>, ro: Seq<Seq<char>>|
        #![trigger outcome_lines(co, ro, resolved_of(q, explicit), unresolved_of(q, explicit))]
        {
            &&& ordered_by_number(q, crate::directives::keys_where(closing, reopening, true))
            &&& ordered_by_number(co, crate::directives::keys_where(closing, reopening, false))
            &&& ordered_by_number(ro, crate::directives::keys_where(reopening, closing, false))
            &&& out == join(
                outcome_lines(co, ro, resolved_of(q, explicit), unresolved_of(q, explicit)),
                "\n"@,
            )
        }
}

/// Splits sorted conflicts into those with an explicit decision and the rest.
fn split_conflicts(q: &Vec<String>, explicit: &Vec<(String, String)>) -> (r: (
    Vec<(String, String)>,
    Vec<String>,
))
    ensures
        pairs_view(r.0@) == resolved_of(keys_view(q@), pairs_view(explicit@)),
        keys_view(r.1@) == unresolved_of(keys_view(q@), pairs_view(explicit@)),
{
    let ghost qv = keys_view(q@);
    let ghost ev = pairs_view(explicit@);
    let mut resolved: Vec<(String, String)> = Vec::new();
    let mut unresolved: Vec<String> = Vec::new();
    let mut i: usize = 0;
    while i < q.len()
        invariant
            i <= q.len(),
            qv == keys_view(q@),
            ev == pairs_view(explicit@),
            pairs_view(resolved@) == resolved_of(qv.take(i as int), ev),
            keys_view(unresolved@) == unresolved_of(qv.take(i as int), ev),
        decreases q.len() - i,
    {
        assert(qv.take(i + 1).drop_last() =~= qv.take(i as int));
        assert(qv.take(i + 1).last() == qv[i as int]);
        let ghost r0 = pairs_view(resolved@);
        let ghost u0 = keys_view(unresolved@);
        match lookup_decision(explicit, q[i].as_str()) {
            Some(d) => {
                let ghost dv = d@;
                resolved.push((q[i].clone(), d));
                assert(pairs_view(resolved@) =~= r0.push((qv[i as int], dv)));
            },
            None => {
                unresolved.push(q[i].clone());
                assert(keys_view(unresolved@) =~= u0.push(qv[i as int]));
            },
        }
        i += 1;
    }
    assert(qv.take(q.len() as int) =~= qv);
    (resolved, unresolved)
}

/// The action word of a decision.
fn decision_action_str(d: &str) -> (r: &'static str)
    ensures
        r@ == decision_action(d@),
{
    if str_eq(d, "close") {
        "Closes"
    } else {
        "Reopen"
    }
}

/// The issue outcomes section for parsed directives.
#[verifier::spinoff_prover]
#[verifier::rlimit(40)]
pub fn outcomes_section(parsed: &ParsedPrDirectives) -> (r: String)
    ensures
        outcomes_text(
            r@,
            pairs_view(parsed.explicit@),
            keys_view(parsed.closing@),
            keys_view(parsed.reopening@),
        ),
{
    let conflicts = sort_by_issue_number(keys_filter(&parsed.closing, &parsed.reopening, true));
    let close_only = sort_by_issue_number(keys_filter(&parsed.closing, &parsed.reopening, false));
    let reopen_only = sort_by_issue_number(keys_filter(&parsed.reopening, &parsed.closing, false));
    let (resolved, unresolved) = split_conflicts(&conflicts, &parsed.explicit);
    let ghost ev = pairs_view(parsed.explicit@);
    let ghost rv = resolved_of(keys_view(conflicts@), ev);
    let ghost uv = unresolved_of(keys_view(conflicts@), ev);

    let mut lines: Vec<String> = Vec::new();
    push_line(&mut lines, "#### Category 1: Issues Without Conflicts");
    push_line(&mut lines, "");
    push_line(&mut lines, "##### Closes/Fixes");
    push_line(&mut lines, "");
    push_bullets(
        &mut lines,
        "- Closes ",
        &close_only,
        "- No resolved issues detected via GitHub references or PR body keywords.",
    );
    push_line(&mut lines, "");
    push_line(&mut lines, "##### Reopened");
    push_line(&mut lines, "");
    push_bullets(&mut lines, "- Reopen ", &reopen_only, "- No reopened issues detected.");
    push_line(&mut lines, "");
    push_line(&mut lines, "#### Category 2: Issues With Conflicts");
    push_line(&mut lines, "");
    push_line(&mut lines, "##### Auto-resolved");
    push_line(&mut lines, "");
    let ghost mid = strings_view(lines@);
    if resolved.len() == 0 {
        push_line(&mut lines, "- No auto-resolved directive conflicts.");
        assert(rv.len() == 0);
        assert(strings_view(lines@) =~= mid + or_note(
            rv.map_values(|p: (Seq<char>, Seq<char>)| resolved_line(p)),
            "- No auto-resolved directive conflicts."@,
        ));
    } else {
        let mut i: usize = 0;
        while i < resolved.len()
            invariant
                i <= resolved.len(),
                pairs_view(resolved@) == rv,
                strings_view(lines@) == mid + rv.take(i as int).map_values(
                    |p: (Seq<char>, Seq<char>)| resolved_line(p),
                ),
            decreases resolved.len() - i,
        {
            let issue = resolved[i].0.as_str();
            let decision = resolved[i].1.as_str();
            let mut line = concat2("- ", decision_action_str(decision));
            line.append(" ");
            line.append(issue);
            line.append(" - Resolved via directive decision => ");
            line.append(decision);
            line.append(".");
            push_string(&mut lines, line);
            i += 1;
            assert(rv.take(i as int).map_values(|p: (Seq<char>, Seq<char>)| resolved_line(p))
                =~= rv.take(i - 1).map_values(|p: (Seq<char>, Seq<char>)| resolved_line(p)).push(
                resolved_line(rv[i - 1]),
            ));
        }
        assert(rv.take(resolved.len() as int) =~= rv);
    }
    push_line(&mut lines, "");
    push_line(&mut lines, "##### Not resolved");
    push_line(&mut lines, "");
    let ghost mid2 = strings_view(lines@);
    if unresolved.len() == 0 {
        push_line(&mut lines, "- No unresolved directive conflicts.");
        assert(strings_view(lines@) =~= mid2 + or_note(
            uv.map_values(|i: Seq<char>| unresolved_line(i)),
            "- No unresolved directive conflicts."@,
        ));
    } else {
        let mut i: usize = 0;
        while i < unresolved.len()
            invariant
                i <= unresolved.len(),
                keys_view(unresolved@) == uv,
                strings_view(lines@) == mid2 + uv.take(i as int).map_values(
                    |x: Seq<char>| unresolved_line(x),
                ),
            decreases unresolved.len() - i,
        {
            let mut line = concat2("- ", unresolved[i].as_str());
            line.append(": Closes + Reopen detected without explicit decision.");
            push_string(&mut lines, line);
            i += 1;
            assert(uv.take(i as int).map_values(|x: Seq<char>| unresolved_line(x)) =~= uv.take(
                i - 1,
            ).map_values(|x: Seq<char>| unresolved_line(x)).push(unresolved_line(uv[i - 1])));
        }
        assert(uv.take(unresolved.len() as int) =~= uv);
    }
    let out = join_strings(&lines, "\n");
    proof {
        let q = keys_view(conflicts@);
        let co = keys_view(close_only@);
        let ro = keys_view(reopen_only@);
        assert(strings_view(close_only@) == co);
        assert(strings_view(reopen_only@) == ro);
        assert(strings_view(lines@) =~= outcome_lines(co, ro, rv, uv));
        assert(lines@.map_values(|p: String| p@) =~= strings_view(lines@));
        assert(outcome_lines(co, ro, resolved_of(q, ev), unresolved_of(q, ev)) == outcome_lines(
            co,
            ro,
            rv,
            uv,
        ));
    }
    out
}

/// `out` is the issue outcomes section of a payload.
pub open spec fn payload_outcomes(out: Seq<char>, payload: Seq<char>) -> bool {
    let sets = directive_sets(regex_captures(ISSUE_DIRECTIVE_EVENT@, payload));
    outcomes_text(
        out,
        explicit_decisions(regex_captures(DIRECTIVE_DECISION@, payload)),
        sets.0,
        sets.1,
    )
}

// ---------------------------------------------------------------------------
// Key changes
// ---------------------------------------------------------------------------

/// A commit of a pull request.
pub struct PullRequestCommit {
    pub sha: String,
    pub message: String,
}

/// The subject of a commit message: its first line, cut before a literal
/// `\n` escape, trimmed.
pub open spec fn commit_subject_of(message: Seq<char>) -> Seq<char> {
    trim(before_first(split_on(message, '\n')[0], seq!['\\', 'n']))
}

/// The subject of a commit message.
pub fn commit_subject(message: &str) -> (r: String)
    ensures
        r@ == commit_subject_of(message@),
{
    let m = chars_of(message);
    let parts = split_on_char(&m, '\n');
    proof {
        crate::text::lemma_split_nonempty(m@, '\n');
    }
    let first = &parts[0];
    let escape: Vec<char> = vec!['\\', 'n'];
    assert(escape@ =~= seq!['\\', 'n']);
    let cut = before_first_chars(first, &escape);
    let t = trim_chars(&cut);
    string_of(&t)
}

/// Whether the whole line is one directive match (the first match of
/// `ISSUE_DIRECTIVE_EVENT` spans the line).
pub open spec fn directive_only_line(line: Seq<char>) -> bool {
    let caps = regex_captures(ISSUE_DIRECTIVE_EVENT@, line);
    regex_compiles(ISSUE_DIRECTIVE_EVENT@) && caps.len() > 0 && group(caps[0], 0) == Some(line)
}

/// Whether the whole line is one directive.
pub fn issue_directive_only_line(line: &str) -> (r: bool)
    ensures
        r == directive_only_line(line@),
{
    match captures_all(ISSUE_DIRECTIVE_EVENT, line) {
        Ok(caps) => {
            if caps.len() == 0 {
                return false;
            }
            match crate::patterns::group_at(&caps[0], 0) {
                Some(m) => {
                    assert(captures_view(caps@)[0] == crate::patterns::groups_view(caps@[0]));
                    str_eq(m.as_str(), line)
                },
                None => {
                    assert(captures_view(caps@)[0] == crate::patterns::groups_view(caps@[0]));
                    false
                },
            }
        },
        Err(_) => false,
    }
}

/// The section a commit subject belongs to, by its lower-cased text:
/// 0 Synchronization, 1 Features, 2 Bug Fixes, 3 Refactoring, 4 Other.
pub open spec fn change_bucket(l: Seq<char>) -> int {
    if starts_with(l, "sync"@) || contains(l, "merge main into dev"@) || contains(
        l,
        "merge dev into main"@,
    ) {
        0
    } else if starts_with(l, "feat"@) || starts_with(l, "feature"@) {
        1
    } else if starts_with(l, "fix"@) || starts_with(l, "bugfix"@) || starts_with(l, "hotfix"@) {
        2
    } else if starts_with(l, "refactor"@) || starts_with(l, "chore"@) || starts_with(
        l,
        "cleanup"@,
    ) {
        3
    } else {
        4
    }
}

/// A text that starts with `p` has `p`'s characters first.
proof fn lemma_prefix_chars(l: Seq<char>, p: Seq<char>)
    requires
        starts_with(l, p),
    ensures
        forall|k: int| 0 <= k < p.len() ==> #[trigger] l[k] == p[k],
{
    assert forall|k: int| 0 <= k < p.len() implies #[trigger] l[k] == p[k] by {
        assert(l.take(p.len() as int)[k] == l[k]);
    }
}

/// Whether a lower-cased commit subject names a merge between main and dev.
pub open spec fn names_main_dev_merge(l: Seq<char>) -> bool {
    contains(l, "merge main into dev"@) || contains(l, "merge dev into main"@)
}

/// A lower-cased commit subject that names a main/dev merge goes into
/// Synchronization. One that names none is sorted by its first word: `sync`
/// into Synchronization, `feat` into Features, `fix`, `bugfix` or `hotfix`
/// into Bug Fixes, `refactor`, `chore` or `cleanup` into Refactoring,
/// anything else into Other.
pub proof fn lemma_change_bucket_by_prefix(l: Seq<char>)
    ensures
        names_main_dev_merge(l) ==> change_bucket(l) == 0,
        starts_with(l, "sync"@) ==> change_bucket(l) == 0,
        !names_main_dev_merge(l) && starts_with(l, "feat"@) ==> change_bucket(l) == 1,
        !names_main_dev_merge(l) && starts_with(l, "fix"@) ==> change_bucket(l) == 2,
        !names_main_dev_merge(l) && starts_with(l, "bugfix"@) ==> change_bucket(l) == 2,
        !names_main_dev_merge(l) && starts_with(l, "hotfix"@) ==> change_bucket(l) == 2,
        !names_main_dev_merge(l) && starts_with(l, "refactor"@) ==> change_bucket(l) == 3,
        !names_main_dev_merge(l) && starts_with(l, "chore"@) ==> change_bucket(l) == 3,
        !names_main_dev_merge(l) && starts_with(l, "cleanup"@) ==> change_bucket(l) == 3,
        !names_main_dev_merge(l) && !starts_with(l, "sync"@) && !starts_with(l, "feat"@) && !starts_with(
            l,
            "fix"@,
        ) && !starts_with(l, "bugfix"@) && !starts_with(l, "hotfix"@) && !starts_with(l, "refactor"@)
            && !starts_with(l, "chore"@) && !starts_with(l, "cleanup"@) ==> change_bucket(l) == 4,
{
    reveal_strlit("sync");
    reveal_strlit("feat");
    reveal_strlit("feature");
    reveal_strlit("fix");
    reveal_strlit("bugfix");
    reveal_strlit("hotfix");
    reveal_strlit("refactor");
    reveal_strlit("chore");
    reveal_strlit("cleanup");
    let prefixes = seq!["sync"@, "feat"@, "feature"@, "fix"@, "bugfix"@, "hotfix"@, "refactor"@, "chore"@, "cleanup"@];
    assert forall|k: int| 0 <= k < prefixes.len() && starts_with(l, #[trigger] prefixes[k]) implies l.len() > 1
        && l[0] == prefixes[k][0] && l[1] == prefixes[k][1] by {
        lemma_prefix_chars(l, prefixes[k]);
    }
    assert(prefixes[0] == "sync"@ && prefixes[1] == "feat"@ && prefixes[2] == "feature"@);
    assert(prefixes[3] == "fix"@ && prefixes[4] == "bugfix"@ && prefixes[5] == "hotfix"@);
    assert(prefixes[6] == "refactor"@ && prefixes[7] == "chore"@ && prefixes[8] == "cleanup"@);
    if starts_with(l, "feature"@) {
        lemma_prefix_chars(l, "feature"@);
        assert(l.take(4) =~= "feat"@);
    }
}

/// The section of a commit subject.
pub fn change_bucket_of(line: &Vec<char>) -> (r: usize)
    ensures
        r == change_bucket(lower(line@)),
{
    let l = lower_chars(line);
    if starts_with_str(&l, "sync") || contains_str(&l, "merge main into dev") || contains_str(
        &l,
        "merge dev into main",
    ) {
        0
    } else if starts_with_str(&l, "feat") || starts_with_str(&l, "feature") {
        1
    } else if starts_with_str(&l, "fix") || starts_with_str(&l, "bugfix") || starts_with_str(
        &l,
        "hotfix",
    ) {
        2
    } else if starts_with_str(&l, "refactor") || starts_with_str(&l, "chore") || starts_with_str(
        &l,
        "cleanup",
    ) {
        3
    } else {
        4
    }
}

/// The commit views: `(sha, message)`.
pub open spec fn commits_view(c: Seq<PullRequestCommit>) -> Seq<(Seq<char>, Seq<char>)> {
    c.map_values(|x: PullRequestCommit| (x.sha@, x.message@))
}

/// Whether a commit with this sha comes earlier in the list.
pub open spec fn sha_seen_before(c: Seq<(Seq<char>, Seq<char>)>, i: int) -> bool {
    exists|k: int| 0 <= k < i && c[k].0 == c[i].0
}

/// The subject a commit contributes, if any: first commit of its sha, with a
/// non-empty subject that is not a merge subject nor a lone directive.
pub open spec fn listed_subject(c: Seq<(Seq<char>, Seq<char>)>, i: int) -> Option<Seq<char>> {
    let s = commit_subject_of(c[i].1);
    if sha_seen_before(c, i) || s.len() == 0 || starts_with(s, "Merge pull request #"@)
        || directive_only_line(s) {
        None
    } else {
        Some(s)
    }
}

/// The subjects of bucket `b`, in commit order, among the first `n` commits.
pub open spec fn bucket_items(c: Seq<(Seq<char>, Seq<char>)>, n: int, b: int) -> Seq<Seq<char>>
    decreases n,
{
    if n <= 0 {
        Seq::<Seq<char>>::empty()
    } else {
        let rest = bucket_items(c, n - 1, b);
        match listed_subject(c, n - 1) {
            Some(s) => if change_bucket(lower(s)) == b {
                rest.push(s)
            } else {
                rest
            },
            None => rest,
        }
    }
}

/// The section title of bucket `b`.
pub open spec fn bucket_title(b: int) -> Seq<char> {
    if b == 0 {
        "Synchronization"@
    } else if b == 1 {
        "Features"@
    } else if b == 2 {
        "Bug Fixes"@
    } else if b == 3 {
        "Refactoring"@
    } else {
        "Other"@
    }
}

/// The lines of the sections of buckets `0..n` that have items.
pub open spec fn key_change_parts(c: Seq<(Seq<char>, Seq<char>)>, n: int) -> Seq<Seq<char>>
    decreases n,
{
    if n <= 0 {
        Seq::<Seq<char>>::empty()
    } else {
        let rest = key_change_parts(c, n - 1);
        let items = bucket_items(c, c.len() as int, n - 1);
        if items.len() == 0 {
            rest
        } else {
            rest + seq!["#### "@ + bucket_title(n - 1), ""@] + bullets("- "@, items) + seq![""@]
        }
    }
}

/// The key changes section.
pub open spec fn key_changes_text(c: Seq<(Seq<char>, Seq<char>)>) -> Seq<char> {
    let parts = key_change_parts(c, 5);
    if parts.len() == 0 {
        "- No significant items detected."@
    } else {
        trim_end(join(parts, "\n"@))
    }
}

/// The title of a bucket.
fn bucket_title_str(b: usize) -> (r: &'static str)
    ensures
        r@ == bucket_title(b as int),
{
    if b == 0 {
        "Synchronization"
    } else if b == 1 {
        "Features"
    } else if b == 2 {
        "Bug Fixes"
    } else if b == 3 {
        "Refactoring"
    } else {
        "Other"
    }
}

/// Whether a commit with the sha of commit `i` comes earlier.
fn sha_seen(commits: &Vec<PullRequestCommit>, i: usize) -> (r: bool)
    requires
        i < commits.len(),
    ensures
        r == sha_seen_before(commits_view(commits@), i as int),
{
    let ghost cv = commits_view(commits@);
    let mut k: usize = 0;
    while k < i
        invariant
            k <= i < commits.len(),
            cv == commits_view(commits@),
            forall|m: int| 0 <= m < k ==> cv[m].0 != cv[i as int].0,
        decreases i - k,
    {
        if str_eq(commits[k].sha.as_str(), commits[i].sha.as_str()) {
            assert(cv[k as int].0 == cv[i as int].0);
            return true;
        }
        k += 1;
    }
    false
}

/// The subject commit `i` contributes, if any.
fn listed_subject_of(commits: &Vec<PullRequestCommit>, i: usize) -> (r: Option<String>)
    requires
        i < commits.len(),
    ensures
        match (r, listed_subject(commits_view(commits@), i as int)) {
            (Some(x), Some(y)) => x@ == y,
            (None, None) => true,
            _ => false,
        },
{
    if sha_seen(commits, i) {
        return None;
    }
    let s = commit_subject(commits[i].message.as_str());
    let sv = chars_of(s.as_str());
    if sv.len() == 0 || starts_with_str(&sv, "Merge pull request #") || issue_directive_only_line(
        s.as_str(),
    ) {
        return None;
    }
    Some(s)
}

/// The subjects of bucket `b`.
fn collect_bucket(commits: &Vec<PullRequestCommit>, b: usize) -> (r: Vec<String>)
    ensures
        strings_view(r@) == bucket_items(commits_view(commits@), commits@.len() as int, b as int),
{
    let ghost cv = commits_view(commits@);
    let mut items: Vec<String> = Vec::new();
    let mut i: usize = 0;
    while i < commits.len()
        invariant
            i <= commits.len(),
            cv == commits_view(commits@),
            strings_view(items@) == bucket_items(cv, i as int, b as int),
        decreases commits.len() - i,
    {
        let ghost before = strings_view(items@);
        match listed_subject_of(commits, i) {
            Some(s) => {
                let sv = chars_of(s.as_str());
                if change_bucket_of(&sv) == b {
                    let ghost x = s@;
                    items.push(s);
                    assert(strings_view(items@) =~= before.push(x));
                }
            },
            None => {},
        }
        i += 1;
    }
    items
}

impl PrBodyContractSync {
    /// The key changes section: the first subject of each distinct commit sorted
    /// into Synchronization, Features, Bug Fixes, Refactoring and Other.
    pub fn build_key_changes_section(commits: &Vec<PullRequestCommit>) -> (r: String)
        ensures
            r@ == key_changes_text(commits_view(commits@)),
    {
        let ghost cv = commits_view(commits@);
        let mut parts: Vec<String> = Vec::new();
        let mut b: usize = 0;
        while b < 5
            invariant
                b <= 5,
                cv == commits_view(commits@),
                strings_view(parts@) == key_change_parts(cv, b as int),
            decreases 5 - b,
        {
            let items = collect_bucket(commits, b);
            if items.len() > 0 {
                let ghost before = strings_view(parts@);
                push_string(&mut parts, concat2("#### ", bucket_title_str(b)));
                push_line(&mut parts, "");
                let ghost mid = strings_view(parts@);
                push_bullets(&mut parts, "- ", &items, "");
                push_line(&mut parts, "");
                assert(strings_view(parts@) =~= before + seq!["#### "@ + bucket_title(b as int), ""@]
                    + bullets("- "@, strings_view(items@)) + seq![""@]);
            }
            b += 1;
        }
        if parts.len() == 0 {
            return copy_str("- No significant items detected.");
        }
        let joined = join_strings(&parts, "\n");
        assert(parts@.map_values(|p: String| p@) =~= strings_view(parts@));
        trim_end_str(joined.as_str())
    }}


// ---------------------------------------------------------------------------
// Change footprint
// ---------------------------------------------------------------------------

/// The group of a changed file: 0 Documentation, 1 Shell, 2 Crates,
/// 3 Workspace, 4 Other.
pub open spec fn file_group(f: Seq<char>) -> int {
    if ends_with(f, ".md"@) || starts_with(f, "documentation/"@) || starts_with(
        f,
        ".github/documentation/"@,
    ) {
        0
    } else if ends_with(f, ".sh"@) || starts_with(f, "scripts/"@) {
        1
    } else if f == "Cargo.toml"@ || f == "Cargo.lock"@ || starts_with(f, ".cargo/"@) || ends_with(
        f,
        "/Cargo.toml"@,
    ) || ends_with(f, "/Cargo.lock"@) || starts_with(f, "rust-toolchain"@) {
        3
    } else if ends_with(f, ".rs"@) || contains(f, "/src/"@) {
        2
    } else {
        4
    }
}

/// The group of a changed file.
pub fn file_group_of(f: &str) -> (r: usize)
    ensures
        r == file_group(f@),
{
    let v = chars_of(f);
    if ends_with_str(&v, ".md") || starts_with_str(&v, "documentation/") || starts_with_str(
        &v,
        ".github/documentation/",
    ) {
        0
    } else if ends_with_str(&v, ".sh") || starts_with_str(&v, "scripts/") {
        1
    } else if str_eq(f, "Cargo.toml") || str_eq(f, "Cargo.lock") || starts_with_str(&v, ".cargo/")
        || ends_with_str(&v, "/Cargo.toml") || ends_with_str(&v, "/Cargo.lock") || starts_with_str(
        &v,
        "rust-toolchain",
    ) {
        3
    } else if ends_with_str(&v, ".rs") || contains_str(&v, "/src/") {
        2
    } else {
        4
    }
}

/// The files of group `g`, in order.
pub open spec fn group_files(files: Seq<Seq<char>>, g: int) -> Seq<Seq<char>>
    decreases files.len(),
{
    if files.len() == 0 {
        files
    } else {
        let rest = group_files(files.drop_last(), g);
        if file_group(files.last()) == g {
            rest.push(files.last())
        } else {
            rest
        }
    }
}

/// The label of a footprint group, in display order
/// (Documentation, Shell, Crates, Workspace, Other).
pub open spec fn footprint_label(g: int) -> Seq<char> {
    if g == 0 {
        "Documentation"@
    } else if g == 1 {
        "Shell"@
    } else if g == 2 {
        "Crates"@
    } else if g == 3 {
        "Workspace"@
    } else {
        "Other"@
    }
}

/// The lines of the groups `0..n` that have files: a count line and at most
/// twelve files.
pub open spec fn footprint_lines(files: Seq<Seq<char>>, n: int) -> Seq<Seq<char>>
    decreases n,
{
    if n <= 0 {
        Seq::<Seq<char>>::empty()
    } else {
        let rest = footprint_lines(files, n - 1);
        let items = group_files(files, n - 1);
        if items.len() == 0 {
            rest
        } else {
            rest + seq![
                "- "@ + footprint_label(n - 1) + " ("@ + crate::text::decimal(items.len()) + ")"@,
            ] + bullets("  - "@, items.take(if items.len() > 12 {
                12
            } else {
                items.len() as int
            }))
        }
    }
}

/// The change footprint section for the changed files.
pub open spec fn footprint_text(files: Seq<Seq<char>>) -> Seq<char> {
    if files.len() == 0 {
        "- No changed files detected for this branch range."@
    } else {
        join(footprint_lines(files, 5), "\n"@)
    }
}

/// The label of a footprint group.
fn footprint_label_str(g: usize) -> (r: &'static str)
    ensures
        r@ == footprint_label(g as int),
{
    if g == 0 {
        "Documentation"
    } else if g == 1 {
        "Shell"
    } else if g == 2 {
        "Crates"
    } else if g == 3 {
        "Workspace"
    } else {
        "Other"
    }
}

impl PrBodyContractSync {
    /// The change footprint section: changed files grouped by kind, each group
    /// with its count and at most twelve of its files.
    pub fn build_change_footprint_section(files: &Vec<String>) -> (r: String)
        ensures
            r@ == footprint_text(strings_view(files@)),
    {
        let ghost fv = strings_view(files@);
        if files.len() == 0 {
            return copy_str("- No changed files detected for this branch range.");
        }
        let mut lines: Vec<String> = Vec::new();
        let mut g: usize = 0;
        while g < 5
            invariant
                g <= 5,
                fv == strings_view(files@),
                strings_view(lines@) == footprint_lines(fv, g as int),
            decreases 5 - g,
        {
            let mut items: Vec<String> = Vec::new();
            let mut i: usize = 0;
            while i < files.len()
                invariant
                    i <= files.len(),
                    fv == strings_view(files@),
                    strings_view(items@) == group_files(fv.take(i as int), g as int),
                decreases files.len() - i,
            {
                assert(fv.take(i + 1).drop_last() =~= fv.take(i as int));
                let ghost before = strings_view(items@);
                if file_group_of(files[i].as_str()) == g {
                    items.push(files[i].clone());
                    assert(strings_view(items@) =~= before.push(fv[i as int]));
                }
                i += 1;
            }
            assert(fv.take(files.len() as int) =~= fv);
            if items.len() > 0 {
                let ghost before = strings_view(lines@);
                let mut head = concat2("- ", footprint_label_str(g));
                head.append(" (");
                crate::text::push_decimal(&mut head, items.len() as u64);
                head.append(")");
                push_string(&mut lines, head);
                let shown = if items.len() > 12 {
                    12
                } else {
                    items.len()
                };
                let mut first: Vec<String> = Vec::new();
                let mut k: usize = 0;
                while k < shown
                    invariant
                        k <= shown <= items.len(),
                        strings_view(first@) == strings_view(items@).take(k as int),
                    decreases shown - k,
                {
                    let ghost b2 = strings_view(first@);
                    let item = items[k].clone();
                    let ghost iv = strings_view(items@);
                    assert(iv[k as int] == item@);
                    first.push(item);
                    assert(iv.take(k + 1) =~= iv.take(k as int).push(item@));
                    assert(strings_view(first@) =~= b2.push(item@));
                    k += 1;
                }
                push_bullets(&mut lines, "  - ", &first, "");
                assert(strings_view(lines@) =~= before + seq![
                    "- "@ + footprint_label(g as int) + " ("@ + crate::text::decimal(
                        strings_view(items@).len(),
                    ) + ")"@,
                ] + bullets("  - "@, strings_view(items@).take(shown as int)));
            }
            g += 1;
        }
        let out = join_strings(&lines, "\n");
        assert(lines@.map_values(|p: String| p@) =~= strings_view(lines@));
        out
    }}


// ---------------------------------------------------------------------------
// The description
// ---------------------------------------------------------------------------

/// The description assembled from its sections.
pub open spec fn body_text(
    head_ref: Seq<char>,
    base_ref: Seq<char>,
    validation_gate: Seq<char>,
    issue_outcomes: Seq<char>,
    key_changes: Seq<char>,
    change_footprint: Seq<char>,
) -> Seq<char> {
    "### Description\n\nThis pull request merges the `"@ + head_ref + "` branch into `"@ + base_ref
        + "` and summarizes merged pull requests and resolved issues.\n\n"@ + validation_gate
        + "\n\n### Issue Outcomes\n\n"@ + issue_outcomes + "\n\n### Key Changes\n\n"@
        + key_changes + "\n\n#### Change Footprint\n\n"@ + change_footprint
}

/// Assembles the description from its sections.
pub fn render_body(
    head_ref: &str,
    base_ref: &str,
    validation_gate: &str,
    issue_outcomes: &str,
    key_changes: &str,
    change_footprint: &str,
) -> (r: String)
    ensures
        r@ == body_text(
            head_ref@,
            base_ref@,
            validation_gate@,
            issue_outcomes@,
            key_changes@,
            change_footprint@,
        ),
{
    let mut s = copy_str("### Description\n\nThis pull request merges the `");
    s.append(head_ref);
    s.append("` branch into `");
    s.append(base_ref);
    s.append("` and summarizes merged pull requests and resolved issues.\n\n");
    s.append(validation_gate);
    s.append("\n\n### Issue Outcomes\n\n");
    s.append(issue_outcomes);
    s.append("\n\n### Key Changes\n\n");
    s.append(key_changes);
    s.append("\n\n#### Change Footprint\n\n");
    s.append(change_footprint);
    s
}

/// The text the directives are read from: title, body and commit messages.
pub fn directive_payload(title: &str, body: &str, commit_messages: &Vec<String>) -> (r: String)
    ensures
        r@ == title@ + "\n"@ + body@ + "\n"@ + join(strings_view(commit_messages@), "\n"@),
{
    let mut s = copy_str(title);
    s.append("\n");
    s.append(body);
    s.append("\n");
    let joined = join_strings(commit_messages, "\n");
    assert(commit_messages@.map_values(|p: String| p@) =~= strings_view(commit_messages@));
    s.append(joined.as_str());
    s
}

/// The Pull Request description generator.
pub struct PrBodyContractSync {
    pub args: crate::args::CommandArgs,
}

impl PrBodyContractSync {
    /// The command for the given arguments.
    pub fn new(args: crate::args::CommandArgs) -> (r: Self)
        ensures
            r.args == args,
    {
        Self { args }
    }

    /// The issue outcomes section of a payload.
    pub fn build_issue_outcomes_section(payload: &str) -> (r: Result<String, String>)
        ensures
            !regex_compiles(DIRECTIVE_DECISION@) ==> (r matches Err(e) && e@
                == "Directive regex failed: "@ + regex_error_text(DIRECTIVE_DECISION@)),
            regex_compiles(DIRECTIVE_DECISION@) && !regex_compiles(ISSUE_DIRECTIVE_EVENT@) ==> (
            r matches Err(e) && e@ == "Event regex failed: "@ + regex_error_text(
                ISSUE_DIRECTIVE_EVENT@,
            )),
            regex_compiles(DIRECTIVE_DECISION@) && regex_compiles(ISSUE_DIRECTIVE_EVENT@) ==> (
            r matches Ok(out) && payload_outcomes(out@, payload@)),
    {
        let parsed = PrDirective::parse(payload)?;
        Ok(outcomes_section(&parsed))
    }
}

} // verus!
