//! Issue directives written in pull requests: `Closes #12`, `Reopen #12`,
//! `cancel-closes #12` and `Directive Decision: #12 => close`.
//!
//! Issue keys are the `#<digits>` texts the patterns capture.  Key sets are
//! kept as sequences without duplicates, in order of first insertion.

use vstd::prelude::*;

use crate::patterns::{
    captures_all, captures_view, group, group_at, group_text, group_text_at, groups_view,
    regex_captures, regex_compiles, regex_error_text, CaptureTexts, DIRECTIVE_DECISION,
    ISSUE_DIRECTIVE_EVENT,
};
use crate::reference::strip_hashes;
use crate::text::{concat2, lower, lower_str, parse_u64, str_eq};

verus! {

// ---------------------------------------------------------------------------
// Key sets and decision lists
// ---------------------------------------------------------------------------

/// The views of a list of strings.
pub open spec fn keys_view(v: Seq<String>) -> Seq<Seq<char>> {
    v.map_values(|s: String| s@)
}

/// Adds a key unless present.
pub open spec fn set_insert(s: Seq<Seq<char>>, x: Seq<char>) -> Seq<Seq<char>> {
    if s.contains(x) {
        s
    } else {
        s.push(x)
    }
}

/// Removes every copy of a key.
pub open spec fn set_remove(s: Seq<Seq<char>>, x: Seq<char>) -> Seq<Seq<char>>
    decreases s.len(),
{
    if s.len() == 0 {
        s
    } else {
        let rest = set_remove(s.drop_last(), x);
        if s.last() == x {
            rest
        } else {
            rest.push(s.last())
        }
    }
}

/// The keys of `a` that are (`keep`) or are not (`!keep`) in `b`, in the
/// order of `a`.
pub open spec fn keys_where(a: Seq<Seq<char>>, b: Seq<Seq<char>>, keep: bool) -> Seq<Seq<char>>
    decreases a.len(),
{
    if a.len() == 0 {
        a
    } else {
        let rest = keys_where(a.drop_last(), b, keep);
        if b.contains(a.last()) == keep {
            rest.push(a.last())
        } else {
            rest
        }
    }
}

/// The decision recorded last for `issue` in a list of `(issue, decision)`.
pub open spec fn decision_for(entries: Seq<(Seq<char>, Seq<char>)>, issue: Seq<char>) -> Option<
    Seq<char>,
>
    decreases entries.len(),
{
    if entries.len() == 0 {
        None
    } else if entries.last().0 == issue {
        Some(entries.last().1)
    } else {
        decision_for(entries.drop_last(), issue)
    }
}

/// The views of a decision list.
pub open spec fn pairs_view(v: Seq<(String, String)>) -> Seq<(Seq<char>, Seq<char>)> {
    v.map_values(|p: (String, String)| (p.0@, p.1@))
}

/// Whether `x` is among the keys.
pub fn keys_contain(s: &Vec<String>, x: &str) -> (r: bool)
    ensures
        r == keys_view(s@).contains(x@),
{
    let ghost kv = keys_view(s@);
    let mut i: usize = 0;
    while i < s.len()
        invariant
            i <= s.len(),
            kv == keys_view(s@),
            forall|k: int| 0 <= k < i ==> kv[k] != x@,
        decreases s.len() - i,
    {
        if str_eq(s[i].as_str(), x) {
            assert(kv[i as int] == x@);
            return true;
        }
        i += 1;
    }
    false
}

/// Adds a key unless present.
pub fn keys_insert(s: &mut Vec<String>, x: String)
    ensures
        keys_view(final(s)@) == set_insert(keys_view(old(s)@), x@),
{
    if !keys_contain(s, x.as_str()) {
        let ghost old_view = keys_view(s@);
        s.push(x);
        assert(keys_view(s@) =~= old_view.push(x@));
    }
}

/// Removes a key.
pub fn keys_remove(s: &Vec<String>, x: &str) -> (r: Vec<String>)
    ensures
        keys_view(r@) == set_remove(keys_view(s@), x@),
{
    let ghost kv = keys_view(s@);
    let mut r: Vec<String> = Vec::new();
    let mut i: usize = 0;
    while i < s.len()
        invariant
            i <= s.len(),
            kv == keys_view(s@),
            keys_view(r@) == set_remove(kv.take(i as int), x@),
        decreases s.len() - i,
    {
        assert(kv.take(i + 1).drop_last() =~= kv.take(i as int));
        let ghost before = keys_view(r@);
        if !str_eq(s[i].as_str(), x) {
            r.push(s[i].clone());
            assert(keys_view(r@) =~= before.push(kv[i as int]));
        }
        i += 1;
    }
    assert(kv.take(s.len() as int) =~= kv);
    r
}

/// The keys of `a` that are (`keep`) or are not (`!keep`) in `b`.
pub fn keys_filter(a: &Vec<String>, b: &Vec<String>, keep: bool) -> (r: Vec<String>)
    ensures
        keys_view(r@) == keys_where(keys_view(a@), keys_view(b@), keep),
{
    let ghost av = keys_view(a@);
    let mut r: Vec<String> = Vec::new();
    let mut i: usize = 0;
    while i < a.len()
        invariant
            i <= a.len(),
            av == keys_view(a@),
            keys_view(r@) == keys_where(av.take(i as int), keys_view(b@), keep),
        decreases a.len() - i,
    {
        assert(av.take(i + 1).drop_last() =~= av.take(i as int));
        let ghost before = keys_view(r@);
        if keys_contain(b, a[i].as_str()) == keep {
            r.push(a[i].clone());
            assert(keys_view(r@) =~= before.push(av[i as int]));
        }
        i += 1;
    }
    assert(av.take(a.len() as int) =~= av);
    r
}

/// The decision recorded last for `issue`.
pub fn lookup_decision(entries: &Vec<(String, String)>, issue: &str) -> (r: Option<String>)
    ensures
        match (r, decision_for(pairs_view(entries@), issue@)) {
            (Some(d), Some(e)) => d@ == e,
            (None, None) => true,
            _ => false,
        },
{
    let ghost pv = pairs_view(entries@);
    let mut i: usize = entries.len();
    assert(pv.take(entries.len() as int) =~= pv);
    while i > 0
        invariant
            i <= entries.len(),
            pv == pairs_view(entries@),
            decision_for(pv, issue@) == decision_for(pv.take(i as int), issue@),
        decreases i,
    {
        assert(pv.take(i as int).drop_last() =~= pv.take(i - 1));
        assert(pv.take(i as int).last() == pv[i - 1]);
        if str_eq(entries[i - 1].0.as_str(), issue) {
            return Some(entries[i - 1].1.clone());
        }
        i -= 1;
    }
    None
}

// ---------------------------------------------------------------------------
// Sorting issue keys by number
// ---------------------------------------------------------------------------

/// The number of an issue key (`#12` -> 12), 0 when it does not parse.
pub open spec fn issue_sort_key(issue: Seq<char>) -> u64 {
    match parse_u64(strip_hashes(issue)) {
        Some(v) => v,
        None => 0,
    }
}

/// Keys in nondecreasing order of their numbers.
pub open spec fn sorted_by_number(q: Seq<Seq<char>>) -> bool {
    forall|i: int, j: int| 0 <= i < j < q.len() ==> issue_sort_key(q[i]) <= issue_sort_key(q[j])
}

/// `q` holds the keys of `s`, ordered by number (equal numbers in any order).
pub open spec fn ordered_by_number(q: Seq<Seq<char>>, s: Seq<Seq<char>>) -> bool {
    q.to_multiset() == s.to_multiset() && sorted_by_number(q)
}

/// The number of an issue key.
pub fn sort_issue_number(issue: &str) -> (r: u64)
    ensures
        r == issue_sort_key(issue@),
{
    let v = crate::text::chars_of(issue);
    let n = crate::reference::strip_hashes_chars(&v);
    match crate::text::parse_u64_chars(&n) {
        Some(x) => x,
        None => 0,
    }
}

/// Inserting a key after the keys with numbers not above its own and
/// before those above it keeps the keys sorted.
proof fn lemma_insert_keeps_sorted(before: Seq<Seq<char>>, pos: int, x: Seq<char>)
    requires
        sorted_by_number(before),
        0 <= pos <= before.len(),
        forall|k: int| 0 <= k < pos ==> issue_sort_key(#[trigger] before[k]) <= issue_sort_key(x),
        forall|k: int| pos <= k < before.len() ==> issue_sort_key(#[trigger] before[k]) > issue_sort_key(x),
    ensures
        sorted_by_number(before.insert(pos, x)),
{
    let q = before.insert(pos, x);
    assert forall|a: int, b: int| 0 <= a < b < q.len() implies issue_sort_key(q[a]) <= issue_sort_key(q[b]) by {
        if a < pos && b < pos {
            assert(q[a] == before[a] && q[b] == before[b]);
        } else if a < pos && b == pos {
            assert(q[a] == before[a]);
        } else if a < pos {
            assert(q[a] == before[a] && q[b] == before[b - 1]);
        } else if a == pos {
            assert(q[b] == before[b - 1]);
        } else {
            assert(q[a] == before[a - 1] && q[b] == before[b - 1]);
        }
    }
}

/// Sorts keys by number, keeping the given order among equal numbers.
pub fn sort_by_issue_number(v: Vec<String>) -> (r: Vec<String>)
    ensures
        ordered_by_number(keys_view(r@), keys_view(v@)),
{
    let ghost vv = keys_view(v@);
    let mut r: Vec<String> = Vec::new();
    let mut keys: Vec<u64> = Vec::new();
    let mut i: usize = 0;
    assert(vv.take(0) =~= keys_view(r@));
    while i < v.len()
        invariant
            i <= v.len(),
            vv == keys_view(v@),
            keys@.len() == r@.len(),
            forall|k: int| 0 <= k < r@.len() ==> keys@[k] == issue_sort_key(#[trigger] r@[k]@),
            sorted_by_number(keys_view(r@)),
            keys_view(r@).to_multiset() == vv.take(i as int).to_multiset(),
        decreases v.len() - i,
    {
        let key = sort_issue_number(v[i].as_str());
        let mut pos: usize = r.len();
        while pos > 0 && keys[pos - 1] > key
            invariant
                pos <= r@.len(),
                keys@.len() == r@.len(),
                forall|k: int| pos <= k < r@.len() ==> keys@[k] > key,
            decreases pos,
        {
            pos -= 1;
        }
        let ghost before = keys_view(r@);
        let ghost keys_before = keys@;
        let item = v[i].clone();
        proof {
            assert(item@ == vv[i as int]);
        }
        r.insert(pos, item);
        keys.insert(pos, key);
        proof {
            assert(keys_view(r@) =~= before.insert(pos as int, vv[i as int]));
            vstd::seq_lib::to_multiset_insert(before, pos as int, vv[i as int]);
            vstd::seq_lib::to_multiset_build(vv.take(i as int), vv[i as int]);
            assert(vv.take(i + 1) =~= vv.take(i as int).push(vv[i as int]));
            assert forall|k: int| 0 <= k < r@.len() implies keys@[k] == issue_sort_key(
                #[trigger] r@[k]@,
            ) by {
                if k < pos {
                    assert(r@[k]@ == before[k]);
                } else if k > pos {
                    assert(r@[k]@ == before[k - 1]);
                }
            }
            assert forall|k: int| 0 <= k < pos implies issue_sort_key(#[trigger] before[k]) <= key by {
                assert(keys_before[k] == issue_sort_key(before[k]));
                assert(keys_before[pos - 1] == issue_sort_key(before[pos - 1]));
            }
            assert forall|k: int| pos <= k < before.len() implies issue_sort_key(#[trigger] before[k]) > key by {
                assert(keys_before[k] == issue_sort_key(before[k]));
            }
            lemma_insert_keeps_sorted(before, pos as int, vv[i as int]);
        }
        i += 1;
    }
    assert(vv.take(v.len() as int) =~= vv);
    r
}

// ---------------------------------------------------------------------------
// Parsing directives
// ---------------------------------------------------------------------------

/// The explicit decisions of `Directive Decision:` lines, in order: the issue
/// key and the lower-cased decision, when both are present.
pub open spec fn explicit_decisions(caps: Seq<Seq<Option<Seq<char>>>>) -> Seq<
    (Seq<char>, Seq<char>),
>
    decreases caps.len(),
{
    if caps.len() == 0 {
        Seq::<(Seq<char>, Seq<char>)>::empty()
    } else {
        let rest = explicit_decisions(caps.drop_last());
        let issue = group_text(caps.last(), 1);
        let decision = lower(group_text(caps.last(), 2));
        if issue.len() > 0 && decision.len() > 0 {
            rest.push((issue, decision))
        } else {
            rest
        }
    }
}

/// The closing and reopening sets after reading the directive events in order:
/// an unrejected `closes`/`fixes` adds to the closing set, an unrejected
/// `reopen`/`reopens` adds to the reopening set, `cancel-closes` removes from
/// the closing set.
pub open spec fn directive_sets(caps: Seq<Seq<Option<Seq<char>>>>) -> (
    Seq<Seq<char>>,
    Seq<Seq<char>>,
)
    decreases caps.len(),
{
    if caps.len() == 0 {
        (Seq::<Seq<char>>::empty(), Seq::<Seq<char>>::empty())
    } else {
        let (closing, reopening) = directive_sets(caps.drop_last());
        let c = caps.last();
        let action = lower(group_text(c, 1));
        let rejected = group(c, 2) is Some;
        let issue = group_text(c, 3);
        if issue.len() == 0 {
            (closing, reopening)
        } else if (action == "closes"@ || action == "fixes"@) && !rejected {
            (set_insert(closing, issue), reopening)
        } else if (action == "reopen"@ || action == "reopens"@) && !rejected {
            (closing, set_insert(reopening, issue))
        } else if action == "cancel-closes"@ {
            (set_remove(closing, issue), reopening)
        } else {
            (closing, reopening)
        }
    }
}

/// Adding a key keeps every key once and holds exactly the old keys and the
/// new one.
proof fn lemma_set_insert(s: Seq<Seq<char>>, x: Seq<char>)
    requires
        s.no_duplicates(),
    ensures
        set_insert(s, x).no_duplicates(),
        forall|y: Seq<char>| #[trigger] set_insert(s, x).contains(y) <==> (s.contains(y) || y == x),
{
    if !s.contains(x) {
        assert forall|y: Seq<char>| #[trigger] s.push(x).contains(y) <==> (s.contains(y) || y == x) by {
            if s.push(x).contains(y) {
                let k = choose|k: int| 0 <= k < s.push(x).len() && s.push(x)[k] == y;
                if k < s.len() {
                    assert(s[k] == y);
                }
            }
            if s.contains(y) {
                let k = choose|k: int| 0 <= k < s.len() && s[k] == y;
                assert(s.push(x)[k] == y);
            }
            if y == x {
                assert(s.push(x)[s.len() as int] == y);
            }
        }
    }
}

/// Removing a key keeps every other key once and drops every copy of it.
proof fn lemma_set_remove(s: Seq<Seq<char>>, x: Seq<char>)
    requires
        s.no_duplicates(),
    ensures
        set_remove(s, x).no_duplicates(),
        forall|y: Seq<char>| #[trigger] set_remove(s, x).contains(y) <==> (s.contains(y) && y != x),
    decreases s.len(),
{
    if s.len() > 0 {
        let t = s.drop_last();
        assert(t.no_duplicates());
        lemma_set_remove(t, x);
        let rest = set_remove(t, x);
        assert forall|y: Seq<char>| #[trigger] s.contains(y) <==> (t.contains(y) || y == s.last()) by {
            if s.contains(y) {
                let k = choose|k: int| 0 <= k < s.len() && s[k] == y;
                if k < t.len() {
                    assert(t[k] == y);
                }
            }
            if t.contains(y) {
                let k = choose|k: int| 0 <= k < t.len() && t[k] == y;
                assert(s[k] == y);
            }
            if y == s.last() {
                assert(s[s.len() - 1] == y);
            }
        }
        assert(!t.contains(s.last())) by {
            if t.contains(s.last()) {
                let k = choose|k: int| 0 <= k < t.len() && t[k] == s.last();
                assert(s[k] == s[s.len() - 1]);
            }
        }
        if s.last() != x {
            assert(!rest.contains(s.last()));
            assert forall|y: Seq<char>| #[trigger] rest.push(s.last()).contains(y) <==> (rest.contains(y)
                || y == s.last()) by {
                if rest.push(s.last()).contains(y) {
                    let k = choose|k: int| 0 <= k < rest.push(s.last()).len() && rest.push(s.last())[k] == y;
                    if k < rest.len() {
                        assert(rest[k] == y);
                    }
                }
                if rest.contains(y) {
                    let k = choose|k: int| 0 <= k < rest.len() && rest[k] == y;
                    assert(rest.push(s.last())[k] == y);
                }
                if y == s.last() {
                    assert(rest.push(s.last())[rest.len() as int] == y);
                }
            }
        }
    }
}

/// The closing and reopening lists read from the directive events hold each
/// issue at most once.
pub proof fn lemma_directive_sets_distinct(caps: Seq<Seq<Option<Seq<char>>>>)
    ensures
        directive_sets(caps).0.no_duplicates(),
        directive_sets(caps).1.no_duplicates(),
    decreases caps.len(),
{
    if caps.len() > 0 {
        lemma_directive_sets_distinct(caps.drop_last());
        let (closing, reopening) = directive_sets(caps.drop_last());
        let c = caps.last();
        let issue = group_text(c, 3);
        lemma_set_insert(closing, issue);
        lemma_set_insert(reopening, issue);
        lemma_set_remove(closing, issue);
    }
}

/// A `cancel-closes` event withdraws its issue from the closing list: when
/// the last event cancels the closing of an issue, that issue is not among
/// the issues to close.
pub proof fn lemma_cancel_withdraws(caps: Seq<Seq<Option<Seq<char>>>>)
    requires
        caps.len() > 0,
        lower(group_text(caps.last(), 1)) == "cancel-closes"@,
        group_text(caps.last(), 3).len() > 0,
    ensures
        !directive_sets(caps).0.contains(group_text(caps.last(), 3)),
{
    lemma_directive_sets_distinct(caps.drop_last());
    let closing = directive_sets(caps.drop_last()).0;
    let issue = group_text(caps.last(), 3);
    lemma_set_remove(closing, issue);
    reveal_strlit("cancel-closes");
    reveal_strlit("closes");
    reveal_strlit("fixes");
    reveal_strlit("reopen");
    reveal_strlit("reopens");
    assert("cancel-closes"@.len() == 13);
    assert("closes"@.len() == 6);
    assert("fixes"@.len() == 5);
    assert(lower(group_text(caps.last(), 1)) != "closes"@);
    assert(lower(group_text(caps.last(), 1)) != "fixes"@);
    assert(lower(group_text(caps.last(), 1)) != "reopen"@);
    assert(lower(group_text(caps.last(), 1)) != "reopens"@);
}

/// The directives of a pull request.
pub struct ParsedPrDirectives {
    /// `(issue, decision)` pairs; the last one for an issue counts.
    pub explicit: Vec<(String, String)>,
    /// Issues requested to close.
    pub closing: Vec<String>,
    /// Issues requested to reopen.
    pub reopening: Vec<String>,
}

/// The directives read from the two searches.
pub open spec fn parsed_matches(
    p: ParsedPrDirectives,
    decision_caps: Seq<Seq<Option<Seq<char>>>>,
    event_caps: Seq<Seq<Option<Seq<char>>>>,
) -> bool {
    &&& pairs_view(p.explicit@) == explicit_decisions(decision_caps)
    &&& keys_view(p.closing@) == directive_sets(event_caps).0
    &&& keys_view(p.reopening@) == directive_sets(event_caps).1
}

/// Whether an action text equals one of the given words.
fn action_is(action: &str, word: &str) -> (r: bool)
    ensures
        r == (action@ == word@),
{
    str_eq(action, word)
}

/// Parsing of the directives in a payload.
pub struct PrDirective;

impl PrDirective {
    /// The directives given the matches of `DIRECTIVE_DECISION` and of
    /// `ISSUE_DIRECTIVE_EVENT`.
    pub fn from_matches(decision_caps: &CaptureTexts, event_caps: &CaptureTexts) -> (r:
        ParsedPrDirectives)
        ensures
            parsed_matches(r, captures_view(decision_caps@), captures_view(event_caps@)),
    {
        let ghost dv = captures_view(decision_caps@);
        let mut explicit: Vec<(String, String)> = Vec::new();
        let mut i: usize = 0;
        while i < decision_caps.len()
            invariant
                i <= decision_caps.len(),
                dv == captures_view(decision_caps@),
                pairs_view(explicit@) == explicit_decisions(dv.take(i as int)),
            decreases decision_caps.len() - i,
        {
            assert(dv.take(i + 1).drop_last() =~= dv.take(i as int));
            assert(dv.take(i + 1).last() == groups_view(decision_caps@[i as int]));
            let issue = group_text_at(&decision_caps[i], 1);
            let decision = lower_str(group_text_at(&decision_caps[i], 2).as_str());
            if !issue.as_str().is_empty() && !decision.as_str().is_empty() {
                proof {
                    assert(issue@.len() > 0 && decision@.len() > 0);
                }
                let ghost before = pairs_view(explicit@);
                explicit.push((issue, decision));
                assert(pairs_view(explicit@) =~= before.push((
                    group_text(dv[i as int], 1),
                    lower(group_text(dv[i as int], 2)),
                )));
            } else {
                proof {
                    assert(!(issue@.len() > 0 && decision@.len() > 0));
                }
            }
            i += 1;
        }
        assert(dv.take(decision_caps.len() as int) =~= dv);
        let ghost ev = captures_view(event_caps@);
        let mut closing: Vec<String> = Vec::new();
        let mut reopening: Vec<String> = Vec::new();
        let mut j: usize = 0;
        while j < event_caps.len()
            invariant
                j <= event_caps.len(),
                ev == captures_view(event_caps@),
                keys_view(closing@) == directive_sets(ev.take(j as int)).0,
                keys_view(reopening@) == directive_sets(ev.take(j as int)).1,
            decreases event_caps.len() - j,
        {
            assert(ev.take(j + 1).drop_last() =~= ev.take(j as int));
            assert(ev.take(j + 1).last() == groups_view(event_caps@[j as int]));
            let action = lower_str(group_text_at(&event_caps[j], 1).as_str());
            let rejected = group_at(&event_caps[j], 2).is_some();
            let issue = group_text_at(&event_caps[j], 3);
            if issue.as_str().is_empty() {
                proof {
                    assert(issue@.len() == 0);
                }
            } else if (action_is(action.as_str(), "closes") || action_is(action.as_str(), "fixes"))
                && !rejected {
                keys_insert(&mut closing, issue);
            } else if (action_is(action.as_str(), "reopen") || action_is(
                action.as_str(),
                "reopens",
            )) && !rejected {
                keys_insert(&mut reopening, issue);
            } else if action_is(action.as_str(), "cancel-closes") {
                closing = keys_remove(&closing, issue.as_str());
            }
            j += 1;
        }
        assert(ev.take(event_caps.len() as int) =~= ev);
        ParsedPrDirectives { explicit, closing, reopening }
    }

    /// Reads the directives of a payload.
    pub fn parse(payload: &str) -> (r: Result<ParsedPrDirectives, String>)
        ensures
            !regex_compiles(DIRECTIVE_DECISION@) ==> (r matches Err(e) && e@
                == "Directive regex failed: "@ + regex_error_text(DIRECTIVE_DECISION@)),
            regex_compiles(DIRECTIVE_DECISION@) && !regex_compiles(ISSUE_DIRECTIVE_EVENT@) ==> (
            r matches Err(e) && e@ == "Event regex failed: "@ + regex_error_text(
                ISSUE_DIRECTIVE_EVENT@,
            )),
            regex_compiles(DIRECTIVE_DECISION@) && regex_compiles(ISSUE_DIRECTIVE_EVENT@) ==> (
            r matches Ok(p) && parsed_matches(
                p,
                regex_captures(DIRECTIVE_DECISION@, payload@),
                regex_captures(ISSUE_DIRECTIVE_EVENT@, payload@),
            )),
    {
        let decision_caps = match captures_all(DIRECTIVE_DECISION, payload) {
            Ok(c) => c,
            Err(e) => {
                return Err(concat2("Directive regex failed: ", e.as_str()));
            },
        };
        let event_caps = match captures_all(ISSUE_DIRECTIVE_EVENT, payload) {
            Ok(c) => c,
            Err(e) => {
                return Err(concat2("Event regex failed: ", e.as_str()));
            },
        };
        Ok(Self::from_matches(&decision_caps, &event_caps))
    }
}

} // verus!
