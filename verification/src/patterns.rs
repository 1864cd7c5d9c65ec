//! The regular expressions of the automation commands, and the boundary to the
//! `regex` crate that evaluates them.
//!
//! Matching itself is done by `regex`; the library names what a search
//! returns (`regex_captures`, `regex_gaps`, `regex_matches`) and proves
//! everything it does with those results.

use vstd::prelude::*;

use crate::text::{chars_of, push_char};

verus! {

/// `Closes #12` / `fixes rejected owner/repo#12` references.
pub const ISSUE_REF: &'static str = r"(?i)\b(closes|fixes)\b\s+(rejected\s+)?[^#\s]*#([0-9]+)";

/// A closure reference already marked as rejected.
pub const REJECTED_REF: &'static str = r"(?i)\b(closes|fixes)\s+rejected\s+(#[0-9]+)\b";

/// A Markdown task-list checkbox.
pub const CHECKBOX: &'static str = r"- \[[ xX]\]";

/// `Directive Decision: #12 => close|reopen` lines.
pub const DIRECTIVE_DECISION: &'static str =
    r"(?im)^Directive Decision:\s*(#\d+)\s*=>\s*(close|reopen)\s*$";

/// Closing, cancelling and reopening directives.
pub const ISSUE_DIRECTIVE_EVENT: &'static str =
    r"(?i)\b(cancel-closes|closes|fixes|reopen|reopens)\b\s+(rejected\s+)?(#\d+)";

/// A checked `breaking change` checkbox line.
pub const BREAKING_CHANGE_CHECKBOX: &'static str =
    r"(?im)^\s*-\s*\[[xX]\]\s*breaking[\s_-]*change(?:\s|$)";

/// A `Breaking change:` label line.
pub const BREAKING_CHANGE_LABEL: &'static str = r"(?im)^\s*breaking[\s_-]*change\s*:";

/// `no breaking change` / `without breaking changes`.
pub const BREAKING_CHANGE_NEGATIVE: &'static str = r"(?i)\b(?:no|without)\s+breaking[\s_-]*changes?\b";

/// A conventional-commit subject with the `!` marker.
pub const BREAKING_CONVENTIONAL_COMMIT: &'static str =
    r"(?i)^\s*[a-z][a-z0-9_-]*(?:\([a-z0-9_.,/\-]+\))?!:\s+";

/// A conventional-commit subject with a scope and the `!` marker.
pub const BREAKING_SCOPE_SUBJECT: &'static str = r"(?i)^\s*[a-z][a-z0-9_-]*\(([a-z0-9_.,/\-]+)\)!:\s+";

/// A number reference inside free text.
pub const REFERENCE_IN_TEXT: &'static str = r"(?:^|[^\w])#?(\d+)\b";

/// The source branch of a merge commit message.
pub const MERGE_SOURCE_BRANCH: &'static str = r"(?m)^Merge pull request #[0-9]+ from [^/]+/(.+)$";

/// Shell tools that workflow files must not run.
pub const FORBIDDEN_COMMAND: &'static str = r"\b(bash|sh|python|python3|perl|corepack|jq|sed|awk|grep)\b";

/// The first pull request number inside a workflow-run event payload.
pub const WORKFLOW_RUN_PR_NUMBER: &'static str =
    r#"(?s)"pull_requests"\s*:\s*\[\s*\{.*?"number"\s*:\s*([0-9]+)"#;

/// What one search reports for each match: the text of every capture group,
/// group 0 being the whole match.
pub type CaptureTexts = Vec<Vec<Option<String>>>;

/// What `regex::Regex::new` gives for a pattern: success, or the `Display`
/// text of the error it reports.
pub uninterp spec fn regex_new(pattern: Seq<char>) -> Result<(), Seq<char>>;

/// Whether `regex::Regex::new` accepts the pattern.
pub open spec fn regex_compiles(pattern: Seq<char>) -> bool {
    regex_new(pattern) is Ok
}

/// The `Display` text of the error `regex::Regex::new` reports (empty when
/// it reports none).
pub open spec fn regex_error_text(pattern: Seq<char>) -> Seq<char> {
    match regex_new(pattern) {
        Ok(()) => Seq::<char>::empty(),
        Err(e) => e,
    }
}

/// The capture groups of the successive non-overlapping matches
/// (`Regex::captures_iter`).
pub uninterp spec fn regex_captures(pattern: Seq<char>, haystack: Seq<char>) -> Seq<
    Seq<Option<Seq<char>>>,
>;

/// The text between the successive matches (`Regex::split`).
pub uninterp spec fn regex_gaps(pattern: Seq<char>, haystack: Seq<char>) -> Seq<Seq<char>>;

/// Whether the pattern matches somewhere (`Regex::is_match`).
pub uninterp spec fn regex_matches(pattern: Seq<char>, haystack: Seq<char>) -> bool;

/// The view of one group.
pub open spec fn opt_view(o: Option<String>) -> Option<Seq<char>> {
    match o {
        Some(s) => Some(s@),
        None => None,
    }
}

/// The view of the groups of one match.
pub open spec fn groups_view(g: Vec<Option<String>>) -> Seq<Option<Seq<char>>> {
    g@.map_values(|o: Option<String>| opt_view(o))
}

/// The view of all matches.
pub open spec fn captures_view(c: Seq<Vec<Option<String>>>) -> Seq<Seq<Option<Seq<char>>>> {
    c.map_values(|g: Vec<Option<String>>| groups_view(g))
}

/// The view of a list of strings.
pub open spec fn strings_view(v: Seq<String>) -> Seq<Seq<char>> {
    v.map_values(|s: String| s@)
}

/// Group `k` of a match; a group the pattern does not have did not take part.
pub open spec fn group(g: Seq<Option<Seq<char>>>, k: int) -> Option<Seq<char>> {
    if 0 <= k < g.len() {
        g[k]
    } else {
        None
    }
}

/// The text of a group, or the empty text when it did not take part.
pub open spec fn group_text(g: Seq<Option<Seq<char>>>, k: int) -> Seq<char> {
    match group(g, k) {
        Some(t) => t,
        None => Seq::<char>::empty(),
    }
}

/// Compiles `pattern` (`regex::Regex::new`) and collects the capture groups of
/// every match in `haystack` (`Regex::captures_iter`), each group as its text.
/// Claims: `Ok` exactly when the pattern compiles, with the named capture
/// texts; otherwise the compiler's error text.
#[verifier::external_body]
pub(crate) fn captures_all(pattern: &str, haystack: &str) -> (r: Result<CaptureTexts, String>)
    ensures
        r is Ok <==> regex_new(pattern@) is Ok,
        r matches Ok(c) ==> captures_view(c@) == regex_captures(pattern@, haystack@),
        r matches Err(e) ==> (regex_new(pattern@) matches Err(t) && t == e@),
{
    match regex::Regex::new(pattern) {
        Ok(re) => Ok(
            re.captures_iter(haystack).map(
                |c| c.iter().map(|m| m.map(|m| m.as_str().to_string())).collect(),
            ).collect(),
        ),
        Err(e) => Err(e.to_string()),
    }
}

/// Compiles `pattern` and returns the pieces of `haystack` between its matches
/// (`Regex::split`). Claims: `Ok` exactly when the pattern compiles, with the
/// named pieces; otherwise the compiler's error text. `split` walks the same
/// matches as `captures_iter` (both run the same searcher over the haystack,
/// and `split` yields the text from the end of one match to the start of the
/// next, then the rest): so there is one piece more than there are matches,
/// and putting each match's text back between the pieces gives the haystack.
#[verifier::external_body]
pub(crate) fn gaps_all(pattern: &str, haystack: &str) -> (r: Result<Vec<String>, String>)
    ensures
        r is Ok <==> regex_new(pattern@) is Ok,
        r matches Ok(g) ==> strings_view(g@) == regex_gaps(pattern@, haystack@),
        r matches Ok(g) ==> g@.len() == regex_captures(pattern@, haystack@).len() + 1,
        r matches Ok(g) ==> splice(strings_view(g@), match_texts(regex_captures(pattern@, haystack@)))
            == haystack@,
        r matches Err(e) ==> (regex_new(pattern@) matches Err(t) && t == e@),
{
    match regex::Regex::new(pattern) {
        Ok(re) => Ok(re.split(haystack).map(|s| s.to_string()).collect()),
        Err(e) => Err(e.to_string()),
    }
}

/// Compiles `pattern` and reports whether it matches in `haystack`
/// (`Regex::is_match`). Claims: `Ok` exactly when the pattern compiles, with
/// the named answer; otherwise the compiler's error text.
#[verifier::external_body]
pub(crate) fn matches_in(pattern: &str, haystack: &str) -> (r: Result<bool, String>)
    ensures
        r is Ok <==> regex_new(pattern@) is Ok,
        r matches Ok(b) ==> b == regex_matches(pattern@, haystack@),
        r matches Err(e) ==> (regex_new(pattern@) matches Err(t) && t == e@),
{
    match regex::Regex::new(pattern) {
        Ok(re) => Ok(re.is_match(haystack)),
        Err(e) => Err(e.to_string()),
    }
}

/// The characters `regex::escape` prefixes with a backslash.
pub open spec fn is_meta(c: char) -> bool {
    c == '\\' || c == '.' || c == '+' || c == '*' || c == '?' || c == '(' || c == ')' || c == '|'
        || c == '[' || c == ']' || c == '{' || c == '}' || c == '^' || c == '$' || c == '#' || c
        == '&' || c == '-' || c == '~'
}

/// `regex::escape`: every meta character preceded by a backslash.
pub open spec fn escaped(s: Seq<char>) -> Seq<char>
    decreases s.len(),
{
    if s.len() == 0 {
        Seq::<char>::empty()
    } else {
        let rest = escaped(s.drop_last());
        if is_meta(s.last()) {
            rest.push('\\').push(s.last())
        } else {
            rest.push(s.last())
        }
    }
}

/// Whether a character is one `escape` prefixes with a backslash.
pub fn is_meta_char(c: char) -> (r: bool)
    ensures
        r == is_meta(c),
{
    c == '\\' || c == '.' || c == '+' || c == '*' || c == '?' || c == '(' || c == ')' || c == '|'
        || c == '[' || c == ']' || c == '{' || c == '}' || c == '^' || c == '$' || c == '#' || c
        == '&' || c == '-' || c == '~'
}

/// The text with each meta character preceded by a backslash, so that a
/// pattern matches it literally (what `regex::escape` gives).
pub fn escape(text: &str) -> (r: String)
    ensures
        r@ == escaped(text@),
{
    let v = chars_of(text);
    let mut out = String::new();
    let mut i: usize = 0;
    while i < v.len()
        invariant
            i <= v.len(),
            v@ == text@,
            out@ == escaped(v@.take(i as int)),
        decreases v.len() - i,
    {
        assert(v@.take(i + 1).drop_last() =~= v@.take(i as int));
        assert(v@.take(i + 1).last() == v@[i as int]);
        let c = v[i];
        if is_meta_char(c) {
            push_char(&mut out, '\\');
        }
        push_char(&mut out, c);
        i += 1;
    }
    assert(v@.take(v.len() as int) =~= v@);
    out
}

/// Group `k` of one match, as a string.
pub fn group_at(g: &Vec<Option<String>>, k: usize) -> (r: Option<String>)
    ensures
        opt_view(r) == group(groups_view(*g), k as int),
{
    if k < g.len() {
        match &g[k] {
            Some(s) => Some(s.clone()),
            None => None,
        }
    } else {
        None
    }
}

/// The text of group `k` of one match, or the empty string.
pub fn group_text_at(g: &Vec<Option<String>>, k: usize) -> (r: String)
    ensures
        r@ == group_text(groups_view(*g), k as int),
{
    match group_at(g, k) {
        Some(s) => s,
        None => String::new(),
    }
}

/// The text of a match (group 0).
pub open spec fn match_text(g: Seq<Option<Seq<char>>>) -> Seq<char> {
    group_text(g, 0)
}

/// The text of each match.
pub open spec fn match_texts(caps: Seq<Seq<Option<Seq<char>>>>) -> Seq<Seq<char>> {
    caps.map_values(|g: Seq<Option<Seq<char>>>| match_text(g))
}

/// `gaps[0] + reps[0] + gaps[1] + reps[1] + ... + gaps[n]`: the haystack with
/// each match replaced, given the pieces between the matches.
pub open spec fn splice(gaps: Seq<Seq<char>>, reps: Seq<Seq<char>>) -> Seq<char>
    decreases gaps.len(),
{
    if gaps.len() == 0 {
        Seq::<char>::empty()
    } else {
        let k = gaps.len() - 1;
        splice(gaps.take(k), reps) + (if k > 0 && k - 1 < reps.len() {
            reps[k - 1]
        } else {
            Seq::<char>::empty()
        }) + gaps[k]
    }
}

/// With a single piece there is nothing to put back: the splice is the
/// piece.
pub proof fn lemma_splice_one_piece(gaps: Seq<Seq<char>>, reps: Seq<Seq<char>>)
    requires
        gaps.len() == 1,
    ensures
        splice(gaps, reps) == gaps[0],
{
    assert(gaps.take(0) =~= Seq::<Seq<char>>::empty());
    assert(splice(gaps.take(0), reps) == Seq::<char>::empty());
    assert(splice(gaps, reps) =~= gaps[0]);
}

/// Joins the gaps with the replacements between them.
pub fn splice_strings(gaps: &Vec<String>, reps: &Vec<String>) -> (r: String)
    ensures
        r@ == splice(strings_view(gaps@), strings_view(reps@)),
{
    let ghost gv = strings_view(gaps@);
    let ghost rv = strings_view(reps@);
    let mut out = String::new();
    let mut i: usize = 0;
    while i < gaps.len()
        invariant
            i <= gaps.len(),
            gv == strings_view(gaps@),
            rv == strings_view(reps@),
            out@ == splice(gv.take(i as int), rv),
        decreases gaps.len() - i,
    {
        assert(gv.take(i + 1).take(i as int) =~= gv.take(i as int));
        assert(gv.take(i + 1)[i as int] == gv[i as int]);
        if i > 0 && i - 1 < reps.len() {
            out.append(reps[i - 1].as_str());
        }
        out.append(gaps[i].as_str());
        i += 1;
    }
    assert(gv.take(gaps.len() as int) =~= gv);
    out
}

} // verus!
