//! Breaking-change analysis of a pull request's commits, and the
//! `Validation Gate` section that reports it.

use vstd::prelude::*;

use crate::directives::keys_view;
use crate::patterns::{
    captures_all, captures_view, group_text, group_text_at, groups_view, matches_in,
    regex_captures, regex_compiles, regex_matches, strings_view, BREAKING_CHANGE_CHECKBOX,
    BREAKING_CHANGE_LABEL, BREAKING_CHANGE_NEGATIVE, BREAKING_CONVENTIONAL_COMMIT,
    BREAKING_SCOPE_SUBJECT,
};
use crate::pr_body::push_string;
use crate::text::{
    chars_of, concat2, concat3, contains, copy_str, ends_with, ends_with_str,
    find_chars, first_occurrence, join, join_strings, lemma_lex_lt_transitive,
    lemma_lex_lt_trichotomy, lex_less, lex_lt, lines, lines_chars, occurs_at, slice_chars,
    split_on, split_on_char, starts_with, strip_newlines, strip_newlines_chars, starts_with_str, str_eq, string_of, trim, trim_chars,
};

verus! {

// ---------------------------------------------------------------------------
// Recognizing breaking changes
// ---------------------------------------------------------------------------

/// Whether a commit text announces a breaking change: all four patterns
/// compile, no `no breaking change` phrase, and a checked breaking-change box,
/// a `Breaking change:` label, or a `!` conventional subject on the first line.
pub open spec fn indicates_breaking(text: Seq<char>) -> bool {
    &&& regex_compiles(BREAKING_CHANGE_NEGATIVE@)
    &&& regex_compiles(BREAKING_CHANGE_CHECKBOX@)
    &&& regex_compiles(BREAKING_CHANGE_LABEL@)
    &&& regex_compiles(BREAKING_CONVENTIONAL_COMMIT@)
    &&& !regex_matches(BREAKING_CHANGE_NEGATIVE@, text)
    &&& {
        ||| regex_matches(BREAKING_CHANGE_CHECKBOX@, text)
        ||| regex_matches(BREAKING_CHANGE_LABEL@, text)
        ||| lines(text).len() > 0 && regex_matches(BREAKING_CONVENTIONAL_COMMIT@, lines(text)[0])
    }
}

/// The trimmed, non-empty pieces of a comma-separated list.
pub open spec fn scope_list(parts: Seq<Seq<char>>) -> Seq<Seq<char>>
    decreases parts.len(),
{
    if parts.len() == 0 {
        parts
    } else {
        let rest = scope_list(parts.drop_last());
        if trim(parts.last()).len() > 0 {
            rest.push(trim(parts.last()))
        } else {
            rest
        }
    }
}

/// The scopes named in a breaking conventional subject `type(a, b)!: ...`.
pub open spec fn subject_scopes(subject: Seq<char>) -> Seq<Seq<char>> {
    let caps = regex_captures(BREAKING_SCOPE_SUBJECT@, subject);
    if !regex_compiles(BREAKING_SCOPE_SUBJECT@) || caps.len() == 0 {
        Seq::<Seq<char>>::empty()
    } else {
        scope_list(split_on(group_text(caps[0], 1), ','))
    }
}

/// The scope of a file that belongs to the root crate.
pub open spec fn root_scope() -> Seq<char> {
    "repo_base_template_scripting_public"@
}

/// Whether a file belongs to the root crate.
pub open spec fn root_crate_file(f: Seq<char>) -> bool {
    f == "Cargo.toml"@ || f == "Cargo.lock"@ || starts_with(f, "src/"@) || starts_with(
        f,
        ".cargo/"@,
    ) || starts_with(f, "rust-toolchain"@)
}

/// The last `/`-separated segment, if not empty.
pub open spec fn last_segment(prefix: Seq<char>) -> Option<Seq<char>> {
    let seg = split_on(prefix, '/').last();
    if seg.len() > 0 {
        Some(seg)
    } else {
        None
    }
}

/// The crate a file path belongs to: the directory holding a `Cargo.toml`,
/// or the directory before the first `/src/`.
pub open spec fn scope_from_path(f: Seq<char>) -> Option<Seq<char>> {
    if ends_with(f, "/Cargo.toml"@) {
        last_segment(f.take(f.len() - 11))
    } else if contains(f, "/src/"@) {
        last_segment(f.take(first_occurrence(f, "/src/"@)))
    } else {
        None
    }
}

/// The scopes inferred from changed files, in file order.
pub open spec fn inferred_scopes(files: Seq<Seq<char>>) -> Seq<Seq<char>>
    decreases files.len(),
{
    if files.len() == 0 {
        files
    } else {
        let rest = inferred_scopes(files.drop_last());
        match file_scope_of(files.last()) {
            Some(s) => rest.push(s),
            None => rest,
        }
    }
}

/// Strictly increasing in `str` order.
pub open spec fn strictly_sorted(q: Seq<Seq<char>>) -> bool {
    forall|i: int, j: int| 0 <= i < j < q.len() ==> lex_lt(q[i], q[j])
}

/// `q` is `xs` sorted with duplicates removed (`sort` then `dedup`).
pub open spec fn sorted_dedup_of(q: Seq<Seq<char>>, xs: Seq<Seq<char>>) -> bool {
    strictly_sorted(q) && forall|x: Seq<char>| q.contains(x) <==> xs.contains(x)
}

/// A commit record from the log: `(hash, subject, body)`.
pub open spec fn record_view(r: (String, String, String)) -> (Seq<char>, Seq<char>, Seq<char>) {
    (r.0@, r.1@, r.2@)
}

/// The text a record is analyzed by: the subject, then the body if any.
pub open spec fn record_text(r: (Seq<char>, Seq<char>, Seq<char>)) -> Seq<char> {
    if r.2.len() == 0 {
        r.1
    } else {
        r.1 + "\n"@ + r.2
    }
}

/// The first seven characters of a hash.
pub open spec fn short_hash(h: Seq<char>) -> Seq<char> {
    if h.len() > 7 {
        h.take(7)
    } else {
        h
    }
}

/// Adds the items not present yet, in order.
pub open spec fn add_new(acc: Seq<Seq<char>>, items: Seq<Seq<char>>) -> Seq<Seq<char>>
    decreases items.len(),
{
    if items.len() == 0 {
        acc
    } else {
        let a = add_new(acc, items.drop_last());
        if a.contains(items.last()) {
            a
        } else {
            a.push(items.last())
        }
    }
}

/// What reading the records gives: whether one announces a breaking change,
/// the scopes of their subjects, and their short hashes.
pub open spec fn analysis_of(records: Seq<(Seq<char>, Seq<char>, Seq<char>)>) -> (
    bool,
    Seq<Seq<char>>,
    Seq<Seq<char>>,
)
    decreases records.len(),
{
    if records.len() == 0 {
        (false, Seq::<Seq<char>>::empty(), Seq::<Seq<char>>::empty())
    } else {
        let (b, scopes, commits) = analysis_of(records.drop_last());
        let r = records.last();
        if !indicates_breaking(record_text(r)) {
            (b, scopes, commits)
        } else {
            let h = short_hash(r.0);
            let commits2 = if h.len() > 0 {
                add_new(commits, seq![h])
            } else {
                commits
            };
            (true, add_new(scopes, subject_scopes(r.1)), commits2)
        }
    }
}

/// The result of analyzing the commits of a branch range.
pub struct BreakingChangeAnalysis {
    pub is_breaking: bool,
    pub scopes: Vec<String>,
    pub commits: Vec<String>,
}

/// Whether some item equals `x`.
fn list_contains(v: &Vec<String>, x: &str) -> (r: bool)
    ensures
        r == strings_view(v@).contains(x@),
{
    let r = crate::directives::keys_contain(v, x);
    assert(keys_view(v@) =~= strings_view(v@));
    r
}

/// Adds the items not present yet.
fn add_new_items(acc: &mut Vec<String>, items: &Vec<String>)
    ensures
        strings_view(final(acc)@) == add_new(strings_view(old(acc)@), strings_view(items@)),
{
    let ghost a0 = strings_view(acc@);
    let ghost iv = strings_view(items@);
    let mut i: usize = 0;
    while i < items.len()
        invariant
            i <= items.len(),
            iv == strings_view(items@),
            strings_view(acc@) == add_new(a0, iv.take(i as int)),
        decreases items.len() - i,
    {
        assert(iv.take(i + 1).drop_last() =~= iv.take(i as int));
        let ghost before = strings_view(acc@);
        if !list_contains(acc, items[i].as_str()) {
            acc.push(items[i].clone());
            assert(strings_view(acc@) =~= before.push(iv[i as int]));
        }
        i += 1;
    }
    assert(iv.take(items.len() as int) =~= iv);
}

impl BreakingChangeAnalysis {
    /// Whether a commit text announces a breaking change.
    pub fn text_indicates_breaking_change(text: &str) -> (r: bool)
        ensures
            r == indicates_breaking(text@),
    {
        let negative = matches_in(BREAKING_CHANGE_NEGATIVE, text);
        let checkbox = matches_in(BREAKING_CHANGE_CHECKBOX, text);
        let label = matches_in(BREAKING_CHANGE_LABEL, text);
        let v = chars_of(text);
        let ls = lines_chars(&v);
        let first_line = if ls.len() > 0 {
            string_of(&ls[0])
        } else {
            String::new()
        };
        let conventional = matches_in(BREAKING_CONVENTIONAL_COMMIT, first_line.as_str());
        match (negative, checkbox, label, conventional) {
            (Ok(negative), Ok(checkbox), Ok(label), Ok(conventional)) => {
                if negative {
                    return false;
                }
                checkbox || label || (ls.len() > 0 && conventional)
            },
            _ => false,
        }
    }

    /// The scopes named in a breaking conventional subject.
    pub fn extract_breaking_scopes_from_subject(subject: &str) -> (r: Vec<String>)
        ensures
            strings_view(r@) == subject_scopes(subject@),
    {
        let caps = match captures_all(BREAKING_SCOPE_SUBJECT, subject) {
            Ok(c) => c,
            Err(_) => {
                return Vec::new();
            },
        };
        if caps.len() == 0 {
            return Vec::new();
        }
        assert(captures_view(caps@)[0] == groups_view(caps@[0]));
        let list = group_text_at(&caps[0], 1);
        let parts = split_on_char(&chars_of(list.as_str()), ',');
        let ghost pv = split_on(list@, ',');
        let mut out: Vec<String> = Vec::new();
        let mut i: usize = 0;
        while i < parts.len()
            invariant
                i <= parts.len(),
                parts@.len() == pv.len(),
                forall|k: int| 0 <= k < parts@.len() ==> #[trigger] parts@[k]@ == pv[k],
                strings_view(out@) == scope_list(pv.take(i as int)),
            decreases parts.len() - i,
        {
            assert(pv.take(i + 1).drop_last() =~= pv.take(i as int));
            let t = trim_chars(&parts[i]);
            if t.len() > 0 {
                let ghost before = strings_view(out@);
                out.push(string_of(&t));
                assert(strings_view(out@) =~= before.push(trim(pv[i as int])));
            }
            i += 1;
        }
        assert(pv.take(parts.len() as int) =~= pv);
        out
    }

    /// Whether a file belongs to the root crate.
    pub fn is_root_crate_file(file: &str) -> (r: bool)
        ensures
            r == root_crate_file(file@),
    {
        let v = chars_of(file);
        str_eq(file, "Cargo.toml") || str_eq(file, "Cargo.lock") || starts_with_str(&v, "src/")
            || starts_with_str(&v, ".cargo/") || starts_with_str(&v, "rust-toolchain")
    }

    /// The crate a file path belongs to.
    pub fn infer_scope_from_path(file: &str) -> (r: Option<String>)
        ensures
            match (r, scope_from_path(file@)) {
                (Some(a), Some(b)) => a@ == b,
                (None, None) => true,
                _ => false,
            },
    {
        let v = chars_of(file);
        if ends_with_str(&v, "/Cargo.toml") {
            assert("/Cargo.toml"@.len() == 11) by {
                reveal_strlit("/Cargo.toml");
            }
            let prefix = slice_chars(&v, 0, v.len() - 11);
            assert(prefix@ =~= v@.take(v@.len() - 11));
            return last_segment_of(&prefix);
        }
        let marker = chars_of("/src/");
        match find_chars(&v, &marker) {
            Some(i) => {
                assert(first_occurrence(v@, marker@) == i) by {
                    let f = first_occurrence(v@, marker@);
                    assert(occurs_at(v@, marker@, f) && forall|j: int|
                        0 <= j < f ==> !occurs_at(v@, marker@, j));
                    if f < i {
                    } else if f > i {
                    }
                }
                let prefix = slice_chars(&v, 0, i);
                assert(prefix@ =~= v@.take(i as int));
                last_segment_of(&prefix)
            },
            None => None,
        }
    }

    /// The scopes inferred from changed files.
    pub fn infer_scopes_from_files(files: &Vec<String>) -> (r: Vec<String>)
        ensures
            strings_view(r@) == inferred_scopes(strings_view(files@)),
    {
        let ghost fv = strings_view(files@);
        let mut scopes: Vec<String> = Vec::new();
        let mut i: usize = 0;
        while i < files.len()
            invariant
                i <= files.len(),
                fv == strings_view(files@),
                strings_view(scopes@) == inferred_scopes(fv.take(i as int)),
            decreases files.len() - i,
        {
            assert(fv.take(i + 1).drop_last() =~= fv.take(i as int));
            let ghost before = strings_view(scopes@);
            let ghost f = fv[i as int];
            assert(fv.take(i + 1).last() == f);
            match file_scope(files[i].as_str()) {
                Some(s) => {
                    push_string(&mut scopes, s);
                },
                None => {},
            }
            i += 1;
        }
        assert(fv.take(files.len() as int) =~= fv);
        scopes
    }

    /// Reads the commit records `(hash, subject, body)` of the range.
    pub fn from_commit_records(records: &Vec<(String, String, String)>) -> (r: Self)
        ensures
            (r.is_breaking, strings_view(r.scopes@), strings_view(r.commits@)) == analysis_of(
                records@.map_values(|x: (String, String, String)| record_view(x)),
            ),
    {
        let ghost rv = records@.map_values(|x: (String, String, String)| record_view(x));
        let mut is_breaking = false;
        let mut scopes: Vec<String> = Vec::new();
        let mut commits: Vec<String> = Vec::new();
        let mut i: usize = 0;
        while i < records.len()
            invariant
                i <= records.len(),
                rv == records@.map_values(|x: (String, String, String)| record_view(x)),
                (is_breaking, strings_view(scopes@), strings_view(commits@)) == analysis_of(
                    rv.take(i as int),
                ),
            decreases records.len() - i,
        {
            assert(rv.take(i + 1).drop_last() =~= rv.take(i as int));
            let (hash, subject, body) = (
                records[i].0.as_str(),
                records[i].1.as_str(),
                records[i].2.as_str(),
            );
            assert(rv.take(i + 1).last() == (hash@, subject@, body@));
            let combined = if body.is_empty() {
                copy_str(subject)
            } else {
                concat3(subject, "\n", body)
            };
            if Self::text_indicates_breaking_change(combined.as_str()) {
                is_breaking = true;
                let hv = chars_of(hash);
                let n = if hv.len() > 7 {
                    7
                } else {
                    hv.len()
                };
                let short = slice_chars(&hv, 0, n);
                assert(short@ =~= crate::breaking::short_hash(hash@));
                if short.len() > 0 {
                    let one = vec![string_of(&short)];
                    assert(strings_view(one@) =~= seq![short@]);
                    add_new_items(&mut commits, &one);
                }
                let found = Self::extract_breaking_scopes_from_subject(subject);
                add_new_items(&mut scopes, &found);
            }
            i += 1;
        }
        assert(rv.take(records.len() as int) =~= rv);
        Self { is_breaking, scopes, commits }
    }

    /// When a breaking change was found without scopes, the scopes inferred
    /// from the changed files, sorted without duplicates.
    pub fn with_inferred_scopes(self, files: &Vec<String>) -> (r: Self)
        ensures
            r.is_breaking == self.is_breaking,
            r.commits == self.commits,
            self.is_breaking && self.scopes@.len() == 0 ==> sorted_dedup_of(
                strings_view(r.scopes@),
                inferred_scopes(strings_view(files@)),
            ),
            !(self.is_breaking && self.scopes@.len() == 0) ==> r.scopes == self.scopes,
    {
        if self.is_breaking && self.scopes.len() == 0 {
            let inferred = Self::infer_scopes_from_files(files);
            let scopes = sort_dedup(&inferred);
            Self { is_breaking: self.is_breaking, scopes, commits: self.commits }
        } else {
            self
        }
    }

    /// Whether a breaking change was found.
    pub fn is_breaking(&self) -> (r: bool)
        ensures
            r == self.is_breaking,
    {
        self.is_breaking
    }

    /// The affected scopes.
    pub fn scopes(&self) -> (r: &Vec<String>)
        ensures
            r == &self.scopes,
    {
        &self.scopes
    }

    /// The short hashes of the breaking commits.
    pub fn commits(&self) -> (r: &Vec<String>)
        ensures
            r == &self.commits,
    {
        &self.commits
    }
}

/// The scope a changed file contributes.
pub open spec fn file_scope_of(f: Seq<char>) -> Option<Seq<char>> {
    if root_crate_file(f) {
        Some(root_scope())
    } else {
        scope_from_path(f)
    }
}

/// The scope a changed file contributes.
fn file_scope(file: &str) -> (r: Option<String>)
    ensures
        match (r, file_scope_of(file@)) {
            (Some(a), Some(b)) => a@ == b,
            (None, None) => true,
            _ => false,
        },
{
    if BreakingChangeAnalysis::is_root_crate_file(file) {
        Some(copy_str("repo_base_template_scripting_public"))
    } else {
        BreakingChangeAnalysis::infer_scope_from_path(file)
    }
}

/// The last `/`-separated segment, if not empty.
fn last_segment_of(prefix: &Vec<char>) -> (r: Option<String>)
    ensures
        match (r, last_segment(prefix@)) {
            (Some(a), Some(b)) => a@ == b,
            (None, None) => true,
            _ => false,
        },
{
    let parts = split_on_char(prefix, '/');
    proof {
        crate::text::lemma_split_nonempty(prefix@, '/');
    }
    let seg = &parts[parts.len() - 1];
    if seg.len() > 0 {
        Some(string_of(seg))
    } else {
        None
    }
}

proof fn lemma_push_contains(s: Seq<Seq<char>>, x: Seq<char>, y: Seq<char>)
    ensures
        s.push(x).contains(y) <==> (s.contains(y) || y == x),
{
    if s.push(x).contains(y) && y != x {
        let k = choose|k: int| 0 <= k < s.push(x).len() && #[trigger] s.push(x)[k] == y;
        assert(s[k] == y);
    }
    if s.contains(y) {
        let k = choose|k: int| 0 <= k < s.len() && #[trigger] s[k] == y;
        assert(s.push(x)[k] == y);
    }
    if y == x {
        assert(s.push(x)[s.len() as int] == y);
    }
}

proof fn lemma_insert_contains(s: Seq<Seq<char>>, pos: int, x: Seq<char>, y: Seq<char>)
    requires
        0 <= pos <= s.len(),
    ensures
        s.insert(pos, x).contains(y) <==> (s.contains(y) || y == x),
{
    let q = s.insert(pos, x);
    if q.contains(y) && y != x {
        let k = choose|k: int| 0 <= k < q.len() && #[trigger] q[k] == y;
        if k < pos {
            assert(s[k] == y);
        } else {
            assert(s[k - 1] == y);
        }
    }
    if s.contains(y) {
        let k = choose|k: int| 0 <= k < s.len() && #[trigger] s[k] == y;
        if k < pos {
            assert(q[k] == y);
        } else {
            assert(q[k + 1] == y);
        }
    }
    if y == x {
        assert(q[pos] == y);
    }
}

/// Sorts strings in `str` order and drops duplicates.
pub fn sort_dedup(xs: &Vec<String>) -> (r: Vec<String>)
    ensures
        sorted_dedup_of(strings_view(r@), strings_view(xs@)),
{
    let ghost xv = strings_view(xs@);
    let mut r: Vec<String> = Vec::new();
    let mut rc: Vec<Vec<char>> = Vec::new();
    let mut i: usize = 0;
    while i < xs.len()
        invariant
            i <= xs.len(),
            xv == strings_view(xs@),
            rc@.len() == r@.len(),
            forall|k: int| 0 <= k < r@.len() ==> #[trigger] rc@[k]@ == r@[k]@,
            strictly_sorted(strings_view(r@)),
            forall|x: Seq<char>| strings_view(r@).contains(x) <==> xv.take(i as int).contains(x),
        decreases xs.len() - i,
    {
        let x = chars_of(xs[i].as_str());
        let mut pos: usize = r.len();
        while pos > 0 && lex_less(&x, &rc[pos - 1])
            invariant
                pos <= r@.len(),
                rc@.len() == r@.len(),
                forall|k: int| 0 <= k < r@.len() ==> #[trigger] rc@[k]@ == r@[k]@,
                forall|k: int| pos <= k < r@.len() ==> lex_lt(x@, #[trigger] r@[k]@),
            decreases pos,
        {
            pos -= 1;
        }
        let ghost before = strings_view(r@);
        assert(xv.take(i + 1) =~= xv.take(i as int).push(x@));
        if pos > 0 && crate::text::eq_chars(&x, &rc[pos - 1]) {
            assert forall|y: Seq<char>| strings_view(r@).contains(y) <==> xv.take(i + 1).contains(
                y,
            ) by {
                lemma_push_contains(xv.take(i as int), x@, y);
                if y == x@ {
                    assert(before[pos - 1] == x@);
                }
            }
        } else {
            proof {
                if pos > 0 {
                    lemma_lex_lt_trichotomy(x@, before[pos - 1]);
                    assert(lex_lt(before[pos - 1], x@));
                }
            }
            let item = xs[i].clone();
            r.insert(pos, item);
            rc.insert(pos, x);
            proof {
                let q = strings_view(r@);
                assert(q =~= before.insert(pos as int, x@));
                assert forall|a: int, b: int| 0 <= a < b < q.len() implies lex_lt(q[a], q[b]) by {
                    if b == pos as int {
                        if a < pos - 1 {
                            lemma_lex_lt_transitive(before[a], before[pos - 1], x@);
                        }
                    } else if a == pos as int {
                        assert(q[b] == before[b - 1]);
                        assert(r@[b]@ == before[b - 1]);
                    } else if a < pos && b > pos {
                        assert(lex_lt(x@, before[b - 1]));
                        if a < pos - 1 {
                            lemma_lex_lt_transitive(before[a], before[pos - 1], x@);
                        }
                        lemma_lex_lt_transitive(before[a], x@, before[b - 1]);
                    }
                }
                assert forall|y: Seq<char>| q.contains(y) <==> xv.take(i + 1).contains(y) by {
                    lemma_push_contains(xv.take(i as int), x@, y);
                    lemma_insert_contains(before, pos as int, x@, y);
                }
            }
        }
        i += 1;
    }
    assert(xv.take(xs.len() as int) =~= xv);
    r
}

// ---------------------------------------------------------------------------
// The Validation Gate section
// ---------------------------------------------------------------------------

/// Each item in backticks, joined by `, `; `unknown` when there are none.
pub open spec fn code_list(items: Seq<Seq<char>>) -> Seq<char> {
    if items.len() == 0 {
        "unknown"@
    } else {
        join(items.map_values(|s: Seq<char>| "`"@ + s + "`"@), ", "@)
    }
}

/// The lines of the Validation Gate section.
pub open spec fn gate_lines(is_breaking: bool, scopes: Seq<Seq<char>>, commits: Seq<Seq<char>>) -> Seq<
    Seq<char>,
> {
    if is_breaking {
        seq![
            "### Validation Gate"@,
            ""@,
            "- Breaking change"@,
            "- Breaking scope:"@,
            "  - crate(s): "@ + code_list(scopes),
            "  - source commit(s): "@ + code_list(commits),
        ]
    } else {
        seq!["### Validation Gate"@, ""@, "- No breaking change"@]
    }
}

/// The Validation Gate section.
pub open spec fn gate_text(is_breaking: bool, scopes: Seq<Seq<char>>, commits: Seq<Seq<char>>) -> Seq<
    char,
> {
    join(gate_lines(is_breaking, scopes, commits), "\n"@)
}

/// The body with its Validation Gate section replaced by `section`: the text
/// from `### Validation Gate\n` up to the next `\n### Issue Outcomes\n` is
/// replaced; without both markers the section is appended after a blank line.
pub open spec fn gate_replaced(body: Seq<char>, section: Seq<char>) -> Seq<char> {
    let start_marker = "### Validation Gate\n"@;
    let marker = "\n### Issue Outcomes\n"@;
    if contains(body, start_marker) && contains(body.skip(first_occurrence(body, start_marker)), marker) {
        let start = first_occurrence(body, start_marker);
        let end = start + first_occurrence(body.skip(start), marker);
        body.take(start) + section + marker + body.skip(end + marker.len())
    } else {
        let base = strip_newlines(body);
        if base.len() == 0 {
            section
        } else {
            base + "\n\n"@ + section
        }
    }
}

/// The Validation Gate section of a pull request.
pub struct ValidationGateState {
    pub breaking_change: BreakingChangeAnalysis,
}

/// Each item in backticks, joined by `, `; `unknown` when there are none.
fn code_list_string(items: &Vec<String>) -> (r: String)
    ensures
        r@ == code_list(strings_view(items@)),
{
    if items.len() == 0 {
        return copy_str("unknown");
    }
    let ghost iv = strings_view(items@);
    let mut quoted: Vec<String> = Vec::new();
    let mut i: usize = 0;
    while i < items.len()
        invariant
            i <= items.len(),
            iv == strings_view(items@),
            strings_view(quoted@) == iv.take(i as int).map_values(|s: Seq<char>| "`"@ + s + "`"@),
        decreases items.len() - i,
    {
        push_string(&mut quoted, concat3("`", items[i].as_str(), "`"));
        i += 1;
        assert(iv.take(i as int).map_values(|s: Seq<char>| "`"@ + s + "`"@) =~= iv.take(
            i - 1,
        ).map_values(|s: Seq<char>| "`"@ + s + "`"@).push("`"@ + iv[i - 1] + "`"@));
    }
    assert(iv.take(items.len() as int) =~= iv);
    assert(quoted@.map_values(|p: String| p@) =~= strings_view(quoted@));
    join_strings(&quoted, ", ")
}

/// The first occurrence found by `find_chars` is `first_occurrence`.
proof fn lemma_found_first(s: Seq<char>, p: Seq<char>, i: int)
    requires
        occurs_at(s, p, i),
        forall|j: int| 0 <= j < i ==> !occurs_at(s, p, j),
    ensures
        first_occurrence(s, p) == i,
        contains(s, p),
{
    let f = first_occurrence(s, p);
    assert(occurs_at(s, p, f) && forall|j: int| 0 <= j < f ==> !occurs_at(s, p, j));
    if f < i {
    } else if f > i {
    }
}

/// When `p` occurs in `s`, the first occurrence is an occurrence with none
/// before it.
proof fn lemma_first_occurrence_exists(s: Seq<char>, p: Seq<char>, i: int)
    requires
        occurs_at(s, p, i),
    ensures
        occurs_at(s, p, first_occurrence(s, p)),
        forall|j: int| 0 <= j < first_occurrence(s, p) ==> !occurs_at(s, p, j),
    decreases i,
{
    if exists|j: int| 0 <= j < i && occurs_at(s, p, j) {
        let j = choose|j: int| 0 <= j < i && occurs_at(s, p, j);
        lemma_first_occurrence_exists(s, p, j);
    } else {
        assert(occurs_at(s, p, i) && forall|j: int| 0 <= j < i ==> !occurs_at(s, p, j));
    }
}

/// The heading the Validation Gate section starts with.
pub open spec fn gate_heading() -> Seq<char> {
    "### Validation Gate\n"@
}

/// The heading of the section that follows the Validation Gate.
pub open spec fn outcomes_heading() -> Seq<char> {
    "\n### Issue Outcomes\n"@
}

/// A join of at least two parts starts with the first two parts and the
/// separator between them.
proof fn lemma_join_starts(parts: Seq<Seq<char>>, sep: Seq<char>)
    requires
        parts.len() >= 2,
    ensures
        starts_with(join(parts, sep), parts[0] + sep + parts[1]),
    decreases parts.len(),
{
    let p = parts[0] + sep + parts[1];
    if parts.len() == 2 {
        assert(parts.drop_last().len() == 1);
        assert(join(parts.drop_last(), sep) == parts.drop_last()[0]);
        assert(join(parts, sep) == join(parts.drop_last(), sep) + sep + parts.last());
        assert(join(parts, sep) =~= p);
        assert(join(parts, sep).take(p.len() as int) =~= p);
    } else {
        let t = parts.drop_last();
        lemma_join_starts(t, sep);
        assert(t[0] == parts[0] && t[1] == parts[1]);
        let j = join(parts, sep);
        assert(j == join(t, sep) + sep + parts.last());
        assert(j.take(p.len() as int) =~= join(t, sep).take(p.len() as int));
    }
}

/// The rendered Validation Gate section starts with its heading.
pub proof fn lemma_gate_text_heading(is_breaking: bool, scopes: Seq<Seq<char>>, commits: Seq<Seq<char>>)
    ensures
        starts_with(gate_text(is_breaking, scopes, commits), gate_heading()),
{
    let lines = gate_lines(is_breaking, scopes, commits);
    lemma_join_starts(lines, "\n"@);
    reveal_strlit("### Validation Gate");
    reveal_strlit("");
    reveal_strlit("\n");
    reveal_strlit("### Validation Gate\n");
    assert(lines[0] + "\n"@ + lines[1] =~= gate_heading());
}

/// Refreshing the Validation Gate twice with the same section gives the body
/// of one refresh, in a body whose gate is followed by the Issue Outcomes
/// heading, for a section that starts with the Validation Gate heading and does not
/// reach the Issue Outcomes heading before its own end.
pub proof fn lemma_gate_refresh_idempotent(body: Seq<char>, section: Seq<char>)
    requires
        contains(body, gate_heading()),
        contains(body.skip(first_occurrence(body, gate_heading())), outcomes_heading()),
        starts_with(section, gate_heading()),
        forall|j: int| 0 <= j < section.len() ==> !occurs_at(section + outcomes_heading(), outcomes_heading(), j),
    ensures
        gate_replaced(gate_replaced(body, section), section) == gate_replaced(body, section),
{
    let sm = gate_heading();
    let m = outcomes_heading();
    assert(sm == "### Validation Gate\n"@);
    assert(m == "\n### Issue Outcomes\n"@);
    let i0 = choose|i: int| occurs_at(body, sm, i);
    lemma_first_occurrence_exists(body, sm, i0);
    let start = first_occurrence(body, sm);
    let rest = body.skip(start);
    let k0 = choose|i: int| occurs_at(rest, m, i);
    lemma_first_occurrence_exists(rest, m, k0);
    let end = start + first_occurrence(rest, m);
    let a = body.take(start);
    let c = body.skip(end + m.len());
    let once = a + section + m + c;
    assert(gate_replaced(body, section) == once);
    // The Validation Gate heading first occurs where the section starts.
    assert(occurs_at(once, sm, start)) by {
        assert(once.subrange(start, start + sm.len()) =~= section.subrange(0, sm.len() as int));
        assert(section.take(sm.len() as int) == sm);
    }
    assert forall|j: int| 0 <= j < start implies !occurs_at(once, sm, j) by {
        if occurs_at(once, sm, j) {
            assert(body.subrange(start, start + sm.len()) == sm);
            let x = once.subrange(j, j + sm.len());
            let y = body.subrange(j, j + sm.len());
            assert forall|t: int| 0 <= t < sm.len() implies #[trigger] x[t] == y[t] by {
                if j + t < start {
                    assert(x[t] == a[j + t]);
                } else {
                    assert(x[t] == section[j + t - start]);
                    assert(section.take(sm.len() as int)[j + t - start] == sm[j + t - start]);
                    assert(y[t] == body.subrange(start, start + sm.len())[j + t - start]);
                }
            }
            assert(y =~= x);
            assert(occurs_at(body, sm, j));
        }
    }
    lemma_found_first(once, sm, start);
    // After it, the outcomes heading first occurs right after the section.
    let rest2 = once.skip(start);
    assert(rest2 =~= section + m + c);
    assert(occurs_at(rest2, m, section.len() as int)) by {
        assert(rest2.subrange(section.len() as int, (section.len() + m.len()) as int) =~= m);
    }
    assert forall|j: int| 0 <= j < section.len() implies !occurs_at(rest2, m, j) by {
        if occurs_at(rest2, m, j) {
            assert((section + m).subrange(j, j + m.len()) =~= rest2.subrange(j, j + m.len()));
            assert(occurs_at(section + m, m, j));
        }
    }
    lemma_found_first(rest2, m, section.len() as int);
    assert(once.take(start) =~= a);
    assert(once.skip(start + section.len() + m.len()) =~= c);
    assert(gate_replaced(once, section) =~= once);
}

/// Where the Validation Gate heading first starts in a body.
pub open spec fn gate_start(body: Seq<char>) -> int {
    first_occurrence(body, gate_heading())
}

/// Where the Issue Outcomes heading first starts after the Validation Gate
/// heading.
pub open spec fn outcomes_start(body: Seq<char>) -> int {
    gate_start(body) + first_occurrence(body.skip(gate_start(body)), outcomes_heading())
}

/// The replaced body: the text before the Validation Gate, the section, and everything
/// from the Issue Outcomes heading on.
proof fn lemma_gate_replaced_shape(body: Seq<char>, section: Seq<char>)
    requires
        contains(body, gate_heading()),
        contains(body.skip(gate_start(body)), outcomes_heading()),
    ensures
        gate_replaced(body, section) == body.take(gate_start(body)) + section + body.skip(outcomes_start(body)),
{
    let m = outcomes_heading();
    assert(m == "\n### Issue Outcomes\n"@);
    let start = gate_start(body);
    let rest = body.skip(start);
    let k0 = choose|i: int| occurs_at(rest, m, i);
    lemma_first_occurrence_exists(rest, m, k0);
    let i0 = choose|i: int| occurs_at(body, gate_heading(), i);
    lemma_first_occurrence_exists(body, gate_heading(), i0);
    let k = first_occurrence(rest, m);
    let end = start + k;
    assert(rest.subrange(k, k + m.len()) == m);
    assert forall|t: int| 0 <= t < m.len() implies #[trigger] body.skip(end)[t] == m[t] by {
        assert(body.skip(end)[t] == rest[k + t]);
        assert(rest.subrange(k, k + m.len())[t] == rest[k + t]);
    }
    assert(body.skip(end) =~= m + body.skip(end + m.len()));
}

/// Replacing the Validation Gate of a pull request's body: when the body
/// holds the Validation Gate heading followed by the Issue Outcomes heading, the text
/// before the Validation Gate and everything from the Issue Outcomes heading on are
/// kept, the rendered section stands between them, and replacing again
/// changes nothing. This holds for every analysis whose rendered section
/// does not itself reach the Issue Outcomes heading before its end.
pub proof fn lemma_gate_replacement_settles(
    body: Seq<char>,
    is_breaking: bool,
    scopes: Seq<Seq<char>>,
    commits: Seq<Seq<char>>,
)
    requires
        contains(body, gate_heading()),
        contains(body.skip(gate_start(body)), outcomes_heading()),
        forall|j: int|
            0 <= j < gate_text(is_breaking, scopes, commits).len() ==> !occurs_at(
                gate_text(is_breaking, scopes, commits) + outcomes_heading(),
                outcomes_heading(),
                j,
            ),
    ensures
        gate_replaced(body, gate_text(is_breaking, scopes, commits)) == body.take(gate_start(body))
            + gate_text(is_breaking, scopes, commits) + body.skip(outcomes_start(body)),
        gate_replaced(gate_replaced(body, gate_text(is_breaking, scopes, commits)), gate_text(is_breaking, scopes, commits))
            == gate_replaced(body, gate_text(is_breaking, scopes, commits)),
{
    lemma_gate_text_heading(is_breaking, scopes, commits);
    lemma_gate_refresh_idempotent(body, gate_text(is_breaking, scopes, commits));
    lemma_gate_replaced_shape(body, gate_text(is_breaking, scopes, commits));
}

impl ValidationGateState {
    /// The section for an analysis.
    pub fn new(breaking_change: BreakingChangeAnalysis) -> (r: Self)
        ensures
            r.breaking_change == breaking_change,
    {
        Self { breaking_change }
    }

    /// Renders the section: the breaking change with its scopes and commits,
    /// or `No breaking change`.
    pub fn render_section(&self) -> (r: String)
        ensures
            r@ == gate_text(
                self.breaking_change.is_breaking,
                strings_view(self.breaking_change.scopes@),
                strings_view(self.breaking_change.commits@),
            ),
    {
        let mut lines: Vec<String> = Vec::new();
        push_string(&mut lines, copy_str("### Validation Gate"));
        push_string(&mut lines, copy_str(""));
        if self.breaking_change.is_breaking() {
            push_string(&mut lines, copy_str("- Breaking change"));
            push_string(&mut lines, copy_str("- Breaking scope:"));
            push_string(
                &mut lines,
                concat2("  - crate(s): ", code_list_string(self.breaking_change.scopes()).as_str()),
            );
            push_string(
                &mut lines,
                concat2(
                    "  - source commit(s): ",
                    code_list_string(self.breaking_change.commits()).as_str(),
                ),
            );
        } else {
            push_string(&mut lines, copy_str("- No breaking change"));
        }
        assert(strings_view(lines@) =~= gate_lines(
            self.breaking_change.is_breaking,
            strings_view(self.breaking_change.scopes@),
            strings_view(self.breaking_change.commits@),
        ));
        assert(lines@.map_values(|p: String| p@) =~= strings_view(lines@));
        join_strings(&lines, "\n")
    }

    /// The body with its Validation Gate section replaced (or appended).
    pub fn replace_in_body(&self, body: &str) -> (r: String)
        ensures
            r@ == gate_replaced(
                body@,
                gate_text(
                    self.breaking_change.is_breaking,
                    strings_view(self.breaking_change.scopes@),
                    strings_view(self.breaking_change.commits@),
                ),
            ),
    {
        let section = self.render_section();
        let b = chars_of(body);
        let start_marker = chars_of("### Validation Gate\n");
        let marker = chars_of("\n### Issue Outcomes\n");
        match find_chars(&b, &start_marker) {
            Some(start) => {
                proof {
                    lemma_found_first(b@, start_marker@, start as int);
                }
                let rest = slice_chars(&b, start, b.len());
                assert(rest@ =~= b@.skip(start as int));
                match find_chars(&rest, &marker) {
                    Some(rel) => {
                        proof {
                            lemma_found_first(rest@, marker@, rel as int);
                        }
                        let end = start + rel;
                        let mut updated = String::new();
                        crate::text::push_chars(&mut updated, &b, 0, start);
                        updated.append(section.as_str());
                        updated.append("\n### Issue Outcomes\n");
                        crate::text::push_chars(&mut updated, &b, end + marker.len(), b.len());
                        assert(b@.subrange(0, start as int) =~= b@.take(start as int));
                        assert(b@.subrange((end + marker.len()) as int, b@.len() as int)
                            =~= b@.skip(end + marker@.len()));
                        return updated;
                    },
                    None => {},
                }
            },
            None => {},
        }
        let base = strip_newlines_chars(&b);
        if base.len() == 0 {
            section
        } else {
            let mut s = string_of(&base);
            s.append("\n\n");
            s.append(section.as_str());
            s
        }
    }
}

} // verus!
