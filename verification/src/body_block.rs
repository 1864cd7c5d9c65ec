//! Blocks of a pull-request body that automation owns, delimited by marker
//! lines.

use vstd::prelude::*;

use crate::patterns::{
    captures_all, captures_view, escape, escaped, gaps_all, group_text_at, groups_view,
    lemma_splice_one_piece, match_text, match_texts, regex_captures, regex_compiles, regex_gaps, splice, splice_strings,
    strings_view,
};
use crate::pr_body::push_string;
use crate::text::{
    chars_of, collapse_blank_lines, collapse_blank_lines_chars, concat3, copy_str,
    strip_newlines, strip_newlines_chars, string_of,
};

verus! {

/// The pattern of a block: an optional newline, the start marker line, one
/// line, the end marker, an optional newline.
pub open spec fn block_pattern(start: Seq<char>, end: Seq<char>) -> Seq<char> {
    "\\n?"@ + escaped(start) + "\\n.*?\\n"@ + escaped(end) + "\\n?"@
}

/// Replacements that delete the first match and keep the others.
pub open spec fn first_removed(caps: Seq<Seq<Option<Seq<char>>>>) -> Seq<Seq<char>> {
    Seq::new(
        caps.len(),
        |j: int|
            if j == 0 {
                Seq::<char>::empty()
            } else {
                match_text(caps[j])
            },
    )
}

/// The body with the first block removed (unchanged when the pattern does not
/// compile).
pub open spec fn block_removed(body: Seq<char>, start: Seq<char>, end: Seq<char>) -> Seq<char> {
    let p = block_pattern(start, end);
    if regex_compiles(p) {
        splice(regex_gaps(p, body), first_removed(regex_captures(p, body)))
    } else {
        body
    }
}

/// What removing a block gives: the first block deleted, runs of blank lines
/// shortened, trailing newlines dropped.
pub open spec fn removed_text(body: Seq<char>, start: Seq<char>, end: Seq<char>) -> Seq<char> {
    strip_newlines(collapse_blank_lines(block_removed(body, start, end)))
}

/// What replacing a block gives.
pub open spec fn replaced_text(
    body: Seq<char>,
    start: Seq<char>,
    end: Seq<char>,
    replacement: Seq<char>,
) -> Seq<char> {
    let cleaned = removed_text(body, start, end);
    if replacement.len() == 0 {
        cleaned
    } else if cleaned.len() == 0 {
        replacement
    } else {
        cleaned + "\n\n"@ + replacement
    }
}

/// No three newlines follow each other.
pub open spec fn no_blank_run(s: Seq<char>) -> bool {
    forall|i: int| 0 <= i && i + 2 < s.len() ==> !(s[i] == '\n' && s[i + 1] == '\n' && #[trigger] s[i + 2] == '\n')
}

/// Shortening the runs of newlines leaves no three in a row.
proof fn lemma_collapse_no_blank_run(s: Seq<char>)
    ensures
        no_blank_run(collapse_blank_lines(s)),
    decreases s.len(),
{
    if s.len() > 0 {
        lemma_collapse_no_blank_run(s.drop_last());
        let r = collapse_blank_lines(s.drop_last());
        let c = s.last();
        if !(c == '\n' && r.len() >= 2 && r[r.len() - 1] == '\n' && r[r.len() - 2] == '\n') {
            let t = r.push(c);
            assert forall|i: int| 0 <= i && i + 2 < t.len() implies !(t[i] == '\n' && t[i + 1] == '\n'
                && #[trigger] t[i + 2] == '\n') by {
                if i + 2 < r.len() {
                    assert(t[i] == r[i] && t[i + 1] == r[i + 1] && t[i + 2] == r[i + 2]);
                } else {
                    assert(t[i] == r[r.len() - 2] && t[i + 1] == r[r.len() - 1]);
                }
            }
        }
    }
}

/// Dropping trailing newlines keeps a prefix and leaves no newline at the
/// end.
proof fn lemma_strip_newlines_prefix(s: Seq<char>)
    ensures
        strip_newlines(s).len() <= s.len(),
        strip_newlines(s) == s.take(strip_newlines(s).len() as int),
        strip_newlines(s).len() == 0 || strip_newlines(s).last() != '\n',
    decreases s.len(),
{
    if s.len() > 0 && s.last() == '\n' {
        lemma_strip_newlines_prefix(s.drop_last());
        let t = strip_newlines(s.drop_last());
        assert(s.drop_last().take(t.len() as int) =~= s.take(t.len() as int));
    } else {
        assert(s.take(s.len() as int) =~= s);
    }
}

/// A body with its block removed is tidy: no three newlines in a row, and
/// no newline at its end.
pub proof fn lemma_removed_text_tidy(body: Seq<char>, start: Seq<char>, end: Seq<char>)
    ensures
        no_blank_run(removed_text(body, start, end)),
        removed_text(body, start, end).len() == 0 || removed_text(body, start, end).last() != '\n',
{
    let c = collapse_blank_lines(block_removed(body, start, end));
    lemma_collapse_no_blank_run(block_removed(body, start, end));
    lemma_strip_newlines_prefix(c);
    let r = strip_newlines(c);
    assert forall|i: int| 0 <= i && i + 2 < r.len() implies !(r[i] == '\n' && r[i + 1] == '\n' && #[trigger] r[i + 2] == '\n') by {
        assert(r[i] == c[i] && r[i + 1] == c[i + 1] && r[i + 2] == c[i + 2]);
    }
}

/// Edits of automation-owned body blocks.
pub struct ManagedBodyBlock;

impl ManagedBodyBlock {
    /// The replacements that delete the first match.
    fn first_removed_strings(caps: &Vec<Vec<Option<String>>>) -> (r: Vec<String>)
        ensures
            strings_view(r@) == first_removed(captures_view(caps@)),
    {
        let ghost cv = captures_view(caps@);
        let mut reps: Vec<String> = Vec::new();
        let mut j: usize = 0;
        while j < caps.len()
            invariant
                j <= caps.len(),
                cv == captures_view(caps@),
                strings_view(reps@) == first_removed(cv).take(j as int),
            decreases caps.len() - j,
        {
            assert(cv[j as int] == groups_view(caps@[j as int]));
            if j == 0 {
                push_string(&mut reps, String::new());
            } else {
                push_string(&mut reps, group_text_at(&caps[j], 0));
            }
            j += 1;
            assert(first_removed(cv).take(j as int) =~= first_removed(cv).take(j - 1).push(
                first_removed(cv)[j - 1],
            ));
        }
        assert(first_removed(cv).take(caps.len() as int) =~= first_removed(cv));
        reps
    }

    /// Removes the first block between the markers, shortens runs of blank
    /// lines to one and drops trailing newlines.
    pub fn remove(body: &str, start_marker: &str, end_marker: &str) -> (r: String)
        ensures
            r@ == removed_text(body@, start_marker@, end_marker@),
            regex_captures(block_pattern(start_marker@, end_marker@), body@).len() == 0 ==> r@
                == strip_newlines(collapse_blank_lines(body@)),
    {
        let mut pattern = concat3("\\n?", escape(start_marker).as_str(), "\\n.*?\\n");
        pattern.append(escape(end_marker).as_str());
        pattern.append("\\n?");
        let cleaned = match (gaps_all(pattern.as_str(), body), captures_all(pattern.as_str(), body)) {
            (Ok(gaps), Ok(caps)) => {
                proof {
                    if caps@.len() == 0 {
                        let cv = regex_captures(pattern@, body@);
                        lemma_splice_one_piece(strings_view(gaps@), match_texts(cv));
                        lemma_splice_one_piece(strings_view(gaps@), first_removed(cv));
                    }
                }
                let reps = Self::first_removed_strings(&caps);
                splice_strings(&gaps, &reps)
            },
            _ => copy_str(body),
        };
        let c = chars_of(cleaned.as_str());
        let collapsed = collapse_blank_lines_chars(&c);
        let stripped = strip_newlines_chars(&collapsed);
        string_of(&stripped)
    }

    /// Replaces the block between the markers by `replacement`, appended
    /// after a blank line.
    pub fn replace(body: &str, start_marker: &str, end_marker: &str, replacement: &str) -> (r:
        String)
        ensures
            r@ == replaced_text(body@, start_marker@, end_marker@, replacement@),
    {
        let cleaned = Self::remove(body, start_marker, end_marker);
        if replacement.is_empty() {
            cleaned
        } else if cleaned.as_str().is_empty() {
            copy_str(replacement)
        } else {
            concat3(cleaned.as_str(), "\n\n", replacement)
        }
    }
}

} // verus!
