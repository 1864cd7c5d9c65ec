//! Issue and pull-request references: parsing `#12`-style numbers, finding
//! them in free text and collecting them from selected lines.

use vstd::prelude::*;

use crate::patterns::{
    captures_all, captures_view, group, group_at, groups_view, regex_captures, regex_compiles,
    strings_view, CaptureTexts, REFERENCE_IN_TEXT,
};
use crate::text::{
    chars_of, contains, contains_str, copy_str, decimal, join, join_strings, lower, lower_chars,
    is_ws, lemma_decimal_digits, parse_u64, parse_u64_chars, push_char, push_decimal, slice_chars,
    trim, trim_chars, trim_end, trim_start, u64_to_string,
};

verus! {

/// What a reference number designates, once known.
#[derive(Clone, Copy, Debug, PartialEq, Eq, Structural)]
pub enum ReferenceKind {
    Issue,
    PullRequest,
}

/// A reference number, optionally qualified by its kind.
#[derive(Clone, Copy, Debug, PartialEq, Eq)]
pub struct ReferenceNumber {
    pub value: u64,
    pub kind: Option<ReferenceKind>,
}

/// Drops every leading `#` (`str::trim_start_matches('#')`).
pub open spec fn strip_hashes(s: Seq<char>) -> Seq<char>
    decreases s.len(),
{
    if s.len() > 0 && s[0] == '#' {
        strip_hashes(s.drop_first())
    } else {
        s
    }
}

/// The number a reference text stands for: trimmed, leading `#`s dropped,
/// then read as a `u64`.
pub open spec fn reference_value(raw: Seq<char>) -> Option<u64> {
    let number = strip_hashes(trim(raw));
    if number.len() == 0 {
        None
    } else {
        parse_u64(number)
    }
}

/// The reference parsed from a text, with no kind.
pub open spec fn parsed_reference(raw: Seq<char>) -> Option<ReferenceNumber> {
    match reference_value(raw) {
        Some(v) => Some(ReferenceNumber { value: v, kind: None }),
        None => None,
    }
}

/// `#<n>`.
pub open spec fn show_number_of(value: u64) -> Seq<char> {
    seq!['#'] + decimal(value as nat)
}

/// Reading back what `show_number` writes gives the same number: for every
/// `v`, the text `#<v>` parses as the reference `v`, with no kind.
pub proof fn lemma_show_number_parses_back(v: u64)
    ensures
        parsed_reference(show_number_of(v)) == Some(ReferenceNumber { value: v, kind: None }),
{
    let d = decimal(v as nat);
    let s = show_number_of(v);
    lemma_decimal_digits(v as nat);
    assert(s.drop_first() =~= d);
    assert('0' <= d[0] <= '9');
    assert('0' <= d.last() <= '9');
    assert(s.last() == d.last());
    assert(!is_ws(s[0]));
    assert(!is_ws(s.last()));
    assert(trim_start(s) == s);
    assert(trim_end(s) == s);
    assert(trim(s) == s);
    assert(strip_hashes(d) == d);
    assert(strip_hashes(s) == d);
    assert(reference_value(s) == Some(v));
}

/// Drops every leading `#`.
pub fn strip_hashes_chars(v: &Vec<char>) -> (r: Vec<char>)
    ensures
        r@ == strip_hashes(v@),
{
    let mut i: usize = 0;
    assert(v@.skip(0) =~= v@);
    while i < v.len() && v[i] == '#'
        invariant
            i <= v.len(),
            strip_hashes(v@) == strip_hashes(v@.skip(i as int)),
        decreases v.len() - i,
    {
        assert(v@.skip(i as int).drop_first() =~= v@.skip(i + 1));
        i += 1;
    }
    assert(v@.skip(i as int) =~= v@.subrange(i as int, v@.len() as int));
    slice_chars(v, i, v.len())
}

impl ReferenceNumber {
    /// A reference of unknown kind.
    pub fn new(value: u64) -> (r: Self)
        ensures
            r == (ReferenceNumber { value, kind: None }),
    {
        Self { value, kind: None }
    }

    /// Parses `12`, `#12`, ` ##12 `; anything else is `None`.
    pub fn parse(raw: &str) -> (r: Option<Self>)
        ensures
            r == parsed_reference(raw@),
    {
        let chars = chars_of(raw);
        let trimmed = trim_chars(&chars);
        let number = strip_hashes_chars(&trimmed);
        if number.len() == 0 {
            return None;
        }
        match parse_u64_chars(&number) {
            Some(v) => Some(Self::new(v)),
            None => None,
        }
    }

    /// The same number with the given kind.
    pub fn with_kind(self, kind: ReferenceKind) -> (r: Self)
        ensures
            r == (ReferenceNumber { value: self.value, kind: Some(kind) }),
    {
        Self { value: self.value, kind: Some(kind) }
    }

    /// The number.
    pub fn value(&self) -> (r: u64)
        ensures
            r == self.value,
    {
        self.value
    }

    /// The number in decimal.
    pub fn as_string(&self) -> (r: String)
        ensures
            r@ == decimal(self.value as nat),
    {
        u64_to_string(self.value)
    }

    /// The number as `#<n>`.
    pub fn show_number(&self) -> (r: String)
        ensures
            r@ == show_number_of(self.value),
    {
        let mut s = String::new();
        push_char(&mut s, '#');
        push_decimal(&mut s, self.value);
        s
    }

    /// Whether the reference is known to be an issue.
    pub fn is_issue(&self) -> (r: bool)
        ensures
            r == (self.kind == Some(ReferenceKind::Issue)),
    {
        match self.kind {
            Some(ReferenceKind::Issue) => true,
            _ => false,
        }
    }

    /// Whether the reference is known to be a pull request.
    pub fn is_pull_request(&self) -> (r: bool)
        ensures
            r == (self.kind == Some(ReferenceKind::PullRequest)),
    {
        match self.kind {
            Some(ReferenceKind::PullRequest) => true,
            _ => false,
        }
    }
}

/// The raw form of a reference before normalization.
#[derive(Clone, Debug)]
pub enum ReferenceInputValue {
    Text(String),
    Number(u64),
}

/// A reference as given by a user or a command output.
#[derive(Clone, Debug)]
pub struct ReferenceInput {
    pub value: ReferenceInputValue,
    pub kind: Option<ReferenceKind>,
}

/// `kind` applied when present.
pub open spec fn kinded(r: ReferenceNumber, kind: Option<ReferenceKind>) -> ReferenceNumber {
    match kind {
        Some(k) => ReferenceNumber { value: r.value, kind: Some(k) },
        None => r,
    }
}

/// What normalizing an input gives.
pub open spec fn normalized(input: ReferenceInput) -> Option<ReferenceNumber> {
    match input.value {
        ReferenceInputValue::Text(raw) => match parsed_reference(raw@) {
            Some(r) => Some(kinded(r, input.kind)),
            None => None,
        },
        ReferenceInputValue::Number(v) => Some(kinded(ReferenceNumber { value: v, kind: None }, input.kind)),
    }
}

/// The references found by one search of `REFERENCE_IN_TEXT`: group 1 of
/// each match that parses, given `kind`.
pub open spec fn references_from_captures(
    caps: Seq<Seq<Option<Seq<char>>>>,
    kind: Option<ReferenceKind>,
) -> Seq<ReferenceNumber>
    decreases caps.len(),
{
    if caps.len() == 0 {
        Seq::<ReferenceNumber>::empty()
    } else {
        let rest = references_from_captures(caps.drop_last(), kind);
        match group(caps.last(), 1) {
            Some(t) => match reference_value(t) {
                Some(v) => rest.push(ReferenceNumber { value: v, kind }),
                None => rest,
            },
            None => rest,
        }
    }
}

/// The references in a text (nothing when the pattern does not compile).
pub open spec fn references_in_text(text: Seq<char>, kind: Option<ReferenceKind>) -> Seq<
    ReferenceNumber,
> {
    if regex_compiles(REFERENCE_IN_TEXT@) {
        references_from_captures(regex_captures(REFERENCE_IN_TEXT@, text), kind)
    } else {
        Seq::<ReferenceNumber>::empty()
    }
}

impl ReferenceInput {
    /// An input given as text.
    pub fn from_text(raw: &str) -> (r: Self)
        ensures
            r.value matches ReferenceInputValue::Text(t) && t@ == raw@,
            r.kind is None,
    {
        Self { value: ReferenceInputValue::Text(copy_str(raw)), kind: None }
    }

    /// An input given as a number.
    pub fn from_number(value: u64) -> (r: Self)
        ensures
            r.value == ReferenceInputValue::Number(value),
            r.kind is None,
    {
        Self { value: ReferenceInputValue::Number(value), kind: None }
    }

    /// The same input with a kind.
    pub fn with_kind(self, kind: ReferenceKind) -> (r: Self)
        ensures
            r.value == self.value,
            r.kind == Some(kind),
    {
        Self { value: self.value, kind: Some(kind) }
    }

    /// The same input with a kind when one is given.
    pub fn with_kind_opt(self, kind: Option<ReferenceKind>) -> (r: Self)
        ensures
            r.value == self.value,
            r.kind == (match kind {
                Some(k) => Some(k),
                None => self.kind,
            }),
    {
        match kind {
            Some(kind) => self.with_kind(kind),
            None => self,
        }
    }

    /// The reference number the input stands for.
    pub fn normalize(&self) -> (r: Option<ReferenceNumber>)
        ensures
            r == normalized(*self),
    {
        match &self.value {
            ReferenceInputValue::Text(raw) => match ReferenceNumber::parse(raw.as_str()) {
                Some(reference) => match self.kind {
                    Some(kind) => Some(reference.with_kind(kind)),
                    None => Some(reference),
                },
                None => None,
            },
            ReferenceInputValue::Number(value) => {
                let reference = ReferenceNumber::new(*value);
                match self.kind {
                    Some(kind) => Some(reference.with_kind(kind)),
                    None => Some(reference),
                }
            },
        }
    }

    /// Turns the capture groups of a `REFERENCE_IN_TEXT` search into references.
    pub fn references_from_matches(caps: &CaptureTexts, kind: Option<ReferenceKind>) -> (r: Vec<
        ReferenceNumber,
    >)
        ensures
            r@ == references_from_captures(captures_view(caps@), kind),
    {
        let ghost cv = captures_view(caps@);
        let mut out: Vec<ReferenceNumber> = Vec::new();
        let mut i: usize = 0;
        while i < caps.len()
            invariant
                i <= caps.len(),
                cv == captures_view(caps@),
                out@ == references_from_captures(cv.take(i as int), kind),
            decreases caps.len() - i,
        {
            assert(cv.take(i + 1).drop_last() =~= cv.take(i as int));
            assert(cv.take(i + 1).last() == groups_view(caps@[i as int]));
            match group_at(&caps[i], 1) {
                Some(number) => match ReferenceNumber::parse(number.as_str()) {
                    Some(reference) => {
                        out.push(ReferenceNumber { value: reference.value, kind });
                    },
                    None => {},
                },
                None => {},
            }
            i += 1;
        }
        assert(cv.take(caps.len() as int) =~= cv);
        out
    }

    /// The references written in a text (`123`, `#123` after a non-word
    /// character or at the start), with the given kind.
    pub fn find_in_text(text: &str, kind: Option<ReferenceKind>) -> (r: Vec<ReferenceNumber>)
        ensures
            r@ == references_in_text(text@, kind),
    {
        match captures_all(REFERENCE_IN_TEXT, text) {
            Ok(caps) => Self::references_from_matches(&caps, kind),
            Err(_) => Vec::new(),
        }
    }
}

/// Which lines a reference collection reads.
#[derive(Clone, Copy, Debug, PartialEq, Eq, Structural)]
pub enum LineFilter {
    /// Lines mentioning `closes` or `fixes` (any case).
    ClosingKeyword,
    /// Lines mentioning `part of` (any case).
    PartOf,
    /// Lines mentioning `reopen` (any case).
    Reopen,
}

/// Whether a line is read under `filter`.
pub open spec fn line_selected(filter: LineFilter, line: Seq<char>) -> bool {
    let l = lower(line);
    match filter {
        LineFilter::ClosingKeyword => contains(l, "closes"@) || contains(l, "fixes"@),
        LineFilter::PartOf => contains(l, "part of"@),
        LineFilter::Reopen => contains(l, "reopen"@),
    }
}

/// Appends the references of `found` whose number is not yet in `acc`.
pub open spec fn add_unseen(acc: Seq<ReferenceNumber>, found: Seq<ReferenceNumber>) -> Seq<
    ReferenceNumber,
>
    decreases found.len(),
{
    if found.len() == 0 {
        acc
    } else {
        let a = add_unseen(acc, found.drop_last());
        if exists|k: int| 0 <= k < a.len() && a[k].value == found.last().value {
            a
        } else {
            a.push(found.last())
        }
    }
}

/// No number occurs twice in a list of references.
pub open spec fn distinct_numbers(s: Seq<ReferenceNumber>) -> bool {
    forall|i: int, j: int| 0 <= i < j < s.len() ==> s[i].value != s[j].value
}

/// Adding the unseen references keeps every number once.
pub proof fn lemma_add_unseen_distinct(acc: Seq<ReferenceNumber>, found: Seq<ReferenceNumber>)
    requires
        distinct_numbers(acc),
    ensures
        distinct_numbers(add_unseen(acc, found)),
    decreases found.len(),
{
    if found.len() > 0 {
        lemma_add_unseen_distinct(acc, found.drop_last());
        let a = add_unseen(acc, found.drop_last());
        let x = found.last();
        if !(exists|k: int| 0 <= k < a.len() && a[k].value == x.value) {
            let b = a.push(x);
            assert forall|i: int, j: int| 0 <= i < j < b.len() implies b[i].value != b[j].value by {
                if j == a.len() {
                    assert(b[i] == a[i]);
                    assert(!(0 <= i < a.len() && a[i].value == x.value));
                } else {
                    assert(b[i] == a[i] && b[j] == a[j]);
                }
            }
        }
    }
}

/// The issue references of the selected lines, first occurrence of each
/// number kept, in order.
pub open spec fn collected_references(lines: Seq<Seq<char>>, filter: LineFilter) -> Seq<
    ReferenceNumber,
>
    decreases lines.len(),
{
    if lines.len() == 0 {
        Seq::<ReferenceNumber>::empty()
    } else {
        let acc = collected_references(lines.drop_last(), filter);
        if line_selected(filter, lines.last()) {
            add_unseen(acc, references_in_text(lines.last(), Some(ReferenceKind::Issue)))
        } else {
            acc
        }
    }
}

/// The references collected from the selected lines hold each number once.
pub proof fn lemma_collected_references_distinct(lines: Seq<Seq<char>>, filter: LineFilter)
    ensures
        distinct_numbers(collected_references(lines, filter)),
    decreases lines.len(),
{
    if lines.len() > 0 {
        lemma_collected_references_distinct(lines.drop_last(), filter);
        let acc = collected_references(lines.drop_last(), filter);
        lemma_add_unseen_distinct(acc, references_in_text(lines.last(), Some(ReferenceKind::Issue)));
    }
}

/// Whether a line is read under `filter`.
pub fn line_is_selected(filter: LineFilter, line: &str) -> (r: bool)
    ensures
        r == line_selected(filter, line@),
{
    let l = lower_chars(&chars_of(line));
    match filter {
        LineFilter::ClosingKeyword => contains_str(&l, "closes") || contains_str(&l, "fixes"),
        LineFilter::PartOf => contains_str(&l, "part of"),
        LineFilter::Reopen => contains_str(&l, "reopen"),
    }
}

/// Whether some reference of `v` has number `value`.
fn has_value(v: &Vec<ReferenceNumber>, value: u64) -> (r: bool)
    ensures
        r == exists|k: int| 0 <= k < v@.len() && v@[k].value == value,
{
    let mut i: usize = 0;
    while i < v.len()
        invariant
            i <= v.len(),
            forall|k: int| 0 <= k < i ==> v@[k].value != value,
        decreases v.len() - i,
    {
        if v[i].value == value {
            return true;
        }
        i += 1;
    }
    false
}

/// The lines of a text (`str::lines`).
pub fn text_lines(text: &str) -> (r: Vec<String>)
    ensures
        strings_view(r@) == crate::text::lines(text@),
{
    let v = chars_of(text);
    let ls = crate::text::lines_chars(&v);
    let mut out: Vec<String> = Vec::new();
    let mut i: usize = 0;
    while i < ls.len()
        invariant
            i <= ls.len(),
            v@ == text@,
            ls@.len() == crate::text::lines(v@).len(),
            forall|k: int| 0 <= k < ls@.len() ==> #[trigger] ls@[k]@ == crate::text::lines(v@)[k],
            strings_view(out@) == crate::text::lines(v@).take(i as int),
        decreases ls.len() - i,
    {
        let ghost before = strings_view(out@);
        out.push(crate::text::string_of(&ls[i]));
        assert(strings_view(out@) =~= before.push(ls@[i as int]@));
        i += 1;
        assert(crate::text::lines(v@).take(i as int) =~= crate::text::lines(v@).take(i - 1).push(
            crate::text::lines(v@)[i - 1],
        ));
    }
    assert(crate::text::lines(v@).take(ls.len() as int) =~= crate::text::lines(v@));
    out
}

/// Helpers to build the text handed to reference searches.
pub struct ReferenceText;

impl ReferenceText {
    /// The parts joined by newlines.
    pub fn build_payload(parts: &Vec<String>) -> (r: String)
        ensures
            r@ == join(strings_view(parts@), "\n"@),
    {
        let r = join_strings(parts, "\n");
        assert(parts@.map_values(|p: String| p@) =~= strings_view(parts@));
        r
    }

    /// The issue references of the lines that `filter` selects, each number
    /// once, in order of first appearance.
    pub fn collect_issue_references(lines: &Vec<String>, filter: LineFilter) -> (r: Vec<
        ReferenceNumber,
    >)
        ensures
            r@ == collected_references(strings_view(lines@), filter),
    {
        let ghost lv = strings_view(lines@);
        let mut references: Vec<ReferenceNumber> = Vec::new();
        let mut i: usize = 0;
        while i < lines.len()
            invariant
                i <= lines.len(),
                lv == strings_view(lines@),
                references@ == collected_references(lv.take(i as int), filter),
            decreases lines.len() - i,
        {
            assert(lv.take(i + 1).drop_last() =~= lv.take(i as int));
            let line = lines[i].as_str();
            if line_is_selected(filter, line) {
                let found = ReferenceInput::find_in_text(line, Some(ReferenceKind::Issue));
                let ghost acc0 = references@;
                let mut j: usize = 0;
                while j < found.len()
                    invariant
                        j <= found.len(),
                        references@ == add_unseen(acc0, found@.take(j as int)),
                    decreases found.len() - j,
                {
                    assert(found@.take(j + 1).drop_last() =~= found@.take(j as int));
                    let reference = found[j];
                    if !has_value(&references, reference.value) {
                        references.push(reference);
                    }
                    j += 1;
                }
                assert(found@.take(found.len() as int) =~= found@);
            }
            i += 1;
        }
        assert(lv.take(lines.len() as int) =~= lv);
        references
    }
}

} // verus!
