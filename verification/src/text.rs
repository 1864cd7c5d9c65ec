//! Character-level text utilities with their mathematical models.
//!
//! Text is modelled as `Seq<char>` (the view of `str` and `String`).  The
//! spec functions here state what the std string operations used by the
//! automation commands compute (`trim`, `lines`, `to_ascii_lowercase`, ...),
//! and the executable functions are proved against them.

use vstd::prelude::*;

verus! {

broadcast use vstd::string::group_string_axioms;

// ---------------------------------------------------------------------------
// Models
// ---------------------------------------------------------------------------

/// Unicode `White_Space`: the characters `char::is_whitespace` accepts.
pub open spec fn is_ws(c: char) -> bool {
    let n = c as u32;
    ||| 0x09 <= n <= 0x0d
    ||| n == 0x20
    ||| n == 0x85
    ||| n == 0xa0
    ||| n == 0x1680
    ||| 0x2000 <= n <= 0x200a
    ||| n == 0x2028
    ||| n == 0x2029
    ||| n == 0x202f
    ||| n == 0x205f
    ||| n == 0x3000
}

/// `str::trim_start`.
pub open spec fn trim_start(s: Seq<char>) -> Seq<char>
    decreases s.len(),
{
    if s.len() > 0 && is_ws(s[0]) {
        trim_start(s.drop_first())
    } else {
        s
    }
}

/// `str::trim_end`.
pub open spec fn trim_end(s: Seq<char>) -> Seq<char>
    decreases s.len(),
{
    if s.len() > 0 && is_ws(s.last()) {
        trim_end(s.drop_last())
    } else {
        s
    }
}

/// `str::trim`.
pub open spec fn trim(s: Seq<char>) -> Seq<char> {
    trim_end(trim_start(s))
}

/// `char::to_ascii_lowercase`.
pub open spec fn lower_char(c: char) -> char {
    if 'A' <= c <= 'Z' {
        ((c as u32) + 32) as char
    } else {
        c
    }
}

/// `str::to_ascii_lowercase`.
pub open spec fn lower(s: Seq<char>) -> Seq<char> {
    s.map_values(|c: char| lower_char(c))
}

/// `str::starts_with`.
pub open spec fn starts_with(s: Seq<char>, p: Seq<char>) -> bool {
    p.len() <= s.len() && s.take(p.len() as int) == p
}

/// `str::ends_with`.
pub open spec fn ends_with(s: Seq<char>, p: Seq<char>) -> bool {
    p.len() <= s.len() && s.skip(s.len() - p.len()) == p
}

/// `p` occurs in `s` at index `i`.
pub open spec fn occurs_at(s: Seq<char>, p: Seq<char>, i: int) -> bool {
    0 <= i && i + p.len() <= s.len() && s.subrange(i, i + p.len()) == p
}

/// `str::contains`.
pub open spec fn contains(s: Seq<char>, p: Seq<char>) -> bool {
    exists|i: int| occurs_at(s, p, i)
}

/// The pieces of `s` between the occurrences of `c` (`str::split` on a char):
/// always one more piece than occurrences.
pub open spec fn split_on(s: Seq<char>, c: char) -> Seq<Seq<char>>
    decreases s.len(),
{
    if s.len() == 0 {
        seq![Seq::<char>::empty()]
    } else {
        let rest = split_on(s.drop_last(), c);
        if s.last() == c {
            rest.push(Seq::<char>::empty())
        } else {
            rest.update(rest.len() - 1, rest.last().push(s.last()))
        }
    }
}

/// Drops one trailing `'\r'`.
pub open spec fn strip_cr(s: Seq<char>) -> Seq<char> {
    if s.len() > 0 && s.last() == '\r' {
        s.drop_last()
    } else {
        s
    }
}

/// `str::lines`: the pieces split on `'\n'`, each line ended by `'\n'` losing
/// one `'\r'` before it, and an empty last piece (text ending in `'\n'`, or
/// empty text) dropped.
pub open spec fn lines(s: Seq<char>) -> Seq<Seq<char>> {
    let parts = split_on(s, '\n');
    let ended = parts.drop_last().map_values(|l: Seq<char>| strip_cr(l));
    if parts.last().len() == 0 {
        ended
    } else {
        ended.push(parts.last())
    }
}

/// `[..].join(sep)`.
pub open spec fn join(parts: Seq<Seq<char>>, sep: Seq<char>) -> Seq<char>
    decreases parts.len(),
{
    if parts.len() == 0 {
        Seq::<char>::empty()
    } else if parts.len() == 1 {
        parts[0]
    } else {
        join(parts.drop_last(), sep) + sep + parts.last()
    }
}

/// The ASCII digit for `d < 10`.
pub open spec fn digit_char(d: nat) -> char {
    ((d + 48) as u32) as char
}

/// Decimal representation of a natural number (`u64::to_string`).
pub open spec fn decimal(n: nat) -> Seq<char>
    decreases n,
{
    if n < 10 {
        seq![digit_char(n)]
    } else {
        decimal(n / 10).push(digit_char(n % 10))
    }
}

/// All characters are ASCII digits.
pub open spec fn all_digits(s: Seq<char>) -> bool {
    forall|i: int| 0 <= i < s.len() ==> '0' <= #[trigger] s[i] <= '9'
}

/// The value of a string of ASCII digits.
pub open spec fn digits_value(s: Seq<char>) -> nat
    decreases s.len(),
{
    if s.len() == 0 {
        0
    } else {
        digits_value(s.drop_last()) * 10 + ((s.last() as u32) - 48) as nat
    }
}

/// `str::parse::<u64>`: an optional `+`, then at least one ASCII digit, with a
/// value that fits.
pub open spec fn parse_u64(s: Seq<char>) -> Option<u64> {
    let d = if s.len() > 0 && s[0] == '+' {
        s.drop_first()
    } else {
        s
    };
    if d.len() > 0 && all_digits(d) && digits_value(d) <= u64::MAX {
        Some(digits_value(d) as u64)
    } else {
        None
    }
}

// ---------------------------------------------------------------------------
// Lemmas
// ---------------------------------------------------------------------------

proof fn lemma_digits_value_grows(s: Seq<char>, i: int)
    requires
        0 <= i <= s.len(),
        all_digits(s),
    ensures
        digits_value(s.take(i)) <= digits_value(s),
    decreases s.len() - i,
{
    if i < s.len() {
        lemma_digits_value_grows(s, i + 1);
        assert(s.take(i + 1).drop_last() =~= s.take(i));
    } else {
        assert(s.take(i) =~= s);
    }
}

/// The decimal text of a number is a non-empty run of ASCII digits whose
/// value is the number.
pub proof fn lemma_decimal_digits(n: nat)
    ensures
        decimal(n).len() > 0,
        all_digits(decimal(n)),
        digits_value(decimal(n)) == n,
    decreases n,
{
    let d = decimal(n);
    if n < 10 {
        assert(d.drop_last() =~= Seq::<char>::empty());
        assert(digit_char(n) as u32 == n + 48);
        assert(d.last() == digit_char(n));
        assert(digits_value(d) == digits_value(d.drop_last()) * 10 + ((d.last() as u32) - 48) as nat);
    } else {
        lemma_decimal_digits(n / 10);
        assert(d.drop_last() =~= decimal(n / 10));
        assert(digit_char(n % 10) as u32 == n % 10 + 48);
        assert(d.last() == digit_char(n % 10));
        assert((n / 10) * 10 + n % 10 == n) by (nonlinear_arith);
        assert(digits_value(d) == digits_value(decimal(n / 10)) * 10 + ((d.last() as u32) - 48) as nat);
        assert forall|i: int| 0 <= i < d.len() implies '0' <= #[trigger] d[i] <= '9' by {
            if i < d.len() - 1 {
                assert(d[i] == decimal(n / 10)[i]);
            }
        }
    }
}

/// Joining one more part appends the separator and the part.
pub proof fn lemma_join_push(parts: Seq<Seq<char>>, sep: Seq<char>, p: Seq<char>)
    ensures
        join(parts.push(p), sep) == if parts.len() == 0 {
            p
        } else {
            join(parts, sep) + sep + p
        },
{
    assert(parts.push(p).drop_last() =~= parts);
}

pub proof fn lemma_split_nonempty(s: Seq<char>, c: char)
    ensures
        split_on(s, c).len() >= 1,
    decreases s.len(),
{
    if s.len() > 0 {
        lemma_split_nonempty(s.drop_last(), c);
    }
}

// ---------------------------------------------------------------------------
// Conversions between strings and character vectors
// ---------------------------------------------------------------------------

/// Copies the characters of a string slice into a vector.
pub fn chars_of(s: &str) -> (v: Vec<char>)
    ensures
        v@ == s@,
{
    let mut v: Vec<char> = Vec::new();
    for c in it: s.chars()
        invariant
            v@ == it.seq().take(it.index() as int),
            it.seq() == s@,
    {
        v.push(c);
    }
    v
}

/// Appends one character to a string (std `String::push`).
#[verifier::external_body]
pub(crate) fn push_char(s: &mut String, c: char)
    ensures
        final(s)@ == old(s)@.push(c),
{
    s.push(c);
}

/// Appends the characters of `v[from..to]` to `s`.
pub fn push_chars(s: &mut String, v: &Vec<char>, from: usize, to: usize)
    requires
        from <= to <= v.len(),
    ensures
        final(s)@ == old(s)@ + v@.subrange(from as int, to as int),
{
    let mut i = from;
    while i < to
        invariant
            from <= i <= to <= v.len(),
            s@ == old(s)@ + v@.subrange(from as int, i as int),
        decreases to - i,
    {
        push_char(s, v[i]);
        i += 1;
        assert(v@.subrange(from as int, i as int) =~= v@.subrange(from as int, (i - 1) as int).push(
            v@[i - 1],
        ));
    }
}

/// Builds a string holding exactly the given characters.
pub fn string_of(v: &Vec<char>) -> (s: String)
    ensures
        s@ == v@,
{
    let mut s = String::new();
    push_chars(&mut s, v, 0, v.len());
    assert(v@.subrange(0, v.len() as int) =~= v@);
    s
}

/// Copies a string.
pub fn copy_str(s: &str) -> (r: String)
    ensures
        r@ == s@,
{
    s.to_owned()
}

/// Concatenates two string slices.
pub fn concat2(a: &str, b: &str) -> (r: String)
    ensures
        r@ == a@ + b@,
{
    let mut r = a.to_owned();
    r.append(b);
    r
}

/// Concatenates three string slices.
pub fn concat3(a: &str, b: &str, c: &str) -> (r: String)
    ensures
        r@ == a@ + b@ + c@,
{
    let mut r = a.to_owned();
    r.append(b);
    r.append(c);
    r
}

/// Copies `v[from..to]`.
pub fn slice_chars(v: &Vec<char>, from: usize, to: usize) -> (r: Vec<char>)
    requires
        from <= to <= v.len(),
    ensures
        r@ == v@.subrange(from as int, to as int),
{
    let mut r: Vec<char> = Vec::new();
    let mut i = from;
    while i < to
        invariant
            from <= i <= to <= v.len(),
            r@ == v@.subrange(from as int, i as int),
        decreases to - i,
    {
        r.push(v[i]);
        i += 1;
        assert(v@.subrange(from as int, i as int) =~= v@.subrange(from as int, (i - 1) as int).push(
            v@[i - 1],
        ));
    }
    r
}

// ---------------------------------------------------------------------------
// Character classes and simple transformations
// ---------------------------------------------------------------------------

/// `char::is_whitespace`.
pub fn is_whitespace(c: char) -> (b: bool)
    ensures
        b == is_ws(c),
{
    let n = c as u32;
    (0x09 <= n && n <= 0x0d) || n == 0x20 || n == 0x85 || n == 0xa0 || n == 0x1680 || (0x2000
        <= n && n <= 0x200a) || n == 0x2028 || n == 0x2029 || n == 0x202f || n == 0x205f || n
        == 0x3000
}

/// `char::to_ascii_lowercase`.
pub fn lower_ascii_char(c: char) -> (r: char)
    ensures
        r == lower_char(c),
{
    if 'A' <= c && c <= 'Z' {
        let b = c as u8;
        let r = (b + 32) as char;
        assert(r == ((c as u32) + 32) as char);
        r
    } else {
        c
    }
}

/// `str::to_ascii_lowercase` on characters.
pub fn lower_chars(v: &Vec<char>) -> (r: Vec<char>)
    ensures
        r@ == lower(v@),
{
    let mut r: Vec<char> = Vec::new();
    let mut i: usize = 0;
    while i < v.len()
        invariant
            i <= v.len(),
            r@ == lower(v@.take(i as int)),
        decreases v.len() - i,
    {
        r.push(lower_ascii_char(v[i]));
        i += 1;
        assert(lower(v@.take(i as int)) =~= lower(v@.take((i - 1) as int)).push(
            lower_char(v@[i - 1]),
        ));
    }
    assert(v@.take(v.len() as int) =~= v@);
    r
}

/// `str::to_ascii_lowercase`.
pub fn lower_str(s: &str) -> (r: String)
    ensures
        r@ == lower(s@),
{
    let v = chars_of(s);
    let l = lower_chars(&v);
    string_of(&l)
}

/// `str::trim` on characters.
pub fn trim_chars(v: &Vec<char>) -> (r: Vec<char>)
    ensures
        r@ == trim(v@),
{
    let mut i: usize = 0;
    assert(v@.skip(0) =~= v@);
    while i < v.len() && is_whitespace(v[i])
        invariant
            i <= v.len(),
            trim_start(v@) == trim_start(v@.skip(i as int)),
        decreases v.len() - i,
    {
        assert(v@.skip(i as int).drop_first() =~= v@.skip(i + 1));
        i += 1;
    }
    let ghost t = v@.skip(i as int);
    assert(trim_start(v@) == t);
    let mut j: usize = v.len();
    assert(t.take(t.len() as int) =~= t);
    while j > i && is_whitespace(v[j - 1])
        invariant
            i <= j <= v.len(),
            t == v@.skip(i as int),
            trim_end(t) == trim_end(t.take(j - i)),
        decreases j,
    {
        assert(t.take(j - i).drop_last() =~= t.take(j - 1 - i));
        j -= 1;
    }
    assert(t.take(j - i) =~= v@.subrange(i as int, j as int));
    slice_chars(v, i, j)
}

/// `str::trim`.
pub fn trim_str(s: &str) -> (r: String)
    ensures
        r@ == trim(s@),
{
    let v = chars_of(s);
    let t = trim_chars(&v);
    string_of(&t)
}

// ---------------------------------------------------------------------------
// Searching
// ---------------------------------------------------------------------------

/// Whether `p` occurs in `s` at index `i`.
pub fn occurs_at_exec(s: &Vec<char>, p: &Vec<char>, i: usize) -> (b: bool)
    ensures
        b == occurs_at(s@, p@, i as int),
{
    if i > s.len() || p.len() > s.len() - i {
        return false;
    }
    let mut k: usize = 0;
    while k < p.len()
        invariant
            i + p.len() <= s.len(),
            k <= p.len(),
            forall|m: int| 0 <= m < k ==> s@[i + m] == p@[m],
        decreases p.len() - k,
    {
        if s[i + k] != p[k] {
            assert(s@.subrange(i as int, i + p.len())[k as int] != p@[k as int]);
            return false;
        }
        k += 1;
    }
    assert(s@.subrange(i as int, i + p.len()) =~= p@);
    true
}

/// `str::starts_with`.
pub fn starts_with_chars(s: &Vec<char>, p: &Vec<char>) -> (b: bool)
    ensures
        b == starts_with(s@, p@),
{
    let b = occurs_at_exec(s, p, 0);
    assert(p@.len() <= s@.len() ==> s@.subrange(0, p@.len() as int) =~= s@.take(p@.len() as int));
    b
}

/// `str::ends_with`.
pub fn ends_with_chars(s: &Vec<char>, p: &Vec<char>) -> (b: bool)
    ensures
        b == ends_with(s@, p@),
{
    if p.len() > s.len() {
        return false;
    }
    let b = occurs_at_exec(s, p, s.len() - p.len());
    assert(s@.subrange(s@.len() - p@.len(), s@.len() as int) =~= s@.skip(s@.len() - p@.len()));
    b
}

/// `str::starts_with` with a string prefix.
pub fn starts_with_str(s: &Vec<char>, p: &str) -> (b: bool)
    ensures
        b == starts_with(s@, p@),
{
    let pv = chars_of(p);
    starts_with_chars(s, &pv)
}

/// `str::ends_with` with a string suffix.
pub fn ends_with_str(s: &Vec<char>, p: &str) -> (b: bool)
    ensures
        b == ends_with(s@, p@),
{
    let pv = chars_of(p);
    ends_with_chars(s, &pv)
}

/// The first index at which `p` occurs in `s`, if any.
pub fn find_chars(s: &Vec<char>, p: &Vec<char>) -> (r: Option<usize>)
    ensures
        r matches Some(i) ==> occurs_at(s@, p@, i as int) && forall|j: int|
            0 <= j < i ==> !occurs_at(s@, p@, j),
        r is None ==> !contains(s@, p@),
{
    let mut i: usize = 0;
    loop
        invariant
            i <= s.len(),
            forall|j: int| 0 <= j < i ==> !occurs_at(s@, p@, j),
        decreases s.len() - i,
    {
        if occurs_at_exec(s, p, i) {
            return Some(i);
        }
        if i == s.len() {
            assert forall|j: int| !occurs_at(s@, p@, j) by {
                if 0 <= j < i {
                }
            }
            return None;
        }
        i += 1;
    }
}

/// `str::contains`.
pub fn contains_chars(s: &Vec<char>, p: &Vec<char>) -> (b: bool)
    ensures
        b == contains(s@, p@),
{
    find_chars(s, p).is_some()
}

/// `str::contains` with a string needle.
pub fn contains_str(s: &Vec<char>, p: &str) -> (b: bool)
    ensures
        b == contains(s@, p@),
{
    let pv = chars_of(p);
    contains_chars(s, &pv)
}

/// `str::trim_end` on characters.
pub fn trim_end_chars(v: &Vec<char>) -> (r: Vec<char>)
    ensures
        r@ == trim_end(v@),
{
    let mut j: usize = v.len();
    assert(v@.take(v.len() as int) =~= v@);
    while j > 0 && is_whitespace(v[j - 1])
        invariant
            j <= v.len(),
            trim_end(v@) == trim_end(v@.take(j as int)),
        decreases j,
    {
        assert(v@.take(j as int).drop_last() =~= v@.take(j - 1));
        j -= 1;
    }
    assert(v@.take(j as int) =~= v@.subrange(0, j as int));
    slice_chars(v, 0, j)
}

/// `str::trim_end`.
pub fn trim_end_str(s: &str) -> (r: String)
    ensures
        r@ == trim_end(s@),
{
    let v = chars_of(s);
    let t = trim_end_chars(&v);
    string_of(&t)
}

/// The first index at which `p` occurs in `s` (meaningful when it occurs).
pub open spec fn first_occurrence(s: Seq<char>, p: Seq<char>) -> int {
    choose|i: int| occurs_at(s, p, i) && forall|j: int| 0 <= j < i ==> !occurs_at(s, p, j)
}

/// The text before the first occurrence of `p`, or all of `s`
/// (the first piece of `str::split(p)`).
pub open spec fn before_first(s: Seq<char>, p: Seq<char>) -> Seq<char> {
    if contains(s, p) {
        s.take(first_occurrence(s, p))
    } else {
        s
    }
}

/// The first piece of `str::split(p)`.
pub fn before_first_chars(s: &Vec<char>, p: &Vec<char>) -> (r: Vec<char>)
    ensures
        r@ == before_first(s@, p@),
{
    match find_chars(s, p) {
        Some(i) => {
            assert(first_occurrence(s@, p@) == i) by {
                let f = first_occurrence(s@, p@);
                assert(occurs_at(s@, p@, f) && forall|j: int| 0 <= j < f ==> !occurs_at(s@, p@, j));
                if f < i {
                } else if f > i {
                }
            }
            assert(s@.take(i as int) =~= s@.subrange(0, i as int));
            slice_chars(s, 0, i)
        },
        None => slice_chars_all(s),
    }
}

/// A copy of all characters.
pub fn slice_chars_all(s: &Vec<char>) -> (r: Vec<char>)
    ensures
        r@ == s@,
{
    let r = slice_chars(s, 0, s.len());
    assert(s@.subrange(0, s@.len() as int) =~= s@);
    r
}


/// Drops every trailing `'\n'` (`str::trim_end_matches('\n')`).
pub open spec fn strip_newlines(s: Seq<char>) -> Seq<char>
    decreases s.len(),
{
    if s.len() > 0 && s.last() == '\n' {
        strip_newlines(s.drop_last())
    } else {
        s
    }
}

/// Drops every trailing `'\n'`.
pub fn strip_newlines_chars(v: &Vec<char>) -> (r: Vec<char>)
    ensures
        r@ == strip_newlines(v@),
{
    let mut j: usize = v.len();
    assert(v@.take(v.len() as int) =~= v@);
    while j > 0 && v[j - 1] == '\n'
        invariant
            j <= v.len(),
            strip_newlines(v@) == strip_newlines(v@.take(j as int)),
        decreases j,
    {
        assert(v@.take(j as int).drop_last() =~= v@.take(j - 1));
        j -= 1;
    }
    assert(v@.take(j as int) =~= v@.subrange(0, j as int));
    slice_chars(v, 0, j)
}

/// Every run of three or more `'\n'` shortened to two: what replacing
/// `"\n\n\n"` by `"\n\n"` until none is left produces.
pub open spec fn collapse_blank_lines(s: Seq<char>) -> Seq<char>
    decreases s.len(),
{
    if s.len() == 0 {
        s
    } else {
        let r = collapse_blank_lines(s.drop_last());
        if s.last() == '\n' && r.len() >= 2 && r[r.len() - 1] == '\n' && r[r.len() - 2] == '\n' {
            r
        } else {
            r.push(s.last())
        }
    }
}

/// Shortens every run of three or more newlines to two.
pub fn collapse_blank_lines_chars(v: &Vec<char>) -> (r: Vec<char>)
    ensures
        r@ == collapse_blank_lines(v@),
{
    let mut r: Vec<char> = Vec::new();
    let mut i: usize = 0;
    while i < v.len()
        invariant
            i <= v.len(),
            r@ == collapse_blank_lines(v@.take(i as int)),
        decreases v.len() - i,
    {
        assert(v@.take(i + 1).drop_last() =~= v@.take(i as int));
        let n = r.len();
        if !(v[i] == '\n' && n >= 2 && r[n - 1] == '\n' && r[n - 2] == '\n') {
            r.push(v[i]);
        }
        i += 1;
    }
    assert(v@.take(v.len() as int) =~= v@);
    r
}


// ---------------------------------------------------------------------------
// Splitting and joining
// ---------------------------------------------------------------------------

/// `str::split` on one character.
pub fn split_on_char(v: &Vec<char>, c: char) -> (r: Vec<Vec<char>>)
    ensures
        r@.len() == split_on(v@, c).len(),
        forall|k: int| 0 <= k < r@.len() ==> #[trigger] r@[k]@ == split_on(v@, c)[k],
{
    let mut done: Vec<Vec<char>> = Vec::new();
    let mut cur: Vec<char> = Vec::new();
    let mut i: usize = 0;
    while i < v.len()
        invariant
            i <= v.len(),
            done@.len() + 1 == split_on(v@.take(i as int), c).len(),
            forall|k: int| 0 <= k < done@.len() ==> #[trigger] done@[k]@ == split_on(
                v@.take(i as int),
                c,
            )[k],
            cur@ == split_on(v@.take(i as int), c).last(),
        decreases v.len() - i,
    {
        let ghost prev = v@.take(i as int);
        assert(v@.take(i + 1).drop_last() =~= prev);
        if v[i] == c {
            done.push(cur);
            cur = Vec::new();
        } else {
            cur.push(v[i]);
        }
        i += 1;
        proof {
            let s2 = split_on(v@.take(i as int), c);
            assert(s2.len() == done@.len() + 1);
            assert forall|k: int| 0 <= k < done@.len() implies #[trigger] done@[k]@ == s2[k] by {
            }
            assert(cur@ =~= s2.last());
        }
    }
    assert(v@.take(v.len() as int) =~= v@);
    done.push(cur);
    done
}

/// Drops one trailing `'\r'`.
fn strip_cr_chars(v: Vec<char>) -> (r: Vec<char>)
    ensures
        r@ == strip_cr(v@),
{
    let mut v = v;
    if v.len() > 0 && v[v.len() - 1] == '\r' {
        v.pop();
    }
    v
}

/// `str::lines` on characters.
pub fn lines_chars(v: &Vec<char>) -> (r: Vec<Vec<char>>)
    ensures
        r@.len() == lines(v@).len(),
        forall|k: int| 0 <= k < r@.len() ==> #[trigger] r@[k]@ == lines(v@)[k],
{
    let parts = split_on_char(v, '\n');
    let ghost sp = split_on(v@, '\n');
    proof {
        lemma_split_nonempty(v@, '\n');
    }
    let n = parts.len();
    let mut r: Vec<Vec<char>> = Vec::new();
    let mut i: usize = 0;
    while i + 1 < n
        invariant
            n == parts@.len() == sp.len(),
            n >= 1,
            i + 1 <= n,
            r@.len() == i,
            forall|k: int| 0 <= k < parts@.len() ==> #[trigger] parts@[k]@ == sp[k],
            forall|k: int| 0 <= k < i ==> #[trigger] r@[k]@ == strip_cr(sp[k]),
        decreases n - i,
    {
        let line = strip_cr_chars(parts[i].clone());
        r.push(line);
        i += 1;
    }
    let last = parts[n - 1].clone();
    if last.len() > 0 {
        r.push(last);
    }
    r
}

/// `[..].join(sep)` over strings.
pub fn join_strings(parts: &Vec<String>, sep: &str) -> (r: String)
    ensures
        r@ == join(parts@.map_values(|p: String| p@), sep@),
{
    let ghost views = parts@.map_values(|p: String| p@);
    let mut r = String::new();
    let mut i: usize = 0;
    while i < parts.len()
        invariant
            i <= parts.len(),
            views == parts@.map_values(|p: String| p@),
            r@ == join(views.take(i as int), sep@),
        decreases parts.len() - i,
    {
        proof {
            lemma_join_push(views.take(i as int), sep@, views[i as int]);
            assert(views.take(i + 1) =~= views.take(i as int).push(views[i as int]));
        }
        if i > 0 {
            r.append(sep);
        }
        r.append(parts[i].as_str());
        i += 1;
    }
    assert(views.take(parts.len() as int) =~= views);
    r
}

// ---------------------------------------------------------------------------
// Lexicographic order (the order of `str` comparison)
// ---------------------------------------------------------------------------

/// `a < b` in the order `Ord for str` uses (code point by code point, a
/// proper prefix first).
pub open spec fn lex_lt(a: Seq<char>, b: Seq<char>) -> bool
    decreases a.len(),
{
    if a.len() == 0 {
        b.len() > 0
    } else if b.len() == 0 {
        false
    } else if a[0] < b[0] {
        true
    } else if a[0] == b[0] {
        lex_lt(a.drop_first(), b.drop_first())
    } else {
        false
    }
}

/// The order is transitive.
pub proof fn lemma_lex_lt_transitive(a: Seq<char>, b: Seq<char>, c: Seq<char>)
    requires
        lex_lt(a, b),
        lex_lt(b, c),
    ensures
        lex_lt(a, c),
    decreases a.len(),
{
    if a.len() > 0 && b.len() > 0 && c.len() > 0 && a[0] == b[0] && b[0] == c[0] {
        lemma_lex_lt_transitive(a.drop_first(), b.drop_first(), c.drop_first());
    }
}

/// The order is total and irreflexive.
pub proof fn lemma_lex_lt_trichotomy(a: Seq<char>, b: Seq<char>)
    ensures
        a == b || lex_lt(a, b) || lex_lt(b, a),
        !(lex_lt(a, b) && lex_lt(b, a)),
        !lex_lt(a, a),
    decreases a.len(),
{
    if a.len() > 0 && b.len() > 0 {
        lemma_lex_lt_trichotomy(a.drop_first(), b.drop_first());
        if a[0] == b[0] && a.drop_first() == b.drop_first() {
            assert(a =~= seq![a[0]] + a.drop_first());
            assert(b =~= seq![b[0]] + b.drop_first());
        }
    } else if a.len() == 0 && b.len() == 0 {
        assert(a =~= b);
    }
    if a.len() > 0 {
        lemma_lex_lt_trichotomy(a.drop_first(), a.drop_first());
    }
}

/// `a < b` in `str` order.
pub fn lex_less(a: &Vec<char>, b: &Vec<char>) -> (r: bool)
    ensures
        r == lex_lt(a@, b@),
{
    let mut i: usize = 0;
    assert(a@.skip(0) =~= a@ && b@.skip(0) =~= b@);
    while i < a.len() && i < b.len() && a[i] == b[i]
        invariant
            i <= a.len(),
            i <= b.len(),
            lex_lt(a@, b@) == lex_lt(a@.skip(i as int), b@.skip(i as int)),
        decreases a.len() - i,
    {
        assert(a@.skip(i as int).drop_first() =~= a@.skip(i + 1));
        assert(b@.skip(i as int).drop_first() =~= b@.skip(i + 1));
        i += 1;
    }
    if i == a.len() {
        i < b.len()
    } else if i == b.len() {
        false
    } else {
        a[i] < b[i]
    }
}


// ---------------------------------------------------------------------------
// Numbers
// ---------------------------------------------------------------------------

/// Appends the decimal representation of `n`.
pub fn push_decimal(s: &mut String, n: u64)
    ensures
        final(s)@ == old(s)@ + decimal(n as nat),
    decreases n,
{
    if n >= 10 {
        push_decimal(s, n / 10);
    }
    let d = (n % 10) as u8;
    let ch = (d + 48) as char;
    assert(ch == digit_char((n % 10) as nat));
    push_char(s, ch);
    assert(decimal(n as nat) == if n < 10 {
        seq![digit_char(n as nat)]
    } else {
        decimal((n / 10) as nat).push(digit_char((n % 10) as nat))
    });
}

/// `u64::to_string`.
pub fn u64_to_string(n: u64) -> (s: String)
    ensures
        s@ == decimal(n as nat),
{
    let mut s = String::new();
    push_decimal(&mut s, n);
    s
}

/// `str::parse::<u64>` on characters.
pub fn parse_u64_chars(v: &Vec<char>) -> (r: Option<u64>)
    ensures
        r == parse_u64(v@),
{
    let start: usize = if v.len() > 0 && v[0] == '+' {
        1
    } else {
        0
    };
    let ghost d = v@.skip(start as int);
    assert(d =~= (if v@.len() > 0 && v@[0] == '+' {
        v@.drop_first()
    } else {
        v@
    }));
    if start == v.len() {
        return None;
    }
    let mut value: u64 = 0;
    let mut i: usize = start;
    let mut overflow = false;
    assert(d.take(0) =~= Seq::<char>::empty());
    while i < v.len()
        invariant
            start <= i <= v.len(),
            d == v@.skip(start as int),
            d == (if v@.len() > 0 && v@[0] == '+' {
                v@.drop_first()
            } else {
                v@
            }),
            forall|k: int| 0 <= k < i - start ==> '0' <= #[trigger] d[k] <= '9',
            !overflow ==> value as nat == digits_value(d.take(i - start)),
            overflow ==> digits_value(d.take(i - start)) > u64::MAX,
        decreases v.len() - i,
    {
        let ch = v[i];
        if ch < '0' || ch > '9' {
            assert(d[i - start] == ch);
            assert(!all_digits(d));
            return None;
        }
        let digit = (ch as u32 - 48) as u64;
        proof {
            assert(d.take(i + 1 - start).drop_last() =~= d.take(i - start));
            assert(d.take(i + 1 - start).last() == ch);
        }
        if !overflow {
            if value > (u64::MAX - digit) / 10 {
                overflow = true;
            } else {
                value = value * 10 + digit;
            }
        }
        i += 1;
    }
    assert(d.take(i - start) =~= d);
    assert(all_digits(d));
    if overflow {
        None
    } else {
        Some(value)
    }
}

/// `str::parse::<u64>`.
pub fn parse_u64_str(s: &str) -> (r: Option<u64>)
    ensures
        r == parse_u64(s@),
{
    let v = chars_of(s);
    parse_u64_chars(&v)
}

// ---------------------------------------------------------------------------
// Equality
// ---------------------------------------------------------------------------

/// Equality of character vectors.
pub fn eq_chars(a: &Vec<char>, b: &Vec<char>) -> (r: bool)
    ensures
        r == (a@ == b@),
{
    if a.len() != b.len() {
        return false;
    }
    let mut i: usize = 0;
    while i < a.len()
        invariant
            a.len() == b.len(),
            i <= a.len(),
            forall|k: int| 0 <= k < i ==> a@[k] == b@[k],
        decreases a.len() - i,
    {
        if a[i] != b[i] {
            return false;
        }
        i += 1;
    }
    assert(a@ =~= b@);
    true
}

/// Equality of string slices.
pub fn str_eq(a: &str, b: &str) -> (r: bool)
    ensures
        r == (a@ == b@),
{
    let av = chars_of(a);
    let bv = chars_of(b);
    eq_chars(&av, &bv)
}

} // verus!
