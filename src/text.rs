//! Character classes, runs of characters and conversions between `str` and
//! character vectors.
use vstd::prelude::*;

verus! {

/// The classes of characters that the recognizers read runs of.
#[derive(Clone, Copy, PartialEq, Eq, Structural)]
pub enum CharClass {
    /// ASCII letters, digits, `_` and `-` (titles, identifiers, labels, keys).
    WordDash,
    /// ASCII letters, digits, `_` and the space (authors, emphasis).
    WordSpace,
    /// ASCII letters, digits, `_` and whitespace (quoted text).
    WordWhite,
    /// ASCII whitespace: space, tab, line feed, vertical tab, form feed,
    /// carriage return.
    White,
    /// The asterisk of a heading marker.
    Star,
    /// Every character but the line feed.
    Line,
}

pub open spec fn is_word(c: char) -> bool {
    ('a' <= c && c <= 'z') || ('A' <= c && c <= 'Z') || ('0' <= c && c <= '9') || c == '_'
}

pub open spec fn is_white(c: char) -> bool {
    c == ' ' || c == '\t' || c == '\n' || c == '\x0B' || c == '\x0C' || c == '\r'
}

pub open spec fn in_class(c: char, k: CharClass) -> bool {
    match k {
        CharClass::WordDash => is_word(c) || c == '-',
        CharClass::WordSpace => is_word(c) || c == ' ',
        CharClass::WordWhite => is_word(c) || is_white(c),
        CharClass::White => is_white(c),
        CharClass::Star => c == '*',
        CharClass::Line => c != '\n',
    }
}

/// Whether `c` belongs to class `k`.
pub fn char_in_class(c: char, k: CharClass) -> (r: bool)
    ensures
        r == in_class(c, k),
{
    let word = ('a' <= c && c <= 'z') || ('A' <= c && c <= 'Z') || ('0' <= c && c <= '9') || c
        == '_';
    let white = c == ' ' || c == '\t' || c == '\n' || c == '\x0B' || c == '\x0C' || c == '\r';
    match k {
        CharClass::WordDash => word || c == '-',
        CharClass::WordSpace => word || c == ' ',
        CharClass::WordWhite => word || white,
        CharClass::White => white,
        CharClass::Star => c == '*',
        CharClass::Line => c != '\n',
    }
}

/// Length of the longest run of characters of class `k` that starts at `i`.
pub open spec fn run_len(s: Seq<char>, i: int, k: CharClass) -> nat
    decreases s.len() - i,
{
    if 0 <= i < s.len() && in_class(s[i], k) {
        1 + run_len(s, i + 1, k)
    } else {
        0
    }
}

/// Whether the text `lit` stands in `s` from position `i` on.
pub open spec fn has_at(s: Seq<char>, i: int, lit: Seq<char>) -> bool {
    0 <= i && i + lit.len() <= s.len() && s.subrange(i, i + lit.len()) == lit
}

/// Whether position `i` of `s` holds a character of class `k`.
pub open spec fn class_at(s: Seq<char>, i: int, k: CharClass) -> bool {
    0 <= i < s.len() && in_class(s[i], k)
}

pub proof fn lemma_run_bounds(s: Seq<char>, i: int, k: CharClass)
    requires
        0 <= i,
    ensures
        i + run_len(s, i, k) <= s.len() || run_len(s, i, k) == 0,
        forall|j: int| i <= j < i + run_len(s, i, k) ==> in_class(#[trigger] s[j], k),
        !class_at(s, i + run_len(s, i, k), k),
    decreases s.len() - i,
{
    if 0 <= i < s.len() && in_class(s[i], k) {
        lemma_run_bounds(s, i + 1, k);
    }
}

/// The length of the run of class `k` in `s` from `i` on.
pub fn scan_run(s: &Vec<char>, i: usize, k: CharClass) -> (r: usize)
    requires
        i <= s@.len(),
    ensures
        r == run_len(s@, i as int, k),
        i + r <= s@.len(),
{
    let mut j: usize = i;
    while j < s.len() && char_in_class(s[j], k)
        invariant
            i <= j <= s@.len(),
            run_len(s@, i as int, k) == (j - i) + run_len(s@, j as int, k),
        decreases s@.len() - j,
    {
        j = j + 1;
    }
    j - i
}

/// Whether `lit` stands in `s` from `i` on.
pub fn text_at(s: &Vec<char>, i: usize, lit: &Vec<char>) -> (r: bool)
    ensures
        r == has_at(s@, i as int, lit@),
{
    if i > s.len() || lit.len() > s.len() - i {
        return false;
    }
    let mut j: usize = 0;
    while j < lit.len()
        invariant
            i + lit@.len() <= s@.len(),
            i <= s@.len(),
            j <= lit@.len(),
            forall|t: int| 0 <= t < j ==> s@[i + t] == lit@[t],
        decreases lit@.len() - j,
    {
        assert(i + j < s.len());
        if s[i + j] != lit[j] {
            assert(s@.subrange(i as int, i + lit@.len())[j as int] != lit@[j as int]);
            return false;
        }
        j = j + 1;
    }
    assert(s@.subrange(i as int, i + lit@.len()) =~= lit@);
    true
}

/// The last position `j` with `lo <= j < hi` that holds a character of class
/// `k`, or -1 where there is none.
pub open spec fn last_in(s: Seq<char>, lo: int, hi: int, k: CharClass) -> int
    decreases hi - lo,
{
    if hi <= lo {
        -1
    } else if class_at(s, hi - 1, k) {
        hi - 1
    } else {
        last_in(s, lo, hi - 1, k)
    }
}

/// Searches `s[lo..hi]` backwards for a character of class `k`.
pub fn find_last(s: &Vec<char>, lo: usize, hi: usize, k: CharClass) -> (r: Option<usize>)
    requires
        hi <= s@.len(),
    ensures
        last_in(s@, lo as int, hi as int, k) == match r {
            Some(j) => j as int,
            None => -1,
        },
        r is Some ==> lo <= r->0 < hi,
{
    let mut h: usize = hi;
    while h > lo
        invariant
            h <= hi <= s@.len(),
            last_in(s@, lo as int, hi as int, k) == last_in(s@, lo as int, h as int, k),
        decreases h,
    {
        if char_in_class(s[h - 1], k) {
            return Some(h - 1);
        }
        h = h - 1;
    }
    None
}

/// Appends the characters `s[from..to]` to `out`.
pub fn push_range(out: &mut Vec<char>, s: &Vec<char>, from: usize, to: usize)
    requires
        from <= to <= s@.len(),
    ensures
        final(out)@ == old(out)@ + s@.subrange(from as int, to as int),
{
    let mut j: usize = from;
    while j < to
        invariant
            from <= j <= to <= s@.len(),
            out@ == old(out)@ + s@.subrange(from as int, j as int),
        decreases to - j,
    {
        out.push(s[j]);
        assert(s@.subrange(from as int, j + 1) =~= s@.subrange(from as int, j as int).push(s@[j as int]));
        j = j + 1;
    }
}

/// Appends all of `t` to `out`.
pub fn push_all(out: &mut Vec<char>, t: &Vec<char>)
    ensures
        final(out)@ == old(out)@ + t@,
{
    push_range(out, t, 0, t.len());
    assert(t@.subrange(0, t@.len() as int) =~= t@);
}

/// Relies on `str::chars`, collected into a vector: the characters of `s` in order.
#[verifier::external_body]
pub fn chars_of(s: &str) -> (r: Vec<char>)
    ensures
        r@ == s@,
{
    s.chars().collect()
}

/// Relies on `String::push`: appends one character.
#[verifier::external_body]
fn push_char(s: &mut String, c: char)
    ensures
        final(s)@ == old(s)@.push(c),
{
    s.push(c)
}

/// The string made of the characters of `v`, in order.
pub fn string_of(v: &Vec<char>) -> (r: String)
    ensures
        r@ == v@,
{
    let mut r = String::new();
    let mut j: usize = 0;
    while j < v.len()
        invariant
            j <= v@.len(),
            r@ == v@.subrange(0, j as int),
        decreases v@.len() - j,
    {
        push_char(&mut r, v[j]);
        assert(v@.subrange(0, j + 1) =~= v@.subrange(0, j as int).push(v@[j as int]));
        j = j + 1;
    }
    assert(v@.subrange(0, v@.len() as int) =~= v@);
    r
}

} // verus!
