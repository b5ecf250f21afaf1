//! The recognized Org constructs: what each one looks like in the source, and
//! the Typst text that replaces it.
//!
//! Each recognizer looks at one position of the source and says whether its
//! construct starts there, what the construct captured, and where it ends.
//! Character classes are ASCII: a word character is a letter, a digit or `_`.
use crate::text::{
    CharClass, char_in_class, chars_of, class_at, find_last, has_at, last_in, lemma_run_bounds,
    push_all, push_range, run_len, scan_run, text_at,
};
use vstd::prelude::*;

verus! {

/// Opens the title line, followed by one whitespace character and the title.
pub const TITLE_KEY: &'static str = "#+title:";

/// Opens the author line, followed by one whitespace character and the author.
pub const AUTHOR_KEY: &'static str = "#+author:";

/// Opens a source block; one whitespace character after it belongs to it.
pub const BEGIN_SRC: &'static str = "#+begin_src";

/// Closes a source block.
pub const END_SRC: &'static str = "#+end_src";

/// Opens a property drawer.
pub const PROPERTIES_KEY: &'static str = ":PROPERTIES:";

/// The identifier entry of a property drawer.
pub const ID_KEY: &'static str = ":ID:";

/// Closes a property drawer.
pub const END_KEY: &'static str = ":END:";

/// Starts any other directive line.
pub const DIRECTIVE_KEY: &'static str = "#+";

/// Opens a link to a node by its identifier.
pub const LINK_OPEN: &'static str = "[[id:";

/// Separates a link's target from its label.
pub const LINK_MID: &'static str = "][";

/// Closes a link.
pub const LINK_CLOSE: &'static str = "]]";

/// Opens a quotation in backticks.
pub const QUOTE_OPEN: &'static str = "``";

/// Closes a quotation in backticks.
pub const QUOTE_CLOSE: &'static str = "''";

/// Opens a citation; its key follows.
pub const CITE_OPEN: &'static str = "[cite:@";

/// The Typst text before the title in the document setup call.
pub const SETUP_OPEN: &'static str = "#show: project.with(title: \"";

/// The Typst text between the title and the author in the setup call.
pub const SETUP_MID: &'static str = "\", authors: (\"";

/// The Typst text after the author in the setup call.
pub const SETUP_CLOSE: &'static str = "\",))";

/// The Typst fence of a raw block, for its start and its end alike.
pub const FENCE: &'static str = "```";

/// The Typst text before the label of a link.
pub const UNDERLINE_OPEN: &'static str = "#underline[";

/// A recognized construct, with what it captured from the source.
pub enum Piece {
    /// The title line, with the author line that follows it if there is one.
    Setup { title: Seq<char>, author: Option<Seq<char>> },
    /// A heading marker: a line feed and `depth` asterisks.
    Heading { depth: nat },
    /// The start or the end of a source block.
    Fence,
    /// A property drawer that holds an identifier.
    Drawer,
    /// Any other directive line.
    Directive,
    /// Text between slashes.
    Italic { text: Seq<char> },
    /// A link to a node, with its label.
    CrossRef { label: Seq<char> },
    /// Text between ``` `` ``` and `''`.
    Quote { text: Seq<char> },
    /// A citation, with its key.
    Citation { key: Seq<char> },
}

pub open spec fn char_is(s: Seq<char>, i: int, c: char) -> bool {
    0 <= i < s.len() && s[i] == c
}

/// `#+title:`, one whitespace character, a title of word characters and
/// hyphens; then, if they follow, one whitespace character, `#+author:`, one
/// whitespace character and an author of word characters and spaces.
pub open spec fn setup_at(s: Seq<char>, i: int) -> Option<(Piece, int)> {
    let t0 = i + TITLE_KEY@.len() + 1;
    let p = t0 + run_len(s, t0, CharClass::WordDash);
    let a0 = p + 1 + AUTHOR_KEY@.len() + 1;
    let q = a0 + run_len(s, a0, CharClass::WordSpace);
    if has_at(s, i, TITLE_KEY@) && class_at(s, t0 - 1, CharClass::White) && p > t0 {
        if class_at(s, p, CharClass::White) && has_at(s, p + 1, AUTHOR_KEY@) && class_at(
            s,
            a0 - 1,
            CharClass::White,
        ) && q > a0 {
            Some(
                (
                    Piece::Setup { title: s.subrange(t0, p), author: Some(s.subrange(a0, q)) },
                    q,
                ),
            )
        } else {
            Some((Piece::Setup { title: s.subrange(t0, p), author: None }, p))
        }
    } else {
        None
    }
}

/// A line feed followed by one or more asterisks, all of them.
pub open spec fn heading_at(s: Seq<char>, i: int) -> Option<(Piece, int)> {
    let k = run_len(s, i + 1, CharClass::Star);
    if char_is(s, i, '\n') && k > 0 {
        Some((Piece::Heading { depth: k }, i + 1 + k))
    } else {
        None
    }
}

/// `#+begin_src` with one whitespace character, or `#+end_src`.
pub open spec fn fence_at(s: Seq<char>, i: int) -> Option<(Piece, int)> {
    if has_at(s, i, BEGIN_SRC@) && class_at(s, i + BEGIN_SRC@.len(), CharClass::White) {
        Some((Piece::Fence, i + BEGIN_SRC@.len() + 1))
    } else if has_at(s, i, END_SRC@) {
        Some((Piece::Fence, i + END_SRC@.len()))
    } else {
        None
    }
}

/// `:PROPERTIES:`, one whitespace character, `:ID:`, whitespace, an
/// identifier of word characters and hyphens, one whitespace character and
/// `:END:`. Where the identifier is empty, the last character of the
/// whitespace run is the one before `:END:`.
pub open spec fn drawer_at(s: Seq<char>, i: int) -> Option<(Piece, int)> {
    let q = i + PROPERTIES_KEY@.len() + 1 + ID_KEY@.len();
    let w = run_len(s, q, CharClass::White);
    let r = run_len(s, q + w, CharClass::WordDash);
    if has_at(s, i, PROPERTIES_KEY@) && class_at(s, i + PROPERTIES_KEY@.len(), CharClass::White)
        && has_at(s, q - ID_KEY@.len(), ID_KEY@) && w > 0 {
        if class_at(s, q + w + r, CharClass::White) && has_at(s, q + w + r + 1, END_KEY@) {
            Some((Piece::Drawer, q + w + r + 1 + END_KEY@.len()))
        } else if w >= 2 && has_at(s, q + w, END_KEY@) {
            Some((Piece::Drawer, q + w + END_KEY@.len()))
        } else {
            None
        }
    } else {
        None
    }
}

/// `#+`, at least one more character of the line, and the whitespace
/// character that ends the longest such span: the line feed at the end of the
/// line, or at the end of the text the last whitespace character of the line.
pub open spec fn directive_at(s: Seq<char>, i: int) -> Option<(Piece, int)> {
    let b = i + DIRECTIVE_KEY@.len();
    let e = b + run_len(s, b, CharClass::Line);
    let j = last_in(s, b + 1, e + 1, CharClass::White);
    if has_at(s, i, DIRECTIVE_KEY@) && j >= 0 {
        Some((Piece::Directive, j + 1))
    } else {
        None
    }
}

/// A slash, one or more word characters or spaces, and a slash.
pub open spec fn italic_at(s: Seq<char>, i: int) -> Option<(Piece, int)> {
    let e = i + 1 + run_len(s, i + 1, CharClass::WordSpace);
    if char_is(s, i, '/') && e > i + 1 && char_is(s, e, '/') {
        Some((Piece::Italic { text: s.subrange(i + 1, e) }, e + 1))
    } else {
        None
    }
}

/// Whether `s` holds at `j` the end of a link: `][`, a label of word
/// characters and hyphens, and `]]`.
pub open spec fn link_tail(s: Seq<char>, j: int) -> bool {
    let l = j + LINK_MID@.len();
    let e = l + run_len(s, l, CharClass::WordDash);
    has_at(s, j, LINK_MID@) && e > l && has_at(s, e, LINK_CLOSE@)
}

/// The last position `j` with `lo <= j < hi` where a link ends, or -1.
pub open spec fn last_link(s: Seq<char>, lo: int, hi: int) -> int
    decreases hi - lo,
{
    if hi <= lo {
        -1
    } else if link_tail(s, hi - 1) {
        hi - 1
    } else {
        last_link(s, lo, hi - 1)
    }
}

proof fn lemma_last_link(s: Seq<char>, lo: int, hi: int)
    ensures
        last_link(s, lo, hi) >= 0 ==> lo <= last_link(s, lo, hi) < hi && link_tail(
            s,
            last_link(s, lo, hi),
        ),
    decreases hi - lo,
{
    if hi > lo && !link_tail(s, hi - 1) {
        lemma_last_link(s, lo, hi - 1);
    }
}

/// `[[id:`, a target of at least one character of the line, `][`, a label of
/// word characters and hyphens and `]]`; where the line offers several ends,
/// the target reaches to the last.
pub open spec fn crossref_at(s: Seq<char>, i: int) -> Option<(Piece, int)> {
    let b = i + LINK_OPEN@.len();
    let e = b + run_len(s, b, CharClass::Line);
    let j = last_link(s, b + 1, e);
    let l = j + LINK_MID@.len();
    let m = l + run_len(s, l, CharClass::WordDash);
    if has_at(s, i, LINK_OPEN@) && j >= 0 {
        Some((Piece::CrossRef { label: s.subrange(l, m) }, m + LINK_CLOSE@.len()))
    } else {
        None
    }
}

/// ``` `` ```, one or more word or whitespace characters, and `''`.
pub open spec fn quote_at(s: Seq<char>, i: int) -> Option<(Piece, int)> {
    let b = i + QUOTE_OPEN@.len();
    let e = b + run_len(s, b, CharClass::WordWhite);
    if has_at(s, i, QUOTE_OPEN@) && e > b && has_at(s, e, QUOTE_CLOSE@) {
        Some((Piece::Quote { text: s.subrange(b, e) }, e + QUOTE_CLOSE@.len()))
    } else {
        None
    }
}

/// `[cite:@`, a key of word characters and hyphens, and `]`.
pub open spec fn cite_at(s: Seq<char>, i: int) -> Option<(Piece, int)> {
    let b = i + CITE_OPEN@.len();
    let e = b + run_len(s, b, CharClass::WordDash);
    if has_at(s, i, CITE_OPEN@) && e > b && char_is(s, e, ']') {
        Some((Piece::Citation { key: s.subrange(b, e) }, e + 1))
    } else {
        None
    }
}

/// The construct that starts at `i`, with its end: the recognizers are tried
/// in a fixed order and the first that matches is taken.
pub open spec fn construct_at(s: Seq<char>, i: int) -> Option<(Piece, int)> {
    if setup_at(s, i) is Some {
        setup_at(s, i)
    } else if heading_at(s, i) is Some {
        heading_at(s, i)
    } else if fence_at(s, i) is Some {
        fence_at(s, i)
    } else if drawer_at(s, i) is Some {
        drawer_at(s, i)
    } else if directive_at(s, i) is Some {
        directive_at(s, i)
    } else if italic_at(s, i) is Some {
        italic_at(s, i)
    } else if crossref_at(s, i) is Some {
        crossref_at(s, i)
    } else if quote_at(s, i) is Some {
        quote_at(s, i)
    } else {
        cite_at(s, i)
    }
}

/// `n` equals signs.
pub open spec fn equals_run(n: nat) -> Seq<char> {
    Seq::new(n, |j: int| '=')
}

/// The Typst text that replaces a construct; `default_author` stands for an
/// author that the source does not give.
pub open spec fn render(p: Piece, default_author: Seq<char>) -> Seq<char> {
    match p {
        Piece::Setup { title, author } => SETUP_OPEN@ + title + SETUP_MID@ + match author {
            Some(a) => a,
            None => default_author,
        } + SETUP_CLOSE@,
        Piece::Heading { depth } => seq!['\n'] + equals_run(depth),
        Piece::Fence => FENCE@,
        Piece::Drawer => Seq::empty(),
        Piece::Directive => Seq::empty(),
        Piece::Italic { text } => seq!['_'] + text + seq!['_'],
        Piece::CrossRef { label } => UNDERLINE_OPEN@ + label + seq![']'],
        Piece::Quote { text } => seq!['"'] + text + seq!['"'],
        Piece::Citation { key } => key,
    }
}

/// What a recognizer that ran at `i` has done: where the construct `m` starts
/// there, it returned the construct's end and appended its replacement;
/// otherwise it returned `None` and left the output alone.
pub open spec fn recognized(
    m: Option<(Piece, int)>,
    i: int,
    r: Option<usize>,
    before: Seq<char>,
    after: Seq<char>,
    default_author: Seq<char>,
) -> bool {
    match m {
        Some((p, e)) => r is Some && r->0 == e && i < e && after == before + render(
            p,
            default_author,
        ),
        None => r is None && after == before,
    }
}

/// Recognizes the title line (and author line) at `i`.
pub fn try_setup(s: &Vec<char>, i: usize, default_author: &Vec<char>, out: &mut Vec<char>) -> (r:
    Option<usize>)
    requires
        i < s@.len(),
    ensures
        recognized(setup_at(s@, i as int), i as int, r, old(out)@, final(out)@, default_author@),
        r is Some ==> r->0 <= s@.len(),
{
    let n = s.len();
    let tk = chars_of(TITLE_KEY);
    if !text_at(s, i, &tk) {
        return None;
    }
    let k = i + tk.len();
    if k >= s.len() || !char_in_class(s[k], CharClass::White) {
        return None;
    }
    let t0 = k + 1;
    let t = scan_run(s, t0, CharClass::WordDash);
    if t == 0 {
        return None;
    }
    let p = t0 + t;
    let ak = chars_of(AUTHOR_KEY);
    let mut a0: usize = 0;
    let mut author_end: usize = 0;
    if p < n && char_in_class(s[p], CharClass::White) && text_at(s, p + 1, &ak) {
        let k2 = p + 1 + ak.len();
        if k2 < n && char_in_class(s[k2], CharClass::White) {
            a0 = k2 + 1;
            let a = scan_run(s, a0, CharClass::WordSpace);
            if a > 0 {
                author_end = a0 + a;
            }
        }
    }
    let ghost start = out@;
    push_all(out, &chars_of(SETUP_OPEN));
    push_range(out, s, t0, p);
    push_all(out, &chars_of(SETUP_MID));
    let end: usize;
    if author_end > 0 {
        push_range(out, s, a0, author_end);
        end = author_end;
    } else {
        push_all(out, default_author);
        end = p;
    }
    push_all(out, &chars_of(SETUP_CLOSE));
    proof {
        let b0 = p + 1 + AUTHOR_KEY@.len() + 1;
        if author_end == 0 {
            lemma_run_bounds(s@, b0, CharClass::WordSpace);
        }
        let found = setup_at(s@, i as int)->0;
        let piece = found.0;
        assert(out@ =~= start + render(piece, default_author@));
    }
    Some(end)
}

/// Recognizes a heading marker at `i`.
pub fn try_heading(s: &Vec<char>, i: usize, out: &mut Vec<char>) -> (r: Option<usize>)
    requires
        i < s@.len(),
    ensures
        recognized(heading_at(s@, i as int), i as int, r, old(out)@, final(out)@, seq![]),
        r is Some ==> r->0 <= s@.len(),
{
    let n = s.len();
    if s[i] != '\n' {
        return None;
    }
    let k = scan_run(s, i + 1, CharClass::Star);
    if k == 0 {
        return None;
    }
    let ghost start = out@;
    out.push('\n');
    let mut j: usize = 0;
    while j < k
        invariant
            j <= k,
            out@ == start + seq!['\n'] + equals_run(j as nat),
        decreases k - j,
    {
        out.push('=');
        assert(equals_run((j + 1) as nat) =~= equals_run(j as nat).push('='));
        j = j + 1;
    }
    assert(out@ =~= start + (seq!['\n'] + equals_run(k as nat)));
    Some(i + 1 + k)
}

/// Recognizes the start or the end of a source block at `i`.
pub fn try_fence(s: &Vec<char>, i: usize, out: &mut Vec<char>) -> (r: Option<usize>)
    requires
        i < s@.len(),
    ensures
        recognized(fence_at(s@, i as int), i as int, r, old(out)@, final(out)@, seq![]),
        r is Some ==> r->0 <= s@.len(),
{
    let n = s.len();
    let bs = chars_of(BEGIN_SRC);
    if text_at(s, i, &bs) && i + bs.len() < n && char_in_class(s[i + bs.len()], CharClass::White) {
        push_all(out, &chars_of(FENCE));
        return Some(i + bs.len() + 1);
    }
    let es = chars_of(END_SRC);
    if text_at(s, i, &es) {
        proof {
            reveal_strlit("#+end_src");
        }
        push_all(out, &chars_of(FENCE));
        return Some(i + es.len());
    }
    None
}

/// Recognizes a property drawer at `i`.
pub fn try_drawer(s: &Vec<char>, i: usize, out: &Vec<char>) -> (r: Option<usize>)
    requires
        i < s@.len(),
    ensures
        recognized(drawer_at(s@, i as int), i as int, r, out@, out@, seq![]),
        r is Some ==> r->0 <= s@.len(),
{
    let n = s.len();
    let pk = chars_of(PROPERTIES_KEY);
    if !text_at(s, i, &pk) {
        return None;
    }
    let k = i + pk.len();
    if k >= n || !char_in_class(s[k], CharClass::White) {
        return None;
    }
    let ik = chars_of(ID_KEY);
    if !text_at(s, k + 1, &ik) {
        return None;
    }
    let q = k + 1 + ik.len();
    let w = scan_run(s, q, CharClass::White);
    if w == 0 {
        return None;
    }
    let r = scan_run(s, q + w, CharClass::WordDash);
    let ek = chars_of(END_KEY);
    let x = q + w + r;
    assert(out@ + Seq::<char>::empty() =~= out@);
    if x < n && char_in_class(s[x], CharClass::White) && text_at(s, x + 1, &ek) {
        Some(x + 1 + ek.len())
    } else if w >= 2 && text_at(s, q + w, &ek) {
        Some(q + w + ek.len())
    } else {
        None
    }
}

/// Recognizes any other directive line at `i`.
pub fn try_directive(s: &Vec<char>, i: usize, out: &Vec<char>) -> (r: Option<usize>)
    requires
        i < s@.len(),
    ensures
        recognized(directive_at(s@, i as int), i as int, r, out@, out@, seq![]),
        r is Some ==> r->0 <= s@.len(),
{
    let n = s.len();
    let dk = chars_of(DIRECTIVE_KEY);
    if !text_at(s, i, &dk) {
        return None;
    }
    let b = i + dk.len();
    if b >= n {
        return None;
    }
    let e = b + scan_run(s, b, CharClass::Line);
    let hi = if e < n {
        e + 1
    } else {
        e
    };
    assert(last_in(s@, b + 1, e + 1, CharClass::White) == last_in(s@, b + 1, hi as int, CharClass::White));
    assert(out@ + Seq::<char>::empty() =~= out@);
    match find_last(s, b + 1, hi, CharClass::White) {
        Some(j) => Some(j + 1),
        None => None,
    }
}

/// Recognizes text between slashes at `i`.
pub fn try_italic(s: &Vec<char>, i: usize, out: &mut Vec<char>) -> (r: Option<usize>)
    requires
        i < s@.len(),
    ensures
        recognized(italic_at(s@, i as int), i as int, r, old(out)@, final(out)@, seq![]),
        r is Some ==> r->0 <= s@.len(),
{
    let n = s.len();
    if s[i] != '/' {
        return None;
    }
    let a = scan_run(s, i + 1, CharClass::WordSpace);
    let e = i + 1 + a;
    if a == 0 || e >= n || s[e] != '/' {
        return None;
    }
    let ghost start = out@;
    out.push('_');
    push_range(out, s, i + 1, e);
    out.push('_');
    assert(out@ =~= start + (seq!['_'] + s@.subrange(i + 1, e as int) + seq!['_']));
    Some(e + 1)
}

/// Where `s` holds at `j` the end of a link, the end of its label.
fn link_tail_end(s: &Vec<char>, j: usize) -> (r: Option<usize>)
    requires
        j <= s@.len(),
    ensures
        r is Some == link_tail(s@, j as int),
        r is Some ==> r->0 == j + LINK_MID@.len() + run_len(
            s@,
            j + LINK_MID@.len(),
            CharClass::WordDash,
        ),
        r is Some ==> r->0 + LINK_CLOSE@.len() <= s@.len(),
{
    let n = s.len();
    let mid = chars_of(LINK_MID);
    if !text_at(s, j, &mid) {
        return None;
    }
    let l = j + mid.len();
    let e = l + scan_run(s, l, CharClass::WordDash);
    if e > l && text_at(s, e, &chars_of(LINK_CLOSE)) {
        Some(e)
    } else {
        None
    }
}

/// Searches `s[lo..hi]` backwards for the end of a link.
fn find_link(s: &Vec<char>, lo: usize, hi: usize) -> (r: Option<usize>)
    requires
        hi <= s@.len(),
    ensures
        last_link(s@, lo as int, hi as int) == match r {
            Some(j) => j as int,
            None => -1,
        },
        r is Some ==> lo <= r->0 < hi,
{
    let mut h: usize = hi;
    while h > lo
        invariant
            h <= hi <= s@.len(),
            last_link(s@, lo as int, hi as int) == last_link(s@, lo as int, h as int),
        decreases h,
    {
        if link_tail_end(s, h - 1).is_some() {
            return Some(h - 1);
        }
        h = h - 1;
    }
    None
}

/// Recognizes a link to a node at `i`.
pub fn try_crossref(s: &Vec<char>, i: usize, out: &mut Vec<char>) -> (r: Option<usize>)
    requires
        i < s@.len(),
    ensures
        recognized(crossref_at(s@, i as int), i as int, r, old(out)@, final(out)@, seq![]),
        r is Some ==> r->0 <= s@.len(),
{
    let n = s.len();
    let lk = chars_of(LINK_OPEN);
    if !text_at(s, i, &lk) {
        return None;
    }
    let b = i + lk.len();
    if b >= n {
        return None;
    }
    let e = b + scan_run(s, b, CharClass::Line);
    let j = match find_link(s, b + 1, e) {
        Some(j) => j,
        None => {
            return None;
        },
    };
    proof {
        lemma_last_link(s@, b + 1, e as int);
    }
    let m = match link_tail_end(s, j) {
        Some(m) => m,
        None => {
            return None;
        },
    };
    let l = j + chars_of(LINK_MID).len();
    let ghost start = out@;
    push_all(out, &chars_of(UNDERLINE_OPEN));
    push_range(out, s, l, m);
    out.push(']');
    assert(out@ =~= start + (UNDERLINE_OPEN@ + s@.subrange(l as int, m as int) + seq![']']));
    Some(m + chars_of(LINK_CLOSE).len())
}

/// Recognizes a quotation in backticks at `i`.
pub fn try_quote(s: &Vec<char>, i: usize, out: &mut Vec<char>) -> (r: Option<usize>)
    requires
        i < s@.len(),
    ensures
        recognized(quote_at(s@, i as int), i as int, r, old(out)@, final(out)@, seq![]),
        r is Some ==> r->0 <= s@.len(),
{
    let n = s.len();
    let qo = chars_of(QUOTE_OPEN);
    if !text_at(s, i, &qo) {
        return None;
    }
    let b = i + qo.len();
    let e = b + scan_run(s, b, CharClass::WordWhite);
    let qc = chars_of(QUOTE_CLOSE);
    if e == b || !text_at(s, e, &qc) {
        return None;
    }
    let ghost start = out@;
    out.push('"');
    push_range(out, s, b, e);
    out.push('"');
    assert(out@ =~= start + (seq!['"'] + s@.subrange(b as int, e as int) + seq!['"']));
    Some(e + qc.len())
}

/// Recognizes a citation at `i`.
pub fn try_cite(s: &Vec<char>, i: usize, out: &mut Vec<char>) -> (r: Option<usize>)
    requires
        i < s@.len(),
    ensures
        recognized(cite_at(s@, i as int), i as int, r, old(out)@, final(out)@, seq![]),
        r is Some ==> r->0 <= s@.len(),
{
    let n = s.len();
    let co = chars_of(CITE_OPEN);
    if !text_at(s, i, &co) {
        return None;
    }
    let b = i + co.len();
    let e = b + scan_run(s, b, CharClass::WordDash);
    if e == b || e >= n || s[e] != ']' {
        return None;
    }
    push_range(out, s, b, e);
    Some(e + 1)
}

/// Recognizes whichever construct starts at `i`, trying the recognizers in
/// the order of `construct_at`, and appends its replacement to `out`.
pub fn try_construct(s: &Vec<char>, i: usize, default_author: &Vec<char>, out: &mut Vec<char>) -> (r:
    Option<usize>)
    requires
        i < s@.len(),
    ensures
        recognized(construct_at(s@, i as int), i as int, r, old(out)@, final(out)@, default_author@),
        r is Some ==> r->0 <= s@.len(),
{
    let r = try_setup(s, i, default_author, out);
    if r.is_some() {
        return r;
    }
    let r = try_heading(s, i, out);
    if r.is_some() {
        return r;
    }
    let r = try_fence(s, i, out);
    if r.is_some() {
        return r;
    }
    let r = try_drawer(s, i, out);
    if r.is_some() {
        return r;
    }
    let r = try_directive(s, i, out);
    if r.is_some() {
        return r;
    }
    let r = try_italic(s, i, out);
    if r.is_some() {
        return r;
    }
    let r = try_crossref(s, i, out);
    if r.is_some() {
        return r;
    }
    let r = try_quote(s, i, out);
    if r.is_some() {
        return r;
    }
    try_cite(s, i, out)
}

} // verus!
