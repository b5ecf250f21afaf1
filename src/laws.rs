//! Laws of the conversion, proved of the pass that `convert` performs.
use crate::convert::{body_of, convert_from};
use crate::rules::{
    BEGIN_SRC, CITE_OPEN, DIRECTIVE_KEY, END_KEY, END_SRC, ID_KEY, LINK_OPEN,
    PROPERTIES_KEY, QUOTE_OPEN, TITLE_KEY, construct_at, equals_run, render,
};
use crate::text::{CharClass, class_at, has_at, in_class, run_len};
use vstd::prelude::*;

verus! {

/// The characters of the keys that open the constructs.
proof fn lemma_keys()
    ensures
        TITLE_KEY@ == seq!['#', '+', 't', 'i', 't', 'l', 'e', ':'],
        BEGIN_SRC@ == seq!['#', '+', 'b', 'e', 'g', 'i', 'n', '_', 's', 'r', 'c'],
        END_SRC@ == seq!['#', '+', 'e', 'n', 'd', '_', 's', 'r', 'c'],
        PROPERTIES_KEY@ == seq![':', 'P', 'R', 'O', 'P', 'E', 'R', 'T', 'I', 'E', 'S', ':'],
        ID_KEY@ == seq![':', 'I', 'D', ':'],
        END_KEY@ == seq![':', 'E', 'N', 'D', ':'],
        DIRECTIVE_KEY@ == seq!['#', '+'],
        LINK_OPEN@ == seq!['[', '[', 'i', 'd', ':'],
        QUOTE_OPEN@ == seq!['`', '`'],
        CITE_OPEN@ == seq!['[', 'c', 'i', 't', 'e', ':', '@'],
{
    reveal_strlit("#+title:");
    reveal_strlit("#+begin_src");
    reveal_strlit("#+end_src");
    reveal_strlit(":PROPERTIES:");
    reveal_strlit(":ID:");
    reveal_strlit(":END:");
    reveal_strlit("#+");
    reveal_strlit("[[id:");
    reveal_strlit("``");
    reveal_strlit("[cite:@");
}

/// A text that holds `lit` at `i` holds each of its characters there.
proof fn lemma_has_at_chars(s: Seq<char>, i: int, lit: Seq<char>)
    ensures
        has_at(s, i, lit) ==> forall|t: int| 0 <= t < lit.len() ==> s[i + t] == #[trigger] lit[t],
{
    if has_at(s, i, lit) {
        assert forall|t: int| 0 <= t < lit.len() implies s[i + t] == #[trigger] lit[t] by {
            assert(s.subrange(i, i + lit.len())[t] == s[i + t]);
        }
    }
}

/// A run of exactly `k` characters of class `k` that the class does not
/// continue has length `k`.
proof fn lemma_run_exact(s: Seq<char>, i: int, n: nat, k: CharClass)
    requires
        0 <= i,
        i + n <= s.len(),
        forall|j: int| i <= j < i + n ==> in_class(#[trigger] s[j], k),
        !class_at(s, i + n, k),
    ensures
        run_len(s, i, k) == n,
    decreases n,
{
    if n > 0 {
        lemma_run_exact(s, i + 1, (n - 1) as nat, k);
    }
}

/// Where no construct starts, the conversion of `s` from `i` on is `s` from
/// `i` on.
proof fn lemma_plain_from(s: Seq<char>, i: int, default_author: Seq<char>)
    requires
        0 <= i <= s.len(),
        forall|j: int| 0 <= j < s.len() ==> construct_at(s, j) is None,
    ensures
        convert_from(s, i, default_author) == s.subrange(i, s.len() as int),
    decreases s.len() - i,
{
    if i < s.len() {
        lemma_plain_from(s, i + 1, default_author);
        assert(construct_at(s, i) is None);
        assert(s.subrange(i, s.len() as int) =~= seq![s[i]] + s.subrange(i + 1, s.len() as int));
    } else {
        assert(s.subrange(i, s.len() as int) =~= Seq::<char>::empty());
    }
}

/// A text in which no construct starts at any position converts to itself.
pub proof fn lemma_plain_text_unchanged(s: Seq<char>, default_author: Seq<char>)
    requires
        forall|j: int| 0 <= j < s.len() ==> construct_at(s, j) is None,
    ensures
        body_of(s, default_author) == s,
{
    lemma_plain_from(s, 0, default_author);
    assert(s.subrange(0, s.len() as int) =~= s);
}

/// Where the pass reaches a line feed followed by exactly `k` asterisks, it
/// writes a line feed and exactly `k` equals signs, and goes on after the
/// asterisks.
pub proof fn lemma_heading_depth_kept(s: Seq<char>, i: int, k: nat, default_author: Seq<char>)
    requires
        0 <= i,
        k >= 1,
        i + 1 + k <= s.len(),
        s[i] == '\n',
        forall|j: int| i + 1 <= j < i + 1 + k ==> #[trigger] s[j] == '*',
        i + 1 + k == s.len() || s[i + 1 + k] != '*',
    ensures
        convert_from(s, i, default_author) == seq!['\n'] + equals_run(k) + convert_from(
            s,
            i + 1 + k,
            default_author,
        ),
{
    lemma_keys();
    lemma_has_at_chars(s, i, TITLE_KEY@);
    lemma_run_exact(s, i + 1, k, CharClass::Star);
}

/// A property drawer that holds the identifier `id`, with one space between
/// its parts.
pub open spec fn drawer_block(id: Seq<char>) -> Seq<char> {
    PROPERTIES_KEY@ + seq![' '] + ID_KEY@ + seq![' '] + id + seq![' '] + END_KEY@
}

/// None of the recognizers that precede the drawer's matches at a colon.
proof fn lemma_colon_starts_no_earlier(s: Seq<char>, i: int)
    requires
        0 <= i < s.len(),
        s[i] == ':',
    ensures
        crate::rules::setup_at(s, i) is None,
        crate::rules::heading_at(s, i) is None,
        crate::rules::fence_at(s, i) is None,
{
    lemma_keys();
    lemma_has_at_chars(s, i, TITLE_KEY@);
    lemma_has_at_chars(s, i, BEGIN_SRC@);
    lemma_has_at_chars(s, i, END_SRC@);
}

/// Where the pass reaches a property drawer, whatever its identifier, it
/// writes nothing for it and goes on after it.
pub proof fn lemma_drawer_removed(s: Seq<char>, i: int, id: Seq<char>, default_author: Seq<char>)
    requires
        0 <= i,
        forall|t: int| 0 <= t < id.len() ==> in_class(#[trigger] id[t], CharClass::WordDash),
        has_at(s, i, drawer_block(id)),
    ensures
        convert_from(s, i, default_author) == convert_from(
            s,
            i + drawer_block(id).len(),
            default_author,
        ),
{
    lemma_keys();
    let b = drawer_block(id);
    let n = id.len() as int;
    lemma_has_at_chars(s, i, b);
    assert(b.len() == 24 + n);
    assert forall|t: int| 0 <= t < 12 implies s[i + t] == PROPERTIES_KEY@[t] by {
        assert(b[t] == PROPERTIES_KEY@[t]);
    }
    assert(s.subrange(i, i + 12) =~= PROPERTIES_KEY@);
    assert(b[12] == ' ');
    assert forall|t: int| 0 <= t < 4 implies s[i + 13 + t] == ID_KEY@[t] by {
        assert(b[13 + t] == ID_KEY@[t]);
    }
    assert(s.subrange(i + 13, i + 17) =~= ID_KEY@);
    assert(b[17] == ' ');
    assert forall|t: int| 0 <= t < n implies s[i + 18 + t] == id[t] by {
        assert(b[18 + t] == id[t]);
    }
    assert(b[18 + n] == ' ');
    assert forall|t: int| 0 <= t < 5 implies s[i + 19 + n + t] == END_KEY@[t] by {
        assert(b[19 + n + t] == END_KEY@[t]);
    }
    assert(s.subrange(i + 19 + n, i + 24 + n) =~= END_KEY@);
    assert(s[i] == b[0]);
    lemma_colon_starts_no_earlier(s, i);
    assert forall|j: int| i + 18 <= j < i + 18 + n implies in_class(
        #[trigger] s[j],
        CharClass::WordDash,
    ) by {
        assert(s[i + 18 + (j - i - 18)] == id[j - i - 18]);
    }
    if n > 0 {
        assert(s[i + 18 + 0] == id[0] && in_class(id[0], CharClass::WordDash));
        lemma_run_exact(s, i + 17, 1, CharClass::White);
        lemma_run_exact(s, i + 18, n as nat, CharClass::WordDash);
    } else {
        lemma_run_exact(s, i + 17, 2, CharClass::White);
        lemma_run_exact(s, i + 19, 0, CharClass::WordDash);
    }
    assert(crate::rules::drawer_at(s, i) == Some((crate::rules::Piece::Drawer, i + 24 + n)));
    assert(render(crate::rules::Piece::Drawer, default_author) =~= Seq::<char>::empty());
    assert(convert_from(s, i, default_author) =~= convert_from(s, i + 24 + n, default_author));
}

/// A citation, with its brackets and sigil.
pub open spec fn citation(key: Seq<char>) -> Seq<char> {
    CITE_OPEN@ + key + seq![']']
}

/// Where the pass reaches a citation, it writes the bare key and goes on
/// after the citation.
pub proof fn lemma_citation_key_kept(s: Seq<char>, i: int, key: Seq<char>, default_author: Seq<char>)
    requires
        0 <= i,
        key.len() >= 1,
        forall|t: int| 0 <= t < key.len() ==> in_class(#[trigger] key[t], CharClass::WordDash),
        has_at(s, i, citation(key)),
    ensures
        convert_from(s, i, default_author) == key + convert_from(
            s,
            i + citation(key).len(),
            default_author,
        ),
{
    lemma_keys();
    let b = citation(key);
    let n = key.len() as int;
    lemma_has_at_chars(s, i, b);
    assert(b.len() == 8 + n);
    assert forall|t: int| 0 <= t < 7 implies s[i + t] == CITE_OPEN@[t] by {
        assert(b[t] == CITE_OPEN@[t]);
    }
    assert(s.subrange(i, i + 7) =~= CITE_OPEN@);
    assert forall|t: int| 0 <= t < n implies s[i + 7 + t] == key[t] by {
        assert(b[7 + t] == key[t]);
    }
    assert(s.subrange(i + 7, i + 7 + n) =~= key);
    assert(b[7 + n] == ']');
    assert(s[i] == b[0] && s[i + 1] == b[1]);
    lemma_has_at_chars(s, i, TITLE_KEY@);
    lemma_has_at_chars(s, i, BEGIN_SRC@);
    lemma_has_at_chars(s, i, END_SRC@);
    lemma_has_at_chars(s, i, PROPERTIES_KEY@);
    lemma_has_at_chars(s, i, DIRECTIVE_KEY@);
    lemma_has_at_chars(s, i, LINK_OPEN@);
    lemma_has_at_chars(s, i, QUOTE_OPEN@);
    assert forall|j: int| i + 7 <= j < i + 7 + n implies in_class(
        #[trigger] s[j],
        CharClass::WordDash,
    ) by {
        assert(s[i + 7 + (j - i - 7)] == key[j - i - 7]);
    }
    lemma_run_exact(s, i + 7, n as nat, CharClass::WordDash);
    assert(construct_at(s, i) == Some((crate::rules::Piece::Citation { key }, i + 8 + n)));
}

} // verus!
