//! The whole conversion: the Typst template, the converted body and the
//! bibliography directive.
use crate::rules::{construct_at, render, try_construct};
use crate::text::{chars_of, push_all, string_of};
use vstd::prelude::*;

verus! {

/// The Typst template that the setup call of a converted document invokes; it
/// stands at the head of every converted document.
pub const TEMPLATE: &'static str = "#let project(title: \"\", authors: (), date: none, body) = {
  // Set the document's basic properties.
  set document(author: authors, title: title)
  set page(numbering: \"1\", number-align: center)

  // Save heading and body font families in variables.
  let body-font = \"New Computer Modern\"
  let sans-font = \"New Computer Modern Sans\"

  // Set body font family.
  set text(font: body-font, lang: \"en\")
  show math.equation: set text(weight: 400)
  show heading: set text(font: sans-font)

  // Title row.
  align(center)[
    #block(text(font: sans-font, weight: 700, 1.75em, title))
    #v(1em, weak: true)
    #date
  ]

  // Author information.
  pad(
    top: 0.5em,
    bottom: 0.5em,
    x: 2em,
    grid(
      columns: (1fr,) * calc.min(3, authors.len()),
      gutter: 1em,
      ..authors.map(author => align(center, strong(author))),
    ),
  )

  // Main body.
  set par(justify: true)

  body
}
";

/// Opens the bibliography directive at the end of a converted document; the
/// file name follows.
pub const BIBLIOGRAPHY_OPEN: &'static str = "#bibliography(\"";

/// Closes the bibliography directive.
pub const BIBLIOGRAPHY_CLOSE: &'static str = "\")";

/// The converted text of `s` from position `i` on: where a construct starts at
/// `i` its replacement, otherwise the character at `i` itself, followed by
/// the conversion of the rest. Every construct ends after it starts and
/// within the text, so the scan always moves on.
pub open spec fn convert_from(s: Seq<char>, i: int, default_author: Seq<char>) -> Seq<char>
    decreases s.len() - i,
{
    if i < 0 || i >= s.len() {
        Seq::empty()
    } else {
        match construct_at(s, i) {
            Some((p, e)) => if i < e <= s.len() {
                render(p, default_author) + convert_from(s, e, default_author)
            } else {
                seq![s[i]] + convert_from(s, i + 1, default_author)
            },
            None => seq![s[i]] + convert_from(s, i + 1, default_author),
        }
    }
}

/// The converted body of the whole text `s`.
pub open spec fn body_of(s: Seq<char>, default_author: Seq<char>) -> Seq<char> {
    convert_from(s, 0, default_author)
}

/// The directive that names the bibliography file.
pub open spec fn bibliography_of(file: Seq<char>) -> Seq<char> {
    BIBLIOGRAPHY_OPEN@ + file + BIBLIOGRAPHY_CLOSE@
}

/// The converted document: the template, the body, a blank line and the
/// bibliography directive.
pub open spec fn document_of(s: Seq<char>, default_author: Seq<char>, bibliography: Seq<char>) -> Seq<
    char,
> {
    TEMPLATE@ + body_of(s, default_author) + seq!['\n', '\n'] + bibliography_of(bibliography)
}

/// Converts the characters of `s` in one pass.
pub fn convert_chars(s: &Vec<char>, default_author: &Vec<char>) -> (r: Vec<char>)
    ensures
        r@ == body_of(s@, default_author@),
{
    let n = s.len();
    let mut out: Vec<char> = Vec::new();
    let mut i: usize = 0;
    while i < n
        invariant
            n == s@.len(),
            i <= n,
            out@ + convert_from(s@, i as int, default_author@) == body_of(s@, default_author@),
        decreases n - i,
    {
        let ghost before = out@;
        match try_construct(s, i, default_author, &mut out) {
            Some(e) => {
                assert(out@ + convert_from(s@, e as int, default_author@) =~= before
                    + convert_from(s@, i as int, default_author@));
                i = e;
            },
            None => {
                out.push(s[i]);
                assert(out@ + convert_from(s@, i + 1, default_author@) =~= before + convert_from(
                    s@,
                    i as int,
                    default_author@,
                ));
                i = i + 1;
            },
        }
    }
    assert(out@ + convert_from(s@, i as int, default_author@) =~= out@);
    out
}

/// Converts the body of an Org document into Typst; an author that the
/// document does not give is `default_author`.
pub fn convert_body(source: &str, default_author: &str) -> (r: String)
    ensures
        r@ == body_of(source@, default_author@),
{
    string_of(&convert_chars(&chars_of(source), &chars_of(default_author)))
}

/// Converts an Org document into a complete Typst document: the template,
/// the converted body, a blank line and a directive that names the file
/// `bibliography`.
pub fn convert(source: &str, default_author: &str, bibliography: &str) -> (r: String)
    ensures
        r@ == document_of(source@, default_author@, bibliography@),
{
    let mut out = chars_of(TEMPLATE);
    let body = convert_chars(&chars_of(source), &chars_of(default_author));
    push_all(&mut out, &body);
    out.push('\n');
    out.push('\n');
    push_all(&mut out, &chars_of(BIBLIOGRAPHY_OPEN));
    push_all(&mut out, &chars_of(bibliography));
    push_all(&mut out, &chars_of(BIBLIOGRAPHY_CLOSE));
    assert(out@ =~= document_of(source@, default_author@, bibliography@));
    string_of(&out)
}

} // verus!
