use org2typst::config::Config;
use org2typst::convert::{convert, convert_body, TEMPLATE};

const AUTHOR: &str = "Ziqin Gong";

fn body(s: &str) -> String {
    convert_body(s, AUTHOR)
}

#[test]
fn plain_text_passes_through() {
    let s = "Just some text, with punctuation: a/b and [brackets].\nSecond line *here*.";
    assert_eq!(body(s), s);
    assert_eq!(body(""), "");
}

#[test]
fn heading_depth_becomes_equals_run() {
    assert_eq!(body("x\n* One"), "x\n= One");
    assert_eq!(body("x\n*** Three"), "x\n=== Three");
    assert_eq!(body("\n**"), "\n==");
}

#[test]
fn heading_without_newline_is_kept() {
    assert_eq!(body("* Top"), "* Top");
}

#[test]
fn drawer_is_removed() {
    assert_eq!(body("a:PROPERTIES: :ID: abc-123_x :END:b"), "ab");
    assert_eq!(
        body("\n* H\n:PROPERTIES:\n:ID:       5f3a-9c\n:END:\ntext"),
        "\n= H\n\ntext"
    );
}

#[test]
fn drawer_with_empty_id_is_removed() {
    assert_eq!(body("a:PROPERTIES: :ID:  :END:b"), "ab");
}

#[test]
fn malformed_drawer_is_kept() {
    assert_eq!(body(":PROPERTIES: :ID: x y :END:"), ":PROPERTIES: :ID: x y :END:");
}

#[test]
fn citation_is_stripped() {
    assert_eq!(body("[cite:@foo123]"), "foo123");
    assert_eq!(body("see [cite:@doe-2020_a]."), "see doe-2020_a.");
}

#[test]
fn empty_citation_is_kept() {
    assert_eq!(body("[cite:@]"), "[cite:@]");
}

#[test]
fn title_and_author_make_setup_call() {
    let out = body("#+title: MyDoc #+author: Jane Doe");
    assert_eq!(out, "#show: project.with(title: \"MyDoc\", authors: (\"Jane Doe\",))");
}

#[test]
fn title_on_its_own_uses_default_author() {
    assert_eq!(
        body("#+title: MyDoc"),
        "#show: project.with(title: \"MyDoc\", authors: (\"Ziqin Gong\",))"
    );
    assert_eq!(
        convert_body("#+title: MyDoc\nText", "Someone Else"),
        "#show: project.with(title: \"MyDoc\", authors: (\"Someone Else\",))\nText"
    );
}

#[test]
fn title_and_author_on_two_lines() {
    assert_eq!(
        body("#+title: Notes\n#+author: Ann Lee\nBody"),
        "#show: project.with(title: \"Notes\", authors: (\"Ann Lee\",))\nBody"
    );
}

#[test]
fn source_block_fences() {
    assert_eq!(
        body("#+begin_src rust\nfn f() {}\n#+end_src\n"),
        "```rust\nfn f() {}\n```\n"
    );
}

#[test]
fn other_directives_are_removed() {
    assert_eq!(body("#+options: toc:nil\nText"), "Text");
    assert_eq!(body("a\n#+date: today"), "a\ntoday");
    assert_eq!(body("#+\nx"), "#+\nx");
}

#[test]
fn emphasis_becomes_underscores() {
    assert_eq!(body("an /important point/ here"), "an _important point_ here");
    assert_eq!(body("a // b"), "a // b");
}

#[test]
fn link_keeps_only_label() {
    assert_eq!(body("go [[id:abc-123][Target-Node]] now"), "go #underline[Target-Node] now");
}

#[test]
fn link_target_reaches_last_label_of_line() {
    assert_eq!(body("[[id:a][B]] and [[id:c][D]]"), "#underline[D]");
}

#[test]
fn backtick_quote_becomes_straight_quotes() {
    assert_eq!(body("``quoted text''"), "\"quoted text\"");
    assert_eq!(body("``a\nb''"), "\"a\nb\"");
}

#[test]
fn end_to_end_scenario() {
    let input = "#+title: Notes #+author: A B\n* Intro\n/emphasis/ and ``quoted text''\n[[id:xyz][Target]]\n[cite:@ref1]\n";
    let out = convert(input, AUTHOR, "refs.bib");
    let expected_body = "#show: project.with(title: \"Notes\", authors: (\"A B\",))\n= Intro\n_emphasis_ and \"quoted text\"\n#underline[Target]\nref1\n";
    assert!(out.starts_with(TEMPLATE));
    assert_eq!(
        out,
        format!("{}{}\n\n#bibliography(\"refs.bib\")", TEMPLATE, expected_body)
    );
    assert!(out.ends_with("\n\n#bibliography(\"refs.bib\")"));
}

#[test]
fn template_names_project_entry_point() {
    assert!(TEMPLATE.starts_with("#let project(title: \"\", authors: (), date: none, body) = {\n"));
    assert!(TEMPLATE.ends_with("  body\n}\n"));
}

#[test]
fn bibliography_file_is_configurable() {
    let out = convert("", AUTHOR, "library.bib");
    assert_eq!(out, format!("{}\n\n#bibliography(\"library.bib\")", TEMPLATE));
}

#[test]
fn non_ascii_text_passes_through() {
    assert_eq!(body("Grüße — ünïcödé\n** Ωmega"), "Grüße — ünïcödé\n== Ωmega");
}

#[test]
fn config_description_with_output() {
    let c = Config::new(String::from("/tmp/a.org"), Some(String::from("out.typ")));
    assert_eq!(c.describe(), "Org file path: /tmp/a.org\nOutput path: out.typ");
}

#[test]
fn config_description_without_output() {
    let c = Config::new(String::from("/tmp/a.org"), None);
    assert_eq!(c.describe(), "Org file path: /tmp/a.org\nOutput path: stdout");
}
