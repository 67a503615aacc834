//! Markdown to HTML: the advisory content scan, the CommonMark renderer,
//! and code highlighting.
use vstd::prelude::*;
use crate::blocks::code_blocks;
use crate::highlight::{
    engine_outputs, highlighted_document, post_process_syntax_highlighting, Highlighter,
};
use crate::text::{chars_of, lower_of, occurs, occurs_exec, to_lower};

verus! {

/// Tables (pulldown-cmark's `ENABLE_TABLES`).
pub const ENABLE_TABLES: u32 = 1 << 1;

/// Footnotes (`ENABLE_FOOTNOTES`).
pub const ENABLE_FOOTNOTES: u32 = 1 << 2;

/// Strikethrough (`ENABLE_STRIKETHROUGH`).
pub const ENABLE_STRIKETHROUGH: u32 = 1 << 3;

/// Task lists (`ENABLE_TASKLISTS`).
pub const ENABLE_TASKLISTS: u32 = 1 << 4;

/// The extensions that documents are rendered with.
pub const MARKDOWN_OPTIONS: u32 = ENABLE_STRIKETHROUGH | ENABLE_TABLES | ENABLE_FOOTNOTES
    | ENABLE_TASKLISTS;

/// What pulldown-cmark renders from a text with the given option bits.
pub uninterp spec fn commonmark_html(text: Seq<char>, options: u32) -> Seq<char>;

/// Relies on `pulldown_cmark::Parser::new_ext` and `html::push_html`:
/// CommonMark with the extensions that the option bits select, rendered to
/// HTML; the output depends on the text and the options alone.
#[verifier::external_body]
fn commonmark_to_html(text: &str, options: u32) -> (r: String)
    ensures
        r@ == commonmark_html(text@, options),
{
    let parser = pulldown_cmark::Parser::new_ext(
        text,
        pulldown_cmark::Options::from_bits_truncate(options),
    );
    let mut out = String::new();
    pulldown_cmark::html::push_html(&mut out, parser);
    out
}

pub open spec fn is_lower_letter(c: char) -> bool {
    'a' <= c && c <= 'z'
}

/// An event-handler attribute `on…=` spans `s[i..=j]`: `on`, one or more
/// lower-case letters, `=`.
pub open spec fn handler_at(s: Seq<char>, i: int, j: int) -> bool {
    &&& 0 <= i
    &&& i + 3 <= j < s.len()
    &&& s[i] == 'o'
    &&& s[i + 1] == 'n'
    &&& forall|m: int| i + 2 <= m < j ==> is_lower_letter(#[trigger] s[m])
    &&& s[j] == '='
}

pub open spec fn has_event_handler(s: Seq<char>) -> bool {
    exists|i: int, j: int| handler_at(s, i, j)
}

/// The patterns found in lower-cased content, in a fixed order.
pub open spec fn suspicious_in(lower: Seq<char>) -> Seq<Seq<char>> {
    (if occurs(lower, "<script"@) { seq!["<script"@] } else { Seq::empty() })
    + (if occurs(lower, "javascript:"@) { seq!["javascript:"@] } else { Seq::empty() })
    + (if occurs(lower, "data:text/html"@) { seq!["data:text/html"@] } else { Seq::empty() })
    + (if occurs(lower, "vbscript:"@) { seq!["vbscript:"@] } else { Seq::empty() })
    + (if has_event_handler(lower) { seq!["on[a-z]+="@] } else { Seq::empty() })
}

fn has_event_handler_exec(s: &Vec<char>) -> (r: bool)
    ensures
        r == has_event_handler(s@),
{
    let mut run_start: usize = 0;
    let mut on_found = false;
    let mut j: usize = 0;
    while j < s.len()
        invariant
            run_start <= j <= s@.len(),
            forall|m: int| run_start <= m < j ==> is_lower_letter(#[trigger] s@[m]),
            run_start > 0 ==> !is_lower_letter(s@[run_start - 1]),
            on_found <==> exists|i: int|
                run_start <= i && i + 2 < j && #[trigger] s@[i] == 'o' && s@[i + 1] == 'n',
            forall|i: int, k: int| k < j ==> !#[trigger] handler_at(s@, i, k),
        decreases s@.len() - j,
    {
        let c = s[j];
        if c == '=' && on_found {
            let ghost i = choose|i: int|
                run_start <= i && i + 2 < j && #[trigger] s@[i] == 'o' && s@[i + 1] == 'n';
            assert(handler_at(s@, i, j as int));
            return true;
        }
        proof {
            assert forall|i: int| !handler_at(s@, i, j as int) by {
                if handler_at(s@, i, j as int) {
                    if i < run_start {
                        let m = run_start - 1;
                        if m >= i + 2 {
                            assert(is_lower_letter(s@[m]));
                        }
                    } else {
                        assert(run_start <= i && i + 2 < j && s@[i] == 'o' && s@[i + 1] == 'n');
                    }
                }
            }
        }
        if 'a' <= c && c <= 'z' {
            if j - run_start >= 2 && s[j - 2] == 'o' && s[j - 1] == 'n' {
                on_found = true;
            }
        } else {
            run_start = j + 1;
            on_found = false;
        }
        j = j + 1;
    }
    false
}

/// Scans markdown for substrings associated with script injection, in
/// lower case: `<script`, `javascript:`, `data:text/html`, `vbscript:`,
/// and event-handler attributes. Returns the content unchanged, with the
/// patterns found; nothing is blocked or stripped.
pub fn sanitize_markdown_content(content: &str) -> (r: (String, Vec<String>))
    ensures
        r.0@ == content@,
        r.1@.map_values(|s: String| s@) == suspicious_in(lower_of(content@)),
{
    let lower = chars_of(to_lower(content).as_str());
    let mut found: Vec<String> = Vec::new();
    if occurs_exec(&lower, &chars_of("<script")) {
        found.push(String::from_str("<script"));
    }
    if occurs_exec(&lower, &chars_of("javascript:")) {
        found.push(String::from_str("javascript:"));
    }
    if occurs_exec(&lower, &chars_of("data:text/html")) {
        found.push(String::from_str("data:text/html"));
    }
    if occurs_exec(&lower, &chars_of("vbscript:")) {
        found.push(String::from_str("vbscript:"));
    }
    if has_event_handler_exec(&lower) {
        found.push(String::from_str("on[a-z]+="));
    }
    assert(found@.map_values(|s: String| s@) =~= suspicious_in(lower_of(content@)));
    (String::from_str(content), found)
}

/// Rendered markdown, with the suspicious patterns its source held.
pub struct Rendered {
    pub html: String,
    pub warnings: Vec<String>,
}

/// Renders markdown to HTML with strikethrough, tables, footnotes and task
/// lists, then highlights its code blocks: the content goes to the renderer
/// unchanged, and the rendered HTML through the highlighter.
pub fn parse_markdown(markdown_content: &str, highlighter: &Highlighter) -> (r: Rendered)
    ensures
        r.warnings@.map_values(|s: String| s@) == suspicious_in(lower_of(markdown_content@)),
        r.html@ == highlighted_document(
            commonmark_html(markdown_content@, MARKDOWN_OPTIONS),
            engine_outputs(code_blocks(commonmark_html(markdown_content@, MARKDOWN_OPTIONS))),
        ),
{
    let (content, warnings) = sanitize_markdown_content(markdown_content);
    let html = commonmark_to_html(content.as_str(), MARKDOWN_OPTIONS);
    let html = post_process_syntax_highlighting(html.as_str(), highlighter);
    Rendered { html, warnings }
}

/// A greeting for `name`.
pub fn greet(name: &str) -> (r: String)
    ensures
        r@ == "Hello, "@ + name@ + "! You've been greeted from Rust!"@,
{
    String::from_str("Hello, ").concat(name).concat("! You've been greeted from Rust!")
}

} // verus!
