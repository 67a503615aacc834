//! Syntax highlighting of the code blocks of rendered HTML.
//!
//! Each block's code is unescaped and offered to the highlighting engine
//! under its language tag, the tag in lower case, and the tag's alias; the
//! first candidate the engine knows and highlights gives the block's
//! markup. A block that no candidate highlights is written back in the
//! shape it was found in, with its code escaped again.
use vstd::prelude::*;
use syntect::highlighting::{Theme, ThemeSet};
use syntect::parsing::SyntaxSet;
use crate::blocks::{
    blocks_from, code_block_at, code_blocks, code_close, code_head_end, code_open, find_code_blocks,
    splice_blocks, splice_code_blocks, splice_from, CodeBlock,
};
use crate::text::{
    chars_of, lemma_first_from_at, lemma_run_end_at, lower_of, occurs, occurs_at, same_text,
    to_lower,
};

verus! {

/// syntect's set of syntax definitions, carried opaque.
#[verifier::external_type_specification]
#[verifier::external_body]
pub struct ExSyntaxSet(SyntaxSet);

/// A syntect theme, carried opaque.
#[verifier::external_type_specification]
#[verifier::external_body]
pub struct ExTheme(Theme);

/// Relies on `SyntaxSet::load_defaults_newlines`: the bundled syntax
/// definitions, compiled for text that keeps its newlines.
pub assume_specification[ SyntaxSet::load_defaults_newlines ]() -> SyntaxSet;

/// Whether syntect bundles a theme of that name.
pub uninterp spec fn bundled_theme(name: Seq<char>) -> bool;

/// Relies on `ThemeSet::load_defaults` and its `themes` map: a copy of the
/// bundled theme of that name, if there is one.
#[verifier::external_body]
fn bundled_theme_named(name: &str) -> (r: Option<Theme>)
    ensures
        r is Some <==> bundled_theme(name@),
{
    ThemeSet::load_defaults().themes.get(name).cloned()
}

/// Relies on `Theme::default`: a theme with no styles of its own.
#[verifier::external_body]
fn plain_theme() -> Theme {
    Theme::default()
}

/// The markup syntect gives for `code` under `token`, with the bundled
/// syntaxes and the theme that [`Highlighter::new`] picks: `None` when no
/// syntax answers to the token or highlighting fails.
pub uninterp spec fn syntect_markup(token: Seq<char>, code: Seq<char>) -> Option<Seq<char>>;

/// Text escaped for an HTML text node: `&`, `<` and `>` become entities.
pub open spec fn escape_char(c: char) -> Seq<char> {
    if c == '&' {
        "&amp;"@
    } else if c == '<' {
        "&lt;"@
    } else if c == '>' {
        "&gt;"@
    } else {
        seq![c]
    }
}

pub open spec fn escape_text(s: Seq<char>) -> Seq<char>
    decreases s.len(),
{
    if s.len() == 0 {
        Seq::empty()
    } else {
        escape_text(s.drop_last()) + escape_char(s.last())
    }
}

/// Relies on `html_escape::encode_text`: each `&`, `<` and `>` is replaced
/// by `&amp;`, `&lt;` and `&gt;`, every other character is kept.
#[verifier::external_body]
fn escape_html_text(s: &str) -> (r: String)
    ensures
        r@ == escape_text(s@),
{
    html_escape::encode_text(s).into_owned()
}

/// What `html_escape::decode_html_entities` gives for a text.
pub uninterp spec fn decoded_entities(s: Seq<char>) -> Seq<char>;

/// Relies on `html_escape::decode_html_entities`: named and numeric
/// character references are decoded; a text without `&` holds none and
/// comes back as it is.
#[verifier::external_body]
fn decode_entities(s: &str) -> (r: String)
    ensures
        r@ == decoded_entities(s@),
        !s@.contains('&') ==> r@ == s@,
{
    html_escape::decode_html_entities(s).into_owned()
}

pub open spec fn ascii_lower_char(c: char) -> char {
    if 'A' <= c && c <= 'Z' {
        ((c as u8) + 32) as char
    } else {
        c
    }
}

/// `s` with its ASCII capitals in lower case.
pub open spec fn ascii_lower(s: Seq<char>) -> Seq<char> {
    Seq::new(s.len(), |i: int| ascii_lower_char(s[i]))
}

/// The alias of a lower-cased language tag, if it has one.
pub open spec fn language_alias(lower: Seq<char>) -> Option<Seq<char>> {
    if lower == "js"@ {
        Some("javascript"@)
    } else if lower == "ts"@ {
        Some("typescript"@)
    } else if lower == "py"@ {
        Some("python"@)
    } else if lower == "rb"@ {
        Some("ruby"@)
    } else if lower == "sh"@ {
        Some("bash"@)
    } else if lower == "yml"@ {
        Some("yaml"@)
    } else if lower == "md"@ {
        Some("markdown"@)
    } else {
        None
    }
}

/// The tokens tried for a language tag, in order: the tag, the tag in
/// lower case, and the tag's alias (or the tag again when it has none).
/// The alias is looked up on the tag with its ASCII capitals lowered: no
/// other character lowers to a letter of an alias key, so this is the
/// alias of the lower-cased tag.
pub open spec fn language_candidates(language: Seq<char>) -> Seq<Seq<char>> {
    seq![
        language,
        lower_of(language),
        match language_alias(ascii_lower(language)) {
            Some(a) => a,
            None => language,
        },
    ]
}

/// The markup of the first token of `tokens` that syntect highlights.
pub open spec fn first_markup(tokens: Seq<Seq<char>>, code: Seq<char>) -> Option<Seq<char>>
    decreases tokens.len(),
{
    if tokens.len() == 0 {
        None
    } else {
        match syntect_markup(tokens[0], code) {
            Some(h) => Some(h),
            None => first_markup(tokens.drop_first(), code),
        }
    }
}

/// What the engine gives for each block: markup from the first candidate
/// of its language that highlights its unescaped code.
pub open spec fn engine_outputs(blocks: Seq<(Seq<char>, Seq<char>)>) -> Seq<Option<Seq<char>>> {
    Seq::new(
        blocks.len(),
        |k: int| first_markup(language_candidates(blocks[k].0), decoded_entities(blocks[k].1)),
    )
}

/// The block written back unhighlighted, its code escaped.
pub open spec fn fallback_block(language: Seq<char>, code: Seq<char>) -> Seq<char> {
    code_open() + language + "\">"@ + escape_text(code) + code_close()
}

/// What stands in place of a block: the highlighted markup when there is
/// some, else the block written back.
pub open spec fn block_output(language: Seq<char>, code: Seq<char>, highlighted: Option<
    Seq<char>,
>) -> Seq<char> {
    match highlighted {
        Some(h) => h,
        None => fallback_block(language, code),
    }
}

pub open spec fn option_view(o: Option<String>) -> Option<Seq<char>> {
    match o {
        Some(s) => Some(s@),
        None => None,
    }
}

/// The replacements of a document's blocks, given the engine's output for
/// each (missing entries count as no output).
pub open spec fn block_replacements(
    blocks: Seq<(Seq<char>, Seq<char>)>,
    outputs: Seq<Option<Seq<char>>>,
) -> Seq<Seq<char>> {
    Seq::new(
        blocks.len(),
        |k: int|
            block_output(
                blocks[k].0,
                decoded_entities(blocks[k].1),
                if k < outputs.len() {
                    outputs[k]
                } else {
                    None
                },
            ),
    )
}

/// The document with its blocks highlighted as `outputs` says.
pub open spec fn highlighted_document(html: Seq<char>, outputs: Seq<Option<Seq<char>>>) -> Seq<
    char,
> {
    splice_blocks(html, block_replacements(code_blocks(html), outputs))
}

fn ascii_lower_exec(s: &str) -> (r: String)
    ensures
        r@ == ascii_lower(s@),
{
    let v = chars_of(s);
    let mut out = String::new();
    let mut i: usize = 0;
    while i < v.len()
        invariant
            i <= v@.len(),
            v@ == s@,
            out@ == ascii_lower(s@).subrange(0, i as int),
        decreases v@.len() - i,
    {
        let c = v[i];
        let l = if 'A' <= c && c <= 'Z' {
            ((c as u8) + 32) as char
        } else {
            c
        };
        out.push(l);
        i = i + 1;
        assert(out@ =~= ascii_lower(s@).subrange(0, i as int));
    }
    assert(out@ =~= ascii_lower(s@));
    out
}

fn alias_exec(lower: &str) -> (r: Option<String>)
    ensures
        option_view(r) == language_alias(lower@),
{
    if same_text(lower, "js") {
        Some(String::from_str("javascript"))
    } else if same_text(lower, "ts") {
        Some(String::from_str("typescript"))
    } else if same_text(lower, "py") {
        Some(String::from_str("python"))
    } else if same_text(lower, "rb") {
        Some(String::from_str("ruby"))
    } else if same_text(lower, "sh") {
        Some(String::from_str("bash"))
    } else if same_text(lower, "yml") {
        Some(String::from_str("yaml"))
    } else if same_text(lower, "md") {
        Some(String::from_str("markdown"))
    } else {
        None
    }
}

/// The tokens to try for a language tag, in order.
pub fn candidate_languages(language: &str) -> (r: Vec<String>)
    ensures
        r@.map_values(|s: String| s@) == language_candidates(language@),
{
    let lower = to_lower(language);
    let key = ascii_lower_exec(language);
    let third = match alias_exec(key.as_str()) {
        Some(a) => a,
        None => String::from_str(language),
    };
    let r = vec![String::from_str(language), lower, third];
    assert(r@.map_values(|s: String| s@) =~= language_candidates(language@));
    r
}

/// The markup for one block: `highlighted` when given, else the block in
/// the shape it was found in, with `code` escaped.
pub fn render_block(language: &str, code: &str, highlighted: Option<String>) -> (r: String)
    ensures
        r@ == block_output(language@, code@, option_view(highlighted)),
{
    match highlighted {
        Some(h) => h,
        None => {
            let escaped = escape_html_text(code);
            String::from_str("<pre><code class=\"language-").concat(language).concat("\">").concat(
                escaped.as_str(),
            ).concat("</code></pre>")
        },
    }
}

/// Highlights the blocks of `html` as `outputs` says: the `k`-th block
/// becomes `outputs[k]` where that holds markup, and is written back with
/// its unescaped code escaped again otherwise.
pub fn highlight_with(html: &str, outputs: &Vec<Option<String>>) -> (r: String)
    ensures
        r@ == highlighted_document(html@, outputs@.map_values(|o: Option<String>| option_view(o))),
{
    let ghost outs = outputs@.map_values(|o: Option<String>| option_view(o));
    let ghost blocks = code_blocks(html@);
    let found = find_code_blocks(html);
    let mut reps: Vec<String> = Vec::new();
    let mut k: usize = 0;
    while k < found.len()
        invariant
            k <= found@.len(),
            blocks == code_blocks(html@),
            outs == outputs@.map_values(|o: Option<String>| option_view(o)),
            found@.len() == blocks.len(),
            forall|j: int|
                0 <= j < found@.len() ==> (#[trigger] found@[j]).language@ == blocks[j].0
                    && found@[j].code@ == blocks[j].1,
            reps@.len() == k,
            forall|j: int|
                0 <= j < k ==> (#[trigger] reps@[j])@ == block_replacements(blocks, outs)[j],
        decreases found@.len() - k,
    {
        let block: &CodeBlock = &found[k];
        let decoded = decode_entities(block.code.as_str());
        let given = if k < outputs.len() {
            match &outputs[k] {
                Some(h) => Some(h.clone()),
                None => None,
            }
        } else {
            None
        };
        let rep = render_block(block.language.as_str(), decoded.as_str(), given);
        reps.push(rep);
        k = k + 1;
    }
    assert(reps@.map_values(|s: String| s@) =~= block_replacements(blocks, outs));
    splice_code_blocks(html, &reps)
}

/// The theme that code is highlighted with: the first bundled theme of a
/// list of light themes, then a dark one; none (a plain theme) when none
/// of them is bundled.
pub open spec fn chosen_theme() -> Option<Seq<char>> {
    if bundled_theme("InspiredGitHub"@) {
        Some("InspiredGitHub"@)
    } else if bundled_theme("Solarized (light)"@) {
        Some("Solarized (light)"@)
    } else if bundled_theme("base16-ocean.light"@) {
        Some("base16-ocean.light"@)
    } else if bundled_theme("base16-ocean.dark"@) {
        Some("base16-ocean.dark"@)
    } else {
        None
    }
}

/// The syntax definitions and the theme that code is highlighted with.
pub struct Highlighter {
    syntaxes: SyntaxSet,
    theme: Theme,
    theme_name: Ghost<Option<Seq<char>>>,
}

impl Highlighter {
    /// The name of the theme in use; none for the plain theme.
    pub closed spec fn theme_choice(&self) -> Option<Seq<char>> {
        self.theme_name@
    }

    /// Loads the bundled syntaxes and picks the theme.
    pub fn new() -> (r: Highlighter)
        ensures
            r.theme_choice() == chosen_theme(),
    {
        let (theme, name) = match bundled_theme_named("InspiredGitHub") {
            Some(t) => (t, Ghost(Some("InspiredGitHub"@))),
            None => match bundled_theme_named("Solarized (light)") {
                Some(t) => (t, Ghost(Some("Solarized (light)"@))),
                None => match bundled_theme_named("base16-ocean.light") {
                    Some(t) => (t, Ghost(Some("base16-ocean.light"@))),
                    None => match bundled_theme_named("base16-ocean.dark") {
                        Some(t) => (t, Ghost(Some("base16-ocean.dark"@))),
                        None => (plain_theme(), Ghost(None)),
                    },
                },
            },
        };
        Highlighter { syntaxes: SyntaxSet::load_defaults_newlines(), theme, theme_name: name }
    }

    /// Relies on `SyntaxSet::find_syntax_by_token` (by extension, then by
    /// name) and `syntect::html::highlighted_html_for_string`: the markup
    /// for `code` under the syntax `token` names, or none. The syntaxes and
    /// the theme are those `new` always picks, so the result depends on
    /// the token and the code alone. The markup is made of `<pre style=…>`,
    /// `<span style=…>`, escaped text, `</span>` and `</pre>`: it holds no
    /// code-block opening.
    #[verifier::external_body]
    fn engine_markup(&self, token: &str, code: &str) -> (r: Option<String>)
        ensures
            option_view(r) == syntect_markup(token@, code@),
            r matches Some(h) ==> !occurs(h@, code_open()),
    {
        let syntax = self.syntaxes.find_syntax_by_token(token)?;
        syntect::html::highlighted_html_for_string(code, &self.syntaxes, syntax, &self.theme).ok()
    }

    /// Highlighted markup for `code` (already unescaped), from the first
    /// candidate token of `language` that names a known syntax and whose
    /// highlighting succeeds; `None` when there is none.
    pub fn highlight(&self, language: &str, code: &str) -> (r: Option<String>)
        ensures
            option_view(r) == first_markup(language_candidates(language@), code@),
    {
        let candidates = candidate_languages(language);
        let ghost tokens = language_candidates(language@);
        assert(tokens.subrange(0, tokens.len() as int) =~= tokens);
        let mut i: usize = 0;
        while i < candidates.len()
            invariant
                i <= candidates@.len(),
                candidates@.map_values(|s: String| s@) == tokens,
                tokens == language_candidates(language@),
                first_markup(tokens, code@) == first_markup(
                    tokens.subrange(i as int, tokens.len() as int),
                    code@,
                ),
            decreases candidates@.len() - i,
        {
            let ghost rest = tokens.subrange(i as int, tokens.len() as int);
            assert(rest[0] == candidates@[i as int]@);
            assert(rest.drop_first() =~= tokens.subrange(i + 1, tokens.len() as int));
            match self.engine_markup(candidates[i].as_str(), code) {
                Some(h) => {
                    return Some(h);
                },
                None => {},
            }
            i = i + 1;
        }
        assert(tokens.subrange(i as int, tokens.len() as int).len() == 0);
        None
    }
}

/// Highlights every code block of `html`: each block is replaced by the
/// markup of the first candidate of its language that the engine
/// highlights, and where there is none, written back with its code escaped.
pub fn post_process_syntax_highlighting(html: &str, highlighter: &Highlighter) -> (r: String)
    ensures
        r@ == highlighted_document(html@, engine_outputs(code_blocks(html@))),
{
    let ghost blocks = code_blocks(html@);
    let found = find_code_blocks(html);
    let mut outputs: Vec<Option<String>> = Vec::new();
    let mut k: usize = 0;
    while k < found.len()
        invariant
            k <= found@.len(),
            blocks == code_blocks(html@),
            found@.len() == blocks.len(),
            forall|j: int|
                0 <= j < found@.len() ==> (#[trigger] found@[j]).language@ == blocks[j].0
                    && found@[j].code@ == blocks[j].1,
            outputs@.len() == k,
            forall|j: int|
                0 <= j < k ==> option_view(#[trigger] outputs@[j]) == engine_outputs(blocks)[j],
        decreases found@.len() - k,
    {
        let decoded = decode_entities(found[k].code.as_str());
        outputs.push(highlighter.highlight(found[k].language.as_str(), decoded.as_str()));
        k = k + 1;
    }
    assert(outputs@.map_values(|o: Option<String>| option_view(o)) =~= engine_outputs(blocks));
    highlight_with(html, &outputs)
}

/// Highlighting is idempotent on a document in which no code block is
/// left: a further pass returns it unchanged, whatever the engine gives.
pub proof fn lemma_highlight_fixed_point(html: Seq<char>, outputs: Seq<Option<Seq<char>>>)
    requires
        code_blocks(html).len() == 0,
    ensures
        highlighted_document(html, outputs) == html,
{
    crate::blocks::lemma_no_blocks_unchanged(html, block_replacements(code_blocks(html), outputs));
}

/// A `js` block is tried under `javascript` third, after `js` and its
/// lower-case form.
pub proof fn lemma_js_alias()
    ensures
        language_candidates("js"@) == seq!["js"@, lower_of("js"@), "javascript"@],
{
    reveal_strlit("js");
    assert(ascii_lower("js"@) =~= "js"@);
    assert(language_candidates("js"@) =~= seq!["js"@, lower_of("js"@), "javascript"@]);
}

/// Markup holding no code-block opening, which is what the engine writes,
/// passes a further highlighting pass unchanged.
pub proof fn lemma_markup_unchanged(markup: Seq<char>, outputs: Seq<Option<Seq<char>>>)
    requires
        !occurs(markup, code_open()),
    ensures
        highlighted_document(markup, outputs) == markup,
{
    crate::blocks::lemma_no_opening_no_blocks(markup, 0);
    lemma_highlight_fixed_point(markup, outputs);
}

proof fn lemma_escape_has_no_lt(d: Seq<char>)
    ensures
        forall|i: int| 0 <= i < escape_text(d).len() ==> escape_text(d)[i] != '<',
    decreases d.len(),
{
    reveal_strlit("&amp;");
    reveal_strlit("&lt;");
    reveal_strlit("&gt;");
    if d.len() > 0 {
        lemma_escape_has_no_lt(d.drop_last());
        let a = escape_text(d.drop_last());
        let b = escape_char(d.last());
        assert forall|i: int| 0 <= i < (a + b).len() implies (a + b)[i] != '<' by {
            if i >= a.len() {
                assert((a + b)[i] == b[i - a.len()]);
            }
        }
    }
}

/// A block written back unhighlighted is found again by a further pass,
/// whole and alone, with the same language and the code as it was escaped:
/// what that pass decodes is exactly what the first one escaped, and no
/// escaping is added on top of it.
pub proof fn lemma_fallback_found_again(
    language: Seq<char>,
    code: Seq<char>,
    outputs: Seq<Option<Seq<char>>>,
)
    requires
        1 <= language.len() <= crate::blocks::MAX_LANGUAGE_LEN,
        forall|i: int| 0 <= i < language.len() ==> language[i] != '"',
    ensures
        code_blocks(fallback_block(language, code)) == seq![(language, escape_text(code))],
        highlighted_document(fallback_block(language, code), outputs) == block_output(
            language,
            decoded_entities(escape_text(code)),
            if 0 < outputs.len() {
                outputs[0]
            } else {
                None
            },
        ),
{
    reveal_strlit("<pre><code class=\"language-");
    reveal_strlit("\">");
    reveal_strlit("</code></pre>");
    let open = code_open();
    let close = code_close();
    let e = escape_text(code);
    let fb = fallback_block(language, code);
    let ls = open.len() as int;
    let le = ls + language.len();
    let cs = le + 2;
    let ce = cs + e.len();
    assert(fb =~= open + language + "\">"@ + e + close);
    assert(fb.len() == ce + close.len());
    assert(fb.subrange(0, ls) =~= open);
    assert forall|j: int| ls <= j < le implies fb[j] != '"' by {
        assert(fb[j] == language[j - ls]);
    }
    lemma_run_end_at(fb, '"', ls, le);
    assert(fb.subrange(le, le + 2) =~= code_head_end());
    assert(fb.subrange(ce, ce + close.len()) =~= close);
    lemma_escape_has_no_lt(code);
    assert forall|j: int| cs <= j < ce implies !occurs_at(fb, close, j) by {
        assert(fb[j] == e[j - cs]);
        if occurs_at(fb, close, j) {
            assert(fb.subrange(j, j + close.len())[0] == close[0]);
        }
    }
    lemma_first_from_at(fb, close, cs, ce);
    assert(code_block_at(fb, 0) == Some((le, ce)));
    assert(fb.subrange(ls, le) =~= language);
    assert(fb.subrange(cs, ce) =~= e);
    assert(blocks_from(fb, fb.len() as int) =~= Seq::<(Seq<char>, Seq<char>)>::empty());
    assert(code_blocks(fb) =~= seq![(language, e)]);
    let reps = block_replacements(code_blocks(fb), outputs);
    assert(splice_from(fb, fb.len() as int, reps, 1) =~= Seq::<char>::empty());
    assert(splice_from(fb, 0, reps, 0) =~= reps[0]);
}

} // verus!
