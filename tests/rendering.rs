use markdown_viewer::blocks::{find_code_blocks, splice_code_blocks};
use markdown_viewer::export::export_html;
use markdown_viewer::highlight::{
    candidate_languages, highlight_with, post_process_syntax_highlighting, render_block, Highlighter,
};
use markdown_viewer::render::{greet, parse_markdown, sanitize_markdown_content};

#[test]
fn finds_blocks_in_order() {
    let html = "<p>a</p><pre><code class=\"language-rust\">fn main() {}\n</code></pre>\n<pre><code class=\"language-py\">x = 1</code></pre>";
    let blocks = find_code_blocks(html);
    assert_eq!(blocks.len(), 2);
    assert_eq!(blocks[0].language, "rust");
    assert_eq!(blocks[0].code, "fn main() {}\n");
    assert_eq!(blocks[1].language, "py");
    assert_eq!(blocks[1].code, "x = 1");
}

#[test]
fn block_code_is_shortest_match() {
    let html = "<pre><code class=\"language-a\">1</code></pre>mid</code></pre>";
    let blocks = find_code_blocks(html);
    assert_eq!(blocks.len(), 1);
    assert_eq!(blocks[0].code, "1");
}

#[test]
fn language_tag_bounds() {
    let long = "x".repeat(51);
    let html = format!("<pre><code class=\"language-{}\">c</code></pre>", long);
    assert_eq!(find_code_blocks(&html).len(), 0);
    let ok = "x".repeat(50);
    let html = format!("<pre><code class=\"language-{}\">c</code></pre>", ok);
    assert_eq!(find_code_blocks(&html).len(), 1);
    assert_eq!(find_code_blocks("<pre><code class=\"language-\">c</code></pre>").len(), 0);
    assert_eq!(find_code_blocks("<pre><code class=\"language-js\">no end").len(), 0);
    assert_eq!(find_code_blocks("<pre><code>plain</code></pre>").len(), 0);
}

#[test]
fn splice_replaces_blocks_and_keeps_the_rest() {
    let html = "A<pre><code class=\"language-a\">1</code></pre>B<pre><code class=\"language-b\">2</code></pre>C";
    let out = splice_code_blocks(html, &vec!["X".to_string()]);
    assert_eq!(out, "AXB<pre><code class=\"language-b\">2</code></pre>C");
    let out = splice_code_blocks(html, &vec!["X".to_string(), "Y".to_string()]);
    assert_eq!(out, "AXBYC");
    assert_eq!(splice_code_blocks("", &vec![]), "");
}

#[test]
fn candidates_use_aliases() {
    assert_eq!(candidate_languages("js"), vec!["js", "js", "javascript"]);
    assert_eq!(candidate_languages("PY"), vec!["PY", "py", "python"]);
    assert_eq!(candidate_languages("Rust"), vec!["Rust", "rust", "Rust"]);
    assert_eq!(candidate_languages("yml"), vec!["yml", "yml", "yaml"]);
    assert_eq!(candidate_languages("md"), vec!["md", "md", "markdown"]);
    assert_eq!(candidate_languages("sh"), vec!["sh", "sh", "bash"]);
    assert_eq!(candidate_languages("ts"), vec!["ts", "ts", "typescript"]);
    assert_eq!(candidate_languages("rb"), vec!["rb", "rb", "ruby"]);
}

#[test]
fn fallback_block_escapes_code() {
    assert_eq!(
        render_block("zzz", "a < b && c", None),
        "<pre><code class=\"language-zzz\">a &lt; b &amp;&amp; c</code></pre>"
    );
    assert_eq!(render_block("zzz", "x", Some("<b>x</b>".to_string())), "<b>x</b>");
}

#[test]
fn highlight_with_unescapes_then_escapes() {
    let html = "<pre><code class=\"language-zzz\">a &lt; b &quot;q&quot;</code></pre>";
    let out = highlight_with(html, &vec![None]);
    assert_eq!(out, "<pre><code class=\"language-zzz\">a &lt; b \"q\"</code></pre>");
    let out = highlight_with(html, &vec![Some("H".to_string())]);
    assert_eq!(out, "H");
    let out = highlight_with(html, &vec![]);
    assert_eq!(out, "<pre><code class=\"language-zzz\">a &lt; b \"q\"</code></pre>");
}

#[test]
fn js_resolves_through_alias() {
    let hl = Highlighter::new();
    let code = "const x = 1;\n";
    let marked = hl.highlight("js", code).expect("javascript is known");
    assert!(!marked.is_empty());
    let fallback = render_block("js", code, None);
    assert_ne!(marked, fallback);
    let html = format!("<pre><code class=\"language-js\">{}</code></pre>", code);
    let out = post_process_syntax_highlighting(&html, &hl);
    assert_eq!(out, marked);
    assert_ne!(out, fallback);
}

#[test]
fn unknown_language_falls_back() {
    let hl = Highlighter::new();
    assert_eq!(hl.highlight("no-such-language-here", "x < y"), None);
    let html = "<pre><code class=\"language-no-such-language-here\">x &lt; y</code></pre>";
    assert_eq!(post_process_syntax_highlighting(html, &hl), html);
}

#[test]
fn highlighting_twice_changes_nothing() {
    let hl = Highlighter::new();
    for md in ["```python\nprint(1)\n```\n", "```zzz\na < b & c\n```\n", "text `code` <b>x</b>\n"] {
        let once = parse_markdown(md, &hl).html;
        let twice = post_process_syntax_highlighting(&once, &hl);
        assert_eq!(once, twice, "{}", md);
        assert!(find_code_blocks(&once).is_empty() || md.contains("zzz"));
    }
}

#[test]
fn python_fence_is_highlighted() {
    let hl = Highlighter::new();
    let out = parse_markdown("```python\nprint(1)\n```", &hl);
    assert!(out.html.contains("<span"), "{}", out.html);
    assert!(out.html.contains("print"));
    assert!(!out.html.contains("<pre><code>print(1)</code></pre>"));
    assert!(!out.html.contains("language-python"));
}

#[test]
fn markdown_extensions_enabled() {
    let hl = Highlighter::new();
    let out = parse_markdown("| a | b |\n|---|---|\n| 1 | 2 |\n\n~~gone~~\n\n- [x] done\n", &hl);
    assert!(out.html.contains("<table>"));
    assert!(out.html.contains("<del>gone</del>"));
    assert!(out.html.contains("checkbox"));
    assert!(out.warnings.is_empty());
}

#[test]
fn sanitizer_reports_and_keeps_content() {
    let md = "Hi <SCRIPT>x</script> [a](JavaScript:alert(1)) <img OnError=y>";
    let (content, found) = sanitize_markdown_content(md);
    assert_eq!(content, md);
    assert_eq!(found, vec!["<script", "javascript:", "on[a-z]+="]);
    let (content, found) = sanitize_markdown_content("plain text, nothing = here");
    assert_eq!(content, "plain text, nothing = here");
    assert!(found.is_empty());
    let (_, found) = sanitize_markdown_content("data:text/html;base64 vbscript:x");
    assert_eq!(found, vec!["data:text/html", "vbscript:"]);
    let (_, found) = sanitize_markdown_content("on = x, on1=, on=, json=1, button=2");
    assert!(found.is_empty());
    let (_, found) = sanitize_markdown_content("<body onload=go()>");
    assert_eq!(found, vec!["on[a-z]+="]);
    let (_, found) = sanitize_markdown_content("<a onclick=\"f()\">");
    assert_eq!(found, vec!["on[a-z]+="]);
}

#[test]
fn parse_reports_suspicious_patterns() {
    let hl = Highlighter::new();
    let out = parse_markdown("<script>alert(1)</script>", &hl);
    assert_eq!(out.warnings, vec!["<script"]);
}

#[test]
fn export_embeds_body_and_title() {
    let body = "<h1>Hi</h1>\n<p>{x}</p>";
    let doc = export_html(body, "Title");
    assert!(doc.starts_with("<!DOCTYPE html>"));
    assert_eq!(doc.matches("<title>Title</title>").count(), 1);
    assert_eq!(doc.matches("<title>").count(), 1);
    assert!(doc.ends_with(&format!("<body>\n{}\n</body>\n</html>", body)));
    assert!(doc.contains(":root {"));
    assert!(!doc.contains("{{"));
}

#[test]
fn greeting() {
    assert_eq!(greet("Ada"), "Hello, Ada! You've been greeted from Rust!");
}

#[test]
fn empty_markdown_renders_empty() {
    let hl = Highlighter::new();
    let out = parse_markdown("", &hl);
    assert_eq!(out.html, "");
    assert!(out.warnings.is_empty());
    assert_eq!(post_process_syntax_highlighting("", &hl), "");
}

#[test]
fn written_back_block_survives_second_pass() {
    let hl = Highlighter::new();
    let html = "<pre><code class=\"language-nolang\">&lt;a href=&quot;x&quot;&gt; &amp;amp;\n</code></pre>\n";
    let once = post_process_syntax_highlighting(html, &hl);
    let blocks = find_code_blocks(&once);
    assert_eq!(blocks.len(), 1);
    assert_eq!(blocks[0].language, "nolang");
    assert_eq!(blocks[0].code, "&lt;a href=\"x\"&gt; &amp;amp;\n");
    assert_eq!(post_process_syntax_highlighting(&once, &hl), once);
}
