//! The standalone HTML document that rendered markdown is exported as.
use vstd::prelude::*;

verus! {

/// What precedes the `<title>` element.
pub const DOC_PREAMBLE: &'static str = r#"<!DOCTYPE html>
<html lang="en">
<head>
    <meta charset="UTF-8">
    <meta name="viewport" content="width=device-width, initial-scale=1.0">
    "#;

/// What follows the `</title>` tag and precedes the body: the embedded
/// stylesheet.
pub const DOC_STYLE: &'static str = r#"
    <style>
        :root {
            font-family: -apple-system, BlinkMacSystemFont, 'Segoe UI', Roboto, 'Helvetica Neue', Arial, sans-serif;
            font-size: 16px;
            line-height: 1.6;
            color: #333;
            background-color: #fff;
        }
        
        * {
            box-sizing: border-box;
            margin: 0;
            padding: 0;
        }
        
        body {
            max-width: 900px;
            margin: 0 auto;
            padding: 2rem;
        }
        
        h1, h2, h3, h4, h5, h6 {
            margin-top: 1.5rem;
            margin-bottom: 0.5rem;
            font-weight: 600;
            line-height: 1.25;
        }
        
        h1 {
            font-size: 2rem;
            border-bottom: 1px solid #e9ecef;
            padding-bottom: 0.5rem;
        }
        
        h2 {
            font-size: 1.5rem;
            border-bottom: 1px solid #f1f3f4;
            padding-bottom: 0.25rem;
        }
        
        h3 { font-size: 1.25rem; }
        h4 { font-size: 1rem; }
        
        p { margin-bottom: 1rem; }
        
        ul, ol {
            margin-bottom: 1rem;
            padding-left: 2rem;
        }
        
        li { margin-bottom: 0.25rem; }
        
        blockquote {
            border-left: 4px solid #e9ecef;
            padding-left: 1rem;
            margin: 1rem 0;
            color: #6c757d;
            font-style: italic;
        }
        
        code {
            background: #f8f9fa;
            padding: 0.125rem 0.25rem;
            border-radius: 0.25rem;
            font-family: 'Monaco', 'Consolas', 'Courier New', monospace;
            font-size: 0.875rem;
        }
        
        pre {
            background: #f8f9fa;
            padding: 1rem;
            border-radius: 0.5rem;
            overflow-x: auto;
            margin: 1rem 0;
        }
        
        pre code {
            background: none;
            padding: 0;
        }
        
        table {
            width: 100%;
            border-collapse: collapse;
            margin: 1rem 0;
            box-shadow: 0 1px 3px rgba(0, 0, 0, 0.1);
            border-radius: 0.5rem;
            overflow: hidden;
        }
        
        th, td {
            border: 1px solid #e9ecef;
            padding: 0.75rem;
            text-align: left;
            vertical-align: top;
        }
        
        th {
            background: #f8f9fa;
            font-weight: 600;
            text-transform: uppercase;
            font-size: 0.875rem;
            letter-spacing: 0.05em;
        }
        
        tr:nth-child(even) {
            background-color: #f8f9fa;
        }
        
        tr:hover {
            background-color: #e9ecef;
        }
        
        img {
            max-width: 100%;
            height: auto;
            border-radius: 0.5rem;
            margin: 1rem 0;
            box-shadow: 0 2px 8px rgba(0, 0, 0, 0.1);
        }
        
        a {
            color: #007bff;
            text-decoration: none;
        }
        
        a:hover {
            text-decoration: underline;
        }
        
        @media print {
            body {
                padding: 1rem;
                max-width: none;
            }
            
            img {
                page-break-inside: avoid;
            }
            
            table {
                page-break-inside: avoid;
            }
        }
    </style>
</head>
<body>
"#;

/// What follows the body.
pub const DOC_TAIL: &'static str = r#"
</body>
</html>"#;

/// The document: preamble, the title element, the stylesheet, the body as
/// given, and the closing tags.
pub open spec fn export_document(content: Seq<char>, title: Seq<char>) -> Seq<char> {
    DOC_PREAMBLE@ + "<title>"@ + title + "</title>"@ + DOC_STYLE@ + content + DOC_TAIL@
}

/// Wraps rendered HTML in a self-contained document with an embedded
/// stylesheet and the given title.
pub fn export_html(content: &str, title: &str) -> (r: String)
    ensures
        r@ == export_document(content@, title@),
{
    String::from_str(DOC_PREAMBLE).concat("<title>").concat(title).concat("</title>").concat(
        DOC_STYLE,
    ).concat(content).concat(DOC_TAIL)
}

/// An exported document holds the title, exactly as given, as the whole
/// content of its `<title>` element, and the body, unmodified, right before
/// its closing tags.
pub proof fn lemma_export_embeds(content: Seq<char>, title: Seq<char>)
    ensures
        ({
            let doc = export_document(content, title);
            let t = DOC_PREAMBLE@.len() as int + "<title>"@.len() as int;
            let b: int = doc.len() - DOC_TAIL@.len();
            &&& doc.subrange(t - "<title>"@.len(), t) == "<title>"@
            &&& doc.subrange(t, t + title.len()) == title
            &&& doc.subrange(t + title.len(), t + title.len() + "</title>"@.len()) == "</title>"@
            &&& doc.subrange(b - content.len(), b) == content
            &&& doc.subrange(b, doc.len() as int) == DOC_TAIL@
        }),
{
    let doc = export_document(content, title);
    let t = DOC_PREAMBLE@.len() as int + "<title>"@.len() as int;
    let b: int = doc.len() - DOC_TAIL@.len();
    assert(doc.subrange(t - "<title>"@.len(), t) =~= "<title>"@);
    assert(doc.subrange(t, t + title.len()) =~= title);
    assert(doc.subrange(t + title.len(), t + title.len() + "</title>"@.len()) =~= "</title>"@);
    assert(doc.subrange(b - content.len(), b) =~= content);
    assert(doc.subrange(b, doc.len() as int) =~= DOC_TAIL@);
}

} // verus!
