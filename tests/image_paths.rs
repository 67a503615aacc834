use markdown_viewer::images::{
    classify_image, image_sources, is_within, needs_lookup, replace_image, rewrite_images,
    validate_image_url, ImageClass, ImageLookup, BLOCKED_IMAGE_TAG,
};
use markdown_viewer::paths::Platform;

fn found(canonical: &str, base: &str) -> Option<ImageLookup> {
    Some(ImageLookup {
        canonical: Some(canonical.to_string()),
        canonical_base: Some(base.to_string()),
        exists: true,
    })
}

#[test]
fn sibling_image_becomes_file_url() {
    let html = "<p><img src=\"./pic.png\" alt=\"p\" /></p>";
    let lookups = vec![found("/docs/pic.png", "/docs")];
    assert_eq!(
        rewrite_images(html, &lookups, Platform::Posix),
        "<p><img src=\"file:///docs/pic.png\" alt=\"p\" /></p>"
    );
}

#[test]
fn traversing_image_blocked_even_if_present() {
    let html = "<img src=\"../../etc/passwd\" alt=\"x\">";
    let lookups = vec![found("/etc/passwd", "/home/u/docs")];
    let out = rewrite_images(html, &lookups, Platform::Posix);
    assert_eq!(out, format!("{} alt=\"x\">", BLOCKED_IMAGE_TAG));
    assert!(!out.contains("passwd"));
}

#[test]
fn untrusted_host_blocked() {
    let html = "<img src=\"http://evil.example/x.png\">";
    let out = rewrite_images(html, &vec![None], Platform::Posix);
    assert_eq!(out, format!("{}>", BLOCKED_IMAGE_TAG));
    assert!(!validate_image_url("http://evil.example/x.png"));
}

#[test]
fn trusted_hosts_and_embedded_images_kept() {
    for src in [
        "https://picsum.photos/200",
        "http://via.placeholder.com/300x200?text=a",
        "https://raw.githubusercontent.com/a/b/c.png",
        "https://images.unsplash.com:443/photo",
        "file:///tmp/a.png",
        "data:image/png;base64,AAAA",
    ] {
        let html = format!("<img src=\"{}\">", src);
        assert_eq!(rewrite_images(&html, &vec![], Platform::Posix), html, "{}", src);
        assert!(validate_image_url(src));
    }
}

#[test]
fn host_must_match_exactly() {
    for src in [
        "http://picsum.photos.evil.example/x.png",
        "http://evil.example/picsum.photos",
        "https://picsum.photos@evil.example/x.png",
        "https://evil.example/?u=httpbin.org",
    ] {
        assert_eq!(classify_image(src), ImageClass::UntrustedRemote, "{}", src);
    }
}

#[test]
fn classification() {
    assert_eq!(classify_image("img/a.png"), ImageClass::Local);
    assert_eq!(classify_image("/abs/a.png"), ImageClass::Local);
    assert_eq!(classify_image("data:text/html,x"), ImageClass::Local);
    assert_eq!(classify_image("https://httpbin.org/image"), ImageClass::TrustedRemote);
    assert_eq!(classify_image("file://x"), ImageClass::Embedded);
    assert!(needs_lookup("a.png"));
    assert!(!needs_lookup("https://httpbin.org/image"));
}

#[test]
fn missing_local_image_kept() {
    let html = "<img src=\"nothere.png\">";
    let lookups = vec![Some(ImageLookup {
        canonical: None,
        canonical_base: Some("/docs".to_string()),
        exists: false,
    })];
    assert_eq!(rewrite_images(html, &lookups, Platform::Posix), html);
    assert_eq!(rewrite_images(html, &vec![], Platform::Posix), html);
}

#[test]
fn image_kept_when_containment_cannot_be_shown() {
    let no_image = Some(ImageLookup { canonical: None, canonical_base: Some("/docs".to_string()), exists: true });
    assert_eq!(replace_image("a.png", &no_image, Platform::Posix), "<img src=\"a.png\"");
    let no_base = Some(ImageLookup { canonical: Some("/docs/a.png".to_string()), canonical_base: None, exists: true });
    assert_eq!(replace_image("a.png", &no_base, Platform::Posix), "<img src=\"a.png\"");
}

#[test]
fn user_part_does_not_hide_host() {
    assert_eq!(classify_image("http://u@picsum.photos/x"), ImageClass::TrustedRemote);
    assert_eq!(classify_image("http://picsum.photos:x@evil.example/y"), ImageClass::UntrustedRemote);
    assert_eq!(classify_image("https://a@b@httpbin.org:8080/img"), ImageClass::TrustedRemote);
}

#[test]
fn sources_listed_in_order() {
    let html = "<img src=\"a.png\"><img src=\"\"><img src=\"http://x/b.png\" alt=\"\"><img src=\"c";
    assert_eq!(image_sources(html), vec!["a.png", "http://x/b.png"]);
    let long = format!("<img src=\"{}\">", "a".repeat(2049));
    assert!(image_sources(&long).is_empty());
    let max = format!("<img src=\"{}\">", "a".repeat(2048));
    assert_eq!(image_sources(&max).len(), 1);
}

#[test]
fn containment_is_by_component() {
    assert!(is_within("/a/b", "/a/b", Platform::Posix));
    assert!(is_within("/a/b/c.png", "/a/b", Platform::Posix));
    assert!(is_within("/x.png", "/", Platform::Posix));
    assert!(!is_within("/a/bc/x.png", "/a/b", Platform::Posix));
    assert!(!is_within("/a", "/a/b", Platform::Posix));
    assert!(is_within("C:\\d\\x.png", "C:\\d", Platform::Windows));
    assert!(!is_within("C:\\d\\x.png", "C:\\d", Platform::Posix));
}
