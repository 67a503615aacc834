use markdown_viewer::limits::{check_file_size, check_html_size, SizeExceeded, MAX_FILE_SIZE, MAX_HTML_SIZE};
use markdown_viewer::paths::{
    check_resolved, check_traversal, extension_of, finish_validation, PathError, PathRejection, Platform,
    Resolution,
};

fn rejection(r: Result<(), PathError>) -> (PathRejection, String) {
    let e = r.expect_err("expected a rejection");
    (e.reason, e.detail)
}

#[test]
fn traversal_rejected_before_resolution() {
    let e = check_traversal("../secret.md").expect_err("must reject");
    assert_eq!(e.reason, PathRejection::Traversal);
    assert_eq!(e.message(), "Path traversal detected: '..' not allowed in file paths");
}

#[test]
fn traversal_anywhere_in_path() {
    assert!(check_traversal("/home/user/docs/../../etc/x.md").is_err());
    assert!(check_traversal("notes..md").is_err());
    assert!(check_traversal("/home/user/notes.md").is_ok());
    assert!(check_traversal("").is_ok());
    assert!(check_traversal("./a.md").is_ok());
}

#[test]
fn markdown_extensions_accepted_in_any_case() {
    for p in ["/home/u/a.md", "/home/u/a.MD", "/home/u/a.markdown", "/home/u/a.Mdown", "/home/u/a.mkd"] {
        assert!(check_resolved(p, Platform::Posix, true, true).is_ok(), "{}", p);
    }
}

#[test]
fn bad_extension_rejected_regardless_of_existence() {
    for (exists, is_file) in [(true, true), (false, false), (true, false), (false, true)] {
        let (reason, detail) = rejection(check_resolved("/home/u/notes.txt", Platform::Posix, exists, is_file));
        assert_eq!(reason, PathRejection::BadExtension);
        assert_eq!(detail, "txt");
    }
    let e = check_resolved("/home/u/notes.txt", Platform::Posix, false, false).unwrap_err();
    assert_eq!(e.message(), "Invalid file extension: txt. Only markdown files are allowed.");
}

#[test]
fn missing_extension_rejected() {
    for p in ["/home/u/README", "/home/u/.md", "/home/u.d/README"] {
        let (reason, _) = rejection(check_resolved(p, Platform::Posix, true, true));
        assert_eq!(reason, PathRejection::NoExtension, "{}", p);
    }
    let e = check_resolved("/home/u/README", Platform::Posix, true, true).unwrap_err();
    assert_eq!(
        e.message(),
        "File must have a valid markdown extension (.md, .markdown, .mdown, .mkd)"
    );
}

#[test]
fn extension_follows_last_dot_of_file_name() {
    assert_eq!(extension_of("/a/b.tar.md", Platform::Posix), Some("md".to_string()));
    assert_eq!(extension_of("/a/.hidden", Platform::Posix), None);
    assert_eq!(extension_of("/a/.hidden.md", Platform::Posix), Some("md".to_string()));
    assert_eq!(extension_of("/a/name.", Platform::Posix), Some("".to_string()));
    assert_eq!(extension_of("C:\\docs\\x.md", Platform::Windows), Some("md".to_string()));
    assert_eq!(extension_of("C:\\docs.md\\x", Platform::Windows), None);
}

#[test]
fn system_directories_denied() {
    let (reason, detail) = rejection(check_resolved("/etc/notes.md", Platform::Posix, true, true));
    assert_eq!(reason, PathRejection::Forbidden);
    assert_eq!(detail, "/etc");
    let (reason, detail) = rejection(check_resolved("/var/log/app.md", Platform::Posix, true, true));
    assert_eq!(reason, PathRejection::Forbidden);
    assert_eq!(detail, "/var/log");
    let (reason, detail) =
        rejection(check_resolved("C:\\Windows\\notes.md", Platform::Windows, true, true));
    assert_eq!(reason, PathRejection::Forbidden);
    assert_eq!(detail, "c:\\windows");
    let e = check_resolved("/proc/1/x.md", Platform::Posix, true, true).unwrap_err();
    assert_eq!(e.message(), "Access denied: Cannot read files from system directory /proc");
    assert!(check_resolved("/home/etc/x.md", Platform::Posix, true, true).is_ok());
}

#[test]
fn missing_and_non_files_rejected() {
    let e = check_resolved("/home/u/a.md", Platform::Posix, false, false).unwrap_err();
    assert_eq!(e.reason, PathRejection::Missing);
    assert_eq!(e.message(), "File does not exist: /home/u/a.md");
    let e = check_resolved("/home/u/dir.md", Platform::Posix, true, false).unwrap_err();
    assert_eq!(e.reason, PathRejection::NotAFile);
    assert_eq!(e.message(), "Path is not a file: /home/u/dir.md");
}

#[test]
fn outside_failures_have_messages() {
    let e = PathError { reason: PathRejection::Unresolvable, detail: "No such file".to_string() };
    assert_eq!(e.message(), "Invalid file path: No such file");
    let e = PathError { reason: PathRejection::NoWorkingDir, detail: "gone".to_string() };
    assert_eq!(e.message(), "Failed to get current directory: gone");
}

fn float_message(actual: u64, allowed: u64) -> String {
    format!(
        "File too large: {:.1} MB (maximum allowed: {:.1} MB)",
        actual as f64 / 1024.0 / 1024.0,
        allowed as f64 / 1024.0 / 1024.0
    )
}

#[test]
fn oversized_file_rejected_with_both_sizes() {
    let e = check_file_size(60 * 1024 * 1024, MAX_FILE_SIZE).unwrap_err();
    assert_eq!(e, SizeExceeded { actual: 60 * 1024 * 1024, allowed: MAX_FILE_SIZE });
    assert_eq!(e.message(), "File too large: 60.0 MB (maximum allowed: 50.0 MB)");
    assert!(check_file_size(MAX_FILE_SIZE, MAX_FILE_SIZE).is_ok());
    assert!(check_file_size(MAX_FILE_SIZE + 1, MAX_FILE_SIZE).is_err());
    assert!(check_file_size(0, MAX_FILE_SIZE).is_ok());
}

#[test]
fn size_message_matches_float_formatting() {
    for n in [0u64, 1, 262144, 786432, 52428801, 53000000, 104857, 104858, 1048575, 157286, 943718, 5 * 1024 * 1024 * 1024] {
        let e = SizeExceeded { actual: n, allowed: MAX_FILE_SIZE };
        assert_eq!(e.message(), float_message(n, MAX_FILE_SIZE), "{}", n);
    }
}

#[test]
fn html_size_cap() {
    assert!(check_html_size("<p>x</p>").is_ok());
    let big = "a".repeat(MAX_HTML_SIZE + 1);
    assert_eq!(check_html_size(&big), Err("Content too large".to_string()));
    let exact = "a".repeat(MAX_HTML_SIZE);
    assert!(check_html_size(&exact).is_ok());
}

#[test]
fn resolution_failures_become_rejections() {
    let e = finish_validation(Resolution::NoWorkingDir("gone".to_string()), Platform::Posix).unwrap_err();
    assert_eq!(e.reason, PathRejection::NoWorkingDir);
    assert_eq!(e.message(), "Failed to get current directory: gone");
    let e = finish_validation(Resolution::Unresolvable("No such file or directory (os error 2)".to_string()), Platform::Posix)
        .unwrap_err();
    assert_eq!(e.message(), "Invalid file path: No such file or directory (os error 2)");
}

#[test]
fn resolved_path_returned_when_checks_pass() {
    let ok = Resolution::Resolved { canonical: "/home/u/a.md".to_string(), exists: true, is_file: true };
    assert_eq!(finish_validation(ok, Platform::Posix).unwrap(), "/home/u/a.md");
    let bad = Resolution::Resolved { canonical: "/home/u/a.txt".to_string(), exists: true, is_file: true };
    assert_eq!(finish_validation(bad, Platform::Posix).unwrap_err().reason, PathRejection::BadExtension);
}
