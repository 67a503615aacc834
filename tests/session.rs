use markdown_viewer::paths::Platform;
use markdown_viewer::scratch::{opener_command, plan_scratch_file, scratch_file_name, DesktopOs};
use markdown_viewer::limits::MAX_HTML_SIZE;
use markdown_viewer::watch::{watch_dir, WatchSession};

#[test]
fn restarting_watch_silences_previous_file() {
    let mut s = WatchSession::new();
    assert_eq!(s.start("/d/a.md"), None);
    assert!(s.should_notify(true, Some("/d/a.md")));
    assert_eq!(s.start("/d/b.md"), Some("/d/a.md".to_string()));
    assert!(!s.should_notify(true, Some("/d/a.md")));
    assert!(s.should_notify(true, Some("/d/b.md")));
    assert_eq!(s.watched(), Some("/d/b.md".to_string()));
}

#[test]
fn only_modifications_of_the_file_notify() {
    let mut s = WatchSession::new();
    assert!(!s.should_notify(true, Some("/d/a.md")));
    s.start("/d/a.md");
    assert!(!s.should_notify(false, Some("/d/a.md")));
    assert!(!s.should_notify(true, Some("/d/other.md")));
    assert!(!s.should_notify(true, None));
}

#[test]
fn stop_is_idempotent() {
    let mut s = WatchSession::new();
    assert_eq!(s.stop(), None);
    s.start("/d/a.md");
    assert_eq!(s.stop(), Some("/d/a.md".to_string()));
    assert_eq!(s.stop(), None);
    assert!(!s.should_notify(true, Some("/d/a.md")));
}

#[test]
fn watch_directory_is_parent() {
    assert_eq!(watch_dir("/home/u/a.md", Platform::Posix), Some("/home/u/".to_string()));
    assert_eq!(watch_dir("/a.md", Platform::Posix), Some("/".to_string()));
    assert_eq!(watch_dir("a.md", Platform::Posix), None);
    assert_eq!(watch_dir("C:\\d\\a.md", Platform::Windows), Some("C:\\d\\".to_string()));
}

#[test]
fn scratch_name_combines_sources() {
    assert_eq!(scratch_file_name(1234567890123, "ThreadId(1)", 42), "md_1234567890123_ThreadId(1)_42.html");
    assert_eq!(scratch_file_name(0, "t", 0), "md_0_t_0.html");
}

#[test]
fn scratch_plan_rejects_large_content() {
    assert_eq!(plan_scratch_file("<p/>", 5, "T", 7), Ok("md_5_T_7.html".to_string()));
    let big = "x".repeat(MAX_HTML_SIZE + 1);
    assert_eq!(plan_scratch_file(&big, 5, "T", 7), Err("Content too large".to_string()));
}

#[test]
fn openers_per_system() {
    assert_eq!(opener_command(DesktopOs::Linux), ("xdg-open".to_string(), vec![]));
    assert_eq!(opener_command(DesktopOs::MacOs), ("open".to_string(), vec![]));
    assert_eq!(
        opener_command(DesktopOs::Windows),
        ("cmd".to_string(), vec!["/C".to_string(), "start".to_string(), "".to_string()])
    );
}
