use workhelix_cli_common::output::{
    error, format_header, format_message, header, info, is_tty, rule, success, warning, Level,
};

#[test]
fn test_is_tty_returns_bool() {
    let _result = is_tty();
}

#[test]
fn test_success_format() {
    let msg = success("test message");
    assert!(msg.contains("test message"));
    assert!(msg.contains("✅") || msg.contains("[OK]"));
}

#[test]
fn test_error_format() {
    let msg = error("test error");
    assert!(msg.contains("test error"));
    assert!(msg.contains("❌") || msg.contains("[ERROR]"));
}

#[test]
fn test_warning_format() {
    let msg = warning("test warning");
    assert!(msg.contains("test warning"));
    assert!(msg.contains("⚠️") || msg.contains("[WARNING]"));
}

#[test]
fn test_info_format() {
    let msg = info("test info");
    assert!(msg.contains("test info"));
    assert!(msg.contains("ℹ️") || msg.contains("[INFO]"));
}

#[test]
fn test_header_format() {
    let msg = header("Test Header", 20);
    assert!(msg.contains("Test Header"));
    assert!(msg.contains("===================="));
}

#[test]
fn plain_message_forms() {
    assert_eq!(format_message(Level::Success, "done", false), "[OK] done");
    assert_eq!(format_message(Level::Error, "bad", false), "[ERROR] bad");
    assert_eq!(format_message(Level::Warning, "hm", false), "[WARNING] hm");
    assert_eq!(format_message(Level::Info, "fyi", false), "[INFO] fyi");
}

#[test]
fn styled_message_keeps_text() {
    let line = format_message(Level::Success, "done", true);
    assert!(line.contains("✅"));
    assert!(line.contains("done"));
    assert!(!line.starts_with("[OK]"));
    assert!(!format_message(Level::Error, "bad", true).starts_with("[ERROR]"));
}

#[test]
fn plain_header_and_rules() {
    assert_eq!(format_header("Title", 3, false), "Title\n===");
    assert_eq!(rule(0), "");
    assert_eq!(rule(5), "=====");
}
