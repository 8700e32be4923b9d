use fxprobe::text::{
    contains, contains_ci, first_token, has_prefix, has_suffix, last_token, str_eq, trim,
    value_for_key,
};

#[test]
fn value_for_key_basic() {
    let text = "[Desktop Entry]\nName=Firefox\nExec=/usr/bin/firefox %u\n";
    assert_eq!(value_for_key(text, "Exec").as_deref(), Some("/usr/bin/firefox %u"));
    assert_eq!(value_for_key(text, "Name").as_deref(), Some("Firefox"));
}

#[test]
fn value_for_key_first_match_wins() {
    let text = "Exec=one\nExec=two\n";
    assert_eq!(value_for_key(text, "Exec").as_deref(), Some("one"));
}

#[test]
fn value_for_key_trims_whitespace() {
    let text = "  Exec  =   /usr/bin/firefox %u  \n";
    assert_eq!(value_for_key(text, "Exec").as_deref(), Some("/usr/bin/firefox %u"));
}

#[test]
fn value_for_key_missing() {
    let text = "[Desktop Entry]\nName=Firefox\n";
    assert_eq!(value_for_key(text, "Exec"), None);
}

#[test]
fn value_for_key_empty_value_is_no_match() {
    assert_eq!(value_for_key("Exec=\n", "Exec"), None);
    assert_eq!(value_for_key("Exec=", "Exec"), None);
}

#[test]
fn value_for_key_blank_value_trims_to_empty() {
    assert_eq!(value_for_key("Exec=   \n", "Exec").as_deref(), Some(""));
}

#[test]
fn value_for_key_needs_line_start() {
    assert_eq!(value_for_key("XExec=1\n", "Exec"), None);
    assert_eq!(value_for_key("Execute=1\n", "Exec"), None);
}

#[test]
fn value_for_key_later_line() {
    let text = "nothing here\n\tExec = firefox\n";
    assert_eq!(value_for_key(text, "Exec").as_deref(), Some("firefox"));
}

#[test]
fn contains_and_prefix_suffix() {
    assert!(contains("firefox-esr.desktop", "esr"));
    assert!(!contains("firefox.desktop", "esr"));
    assert!(has_prefix("org.mozilla.firefox.id", "org.mozilla.firefox"));
    assert!(!has_prefix("x.org.mozilla.firefox", "org.mozilla.firefox"));
    assert!(has_suffix("firefox.desktop", ".desktop"));
    assert!(!has_suffix("firefox.desktop.bak", ".desktop"));
}

#[test]
fn contains_ci_folds_ascii_case() {
    assert!(contains_ci("Mozilla FIREFOX Browser", "firefox"));
    assert!(contains_ci("C:\\Program Files\\Firefox Nightly", "nightly"));
    assert!(!contains_ci("chromium", "firefox"));
}

#[test]
fn trim_and_eq() {
    assert_eq!(trim("  firefox.desktop \n"), "firefox.desktop");
    assert_eq!(trim("   \n"), "");
    assert!(str_eq("http", "http"));
    assert!(!str_eq("http", "https"));
}

#[test]
fn token_extraction() {
    assert_eq!(first_token("/snap/bin/firefox %u").as_deref(), Some("/snap/bin/firefox"));
    assert_eq!(first_token("   ").as_deref(), None);
    assert_eq!(last_token("Mozilla Firefox 128.0.2\n").as_deref(), Some("128.0.2"));
    assert_eq!(last_token("\n \t").as_deref(), None);
}
