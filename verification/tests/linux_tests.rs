use fxprobe::model::Report;
use fxprobe::probe::Evidence;
use fxprobe::probe::collect;
use fxprobe::probe::linux::{
    DesktopFile, LinuxEvidence, channel_of_name, desktop_name_matches, detect_default,
    find_installs, parse_desktop, version_of_probe,
};

fn file(name: &str, text: &str, probe: Option<&str>) -> DesktopFile {
    DesktopFile {
        name: name.to_string(),
        text: text.to_string(),
        probe: probe.map(|s| s.to_string()),
    }
}

#[test]
fn desktop_name_pattern() {
    assert!(desktop_name_matches("firefox.desktop"));
    assert!(desktop_name_matches("firefox-esr.desktop"));
    assert!(desktop_name_matches("firefox_nightly.desktop"));
    assert!(!desktop_name_matches("firefox.something.desktop"));
    assert!(!desktop_name_matches("chromium.desktop"));
    assert!(!desktop_name_matches("firefox.desktop.bak"));
    assert!(!desktop_name_matches("refox.desktop"));
}

#[test]
fn channel_from_name_precedence() {
    assert_eq!(channel_of_name("firefox-esr.desktop"), "esr");
    assert_eq!(channel_of_name("firefox-beta.desktop"), "beta");
    assert_eq!(channel_of_name("firefox-nightly.desktop"), "nightly");
    assert_eq!(channel_of_name("firefox.desktop"), "release");
    // the esr check precedes the beta check
    assert_eq!(channel_of_name("firefox-beta-esr.desktop"), "esr");
    // classification of a channel label is that label again
    assert_eq!(channel_of_name("esr"), "esr");
    assert_eq!(channel_of_name("release"), "release");
}

#[test]
fn version_resolution_last_token() {
    assert_eq!(version_of_probe(&Some("Mozilla Firefox 128.0.2\n".to_string())), "128.0.2");
    assert_eq!(version_of_probe(&Some("Firefox Nightly 129.0a1\n".to_string())), "129.0a1");
    assert_eq!(version_of_probe(&None), "unknown");
    assert_eq!(version_of_probe(&Some("".to_string())), "unknown");
    assert_eq!(version_of_probe(&Some(" \n\t".to_string())), "unknown");
    // a last token that is not a dot-delimited numeric-ish value is not a
    // version: the sentinel stands in for it
    assert_eq!(version_of_probe(&Some("ver x!".to_string())), "unknown");
    assert_eq!(version_of_probe(&Some("Mozilla Firefox beta".to_string())), "unknown");
    // never the empty string
    assert!(!version_of_probe(&Some("x".to_string())).is_empty());
}

#[test]
fn desktop_without_exec_yields_nothing() {
    let f = file("firefox.desktop", "[Desktop Entry]\nName=Firefox\n", None);
    assert!(parse_desktop(&f).is_none());
}

#[test]
fn scan_skips_files_without_exec_and_keeps_the_rest() {
    let files = vec![
        file("firefox.desktop", "[Desktop Entry]\nName=Firefox\n", None),
        file("firefox-beta.desktop", "[Desktop Entry]\nExec=/opt/beta/firefox %u\n", None),
        file("firefox-nightly.desktop", "Name=x\n", None),
        file("firefox-esr.desktop", "Exec=/usr/lib/firefox-esr/firefox-esr %u\n", None),
    ];
    let installs = find_installs(&files);
    assert_eq!(installs.len(), 2);
    assert_eq!(installs[0].channel, "beta");
    assert_eq!(installs[0].path, "/opt/beta/firefox %u");
    assert_eq!(installs[1].channel, "esr");
    assert_eq!(installs[1].path, "/usr/lib/firefox-esr/firefox-esr %u");
}

#[test]
fn xdg_strategy_positive() {
    let d = detect_default(&Some("firefox.desktop\n".to_string()), &vec![]);
    assert_eq!(d.name, "Firefox");
    assert!(d.is_default);
    assert_eq!(d.evidence, "xdg-settings");
}

#[test]
fn xdg_strategy_negative_strips_suffix() {
    let d = detect_default(&Some("org.kde.falkon.desktop\n".to_string()), &vec![]);
    assert_eq!(d.name, "org.kde.falkon");
    assert!(!d.is_default);
    assert_eq!(d.evidence, "xdg-settings");
}

#[test]
fn xdg_strategy_negative_other() {
    // output without the desktop-entry extension: reported as it is
    let d = detect_default(&Some("chromium\n".to_string()), &vec![]);
    assert_eq!(d.name, "chromium");
    assert!(!d.is_default);
    assert_eq!(d.evidence, "xdg-settings");
}

#[test]
fn xdg_short_circuits_over_contradicting_mimeapps() {
    // the second strategy's file would say Firefox is default; the first
    // strategy already succeeded and says otherwise, and wins
    let mimeapps = vec![
        "[Default Applications]\nx-scheme-handler/http=firefox.desktop\n".to_string(),
    ];
    let d = detect_default(&Some("chromium.desktop\n".to_string()), &mimeapps);
    assert!(!d.is_default);
    assert_eq!(d.name, "chromium");
    assert_eq!(d.evidence, "xdg-settings");
}

#[test]
fn mimeapps_fallback_positive() {
    let mimeapps = vec![
        "nothing relevant\n".to_string(),
        "[Default Applications]\nx-scheme-handler/http=firefox.desktop\n".to_string(),
    ];
    let d = detect_default(&None, &mimeapps);
    assert_eq!(d.name, "Firefox");
    assert!(d.is_default);
    assert_eq!(d.evidence, "mimeapps");
}

#[test]
fn no_strategy_yields_terminal_negative() {
    let d = detect_default(&None, &vec![]);
    assert_eq!(d.name, "Other");
    assert!(!d.is_default);
    assert_eq!(d.evidence, "none");
}

#[test]
fn end_to_end_esr_entry_without_working_executable() {
    let ev = LinuxEvidence {
        files: vec![
            file(
                "firefox-esr.desktop",
                "[Desktop Entry]\nExec=/usr/lib/firefox-esr/firefox-esr %u\n",
                None,
            ),
        ],
        xdg: None,
        mimeapps: vec![],
    };
    let report: Report = collect(&Evidence::Linux(ev)).unwrap();
    assert_eq!(report.platform, "linux");
    assert_eq!(report.installs.len(), 1);
    assert_eq!(report.installs[0].channel, "esr");
    assert_eq!(report.installs[0].version, "unknown");
    assert_eq!(report.installs[0].source, "desktop");
    assert_eq!(report.installs[0].path, "/usr/lib/firefox-esr/firefox-esr %u");
}

#[test]
fn end_to_end_terminal_negative_default() {
    let ev = LinuxEvidence { files: vec![], xdg: None, mimeapps: vec!["unrelated\n".to_string()] };
    let report = collect(&Evidence::Linux(ev)).unwrap();
    assert_eq!(report.default_browser.name, "Other");
    assert!(!report.default_browser.is_default);
    assert_eq!(report.default_browser.evidence, "none");
}

#[test]
fn empty_installs_still_a_complete_report() {
    let ev = LinuxEvidence { files: vec![], xdg: Some("firefox.desktop".to_string()), mimeapps: vec![] };
    let report = collect(&Evidence::Linux(ev)).unwrap();
    assert_eq!(report.platform, "linux");
    assert!(report.installs.is_empty());
    assert!(report.default_browser.is_default);
    assert_eq!(report.default_browser.evidence, "xdg-settings");
}
