use fxprobe::model::ProbeError;
use fxprobe::probe::Evidence;
use fxprobe::probe::collect;
use fxprobe::probe::windows::{
    FirefoxRegKey, MainKeyValues, WinEvidence, classify_channel, detect_default, find_installs,
};

fn key(cur: Option<&str>, main: Option<(Option<&str>, Option<&str>)>) -> Option<FirefoxRegKey> {
    Some(FirefoxRegKey {
        current_version: cur.map(|s| s.to_string()),
        main: main.map(|(dir, ver)| MainKeyValues {
            install_dir: dir.map(|s| s.to_string()),
            version: ver.map(|s| s.to_string()),
        }),
    })
}

#[test]
fn channel_from_path_and_version() {
    assert_eq!(classify_channel("C:\\Program Files\\Firefox Nightly", "130.0a1"), "nightly");
    assert_eq!(classify_channel("C:\\Program Files\\Mozilla Firefox ESR", "115.0"), "esr");
    assert_eq!(classify_channel("C:\\Program Files\\Firefox Beta", "130.0b3"), "beta");
    assert_eq!(classify_channel("C:\\Program Files\\Mozilla Firefox", "115.2.0esr"), "esr");
    // the version string is lower-cased before the search, like the path
    assert_eq!(classify_channel("C:\\Program Files\\Mozilla Firefox", "1ESR"), "esr");
    assert_eq!(classify_channel("C:\\Program Files\\Mozilla Firefox", "128.0.2"), "release");
    // the path checks precede the version check
    assert_eq!(classify_channel("C:\\Firefox Nightly", "115.2.0esr"), "nightly");
}

#[test]
fn registry_enumeration_skips_and_yields() {
    let keys = vec![
        None,
        key(None, None),
        key(Some("128.0.2"), Some((Some("C:\\Program Files\\Mozilla Firefox"), None))),
    ];
    let installs = find_installs(&keys).unwrap();
    assert_eq!(installs.len(), 1);
    assert_eq!(installs[0].version, "128.0.2");
    assert_eq!(installs[0].path, "C:\\Program Files\\Mozilla Firefox");
    assert_eq!(installs[0].channel, "release");
    assert_eq!(installs[0].source, "registry");
}

#[test]
fn inner_version_value_wins_over_current_version() {
    let keys = vec![key(
        Some("128.0"),
        Some((Some("C:\\Program Files\\Mozilla Firefox"), Some("128.0.2"))),
    )];
    let installs = find_installs(&keys).unwrap();
    assert_eq!(installs[0].version, "128.0.2");
}

#[test]
fn missing_main_subkey_is_fatal() {
    let keys = vec![key(Some("128.0.2"), None)];
    assert_eq!(find_installs(&keys).unwrap_err(), ProbeError::RegistryIncomplete);
}

#[test]
fn missing_install_directory_is_fatal() {
    let keys = vec![key(Some("128.0.2"), Some((None, Some("128.0.2"))))];
    assert_eq!(find_installs(&keys).unwrap_err(), ProbeError::RegistryIncomplete);
}

#[test]
fn default_needs_both_schemes() {
    // only the http association matches: not default
    let d = detect_default(
        &Some("FirefoxURL-308046B0AF4A39CB".to_string()),
        &Some("ChromeHTML".to_string()),
    );
    assert!(!d.is_default);
    assert_eq!(d.name, "Other");
    assert_eq!(d.evidence, "registry");
}

#[test]
fn default_with_both_schemes() {
    let d = detect_default(
        &Some("FirefoxURL-308046B0AF4A39CB".to_string()),
        &Some("FirefoxURL-308046B0AF4A39CB".to_string()),
    );
    assert!(d.is_default);
    assert_eq!(d.name, "Firefox");
    assert_eq!(d.evidence, "registry");
}

#[test]
fn absent_association_is_tolerated_but_negative() {
    let d = detect_default(&None, &None);
    assert!(!d.is_default);
    assert_eq!(d.evidence, "registry");
}

#[test]
fn end_to_end_windows_report() {
    let ev = WinEvidence {
        product_keys: vec![
            key(Some("115.2.0esr"), Some((Some("C:\\Program Files\\Mozilla Firefox"), None))),
            None,
        ],
        http_prog_id: Some("FirefoxURL-1".to_string()),
        https_prog_id: Some("FirefoxURL-1".to_string()),
    };
    let report = collect(&Evidence::Windows(ev)).unwrap();
    assert_eq!(report.platform, "windows");
    assert_eq!(report.installs.len(), 1);
    assert_eq!(report.installs[0].channel, "esr");
    assert!(report.default_browser.is_default);
    assert_eq!(report.default_browser.evidence, "registry");
}

#[test]
fn empty_registry_is_a_complete_empty_report() {
    let ev = WinEvidence { product_keys: vec![None, None], http_prog_id: None, https_prog_id: None };
    let report = collect(&Evidence::Windows(ev)).unwrap();
    assert!(report.installs.is_empty());
    assert!(!report.default_browser.is_default);
    assert_eq!(report.default_browser.name, "Other");
}
