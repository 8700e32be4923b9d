use fxprobe::model::ProbeError;
use fxprobe::probe::Evidence;
use fxprobe::probe::collect;
use fxprobe::probe::macos::{
    BundleEvidence, MacEvidence, candidate_app_paths, channel_of_bundle, default_of_ls_handler,
    find_installs, read_app,
};

fn info_plist(version: &str, bundle_id: &str) -> Vec<u8> {
    format!(
        "<?xml version=\"1.0\" encoding=\"UTF-8\"?>\n<plist version=\"1.0\"><dict><key>CFBundleShortVersionString</key><string>{}</string><key>CFBundleIdentifier</key><string>{}</string></dict></plist>\n",
        version, bundle_id
    )
    .into_bytes()
}

fn ls_plist(scheme: &str, handler: &str) -> Vec<u8> {
    format!(
        "<?xml version=\"1.0\" encoding=\"UTF-8\"?>\n<plist version=\"1.0\"><dict><key>LSHandlers</key><array><dict><key>LSHandlerURLScheme</key><string>{}</string><key>LSHandlerRoleAll</key><string>{}</string></dict></array></dict></plist>\n",
        scheme, handler
    )
    .into_bytes()
}

#[test]
fn candidate_paths_fixed_order() {
    let paths = candidate_app_paths();
    assert_eq!(
        paths,
        vec![
            "/Applications/Firefox.app".to_string(),
            "/Applications/Firefox Nightly.app".to_string(),
            "/Applications/Firefox Developer Edition.app".to_string(),
        ]
    );
}

#[test]
fn channel_from_bundle_identifier() {
    assert_eq!(channel_of_bundle("org.mozilla.nightly"), "nightly");
    assert_eq!(channel_of_bundle("org.mozilla.firefoxdeveloperedition"), "beta");
    assert_eq!(channel_of_bundle("org.mozilla.firefox"), "release");
}

#[test]
fn read_app_extracts_metadata() {
    let inst = read_app(
        "/Applications/Firefox Nightly.app",
        &info_plist("129.0a1", "org.mozilla.nightly"),
    )
    .unwrap();
    assert_eq!(inst.channel, "nightly");
    assert_eq!(inst.version, "129.0a1");
    assert_eq!(inst.path, "/Applications/Firefox Nightly.app");
    assert_eq!(inst.source, "plist");
}

#[test]
fn read_app_skips_incomplete_metadata() {
    let xml = b"<plist version=\"1.0\"><dict><key>CFBundleIdentifier</key><string>org.mozilla.firefox</string></dict></plist>".to_vec();
    assert!(read_app("/Applications/Firefox.app", &xml).is_none());
    let garbage = b"not a plist at all".to_vec();
    assert!(read_app("/Applications/Firefox.app", &garbage).is_none());
}

#[test]
fn bundle_scan_keeps_order_and_skips_bad_metadata() {
    let apps = vec![
        BundleEvidence {
            path: "/Applications/Firefox.app".to_string(),
            info_xml: b"garbage".to_vec(),
        },
        BundleEvidence {
            path: "/Applications/Firefox Nightly.app".to_string(),
            info_xml: info_plist("129.0a1", "org.mozilla.nightly"),
        },
        BundleEvidence {
            path: "/Applications/Firefox Developer Edition.app".to_string(),
            info_xml: info_plist("130.0b1", "org.mozilla.firefoxdeveloperedition"),
        },
    ];
    let installs = find_installs(&apps);
    assert_eq!(installs.len(), 2);
    assert_eq!(installs[0].path, "/Applications/Firefox Nightly.app");
    assert_eq!(installs[0].channel, "nightly");
    assert_eq!(installs[1].path, "/Applications/Firefox Developer Edition.app");
    assert_eq!(installs[1].channel, "beta");
}

#[test]
fn ls_handler_prefix_decides() {
    let d = default_of_ls_handler(&Some("org.mozilla.firefox".to_string()));
    assert!(d.is_default);
    assert_eq!(d.name, "Firefox");
    assert_eq!(d.evidence, "launchservices");
    let d = default_of_ls_handler(&Some("com.apple.safari".to_string()));
    assert!(!d.is_default);
    assert_eq!(d.name, "Other");
    let d = default_of_ls_handler(&None);
    assert!(!d.is_default);
}

#[test]
fn end_to_end_nightly_bundle() {
    let ev = MacEvidence {
        apps: vec![BundleEvidence {
            path: "/Applications/Firefox Nightly.app".to_string(),
            info_xml: info_plist("129.0a1", "org.mozilla.nightly"),
        }],
        launch_services_xml: Some(ls_plist("http", "org.mozilla.firefox")),
    };
    let report = collect(&Evidence::Macos(ev)).unwrap();
    assert_eq!(report.platform, "macos");
    assert_eq!(report.installs.len(), 1);
    assert_eq!(report.installs[0].channel, "nightly");
    assert_eq!(report.installs[0].version, "129.0a1");
    assert_eq!(report.installs[0].source, "plist");
    assert!(report.default_browser.is_default);
    assert_eq!(report.default_browser.evidence, "launchservices");
}

#[test]
fn launch_services_foreign_handler_is_not_default() {
    let ev = MacEvidence {
        apps: vec![],
        launch_services_xml: Some(ls_plist("http", "com.apple.safari")),
    };
    let report = collect(&Evidence::Macos(ev)).unwrap();
    assert!(!report.default_browser.is_default);
    assert_eq!(report.default_browser.name, "Other");
}

#[test]
fn launch_services_other_scheme_is_ignored() {
    let ev = MacEvidence {
        apps: vec![],
        launch_services_xml: Some(ls_plist("mailto", "org.mozilla.firefox")),
    };
    let report = collect(&Evidence::Macos(ev)).unwrap();
    assert!(!report.default_browser.is_default);
}

#[test]
fn first_http_entry_decides() {
    // the first entry for the http scheme has no role-all identifier; a
    // later http entry naming the browser must not be consulted
    let xml = format!(
        "<?xml version=\"1.0\" encoding=\"UTF-8\"?>\n<plist version=\"1.0\"><dict><key>LSHandlers</key><array><dict><key>LSHandlerURLScheme</key><string>http</string></dict><dict><key>LSHandlerURLScheme</key><string>http</string><key>LSHandlerRoleAll</key><string>{}</string></dict></array></dict></plist>\n",
        "org.mozilla.firefox"
    )
    .into_bytes();
    let ev = MacEvidence { apps: vec![], launch_services_xml: Some(xml) };
    let report = collect(&Evidence::Macos(ev)).unwrap();
    assert!(!report.default_browser.is_default);
    assert_eq!(report.default_browser.name, "Other");
}

#[test]
fn unreadable_launch_services_store_is_fatal() {
    let ev = MacEvidence { apps: vec![], launch_services_xml: None };
    assert_eq!(
        collect(&Evidence::Macos(ev)).unwrap_err(),
        ProbeError::LaunchServicesUnreadable
    );
}

#[test]
fn malformed_launch_services_store_is_fatal() {
    let ev = MacEvidence {
        apps: vec![],
        launch_services_xml: Some(b"not xml".to_vec()),
    };
    assert_eq!(
        collect(&Evidence::Macos(ev)).unwrap_err(),
        ProbeError::LaunchServicesInvalid
    );
    let no_handlers = b"<plist version=\"1.0\"><dict></dict></plist>".to_vec();
    let ev = MacEvidence { apps: vec![], launch_services_xml: Some(no_handlers) };
    assert_eq!(
        collect(&Evidence::Macos(ev)).unwrap_err(),
        ProbeError::LaunchServicesInvalid
    );
}
