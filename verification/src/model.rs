//! The shared report contract: one installation record per detected copy,
//! exactly one default-browser verdict, and the top-level report that every
//! platform collector produces.

use vstd::prelude::*;

verus! {

/// One detected installation of the browser.
#[derive(Debug)]
pub struct Install {
    /// Release channel: `release`, `beta`, `esr`, `nightly` or `unknown`.
    pub channel: String,
    /// Version string, or the sentinel `unknown` when it could not be found.
    pub version: String,
    /// Filesystem path of the installation or its executable, as discovered.
    pub path: String,
    /// Evidence mechanism that produced the record: `registry`, `plist`,
    /// `desktop` or `pkgmgr`.
    pub source: String,
}

/// The single default-browser verdict for the current user.
#[derive(Debug)]
pub struct DefaultBrowser {
    /// Display label: `Firefox` when positively identified, otherwise a
    /// best-effort label or `Other`.
    pub name: String,
    /// Whether the browser is the registered default handler.
    pub is_default: bool,
    /// Detection strategy that produced the verdict, or `none` when every
    /// strategy failed.
    pub evidence: String,
}

/// Root result of one probe run.
#[derive(Debug)]
pub struct Report {
    /// Platform tag: `linux`, `macos` or `windows`.
    pub platform: String,
    /// The verdict; never absent — lack of evidence is a negative verdict.
    pub default_browser: DefaultBrowser,
    /// Detected installations, possibly empty, duplicates kept.
    pub installs: Vec<Install>,
}

/// Failure of a source that a platform treats as authoritative; anything
/// less severe is skipped or falls through, never reported as an error.
#[derive(Clone, Copy, Debug, PartialEq, Eq, Structural)]
pub enum ProbeError {
    /// The Launch Services secure store could not be read.
    LaunchServicesUnreadable,
    /// The Launch Services secure store did not parse or lacks the
    /// handler list.
    LaunchServicesInvalid,
    /// A registry value that is required once the product key exists was
    /// absent.
    RegistryIncomplete,
}

/// The channel strings the data contract allows.
pub open spec fn channel_wf(c: Seq<char>) -> bool {
    c == "release"@ || c == "beta"@ || c == "esr"@ || c == "nightly"@ || c == "unknown"@
}

/// The evidence-source strings the data contract allows.
pub open spec fn source_wf(s: Seq<char>) -> bool {
    s == "registry"@ || s == "plist"@ || s == "desktop"@ || s == "pkgmgr"@
}

/// The strategy tags a verdict may carry.
pub open spec fn evidence_wf(e: Seq<char>) -> bool {
    e == "xdg-settings"@ || e == "mimeapps"@ || e == "launchservices"@ || e == "registry"@ || e
        == "none"@
}

/// The platform tags a report may carry.
pub open spec fn platform_wf(p: Seq<char>) -> bool {
    p == "linux"@ || p == "macos"@ || p == "windows"@
}

/// Structural validity of one installation record.
pub open spec fn install_wf(i: Install) -> bool {
    channel_wf(i.channel@) && source_wf(i.source@)
}

/// Structural validity of the default-browser record — a recognized
/// strategy tag, and a positive record never carries the tag `none`.
pub open spec fn default_browser_wf(d: DefaultBrowser) -> bool {
    evidence_wf(d.evidence@) && (d.is_default ==> d.evidence@ != "none"@)
}

/// Structural validity of a whole report.
pub open spec fn report_wf(r: Report) -> bool {
    &&& platform_wf(r.platform@)
    &&& default_browser_wf(r.default_browser)
    &&& forall|k: int| 0 <= k < r.installs@.len() ==> install_wf(#[trigger] r.installs@[k])
}

/// View of an optional owned string as an optional character sequence.
pub open spec fn opt_view(o: Option<String>) -> Option<Seq<char>> {
    match o {
        Some(s) => Some(s@),
        None => None,
    }
}

} // verus!
