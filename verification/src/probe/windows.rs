//! Windows collector: builds installation records from the values read
//! under the vendor's two product registry locations, and the default
//! verdict from the per-user URL-association choices.
//!
//! The caller reads the registry and hands the values in as plain
//! strings; every decision — what is skipped, what is fatal, how channels
//! classify, when the verdict is positive — is made and proved here.

use vstd::prelude::*;

use crate::model::{
    DefaultBrowser, Install, ProbeError, Report, install_wf, opt_view, report_wf,
};
use crate::text::{
    contains, contains_ci, has_prefix, spec_contains, spec_contains_ci, spec_has_prefix,
};

verus! {

/// Values found under the version-named `Main` subkey of one product key.
pub struct MainKeyValues {
    /// The install-directory value; required once the product key exists.
    pub install_dir: Option<String>,
    /// The inner version value; falls back to the outer version string.
    pub version: Option<String>,
}

/// What one product registry location yielded.
pub struct FirefoxRegKey {
    /// The `CurrentVersion` value of the product key.
    pub current_version: Option<String>,
    /// The `Main` subkey one level under the key named after that
    /// version; `None` when it could not be opened.
    pub main: Option<MainKeyValues>,
}

/// Everything the Windows collector consumes: one entry per fixed product
/// location (`None` when the key is absent), and the two per-scheme
/// UserChoice program identifiers (`None` when unset — tolerated).
pub struct WinEvidence {
    pub product_keys: Vec<Option<FirefoxRegKey>>,
    pub http_prog_id: Option<String>,
    pub https_prog_id: Option<String>,
}

/// The two fixed product registry locations under the local-machine
/// hive, in scan order: the native view, then the 32-bit-on-64-bit
/// compatibility view.
pub fn product_key_paths() -> (r: Vec<String>)
    ensures
        r@.len() == 2,
        r@[0]@ == "SOFTWARE\\Mozilla\\Mozilla Firefox"@,
        r@[1]@ == "SOFTWARE\\WOW6432Node\\Mozilla\\Mozilla Firefox"@,
{
    let mut r: Vec<String> = Vec::new();
    r.push("SOFTWARE\\Mozilla\\Mozilla Firefox".to_owned());
    r.push("SOFTWARE\\WOW6432Node\\Mozilla\\Mozilla Firefox".to_owned());
    r
}

/// Channel from install path and version string, both taken lower-cased:
/// the path is searched for `nightly`, then `esr`, then `beta`; failing
/// those, the version string decides `esr`; the default is `release`.
pub open spec fn spec_classify_channel(path: Seq<char>, ver: Seq<char>) -> Seq<char> {
    if spec_contains_ci(path, "nightly"@) {
        "nightly"@
    } else if spec_contains_ci(path, "esr"@) {
        "esr"@
    } else if spec_contains_ci(path, "beta"@) {
        "beta"@
    } else if spec_contains_ci(ver, "esr"@) {
        "esr"@
    } else {
        "release"@
    }
}

/// Executable mirror of [`spec_classify_channel`].
pub fn classify_channel(path: &str, ver: &str) -> (r: String)
    ensures
        r@ == spec_classify_channel(path@, ver@),
{
    if contains_ci(path, "nightly") {
        "nightly".to_owned()
    } else if contains_ci(path, "esr") {
        "esr".to_owned()
    } else if contains_ci(path, "beta") {
        "beta".to_owned()
    } else if contains_ci(ver, "esr") {
        "esr".to_owned()
    } else {
        "release".to_owned()
    }
}

/// Channel classification from path and version is total and ordered:
/// the result is always one of the documented channels, the lower-cased
/// path decides first (`nightly`, then `esr`, then `beta`), the
/// lower-cased version string decides `esr` next, and `release` is the
/// default.
pub proof fn lemma_classify_channel_total(path: Seq<char>, ver: Seq<char>)
    ensures
        crate::model::channel_wf(spec_classify_channel(path, ver)),
        spec_contains_ci(path, "nightly"@) ==> spec_classify_channel(path, ver) == "nightly"@,
        !spec_contains_ci(path, "nightly"@) && spec_contains_ci(path, "esr"@)
            ==> spec_classify_channel(path, ver) == "esr"@,
        !spec_contains_ci(path, "nightly"@) && !spec_contains_ci(path, "esr"@)
            && spec_contains_ci(path, "beta"@) ==> spec_classify_channel(path, ver) == "beta"@,
        !spec_contains_ci(path, "nightly"@) && !spec_contains_ci(path, "esr"@)
            && !spec_contains_ci(path, "beta"@) && spec_contains_ci(ver, "esr"@)
            ==> spec_classify_channel(path, ver) == "esr"@,
        !spec_contains_ci(path, "nightly"@) && !spec_contains_ci(path, "esr"@)
            && !spec_contains_ci(path, "beta"@) && !spec_contains_ci(ver, "esr"@)
            ==> spec_classify_channel(path, ver) == "release"@,
{
}

/// A location whose product key exists and names a version, but whose
/// `Main` subkey or install-directory value is missing: a hard failure.
pub open spec fn spec_key_fatal(k: Option<FirefoxRegKey>) -> bool {
    match k {
        Some(key) => key.current_version is Some && match key.main {
            Some(main) => main.install_dir is None,
            None => true,
        },
        None => false,
    }
}

/// A location that yields an installation record: key present, version
/// named, `Main` opened, install directory read.
pub open spec fn spec_key_yields(k: Option<FirefoxRegKey>) -> bool {
    match k {
        Some(key) => key.current_version is Some && match key.main {
            Some(main) => main.install_dir is Some,
            None => false,
        },
        None => false,
    }
}

/// The record one yielding location produces: path from the install
/// directory, version from the inner value or the outer `CurrentVersion`,
/// channel classified from both, source `registry`.
pub open spec fn install_matches_key(i: Install, key: FirefoxRegKey) -> bool {
    match (key.current_version, key.main) {
        (Some(cur), Some(main)) => match main.install_dir {
            Some(dir) => {
                let ver = match main.version {
                    Some(v) => v@,
                    None => cur@,
                };
                &&& i.path@ == dir@
                &&& i.version@ == ver
                &&& i.channel@ == spec_classify_channel(dir@, ver)
                &&& i.source@ == "registry"@
            },
            None => false,
        },
        _ => false,
    }
}

/// The whole enumeration when no location is fatal: one record per
/// yielding location, in location order, absent locations skipped.
pub open spec fn win_installs_ok(ks: Seq<Option<FirefoxRegKey>>, out: Seq<Install>) -> bool
    decreases ks.len(),
{
    if ks.len() == 0 {
        out.len() == 0
    } else if spec_key_yields(ks[0]) {
        &&& out.len() > 0
        &&& install_matches_key(out[0], ks[0].unwrap())
        &&& win_installs_ok(ks.drop_first(), out.drop_first())
    } else {
        win_installs_ok(ks.drop_first(), out)
    }
}

/// Some location is a hard failure.
pub open spec fn spec_win_fatal(ks: Seq<Option<FirefoxRegKey>>) -> bool {
    exists|j: int| 0 <= j < ks.len() && #[trigger] spec_key_fatal(ks[j])
}

proof fn lemma_win_ok_push(
    ks: Seq<Option<FirefoxRegKey>>,
    out: Seq<Install>,
    k: Option<FirefoxRegKey>,
    i: Install,
)
    requires
        win_installs_ok(ks, out),
        spec_key_yields(k),
        install_matches_key(i, k.unwrap()),
    ensures
        win_installs_ok(ks.push(k), out.push(i)),
    decreases ks.len(),
{
    if ks.len() == 0 {
        assert(ks.push(k)[0] == k);
        assert(out.push(i)[0] == i);
        assert(ks.push(k).drop_first() =~= ks);
        assert(out.push(i).drop_first() =~= out);
    } else {
        if spec_key_yields(ks[0]) {
            lemma_win_ok_push(ks.drop_first(), out.drop_first(), k, i);
            assert(ks.push(k).drop_first() =~= ks.drop_first().push(k));
            assert(out.push(i).drop_first() =~= out.drop_first().push(i));
            assert(ks.push(k)[0] == ks[0]);
            assert(out.push(i)[0] == out[0]);
        } else {
            lemma_win_ok_push(ks.drop_first(), out, k, i);
            assert(ks.push(k).drop_first() =~= ks.drop_first().push(k));
            assert(ks.push(k)[0] == ks[0]);
        }
    }
}

proof fn lemma_win_ok_skip(ks: Seq<Option<FirefoxRegKey>>, out: Seq<Install>, k: Option<
    FirefoxRegKey,
>)
    requires
        win_installs_ok(ks, out),
        !spec_key_yields(k),
    ensures
        win_installs_ok(ks.push(k), out),
    decreases ks.len(),
{
    if ks.len() == 0 {
        assert(ks.push(k)[0] == k);
        assert(ks.push(k).drop_first() =~= ks);
    } else {
        if spec_key_yields(ks[0]) {
            lemma_win_ok_skip(ks.drop_first(), out.drop_first(), k);
            assert(ks.push(k).drop_first() =~= ks.drop_first().push(k));
            assert(ks.push(k)[0] == ks[0]);
        } else {
            lemma_win_ok_skip(ks.drop_first(), out, k);
            assert(ks.push(k).drop_first() =~= ks.drop_first().push(k));
            assert(ks.push(k)[0] == ks[0]);
        }
    }
}

/// Every record the enumeration yields is structurally valid.
pub proof fn lemma_win_installs_wf(ks: Seq<Option<FirefoxRegKey>>, out: Seq<Install>)
    requires
        win_installs_ok(ks, out),
    ensures
        forall|k: int| 0 <= k < out.len() ==> install_wf(#[trigger] out[k]),
    decreases ks.len(),
{
    if ks.len() == 0 {
    } else if spec_key_yields(ks[0]) {
        lemma_win_installs_wf(ks.drop_first(), out.drop_first());
        assert(forall|k: int| 1 <= k < out.len() ==> out[k] == out.drop_first()[k - 1]);
    } else {
        lemma_win_installs_wf(ks.drop_first(), out);
    }
}

/// Enumerates the product locations in order: a missing key or missing
/// `CurrentVersion` is skipped; a key whose required install directory
/// cannot be read is a hard failure that discards the whole enumeration.
pub fn find_installs(keys: &Vec<Option<FirefoxRegKey>>) -> (r: Result<Vec<Install>, ProbeError>)
    ensures
        match r {
            Ok(v) => !spec_win_fatal(keys@) && win_installs_ok(keys@, v@),
            Err(e) => spec_win_fatal(keys@) && e == ProbeError::RegistryIncomplete,
        },
{
    let mut out: Vec<Install> = Vec::new();
    let mut idx: usize = 0;
    while idx < keys.len()
        invariant
            idx <= keys@.len(),
            win_installs_ok(keys@.take(idx as int), out@),
            forall|j: int| 0 <= j < idx ==> !#[trigger] spec_key_fatal(keys@[j]),
        decreases keys@.len() - idx,
    {
        match &keys[idx] {
            None => {
                proof {
                    lemma_win_ok_skip(keys@.take(idx as int), out@, keys@[idx as int]);
                }
            },
            Some(key) => {
                match &key.current_version {
                    None => {
                        proof {
                            lemma_win_ok_skip(keys@.take(idx as int), out@, keys@[idx as int]);
                        }
                    },
                    Some(cur) => {
                        let main = match &key.main {
                            Some(main) => main,
                            None => {
                                proof {
                                    assert(spec_key_fatal(keys@[idx as int]));
                                }
                                return Err(ProbeError::RegistryIncomplete);
                            },
                        };
                        let dir = match &main.install_dir {
                            Some(dir) => dir,
                            None => {
                                proof {
                                    assert(spec_key_fatal(keys@[idx as int]));
                                }
                                return Err(ProbeError::RegistryIncomplete);
                            },
                        };
                        let ver: String = match &main.version {
                            Some(v) => v.clone(),
                            None => cur.clone(),
                        };
                        let channel = classify_channel(dir.as_str(), ver.as_str());
                        let inst = Install {
                            channel,
                            version: ver,
                            path: dir.clone(),
                            source: "registry".to_owned(),
                        };
                        proof {
                            lemma_win_ok_push(keys@.take(idx as int), out@, keys@[idx as int], inst);
                        }
                        out.push(inst);
                    },
                }
            },
        }
        proof {
            assert(keys@.take(idx + 1 as int) =~= keys@.take(idx as int).push(keys@[idx as int]));
        }
        idx = idx + 1;
    }
    proof {
        assert(keys@.take(keys@.len() as int) =~= keys@);
        if spec_win_fatal(keys@) {
            let j = choose|j: int| 0 <= j < keys@.len() && spec_key_fatal(keys@[j]);
        }
    }
    Ok(out)
}

/// Does this UserChoice program identifier name the browser's URL
/// handler? Absence is no association.
pub open spec fn spec_prog_matches(p: Option<Seq<char>>) -> bool {
    match p {
        Some(s) => spec_has_prefix(s, "FirefoxURL"@),
        None => false,
    }
}

fn prog_matches(p: &Option<String>) -> (r: bool)
    ensures
        r == spec_prog_matches(opt_view(*p)),
{
    match p {
        Some(s) => has_prefix(s.as_str(), "FirefoxURL"),
        None => false,
    }
}

/// The Windows default-browser record — positive exactly when both the
/// HTTP and the HTTPS associations carry the handler prefix, under the
/// registry strategy tag.
pub open spec fn db_matches_win(
    d: DefaultBrowser,
    http: Option<Seq<char>>,
    https: Option<Seq<char>>,
) -> bool {
    let is_ff = spec_prog_matches(http) && spec_prog_matches(https);
    &&& d.is_default == is_ff
    &&& d.evidence@ == "registry"@
    &&& d.name@ == if is_ff {
        "Firefox"@
    } else {
        "Other"@
    }
}

/// One matching scheme is insufficient: a positive verdict always has
/// both the HTTP and the HTTPS program identifiers matching the
/// browser's handler prefix.
pub proof fn lemma_win_default_needs_both(
    d: DefaultBrowser,
    http: Option<Seq<char>>,
    https: Option<Seq<char>>,
)
    requires
        db_matches_win(d, http, https),
    ensures
        d.is_default ==> spec_prog_matches(http) && spec_prog_matches(https),
{
}

/// Evaluates the two URL associations; see [`db_matches_win`].
pub fn detect_default(http: &Option<String>, https: &Option<String>) -> (r: DefaultBrowser)
    ensures
        db_matches_win(r, opt_view(*http), opt_view(*https)),
{
    let is_ff = prog_matches(http) && prog_matches(https);
    let name = if is_ff {
        "Firefox".to_owned()
    } else {
        "Other".to_owned()
    };
    DefaultBrowser { name, is_default: is_ff, evidence: "registry".to_owned() }
}

/// What a successful Windows report states.
pub open spec fn win_report_ok(ev: WinEvidence, rep: Report) -> bool {
    &&& rep.platform@ == "windows"@
    &&& win_installs_ok(ev.product_keys@, rep.installs@)
    &&& db_matches_win(
        rep.default_browser,
        opt_view(ev.http_prog_id),
        opt_view(ev.https_prog_id),
    )
    &&& report_wf(rep)
}

/// Builds the Windows report, or fails when a required registry value is
/// missing once a product key is confirmed present.
pub fn collect(ev: &WinEvidence) -> (r: Result<Report, ProbeError>)
    ensures
        match r {
            Ok(rep) => !spec_win_fatal(ev.product_keys@) && win_report_ok(*ev, rep),
            Err(e) => spec_win_fatal(ev.product_keys@) && e == ProbeError::RegistryIncomplete,
        },
{
    let installs = match find_installs(&ev.product_keys) {
        Ok(v) => v,
        Err(e) => {
            return Err(e);
        },
    };
    let default_browser = detect_default(&ev.http_prog_id, &ev.https_prog_id);
    proof {
        lemma_win_installs_wf(ev.product_keys@, installs@);
        reveal_strlit("registry");
        reveal_strlit("none");
        assert("registry"@.len() == 8);
        assert("none"@.len() == 4);
    }
    Ok(Report { platform: "windows".to_owned(), default_browser, installs })
}

} // verus!
