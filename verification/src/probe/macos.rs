//! macOS collector: builds installation records from application-bundle
//! metadata and the default verdict from the Launch Services secure
//! preference store.
//!
//! The caller checks which of the fixed bundle paths exist and reads the
//! raw property-list bytes. Parsing those bytes is the `plist` crate's
//! work, behind trusted wrappers whose results are named: the names are
//! sound because an XML property list parses to the same value on every
//! run — the result is a function of the bytes alone. Everything decided
//! from the extracted strings — which bundles yield records, channel,
//! record shape, which handler entry the verdict reads — is stated over
//! those names and proved here.

use vstd::prelude::*;

use crate::model::{
    DefaultBrowser, Install, ProbeError, Report, channel_wf, install_wf, opt_view, report_wf,
};
use crate::text::{contains, spec_contains, spec_has_prefix, str_eq};

verus! {

/// One existing application bundle: its path and the raw bytes of its
/// embedded metadata property list.
pub struct BundleEvidence {
    pub path: String,
    pub info_xml: Vec<u8>,
}

/// Everything the macOS collector consumes: the bundles that exist, in
/// their fixed candidate order, and the bytes of the per-user Launch
/// Services secure store (`None` when it could not be read — a hard
/// failure, the store being this platform's sole source of truth).
pub struct MacEvidence {
    pub apps: Vec<BundleEvidence>,
    pub launch_services_xml: Option<Vec<u8>>,
}

/// The fixed candidate bundle paths, in scan order: standard release,
/// nightly channel, developer edition.
pub fn candidate_app_paths() -> (r: Vec<String>)
    ensures
        r@.len() == 3,
        r@[0]@ == "/Applications/Firefox.app"@,
        r@[1]@ == "/Applications/Firefox Nightly.app"@,
        r@[2]@ == "/Applications/Firefox Developer Edition.app"@,
{
    let mut r: Vec<String> = Vec::new();
    r.push("/Applications/Firefox.app".to_owned());
    r.push("/Applications/Firefox Nightly.app".to_owned());
    r.push("/Applications/Firefox Developer Edition.app".to_owned());
    r
}

/// The string value under `key` in the top-level dictionary of the
/// property list the bytes parse to; `None` when the bytes do not parse,
/// the top level is no dictionary, the key is absent, or its value is no
/// string. A function of the bytes and key alone.
pub uninterp spec fn spec_plist_string(bytes: Seq<u8>, key: Seq<char>) -> Option<Seq<char>>;

/// The length of the array under `key` in the top-level dictionary;
/// `None` under the same conditions, or when the value is no array.
pub uninterp spec fn spec_plist_array_len(bytes: Seq<u8>, key: Seq<char>) -> Option<int>;

/// In the array under `key`, the string under `subkey` of the dictionary
/// at index `idx`; `None` when any step of that path is absent or of
/// another shape.
pub uninterp spec fn spec_plist_entry_string(
    bytes: Seq<u8>,
    key: Seq<char>,
    idx: int,
    subkey: Seq<char>,
) -> Option<Seq<char>>;

/// Relies on `plist::Value::from_reader_xml`, `Value::as_dictionary`,
/// `Dictionary::get` and `Value::as_string`: one top-level string lookup
/// in the parsed property list, every failure mapped to `None`.
#[verifier::external_body]
fn plist_top_string(bytes: &Vec<u8>, key: &str) -> (r: Option<String>)
    ensures
        opt_view(r) == spec_plist_string(bytes@, key@),
{
    let v = plist::Value::from_reader_xml(bytes.as_slice()).ok()?;
    let s = v.as_dictionary()?.get(key)?.as_string()?.to_owned();
    Some(s)
}

/// Relies on `plist::Value::from_reader_xml`, `Value::as_dictionary`,
/// `Dictionary::get` and `Value::as_array`: the length of one top-level
/// array in the parsed property list, every failure mapped to `None`.
#[verifier::external_body]
fn plist_top_array_len(bytes: &Vec<u8>, key: &str) -> (r: Option<usize>)
    ensures
        match r {
            Some(n) => spec_plist_array_len(bytes@, key@) == Some(n as int),
            None => spec_plist_array_len(bytes@, key@) is None,
        },
{
    let v = plist::Value::from_reader_xml(bytes.as_slice()).ok()?;
    let n = v.as_dictionary()?.get(key)?.as_array()?.len();
    Some(n)
}

/// Relies on `plist::Value::from_reader_xml`, `Value::as_dictionary`,
/// `Dictionary::get`, `Value::as_array` and `Vec::get`: one string lookup
/// in a dictionary sitting in a top-level array of the parsed property
/// list, every failure mapped to `None`.
#[verifier::external_body]
fn plist_array_entry_string(bytes: &Vec<u8>, key: &str, idx: usize, subkey: &str) -> (r: Option<
    String,
>)
    ensures
        opt_view(r) == spec_plist_entry_string(bytes@, key@, idx as int, subkey@),
{
    let v = plist::Value::from_reader_xml(bytes.as_slice()).ok()?;
    let arr = v.as_dictionary()?.get(key)?.as_array()?;
    let s = arr.get(idx)?.as_dictionary()?.get(subkey)?.as_string()?.to_owned();
    Some(s)
}

/// Channel read off the bundle identifier: `nightly` when it occurs,
/// `dev` next — the developer edition is treated as the beta channel, a
/// policy choice, not a vendor-documented mapping — and `release` the
/// default.
pub open spec fn spec_channel_of_bundle(b: Seq<char>) -> Seq<char> {
    if spec_contains(b, "nightly"@) {
        "nightly"@
    } else if spec_contains(b, "dev"@) {
        "beta"@
    } else {
        "release"@
    }
}

/// Executable mirror of [`spec_channel_of_bundle`].
pub fn channel_of_bundle(bundle_id: &str) -> (r: String)
    ensures
        r@ == spec_channel_of_bundle(bundle_id@),
{
    if contains(bundle_id, "nightly") {
        "nightly".to_owned()
    } else if contains(bundle_id, "dev") {
        "beta".to_owned()
    } else {
        "release".to_owned()
    }
}

/// Channel classification from the bundle identifier is total and
/// ordered: the result is always one of the documented channels, a
/// `nightly` occurrence wins, then `dev`, with `release` the default.
pub proof fn lemma_channel_of_bundle_total(b: Seq<char>)
    ensures
        channel_wf(spec_channel_of_bundle(b)),
        spec_contains(b, "nightly"@) ==> spec_channel_of_bundle(b) == "nightly"@,
        !spec_contains(b, "nightly"@) && spec_contains(b, "dev"@) ==> spec_channel_of_bundle(b)
            == "beta"@,
        !spec_contains(b, "nightly"@) && !spec_contains(b, "dev"@) ==> spec_channel_of_bundle(b)
            == "release"@,
{
}

/// The two metadata strings a bundle's property list must hold for the
/// bundle to yield a record: the short version string and the bundle
/// identifier.
pub open spec fn spec_bundle_fields(bytes: Seq<u8>) -> Option<(Seq<char>, Seq<char>)> {
    match (
        spec_plist_string(bytes, "CFBundleShortVersionString"@),
        spec_plist_string(bytes, "CFBundleIdentifier"@),
    ) {
        (Some(ver), Some(bundle)) => Some((ver, bundle)),
        _ => None,
    }
}

/// The record one bundle produces from its path and its two metadata
/// strings.
pub open spec fn install_matches_bundle(
    i: Install,
    path: Seq<char>,
    version: Seq<char>,
    bundle_id: Seq<char>,
) -> bool {
    &&& i.channel@ == spec_channel_of_bundle(bundle_id)
    &&& i.version@ == version
    &&& i.path@ == path
    &&& i.source@ == "plist"@
}

/// Builds the record for one bundle, the metadata strings already
/// extracted.
pub fn install_of_bundle(path: &str, version: String, bundle_id: &str) -> (r: Install)
    ensures
        install_matches_bundle(r, path@, version@, bundle_id@),
{
    Install {
        channel: channel_of_bundle(bundle_id),
        version,
        path: path.to_owned(),
        source: "plist".to_owned(),
    }
}

/// Reads one bundle's metadata: a record exactly when the property list
/// parses to a dictionary holding both metadata strings, its fields fixed
/// by them; otherwise nothing — the bundle is skipped, never an error.
pub fn read_app(app_path: &str, info_xml: &Vec<u8>) -> (r: Option<Install>)
    ensures
        match r {
            Some(i) => match spec_bundle_fields(info_xml@) {
                Some(f) => install_matches_bundle(i, app_path@, f.0, f.1),
                None => false,
            },
            None => spec_bundle_fields(info_xml@) is None,
        },
{
    let version = match plist_top_string(info_xml, "CFBundleShortVersionString") {
        Some(v) => v,
        None => {
            return None;
        },
    };
    let bundle_id = match plist_top_string(info_xml, "CFBundleIdentifier") {
        Some(b) => b,
        None => {
            return None;
        },
    };
    Some(install_of_bundle(app_path, version, bundle_id.as_str()))
}

/// The whole bundle scan: `out` holds exactly one record per bundle whose
/// metadata yields both strings, in candidate order; the others are
/// absent.
pub open spec fn mac_installs_ok(apps: Seq<BundleEvidence>, out: Seq<Install>) -> bool
    decreases apps.len(),
{
    if apps.len() == 0 {
        out.len() == 0
    } else if spec_bundle_fields(apps[0].info_xml@) is Some {
        &&& out.len() > 0
        &&& match spec_bundle_fields(apps[0].info_xml@) {
            Some(f) => install_matches_bundle(out[0], apps[0].path@, f.0, f.1),
            None => false,
        }
        &&& mac_installs_ok(apps.drop_first(), out.drop_first())
    } else {
        mac_installs_ok(apps.drop_first(), out)
    }
}

proof fn lemma_mac_ok_push(
    apps: Seq<BundleEvidence>,
    out: Seq<Install>,
    a: BundleEvidence,
    i: Install,
)
    requires
        mac_installs_ok(apps, out),
        spec_bundle_fields(a.info_xml@) is Some,
        match spec_bundle_fields(a.info_xml@) {
            Some(f) => install_matches_bundle(i, a.path@, f.0, f.1),
            None => false,
        },
    ensures
        mac_installs_ok(apps.push(a), out.push(i)),
    decreases apps.len(),
{
    if apps.len() == 0 {
        assert(apps.push(a)[0] == a);
        assert(out.push(i)[0] == i);
        assert(apps.push(a).drop_first() =~= apps);
        assert(out.push(i).drop_first() =~= out);
    } else {
        if spec_bundle_fields(apps[0].info_xml@) is Some {
            lemma_mac_ok_push(apps.drop_first(), out.drop_first(), a, i);
            assert(apps.push(a).drop_first() =~= apps.drop_first().push(a));
            assert(out.push(i).drop_first() =~= out.drop_first().push(i));
            assert(apps.push(a)[0] == apps[0]);
            assert(out.push(i)[0] == out[0]);
        } else {
            lemma_mac_ok_push(apps.drop_first(), out, a, i);
            assert(apps.push(a).drop_first() =~= apps.drop_first().push(a));
            assert(apps.push(a)[0] == apps[0]);
        }
    }
}

proof fn lemma_mac_ok_skip(apps: Seq<BundleEvidence>, out: Seq<Install>, a: BundleEvidence)
    requires
        mac_installs_ok(apps, out),
        spec_bundle_fields(a.info_xml@) is None,
    ensures
        mac_installs_ok(apps.push(a), out),
    decreases apps.len(),
{
    if apps.len() == 0 {
        assert(apps.push(a)[0] == a);
        assert(apps.push(a).drop_first() =~= apps);
    } else {
        if spec_bundle_fields(apps[0].info_xml@) is Some {
            lemma_mac_ok_skip(apps.drop_first(), out.drop_first(), a);
            assert(apps.push(a).drop_first() =~= apps.drop_first().push(a));
            assert(apps.push(a)[0] == apps[0]);
        } else {
            lemma_mac_ok_skip(apps.drop_first(), out, a);
            assert(apps.push(a).drop_first() =~= apps.drop_first().push(a));
            assert(apps.push(a)[0] == apps[0]);
        }
    }
}

/// Every record the bundle scan yields is structurally valid.
pub proof fn lemma_mac_installs_wf(apps: Seq<BundleEvidence>, out: Seq<Install>)
    requires
        mac_installs_ok(apps, out),
    ensures
        forall|k: int| 0 <= k < out.len() ==> install_wf(#[trigger] out[k]),
    decreases apps.len(),
{
    if apps.len() == 0 {
    } else if spec_bundle_fields(apps[0].info_xml@) is Some {
        lemma_mac_installs_wf(apps.drop_first(), out.drop_first());
        assert(forall|k: int| 1 <= k < out.len() ==> out[k] == out.drop_first()[k - 1]);
    } else {
        lemma_mac_installs_wf(apps.drop_first(), out);
    }
}

/// Scans the given bundles in order; see [`mac_installs_ok`].
pub fn find_installs(apps: &Vec<BundleEvidence>) -> (r: Vec<Install>)
    ensures
        mac_installs_ok(apps@, r@),
{
    let mut out: Vec<Install> = Vec::new();
    let mut idx: usize = 0;
    while idx < apps.len()
        invariant
            idx <= apps@.len(),
            mac_installs_ok(apps@.take(idx as int), out@),
        decreases apps@.len() - idx,
    {
        match read_app(apps[idx].path.as_str(), &apps[idx].info_xml) {
            Some(inst) => {
                proof {
                    lemma_mac_ok_push(apps@.take(idx as int), out@, apps@[idx as int], inst);
                }
                out.push(inst);
            },
            None => {
                proof {
                    lemma_mac_ok_skip(apps@.take(idx as int), out@, apps@[idx as int]);
                }
            },
        }
        proof {
            assert(apps@.take(idx + 1 as int) =~= apps@.take(idx as int).push(apps@[idx as int]));
        }
        idx = idx + 1;
    }
    proof {
        assert(apps@.take(apps@.len() as int) =~= apps@);
    }
    out
}

/// The scheme string of the handler entry at index `j` of the store.
pub open spec fn ls_scheme_at(bytes: Seq<u8>, j: int) -> Option<Seq<char>> {
    spec_plist_entry_string(bytes, "LSHandlers"@, j, "LSHandlerURLScheme"@)
}

/// The `role: all` handler identifier of the entry at index `j`.
pub open spec fn ls_role_all_at(bytes: Seq<u8>, j: int) -> Option<Seq<char>> {
    spec_plist_entry_string(bytes, "LSHandlers"@, j, "LSHandlerRoleAll"@)
}

/// Index of the first handler entry in `[i, n)` whose scheme string is
/// exactly `http`.
pub open spec fn spec_first_http(bytes: Seq<u8>, i: int, n: int) -> Option<int>
    decreases n - i,
{
    if i < n {
        if ls_scheme_at(bytes, i) == Some("http"@) {
            Some(i)
        } else {
            spec_first_http(bytes, i + 1, n)
        }
    } else {
        None
    }
}

/// The store parses to a dictionary holding the handler array: the one
/// condition under which default-browser determination succeeds.
pub open spec fn spec_ls_ok(bytes: Seq<u8>) -> bool {
    spec_plist_array_len(bytes, "LSHandlers"@) is Some
}

/// The handler identifier the store selects: the `role: all` identifier
/// of the first entry whose scheme equals `http`; `None` when no entry's
/// scheme is `http` or the selected entry carries no identifier.
pub open spec fn spec_ls_handler(bytes: Seq<u8>) -> Option<Seq<char>> {
    match spec_plist_array_len(bytes, "LSHandlers"@) {
        Some(n) => match spec_first_http(bytes, 0, n) {
            Some(j) => ls_role_all_at(bytes, j),
            None => None,
        },
        None => None,
    }
}

/// Scans the handler array in order for the first entry whose scheme
/// equals `http` and hands back that entry's `role: all` identifier; see
/// [`spec_ls_handler`].
fn ls_http_handler(bytes: &Vec<u8>, n: usize) -> (r: Option<String>)
    requires
        spec_plist_array_len(bytes@, "LSHandlers"@) == Some(n as int),
    ensures
        opt_view(r) == spec_ls_handler(bytes@),
{
    let mut i: usize = 0;
    while i < n
        invariant
            i <= n,
            spec_plist_array_len(bytes@, "LSHandlers"@) == Some(n as int),
            spec_first_http(bytes@, 0, n as int) == spec_first_http(bytes@, i as int, n as int),
        decreases n - i,
    {
        let scheme = plist_array_entry_string(bytes, "LSHandlers", i, "LSHandlerURLScheme");
        let is_http = match &scheme {
            Some(s) => str_eq(s.as_str(), "http"),
            None => false,
        };
        if is_http {
            return plist_array_entry_string(bytes, "LSHandlers", i, "LSHandlerRoleAll");
        }
        i = i + 1;
    }
    None
}

/// The verdict the Launch Services handler identifier yields: positive
/// exactly when it begins with the canonical bundle-identifier prefix.
pub open spec fn db_matches_ls(d: DefaultBrowser, handler: Option<Seq<char>>) -> bool {
    let is_ff = match handler {
        Some(h) => spec_has_prefix(h, "org.mozilla.firefox"@),
        None => false,
    };
    &&& d.is_default == is_ff
    &&& d.evidence@ == "launchservices"@
    &&& d.name@ == if is_ff {
        "Firefox"@
    } else {
        "Other"@
    }
}

/// Turns the handler identifier found for the `http` scheme — or its
/// absence — into the verdict; see [`db_matches_ls`].
pub fn default_of_ls_handler(handler: &Option<String>) -> (r: DefaultBrowser)
    ensures
        db_matches_ls(r, opt_view(*handler)),
{
    let is_ff = match handler {
        Some(h) => crate::text::has_prefix(h.as_str(), "org.mozilla.firefox"),
        None => false,
    };
    let name = if is_ff {
        "Firefox".to_owned()
    } else {
        "Other".to_owned()
    };
    DefaultBrowser { name, is_default: is_ff, evidence: "launchservices".to_owned() }
}

/// What a successful macOS report states: platform tag, exactly the
/// records the given bundles yield in candidate order, the verdict fixed
/// by the handler the store selects, the whole structurally valid.
pub open spec fn mac_report_ok(ev: MacEvidence, rep: Report) -> bool {
    &&& rep.platform@ == "macos"@
    &&& mac_installs_ok(ev.apps@, rep.installs@)
    &&& match ev.launch_services_xml {
        Some(b) => db_matches_ls(rep.default_browser, spec_ls_handler(b@)),
        None => false,
    }
    &&& report_wf(rep)
}

/// Builds the macOS report. The Launch Services store is authoritative
/// and singular: collection succeeds exactly when the store bytes are
/// present and parse to a dictionary holding the handler array, and each
/// failure is told apart; an unreadable bundle, by contrast, is skipped
/// and never an error.
pub fn collect(ev: &MacEvidence) -> (r: Result<Report, ProbeError>)
    ensures
        match ev.launch_services_xml {
            None => r == Result::<Report, ProbeError>::Err(ProbeError::LaunchServicesUnreadable),
            Some(b) => if spec_ls_ok(b@) {
                r is Ok
            } else {
                r == Result::<Report, ProbeError>::Err(ProbeError::LaunchServicesInvalid)
            },
        },
        match r {
            Ok(rep) => mac_report_ok(*ev, rep),
            Err(e) => true,
        },
{
    let installs = find_installs(&ev.apps);
    let ls = match &ev.launch_services_xml {
        Some(b) => b,
        None => {
            return Err(ProbeError::LaunchServicesUnreadable);
        },
    };
    let n = match plist_top_array_len(ls, "LSHandlers") {
        Some(n) => n,
        None => {
            return Err(ProbeError::LaunchServicesInvalid);
        },
    };
    let handler = ls_http_handler(ls, n);
    let default_browser = default_of_ls_handler(&handler);
    proof {
        lemma_mac_installs_wf(ev.apps@, installs@);
        reveal_strlit("launchservices");
        reveal_strlit("none");
        assert("launchservices"@.len() == 14);
        assert("none"@.len() == 4);
    }
    Ok(Report { platform: "macos".to_owned(), default_browser, installs })
}

} // verus!
