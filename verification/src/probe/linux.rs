//! Linux collector: parses desktop-entry files for installations and
//! evaluates the ordered default-browser fallback chain (handler query
//! utility first, then the mimeapps association files).
//!
//! The caller gathers the raw evidence — file names and contents from the
//! candidate directories, the output of the version probe and of the
//! default-handler query, the readable mimeapps texts — and hands it in as
//! plain values; everything that decides is here.

use vstd::prelude::*;
use vstd::string::StrSliceExecFns;

use crate::model::{DefaultBrowser, Install, Report, channel_wf, install_wf, opt_view, report_wf};
use crate::text::{
    contains, contains_ci, has_suffix, last_token, spec_contains, spec_contains_ci,
    spec_has_suffix, spec_last_token, spec_trim, spec_value_for_key, trim, value_for_key,
};

verus! {

/// One candidate desktop-entry file, already read: its bare file name, its
/// text, and the output of running its executable with a version flag
/// (`None` when the invocation failed to launch, exited non-zero, or was
/// never attempted because the entry has no `Exec` key).
pub struct DesktopFile {
    pub name: String,
    pub text: String,
    pub probe: Option<String>,
}

/// Everything the Linux collector consumes: the matching desktop-entry
/// files in scan order, the raw output of the default-handler query
/// utility (`None` when it could not be run or exited non-zero; trimmed
/// during evaluation), and the texts of the readable mimeapps association
/// files in their fixed order.
pub struct LinuxEvidence {
    pub files: Vec<DesktopFile>,
    pub xdg: Option<String>,
    pub mimeapps: Vec<String>,
}

/// The fixed candidate directories of the desktop-entry scan, in scan
/// order: system applications, the snap desktop-application directory,
/// local applications.
pub fn candidate_desktop_dirs() -> (r: Vec<String>)
    ensures
        r@.len() == 3,
        r@[0]@ == "/usr/share/applications"@,
        r@[1]@ == "/var/lib/snapd/desktop/applications"@,
        r@[2]@ == "/usr/local/share/applications"@,
{
    let mut r: Vec<String> = Vec::new();
    r.push("/usr/share/applications".to_owned());
    r.push("/var/lib/snapd/desktop/applications".to_owned());
    r.push("/usr/local/share/applications".to_owned());
    r
}

/// File names the scan considers: the browser's name, an optional
/// dot-free variant suffix, and the desktop-entry extension.
pub open spec fn spec_desktop_name_matches(n: Seq<char>) -> bool {
    &&& n.len() >= 15
    &&& crate::text::spec_has_prefix(n, "firefox"@)
    &&& spec_has_suffix(n, ".desktop"@)
    &&& forall|k: int| 7 <= k < n.len() - 8 ==> n[k] != '.'
}

/// Does this file name belong to the scan? See
/// [`spec_desktop_name_matches`].
pub fn desktop_name_matches(name: &str) -> (r: bool)
    ensures
        r == spec_desktop_name_matches(name@),
{
    let n = name.unicode_len();
    if n < 15 {
        return false;
    }
    if !crate::text::has_prefix(name, "firefox") {
        return false;
    }
    if !has_suffix(name, ".desktop") {
        return false;
    }
    let mut k: usize = 7;
    while k < n - 8
        invariant
            7 <= k <= n - 8,
            15 <= n == name@.len(),
            forall|j: int| 7 <= j < k ==> name@[j] != '.',
        decreases n - k,
    {
        if name.get_char(k) == '.' {
            return false;
        }
        k = k + 1;
    }
    true
}

/// Channel read off the desktop-entry file name by substring search, the
/// extended-support check first, then beta, then nightly, with `release`
/// the default.
pub open spec fn spec_channel_of_name(n: Seq<char>) -> Seq<char> {
    if spec_contains(n, "esr"@) {
        "esr"@
    } else if spec_contains(n, "beta"@) {
        "beta"@
    } else if spec_contains(n, "nightly"@) {
        "nightly"@
    } else {
        "release"@
    }
}

/// Executable mirror of [`spec_channel_of_name`].
pub fn channel_of_name(name: &str) -> (r: String)
    ensures
        r@ == spec_channel_of_name(name@),
{
    if contains(name, "esr") {
        "esr".to_owned()
    } else if contains(name, "beta") {
        "beta".to_owned()
    } else if contains(name, "nightly") {
        "nightly".to_owned()
    } else {
        "release".to_owned()
    }
}

/// Channel classification from the file name is total and ordered: the
/// result is always one of the documented channels, an `esr` occurrence
/// wins, then `beta`, then `nightly`, with `release` the default.
pub proof fn lemma_channel_of_name_total(n: Seq<char>)
    ensures
        channel_wf(spec_channel_of_name(n)),
        spec_contains(n, "esr"@) ==> spec_channel_of_name(n) == "esr"@,
        !spec_contains(n, "esr"@) && spec_contains(n, "beta"@) ==> spec_channel_of_name(n)
            == "beta"@,
        !spec_contains(n, "esr"@) && !spec_contains(n, "beta"@) && spec_contains(n, "nightly"@)
            ==> spec_channel_of_name(n) == "nightly"@,
        !spec_contains(n, "esr"@) && !spec_contains(n, "beta"@) && !spec_contains(n, "nightly"@)
            ==> spec_channel_of_name(n) == "release"@,
{
}

/// Channel classification from the file name is idempotent: each channel
/// label classifies as itself.
pub proof fn lemma_channel_of_name_idempotent(n: Seq<char>)
    ensures
        spec_channel_of_name(spec_channel_of_name(n)) == spec_channel_of_name(n),
{
    reveal_strlit("esr");
    reveal_strlit("beta");
    reveal_strlit("nightly");
    reveal_strlit("release");
    lemma_label_contains_self("esr"@);
    lemma_label_contains_self("beta"@);
    lemma_label_contains_self("nightly"@);
    lemma_no_esr_beta_in_release();
}

proof fn lemma_label_contains_self(s: Seq<char>)
    ensures
        spec_contains(s, s),
{
    assert(s.subrange(0, s.len() as int) =~= s);
    assert(crate::text::matches_at(s, 0, s));
}

proof fn lemma_no_esr_beta_in_release()
    ensures
        !spec_contains("beta"@, "esr"@),
        !spec_contains("nightly"@, "esr"@),
        !spec_contains("nightly"@, "beta"@),
        !spec_contains("release"@, "esr"@),
        !spec_contains("release"@, "beta"@),
        !spec_contains("release"@, "nightly"@),
{
    reveal_strlit("esr");
    reveal_strlit("beta");
    reveal_strlit("nightly");
    reveal_strlit("release");
    assert forall|i: int| !crate::text::matches_at("beta"@, i, "esr"@) by {
        if crate::text::matches_at("beta"@, i, "esr"@) {
            assert("beta"@.subrange(i, i + 3)[0] == "beta"@[i]);
            assert("beta"@.subrange(i, i + 3)[1] == "beta"@[i + 1]);
        }
    }
    assert forall|i: int| !crate::text::matches_at("nightly"@, i, "esr"@) by {
        if crate::text::matches_at("nightly"@, i, "esr"@) {
            assert("nightly"@.subrange(i, i + 3)[0] == "nightly"@[i]);
        }
    }
    assert forall|i: int| !crate::text::matches_at("nightly"@, i, "beta"@) by {
        if crate::text::matches_at("nightly"@, i, "beta"@) {
            assert("nightly"@.subrange(i, i + 4)[0] == "nightly"@[i]);
        }
    }
    assert forall|i: int| !crate::text::matches_at("release"@, i, "esr"@) by {
        if crate::text::matches_at("release"@, i, "esr"@) {
            assert("release"@.subrange(i, i + 3)[0] == "release"@[i]);
            assert("release"@.subrange(i, i + 3)[1] == "release"@[i + 1]);
        }
    }
    assert forall|i: int| !crate::text::matches_at("release"@, i, "beta"@) by {
        if crate::text::matches_at("release"@, i, "beta"@) {
            assert("release"@.subrange(i, i + 4)[0] == "release"@[i]);
        }
    }
    assert forall|i: int| !crate::text::matches_at("release"@, i, "nightly"@) by {
        if crate::text::matches_at("release"@, i, "nightly"@) {
            assert("release"@.subrange(i, i + 7)[0] == "release"@[i]);
        }
    }
}

/// Version string resolved from the probe output: its last
/// whitespace-delimited token, or the sentinel `unknown` when there was no
/// output or the output holds no token.
/// A character a version token may hold: a digit, a dot, or a lower-case
/// letter.
pub open spec fn versionish_char(c: char) -> bool {
    c == '.' || (48 <= c as u32 && c as u32 <= 57) || (97 <= c as u32 && c as u32 <= 122)
}

/// A dot-delimited numeric-ish token: non-empty, opens with a digit, and
/// holds only digits, dots and lower-case letters.
pub open spec fn spec_versionish(v: Seq<char>) -> bool {
    v.len() > 0 && 48 <= v[0] as u32 && v[0] as u32 <= 57 && forall|k: int|
        0 <= k < v.len() ==> versionish_char(v[k])
}

/// Executable mirror of [`spec_versionish`].
pub fn is_versionish(v: &str) -> (r: bool)
    ensures
        r == spec_versionish(v@),
{
    let n = v.unicode_len();
    if n == 0 {
        return false;
    }
    let c0 = v.get_char(0) as u32;
    if !(48 <= c0 && c0 <= 57) {
        return false;
    }
    let mut k: usize = 0;
    while k < n
        invariant
            k <= n,
            n == v@.len(),
            forall|j: int| 0 <= j < k ==> versionish_char(v@[j]),
        decreases n - k,
    {
        let c = v.get_char(k);
        let cu = c as u32;
        if !(c == '.' || (48 <= cu && cu <= 57) || (97 <= cu && cu <= 122)) {
            return false;
        }
        k = k + 1;
    }
    true
}

/// Version string resolved from the probe output: its last
/// whitespace-delimited token when that token is a dot-delimited
/// numeric-ish value, and the sentinel `unknown` otherwise — also when
/// there was no output or the output holds no token.
pub open spec fn spec_version_of(probe: Option<Seq<char>>) -> Seq<char> {
    match probe {
        Some(out) => match spec_last_token(out) {
            Some(t) => if spec_versionish(t) {
                t
            } else {
                "unknown"@
            },
            None => "unknown"@,
        },
        None => "unknown"@,
    }
}

/// Executable mirror of [`spec_version_of`].
pub fn version_of_probe(probe: &Option<String>) -> (r: String)
    ensures
        r@ == spec_version_of(opt_view(*probe)),
{
    match probe {
        Some(out) => match last_token(out.as_str()) {
            Some(t) => if is_versionish(t.as_str()) {
                t
            } else {
                "unknown".to_owned()
            },
            None => "unknown".to_owned(),
        },
        None => "unknown".to_owned(),
    }
}

/// Version resolution always yields either a dot-delimited numeric-ish
/// token or the exact sentinel `unknown` — never the empty string.
pub proof fn lemma_version_resolution(probe: Option<Seq<char>>)
    ensures
        spec_versionish(spec_version_of(probe)) || spec_version_of(probe) == "unknown"@,
        spec_version_of(probe).len() > 0,
{
    reveal_strlit("unknown");
}

/// The record a desktop-entry file yields, when it yields one: path from
/// the `Exec` value, channel from the file name, version from the probe
/// output, source `desktop`.
pub open spec fn install_matches_desktop(i: Install, f: DesktopFile) -> bool {
    &&& match spec_value_for_key(f.text@, "Exec"@) {
        Some(exec) => i.path@ == exec,
        None => false,
    }
    &&& i.channel@ == spec_channel_of_name(f.name@)
    &&& i.version@ == spec_version_of(opt_view(f.probe))
    &&& i.source@ == "desktop"@
}

/// Turns one desktop-entry file into an installation record, or nothing
/// when the file has no `Exec` key — which is a skip, never an error.
pub fn parse_desktop(f: &DesktopFile) -> (r: Option<Install>)
    ensures
        match r {
            Some(i) => install_matches_desktop(i, *f),
            None => spec_value_for_key(f.text@, "Exec"@) is None,
        },
{
    let exec = match value_for_key(f.text.as_str(), "Exec") {
        Some(e) => e,
        None => {
            return None;
        },
    };
    let channel = channel_of_name(f.name.as_str());
    let version = version_of_probe(&f.probe);
    Some(Install { channel, version, path: exec, source: "desktop".to_owned() })
}

/// The scan result as a whole: `out` holds exactly one record for each
/// file with an `Exec` key, in file order; files without one are absent.
pub open spec fn desktop_installs_ok(fs: Seq<DesktopFile>, out: Seq<Install>) -> bool
    decreases fs.len(),
{
    if fs.len() == 0 {
        out.len() == 0
    } else if spec_value_for_key(fs[0].text@, "Exec"@) is Some {
        &&& out.len() > 0
        &&& install_matches_desktop(out[0], fs[0])
        &&& desktop_installs_ok(fs.drop_first(), out.drop_first())
    } else {
        desktop_installs_ok(fs.drop_first(), out)
    }
}

proof fn lemma_installs_ok_push(fs: Seq<DesktopFile>, out: Seq<Install>, f: DesktopFile, i: Install)
    requires
        desktop_installs_ok(fs, out),
        spec_value_for_key(f.text@, "Exec"@) is Some,
        install_matches_desktop(i, f),
    ensures
        desktop_installs_ok(fs.push(f), out.push(i)),
    decreases fs.len(),
{
    if fs.len() == 0 {
        assert(fs.push(f)[0] == f);
        assert(out.push(i)[0] == i);
        assert(fs.push(f).drop_first() =~= fs);
        assert(out.push(i).drop_first() =~= out);
    } else {
        if spec_value_for_key(fs[0].text@, "Exec"@) is Some {
            lemma_installs_ok_push(fs.drop_first(), out.drop_first(), f, i);
            assert(fs.push(f).drop_first() =~= fs.drop_first().push(f));
            assert(out.push(i).drop_first() =~= out.drop_first().push(i));
            assert(fs.push(f)[0] == fs[0]);
            assert(out.push(i)[0] == out[0]);
        } else {
            lemma_installs_ok_push(fs.drop_first(), out, f, i);
            assert(fs.push(f).drop_first() =~= fs.drop_first().push(f));
            assert(fs.push(f)[0] == fs[0]);
        }
    }
}

proof fn lemma_installs_ok_skip(fs: Seq<DesktopFile>, out: Seq<Install>, f: DesktopFile)
    requires
        desktop_installs_ok(fs, out),
        spec_value_for_key(f.text@, "Exec"@) is None,
    ensures
        desktop_installs_ok(fs.push(f), out),
    decreases fs.len(),
{
    if fs.len() == 0 {
        assert(fs.push(f)[0] == f);
        assert(fs.push(f).drop_first() =~= fs);
    } else {
        if spec_value_for_key(fs[0].text@, "Exec"@) is Some {
            lemma_installs_ok_skip(fs.drop_first(), out.drop_first(), f);
            assert(fs.push(f).drop_first() =~= fs.drop_first().push(f));
            assert(fs.push(f)[0] == fs[0]);
        } else {
            lemma_installs_ok_skip(fs.drop_first(), out, f);
            assert(fs.push(f).drop_first() =~= fs.drop_first().push(f));
            assert(fs.push(f)[0] == fs[0]);
        }
    }
}

/// A desktop-entry file without an `Exec` key contributes nothing: the
/// scan result for any file list also stands for the list with such a
/// file removed, so every other valid file still yields its record.
pub proof fn lemma_no_exec_no_install(fs: Seq<DesktopFile>, out: Seq<Install>, j: int)
    requires
        0 <= j < fs.len(),
        spec_value_for_key(fs[j].text@, "Exec"@) is None,
        desktop_installs_ok(fs, out),
    ensures
        desktop_installs_ok(fs.remove(j), out),
    decreases fs.len(),
{
    if j == 0 {
        assert(fs.remove(0) =~= fs.drop_first());
    } else {
        assert(fs.drop_first()[j - 1] == fs[j]);
        if spec_value_for_key(fs[0].text@, "Exec"@) is Some {
            lemma_no_exec_no_install(fs.drop_first(), out.drop_first(), j - 1);
            assert(fs.remove(j).drop_first() =~= fs.drop_first().remove(j - 1));
            assert(fs.remove(j)[0] == fs[0]);
        } else {
            lemma_no_exec_no_install(fs.drop_first(), out, j - 1);
            assert(fs.remove(j).drop_first() =~= fs.drop_first().remove(j - 1));
            assert(fs.remove(j)[0] == fs[0]);
        }
    }
}

/// Every record a scan yields is structurally valid: known channel, source
/// `desktop`.
pub proof fn lemma_desktop_installs_wf(fs: Seq<DesktopFile>, out: Seq<Install>)
    requires
        desktop_installs_ok(fs, out),
    ensures
        forall|k: int| 0 <= k < out.len() ==> install_wf(#[trigger] out[k]),
    decreases fs.len(),
{
    if fs.len() == 0 {
    } else if spec_value_for_key(fs[0].text@, "Exec"@) is Some {
        lemma_desktop_installs_wf(fs.drop_first(), out.drop_first());
        assert(forall|k: int| 1 <= k < out.len() ==> out[k] == out.drop_first()[k - 1]);
    } else {
        lemma_desktop_installs_wf(fs.drop_first(), out);
    }
}

/// Scans the given desktop-entry files in order; see
/// [`desktop_installs_ok`].
pub fn find_installs(files: &Vec<DesktopFile>) -> (r: Vec<Install>)
    ensures
        desktop_installs_ok(files@, r@),
{
    let mut out: Vec<Install> = Vec::new();
    let mut idx: usize = 0;
    while idx < files.len()
        invariant
            idx <= files@.len(),
            desktop_installs_ok(files@.take(idx as int), out@),
        decreases files@.len() - idx,
    {
        match parse_desktop(&files[idx]) {
            Some(inst) => {
                proof {
                    lemma_installs_ok_push(files@.take(idx as int), out@, files@[idx as int], inst);
                }
                out.push(inst);
            },
            None => {
                proof {
                    lemma_installs_ok_skip(files@.take(idx as int), out@, files@[idx as int]);
                }
            },
        }
        proof {
            assert(files@.take(idx + 1 as int) =~= files@.take(idx as int).push(files@[idx as int]));
        }
        idx = idx + 1;
    }
    proof {
        assert(files@.take(files@.len() as int) =~= files@);
    }
    out
}

/// Verdict derived from the default-handler query's output: trimmed, a
/// case-insensitive occurrence of the browser name decides, and the
/// reported label is the canonical name when it matched, otherwise the
/// output stripped of its desktop-entry extension when it has one.
pub open spec fn db_matches_xdg(d: DefaultBrowser, out: Seq<char>) -> bool {
    let t = spec_trim(out);
    let is_ff = spec_contains_ci(t, "firefox"@);
    &&& d.is_default == is_ff
    &&& d.evidence@ == "xdg-settings"@
    &&& d.name@ == if is_ff {
        "Firefox"@
    } else if spec_has_suffix(t, ".desktop"@) {
        t.subrange(0, t.len() - ".desktop"@.len())
    } else {
        t
    }
}

/// Verdict derived from the mimeapps association files: any text holding
/// either known HTTP-scheme association pattern suffices.
pub open spec fn spec_mimeapps_hit(t: Seq<char>) -> bool {
    spec_contains(t, "x-scheme-handler/http=firefox"@) || spec_contains(t, "=firefox.desktop"@)
}

/// Verdict of the mimeapps strategy over all readable texts, or the
/// negative terminal verdict when none hits.
pub open spec fn db_matches_mimeapps(d: DefaultBrowser, texts: Seq<String>) -> bool {
    if exists|j: int| 0 <= j < texts.len() && #[trigger] spec_mimeapps_hit(texts[j]@) {
        d.name@ == "Firefox"@ && d.is_default && d.evidence@ == "mimeapps"@
    } else {
        d.name@ == "Other"@ && !d.is_default && d.evidence@ == "none"@
    }
}

/// The whole ordered fallback chain: the handler query decides when it
/// ran; only otherwise do the mimeapps texts matter.
pub open spec fn spec_linux_default(
    xdg: Option<Seq<char>>,
    texts: Seq<String>,
    d: DefaultBrowser,
) -> bool {
    match xdg {
        Some(out) => db_matches_xdg(d, out),
        None => db_matches_mimeapps(d, texts),
    }
}

/// The fallback chain short-circuits: once the default-handler query has
/// succeeded, the verdict is the same whatever the mimeapps texts hold —
/// the second strategy's data source is never consulted.
pub proof fn lemma_xdg_short_circuits(
    out: Seq<char>,
    a: Seq<String>,
    b: Seq<String>,
    d: DefaultBrowser,
)
    ensures
        spec_linux_default(Some(out), a, d) == spec_linux_default(Some(out), b, d),
{
}

fn xdg_verdict(out: &String) -> (r: DefaultBrowser)
    ensures
        db_matches_xdg(r, out@),
{
    let t = trim(out.as_str());
    let is_ff = contains_ci(t.as_str(), "firefox");
    let name = if is_ff {
        "Firefox".to_owned()
    } else if has_suffix(t.as_str(), ".desktop") {
        proof {
            reveal_strlit(".desktop");
        }
        let n = t.as_str().unicode_len();
        t.as_str().substring_char(0, n - 8).to_owned()
    } else {
        t
    };
    DefaultBrowser { name, is_default: is_ff, evidence: "xdg-settings".to_owned() }
}

fn mimeapps_hit(text: &String) -> (r: bool)
    ensures
        r == spec_mimeapps_hit(text@),
{
    contains(text.as_str(), "x-scheme-handler/http=firefox") || contains(
        text.as_str(),
        "=firefox.desktop",
    )
}

/// Evaluates the fallback chain; see [`spec_linux_default`].
pub fn detect_default(xdg: &Option<String>, mimeapps: &Vec<String>) -> (r: DefaultBrowser)
    ensures
        spec_linux_default(opt_view(*xdg), mimeapps@, r),
{
    match xdg {
        Some(out) => xdg_verdict(out),
        None => {
            let mut j: usize = 0;
            while j < mimeapps.len()
                invariant
                    j <= mimeapps@.len(),
                    opt_view(*xdg) is None,
                    forall|k: int| 0 <= k < j ==> !spec_mimeapps_hit(#[trigger] mimeapps@[k]@),
                decreases mimeapps@.len() - j,
            {
                if mimeapps_hit(&mimeapps[j]) {
                    proof {
                        assert(spec_mimeapps_hit(mimeapps@[j as int]@));
                    }
                    return DefaultBrowser {
                        name: "Firefox".to_owned(),
                        is_default: true,
                        evidence: "mimeapps".to_owned(),
                    };
                }
                j = j + 1;
            }
            DefaultBrowser {
                name: "Other".to_owned(),
                is_default: false,
                evidence: "none".to_owned(),
            }
        },
    }
}

/// What the Linux report states: platform tag, the scan result for the
/// given files, the fallback-chain verdict, the whole structurally valid.
pub open spec fn linux_report_ok(ev: LinuxEvidence, rep: Report) -> bool {
    &&& rep.platform@ == "linux"@
    &&& desktop_installs_ok(ev.files@, rep.installs@)
    &&& spec_linux_default(opt_view(ev.xdg), ev.mimeapps@, rep.default_browser)
    &&& report_wf(rep)
}

/// Builds the Linux report: the scan result and the fallback-chain
/// verdict, merged; always structurally valid, even with no installations.
pub fn collect(ev: &LinuxEvidence) -> (r: Report)
    ensures
        linux_report_ok(*ev, r),
{
    let installs = find_installs(&ev.files);
    let default_browser = detect_default(&ev.xdg, &ev.mimeapps);
    proof {
        lemma_desktop_installs_wf(ev.files@, installs@);
        reveal_strlit("xdg-settings");
        reveal_strlit("mimeapps");
        reveal_strlit("none");
        assert("xdg-settings"@.len() == 12);
        assert("mimeapps"@.len() == 8);
        assert("none"@.len() == 4);
    }
    Report { platform: "linux".to_owned(), default_browser, installs }
}

} // verus!
