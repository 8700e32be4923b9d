//! Character-level text utilities shared by the platform collectors:
//! whitespace handling, substring and prefix search, ASCII case folding,
//! token extraction, and the line-anchored `key = value` lookup used for
//! desktop-entry files.

use vstd::prelude::*;
use vstd::string::*;

verus! {

/// ASCII whitespace, the delimiter set used for trimming and tokenizing.
pub open spec fn spec_is_ws(c: char) -> bool {
    c == ' ' || c == '\t' || c == '\n' || c == '\r' || c == '\x0b' || c == '\x0c'
}

/// Executable mirror of [`spec_is_ws`].
pub fn is_ws(c: char) -> (r: bool)
    ensures
        r == spec_is_ws(c),
{
    c == ' ' || c == '\t' || c == '\n' || c == '\r' || c == '\x0b' || c == '\x0c'
}

/// Index of the first non-whitespace character in `s` at or after `i`,
/// looking no further than `end`.
pub open spec fn ws_end(s: Seq<char>, i: int, end: int) -> int
    decreases end - i,
{
    if i < end && 0 <= i < s.len() && spec_is_ws(s[i]) {
        ws_end(s, i + 1, end)
    } else {
        i
    }
}

/// Index just past the run of non-whitespace characters starting at `i`,
/// looking no further than `end`.
pub open spec fn token_end(s: Seq<char>, i: int, end: int) -> int
    decreases end - i,
{
    if i < end && 0 <= i < s.len() && !spec_is_ws(s[i]) {
        token_end(s, i + 1, end)
    } else {
        i
    }
}

/// Index at which the whitespace run ending at `hi` begins, looking no
/// further back than `lo`: the result of trimming `[lo, hi)` on the right.
pub open spec fn trim_right(s: Seq<char>, lo: int, hi: int) -> int
    decreases hi - lo,
{
    if lo < hi && 0 < hi <= s.len() && spec_is_ws(s[hi - 1]) {
        trim_right(s, lo, hi - 1)
    } else {
        hi
    }
}

/// Index at which the token (non-whitespace run) ending at `i` begins.
pub open spec fn token_start(s: Seq<char>, i: int) -> int
    decreases i,
{
    if 0 < i <= s.len() && !spec_is_ws(s[i - 1]) {
        token_start(s, i - 1)
    } else {
        i
    }
}

/// The slice `[lo, hi)` of `s` with whitespace trimmed from both ends.
pub open spec fn spec_trimmed(s: Seq<char>, lo: int, hi: int) -> Seq<char> {
    let a = ws_end(s, lo, hi);
    let b = trim_right(s, a, hi);
    s.subrange(a, b)
}

/// The whole of `s` with whitespace trimmed from both ends.
pub open spec fn spec_trim(s: Seq<char>) -> Seq<char> {
    spec_trimmed(s, 0, s.len() as int)
}

/// `pat` occurs in `s` starting at index `i`.
pub open spec fn matches_at(s: Seq<char>, i: int, pat: Seq<char>) -> bool {
    0 <= i && i + pat.len() <= s.len() && s.subrange(i, i + pat.len()) == pat
}

/// `pat` occurs somewhere in `s`.
pub open spec fn spec_contains(s: Seq<char>, pat: Seq<char>) -> bool {
    exists|i: int| matches_at(s, i, pat)
}

/// `s` begins with `pat`.
pub open spec fn spec_has_prefix(s: Seq<char>, pat: Seq<char>) -> bool {
    matches_at(s, 0, pat)
}

/// `s` ends with `pat`.
pub open spec fn spec_has_suffix(s: Seq<char>, pat: Seq<char>) -> bool {
    matches_at(s, s.len() - pat.len(), pat)
}

/// `a` equals `b` up to ASCII case folding of `a`: either the characters
/// are identical, or `a` is an ASCII capital whose lower-case form is `b`.
pub open spec fn ci_eq(a: char, b: char) -> bool {
    a == b || (65 <= a as u32 && a as u32 <= 90 && a as u32 + 32 == b as u32)
}

/// `pat` (already lower-case) occurs at index `i` of `s` once `s` is
/// ASCII-lower-cased.
pub open spec fn ci_matches_at(s: Seq<char>, i: int, pat: Seq<char>) -> bool {
    0 <= i && i + pat.len() <= s.len() && forall|k: int|
        0 <= k < pat.len() ==> ci_eq(s[i + k], pat[k])
}

/// `pat` (already lower-case) occurs somewhere in the ASCII-lower-cased `s`.
pub open spec fn spec_contains_ci(s: Seq<char>, pat: Seq<char>) -> bool {
    exists|i: int| ci_matches_at(s, i, pat)
}

/// Skips whitespace: returns the first index in `[i, end]` holding a
/// non-whitespace character, or `end`.
pub fn ws_end_x(s: &str, i: usize, end: usize) -> (r: usize)
    requires
        i <= end,
        end <= s@.len(),
    ensures
        r == ws_end(s@, i as int, end as int),
        i <= r <= end,
{
    let mut j: usize = i;
    while j < end && is_ws(s.get_char(j))
        invariant
            i <= j <= end,
            end <= s@.len(),
            ws_end(s@, i as int, end as int) == ws_end(s@, j as int, end as int),
        decreases end - j,
    {
        j = j + 1;
    }
    j
}

/// Skips a token: returns the index just past the non-whitespace run that
/// starts at `i`, looking no further than `end`.
pub fn token_end_x(s: &str, i: usize, end: usize) -> (r: usize)
    requires
        i <= end,
        end <= s@.len(),
    ensures
        r == token_end(s@, i as int, end as int),
        i <= r <= end,
{
    let mut j: usize = i;
    while j < end && !is_ws(s.get_char(j))
        invariant
            i <= j <= end,
            end <= s@.len(),
            token_end(s@, i as int, end as int) == token_end(s@, j as int, end as int),
        decreases end - j,
    {
        j = j + 1;
    }
    j
}

/// Trims whitespace on the right: returns the index at which the trailing
/// whitespace run of `[lo, hi)` begins.
pub fn trim_right_x(s: &str, lo: usize, hi: usize) -> (r: usize)
    requires
        lo <= hi,
        hi <= s@.len(),
    ensures
        r == trim_right(s@, lo as int, hi as int),
        lo <= r <= hi,
{
    let mut j: usize = hi;
    while j > lo && is_ws(s.get_char(j - 1))
        invariant
            lo <= j <= hi,
            hi <= s@.len(),
            trim_right(s@, lo as int, hi as int) == trim_right(s@, lo as int, j as int),
        decreases j,
    {
        j = j - 1;
    }
    j
}

/// Does `pat` occur in `s` at index `i`?
pub fn match_at(s: &str, i: usize, pat: &str) -> (r: bool)
    requires
        i + pat@.len() <= s@.len(),
    ensures
        r == matches_at(s@, i as int, pat@),
{
    let n = s.unicode_len();
    let m = pat.unicode_len();
    let mut k: usize = 0;
    while k < m
        invariant
            k <= m,
            n == s@.len(),
            m == pat@.len(),
            i + m <= n,
            forall|j: int| 0 <= j < k ==> s@[i + j] == pat@[j],
        decreases m - k,
    {
        if s.get_char(i + k) != pat.get_char(k) {
            proof {
                if matches_at(s@, i as int, pat@) {
                    assert(s@.subrange(i as int, i + pat@.len())[k as int] == pat@[k as int]);
                }
            }
            return false;
        }
        k = k + 1;
    }
    proof {
        assert(s@.subrange(i as int, i + pat@.len()) =~= pat@);
    }
    true
}

/// Does `pat` occur anywhere in `s`?
pub fn contains(s: &str, pat: &str) -> (r: bool)
    ensures
        r == spec_contains(s@, pat@),
{
    let n = s.unicode_len();
    let m = pat.unicode_len();
    if m > n {
        proof {
            if spec_contains(s@, pat@) {
                let i = choose|i: int| matches_at(s@, i, pat@);
            }
        }
        return false;
    }
    if m == 0 {
        proof {
            assert(s@.subrange(0, 0) =~= pat@);
            assert(matches_at(s@, 0, pat@));
        }
        return true;
    }
    let mut i: usize = 0;
    while i <= n - m
        invariant
            0 < m <= n,
            n == s@.len(),
            m == pat@.len(),
            i <= n - m + 1,
            forall|j: int| 0 <= j < i ==> !matches_at(s@, j, pat@),
        decreases n - i,
    {
        if match_at(s, i, pat) {
            return true;
        }
        i = i + 1;
    }
    proof {
        if spec_contains(s@, pat@) {
            let j = choose|j: int| matches_at(s@, j, pat@);
            assert(0 <= j < i);
        }
    }
    false
}

/// ASCII-case-insensitive counterpart of [`match_at`]: `pat` must already
/// be lower-case.
pub fn ci_match_at(s: &str, i: usize, pat: &str) -> (r: bool)
    requires
        i + pat@.len() <= s@.len(),
    ensures
        r == ci_matches_at(s@, i as int, pat@),
{
    let n = s.unicode_len();
    let m = pat.unicode_len();
    let mut k: usize = 0;
    while k < m
        invariant
            k <= m,
            n == s@.len(),
            m == pat@.len(),
            i + m <= n,
            forall|j: int| 0 <= j < k ==> ci_eq(s@[i + j], pat@[j]),
        decreases m - k,
    {
        let a = s.get_char(i + k);
        let b = pat.get_char(k);
        let au = a as u32;
        let bu = b as u32;
        if !(a == b || (65 <= au && au <= 90 && bu == au + 32)) {
            return false;
        }
        k = k + 1;
    }
    true
}

/// Does `pat` (already lower-case) occur anywhere in the ASCII-lower-cased
/// `s`?
pub fn contains_ci(s: &str, pat: &str) -> (r: bool)
    ensures
        r == spec_contains_ci(s@, pat@),
{
    let n = s.unicode_len();
    let m = pat.unicode_len();
    if m > n {
        proof {
            if spec_contains_ci(s@, pat@) {
                let i = choose|i: int| ci_matches_at(s@, i, pat@);
            }
        }
        return false;
    }
    if m == 0 {
        proof {
            assert(ci_matches_at(s@, 0, pat@));
        }
        return true;
    }
    let mut i: usize = 0;
    while i <= n - m
        invariant
            0 < m <= n,
            n == s@.len(),
            m == pat@.len(),
            i <= n - m + 1,
            forall|j: int| 0 <= j < i ==> !ci_matches_at(s@, j, pat@),
        decreases n - i,
    {
        if ci_match_at(s, i, pat) {
            return true;
        }
        i = i + 1;
    }
    proof {
        if spec_contains_ci(s@, pat@) {
            let j = choose|j: int| ci_matches_at(s@, j, pat@);
            assert(0 <= j < i);
        }
    }
    false
}

/// Does `s` begin with `pat`?
pub fn has_prefix(s: &str, pat: &str) -> (r: bool)
    ensures
        r == spec_has_prefix(s@, pat@),
{
    let n = s.unicode_len();
    let m = pat.unicode_len();
    if m > n {
        return false;
    }
    match_at(s, 0, pat)
}

/// Does `s` end with `pat`?
pub fn has_suffix(s: &str, pat: &str) -> (r: bool)
    ensures
        r == spec_has_suffix(s@, pat@),
{
    let n = s.unicode_len();
    let m = pat.unicode_len();
    if m > n {
        return false;
    }
    match_at(s, n - m, pat)
}

/// Are the two strings equal, character for character?
pub fn str_eq(a: &str, b: &str) -> (r: bool)
    ensures
        r == (a@ == b@),
{
    let n = a.unicode_len();
    let m = b.unicode_len();
    if n != m {
        return false;
    }
    let r = match_at(a, 0, b);
    proof {
        assert(a@.subrange(0, a@.len() as int) =~= a@);
    }
    r
}

/// Copy of `s` with leading and trailing whitespace removed.
pub fn trim(s: &str) -> (r: String)
    ensures
        r@ == spec_trim(s@),
{
    let n = s.unicode_len();
    let a = ws_end_x(s, 0, n);
    let b = trim_right_x(s, a, n);
    s.substring_char(a, b).to_owned()
}

/// First whitespace-delimited token of `s`, or `None` when `s` holds only
/// whitespace.
pub fn first_token(s: &str) -> (r: Option<String>)
    ensures
        match r {
            Some(t) => spec_first_token(s@) == Some(t@),
            None => spec_first_token(s@) is None,
        },
{
    let n = s.unicode_len();
    let a = ws_end_x(s, 0, n);
    if a == n {
        None
    } else {
        let b = token_end_x(s, a, n);
        Some(s.substring_char(a, b).to_owned())
    }
}

/// First whitespace-delimited token, as a specification value.
pub open spec fn spec_first_token(s: Seq<char>) -> Option<Seq<char>> {
    let a = ws_end(s, 0, s.len() as int);
    if a == s.len() {
        None
    } else {
        Some(s.subrange(a, token_end(s, a, s.len() as int)))
    }
}

/// Last whitespace-delimited token of `s`, or `None` when `s` holds only
/// whitespace.
pub fn last_token(s: &str) -> (r: Option<String>)
    ensures
        match r {
            Some(t) => spec_last_token(s@) == Some(t@),
            None => spec_last_token(s@) is None,
        },
{
    let n = s.unicode_len();
    let b = trim_right_x(s, 0, n);
    if b == 0 {
        None
    } else {
        let a = token_start_x(s, b);
        Some(s.substring_char(a, b).to_owned())
    }
}

/// Last whitespace-delimited token, as a specification value.
pub open spec fn spec_last_token(s: Seq<char>) -> Option<Seq<char>> {
    let b = trim_right(s, 0, s.len() as int);
    if b == 0 {
        None
    } else {
        Some(s.subrange(token_start(s, b), b))
    }
}

/// Scans backward from `i` to the start of the non-whitespace run ending
/// there.
pub fn token_start_x(s: &str, i: usize) -> (r: usize)
    requires
        i <= s@.len(),
    ensures
        r == token_start(s@, i as int),
        r <= i,
{
    let mut j: usize = i;
    while j > 0 && !is_ws(s.get_char(j - 1))
        invariant
            j <= i <= s@.len(),
            token_start(s@, i as int) == token_start(s@, j as int),
        decreases j,
    {
        j = j - 1;
    }
    j
}

/// Value of the first line of `text` that reads `key = value` (with
/// optional surrounding whitespace), the value trimmed; `None` when no
/// line matches or every matching line's value is empty before trimming.
pub open spec fn spec_value_for_key(s: Seq<char>, key: Seq<char>) -> Option<Seq<char>> {
    spec_find_value(s, key, 0)
}

/// Index just past the line that starts at or contains index `i`: the
/// position of the next newline at or after `i`, or the end of `s`.
pub open spec fn line_end(s: Seq<char>, i: int) -> int
    decreases s.len() - i,
{
    if 0 <= i < s.len() && s[i] != '\n' {
        line_end(s, i + 1)
    } else {
        i
    }
}

/// `key = value` match against the single line `[start, end)` of `s`:
/// optional leading whitespace, the key, optional whitespace, `=`, and a
/// non-empty remainder, which is returned trimmed.
pub open spec fn spec_line_value(s: Seq<char>, start: int, end: int, key: Seq<char>) -> Option<
    Seq<char>,
> {
    let a = ws_end(s, start, end);
    if a + key.len() <= end && end <= s.len() && s.subrange(a, a + key.len()) == key {
        let b = ws_end(s, a + key.len(), end);
        if b < end && s[b] == '=' && b + 1 < end {
            Some(spec_trimmed(s, b + 1, end))
        } else {
            None
        }
    } else {
        None
    }
}

/// First `key = value` match in the lines of `s` from index `i` on.
pub open spec fn spec_find_value(s: Seq<char>, key: Seq<char>, i: int) -> Option<Seq<char>>
    decreases s.len() - i,
{
    if 0 <= i <= s.len() {
        let e = line_end(s, i);
        match spec_line_value(s, i, e, key) {
            Some(v) => Some(v),
            None => if i <= e && e < s.len() {
                spec_find_value(s, key, e + 1)
            } else {
                None
            },
        }
    } else {
        None
    }
}

/// Finds the end of the line starting at `i`.
fn line_end_x(s: &str, i: usize) -> (r: usize)
    requires
        i <= s@.len(),
    ensures
        r == line_end(s@, i as int),
        i <= r <= s@.len(),
{
    let n = s.unicode_len();
    let mut j: usize = i;
    while j < n && s.get_char(j) != '\n'
        invariant
            i <= j <= n,
            n == s@.len(),
            line_end(s@, i as int) == line_end(s@, j as int),
        decreases n - j,
    {
        j = j + 1;
    }
    j
}

/// Matches one line of `s` against the `key = value` shape; see
/// [`spec_line_value`].
fn line_value_x(s: &str, start: usize, end: usize, key: &str) -> (r: Option<String>)
    requires
        start <= end,
        end <= s@.len(),
    ensures
        match r {
            Some(v) => spec_line_value(s@, start as int, end as int, key@) == Some(v@),
            None => spec_line_value(s@, start as int, end as int, key@) is None,
        },
{
    let a = ws_end_x(s, start, end);
    let m = key.unicode_len();
    if m > end - a {
        return None;
    }
    if !match_at(s, a, key) {
        return None;
    }
    let b = ws_end_x(s, a + m, end);
    if b < end && s.get_char(b) == '=' && b + 1 < end {
        let lo = ws_end_x(s, b + 1, end);
        let hi = trim_right_x(s, lo, end);
        Some(s.substring_char(lo, hi).to_owned())
    } else {
        None
    }
}

/// Looks `key` up in `text`, line by line, first match wins; see
/// [`spec_value_for_key`].
pub fn value_for_key(text: &str, key: &str) -> (r: Option<String>)
    ensures
        match r {
            Some(v) => spec_value_for_key(text@, key@) == Some(v@),
            None => spec_value_for_key(text@, key@) is None,
        },
{
    let n = text.unicode_len();
    let mut i: usize = 0;
    loop
        invariant
            i <= n,
            n == text@.len(),
            spec_value_for_key(text@, key@) == spec_find_value(text@, key@, i as int),
        decreases n - i,
    {
        let e = line_end_x(text, i);
        match line_value_x(text, i, e, key) {
            Some(v) => {
                return Some(v);
            },
            None => {},
        }
        if e < n {
            i = e + 1;
        } else {
            return None;
        }
    }
}

} // verus!
