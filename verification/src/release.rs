//! Self-update of the agent: which release asset to fetch, where from, and
//! the checks around installing it.

use vstd::prelude::*;
use crate::text::{
    starts_with, contains, trim, first_word, trim_start_matches, lowercase, str_chars,
    starts_with_chars, contains_chars, trim_chars, first_word_chars, string_from_chars,
    eq_chars, str_eq, to_lowercase,
};

verus! {

/// The GitHub repository the agent is released from.
pub const GITHUB_REPO: &'static str = "berth-app/berth-agent";

/// The architecture of the release asset for a machine architecture:
/// `aarch64` for `aarch64`, `x86_64` otherwise.
pub fn detect_arch(arch: &str) -> (a: &'static str)
    ensures
        a@ == (if arch@ == "aarch64"@ { "aarch64"@ } else { "x86_64"@ }),
{
    if str_eq(arch, "aarch64") {
        "aarch64"
    } else {
        "x86_64"
    }
}

/// `berth-agent-linux-{arch}`.
pub fn asset_name(arch: &str) -> (s: String)
    ensures
        s@ == "berth-agent-linux-"@ + (if arch@ == "aarch64"@ { "aarch64"@ } else { "x86_64"@ }),
{
    let mut s = "berth-agent-linux-".to_owned();
    s.append(detect_arch(arch));
    s
}

/// The release tag of a version: the version itself when it starts with
/// `v`, else `v` and the version.
pub fn release_tag(version: &str) -> (tag: String)
    ensures
        tag@ == (if starts_with(version@, "v"@) { version@ } else { "v"@ + version@ }),
{
    if starts_with_chars(&str_chars(version), &str_chars("v")) {
        version.to_owned()
    } else {
        let mut t = "v".to_owned();
        t.append(version);
        t
    }
}

/// `https://github.com/{repo}/releases/download/{tag}/{asset}`.
pub fn download_url(tag: &str, asset: &str) -> (url: String)
    ensures
        url@ == "https://github.com/"@ + GITHUB_REPO@ + "/releases/download/"@ + tag@ + "/"@ + asset@,
{
    let mut url = "https://github.com/".to_owned();
    url.append(GITHUB_REPO);
    url.append("/releases/download/");
    url.append(tag);
    url.append("/");
    url.append(asset);
    url
}

/// The URL of an asset's checksum file.
pub fn checksum_url(url: &str) -> (s: String)
    ensures
        s@ == url@ + ".sha256"@,
{
    let mut s = url.to_owned();
    s.append(".sha256");
    s
}

/// The version a release tag names: the tag without leading `v`s.
pub fn release_version(tag: &str) -> (v: String)
    ensures
        v@ == trim_start_matches(tag@, 'v'),
{
    let t = str_chars(tag);
    let mut i: usize = 0;
    assert(t@.skip(0) == t@);
    while i < t.len() && t[i] == 'v'
        invariant
            i <= t.len(),
            trim_start_matches(tag@, 'v') == trim_start_matches(t@.skip(i as int), 'v'),
            t@ == tag@,
        decreases t.len() - i,
    {
        assert(t@.skip(i as int).drop_first() == t@.skip(i + 1));
        i = i + 1;
    }
    let r = crate::text::slice_chars(&t, i, t.len());
    assert(r@ == t@.skip(i as int));
    string_from_chars(&r)
}

/// No update is needed when the latest release is the running version and
/// no particular version was asked for.
pub fn is_up_to_date(release_version: &str, current: &str, version_requested: bool) -> (b: bool)
    ensures
        b == (release_version@ == current@ && !version_requested),
{
    str_eq(release_version, current) && !version_requested
}

/// An executable under `/usr/bin/` that is not Berth's own copy was
/// installed by a package manager.
pub fn installed_via_package_manager(exe_path: &str) -> (b: bool)
    ensures
        b == (starts_with(exe_path@, "/usr/bin/"@) && !contains(exe_path@, ".berth/bin/"@)),
{
    let e = str_chars(exe_path);
    starts_with_chars(&e, &str_chars("/usr/bin/")) && !contains_chars(&e, &str_chars(".berth/bin/"))
}

/// The answer to the upgrade prompt says yes: `y`, `Y` or `yes`.
pub fn is_confirmed(answer: &str) -> (b: bool)
    ensures
        b == (trim(answer@) == "y"@ || trim(answer@) == "Y"@ || trim(answer@) == "yes"@),
{
    let a = trim_chars(&str_chars(answer));
    eq_chars(&a, &str_chars("y")) || eq_chars(&a, &str_chars("Y")) || eq_chars(&a, &str_chars("yes"))
}

/// The checksum a `.sha256` file gives: its first word, lower-cased.
pub open spec fn expected_checksum_of(text: Seq<char>) -> Seq<char> {
    lowercase(match first_word(text) {
        Some(w) => w,
        None => seq![],
    })
}

/// Reads the expected checksum from a `.sha256` file.
pub fn expected_checksum(text: &str) -> (s: String)
    ensures
        s@ == expected_checksum_of(text@),
{
    let w = match first_word_chars(&str_chars(text)) {
        Some(w) => string_from_chars(&w),
        None => String::new(),
    };
    to_lowercase(w.as_str())
}

} // verus!
