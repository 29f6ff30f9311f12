//! What goes into a project's source archive, and its size limit.

use vstd::prelude::*;
use crate::detect::{extension, extension_of};
use crate::text::{starts_with, strip_prefix, decimal, str_chars, eq_chars, u64_to_decimal, views};
use crate::path_safety::{path_parts, path_parts_of};

verus! {

/// The largest compressed archive accepted, in bytes (64 MiB).
pub const MAX_ARCHIVE_SIZE: u64 = 67108864;

/// Directories of build artifacts and tooling that are left out.
pub open spec fn skip_dirs() -> Seq<Seq<char>> {
    seq![".git"@, "node_modules"@, ".venv"@, "venv"@, "__pycache__"@, "target"@, ".berth"@, ".tox"@, "dist"@, "build"@]
}

/// Extensions of compiled artifacts that are left out.
pub open spec fn skip_extensions() -> Seq<Seq<char>> {
    seq!["pyc"@, "pyo"@, "o"@, "so"@, "dylib"@]
}

fn skip_dir_names() -> (v: Vec<&'static str>)
    ensures
        v@.map_values(|s: &str| s@) == skip_dirs(),
{
    let v = vec![".git", "node_modules", ".venv", "venv", "__pycache__", "target", ".berth", ".tox", "dist", "build"];
    assert(v@.map_values(|s: &str| s@) =~= skip_dirs());
    v
}

fn skip_extension_names() -> (v: Vec<&'static str>)
    ensures
        v@.map_values(|s: &str| s@) == skip_extensions(),
{
    let v = vec!["pyc", "pyo", "o", "so", "dylib"];
    assert(v@.map_values(|s: &str| s@) =~= skip_extensions());
    v
}

fn listed(names: &Vec<&'static str>, x: &Vec<char>) -> (b: bool)
    ensures
        b == names@.map_values(|s: &str| s@).contains(x@),
{
    let ghost ns = names@.map_values(|s: &str| s@);
    let mut i: usize = 0;
    while i < names.len()
        invariant
            i <= names.len(),
            ns == names@.map_values(|s: &str| s@),
            forall|j: int| 0 <= j < i ==> ns[j] != x@,
        decreases names.len() - i,
    {
        if eq_chars(&str_chars(names[i]), x) {
            assert(ns[i as int] == x@);
            return true;
        }
        i = i + 1;
    }
    false
}

/// What is done with a directory entry while archiving.
#[derive(PartialEq, Eq, Structural, Clone, Copy, Debug)]
pub enum EntryAction {
    Skip,
    /// A directory whose contents are archived.
    Descend,
    /// A file that is archived.
    Add,
}

/// The fate of an entry: hidden files are left out (`.env` excepted), and
/// hidden directories whose name without the dot is listed; listed
/// directories and files with a listed extension are left out; other
/// directories are descended into and other files added.
pub open spec fn entry_action_of(name: Seq<char>, is_dir: bool, is_file: bool) -> EntryAction {
    if starts_with(name, "."@) && name != ".env"@ && (skip_dirs().contains(name.skip(1)) || !is_dir) {
        EntryAction::Skip
    } else if is_dir && skip_dirs().contains(name) {
        EntryAction::Skip
    } else if is_file && (extension(name) matches Some(e) && skip_extensions().contains(e)) {
        EntryAction::Skip
    } else if is_dir {
        EntryAction::Descend
    } else if is_file {
        EntryAction::Add
    } else {
        EntryAction::Skip
    }
}

/// Decides on an entry of the project directory.
pub fn entry_action(name: &str, is_dir: bool, is_file: bool) -> (a: EntryAction)
    ensures
        a == entry_action_of(name@, is_dir, is_file),
{
    let n = str_chars(name);
    let dirs = skip_dir_names();
    if n.len() > 0 && n[0] == '.' && !eq_chars(&n, &str_chars(".env")) {
        let rest = crate::text::slice_chars(&n, 1, n.len());
        assert(starts_with(n@, "."@)) by {
            reveal_strlit(".");
            assert(n@.subrange(0, 1) =~= "."@);
        }
        if listed(&dirs, &rest) || !is_dir {
            return EntryAction::Skip;
        }
    } else {
        proof {
            reveal_strlit(".");
            if n@.len() > 0 && starts_with(n@, "."@) {
                assert(n@[0] == n@.subrange(0, 1)[0]);
            }
        }
    }
    if is_dir && listed(&dirs, &n) {
        return EntryAction::Skip;
    }
    if is_file {
        if let Some(e) = extension_of(&n) {
            if listed(&skip_extension_names(), &e) {
                return EntryAction::Skip;
            }
        }
    }
    if is_dir {
        EntryAction::Descend
    } else if is_file {
        EntryAction::Add
    } else {
        EntryAction::Skip
    }
}

/// Refuses a compressed archive over `MAX_ARCHIVE_SIZE`, giving its size
/// in whole MiB.
pub fn check_archive_size(len: u64) -> (r: Result<(), String>)
    ensures
        r is Ok <==> len <= MAX_ARCHIVE_SIZE,
        r matches Err(e) ==> e@ == "Source archive is "@ + decimal((len / 1048576) as nat)
            + "MB, exceeds the 64MB limit. Ensure node_modules/, .venv/, and build artifacts are excluded."@,
{
    if len > MAX_ARCHIVE_SIZE {
        let mut e = "Source archive is ".to_owned();
        e.append(u64_to_decimal(len / 1048576).as_str());
        e.append("MB, exceeds the 64MB limit. Ensure node_modules/, .venv/, and build artifacts are excluded.");
        Err(e)
    } else {
        Ok(())
    }
}

/// A Unix path that starts at the root.
pub open spec fn is_absolute_path(p: Seq<char>) -> bool {
    p.len() > 0 && p[0] == '/'
}

/// A path with a `..` component.
pub open spec fn has_parent_component(p: Seq<char>) -> bool {
    path_parts(p).contains(".."@)
}

/// Why an archive entry is refused before it is unpacked, if it is: an
/// absolute path, a `..` component, or a link (symbolic or hard) whose
/// target is absolute or has a `..` component.
pub open spec fn archive_entry_error_of(path: Seq<char>, is_link: bool, link_target: Option<Seq<char>>) -> Option<Seq<char>> {
    if is_absolute_path(path) {
        Some("Archive contains absolute path: "@ + path)
    } else if has_parent_component(path) {
        Some("Archive contains path traversal: "@ + path)
    } else if is_link && (link_target matches Some(t) && (is_absolute_path(t) || has_parent_component(t))) {
        Some("Archive contains suspicious link: "@ + path + " -> "@ + link_target->0)
    } else {
        None
    }
}

fn absolute_chars(p: &Vec<char>) -> (b: bool)
    ensures
        b == is_absolute_path(p@),
{
    p.len() > 0 && p[0] == '/'
}

fn parent_component_chars(p: &Vec<char>) -> (b: bool)
    ensures
        b == has_parent_component(p@),
{
    let parts = path_parts_of(p);
    let dots = str_chars("..");
    let ghost pv = views(parts@);
    let mut i: usize = 0;
    while i < parts.len()
        invariant
            i <= parts.len(),
            pv == views(parts@),
            pv == path_parts(p@),
            dots@ == ".."@,
            forall|j: int| 0 <= j < i ==> pv[j] != ".."@,
        decreases parts.len() - i,
    {
        if eq_chars(&parts[i], &dots) {
            assert(pv[i as int] == ".."@);
            return true;
        }
        i = i + 1;
    }
    false
}

/// Checks an archive entry before it is unpacked: `path` is the entry's
/// path, `is_link` whether it is a symbolic or hard link, and `link_target`
/// the target the link names, when it can be read.
pub fn archive_entry_error(path: &str, is_link: bool, link_target: Option<&str>) -> (r: Option<String>)
    ensures
        match archive_entry_error_of(path@, is_link, match link_target { Some(t) => Some(t@), None => None }) {
            Some(e) => r matches Some(m) && m@ == e,
            None => r is None,
        },
{
    let p = str_chars(path);
    if absolute_chars(&p) {
        let mut e = "Archive contains absolute path: ".to_owned();
        e.append(path);
        return Some(e);
    }
    if parent_component_chars(&p) {
        let mut e = "Archive contains path traversal: ".to_owned();
        e.append(path);
        return Some(e);
    }
    if is_link {
        if let Some(t) = link_target {
            let tc = str_chars(t);
            if absolute_chars(&tc) || parent_component_chars(&tc) {
                let mut e = "Archive contains suspicious link: ".to_owned();
                e.append(path);
                e.append(" -> ");
                e.append(t);
                return Some(e);
            }
        }
    }
    None
}

} // verus!
