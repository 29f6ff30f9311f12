//! Path sanitization that keeps user-supplied names from escaping the
//! directories they are meant for.

use vstd::prelude::*;
use crate::text::{
    contains, has_char, has_char_chars, contains_chars, is_control, is_control_char, str_chars, alphanumeric,
    is_alphanumeric_char,
};

verus! {

/// The reason a project name is refused, if it is.
pub open spec fn project_name_error(name: Seq<char>) -> Option<Seq<char>> {
    if name.len() == 0 {
        Some("Project name cannot be empty"@)
    } else if crate::env::byte_len(name) > 128 {
        Some("Project name too long (max 128 characters)"@)
    } else if has_char(name, '/') || has_char(name, '\\') {
        Some("Project name cannot contain path separators"@)
    } else if contains(name, ".."@) {
        Some("Project name cannot contain '..'"@)
    } else if has_char(name, '\0') {
        Some("Project name cannot contain null bytes"@)
    } else if exists|i: int| 0 <= i < name.len() && is_control(#[trigger] name[i]) {
        Some("Project name cannot contain control characters"@)
    } else if exists|i: int| 0 <= i < name.len() && !name_char_allowed(#[trigger] name[i]) {
        Some("Project name can only contain letters, digits, '-', '_', '.' and spaces"@)
    } else {
        None
    }
}

/// The characters a project name may hold: alphanumeric (as
/// `char::is_alphanumeric` judges), `-`, `_`, `.` and space.
pub open spec fn name_char_allowed(c: char) -> bool {
    alphanumeric(c) || c == '-' || c == '_' || c == '.' || c == ' '
}

fn has_disallowed_name_char(v: &Vec<char>) -> (b: bool)
    ensures
        b == exists|i: int| 0 <= i < v@.len() && !name_char_allowed(#[trigger] v@[i]),
{
    let mut i: usize = 0;
    while i < v.len()
        invariant
            i <= v.len(),
            forall|j: int| 0 <= j < i ==> name_char_allowed(#[trigger] v@[j]),
        decreases v.len() - i,
    {
        let c = v[i];
        if !(is_alphanumeric_char(c) || c == '-' || c == '_' || c == '.' || c == ' ') {
            return true;
        }
        i = i + 1;
    }
    false
}

fn has_control_char(v: &Vec<char>) -> (b: bool)
    ensures
        b == exists|i: int| 0 <= i < v@.len() && is_control(#[trigger] v@[i]),
{
    let mut i: usize = 0;
    while i < v.len()
        invariant
            i <= v.len(),
            forall|j: int| 0 <= j < i ==> !is_control(#[trigger] v@[j]),
        decreases v.len() - i,
    {
        if is_control_char(v[i]) {
            return true;
        }
        i = i + 1;
    }
    false
}

/// Sanitizes a project name for use in filesystem paths.
///
/// Refuses empty names, names over 128 bytes, names with path separators,
/// `..`, null bytes or control characters, and names with any character but
/// alphanumerics, `-`, `_`, `.` and space; returns the name unchanged
/// otherwise.
pub fn sanitize_project_name(name: &str) -> (r: Result<String, String>)
    ensures
        r matches Ok(s) ==> project_name_error(name@) is None && s@ == name@,
        r matches Err(e) ==> project_name_error(name@) == Some(e@),
{
    let v = str_chars(name);
    if v.len() == 0 {
        return Err("Project name cannot be empty".to_owned());
    }
    if name.len() > 128 {
        return Err("Project name too long (max 128 characters)".to_owned());
    }
    if has_char_chars(&v, '/') || has_char_chars(&v, '\\') {
        return Err("Project name cannot contain path separators".to_owned());
    }
    if contains_chars(&v, &str_chars("..")) {
        return Err("Project name cannot contain '..'".to_owned());
    }
    if has_char_chars(&v, '\0') {
        return Err("Project name cannot contain null bytes".to_owned());
    }
    if has_control_char(&v) {
        return Err("Project name cannot contain control characters".to_owned());
    }
    if has_disallowed_name_char(&v) {
        return Err("Project name can only contain letters, digits, '-', '_', '.' and spaces".to_owned());
    }
    Ok(name.to_owned())
}

/// The reason an entrypoint is refused, if it is.
pub open spec fn entrypoint_error(e: Seq<char>) -> Option<Seq<char>> {
    if e.len() == 0 {
        Some("Entrypoint cannot be empty"@)
    } else if contains(e, ".."@) {
        Some("Entrypoint cannot contain '..' (directory traversal)"@)
    } else if e[0] == '/' || e[0] == '\\' {
        Some("Entrypoint must be a relative path"@)
    } else if has_char(e, '\0') {
        Some("Entrypoint cannot contain null bytes"@)
    } else {
        None
    }
}

/// Sanitizes an entrypoint path: it must be relative and free of
/// directory traversal.
pub fn sanitize_entrypoint(entrypoint: &str) -> (r: Result<String, String>)
    ensures
        r matches Ok(s) ==> entrypoint_error(entrypoint@) is None && s@ == entrypoint@,
        r matches Err(e) ==> entrypoint_error(entrypoint@) == Some(e@),
{
    let v = str_chars(entrypoint);
    if v.len() == 0 {
        return Err("Entrypoint cannot be empty".to_owned());
    }
    if contains_chars(&v, &str_chars("..")) {
        return Err("Entrypoint cannot contain '..' (directory traversal)".to_owned());
    }
    if v[0] == '/' || v[0] == '\\' {
        return Err("Entrypoint must be a relative path".to_owned());
    }
    if has_char_chars(&v, '\0') {
        return Err("Entrypoint cannot contain null bytes".to_owned());
    }
    Ok(entrypoint.to_owned())
}

/// The reason a file name is refused, if it is.
pub open spec fn filename_error(name: Seq<char>) -> Option<Seq<char>> {
    if name.len() == 0 {
        Some("Filename cannot be empty"@)
    } else if has_char(name, '/') || has_char(name, '\\') {
        Some("Filename cannot contain path separators"@)
    } else if contains(name, ".."@) {
        Some("Filename cannot contain '..'"@)
    } else if has_char(name, '\0') {
        Some("Filename cannot contain null bytes"@)
    } else {
        None
    }
}

/// Sanitizes a file name: no path separators, `..` or null bytes.
pub fn sanitize_filename(name: &str) -> (r: Result<String, String>)
    ensures
        r matches Ok(s) ==> filename_error(name@) is None && s@ == name@,
        r matches Err(e) ==> filename_error(name@) == Some(e@),
{
    let v = str_chars(name);
    if v.len() == 0 {
        return Err("Filename cannot be empty".to_owned());
    }
    if has_char_chars(&v, '/') || has_char_chars(&v, '\\') {
        return Err("Filename cannot contain path separators".to_owned());
    }
    if contains_chars(&v, &str_chars("..")) {
        return Err("Filename cannot contain '..'".to_owned());
    }
    if has_char_chars(&v, '\0') {
        return Err("Filename cannot contain null bytes".to_owned());
    }
    Ok(name.to_owned())
}

/// A path component that `Path::components` keeps: not empty, not `.`.
pub open spec fn kept_part(p: Seq<char>) -> bool {
    p.len() > 0 && p != "."@
}

/// The kept components before the last `/`, and the characters after it.
pub open spec fn parts_acc(s: Seq<char>) -> (Seq<Seq<char>>, Seq<char>)
    decreases s.len(),
{
    if s.len() == 0 {
        (seq![], seq![])
    } else {
        let (done, cur) = parts_acc(s.drop_last());
        if s.last() == '/' {
            (if kept_part(cur) { done.push(cur) } else { done }, seq![])
        } else {
            (done, cur.push(s.last()))
        }
    }
}

/// The normal components of an absolute Unix path, as `Path::components`
/// yields them after the root.
pub open spec fn path_parts(s: Seq<char>) -> Seq<Seq<char>> {
    let (done, cur) = parts_acc(s);
    if kept_part(cur) {
        done.push(cur)
    } else {
        done
    }
}

/// `Path::starts_with` on absolute paths: the components of `base` are a
/// prefix of those of `target`.
pub open spec fn path_starts_with(target: Seq<char>, base: Seq<char>) -> bool {
    let t = path_parts(target);
    let b = path_parts(base);
    b.len() <= t.len() && t.take(b.len() as int) == b
}

fn is_kept_part(p: &Vec<char>) -> (b: bool)
    ensures
        b == kept_part(p@),
{
    proof {
        reveal_strlit(".");
        if p@.len() == 1 && p@[0] == '.' {
            assert(p@ =~= "."@);
        }
    }
    p.len() > 0 && !(p.len() == 1 && p[0] == '.')
}

pub(crate) fn path_parts_of(s: &Vec<char>) -> (r: Vec<Vec<char>>)
    ensures
        crate::text::views(r@) == path_parts(s@),
{
    let mut done: Vec<Vec<char>> = Vec::new();
    let mut cur: Vec<char> = Vec::new();
    let mut i: usize = 0;
    while i < s.len()
        invariant
            i <= s.len(),
            parts_acc(s@.take(i as int)) == (crate::text::views(done@), cur@),
        decreases s.len() - i,
    {
        assert(s@.take(i + 1).drop_last() == s@.take(i as int));
        if s[i] == '/' {
            if is_kept_part(&cur) {
                done.push(cur);
            }
            cur = Vec::new();
        } else {
            cur.push(s[i]);
        }
        i = i + 1;
    }
    assert(s@.take(s.len() as int) == s@);
    if is_kept_part(&cur) {
        done.push(cur);
    }
    done
}

/// Whether the absolute path `target` lies within the absolute path `base`,
/// compared component by component as `Path::starts_with` does.
pub fn path_is_within(base: &str, target: &str) -> (b: bool)
    ensures
        b == path_starts_with(target@, base@),
{
    let bp = path_parts_of(&str_chars(base));
    let tp = path_parts_of(&str_chars(target));
    if bp.len() > tp.len() {
        return false;
    }
    let mut i: usize = 0;
    while i < bp.len()
        invariant
            bp.len() <= tp.len(),
            i <= bp.len(),
            crate::text::views(bp@) == path_parts(base@),
            crate::text::views(tp@) == path_parts(target@),
            forall|j: int| 0 <= j < i ==> bp@[j]@ == tp@[j]@,
        decreases bp.len() - i,
    {
        if !crate::text::eq_chars(&bp[i], &tp[i]) {
            assert(path_parts(target@).take(bp.len() as int)[i as int] != path_parts(base@)[i as int]);
            return false;
        }
        i = i + 1;
    }
    assert(path_parts(target@).take(bp.len() as int) == path_parts(base@));
    true
}

/// The components left after resolving `..` against the ones before it, as
/// the operating system resolves them: `..` drops the component before it,
/// and at the root it stays at the root.
pub open spec fn resolve_dots(parts: Seq<Seq<char>>) -> Seq<Seq<char>>
    decreases parts.len(),
{
    if parts.len() == 0 {
        seq![]
    } else {
        let r = resolve_dots(parts.drop_last());
        if parts.last() == ".."@ {
            if r.len() > 0 {
                r.drop_last()
            } else {
                r
            }
        } else {
            r.push(parts.last())
        }
    }
}

/// The components of an absolute path once `.` and `..` are resolved.
pub open spec fn resolved_parts(s: Seq<char>) -> Seq<Seq<char>> {
    resolve_dots(path_parts(s))
}

/// Whether the absolute path `target`, once `.` and `..` are resolved, lies
/// within the resolved absolute path `base`.
pub open spec fn resolved_within(target: Seq<char>, base: Seq<char>) -> bool {
    let t = resolved_parts(target);
    let b = resolved_parts(base);
    b.len() <= t.len() && t.take(b.len() as int) == b
}

fn resolved_parts_of(s: &str) -> (r: Vec<Vec<char>>)
    ensures
        crate::text::views(r@) == resolved_parts(s@),
{
    let parts = path_parts_of(&str_chars(s));
    let dots = str_chars("..");
    let mut out: Vec<Vec<char>> = Vec::new();
    let mut i: usize = 0;
    while i < parts.len()
        invariant
            i <= parts.len(),
            dots@ == ".."@,
            crate::text::views(parts@) == path_parts(s@),
            crate::text::views(out@) == resolve_dots(crate::text::views(parts@).take(i as int)),
        decreases parts.len() - i,
    {
        let ghost pv = crate::text::views(parts@);
        assert(pv.take(i + 1).drop_last() == pv.take(i as int));
        assert(pv.take(i + 1).last() == parts@[i as int]@);
        let ghost before = crate::text::views(out@);
        if crate::text::eq_chars(&parts[i], &dots) {
            if out.len() > 0 {
                out.pop();
                assert(crate::text::views(out@) =~= before.drop_last());
            }
        } else {
            out.push(parts[i].clone());
            assert(crate::text::views(out@) =~= before.push(parts@[i as int]@));
        }
        i = i + 1;
    }
    assert(crate::text::views(parts@).take(parts.len() as int) == crate::text::views(parts@));
    out
}

/// Whether the absolute path `target` lies within the absolute path `base`
/// once `.` and `..` are resolved in both, compared component by component.
pub fn resolved_path_is_within(base: &str, target: &str) -> (b: bool)
    ensures
        b == resolved_within(target@, base@),
{
    let bp = resolved_parts_of(base);
    let tp = resolved_parts_of(target);
    if bp.len() > tp.len() {
        return false;
    }
    let mut i: usize = 0;
    while i < bp.len()
        invariant
            bp.len() <= tp.len(),
            i <= bp.len(),
            crate::text::views(bp@) == resolved_parts(base@),
            crate::text::views(tp@) == resolved_parts(target@),
            forall|j: int| 0 <= j < i ==> bp@[j]@ == tp@[j]@,
        decreases bp.len() - i,
    {
        if !crate::text::eq_chars(&bp[i], &tp[i]) {
            assert(resolved_parts(target@).take(bp.len() as int)[i as int] != resolved_parts(base@)[i as int]);
            return false;
        }
        i = i + 1;
    }
    assert(resolved_parts(target@).take(bp.len() as int) == resolved_parts(base@));
    true
}

/// The error of a path that resolves outside its base directory.
pub open spec fn outside_error(base: Seq<char>, target: Seq<char>) -> Seq<char> {
    "Path '"@ + target + "' is outside the allowed directory '"@ + base + "'"@
}

/// Validates that a resolved path is within the expected base directory.
///
/// `canonical_base` and `canonical_target` are the results of
/// canonicalizing `base` and `target` (the canonical path, or the error's
/// message). Returns the canonical target when it lies within the canonical
/// base, compared component by component.
pub fn validate_path_within(
    base: &str,
    target: &str,
    canonical_base: Result<String, String>,
    canonical_target: Result<String, String>,
) -> (r: Result<String, String>)
    requires
        canonical_base matches Ok(b) ==> b@.len() > 0 && b@[0] == '/',
        canonical_target matches Ok(t) ==> t@.len() > 0 && t@[0] == '/',
    ensures
        canonical_base matches Err(e) ==> r matches Err(m) && m@ == "Invalid base path '"@ + base@ + "': "@ + e@,
        canonical_base matches Ok(b) ==> match canonical_target {
            Err(e) => r matches Err(m) && m@ == "Invalid path '"@ + target@ + "': "@ + e@,
            Ok(t) => if path_starts_with(t@, b@) {
                r matches Ok(p) && p@ == t@
            } else {
                r matches Err(m) && m@ == outside_error(base@, target@)
            },
        },
{
    let cb = match canonical_base {
        Ok(b) => b,
        Err(e) => {
            let mut m = "Invalid base path '".to_owned();
            m.append(base);
            m.append("': ");
            m.append(e.as_str());
            return Err(m);
        },
    };
    let ct = match canonical_target {
        Ok(t) => t,
        Err(e) => {
            let mut m = "Invalid path '".to_owned();
            m.append(target);
            m.append("': ");
            m.append(e.as_str());
            return Err(m);
        },
    };
    if !path_is_within(cb.as_str(), ct.as_str()) {
        let mut m = "Path '".to_owned();
        m.append(target);
        m.append("' is outside the allowed directory '");
        m.append(base);
        m.append("'");
        return Err(m);
    }
    Ok(ct)
}

} // verus!
