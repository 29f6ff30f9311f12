//! Runtimes, and the parsing of the dependency manifests of each.

use vstd::prelude::*;
use crate::text::{
    eq_chars, first_word, first_word_chars, has_char, has_char_chars, lines, lines_chars,
    split_all, split_all_chars, starts_with, starts_with_chars, str_chars, str_eq,
    string_from_chars, strip_prefix, strip_prefix_chars, take_until_any, take_until_any_chars,
    trim, trim_chars, trim_end_matches, trim_end_matches_chars, trim_matches, trim_matches_chars,
    views,
};

verus! {

/// The language runtime of a project.
#[derive(PartialEq, Eq, Structural, Clone, Copy, Debug)]
pub enum Runtime {
    Python,
    Node,
    Go,
    Rust,
    Shell,
    Unknown,
}

/// The runtime a name designates; `Unknown` for any other name.
pub open spec fn runtime_named(s: Seq<char>) -> Runtime {
    if s == "python"@ {
        Runtime::Python
    } else if s == "node"@ {
        Runtime::Node
    } else if s == "go"@ {
        Runtime::Go
    } else if s == "rust"@ {
        Runtime::Rust
    } else if s == "shell"@ {
        Runtime::Shell
    } else {
        Runtime::Unknown
    }
}

/// Parses a runtime name (from the protocol) into a `Runtime`.
pub fn parse_runtime(s: &str) -> (r: Runtime)
    ensures
        r == runtime_named(s@),
{
    if str_eq(s, "python") {
        Runtime::Python
    } else if str_eq(s, "node") {
        Runtime::Node
    } else if str_eq(s, "go") {
        Runtime::Go
    } else if str_eq(s, "rust") {
        Runtime::Rust
    } else if str_eq(s, "shell") {
        Runtime::Shell
    } else {
        Runtime::Unknown
    }
}

impl Runtime {
    /// The runtime's name as the protocol writes it.
    pub fn as_str(&self) -> (s: &'static str)
        ensures
            s@ == match *self {
                Runtime::Python => "python"@,
                Runtime::Node => "node"@,
                Runtime::Go => "go"@,
                Runtime::Rust => "rust"@,
                Runtime::Shell => "shell"@,
                Runtime::Unknown => "unknown"@,
            },
    {
        match self {
            Runtime::Python => "python",
            Runtime::Node => "node",
            Runtime::Go => "go",
            Runtime::Rust => "rust",
            Runtime::Shell => "shell",
            Runtime::Unknown => "unknown",
        }
    }
}

/// The characters that end a package name in a version requirement.
pub open spec fn version_stops() -> Seq<char> {
    seq!['=', '>', '<', '!', '~', ';', '[']
}

fn version_stop_chars() -> (v: Vec<char>)
    ensures
        v@ == version_stops(),
{
    let v = vec!['=', '>', '<', '!', '~', ';', '['];
    assert(v@ == version_stops());
    v
}

/// The results of `f` on the lines where it gives one, in order.
pub open spec fn collect_some(ls: Seq<Seq<char>>, f: spec_fn(Seq<char>) -> Option<Seq<char>>) -> Seq<Seq<char>>
    decreases ls.len(),
{
    if ls.len() == 0 {
        seq![]
    } else {
        let r = collect_some(ls.drop_last(), f);
        match f(ls.last()) {
            Some(x) => r.push(x),
            None => r,
        }
    }
}

/// The package a `requirements.txt` line names: blank, comment (`#`) and
/// option (`-`) lines name none; the name ends at a version specifier.
pub open spec fn requirement_name(line: Seq<char>) -> Option<Seq<char>> {
    let l = trim(line);
    if l.len() == 0 || l[0] == '#' || l[0] == '-' {
        None
    } else {
        Some(trim(take_until_any(l, version_stops())))
    }
}

pub open spec fn string_views(v: Seq<String>) -> Seq<Seq<char>> {
    v.map_values(|s: String| s@)
}

/// Parses `requirements.txt`: one package per line, comments and options
/// ignored, version specifiers stripped.
pub fn parse_requirements_txt(content: &str) -> (deps: Vec<String>)
    ensures
        string_views(deps@) == collect_some(lines(content@), |l: Seq<char>| requirement_name(l)),
{
    let ls = lines_chars(&str_chars(content));
    let stops = version_stop_chars();
    let ghost f = |l: Seq<char>| requirement_name(l);
    let mut deps: Vec<String> = Vec::new();
    let mut i: usize = 0;
    while i < ls.len()
        invariant
            i <= ls.len(),
            views(ls@) == lines(content@),
            stops@ == version_stops(),
            f == (|l: Seq<char>| requirement_name(l)),
            string_views(deps@) == collect_some(views(ls@).take(i as int), f),
        decreases ls.len() - i,
    {
        assert(views(ls@).take(i + 1).drop_last() == views(ls@).take(i as int));
        assert(views(ls@)[i as int] == ls@[i as int]@);
        let l = trim_chars(&ls[i]);
        if !(l.len() == 0 || l[0] == '#' || l[0] == '-') {
            let name = trim_chars(&take_until_any_chars(&l, &stops));
            deps.push(string_from_chars(&name));
        }
        i = i + 1;
    }
    assert(views(ls@).take(ls.len() as int) == views(ls@));
    deps
}

/// One line of `Cargo.toml` read into the state (inside `[dependencies]`,
/// names found so far).
pub open spec fn cargo_step(st: (bool, Seq<Seq<char>>), line: Seq<char>) -> (bool, Seq<Seq<char>>) {
    let (in_deps, deps) = st;
    let t = trim(line);
    if t == "[dependencies]"@ {
        (true, deps)
    } else if t.len() > 0 && t[0] == '[' {
        (false, deps)
    } else if in_deps && t.len() > 0 && t[0] != '#' {
        let name = trim(take_until_any(t, seq!['=']));
        (in_deps, if name.len() > 0 { deps.push(name) } else { deps })
    } else {
        (in_deps, deps)
    }
}

pub open spec fn cargo_fold(ls: Seq<Seq<char>>) -> (bool, Seq<Seq<char>>)
    decreases ls.len(),
{
    if ls.len() == 0 {
        (false, seq![])
    } else {
        cargo_step(cargo_fold(ls.drop_last()), ls.last())
    }
}

/// Parses `Cargo.toml`: the keys of the `[dependencies]` table.
pub fn parse_cargo_toml(content: &str) -> (deps: Vec<String>)
    ensures
        string_views(deps@) == cargo_fold(lines(content@)).1,
{
    let ls = lines_chars(&str_chars(content));
    let header = str_chars("[dependencies]");
    let eq = vec!['='];
    assert(eq@ == seq!['=']);
    let mut in_deps = false;
    let mut deps: Vec<String> = Vec::new();
    let mut i: usize = 0;
    while i < ls.len()
        invariant
            i <= ls.len(),
            views(ls@) == lines(content@),
            header@ == "[dependencies]"@,
            eq@ == seq!['='],
            (in_deps, string_views(deps@)) == cargo_fold(views(ls@).take(i as int)),
        decreases ls.len() - i,
    {
        assert(views(ls@).take(i + 1).drop_last() == views(ls@).take(i as int));
        assert(views(ls@)[i as int] == ls@[i as int]@);
        let t = trim_chars(&ls[i]);
        if eq_chars(&t, &header) {
            in_deps = true;
        } else if t.len() > 0 && t[0] == '[' {
            in_deps = false;
        } else if in_deps && t.len() > 0 && t[0] != '#' {
            let name = trim_chars(&take_until_any_chars(&t, &eq));
            if name.len() > 0 {
                deps.push(string_from_chars(&name));
            }
        }
        i = i + 1;
    }
    assert(views(ls@).take(ls.len() as int) == views(ls@));
    deps
}

/// One line of `go.mod` read into the state (inside a `require (` block,
/// modules found so far).
pub open spec fn go_mod_step(st: (bool, Seq<Seq<char>>), line: Seq<char>) -> (bool, Seq<Seq<char>>) {
    let (in_req, deps) = st;
    let t = trim(line);
    if t == "require ("@ {
        (true, deps)
    } else if t == ")"@ {
        (false, deps)
    } else {
        let d1 = if in_req {
            match first_word(t) {
                Some(m) => if !starts_with(m, "//"@) { deps.push(m) } else { deps },
                None => deps,
            }
        } else {
            deps
        };
        let d2 = match strip_prefix(t, "require "@) {
            Some(rest) => if !(rest.len() > 0 && rest[0] == '(') {
                match first_word(rest) {
                    Some(m) => d1.push(m),
                    None => d1,
                }
            } else {
                d1
            },
            None => d1,
        };
        (in_req, d2)
    }
}

pub open spec fn go_mod_fold(ls: Seq<Seq<char>>) -> (bool, Seq<Seq<char>>)
    decreases ls.len(),
{
    if ls.len() == 0 {
        (false, seq![])
    } else {
        go_mod_step(go_mod_fold(ls.drop_last()), ls.last())
    }
}

/// Parses `go.mod`: the modules of `require` directives, in a block or on a
/// single line.
pub fn parse_go_mod(content: &str) -> (deps: Vec<String>)
    ensures
        string_views(deps@) == go_mod_fold(lines(content@)).1,
{
    let ls = lines_chars(&str_chars(content));
    let open_block = str_chars("require (");
    let close_block = str_chars(")");
    let comment = str_chars("//");
    let require = str_chars("require ");
    let mut in_req = false;
    let mut deps: Vec<String> = Vec::new();
    let mut i: usize = 0;
    while i < ls.len()
        invariant
            i <= ls.len(),
            views(ls@) == lines(content@),
            open_block@ == "require ("@,
            close_block@ == ")"@,
            comment@ == "//"@,
            require@ == "require "@,
            (in_req, string_views(deps@)) == go_mod_fold(views(ls@).take(i as int)),
        decreases ls.len() - i,
    {
        assert(views(ls@).take(i + 1).drop_last() == views(ls@).take(i as int));
        assert(views(ls@)[i as int] == ls@[i as int]@);
        let t = trim_chars(&ls[i]);
        if eq_chars(&t, &open_block) {
            in_req = true;
        } else if eq_chars(&t, &close_block) {
            in_req = false;
        } else {
            if in_req {
                if let Some(m) = first_word_chars(&t) {
                    if !starts_with_chars(&m, &comment) {
                        deps.push(string_from_chars(&m));
                    }
                }
            }
            if let Some(rest) = strip_prefix_chars(&t, &require) {
                if !(rest.len() > 0 && rest[0] == '(') {
                    if let Some(m) = first_word_chars(&rest) {
                        deps.push(string_from_chars(&m));
                    }
                }
            }
        }
        i = i + 1;
    }
    assert(views(ls@).take(ls.len() as int) == views(ls@));
    deps
}

/// The package name of a dependency string, if it has one: the text up to
/// the first version specifier, trimmed.
pub open spec fn dep_name(dep: Seq<char>) -> Option<Seq<char>> {
    if dep.len() == 0 {
        None
    } else {
        let name = trim(take_until_any(dep, version_stops()));
        if name.len() > 0 {
            Some(name)
        } else {
            None
        }
    }
}

/// An item of an inline `dependencies = [...]` array.
pub open spec fn inline_dep(item: Seq<char>) -> Option<Seq<char>> {
    dep_name(trim_matches(trim_matches(trim(item), '"'), '\''))
}

/// A line inside a multi-line `dependencies = [` array.
pub open spec fn block_dep(t: Seq<char>) -> Option<Seq<char>> {
    dep_name(trim_matches(trim_matches(trim_matches(t, ','), '"'), '\''))
}

/// One line of `pyproject.toml` read into the state (inside the
/// dependencies array, names found so far).
pub open spec fn pyproject_step(st: (bool, Seq<Seq<char>>), line: Seq<char>) -> (bool, Seq<Seq<char>>) {
    let (in_deps, deps) = st;
    let t = trim(line);
    if starts_with(t, "dependencies = ["@) {
        let rest = t.skip(16);
        let items = split_all(trim_end_matches(rest, ']'), ',');
        (!has_char(rest, ']'), deps + collect_some(items, |x: Seq<char>| inline_dep(x)))
    } else if in_deps {
        if t == "]"@ {
            (false, deps)
        } else {
            (true, match block_dep(t) {
                Some(n) => deps.push(n),
                None => deps,
            })
        }
    } else {
        (in_deps, deps)
    }
}

pub open spec fn pyproject_fold(ls: Seq<Seq<char>>) -> (bool, Seq<Seq<char>>)
    decreases ls.len(),
{
    if ls.len() == 0 {
        (false, seq![])
    } else {
        pyproject_step(pyproject_fold(ls.drop_last()), ls.last())
    }
}

fn dep_name_chars(dep: &Vec<char>, stops: &Vec<char>) -> (r: Option<Vec<char>>)
    requires
        stops@ == version_stops(),
    ensures
        r matches Some(n) ==> dep_name(dep@) == Some(n@),
        r is None ==> dep_name(dep@) is None,
{
    if dep.len() == 0 {
        return None;
    }
    let name = trim_chars(&take_until_any_chars(dep, stops));
    if name.len() > 0 {
        Some(name)
    } else {
        None
    }
}

/// Parses `pyproject.toml`: the names in its `dependencies = [...]` array,
/// inline or spread over lines.
pub fn parse_pyproject_toml(content: &str) -> (deps: Vec<String>)
    ensures
        string_views(deps@) == pyproject_fold(lines(content@)).1,
{
    proof {
        reveal_strlit("dependencies = [");
    }
    let ls = lines_chars(&str_chars(content));
    let header = str_chars("dependencies = [");
    let close = str_chars("]");
    let stops = version_stop_chars();
    let ghost fi = |x: Seq<char>| inline_dep(x);
    let mut in_deps = false;
    let mut deps: Vec<String> = Vec::new();
    let mut i: usize = 0;
    while i < ls.len()
        invariant
            i <= ls.len(),
            views(ls@) == lines(content@),
            header@ == "dependencies = ["@,
            header@.len() == 16,
            close@ == "]"@,
            stops@ == version_stops(),
            fi == (|x: Seq<char>| inline_dep(x)),
            (in_deps, string_views(deps@)) == pyproject_fold(views(ls@).take(i as int)),
        decreases ls.len() - i,
    {
        assert(views(ls@).take(i + 1).drop_last() == views(ls@).take(i as int));
        assert(views(ls@)[i as int] == ls@[i as int]@);
        let t = trim_chars(&ls[i]);
        if starts_with_chars(&t, &header) {
            let rest = slice_rest(&t, 16);
            let items = split_all_chars(&trim_end_matches_chars(&rest, ']'), ',');
            let ghost d0 = string_views(deps@);
            let mut k: usize = 0;
            while k < items.len()
                invariant
                    k <= items.len(),
                    stops@ == version_stops(),
                    fi == (|x: Seq<char>| inline_dep(x)),
                    string_views(deps@) == d0 + collect_some(views(items@).take(k as int), fi),
                decreases items.len() - k,
            {
                assert(views(items@).take(k + 1).drop_last() == views(items@).take(k as int));
                assert(views(items@)[k as int] == items@[k as int]@);
                let ghost c0 = collect_some(views(items@).take(k as int), fi);
                assert(fi(items@[k as int]@) == inline_dep(items@[k as int]@));
                let dep = trim_matches_chars(&trim_matches_chars(&trim_chars(&items[k]), '"'), '\'');
                if let Some(n) = dep_name_chars(&dep, &stops) {
                    deps.push(string_from_chars(&n));
                    assert(d0 + c0.push(n@) == (d0 + c0).push(n@));
                }
                k = k + 1;
            }
            assert(views(items@).take(items.len() as int) == views(items@));
            in_deps = !has_char_chars(&rest, ']');
        } else if in_deps {
            if eq_chars(&t, &close) {
                in_deps = false;
            } else {
                let dep = trim_matches_chars(&trim_matches_chars(&trim_matches_chars(&t, ','), '"'), '\'');
                if let Some(n) = dep_name_chars(&dep, &stops) {
                    deps.push(string_from_chars(&n));
                }
            }
        }
        i = i + 1;
    }
    assert(views(ls@).take(ls.len() as int) == views(ls@));
    deps
}

fn slice_rest(v: &Vec<char>, from: usize) -> (r: Vec<char>)
    requires
        from <= v.len(),
    ensures
        r@ == v@.skip(from as int),
{
    let r = crate::text::slice_chars(v, from, v.len());
    assert(r@ == v@.skip(from as int));
    r
}

} // verus!
