//! Runtime detection: which language a project is written in, its
//! entrypoint and its dependencies, from the files it holds.
//!
//! The directory itself is read by the caller; this module decides from
//! what was found.

use vstd::prelude::*;
use crate::runtime::{
    Runtime, parse_requirements_txt, parse_pyproject_toml, parse_go_mod, parse_cargo_toml,
    requirement_name, collect_some, cargo_fold, go_mod_fold, pyproject_fold, string_views,
};
use crate::text::{lines, str_chars, eq_chars, str_eq};

verus! {

/// The dependency manifest of a Node project, as read from `package.json`.
pub struct PackageManifest {
    /// Keys of `dependencies`, in document order.
    pub dependencies: Vec<String>,
    /// Keys of `devDependencies`, in document order.
    pub dev_dependencies: Vec<String>,
    /// The `scripts` whose values are strings.
    pub scripts: Vec<(String, String)>,
}

/// What a project directory holds, as far as detection looks.
pub struct ProjectDir {
    /// The paths of `probe_paths()` that exist in the directory.
    pub existing: Vec<String>,
    /// The names of the directory's entries, in the order the directory
    /// lists them (none when it cannot be read).
    pub entries: Vec<String>,
    /// The content of each manifest file that could be read, by name.
    pub manifests: Vec<(String, String)>,
    /// `package.json`, when it exists and parses as JSON.
    pub package_json: Option<PackageManifest>,
}

/// The result of runtime detection. Confidence is in hundredths.
pub struct RuntimeInfo {
    pub runtime: Runtime,
    pub version_file: Option<String>,
    pub entrypoint: Option<String>,
    pub confidence_pct: u8,
    pub dependencies: Vec<String>,
    pub scripts: Vec<(String, String)>,
}

/// The paths whose existence detection depends on.
pub open spec fn probe_list() -> Seq<Seq<char>> {
    seq![
        "requirements.txt"@, "pyproject.toml"@, "setup.py"@, "package.json"@, "go.mod"@,
        "Cargo.toml"@, "main.py"@, "app.py"@, "run.py"@, "__main__.py"@, "index.js"@,
        "index.ts"@, "main.js"@, "main.ts"@, "app.js"@, "app.ts"@, "main.go"@,
        "cmd/main.go"@, "src/main.rs"@, "run.sh"@, "start.sh"@, "main.sh"@,
    ]
}

/// The paths whose existence the caller is to report in `existing`.
pub fn probe_paths() -> (v: Vec<&'static str>)
    ensures
        v@.map_values(|s: &str| s@) == probe_list(),
{
    let v = vec![
        "requirements.txt", "pyproject.toml", "setup.py", "package.json", "go.mod",
        "Cargo.toml", "main.py", "app.py", "run.py", "__main__.py", "index.js",
        "index.ts", "main.js", "main.ts", "app.js", "app.ts", "main.go",
        "cmd/main.go", "src/main.rs", "run.sh", "start.sh", "main.sh",
    ];
    assert(v@.map_values(|s: &str| s@) == probe_list());
    v
}

/// The first of `cands` that exists.
pub open spec fn first_existing(existing: Seq<Seq<char>>, cands: Seq<Seq<char>>) -> Option<Seq<char>>
    decreases cands.len(),
{
    if cands.len() == 0 {
        None
    } else if existing.contains(cands[0]) {
        Some(cands[0])
    } else {
        first_existing(existing, cands.drop_first())
    }
}

/// The conventional entrypoints of each runtime, most likely first.
pub open spec fn entrypoint_candidates(rt: Runtime) -> Seq<Seq<char>> {
    match rt {
        Runtime::Python => seq!["main.py"@, "app.py"@, "run.py"@, "__main__.py"@],
        Runtime::Node => seq!["index.js"@, "index.ts"@, "main.js"@, "main.ts"@, "app.js"@, "app.ts"@],
        Runtime::Go => seq!["main.go"@, "cmd/main.go"@],
        Runtime::Rust => seq!["src/main.rs"@],
        Runtime::Shell => seq!["run.sh"@, "start.sh"@, "main.sh"@],
        Runtime::Unknown => seq![],
    }
}

pub open spec fn string_seq(v: Seq<String>) -> Seq<Seq<char>> {
    v.map_values(|s: String| s@)
}

fn path_exists(existing: &Vec<String>, p: &str) -> (b: bool)
    ensures
        b == string_seq(existing@).contains(p@),
{
    let mut i: usize = 0;
    while i < existing.len()
        invariant
            i <= existing.len(),
            forall|j: int| 0 <= j < i ==> string_seq(existing@)[j] != p@,
        decreases existing.len() - i,
    {
        assert(string_seq(existing@)[i as int] == existing@[i as int]@);
        if str_eq(existing[i].as_str(), p) {
            return true;
        }
        i = i + 1;
    }
    false
}

pub(crate) fn first_existing_names(existing: &Vec<String>, cands: &Vec<&'static str>) -> (r: Option<&'static str>)
    ensures
        r matches Some(c) ==> first_existing(string_seq(existing@), cands@.map_values(|s: &str| s@)) == Some(c@),
        r is None ==> first_existing(string_seq(existing@), cands@.map_values(|s: &str| s@)) is None,
{
    let ghost cv = cands@.map_values(|s: &str| s@);
    let mut i: usize = 0;
    assert(cv.skip(0) == cv);
    while i < cands.len()
        invariant
            i <= cands.len(),
            cv == cands@.map_values(|s: &str| s@),
            first_existing(string_seq(existing@), cv) == first_existing(string_seq(existing@), cv.skip(i as int)),
        decreases cands.len() - i,
    {
        let c = cands[i];
        assert(cv.skip(i as int).drop_first() == cv.skip(i + 1));
        assert(cv.skip(i as int)[0] == c@);
        if path_exists(existing, c) {
            return Some(c);
        }
        i = i + 1;
    }
    None
}

/// Finds the conventional entrypoint of a runtime among the existing files.
pub fn find_entrypoint(existing: &Vec<String>, runtime: Runtime) -> (r: Option<String>)
    ensures
        r matches Some(e) ==> first_existing(string_seq(existing@), entrypoint_candidates(runtime)) == Some(e@),
        r is None ==> first_existing(string_seq(existing@), entrypoint_candidates(runtime)) is None,
{
    let cands: Vec<&'static str> = match runtime {
        Runtime::Python => vec!["main.py", "app.py", "run.py", "__main__.py"],
        Runtime::Node => vec!["index.js", "index.ts", "main.js", "main.ts", "app.js", "app.ts"],
        Runtime::Go => vec!["main.go", "cmd/main.go"],
        Runtime::Rust => vec!["src/main.rs"],
        Runtime::Shell => vec!["run.sh", "start.sh", "main.sh"],
        Runtime::Unknown => vec![],
    };
    assert(cands@.map_values(|s: &str| s@) == entrypoint_candidates(runtime));
    match first_existing_names(existing, &cands) {
        Some(c) => Some(c.to_owned()),
        None => None,
    }
}

/// The index of the last occurrence of `c` in `s`.
pub open spec fn last_index(s: Seq<char>, c: char) -> Option<int>
    decreases s.len(),
{
    if s.len() == 0 {
        None
    } else if s.last() == c {
        Some(s.len() - 1)
    } else {
        last_index(s.drop_last(), c)
    }
}

/// `Path::extension` of a file name: the text after its last `.`, unless
/// that dot starts the name, or the name is `..`.
pub open spec fn extension(name: Seq<char>) -> Option<Seq<char>> {
    if name == ".."@ {
        None
    } else {
        match last_index(name, '.') {
            Some(i) => if i == 0 {
                None
            } else {
                Some(name.skip(i + 1))
            },
            None => None,
        }
    }
}

pub(crate) fn extension_of(name: &Vec<char>) -> (r: Option<Vec<char>>)
    ensures
        r matches Some(e) ==> extension(name@) == Some(e@),
        r is None ==> extension(name@) is None,
{
    if eq_chars(name, &str_chars("..")) {
        return None;
    }
    let mut i = name.len();
    assert(name@.take(i as int) == name@);
    while i > 0 && name[i - 1] != '.'
        invariant
            i <= name.len(),
            last_index(name@, '.') == last_index(name@.take(i as int), '.'),
        decreases i,
    {
        assert(name@.take(i as int).drop_last() == name@.take(i - 1));
        i = i - 1;
    }
    if i == 0 {
        assert(name@.take(0).len() == 0);
        return None;
    }
    assert(last_index(name@.take(i as int), '.') == Some(i - 1));
    if i == 1 {
        return None;
    }
    let e = crate::text::slice_chars(name, i, name.len());
    assert(e@ == name@.skip(i as int));
    Some(e)
}

/// Whether the file name has extension `ext`.
pub open spec fn has_extension(name: Seq<char>, ext: Seq<char>) -> bool {
    extension(name) == Some(ext)
}

/// The first name with extension `ext`.
pub open spec fn first_with_extension(names: Seq<Seq<char>>, ext: Seq<char>) -> Option<Seq<char>>
    decreases names.len(),
{
    if names.len() == 0 {
        None
    } else if has_extension(names[0], ext) {
        Some(names[0])
    } else {
        first_with_extension(names.drop_first(), ext)
    }
}

/// The name of the first directory entry with extension `ext`.
pub fn find_first_with_extension(entries: &Vec<String>, ext: &str) -> (r: Option<String>)
    ensures
        r matches Some(n) ==> first_with_extension(string_seq(entries@), ext@) == Some(n@),
        r is None ==> first_with_extension(string_seq(entries@), ext@) is None,
{
    let ghost names = string_seq(entries@);
    let ev = str_chars(ext);
    let mut i: usize = 0;
    assert(names.skip(0) == names);
    while i < entries.len()
        invariant
            i <= entries.len(),
            names == string_seq(entries@),
            ev@ == ext@,
            first_with_extension(names, ext@) == first_with_extension(names.skip(i as int), ext@),
        decreases entries.len() - i,
    {
        assert(names.skip(i as int).drop_first() == names.skip(i + 1));
        assert(names.skip(i as int)[0] == entries@[i as int]@);
        let nv = str_chars(entries[i].as_str());
        let hit = match extension_of(&nv) {
            Some(e) => eq_chars(&e, &ev),
            None => false,
        };
        if hit {
            return Some(entries[i].clone());
        }
        i = i + 1;
    }
    None
}

/// Whether any directory entry has extension `ext`.
pub fn has_files_with_extension(entries: &Vec<String>, ext: &str) -> (b: bool)
    ensures
        b == (first_with_extension(string_seq(entries@), ext@) is Some),
{
    match find_first_with_extension(entries, ext) {
        Some(_) => true,
        None => false,
    }
}

/// The runtime and confidence a file extension suggests.
pub open spec fn runtime_of_extension(ext: Seq<char>) -> (Runtime, u8) {
    if ext == "py"@ {
        (Runtime::Python, 95)
    } else if ext == "js"@ || ext == "ts"@ || ext == "mjs"@ {
        (Runtime::Node, 95)
    } else if ext == "go"@ {
        (Runtime::Go, 95)
    } else if ext == "rs"@ {
        (Runtime::Rust, 95)
    } else if ext == "sh"@ || ext == "bash"@ || ext == "zsh"@ {
        (Runtime::Shell, 95)
    } else {
        (Runtime::Unknown, 0)
    }
}

/// Detects the runtime of a single file from its extension.
pub fn detect_from_file(file_name: &str) -> (info: RuntimeInfo)
    ensures
        (info.runtime, info.confidence_pct) == runtime_of_extension(
            match extension(file_name@) {
                Some(e) => e,
                None => Seq::<char>::empty(),
            },
        ),
        info.version_file is None,
        info.entrypoint matches Some(e) && e@ == file_name@,
        info.dependencies@.len() == 0,
        info.scripts@.len() == 0,
{
    let name = str_chars(file_name);
    let ext = match extension_of(&name) {
        Some(e) => e,
        None => Vec::new(),
    };
    let e = crate::text::string_from_chars(&ext);
    let (runtime, confidence_pct) = if str_eq(e.as_str(), "py") {
        (Runtime::Python, 95u8)
    } else if str_eq(e.as_str(), "js") || str_eq(e.as_str(), "ts") || str_eq(e.as_str(), "mjs") {
        (Runtime::Node, 95u8)
    } else if str_eq(e.as_str(), "go") {
        (Runtime::Go, 95u8)
    } else if str_eq(e.as_str(), "rs") {
        (Runtime::Rust, 95u8)
    } else if str_eq(e.as_str(), "sh") || str_eq(e.as_str(), "bash") || str_eq(e.as_str(), "zsh") {
        (Runtime::Shell, 95u8)
    } else {
        (Runtime::Unknown, 0u8)
    };
    RuntimeInfo {
        runtime,
        version_file: None,
        entrypoint: Some(file_name.to_owned()),
        confidence_pct,
        dependencies: Vec::new(),
        scripts: Vec::new(),
    }
}

/// The manifest files that mark a runtime, in priority order.
pub open spec fn marker_list() -> Seq<Seq<char>> {
    seq!["requirements.txt"@, "pyproject.toml"@, "setup.py"@, "package.json"@, "go.mod"@, "Cargo.toml"@]
}

/// The runtime a manifest marks, and the entrypoint assumed when none of
/// the conventional ones exists.
pub open spec fn marker_info(m: Seq<char>) -> (Runtime, Seq<char>) {
    if m == "package.json"@ {
        (Runtime::Node, "index.js"@)
    } else if m == "go.mod"@ {
        (Runtime::Go, "main.go"@)
    } else if m == "Cargo.toml"@ {
        (Runtime::Rust, "src/main.rs"@)
    } else {
        (Runtime::Python, "main.py"@)
    }
}

/// Entrypoint files that mark a runtime on their own, in priority order.
pub open spec fn direct_list() -> Seq<Seq<char>> {
    seq![
        "main.py"@, "app.py"@, "run.py"@, "index.js"@, "index.ts"@, "main.js"@, "app.js"@,
        "main.go"@, "run.sh"@, "start.sh"@, "main.sh"@,
    ]
}

/// The runtime an entrypoint file of `direct_list` marks.
pub open spec fn direct_runtime(f: Seq<char>) -> Runtime {
    if f == "main.py"@ || f == "app.py"@ || f == "run.py"@ {
        Runtime::Python
    } else if f == "main.go"@ {
        Runtime::Go
    } else if f == "run.sh"@ || f == "start.sh"@ || f == "main.sh"@ {
        Runtime::Shell
    } else {
        Runtime::Node
    }
}

/// The content of the manifest named `name`, if it was read.
pub open spec fn manifest_of(ms: Seq<(String, String)>, name: Seq<char>) -> Option<Seq<char>>
    decreases ms.len(),
{
    if ms.len() == 0 {
        None
    } else if ms[0].0@ == name {
        Some(ms[0].1@)
    } else {
        manifest_of(ms.drop_first(), name)
    }
}

pub open spec fn pair_seq(v: Seq<(String, String)>) -> Seq<(Seq<char>, Seq<char>)> {
    v.map_values(|p: (String, String)| (p.0@, p.1@))
}

/// The dependencies and scripts a manifest declares.
pub open spec fn manifest_deps(m: Seq<char>, ms: Seq<(String, String)>, pkg: Option<PackageManifest>) -> (Seq<Seq<char>>, Seq<(Seq<char>, Seq<char>)>) {
    if m == "package.json"@ {
        match pkg {
            Some(p) => (string_seq(p.dependencies@) + string_seq(p.dev_dependencies@), pair_seq(p.scripts@)),
            None => (seq![], seq![]),
        }
    } else {
        match manifest_of(ms, m) {
            Some(c) => if m == "requirements.txt"@ {
                (collect_some(lines(c), |l: Seq<char>| requirement_name(l)), seq![])
            } else if m == "pyproject.toml"@ {
                (pyproject_fold(lines(c)).1, seq![])
            } else if m == "go.mod"@ {
                (go_mod_fold(lines(c)).1, seq![])
            } else if m == "Cargo.toml"@ {
                (cargo_fold(lines(c)).1, seq![])
            } else {
                (seq![], seq![])
            },
            None => (seq![], seq![]),
        }
    }
}

/// What detection concludes: runtime, version file, entrypoint, confidence
/// in hundredths, dependencies, scripts.
pub type DetectView = (Runtime, Option<Seq<char>>, Option<Seq<char>>, u8, Seq<Seq<char>>, Seq<(Seq<char>, Seq<char>)>);

pub open spec fn info_view(info: RuntimeInfo) -> DetectView {
    (
        info.runtime,
        match info.version_file {
            Some(v) => Some(v@),
            None => None,
        },
        match info.entrypoint {
            Some(e) => Some(e@),
            None => None,
        },
        info.confidence_pct,
        string_seq(info.dependencies@),
        pair_seq(info.scripts@),
    )
}

/// A guess from the first file with a given extension.
pub open spec fn by_extension(names: Seq<Seq<char>>, ext: Seq<char>, rt: Runtime) -> Option<DetectView> {
    if first_with_extension(names, ext) is Some {
        Some((rt, None, first_with_extension(names, ext), 50u8, seq![], seq![]))
    } else {
        None
    }
}

/// Runtime detection in a directory: a manifest decides first, then a
/// conventional entrypoint, then the extensions of the files present.
pub open spec fn detect_spec(dir: ProjectDir) -> DetectView {
    let ex = string_seq(dir.existing@);
    let names = string_seq(dir.entries@);
    match first_existing(ex, marker_list()) {
        Some(m) => {
            let (rt, default_entry) = marker_info(m);
            let entry = match first_existing(ex, entrypoint_candidates(rt)) {
                Some(e) => e,
                None => default_entry,
            };
            let (deps, scripts) = manifest_deps(m, dir.manifests@, dir.package_json);
            (rt, Some(m), Some(entry), 90u8, deps, scripts)
        },
        None => match first_existing(ex, direct_list()) {
            Some(f) => (direct_runtime(f), None, Some(f), 70u8, seq![], seq![]),
            None => if let Some(v) = by_extension(names, "sh"@, Runtime::Shell) {
                v
            } else if let Some(v) = by_extension(names, "bash"@, Runtime::Shell) {
                v
            } else if let Some(v) = by_extension(names, "zsh"@, Runtime::Shell) {
                v
            } else if let Some(v) = by_extension(names, "py"@, Runtime::Python) {
                v
            } else if let Some(v) = by_extension(names, "js"@, Runtime::Node) {
                v
            } else if let Some(v) = by_extension(names, "go"@, Runtime::Go) {
                v
            } else {
                (Runtime::Unknown, None, None, 0u8, seq![], seq![])
            },
        },
    }
}

fn manifest_content(ms: &Vec<(String, String)>, name: &str) -> (r: Option<String>)
    ensures
        r matches Some(c) ==> manifest_of(ms@, name@) == Some(c@),
        r is None ==> manifest_of(ms@, name@) is None,
{
    let mut i: usize = 0;
    assert(ms@.skip(0) == ms@);
    while i < ms.len()
        invariant
            i <= ms.len(),
            manifest_of(ms@, name@) == manifest_of(ms@.skip(i as int), name@),
        decreases ms.len() - i,
    {
        assert(ms@.skip(i as int).drop_first() == ms@.skip(i + 1));
        assert(ms@.skip(i as int)[0] == ms@[i as int]);
        if str_eq(ms[i].0.as_str(), name) {
            return Some(ms[i].1.clone());
        }
        i = i + 1;
    }
    None
}

fn clone_strings(v: &Vec<String>) -> (r: Vec<String>)
    ensures
        string_seq(r@) == string_seq(v@),
{
    let mut r: Vec<String> = Vec::new();
    let mut i: usize = 0;
    while i < v.len()
        invariant
            i <= v.len(),
            string_seq(r@) == string_seq(v@).take(i as int),
        decreases v.len() - i,
    {
        let x = v[i].clone();
        assert(x@ == v@[i as int]@);
        r.push(x);
        assert(string_seq(v@).take(i + 1) == string_seq(v@).take(i as int).push(v@[i as int]@));
        i = i + 1;
    }
    assert(string_seq(v@).take(v.len() as int) == string_seq(v@));
    r
}

fn clone_pairs(v: &Vec<(String, String)>) -> (r: Vec<(String, String)>)
    ensures
        pair_seq(r@) == pair_seq(v@),
{
    let mut r: Vec<(String, String)> = Vec::new();
    let mut i: usize = 0;
    while i < v.len()
        invariant
            i <= v.len(),
            pair_seq(r@) == pair_seq(v@).take(i as int),
        decreases v.len() - i,
    {
        let a = v[i].0.clone();
        let b = v[i].1.clone();
        r.push((a, b));
        assert(pair_seq(v@).take(i + 1) == pair_seq(v@).take(i as int).push((v@[i as int].0@, v@[i as int].1@)));
        i = i + 1;
    }
    assert(pair_seq(v@).take(v.len() as int) == pair_seq(v@));
    r
}

/// The dependencies and scripts declared by the manifest `marker`.
pub fn parse_deps(marker: &str, dir: &ProjectDir) -> (r: (Vec<String>, Vec<(String, String)>))
    ensures
        (string_seq(r.0@), pair_seq(r.1@)) == manifest_deps(marker@, dir.manifests@, dir.package_json),
{
    if str_eq(marker, "package.json") {
        return match &dir.package_json {
            Some(p) => {
                let mut deps = clone_strings(&p.dependencies);
                let dev = clone_strings(&p.dev_dependencies);
                let ghost d0 = string_seq(deps@);
                let mut i: usize = 0;
                while i < dev.len()
                    invariant
                        i <= dev.len(),
                        string_seq(deps@) == d0 + string_seq(dev@).take(i as int),
                    decreases dev.len() - i,
                {
                    let x = dev[i].clone();
                    let ghost before = string_seq(deps@);
                    deps.push(x);
                    assert(string_seq(deps@) == before.push(dev@[i as int]@));
                    assert(string_seq(dev@).take(i + 1) == string_seq(dev@).take(i as int).push(dev@[i as int]@));
                    assert(d0 + string_seq(dev@).take(i + 1) == (d0 + string_seq(dev@).take(i as int)).push(dev@[i as int]@));
                    i = i + 1;
                }
                assert(string_seq(dev@).take(dev.len() as int) == string_seq(dev@));
                (deps, clone_pairs(&p.scripts))
            },
            None => (Vec::new(), Vec::new()),
        };
    }
    match manifest_content(&dir.manifests, marker) {
        Some(c) => {
            if str_eq(marker, "requirements.txt") {
                (parse_requirements_txt(c.as_str()), Vec::new())
            } else if str_eq(marker, "pyproject.toml") {
                (parse_pyproject_toml(c.as_str()), Vec::new())
            } else if str_eq(marker, "go.mod") {
                (parse_go_mod(c.as_str()), Vec::new())
            } else if str_eq(marker, "Cargo.toml") {
                (parse_cargo_toml(c.as_str()), Vec::new())
            } else {
                (Vec::new(), Vec::new())
            }
        },
        None => (Vec::new(), Vec::new()),
    }
}

fn extension_guess(entries: &Vec<String>, ext: &str, rt: Runtime) -> (r: Option<RuntimeInfo>)
    ensures
        r matches Some(i) ==> by_extension(string_seq(entries@), ext@, rt) == Some(info_view(i)),
        r is None ==> by_extension(string_seq(entries@), ext@, rt) is None,
{
    match find_first_with_extension(entries, ext) {
        Some(n) => Some(RuntimeInfo {
            runtime: rt,
            version_file: None,
            entrypoint: Some(n),
            confidence_pct: 50,
            dependencies: Vec::new(),
            scripts: Vec::new(),
        }),
        None => None,
    }
}

/// Detects the runtime of a project directory from what it holds.
pub fn detect_runtime(dir: &ProjectDir) -> (info: RuntimeInfo)
    ensures
        info_view(info) == detect_spec(*dir),
{
    let markers: Vec<&'static str> = vec![
        "requirements.txt", "pyproject.toml", "setup.py", "package.json", "go.mod", "Cargo.toml",
    ];
    assert(markers@.map_values(|s: &str| s@) == marker_list());
    if let Some(m) = first_existing_names(&dir.existing, &markers) {
        let (rt, default_entry): (Runtime, &'static str) = if str_eq(m, "package.json") {
            (Runtime::Node, "index.js")
        } else if str_eq(m, "go.mod") {
            (Runtime::Go, "main.go")
        } else if str_eq(m, "Cargo.toml") {
            (Runtime::Rust, "src/main.rs")
        } else {
            (Runtime::Python, "main.py")
        };
        let entry = match find_entrypoint(&dir.existing, rt) {
            Some(e) => e,
            None => default_entry.to_owned(),
        };
        let (dependencies, scripts) = parse_deps(m, dir);
        return RuntimeInfo {
            runtime: rt,
            version_file: Some(m.to_owned()),
            entrypoint: Some(entry),
            confidence_pct: 90,
            dependencies,
            scripts,
        };
    }
    let direct: Vec<&'static str> = vec![
        "main.py", "app.py", "run.py", "index.js", "index.ts", "main.js", "app.js", "main.go",
        "run.sh", "start.sh", "main.sh",
    ];
    assert(direct@.map_values(|s: &str| s@) == direct_list());
    if let Some(f) = first_existing_names(&dir.existing, &direct) {
        let rt = if str_eq(f, "main.py") || str_eq(f, "app.py") || str_eq(f, "run.py") {
            Runtime::Python
        } else if str_eq(f, "main.go") {
            Runtime::Go
        } else if str_eq(f, "run.sh") || str_eq(f, "start.sh") || str_eq(f, "main.sh") {
            Runtime::Shell
        } else {
            Runtime::Node
        };
        return RuntimeInfo {
            runtime: rt,
            version_file: None,
            entrypoint: Some(f.to_owned()),
            confidence_pct: 70,
            dependencies: Vec::new(),
            scripts: Vec::new(),
        };
    }
    if let Some(i) = extension_guess(&dir.entries, "sh", Runtime::Shell) {
        return i;
    }
    if let Some(i) = extension_guess(&dir.entries, "bash", Runtime::Shell) {
        return i;
    }
    if let Some(i) = extension_guess(&dir.entries, "zsh", Runtime::Shell) {
        return i;
    }
    if let Some(i) = extension_guess(&dir.entries, "py", Runtime::Python) {
        return i;
    }
    if let Some(i) = extension_guess(&dir.entries, "js", Runtime::Node) {
        return i;
    }
    if let Some(i) = extension_guess(&dir.entries, "go", Runtime::Go) {
        return i;
    }
    RuntimeInfo {
        runtime: Runtime::Unknown,
        version_file: None,
        entrypoint: None,
        confidence_pct: 0,
        dependencies: Vec::new(),
        scripts: Vec::new(),
    }
}

/// The first of `cands` that exists is the one at the first index whose
/// candidate exists.
proof fn lemma_first_existing_shape(existing: Seq<Seq<char>>, cands: Seq<Seq<char>>)
    ensures
        forall|k: int|
            0 <= k < cands.len() && existing.contains(#[trigger] cands[k]) && (forall|j: int|
                0 <= j < k ==> !existing.contains(cands[j])) ==> first_existing(existing, cands) == Some(cands[k]),
        (forall|j: int| 0 <= j < cands.len() ==> !existing.contains(cands[j])) ==> first_existing(existing, cands)
            is None,
    decreases cands.len(),
{
    if cands.len() > 0 {
        let rest = cands.drop_first();
        lemma_first_existing_shape(existing, rest);
        assert forall|k: int|
            0 <= k < cands.len() && existing.contains(#[trigger] cands[k]) && (forall|j: int|
                0 <= j < k ==> !existing.contains(cands[j])) implies first_existing(existing, cands) == Some(cands[k]) by {
            if k > 0 {
                assert(!existing.contains(cands[0]));
                assert(rest[k - 1] == cands[k]);
                assert forall|j: int| 0 <= j < k - 1 implies !existing.contains(rest[j]) by {
                    assert(rest[j] == cands[j + 1]);
                }
            }
        }
        if forall|j: int| 0 <= j < cands.len() ==> !existing.contains(cands[j]) {
            assert(!existing.contains(cands[0]));
            assert forall|j: int| 0 <= j < rest.len() implies !existing.contains(rest[j]) by {
                assert(rest[j] == cands[j + 1]);
            }
        }
    }
}

/// The first manifest present decides the runtime, and is reported as the
/// version file, with confidence 90: `requirements.txt`, `pyproject.toml` and
/// `setup.py` make a Python project, `package.json` a Node project, `go.mod`
/// a Go project and `Cargo.toml` a Rust project. The entrypoint is the first
/// of the runtime's conventional files that exists (`main.py`, `app.py`,
/// `run.py`, `__main__.py`; `index.js`, `index.ts`, `main.js`, `main.ts`,
/// `app.js`, `app.ts`; `main.go`, `cmd/main.go`; `src/main.rs`), and else
/// `main.py`, `index.js`, `main.go` or `src/main.rs`.
pub proof fn first_manifest_decides_runtime(dir: ProjectDir)
    ensures
        ({
            let ex = string_seq(dir.existing@);
            let d = detect_spec(dir);
            let py = ex.contains("requirements.txt"@) || ex.contains("pyproject.toml"@) || ex.contains("setup.py"@);
            &&& ex.contains("requirements.txt"@) ==> d.1 == Some("requirements.txt"@)
            &&& !ex.contains("requirements.txt"@) && ex.contains("pyproject.toml"@) ==> d.1 == Some("pyproject.toml"@)
            &&& !ex.contains("requirements.txt"@) && !ex.contains("pyproject.toml"@) && ex.contains("setup.py"@)
                ==> d.1 == Some("setup.py"@)
            &&& py ==> d.0 == Runtime::Python && d.3 == 90 && d.2 == Some(
                if ex.contains("main.py"@) {
                    "main.py"@
                } else if ex.contains("app.py"@) {
                    "app.py"@
                } else if ex.contains("run.py"@) {
                    "run.py"@
                } else if ex.contains("__main__.py"@) {
                    "__main__.py"@
                } else {
                    "main.py"@
                },
            )
            &&& !py && ex.contains("package.json"@) ==> d.0 == Runtime::Node && d.1 == Some("package.json"@) && d.3
                == 90 && d.2 == Some(
                if ex.contains("index.js"@) {
                    "index.js"@
                } else if ex.contains("index.ts"@) {
                    "index.ts"@
                } else if ex.contains("main.js"@) {
                    "main.js"@
                } else if ex.contains("main.ts"@) {
                    "main.ts"@
                } else if ex.contains("app.js"@) {
                    "app.js"@
                } else if ex.contains("app.ts"@) {
                    "app.ts"@
                } else {
                    "index.js"@
                },
            )
            &&& !py && !ex.contains("package.json"@) && ex.contains("go.mod"@) ==> d.0 == Runtime::Go && d.1 == Some(
                "go.mod"@,
            ) && d.3 == 90 && d.2 == Some(
                if ex.contains("main.go"@) {
                    "main.go"@
                } else if ex.contains("cmd/main.go"@) {
                    "cmd/main.go"@
                } else {
                    "main.go"@
                },
            )
            &&& !py && !ex.contains("package.json"@) && !ex.contains("go.mod"@) && ex.contains("Cargo.toml"@) ==> d.0
                == Runtime::Rust && d.1 == Some("Cargo.toml"@) && d.3 == 90 && d.2 == Some("src/main.rs"@)
        }),
{
    reveal_strlit("requirements.txt");
    reveal_strlit("pyproject.toml");
    reveal_strlit("setup.py");
    reveal_strlit("package.json");
    reveal_strlit("go.mod");
    reveal_strlit("Cargo.toml");
    reveal_strlit("main.py");
    reveal_strlit("app.py");
    reveal_strlit("run.py");
    reveal_strlit("__main__.py");
    reveal_strlit("index.js");
    reveal_strlit("index.ts");
    reveal_strlit("main.js");
    reveal_strlit("main.ts");
    reveal_strlit("app.js");
    reveal_strlit("app.ts");
    reveal_strlit("main.go");
    reveal_strlit("cmd/main.go");
    reveal_strlit("src/main.rs");
    reveal_strlit("run.sh");
    reveal_strlit("start.sh");
    reveal_strlit("main.sh");
    let ex = string_seq(dir.existing@);
    lemma_first_existing_shape(ex, marker_list());
    lemma_first_existing_shape(ex, entrypoint_candidates(Runtime::Python));
    lemma_first_existing_shape(ex, entrypoint_candidates(Runtime::Node));
    lemma_first_existing_shape(ex, entrypoint_candidates(Runtime::Go));
    lemma_first_existing_shape(ex, entrypoint_candidates(Runtime::Rust));
    let ml = marker_list();
    assert(ml[0] == "requirements.txt"@ && ml[1] == "pyproject.toml"@ && ml[2] == "setup.py"@);
    assert(ml[3] == "package.json"@ && ml[4] == "go.mod"@ && ml[5] == "Cargo.toml"@);
    let pc = entrypoint_candidates(Runtime::Python);
    assert(pc[0] == "main.py"@ && pc[1] == "app.py"@ && pc[2] == "run.py"@ && pc[3] == "__main__.py"@);
    let nc = entrypoint_candidates(Runtime::Node);
    assert(nc[0] == "index.js"@ && nc[1] == "index.ts"@ && nc[2] == "main.js"@ && nc[3] == "main.ts"@);
    assert(nc[4] == "app.js"@ && nc[5] == "app.ts"@);
    let gc = entrypoint_candidates(Runtime::Go);
    assert(gc[0] == "main.go"@ && gc[1] == "cmd/main.go"@);
    assert(entrypoint_candidates(Runtime::Rust)[0] == "src/main.rs"@);
}

/// Without a manifest, the first conventional entrypoint present decides,
/// with confidence 70 and no version file: `main.py`, `app.py`, `run.py`
/// make a Python project, `index.js`, `index.ts`, `main.js`, `app.js` a
/// Node project, `main.go` a Go project, and `run.sh`, `start.sh`, `main.sh`
/// a shell project; that file is the entrypoint.
pub proof fn entrypoint_file_decides_runtime(dir: ProjectDir)
    ensures
        ({
            let ex = string_seq(dir.existing@);
            let d = detect_spec(dir);
            !ex.contains("requirements.txt"@) && !ex.contains("pyproject.toml"@) && !ex.contains("setup.py"@) && !ex.contains("package.json"@) && !ex.contains("go.mod"@) && !ex.contains("Cargo.toml"@) ==> {
                if ex.contains("main.py"@) {
                    d == (Runtime::Python, None::<Seq<char>>, Some("main.py"@), 70u8, Seq::<Seq<char>>::empty(), Seq::<(Seq<char>, Seq<char>)>::empty())
                } else if ex.contains("app.py"@) {
                    d == (Runtime::Python, None::<Seq<char>>, Some("app.py"@), 70u8, Seq::<Seq<char>>::empty(), Seq::<(Seq<char>, Seq<char>)>::empty())
                } else if ex.contains("run.py"@) {
                    d == (Runtime::Python, None::<Seq<char>>, Some("run.py"@), 70u8, Seq::<Seq<char>>::empty(), Seq::<(Seq<char>, Seq<char>)>::empty())
                } else if ex.contains("index.js"@) {
                    d == (Runtime::Node, None::<Seq<char>>, Some("index.js"@), 70u8, Seq::<Seq<char>>::empty(), Seq::<(Seq<char>, Seq<char>)>::empty())
                } else if ex.contains("index.ts"@) {
                    d == (Runtime::Node, None::<Seq<char>>, Some("index.ts"@), 70u8, Seq::<Seq<char>>::empty(), Seq::<(Seq<char>, Seq<char>)>::empty())
                } else if ex.contains("main.js"@) {
                    d == (Runtime::Node, None::<Seq<char>>, Some("main.js"@), 70u8, Seq::<Seq<char>>::empty(), Seq::<(Seq<char>, Seq<char>)>::empty())
                } else if ex.contains("app.js"@) {
                    d == (Runtime::Node, None::<Seq<char>>, Some("app.js"@), 70u8, Seq::<Seq<char>>::empty(), Seq::<(Seq<char>, Seq<char>)>::empty())
                } else if ex.contains("main.go"@) {
                    d == (Runtime::Go, None::<Seq<char>>, Some("main.go"@), 70u8, Seq::<Seq<char>>::empty(), Seq::<(Seq<char>, Seq<char>)>::empty())
                } else if ex.contains("run.sh"@) {
                    d == (Runtime::Shell, None::<Seq<char>>, Some("run.sh"@), 70u8, Seq::<Seq<char>>::empty(), Seq::<(Seq<char>, Seq<char>)>::empty())
                } else if ex.contains("start.sh"@) {
                    d == (Runtime::Shell, None::<Seq<char>>, Some("start.sh"@), 70u8, Seq::<Seq<char>>::empty(), Seq::<(Seq<char>, Seq<char>)>::empty())
                } else if ex.contains("main.sh"@) {
                    d == (Runtime::Shell, None::<Seq<char>>, Some("main.sh"@), 70u8, Seq::<Seq<char>>::empty(), Seq::<(Seq<char>, Seq<char>)>::empty())
                } else {
                    true
                }
            }
        }),
{
    reveal_strlit("requirements.txt");
    reveal_strlit("pyproject.toml");
    reveal_strlit("setup.py");
    reveal_strlit("package.json");
    reveal_strlit("go.mod");
    reveal_strlit("Cargo.toml");
    reveal_strlit("main.py");
    reveal_strlit("app.py");
    reveal_strlit("run.py");
    reveal_strlit("index.js");
    reveal_strlit("index.ts");
    reveal_strlit("main.js");
    reveal_strlit("app.js");
    reveal_strlit("main.go");
    reveal_strlit("run.sh");
    reveal_strlit("start.sh");
    reveal_strlit("main.sh");
    let ex = string_seq(dir.existing@);
    lemma_first_existing_shape(ex, marker_list());
    lemma_first_existing_shape(ex, direct_list());
    let ml = marker_list();
    assert(ml[0] == "requirements.txt"@ && ml[1] == "pyproject.toml"@ && ml[2] == "setup.py"@);
    assert(ml[3] == "package.json"@ && ml[4] == "go.mod"@ && ml[5] == "Cargo.toml"@);
    let dl = direct_list();
    assert(dl[0] == "main.py"@ && dl[1] == "app.py"@ && dl[2] == "run.py"@ && dl[3] == "index.js"@);
    assert(dl[4] == "index.ts"@ && dl[5] == "main.js"@ && dl[6] == "app.js"@ && dl[7] == "main.go"@);
    assert(dl[8] == "run.sh"@ && dl[9] == "start.sh"@ && dl[10] == "main.sh"@);
    if !ex.contains("requirements.txt"@) && !ex.contains("pyproject.toml"@) && !ex.contains("setup.py"@) && !ex.contains("package.json"@) && !ex.contains("go.mod"@) && !ex.contains("Cargo.toml"@) {
        assert(first_existing(ex, marker_list()) is None);
        if ex.contains("main.py"@) {
            assert(first_existing(ex, direct_list()) == Some("main.py"@));
            assert(direct_runtime("main.py"@) == Runtime::Python);
        } else if ex.contains("app.py"@) {
            assert(first_existing(ex, direct_list()) == Some("app.py"@));
            assert("app.py"@.len() != "main.py"@.len());
            assert(direct_runtime("app.py"@) == Runtime::Python);
        } else if ex.contains("run.py"@) {
            assert(first_existing(ex, direct_list()) == Some("run.py"@));
            assert("run.py"@.len() != "main.py"@.len());
            assert("run.py"@[0] != "app.py"@[0]);
            assert(direct_runtime("run.py"@) == Runtime::Python);
        } else if ex.contains("index.js"@) {
            assert(first_existing(ex, direct_list()) == Some("index.js"@));
            assert("index.js"@.len() != "main.py"@.len());
            assert("index.js"@.len() != "app.py"@.len());
            assert("index.js"@.len() != "run.py"@.len());
            assert("index.js"@.len() != "main.go"@.len());
            assert("index.js"@.len() != "run.sh"@.len());
            assert("index.js"@[0] != "start.sh"@[0]);
            assert("index.js"@.len() != "main.sh"@.len());
            assert(direct_runtime("index.js"@) == Runtime::Node);
        } else if ex.contains("index.ts"@) {
            assert(first_existing(ex, direct_list()) == Some("index.ts"@));
            assert("index.ts"@.len() != "main.py"@.len());
            assert("index.ts"@.len() != "app.py"@.len());
            assert("index.ts"@.len() != "run.py"@.len());
            assert("index.ts"@.len() != "main.go"@.len());
            assert("index.ts"@.len() != "run.sh"@.len());
            assert("index.ts"@[0] != "start.sh"@[0]);
            assert("index.ts"@.len() != "main.sh"@.len());
            assert(direct_runtime("index.ts"@) == Runtime::Node);
        } else if ex.contains("main.js"@) {
            assert(first_existing(ex, direct_list()) == Some("main.js"@));
            assert("main.js"@[5] != "main.py"@[5]);
            assert("main.js"@.len() != "app.py"@.len());
            assert("main.js"@.len() != "run.py"@.len());
            assert("main.js"@[5] != "main.go"@[5]);
            assert("main.js"@.len() != "run.sh"@.len());
            assert("main.js"@.len() != "start.sh"@.len());
            assert("main.js"@[5] != "main.sh"@[5]);
            assert(direct_runtime("main.js"@) == Runtime::Node);
        } else if ex.contains("app.js"@) {
            assert(first_existing(ex, direct_list()) == Some("app.js"@));
            assert("app.js"@.len() != "main.py"@.len());
            assert("app.js"@[4] != "app.py"@[4]);
            assert("app.js"@[0] != "run.py"@[0]);
            assert("app.js"@.len() != "main.go"@.len());
            assert("app.js"@[0] != "run.sh"@[0]);
            assert("app.js"@.len() != "start.sh"@.len());
            assert("app.js"@.len() != "main.sh"@.len());
            assert(direct_runtime("app.js"@) == Runtime::Node);
        } else if ex.contains("main.go"@) {
            assert(first_existing(ex, direct_list()) == Some("main.go"@));
            assert("main.go"@[5] != "main.py"@[5]);
            assert("main.go"@.len() != "app.py"@.len());
            assert("main.go"@.len() != "run.py"@.len());
            assert(direct_runtime("main.go"@) == Runtime::Go);
        } else if ex.contains("run.sh"@) {
            assert(first_existing(ex, direct_list()) == Some("run.sh"@));
            assert("run.sh"@.len() != "main.py"@.len());
            assert("run.sh"@[0] != "app.py"@[0]);
            assert("run.sh"@[4] != "run.py"@[4]);
            assert("run.sh"@.len() != "main.go"@.len());
            assert(direct_runtime("run.sh"@) == Runtime::Shell);
        } else if ex.contains("start.sh"@) {
            assert(first_existing(ex, direct_list()) == Some("start.sh"@));
            assert("start.sh"@.len() != "main.py"@.len());
            assert("start.sh"@.len() != "app.py"@.len());
            assert("start.sh"@.len() != "run.py"@.len());
            assert("start.sh"@.len() != "main.go"@.len());
            assert("start.sh"@.len() != "run.sh"@.len());
            assert(direct_runtime("start.sh"@) == Runtime::Shell);
        } else if ex.contains("main.sh"@) {
            assert(first_existing(ex, direct_list()) == Some("main.sh"@));
            assert("main.sh"@[5] != "main.py"@[5]);
            assert("main.sh"@.len() != "app.py"@.len());
            assert("main.sh"@.len() != "run.py"@.len());
            assert("main.sh"@[5] != "main.go"@[5]);
            assert("main.sh"@.len() != "run.sh"@.len());
            assert("main.sh"@.len() != "start.sh"@.len());
            assert(direct_runtime("main.sh"@) == Runtime::Shell);
        }
    }
}

/// Some name has extension `ext` exactly when a first one is found.
proof fn lemma_first_with_extension_found(names: Seq<Seq<char>>, ext: Seq<char>)
    requires
        exists|i: int| 0 <= i < names.len() && has_extension(#[trigger] names[i], ext),
    ensures
        first_with_extension(names, ext) is Some,
    decreases names.len(),
{
    let i = choose|i: int| 0 <= i < names.len() && has_extension(#[trigger] names[i], ext);
    if !has_extension(names[0], ext) {
        let rest = names.drop_first();
        assert(rest[i - 1] == names[i]);
        assert(has_extension(rest[i - 1], ext));
        lemma_first_with_extension_found(rest, ext);
    }
}

/// The first name of `names` with extension `ext` is the one at the first
/// index whose name has it.
proof fn lemma_first_with_extension_shape(names: Seq<Seq<char>>, ext: Seq<char>)
    ensures
        forall|k: int|
            0 <= k < names.len() && has_extension(#[trigger] names[k], ext) && (forall|j: int|
                0 <= j < k ==> !has_extension(names[j], ext)) ==> first_with_extension(names, ext) == Some(names[k]),
        (forall|j: int| 0 <= j < names.len() ==> !has_extension(names[j], ext)) ==> first_with_extension(names, ext)
            is None,
        first_with_extension(names, ext) matches Some(n) ==> exists|k: int|
            0 <= k < names.len() && names[k] == n && has_extension(#[trigger] names[k], ext) && (forall|j: int|
                0 <= j < k ==> !has_extension(names[j], ext)),
    decreases names.len(),
{
    if names.len() > 0 {
        let rest = names.drop_first();
        lemma_first_with_extension_shape(rest, ext);
        assert forall|k: int|
            0 <= k < names.len() && has_extension(#[trigger] names[k], ext) && (forall|j: int|
                0 <= j < k ==> !has_extension(names[j], ext)) implies first_with_extension(names, ext) == Some(names[k]) by {
            if k > 0 {
                assert(!has_extension(names[0], ext));
                assert(rest[k - 1] == names[k]);
                assert forall|j: int| 0 <= j < k - 1 implies !has_extension(rest[j], ext) by {
                    assert(rest[j] == names[j + 1]);
                }
            }
        }
        if forall|j: int| 0 <= j < names.len() ==> !has_extension(names[j], ext) {
            assert(!has_extension(names[0], ext));
            assert forall|j: int| 0 <= j < rest.len() implies !has_extension(rest[j], ext) by {
                assert(rest[j] == names[j + 1]);
            }
        }
        if let Some(n) = first_with_extension(names, ext) {
            if has_extension(names[0], ext) {
                assert(names[0] == n && has_extension(names[0], ext));
            } else {
                let k = choose|k: int|
                    0 <= k < rest.len() && rest[k] == n && has_extension(#[trigger] rest[k], ext) && (forall|j: int|
                        0 <= j < k ==> !has_extension(rest[j], ext));
                assert(names[k + 1] == rest[k]);
                assert forall|j: int| 0 <= j < k + 1 implies !has_extension(names[j], ext) by {
                    if j > 0 {
                        assert(names[j] == rest[j - 1]);
                    }
                }
            }
        }
    }
}

/// No name with extension `ext`: no guess from it.
proof fn lemma_by_extension_none(names: Seq<Seq<char>>, ext: Seq<char>, rt: Runtime)
    requires
        !exists|i: int| 0 <= i < names.len() && has_extension(#[trigger] names[i], ext),
    ensures
        by_extension(names, ext, rt) is None,
{
    lemma_first_with_extension_shape(names, ext);
}

/// A name with extension `ext`: the guess is the first such name.
#[verifier::spinoff_prover]
proof fn lemma_by_extension_some(names: Seq<Seq<char>>, ext: Seq<char>, rt: Runtime)
    requires
        exists|i: int| 0 <= i < names.len() && has_extension(#[trigger] names[i], ext),
    ensures
        exists|k: int|
            0 <= k < names.len() && has_extension(#[trigger] names[k], ext) && (forall|j: int|
                0 <= j < k ==> !has_extension(names[j], ext)) && by_extension(names, ext, rt) == Some(
                (rt, None::<Seq<char>>, Some(names[k]), 50u8, Seq::<Seq<char>>::empty(), Seq::<(Seq<char>, Seq<char>)>::empty()),
            ),
{
    lemma_first_with_extension_shape(names, ext);
    lemma_first_with_extension_found(names, ext);
    let n = first_with_extension(names, ext)->0;
    let k = choose|k: int|
        0 <= k < names.len() && names[k] == n && has_extension(#[trigger] names[k], ext) && (forall|j: int|
            0 <= j < k ==> !has_extension(names[j], ext));
    assert(first_with_extension(names, ext) == Some(names[k]));
    assert(by_extension(names, ext, rt) == Some(
        (rt, None::<Seq<char>>, Some(names[k]), 50u8, Seq::<Seq<char>>::empty(), Seq::<(Seq<char>, Seq<char>)>::empty()),
    ));
    assert(0 <= k < names.len() && has_extension(names[k], ext) && (forall|j: int|
        0 <= j < k ==> !has_extension(names[j], ext)));
}

/// With neither a manifest nor a conventional entrypoint, the first
/// directory entry with a known extension decides, with confidence 50: the
/// extensions are tried in the order `sh`, `bash`, `zsh` (shell), `py`
/// (Python), `js` (Node), `go` (Go); with none of them the runtime is
/// unknown, with no entrypoint and confidence 0.
pub proof fn extension_decides_when_nothing_else(dir: ProjectDir)
    ensures
        ({
            let ex = string_seq(dir.existing@);
            let names = string_seq(dir.entries@);
            let d = detect_spec(dir);
            !ex.contains("requirements.txt"@) && !ex.contains("pyproject.toml"@) && !ex.contains("setup.py"@) && !ex.contains("package.json"@) && !ex.contains("go.mod"@) && !ex.contains("Cargo.toml"@) && !ex.contains("main.py"@) && !ex.contains("app.py"@) && !ex.contains("run.py"@) && !ex.contains("index.js"@) && !ex.contains("index.ts"@) && !ex.contains("main.js"@) && !ex.contains("app.js"@) && !ex.contains("main.go"@) && !ex.contains("run.sh"@) && !ex.contains("start.sh"@) && !ex.contains("main.sh"@) ==> {
                if exists|i: int| 0 <= i < names.len() && has_extension(#[trigger] names[i], "sh"@) {
                    exists|k: int|
                        0 <= k < names.len() && has_extension(#[trigger] names[k], "sh"@) && (forall|j: int| 0 <= j < k ==> !has_extension(names[j], "sh"@))
                            && d == (Runtime::Shell, None::<Seq<char>>, Some(names[k]), 50u8, Seq::<Seq<char>>::empty(), Seq::<(Seq<char>, Seq<char>)>::empty())
                } else if exists|i: int| 0 <= i < names.len() && has_extension(#[trigger] names[i], "bash"@) {
                    exists|k: int|
                        0 <= k < names.len() && has_extension(#[trigger] names[k], "bash"@) && (forall|j: int| 0 <= j < k ==> !has_extension(names[j], "bash"@))
                            && d == (Runtime::Shell, None::<Seq<char>>, Some(names[k]), 50u8, Seq::<Seq<char>>::empty(), Seq::<(Seq<char>, Seq<char>)>::empty())
                } else if exists|i: int| 0 <= i < names.len() && has_extension(#[trigger] names[i], "zsh"@) {
                    exists|k: int|
                        0 <= k < names.len() && has_extension(#[trigger] names[k], "zsh"@) && (forall|j: int| 0 <= j < k ==> !has_extension(names[j], "zsh"@))
                            && d == (Runtime::Shell, None::<Seq<char>>, Some(names[k]), 50u8, Seq::<Seq<char>>::empty(), Seq::<(Seq<char>, Seq<char>)>::empty())
                } else if exists|i: int| 0 <= i < names.len() && has_extension(#[trigger] names[i], "py"@) {
                    exists|k: int|
                        0 <= k < names.len() && has_extension(#[trigger] names[k], "py"@) && (forall|j: int| 0 <= j < k ==> !has_extension(names[j], "py"@))
                            && d == (Runtime::Python, None::<Seq<char>>, Some(names[k]), 50u8, Seq::<Seq<char>>::empty(), Seq::<(Seq<char>, Seq<char>)>::empty())
                } else if exists|i: int| 0 <= i < names.len() && has_extension(#[trigger] names[i], "js"@) {
                    exists|k: int|
                        0 <= k < names.len() && has_extension(#[trigger] names[k], "js"@) && (forall|j: int| 0 <= j < k ==> !has_extension(names[j], "js"@))
                            && d == (Runtime::Node, None::<Seq<char>>, Some(names[k]), 50u8, Seq::<Seq<char>>::empty(), Seq::<(Seq<char>, Seq<char>)>::empty())
                } else if exists|i: int| 0 <= i < names.len() && has_extension(#[trigger] names[i], "go"@) {
                    exists|k: int|
                        0 <= k < names.len() && has_extension(#[trigger] names[k], "go"@) && (forall|j: int| 0 <= j < k ==> !has_extension(names[j], "go"@))
                            && d == (Runtime::Go, None::<Seq<char>>, Some(names[k]), 50u8, Seq::<Seq<char>>::empty(), Seq::<(Seq<char>, Seq<char>)>::empty())
                } else {
                    d == (Runtime::Unknown, None::<Seq<char>>, None::<Seq<char>>, 0u8, Seq::<Seq<char>>::empty(), Seq::<(Seq<char>, Seq<char>)>::empty())
                }
            }
        }),
{
    let ex = string_seq(dir.existing@);
    let names = string_seq(dir.entries@);
    lemma_first_existing_shape(ex, marker_list());
    lemma_first_existing_shape(ex, direct_list());
    if !ex.contains("requirements.txt"@) && !ex.contains("pyproject.toml"@) && !ex.contains("setup.py"@) && !ex.contains("package.json"@) && !ex.contains("go.mod"@) && !ex.contains("Cargo.toml"@) && !ex.contains("main.py"@) && !ex.contains("app.py"@) && !ex.contains("run.py"@) && !ex.contains("index.js"@) && !ex.contains("index.ts"@) && !ex.contains("main.js"@) && !ex.contains("app.js"@) && !ex.contains("main.go"@) && !ex.contains("run.sh"@) && !ex.contains("start.sh"@) && !ex.contains("main.sh"@) {
        let ml = marker_list();
        assert(ml[0] == "requirements.txt"@ && ml[1] == "pyproject.toml"@ && ml[2] == "setup.py"@);
        assert(ml[3] == "package.json"@ && ml[4] == "go.mod"@ && ml[5] == "Cargo.toml"@);
        let dl = direct_list();
        assert(dl[0] == "main.py"@ && dl[1] == "app.py"@ && dl[2] == "run.py"@ && dl[3] == "index.js"@);
        assert(dl[4] == "index.ts"@ && dl[5] == "main.js"@ && dl[6] == "app.js"@ && dl[7] == "main.go"@);
        assert(dl[8] == "run.sh"@ && dl[9] == "start.sh"@ && dl[10] == "main.sh"@);
        assert(first_existing(ex, marker_list()) is None);
        assert(first_existing(ex, direct_list()) is None);
        if exists|i: int| 0 <= i < names.len() && has_extension(#[trigger] names[i], "sh"@) {
            lemma_by_extension_some(names, "sh"@, Runtime::Shell);
        } else if exists|i: int| 0 <= i < names.len() && has_extension(#[trigger] names[i], "bash"@) {
            lemma_by_extension_none(names, "sh"@, Runtime::Shell);
            lemma_by_extension_some(names, "bash"@, Runtime::Shell);
        } else if exists|i: int| 0 <= i < names.len() && has_extension(#[trigger] names[i], "zsh"@) {
            lemma_by_extension_none(names, "sh"@, Runtime::Shell);
            lemma_by_extension_none(names, "bash"@, Runtime::Shell);
            lemma_by_extension_some(names, "zsh"@, Runtime::Shell);
        } else if exists|i: int| 0 <= i < names.len() && has_extension(#[trigger] names[i], "py"@) {
            lemma_by_extension_none(names, "sh"@, Runtime::Shell);
            lemma_by_extension_none(names, "bash"@, Runtime::Shell);
            lemma_by_extension_none(names, "zsh"@, Runtime::Shell);
            lemma_by_extension_some(names, "py"@, Runtime::Python);
        } else if exists|i: int| 0 <= i < names.len() && has_extension(#[trigger] names[i], "js"@) {
            lemma_by_extension_none(names, "sh"@, Runtime::Shell);
            lemma_by_extension_none(names, "bash"@, Runtime::Shell);
            lemma_by_extension_none(names, "zsh"@, Runtime::Shell);
            lemma_by_extension_none(names, "py"@, Runtime::Python);
            lemma_by_extension_some(names, "js"@, Runtime::Node);
        } else if exists|i: int| 0 <= i < names.len() && has_extension(#[trigger] names[i], "go"@) {
            lemma_by_extension_none(names, "sh"@, Runtime::Shell);
            lemma_by_extension_none(names, "bash"@, Runtime::Shell);
            lemma_by_extension_none(names, "zsh"@, Runtime::Shell);
            lemma_by_extension_none(names, "py"@, Runtime::Python);
            lemma_by_extension_none(names, "js"@, Runtime::Node);
            lemma_by_extension_some(names, "go"@, Runtime::Go);
        } else {
            lemma_by_extension_none(names, "sh"@, Runtime::Shell);
            lemma_by_extension_none(names, "bash"@, Runtime::Shell);
            lemma_by_extension_none(names, "zsh"@, Runtime::Shell);
            lemma_by_extension_none(names, "py"@, Runtime::Python);
            lemma_by_extension_none(names, "js"@, Runtime::Node);
            lemma_by_extension_none(names, "go"@, Runtime::Go);
        }
    }
}

} // verus!
