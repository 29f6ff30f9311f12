//! Containerfile (Dockerfile) generation from detected runtime info, and
//! the setup commands of bare-process execution.

use vstd::prelude::*;
use crate::detect::{RuntimeInfo, first_existing, string_seq};
use crate::runtime::Runtime;
use crate::text::{str_eq, ends_with, starts_with, contains, occurs_at};

verus! {

/// The entrypoint of a project, `main.py` when none was detected.
pub open spec fn entry_or_default(info: RuntimeInfo) -> Seq<char> {
    match info.entrypoint {
        Some(e) => e@,
        None => "main.py"@,
    }
}

pub open spec fn version_file_is(info: RuntimeInfo, name: Seq<char>) -> bool {
    info.version_file matches Some(v) && v@ == name
}

pub open spec fn python_file(entry: Seq<char>, has_requirements: bool) -> Seq<char> {
    let head = "FROM python:3.12-slim\nWORKDIR /app\n"@;
    let head = if has_requirements {
        head + "COPY requirements.txt* pyproject.toml* ./\nRUN [ -f requirements.txt ] && pip install --no-cache-dir -r requirements.txt || true\n"@
    } else {
        head
    };
    head + "COPY . .\nCMD [\"python\", \"-u\", \""@ + entry + "\"]"@
}

pub open spec fn node_file(entry: Seq<char>, has_package: bool) -> Seq<char> {
    let head = "FROM node:20-slim\nWORKDIR /app\n"@;
    let head = if has_package {
        head + "COPY package*.json ./\nRUN [ -f package.json ] && npm install --production || true\n"@
    } else {
        head
    };
    head + "COPY . .\nCMD [\"node\", \""@ + entry + "\"]"@
}

pub open spec fn go_file(entry: Seq<char>) -> Seq<char> {
    "FROM golang:1.22\nWORKDIR /app\nCOPY go.mod go.sum* ./\nRUN [ -f go.mod ] && go mod download || true\nCOPY . .\nCMD [\"go\", \"run\", \""@
        + entry + "\"]"@
}

pub open spec fn rust_file() -> Seq<char> {
    "FROM rust:1.77 AS builder\nWORKDIR /app\nCOPY . .\nRUN cargo build --release\n\nFROM debian:bookworm-slim\nRUN apt-get update && apt-get install -y --no-install-recommends ca-certificates && rm -rf /var/lib/apt/lists/*\nCOPY --from=builder /app/target/release/* /usr/local/bin/\nCMD [\"/usr/local/bin/app\"]"@
}

pub open spec fn shell_file(entry: Seq<char>) -> Seq<char> {
    "FROM alpine:3.19\nRUN apk add --no-cache bash curl\nWORKDIR /app\nCOPY . .\nRUN chmod +x "@ + entry
        + "\nCMD [\"sh\", \""@ + entry + "\"]"@
}

/// The Containerfile generated for a project.
pub open spec fn containerfile_spec(info: RuntimeInfo) -> Seq<char> {
    let entry = entry_or_default(info);
    match info.runtime {
        Runtime::Python => python_file(
            entry,
            info.dependencies@.len() > 0 || version_file_is(info, "requirements.txt"@)
                || version_file_is(info, "pyproject.toml"@),
        ),
        Runtime::Node => node_file(
            entry,
            info.dependencies@.len() > 0 || version_file_is(info, "package.json"@),
        ),
        Runtime::Go => go_file(entry),
        Runtime::Rust => rust_file(),
        Runtime::Shell | Runtime::Unknown => shell_file(entry),
    }
}

fn version_file_matches(info: &RuntimeInfo, name: &str) -> (b: bool)
    ensures
        b == version_file_is(*info, name@),
{
    match &info.version_file {
        Some(v) => str_eq(v.as_str(), name),
        None => false,
    }
}

fn generate_python(entrypoint: &str, info: &RuntimeInfo) -> (s: String)
    ensures
        s@ == python_file(
            entrypoint@,
            info.dependencies@.len() > 0 || version_file_is(*info, "requirements.txt"@)
                || version_file_is(*info, "pyproject.toml"@),
        ),
{
    let has_requirements = info.dependencies.len() > 0 || version_file_matches(info, "requirements.txt")
        || version_file_matches(info, "pyproject.toml");
    let mut s = "FROM python:3.12-slim\nWORKDIR /app\n".to_owned();
    if has_requirements {
        s.append(
            "COPY requirements.txt* pyproject.toml* ./\nRUN [ -f requirements.txt ] && pip install --no-cache-dir -r requirements.txt || true\n",
        );
    }
    s.append("COPY . .\nCMD [\"python\", \"-u\", \"");
    s.append(entrypoint);
    s.append("\"]");
    s
}

fn generate_node(entrypoint: &str, info: &RuntimeInfo) -> (s: String)
    ensures
        s@ == node_file(
            entrypoint@,
            info.dependencies@.len() > 0 || version_file_is(*info, "package.json"@),
        ),
{
    let has_package = info.dependencies.len() > 0 || version_file_matches(info, "package.json");
    let mut s = "FROM node:20-slim\nWORKDIR /app\n".to_owned();
    if has_package {
        s.append("COPY package*.json ./\nRUN [ -f package.json ] && npm install --production || true\n");
    }
    s.append("COPY . .\nCMD [\"node\", \"");
    s.append(entrypoint);
    s.append("\"]");
    s
}

/// The Containerfile of a Go project.
pub fn generate_go(entrypoint: &str) -> (s: String)
    ensures
        s@ == go_file(entrypoint@),
{
    let mut s =
        "FROM golang:1.22\nWORKDIR /app\nCOPY go.mod go.sum* ./\nRUN [ -f go.mod ] && go mod download || true\nCOPY . .\nCMD [\"go\", \"run\", \"".to_owned();
    s.append(entrypoint);
    s.append("\"]");
    s
}

/// The Containerfile of a Rust project: a release build copied into a slim
/// Debian image.
pub fn generate_rust() -> (s: String)
    ensures
        s@ == rust_file(),
{
    "FROM rust:1.77 AS builder\nWORKDIR /app\nCOPY . .\nRUN cargo build --release\n\nFROM debian:bookworm-slim\nRUN apt-get update && apt-get install -y --no-install-recommends ca-certificates && rm -rf /var/lib/apt/lists/*\nCOPY --from=builder /app/target/release/* /usr/local/bin/\nCMD [\"/usr/local/bin/app\"]".to_owned()
}

/// The Containerfile of a shell project.
pub fn generate_shell(entrypoint: &str) -> (s: String)
    ensures
        s@ == shell_file(entrypoint@),
{
    let mut s = "FROM alpine:3.19\nRUN apk add --no-cache bash curl\nWORKDIR /app\nCOPY . .\nRUN chmod +x ".to_owned();
    s.append(entrypoint);
    s.append("\nCMD [\"sh\", \"");
    s.append(entrypoint);
    s.append("\"]");
    s
}

/// Generates a Containerfile from runtime detection info.
pub fn generate(info: &RuntimeInfo) -> (s: String)
    ensures
        s@ == containerfile_spec(*info),
{
    let entrypoint: &str = match &info.entrypoint {
        Some(e) => e.as_str(),
        None => "main.py",
    };
    match info.runtime {
        Runtime::Python => generate_python(entrypoint, info),
        Runtime::Node => generate_node(entrypoint, info),
        Runtime::Go => generate_go(entrypoint),
        Runtime::Rust => generate_rust(),
        Runtime::Shell => generate_shell(entrypoint),
        Runtime::Unknown => generate_shell(entrypoint),
    }
}

/// The name of the user-provided Containerfile or Dockerfile, among the
/// files that exist; a `Containerfile` wins.
pub fn has_custom(existing: &Vec<String>) -> (r: Option<String>)
    ensures
        r matches Some(n) ==> first_existing(string_seq(existing@), seq!["Containerfile"@, "Dockerfile"@]) == Some(n@),
        r is None ==> first_existing(string_seq(existing@), seq!["Containerfile"@, "Dockerfile"@]) is None,
{
    let names: Vec<&'static str> = vec!["Containerfile", "Dockerfile"];
    assert(names@.map_values(|s: &str| s@) == seq!["Containerfile"@, "Dockerfile"@]);
    match crate::detect::first_existing_names(existing, &names) {
        Some(c) => Some(c.to_owned()),
        None => None,
    }
}

/// The user's Containerfile when there is one, the generated one otherwise.
pub fn get(custom: Option<String>, info: &RuntimeInfo) -> (s: String)
    ensures
        s@ == match custom {
            Some(c) => c@,
            None => containerfile_spec(*info),
        },
{
    match custom {
        Some(c) => c,
        None => generate(info),
    }
}

/// The commands that install a project's dependencies for bare-process
/// execution.
pub open spec fn setup_commands_spec(info: RuntimeInfo) -> Seq<Seq<char>> {
    if info.dependencies@.len() == 0 {
        seq![]
    } else {
        match info.runtime {
            Runtime::Python => seq!["python3 -m venv .venv"@, ".venv/bin/pip install -r requirements.txt"@],
            Runtime::Node => seq!["npm install --production"@],
            Runtime::Go => seq!["go mod download"@],
            Runtime::Rust => seq!["cargo build --release"@],
            _ => seq![],
        }
    }
}

/// Generates setup commands for bare-process execution (no containers).
pub fn setup_commands(info: &RuntimeInfo) -> (cmds: Vec<String>)
    ensures
        string_seq(cmds@) == setup_commands_spec(*info),
{
    let has_deps = info.dependencies.len() > 0;
    let mut cmds: Vec<String> = Vec::new();
    if has_deps {
        match info.runtime {
            Runtime::Python => {
                cmds.push("python3 -m venv .venv".to_owned());
                cmds.push(".venv/bin/pip install -r requirements.txt".to_owned());
            },
            Runtime::Node => {
                cmds.push("npm install --production".to_owned());
            },
            Runtime::Go => {
                cmds.push("go mod download".to_owned());
            },
            Runtime::Rust => {
                cmds.push("cargo build --release".to_owned());
            },
            _ => {},
        }
    }
    assert(string_seq(cmds@) == setup_commands_spec(*info));
    cmds
}

proof fn lemma_ends_with_suffix(head: Seq<char>, tail: Seq<char>)
    ensures
        ends_with(head + tail, tail),
{
    assert((head + tail).subrange((head + tail).len() - tail.len(), (head + tail).len() as int) =~= tail);
}

/// The generated Containerfile starts the project's own entrypoint (`main.py`
/// when none was detected): it ends with the runtime's command on that
/// entrypoint, and a shell project's entrypoint is also made executable.
/// A Rust project runs the binary its release build installs.
pub proof fn containerfile_runs_the_entrypoint(info: RuntimeInfo)
    ensures
        ({
            let e = match info.entrypoint {
                Some(x) => x@,
                None => "main.py"@,
            };
            let f = containerfile_spec(info);
            &&& info.runtime == Runtime::Go ==> ends_with(f, "CMD [\"go\", \"run\", \""@ + e + "\"]"@)
            &&& info.runtime == Runtime::Python ==> ends_with(f, "CMD [\"python\", \"-u\", \""@ + e + "\"]"@)
            &&& info.runtime == Runtime::Node ==> ends_with(f, "CMD [\"node\", \""@ + e + "\"]"@)
            &&& (info.runtime == Runtime::Shell || info.runtime == Runtime::Unknown) ==> ends_with(
                f,
                "CMD [\"sh\", \""@ + e + "\"]"@,
            ) && crate::text::contains(f, "RUN chmod +x "@ + e + "\n"@)
            &&& info.runtime == Runtime::Rust ==> ends_with(f, "CMD [\"/usr/local/bin/app\"]"@)
        }),
{
    let e = entry_or_default(info);
    let f = containerfile_spec(info);
    match info.runtime {
        Runtime::Go => {
            let head = "FROM golang:1.22\nWORKDIR /app\nCOPY go.mod go.sum* ./\nRUN [ -f go.mod ] && go mod download || true\nCOPY . .\n"@;
            let tail = "CMD [\"go\", \"run\", \""@ + e + "\"]"@;
            reveal_strlit("FROM golang:1.22\nWORKDIR /app\nCOPY go.mod go.sum* ./\nRUN [ -f go.mod ] && go mod download || true\nCOPY . .\nCMD [\"go\", \"run\", \"");
            reveal_strlit("FROM golang:1.22\nWORKDIR /app\nCOPY go.mod go.sum* ./\nRUN [ -f go.mod ] && go mod download || true\nCOPY . .\n");
            reveal_strlit("CMD [\"go\", \"run\", \"");
            assert(f =~= head + tail);
            lemma_ends_with_suffix(head, tail);
        },
        Runtime::Python => {
            let has = info.dependencies@.len() > 0 || version_file_is(info, "requirements.txt"@)
                || version_file_is(info, "pyproject.toml"@);
            let h0 = "FROM python:3.12-slim\nWORKDIR /app\n"@;
            let h = if has {
                h0 + "COPY requirements.txt* pyproject.toml* ./\nRUN [ -f requirements.txt ] && pip install --no-cache-dir -r requirements.txt || true\n"@
            } else {
                h0
            };
            reveal_strlit("COPY . .\nCMD [\"python\", \"-u\", \"");
            reveal_strlit("COPY . .\n");
            reveal_strlit("CMD [\"python\", \"-u\", \"");
            let tail = "CMD [\"python\", \"-u\", \""@ + e + "\"]"@;
            assert(f =~= (h + "COPY . .\n"@) + tail);
            lemma_ends_with_suffix(h + "COPY . .\n"@, tail);
        },
        Runtime::Node => {
            let has = info.dependencies@.len() > 0 || version_file_is(info, "package.json"@);
            let h0 = "FROM node:20-slim\nWORKDIR /app\n"@;
            let h = if has {
                h0 + "COPY package*.json ./\nRUN [ -f package.json ] && npm install --production || true\n"@
            } else {
                h0
            };
            reveal_strlit("COPY . .\nCMD [\"node\", \"");
            reveal_strlit("COPY . .\n");
            reveal_strlit("CMD [\"node\", \"");
            let tail = "CMD [\"node\", \""@ + e + "\"]"@;
            assert(f =~= (h + "COPY . .\n"@) + tail);
            lemma_ends_with_suffix(h + "COPY . .\n"@, tail);
        },
        Runtime::Rust => {
            let head = "FROM rust:1.77 AS builder\nWORKDIR /app\nCOPY . .\nRUN cargo build --release\n\nFROM debian:bookworm-slim\nRUN apt-get update && apt-get install -y --no-install-recommends ca-certificates && rm -rf /var/lib/apt/lists/*\nCOPY --from=builder /app/target/release/* /usr/local/bin/\n"@;
            let tail = "CMD [\"/usr/local/bin/app\"]"@;
            reveal_strlit("FROM rust:1.77 AS builder\nWORKDIR /app\nCOPY . .\nRUN cargo build --release\n\nFROM debian:bookworm-slim\nRUN apt-get update && apt-get install -y --no-install-recommends ca-certificates && rm -rf /var/lib/apt/lists/*\nCOPY --from=builder /app/target/release/* /usr/local/bin/\nCMD [\"/usr/local/bin/app\"]");
            reveal_strlit("FROM rust:1.77 AS builder\nWORKDIR /app\nCOPY . .\nRUN cargo build --release\n\nFROM debian:bookworm-slim\nRUN apt-get update && apt-get install -y --no-install-recommends ca-certificates && rm -rf /var/lib/apt/lists/*\nCOPY --from=builder /app/target/release/* /usr/local/bin/\n");
            reveal_strlit("CMD [\"/usr/local/bin/app\"]");
            assert(f =~= head + tail);
            lemma_ends_with_suffix(head, tail);
        },
        Runtime::Shell | Runtime::Unknown => {
            let h1 = "FROM alpine:3.19\nRUN apk add --no-cache bash curl\nWORKDIR /app\nCOPY . .\n"@;
            let mid = "RUN chmod +x "@ + e + "\n"@;
            let tail = "CMD [\"sh\", \""@ + e + "\"]"@;
            reveal_strlit("FROM alpine:3.19\nRUN apk add --no-cache bash curl\nWORKDIR /app\nCOPY . .\nRUN chmod +x ");
            reveal_strlit("FROM alpine:3.19\nRUN apk add --no-cache bash curl\nWORKDIR /app\nCOPY . .\n");
            reveal_strlit("RUN chmod +x ");
            reveal_strlit("\nCMD [\"sh\", \"");
            reveal_strlit("\n");
            reveal_strlit("CMD [\"sh\", \"");
            assert(f =~= (h1 + mid) + tail);
            lemma_ends_with_suffix(h1 + mid, tail);
            assert(crate::text::occurs_at(f, mid, h1.len() as int)) by {
                assert(f.subrange(h1.len() as int, (h1.len() + mid.len()) as int) =~= mid);
            }
        },
    }
}

proof fn lemma_starts_with_prefix(head: Seq<char>, tail: Seq<char>)
    ensures
        starts_with(head + tail, head),
{
    assert((head + tail).subrange(0, head.len() as int) =~= head);
}

proof fn lemma_contains_middle(a: Seq<char>, m: Seq<char>, b: Seq<char>)
    ensures
        contains(a + m + b, m),
{
    assert((a + m + b).subrange(a.len() as int, (a.len() + m.len()) as int) =~= m);
    assert(occurs_at(a + m + b, m, a.len() as int));
}

/// Each runtime builds on its own base image, and a project with
/// dependencies installs them: Python ones with pip when there are
/// dependencies or a `requirements.txt` or `pyproject.toml`, Node ones with
/// npm when there are dependencies or a `package.json`.
pub proof fn containerfile_base_and_install(info: RuntimeInfo)
    ensures
        ({
            let f = containerfile_spec(info);
            let has_version = |name: Seq<char>| info.version_file matches Some(v) && v@ == name;
            &&& info.runtime == Runtime::Python ==> starts_with(f, "FROM python:3.12-slim\n"@)
            &&& info.runtime == Runtime::Python && (info.dependencies@.len() > 0 || has_version("requirements.txt"@)
                || has_version("pyproject.toml"@)) ==> contains(f, "pip install --no-cache-dir -r requirements.txt"@)
            &&& info.runtime == Runtime::Node ==> starts_with(f, "FROM node:20-slim\n"@)
            &&& info.runtime == Runtime::Node && (info.dependencies@.len() > 0 || has_version("package.json"@))
                ==> contains(f, "npm install --production"@)
            &&& info.runtime == Runtime::Go ==> starts_with(f, "FROM golang:1.22\n"@) && contains(f, "go mod download"@)
            &&& info.runtime == Runtime::Rust ==> starts_with(f, "FROM rust:1.77 AS builder\n"@) && contains(
                f,
                "cargo build --release"@,
            )
            &&& (info.runtime == Runtime::Shell || info.runtime == Runtime::Unknown) ==> starts_with(
                f,
                "FROM alpine:3.19\n"@,
            )
        }),
{
    let e = entry_or_default(info);
    let f = containerfile_spec(info);
    match info.runtime {
        Runtime::Python => {
            let has = info.dependencies@.len() > 0 || version_file_is(info, "requirements.txt"@)
                || version_file_is(info, "pyproject.toml"@);
            let h0 = "FROM python:3.12-slim\n"@;
            let w = "WORKDIR /app\n"@;
            reveal_strlit("FROM python:3.12-slim\nWORKDIR /app\n");
            reveal_strlit("FROM python:3.12-slim\n");
            reveal_strlit("WORKDIR /app\n");
            let rest_tail = "COPY . .\nCMD [\"python\", \"-u\", \""@ + e + "\"]"@;
            if has {
                let a = "COPY requirements.txt* pyproject.toml* ./\nRUN [ -f requirements.txt ] && "@;
                let m = "pip install --no-cache-dir -r requirements.txt"@;
                let b = " || true\n"@;
                reveal_strlit("COPY requirements.txt* pyproject.toml* ./\nRUN [ -f requirements.txt ] && pip install --no-cache-dir -r requirements.txt || true\n");
                reveal_strlit("COPY requirements.txt* pyproject.toml* ./\nRUN [ -f requirements.txt ] && ");
                reveal_strlit("pip install --no-cache-dir -r requirements.txt");
                reveal_strlit(" || true\n");
                assert(f =~= (h0 + w + a) + m + (b + rest_tail));
                lemma_contains_middle(h0 + w + a, m, b + rest_tail);
                assert(f =~= h0 + (w + a + m + b + rest_tail));
                lemma_starts_with_prefix(h0, w + a + m + b + rest_tail);
            } else {
                assert(f =~= h0 + (w + rest_tail));
                lemma_starts_with_prefix(h0, w + rest_tail);
            }
        },
        Runtime::Node => {
            let has = info.dependencies@.len() > 0 || version_file_is(info, "package.json"@);
            let h0 = "FROM node:20-slim\n"@;
            let w = "WORKDIR /app\n"@;
            reveal_strlit("FROM node:20-slim\nWORKDIR /app\n");
            reveal_strlit("FROM node:20-slim\n");
            reveal_strlit("WORKDIR /app\n");
            let rest_tail = "COPY . .\nCMD [\"node\", \""@ + e + "\"]"@;
            if has {
                let a = "COPY package*.json ./\nRUN [ -f package.json ] && "@;
                let m = "npm install --production"@;
                let b = " || true\n"@;
                reveal_strlit("COPY package*.json ./\nRUN [ -f package.json ] && npm install --production || true\n");
                reveal_strlit("COPY package*.json ./\nRUN [ -f package.json ] && ");
                reveal_strlit("npm install --production");
                reveal_strlit(" || true\n");
                assert(f =~= (h0 + w + a) + m + (b + rest_tail));
                lemma_contains_middle(h0 + w + a, m, b + rest_tail);
                assert(f =~= h0 + (w + a + m + b + rest_tail));
                lemma_starts_with_prefix(h0, w + a + m + b + rest_tail);
            } else {
                assert(f =~= h0 + (w + rest_tail));
                lemma_starts_with_prefix(h0, w + rest_tail);
            }
        },
        Runtime::Go => {
            let h0 = "FROM golang:1.22\n"@;
            let a = "WORKDIR /app\nCOPY go.mod go.sum* ./\nRUN [ -f go.mod ] && "@;
            let m = "go mod download"@;
            let b = " || true\nCOPY . .\nCMD [\"go\", \"run\", \""@ + e + "\"]"@;
            reveal_strlit("FROM golang:1.22\nWORKDIR /app\nCOPY go.mod go.sum* ./\nRUN [ -f go.mod ] && go mod download || true\nCOPY . .\nCMD [\"go\", \"run\", \"");
            reveal_strlit("FROM golang:1.22\n");
            reveal_strlit("WORKDIR /app\nCOPY go.mod go.sum* ./\nRUN [ -f go.mod ] && ");
            reveal_strlit("go mod download");
            reveal_strlit(" || true\nCOPY . .\nCMD [\"go\", \"run\", \"");
            assert(f =~= (h0 + a) + m + b);
            lemma_contains_middle(h0 + a, m, b);
            assert(f =~= h0 + (a + m + b));
            lemma_starts_with_prefix(h0, a + m + b);
        },
        Runtime::Rust => {
            let h0 = "FROM rust:1.77 AS builder\n"@;
            let a = "WORKDIR /app\nCOPY . .\nRUN "@;
            let m = "cargo build --release"@;
            let b = "\n\nFROM debian:bookworm-slim\nRUN apt-get update && apt-get install -y --no-install-recommends ca-certificates && rm -rf /var/lib/apt/lists/*\nCOPY --from=builder /app/target/release/* /usr/local/bin/\nCMD [\"/usr/local/bin/app\"]"@;
            reveal_strlit("FROM rust:1.77 AS builder\nWORKDIR /app\nCOPY . .\nRUN cargo build --release\n\nFROM debian:bookworm-slim\nRUN apt-get update && apt-get install -y --no-install-recommends ca-certificates && rm -rf /var/lib/apt/lists/*\nCOPY --from=builder /app/target/release/* /usr/local/bin/\nCMD [\"/usr/local/bin/app\"]");
            reveal_strlit("FROM rust:1.77 AS builder\n");
            reveal_strlit("WORKDIR /app\nCOPY . .\nRUN ");
            reveal_strlit("cargo build --release");
            reveal_strlit("\n\nFROM debian:bookworm-slim\nRUN apt-get update && apt-get install -y --no-install-recommends ca-certificates && rm -rf /var/lib/apt/lists/*\nCOPY --from=builder /app/target/release/* /usr/local/bin/\nCMD [\"/usr/local/bin/app\"]");
            assert(f =~= (h0 + a) + m + b);
            lemma_contains_middle(h0 + a, m, b);
            assert(f =~= h0 + (a + m + b));
            lemma_starts_with_prefix(h0, a + m + b);
        },
        Runtime::Shell | Runtime::Unknown => {
            let h0 = "FROM alpine:3.19\n"@;
            let rest = "RUN apk add --no-cache bash curl\nWORKDIR /app\nCOPY . .\nRUN chmod +x "@ + e + "\nCMD [\"sh\", \""@ + e + "\"]"@;
            reveal_strlit("FROM alpine:3.19\nRUN apk add --no-cache bash curl\nWORKDIR /app\nCOPY . .\nRUN chmod +x ");
            reveal_strlit("FROM alpine:3.19\n");
            reveal_strlit("RUN apk add --no-cache bash curl\nWORKDIR /app\nCOPY . .\nRUN chmod +x ");
            assert(f =~= h0 + rest);
            lemma_starts_with_prefix(h0, rest);
        },
    }
}

} // verus!
