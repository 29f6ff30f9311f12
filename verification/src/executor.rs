//! How the agent runs a project without a container: the program and
//! arguments for each runtime.

use vstd::prelude::*;
use crate::runtime::Runtime;
use crate::setup::{join_path, join_path_str};
use crate::text::strings;

verus! {

/// A program and its arguments.
pub struct CommandSpec {
    pub program: String,
    pub args: Vec<String>,
}

/// The program that runs a project: the virtualenv's `python3` when there
/// is one, else the runtime's tool.
pub open spec fn program_for(runtime: Runtime, working_dir: Seq<char>, venv_python_exists: bool) -> Seq<char> {
    match runtime {
        Runtime::Python => if venv_python_exists { join_path(working_dir, ".venv/bin/python3"@) } else { "python3"@ },
        Runtime::Node => "node"@,
        Runtime::Go => "go"@,
        Runtime::Rust => "cargo"@,
        Runtime::Shell | Runtime::Unknown => "sh"@,
    }
}

/// Its arguments: unbuffered Python, `go run`, `cargo run`, or the
/// entrypoint alone.
pub open spec fn args_for(runtime: Runtime, entrypoint: Seq<char>) -> Seq<Seq<char>> {
    match runtime {
        Runtime::Python => seq!["-u"@, entrypoint],
        Runtime::Node => seq![entrypoint],
        Runtime::Go => seq!["run"@, entrypoint],
        Runtime::Rust => seq!["run"@],
        Runtime::Shell | Runtime::Unknown => seq![entrypoint],
    }
}

/// The command that runs `entrypoint` of a project in `working_dir`.
pub fn build_command(runtime: Runtime, entrypoint: &str, working_dir: &str, venv_python_exists: bool) -> (c: CommandSpec)
    ensures
        c.program@ == program_for(runtime, working_dir@, venv_python_exists),
        strings(c.args@) == args_for(runtime, entrypoint@),
{
    let mut args: Vec<String> = Vec::new();
    let program = match runtime {
        Runtime::Python => {
            args.push("-u".to_owned());
            args.push(entrypoint.to_owned());
            if venv_python_exists {
                join_path_str(working_dir, ".venv/bin/python3")
            } else {
                "python3".to_owned()
            }
        },
        Runtime::Node => {
            args.push(entrypoint.to_owned());
            "node".to_owned()
        },
        Runtime::Go => {
            args.push("run".to_owned());
            args.push(entrypoint.to_owned());
            "go".to_owned()
        },
        Runtime::Rust => {
            args.push("run".to_owned());
            "cargo".to_owned()
        },
        Runtime::Shell | Runtime::Unknown => {
            args.push(entrypoint.to_owned());
            "sh".to_owned()
        },
    };
    assert(strings(args@) =~= args_for(runtime, entrypoint@));
    CommandSpec { program, args }
}

} // verus!
