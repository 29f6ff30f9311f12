//! Projects as the desktop records them, and the run modes and states of a
//! project.

use vstd::prelude::*;
use crate::runtime::Runtime;
use crate::text::str_eq;

verus! {

/// How a project runs: once to completion, or as a supervised service.
#[derive(PartialEq, Eq, Structural, Clone, Copy, Debug)]
pub enum RunMode {
    Oneshot,
    Service,
}

impl Default for RunMode {
    fn default() -> (m: Self)
        ensures
            m == RunMode::Oneshot,
    {
        RunMode::Oneshot
    }
}

/// The error for a run mode name that is not known.
pub open spec fn run_mode_error(s: Seq<char>) -> Seq<char> {
    "Invalid run mode: "@ + s + ". Use 'oneshot' or 'service'."@
}

impl RunMode {
    /// The run mode's name: `oneshot` or `service`.
    pub fn as_str(&self) -> (s: &'static str)
        ensures
            s@ == match *self {
                RunMode::Oneshot => "oneshot"@,
                RunMode::Service => "service"@,
            },
    {
        match self {
            RunMode::Oneshot => "oneshot",
            RunMode::Service => "service",
        }
    }

    /// Parses a run mode name.
    pub fn parse(s: &str) -> (r: Result<RunMode, String>)
        ensures
            s@ == "oneshot"@ <==> r == Ok::<RunMode, String>(RunMode::Oneshot),
            s@ == "service"@ <==> r == Ok::<RunMode, String>(RunMode::Service),
            r matches Err(e) ==> e@ == run_mode_error(s@),
    {
        proof {
            reveal_strlit("oneshot");
            reveal_strlit("service");
            assert("oneshot"@[0] != "service"@[0]);
        }
        if str_eq(s, "oneshot") {
            Ok(RunMode::Oneshot)
        } else if str_eq(s, "service") {
            Ok(RunMode::Service)
        } else {
            let mut e = "Invalid run mode: ".to_owned();
            e.append(s);
            e.append(". Use 'oneshot' or 'service'.");
            Err(e)
        }
    }
}

impl std::str::FromStr for RunMode {
    type Err = String;

    fn from_str(s: &str) -> (r: Result<Self, Self::Err>)
        ensures
            s@ == "oneshot"@ <==> r == Ok::<RunMode, String>(RunMode::Oneshot),
            s@ == "service"@ <==> r == Ok::<RunMode, String>(RunMode::Service),
            r matches Err(e) ==> e@ == run_mode_error(s@),
    {
        RunMode::parse(s)
    }
}

/// The state of a project.
#[derive(PartialEq, Eq, Structural, Clone, Copy, Debug)]
pub enum ProjectStatus {
    Idle,
    Running,
    Stopped,
    Failed,
}

impl ProjectStatus {
    /// The state's name as it is stored.
    pub fn as_str(&self) -> (s: &'static str)
        ensures
            s@ == match *self {
                ProjectStatus::Idle => "idle"@,
                ProjectStatus::Running => "running"@,
                ProjectStatus::Stopped => "stopped"@,
                ProjectStatus::Failed => "failed"@,
            },
    {
        match self {
            ProjectStatus::Idle => "idle",
            ProjectStatus::Running => "running",
            ProjectStatus::Stopped => "stopped",
            ProjectStatus::Failed => "failed",
        }
    }
}

/// A project. Instants are Unix seconds.
pub struct Project {
    pub id: String,
    pub name: String,
    pub path: String,
    pub runtime: Runtime,
    pub entrypoint: Option<String>,
    pub status: ProjectStatus,
    pub created_at: i64,
    pub updated_at: i64,
    pub last_run_at: Option<i64>,
    pub last_exit_code: Option<i32>,
    pub run_count: u32,
    pub notify_on_complete: bool,
    pub default_target: Option<String>,
    pub tunnel_url: Option<String>,
    pub tunnel_provider: Option<String>,
    pub run_mode: RunMode,
    pub service_port: Option<u16>,
}

impl Project {
    /// The new idle project with the given identifier, created at `now`.
    pub open spec fn new_at_spec(id: String, now: i64, name: String, path: String, runtime: Runtime) -> Project {
        Project {
            id,
            name,
            path,
            runtime,
            entrypoint: None,
            status: ProjectStatus::Idle,
            created_at: now,
            updated_at: now,
            last_run_at: None,
            last_exit_code: None,
            run_count: 0,
            notify_on_complete: true,
            default_target: None,
            tunnel_url: None,
            tunnel_provider: None,
            run_mode: RunMode::Oneshot,
            service_port: None,
        }
    }

    /// A new idle project with the given identifier, created at `now`.
    pub fn new_at(id: String, now: i64, name: String, path: String, runtime: Runtime) -> (p: Project)
        ensures
            p.id == id,
            p.name == name,
            p.path == path,
            p.runtime == runtime,
            p.entrypoint is None,
            p.status == ProjectStatus::Idle,
            p.created_at == now,
            p.updated_at == now,
            p.last_run_at is None,
            p.last_exit_code is None,
            p.run_count == 0,
            p.notify_on_complete,
            p.default_target is None,
            p.tunnel_url is None,
            p.tunnel_provider is None,
            p.run_mode == RunMode::Oneshot,
            p.service_port is None,
    {
        Project {
            id,
            name,
            path,
            runtime,
            entrypoint: None,
            status: ProjectStatus::Idle,
            created_at: now,
            updated_at: now,
            last_run_at: None,
            last_exit_code: None,
            run_count: 0,
            notify_on_complete: true,
            default_target: None,
            tunnel_url: None,
            tunnel_provider: None,
            run_mode: RunMode::Oneshot,
            service_port: None,
        }
    }

    /// A new idle project with a fresh random identifier, created now.
    pub fn new(name: String, path: String, runtime: Runtime) -> (p: Project)
        ensures
            crate::ids::hyphenated_uuid(p.id@),
            p == Project::new_at_spec(p.id, p.created_at, name, path, runtime),
    {
        let id = crate::ids::new_uuid_string();
        let now = crate::message_auth::current_timestamp();
        Project::new_at(id, now, name, path, runtime)
    }
}

/// The stream a log line was written to.
#[derive(PartialEq, Eq, Structural, Clone, Copy, Debug)]
pub enum LogStream {
    Stdout,
    Stderr,
}

impl LogStream {
    /// `stdout` or `stderr`, as logs are stored and sent.
    pub fn as_str(&self) -> (s: &'static str)
        ensures
            s@ == match *self {
                LogStream::Stdout => "stdout"@,
                LogStream::Stderr => "stderr"@,
            },
    {
        match self {
            LogStream::Stdout => "stdout",
            LogStream::Stderr => "stderr",
        }
    }

    /// The stream a stored name denotes: `stderr`, or else `stdout`.
    pub fn from_stored(s: &str) -> (r: LogStream)
        ensures
            r == (if s@ == "stderr"@ { LogStream::Stderr } else { LogStream::Stdout }),
    {
        if str_eq(s, "stderr") {
            LogStream::Stderr
        } else {
            LogStream::Stdout
        }
    }
}

} // verus!
