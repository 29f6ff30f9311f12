//! The decisions of the agent's service behind its gRPC and NATS handlers:
//! where deployments go, which execution requests are admissible, how a
//! run is set up, and what health, stop, publish, schedule and deploy
//! requests report.

use vstd::prelude::*;
use crate::text::{
    contains, has_char, starts_with, decimal, str_chars, contains_chars, has_char_chars,
    starts_with_chars, u64_to_decimal, strings, str_eq,
};
use crate::setup::{join_path, join_path_str};
use crate::path_safety::{resolved_within, resolved_path_is_within};
use crate::schedule::{next_run, next_run_representable, parse_next_run};

verus! {

/// A project id that could leave the deploys directory: it holds `..`, a
/// path separator or a NUL.
pub open spec fn illegal_project_id(project_id: Seq<char>) -> bool {
    contains(project_id, ".."@) || has_char(project_id, '/') || has_char(project_id, '\\') || has_char(project_id, '\0')
}

/// The directory of version `version` of a project:
/// `{deploys_dir}/{project_id}/v{version}`.
pub open spec fn deploy_path(deploys_dir: Seq<char>, project_id: Seq<char>, version: u32) -> Seq<char> {
    join_path(join_path(deploys_dir, project_id), "v"@ + decimal(version as nat))
}

/// The directory a deployment is extracted to, refusing project ids that
/// would escape the deploys directory.
pub fn deploy_dir(deploys_dir: &str, project_id: &str, version: u32) -> (r: Result<String, String>)
    ensures
        r is Err <==> illegal_project_id(project_id@),
        r matches Ok(p) ==> p@ == deploy_path(deploys_dir@, project_id@, version),
        r matches Err(e) ==> e@ == "Invalid project_id: contains illegal characters"@,
{
    let p = str_chars(project_id);
    if contains_chars(&p, &str_chars("..")) || has_char_chars(&p, '/') || has_char_chars(&p, '\\')
        || has_char_chars(&p, '\0') {
        return Err("Invalid project_id: contains illegal characters".to_owned());
    }
    let base = join_path_str(deploys_dir, project_id);
    let mut v = "v".to_owned();
    v.append(u64_to_decimal(version as u64).as_str());
    Ok(join_path_str(base.as_str(), v.as_str()))
}

/// The first reason an execution request is refused, if any: an entrypoint
/// that is absolute, climbs with `..` or holds a NUL; a working directory
/// with a NUL; or, when no code is sent, a working directory that is
/// relative, or that lies outside both the deploys directory and the agent's
/// temporary directory once `.` and `..` are resolved.
pub open spec fn execute_input_error(
    entrypoint: Seq<char>,
    working_dir: Seq<char>,
    has_code: bool,
    deploys_dir: Seq<char>,
    tmp_dir: Seq<char>,
) -> Option<Seq<char>> {
    if contains(entrypoint, ".."@) || starts_with(entrypoint, "/"@) || has_char(entrypoint, '\0') {
        Some("Invalid entrypoint: must be a relative path without '..'"@)
    } else if has_char(working_dir, '\0') {
        Some("Invalid working_dir: contains null bytes"@)
    } else if working_dir.len() > 0 && !has_code && (!starts_with(working_dir, "/"@) || (
    !resolved_within(working_dir, deploys_dir) && !resolved_within(working_dir, tmp_dir))) {
        Some("Invalid working_dir: must be within agent deploy directory"@)
    } else {
        None
    }
}

/// Checks an execution request against path traversal. `deploys_dir` and
/// `tmp_dir` are the agent's absolute directories.
pub fn validate_execute_inputs(
    entrypoint: &str,
    working_dir: &str,
    has_code: bool,
    deploys_dir: &str,
    tmp_dir: &str,
) -> (r: Result<(), String>)
    ensures
        match execute_input_error(entrypoint@, working_dir@, has_code, deploys_dir@, tmp_dir@) {
            Some(e) => r matches Err(m) && m@ == e,
            None => r is Ok,
        },
{
    let ep = str_chars(entrypoint);
    if contains_chars(&ep, &str_chars("..")) || starts_with_chars(&ep, &str_chars("/")) || has_char_chars(&ep, '\0') {
        return Err("Invalid entrypoint: must be a relative path without '..'".to_owned());
    }
    let wd = str_chars(working_dir);
    if has_char_chars(&wd, '\0') {
        return Err("Invalid working_dir: contains null bytes".to_owned());
    }
    if wd.len() > 0 && !has_code {
        if !starts_with_chars(&wd, &str_chars("/")) || (!resolved_path_is_within(deploys_dir, working_dir)
            && !resolved_path_is_within(tmp_dir, working_dir)) {
            return Err("Invalid working_dir: must be within agent deploy directory".to_owned());
        }
    }
    Ok(())
}

/// A run in service mode is supervised and restarted.
pub fn is_service_mode(run_mode: &str) -> (b: bool)
    ensures
        b == (run_mode@ == "service"@),
{
    str_eq(run_mode, "service")
}

/// A run goes through a container when an image tag is given.
pub fn uses_container(image_tag: Option<&str>) -> (b: bool)
    ensures
        b == (match image_tag { Some(t) => t@.len() > 0, None => false }),
{
    match image_tag {
        Some(t) => t.unicode_len() > 0,
        None => false,
    }
}

/// The container a run uses: the one named, else `berth-{project_id}`.
pub fn container_name_for(container_name: Option<&str>, project_id: &str) -> (s: String)
    ensures
        s@ == (match container_name { Some(n) => n@, None => "berth-"@ + project_id@ }),
{
    match container_name {
        Some(n) => n.to_owned(),
        None => {
            let mut s = "berth-".to_owned();
            s.append(project_id);
            s
        },
    }
}

/// The container of a scheduled run: `berth-sched-{project_id}`.
pub fn scheduled_container_name(project_id: &str) -> (s: String)
    ensures
        s@ == "berth-sched-"@ + project_id@,
{
    let mut s = "berth-sched-".to_owned();
    s.append(project_id);
    s
}

/// The file sent code is written to: the entrypoint, or `main.py` when
/// none is given.
pub fn code_entrypoint(entrypoint: &str) -> (s: &str)
    ensures
        s@ == (if entrypoint@.len() == 0 { "main.py"@ } else { entrypoint@ }),
{
    if entrypoint.unicode_len() == 0 {
        "main.py"
    } else {
        entrypoint
    }
}

/// The upgrade state shown in health reports: `in_probation` while a new
/// binary is on probation, `rolled_back` after an automatic rollback, else
/// empty.
pub fn probation_status(probation_marker: bool, rollback_marker: bool) -> (s: &'static str)
    ensures
        s@ == (if probation_marker { "in_probation"@ } else if rollback_marker { "rolled_back"@ } else { ""@ }),
{
    if probation_marker {
        "in_probation"
    } else if rollback_marker {
        "rolled_back"
    } else {
        ""
    }
}

/// The agent's health report.
pub struct HealthInfo {
    pub version: String,
    pub status: String,
    pub uptime_seconds: u64,
    pub podman_version: String,
    pub container_ready: bool,
    pub os: String,
    pub arch: String,
    pub probation_status: String,
    pub tunnel_providers: Vec<String>,
}

/// The health report from what the agent observed: it is healthy, its
/// container runtime is ready when podman was found.
pub fn health_info(
    version: &str,
    uptime_seconds: u64,
    podman_version: Option<String>,
    os: &str,
    arch: &str,
    probation_marker: bool,
    rollback_marker: bool,
    tunnel_providers: Vec<String>,
) -> (h: HealthInfo)
    ensures
        h.version@ == version@,
        h.status@ == "healthy"@,
        h.uptime_seconds == uptime_seconds,
        h.podman_version@ == (match podman_version { Some(v) => v@, None => Seq::<char>::empty() }),
        h.container_ready == podman_version is Some,
        h.os@ == os@,
        h.arch@ == arch@,
        h.probation_status@ == (if probation_marker { "in_probation"@ } else if rollback_marker { "rolled_back"@ } else { ""@ }),
        h.tunnel_providers == tunnel_providers,
{
    let container_ready = podman_version.is_some();
    let pv = match podman_version {
        Some(v) => v,
        None => String::new(),
    };
    HealthInfo {
        version: version.to_owned(),
        status: "healthy".to_owned(),
        uptime_seconds,
        podman_version: pv,
        container_ready,
        os: os.to_owned(),
        arch: arch.to_owned(),
        probation_status: probation_status(probation_marker, rollback_marker).to_owned(),
        tunnel_providers,
    }
}

/// A managed project in a status report.
pub struct ProjectStatusInfo {
    pub project_id: String,
    pub status: String,
    pub started_at: String,
    pub run_mode: String,
    pub restart_count: u32,
    pub supervisor_state: String,
    pub uptime_secs: u64,
}

/// Seconds since `started_at` (Unix seconds) at `now`, zero if the start
/// lies ahead.
pub fn uptime_secs(now: i64, started_at: i64) -> (s: u64)
    ensures
        s == (if now > started_at { now - started_at } else { 0 }),
{
    if now > started_at {
        ((now as i128) - (started_at as i128)) as u64
    } else {
        0
    }
}

/// The answer to a stop request: whether a process was stopped, and the
/// message.
pub fn stop_reply(project_id: &str, was_running: bool) -> (r: (bool, String))
    ensures
        r.0 == was_running,
        r.1@ == (if was_running { "Stopped project "@ + project_id@ } else { "Project "@ + project_id@ + " is not running"@ }),
{
    if was_running {
        let mut s = "Stopped project ".to_owned();
        s.append(project_id);
        (true, s)
    } else {
        let mut s = "Project ".to_owned();
        s.append(project_id);
        s.append(" is not running");
        (false, s)
    }
}

/// The next run of a new schedule, or the error for an expression that is
/// not understood.
pub fn schedule_first_run(cron_expr: &str, now: i64) -> (r: Result<i64, String>)
    requires
        next_run_representable(cron_expr@, now as int),
    ensures
        match next_run(cron_expr@, now as int) {
            Some(t) => r == Ok::<i64, String>(t as i64),
            None => r matches Err(e) && e@ == "Invalid cron expression: "@ + cron_expr@,
        },
{
    match parse_next_run(cron_expr, now) {
        Some(t) => Ok(t),
        None => {
            let mut e = "Invalid cron expression: ".to_owned();
            e.append(cron_expr);
            Err(e)
        },
    }
}

/// An upgrade needs a binary.
pub fn check_upgrade_data(data: &[u8]) -> (r: Result<(), String>)
    ensures
        r is Ok <==> data@.len() > 0,
        r matches Err(e) ==> e@ == "No upgrade data received"@,
{
    if data.len() == 0 {
        Err("No upgrade data received".to_owned())
    } else {
        Ok(())
    }
}

/// A rollback needs a backup binary.
pub fn check_rollback_backup(backup_exists: bool) -> (r: Result<(), String>)
    ensures
        r is Ok <==> backup_exists,
        r matches Err(e) ==> e@ == "No backup available \u{2014} no previous version to rollback to"@,
{
    if backup_exists {
        Ok(())
    } else {
        Err("No backup available \u{2014} no previous version to rollback to".to_owned())
    }
}

/// How a deployment is prepared once its source is extracted.
#[derive(PartialEq, Eq, Structural, Clone, Copy, Debug)]
pub enum DeployMode {
    /// Build a container image from the Containerfile.
    Container,
    /// Nothing to run: the deployment is ready.
    NoSetup,
    /// Run the setup commands in the deploy directory.
    Setup,
}

/// A deployment builds an image when podman is there and a Containerfile
/// was sent; otherwise it runs its setup commands, if any.
pub fn deploy_mode(podman_available: bool, containerfile: &str, setup_command_count: usize) -> (m: DeployMode)
    ensures
        m == (if podman_available && containerfile@.len() > 0 {
            DeployMode::Container
        } else if setup_command_count == 0 {
            DeployMode::NoSetup
        } else {
            DeployMode::Setup
        }),
{
    if podman_available && containerfile.unicode_len() > 0 {
        DeployMode::Container
    } else if setup_command_count == 0 {
        DeployMode::NoSetup
    } else {
        DeployMode::Setup
    }
}

/// A line of a deployment's progress stream.
pub struct DeployLine {
    pub phase: String,
    pub text: String,
    pub image_tag: String,
    pub version: u32,
    pub is_final: bool,
    pub success: bool,
}

fn deploy_line(phase: &str, text: String, image_tag: String, version: u32, is_final: bool, success: bool) -> (l: DeployLine)
    ensures
        l.phase@ == phase@,
        l.text == text,
        l.image_tag == image_tag,
        l.version == version,
        l.is_final == is_final,
        l.success == success,
{
    DeployLine { phase: phase.to_owned(), text, image_tag, version, is_final, success }
}

/// The first line: the source is being extracted into `dir`.
pub fn extracting_line(dir: &str, version: u32) -> (l: DeployLine)
    ensures
        l.phase@ == "extracting"@,
        l.text@ == "Extracting source to "@ + dir@,
        l.image_tag@.len() == 0,
        l.version == version,
        !l.is_final,
        !l.success,
{
    let mut t = "Extracting source to ".to_owned();
    t.append(dir);
    deploy_line("extracting", t, String::new(), version, false, false)
}

/// A progress line of the build or setup phase: `phase` is `building` or
/// `setup`, `text` what the tool printed or the phase's announcement.
pub fn progress_line(phase: &str, text: &str, version: u32) -> (l: DeployLine)
    ensures
        l.phase@ == phase@,
        l.text@ == text@,
        l.image_tag@.len() == 0,
        l.version == version,
        !l.is_final,
        !l.success,
{
    deploy_line(phase, text.to_owned(), String::new(), version, false, false)
}

/// The final line of a container build: the image built, or the failure.
pub fn build_finished_line(result: Result<String, String>, version: u32) -> (l: DeployLine)
    ensures
        l.version == version,
        l.is_final,
        match result {
            Ok(tag) => l.success && l.phase@ == "ready"@ && l.text@ == "Image built: "@ + tag@ && l.image_tag == tag,
            Err(e) => !l.success && l.phase@ == "error"@ && l.text@ == "Build failed: "@ + e@ && l.image_tag@.len() == 0,
        },
{
    match result {
        Ok(tag) => {
            let mut t = "Image built: ".to_owned();
            t.append(tag.as_str());
            deploy_line("ready", t, tag, version, true, true)
        },
        Err(e) => {
            let mut t = "Build failed: ".to_owned();
            t.append(e.as_str());
            deploy_line("error", t, String::new(), version, true, false)
        },
    }
}

/// The final line of a deployment without a container: ready with no setup
/// to run, ready after setup, or the setup's failure.
pub fn setup_finished_line(ran_setup: bool, result: Result<(), String>, version: u32) -> (l: DeployLine)
    ensures
        l.version == version,
        l.is_final,
        l.image_tag@.len() == 0,
        match result {
            Ok(()) => l.success && l.phase@ == "ready"@
                && l.text@ == (if ran_setup { "Setup complete"@ } else { "No setup needed"@ }),
            Err(e) => !l.success && l.phase@ == "error"@ && l.text@ == "Setup failed: "@ + e@,
        },
{
    match result {
        Ok(()) => {
            let t = if ran_setup { "Setup complete" } else { "No setup needed" };
            deploy_line("ready", t.to_owned(), String::new(), version, true, true)
        },
        Err(e) => {
            let mut t = "Setup failed: ".to_owned();
            t.append(e.as_str());
            deploy_line("error", t, String::new(), version, true, false)
        },
    }
}

/// The final line when the build or setup task itself died: `what` is
/// `Build` or `Setup`.
pub fn task_panicked_line(what: &str, error: &str, version: u32) -> (l: DeployLine)
    ensures
        l.phase@ == "error"@,
        l.text@ == what@ + " task panicked: "@ + error@,
        l.image_tag@.len() == 0,
        l.version == version,
        l.is_final,
        !l.success,
{
    let mut t = what.to_owned();
    t.append(" task panicked: ");
    t.append(error);
    deploy_line("error", t, String::new(), version, true, false)
}

/// How a scheduled run of a deployment is carried out.
pub enum ScheduledRun {
    /// Run the deployment's image under the container runtime.
    Container { runtime_cmd: String, image_tag: String, container_name: String },
    /// Run the deployment's entrypoint directly.
    Bare { runtime: crate::runtime::Runtime },
}

/// The scheduled run of a deployment: its image when it has one (with the
/// detected container runtime, podman by default), else its entrypoint
/// under its runtime.
pub fn scheduled_run(image_tag: Option<&str>, runtime: &str, runtime_cmd: Option<&str>, project_id: &str) -> (r: ScheduledRun)
    ensures
        match image_tag {
            Some(t) if t@.len() > 0 => r matches ScheduledRun::Container { runtime_cmd: c, image_tag: i, container_name: n }
                && c@ == (match runtime_cmd { Some(x) => x@, None => "podman"@ })
                && i@ == t@
                && n@ == "berth-sched-"@ + project_id@,
            _ => r matches ScheduledRun::Bare { runtime: rt } && rt == crate::runtime::runtime_named(runtime@),
        },
{
    match image_tag {
        Some(t) if t.unicode_len() > 0 => {
            let c = match runtime_cmd {
                Some(x) => x,
                None => "podman",
            };
            ScheduledRun::Container {
                runtime_cmd: c.to_owned(),
                image_tag: t.to_owned(),
                container_name: scheduled_container_name(project_id),
            }
        },
        _ => ScheduledRun::Bare { runtime: crate::runtime::parse_runtime(runtime) },
    }
}

/// A schedule is due when it is enabled and its next run is not after
/// `now`.
pub fn is_schedule_due(enabled: bool, next_run_at: Option<i64>, now: i64) -> (b: bool)
    ensures
        b == (enabled && (next_run_at matches Some(t) && t <= now)),
{
    enabled && match next_run_at {
        Some(t) => t <= now,
        None => false,
    }
}

/// What the scheduler records once a scheduled run is over.
pub struct ScheduledRunEnd {
    /// `completed` or `failed`, for the execution and the event.
    pub status: &'static str,
    /// The run's exit code, -1 when it could not be run or waited for.
    pub exit_code: i32,
    /// The event emitted: `schedule_triggered`.
    pub event_type: &'static str,
    /// The schedule's last run: the instant the run started.
    pub last_run_at: i64,
    /// The schedule's next run after that instant, `None` when its
    /// expression is not understood.
    pub next_run_at: Option<i64>,
}

/// The step after a scheduled run: the execution is finished with the run's
/// status and code, a `schedule_triggered` event is emitted with them, and
/// the schedule advances to its next run after `started_at`.
pub fn scheduled_run_end(cron_expr: &str, started_at: i64, result: Result<i32, String>) -> (r: ScheduledRunEnd)
    requires
        next_run_representable(cron_expr@, started_at as int),
    ensures
        match result {
            Ok(c) => r.exit_code == c && r.status@ == (if c == 0 { "completed"@ } else { "failed"@ }),
            Err(_) => r.exit_code == -1 && r.status@ == "failed"@,
        },
        r.event_type@ == "schedule_triggered"@,
        r.last_run_at == started_at,
        match next_run(cron_expr@, started_at as int) {
            Some(t) => r.next_run_at == Some(t as i64),
            None => r.next_run_at is None,
        },
{
    let (status, exit_code) = crate::supervisor::run_outcome(result);
    let next_run_at = parse_next_run(cron_expr, started_at);
    ScheduledRunEnd { status, exit_code, event_type: "schedule_triggered", last_run_at: started_at, next_run_at }
}

/// The output recorded for a scheduled run of the desktop.
pub fn run_output(result: &Result<i32, String>) -> (s: String)
    ensures
        s@ == (match result {
            Ok(c) => "Exited with code "@ + crate::text::signed_decimal(*c as int),
            Err(e) => "Error: "@ + e@,
        }),
{
    match result {
        Ok(c) => {
            let mut s = "Exited with code ".to_owned();
            s.append(crate::text::i64_to_decimal(*c as i64).as_str());
            s
        },
        Err(e) => {
            let mut s = "Error: ".to_owned();
            s.append(e.as_str());
            s
        },
    }
}

} // verus!
