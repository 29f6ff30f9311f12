//! The desktop side's NATS subjects, which address an agent without an
//! owner segment.

use vstd::prelude::*;
use crate::nats_relay::{event_category, event_category_of};

verus! {

/// Connection settings of the desktop's NATS link.
pub struct NatsConfig {
    pub url: String,
    pub creds_path: Option<String>,
    pub agent_id: String,
}

/// `berth.{agent_id}.event.{category}`.
pub fn event_subject(agent_id: &str, event_type: &str) -> (s: String)
    ensures
        s@ == "berth."@ + agent_id@ + ".event."@ + event_category(event_type@),
{
    let category = event_category_of(event_type);
    let mut s = "berth.".to_owned();
    s.append(agent_id);
    s.append(".event.");
    s.append(category);
    s
}

/// `berth.{agent_id}.log.{project_id}`.
pub fn log_subject(agent_id: &str, project_id: &str) -> (s: String)
    ensures
        s@ == "berth."@ + agent_id@ + ".log."@ + project_id@,
{
    let mut s = "berth.".to_owned();
    s.append(agent_id);
    s.append(".log.");
    s.append(project_id);
    s
}

/// `berth.{agent_id}.heartbeat`.
pub fn heartbeat_subject(agent_id: &str) -> (s: String)
    ensures
        s@ == "berth."@ + agent_id@ + ".heartbeat"@,
{
    let mut s = "berth.".to_owned();
    s.append(agent_id);
    s.append(".heartbeat");
    s
}

/// `berth.{agent_id}.cmd.{cmd_type}`.
pub fn cmd_subject(agent_id: &str, cmd_type: &str) -> (s: String)
    ensures
        s@ == "berth."@ + agent_id@ + ".cmd."@ + cmd_type@,
{
    let mut s = "berth.".to_owned();
    s.append(agent_id);
    s.append(".cmd.");
    s.append(cmd_type);
    s
}

/// `berth.{agent_id}.resp.{request_id}`.
pub fn resp_subject(agent_id: &str, request_id: &str) -> (s: String)
    ensures
        s@ == "berth."@ + agent_id@ + ".resp."@ + request_id@,
{
    let mut s = "berth.".to_owned();
    s.append(agent_id);
    s.append(".resp.");
    s.append(request_id);
    s
}

/// A command sent to an agent over the desktop's NATS link.
pub struct NatsCommand {
    pub request_id: String,
    pub reply_to: String,
    pub cmd: NatsCommandKind,
}

/// The commands the desktop sends.
#[allow(inconsistent_fields)]
pub enum NatsCommandKind {
    Health,
    Status,
    Stop { project_id: String },
    Execute {
        project_id: String,
        runtime: String,
        entrypoint: String,
        working_dir: String,
        code: Option<String>,
        image_tag: Option<String>,
        env_vars: Vec<(String, String)>,
        container_name: Option<String>,
    },
    Deploy {
        project_id: String,
        runtime: String,
        entrypoint: String,
        containerfile: String,
        version: u32,
        setup_commands: Vec<String>,
        archive_base64: String,
    },
    GetExecutions { project_id: String, limit: u32 },
    GetExecutionLogs { execution_id: String, since_seq: i64 },
    AddSchedule { project_id: String, cron_expr: String },
    RemoveSchedule { schedule_id: String },
    ListSchedules { project_id: String },
    UpgradeDownload {
        version: String,
        download_url: String,
        github_token: Option<String>,
        checksum_sha256: String,
    },
    DeployChunked {
        project_id: String,
        runtime: String,
        entrypoint: String,
        containerfile: String,
        version: u32,
        setup_commands: Vec<String>,
        total_size: u64,
        chunk_count: u32,
        checksum_sha256: String,
    },
    Rollback,
}

/// Whether a command succeeded.
pub enum NatsResponseStatus {
    /// Written `Ok` on the wire.
    Success,
    Error(String),
}

/// A running project in a status reply.
pub struct NatsProjectStatus {
    pub project_id: String,
    pub status: String,
    pub started_at: String,
}

/// An execution in an executions reply.
pub struct NatsExecutionInfo {
    pub id: String,
    pub project_id: String,
    pub deployment_id: String,
    pub started_at: String,
    pub finished_at: String,
    pub exit_code: i32,
    pub trigger: String,
    pub status: String,
}

/// A schedule in a schedules reply.
pub struct NatsScheduleInfo {
    pub id: String,
    pub project_id: String,
    pub cron_expr: String,
    pub enabled: bool,
    pub created_at: String,
    pub last_triggered_at: String,
    pub next_run_at: String,
}

} // verus!
