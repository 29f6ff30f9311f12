//! The MCP server's tool catalogue: each tool's name, description and
//! parameters, as `tools/list` announces them.

use vstd::prelude::*;
use crate::mcp::{McpTool, tool_of, tool_named, unknown_tool_error};

verus! {

/// One parameter of a tool: its name, JSON type (`string` or `integer`),
/// description, default value as written in the schema, and the values it is
/// limited to (empty when any value goes).
pub struct ToolParam {
    pub name: String,
    pub kind: String,
    pub description: String,
    pub default: Option<String>,
    pub choices: Vec<String>,
}

/// A tool as the catalogue lists it: name, description, parameters and the
/// names of the parameters a call must give.
pub struct ToolSpec {
    pub name: String,
    pub description: String,
    pub params: Vec<ToolParam>,
    pub required: Vec<String>,
}

/// A parameter as plain text: name, kind, description, default, choices.
pub type ParamView = (Seq<char>, Seq<char>, Seq<char>, Option<Seq<char>>, Seq<Seq<char>>);

/// A tool as plain text: name, description, parameters, required names.
pub type ToolView = (Seq<char>, Seq<char>, Seq<ParamView>, Seq<Seq<char>>);

/// The views of the parameters.
pub open spec fn param_views(v: Seq<ToolParam>) -> Seq<ParamView> {
    v.map_values(|p: ToolParam| p@)
}

/// The text of each string.
pub open spec fn texts(v: Seq<String>) -> Seq<Seq<char>> {
    v.map_values(|s: String| s@)
}

impl View for ToolParam {
    type V = ParamView;

    open spec fn view(&self) -> ParamView {
        (
            self.name@,
            self.kind@,
            self.description@,
            match self.default {
                Some(d) => Some(d@),
                None => None,
            },
            texts(self.choices@),
        )
    }
}

impl View for ToolSpec {
    type V = ToolView;

    open spec fn view(&self) -> ToolView {
        (self.name@, self.description@, param_views(self.params@), texts(self.required@))
    }
}

/// A parameter of type `string` with no default.
pub open spec fn string_param(name: Seq<char>, description: Seq<char>) -> ParamView {
    (name, "string"@, description, None, seq![])
}

/// A parameter of type `integer` with no default.
pub open spec fn integer_param(name: Seq<char>, description: Seq<char>) -> ParamView {
    (name, "integer"@, description, None, seq![])
}

/// `p` with the default value `default`.
pub open spec fn with_default(p: ParamView, default: Seq<char>) -> ParamView {
    (p.0, p.1, p.2, Some(default), p.4)
}

/// `p` limited to the values `choices`.
pub open spec fn with_choices(p: ParamView, choices: Seq<Seq<char>>) -> ParamView {
    (p.0, p.1, p.2, p.3, choices)
}

/// The catalogue entry of each tool.
pub open spec fn tool_entry(t: McpTool) -> ToolView {
    match t {
        McpTool::ListProjects => (
            "berth_list_projects"@,
            "List all Berth projects with their status, runtime, and metadata"@,
            seq![],
            seq![],
        ),
        McpTool::ProjectStatus => (
            "berth_project_status"@,
            "Get detailed status of a specific project including run history"@,
            seq![
                string_param("project_id"@, "Project UUID or name"@),
            ],
            seq!["project_id"@],
        ),
        McpTool::Deploy => (
            "berth_deploy"@,
            "Deploy code to a target. Can deploy from a directory path or inline code."@,
            seq![
                string_param("name"@, "Project name"@),
                string_param("path"@, "Path to code directory or file"@),
                string_param("code"@, "Inline code to deploy (alternative to path)"@),
                with_default(string_param("target"@, "Deploy target (default: local)"@), "local"@),
            ],
            seq!["name"@],
        ),
        McpTool::Run => (
            "berth_run"@,
            "Run a project and return its output"@,
            seq![
                string_param("project_id"@, "Project UUID or name"@),
                with_default(integer_param("timeout_secs"@, "Max seconds to wait for output (default: 30)"@), "30"@),
            ],
            seq!["project_id"@],
        ),
        McpTool::Stop => (
            "berth_stop"@,
            "Stop a running project"@,
            seq![
                string_param("project_id"@, "Project UUID or name"@),
            ],
            seq!["project_id"@],
        ),
        McpTool::Logs => (
            "berth_logs"@,
            "Fetch recent logs from a project run"@,
            seq![
                string_param("project_id"@, "Project UUID or name"@),
                with_default(integer_param("tail"@, "Number of recent lines to return (default: 50)"@), "50"@),
            ],
            seq!["project_id"@],
        ),
        McpTool::ImportCode => (
            "berth_import_code"@,
            "Import code from a path or inline string, creating a new project"@,
            seq![
                string_param("name"@, "Project name"@),
                string_param("path"@, "Path to existing code directory or file"@),
                string_param("code"@, "Inline code to save"@),
                string_param("filename"@, "Filename for inline code (e.g. main.py)"@),
            ],
            seq!["name"@],
        ),
        McpTool::DetectRuntime => (
            "berth_detect_runtime"@,
            "Auto-detect the runtime, entrypoint, and dependencies for a path"@,
            seq![
                string_param("path"@, "Path to code directory or file"@),
            ],
            seq!["path"@],
        ),
        McpTool::Delete => (
            "berth_delete"@,
            "Delete a project"@,
            seq![
                string_param("project_id"@, "Project UUID or name"@),
            ],
            seq!["project_id"@],
        ),
        McpTool::Health => (
            "berth_health"@,
            "Check Berth system health and version"@,
            seq![],
            seq![],
        ),
        McpTool::ScheduleAdd => (
            "berth_schedule_add"@,
            "Add a cron-like schedule to a project. Supports: @every 5m, @hourly, @daily, @weekly, or 'M H * * *'"@,
            seq![
                string_param("project_id"@, "Project UUID or name"@),
                string_param("cron"@, "Cron expression (e.g. '@every 5m', '@hourly', '@daily', '30 9 * * *')"@),
            ],
            seq!["project_id"@, "cron"@],
        ),
        McpTool::ScheduleList => (
            "berth_schedule_list"@,
            "List all schedules"@,
            seq![],
            seq![],
        ),
        McpTool::ScheduleRemove => (
            "berth_schedule_remove"@,
            "Remove a schedule by UUID"@,
            seq![
                string_param("schedule_id"@, "Schedule UUID"@),
            ],
            seq!["schedule_id"@],
        ),
        McpTool::ListTargets => (
            "berth_list_targets"@,
            "List configured deploy targets (local + remote agents)"@,
            seq![],
            seq![],
        ),
        McpTool::AddTarget => (
            "berth_add_target"@,
            "Add a new remote deploy target (agent endpoint)"@,
            seq![
                string_param("name"@, "Target name (e.g. 'my-vps', 'staging')"@),
                string_param("host"@, "Agent host address (IP or hostname)"@),
                with_default(integer_param("port"@, "Agent port (default: 50051)"@), "50051"@),
            ],
            seq!["name"@, "host"@],
        ),
        McpTool::RemoveTarget => (
            "berth_remove_target"@,
            "Remove a deploy target by name"@,
            seq![
                string_param("name"@, "Target name"@),
            ],
            seq!["name"@],
        ),
        McpTool::ListAgents => (
            "berth_list_agents"@,
            "List connected agents and their health status. Pings each target."@,
            seq![],
            seq![],
        ),
        McpTool::Publish => (
            "berth_publish"@,
            "Publish a running project to a public URL via tunnel (cloudflared). The project must be running and listening on a port."@,
            seq![
                string_param("project_id"@, "Project UUID or name"@),
                integer_param("port"@, "Local port the service listens on"@),
                with_choices(with_default(string_param("provider"@, "Tunnel provider (default: cloudflared)"@), "cloudflared"@), seq!["cloudflared"@]),
            ],
            seq!["project_id"@, "port"@],
        ),
        McpTool::Unpublish => (
            "berth_unpublish"@,
            "Stop the public URL tunnel for a project."@,
            seq![
                string_param("project_id"@, "Project UUID or name"@),
            ],
            seq!["project_id"@],
        ),
        McpTool::EnvSet => (
            "berth_env_set"@,
            "Set an environment variable for a project. Variables are passed to the process at runtime."@,
            seq![
                string_param("project_id"@, "Project UUID or name"@),
                string_param("key"@, "Variable name (e.g. API_KEY)"@),
                string_param("value"@, "Variable value"@),
            ],
            seq!["project_id"@, "key"@, "value"@],
        ),
        McpTool::EnvGet => (
            "berth_env_get"@,
            "Get all environment variables for a project."@,
            seq![
                string_param("project_id"@, "Project UUID or name"@),
            ],
            seq!["project_id"@],
        ),
        McpTool::EnvDelete => (
            "berth_env_delete"@,
            "Delete an environment variable from a project."@,
            seq![
                string_param("project_id"@, "Project UUID or name"@),
                string_param("key"@, "Variable name to delete"@),
            ],
            seq!["project_id"@, "key"@],
        ),
        McpTool::EnvImport => (
            "berth_env_import"@,
            "Import environment variables from .env format. Merges with existing variables."@,
            seq![
                string_param("project_id"@, "Project UUID or name"@),
                string_param("content"@, ".env file content (KEY=VALUE lines)"@),
            ],
            seq!["project_id"@, "content"@],
        ),
        McpTool::StoreList => (
            "berth_store_list"@,
            "List available templates from the Berth Template Store. Optionally filter by category (scrapers, api-servers, bots, ai-ml)."@,
            seq![
                string_param("category"@, "Filter by category: scrapers, api-servers, bots, ai-ml"@),
            ],
            seq![],
        ),
        McpTool::StoreSearch => (
            "berth_store_search"@,
            "Search the Berth Template Store by keyword."@,
            seq![
                string_param("query"@, "Search query"@),
            ],
            seq!["query"@],
        ),
        McpTool::StoreInstall => (
            "berth_store_install"@,
            "Install a template from the Berth Template Store, creating a new project ready to run."@,
            seq![
                string_param("template_id"@, "Template ID (e.g. hn-scraper, fastapi-starter)"@),
            ],
            seq!["template_id"@],
        ),
    }
}

/// The tool at each place of the catalogue, in the order `tools/list`
/// announces them.
pub open spec fn tool_at(i: int) -> McpTool {
    if i == 0 {
        McpTool::ListProjects
    } else if i == 1 {
        McpTool::ProjectStatus
    } else if i == 2 {
        McpTool::Deploy
    } else if i == 3 {
        McpTool::Run
    } else if i == 4 {
        McpTool::Stop
    } else if i == 5 {
        McpTool::Logs
    } else if i == 6 {
        McpTool::ImportCode
    } else if i == 7 {
        McpTool::DetectRuntime
    } else if i == 8 {
        McpTool::Delete
    } else if i == 9 {
        McpTool::Health
    } else if i == 10 {
        McpTool::ScheduleAdd
    } else if i == 11 {
        McpTool::ScheduleList
    } else if i == 12 {
        McpTool::ScheduleRemove
    } else if i == 13 {
        McpTool::ListTargets
    } else if i == 14 {
        McpTool::AddTarget
    } else if i == 15 {
        McpTool::RemoveTarget
    } else if i == 16 {
        McpTool::ListAgents
    } else if i == 17 {
        McpTool::Publish
    } else if i == 18 {
        McpTool::Unpublish
    } else if i == 19 {
        McpTool::EnvSet
    } else if i == 20 {
        McpTool::EnvGet
    } else if i == 21 {
        McpTool::EnvDelete
    } else if i == 22 {
        McpTool::EnvImport
    } else if i == 23 {
        McpTool::StoreList
    } else if i == 24 {
        McpTool::StoreSearch
    } else {
        McpTool::StoreInstall
    }
}

/// The place of each tool in the catalogue.
pub open spec fn tool_index(t: McpTool) -> int {
    match t {
        McpTool::ListProjects => 0,
        McpTool::ProjectStatus => 1,
        McpTool::Deploy => 2,
        McpTool::Run => 3,
        McpTool::Stop => 4,
        McpTool::Logs => 5,
        McpTool::ImportCode => 6,
        McpTool::DetectRuntime => 7,
        McpTool::Delete => 8,
        McpTool::Health => 9,
        McpTool::ScheduleAdd => 10,
        McpTool::ScheduleList => 11,
        McpTool::ScheduleRemove => 12,
        McpTool::ListTargets => 13,
        McpTool::AddTarget => 14,
        McpTool::RemoveTarget => 15,
        McpTool::ListAgents => 16,
        McpTool::Publish => 17,
        McpTool::Unpublish => 18,
        McpTool::EnvSet => 19,
        McpTool::EnvGet => 20,
        McpTool::EnvDelete => 21,
        McpTool::EnvImport => 22,
        McpTool::StoreList => 23,
        McpTool::StoreSearch => 24,
        McpTool::StoreInstall => 25,
    }
}
/// The tool at place `i` of the catalogue.
fn catalogue_tool(i: usize) -> (t: McpTool)
    requires
        i < 26,
    ensures
        t == tool_at(i as int),
{
    if i == 0 {
        McpTool::ListProjects
    } else if i == 1 {
        McpTool::ProjectStatus
    } else if i == 2 {
        McpTool::Deploy
    } else if i == 3 {
        McpTool::Run
    } else if i == 4 {
        McpTool::Stop
    } else if i == 5 {
        McpTool::Logs
    } else if i == 6 {
        McpTool::ImportCode
    } else if i == 7 {
        McpTool::DetectRuntime
    } else if i == 8 {
        McpTool::Delete
    } else if i == 9 {
        McpTool::Health
    } else if i == 10 {
        McpTool::ScheduleAdd
    } else if i == 11 {
        McpTool::ScheduleList
    } else if i == 12 {
        McpTool::ScheduleRemove
    } else if i == 13 {
        McpTool::ListTargets
    } else if i == 14 {
        McpTool::AddTarget
    } else if i == 15 {
        McpTool::RemoveTarget
    } else if i == 16 {
        McpTool::ListAgents
    } else if i == 17 {
        McpTool::Publish
    } else if i == 18 {
        McpTool::Unpublish
    } else if i == 19 {
        McpTool::EnvSet
    } else if i == 20 {
        McpTool::EnvGet
    } else if i == 21 {
        McpTool::EnvDelete
    } else if i == 22 {
        McpTool::EnvImport
    } else if i == 23 {
        McpTool::StoreList
    } else if i == 24 {
        McpTool::StoreSearch
    } else {
        McpTool::StoreInstall
    }
}

/// A parameter with the given fields.
fn param(name: &str, kind: &str, description: &str, default: Option<&str>, choices: Vec<String>) -> (p: ToolParam)
    ensures
        p@ == (
            name@,
            kind@,
            description@,
            match default {
                Some(d) => Some(d@),
                None => None,
            },
            texts(choices@),
        ),
{
    let default = match default {
        Some(d) => Some(d.to_owned()),
        None => None,
    };
    ToolParam {
        name: name.to_owned(),
        kind: kind.to_owned(),
        description: description.to_owned(),
        default,
        choices,
    }
}

/// Appends `p` to `params`.
fn push_param(params: &mut Vec<ToolParam>, p: ToolParam)
    ensures
        param_views(final(params)@) == param_views(old(params)@).push(p@),
{
    params.push(p);
    assert(param_views(params@) =~= param_views(old(params)@).push(p@));
}

/// Appends a copy of `s` to `v`.
fn push_text(v: &mut Vec<String>, s: &str)
    ensures
        texts(final(v)@) == texts(old(v)@).push(s@),
{
    v.push(s.to_owned());
    assert(texts(v@) =~= texts(old(v)@).push(s@));
}

/// The catalogue entry of `t`.
fn tool_spec(t: McpTool) -> (s: ToolSpec)
    ensures
        s@ == tool_entry(t),
{
    let mut params: Vec<ToolParam> = Vec::new();
    let mut required: Vec<String> = Vec::new();
    let (name, description) = match t {
        McpTool::ListProjects => {
            assert(param_views(params@) =~~= tool_entry(McpTool::ListProjects).2);
            assert(texts(required@) =~= tool_entry(McpTool::ListProjects).3);
            ("berth_list_projects", "List all Berth projects with their status, runtime, and metadata")
        },
        McpTool::ProjectStatus => {
            push_param(&mut params, param("project_id", "string", "Project UUID or name", None, Vec::new()));
            push_text(&mut required, "project_id");
            assert(param_views(params@) =~~= tool_entry(McpTool::ProjectStatus).2);
            assert(texts(required@) =~= tool_entry(McpTool::ProjectStatus).3);
            ("berth_project_status", "Get detailed status of a specific project including run history")
        },
        McpTool::Deploy => {
            push_param(&mut params, param("name", "string", "Project name", None, Vec::new()));
            push_param(&mut params, param("path", "string", "Path to code directory or file", None, Vec::new()));
            push_param(&mut params, param("code", "string", "Inline code to deploy (alternative to path)", None, Vec::new()));
            push_param(&mut params, param("target", "string", "Deploy target (default: local)", Some("local"), Vec::new()));
            push_text(&mut required, "name");
            assert(param_views(params@) =~~= tool_entry(McpTool::Deploy).2);
            assert(texts(required@) =~= tool_entry(McpTool::Deploy).3);
            ("berth_deploy", "Deploy code to a target. Can deploy from a directory path or inline code.")
        },
        McpTool::Run => {
            push_param(&mut params, param("project_id", "string", "Project UUID or name", None, Vec::new()));
            push_param(&mut params, param("timeout_secs", "integer", "Max seconds to wait for output (default: 30)", Some("30"), Vec::new()));
            push_text(&mut required, "project_id");
            assert(param_views(params@) =~~= tool_entry(McpTool::Run).2);
            assert(texts(required@) =~= tool_entry(McpTool::Run).3);
            ("berth_run", "Run a project and return its output")
        },
        McpTool::Stop => {
            push_param(&mut params, param("project_id", "string", "Project UUID or name", None, Vec::new()));
            push_text(&mut required, "project_id");
            assert(param_views(params@) =~~= tool_entry(McpTool::Stop).2);
            assert(texts(required@) =~= tool_entry(McpTool::Stop).3);
            ("berth_stop", "Stop a running project")
        },
        McpTool::Logs => {
            push_param(&mut params, param("project_id", "string", "Project UUID or name", None, Vec::new()));
            push_param(&mut params, param("tail", "integer", "Number of recent lines to return (default: 50)", Some("50"), Vec::new()));
            push_text(&mut required, "project_id");
            assert(param_views(params@) =~~= tool_entry(McpTool::Logs).2);
            assert(texts(required@) =~= tool_entry(McpTool::Logs).3);
            ("berth_logs", "Fetch recent logs from a project run")
        },
        McpTool::ImportCode => {
            push_param(&mut params, param("name", "string", "Project name", None, Vec::new()));
            push_param(&mut params, param("path", "string", "Path to existing code directory or file", None, Vec::new()));
            push_param(&mut params, param("code", "string", "Inline code to save", None, Vec::new()));
            push_param(&mut params, param("filename", "string", "Filename for inline code (e.g. main.py)", None, Vec::new()));
            push_text(&mut required, "name");
            assert(param_views(params@) =~~= tool_entry(McpTool::ImportCode).2);
            assert(texts(required@) =~= tool_entry(McpTool::ImportCode).3);
            ("berth_import_code", "Import code from a path or inline string, creating a new project")
        },
        McpTool::DetectRuntime => {
            push_param(&mut params, param("path", "string", "Path to code directory or file", None, Vec::new()));
            push_text(&mut required, "path");
            assert(param_views(params@) =~~= tool_entry(McpTool::DetectRuntime).2);
            assert(texts(required@) =~= tool_entry(McpTool::DetectRuntime).3);
            ("berth_detect_runtime", "Auto-detect the runtime, entrypoint, and dependencies for a path")
        },
        McpTool::Delete => {
            push_param(&mut params, param("project_id", "string", "Project UUID or name", None, Vec::new()));
            push_text(&mut required, "project_id");
            assert(param_views(params@) =~~= tool_entry(McpTool::Delete).2);
            assert(texts(required@) =~= tool_entry(McpTool::Delete).3);
            ("berth_delete", "Delete a project")
        },
        McpTool::Health => {
            assert(param_views(params@) =~~= tool_entry(McpTool::Health).2);
            assert(texts(required@) =~= tool_entry(McpTool::Health).3);
            ("berth_health", "Check Berth system health and version")
        },
        McpTool::ScheduleAdd => {
            push_param(&mut params, param("project_id", "string", "Project UUID or name", None, Vec::new()));
            push_param(&mut params, param("cron", "string", "Cron expression (e.g. '@every 5m', '@hourly', '@daily', '30 9 * * *')", None, Vec::new()));
            push_text(&mut required, "project_id");
            push_text(&mut required, "cron");
            assert(param_views(params@) =~~= tool_entry(McpTool::ScheduleAdd).2);
            assert(texts(required@) =~= tool_entry(McpTool::ScheduleAdd).3);
            ("berth_schedule_add", "Add a cron-like schedule to a project. Supports: @every 5m, @hourly, @daily, @weekly, or 'M H * * *'")
        },
        McpTool::ScheduleList => {
            assert(param_views(params@) =~~= tool_entry(McpTool::ScheduleList).2);
            assert(texts(required@) =~= tool_entry(McpTool::ScheduleList).3);
            ("berth_schedule_list", "List all schedules")
        },
        McpTool::ScheduleRemove => {
            push_param(&mut params, param("schedule_id", "string", "Schedule UUID", None, Vec::new()));
            push_text(&mut required, "schedule_id");
            assert(param_views(params@) =~~= tool_entry(McpTool::ScheduleRemove).2);
            assert(texts(required@) =~= tool_entry(McpTool::ScheduleRemove).3);
            ("berth_schedule_remove", "Remove a schedule by UUID")
        },
        McpTool::ListTargets => {
            assert(param_views(params@) =~~= tool_entry(McpTool::ListTargets).2);
            assert(texts(required@) =~= tool_entry(McpTool::ListTargets).3);
            ("berth_list_targets", "List configured deploy targets (local + remote agents)")
        },
        McpTool::AddTarget => {
            push_param(&mut params, param("name", "string", "Target name (e.g. 'my-vps', 'staging')", None, Vec::new()));
            push_param(&mut params, param("host", "string", "Agent host address (IP or hostname)", None, Vec::new()));
            push_param(&mut params, param("port", "integer", "Agent port (default: 50051)", Some("50051"), Vec::new()));
            push_text(&mut required, "name");
            push_text(&mut required, "host");
            assert(param_views(params@) =~~= tool_entry(McpTool::AddTarget).2);
            assert(texts(required@) =~= tool_entry(McpTool::AddTarget).3);
            ("berth_add_target", "Add a new remote deploy target (agent endpoint)")
        },
        McpTool::RemoveTarget => {
            push_param(&mut params, param("name", "string", "Target name", None, Vec::new()));
            push_text(&mut required, "name");
            assert(param_views(params@) =~~= tool_entry(McpTool::RemoveTarget).2);
            assert(texts(required@) =~= tool_entry(McpTool::RemoveTarget).3);
            ("berth_remove_target", "Remove a deploy target by name")
        },
        McpTool::ListAgents => {
            assert(param_views(params@) =~~= tool_entry(McpTool::ListAgents).2);
            assert(texts(required@) =~= tool_entry(McpTool::ListAgents).3);
            ("berth_list_agents", "List connected agents and their health status. Pings each target.")
        },
        McpTool::Publish => {
            push_param(&mut params, param("project_id", "string", "Project UUID or name", None, Vec::new()));
            push_param(&mut params, param("port", "integer", "Local port the service listens on", None, Vec::new()));
            let mut choices: Vec<String> = Vec::new();
            push_text(&mut choices, "cloudflared");
            push_param(&mut params, param("provider", "string", "Tunnel provider (default: cloudflared)", Some("cloudflared"), choices));
            push_text(&mut required, "project_id");
            push_text(&mut required, "port");
            assert(param_views(params@) =~~= tool_entry(McpTool::Publish).2);
            assert(texts(required@) =~= tool_entry(McpTool::Publish).3);
            ("berth_publish", "Publish a running project to a public URL via tunnel (cloudflared). The project must be running and listening on a port.")
        },
        McpTool::Unpublish => {
            push_param(&mut params, param("project_id", "string", "Project UUID or name", None, Vec::new()));
            push_text(&mut required, "project_id");
            assert(param_views(params@) =~~= tool_entry(McpTool::Unpublish).2);
            assert(texts(required@) =~= tool_entry(McpTool::Unpublish).3);
            ("berth_unpublish", "Stop the public URL tunnel for a project.")
        },
        McpTool::EnvSet => {
            push_param(&mut params, param("project_id", "string", "Project UUID or name", None, Vec::new()));
            push_param(&mut params, param("key", "string", "Variable name (e.g. API_KEY)", None, Vec::new()));
            push_param(&mut params, param("value", "string", "Variable value", None, Vec::new()));
            push_text(&mut required, "project_id");
            push_text(&mut required, "key");
            push_text(&mut required, "value");
            assert(param_views(params@) =~~= tool_entry(McpTool::EnvSet).2);
            assert(texts(required@) =~= tool_entry(McpTool::EnvSet).3);
            ("berth_env_set", "Set an environment variable for a project. Variables are passed to the process at runtime.")
        },
        McpTool::EnvGet => {
            push_param(&mut params, param("project_id", "string", "Project UUID or name", None, Vec::new()));
            push_text(&mut required, "project_id");
            assert(param_views(params@) =~~= tool_entry(McpTool::EnvGet).2);
            assert(texts(required@) =~= tool_entry(McpTool::EnvGet).3);
            ("berth_env_get", "Get all environment variables for a project.")
        },
        McpTool::EnvDelete => {
            push_param(&mut params, param("project_id", "string", "Project UUID or name", None, Vec::new()));
            push_param(&mut params, param("key", "string", "Variable name to delete", None, Vec::new()));
            push_text(&mut required, "project_id");
            push_text(&mut required, "key");
            assert(param_views(params@) =~~= tool_entry(McpTool::EnvDelete).2);
            assert(texts(required@) =~= tool_entry(McpTool::EnvDelete).3);
            ("berth_env_delete", "Delete an environment variable from a project.")
        },
        McpTool::EnvImport => {
            push_param(&mut params, param("project_id", "string", "Project UUID or name", None, Vec::new()));
            push_param(&mut params, param("content", "string", ".env file content (KEY=VALUE lines)", None, Vec::new()));
            push_text(&mut required, "project_id");
            push_text(&mut required, "content");
            assert(param_views(params@) =~~= tool_entry(McpTool::EnvImport).2);
            assert(texts(required@) =~= tool_entry(McpTool::EnvImport).3);
            ("berth_env_import", "Import environment variables from .env format. Merges with existing variables.")
        },
        McpTool::StoreList => {
            push_param(&mut params, param("category", "string", "Filter by category: scrapers, api-servers, bots, ai-ml", None, Vec::new()));
            assert(param_views(params@) =~~= tool_entry(McpTool::StoreList).2);
            assert(texts(required@) =~= tool_entry(McpTool::StoreList).3);
            ("berth_store_list", "List available templates from the Berth Template Store. Optionally filter by category (scrapers, api-servers, bots, ai-ml).")
        },
        McpTool::StoreSearch => {
            push_param(&mut params, param("query", "string", "Search query", None, Vec::new()));
            push_text(&mut required, "query");
            assert(param_views(params@) =~~= tool_entry(McpTool::StoreSearch).2);
            assert(texts(required@) =~= tool_entry(McpTool::StoreSearch).3);
            ("berth_store_search", "Search the Berth Template Store by keyword.")
        },
        McpTool::StoreInstall => {
            push_param(&mut params, param("template_id", "string", "Template ID (e.g. hn-scraper, fastapi-starter)", None, Vec::new()));
            push_text(&mut required, "template_id");
            assert(param_views(params@) =~~= tool_entry(McpTool::StoreInstall).2);
            assert(texts(required@) =~= tool_entry(McpTool::StoreInstall).3);
            ("berth_store_install", "Install a template from the Berth Template Store, creating a new project ready to run.")
        },
    };
    ToolSpec { name: name.to_owned(), description: description.to_owned(), params, required }
}
/// Every place of the catalogue holds a different tool.
proof fn lemma_tool_index(i: int)
    requires
        0 <= i < 26,
    ensures
        tool_index(tool_at(i)) == i,
{
}

/// The name of each catalogue entry is routed back to its tool.
pub proof fn catalogue_names_route_to_their_tools(t: McpTool)
    ensures
        tool_of(tool_entry(t).0) == Some(t),
{
    match t {
        McpTool::ListProjects => {
            reveal_strlit("berth_list_projects");
        },
        McpTool::ProjectStatus => {
            reveal_strlit("berth_project_status");
            reveal_strlit("berth_list_projects");
            assert("berth_project_status"@.len() != "berth_list_projects"@.len());
        },
        McpTool::Deploy => {
            reveal_strlit("berth_deploy");
            reveal_strlit("berth_list_projects");
            assert("berth_deploy"@.len() != "berth_list_projects"@.len());
            reveal_strlit("berth_project_status");
            assert("berth_deploy"@.len() != "berth_project_status"@.len());
        },
        McpTool::Run => {
            reveal_strlit("berth_run");
            reveal_strlit("berth_list_projects");
            assert("berth_run"@.len() != "berth_list_projects"@.len());
            reveal_strlit("berth_project_status");
            assert("berth_run"@.len() != "berth_project_status"@.len());
            reveal_strlit("berth_deploy");
            assert("berth_run"@.len() != "berth_deploy"@.len());
        },
        McpTool::Stop => {
            reveal_strlit("berth_stop");
            reveal_strlit("berth_list_projects");
            assert("berth_stop"@.len() != "berth_list_projects"@.len());
            reveal_strlit("berth_project_status");
            assert("berth_stop"@.len() != "berth_project_status"@.len());
            reveal_strlit("berth_deploy");
            assert("berth_stop"@.len() != "berth_deploy"@.len());
            reveal_strlit("berth_run");
            assert("berth_stop"@.len() != "berth_run"@.len());
        },
        McpTool::Logs => {
            reveal_strlit("berth_logs");
            reveal_strlit("berth_list_projects");
            assert("berth_logs"@.len() != "berth_list_projects"@.len());
            reveal_strlit("berth_project_status");
            assert("berth_logs"@.len() != "berth_project_status"@.len());
            reveal_strlit("berth_deploy");
            assert("berth_logs"@.len() != "berth_deploy"@.len());
            reveal_strlit("berth_run");
            assert("berth_logs"@.len() != "berth_run"@.len());
            reveal_strlit("berth_stop");
            assert("berth_logs"@[6] != "berth_stop"@[6]);
        },
        McpTool::ImportCode => {
            reveal_strlit("berth_import_code");
            reveal_strlit("berth_list_projects");
            assert("berth_import_code"@.len() != "berth_list_projects"@.len());
            reveal_strlit("berth_project_status");
            assert("berth_import_code"@.len() != "berth_project_status"@.len());
            reveal_strlit("berth_deploy");
            assert("berth_import_code"@.len() != "berth_deploy"@.len());
            reveal_strlit("berth_run");
            assert("berth_import_code"@.len() != "berth_run"@.len());
            reveal_strlit("berth_stop");
            assert("berth_import_code"@.len() != "berth_stop"@.len());
            reveal_strlit("berth_logs");
            assert("berth_import_code"@.len() != "berth_logs"@.len());
        },
        McpTool::DetectRuntime => {
            reveal_strlit("berth_detect_runtime");
            reveal_strlit("berth_list_projects");
            assert("berth_detect_runtime"@.len() != "berth_list_projects"@.len());
            reveal_strlit("berth_project_status");
            assert("berth_detect_runtime"@[6] != "berth_project_status"@[6]);
            reveal_strlit("berth_deploy");
            assert("berth_detect_runtime"@.len() != "berth_deploy"@.len());
            reveal_strlit("berth_run");
            assert("berth_detect_runtime"@.len() != "berth_run"@.len());
            reveal_strlit("berth_stop");
            assert("berth_detect_runtime"@.len() != "berth_stop"@.len());
            reveal_strlit("berth_logs");
            assert("berth_detect_runtime"@.len() != "berth_logs"@.len());
            reveal_strlit("berth_import_code");
            assert("berth_detect_runtime"@.len() != "berth_import_code"@.len());
        },
        McpTool::Delete => {
            reveal_strlit("berth_delete");
            reveal_strlit("berth_list_projects");
            assert("berth_delete"@.len() != "berth_list_projects"@.len());
            reveal_strlit("berth_project_status");
            assert("berth_delete"@.len() != "berth_project_status"@.len());
            reveal_strlit("berth_deploy");
            assert("berth_delete"@[8] != "berth_deploy"@[8]);
            reveal_strlit("berth_run");
            assert("berth_delete"@.len() != "berth_run"@.len());
            reveal_strlit("berth_stop");
            assert("berth_delete"@.len() != "berth_stop"@.len());
            reveal_strlit("berth_logs");
            assert("berth_delete"@.len() != "berth_logs"@.len());
            reveal_strlit("berth_import_code");
            assert("berth_delete"@.len() != "berth_import_code"@.len());
            reveal_strlit("berth_detect_runtime");
            assert("berth_delete"@.len() != "berth_detect_runtime"@.len());
        },
        McpTool::Health => {
            reveal_strlit("berth_health");
            reveal_strlit("berth_list_projects");
            assert("berth_health"@.len() != "berth_list_projects"@.len());
            reveal_strlit("berth_project_status");
            assert("berth_health"@.len() != "berth_project_status"@.len());
            reveal_strlit("berth_deploy");
            assert("berth_health"@[6] != "berth_deploy"@[6]);
            reveal_strlit("berth_run");
            assert("berth_health"@.len() != "berth_run"@.len());
            reveal_strlit("berth_stop");
            assert("berth_health"@.len() != "berth_stop"@.len());
            reveal_strlit("berth_logs");
            assert("berth_health"@.len() != "berth_logs"@.len());
            reveal_strlit("berth_import_code");
            assert("berth_health"@.len() != "berth_import_code"@.len());
            reveal_strlit("berth_detect_runtime");
            assert("berth_health"@.len() != "berth_detect_runtime"@.len());
            reveal_strlit("berth_delete");
            assert("berth_health"@[6] != "berth_delete"@[6]);
        },
        McpTool::ScheduleAdd => {
            reveal_strlit("berth_schedule_add");
            reveal_strlit("berth_list_projects");
            assert("berth_schedule_add"@.len() != "berth_list_projects"@.len());
            reveal_strlit("berth_project_status");
            assert("berth_schedule_add"@.len() != "berth_project_status"@.len());
            reveal_strlit("berth_deploy");
            assert("berth_schedule_add"@.len() != "berth_deploy"@.len());
            reveal_strlit("berth_run");
            assert("berth_schedule_add"@.len() != "berth_run"@.len());
            reveal_strlit("berth_stop");
            assert("berth_schedule_add"@.len() != "berth_stop"@.len());
            reveal_strlit("berth_logs");
            assert("berth_schedule_add"@.len() != "berth_logs"@.len());
            reveal_strlit("berth_import_code");
            assert("berth_schedule_add"@.len() != "berth_import_code"@.len());
            reveal_strlit("berth_detect_runtime");
            assert("berth_schedule_add"@.len() != "berth_detect_runtime"@.len());
            reveal_strlit("berth_delete");
            assert("berth_schedule_add"@.len() != "berth_delete"@.len());
            reveal_strlit("berth_health");
            assert("berth_schedule_add"@.len() != "berth_health"@.len());
        },
        McpTool::ScheduleList => {
            reveal_strlit("berth_schedule_list");
            reveal_strlit("berth_list_projects");
            assert("berth_schedule_list"@[6] != "berth_list_projects"@[6]);
            reveal_strlit("berth_project_status");
            assert("berth_schedule_list"@.len() != "berth_project_status"@.len());
            reveal_strlit("berth_deploy");
            assert("berth_schedule_list"@.len() != "berth_deploy"@.len());
            reveal_strlit("berth_run");
            assert("berth_schedule_list"@.len() != "berth_run"@.len());
            reveal_strlit("berth_stop");
            assert("berth_schedule_list"@.len() != "berth_stop"@.len());
            reveal_strlit("berth_logs");
            assert("berth_schedule_list"@.len() != "berth_logs"@.len());
            reveal_strlit("berth_import_code");
            assert("berth_schedule_list"@.len() != "berth_import_code"@.len());
            reveal_strlit("berth_detect_runtime");
            assert("berth_schedule_list"@.len() != "berth_detect_runtime"@.len());
            reveal_strlit("berth_delete");
            assert("berth_schedule_list"@.len() != "berth_delete"@.len());
            reveal_strlit("berth_health");
            assert("berth_schedule_list"@.len() != "berth_health"@.len());
            reveal_strlit("berth_schedule_add");
            assert("berth_schedule_list"@.len() != "berth_schedule_add"@.len());
        },
        McpTool::ScheduleRemove => {
            reveal_strlit("berth_schedule_remove");
            reveal_strlit("berth_list_projects");
            assert("berth_schedule_remove"@.len() != "berth_list_projects"@.len());
            reveal_strlit("berth_project_status");
            assert("berth_schedule_remove"@.len() != "berth_project_status"@.len());
            reveal_strlit("berth_deploy");
            assert("berth_schedule_remove"@.len() != "berth_deploy"@.len());
            reveal_strlit("berth_run");
            assert("berth_schedule_remove"@.len() != "berth_run"@.len());
            reveal_strlit("berth_stop");
            assert("berth_schedule_remove"@.len() != "berth_stop"@.len());
            reveal_strlit("berth_logs");
            assert("berth_schedule_remove"@.len() != "berth_logs"@.len());
            reveal_strlit("berth_import_code");
            assert("berth_schedule_remove"@.len() != "berth_import_code"@.len());
            reveal_strlit("berth_detect_runtime");
            assert("berth_schedule_remove"@.len() != "berth_detect_runtime"@.len());
            reveal_strlit("berth_delete");
            assert("berth_schedule_remove"@.len() != "berth_delete"@.len());
            reveal_strlit("berth_health");
            assert("berth_schedule_remove"@.len() != "berth_health"@.len());
            reveal_strlit("berth_schedule_add");
            assert("berth_schedule_remove"@.len() != "berth_schedule_add"@.len());
            reveal_strlit("berth_schedule_list");
            assert("berth_schedule_remove"@.len() != "berth_schedule_list"@.len());
        },
        McpTool::ListTargets => {
            reveal_strlit("berth_list_targets");
            reveal_strlit("berth_list_projects");
            assert("berth_list_targets"@.len() != "berth_list_projects"@.len());
            reveal_strlit("berth_project_status");
            assert("berth_list_targets"@.len() != "berth_project_status"@.len());
            reveal_strlit("berth_deploy");
            assert("berth_list_targets"@.len() != "berth_deploy"@.len());
            reveal_strlit("berth_run");
            assert("berth_list_targets"@.len() != "berth_run"@.len());
            reveal_strlit("berth_stop");
            assert("berth_list_targets"@.len() != "berth_stop"@.len());
            reveal_strlit("berth_logs");
            assert("berth_list_targets"@.len() != "berth_logs"@.len());
            reveal_strlit("berth_import_code");
            assert("berth_list_targets"@.len() != "berth_import_code"@.len());
            reveal_strlit("berth_detect_runtime");
            assert("berth_list_targets"@.len() != "berth_detect_runtime"@.len());
            reveal_strlit("berth_delete");
            assert("berth_list_targets"@.len() != "berth_delete"@.len());
            reveal_strlit("berth_health");
            assert("berth_list_targets"@.len() != "berth_health"@.len());
            reveal_strlit("berth_schedule_add");
            assert("berth_list_targets"@[6] != "berth_schedule_add"@[6]);
            reveal_strlit("berth_schedule_list");
            assert("berth_list_targets"@.len() != "berth_schedule_list"@.len());
            reveal_strlit("berth_schedule_remove");
            assert("berth_list_targets"@.len() != "berth_schedule_remove"@.len());
        },
        McpTool::AddTarget => {
            reveal_strlit("berth_add_target");
            reveal_strlit("berth_list_projects");
            assert("berth_add_target"@.len() != "berth_list_projects"@.len());
            reveal_strlit("berth_project_status");
            assert("berth_add_target"@.len() != "berth_project_status"@.len());
            reveal_strlit("berth_deploy");
            assert("berth_add_target"@.len() != "berth_deploy"@.len());
            reveal_strlit("berth_run");
            assert("berth_add_target"@.len() != "berth_run"@.len());
            reveal_strlit("berth_stop");
            assert("berth_add_target"@.len() != "berth_stop"@.len());
            reveal_strlit("berth_logs");
            assert("berth_add_target"@.len() != "berth_logs"@.len());
            reveal_strlit("berth_import_code");
            assert("berth_add_target"@.len() != "berth_import_code"@.len());
            reveal_strlit("berth_detect_runtime");
            assert("berth_add_target"@.len() != "berth_detect_runtime"@.len());
            reveal_strlit("berth_delete");
            assert("berth_add_target"@.len() != "berth_delete"@.len());
            reveal_strlit("berth_health");
            assert("berth_add_target"@.len() != "berth_health"@.len());
            reveal_strlit("berth_schedule_add");
            assert("berth_add_target"@.len() != "berth_schedule_add"@.len());
            reveal_strlit("berth_schedule_list");
            assert("berth_add_target"@.len() != "berth_schedule_list"@.len());
            reveal_strlit("berth_schedule_remove");
            assert("berth_add_target"@.len() != "berth_schedule_remove"@.len());
            reveal_strlit("berth_list_targets");
            assert("berth_add_target"@.len() != "berth_list_targets"@.len());
        },
        McpTool::RemoveTarget => {
            reveal_strlit("berth_remove_target");
            reveal_strlit("berth_list_projects");
            assert("berth_remove_target"@[6] != "berth_list_projects"@[6]);
            reveal_strlit("berth_project_status");
            assert("berth_remove_target"@.len() != "berth_project_status"@.len());
            reveal_strlit("berth_deploy");
            assert("berth_remove_target"@.len() != "berth_deploy"@.len());
            reveal_strlit("berth_run");
            assert("berth_remove_target"@.len() != "berth_run"@.len());
            reveal_strlit("berth_stop");
            assert("berth_remove_target"@.len() != "berth_stop"@.len());
            reveal_strlit("berth_logs");
            assert("berth_remove_target"@.len() != "berth_logs"@.len());
            reveal_strlit("berth_import_code");
            assert("berth_remove_target"@.len() != "berth_import_code"@.len());
            reveal_strlit("berth_detect_runtime");
            assert("berth_remove_target"@.len() != "berth_detect_runtime"@.len());
            reveal_strlit("berth_delete");
            assert("berth_remove_target"@.len() != "berth_delete"@.len());
            reveal_strlit("berth_health");
            assert("berth_remove_target"@.len() != "berth_health"@.len());
            reveal_strlit("berth_schedule_add");
            assert("berth_remove_target"@.len() != "berth_schedule_add"@.len());
            reveal_strlit("berth_schedule_list");
            assert("berth_remove_target"@[6] != "berth_schedule_list"@[6]);
            reveal_strlit("berth_schedule_remove");
            assert("berth_remove_target"@.len() != "berth_schedule_remove"@.len());
            reveal_strlit("berth_list_targets");
            assert("berth_remove_target"@.len() != "berth_list_targets"@.len());
            reveal_strlit("berth_add_target");
            assert("berth_remove_target"@.len() != "berth_add_target"@.len());
        },
        McpTool::ListAgents => {
            reveal_strlit("berth_list_agents");
            reveal_strlit("berth_list_projects");
            assert("berth_list_agents"@.len() != "berth_list_projects"@.len());
            reveal_strlit("berth_project_status");
            assert("berth_list_agents"@.len() != "berth_project_status"@.len());
            reveal_strlit("berth_deploy");
            assert("berth_list_agents"@.len() != "berth_deploy"@.len());
            reveal_strlit("berth_run");
            assert("berth_list_agents"@.len() != "berth_run"@.len());
            reveal_strlit("berth_stop");
            assert("berth_list_agents"@.len() != "berth_stop"@.len());
            reveal_strlit("berth_logs");
            assert("berth_list_agents"@.len() != "berth_logs"@.len());
            reveal_strlit("berth_import_code");
            assert("berth_list_agents"@[6] != "berth_import_code"@[6]);
            reveal_strlit("berth_detect_runtime");
            assert("berth_list_agents"@.len() != "berth_detect_runtime"@.len());
            reveal_strlit("berth_delete");
            assert("berth_list_agents"@.len() != "berth_delete"@.len());
            reveal_strlit("berth_health");
            assert("berth_list_agents"@.len() != "berth_health"@.len());
            reveal_strlit("berth_schedule_add");
            assert("berth_list_agents"@.len() != "berth_schedule_add"@.len());
            reveal_strlit("berth_schedule_list");
            assert("berth_list_agents"@.len() != "berth_schedule_list"@.len());
            reveal_strlit("berth_schedule_remove");
            assert("berth_list_agents"@.len() != "berth_schedule_remove"@.len());
            reveal_strlit("berth_list_targets");
            assert("berth_list_agents"@.len() != "berth_list_targets"@.len());
            reveal_strlit("berth_add_target");
            assert("berth_list_agents"@.len() != "berth_add_target"@.len());
            reveal_strlit("berth_remove_target");
            assert("berth_list_agents"@.len() != "berth_remove_target"@.len());
        },
        McpTool::Publish => {
            reveal_strlit("berth_publish");
            reveal_strlit("berth_list_projects");
            assert("berth_publish"@.len() != "berth_list_projects"@.len());
            reveal_strlit("berth_project_status");
            assert("berth_publish"@.len() != "berth_project_status"@.len());
            reveal_strlit("berth_deploy");
            assert("berth_publish"@.len() != "berth_deploy"@.len());
            reveal_strlit("berth_run");
            assert("berth_publish"@.len() != "berth_run"@.len());
            reveal_strlit("berth_stop");
            assert("berth_publish"@.len() != "berth_stop"@.len());
            reveal_strlit("berth_logs");
            assert("berth_publish"@.len() != "berth_logs"@.len());
            reveal_strlit("berth_import_code");
            assert("berth_publish"@.len() != "berth_import_code"@.len());
            reveal_strlit("berth_detect_runtime");
            assert("berth_publish"@.len() != "berth_detect_runtime"@.len());
            reveal_strlit("berth_delete");
            assert("berth_publish"@.len() != "berth_delete"@.len());
            reveal_strlit("berth_health");
            assert("berth_publish"@.len() != "berth_health"@.len());
            reveal_strlit("berth_schedule_add");
            assert("berth_publish"@.len() != "berth_schedule_add"@.len());
            reveal_strlit("berth_schedule_list");
            assert("berth_publish"@.len() != "berth_schedule_list"@.len());
            reveal_strlit("berth_schedule_remove");
            assert("berth_publish"@.len() != "berth_schedule_remove"@.len());
            reveal_strlit("berth_list_targets");
            assert("berth_publish"@.len() != "berth_list_targets"@.len());
            reveal_strlit("berth_add_target");
            assert("berth_publish"@.len() != "berth_add_target"@.len());
            reveal_strlit("berth_remove_target");
            assert("berth_publish"@.len() != "berth_remove_target"@.len());
            reveal_strlit("berth_list_agents");
            assert("berth_publish"@.len() != "berth_list_agents"@.len());
        },
        McpTool::Unpublish => {
            reveal_strlit("berth_unpublish");
            reveal_strlit("berth_list_projects");
            assert("berth_unpublish"@.len() != "berth_list_projects"@.len());
            reveal_strlit("berth_project_status");
            assert("berth_unpublish"@.len() != "berth_project_status"@.len());
            reveal_strlit("berth_deploy");
            assert("berth_unpublish"@.len() != "berth_deploy"@.len());
            reveal_strlit("berth_run");
            assert("berth_unpublish"@.len() != "berth_run"@.len());
            reveal_strlit("berth_stop");
            assert("berth_unpublish"@.len() != "berth_stop"@.len());
            reveal_strlit("berth_logs");
            assert("berth_unpublish"@.len() != "berth_logs"@.len());
            reveal_strlit("berth_import_code");
            assert("berth_unpublish"@.len() != "berth_import_code"@.len());
            reveal_strlit("berth_detect_runtime");
            assert("berth_unpublish"@.len() != "berth_detect_runtime"@.len());
            reveal_strlit("berth_delete");
            assert("berth_unpublish"@.len() != "berth_delete"@.len());
            reveal_strlit("berth_health");
            assert("berth_unpublish"@.len() != "berth_health"@.len());
            reveal_strlit("berth_schedule_add");
            assert("berth_unpublish"@.len() != "berth_schedule_add"@.len());
            reveal_strlit("berth_schedule_list");
            assert("berth_unpublish"@.len() != "berth_schedule_list"@.len());
            reveal_strlit("berth_schedule_remove");
            assert("berth_unpublish"@.len() != "berth_schedule_remove"@.len());
            reveal_strlit("berth_list_targets");
            assert("berth_unpublish"@.len() != "berth_list_targets"@.len());
            reveal_strlit("berth_add_target");
            assert("berth_unpublish"@.len() != "berth_add_target"@.len());
            reveal_strlit("berth_remove_target");
            assert("berth_unpublish"@.len() != "berth_remove_target"@.len());
            reveal_strlit("berth_list_agents");
            assert("berth_unpublish"@.len() != "berth_list_agents"@.len());
            reveal_strlit("berth_publish");
            assert("berth_unpublish"@.len() != "berth_publish"@.len());
        },
        McpTool::EnvSet => {
            reveal_strlit("berth_env_set");
            reveal_strlit("berth_list_projects");
            assert("berth_env_set"@.len() != "berth_list_projects"@.len());
            reveal_strlit("berth_project_status");
            assert("berth_env_set"@.len() != "berth_project_status"@.len());
            reveal_strlit("berth_deploy");
            assert("berth_env_set"@.len() != "berth_deploy"@.len());
            reveal_strlit("berth_run");
            assert("berth_env_set"@.len() != "berth_run"@.len());
            reveal_strlit("berth_stop");
            assert("berth_env_set"@.len() != "berth_stop"@.len());
            reveal_strlit("berth_logs");
            assert("berth_env_set"@.len() != "berth_logs"@.len());
            reveal_strlit("berth_import_code");
            assert("berth_env_set"@.len() != "berth_import_code"@.len());
            reveal_strlit("berth_detect_runtime");
            assert("berth_env_set"@.len() != "berth_detect_runtime"@.len());
            reveal_strlit("berth_delete");
            assert("berth_env_set"@.len() != "berth_delete"@.len());
            reveal_strlit("berth_health");
            assert("berth_env_set"@.len() != "berth_health"@.len());
            reveal_strlit("berth_schedule_add");
            assert("berth_env_set"@.len() != "berth_schedule_add"@.len());
            reveal_strlit("berth_schedule_list");
            assert("berth_env_set"@.len() != "berth_schedule_list"@.len());
            reveal_strlit("berth_schedule_remove");
            assert("berth_env_set"@.len() != "berth_schedule_remove"@.len());
            reveal_strlit("berth_list_targets");
            assert("berth_env_set"@.len() != "berth_list_targets"@.len());
            reveal_strlit("berth_add_target");
            assert("berth_env_set"@.len() != "berth_add_target"@.len());
            reveal_strlit("berth_remove_target");
            assert("berth_env_set"@.len() != "berth_remove_target"@.len());
            reveal_strlit("berth_list_agents");
            assert("berth_env_set"@.len() != "berth_list_agents"@.len());
            reveal_strlit("berth_publish");
            assert("berth_env_set"@[6] != "berth_publish"@[6]);
            reveal_strlit("berth_unpublish");
            assert("berth_env_set"@.len() != "berth_unpublish"@.len());
        },
        McpTool::EnvGet => {
            reveal_strlit("berth_env_get");
            reveal_strlit("berth_list_projects");
            assert("berth_env_get"@.len() != "berth_list_projects"@.len());
            reveal_strlit("berth_project_status");
            assert("berth_env_get"@.len() != "berth_project_status"@.len());
            reveal_strlit("berth_deploy");
            assert("berth_env_get"@.len() != "berth_deploy"@.len());
            reveal_strlit("berth_run");
            assert("berth_env_get"@.len() != "berth_run"@.len());
            reveal_strlit("berth_stop");
            assert("berth_env_get"@.len() != "berth_stop"@.len());
            reveal_strlit("berth_logs");
            assert("berth_env_get"@.len() != "berth_logs"@.len());
            reveal_strlit("berth_import_code");
            assert("berth_env_get"@.len() != "berth_import_code"@.len());
            reveal_strlit("berth_detect_runtime");
            assert("berth_env_get"@.len() != "berth_detect_runtime"@.len());
            reveal_strlit("berth_delete");
            assert("berth_env_get"@.len() != "berth_delete"@.len());
            reveal_strlit("berth_health");
            assert("berth_env_get"@.len() != "berth_health"@.len());
            reveal_strlit("berth_schedule_add");
            assert("berth_env_get"@.len() != "berth_schedule_add"@.len());
            reveal_strlit("berth_schedule_list");
            assert("berth_env_get"@.len() != "berth_schedule_list"@.len());
            reveal_strlit("berth_schedule_remove");
            assert("berth_env_get"@.len() != "berth_schedule_remove"@.len());
            reveal_strlit("berth_list_targets");
            assert("berth_env_get"@.len() != "berth_list_targets"@.len());
            reveal_strlit("berth_add_target");
            assert("berth_env_get"@.len() != "berth_add_target"@.len());
            reveal_strlit("berth_remove_target");
            assert("berth_env_get"@.len() != "berth_remove_target"@.len());
            reveal_strlit("berth_list_agents");
            assert("berth_env_get"@.len() != "berth_list_agents"@.len());
            reveal_strlit("berth_publish");
            assert("berth_env_get"@[6] != "berth_publish"@[6]);
            reveal_strlit("berth_unpublish");
            assert("berth_env_get"@.len() != "berth_unpublish"@.len());
            reveal_strlit("berth_env_set");
            assert("berth_env_get"@[10] != "berth_env_set"@[10]);
        },
        McpTool::EnvDelete => {
            reveal_strlit("berth_env_delete");
            reveal_strlit("berth_list_projects");
            assert("berth_env_delete"@.len() != "berth_list_projects"@.len());
            reveal_strlit("berth_project_status");
            assert("berth_env_delete"@.len() != "berth_project_status"@.len());
            reveal_strlit("berth_deploy");
            assert("berth_env_delete"@.len() != "berth_deploy"@.len());
            reveal_strlit("berth_run");
            assert("berth_env_delete"@.len() != "berth_run"@.len());
            reveal_strlit("berth_stop");
            assert("berth_env_delete"@.len() != "berth_stop"@.len());
            reveal_strlit("berth_logs");
            assert("berth_env_delete"@.len() != "berth_logs"@.len());
            reveal_strlit("berth_import_code");
            assert("berth_env_delete"@.len() != "berth_import_code"@.len());
            reveal_strlit("berth_detect_runtime");
            assert("berth_env_delete"@.len() != "berth_detect_runtime"@.len());
            reveal_strlit("berth_delete");
            assert("berth_env_delete"@.len() != "berth_delete"@.len());
            reveal_strlit("berth_health");
            assert("berth_env_delete"@.len() != "berth_health"@.len());
            reveal_strlit("berth_schedule_add");
            assert("berth_env_delete"@.len() != "berth_schedule_add"@.len());
            reveal_strlit("berth_schedule_list");
            assert("berth_env_delete"@.len() != "berth_schedule_list"@.len());
            reveal_strlit("berth_schedule_remove");
            assert("berth_env_delete"@.len() != "berth_schedule_remove"@.len());
            reveal_strlit("berth_list_targets");
            assert("berth_env_delete"@.len() != "berth_list_targets"@.len());
            reveal_strlit("berth_add_target");
            assert("berth_env_delete"@[6] != "berth_add_target"@[6]);
            reveal_strlit("berth_remove_target");
            assert("berth_env_delete"@.len() != "berth_remove_target"@.len());
            reveal_strlit("berth_list_agents");
            assert("berth_env_delete"@.len() != "berth_list_agents"@.len());
            reveal_strlit("berth_publish");
            assert("berth_env_delete"@.len() != "berth_publish"@.len());
            reveal_strlit("berth_unpublish");
            assert("berth_env_delete"@.len() != "berth_unpublish"@.len());
            reveal_strlit("berth_env_set");
            assert("berth_env_delete"@.len() != "berth_env_set"@.len());
            reveal_strlit("berth_env_get");
            assert("berth_env_delete"@.len() != "berth_env_get"@.len());
        },
        McpTool::EnvImport => {
            reveal_strlit("berth_env_import");
            reveal_strlit("berth_list_projects");
            assert("berth_env_import"@.len() != "berth_list_projects"@.len());
            reveal_strlit("berth_project_status");
            assert("berth_env_import"@.len() != "berth_project_status"@.len());
            reveal_strlit("berth_deploy");
            assert("berth_env_import"@.len() != "berth_deploy"@.len());
            reveal_strlit("berth_run");
            assert("berth_env_import"@.len() != "berth_run"@.len());
            reveal_strlit("berth_stop");
            assert("berth_env_import"@.len() != "berth_stop"@.len());
            reveal_strlit("berth_logs");
            assert("berth_env_import"@.len() != "berth_logs"@.len());
            reveal_strlit("berth_import_code");
            assert("berth_env_import"@.len() != "berth_import_code"@.len());
            reveal_strlit("berth_detect_runtime");
            assert("berth_env_import"@.len() != "berth_detect_runtime"@.len());
            reveal_strlit("berth_delete");
            assert("berth_env_import"@.len() != "berth_delete"@.len());
            reveal_strlit("berth_health");
            assert("berth_env_import"@.len() != "berth_health"@.len());
            reveal_strlit("berth_schedule_add");
            assert("berth_env_import"@.len() != "berth_schedule_add"@.len());
            reveal_strlit("berth_schedule_list");
            assert("berth_env_import"@.len() != "berth_schedule_list"@.len());
            reveal_strlit("berth_schedule_remove");
            assert("berth_env_import"@.len() != "berth_schedule_remove"@.len());
            reveal_strlit("berth_list_targets");
            assert("berth_env_import"@.len() != "berth_list_targets"@.len());
            reveal_strlit("berth_add_target");
            assert("berth_env_import"@[6] != "berth_add_target"@[6]);
            reveal_strlit("berth_remove_target");
            assert("berth_env_import"@.len() != "berth_remove_target"@.len());
            reveal_strlit("berth_list_agents");
            assert("berth_env_import"@.len() != "berth_list_agents"@.len());
            reveal_strlit("berth_publish");
            assert("berth_env_import"@.len() != "berth_publish"@.len());
            reveal_strlit("berth_unpublish");
            assert("berth_env_import"@.len() != "berth_unpublish"@.len());
            reveal_strlit("berth_env_set");
            assert("berth_env_import"@.len() != "berth_env_set"@.len());
            reveal_strlit("berth_env_get");
            assert("berth_env_import"@.len() != "berth_env_get"@.len());
            reveal_strlit("berth_env_delete");
            assert("berth_env_import"@[10] != "berth_env_delete"@[10]);
        },
        McpTool::StoreList => {
            reveal_strlit("berth_store_list");
            reveal_strlit("berth_list_projects");
            assert("berth_store_list"@.len() != "berth_list_projects"@.len());
            reveal_strlit("berth_project_status");
            assert("berth_store_list"@.len() != "berth_project_status"@.len());
            reveal_strlit("berth_deploy");
            assert("berth_store_list"@.len() != "berth_deploy"@.len());
            reveal_strlit("berth_run");
            assert("berth_store_list"@.len() != "berth_run"@.len());
            reveal_strlit("berth_stop");
            assert("berth_store_list"@.len() != "berth_stop"@.len());
            reveal_strlit("berth_logs");
            assert("berth_store_list"@.len() != "berth_logs"@.len());
            reveal_strlit("berth_import_code");
            assert("berth_store_list"@.len() != "berth_import_code"@.len());
            reveal_strlit("berth_detect_runtime");
            assert("berth_store_list"@.len() != "berth_detect_runtime"@.len());
            reveal_strlit("berth_delete");
            assert("berth_store_list"@.len() != "berth_delete"@.len());
            reveal_strlit("berth_health");
            assert("berth_store_list"@.len() != "berth_health"@.len());
            reveal_strlit("berth_schedule_add");
            assert("berth_store_list"@.len() != "berth_schedule_add"@.len());
            reveal_strlit("berth_schedule_list");
            assert("berth_store_list"@.len() != "berth_schedule_list"@.len());
            reveal_strlit("berth_schedule_remove");
            assert("berth_store_list"@.len() != "berth_schedule_remove"@.len());
            reveal_strlit("berth_list_targets");
            assert("berth_store_list"@.len() != "berth_list_targets"@.len());
            reveal_strlit("berth_add_target");
            assert("berth_store_list"@[6] != "berth_add_target"@[6]);
            reveal_strlit("berth_remove_target");
            assert("berth_store_list"@.len() != "berth_remove_target"@.len());
            reveal_strlit("berth_list_agents");
            assert("berth_store_list"@.len() != "berth_list_agents"@.len());
            reveal_strlit("berth_publish");
            assert("berth_store_list"@.len() != "berth_publish"@.len());
            reveal_strlit("berth_unpublish");
            assert("berth_store_list"@.len() != "berth_unpublish"@.len());
            reveal_strlit("berth_env_set");
            assert("berth_store_list"@.len() != "berth_env_set"@.len());
            reveal_strlit("berth_env_get");
            assert("berth_store_list"@.len() != "berth_env_get"@.len());
            reveal_strlit("berth_env_delete");
            assert("berth_store_list"@[6] != "berth_env_delete"@[6]);
            reveal_strlit("berth_env_import");
            assert("berth_store_list"@[6] != "berth_env_import"@[6]);
        },
        McpTool::StoreSearch => {
            reveal_strlit("berth_store_search");
            reveal_strlit("berth_list_projects");
            assert("berth_store_search"@.len() != "berth_list_projects"@.len());
            reveal_strlit("berth_project_status");
            assert("berth_store_search"@.len() != "berth_project_status"@.len());
            reveal_strlit("berth_deploy");
            assert("berth_store_search"@.len() != "berth_deploy"@.len());
            reveal_strlit("berth_run");
            assert("berth_store_search"@.len() != "berth_run"@.len());
            reveal_strlit("berth_stop");
            assert("berth_store_search"@.len() != "berth_stop"@.len());
            reveal_strlit("berth_logs");
            assert("berth_store_search"@.len() != "berth_logs"@.len());
            reveal_strlit("berth_import_code");
            assert("berth_store_search"@.len() != "berth_import_code"@.len());
            reveal_strlit("berth_detect_runtime");
            assert("berth_store_search"@.len() != "berth_detect_runtime"@.len());
            reveal_strlit("berth_delete");
            assert("berth_store_search"@.len() != "berth_delete"@.len());
            reveal_strlit("berth_health");
            assert("berth_store_search"@.len() != "berth_health"@.len());
            reveal_strlit("berth_schedule_add");
            assert("berth_store_search"@[7] != "berth_schedule_add"@[7]);
            reveal_strlit("berth_schedule_list");
            assert("berth_store_search"@.len() != "berth_schedule_list"@.len());
            reveal_strlit("berth_schedule_remove");
            assert("berth_store_search"@.len() != "berth_schedule_remove"@.len());
            reveal_strlit("berth_list_targets");
            assert("berth_store_search"@[6] != "berth_list_targets"@[6]);
            reveal_strlit("berth_add_target");
            assert("berth_store_search"@.len() != "berth_add_target"@.len());
            reveal_strlit("berth_remove_target");
            assert("berth_store_search"@.len() != "berth_remove_target"@.len());
            reveal_strlit("berth_list_agents");
            assert("berth_store_search"@.len() != "berth_list_agents"@.len());
            reveal_strlit("berth_publish");
            assert("berth_store_search"@.len() != "berth_publish"@.len());
            reveal_strlit("berth_unpublish");
            assert("berth_store_search"@.len() != "berth_unpublish"@.len());
            reveal_strlit("berth_env_set");
            assert("berth_store_search"@.len() != "berth_env_set"@.len());
            reveal_strlit("berth_env_get");
            assert("berth_store_search"@.len() != "berth_env_get"@.len());
            reveal_strlit("berth_env_delete");
            assert("berth_store_search"@.len() != "berth_env_delete"@.len());
            reveal_strlit("berth_env_import");
            assert("berth_store_search"@.len() != "berth_env_import"@.len());
            reveal_strlit("berth_store_list");
            assert("berth_store_search"@.len() != "berth_store_list"@.len());
        },
        McpTool::StoreInstall => {
            reveal_strlit("berth_store_install");
            reveal_strlit("berth_list_projects");
            assert("berth_store_install"@[6] != "berth_list_projects"@[6]);
            reveal_strlit("berth_project_status");
            assert("berth_store_install"@.len() != "berth_project_status"@.len());
            reveal_strlit("berth_deploy");
            assert("berth_store_install"@.len() != "berth_deploy"@.len());
            reveal_strlit("berth_run");
            assert("berth_store_install"@.len() != "berth_run"@.len());
            reveal_strlit("berth_stop");
            assert("berth_store_install"@.len() != "berth_stop"@.len());
            reveal_strlit("berth_logs");
            assert("berth_store_install"@.len() != "berth_logs"@.len());
            reveal_strlit("berth_import_code");
            assert("berth_store_install"@.len() != "berth_import_code"@.len());
            reveal_strlit("berth_detect_runtime");
            assert("berth_store_install"@.len() != "berth_detect_runtime"@.len());
            reveal_strlit("berth_delete");
            assert("berth_store_install"@.len() != "berth_delete"@.len());
            reveal_strlit("berth_health");
            assert("berth_store_install"@.len() != "berth_health"@.len());
            reveal_strlit("berth_schedule_add");
            assert("berth_store_install"@.len() != "berth_schedule_add"@.len());
            reveal_strlit("berth_schedule_list");
            assert("berth_store_install"@[7] != "berth_schedule_list"@[7]);
            reveal_strlit("berth_schedule_remove");
            assert("berth_store_install"@.len() != "berth_schedule_remove"@.len());
            reveal_strlit("berth_list_targets");
            assert("berth_store_install"@.len() != "berth_list_targets"@.len());
            reveal_strlit("berth_add_target");
            assert("berth_store_install"@.len() != "berth_add_target"@.len());
            reveal_strlit("berth_remove_target");
            assert("berth_store_install"@[6] != "berth_remove_target"@[6]);
            reveal_strlit("berth_list_agents");
            assert("berth_store_install"@.len() != "berth_list_agents"@.len());
            reveal_strlit("berth_publish");
            assert("berth_store_install"@.len() != "berth_publish"@.len());
            reveal_strlit("berth_unpublish");
            assert("berth_store_install"@.len() != "berth_unpublish"@.len());
            reveal_strlit("berth_env_set");
            assert("berth_store_install"@.len() != "berth_env_set"@.len());
            reveal_strlit("berth_env_get");
            assert("berth_store_install"@.len() != "berth_env_get"@.len());
            reveal_strlit("berth_env_delete");
            assert("berth_store_install"@.len() != "berth_env_delete"@.len());
            reveal_strlit("berth_env_import");
            assert("berth_store_install"@.len() != "berth_env_import"@.len());
            reveal_strlit("berth_store_list");
            assert("berth_store_install"@.len() != "berth_store_list"@.len());
            reveal_strlit("berth_store_search");
            assert("berth_store_install"@.len() != "berth_store_search"@.len());
        },
    }
}

/// Each tool sits at its own place of the catalogue.
proof fn lemma_tool_at_index(t: McpTool)
    ensures
        0 <= tool_index(t) < 26,
        tool_at(tool_index(t)) == t,
{
}

/// `tool_named` routes exactly the names of the catalogue: a name it routes
/// to a tool is that tool's catalogue name, and a name is routed if and only
/// if some catalogue entry carries it.
pub proof fn routed_names_are_catalogue_names(name: Seq<char>)
    ensures
        tool_of(name) matches Some(t) ==> name == tool_entry(t).0,
        tool_of(name) is Some <==> exists|i: int| 0 <= i < 26 && name == #[trigger] tool_entry(tool_at(i)).0,
{
    if let Some(t) = tool_of(name) {
        assert(name == tool_entry(t).0);
        lemma_tool_at_index(t);
        assert(name == tool_entry(tool_at(tool_index(t))).0);
    }
    if exists|i: int| 0 <= i < 26 && name == #[trigger] tool_entry(tool_at(i)).0 {
        let i = choose|i: int| 0 <= i < 26 && name == #[trigger] tool_entry(tool_at(i)).0;
        catalogue_names_route_to_their_tools(tool_at(i));
    }
}

/// Whether every required name of a tool is the name of one of its
/// parameters.
pub open spec fn required_are_params(tv: ToolView) -> bool {
    forall|k: int|
        0 <= k < tv.3.len() ==> exists|j: int| #![trigger tv.2[j]] 0 <= j < tv.2.len() && tv.2[j].0 == #[trigger] tv.3[k]
}

/// A call to a catalogue tool is only ever required to give parameters the
/// tool declares.
pub proof fn required_parameters_are_declared(t: McpTool)
    ensures
        required_are_params(tool_entry(t)),
{
    match t {
        McpTool::ListProjects => {
        },
        McpTool::ProjectStatus => {
            assert(tool_entry(t).2[0].0 == tool_entry(t).3[0]);
        },
        McpTool::Deploy => {
            assert(tool_entry(t).2[0].0 == tool_entry(t).3[0]);
        },
        McpTool::Run => {
            assert(tool_entry(t).2[0].0 == tool_entry(t).3[0]);
        },
        McpTool::Stop => {
            assert(tool_entry(t).2[0].0 == tool_entry(t).3[0]);
        },
        McpTool::Logs => {
            assert(tool_entry(t).2[0].0 == tool_entry(t).3[0]);
        },
        McpTool::ImportCode => {
            assert(tool_entry(t).2[0].0 == tool_entry(t).3[0]);
        },
        McpTool::DetectRuntime => {
            assert(tool_entry(t).2[0].0 == tool_entry(t).3[0]);
        },
        McpTool::Delete => {
            assert(tool_entry(t).2[0].0 == tool_entry(t).3[0]);
        },
        McpTool::Health => {
        },
        McpTool::ScheduleAdd => {
            assert(tool_entry(t).2[0].0 == tool_entry(t).3[0]);
            assert(tool_entry(t).2[1].0 == tool_entry(t).3[1]);
        },
        McpTool::ScheduleList => {
        },
        McpTool::ScheduleRemove => {
            assert(tool_entry(t).2[0].0 == tool_entry(t).3[0]);
        },
        McpTool::ListTargets => {
        },
        McpTool::AddTarget => {
            assert(tool_entry(t).2[0].0 == tool_entry(t).3[0]);
            assert(tool_entry(t).2[1].0 == tool_entry(t).3[1]);
        },
        McpTool::RemoveTarget => {
            assert(tool_entry(t).2[0].0 == tool_entry(t).3[0]);
        },
        McpTool::ListAgents => {
        },
        McpTool::Publish => {
            assert(tool_entry(t).2[0].0 == tool_entry(t).3[0]);
            assert(tool_entry(t).2[1].0 == tool_entry(t).3[1]);
        },
        McpTool::Unpublish => {
            assert(tool_entry(t).2[0].0 == tool_entry(t).3[0]);
        },
        McpTool::EnvSet => {
            assert(tool_entry(t).2[0].0 == tool_entry(t).3[0]);
            assert(tool_entry(t).2[1].0 == tool_entry(t).3[1]);
            assert(tool_entry(t).2[2].0 == tool_entry(t).3[2]);
        },
        McpTool::EnvGet => {
            assert(tool_entry(t).2[0].0 == tool_entry(t).3[0]);
        },
        McpTool::EnvDelete => {
            assert(tool_entry(t).2[0].0 == tool_entry(t).3[0]);
            assert(tool_entry(t).2[1].0 == tool_entry(t).3[1]);
        },
        McpTool::EnvImport => {
            assert(tool_entry(t).2[0].0 == tool_entry(t).3[0]);
            assert(tool_entry(t).2[1].0 == tool_entry(t).3[1]);
        },
        McpTool::StoreList => {
        },
        McpTool::StoreSearch => {
            assert(tool_entry(t).2[0].0 == tool_entry(t).3[0]);
        },
        McpTool::StoreInstall => {
            assert(tool_entry(t).2[0].0 == tool_entry(t).3[0]);
        },
    }
}

/// The catalogue of tools the MCP server offers, in the order `tools/list`
/// announces them: one entry for each tool, under a name that `tool_named`
/// routes back to it.
pub fn list_tools() -> (tools: Vec<ToolSpec>)
    ensures
        tools@.len() == 26,
        forall|i: int| 0 <= i < 26 ==> #[trigger] tools@[i]@ == tool_entry(tool_at(i)),
        forall|i: int| 0 <= i < 26 ==> tool_of(#[trigger] tools@[i].name@) == Some(tool_at(i)),
        forall|i: int, j: int| 0 <= i < j < 26 ==> tools@[i].name@ != tools@[j].name@,
        forall|i: int| 0 <= i < 26 ==> required_are_params(#[trigger] tools@[i]@),
        forall|name: Seq<char>| #[trigger] tool_of(name) is Some <==> exists|i: int| 0 <= i < 26 && tools@[i].name@ == name,
{
    let mut tools: Vec<ToolSpec> = Vec::new();
    let mut i: usize = 0;
    while i < 26
        invariant
            i <= 26,
            tools@.len() == i,
            forall|k: int| 0 <= k < i ==> #[trigger] tools@[k]@ == tool_entry(tool_at(k)),
        decreases 26 - i,
    {
        let t = catalogue_tool(i);
        tools.push(tool_spec(t));
        i = i + 1;
    }
    proof {
        assert forall|i: int| 0 <= i < 26 implies tool_of(#[trigger] tools@[i].name@) == Some(tool_at(i)) by {
            assert(tools@[i]@ == tool_entry(tool_at(i)));
            catalogue_names_route_to_their_tools(tool_at(i));
        }
        assert forall|i: int, j: int| 0 <= i < j < 26 implies tools@[i].name@ != tools@[j].name@ by {
            assert(tools@[i]@ == tool_entry(tool_at(i)));
            assert(tools@[j]@ == tool_entry(tool_at(j)));
            catalogue_names_route_to_their_tools(tool_at(i));
            catalogue_names_route_to_their_tools(tool_at(j));
            lemma_tool_index(i);
            lemma_tool_index(j);
        }
        assert forall|i: int| 0 <= i < 26 implies required_are_params(#[trigger] tools@[i]@) by {
            assert(tools@[i]@ == tool_entry(tool_at(i)));
            required_parameters_are_declared(tool_at(i));
        }
        assert forall|name: Seq<char>| #[trigger] tool_of(name) is Some <==> exists|i: int| 0 <= i < 26 && tools@[i].name@ == name by {
            routed_names_are_catalogue_names(name);
            if tool_of(name) is Some {
                let i = choose|i: int| 0 <= i < 26 && name == #[trigger] tool_entry(tool_at(i)).0;
                assert(tools@[i]@ == tool_entry(tool_at(i)));
            }
            if exists|i: int| 0 <= i < 26 && tools@[i].name@ == name {
                let i = choose|i: int| 0 <= i < 26 && tools@[i].name@ == name;
                assert(tools@[i]@ == tool_entry(tool_at(i)));
                assert(name == tool_entry(tool_at(i)).0);
            }
        }
    }
    tools
}

/// Where a `tools/call` request goes: the tool its name designates, or the
/// error `Unknown tool: {name}` exactly when no catalogue entry has that
/// name.
pub fn route_tool_call(name: &str) -> (r: Result<McpTool, String>)
    ensures
        match tool_of(name@) {
            Some(t) => r == Ok::<McpTool, String>(t) && name@ == tool_entry(t).0,
            None => r matches Err(e) && e@ == "Unknown tool: "@ + name@,
        },
        r is Err <==> forall|i: int| 0 <= i < 26 ==> #[trigger] tool_entry(tool_at(i)).0 != name@,
{
    proof {
        routed_names_are_catalogue_names(name@);
    }
    match tool_named(name) {
        Some(t) => Ok(t),
        None => Err(unknown_tool_error(name)),
    }
}

} // verus!
