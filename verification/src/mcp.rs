//! The MCP server's protocol decisions: which JSON-RPC method a request
//! calls, which tool a call names, and the errors it answers with.

use vstd::prelude::*;
use crate::text::str_eq;
use crate::project::Project;
use crate::runtime::Runtime;
use crate::path_safety::{project_name_error, filename_error, sanitize_project_name, sanitize_filename};
use crate::text::{decimal, signed_decimal, u64_to_decimal, i64_to_decimal, join, strings};

verus! {

/// JSON-RPC error code for a request that is not valid JSON.
pub const PARSE_ERROR: i64 = -32700;

/// JSON-RPC error code for an unknown method.
pub const METHOD_NOT_FOUND: i64 = -32601;

/// The MCP protocol version the server speaks.
pub const PROTOCOL_VERSION: &'static str = "2024-11-05";

/// The tools the server offers.
#[derive(PartialEq, Eq, Structural, Clone, Copy, Debug)]
pub enum McpTool {
    ListProjects,
    ProjectStatus,
    Deploy,
    Run,
    Stop,
    Logs,
    ImportCode,
    DetectRuntime,
    Delete,
    Health,
    ScheduleAdd,
    ScheduleList,
    ScheduleRemove,
    ListTargets,
    AddTarget,
    RemoveTarget,
    ListAgents,
    Publish,
    Unpublish,
    EnvSet,
    EnvGet,
    EnvDelete,
    EnvImport,
    StoreList,
    StoreSearch,
    StoreInstall,
}

/// The tool a name designates.
pub open spec fn tool_of(name: Seq<char>) -> Option<McpTool> {
    if name == "berth_list_projects"@ {
        Some(McpTool::ListProjects)
    } else if name == "berth_project_status"@ {
        Some(McpTool::ProjectStatus)
    } else if name == "berth_deploy"@ {
        Some(McpTool::Deploy)
    } else if name == "berth_run"@ {
        Some(McpTool::Run)
    } else if name == "berth_stop"@ {
        Some(McpTool::Stop)
    } else if name == "berth_logs"@ {
        Some(McpTool::Logs)
    } else if name == "berth_import_code"@ {
        Some(McpTool::ImportCode)
    } else if name == "berth_detect_runtime"@ {
        Some(McpTool::DetectRuntime)
    } else if name == "berth_delete"@ {
        Some(McpTool::Delete)
    } else if name == "berth_health"@ {
        Some(McpTool::Health)
    } else if name == "berth_schedule_add"@ {
        Some(McpTool::ScheduleAdd)
    } else if name == "berth_schedule_list"@ {
        Some(McpTool::ScheduleList)
    } else if name == "berth_schedule_remove"@ {
        Some(McpTool::ScheduleRemove)
    } else if name == "berth_list_targets"@ {
        Some(McpTool::ListTargets)
    } else if name == "berth_add_target"@ {
        Some(McpTool::AddTarget)
    } else if name == "berth_remove_target"@ {
        Some(McpTool::RemoveTarget)
    } else if name == "berth_list_agents"@ {
        Some(McpTool::ListAgents)
    } else if name == "berth_publish"@ {
        Some(McpTool::Publish)
    } else if name == "berth_unpublish"@ {
        Some(McpTool::Unpublish)
    } else if name == "berth_env_set"@ {
        Some(McpTool::EnvSet)
    } else if name == "berth_env_get"@ {
        Some(McpTool::EnvGet)
    } else if name == "berth_env_delete"@ {
        Some(McpTool::EnvDelete)
    } else if name == "berth_env_import"@ {
        Some(McpTool::EnvImport)
    } else if name == "berth_store_list"@ {
        Some(McpTool::StoreList)
    } else if name == "berth_store_search"@ {
        Some(McpTool::StoreSearch)
    } else if name == "berth_store_install"@ {
        Some(McpTool::StoreInstall)
    } else {
        None
    }
}

/// The tool named in a `tools/call` request.
pub fn tool_named(name: &str) -> (t: Option<McpTool>)
    ensures
        t == tool_of(name@),
{
    if str_eq(name, "berth_list_projects") {
        Some(McpTool::ListProjects)
    } else if str_eq(name, "berth_project_status") {
        Some(McpTool::ProjectStatus)
    } else if str_eq(name, "berth_deploy") {
        Some(McpTool::Deploy)
    } else if str_eq(name, "berth_run") {
        Some(McpTool::Run)
    } else if str_eq(name, "berth_stop") {
        Some(McpTool::Stop)
    } else if str_eq(name, "berth_logs") {
        Some(McpTool::Logs)
    } else if str_eq(name, "berth_import_code") {
        Some(McpTool::ImportCode)
    } else if str_eq(name, "berth_detect_runtime") {
        Some(McpTool::DetectRuntime)
    } else if str_eq(name, "berth_delete") {
        Some(McpTool::Delete)
    } else if str_eq(name, "berth_health") {
        Some(McpTool::Health)
    } else if str_eq(name, "berth_schedule_add") {
        Some(McpTool::ScheduleAdd)
    } else if str_eq(name, "berth_schedule_list") {
        Some(McpTool::ScheduleList)
    } else if str_eq(name, "berth_schedule_remove") {
        Some(McpTool::ScheduleRemove)
    } else if str_eq(name, "berth_list_targets") {
        Some(McpTool::ListTargets)
    } else if str_eq(name, "berth_add_target") {
        Some(McpTool::AddTarget)
    } else if str_eq(name, "berth_remove_target") {
        Some(McpTool::RemoveTarget)
    } else if str_eq(name, "berth_list_agents") {
        Some(McpTool::ListAgents)
    } else if str_eq(name, "berth_publish") {
        Some(McpTool::Publish)
    } else if str_eq(name, "berth_unpublish") {
        Some(McpTool::Unpublish)
    } else if str_eq(name, "berth_env_set") {
        Some(McpTool::EnvSet)
    } else if str_eq(name, "berth_env_get") {
        Some(McpTool::EnvGet)
    } else if str_eq(name, "berth_env_delete") {
        Some(McpTool::EnvDelete)
    } else if str_eq(name, "berth_env_import") {
        Some(McpTool::EnvImport)
    } else if str_eq(name, "berth_store_list") {
        Some(McpTool::StoreList)
    } else if str_eq(name, "berth_store_search") {
        Some(McpTool::StoreSearch)
    } else if str_eq(name, "berth_store_install") {
        Some(McpTool::StoreInstall)
    } else {
        None
    }
}

/// The error for a tool name the server does not know.
pub fn unknown_tool_error(name: &str) -> (s: String)
    ensures
        s@ == "Unknown tool: "@ + name@,
{
    let mut s = "Unknown tool: ".to_owned();
    s.append(name);
    s
}

/// The error for an argument a tool requires.
pub fn missing_parameter_error(param: &str) -> (s: String)
    ensures
        s@ == "Missing required parameter: "@ + param@,
{
    let mut s = "Missing required parameter: ".to_owned();
    s.append(param);
    s
}

/// How a JSON-RPC request is answered.
#[derive(PartialEq, Eq, Structural, Clone, Copy, Debug)]
pub enum McpRoute {
    Initialize,
    /// The client's `notifications/initialized`: an empty success.
    Initialized,
    ToolsList,
    ToolsCall,
    Ping,
    /// An unknown notification (no id): an empty success.
    IgnoredNotification,
    /// An unknown method with an id: the method-not-found error.
    MethodNotFound,
}

/// The route of a request by its method and whether it carries an id.
pub open spec fn route_of(method: Seq<char>, has_id: bool) -> McpRoute {
    if method == "initialize"@ {
        McpRoute::Initialize
    } else if method == "notifications/initialized"@ {
        McpRoute::Initialized
    } else if method == "tools/list"@ {
        McpRoute::ToolsList
    } else if method == "tools/call"@ {
        McpRoute::ToolsCall
    } else if method == "ping"@ {
        McpRoute::Ping
    } else if !has_id {
        McpRoute::IgnoredNotification
    } else {
        McpRoute::MethodNotFound
    }
}

/// Routes a JSON-RPC request.
pub fn route_method(method: &str, has_id: bool) -> (r: McpRoute)
    ensures
        r == route_of(method@, has_id),
{
    if str_eq(method, "initialize") {
        McpRoute::Initialize
    } else if str_eq(method, "notifications/initialized") {
        McpRoute::Initialized
    } else if str_eq(method, "tools/list") {
        McpRoute::ToolsList
    } else if str_eq(method, "tools/call") {
        McpRoute::ToolsCall
    } else if str_eq(method, "ping") {
        McpRoute::Ping
    } else if !has_id {
        McpRoute::IgnoredNotification
    } else {
        McpRoute::MethodNotFound
    }
}

/// The message of the method-not-found error.
pub fn method_not_found_message(method: &str) -> (s: String)
    ensures
        s@ == "Method not found: "@ + method@,
{
    let mut s = "Method not found: ".to_owned();
    s.append(method);
    s
}

/// The message of the parse error.
pub fn parse_error_message(detail: &str) -> (s: String)
    ensures
        s@ == "Parse error: "@ + detail@,
{
    let mut s = "Parse error: ".to_owned();
    s.append(detail);
    s
}

/// The index of the first project named `name`.
pub open spec fn first_named(projects: Seq<Project>, name: Seq<char>) -> Option<int> {
    if exists|i: int| 0 <= i < projects.len() && projects[i].name@ == name {
        Some(choose|i: int| 0 <= i < projects.len() && projects[i].name@ == name
            && forall|j: int| 0 <= j < i ==> projects[j].name@ != name)
    } else {
        None
    }
}

/// The project a tool argument designates: the one found by id when the
/// identifier is one, else the first with that name.
pub fn find_project<'a>(by_id: Option<&'a Project>, projects: &'a Vec<Project>, identifier: &str) -> (r: Result<&'a Project, String>)
    ensures
        by_id matches Some(p) ==> r == Ok::<&Project, String>(p),
        by_id is None ==> match first_named(projects@, identifier@) {
            Some(i) => r == Ok::<&Project, String>(&projects@[i]),
            None => r matches Err(e) && e@ == "Project '"@ + identifier@ + "' not found"@,
        },
{
    if let Some(p) = by_id {
        return Ok(p);
    }
    let mut i: usize = 0;
    while i < projects.len()
        invariant
            i <= projects.len(),
            by_id is None,
            forall|j: int| 0 <= j < i ==> projects@[j].name@ != identifier@,
        decreases projects.len() - i,
    {
        if str_eq(projects[i].name.as_str(), identifier) {
            proof {
                let k = choose|k: int| 0 <= k < projects@.len() && projects@[k].name@ == identifier@
                    && forall|j: int| 0 <= j < k ==> projects@[j].name@ != identifier@;
                assert(k == i) by {
                    if k < i {
                        assert(projects@[k].name@ != identifier@);
                    } else if k > i {
                        assert(projects@[i as int].name@ != identifier@);
                    }
                }
            }
            return Ok(&projects[i]);
        }
        i = i + 1;
    }
    let mut e = "Project '".to_owned();
    e.append(identifier);
    e.append("' not found");
    Err(e)
}

/// Where a new project's files come from.
pub enum ProjectSource {
    /// Code sent inline, to be written to `filename` in the project's
    /// directory.
    Inline { filename: String, code: String },
    /// An existing directory.
    Path(String),
}

/// The error when a tool gets neither code nor a path.
pub open spec fn no_source_error() -> Seq<char> {
    "Either 'path' or 'code' must be provided"@
}

/// The source of `berth_deploy`: inline code (in `main.py` unless a file
/// name is given), else the path, else an error. Names are taken as given.
pub fn deploy_source(code: Option<&str>, filename: Option<&str>, path: Option<&str>) -> (r: Result<ProjectSource, String>)
    ensures
        match code {
            Some(c) => r matches Ok(ProjectSource::Inline { filename: f, code: k })
                && k@ == c@ && f@ == (match filename { Some(n) => n@, None => "main.py"@ }),
            None => match path {
                Some(p) => r matches Ok(ProjectSource::Path(q)) && q@ == p@,
                None => r matches Err(e) && e@ == no_source_error(),
            },
        },
{
    match code {
        Some(c) => {
            let f = match filename {
                Some(n) => n.to_owned(),
                None => "main.py".to_owned(),
            };
            Ok(ProjectSource::Inline { filename: f, code: c.to_owned() })
        },
        None => match path {
            Some(p) => Ok(ProjectSource::Path(p.to_owned())),
            None => Err("Either 'path' or 'code' must be provided".to_owned()),
        },
    }
}

/// The name and source of `berth_import_code`: the project name and the
/// file name must be safe to use as path components.
pub fn import_source(name: &str, code: Option<&str>, filename: Option<&str>, path: Option<&str>) -> (r: Result<(String, ProjectSource), String>)
    ensures
        match project_name_error(name@) {
            Some(e) => r matches Err(m) && m@ == "Invalid project name: "@ + e,
            None => match code {
                Some(c) => {
                    let f = match filename { Some(n) => n@, None => "main.py"@ };
                    match filename_error(f) {
                        Some(e) => r matches Err(m) && m@ == "Invalid filename: "@ + e,
                        None => r matches Ok((n, ProjectSource::Inline { filename: g, code: k }))
                            && n@ == name@ && g@ == f && k@ == c@,
                    }
                },
                None => match path {
                    Some(p) => r matches Ok((n, ProjectSource::Path(q))) && n@ == name@ && q@ == p@,
                    None => r matches Err(e) && e@ == no_source_error(),
                },
            },
        },
{
    let n = match sanitize_project_name(name) {
        Ok(n) => n,
        Err(e) => {
            let mut m = "Invalid project name: ".to_owned();
            m.append(e.as_str());
            return Err(m);
        },
    };
    match code {
        Some(c) => {
            let f = match filename {
                Some(x) => x,
                None => "main.py",
            };
            match sanitize_filename(f) {
                Ok(g) => Ok((n, ProjectSource::Inline { filename: g, code: c.to_owned() })),
                Err(e) => {
                    let mut m = "Invalid filename: ".to_owned();
                    m.append(e.as_str());
                    Err(m)
                },
            }
        },
        None => match path {
            Some(p) => Ok((n, ProjectSource::Path(p.to_owned()))),
            None => Err("Either 'path' or 'code' must be provided".to_owned()),
        },
    }
}

/// The output of a run as a tool reports it: each line followed by `\n`.
pub open spec fn output_text(lines: Seq<Seq<char>>) -> Seq<char>
    decreases lines.len(),
{
    if lines.len() == 0 {
        seq![]
    } else {
        output_text(lines.drop_last()) + lines.last() + "\n"@
    }
}

/// Joins the log lines of a run.
pub fn run_output_text(lines: &Vec<String>) -> (s: String)
    ensures
        s@ == output_text(strings(lines@)),
{
    let mut s = String::new();
    let mut i: usize = 0;
    while i < lines.len()
        invariant
            i <= lines.len(),
            s@ == output_text(strings(lines@).take(i as int)),
        decreases lines.len() - i,
    {
        assert(strings(lines@).take(i + 1).drop_last() == strings(lines@).take(i as int));
        s.append(lines[i].as_str());
        s.append("\n");
        i = i + 1;
    }
    assert(strings(lines@).take(lines.len() as int) == strings(lines@));
    s
}

/// `Exit code: {code}\n\n{output}`, the answer of `berth_run`.
pub fn run_result_text(exit_code: i32, output: &str) -> (s: String)
    ensures
        s@ == "Exit code: "@ + signed_decimal(exit_code as int) + "\n\n"@ + output@,
{
    let mut s = "Exit code: ".to_owned();
    s.append(i64_to_decimal(exit_code as i64).as_str());
    s.append("\n\n");
    s.append(output);
    s
}

/// The answer of `berth_deploy` after the run.
pub fn deploy_result_text(name: &str, exit_code: i32, output: &str) -> (s: String)
    ensures
        s@ == "Deployed and ran '"@ + name@ + "' (exit code: "@ + signed_decimal(exit_code as int) + ")\n\n"@ + output@,
{
    let mut s = "Deployed and ran '".to_owned();
    s.append(name);
    s.append("' (exit code: ");
    s.append(i64_to_decimal(exit_code as i64).as_str());
    s.append(")\n\n");
    s.append(output);
    s
}

/// The answer of `berth_run` when the run outlasted its timeout.
pub fn run_timeout_text(timeout_secs: u64) -> (s: String)
    ensures
        s@ == "[Timed out after "@ + decimal(timeout_secs as nat) + "s]"@,
{
    let mut s = "[Timed out after ".to_owned();
    s.append(u64_to_decimal(timeout_secs).as_str());
    s.append("s]");
    s
}

/// The answer of `berth_deploy` when the run outlasted its timeout.
pub fn deploy_timeout_text(name: &str, timeout_secs: u64) -> (s: String)
    ensures
        s@ == "Project '"@ + name@ + "' timed out after "@ + decimal(timeout_secs as nat) + "s"@,
{
    let mut s = "Project '".to_owned();
    s.append(name);
    s.append("' timed out after ");
    s.append(u64_to_decimal(timeout_secs).as_str());
    s.append("s");
    s
}

/// The answer of `berth_deploy` when no entrypoint was detected.
pub fn no_entrypoint_text(name: &str, path: &str) -> (s: String)
    ensures
        s@ == "Project '"@ + name@ + "' created at "@ + path@ + " but no entrypoint detected. Set one manually."@,
{
    let mut s = "Project '".to_owned();
    s.append(name);
    s.append("' created at ");
    s.append(path);
    s.append(" but no entrypoint detected. Set one manually.");
    s
}

/// The runtime as its variant is named (`Python`, `Node`, ...).
pub fn runtime_label(r: Runtime) -> (s: &'static str)
    ensures
        s@ == match r {
            Runtime::Python => "Python"@,
            Runtime::Node => "Node"@,
            Runtime::Go => "Go"@,
            Runtime::Rust => "Rust"@,
            Runtime::Shell => "Shell"@,
            Runtime::Unknown => "Unknown"@,
        },
{
    match r {
        Runtime::Python => "Python",
        Runtime::Node => "Node",
        Runtime::Go => "Go",
        Runtime::Rust => "Rust",
        Runtime::Shell => "Shell",
        Runtime::Unknown => "Unknown",
    }
}

/// The answer of `berth_import_code`.
pub fn imported_text(name: &str, runtime: Runtime, entrypoint: Option<&str>) -> (s: String)
    ensures
        s@ == "Project '"@ + name@ + "' created (runtime: "@
            + (match runtime {
                Runtime::Python => "Python"@,
                Runtime::Node => "Node"@,
                Runtime::Go => "Go"@,
                Runtime::Rust => "Rust"@,
                Runtime::Shell => "Shell"@,
                Runtime::Unknown => "Unknown"@,
            }) + ", entrypoint: "@ + (match entrypoint { Some(e) => e@, None => "none"@ }) + ")"@,
{
    let mut s = "Project '".to_owned();
    s.append(name);
    s.append("' created (runtime: ");
    s.append(runtime_label(runtime));
    s.append(", entrypoint: ");
    match entrypoint {
        Some(e) => s.append(e),
        None => s.append("none"),
    }
    s.append(")");
    s
}

} // verus!
