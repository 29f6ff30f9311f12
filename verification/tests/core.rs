use berth::account::{first_profile, is_configured, is_configured_with, UserProfile};
use berth::auth::{AuthState, UserTier};
use berth::containerfile::{generate, get, has_custom, setup_commands};
use berth::core_relay;
use berth::detect::{detect_from_file, detect_runtime, find_entrypoint, PackageManifest, ProjectDir, RuntimeInfo};
use berth::path_safety::{path_is_within, sanitize_entrypoint, sanitize_filename, sanitize_project_name, validate_path_within};
use berth::project::{LogStream, Project, ProjectStatus, RunMode};
use berth::runtime::{parse_cargo_toml, parse_go_mod, parse_pyproject_toml, parse_requirements_txt, Runtime};
use berth::setup::{
    command_echo, compute_deps_hash, is_setup_cached, resolve_python_path, setup_cache_file, setup_failure, SimpleHasher,
};
use berth::telemetry::{EventType, Telemetry};
use berth::template_store::{
    filter_by_category, lowered_fields_match, search_templates, template_install_plan, StoreCatalog, TemplateCategory,
    TemplateEnvHint, TemplateMeta,
};

fn make_info(runtime: Runtime, entrypoint: &str, deps: Vec<&str>) -> RuntimeInfo {
    RuntimeInfo {
        runtime,
        version_file: None,
        entrypoint: Some(entrypoint.to_string()),
        confidence_pct: 90,
        dependencies: deps.into_iter().map(String::from).collect(),
        scripts: Vec::new(),
    }
}

#[test]
fn test_anonymous_capabilities() {
    let tier = UserTier::Anonymous;
    assert!(!tier.can_publish());
    assert!(!tier.can_sync_settings());
    assert_eq!(tier.max_nats_agents(), Some(0));
}

#[test]
fn test_free_capabilities() {
    let tier = UserTier::Free;
    assert!(!tier.can_publish());
    assert!(tier.can_sync_settings());
    assert_eq!(tier.max_nats_agents(), Some(3));
}

#[test]
fn test_early_adopter_capabilities() {
    let tier = UserTier::EarlyAdopter;
    assert!(tier.can_publish());
    assert!(tier.can_use_cloud_targets());
    assert!(tier.can_sync_settings());
    assert!(!tier.can_manage_team());
    assert_eq!(tier.max_nats_agents(), Some(10));
}

#[test]
fn test_pro_capabilities() {
    let tier = UserTier::Pro;
    assert!(tier.can_publish());
    assert!(tier.can_sync_settings());
    assert_eq!(tier.max_nats_agents(), Some(10));
}

#[test]
fn test_team_capabilities() {
    let tier = UserTier::Team;
    assert!(tier.can_manage_team());
    assert_eq!(tier.max_nats_agents(), None);
}

#[test]
fn test_auth_state_default() {
    let state = AuthState::default();
    assert_eq!(state.tier, UserTier::Anonymous);
    assert!(state.email.is_none());
    assert!(state.user_id.is_none());
}

#[test]
fn test_effective_tier_free_no_grace() {
    let state = AuthState { tier: UserTier::Free, ..Default::default() };
    assert_eq!(state.effective_tier(), UserTier::Free);
}

fn unix_now() -> i64 {
    std::time::SystemTime::now().duration_since(std::time::UNIX_EPOCH).unwrap().as_secs() as i64
}

#[test]
fn test_effective_tier_pro_within_grace() {
    let state = AuthState { tier: UserTier::Pro, offline_grace_until: Some(unix_now() + 3 * 86400), ..Default::default() };
    assert_eq!(state.effective_tier(), UserTier::Pro);
}

#[test]
fn test_effective_tier_pro_grace_expired() {
    let state = AuthState { tier: UserTier::Pro, offline_grace_until: Some(unix_now() - 86400), ..Default::default() };
    assert_eq!(state.effective_tier(), UserTier::Free);
}

#[test]
fn effective_tier_at_boundaries() {
    let team = AuthState { tier: UserTier::Team, offline_grace_until: Some(100), ..Default::default() };
    assert_eq!(team.effective_tier_at(100), UserTier::Team);
    assert_eq!(team.effective_tier_at(101), UserTier::Free);
    let ea = AuthState { tier: UserTier::EarlyAdopter, offline_grace_until: Some(100), ..Default::default() };
    assert_eq!(ea.effective_tier_at(1_000_000), UserTier::EarlyAdopter);
    assert_eq!(UserTier::EarlyAdopter.as_str(), "early_adopter");
}

#[test]
fn test_python_containerfile() {
    let info = make_info(Runtime::Python, "main.py", vec!["requests", "flask"]);
    let cf = generate(&info);
    assert!(cf.contains("FROM python:3.12-slim"));
    assert!(cf.contains("pip install"));
    assert!(cf.contains("CMD [\"python\", \"-u\", \"main.py\"]"));
}

#[test]
fn test_node_containerfile() {
    let info = make_info(Runtime::Node, "index.js", vec!["express"]);
    let cf = generate(&info);
    assert!(cf.contains("FROM node:20-slim"));
    assert!(cf.contains("npm install"));
    assert!(cf.contains("CMD [\"node\", \"index.js\"]"));
}

#[test]
fn test_go_containerfile() {
    let info = make_info(Runtime::Go, "main.go", vec![]);
    let cf = generate(&info);
    assert!(cf.contains("FROM golang:1.22"));
    assert!(cf.contains("CMD [\"go\", \"run\", \"main.go\"]"));
}

#[test]
fn test_shell_containerfile() {
    let info = make_info(Runtime::Shell, "run.sh", vec![]);
    let cf = generate(&info);
    assert!(cf.contains("FROM alpine:3.19"));
    assert!(cf.contains("CMD [\"sh\", \"run.sh\"]"));
}

#[test]
fn test_rust_containerfile() {
    let info = make_info(Runtime::Rust, "src/main.rs", vec!["serde"]);
    let cf = generate(&info);
    assert!(cf.contains("FROM rust:1.77 AS builder"));
    assert!(cf.contains("cargo build --release"));
}

#[test]
fn test_custom_containerfile() {
    let existing = vec!["Containerfile".to_string()];
    assert_eq!(has_custom(&existing), Some("Containerfile".to_string()));
    let info = make_info(Runtime::Python, "main.py", vec![]);
    let cf = get(Some("FROM custom:latest".to_string()), &info);
    assert_eq!(cf, "FROM custom:latest");
}

#[test]
fn containerfile_exact_texts() {
    let py = generate(&make_info(Runtime::Python, "app.py", vec![]));
    assert_eq!(py, "FROM python:3.12-slim\nWORKDIR /app\nCOPY . .\nCMD [\"python\", \"-u\", \"app.py\"]");
    let mut info = make_info(Runtime::Unknown, "x", vec![]);
    info.entrypoint = None;
    assert_eq!(
        generate(&info),
        "FROM alpine:3.19\nRUN apk add --no-cache bash curl\nWORKDIR /app\nCOPY . .\nRUN chmod +x main.py\nCMD [\"sh\", \"main.py\"]"
    );
    assert_eq!(has_custom(&vec!["Dockerfile".to_string(), "Containerfile".to_string()]), Some("Containerfile".to_string()));
    assert_eq!(has_custom(&vec!["Dockerfile".to_string()]), Some("Dockerfile".to_string()));
    assert_eq!(has_custom(&vec![]), None);
}

#[test]
fn test_setup_commands_python() {
    let info = make_info(Runtime::Python, "main.py", vec!["requests"]);
    let cmds = setup_commands(&info);
    assert_eq!(cmds.len(), 2);
    assert!(cmds[0].contains("venv"));
    assert!(cmds[1].contains("pip install"));
}

#[test]
fn test_setup_commands_no_deps() {
    let info = make_info(Runtime::Python, "main.py", vec![]);
    let cmds = setup_commands(&info);
    assert!(cmds.is_empty());
}

#[test]
fn setup_commands_other_runtimes() {
    assert_eq!(setup_commands(&make_info(Runtime::Node, "i.js", vec!["x"])), vec!["npm install --production"]);
    assert_eq!(setup_commands(&make_info(Runtime::Go, "m.go", vec!["x"])), vec!["go mod download"]);
    assert_eq!(setup_commands(&make_info(Runtime::Rust, "m.rs", vec!["x"])), vec!["cargo build --release"]);
    assert!(setup_commands(&make_info(Runtime::Shell, "r.sh", vec!["x"])).is_empty());
}

#[test]
fn nats_relay_test_event_subjects() {
    assert_eq!(core_relay::event_subject("vps1", "deploy_completed"), "berth.vps1.event.deploy");
    assert_eq!(core_relay::event_subject("vps1", "execution_completed"), "berth.vps1.event.execution");
    assert_eq!(core_relay::event_subject("vps1", "schedule_triggered"), "berth.vps1.event.schedule");
    assert_eq!(core_relay::event_subject("vps1", "agent_upgraded"), "berth.vps1.event.agent");
}

#[test]
fn nats_relay_test_log_subject() {
    assert_eq!(core_relay::log_subject("vps1", "proj-123"), "berth.vps1.log.proj-123");
}

#[test]
fn nats_relay_test_heartbeat_subject() {
    assert_eq!(core_relay::heartbeat_subject("vps1"), "berth.vps1.heartbeat");
}

#[test]
fn core_cmd_and_resp_subjects() {
    assert_eq!(core_relay::cmd_subject("vps1", "health"), "berth.vps1.cmd.health");
    assert_eq!(core_relay::resp_subject("vps1", "r1"), "berth.vps1.resp.r1");
}

#[test]
fn test_valid_project_names() {
    assert!(sanitize_project_name("my-project").is_ok());
    assert!(sanitize_project_name("café 2").is_ok());
    assert_eq!(
        sanitize_project_name("a$b"),
        Err("Project name can only contain letters, digits, '-', '_', '.' and spaces".to_string())
    );
    assert!(sanitize_project_name("a:b").is_err());
    assert!(sanitize_project_name("my_project").is_ok());
    assert!(sanitize_project_name("my project").is_ok());
    assert!(sanitize_project_name("project.v2").is_ok());
    assert!(sanitize_project_name("123").is_ok());
}

#[test]
fn test_invalid_project_names() {
    assert!(sanitize_project_name("").is_err());
    assert!(sanitize_project_name("../evil").is_err());
    assert!(sanitize_project_name("foo/bar").is_err());
    assert!(sanitize_project_name("foo\\bar").is_err());
    assert!(sanitize_project_name("a\0b").is_err());
    assert!(sanitize_project_name("a\nb").is_err());
    let long = "a".repeat(129);
    assert!(sanitize_project_name(&long).is_err());
}

#[test]
fn project_name_error_messages() {
    assert_eq!(sanitize_project_name(""), Err("Project name cannot be empty".to_string()));
    assert_eq!(sanitize_project_name(&"a".repeat(129)), Err("Project name too long (max 128 characters)".to_string()));
    assert_eq!(sanitize_project_name("a/b"), Err("Project name cannot contain path separators".to_string()));
    assert_eq!(sanitize_project_name("a..b"), Err("Project name cannot contain '..'".to_string()));
    assert_eq!(sanitize_project_name("a\0b"), Err("Project name cannot contain null bytes".to_string()));
    assert_eq!(sanitize_project_name("a\tb"), Err("Project name cannot contain control characters".to_string()));
    assert_eq!(sanitize_project_name(&"a".repeat(128)), Ok("a".repeat(128)));
}

#[test]
fn test_valid_entrypoints() {
    assert!(sanitize_entrypoint("main.py").is_ok());
    assert!(sanitize_entrypoint("src/main.py").is_ok());
    assert!(sanitize_entrypoint("script.sh").is_ok());
}

#[test]
fn test_invalid_entrypoints() {
    assert!(sanitize_entrypoint("").is_err());
    assert!(sanitize_entrypoint("../../etc/passwd").is_err());
    assert!(sanitize_entrypoint("/etc/passwd").is_err());
    assert!(sanitize_entrypoint("a\0b").is_err());
}

#[test]
fn test_validate_path_within() {
    let base = "/tmp";
    let target = "/tmp/test_file";
    let r = validate_path_within(base, target, Ok(base.to_string()), Ok(target.to_string()));
    assert_eq!(r, Ok("/tmp/test_file".to_string()));
}

#[test]
fn validate_path_within_rejects_outside_and_reports_errors() {
    let r = validate_path_within("/srv/app", "/etc/passwd", Ok("/srv/app".into()), Ok("/etc/passwd".into()));
    assert_eq!(r, Err("Path '/etc/passwd' is outside the allowed directory '/srv/app'".to_string()));
    let r = validate_path_within("/srv/app", "/srv/apple", Ok("/srv/app".into()), Ok("/srv/apple".into()));
    assert!(r.is_err());
    let r = validate_path_within("b", "t", Err("nope".into()), Ok("/x".into()));
    assert_eq!(r, Err("Invalid base path 'b': nope".to_string()));
    let r = validate_path_within("b", "t", Ok("/x".into()), Err("gone".into()));
    assert_eq!(r, Err("Invalid path 't': gone".to_string()));
    assert!(path_is_within("/a/b", "/a/b/c"));
    assert!(path_is_within("/a/b/", "/a//b/./c"));
    assert!(!path_is_within("/a/b/c", "/a/b"));
}

#[test]
fn test_valid_filenames() {
    assert!(sanitize_filename("main.py").is_ok());
    assert!(sanitize_filename("my-script.sh").is_ok());
}

#[test]
fn test_invalid_filenames() {
    assert!(sanitize_filename("").is_err());
    assert!(sanitize_filename("../evil.py").is_err());
    assert!(sanitize_filename("foo/bar.py").is_err());
}

#[test]
fn test_parse_requirements_txt() {
    let deps = parse_requirements_txt("requests>=2.28\nflask\n# comment\nnumpy==1.24\n");
    assert_eq!(deps, vec!["requests", "flask", "numpy"]);
}

#[test]
fn test_parse_package_json() {
    let mut dir = ProjectDir { existing: vec!["package.json".into()], entries: vec![], manifests: vec![], package_json: None };
    dir.package_json = Some(PackageManifest {
        dependencies: vec!["express".into()],
        dev_dependencies: vec!["jest".into()],
        scripts: vec![("start".into(), "node index.js".into()), ("test".into(), "jest".into())],
    });
    let (deps, scripts) = berth::detect::parse_deps("package.json", &dir);
    assert!(deps.contains(&"express".to_string()));
    assert!(deps.contains(&"jest".to_string()));
    assert_eq!(scripts.iter().find(|(k, _)| k == "start").map(|(_, v)| v.as_str()), Some("node index.js"));
}

#[test]
fn test_parse_go_mod() {
    let deps = parse_go_mod(
        "module example.com/foo\n\ngo 1.21\n\nrequire (\n\tgithub.com/gin-gonic/gin v1.9.1\n\tgithub.com/lib/pq v1.10.9\n)\n",
    );
    assert_eq!(deps, vec!["github.com/gin-gonic/gin", "github.com/lib/pq"]);
}

#[test]
fn test_parse_cargo_toml() {
    let deps = parse_cargo_toml(
        "[package]\nname = \"foo\"\n\n[dependencies]\nserde = \"1\"\ntokio = { version = \"1\" }\n\n[dev-dependencies]\ntempfile = \"3\"\n",
    );
    assert_eq!(deps, vec!["serde", "tokio"]);
}

#[test]
fn parse_pyproject_dependencies() {
    let deps = parse_pyproject_toml("[project]\nname = \"x\"\ndependencies = [\n  \"requests>=2\",\n  \"flask\",\n]\n");
    assert_eq!(deps, vec!["requests", "flask"]);
}

#[test]
fn detect_python_project() {
    let dir = ProjectDir {
        existing: vec!["requirements.txt".into(), "main.py".into()],
        entries: vec!["requirements.txt".into(), "main.py".into()],
        manifests: vec![("requirements.txt".into(), "flask\n".into())],
        package_json: None,
    };
    let info = detect_runtime(&dir);
    assert_eq!(info.runtime, Runtime::Python);
    assert_eq!(info.entrypoint.as_deref(), Some("main.py"));
    assert_eq!(info.version_file.as_deref(), Some("requirements.txt"));
    assert_eq!(info.dependencies, vec!["flask"]);
    assert_eq!(find_entrypoint(&vec!["app.py".into()], Runtime::Python), Some("app.py".to_string()));
    let f = detect_from_file("deploy.sh");
    assert_eq!(f.runtime, Runtime::Shell);
    assert_eq!(f.entrypoint.as_deref(), Some("deploy.sh"));
}

#[test]
fn simple_hasher_matches_fnv1a() {
    let mut h = SimpleHasher::new();
    h.update(b"");
    assert_eq!(h.finish_hex(), "cbf29ce4842223250000000000000000");
    let mut h = SimpleHasher::new();
    h.update(b"a");
    assert_eq!(h.finish_hex(), "af63dc4c8601ec8c0000000000000001");
    let mut split = SimpleHasher::new();
    split.update(b"ab");
    split.update(b"c");
    let mut whole = SimpleHasher::new();
    whole.update(b"abc");
    assert_eq!(split.finish_hex(), whole.finish_hex());
}

#[test]
fn deps_hash_and_setup_cache() {
    assert_eq!(compute_deps_hash(&vec![None, None]), "");
    let h = compute_deps_hash(&vec![Some(b"a".to_vec()), None]);
    assert_eq!(h, "af63dc4c8601ec8c0000000000000001");
    assert!(is_setup_cached("", None));
    assert!(is_setup_cached("abc", Some("abc\n".into())));
    assert!(!is_setup_cached("abc", Some("abd".into())));
    assert!(!is_setup_cached("abc", None));
    assert_eq!(setup_cache_file("p1"), "p1.hash");
    assert_eq!(resolve_python_path("/w", true, true), Some("/w/.venv/bin/python3".to_string()));
    assert_eq!(resolve_python_path("/w/", false, true), Some("/w/.venv/bin/python".to_string()));
    assert_eq!(resolve_python_path("/w", false, false), None);
    assert_eq!(command_echo("pip install x"), "$ pip install x");
    assert_eq!(setup_failure("make", Some(2)), "Setup command failed: 'make' (exit code 2)");
    assert_eq!(setup_failure("make", None), "Setup command failed: 'make' (exit code -1)");
}

fn template(name: &str, category: &str, tags: &[&str]) -> TemplateMeta {
    TemplateMeta {
        id: name.to_lowercase(),
        name: name.into(),
        description: format!("The {name} template"),
        category: category.into(),
        runtime: "python".into(),
        entrypoint: "main.py".into(),
        version: "1.0.0".into(),
        author: "berth".into(),
        pro_only: false,
        featured: false,
        env_vars: vec![],
        tags: tags.iter().map(|t| t.to_string()).collect(),
        files: vec![],
    }
}

fn catalog() -> StoreCatalog {
    StoreCatalog {
        version: 1,
        updated_at: "2024-01-01".into(),
        categories: vec![TemplateCategory { id: "bots".into(), name: "Bots".into(), icon: "robot".into() }],
        templates: vec![
            template("Discord Bot", "bots", &["Chat"]),
            template("Web Scraper", "data", &["HTTP"]),
            template("Slack Bot", "bots", &[]),
        ],
    }
}

#[test]
fn search_templates_ignores_case() {
    let c = catalog();
    let names: Vec<&str> = search_templates(&c, "BOT").iter().map(|t| t.name.as_str()).collect();
    assert_eq!(names, vec!["Discord Bot", "Slack Bot"]);
    let names: Vec<&str> = search_templates(&c, "http").iter().map(|t| t.name.as_str()).collect();
    assert_eq!(names, vec!["Web Scraper"]);
    let names: Vec<&str> = search_templates(&c, "DATA").iter().map(|t| t.name.as_str()).collect();
    assert_eq!(names, vec!["Web Scraper"]);
    assert!(search_templates(&c, "zzz").is_empty());
    assert_eq!(search_templates(&c, "").len(), 3);
    assert!(lowered_fields_match("a", "b", "c", &vec!["chat".into()], "ch"));
    assert!(!lowered_fields_match("a", "b", "c", &vec![], "ch"));
}

#[test]
fn filter_templates_by_category() {
    let c = catalog();
    let names: Vec<&str> = filter_by_category(&c, "bots").iter().map(|t| t.name.as_str()).collect();
    assert_eq!(names, vec!["Discord Bot", "Slack Bot"]);
    assert!(filter_by_category(&c, "Bots").is_empty());
}

#[test]
fn template_install_env_defaults() {
    let mut t = template("Bot", "bots", &[]);
    t.runtime = "node".into();
    t.env_vars = vec![
        TemplateEnvHint { key: "TOKEN".into(), description: "".into(), required: true, default: None },
        TemplateEnvHint { key: "PORT".into(), description: "".into(), required: false, default: Some("8080".into()) },
        TemplateEnvHint { key: "OPT".into(), description: "".into(), required: false, default: None },
    ];
    let plan = template_install_plan(&t);
    assert_eq!(plan.name, "Bot");
    assert_eq!(plan.runtime, Runtime::Node);
    assert_eq!(plan.entrypoint, "main.py");
    assert_eq!(plan.env_vars, vec![("TOKEN".to_string(), String::new()), ("PORT".to_string(), "8080".to_string())]);
}

#[test]
fn telemetry_from_settings() {
    let settings = vec![("telemetry_enabled".to_string(), "true".to_string()), ("telemetry_device_id".to_string(), "dev-1".to_string())];
    let (t, fresh) = Telemetry::from_settings(&settings, "new".into(), "0.1.0");
    assert!(t.enabled());
    assert_eq!(t.device_id(), "dev-1");
    assert!(fresh.is_none());
    let settings = vec![("telemetry_enabled".to_string(), "TRUE".to_string()), ("telemetry_device_id".to_string(), String::new())];
    let (mut t, fresh) = Telemetry::from_settings(&settings, "new".into(), "0.1.0");
    assert!(!t.enabled());
    assert_eq!(t.device_id(), "new");
    assert_eq!(fresh.as_deref(), Some("new"));
    assert_eq!(t.set_enabled(true), "true");
    assert!(t.should_track());
    t.reset_device_id("other".into());
    assert_eq!(t.device_id(), "other");
    let (t, fresh) = Telemetry::new(&vec![], "0.1.0");
    assert_eq!(t.device_id().len(), 36);
    assert_eq!(fresh.as_deref(), Some(t.device_id()));
    assert_eq!(EventType::AgentConnectFailed.as_str(), "agent_connect_failed");
}

#[test]
fn run_modes_and_statuses() {
    assert_eq!(RunMode::default(), RunMode::Oneshot);
    assert_eq!("service".parse::<RunMode>(), Ok(RunMode::Service));
    assert_eq!(RunMode::parse("oneshot"), Ok(RunMode::Oneshot));
    assert_eq!(RunMode::parse("daemon"), Err("Invalid run mode: daemon. Use 'oneshot' or 'service'.".to_string()));
    assert_eq!(RunMode::Service.as_str(), "service");
    assert_eq!(ProjectStatus::Failed.as_str(), "failed");
    assert_eq!(LogStream::from_stored("stderr"), LogStream::Stderr);
    assert_eq!(LogStream::from_stored("other"), LogStream::Stdout);
    assert_eq!(LogStream::Stdout.as_str(), "stdout");
    let p = Project::new_at("id-1".into(), 42, "n".into(), "/p".into(), Runtime::Go);
    assert_eq!(p.created_at, 42);
    assert_eq!(p.status, ProjectStatus::Idle);
    assert!(p.notify_on_complete);
    let q = Project::new("n".into(), "/p".into(), Runtime::Go);
    assert_eq!(q.id.len(), 36);
    assert_eq!(q.id.chars().nth(14), Some('4'));
}

#[test]
fn test_is_configured() {
    assert!(is_configured());
    assert!(!is_configured_with("https://YOUR_PROJECT.supabase.co", "k"));
    assert!(!is_configured_with("https://x", "YOUR_KEY"));
}

#[test]
fn first_profile_picks_first_row() {
    let p = |id: &str| UserProfile { id: id.into(), email: None, tier: "free".into() };
    assert_eq!(first_profile(vec![p("a"), p("b")]).map(|u| u.id), Ok("a".to_string()));
    assert_eq!(first_profile(vec![]).map(|u| u.id), Err("No profile found for this user".to_string()));
}
