use berth::agent_config::{
    self_rollback, SelfRollback,
    bind_address, generated_agent_id, in_probation, nats_env_update, resolve_agent_id, validate_nats_creds, Probation,
    ProbationStep,
};
use berth::agent_service::{
    build_finished_line, check_rollback_backup, check_upgrade_data, code_entrypoint, container_name_for, deploy_dir,
    deploy_mode, extracting_line, health_info, is_schedule_due, is_service_mode, probation_status, progress_line,
    run_output, schedule_first_run, scheduled_container_name, setup_finished_line, stop_reply, uptime_secs, uses_container,
    validate_execute_inputs, DeployMode,
};
use berth::archive::{archive_entry_error, check_archive_size, entry_action, EntryAction, MAX_ARCHIVE_SIZE};
use berth::command_auth::{reply_subject, CommandVerdict, CommandVerifier};
use berth::container::{
    build_args, detect_capabilities, image_ref, image_tag, parse_cli_version, parse_docker_version, parse_image_list,
    prune_candidates, run_args, select_compose, ImageInfo,
};
use berth::discovery::{instance_name, mdns_hostname};
use berth::executor::build_command;
use berth::mcp::{
    find_project, method_not_found_message, ProjectSource, missing_parameter_error, route_method, tool_named, unknown_tool_error, McpRoute,
    McpTool,
};
use berth::message_auth::{current_timestamp, sign_command};
use berth::nats_relay::{compute_challenge_response, PairingClaim};
use berth::pairing::{generate_shared_secret, owner_env_update, pairing_ack, PairingAction, PairingEvent, PairingSession};
use berth::project::Project;
use berth::release::{
    asset_name, checksum_url, detect_arch, download_url, expected_checksum, installed_via_package_manager, is_confirmed,
    is_up_to_date, release_tag, release_version,
};
use berth::runtime::Runtime;
use berth::subscriber::{event_filter_subjects, events_consumer_name, logs_consumer_name};
use berth::supervisor::{
    backoff_delay_ms, exit_status, jittered_delay_ms, restart_failed_message, restarted_message, restarting_message,
    run_outcome, ExitDecision, RestartState,
};
use berth::tls::bundle_file_names;
use berth::tool_catalog::{list_tools, route_tool_call};
use berth::upgrade::{upgrade_paths, upgrade_step, StagingStep, UpgradeAction, UpgradeEvent, UpgradeState};
use berth::tunnel::{available_providers, extract_url, local_url, parse_provider, provider_name, TunnelInfo, TunnelManager, TunnelProvider};
use berth::upload::{decode_archive, decode_code, verify_archive_checksum, verify_download_checksum, ChunkAssembler, ChunkMessage, ChunkOutcome};

#[test]
fn test_extract_url() {
    let line = "2024-01-01 INF |  https://random-words-here.trycloudflare.com";
    assert_eq!(
        extract_url(line, "trycloudflare.com"),
        Some("https://random-words-here.trycloudflare.com".to_string())
    );
    let line = "no url here";
    assert_eq!(extract_url(line, "trycloudflare.com"), None);
    let line = "https://example.com not the right domain";
    assert_eq!(extract_url(line, "trycloudflare.com"), None);
}

#[test]
fn extract_url_stops_at_whitespace_and_uses_first_url() {
    assert_eq!(extract_url("x https://a.trycloudflare.com\ty", "trycloudflare.com"), Some("https://a.trycloudflare.com".into()));
    assert_eq!(extract_url("https://first.com https://b.trycloudflare.com", "trycloudflare.com"), None);
}

#[test]
fn tunnel_providers_and_urls() {
    assert_eq!(provider_name(&TunnelProvider::Cloudflared), "cloudflared");
    assert!(parse_provider("").is_ok());
    assert!(parse_provider("cloudflared").is_ok());
    assert_eq!(
        parse_provider("ngrok").err(),
        Some("Unknown tunnel provider: ngrok. Available: cloudflared".to_string())
    );
    assert_eq!(available_providers(true), vec!["cloudflared"]);
    assert!(available_providers(false).is_empty());
    assert_eq!(local_url(8080), "http://127.0.0.1:8080");
}

fn info(project: &str, url: &str) -> TunnelInfo {
    TunnelInfo { project_id: project.into(), provider: "cloudflared".into(), public_url: url.into(), local_port: 80, started_at: 0 }
}

#[test]
fn tunnel_table_reads_back_writes() {
    let mut m: TunnelManager<u32> = TunnelManager::new();
    assert!(m.insert(info("p1", "u1"), 1).is_none());
    assert!(m.insert(info("p2", "u2"), 2).is_none());
    assert_eq!(m.get("p1").map(|i| i.public_url.clone()), Some("u1".to_string()));
    assert_eq!(m.insert(info("p1", "u3"), 3), Some(1));
    assert_eq!(m.get("p1").map(|i| i.public_url.clone()), Some("u3".to_string()));
    assert_eq!(m.list().len(), 2);
    let (removed, h) = m.remove("p1").unwrap();
    assert_eq!((removed.public_url.as_str(), h), ("u3", 3));
    assert!(m.get("p1").is_none());
    assert!(m.remove("p1").is_none());
    assert_eq!(m.list().len(), 1);
}

#[test]
fn cli_version_parsing() {
    assert_eq!(parse_cli_version("podman version 4.9.3\n"), Some("4.9.3".to_string()));
    assert_eq!(parse_cli_version("   "), None);
    assert_eq!(parse_cli_version("1.2"), Some("1.2".to_string()));
    assert_eq!(parse_docker_version("Docker version 24.0.7, build afdd53b\n"), Some("24.0.7".to_string()));
    assert_eq!(parse_docker_version("docker 25.0"), Some("25.0".to_string()));
    assert_eq!(select_compose(Some(" 2.24.1\n"), None), Some(("2.24.1".to_string(), "docker compose".to_string())));
    assert_eq!(
        select_compose(Some(""), Some("podman-compose version 1.0.6")),
        Some(("1.0.6".to_string(), "podman-compose".to_string()))
    );
    assert_eq!(select_compose(None, None), None);
}

#[test]
fn capabilities_and_runtime_choice() {
    let caps = detect_capabilities(Some("4.9".into()), Some("24".into()), None);
    assert_eq!(caps.preferred, "both");
    assert_eq!(caps.runtime_cmd(), Some("podman"));
    assert!(caps.is_ready());
    let caps = detect_capabilities(None, Some("24".into()), Some(("2.0".into(), "docker compose".into())));
    assert_eq!(caps.preferred, "docker");
    assert_eq!(caps.runtime_cmd(), Some("docker"));
    assert_eq!(caps.compose_tool.as_deref(), Some("docker compose"));
    let caps = detect_capabilities(None, None, None);
    assert_eq!(caps.preferred, "none");
    assert_eq!(caps.runtime_cmd(), None);
    assert!(!caps.is_ready());
}

#[test]
fn container_command_lines() {
    assert_eq!(image_tag("proj", 7), "berth/proj:7");
    assert_eq!(image_ref("proj", "latest"), "berth/proj:latest");
    assert_eq!(build_args("t", "/c/Containerfile", "/c"), vec!["build", "-t", "t", "-f", "/c/Containerfile", "/c"]);
    let env = vec![("A".to_string(), "1".to_string()), ("B".to_string(), "x=y".to_string())];
    assert_eq!(run_args("n", &env, "img"), vec!["run", "--rm", "--name", "n", "-e", "A=1", "-e", "B=x=y", "img"]);
}

#[test]
fn image_listing_and_pruning() {
    let images = parse_image_list("3 12MB 2024-01-03 10:00\n\n1 10MB\nlatest 9MB x\nbad\n2 11MB y\n");
    let tags: Vec<&str> = images.iter().map(|i| i.tag.as_str()).collect();
    assert_eq!(tags, vec!["3", "1", "latest", "2"]);
    assert_eq!(images[0].created, "2024-01-03 10:00");
    assert_eq!(images[1].size, "10MB");
    assert_eq!(images[1].created, "");
    assert_eq!(prune_candidates(&images, 2), vec!["1"]);
    assert_eq!(prune_candidates(&images, 1), vec!["2", "1"]);
    assert!(prune_candidates(&images, 4).is_empty());
    let img = |t: &str| ImageInfo { tag: t.into(), size: String::new(), created: String::new() };
    assert_eq!(prune_candidates(&vec![img("5"), img("+5"), img("9")], 1), vec!["5", "+5"]);
}

#[test]
fn pairing_session_judges_claims() {
    let mut s = PairingSession::new("K7M4XNAB".into(), "chal".into(), 0, 0);
    let good = compute_challenge_response("chal", "K7M4XNAB");
    let bad = PairingClaim { owner_id: "o".into(), challenge_response: "nope".into() };
    assert!(matches!(s.on_event(PairingEvent::Claim(bad)), PairingAction::Reject));
    assert_eq!(s.failed_claims(), 1);
    let ok = PairingClaim { owner_id: "o".into(), challenge_response: good };
    assert!(matches!(s.on_event(PairingEvent::Claim(ok)), PairingAction::Accept(c) if c.owner_id == "o"));
    let legacy = PairingClaim { owner_id: "p".into(), challenge_response: String::new() };
    assert!(matches!(s.on_event(PairingEvent::Claim(legacy)), PairingAction::Accept(_)));
    assert!(matches!(s.on_event(PairingEvent::AdvertiseTick), PairingAction::Readvertise));
    assert!(matches!(s.on_event(PairingEvent::CodeExpired), PairingAction::NewCode));
    assert!(matches!(s.on_event(PairingEvent::CodeExpired), PairingAction::NewCode));
    assert!(matches!(s.on_event(PairingEvent::CodeExpired), PairingAction::GiveUp));
    let mut r = PairingSession::new("C".into(), "x".into(), 0, 4);
    assert!(!r.rate_limited());
    let bad = PairingClaim { owner_id: "o".into(), challenge_response: "nope".into() };
    let _ = r.on_event(PairingEvent::Claim(bad));
    assert!(r.rate_limited());
    let started = PairingSession::start(1, 2);
    assert_eq!(started.code().len(), 8);
    assert_eq!(started.challenge().len(), 36);
    assert_eq!((started.expired_count(), started.failed_claims()), (1, 2));
}

#[test]
fn shared_secret_and_ack() {
    let s = generate_shared_secret();
    assert_eq!(s.len(), 64);
    assert!(s.chars().all(|c| c.is_ascii_hexdigit() && !c.is_ascii_uppercase()));
    assert_ne!(s, generate_shared_secret());
    let ack = pairing_ack("agent", true, "Paired successfully", &s);
    assert!(ack.success);
    assert_eq!(ack.owner_id, "");
    assert_eq!(ack.shared_secret, s);
}

#[test]
fn owner_line_written_to_agent_env() {
    assert_eq!(owner_env_update("A=1\nBERTH_OWNER_ID=old\r\nB=2\n", "new"), "A=1\nBERTH_OWNER_ID=new\nB=2");
    assert_eq!(owner_env_update("A=1", "o"), "A=1\nBERTH_OWNER_ID=o");
    assert_eq!(owner_env_update("", "o"), "\nBERTH_OWNER_ID=o");
}

#[test]
fn backoff_and_restarts() {
    let delays: Vec<u64> = (0..8).map(backoff_delay_ms).collect();
    assert_eq!(delays, vec![1000, 2000, 4000, 8000, 16000, 32000, 60000, 60000]);
    let mut s = RestartState::new();
    assert_eq!(s.on_exit(false, false, 1), ExitDecision::Finish);
    assert_eq!(s.on_exit(true, true, 1), ExitDecision::Finish);
    assert_eq!(s.on_exit(true, false, 5), ExitDecision::Restart { restart_count: 1, delay_ms: 2000 });
    assert_eq!(s.on_exit(true, false, 5), ExitDecision::Restart { restart_count: 2, delay_ms: 4000 });
    assert_eq!(s.on_exit(true, false, 61), ExitDecision::Restart { restart_count: 3, delay_ms: 1000 });
    assert_eq!(s.consecutive_failures(), 0);
    assert_eq!(s.restart_count(), 3);
    assert_eq!(jittered_delay_ms(1000, -50), 950);
    assert_eq!(jittered_delay_ms(100, -50), 100);
    assert_eq!(jittered_delay_ms(60000, 3000), 63000);
    assert_eq!(restarting_message(2, -1, 4000), "\n--- Service restarting (attempt 2, exit code -1, backoff 4000ms) ---\n");
    assert_eq!(restarted_message(2), "--- Service restarted (attempt 2) ---\n");
    assert_eq!(restart_failed_message("boom"), "--- Service restart failed: boom ---\n");
    assert_eq!(exit_status(0), "completed");
    assert_eq!(exit_status(3), "failed");
    assert_eq!(run_outcome(Ok(0)), ("completed", 0));
    assert_eq!(run_outcome(Ok(2)), ("failed", 2));
    assert_eq!(run_outcome(Err("x".into())), ("failed", -1));
}

#[test]
fn deploy_dir_rejects_traversal() {
    assert_eq!(deploy_dir("/home/u/.berth/deploys", "proj", 3), Ok("/home/u/.berth/deploys/proj/v3".to_string()));
    assert_eq!(deploy_dir("/d/", "p", 10), Ok("/d/p/v10".to_string()));
    for bad in ["..", "a/b", "a\\b", "a\0b", "x..y"] {
        assert_eq!(deploy_dir("/d", bad, 1), Err("Invalid project_id: contains illegal characters".to_string()));
    }
}

#[test]
fn execute_inputs_validated() {
    let d = "/home/u/.berth/deploys";
    let t = "/home/u/.berth/tmp";
    assert!(validate_execute_inputs("main.py", "/home/u/.berth/deploys/p/v1", false, d, t).is_ok());
    assert!(validate_execute_inputs("main.py", "/home/u/.berth/tmp/x", false, d, t).is_ok());
    assert!(validate_execute_inputs("main.py", "relative/dir", false, d, t).is_err());
    assert!(validate_execute_inputs("main.py", "relative/dir", true, d, t).is_ok());
    assert!(validate_execute_inputs("main.py", "/home/u/.berth/deploys/../..", false, d, t).is_err());
    assert!(validate_execute_inputs("main.py", "/home/u/.berth/deploys/p/../../tmp/x", false, d, t).is_ok());
    assert!(validate_execute_inputs("main.py", "/home/u/.berth/deploys/./p/.", false, d, t).is_ok());
    assert!(validate_execute_inputs("main.py", "/etc", true, d, t).is_ok());
    assert_eq!(
        validate_execute_inputs("../x.py", "", false, d, t),
        Err("Invalid entrypoint: must be a relative path without '..'".to_string())
    );
    assert!(validate_execute_inputs("/bin/sh", "", false, d, t).is_err());
    assert_eq!(
        validate_execute_inputs("m.py", "/a\0", false, d, t),
        Err("Invalid working_dir: contains null bytes".to_string())
    );
    assert_eq!(
        validate_execute_inputs("m.py", "/etc", false, d, t),
        Err("Invalid working_dir: must be within agent deploy directory".to_string())
    );
    assert!(validate_execute_inputs("m.py", "/home/u/.berth/deploysX", false, d, t).is_err());
}

#[test]
fn execution_setup_choices() {
    assert!(is_service_mode("service"));
    assert!(!is_service_mode("oneshot"));
    assert!(uses_container(Some("img")));
    assert!(!uses_container(Some("")));
    assert!(!uses_container(None));
    assert_eq!(container_name_for(None, "p"), "berth-p");
    assert_eq!(container_name_for(Some("c"), "p"), "c");
    assert_eq!(scheduled_container_name("p"), "berth-sched-p");
    assert_eq!(code_entrypoint(""), "main.py");
    assert_eq!(code_entrypoint("x.py"), "x.py");
}

#[test]
fn health_and_status_reports() {
    assert_eq!(probation_status(true, true), "in_probation");
    assert_eq!(probation_status(false, true), "rolled_back");
    assert_eq!(probation_status(false, false), "");
    let h = health_info("1.0", 5, None, "linux", "x86_64", false, false, vec!["cloudflared".into()]);
    assert_eq!(h.status, "healthy");
    assert!(!h.container_ready);
    assert_eq!(h.podman_version, "");
    let h = health_info("1.0", 5, Some("4.9".into()), "linux", "x86_64", false, false, vec![]);
    assert!(h.container_ready);
    assert_eq!(uptime_secs(100, 40), 60);
    assert_eq!(uptime_secs(40, 100), 0);
    assert_eq!(stop_reply("p", true), (true, "Stopped project p".to_string()));
    assert_eq!(stop_reply("p", false), (false, "Project p is not running".to_string()));
    assert_eq!(check_upgrade_data(b""), Err("No upgrade data received".to_string()));
    assert!(check_upgrade_data(b"x").is_ok());
    assert!(check_rollback_backup(true).is_ok());
    assert_eq!(
        check_rollback_backup(false),
        Err("No backup available \u{2014} no previous version to rollback to".to_string())
    );
}

#[test]
fn schedules_and_deploy_progress() {
    assert_eq!(schedule_first_run("@hourly", 0), Ok(3600));
    assert_eq!(schedule_first_run("bad", 0), Err("Invalid cron expression: bad".to_string()));
    assert!(is_schedule_due(true, Some(10), 10));
    assert!(!is_schedule_due(true, Some(11), 10));
    assert!(!is_schedule_due(false, Some(1), 10));
    assert!(!is_schedule_due(true, None, 10));
    assert_eq!(run_output(&Ok(0)), "Exited with code 0");
    assert_eq!(run_output(&Err("boom".into())), "Error: boom");
    assert_eq!(deploy_mode(true, "FROM x", 3), DeployMode::Container);
    assert_eq!(deploy_mode(false, "FROM x", 0), DeployMode::NoSetup);
    assert_eq!(deploy_mode(true, "", 2), DeployMode::Setup);
    let l = extracting_line("/d/p/v1", 1);
    assert_eq!((l.phase.as_str(), l.text.as_str(), l.is_final), ("extracting", "Extracting source to /d/p/v1", false));
    let l = progress_line("building", "Step 1/3", 1);
    assert_eq!(l.phase, "building");
    let l = build_finished_line(Ok("berth/p:1".into()), 1);
    assert_eq!((l.phase.as_str(), l.text.as_str(), l.image_tag.as_str(), l.success), ("ready", "Image built: berth/p:1", "berth/p:1", true));
    let l = build_finished_line(Err("exit 1".into()), 1);
    assert_eq!((l.phase.as_str(), l.text.as_str(), l.success), ("error", "Build failed: exit 1", false));
    assert_eq!(setup_finished_line(false, Ok(()), 2).text, "No setup needed");
    assert_eq!(setup_finished_line(true, Ok(()), 2).text, "Setup complete");
    assert_eq!(setup_finished_line(true, Err("x".into()), 2).text, "Setup failed: x");
}

#[test]
fn chunked_upload_collects_authorized_chunks() {
    let mut up = ChunkAssembler::new("tok".into());
    let msg = |token: &str, done: bool, data: Option<&str>| ChunkMessage { token: token.into(), done, data: data.map(String::from) };
    assert_eq!(up.on_chunk(&msg("bad", false, Some("aGk="))), ChunkOutcome::BadToken);
    assert_eq!(up.on_chunk(&msg("tok", false, Some("aGk="))), ChunkOutcome::Appended);
    assert_eq!(up.on_chunk(&msg("tok", false, Some("!!!"))), ChunkOutcome::BadData);
    assert_eq!(up.on_chunk(&msg("tok", false, None)), ChunkOutcome::NoData);
    assert_eq!(up.on_chunk(&msg("tok", false, Some("IQ=="))), ChunkOutcome::Appended);
    assert_eq!(up.on_chunk(&msg("tok", true, Some("IQ=="))), ChunkOutcome::Done);
    assert_eq!(up.archive(), b"hi!");
    assert_eq!(up.received_chunks(), 2);
    assert_eq!(up.into_archive(), b"hi!".to_vec());
    let fresh = ChunkAssembler::start();
    assert_eq!(fresh.upload_token().len(), 36);
}

#[test]
fn checksums_of_uploads_and_downloads() {
    let abc = "ba7816bf8f01cfea414140de5dae2223b00361a396177a9cb410ff61f20015ad";
    assert!(verify_archive_checksum(b"abc", abc).is_ok());
    assert_eq!(
        verify_archive_checksum(b"abc", "00"),
        Err(format!("Archive checksum mismatch: expected 00, got {abc}"))
    );
    assert_eq!(verify_download_checksum(b"abc", "ff"), Err(format!("Checksum mismatch: expected ff, got {abc}")));
    assert!(verify_download_checksum(b"abc", abc).is_ok());
}

#[test]
fn command_guard_verdicts() {
    let secret = b"shared".to_vec();
    let mut guard = CommandVerifier::new(Some(secret.clone()));
    assert!(guard.has_secret());
    let now = 1_000_000;
    let sig = sign_command(b"{}", "n1", now, &secret);
    assert_eq!(guard.verify_command_at(b"{}", "n1", now, "", now), CommandVerdict::Unsigned);
    assert_eq!(guard.verify_command_at(b"{}", "n1", now - 61, &sig, now), CommandVerdict::Expired);
    assert_eq!(guard.verify_command_at(b"{x}", "n1", now, &sig, now), CommandVerdict::BadSignature);
    // the nonce was recorded by the attempt with the bad signature
    assert_eq!(guard.verify_command_at(b"{}", "n1", now, &sig, now), CommandVerdict::Replayed);
    let sig2 = sign_command(b"{}", "n2", now, &secret);
    assert_eq!(guard.verify_command_at(b"{}", "n2", now, &sig2, now + 60), CommandVerdict::Accepted);
    assert_eq!(guard.verify_command_at(b"{}", "n2", now, &sig2, now), CommandVerdict::Replayed);
    let mut open = CommandVerifier::new(None);
    assert_eq!(open.verify_command(b"x", "", 0, ""), CommandVerdict::Accepted);
    let ts = current_timestamp();
    let live = sign_command(b"p", "n3", ts, &secret);
    assert_eq!(guard.verify_command(b"p", "n3", ts, &live), CommandVerdict::Accepted);
    assert_eq!(reply_subject(Some("inbox".into()), "r"), "inbox");
    assert_eq!(reply_subject(None, "r"), "r");
}

#[test]
fn release_selection() {
    assert_eq!(detect_arch("aarch64"), "aarch64");
    assert_eq!(detect_arch("riscv64"), "x86_64");
    assert_eq!(asset_name("x86_64"), "berth-agent-linux-x86_64");
    assert_eq!(release_tag("1.2.3"), "v1.2.3");
    assert_eq!(release_tag("v1.2.3"), "v1.2.3");
    let url = download_url("v1.2.3", "berth-agent-linux-x86_64");
    assert_eq!(url, "https://github.com/berth-app/berth-agent/releases/download/v1.2.3/berth-agent-linux-x86_64");
    assert_eq!(checksum_url(&url), format!("{url}.sha256"));
    assert_eq!(release_version("vv1.0"), "1.0");
    assert!(is_up_to_date("1.0", "1.0", false));
    assert!(!is_up_to_date("1.0", "1.0", true));
    assert!(installed_via_package_manager("/usr/bin/berth-agent"));
    assert!(!installed_via_package_manager("/usr/bin/.berth/bin/berth-agent"));
    assert!(!installed_via_package_manager("/home/u/.berth/bin/berth-agent"));
    assert!(is_confirmed(" yes\n"));
    assert!(is_confirmed("Y"));
    assert!(!is_confirmed("YES"));
    assert_eq!(expected_checksum("ABCDEF  berth-agent\n"), "abcdef");
    assert_eq!(expected_checksum("   "), "");
}

#[test]
fn agent_start_up_decisions() {
    assert_eq!(bind_address(true, true, false, 50051), Ok("127.0.0.1:50051".to_string()));
    assert_eq!(bind_address(false, true, true, 50051), Ok("0.0.0.0:50051".to_string()));
    assert_eq!(bind_address(false, false, false, 1), Ok("127.0.0.1:1".to_string()));
    assert!(bind_address(false, true, false, 50051).is_err());
    assert!(in_probation(true, true));
    assert!(!in_probation(true, false));
    let u = "0123abcd-0000-4000-8000-000000000000";
    assert_eq!(generated_agent_id("host", u), "host-0123abcd");
    assert_eq!(resolve_agent_id(Some("cfg".into()), Some("st".into()), None), ("cfg".to_string(), false));
    assert_eq!(resolve_agent_id(None, Some("st".into()), None), ("st".to_string(), false));
    let (id, fresh) = resolve_agent_id(None, None, None);
    assert!(fresh && id.starts_with("agent-") && id.len() == 14);
}

#[test]
fn probation_needs_three_of_six() {
    let mut p = Probation::new();
    assert_eq!(p.on_check(true), ProbationStep::Continue);
    assert_eq!(p.on_check(false), ProbationStep::Continue);
    assert_eq!(p.on_check(true), ProbationStep::Continue);
    assert_eq!(p.on_check(true), ProbationStep::Passed);
    let mut q = Probation::new();
    let steps: Vec<ProbationStep> = [true, false, false, false, true, false].iter().map(|&ok| q.on_check(ok)).collect();
    assert_eq!(steps.last(), Some(&ProbationStep::Failed));
}

#[test]
fn nats_setup_updates_env() {
    let creds = "-----BEGIN NATS USER JWT-----\nx\n-----BEGIN USER NKEY SEED-----\ny";
    assert_eq!(validate_nats_creds(&format!("  {creds}\n")), Ok(creds.to_string()));
    assert!(validate_nats_creds("nope").is_err());
    assert_eq!(
        nats_env_update("A=1\nBERTH_NATS_URL=old\n", "/c", "tls://x"),
        "A=1\nBERTH_NATS_URL=tls://x\nBERTH_NATS_CREDS=/c"
    );
    assert_eq!(nats_env_update("", "/c", "u"), "BERTH_NATS_CREDS=/c\nBERTH_NATS_URL=u");
}

#[test]
fn runtime_commands() {
    let c = build_command(Runtime::Python, "main.py", "/w", true);
    assert_eq!((c.program.as_str(), c.args.clone()), ("/w/.venv/bin/python3", vec!["-u".to_string(), "main.py".to_string()]));
    assert_eq!(build_command(Runtime::Python, "m.py", "/w", false).program, "python3");
    assert_eq!(build_command(Runtime::Go, "main.go", "/w", false).args, vec!["run", "main.go"]);
    assert_eq!(build_command(Runtime::Rust, "x", "/w", false).args, vec!["run"]);
    assert_eq!(build_command(Runtime::Unknown, "r.sh", "/w", false).program, "sh");
    assert_eq!(build_command(Runtime::Node, "i.js", "/w", false).args, vec!["i.js"]);
}

#[test]
fn archive_entry_rules() {
    assert_eq!(entry_action(".git", true, false), EntryAction::Skip);
    assert_eq!(entry_action(".venv", true, false), EntryAction::Skip);
    assert_eq!(entry_action(".github", true, false), EntryAction::Descend);
    assert_eq!(entry_action(".env", false, true), EntryAction::Add);
    assert_eq!(entry_action(".hidden", false, true), EntryAction::Skip);
    assert_eq!(entry_action("node_modules", true, false), EntryAction::Skip);
    assert_eq!(entry_action("lib", true, false), EntryAction::Descend);
    assert_eq!(entry_action("main.pyc", false, true), EntryAction::Skip);
    assert_eq!(entry_action("main.py", false, true), EntryAction::Add);
    assert!(check_archive_size(MAX_ARCHIVE_SIZE).is_ok());
    assert_eq!(
        check_archive_size(MAX_ARCHIVE_SIZE + 5 * 1048576),
        Err("Source archive is 69MB, exceeds the 64MB limit. Ensure node_modules/, .venv/, and build artifacts are excluded.".to_string())
    );
}

#[test]
fn mcp_routing_and_tools() {
    assert_eq!(route_method("initialize", true), McpRoute::Initialize);
    assert_eq!(route_method("tools/call", true), McpRoute::ToolsCall);
    assert_eq!(route_method("unknown", false), McpRoute::IgnoredNotification);
    assert_eq!(route_method("unknown", true), McpRoute::MethodNotFound);
    assert_eq!(method_not_found_message("x"), "Method not found: x");
    assert_eq!(tool_named("berth_deploy"), Some(McpTool::Deploy));
    assert_eq!(tool_named("berth_store_install"), Some(McpTool::StoreInstall));
    assert_eq!(tool_named("deploy"), None);
    assert_eq!(unknown_tool_error("x"), "Unknown tool: x");
    assert_eq!(missing_parameter_error("name"), "Missing required parameter: name");
    let p = |name: &str| Project::new_at(format!("id-{name}"), 0, name.into(), "/p".into(), Runtime::Shell);
    let list = vec![p("a"), p("b"), p("b")];
    assert_eq!(find_project(None, &list, "b").map(|x| x.id.as_str()), Ok("id-b"));
    let direct = p("z");
    assert_eq!(find_project(Some(&direct), &list, "b").map(|x| x.id.as_str()), Ok("id-z"));
    assert_eq!(find_project(None, &list, "c").map(|x| x.id.as_str()), Err("Project 'c' not found".to_string()));
}

#[test]
fn discovery_and_subscriptions() {
    assert_eq!(mdns_hostname("box"), "box.local.");
    assert_eq!(mdns_hostname("box.local"), "box.local.");
    assert_eq!(mdns_hostname("box.local."), "box.local.");
    assert_eq!(instance_name("box"), "berth-agent-box");
    assert_eq!(event_filter_subjects("i", &vec![]), vec!["berth.i.*.event.>"]);
    assert_eq!(
        event_filter_subjects("i", &vec!["a".into(), "b".into()]),
        vec!["berth.i.a.event.>", "berth.i.b.event.>"]
    );
    assert_eq!(events_consumer_name("i"), "desktop-i");
    assert_eq!(logs_consumer_name("i", "a", "p"), "desktop-i-logs-a-p");
    assert_eq!(bundle_file_names("server"), ("server.crt".to_string(), "server.key".to_string()));
}

#[test]
fn stored_secret_is_hex_decoded() {
    let mut guard = CommandVerifier::from_stored_secret(Some("00FFa0"));
    assert!(guard.has_secret());
    let sig = sign_command(b"c", "n", 5, &[0x00, 0xff, 0xa0]);
    assert_eq!(guard.verify_command_at(b"c", "n", 5, &sig, 5), CommandVerdict::Accepted);
    let wrong = sign_command(b"c", "m", 5, b"00FFa0");
    assert_eq!(guard.verify_command_at(b"c", "m", 5, &wrong, 5), CommandVerdict::BadSignature);
    assert!(!CommandVerifier::from_stored_secret(Some("abc")).has_secret());
    assert!(!CommandVerifier::from_stored_secret(Some("zz")).has_secret());
    assert!(!CommandVerifier::from_stored_secret(None).has_secret());
}

#[test]
fn inline_code_and_archives_are_base64() {
    assert_eq!(decode_code(Some("cHJpbnQoMSk=")), Some(b"print(1)".to_vec()));
    assert_eq!(decode_code(Some("%%%")), None);
    assert_eq!(decode_code(None), None);
    assert_eq!(decode_archive("aGk="), Ok(b"hi".to_vec()));
    assert!(decode_archive("a").unwrap_err().starts_with("Failed to decode archive: "));
}

#[test]
fn self_rollback_limits_loops() {
    assert_eq!(self_rollback(None, true), SelfRollback::Restore { new_count: 1 });
    assert_eq!(self_rollback(Some(" 1\n"), true), SelfRollback::Restore { new_count: 2 });
    assert_eq!(self_rollback(Some("2"), true), SelfRollback::Abandon);
    assert_eq!(self_rollback(Some("junk"), false), SelfRollback::NoBackup);
}

#[test]
fn panicked_task_line() {
    let l = berth::agent_service::task_panicked_line("Build", "join error", 4);
    assert_eq!((l.phase.as_str(), l.text.as_str(), l.is_final, l.success), ("error", "Build task panicked: join error", true, false));
}

#[test]
fn mcp_project_sources_and_answers() {
    match berth::mcp::deploy_source(Some("print(1)"), None, Some("/ignored")) {
        Ok(ProjectSource::Inline { filename, code }) => assert_eq!((filename.as_str(), code.as_str()), ("main.py", "print(1)")),
        _ => panic!("inline source expected"),
    }
    assert!(matches!(berth::mcp::deploy_source(None, None, Some("/p")), Ok(ProjectSource::Path(p)) if p == "/p"));
    assert_eq!(berth::mcp::deploy_source(None, None, None).err(), Some("Either 'path' or 'code' must be provided".to_string()));
    assert_eq!(
        berth::mcp::import_source("../x", Some("c"), None, None).err(),
        Some("Invalid project name: Project name cannot contain path separators".to_string())
    );
    assert_eq!(
        berth::mcp::import_source("ok", Some("c"), Some("a/b.py"), None).err(),
        Some("Invalid filename: Filename cannot contain path separators".to_string())
    );
    assert!(matches!(berth::mcp::import_source("ok", None, None, Some("/p")), Ok((n, ProjectSource::Path(p))) if n == "ok" && p == "/p"));
    assert_eq!(berth::mcp::run_output_text(&vec!["a".into(), "b".into()]), "a\nb\n");
    assert_eq!(berth::mcp::run_result_text(-2, "x\n"), "Exit code: -2\n\nx\n");
    assert_eq!(berth::mcp::deploy_result_text("p", 0, ""), "Deployed and ran 'p' (exit code: 0)\n\n");
    assert_eq!(berth::mcp::run_timeout_text(30), "[Timed out after 30s]");
    assert_eq!(berth::mcp::deploy_timeout_text("p", 5), "Project 'p' timed out after 5s");
    assert_eq!(
        berth::mcp::no_entrypoint_text("p", "/d"),
        "Project 'p' created at /d but no entrypoint detected. Set one manually."
    );
    assert_eq!(
        berth::mcp::imported_text("p", Runtime::Python, None),
        "Project 'p' created (runtime: Python, entrypoint: none)"
    );
}

#[test]
fn scheduled_runs_prefer_the_image() {
    use_scheduled_run_cases();
}

fn use_scheduled_run_cases() {
    match berth::agent_service::scheduled_run(Some("berth/p:3"), "python", None, "p") {
        berth::agent_service::ScheduledRun::Container { runtime_cmd, image_tag, container_name } => {
            assert_eq!((runtime_cmd.as_str(), image_tag.as_str(), container_name.as_str()), ("podman", "berth/p:3", "berth-sched-p"));
        }
        _ => panic!("container run expected"),
    }
    match berth::agent_service::scheduled_run(Some(""), "go", Some("docker"), "p") {
        berth::agent_service::ScheduledRun::Bare { runtime } => assert_eq!(runtime, Runtime::Go),
        _ => panic!("bare run expected"),
    }
}

#[test]
fn tool_catalogue_lists_every_routed_tool_once() {
    let tools = list_tools();
    assert_eq!(tools.len(), 26);
    for (i, t) in tools.iter().enumerate() {
        assert!(tool_named(&t.name).is_some(), "{} is not routed", t.name);
        for other in &tools[i + 1..] {
            assert_ne!(t.name, other.name);
        }
        for r in &t.required {
            assert!(t.params.iter().any(|p| &p.name == r));
        }
    }
    assert_eq!(tools[0].name, "berth_list_projects");
    assert_eq!(tools[25].name, "berth_store_install");
}

#[test]
fn tool_catalogue_keeps_defaults_and_choices() {
    let tools = list_tools();
    let deploy = &tools[2];
    assert_eq!(deploy.name, "berth_deploy");
    assert_eq!(deploy.required, vec!["name".to_string()]);
    assert_eq!(deploy.params.len(), 4);
    assert_eq!(deploy.params[3].name, "target");
    assert_eq!(deploy.params[3].default.as_deref(), Some("local"));
    let run = &tools[3];
    assert_eq!(run.params[1].kind, "integer");
    assert_eq!(run.params[1].default.as_deref(), Some("30"));
    let publish = tools.iter().find(|t| t.name == "berth_publish").unwrap();
    assert_eq!(publish.required, vec!["project_id".to_string(), "port".to_string()]);
    assert_eq!(publish.params[2].choices, vec!["cloudflared".to_string()]);
    assert_eq!(publish.params[1].default, None);
    let add_target = tools.iter().find(|t| t.name == "berth_add_target").unwrap();
    assert_eq!(add_target.params[2].default.as_deref(), Some("50051"));
    let health = tools.iter().find(|t| t.name == "berth_health").unwrap();
    assert!(health.params.is_empty() && health.required.is_empty());
}

#[test]
fn archive_entries_checked_before_unpacking() {
    assert_eq!(archive_entry_error("main.py", false, None), None);
    assert_eq!(archive_entry_error("lib/utils.py", false, None), None);
    assert_eq!(archive_entry_error("a/...b", false, None), None);
    assert_eq!(archive_entry_error("/etc/passwd", false, None), Some("Archive contains absolute path: /etc/passwd".to_string()));
    assert_eq!(archive_entry_error("a/../../x", false, None), Some("Archive contains path traversal: a/../../x".to_string()));
    assert_eq!(archive_entry_error("..", false, None), Some("Archive contains path traversal: ..".to_string()));
    assert_eq!(
        archive_entry_error("link", true, Some("/etc/shadow")),
        Some("Archive contains suspicious link: link -> /etc/shadow".to_string())
    );
    assert_eq!(
        archive_entry_error("link", true, Some("../up")),
        Some("Archive contains suspicious link: link -> ../up".to_string())
    );
    assert_eq!(archive_entry_error("link", true, Some("lib/utils.py")), None);
    assert_eq!(archive_entry_error("link", true, None), None);
    assert_eq!(archive_entry_error("plain", false, Some("/abs")), None);
}

#[test]
fn tool_calls_route_to_advertised_tools_only() {
    assert_eq!(route_tool_call("berth_run"), Ok(McpTool::Run));
    assert_eq!(route_tool_call("berth_store_install"), Ok(McpTool::StoreInstall));
    assert_eq!(route_tool_call("berth_nope"), Err("Unknown tool: berth_nope".to_string()));
    for t in list_tools() {
        assert!(route_tool_call(&t.name).is_ok());
    }
}

#[test]
fn scheduled_run_end_records_and_advances() {
    let end = berth::agent_service::scheduled_run_end("@hourly", 1_000, Ok(0));
    assert_eq!((end.status, end.exit_code, end.event_type), ("completed", 0, "schedule_triggered"));
    assert_eq!((end.last_run_at, end.next_run_at), (1_000, Some(4_600)));
    let end = berth::agent_service::scheduled_run_end("@every 5m", 50, Ok(3));
    assert_eq!((end.status, end.exit_code, end.next_run_at), ("failed", 3, Some(350)));
    let end = berth::agent_service::scheduled_run_end("nonsense", 50, Err("spawn failed".to_string()));
    assert_eq!((end.status, end.exit_code, end.next_run_at), ("failed", -1, None));
}

fn expect_fail(r: (UpgradeState, UpgradeAction), message: &str, removes: bool) {
    assert!(matches!(r.0, UpgradeState::Failed));
    match r.1 {
        UpgradeAction::Fail { error, remove_staging } => {
            assert_eq!(error, message);
            assert_eq!(remove_staging, removes);
        }
        _ => panic!("failure expected"),
    }
}

#[test]
fn upgrade_steps_in_order() {
    let paths = upgrade_paths("/home/u/.berth");
    assert_eq!(paths.active, "/home/u/.berth/bin/berth-agent");
    assert_eq!(paths.staging, "/home/u/.berth/bin/berth-agent.new");
    assert_eq!(paths.backup, "/home/u/.berth/bin/berth-agent.old");
    let b = paths.backup.as_str();
    let (s, a) = upgrade_step(UpgradeState::Idle, UpgradeEvent::Received { len: 10 }, b);
    assert!(matches!((&s, &a), (UpgradeState::Staging, UpgradeAction::WriteStaging)));
    let (s, a) = upgrade_step(s, UpgradeEvent::Staged, b);
    assert!(matches!((&s, &a), (UpgradeState::Verifying, UpgradeAction::RunVersionCheck)));
    let ran = UpgradeEvent::VersionRan { success: true, stdout: " 0.4.0\n".to_string(), stderr: String::new() };
    let (s, a) = upgrade_step(s, ran, b);
    assert!(matches!(&a, UpgradeAction::BackupActive));
    assert!(matches!(&s, UpgradeState::BackingUp { new_version } if new_version == "0.4.0"));
    let (s, a) = upgrade_step(s, UpgradeEvent::BackedUp, b);
    assert!(matches!((&s, &a), (UpgradeState::Promoting { .. }, UpgradeAction::Promote)));
    let (s, a) = upgrade_step(s, UpgradeEvent::Promoted, b);
    assert!(matches!(s, UpgradeState::Done));
    match a {
        UpgradeAction::Finish { new_version, message } => {
            assert_eq!(new_version, "0.4.0");
            assert_eq!(message, "Upgrade successful, restarting...");
        }
        _ => panic!("finish expected"),
    }
}

#[test]
fn upgrade_failures() {
    let b = "/b/berth-agent.old";
    expect_fail(upgrade_step(UpgradeState::Idle, UpgradeEvent::Received { len: 0 }, b), "No upgrade data received", false);
    let failed = UpgradeEvent::StagingFailed { step: StagingStep::MakeExecutable, error: "denied".to_string() };
    expect_fail(upgrade_step(UpgradeState::Staging, failed, b), "Failed to chmod: denied", false);
    let ran = UpgradeEvent::VersionRan { success: false, stdout: String::new(), stderr: "bad elf".to_string() };
    expect_fail(upgrade_step(UpgradeState::Verifying, ran, b), "New binary verification failed: bad elf", true);
    let nope = UpgradeEvent::VersionFailed { error: "not found".to_string() };
    expect_fail(upgrade_step(UpgradeState::Verifying, nope, b), "Failed to verify new binary: not found", true);
    let promo = UpgradeEvent::PromoteFailed { error: "busy".to_string() };
    expect_fail(
        upgrade_step(UpgradeState::Promoting { new_version: "1".to_string() }, promo, b),
        "Failed to promote new binary: busy. Backup at /b/berth-agent.old",
        false,
    );
    let (s, a) = upgrade_step(UpgradeState::Idle, UpgradeEvent::Promoted, b);
    assert!(matches!((s, a), (UpgradeState::Idle, UpgradeAction::Ignore)));
}
