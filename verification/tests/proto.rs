use berth::env::{mask_env_values, parse_dotenv};
use berth::message_auth::{
    constant_time_eq_public, current_timestamp, is_timestamp_valid, is_timestamp_valid_at, sign_command,
    verify_signature, NonceTracker, MAX_NONCE_HISTORY,
};
use berth::nats_relay::{
    cmd_subject, compute_challenge_response, event_subject, generate_pairing_code, heartbeat_subject,
    log_subject, pairing_ack_subject, pairing_advertise_subject, pairing_claim_subject, resp_subject,
    upload_subject, verify_challenge_response, PAIRING_CODE_CHARSET, PAIRING_CODE_LENGTH,
};
use berth::runtime::{parse_runtime, Runtime};
use berth::schedule::{next_run_in_range, parse_next_run};

fn pairs(v: &[(&str, &str)]) -> Vec<(String, String)> {
    v.iter().map(|(k, x)| (k.to_string(), x.to_string())).collect()
}

fn now() -> i64 {
    current_timestamp()
}

#[test]
fn test_parse_dotenv_basic() {
    let content = "KEY=value\nFOO=bar";
    let vars = parse_dotenv(content);
    assert_eq!(vars, pairs(&[("KEY", "value"), ("FOO", "bar")]));
}

#[test]
fn test_parse_dotenv_comments_and_blanks() {
    let content = "# comment\n\nKEY=value\n  # another comment\n";
    let vars = parse_dotenv(content);
    assert_eq!(vars, pairs(&[("KEY", "value")]));
}

#[test]
fn test_parse_dotenv_quoted() {
    let content = "KEY=\"hello world\"\nFOO='single quoted'";
    let vars = parse_dotenv(content);
    assert_eq!(vars, pairs(&[("KEY", "hello world"), ("FOO", "single quoted")]));
}

#[test]
fn test_parse_dotenv_export() {
    let content = "export API_KEY=secret123";
    let vars = parse_dotenv(content);
    assert_eq!(vars, pairs(&[("API_KEY", "secret123")]));
}

#[test]
fn test_mask_env_values() {
    let env = pairs(&[("API_KEY", "my-secret-key"), ("SHORT", "ab")]);
    let line = "Connecting with key my-secret-key and ab done";
    let masked = mask_env_values(line, &env);
    assert_eq!(masked, "Connecting with key *** and ab done");
}

#[test]
fn test_mask_longest_first() {
    let env = pairs(&[("A", "secret"), ("B", "secret-long")]);
    let line = "value is secret-long here";
    let masked = mask_env_values(line, &env);
    assert_eq!(masked, "value is *** here");
}

#[test]
fn mask_longest_first_in_either_order() {
    let env = pairs(&[("B", "secret-long"), ("A", "secret")]);
    assert_eq!(mask_env_values("value is secret-long here", &env), "value is *** here");
}

#[test]
fn parse_dotenv_skips_lines_without_equals_and_trims() {
    let vars = parse_dotenv("  A = 1  \nnot a pair\n=empty\n");
    assert_eq!(vars, pairs(&[("A", "1")]));
}

#[test]
fn test_sign_verify_roundtrip() {
    let secret = b"test-shared-secret-256bit-value!";
    let payload = b"hello world";
    let nonce = "unique-nonce-123";
    let ts = now();
    let sig = sign_command(payload, nonce, ts, secret);
    assert!(verify_signature(payload, nonce, ts, &sig, secret));
}

#[test]
fn test_tampered_payload_rejected() {
    let secret = b"test-shared-secret-256bit-value!";
    let payload = b"hello world";
    let nonce = "unique-nonce-123";
    let ts = now();
    let sig = sign_command(payload, nonce, ts, secret);
    assert!(!verify_signature(b"tampered", nonce, ts, &sig, secret));
}

#[test]
fn test_wrong_secret_rejected() {
    let secret = b"correct-secret";
    let wrong = b"wrong-secret!!";
    let payload = b"hello world";
    let nonce = "nonce";
    let ts = now();
    let sig = sign_command(payload, nonce, ts, secret);
    assert!(!verify_signature(payload, nonce, ts, &sig, wrong));
}

#[test]
fn sign_command_is_hex_of_hmac_over_nonce_timestamp_payload() {
    let sig = sign_command(b"x", "n", 1, b"k");
    assert_eq!(sig.len(), 64);
    assert!(sig.chars().all(|c| c.is_ascii_hexdigit() && !c.is_ascii_uppercase()));
    assert_ne!(sig, sign_command(b"x", "n", 2, b"k"));
    assert_ne!(sig, sign_command(b"x", "m", 1, b"k"));
}

#[test]
fn test_expired_timestamp() {
    let old_ts = now() - 120;
    assert!(!is_timestamp_valid(old_ts));
    let valid_ts = now() - 30;
    assert!(is_timestamp_valid(valid_ts));
    let now_ts = now();
    assert!(is_timestamp_valid(now_ts));
}

#[test]
fn timestamp_window_is_sixty_seconds_both_ways() {
    assert!(is_timestamp_valid_at(1000, 1060));
    assert!(!is_timestamp_valid_at(1000, 1061));
    assert!(is_timestamp_valid_at(1060, 1000));
    assert!(!is_timestamp_valid_at(1061, 1000));
    assert!(is_timestamp_valid_at(i64::MIN, i64::MIN));
    assert!(!is_timestamp_valid_at(i64::MIN, i64::MAX));
}

#[test]
fn constant_time_eq_compares_contents() {
    assert!(constant_time_eq_public(b"abc", b"abc"));
    assert!(!constant_time_eq_public(b"abc", b"abd"));
    assert!(!constant_time_eq_public(b"abc", b"ab"));
    assert!(constant_time_eq_public(b"", b""));
}

#[test]
fn test_nonce_replay_prevention() {
    let mut tracker = NonceTracker::new();
    assert!(tracker.check_and_record("nonce-1"));
    assert!(tracker.check_and_record("nonce-2"));
    assert!(!tracker.check_and_record("nonce-1"));
    assert!(!tracker.check_and_record("nonce-2"));
    assert!(tracker.check_and_record("nonce-3"));
}

#[test]
fn test_nonce_tracker_eviction() {
    let mut tracker = NonceTracker::new();
    for i in 0..MAX_NONCE_HISTORY {
        assert!(tracker.check_and_record(&format!("nonce-{i}")));
    }
    assert!(!tracker.check_and_record("nonce-0"));
    assert!(tracker.check_and_record("overflow"));
    assert!(tracker.check_and_record("nonce-0"));
    assert!(!tracker.check_and_record(&format!("nonce-{}", MAX_NONCE_HISTORY - 1)));
}

#[test]
fn nonce_tracker_reports_contents() {
    let mut tracker = NonceTracker::default();
    assert_eq!(tracker.len(), 0);
    assert!(tracker.check_and_record("a"));
    assert!(tracker.contains("a"));
    assert!(!tracker.contains("b"));
    assert_eq!(tracker.len(), 1);
}

#[test]
fn test_event_subjects() {
    assert_eq!(event_subject("owner1", "vps1", "deploy_completed"), "berth.owner1.vps1.event.deploy");
    assert_eq!(event_subject("owner1", "vps1", "execution_completed"), "berth.owner1.vps1.event.execution");
    assert_eq!(event_subject("owner1", "vps1", "schedule_triggered"), "berth.owner1.vps1.event.schedule");
    assert_eq!(event_subject("owner1", "vps1", "agent_upgraded"), "berth.owner1.vps1.event.agent");
}

#[test]
fn test_log_subject() {
    assert_eq!(log_subject("owner1", "vps1", "proj-123"), "berth.owner1.vps1.log.proj-123");
}

#[test]
fn test_heartbeat_subject() {
    assert_eq!(heartbeat_subject("owner1", "vps1"), "berth.owner1.vps1.heartbeat");
}

#[test]
fn test_cmd_subject() {
    assert_eq!(cmd_subject("owner1", "vps1", "health"), "berth.owner1.vps1.cmd.health");
}

#[test]
fn test_resp_subject() {
    assert_eq!(resp_subject("owner1", "vps1", "req-123"), "berth.owner1.vps1.resp.req-123");
}

#[test]
fn test_upload_subject() {
    assert_eq!(upload_subject("owner1", "vps1", "req-123"), "berth.owner1.vps1.upload.req-123");
}

#[test]
fn test_pairing_subjects() {
    assert_eq!(pairing_advertise_subject("K7M4XNAB"), "berth.pairing.advertise.K7M4XNAB");
    assert_eq!(pairing_claim_subject("K7M4XNAB"), "berth.pairing.claim.K7M4XNAB");
    assert_eq!(pairing_ack_subject("K7M4XNAB"), "berth.pairing.ack.K7M4XNAB");
}

#[test]
fn test_generate_pairing_code() {
    let code = generate_pairing_code();
    assert_eq!(code.len(), PAIRING_CODE_LENGTH);
    assert_eq!(code.len(), 8);
    for c in code.chars() {
        assert!(PAIRING_CODE_CHARSET.as_bytes().contains(&(c as u8)), "invalid char: {c}");
    }
    let code2 = generate_pairing_code();
    assert_ne!(code, code2);
}

#[test]
fn test_challenge_response() {
    let challenge = "random-challenge-string";
    let code = "K7M4XNAB";
    let response = compute_challenge_response(challenge, code);
    assert!(verify_challenge_response(challenge, &response, code));
    assert!(!verify_challenge_response(challenge, "wrong-response", code));
    assert!(!verify_challenge_response(challenge, &response, "WRONGCOD"));
}

#[test]
fn challenge_response_is_hmac_of_challenge_keyed_by_code() {
    let r = compute_challenge_response("The quick brown fox jumps over the lazy dog", "key");
    assert_eq!(r, "f7bc83f430538424b13298e6aa6fb143ef4d59a14946175997479dbc2d1a3cd8");
}

#[test]
fn parse_runtime_names() {
    assert_eq!(parse_runtime("python"), Runtime::Python);
    assert_eq!(parse_runtime("node"), Runtime::Node);
    assert_eq!(parse_runtime("go"), Runtime::Go);
    assert_eq!(parse_runtime("rust"), Runtime::Rust);
    assert_eq!(parse_runtime("shell"), Runtime::Shell);
    assert_eq!(parse_runtime("Python"), Runtime::Unknown);
    assert_eq!(Runtime::Go.as_str(), "go");
}

fn next(expr: &str, from: i64) -> Option<i64> {
    assert!(next_run_in_range(expr, from));
    parse_next_run(expr, from)
}

#[test]
fn test_parse_every_seconds() {
    let now = now();
    let next = next("@every 30s", now).unwrap();
    assert!(next - now == 30);
}

#[test]
fn test_parse_every_minutes() {
    let now = now();
    let next = next("@every 5m", now).unwrap();
    assert!(next - now == 300);
}

#[test]
fn test_parse_every_hours() {
    let now = now();
    let next = next("@every 2h", now).unwrap();
    assert!(next - now == 7200);
}

#[test]
fn test_parse_hourly() {
    let now = now();
    let next = next("@hourly", now).unwrap();
    assert!(next - now == 3600);
}

#[test]
fn test_parse_daily() {
    let now = now();
    let next = next("@daily", now).unwrap();
    assert!(next - now == 86400);
}

#[test]
fn schedule_weekly_bare_seconds_and_invalid() {
    assert_eq!(next("@weekly", 0), Some(604800));
    assert_eq!(next("@every 45", 10), Some(55));
    assert_eq!(next("@every x", 10), None);
    assert_eq!(next("garbage", 10), None);
    assert_eq!(next("61 1 * * *", 10), None);
    assert_eq!(next("30 24 * * *", 10), None);
}

#[test]
fn schedule_minute_hour_today_or_tomorrow() {
    // 2024-01-01T00:00:00Z = 1704067200
    let day = 1704067200;
    assert_eq!(next("30 9 * * *", day), Some(day + 9 * 3600 + 30 * 60));
    assert_eq!(next("30 9 * * *", day + 10 * 3600), Some(day + 86400 + 9 * 3600 + 30 * 60));
    assert_eq!(next("0 0 * * *", day), Some(day + 86400));
    // before the epoch, days still start at midnight UTC
    assert_eq!(next("0 1 * * *", -86400 + 7200), Some(3600));
}

#[test]
fn schedule_out_of_range_is_reported() {
    assert!(!next_run_in_range("@every 9223372036854775807s", 0));
    assert!(!next_run_in_range("@hourly", i64::MAX));
    assert!(next_run_in_range("nonsense", 0));
}

#[test]
fn dotenv_lone_quote_value_is_kept() {
    let vars = parse_dotenv("K=\"");
    assert_eq!(vars, vec![("K".to_string(), "\"".to_string())]);
    let vars = parse_dotenv("export B= ' \nC=''");
    assert_eq!(vars, vec![("B".to_string(), "'".to_string()), ("C".to_string(), String::new())]);
}

#[test]
fn signatures_are_sixty_four_lower_hex_digits() {
    let sig = sign_command(b"payload", "nonce", 1700000000, b"secret");
    assert_eq!(sig.len(), 64);
    assert!(sig.chars().all(|c| c.is_ascii_digit() || ('a'..='f').contains(&c)));
}

#[test]
fn timestamps_before_the_epoch_window_are_stale() {
    assert!(current_timestamp() >= 0);
    assert!(!is_timestamp_valid(-1000));
}

#[test]
fn pairing_code_takes_the_drawn_characters() {
    let code = berth::nats_relay::pairing_code_from_indices(&vec![0, 1, 8, 31, 24, 7, 30, 23]);
    assert_eq!(code, "ABJ92H8Z");
}
