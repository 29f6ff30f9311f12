//! NATS subjects, command and pairing types of the agent relay protocol.

use vstd::prelude::*;
use rand::Rng;
use crate::text::{starts_with, str_chars, starts_with_chars};
use crate::message_auth::constant_time_eq_public;
use crate::crypto::{hex_encode, hex_lower, hmac_sha256, hmac_sha256_spec, is_lower_hex_char, lemma_hex_lower_shape};

verus! {

/// Connection settings of an agent's NATS link.
pub struct NatsConfig {
    pub url: String,
    pub creds_path: Option<String>,
    pub agent_id: String,
    pub owner_id: String,
}

/// The category an event type is published under.
pub open spec fn event_category(event_type: Seq<char>) -> Seq<char> {
    if starts_with(event_type, "deploy"@) {
        "deploy"@
    } else if starts_with(event_type, "execution"@) {
        "execution"@
    } else if starts_with(event_type, "schedule"@) {
        "schedule"@
    } else {
        "agent"@
    }
}

/// The category an event type is published under: `deploy`, `execution`,
/// `schedule` by prefix, `agent` otherwise.
pub fn event_category_of(event_type: &str) -> (c: &'static str)
    ensures
        c@ == event_category(event_type@),
{
    let et = str_chars(event_type);
    if starts_with_chars(&et, &str_chars("deploy")) {
        "deploy"
    } else if starts_with_chars(&et, &str_chars("execution")) {
        "execution"
    } else if starts_with_chars(&et, &str_chars("schedule")) {
        "schedule"
    } else {
        "agent"
    }
}

/// `berth.{owner_id}.{agent_id}.event.{category}`.
pub fn event_subject(owner_id: &str, agent_id: &str, event_type: &str) -> (s: String)
    ensures
        s@ == "berth."@ + owner_id@ + "."@ + agent_id@ + ".event."@ + event_category(event_type@),
{
    let category = event_category_of(event_type);
    let mut s = "berth.".to_owned();
    s.append(owner_id);
    s.append(".");
    s.append(agent_id);
    s.append(".event.");
    s.append(category);
    s
}

/// `berth.{owner_id}.{agent_id}.log.{project_id}`.
pub fn log_subject(owner_id: &str, agent_id: &str, project_id: &str) -> (s: String)
    ensures
        s@ == "berth."@ + owner_id@ + "."@ + agent_id@ + ".log."@ + project_id@,
{
    let mut s = "berth.".to_owned();
    s.append(owner_id);
    s.append(".");
    s.append(agent_id);
    s.append(".log.");
    s.append(project_id);
    s
}

/// `berth.{owner_id}.{agent_id}.heartbeat`.
pub fn heartbeat_subject(owner_id: &str, agent_id: &str) -> (s: String)
    ensures
        s@ == "berth."@ + owner_id@ + "."@ + agent_id@ + ".heartbeat"@,
{
    let mut s = "berth.".to_owned();
    s.append(owner_id);
    s.append(".");
    s.append(agent_id);
    s.append(".heartbeat");
    s
}

/// `berth.{owner_id}.{agent_id}.cmd.{cmd_type}`.
pub fn cmd_subject(owner_id: &str, agent_id: &str, cmd_type: &str) -> (s: String)
    ensures
        s@ == "berth."@ + owner_id@ + "."@ + agent_id@ + ".cmd."@ + cmd_type@,
{
    let mut s = "berth.".to_owned();
    s.append(owner_id);
    s.append(".");
    s.append(agent_id);
    s.append(".cmd.");
    s.append(cmd_type);
    s
}

/// `berth.{owner_id}.{agent_id}.resp.{request_id}`.
pub fn resp_subject(owner_id: &str, agent_id: &str, request_id: &str) -> (s: String)
    ensures
        s@ == "berth."@ + owner_id@ + "."@ + agent_id@ + ".resp."@ + request_id@,
{
    let mut s = "berth.".to_owned();
    s.append(owner_id);
    s.append(".");
    s.append(agent_id);
    s.append(".resp.");
    s.append(request_id);
    s
}

/// `berth.{owner_id}.{agent_id}.upload.{request_id}`.
pub fn upload_subject(owner_id: &str, agent_id: &str, request_id: &str) -> (s: String)
    ensures
        s@ == "berth."@ + owner_id@ + "."@ + agent_id@ + ".upload."@ + request_id@,
{
    let mut s = "berth.".to_owned();
    s.append(owner_id);
    s.append(".");
    s.append(agent_id);
    s.append(".upload.");
    s.append(request_id);
    s
}

/// A command sent to an agent over NATS.
pub struct NatsCommand {
    pub request_id: String,
    pub reply_to: String,
    pub cmd: NatsCommandKind,
    /// HMAC-SHA256 signature over the serialized `cmd` field.
    pub signature: String,
    /// Unique nonce to prevent replay attacks.
    pub nonce: String,
    /// Unix timestamp (seconds); commands older than 60s are rejected.
    pub timestamp: i64,
}

/// The commands an agent accepts.
#[allow(inconsistent_fields)]
pub enum NatsCommandKind {
    Health,
    Status,
    Stop { project_id: String },
    Execute {
        project_id: String,
        runtime: String,
        entrypoint: String,
        working_dir: String,
        code: Option<String>,
        image_tag: Option<String>,
        env_vars: Vec<(String, String)>,
        container_name: Option<String>,
        run_mode: String,
        service_port: u16,
    },
    Deploy {
        project_id: String,
        runtime: String,
        entrypoint: String,
        containerfile: String,
        version: u32,
        setup_commands: Vec<String>,
        archive_base64: String,
    },
    GetExecutions { project_id: String, limit: u32 },
    GetExecutionLogs { execution_id: String, since_seq: i64 },
    AddSchedule { project_id: String, cron_expr: String },
    RemoveSchedule { schedule_id: String },
    ListSchedules { project_id: String },
    UpgradeDownload {
        version: String,
        download_url: String,
        github_token: Option<String>,
        checksum_sha256: String,
    },
    DeployChunked {
        project_id: String,
        runtime: String,
        entrypoint: String,
        containerfile: String,
        version: u32,
        setup_commands: Vec<String>,
        total_size: u64,
        chunk_count: u32,
        checksum_sha256: String,
    },
    Rollback,
    Publish { project_id: String, port: u32, provider: String, provider_config: String },
    Unpublish { project_id: String },
}

/// Whether a command succeeded.
pub enum NatsResponseStatus {
    /// Written `Ok` on the wire.
    Success,
    Error(String),
}

/// A running project in a status reply.
pub struct NatsProjectStatus {
    pub project_id: String,
    pub status: String,
    pub started_at: String,
}

/// An execution in an executions reply.
pub struct NatsExecutionInfo {
    pub id: String,
    pub project_id: String,
    pub deployment_id: String,
    pub started_at: String,
    pub finished_at: String,
    pub exit_code: i32,
    pub trigger: String,
    pub status: String,
}

/// A schedule in a schedules reply.
pub struct NatsScheduleInfo {
    pub id: String,
    pub project_id: String,
    pub cron_expr: String,
    pub enabled: bool,
    pub created_at: String,
    pub last_triggered_at: String,
    pub next_run_at: String,
}

// --- Pairing protocol ---

/// The alphabet of pairing codes: upper-case letters and digits without the
/// easily confused `I`, `O`, `0` and `1`.
pub const PAIRING_CODE_CHARSET: &'static str = "ABCDEFGHJKLMNPQRSTUVWXYZ23456789";

pub const PAIRING_CODE_LENGTH: usize = 8;

/// Seconds a pairing code stays valid.
pub const PAIRING_EXPIRY_SECS: u64 = 300;

/// A uniformly random index below `n`.
///
/// Calls `Rng::gen_range` on `rand::thread_rng()`; the contract claims only
/// the range, which `gen_range` guarantees for a non-empty range.
#[verifier::external_body]
fn random_index(n: usize) -> (i: usize)
    requires
        n > 0,
    ensures
        i < n,
{
    rand::thread_rng().gen_range(0..n)
}

/// The pairing code whose characters are `PAIRING_CODE_CHARSET` at the
/// given indices, in order.
pub fn pairing_code_from_indices(idx: &Vec<usize>) -> (code: String)
    requires
        forall|i: int| 0 <= i < idx@.len() ==> idx@[i] < PAIRING_CODE_CHARSET@.len(),
    ensures
        code@ == Seq::new(idx@.len(), |i: int| PAIRING_CODE_CHARSET@[idx@[i] as int]),
{
    proof {
        reveal_strlit("ABCDEFGHJKLMNPQRSTUVWXYZ23456789");
    }
    let mut chars: Vec<char> = Vec::new();
    let mut k: usize = 0;
    while k < idx.len()
        invariant
            k <= idx@.len(),
            PAIRING_CODE_CHARSET@.len() == 32,
            forall|i: int| 0 <= i < idx@.len() ==> idx@[i] < PAIRING_CODE_CHARSET@.len(),
            chars@ == Seq::new(k as nat, |i: int| PAIRING_CODE_CHARSET@[idx@[i] as int]),
        decreases idx@.len() - k,
    {
        let c = PAIRING_CODE_CHARSET.get_char(idx[k]);
        chars.push(c);
        k = k + 1;
        assert(chars@ =~= Seq::new(k as nat, |i: int| PAIRING_CODE_CHARSET@[idx@[i] as int]));
    }
    crate::text::string_from_chars(&chars)
}

/// A fresh random pairing code: `PAIRING_CODE_LENGTH` characters of
/// `PAIRING_CODE_CHARSET`, each drawn uniformly.
pub fn generate_pairing_code() -> (code: String)
    ensures
        code@.len() == PAIRING_CODE_LENGTH,
        forall|i: int| 0 <= i < code@.len() ==> PAIRING_CODE_CHARSET@.contains(#[trigger] code@[i]),
{
    proof {
        reveal_strlit("ABCDEFGHJKLMNPQRSTUVWXYZ23456789");
    }
    let mut idx: Vec<usize> = Vec::new();
    let mut k: usize = 0;
    while k < PAIRING_CODE_LENGTH
        invariant
            k <= PAIRING_CODE_LENGTH,
            idx@.len() == k,
            PAIRING_CODE_CHARSET@.len() == 32,
            forall|i: int| 0 <= i < idx@.len() ==> idx@[i] < PAIRING_CODE_CHARSET@.len(),
        decreases PAIRING_CODE_LENGTH - k,
    {
        idx.push(random_index(32));
        k = k + 1;
    }
    let code = pairing_code_from_indices(&idx);
    assert forall|i: int| 0 <= i < code@.len() implies PAIRING_CODE_CHARSET@.contains(#[trigger] code@[i]) by {
        assert(code@[i] == PAIRING_CODE_CHARSET@[idx@[i] as int]);
    }
    code
}

/// `berth.pairing.advertise.{code}`.
pub fn pairing_advertise_subject(code: &str) -> (s: String)
    ensures
        s@ == "berth.pairing.advertise."@ + code@,
{
    let mut s = "berth.pairing.advertise.".to_owned();
    s.append(code);
    s
}

/// `berth.pairing.claim.{code}`.
pub fn pairing_claim_subject(code: &str) -> (s: String)
    ensures
        s@ == "berth.pairing.claim."@ + code@,
{
    let mut s = "berth.pairing.claim.".to_owned();
    s.append(code);
    s
}

/// `berth.pairing.ack.{code}`.
pub fn pairing_ack_subject(code: &str) -> (s: String)
    ensures
        s@ == "berth.pairing.ack."@ + code@,
{
    let mut s = "berth.pairing.ack.".to_owned();
    s.append(code);
    s
}

/// An owner's claim of an advertised agent.
pub struct PairingClaim {
    pub owner_id: String,
    /// HMAC-SHA256(challenge, code): proves the claimer knows the code.
    pub challenge_response: String,
}

/// The agent's answer to a claim.
pub struct PairingAck {
    pub success: bool,
    pub agent_id: String,
    pub owner_id: String,
    pub message: String,
    /// Hex-encoded 256-bit shared secret for HMAC command signing.
    pub shared_secret: String,
}

/// The expected challenge response: HMAC-SHA256 of the challenge keyed by
/// the code, in lower-case hex.
pub open spec fn challenge_response_of(challenge: Seq<char>, code: Seq<char>) -> Seq<char> {
    hex_lower(hmac_sha256_spec(vstd::utf8::encode_utf8(code), vstd::utf8::encode_utf8(challenge)))
}

/// Whether `response` answers `challenge` for `code`.
pub open spec fn challenge_response_matches(challenge: Seq<char>, response: Seq<char>, code: Seq<char>) -> bool {
    response == challenge_response_of(challenge, code)
}

/// A response computed by `compute_challenge_response` passes
/// `verify_challenge_response` for the same challenge and code.
pub proof fn computed_response_verifies(challenge: Seq<char>, code: Seq<char>)
    ensures
        challenge_response_matches(challenge, challenge_response_of(challenge, code), code),
{
}

/// Computes the challenge response: HMAC-SHA256 of the challenge keyed by
/// the code, as 64 lower-case hex digits.
pub fn compute_challenge_response(challenge: &str, code: &str) -> (r: String)
    ensures
        r@ == challenge_response_of(challenge@, code@),
        r@.len() == 64,
        forall|i: int| 0 <= i < r@.len() ==> is_lower_hex_char(#[trigger] r@[i]),
{
    let tag = hmac_sha256(code.as_bytes(), challenge.as_bytes());
    proof {
        lemma_hex_lower_shape(tag@);
    }
    hex_encode(tag.as_slice())
}

/// Verifies a challenge response.
pub fn verify_challenge_response(challenge: &str, response: &str, code: &str) -> (ok: bool)
    ensures
        ok == challenge_response_matches(challenge@, response@, code@),
{
    let expected = compute_challenge_response(challenge, code);
    proof {
        vstd::utf8::encode_utf8_decode_utf8(expected@);
        vstd::utf8::encode_utf8_decode_utf8(response@);
    }
    constant_time_eq_public(expected.as_str().as_bytes(), response.as_bytes())
}

} // verus!
