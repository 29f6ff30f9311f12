//! Start-up decisions of the agent: its identity, the address it listens
//! on, the NATS settings written to `agent.env`, and the probation of a
//! freshly upgraded binary.

use vstd::prelude::*;
use crate::text::{
    contains, starts_with, lines, join, strings, decimal, trim, str_chars, contains_chars,
    starts_with_chars, lines_chars, string_from_chars, join_strings, u64_to_decimal, trim_chars,
    slice_chars,
};

verus! {

/// The exit code that tells systemd the agent upgraded or rolled back and
/// only needs a restart.
pub const EXIT_CODE_UPGRADE: i32 = 42;

/// `{hostname}-{first 8 characters of the identifier}`.
pub open spec fn agent_id_from(hostname: Seq<char>, uuid: Seq<char>) -> Seq<char> {
    hostname + "-"@ + uuid.take(8)
}

/// A new agent id from the host name and a random identifier.
pub fn generated_agent_id(hostname: &str, uuid: &str) -> (s: String)
    requires
        crate::ids::hyphenated_uuid(uuid@),
    ensures
        s@ == agent_id_from(hostname@, uuid@),
{
    let u = str_chars(uuid);
    let prefix = slice_chars(&u, 0, 8);
    let mut s = hostname.to_owned();
    s.append("-");
    s.append(string_from_chars(&prefix).as_str());
    s
}

/// The agent id: the configured one, else the stored one, else a new one
/// from the host name (`agent` when unknown), which is then to be stored.
pub fn resolve_agent_id(configured: Option<String>, stored: Option<String>, hostname: Option<String>) -> (r: (String, bool))
    ensures
        configured matches Some(c) ==> r.0 == c && !r.1,
        configured is None ==> (stored matches Some(s) ==> r.0 == s && !r.1),
        configured is None && stored is None ==> r.1 && exists|u: Seq<char>| crate::ids::hyphenated_uuid(u)
            && r.0@ == agent_id_from(match hostname { Some(h) => h@, None => "agent"@ }, u),
{
    match configured {
        Some(c) => (c, false),
        None => match stored {
            Some(s) => (s, false),
            None => {
                let h = match hostname {
                    Some(h) => h,
                    None => "agent".to_owned(),
                };
                let u = crate::ids::new_uuid_string();
                (generated_agent_id(h.as_str(), u.as_str()), true)
            },
        },
    }
}

/// The error when listening on all interfaces is asked for without TLS.
pub open spec fn bind_without_tls_error() -> Seq<char> {
    "Cannot bind to 0.0.0.0 without TLS. Run `berth-agent init-tls` to generate certificates, then set BERTH_TLS_CERT, BERTH_TLS_KEY, and BERTH_TLS_CA."@
}

/// The address the gRPC server binds: localhost when NATS relays remote
/// access; all interfaces when asked for and TLS is configured (refused
/// without TLS); localhost otherwise.
pub fn bind_address(has_nats: bool, listen_all: bool, has_tls: bool, port: u16) -> (r: Result<String, String>)
    ensures
        r is Err <==> (!has_nats && listen_all && !has_tls),
        r matches Ok(a) ==> a@ == (if !has_nats && listen_all { "0.0.0.0:"@ } else { "127.0.0.1:"@ }) + decimal(port as nat),
        r matches Err(e) ==> e@ == bind_without_tls_error(),
{
    let host = if has_nats {
        "127.0.0.1:"
    } else if listen_all {
        if !has_tls {
            return Err("Cannot bind to 0.0.0.0 without TLS. Run `berth-agent init-tls` to generate certificates, then set BERTH_TLS_CERT, BERTH_TLS_KEY, and BERTH_TLS_CA.".to_owned());
        }
        "0.0.0.0:"
    } else {
        "127.0.0.1:"
    };
    let mut a = host.to_owned();
    a.append(u64_to_decimal(port as u64).as_str());
    Ok(a)
}

/// The agent is on probation after an upgrade while both the probation
/// marker and the backup binary exist.
pub fn in_probation(probation_marker: bool, backup_exists: bool) -> (b: bool)
    ensures
        b == (probation_marker && backup_exists),
{
    probation_marker && backup_exists
}

/// Successful checks needed to pass probation.
pub const PROBATION_REQUIRED: u32 = 3;

/// Checks made at most before probation fails.
pub const PROBATION_MAX_CHECKS: u32 = 6;

/// What a probation check concluded.
#[derive(PartialEq, Eq, Structural, Clone, Copy, Debug)]
pub enum ProbationStep {
    Passed,
    Continue,
    Failed,
}

/// The number of `true` among `outcomes`.
pub open spec fn successes(outcomes: Seq<bool>) -> nat
    decreases outcomes.len(),
{
    if outcomes.len() == 0 {
        0
    } else {
        successes(outcomes.drop_last()) + if outcomes.last() { 1nat } else { 0nat }
    }
}

/// The health checks of a binary on probation.
pub struct Probation {
    successes: u32,
    checks: u32,
}

impl Probation {
    pub closed spec fn passed_checks(&self) -> nat {
        self.successes as nat
    }

    pub closed spec fn done_checks(&self) -> nat {
        self.checks as nat
    }

    pub fn new() -> (p: Self)
        ensures
            p.passed_checks() == 0,
            p.done_checks() == 0,
    {
        Probation { successes: 0, checks: 0 }
    }

    /// Records the result of one connection check: probation passes at the
    /// third success and fails when six checks gave fewer.
    pub fn on_check(&mut self, ok: bool) -> (step: ProbationStep)
        requires
            old(self).done_checks() < PROBATION_MAX_CHECKS,
            old(self).passed_checks() < PROBATION_REQUIRED,
            old(self).passed_checks() <= old(self).done_checks(),
        ensures
            final(self).done_checks() == old(self).done_checks() + 1,
            final(self).passed_checks() == old(self).passed_checks() + if ok { 1nat } else { 0nat },
            final(self).passed_checks() <= final(self).done_checks(),
            step == (if final(self).passed_checks() >= PROBATION_REQUIRED {
                ProbationStep::Passed
            } else if final(self).done_checks() >= PROBATION_MAX_CHECKS {
                ProbationStep::Failed
            } else {
                ProbationStep::Continue
            }),
    {
        self.checks = self.checks + 1;
        if ok {
            self.successes = self.successes + 1;
        }
        if self.successes >= PROBATION_REQUIRED {
            ProbationStep::Passed
        } else if self.checks >= PROBATION_MAX_CHECKS {
            ProbationStep::Failed
        } else {
            ProbationStep::Continue
        }
    }
}

/// The result of probation over a run of checks, stepping until it ends.
pub open spec fn probation_outcome(outcomes: Seq<bool>) -> ProbationStep
    decreases outcomes.len(),
{
    if outcomes.len() == 0 {
        ProbationStep::Continue
    } else {
        let prev = probation_outcome(outcomes.drop_last());
        if prev != ProbationStep::Continue {
            prev
        } else if successes(outcomes) >= PROBATION_REQUIRED {
            ProbationStep::Passed
        } else if outcomes.len() >= PROBATION_MAX_CHECKS {
            ProbationStep::Failed
        } else {
            ProbationStep::Continue
        }
    }
}

proof fn lemma_successes_monotone(outcomes: Seq<bool>, k: int)
    requires
        0 <= k <= outcomes.len(),
    ensures
        successes(outcomes.take(k)) <= successes(outcomes),
        successes(outcomes) <= successes(outcomes.take(k)) + (outcomes.len() - k),
    decreases outcomes.len() - k,
{
    if k < outcomes.len() {
        lemma_successes_monotone(outcomes, k + 1);
        assert(outcomes.take(k + 1).drop_last() == outcomes.take(k));
    } else {
        assert(outcomes.take(k) == outcomes);
    }
}

proof fn lemma_probation_continue(outcomes: Seq<bool>)
    requires
        probation_outcome(outcomes) == ProbationStep::Continue,
    ensures
        successes(outcomes) < PROBATION_REQUIRED,
        outcomes.len() < PROBATION_MAX_CHECKS || outcomes.len() == 0,
    decreases outcomes.len(),
{
    if outcomes.len() > 0 {
        lemma_probation_continue(outcomes.drop_last());
    }
}

/// Over six checks, probation passes exactly when at least three of them
/// succeed.
pub proof fn probation_passes_iff_three_of_six(outcomes: Seq<bool>)
    requires
        outcomes.len() == PROBATION_MAX_CHECKS,
    ensures
        (probation_outcome(outcomes) == ProbationStep::Passed) <==> successes(outcomes) >= PROBATION_REQUIRED,
    decreases outcomes.len(),
{
    lemma_probation_passes(outcomes);
}

proof fn lemma_probation_passes(outcomes: Seq<bool>)
    requires
        outcomes.len() <= PROBATION_MAX_CHECKS,
    ensures
        (probation_outcome(outcomes) == ProbationStep::Passed) <==> successes(outcomes) >= PROBATION_REQUIRED,
        outcomes.len() == PROBATION_MAX_CHECKS ==> probation_outcome(outcomes) != ProbationStep::Continue,
    decreases outcomes.len(),
{
    if outcomes.len() > 0 {
        let t = outcomes.drop_last();
        lemma_probation_passes(t);
        if probation_outcome(t) == ProbationStep::Passed {
            assert(successes(outcomes) >= successes(t));
        } else if probation_outcome(t) == ProbationStep::Failed {
            lemma_probation_failed_len(t);
        }
    }
}

proof fn lemma_probation_failed_len(outcomes: Seq<bool>)
    requires
        probation_outcome(outcomes) == ProbationStep::Failed,
    ensures
        outcomes.len() >= PROBATION_MAX_CHECKS,
    decreases outcomes.len(),
{
    if outcomes.len() > 0 {
        let t = outcomes.drop_last();
        if probation_outcome(t) == ProbationStep::Failed {
            lemma_probation_failed_len(t);
        }
    }
}

/// The NATS credentials block must hold both a user JWT and a user NKEY
/// seed.
pub open spec fn creds_valid(input: Seq<char>) -> bool {
    contains(trim(input), "BEGIN NATS USER JWT"@) && contains(trim(input), "BEGIN USER NKEY SEED"@)
}

/// Checks pasted NATS credentials; the trimmed text is what gets saved.
pub fn validate_nats_creds(input: &str) -> (r: Result<String, String>)
    ensures
        r is Ok <==> creds_valid(input@),
        r matches Ok(t) ==> t@ == trim(input@),
        r matches Err(e) ==> e@ == "Invalid credentials format. Expected a block containing both '-----BEGIN NATS USER JWT-----' and '-----BEGIN USER NKEY SEED-----'."@,
{
    let t = trim_chars(&str_chars(input));
    if contains_chars(&t, &str_chars("BEGIN NATS USER JWT")) && contains_chars(&t, &str_chars("BEGIN USER NKEY SEED")) {
        Ok(string_from_chars(&t))
    } else {
        Err("Invalid credentials format. Expected a block containing both '-----BEGIN NATS USER JWT-----' and '-----BEGIN USER NKEY SEED-----'.".to_owned())
    }
}

/// The lines with the first one starting with `prefix` replaced by `line`,
/// or `line` appended when there is none.
pub open spec fn upsert_line(ls: Seq<Seq<char>>, prefix: Seq<char>, line: Seq<char>) -> Seq<Seq<char>>
    decreases ls.len(),
{
    if ls.len() == 0 {
        seq![line]
    } else if starts_with(ls[0], prefix) {
        seq![line] + ls.drop_first()
    } else {
        seq![ls[0]] + upsert_line(ls.drop_first(), prefix, line)
    }
}

proof fn lemma_upsert_at(ls: Seq<Seq<char>>, prefix: Seq<char>, line: Seq<char>, i: int)
    requires
        0 <= i <= ls.len(),
        forall|j: int| 0 <= j < i ==> !starts_with(#[trigger] ls[j], prefix),
        i < ls.len() ==> starts_with(ls[i], prefix),
    ensures
        upsert_line(ls, prefix, line) == (if i < ls.len() { ls.update(i, line) } else { ls.push(line) }),
    decreases i,
{
    if i > 0 {
        let t = ls.drop_first();
        assert forall|j: int| 0 <= j < i - 1 implies !starts_with(#[trigger] t[j], prefix) by {
            assert(t[j] == ls[j + 1]);
        }
        lemma_upsert_at(t, prefix, line, i - 1);
        if i < ls.len() {
            assert(seq![ls[0]] + t.update(i - 1, line) =~= ls.update(i, line));
        } else {
            assert(seq![ls[0]] + t.push(line) =~= ls.push(line));
        }
    } else if ls.len() > 0 {
        assert(seq![line] + ls.drop_first() =~= ls.update(0, line));
    } else {
        assert(seq![line] =~= ls.push(line));
    }
}

fn upsert_line_exec(ls: &mut Vec<String>, prefix: &str, line: String)
    ensures
        strings(final(ls)@) == upsert_line(strings(old(ls)@), prefix@, line@),
{
    let p = str_chars(prefix);
    let ghost s0 = strings(ls@);
    let mut i: usize = 0;
    while i < ls.len() && !starts_with_chars(&str_chars(ls[i].as_str()), &p)
        invariant
            i <= ls.len(),
            p@ == prefix@,
            s0 == strings(ls@),
            forall|j: int| 0 <= j < i ==> !starts_with(#[trigger] s0[j], prefix@),
        decreases ls.len() - i,
    {
        i = i + 1;
    }
    proof {
        lemma_upsert_at(s0, prefix@, line@, i as int);
    }
    let ghost lv = line@;
    if i < ls.len() {
        ls.set(i, line);
        assert(strings(ls@) =~= s0.update(i as int, lv));
    } else {
        ls.push(line);
        assert(strings(ls@) =~= s0.push(lv));
    }
}

/// `agent.env` after `setup-nats`: the `BERTH_NATS_CREDS` and
/// `BERTH_NATS_URL` lines set (replaced or appended), joined by `\n`.
pub open spec fn nats_env_content(content: Seq<char>, creds_path: Seq<char>, url: Seq<char>) -> Seq<char> {
    let ls = upsert_line(lines(content), "BERTH_NATS_CREDS="@, "BERTH_NATS_CREDS="@ + creds_path);
    join(upsert_line(ls, "BERTH_NATS_URL="@, "BERTH_NATS_URL="@ + url), "\n"@)
}

/// The new content of `agent.env` pointing the agent at its NATS
/// credentials and server.
pub fn nats_env_update(content: &str, creds_path: &str, url: &str) -> (s: String)
    ensures
        s@ == nats_env_content(content@, creds_path@, url@),
{
    let ls = lines_chars(&str_chars(content));
    let ghost lv = crate::text::views(ls@);
    let mut out: Vec<String> = Vec::new();
    let mut i: usize = 0;
    while i < ls.len()
        invariant
            i <= ls.len(),
            lv == crate::text::views(ls@),
            strings(out@) == lv.take(i as int),
        decreases ls.len() - i,
    {
        let l = string_from_chars(&ls[i]);
        let ghost before = out@;
        let ghost lw = l@;
        assert(lw == lv[i as int]);
        out.push(l);
        assert(strings(out@) =~= strings(before).push(lw));
        assert(lv.take(i + 1) =~= lv.take(i as int).push(lw));
        i = i + 1;
    }
    assert(lv.take(ls.len() as int) == lv);
    let mut creds_line = "BERTH_NATS_CREDS=".to_owned();
    creds_line.append(creds_path);
    upsert_line_exec(&mut out, "BERTH_NATS_CREDS=", creds_line);
    let mut url_line = "BERTH_NATS_URL=".to_owned();
    url_line.append(url);
    upsert_line_exec(&mut out, "BERTH_NATS_URL=", url_line);
    join_strings(&out, "\n")
}

/// Automatic rollbacks allowed in a row before the agent stops rolling back.
pub const MAX_SELF_ROLLBACKS: u32 = 2;

/// What a failed probation does.
#[derive(PartialEq, Eq, Structural, Clone, Copy, Debug)]
pub enum SelfRollback {
    /// Too many rollbacks in a row: clear the markers and stay.
    Abandon,
    /// There is no backup binary: clear the probation marker.
    NoBackup,
    /// Restore the backup and record this rollback as the given count.
    Restore { new_count: u32 },
}

/// The rollback count the `.rollback-count` file records: its trimmed text
/// as a number, zero when missing or unreadable.
pub open spec fn rollback_count_of(text: Option<Seq<char>>) -> int {
    match text {
        Some(t) => match crate::schedule::parse_u32(trim(t)) {
            Some(n) => n,
            None => 0,
        },
        None => 0,
    }
}

/// Decides on rolling back after a failed probation.
pub fn self_rollback(count_text: Option<&str>, backup_exists: bool) -> (r: SelfRollback)
    ensures
        r == (if rollback_count_of(match count_text { Some(t) => Some(t@), None => None }) >= MAX_SELF_ROLLBACKS {
            SelfRollback::Abandon
        } else if !backup_exists {
            SelfRollback::NoBackup
        } else {
            SelfRollback::Restore {
                new_count: (rollback_count_of(match count_text { Some(t) => Some(t@), None => None }) + 1) as u32,
            }
        }),
{
    let count: u32 = match count_text {
        Some(t) => match crate::schedule::parse_u32_chars(&trim_chars(&str_chars(t))) {
            Some(n) => n,
            None => 0,
        },
        None => 0,
    };
    if count >= MAX_SELF_ROLLBACKS {
        SelfRollback::Abandon
    } else if !backup_exists {
        SelfRollback::NoBackup
    } else {
        SelfRollback::Restore { new_count: count + 1 }
    }
}

} // verus!
