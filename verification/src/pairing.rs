//! The agent's side of pairing with an owner: the session that advertises a
//! code and judges claims, its limits on failures and expired codes, the
//! shared secret it hands out, and the owner line of `agent.env`.

use vstd::prelude::*;
use rand::Rng;
use crate::nats_relay::{
    PairingClaim, PairingAck, challenge_response_of, verify_challenge_response,
    generate_pairing_code, PAIRING_CODE_LENGTH, PAIRING_CODE_CHARSET,
};
use crate::crypto::{hex_lower, hex_encode};
use crate::text::{
    contains, starts_with, lines, join, strings, str_chars, contains_chars, starts_with_chars,
    lines_chars, string_from_chars, join_strings,
};

verus! {

/// Failed claims after which pairing pauses.
pub const MAX_FAILED_CLAIMS: u32 = 5;

/// The pause after too many failed claims, in seconds.
pub const RATE_LIMIT_COOLDOWN_SECS: u64 = 300;

/// Consecutive codes that may expire before pairing gives up.
pub const MAX_EXPIRED_CODES: u32 = 3;

/// The owner an agent paired with, and the secret they share.
pub struct PairingResult {
    pub owner_id: String,
    pub shared_secret: String,
}

/// What happened while a code was advertised.
pub enum PairingEvent {
    /// The code's validity ran out.
    CodeExpired,
    /// A claim arrived on the code's subject.
    Claim(PairingClaim),
    /// Time to publish the advertisement again.
    AdvertiseTick,
}

/// What the agent does next.
pub enum PairingAction {
    /// Start over with a new code, keeping the failure count.
    NewCode,
    /// Too many codes expired: stop pairing.
    GiveUp,
    /// Pair with the owner of this claim.
    Accept(PairingClaim),
    /// The claim's challenge response is wrong: ignore it.
    Reject,
    /// Publish the advertisement again.
    Readvertise,
}

/// One advertised pairing code and the counters carried across codes.
pub struct PairingSession {
    code: String,
    challenge: String,
    expired_count: u32,
    failed_claims: u32,
}

impl PairingSession {
    pub closed spec fn code_of(&self) -> Seq<char> {
        self.code@
    }

    pub closed spec fn challenge_of(&self) -> Seq<char> {
        self.challenge@
    }

    pub closed spec fn expired(&self) -> nat {
        self.expired_count as nat
    }

    pub closed spec fn failed(&self) -> nat {
        self.failed_claims as nat
    }

    /// A session advertising `code` with challenge `challenge`.
    pub fn new(code: String, challenge: String, expired_count: u32, failed_claims: u32) -> (s: Self)
        ensures
            s.code_of() == code@,
            s.challenge_of() == challenge@,
            s.expired() == expired_count,
            s.failed() == failed_claims,
    {
        PairingSession { code, challenge, expired_count, failed_claims }
    }

    /// A session with a fresh random code and challenge.
    pub fn start(expired_count: u32, failed_claims: u32) -> (s: Self)
        ensures
            s.code_of().len() == PAIRING_CODE_LENGTH,
            forall|i: int| 0 <= i < s.code_of().len() ==> PAIRING_CODE_CHARSET@.contains(#[trigger] s.code_of()[i]),
            crate::ids::hyphenated_uuid(s.challenge_of()),
            s.expired() == expired_count,
            s.failed() == failed_claims,
    {
        let code = generate_pairing_code();
        let challenge = crate::ids::new_uuid_string();
        PairingSession::new(code, challenge, expired_count, failed_claims)
    }

    pub fn code(&self) -> (s: &str)
        ensures
            s@ == self.code_of(),
    {
        self.code.as_str()
    }

    pub fn challenge(&self) -> (s: &str)
        ensures
            s@ == self.challenge_of(),
    {
        self.challenge.as_str()
    }

    pub fn expired_count(&self) -> (n: u32)
        ensures
            n == self.expired(),
    {
        self.expired_count
    }

    pub fn failed_claims(&self) -> (n: u32)
        ensures
            n == self.failed(),
    {
        self.failed_claims
    }

    /// Pairing pauses once `MAX_FAILED_CLAIMS` claims have failed; after
    /// the cooldown a new code starts with the failures forgotten.
    pub fn rate_limited(&self) -> (b: bool)
        ensures
            b == (self.failed() >= MAX_FAILED_CLAIMS),
    {
        self.failed_claims >= MAX_FAILED_CLAIMS
    }

    /// Handles one event of a session that is not rate limited.
    pub fn on_event(&mut self, event: PairingEvent) -> (a: PairingAction)
        requires
            old(self).failed() < MAX_FAILED_CLAIMS,
            old(self).expired() < MAX_EXPIRED_CODES,
        ensures
            final(self).code_of() == old(self).code_of(),
            final(self).challenge_of() == old(self).challenge_of(),
            match event {
                PairingEvent::CodeExpired => {
                    &&& final(self).expired() == old(self).expired() + 1
                    &&& final(self).failed() == old(self).failed()
                    &&& (if final(self).expired() >= MAX_EXPIRED_CODES { a is GiveUp } else { a is NewCode })
                },
                PairingEvent::Claim(c) => {
                    &&& final(self).expired() == old(self).expired()
                    &&& if c.challenge_response@.len() == 0
                        || c.challenge_response@ == challenge_response_of(old(self).challenge_of(), old(self).code_of()) {
                        a == PairingAction::Accept(c) && final(self).failed() == old(self).failed()
                    } else {
                        a is Reject && final(self).failed() == old(self).failed() + 1
                    }
                },
                PairingEvent::AdvertiseTick => {
                    &&& a is Readvertise
                    &&& final(self).expired() == old(self).expired()
                    &&& final(self).failed() == old(self).failed()
                },
            },
    {
        match event {
            PairingEvent::CodeExpired => {
                self.expired_count = self.expired_count + 1;
                if self.expired_count >= MAX_EXPIRED_CODES {
                    PairingAction::GiveUp
                } else {
                    PairingAction::NewCode
                }
            },
            PairingEvent::Claim(c) => {
                if c.challenge_response.unicode_len() > 0
                    && !verify_challenge_response(self.challenge.as_str(), c.challenge_response.as_str(), self.code.as_str()) {
                    self.failed_claims = self.failed_claims + 1;
                    PairingAction::Reject
                } else {
                    PairingAction::Accept(c)
                }
            },
            PairingEvent::AdvertiseTick => PairingAction::Readvertise,
        }
    }
}

/// 32 random bytes.
///
/// Calls `Rng::gen` for a `[u8; 32]` on `rand::thread_rng()`. The contract
/// claims only the length; the bytes are random.
#[verifier::external_body]
fn random_secret_bytes() -> (b: Vec<u8>)
    ensures
        b@.len() == 32,
{
    let bytes: [u8; 32] = rand::thread_rng().gen();
    bytes.to_vec()
}

/// The shared secret of a hex-encoded 32-byte key.
pub open spec fn is_secret_text(s: Seq<char>) -> bool {
    exists|b: Seq<u8>| b.len() == 32 && s == hex_lower(b)
}

/// A fresh shared secret for command signing: 32 random bytes, hex-encoded.
pub fn generate_shared_secret() -> (s: String)
    ensures
        is_secret_text(s@),
{
    let b = random_secret_bytes();
    let s = hex_encode(b.as_slice());
    assert(b@.len() == 32 && s@ == hex_lower(b@));
    s
}

/// The outcome of a claim that was accepted: the owner and the new secret.
pub fn pairing_result(claim: &PairingClaim, shared_secret: String) -> (r: PairingResult)
    ensures
        r.owner_id == claim.owner_id,
        r.shared_secret == shared_secret,
{
    PairingResult { owner_id: claim.owner_id.clone(), shared_secret }
}

/// The agent's answer on the ack subject.
pub fn pairing_ack(agent_id: &str, success: bool, message: &str, shared_secret: &str) -> (a: PairingAck)
    ensures
        a.success == success,
        a.agent_id@ == agent_id@,
        a.owner_id@.len() == 0,
        a.message@ == message@,
        a.shared_secret@ == shared_secret@,
{
    PairingAck {
        success,
        agent_id: agent_id.to_owned(),
        owner_id: String::new(),
        message: message.to_owned(),
        shared_secret: shared_secret.to_owned(),
    }
}

/// `BERTH_OWNER_ID={owner_id}`.
pub open spec fn owner_line(owner_id: Seq<char>) -> Seq<char> {
    "BERTH_OWNER_ID="@ + owner_id
}

/// The lines with every `BERTH_OWNER_ID=` line replaced by `line`.
pub open spec fn replace_owner_lines(ls: Seq<Seq<char>>, line: Seq<char>) -> Seq<Seq<char>> {
    ls.map_values(|l: Seq<char>| if starts_with(l, "BERTH_OWNER_ID="@) { line } else { l })
}

/// `agent.env` after pairing with `owner_id`: an existing owner line is
/// replaced (the file is rejoined by `\n`), else the line is appended.
pub open spec fn owner_env_content(content: Seq<char>, owner_id: Seq<char>) -> Seq<char> {
    if contains(content, "BERTH_OWNER_ID="@) {
        join(replace_owner_lines(lines(content), owner_line(owner_id)), "\n"@)
    } else {
        content + "\n"@ + owner_line(owner_id)
    }
}

/// The new content of `agent.env` recording the owner.
pub fn owner_env_update(content: &str, owner_id: &str) -> (s: String)
    ensures
        s@ == owner_env_content(content@, owner_id@),
{
    let mut new_line = "BERTH_OWNER_ID=".to_owned();
    new_line.append(owner_id);
    let c = str_chars(content);
    let prefix = str_chars("BERTH_OWNER_ID=");
    if contains_chars(&c, &prefix) {
        let ls = lines_chars(&c);
        let ghost lv = crate::text::views(ls@);
        let mut out: Vec<String> = Vec::new();
        let mut i: usize = 0;
        while i < ls.len()
            invariant
                i <= ls.len(),
                lv == crate::text::views(ls@),
                prefix@ == "BERTH_OWNER_ID="@,
                new_line@ == owner_line(owner_id@),
                strings(out@) == replace_owner_lines(lv, new_line@).take(i as int),
            decreases ls.len() - i,
        {
            let l = if starts_with_chars(&ls[i], &prefix) {
                new_line.clone()
            } else {
                string_from_chars(&ls[i])
            };
            assert(l@ == replace_owner_lines(lv, new_line@)[i as int]);
            let ghost before = out@;
            let ghost lv2 = l@;
            out.push(l);
            assert(strings(out@) =~= strings(before).push(lv2));
            assert(strings(out@) =~= replace_owner_lines(lv, new_line@).take(i + 1));
            i = i + 1;
        }
        assert(replace_owner_lines(lv, new_line@).take(ls.len() as int) == replace_owner_lines(lv, new_line@));
        join_strings(&out, "\n")
    } else {
        let mut s = content.to_owned();
        s.append("\n");
        s.append(new_line.as_str());
        s
    }
}

} // verus!
