//! The agent's guard on incoming NATS commands: once paired, a command must
//! be signed with the shared secret, fresh, and not a replay.

use vstd::prelude::*;
use crate::message_auth::{
    NonceTracker, age, signature_of, record_nonce, MAX_COMMAND_AGE_SECS, MAX_NONCE_HISTORY,
    is_timestamp_valid_at, verify_signature, current_timestamp,
};

verus! {

/// The guard's decision on a command.
#[derive(PartialEq, Eq, Structural, Clone, Copy, Debug)]
pub enum CommandVerdict {
    /// The command is processed.
    Accepted,
    /// A secret is configured and the command carries no signature.
    Unsigned,
    /// The command's timestamp is more than a minute away from now.
    Expired,
    /// The command's nonce was seen before.
    Replayed,
    /// The signature does not match the command.
    BadSignature,
}

/// The verdict on a command with the given serialized body, nonce,
/// timestamp and signature, at time `now`, given the shared secret (if
/// any) and the nonces already seen. The checks run in this order.
pub open spec fn verdict(
    secret: Option<Seq<u8>>,
    seen: Seq<Seq<char>>,
    payload: Seq<u8>,
    nonce: Seq<char>,
    timestamp: i64,
    signature: Seq<char>,
    now: i64,
) -> CommandVerdict {
    match secret {
        None => CommandVerdict::Accepted,
        Some(k) => if signature.len() == 0 {
            CommandVerdict::Unsigned
        } else if age(now, timestamp) > MAX_COMMAND_AGE_SECS {
            CommandVerdict::Expired
        } else if seen.contains(nonce) {
            CommandVerdict::Replayed
        } else if signature != signature_of(payload, nonce, timestamp, k) {
            CommandVerdict::BadSignature
        } else {
            CommandVerdict::Accepted
        },
    }
}

/// Whether the nonce of such a command gets recorded: it passed the
/// signature-presence, freshness and replay checks (the signature itself is
/// checked after recording).
pub open spec fn records_nonce(
    secret: Option<Seq<u8>>,
    seen: Seq<Seq<char>>,
    nonce: Seq<char>,
    timestamp: i64,
    signature: Seq<char>,
    now: i64,
) -> bool {
    &&& secret is Some
    &&& signature.len() > 0
    &&& age(now, timestamp) <= MAX_COMMAND_AGE_SECS
    &&& !seen.contains(nonce)
}

/// The command guard of one agent: its shared secret, once paired, and the
/// nonces it has seen.
pub struct CommandVerifier {
    shared_secret: Option<Vec<u8>>,
    nonces: NonceTracker,
}

impl CommandVerifier {
    pub closed spec fn secret(&self) -> Option<Seq<u8>> {
        match self.shared_secret {
            Some(k) => Some(k@),
            None => None,
        }
    }

    pub closed spec fn seen(&self) -> Seq<Seq<char>> {
        self.nonces@
    }

    /// A guard with the given secret (none before pairing) and no nonces
    /// seen.
    pub fn new(shared_secret: Option<Vec<u8>>) -> (v: Self)
        ensures
            v.secret() == (match shared_secret { Some(k) => Some(k@), None => None::<Seq<u8>> }),
            v.seen() == Seq::<Seq<char>>::empty(),
    {
        CommandVerifier { shared_secret, nonces: NonceTracker::new() }
    }

    /// A guard keyed by the shared secret stored at pairing (hex text);
    /// without a stored secret, or one that is not hex, commands are not
    /// checked.
    pub fn from_stored_secret(stored: Option<&str>) -> (v: Self)
        ensures
            v.secret() == (match stored {
                Some(h) => crate::crypto::hex_decoded(h@),
                None => None::<Seq<u8>>,
            }),
            v.seen() == Seq::<Seq<char>>::empty(),
    {
        let secret = match stored {
            Some(h) => crate::crypto::hex_decode(h),
            None => None,
        };
        CommandVerifier::new(secret)
    }

    /// Whether commands are checked at all.
    pub fn has_secret(&self) -> (b: bool)
        ensures
            b == (self.secret() is Some),
    {
        self.shared_secret.is_some()
    }

    /// Checks a command at time `now`; `payload` is its serialized `cmd`
    /// field. The nonce is recorded when the command gets as far as the
    /// signature check.
    pub fn verify_command_at(&mut self, payload: &[u8], nonce: &str, timestamp: i64, signature: &str, now: i64) -> (v: CommandVerdict)
        ensures
            v == verdict(old(self).secret(), old(self).seen(), payload@, nonce@, timestamp, signature@, now),
            final(self).secret() == old(self).secret(),
            final(self).seen() == (if records_nonce(old(self).secret(), old(self).seen(), nonce@, timestamp, signature@, now) {
                record_nonce(old(self).seen(), nonce@)
            } else {
                old(self).seen()
            }),
            final(self).seen().len() <= MAX_NONCE_HISTORY,
            final(self).seen().no_duplicates(),
    {
        let _history = self.nonces.len();
        match &self.shared_secret {
            None => CommandVerdict::Accepted,
            Some(secret) => {
                if signature.unicode_len() == 0 {
                    return CommandVerdict::Unsigned;
                }
                if !is_timestamp_valid_at(timestamp, now) {
                    return CommandVerdict::Expired;
                }
                if !self.nonces.check_and_record(nonce) {
                    return CommandVerdict::Replayed;
                }
                if !verify_signature(payload, nonce, timestamp, signature, secret.as_slice()) {
                    return CommandVerdict::BadSignature;
                }
                CommandVerdict::Accepted
            },
        }
    }

    /// Checks a command against the current time.
    pub fn verify_command(&mut self, payload: &[u8], nonce: &str, timestamp: i64, signature: &str) -> (v: CommandVerdict)
        ensures
            exists|now: i64| now >= 0 && v == verdict(old(self).secret(), old(self).seen(), payload@, nonce@, timestamp, signature@, now),
            old(self).secret() is None ==> v == CommandVerdict::Accepted,
            v == CommandVerdict::Accepted && old(self).secret() is Some ==> !old(self).seen().contains(nonce@)
                && final(self).seen().contains(nonce@),
            final(self).secret() == old(self).secret(),
    {
        let _history = self.nonces.len();
        let now = current_timestamp();
        let v = self.verify_command_at(payload, nonce, timestamp, signature, now);
        proof {
            if v == CommandVerdict::Accepted && old(self).secret() is Some {
                crate::message_auth::replay_after_record_is_rejected(old(self).seen(), nonce@);
            }
        }
        v
    }
}

/// Once paired, a command that was accepted is never accepted again: its
/// nonce is then seen, so a second command with the same nonce is turned
/// away, whatever its body, timestamp, signature or arrival time.
pub proof fn accepted_nonce_is_not_accepted_again(
    secret: Seq<u8>,
    seen: Seq<Seq<char>>,
    payload: Seq<u8>,
    nonce: Seq<char>,
    timestamp: i64,
    signature: Seq<char>,
    now: i64,
    payload2: Seq<u8>,
    timestamp2: i64,
    signature2: Seq<char>,
    now2: i64,
)
    requires
        seen.len() <= MAX_NONCE_HISTORY,
        seen.no_duplicates(),
        verdict(Some(secret), seen, payload, nonce, timestamp, signature, now) == CommandVerdict::Accepted,
    ensures
        records_nonce(Some(secret), seen, nonce, timestamp, signature, now),
        verdict(Some(secret), record_nonce(seen, nonce), payload2, nonce, timestamp2, signature2, now2)
            != CommandVerdict::Accepted,
{
    crate::message_auth::replay_after_record_is_rejected(seen, nonce);
}

/// Before pairing every command is processed.
pub proof fn unpaired_agent_accepts_everything(
    seen: Seq<Seq<char>>,
    payload: Seq<u8>,
    nonce: Seq<char>,
    timestamp: i64,
    signature: Seq<char>,
    now: i64,
)
    ensures
        verdict(None, seen, payload, nonce, timestamp, signature, now) == CommandVerdict::Accepted,
{
}

/// Once paired, an accepted command carries the signature of its body,
/// nonce and timestamp under the shared secret, and was stamped within a
/// minute of its arrival.
pub proof fn accepted_commands_are_signed_and_fresh(
    secret: Seq<u8>,
    seen: Seq<Seq<char>>,
    payload: Seq<u8>,
    nonce: Seq<char>,
    timestamp: i64,
    signature: Seq<char>,
    now: i64,
)
    requires
        verdict(Some(secret), seen, payload, nonce, timestamp, signature, now) == CommandVerdict::Accepted,
    ensures
        signature == signature_of(payload, nonce, timestamp, secret),
        age(now, timestamp) <= MAX_COMMAND_AGE_SECS,
        !seen.contains(nonce),
{
}

/// The subject to answer a command on: the message's reply subject, else
/// the one the command names.
pub fn reply_subject(msg_reply: Option<String>, cmd_reply_to: &str) -> (s: String)
    ensures
        s@ == (match msg_reply { Some(r) => r@, None => cmd_reply_to@ }),
{
    match msg_reply {
        Some(r) => r,
        None => cmd_reply_to.to_owned(),
    }
}

} // verus!
