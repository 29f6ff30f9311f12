//! HMAC-SHA256 message authentication for NATS commands: signing,
//! verification, timestamp freshness and replay prevention.

use vstd::prelude::*;
use vstd::utf8::{encode_utf8, encode_utf8_decode_utf8};
use std::collections::VecDeque;
use crate::crypto::{hex_encode, hex_lower, hmac_sha256, hmac_sha256_spec, is_lower_hex_char, lemma_hex_lower_shape};

verus! {

broadcast use vstd::std_specs::vecdeque::group_vec_dequeue_axioms;

/// Maximum age of a command before it is rejected (seconds).
pub const MAX_COMMAND_AGE_SECS: i64 = 60;

/// Maximum number of nonces tracked for replay prevention.
pub const MAX_NONCE_HISTORY: usize = 10_000;

/// Byte `k` (least significant first) of the two's complement of `t`.
pub open spec fn le_byte(u: u64, k: u64) -> u8 {
    ((u >> (8 * k)) & 0xff) as u8
}

/// `i64::to_le_bytes`.
pub open spec fn le_bytes(t: i64) -> Seq<u8> {
    Seq::new(8, |k: int| le_byte(t as u64, k as u64))
}

/// The signed message: `nonce | timestamp | payload`, the timestamp as
/// eight little-endian bytes.
pub open spec fn signed_message(payload: Seq<u8>, nonce: Seq<char>, timestamp: i64) -> Seq<u8> {
    encode_utf8(nonce) + le_bytes(timestamp) + payload
}

/// The hex signature of a command.
pub open spec fn signature_of(payload: Seq<u8>, nonce: Seq<char>, timestamp: i64, secret: Seq<u8>) -> Seq<char> {
    hex_lower(hmac_sha256_spec(secret, signed_message(payload, nonce, timestamp)))
}

/// Whether `signature` is the signature of the command under `secret`.
pub open spec fn signature_matches(
    payload: Seq<u8>,
    nonce: Seq<char>,
    timestamp: i64,
    signature: Seq<char>,
    secret: Seq<u8>,
) -> bool {
    signature == signature_of(payload, nonce, timestamp, secret)
}

/// What `sign_command` produces, `verify_signature` accepts with the same
/// payload, nonce, timestamp and secret.
pub proof fn signed_command_verifies(payload: Seq<u8>, nonce: Seq<char>, timestamp: i64, secret: Seq<u8>)
    ensures
        signature_matches(payload, nonce, timestamp, signature_of(payload, nonce, timestamp, secret), secret),
{
}

/// Signs a command payload with HMAC-SHA256.
///
/// The signature covers `nonce|timestamp|payload` and is returned as
/// lower-case hex.
pub fn sign_command(payload: &[u8], nonce: &str, timestamp: i64, secret: &[u8]) -> (sig: String)
    ensures
        sig@ == signature_of(payload@, nonce@, timestamp, secret@),
        sig@.len() == 64,
        forall|i: int| 0 <= i < sig@.len() ==> is_lower_hex_char(#[trigger] sig@[i]),
{
    let nb = nonce.as_bytes();
    let mut msg: Vec<u8> = Vec::new();
    let mut i: usize = 0;
    while i < nb.len()
        invariant
            i <= nb@.len(),
            nb@ == encode_utf8(nonce@),
            msg@ == nb@.take(i as int),
        decreases nb@.len() - i,
    {
        msg.push(nb[i]);
        i = i + 1;
    }
    assert(nb@.take(nb@.len() as int) == nb@);
    let u = timestamp as u64;
    let mut k: u64 = 0;
    while k < 8
        invariant
            k <= 8,
            u == timestamp as u64,
            msg@ == encode_utf8(nonce@) + le_bytes(timestamp).take(k as int),
        decreases 8 - k,
    {
        msg.push(((u >> (8 * k)) & 0xff) as u8);
        assert(le_bytes(timestamp).take(k + 1) == le_bytes(timestamp).take(k as int).push(le_byte(u, k)));
        k = k + 1;
    }
    assert(le_bytes(timestamp).take(8) == le_bytes(timestamp));
    let mut j: usize = 0;
    while j < payload.len()
        invariant
            j <= payload@.len(),
            msg@ == encode_utf8(nonce@) + le_bytes(timestamp) + payload@.take(j as int),
        decreases payload@.len() - j,
    {
        msg.push(payload[j]);
        assert(payload@.take(j + 1) == payload@.take(j as int).push(payload@[j as int]));
        j = j + 1;
    }
    assert(payload@.take(payload@.len() as int) == payload@);
    let tag = hmac_sha256(secret, msg.as_slice());
    proof {
        lemma_hex_lower_shape(tag@);
    }
    hex_encode(tag.as_slice())
}

/// Byte comparison whose running time does not depend on where the inputs
/// differ.
fn constant_time_eq(a: &[u8], b: &[u8]) -> (eq: bool)
    ensures
        eq == (a@ == b@),
{
    if a.len() != b.len() {
        return false;
    }
    let mut result: u8 = 0;
    let mut i: usize = 0;
    while i < a.len()
        invariant
            a@.len() == b@.len(),
            i <= a@.len(),
            (result == 0) == (forall|j: int| 0 <= j < i ==> a@[j] == b@[j]),
        decreases a@.len() - i,
    {
        let x = a[i];
        let y = b[i];
        let r0 = result;
        result = result | (x ^ y);
        assert((r0 | (x ^ y)) == 0 <==> (r0 == 0 && x == y)) by (bit_vector);
        proof {
            if result == 0 {
                assert forall|j: int| 0 <= j < i + 1 implies a@[j] == b@[j] by {
                    if j < i {
                    }
                }
            }
        }
        i = i + 1;
    }
    if result == 0 {
        assert(a@ == b@);
    }
    result == 0
}

/// Constant-time byte comparison, for the pairing challenge.
pub fn constant_time_eq_public(a: &[u8], b: &[u8]) -> (eq: bool)
    ensures
        eq == (a@ == b@),
{
    constant_time_eq(a, b)
}

proof fn lemma_encode_injective(a: Seq<char>, b: Seq<char>)
    ensures
        (encode_utf8(a) == encode_utf8(b)) == (a == b),
{
    encode_utf8_decode_utf8(a);
    encode_utf8_decode_utf8(b);
}

/// Verifies a command's HMAC-SHA256 signature.
pub fn verify_signature(payload: &[u8], nonce: &str, timestamp: i64, signature: &str, secret: &[u8]) -> (ok: bool)
    ensures
        ok == signature_matches(payload@, nonce@, timestamp, signature@, secret@),
{
    let expected = sign_command(payload, nonce, timestamp, secret);
    proof {
        lemma_encode_injective(expected@, signature@);
    }
    constant_time_eq(expected.as_str().as_bytes(), signature.as_bytes())
}

/// The distance between two instants, in seconds.
pub open spec fn age(now: i64, timestamp: i64) -> int {
    if now >= timestamp {
        now - timestamp
    } else {
        timestamp - now
    }
}

/// Whether a command stamped `timestamp` is fresh at time `now`: at most
/// `MAX_COMMAND_AGE_SECS` apart, in either direction.
pub fn is_timestamp_valid_at(timestamp: i64, now: i64) -> (ok: bool)
    ensures
        ok == (age(now, timestamp) <= MAX_COMMAND_AGE_SECS),
{
    let d = (now as i128) - (timestamp as i128);
    let a = if d < 0 {
        -d
    } else {
        d
    };
    a <= MAX_COMMAND_AGE_SECS as i128
}

/// Whole seconds since the Unix epoch by the system clock.
///
/// Reads `SystemTime::now()` of std and measures it from `UNIX_EPOCH` with
/// `duration_since`, taking zero (`unwrap_or_default`) for a clock set before
/// the epoch, and `Duration::as_secs`. Nothing is claimed of the result but
/// its type: it is the clock.
#[verifier::external_body]
fn clock_secs() -> u64 {
    std::time::SystemTime::now().duration_since(std::time::UNIX_EPOCH).unwrap_or_default().as_secs()
}

/// The current Unix time in seconds: never negative, zero before the epoch.
pub fn current_timestamp() -> (t: i64)
    ensures
        t >= 0,
{
    let secs = clock_secs();
    if secs > i64::MAX as u64 {
        i64::MAX
    } else {
        secs as i64
    }
}

/// Whether a command timestamp is within the acceptable window of the
/// current time: `is_timestamp_valid_at` against the clock's reading, which
/// is never negative.
pub fn is_timestamp_valid(timestamp: i64) -> (ok: bool)
    ensures
        exists|now: i64| now >= 0 && ok == (age(now, timestamp) <= MAX_COMMAND_AGE_SECS),
{
    let now = current_timestamp();
    let ok = is_timestamp_valid_at(timestamp, now);
    assert(now >= 0 && ok == (age(now, timestamp) <= MAX_COMMAND_AGE_SECS));
    ok
}

/// The nonces tracked after `n` is recorded: appended, the oldest dropped
/// when the history is full.
pub open spec fn record_nonce(seen: Seq<Seq<char>>, n: Seq<char>) -> Seq<Seq<char>> {
    if seen.len() >= MAX_NONCE_HISTORY {
        seen.drop_first().push(n)
    } else {
        seen.push(n)
    }
}

/// Tracks recently seen nonces to prevent replay attacks.
pub struct NonceTracker {
    seen: VecDeque<String>,
}

impl View for NonceTracker {
    type V = Seq<Seq<char>>;

    /// The tracked nonces, oldest first.
    closed spec fn view(&self) -> Seq<Seq<char>> {
        self.seen@.map_values(|s: String| s@)
    }
}

impl NonceTracker {
    /// At most `MAX_NONCE_HISTORY` nonces, none twice.
    #[verifier::type_invariant]
    closed spec fn inv(self) -> bool {
        &&& self.seen@.len() <= MAX_NONCE_HISTORY
        &&& self@.no_duplicates()
    }

    /// An empty tracker.
    pub fn new() -> (t: Self)
        ensures
            t@ == Seq::<Seq<char>>::empty(),
    {
        let t = NonceTracker { seen: VecDeque::with_capacity(MAX_NONCE_HISTORY) };
        assert(t@ =~= Seq::<Seq<char>>::empty());
        t
    }

    /// Records `nonce`. Returns `true` if it is new, `false` if it is a
    /// replay of a tracked nonce, in which case nothing changes.
    pub fn check_and_record(&mut self, nonce: &str) -> (fresh: bool)
        ensures
            fresh == !old(self)@.contains(nonce@),
            fresh ==> final(self)@ == record_nonce(old(self)@, nonce@),
            !fresh ==> final(self)@ == old(self)@,
            final(self)@.len() <= MAX_NONCE_HISTORY,
            final(self)@.no_duplicates(),
    {
        proof {
            use_type_invariant(&*self);
        }
        let ghost s0 = self@;
        let n = nonce.to_owned();
        let mut i: usize = 0;
        while i < self.seen.len()
            invariant
                i <= self.seen@.len(),
                self@ == s0,
                n@ == nonce@,
                s0.len() <= MAX_NONCE_HISTORY,
                s0.no_duplicates(),
                forall|j: int| 0 <= j < i ==> s0[j] != nonce@,
            decreases self.seen@.len() - i,
        {
            assert(s0[i as int] == self.seen@[i as int]@);
            if self.seen[i] == n {
                return false;
            }
            i = i + 1;
        }
        assert(!s0.contains(nonce@));
        proof {
            replay_after_record_is_rejected(s0, nonce@);
        }
        let mut seen: VecDeque<String> = VecDeque::new();
        std::mem::swap(&mut seen, &mut self.seen);
        assert(seen@.map_values(|s: String| s@) == s0);
        if seen.len() >= MAX_NONCE_HISTORY {
            seen.pop_front();
            assert(seen@.map_values(|s: String| s@) == s0.drop_first());
        }
        let ghost s1 = seen@.map_values(|s: String| s@);
        assert(s1.no_duplicates() && !s1.contains(nonce@)) by {
            assert forall|j: int| 0 <= j < s1.len() implies s1[j] != nonce@ by {
                if s1.len() < s0.len() {
                    assert(s1[j] == s0[j + 1]);
                } else {
                    assert(s1[j] == s0[j]);
                }
            }
        }
        seen.push_back(n);
        assert(seen@.map_values(|s: String| s@) == s1.push(nonce@));
        self.seen = seen;
        assert(self@ == s1.push(nonce@));
        proof {
            use_type_invariant(&*self);
        }
        true
    }

    /// Whether `nonce` is currently tracked.
    pub fn contains(&self, nonce: &str) -> (b: bool)
        ensures
            b == self@.contains(nonce@),
    {
        let n = nonce.to_owned();
        let mut i: usize = 0;
        while i < self.seen.len()
            invariant
                i <= self.seen@.len(),
                n@ == nonce@,
                forall|j: int| 0 <= j < i ==> self@[j] != nonce@,
            decreases self.seen@.len() - i,
        {
            assert(self@[i as int] == self.seen@[i as int]@);
            if self.seen[i] == n {
                return true;
            }
            i = i + 1;
        }
        false
    }

    /// The number of tracked nonces.
    pub fn len(&self) -> (n: usize)
        ensures
            n == self@.len(),
            n <= MAX_NONCE_HISTORY,
            self@.no_duplicates(),
    {
        proof {
            use_type_invariant(self);
        }
        self.seen.len()
    }
}

impl Default for NonceTracker {
    fn default() -> (t: Self)
        ensures
            t@ == Seq::<Seq<char>>::empty(),
    {
        NonceTracker::new()
    }
}

/// Recording a fresh nonce makes its replay rejected: afterwards it is
/// tracked, and the history stays within `MAX_NONCE_HISTORY` without
/// duplicates.
pub proof fn replay_after_record_is_rejected(seen: Seq<Seq<char>>, n: Seq<char>)
    requires
        seen.len() <= MAX_NONCE_HISTORY,
        seen.no_duplicates(),
        !seen.contains(n),
    ensures
        record_nonce(seen, n).contains(n),
        record_nonce(seen, n).len() <= MAX_NONCE_HISTORY,
        record_nonce(seen, n).no_duplicates(),
{
    let r = record_nonce(seen, n);
    assert(r[r.len() - 1] == n);
    assert forall|i: int, j: int| 0 <= i < j < r.len() implies r[i] != r[j] by {
        if seen.len() >= MAX_NONCE_HISTORY {
            if j < r.len() - 1 {
                assert(r[i] == seen[i + 1] && r[j] == seen[j + 1]);
            } else {
                assert(r[i] == seen[i + 1]);
            }
        } else {
            if j < r.len() - 1 {
                assert(r[i] == seen[i] && r[j] == seen[j]);
            } else {
                assert(r[i] == seen[i]);
            }
        }
    }
}

/// Once the history is full, recording a fresh nonce forgets the oldest one,
/// and every other tracked nonce stays tracked.
pub proof fn full_history_evicts_oldest(seen: Seq<Seq<char>>, n: Seq<char>)
    requires
        seen.len() == MAX_NONCE_HISTORY,
        seen.no_duplicates(),
        !seen.contains(n),
    ensures
        !record_nonce(seen, n).contains(seen[0]),
        forall|i: int| 1 <= i < seen.len() ==> record_nonce(seen, n).contains(#[trigger] seen[i]),
{
    let r = record_nonce(seen, n);
    assert forall|k: int| 0 <= k < r.len() implies r[k] != seen[0] by {
        if k < r.len() - 1 {
            assert(r[k] == seen[k + 1]);
        } else {
            assert(seen.contains(seen[0]));
        }
    }
    assert forall|i: int| 1 <= i < seen.len() implies r.contains(#[trigger] seen[i]) by {
        assert(r[i - 1] == seen[i]);
    }
}

} // verus!
