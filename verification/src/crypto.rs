//! The cryptographic primitives the protocol is built on: HMAC-SHA256,
//! SHA-256 and lower-case hex encoding, taken from the `hmac`, `sha2` and
//! `hex` crates.

use vstd::prelude::*;
use hmac::{Hmac, Mac};
use sha2::{Digest, Sha256};
use base64::Engine;

verus! {

/// The HMAC-SHA256 tag of `msg` under `key`.
pub uninterp spec fn hmac_sha256_spec(key: Seq<u8>, msg: Seq<u8>) -> Seq<u8>;

/// The SHA-256 digest of `data`.
pub uninterp spec fn sha256_spec(data: Seq<u8>) -> Seq<u8>;

/// The lower-case hex digit of a value below 16.
pub open spec fn hex_digit(v: u8) -> char {
    if v < 10 {
        (('0' as u8) + v) as char
    } else {
        (('a' as u8) + (v - 10)) as char
    }
}

/// Lower-case hex encoding: two digits per byte, high nibble first.
pub open spec fn hex_lower(bytes: Seq<u8>) -> Seq<char>
    decreases bytes.len(),
{
    if bytes.len() == 0 {
        seq![]
    } else {
        hex_lower(bytes.drop_last()) + seq![
            hex_digit(bytes.last() / 16),
            hex_digit(bytes.last() % 16),
        ]
    }
}

/// A lower-case hex digit: `0`-`9` or `a`-`f`.
pub open spec fn is_lower_hex_char(c: char) -> bool {
    ('0' <= c <= '9') || ('a' <= c <= 'f')
}

/// Lower-case hex text of `n` bytes: `2 * n` lower-case hex digits.
pub open spec fn is_lower_hex_of_len(s: Seq<char>, n: nat) -> bool {
    &&& s.len() == 2 * n
    &&& forall|i: int| 0 <= i < s.len() ==> is_lower_hex_char(#[trigger] s[i])
}

/// Hex-encoding `bytes` gives two lower-case hex digits per byte.
pub proof fn lemma_hex_lower_shape(bytes: Seq<u8>)
    ensures
        is_lower_hex_of_len(hex_lower(bytes), bytes.len()),
    decreases bytes.len(),
{
    if bytes.len() > 0 {
        lemma_hex_lower_shape(bytes.drop_last());
        let hi = bytes.last() / 16;
        let lo = bytes.last() % 16;
        assert(is_lower_hex_char(hex_digit(hi)));
        assert(is_lower_hex_char(hex_digit(lo)));
        let prev = hex_lower(bytes.drop_last());
        let s = hex_lower(bytes);
        assert(s == prev + seq![hex_digit(hi), hex_digit(lo)]);
        assert forall|i: int| 0 <= i < s.len() implies is_lower_hex_char(#[trigger] s[i]) by {
            if i < prev.len() {
                assert(s[i] == prev[i]);
            }
        }
    }
}

/// HMAC-SHA256 of `msg` keyed by `key`.
///
/// Calls `Mac::new_from_slice`, `Mac::update` and `Mac::finalize` of the
/// `hmac` crate over `sha2::Sha256`. The contract claims a 32-byte tag that
/// is a function of the key and message alone. `new_from_slice` accepts keys
/// of every length for HMAC, so its error arm is never taken.
#[verifier::external_body]
pub(crate) fn hmac_sha256(key: &[u8], msg: &[u8]) -> (tag: Vec<u8>)
    ensures
        tag@ == hmac_sha256_spec(key@, msg@),
        tag@.len() == 32,
{
    match <Hmac<Sha256> as Mac>::new_from_slice(key) {
        Ok(mut mac) => {
            mac.update(msg);
            mac.finalize().into_bytes().to_vec()
        },
        Err(_) => Vec::new(),
    }
}

/// SHA-256 of `data`.
///
/// Calls `Sha256::digest` of the `sha2` crate. The contract claims a 32-byte
/// digest that is a function of the data alone.
#[verifier::external_body]
pub(crate) fn sha256(data: &[u8]) -> (digest: Vec<u8>)
    ensures
        digest@ == sha256_spec(data@),
        digest@.len() == 32,
{
    Sha256::digest(data).to_vec()
}

/// Lower-case hex encoding of `bytes`.
///
/// Calls `hex::encode`, which writes each byte as two lower-case hex digits,
/// high nibble first.
#[verifier::external_body]
pub(crate) fn hex_encode(bytes: &[u8]) -> (s: String)
    ensures
        s@ == hex_lower(bytes@),
{
    hex::encode(bytes)
}

/// The value of a hex digit, upper or lower case.
pub open spec fn hex_value(c: char) -> Option<int> {
    if '0' <= c <= '9' {
        Some(c as int - '0' as int)
    } else if 'a' <= c <= 'f' {
        Some(c as int - 'a' as int + 10)
    } else if 'A' <= c <= 'F' {
        Some(c as int - 'A' as int + 10)
    } else {
        None
    }
}

/// Hex decoding: an even number of hex digits, two per byte, high nibble
/// first; `None` for anything else.
pub open spec fn hex_decoded(s: Seq<char>) -> Option<Seq<u8>> {
    if s.len() % 2 == 0 && forall|i: int| 0 <= i < s.len() ==> (#[trigger] hex_value(s[i])) is Some {
        Some(Seq::new((s.len() / 2) as nat, |k: int| (hex_value(s[2 * k]).unwrap() * 16 + hex_value(s[2 * k + 1]).unwrap()) as u8))
    } else {
        None
    }
}

/// Hex decoding of `s`.
///
/// Calls `hex::decode`, which rejects an odd length and any byte that is
/// not a hex digit of either case, and otherwise reads two digits per byte,
/// high nibble first.
#[verifier::external_body]
pub(crate) fn hex_decode(s: &str) -> (r: Option<Vec<u8>>)
    ensures
        match r {
            Some(v) => hex_decoded(s@) == Some(v@),
            None => hex_decoded(s@) is None,
        },
{
    hex::decode(s).ok()
}

/// What the standard base64 engine decodes a string to, `None` where it
/// rejects it.
pub uninterp spec fn base64_decoded(s: Seq<char>) -> Option<Seq<u8>>;

/// Standard base64 decoding of `s`.
///
/// Calls `decode` of `base64::engine::general_purpose::STANDARD`. The
/// contract names the result, a function of the text alone; the engine's
/// rules on padding and trailing bits are not written out, and neither is
/// the wording of its error, which is handed back as text.
#[verifier::external_body]
pub(crate) fn base64_decode(s: &str) -> (r: Result<Vec<u8>, String>)
    ensures
        match r {
            Ok(v) => base64_decoded(s@) == Some(v@),
            Err(_) => base64_decoded(s@) is None,
        },
{
    match base64::engine::general_purpose::STANDARD.decode(s) {
        Ok(v) => Ok(v),
        Err(e) => Err(e.to_string()),
    }
}

/// The SHA-256 digest of `data` in lower-case hex, as `format!("{:x}")`
/// writes a digest.
pub open spec fn sha256_hex(data: Seq<u8>) -> Seq<char> {
    hex_lower(sha256_spec(data))
}

/// The lower-case hex SHA-256 digest of `data`.
pub fn sha256_hex_of(data: &[u8]) -> (s: String)
    ensures
        s@ == sha256_hex(data@),
{
    let d = sha256(data);
    hex_encode(d.as_slice())
}

} // verus!
