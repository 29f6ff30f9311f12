//! Chunked archive uploads: the agent collects base64 chunks that carry the
//! upload token it handed out, and checks the whole against its SHA-256.

use vstd::prelude::*;
use crate::crypto::{base64_decoded, base64_decode, sha256_hex, sha256_hex_of};
use crate::text::str_eq;

verus! {

/// A chunk message of an upload: its token (empty when absent), whether it
/// ends the upload, and its base64 data.
pub struct ChunkMessage {
    pub token: String,
    pub done: bool,
    pub data: Option<String>,
}

/// What became of a chunk message.
#[derive(PartialEq, Eq, Structural, Clone, Copy, Debug)]
pub enum ChunkOutcome {
    /// The token is not the upload's: the message is ignored.
    BadToken,
    /// The upload is complete.
    Done,
    /// The chunk's bytes were appended.
    Appended,
    /// The chunk's data is not valid base64: it is skipped.
    BadData,
    /// The message carries no data.
    NoData,
}

/// The archive of one chunked upload, as it arrives.
pub struct ChunkAssembler {
    upload_token: String,
    archive: Vec<u8>,
    received: u32,
}

impl ChunkAssembler {
    pub closed spec fn token(&self) -> Seq<char> {
        self.upload_token@
    }

    pub closed spec fn bytes(&self) -> Seq<u8> {
        self.archive@
    }

    pub closed spec fn received(&self) -> nat {
        self.received as nat
    }

    /// An upload that accepts chunks carrying `upload_token`.
    pub fn new(upload_token: String) -> (a: Self)
        ensures
            a.token() == upload_token@,
            a.bytes() == Seq::<u8>::empty(),
            a.received() == 0,
    {
        ChunkAssembler { upload_token, archive: Vec::new(), received: 0 }
    }

    /// An upload with a fresh random token, which is handed to the sender.
    pub fn start() -> (a: Self)
        ensures
            crate::ids::hyphenated_uuid(a.token()),
            a.bytes() == Seq::<u8>::empty(),
            a.received() == 0,
    {
        ChunkAssembler::new(crate::ids::new_uuid_string())
    }

    /// The upload token.
    pub fn upload_token(&self) -> (s: &str)
        ensures
            s@ == self.token(),
    {
        self.upload_token.as_str()
    }

    /// Takes in one chunk message.
    pub fn on_chunk(&mut self, msg: &ChunkMessage) -> (o: ChunkOutcome)
        requires
            old(self).received() < u32::MAX,
        ensures
            final(self).token() == old(self).token(),
            msg.token@ != old(self).token() ==> o == ChunkOutcome::BadToken,
            msg.token@ == old(self).token() && msg.done ==> o == ChunkOutcome::Done,
            msg.token@ == old(self).token() && !msg.done ==> match msg.data {
                None => o == ChunkOutcome::NoData,
                Some(d) => match base64_decoded(d@) {
                    Some(b) => o == ChunkOutcome::Appended,
                    None => o == ChunkOutcome::BadData,
                },
            },
            o == ChunkOutcome::Appended ==> (msg.data matches Some(d) && base64_decoded(d@) matches Some(b)
                && final(self).bytes() == old(self).bytes() + b
                && final(self).received() == old(self).received() + 1),
            o != ChunkOutcome::Appended ==> final(self).bytes() == old(self).bytes()
                && final(self).received() == old(self).received(),
    {
        if !str_eq(msg.token.as_str(), self.upload_token.as_str()) {
            return ChunkOutcome::BadToken;
        }
        if msg.done {
            return ChunkOutcome::Done;
        }
        match &msg.data {
            None => ChunkOutcome::NoData,
            Some(d) => match base64_decode(d.as_str()) {
                Ok(mut bytes) => {
                    self.archive.append(&mut bytes);
                    self.received = self.received + 1;
                    ChunkOutcome::Appended
                },
                Err(_) => ChunkOutcome::BadData,
            },
        }
    }

    /// The bytes received so far.
    pub fn archive(&self) -> (b: &[u8])
        ensures
            b@ == self.bytes(),
    {
        self.archive.as_slice()
    }

    /// The number of chunks appended so far.
    pub fn received_chunks(&self) -> (n: u32)
        ensures
            n == self.received(),
    {
        self.received
    }

    /// The received archive.
    pub fn into_archive(self) -> (v: Vec<u8>)
        ensures
            v@ == self.bytes(),
    {
        self.archive
    }
}

/// The code sent with an execution request, decoded; code that is not
/// valid base64 is dropped.
pub fn decode_code(code: Option<&str>) -> (r: Option<Vec<u8>>)
    ensures
        match code {
            Some(c) => match base64_decoded(c@) {
                Some(b) => r matches Some(v) && v@ == b,
                None => r is None,
            },
            None => r is None,
        },
{
    match code {
        Some(c) => match base64_decode(c) {
            Ok(v) => Some(v),
            Err(_) => None,
        },
        None => None,
    }
}

/// The archive sent inline with a deploy request, decoded; the error
/// quotes the decoder's complaint.
pub fn decode_archive(archive_base64: &str) -> (r: Result<Vec<u8>, String>)
    ensures
        match base64_decoded(archive_base64@) {
            Some(b) => r matches Ok(v) && v@ == b,
            None => r matches Err(e) && exists|m: Seq<char>| e@ == "Failed to decode archive: "@ + m,
        },
{
    match base64_decode(archive_base64) {
        Ok(v) => Ok(v),
        Err(m) => {
            let mut e = "Failed to decode archive: ".to_owned();
            e.append(m.as_str());
            Err(e)
        },
    }
}

/// `{what} mismatch: expected {expected}, got {actual}`.
pub open spec fn mismatch_message(what: Seq<char>, expected: Seq<char>, actual: Seq<char>) -> Seq<char> {
    what + " mismatch: expected "@ + expected + ", got "@ + actual
}

fn mismatch(what: &str, expected: &str, actual: &str) -> (s: String)
    ensures
        s@ == mismatch_message(what@, expected@, actual@),
{
    let mut s = what.to_owned();
    s.append(" mismatch: expected ");
    s.append(expected);
    s.append(", got ");
    s.append(actual);
    s
}

/// Checks an uploaded archive against the SHA-256 the sender announced
/// (lower-case hex).
pub fn verify_archive_checksum(archive: &[u8], expected: &str) -> (r: Result<(), String>)
    ensures
        r is Ok <==> sha256_hex(archive@) == expected@,
        r matches Err(e) ==> e@ == mismatch_message("Archive checksum"@, expected@, sha256_hex(archive@)),
{
    let actual = sha256_hex_of(archive);
    if str_eq(actual.as_str(), expected) {
        Ok(())
    } else {
        Err(mismatch("Archive checksum", expected, actual.as_str()))
    }
}

/// Checks a downloaded agent binary against the SHA-256 of its release
/// (lower-case hex).
pub fn verify_download_checksum(data: &[u8], expected: &str) -> (r: Result<(), String>)
    ensures
        r is Ok <==> sha256_hex(data@) == expected@,
        r matches Err(e) ==> e@ == mismatch_message("Checksum"@, expected@, sha256_hex(data@)),
{
    let actual = sha256_hex_of(data);
    if str_eq(actual.as_str(), expected) {
        Ok(())
    } else {
        Err(mismatch("Checksum", expected, actual.as_str()))
    }
}

} // verus!
