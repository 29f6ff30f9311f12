//! Local environment setup: the dependency-hash cache key and the choice of
//! Python interpreter.

use vstd::prelude::*;
use crate::crypto::hex_digit;
use crate::detect::RuntimeInfo;
use crate::text::{str_chars, trim, trim_chars, eq_chars};

verus! {

pub const FNV_OFFSET_BASIS: u64 = 0xcbf29ce484222325;

pub const FNV_PRIME: u64 = 0x100000001b3;

/// One FNV-1a step: xor the byte in, multiply by the prime modulo 2^64.
pub open spec fn fnv_step(state: u64, b: u8) -> u64 {
    (((state ^ (b as u64)) as int * FNV_PRIME as int) % 0x1_0000_0000_0000_0000) as u64
}

/// The FNV-1a state after hashing `bytes` from `state`.
pub open spec fn fnv(state: u64, bytes: Seq<u8>) -> u64
    decreases bytes.len(),
{
    if bytes.len() == 0 {
        state
    } else {
        fnv_step(fnv(state, bytes.drop_last()), bytes.last())
    }
}

/// The 16 lower-case hex digits of `x`, zero padded, most significant first.
pub open spec fn hex16(x: u64) -> Seq<char> {
    Seq::new(16, |i: int| hex_digit(((x >> ((60 - 4 * i) as u64)) & 0xf) as u8))
}

/// A non-cryptographic FNV-1a hasher that also counts the bytes it has
/// seen; used only to detect changes to dependency lock files.
pub struct SimpleHasher {
    state: u64,
    len: u64,
}

impl SimpleHasher {
    /// The hash state.
    pub closed spec fn state(&self) -> u64 {
        self.state
    }

    /// The number of bytes hashed.
    pub closed spec fn count(&self) -> u64 {
        self.len
    }

    pub fn new() -> (h: Self)
        ensures
            h.state() == FNV_OFFSET_BASIS,
            h.count() == 0,
    {
        SimpleHasher { state: FNV_OFFSET_BASIS, len: 0 }
    }

    /// Hashes `data` into the state.
    pub fn update(&mut self, data: &[u8])
        requires
            old(self).count() + data@.len() <= u64::MAX,
        ensures
            final(self).state() == fnv(old(self).state(), data@),
            final(self).count() == old(self).count() + data@.len(),
    {
        let s0 = self.state;
        let mut i: usize = 0;
        while i < data.len()
            invariant
                i <= data@.len(),
                self.state == fnv(s0, data@.take(i as int)),
                self.len == old(self).len,
                s0 == old(self).state,
                old(self).len + data@.len() <= u64::MAX,
            decreases data@.len() - i,
        {
            assert(data@.take(i + 1).drop_last() == data@.take(i as int));
            self.state = (self.state ^ (data[i] as u64)).wrapping_mul(FNV_PRIME);
            i = i + 1;
        }
        assert(data@.take(data@.len() as int) == data@);
        self.len = self.len + data.len() as u64;
    }

    /// The state and the byte count, each as 16 hex digits.
    pub fn finish_hex(&self) -> (s: String)
        ensures
            s@ == hex16(self.state()) + hex16(self.count()),
    {
        let mut v: Vec<char> = Vec::new();
        push_hex16(&mut v, self.state);
        push_hex16(&mut v, self.len);
        crate::text::string_from_chars(&v)
    }
}

fn hex_char(d: u8) -> (c: char)
    requires
        d < 16,
    ensures
        c == hex_digit(d),
{
    if d < 10 {
        (('0' as u8) + d) as char
    } else {
        (('a' as u8) + (d - 10)) as char
    }
}

fn push_hex16(v: &mut Vec<char>, x: u64)
    ensures
        final(v)@ == old(v)@ + hex16(x),
{
    let ghost v0 = v@;
    let mut i: u64 = 0;
    while i < 16
        invariant
            i <= 16,
            v@ == v0 + hex16(x).take(i as int),
        decreases 16 - i,
    {
        let sh: u64 = 60 - 4 * i;
        assert(((x >> sh) & 0xf) < 16) by (bit_vector);
        let d = ((x >> sh) & 0xf) as u8;
        v.push(hex_char(d));
        assert(hex16(x).take(i + 1) == hex16(x).take(i as int).push(hex16(x)[i as int]));
        i = i + 1;
    }
    assert(hex16(x).take(16) == hex16(x));
}

/// The lock files whose content keys the setup cache, in hashing order.
pub open spec fn lock_file_list() -> Seq<Seq<char>> {
    seq!["requirements.txt"@, "package-lock.json"@, "yarn.lock"@, "pnpm-lock.yaml"@, "go.sum"@, "Cargo.lock"@]
}

pub fn lock_file_names() -> (v: Vec<&'static str>)
    ensures
        v@.map_values(|s: &str| s@) == lock_file_list(),
{
    let v = vec!["requirements.txt", "package-lock.json", "yarn.lock", "pnpm-lock.yaml", "go.sum", "Cargo.lock"];
    assert(v@.map_values(|s: &str| s@) == lock_file_list());
    v
}

/// The contents of the lock files that were read, concatenated in order.
pub open spec fn found_bytes(files: Seq<Option<Vec<u8>>>) -> Seq<u8>
    decreases files.len(),
{
    if files.len() == 0 {
        seq![]
    } else {
        found_bytes(files.drop_last()) + match files.last() {
            Some(b) => b@,
            None => seq![],
        }
    }
}

/// Whether any lock file was read.
pub open spec fn any_found(files: Seq<Option<Vec<u8>>>) -> bool {
    exists|i: int| 0 <= i < files.len() && files[i] is Some
}

/// The dependency hash of a project: the hasher's hex output over the lock
/// files that could be read (`lock_files[i]` is the content of the i-th of
/// `lock_file_names()`, if read), or the empty string when none could.
pub fn compute_deps_hash(lock_files: &Vec<Option<Vec<u8>>>) -> (h: String)
    requires
        found_bytes(lock_files@).len() <= u64::MAX,
    ensures
        !any_found(lock_files@) ==> h@.len() == 0,
        any_found(lock_files@) ==> h@ == hex16(fnv(FNV_OFFSET_BASIS, found_bytes(lock_files@)))
            + hex16(found_bytes(lock_files@).len() as u64),
{
    let mut hasher = SimpleHasher::new();
    let mut found_any = false;
    let mut i: usize = 0;
    while i < lock_files.len()
        invariant
            i <= lock_files.len(),
            found_bytes(lock_files@).len() <= u64::MAX,
            hasher.state() == fnv(FNV_OFFSET_BASIS, found_bytes(lock_files@.take(i as int))),
            hasher.count() == found_bytes(lock_files@.take(i as int)).len(),
            found_any == any_found(lock_files@.take(i as int)),
        decreases lock_files.len() - i,
    {
        assert(lock_files@.take(i + 1).drop_last() == lock_files@.take(i as int));
        proof {
            lemma_found_bytes_prefix(lock_files@, i + 1);
        }
        if let Some(buf) = &lock_files[i] {
            proof {
                fnv_concat(FNV_OFFSET_BASIS, found_bytes(lock_files@.take(i as int)), buf@);
            }
            hasher.update(buf.as_slice());
            found_any = true;
            assert(lock_files@.take(i + 1)[i as int] is Some);
        } else {
            assert(found_bytes(lock_files@.take(i + 1)) == found_bytes(lock_files@.take(i as int)));
            assert forall|j: int| 0 <= j < i + 1 && lock_files@.take(i + 1)[j] is Some implies lock_files@.take(i as int)[j] is Some by {
            }
        }
        i = i + 1;
    }
    assert(lock_files@.take(lock_files.len() as int) == lock_files@);
    if !found_any {
        return String::new();
    }
    hasher.finish_hex()
}

proof fn lemma_found_bytes_prefix(files: Seq<Option<Vec<u8>>>, k: int)
    requires
        0 <= k <= files.len(),
    ensures
        found_bytes(files.take(k)).len() <= found_bytes(files).len(),
    decreases files.len() - k,
{
    if k < files.len() {
        lemma_found_bytes_prefix(files, k + 1);
        assert(files.take(k + 1).drop_last() == files.take(k));
    } else {
        assert(files.take(k) == files);
    }
}

/// The name of a project's setup-cache file.
pub fn setup_cache_file(project_id: &str) -> (name: String)
    ensures
        name@ == project_id@ + ".hash"@,
{
    let mut s = project_id.to_owned();
    s.append(".hash");
    s
}

/// Whether the project's setup is cached: no dependencies at all, or the
/// stored hash (trimmed) equals the current one. `stored` is the content of
/// the cache file, if it could be read.
pub fn is_setup_cached(current_hash: &str, stored: Option<String>) -> (b: bool)
    ensures
        b == (current_hash@.len() == 0 || (stored matches Some(s) && trim(s@) == current_hash@)),
{
    let h = str_chars(current_hash);
    if h.len() == 0 {
        return true;
    }
    match stored {
        Some(s) => eq_chars(&trim_chars(&str_chars(s.as_str())), &h),
        None => false,
    }
}

/// `Path::join` of a relative path onto `base`, with `/` as separator.
pub open spec fn join_path(base: Seq<char>, rel: Seq<char>) -> Seq<char> {
    if base.len() == 0 || base.last() == '/' {
        base + rel
    } else {
        base + "/"@ + rel
    }
}

/// `base` joined with the relative path `rel`.
pub fn join_path_str(base: &str, rel: &str) -> (p: String)
    ensures
        p@ == join_path(base@, rel@),
{
    let b = str_chars(base);
    let mut s = base.to_owned();
    if !(b.len() == 0 || b[b.len() - 1] == '/') {
        s.append("/");
    }
    s.append(rel);
    s
}

/// The Python interpreter to run: the virtualenv's `python3`, else its
/// `python`, when they exist.
pub fn resolve_python_path(working_dir: &str, venv_python3_exists: bool, venv_python_exists: bool) -> (r: Option<String>)
    ensures
        venv_python3_exists ==> (r matches Some(p) && p@ == join_path(working_dir@, ".venv/bin/python3"@)),
        !venv_python3_exists && venv_python_exists ==> (r matches Some(p) && p@ == join_path(
            working_dir@,
            ".venv/bin/python"@,
        )),
        !venv_python3_exists && !venv_python_exists ==> r is None,
{
    if venv_python3_exists {
        Some(join_path_str(working_dir, ".venv/bin/python3"))
    } else if venv_python_exists {
        Some(join_path_str(working_dir, ".venv/bin/python"))
    } else {
        None
    }
}

/// Setup commands from runtime info.
pub fn generate_commands(info: &RuntimeInfo) -> (cmds: Vec<String>)
    ensures
        crate::detect::string_seq(cmds@) == crate::containerfile::setup_commands_spec(*info),
{
    crate::containerfile::setup_commands(info)
}

/// What preparing a project for bare-process execution produced.
pub struct SetupResult {
    /// The virtualenv's Python, if one was created.
    pub venv_python: Option<String>,
    /// The working directory for execution.
    pub working_dir: String,
}

/// The line echoing a setup command before it runs: `$ {command}`.
pub fn command_echo(command: &str) -> (s: String)
    ensures
        s@ == "$ "@ + command@,
{
    let mut s = "$ ".to_owned();
    s.append(command);
    s
}

/// The error of a setup command that failed; `-1` stands for an exit
/// without a code.
pub fn setup_failure(command: &str, exit_code: Option<i32>) -> (s: String)
    ensures
        s@ == "Setup command failed: '"@ + command@ + "' (exit code "@
            + crate::text::signed_decimal(match exit_code { Some(c) => c as int, None => -1 }) + ")"@,
{
    let code: i32 = match exit_code {
        Some(c) => c,
        None => -1,
    };
    let mut s = "Setup command failed: '".to_owned();
    s.append(command);
    s.append("' (exit code ");
    s.append(crate::text::i64_to_decimal(code as i64).as_str());
    s.append(")");
    s
}

/// Hashing in pieces is hashing the whole: feeding `a` and then `b` to the
/// hasher leaves the state that feeding `a + b` at once leaves.
pub proof fn fnv_concat(state: u64, a: Seq<u8>, b: Seq<u8>)
    ensures
        fnv(fnv(state, a), b) == fnv(state, a + b),
    decreases b.len(),
{
    if b.len() == 0 {
        assert(a + b =~= a);
    } else {
        fnv_concat(state, a, b.drop_last());
        assert((a + b).drop_last() =~= a + b.drop_last());
        assert((a + b).last() == b.last());
    }
}

} // verus!
