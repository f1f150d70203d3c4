//! Durable record of the last known child process id, stored as decimal text
//! in a file, with detection and termination of orphaned processes.

use vstd::prelude::*;

verus! {

use vstd::string::StrSliceExecFns;
use crate::strutil::u64_to_string;
use crate::strutil::spec_dec_digits;
use crate::sys;
use crate::sys::SignalKind;

/// How reading the PID file can fail: the file held something that is not a
/// decimal process id, or the operating system refused the access.
#[derive(Debug, Clone, Copy, PartialEq, Eq, Structural)]
pub enum PidError {
    /// The file exists but its content is not a decimal process id.
    Corrupt,
    /// The operating system refused, with the errno it gave.
    Io(i32),
}

pub open spec fn spec_is_ws_byte(b: u8) -> bool {
    b == 32 || b == 10 || b == 13 || b == 9
}

pub open spec fn spec_is_digit_byte(b: u8) -> bool {
    48 <= b && b <= 57
}

pub open spec fn spec_digit_byte_val(b: u8) -> nat {
    if spec_is_digit_byte(b) {
        (b - 48) as nat
    } else {
        0
    }
}

pub open spec fn spec_all_digit_bytes(s: Seq<u8>) -> bool {
    s.len() > 0 && forall|i: int| 0 <= i < s.len() ==> spec_is_digit_byte(s[i])
}

/// The numeric value of a digit byte sequence, most significant first.
pub open spec fn spec_bytes_dec_value(s: Seq<u8>) -> nat
    decreases s.len(),
{
    if s.len() == 0 {
        0
    } else {
        spec_bytes_dec_value(s.drop_last()) * 10 + spec_digit_byte_val(s.last())
    }
}

/// The bytes with leading and trailing ASCII whitespace removed.
pub open spec fn spec_trim_bytes(s: Seq<u8>) -> Seq<u8>
    decreases s.len(),
{
    if s.len() == 0 {
        s
    } else if spec_is_ws_byte(s[0]) {
        spec_trim_bytes(s.drop_first())
    } else if spec_is_ws_byte(s.last()) {
        spec_trim_bytes(s.drop_last())
    } else {
        s
    }
}

/// What a stored PID file content denotes: the decimal value of the trimmed
/// bytes, when they are all digits and fit a `u32`.
pub open spec fn spec_parsed_pid(s: Seq<u8>) -> Option<u32> {
    let t = spec_trim_bytes(s);
    if spec_all_digit_bytes(t) && spec_bytes_dec_value(t) <= u32::MAX {
        Some(spec_bytes_dec_value(t) as u32)
    } else {
        None
    }
}

proof fn lemma_trim_bytes_is_subrange(s: Seq<u8>, a: int, b: int)
    requires
        0 <= a <= b <= s.len(),
        forall|j: int| 0 <= j < a ==> spec_is_ws_byte(s[j]),
        forall|j: int| b <= j < s.len() ==> spec_is_ws_byte(s[j]),
        a < b ==> !spec_is_ws_byte(s[a]) && !spec_is_ws_byte(s[b - 1]),
    ensures
        spec_trim_bytes(s) == s.subrange(a, b),
    decreases s.len(),
{
    if s.len() == 0 {
        assert(s.subrange(a, b) =~= s);
    } else if a > 0 {
        lemma_trim_bytes_is_subrange(s.drop_first(), a - 1, b - 1);
        assert(s.drop_first().subrange(a - 1, b - 1) =~= s.subrange(a, b));
    } else if a == b {
        // everything before `a` and from `b` on is whitespace, so with
        // `a == b` the whole sequence is
        assert(spec_is_ws_byte(s[0]));
        lemma_trim_bytes_is_subrange(s.drop_first(), 0, 0);
        assert(s.drop_first().subrange(0, 0) =~= s.subrange(a, b));
    } else if b < s.len() {
        assert(!spec_is_ws_byte(s[0]));
        lemma_trim_bytes_is_subrange(s.drop_last(), a, b);
        assert(s.drop_last().subrange(a, b) =~= s.subrange(a, b));
    } else {
        assert(s.subrange(a, b) =~= s);
    }
}

proof fn lemma_bytes_value_prefix_mono(s: Seq<u8>, i: int)
    requires
        0 <= i <= s.len(),
    ensures
        spec_bytes_dec_value(s) >= spec_bytes_dec_value(s.subrange(0, i)),
    decreases s.len() - i,
{
    if i == s.len() {
        assert(s.subrange(0, i) =~= s);
    } else {
        lemma_bytes_value_prefix_mono(s, i + 1);
        let p = s.subrange(0, i + 1);
        assert(p.drop_last() =~= s.subrange(0, i));
        assert(spec_bytes_dec_value(s.subrange(0, i)) * 10 >= spec_bytes_dec_value(
            s.subrange(0, i),
        ));
    }
}

/// Parses the content of a PID file: ASCII whitespace around a decimal
/// number is ignored; anything else is corrupt.
pub fn parse_pid_bytes(s: &[u8]) -> (r: Option<u32>)
    ensures
        r == spec_parsed_pid(s@),
{
    let n = s.len();
    let mut a: usize = 0;
    while a < n && is_ws_byte(s[a])
        invariant
            0 <= a <= n,
            n == s@.len(),
            forall|j: int| 0 <= j < a ==> spec_is_ws_byte(s@[j]),
        decreases n - a,
    {
        a += 1;
    }
    let mut b: usize = n;
    while b > a && is_ws_byte(s[b - 1])
        invariant
            a <= b <= n,
            n == s@.len(),
            forall|j: int| b <= j < n ==> spec_is_ws_byte(s@[j]),
        decreases b,
    {
        b -= 1;
    }
    proof {
        lemma_trim_bytes_is_subrange(s@, a as int, b as int);
    }
    let ghost t = s@.subrange(a as int, b as int);
    if a == b {
        proof {
            assert(!spec_all_digit_bytes(t));
        }
        return None;
    }
    let mut i: usize = a;
    let mut acc: u64 = 0;
    while i < b
        invariant
            a <= i <= b <= n,
            n == s@.len(),
            t == s@.subrange(a as int, b as int),
            t == spec_trim_bytes(s@),
            forall|j: int| a <= j < i ==> spec_is_digit_byte(s@[j]),
            acc as nat == spec_bytes_dec_value(s@.subrange(a as int, i as int)),
            acc <= u32::MAX,
        decreases b - i,
    {
        let c = s[i];
        if c < 48 || c > 57 {
            proof {
                assert(t[(i - a) as int] == s@[i as int]);
                assert(!spec_is_digit_byte(t[(i - a) as int]));
                assert(!spec_all_digit_bytes(t));
            }
            return None;
        }
        let d = (c - 48) as u64;
        proof {
            let pre = s@.subrange(a as int, (i + 1) as int);
            assert(pre.drop_last() =~= s@.subrange(a as int, i as int));
            assert(pre.last() == s@[i as int]);
            assert(spec_is_digit_byte(s@[i as int]));
            assert(spec_digit_byte_val(s@[i as int]) == d as nat);
            assert(spec_bytes_dec_value(pre) == acc as nat * 10 + d as nat);
        }
        let next = acc * 10 + d;
        if next > 0xffff_ffff {
            proof {
                if spec_all_digit_bytes(t) {
                    lemma_bytes_value_prefix_mono(t, (i + 1 - a) as int);
                    assert(t.subrange(0, (i + 1 - a) as int) =~= s@.subrange(
                        a as int,
                        (i + 1) as int,
                    ));
                    assert(spec_bytes_dec_value(t) > u32::MAX);
                }
            }
            return None;
        }
        acc = next;
        i += 1;
    }
    proof {
        assert(forall|j: int|
            0 <= j < t.len() ==> spec_is_digit_byte(#[trigger] t[j]) && t[j] == s@[a + j]);
        assert(s@.subrange(a as int, i as int) =~= t);
    }
    Some(acc as u32)
}

fn is_ws_byte(b: u8) -> (r: bool)
    ensures
        r == spec_is_ws_byte(b),
{
    b == 32 || b == 10 || b == 13 || b == 9
}

/// Creates every directory level of `path`, like a recursive make-directory.
pub fn make_dirs_all(path: &str, mode: u32) -> (r: Result<(), i32>) {
    let n = path.unicode_len();
    let mut i: usize = 1;
    while i < n
        invariant
            1 <= i <= n || n == 0,
            n == path@.len(),
        decreases n - i,
    {
        if path.get_char(i) == '/' {
            let prefix = path.substring_char(0, i);
            let _ = sys::make_dir(prefix, mode);
        }
        i += 1;
    }
    if n > 0 {
        sys::make_dir(path, mode)?;
    }
    Ok(())
}

/// The directory part of a slash-separated path: everything before the last
/// slash, or `None` when the path has no slash.
pub fn parent_dir<'a>(path: &'a str) -> (r: Option<&'a str>)
    ensures
        match r {
            Some(p) => exists|i: int|
                0 <= i < path@.len() && path@[i] == '/' && (forall|j: int|
                    i < j < path@.len() ==> path@[j] != '/') && p@ == #[trigger] path@.subrange(
                    0,
                    i,
                ),
            None => forall|i: int| 0 <= i < path@.len() ==> path@[i] != '/',
        },
{
    let n = path.unicode_len();
    let mut i: usize = n;
    while i > 0
        invariant
            0 <= i <= n,
            n == path@.len(),
            forall|j: int| i <= j < n ==> path@[j] != '/',
        decreases i,
    {
        if path.get_char(i - 1) == '/' {
            let p = path.substring_char(0, i - 1);
            return Some(p);
        }
        i -= 1;
    }
    None
}

/// The persisted record of the last spawned child's process id.
pub struct PidFile {
    path: String,
}

impl PidFile {
    pub closed spec fn spec_path(&self) -> Seq<char> {
        self.path@
    }

    /// A manager for the PID file at `path`.
    pub fn new(path: String) -> (r: Self)
        ensures
            r.spec_path() == path@,
    {
        PidFile { path }
    }

    /// The path this manager writes to.
    pub fn path(&self) -> (r: &str)
        ensures
            r@ == self.spec_path(),
    {
        self.path.as_str()
    }

    /// Stores `pid` as decimal text, creating parent directories as needed;
    /// what lands on disk is decided by the operating system, but the bytes
    /// handed to it are exactly the decimal digits of `pid`.
    pub fn write(&self, pid: u32) -> (r: Result<(), PidError>) {
        if let Some(parent) = parent_dir(self.path.as_str()) {
            let _ = make_dirs_all(parent, 0o755);
        }
        let text = u64_to_string(pid as u64);
        let dir = match parent_dir(self.path.as_str()) {
            Some(p) => p,
            None => ".",
        };
        match sys::atomic_write_file(dir, self.path.as_str(), text.as_str().as_bytes()) {
            Ok(()) => Ok(()),
            Err(code) => Err(PidError::Io(code)),
        }
    }

    /// Reads the stored PID: `Ok(None)` when the file does not exist,
    /// `Err(Corrupt)` when it holds anything but a decimal process id.
    pub fn read(&self) -> (r: Result<Option<u32>, PidError>) {
        match sys::read_small_file(self.path.as_str()) {
            Ok(None) => Ok(None),
            Ok(Some(bytes)) => match parse_pid_bytes(bytes.as_slice()) {
                Some(pid) => Ok(Some(pid)),
                None => Err(PidError::Corrupt),
            },
            Err(code) => Err(PidError::Io(code)),
        }
    }

    /// Removes the file; removing a file that does not exist is not an error.
    pub fn remove(&self) -> (r: Result<(), PidError>) {
        match sys::remove_file(self.path.as_str()) {
            Ok(_) => Ok(()),
            Err(code) => Err(PidError::Io(code)),
        }
    }

    /// Reads the stored PID; with no file, reports that no orphan was found.
    /// When the recorded process still exists, sends it the graceful
    /// termination signal, deletes the file and reports `true`; when it is
    /// gone, deletes the stale file and reports `false`. Which signal is
    /// sent, and what is reported, is exactly what `orphan_outcome` decides
    /// on the existence probe.
    pub fn check_and_kill_orphaned(&self) -> (r: Result<bool, PidError>) {
        let pid = match self.read()? {
            Some(pid) => pid,
            None => return Ok(false),
        };
        let process_exists = sys::send_signal(pid, SignalKind::Probe);
        let decision = orphan_outcome(process_exists);
        match decision.0 {
            Some(signal) => {
                let _ = sys::send_signal(pid, signal);
            },
            None => {},
        }
        self.remove()?;
        Ok(decision.1)
    }
}

/// What the orphan check does once the existence probe has answered: a live
/// process gets the graceful termination signal — never the kill — and is
/// reported as a found orphan; a dead one gets no signal and is reported as
/// none found. The stale file is removed either way.
pub fn orphan_outcome(alive: bool) -> (r: (Option<SignalKind>, bool))
    ensures
        r.1 == alive,
        alive ==> r.0 == Some(SignalKind::Term),
        !alive ==> r.0 is None,
{
    if alive {
        (Some(SignalKind::Term), true)
    } else {
        (None, false)
    }
}

} // verus!
