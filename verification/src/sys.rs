//! Trusted wrappers around the operating-system calls the library relies on:
//! file probes, small file reads, atomic writes, directory creation, file
//! removal and signals.

use vstd::prelude::*;

verus! {

use std::io::Write;

/// Relies on nix::sys::stat::stat: the file mode of `path`, or `None` when
/// the path cannot be reached; what comes back depends on the disk alone.
#[verifier::external_body]
pub fn file_mode(path: &str) -> (r: Option<u32>) {
    match nix::sys::stat::stat(path) {
        Ok(st) => Some(st.st_mode as u32),
        Err(_) => None,
    }
}

/// Relies on nix::unistd::mkdir: creates one directory level with the given
/// mode bits; a path that already exists is not an error.
#[verifier::external_body]
pub fn make_dir(path: &str, mode: u32) -> (r: Result<(), i32>) {
    match nix::unistd::mkdir(path, nix::sys::stat::Mode::from_bits_truncate(mode)) {
        Ok(()) => Ok(()),
        Err(nix::errno::Errno::EEXIST) => Ok(()),
        Err(e) => Err(e as i32),
    }
}

/// Relies on nix::fcntl::open and nix::unistd::read: the first bytes of the
/// file, at most 4096 of them; `Ok(None)` when the file does not exist.
#[verifier::external_body]
pub fn read_small_file(path: &str) -> (r: Result<Option<Vec<u8>>, i32>)
    ensures
        r matches Ok(Some(b)) ==> b@.len() <= 4096,
{
    let fd = match nix::fcntl::open(path, nix::fcntl::OFlag::O_RDONLY, nix::sys::stat::Mode::empty()) {
        Ok(fd) => fd,
        Err(nix::errno::Errno::ENOENT) => return Ok(None),
        Err(e) => return Err(e as i32),
    };
    let mut buf = vec![0u8; 4096];
    let n = nix::unistd::read(&fd, &mut buf).map_err(|e| e as i32)?;
    buf.truncate(n);
    Ok(Some(buf))
}

/// Relies on tempfile::NamedTempFile: writes the bytes to a fresh file in
/// `dir` and persists it over `path` in one rename.
#[verifier::external_body]
pub fn atomic_write_file(dir: &str, path: &str, data: &[u8]) -> (r: Result<(), i32>) {
    let mut tmp = match tempfile::NamedTempFile::new_in(dir) {
        Ok(t) => t,
        Err(e) => return Err(e.raw_os_error().unwrap_or(0)),
    };
    if let Err(e) = tmp.write_all(data) {
        return Err(e.raw_os_error().unwrap_or(0));
    }
    if let Err(e) = tmp.flush() {
        return Err(e.raw_os_error().unwrap_or(0));
    }
    match tmp.persist(path) {
        Ok(_) => Ok(()),
        Err(e) => Err(e.error.raw_os_error().unwrap_or(0)),
    }
}

/// Relies on nix::unistd::unlink: removes the file; `Ok(false)` when there
/// was none to remove, `Ok(true)` when one was removed.
#[verifier::external_body]
pub fn remove_file(path: &str) -> (r: Result<bool, i32>) {
    match nix::unistd::unlink(path) {
        Ok(()) => Ok(true),
        Err(nix::errno::Errno::ENOENT) => Ok(false),
        Err(e) => Err(e as i32),
    }
}

/// The signals this crate sends to processes.
#[derive(Debug, Clone, Copy, PartialEq, Eq, Structural)]
pub enum SignalKind {
    /// No signal is delivered: only checks that the process exists.
    Probe,
    /// The conventional graceful-termination request.
    Term,
    /// The unconditional kill.
    Kill,
}

/// Relies on nix::sys::signal::kill: sends the signal to the process (with
/// `Probe`, delivers nothing and only checks existence); returns whether the
/// call succeeded.
#[verifier::external_body]
pub fn send_signal(pid: u32, kind: SignalKind) -> (r: bool) {
    let p = nix::unistd::Pid::from_raw(pid as i32);
    let sig = match kind {
        SignalKind::Probe => None,
        SignalKind::Term => Some(nix::sys::signal::Signal::SIGTERM),
        SignalKind::Kill => Some(nix::sys::signal::Signal::SIGKILL),
    };
    nix::sys::signal::kill(p, sig).is_ok()
}

} // verus!
