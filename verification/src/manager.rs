//! The process supervisor: owns the lifecycle state, the log buffer, the PID
//! file, the tracked child id, and the crash-loop bookkeeping.
//!
//! Spawning, waiting and sleeping are asynchronous work that the host
//! application performs; the decisions around them live here. A start is
//! `begin_start` (validation, transition to `Starting`, the exact command
//! line), then the host spawns and reports back through `on_spawned` or
//! `on_spawn_failed`. A stop is `begin_stop` (transition to `Stopping`, the
//! graceful signal), the host waits the child out, then `finish_stop`. After
//! the child terminates, `handle_exit` applies the crash-loop policy and says
//! whether the host should restart after the fixed backoff.

use vstd::prelude::*;

verus! {

use vstd::string::StringExecFns;
use crate::log_buffer::{LogBuffer, LogLine};
use crate::pid::{PidError, PidFile};
use crate::state::{
    spec_can_transition,
    spec_transition_message,
    ProcessEvent,
    ProcessState,
    StateManager,
    TransitionError,
};
use crate::strutil::{i32_to_string, spec_dec_digits, spec_i32_dec, u64_to_string};
use crate::sys;
use crate::sys::SignalKind;

/// How long a graceful stop waits before escalating to a forced kill.
pub const STOP_TIMEOUT_MS: u64 = 5000;

/// The fixed backoff before an automatic restart.
pub const CRASH_RESTART_DELAY_MS: u64 = 2000;

/// How many crashes within the window trip the crash-loop breaker.
pub const MAX_CRASHES: usize = 3;

/// The sliding window within which crashes are counted.
pub const CRASH_WINDOW_MS: u64 = 60000;

/// How starting or stopping the backend can fail.
#[derive(Debug, PartialEq, Eq)]
pub enum ProcessError {
    /// The backend binary does not exist at the recorded path.
    BinaryNotFound(String),
    /// The configuration file does not exist at the recorded path.
    ConfigMissing(String),
    /// The operating system refused to start the process.
    Spawn(String),
    /// The requested lifecycle operation is illegal in the current state.
    Transition(TransitionError),
}

pub open spec fn spec_process_error_message(e: ProcessError) -> Seq<char> {
    match e {
        ProcessError::BinaryNotFound(p) => "binary not found: "@ + p@,
        ProcessError::ConfigMissing(p) => "config file missing: "@ + p@,
        ProcessError::Spawn(m) => "spawn process: "@ + m@,
        ProcessError::Transition(te) => spec_transition_message(te),
    }
}

impl ProcessError {
    /// A human-readable description of the failure.
    pub fn message(&self) -> (r: String)
        ensures
            r@ == spec_process_error_message(*self),
    {
        match self {
            ProcessError::BinaryNotFound(p) => {
                let mut s = String::from_str("binary not found: ");
                s.append(p.as_str());
                s
            },
            ProcessError::ConfigMissing(p) => {
                let mut s = String::from_str("config file missing: ");
                s.append(p.as_str());
                s
            },
            ProcessError::Spawn(m) => {
                let mut s = String::from_str("spawn process: ");
                s.append(m.as_str());
                s
            },
            ProcessError::Transition(te) => te.message(),
        }
    }
}

/// The exact command line the host application must spawn: the backend
/// binary with its run-mode flag and the configuration path.
#[derive(Debug)]
pub struct SpawnCommand {
    pub program: String,
    pub args: Vec<String>,
}

/// What `handle_exit` asks of the host application.
#[derive(Debug, Clone, Copy, PartialEq, Eq, Structural)]
pub enum ExitOutcome {
    /// No child was tracked; there was nothing to handle.
    NothingTracked,
    /// The exit has been recorded; nothing more to do.
    Handled,
    /// The exit was an unexpected crash below the threshold with automatic
    /// restart enabled: the host should wait `delay_ms` and start again.
    RestartScheduled { delay_ms: u64 },
}

/// Whether an exit looks caused by a termination signal: no exit code, or
/// one of the codes conventionally produced by interrupt, kill or terminate.
pub open spec fn spec_is_signal_exit(exit_code: Option<i32>) -> bool {
    exit_code is None || exit_code == Some(130i32) || exit_code == Some(137i32) || exit_code
        == Some(143i32)
}

pub fn is_signal_exit_code(exit_code: Option<i32>) -> (r: bool)
    ensures
        r == spec_is_signal_exit(exit_code),
{
    match exit_code {
        None => true,
        Some(c) => c == 130 || c == 137 || c == 143,
    }
}

/// The crash-time list after recording a crash at `now_ms`: the new entry is
/// added and entries older than the crash window are pruned.
pub open spec fn spec_pruned_crashes(times: Seq<u64>, now_ms: u64) -> Seq<u64> {
    times.push(now_ms).filter(|t: u64| now_ms - t < CRASH_WINDOW_MS)
}

/// The message recorded for an exit observed while the state was `Running`.
pub open spec fn spec_exit_message(exit_code: Option<i32>) -> Seq<char> {
    match exit_code {
        Some(c) => "process exited with code "@ + spec_i32_dec(c as int),
        None => "process killed by signal"@,
    }
}

/// The terminal message of the crash-loop breaker, naming the threshold and
/// the window.
pub open spec fn spec_crash_loop_message(exit_code: Option<i32>) -> Seq<char> {
    spec_dec_digits(MAX_CRASHES as nat) + " crashes within "@ + spec_dec_digits(
        (CRASH_WINDOW_MS / 1000) as nat,
    ) + "s: "@ + spec_exit_message(exit_code)
}

fn exit_message(exit_code: Option<i32>) -> (r: String)
    ensures
        r@ == spec_exit_message(exit_code),
{
    match exit_code {
        Some(c) => {
            let mut s = String::from_str("process exited with code ");
            let digits = i32_to_string(c);
            s.append(digits.as_str());
            s
        },
        None => String::from_str("process killed by signal"),
    }
}

fn crash_loop_message(exit_code: Option<i32>) -> (r: String)
    ensures
        r@ == spec_crash_loop_message(exit_code),
{
    let mut s = u64_to_string(MAX_CRASHES as u64);
    s.append(" crashes within ");
    let secs = u64_to_string(CRASH_WINDOW_MS / 1000);
    s.append(secs.as_str());
    s.append("s: ");
    let m = exit_message(exit_code);
    s.append(m.as_str());
    s
}

/// Validation of a start request against the two existence probes: the
/// binary is checked first, then the configuration file.
pub fn classify_start(
    binary_exists: bool,
    config_exists: bool,
    binary_path: &str,
    config_path: &str,
) -> (r: Option<ProcessError>)
    ensures
        match r {
            Some(e) => match e {
                ProcessError::BinaryNotFound(p) => !binary_exists && p@ == binary_path@,
                ProcessError::ConfigMissing(p) => binary_exists && !config_exists && p@
                    == config_path@,
                _ => false,
            },
            None => binary_exists && config_exists,
        },
{
    if !binary_exists {
        Some(ProcessError::BinaryNotFound(String::from_str(binary_path)))
    } else if !config_exists {
        Some(ProcessError::ConfigMissing(String::from_str(config_path)))
    } else {
        None
    }
}

/// Law: three crashes within one crash window, starting with no recorded
/// crash, leave the pruned crash list at the breaker threshold; by the
/// contract of `handle_exit`, the third such exit therefore puts the
/// supervisor in the terminal `Error` state instead of restarting again.
pub proof fn lemma_crash_breaker_trips(t1: u64, t2: u64, t3: u64)
    requires
        t1 <= t2 <= t3,
        t3 - t1 < CRASH_WINDOW_MS,
    ensures
        spec_pruned_crashes(
            spec_pruned_crashes(spec_pruned_crashes(Seq::<u64>::empty(), t1), t2),
            t3,
        ).len() >= MAX_CRASHES,
{
    reveal_with_fuel(Seq::filter, 5);
    let keep2 = |t: u64| t2 - t < CRASH_WINDOW_MS;
    let keep3 = |t: u64| t3 - t < CRASH_WINDOW_MS;
    let s1 = spec_pruned_crashes(Seq::<u64>::empty(), t1);
    assert(Seq::<u64>::empty().push(t1).drop_last() =~= Seq::<u64>::empty());
    assert(s1 =~= seq![t1]);
    let s2 = spec_pruned_crashes(s1, t2);
    let p2 = s1.push(t2);
    assert(p2.drop_last() =~= s1);
    assert(s1.drop_last() =~= Seq::<u64>::empty());
    assert(keep2(t1) && keep2(t2));
    assert(s2 =~= seq![t1, t2]);
    let s3 = spec_pruned_crashes(s2, t3);
    let p3 = s2.push(t3);
    assert(p3.drop_last() =~= s2);
    assert(s2.drop_last() =~= seq![t1]);
    assert(seq![t1].drop_last() =~= Seq::<u64>::empty());
    assert(keep3(t1) && keep3(t2) && keep3(t3));
    assert(s3 =~= seq![t1, t2, t3]);
}

/// The supervisor of the single managed backend process.
pub struct ProcessManager {
    state: StateManager,
    log_buffer: LogBuffer,
    pid_file: PidFile,
    child: Option<u32>,
    binary_path: String,
    config_path: String,
    crash_times: Vec<u64>,
    auto_restart: bool,
}

impl ProcessManager {
    pub closed spec fn spec_state(&self) -> ProcessState {
        self.state.spec_state()
    }

    pub closed spec fn spec_child(&self) -> Option<u32> {
        self.child
    }

    pub closed spec fn spec_crash_times(&self) -> Seq<u64> {
        self.crash_times@
    }

    pub closed spec fn spec_auto_restart(&self) -> bool {
        self.auto_restart
    }

    pub closed spec fn spec_binary_path(&self) -> Seq<char> {
        self.binary_path@
    }

    pub closed spec fn spec_config_path(&self) -> Seq<char> {
        self.config_path@
    }

    pub closed spec fn spec_pid_path(&self) -> Seq<char> {
        self.pid_file.spec_path()
    }

    pub closed spec fn spec_log(&self) -> Seq<LogLine> {
        self.log_buffer.entries()
    }

    pub closed spec fn spec_log_capacity(&self) -> nat {
        self.log_buffer.spec_capacity()
    }

    /// Everything but the state, the child and the crash list is shared
    /// between the old and the new value.
    pub open spec fn spec_same_config(a: &ProcessManager, b: &ProcessManager) -> bool {
        a.spec_binary_path() == b.spec_binary_path() && a.spec_config_path()
            == b.spec_config_path() && a.spec_pid_path() == b.spec_pid_path() && a.spec_log()
            == b.spec_log() && a.spec_log_capacity() == b.spec_log_capacity()
    }

    /// A supervisor for one backend session with fixed paths; it starts
    /// `Stopped`, tracking no child, with automatic restart enabled.
    pub fn new(binary_path: String, config_path: String, pid_path: String) -> (r: Self)
        ensures
            r.spec_state() == ProcessState::Stopped,
            r.spec_child() is None,
            r.spec_crash_times() == Seq::<u64>::empty(),
            r.spec_auto_restart() == true,
            r.spec_binary_path() == binary_path@,
            r.spec_config_path() == config_path@,
            r.spec_pid_path() == pid_path@,
            r.spec_log() == Seq::<LogLine>::empty(),
            r.spec_log_capacity() == crate::log_buffer::DEFAULT_LOG_CAPACITY,
    {
        ProcessManager {
            state: StateManager::new(),
            log_buffer: LogBuffer::new(),
            pid_file: PidFile::new(pid_path),
            child: None,
            binary_path,
            config_path,
            crash_times: Vec::new(),
            auto_restart: true,
        }
    }

    /// The current lifecycle state.
    pub fn state(&self) -> (r: ProcessState)
        ensures
            r == self.spec_state(),
    {
        self.state.state()
    }

    /// A new receiver of the event broadcast.
    pub fn subscribe(&self) -> tokio::sync::broadcast::Receiver<ProcessEvent> {
        self.state.subscribe()
    }

    /// The retained output lines.
    pub fn log_buffer(&self) -> (r: &LogBuffer)
        ensures
            r.entries() == self.spec_log(),
    {
        &self.log_buffer
    }

    /// Appends one captured output line to the buffer and broadcasts it.
    pub fn push_log(&mut self, line: LogLine)
        ensures
            final (self).spec_state() == old(self).spec_state(),
            final (self).spec_child() == old(self).spec_child(),
            final (self).spec_crash_times() == old(self).spec_crash_times(),
            final (self).spec_auto_restart() == old(self).spec_auto_restart(),
            final (self).spec_binary_path() == old(self).spec_binary_path(),
            final (self).spec_config_path() == old(self).spec_config_path(),
            final (self).spec_pid_path() == old(self).spec_pid_path(),
            final (self).spec_log_capacity() == old(self).spec_log_capacity(),
            old(self).spec_log().len() >= old(self).spec_log_capacity() && old(
                self,
            ).spec_log().len() > 0 ==> final (self).spec_log() == old(
                self,
            ).spec_log().drop_first().push(line),
            !(old(self).spec_log().len() >= old(self).spec_log_capacity() && old(
                self,
            ).spec_log().len() > 0) ==> final (self).spec_log() == old(self).spec_log().push(line),
    {
        let for_event = line.clone();
        self.log_buffer.push(line);
        self.state.emit(ProcessEvent::LogLine(for_event));
    }

    /// Turns automatic restart after crashes on or off.
    pub fn set_auto_restart(&mut self, enabled: bool)
        ensures
            final (self).spec_auto_restart() == enabled,
            final (self).spec_state() == old(self).spec_state(),
            final (self).spec_child() == old(self).spec_child(),
            final (self).spec_crash_times() == old(self).spec_crash_times(),
            Self::spec_same_config(old(self), final (self)),
    {
        self.auto_restart = enabled;
    }

    /// Delegates to the PID file: terminates a process left behind by a
    /// previous session, as recorded in a stale PID file.
    pub fn check_orphaned(&self) -> (r: Result<bool, PidError>) {
        self.pid_file.check_and_kill_orphaned()
    }

    /// Validates a start and moves to `Starting`: with a missing binary or
    /// configuration file the request fails and nothing at all changes; from
    /// a state that does not allow `Starting` the transition error is
    /// returned and nothing changes; otherwise the state becomes `Starting`
    /// and the command line to spawn is returned.
    pub fn begin_start(&mut self) -> (r: Result<SpawnCommand, ProcessError>)
        ensures
            final (self).spec_child() == old(self).spec_child(),
            final (self).spec_crash_times() == old(self).spec_crash_times(),
            final (self).spec_auto_restart() == old(self).spec_auto_restart(),
            Self::spec_same_config(old(self), final (self)),
            match r {
                Ok(cmd) => spec_can_transition(old(self).spec_state(), ProcessState::Starting)
                    && final (self).spec_state() == ProcessState::Starting && cmd.program@ == old(
                    self,
                ).spec_binary_path() && cmd.args@.len() == 3 && cmd.args@[0]@ == "run"@
                    && cmd.args@[1]@ == "-c"@ && cmd.args@[2]@ == old(self).spec_config_path(),
                Err(e) => final (self).spec_state() == old(self).spec_state() && match e {
                    ProcessError::BinaryNotFound(p) => p@ == old(self).spec_binary_path(),
                    ProcessError::ConfigMissing(p) => p@ == old(self).spec_config_path(),
                    ProcessError::Transition(te) => !spec_can_transition(
                        old(self).spec_state(),
                        ProcessState::Starting,
                    ) && te == (TransitionError::Invalid {
                        from: old(self).spec_state(),
                        to: ProcessState::Starting,
                    }),
                    ProcessError::Spawn(_) => false,
                },
            },
    {
        let binary_exists = sys::file_mode(self.binary_path.as_str()).is_some();
        let config_exists = sys::file_mode(self.config_path.as_str()).is_some();
        match classify_start(
            binary_exists,
            config_exists,
            self.binary_path.as_str(),
            self.config_path.as_str(),
        ) {
            Some(e) => {
                return Err(e);
            },
            None => {},
        }
        match self.state.transition(ProcessState::Starting) {
            Ok(_) => {},
            Err(te) => {
                return Err(ProcessError::Transition(te));
            },
        }
        let mut args: Vec<String> = Vec::new();
        args.push(String::from_str("run"));
        args.push(String::from_str("-c"));
        args.push(self.config_path.clone());
        Ok(SpawnCommand { program: self.binary_path.clone(), args })
    }

    /// Records a successful spawn: stores the PID on disk (best effort),
    /// tracks the child and moves to `Running`.
    pub fn on_spawned(&mut self, pid: u32)
        requires
            old(self).spec_state() == ProcessState::Starting,
        ensures
            final (self).spec_state() == ProcessState::Running,
            final (self).spec_child() == Some(pid),
            final (self).spec_crash_times() == old(self).spec_crash_times(),
            final (self).spec_auto_restart() == old(self).spec_auto_restart(),
            Self::spec_same_config(old(self), final (self)),
    {
        let _ = self.pid_file.write(pid);
        self.child = Some(pid);
        let _ = self.state.transition(ProcessState::Running);
    }

    /// Records a failed spawn: moves to `Error` with the reason and returns
    /// the spawn error to hand to the caller.
    pub fn on_spawn_failed(&mut self, reason: String) -> (r: ProcessError)
        requires
            old(self).spec_state() == ProcessState::Starting,
        ensures
            r == ProcessError::Spawn(reason),
            final (self).spec_state() matches ProcessState::Error(m) && m@ == "spawn process: "@
                + reason@,
            final (self).spec_child() == old(self).spec_child(),
            final (self).spec_crash_times() == old(self).spec_crash_times(),
            final (self).spec_auto_restart() == old(self).spec_auto_restart(),
            Self::spec_same_config(old(self), final (self)),
    {
        let mut msg = String::from_str("spawn process: ");
        msg.append(reason.as_str());
        let _ = self.state.transition(ProcessState::Error(msg));
        ProcessError::Spawn(reason)
    }

    /// Begins a stop. With no tracked child this is an idempotent no-op.
    /// Otherwise the state moves to `Stopping` and the child is sent the
    /// graceful termination signal; the returned PID is the child the host
    /// must wait out (escalating to a forced kill after the stop timeout)
    /// before calling `finish_stop`.
    pub fn begin_stop(&mut self) -> (r: Result<Option<u32>, ProcessError>)
        ensures
            final (self).spec_child() == old(self).spec_child(),
            final (self).spec_crash_times() == old(self).spec_crash_times(),
            final (self).spec_auto_restart() == old(self).spec_auto_restart(),
            Self::spec_same_config(old(self), final (self)),
            old(self).spec_child() is None ==> r == Ok::<Option<u32>, ProcessError>(None)
                && final (self).spec_state() == old(self).spec_state(),
            old(self).spec_child() matches Some(pid) ==> match r {
                Ok(opt) => opt == Some(pid) && spec_can_transition(
                    old(self).spec_state(),
                    ProcessState::Stopping,
                ) && final (self).spec_state() == ProcessState::Stopping,
                Err(e) => e == ProcessError::Transition(
                    TransitionError::Invalid {
                        from: old(self).spec_state(),
                        to: ProcessState::Stopping,
                    },
                ) && !spec_can_transition(old(self).spec_state(), ProcessState::Stopping)
                    && final (self).spec_state() == old(self).spec_state(),
            },
    {
        let pid = match self.child {
            None => {
                return Ok(None);
            },
            Some(pid) => pid,
        };
        match self.state.transition(ProcessState::Stopping) {
            Ok(_) => {},
            Err(te) => {
                return Err(ProcessError::Transition(te));
            },
        }
        let _ = sys::send_signal(pid, SignalKind::Term);
        Ok(Some(pid))
    }

    /// Completes a stop once the child has been waited out: the child is no
    /// longer tracked, the state becomes `Stopped` and the PID file is
    /// removed (best effort).
    pub fn finish_stop(&mut self)
        requires
            old(self).spec_state() == ProcessState::Stopping,
        ensures
            final (self).spec_state() == ProcessState::Stopped,
            final (self).spec_child() is None,
            final (self).spec_crash_times() == old(self).spec_crash_times(),
            final (self).spec_auto_restart() == old(self).spec_auto_restart(),
            Self::spec_same_config(old(self), final (self)),
    {
        self.child = None;
        let _ = self.state.transition(ProcessState::Stopped);
        let _ = self.pid_file.remove();
    }

    /// Prepares a shutdown of the host application: automatic restart is
    /// disabled unconditionally; the result says whether a child is tracked,
    /// in which case the caller must run the stop sequence, ignoring its
    /// result.
    pub fn shutdown_prepare(&mut self) -> (r: bool)
        ensures
            r == (old(self).spec_child() is Some),
            final (self).spec_auto_restart() == false,
            final (self).spec_state() == old(self).spec_state(),
            final (self).spec_child() == old(self).spec_child(),
            final (self).spec_crash_times() == old(self).spec_crash_times(),
            Self::spec_same_config(old(self), final (self)),
    {
        self.auto_restart = false;
        self.child.is_some()
    }

    /// Whether an unexpected crash below the threshold restarts the backend.
    pub fn auto_restart(&self) -> (r: bool)
        ensures
            r == self.spec_auto_restart(),
    {
        self.auto_restart
    }

    /// Records a restart that could not be carried out: the state becomes
    /// `Error` naming the failure.
    pub fn fail_restart(&mut self, reason: String)
        ensures
            final (self).spec_state() matches ProcessState::Error(m) && m@ == "restart failed: "@
                + reason@,
            final (self).spec_child() == old(self).spec_child(),
            final (self).spec_crash_times() == old(self).spec_crash_times(),
            final (self).spec_auto_restart() == old(self).spec_auto_restart(),
            Self::spec_same_config(old(self), final (self)),
    {
        let mut msg = String::from_str("restart failed: ");
        msg.append(reason.as_str());
        let _ = self.state.force_set(ProcessState::Error(msg));
    }

    /// Records a crash at `now_ms` and prunes entries older than the crash
    /// window.
    fn record_crash(&mut self, now_ms: u64)
        requires
            forall|i: int|
                0 <= i < old(self).spec_crash_times().len() ==> old(self).spec_crash_times()[i]
                    <= now_ms,
        ensures
            final (self).spec_crash_times() == spec_pruned_crashes(
                old(self).spec_crash_times(),
                now_ms,
            ),
            final (self).spec_state() == old(self).spec_state(),
            final (self).spec_child() == old(self).spec_child(),
            final (self).spec_auto_restart() == old(self).spec_auto_restart(),
            Self::spec_same_config(old(self), final (self)),
    {
        let n = self.crash_times.len();
        let mut kept: Vec<u64> = Vec::new();
        let mut i: usize = 0;
        proof {
            assert(self.spec_crash_times().subrange(0, 0) =~= Seq::<u64>::empty());
        }
        while i < n
            invariant
                0 <= i <= n,
                n == self.spec_crash_times().len(),
                forall|j: int| 0 <= j < n ==> #[trigger] self.spec_crash_times()[j] <= now_ms,
                kept@ == self.spec_crash_times().subrange(0, i as int).filter(
                    |t: u64| now_ms - t < CRASH_WINDOW_MS,
                ),
            decreases n - i,
        {
            let t = self.crash_times[i];
            proof {
                let keep = |t: u64| now_ms - t < CRASH_WINDOW_MS;
                let times = self.spec_crash_times();
                let pre = times.subrange(0, i + 1);
                assert(pre.drop_last() =~= times.subrange(0, i as int));
                assert(pre.last() == times[i as int]);
                assert(t == times[i as int]);
                assert(t <= now_ms);
                reveal(Seq::filter);
                if keep(t) {
                    assert(pre.filter(keep) =~= pre.drop_last().filter(keep).push(pre.last()));
                } else {
                    assert(pre.filter(keep) =~= pre.drop_last().filter(keep));
                }
            }
            if now_ms - t < CRASH_WINDOW_MS {
                kept.push(t);
            }
            i += 1;
        }
        kept.push(now_ms);
        proof {
            let keep = |t: u64| now_ms - t < CRASH_WINDOW_MS;
            let times = self.spec_crash_times();
            assert(times.subrange(0, n as int) =~= times);
            let pushed = times.push(now_ms);
            assert(pushed.drop_last() =~= times);
            reveal(Seq::filter);
            assert(keep(now_ms));
            assert(pushed.filter(keep) =~= times.filter(keep).push(now_ms));
        }
        self.crash_times = kept;
    }

    /// Handles the termination of the tracked child, observed by the host
    /// application's wait. The child is no longer tracked, the PID file is
    /// removed and `ProcessExited` is broadcast. An exit seen while the
    /// state was `Running` is unexpected and goes through the crash-loop
    /// policy: a signal exit ends `Stopped`; a crash is recorded and once
    /// the threshold is reached within the window the state becomes a
    /// terminal `Error` naming the threshold and the window; below the
    /// threshold the state ends `Stopped` with a restart scheduled when
    /// automatic restart is on, or `Error` with the exit message when it is
    /// off. `now_ms` is the caller's monotonic clock reading, not before any
    /// earlier reading handed in.
    pub fn handle_exit(&mut self, exit_code: Option<i32>, now_ms: u64) -> (r: ExitOutcome)
        requires
            forall|i: int|
                0 <= i < old(self).spec_crash_times().len() ==> old(self).spec_crash_times()[i]
                    <= now_ms,
        ensures
            final (self).spec_auto_restart() == old(self).spec_auto_restart(),
            Self::spec_same_config(old(self), final (self)),
            old(self).spec_child() is None ==> r == ExitOutcome::NothingTracked && *final (self)
                == *old(self),
            old(self).spec_child() is Some ==> final (self).spec_child() is None && {
                let s0 = old(self).spec_state();
                let c0 = old(self).spec_crash_times();
                let a0 = old(self).spec_auto_restart();
                let s1 = final (self).spec_state();
                let c1 = final (self).spec_crash_times();
                let sig = spec_is_signal_exit(exit_code);
                let pruned = spec_pruned_crashes(c0, now_ms);
                &&& (s0 != ProcessState::Running ==> s1 == s0 && c1 == c0 && r
                    == ExitOutcome::Handled)
                &&& (s0 == ProcessState::Running && sig ==> s1 == ProcessState::Stopped && c1 == c0
                    && r == ExitOutcome::Handled)
                &&& (s0 == ProcessState::Running && !sig && pruned.len() >= MAX_CRASHES ==> (
                s1 matches ProcessState::Error(m) && m@ == spec_crash_loop_message(exit_code)) && c1
                    == pruned && r == ExitOutcome::Handled)
                &&& (s0 == ProcessState::Running && !sig && pruned.len() < MAX_CRASHES && !a0 ==> (
                s1 matches ProcessState::Error(m) && m@ == spec_exit_message(exit_code)) && c1
                    == pruned && r == ExitOutcome::Handled)
                &&& (s0 == ProcessState::Running && !sig && pruned.len() < MAX_CRASHES && a0 ==> s1
                    == ProcessState::Stopped && c1 == pruned && r
                    == (ExitOutcome::RestartScheduled { delay_ms: CRASH_RESTART_DELAY_MS }))
            },
    {
        if self.child.is_none() {
            return ExitOutcome::NothingTracked;
        }
        self.child = None;
        let _ = self.pid_file.remove();
        self.state.emit(ProcessEvent::ProcessExited { exit_code });
        let was_running = match self.state.state() {
            ProcessState::Running => true,
            _ => false,
        };
        if !was_running {
            return ExitOutcome::Handled;
        }
        let sig = is_signal_exit_code(exit_code);
        if !sig {
            proof {
                assert(self.spec_crash_times() == old(self).spec_crash_times());
            }
            self.record_crash(now_ms);
            if self.crash_times.len() >= MAX_CRASHES {
                let m = crash_loop_message(exit_code);
                let _ = self.state.force_set(ProcessState::Error(m));
                return ExitOutcome::Handled;
            }
        }
        if !self.auto_restart || sig {
            let target = if sig {
                ProcessState::Stopped
            } else {
                ProcessState::Error(exit_message(exit_code))
            };
            let _ = self.state.force_set(target);
            return ExitOutcome::Handled;
        }
        let _ = self.state.force_set(ProcessState::Stopped);
        ExitOutcome::RestartScheduled { delay_ms: CRASH_RESTART_DELAY_MS }
    }
}

} // verus!
