//! Lifecycle state machine of the supervised backend process: the closed set
//! of states, the table of legal transitions, and the event broadcast.

use vstd::prelude::*;

verus! {

use vstd::string::StringExecFns;
use crate::log_buffer::LogLine;

/// Lifecycle states of the supervised backend process.
#[derive(Debug, PartialEq, Eq)]
pub enum ProcessState {
    Stopped,
    Starting,
    Running,
    Stopping,
    Error(String),
}

/// The transition table: which target states are reachable from each state.
pub open spec fn spec_can_transition(from: ProcessState, to: ProcessState) -> bool {
    match (from, to) {
        (ProcessState::Stopped, ProcessState::Starting) => true,
        (ProcessState::Starting, ProcessState::Running) => true,
        (ProcessState::Starting, ProcessState::Error(_)) => true,
        (ProcessState::Running, ProcessState::Stopping) => true,
        (ProcessState::Running, ProcessState::Error(_)) => true,
        (ProcessState::Stopping, ProcessState::Stopped) => true,
        (ProcessState::Stopping, ProcessState::Error(_)) => true,
        (ProcessState::Error(_), ProcessState::Starting) => true,
        (ProcessState::Error(_), ProcessState::Stopped) => true,
        _ => false,
    }
}

pub open spec fn spec_state_label(s: ProcessState) -> Seq<char> {
    match s {
        ProcessState::Stopped => "Stopped"@,
        ProcessState::Starting => "Starting"@,
        ProcessState::Running => "Running"@,
        ProcessState::Stopping => "Stopping"@,
        ProcessState::Error(_) => "Error"@,
    }
}

impl Clone for ProcessState {
    fn clone(&self) -> (r: Self)
        ensures
            r == *self,
    {
        match self {
            ProcessState::Stopped => ProcessState::Stopped,
            ProcessState::Starting => ProcessState::Starting,
            ProcessState::Running => ProcessState::Running,
            ProcessState::Stopping => ProcessState::Stopping,
            ProcessState::Error(m) => ProcessState::Error(m.clone()),
        }
    }
}

impl ProcessState {
    /// A short name of the state, for messages.
    pub fn label(&self) -> (r: &'static str)
        ensures
            r@ == spec_state_label(*self),
    {
        match self {
            ProcessState::Stopped => "Stopped",
            ProcessState::Starting => "Starting",
            ProcessState::Running => "Running",
            ProcessState::Stopping => "Stopping",
            ProcessState::Error(_) => "Error",
        }
    }

    /// Whether the table allows a transition from `self` to `target`.
    pub fn can_transition_to(&self, target: &ProcessState) -> (r: bool)
        ensures
            r == spec_can_transition(*self, *target),
    {
        match (self, target) {
            (ProcessState::Stopped, ProcessState::Starting) => true,
            (ProcessState::Starting, ProcessState::Running) => true,
            (ProcessState::Starting, ProcessState::Error(_)) => true,
            (ProcessState::Running, ProcessState::Stopping) => true,
            (ProcessState::Running, ProcessState::Error(_)) => true,
            (ProcessState::Stopping, ProcessState::Stopped) => true,
            (ProcessState::Stopping, ProcessState::Error(_)) => true,
            (ProcessState::Error(_), ProcessState::Starting) => true,
            (ProcessState::Error(_), ProcessState::Stopped) => true,
            _ => false,
        }
    }

    /// Replaces `self` by `target` when the table allows it, returning the
    /// previous state; otherwise leaves `self` untouched and fails.
    pub fn transition(&mut self, target: ProcessState) -> (r: Result<
        ProcessState,
        TransitionError,
    >)
        ensures
            spec_can_transition(*old(self), target) ==> *final (self) == target && (r matches Ok(
                prev,
            ) && prev == *old(self)),
            !spec_can_transition(*old(self), target) ==> *final (self) == *old(self) && (r matches
                Err(e) && e == (TransitionError::Invalid { from: *old(self), to: target })),
    {
        if !self.can_transition_to(&target) {
            return Err(TransitionError::Invalid { from: (*self).clone(), to: target });
        }
        let prev = (*self).clone();
        *self = target;
        Ok(prev)
    }
}

/// Failure of an illegal lifecycle transition, carrying the attempted pair.
#[derive(Debug, PartialEq, Eq)]
pub enum TransitionError {
    Invalid { from: ProcessState, to: ProcessState },
}

pub open spec fn spec_transition_message(e: TransitionError) -> Seq<char> {
    match e {
        TransitionError::Invalid { from, to } => "invalid state transition from "@
            + spec_state_label(from) + " to "@ + spec_state_label(to),
    }
}

impl TransitionError {
    /// A human-readable description naming both states.
    pub fn message(&self) -> (r: String)
        ensures
            r@ == spec_transition_message(*self),
    {
        match self {
            TransitionError::Invalid { from, to } => {
                let mut s = String::from_str("invalid state transition from ");
                s.append(from.label());
                s.append(" to ");
                s.append(to.label());
                s
            },
        }
    }
}

/// An observation delivered over the event broadcast.
#[derive(Debug, Clone)]
pub enum ProcessEvent {
    StateChanged { from: ProcessState, to: ProcessState },
    LogLine(LogLine),
    ProcessExited { exit_code: Option<i32> },
}

#[verifier::external_type_specification]
#[verifier::external_body]
#[verifier::reject_recursive_types(T)]
pub struct ExBroadcastSender<T>(tokio::sync::broadcast::Sender<T>);

#[verifier::external_type_specification]
#[verifier::external_body]
#[verifier::reject_recursive_types(T)]
pub struct ExBroadcastReceiver<T>(tokio::sync::broadcast::Receiver<T>);

/// Relies on tokio::sync::broadcast::channel: makes a broadcast channel and
/// keeps only the sending half; receivers come from `subscribe`.
#[verifier::external_body]
fn event_channel(capacity: usize) -> tokio::sync::broadcast::Sender<ProcessEvent>
    requires
        1 <= capacity <= 4096,
{
    let (tx, _rx) = tokio::sync::broadcast::channel(capacity);
    tx
}

/// Relies on tokio::sync::broadcast::Sender::send: delivers the event to the
/// subscribers that can still keep up; nothing is promised of delivery.
#[verifier::external_body]
fn event_send(tx: &tokio::sync::broadcast::Sender<ProcessEvent>, event: ProcessEvent) {
    let _ = tx.send(event);
}

/// Relies on tokio::sync::broadcast::Sender::subscribe: makes a new receiver
/// of the same broadcast.
#[verifier::external_body]
fn event_subscribe(tx: &tokio::sync::broadcast::Sender<ProcessEvent>) -> tokio::sync::broadcast::Receiver<ProcessEvent> {
    tx.subscribe()
}

/// Holds the current lifecycle state and the event broadcast; every successful
/// transition is broadcast to all subscribers.
pub struct StateManager {
    state: ProcessState,
    tx: tokio::sync::broadcast::Sender<ProcessEvent>,
}

pub const EVENT_CHANNEL_CAPACITY: usize = 64;

impl StateManager {
    pub closed spec fn spec_state(&self) -> ProcessState {
        self.state
    }

    /// A fresh manager in the `Stopped` state.
    pub fn new() -> (r: Self)
        ensures
            r.spec_state() == ProcessState::Stopped,
    {
        Self { state: ProcessState::Stopped, tx: event_channel(EVENT_CHANNEL_CAPACITY) }
    }

    /// The current state, by value.
    pub fn state(&self) -> (r: ProcessState)
        ensures
            r == self.spec_state(),
    {
        self.state.clone()
    }

    /// Validated swap of the current state; on success the `StateChanged`
    /// event is broadcast after the state has been updated.
    pub fn transition(&mut self, target: ProcessState) -> (r: Result<
        ProcessState,
        TransitionError,
    >)
        ensures
            spec_can_transition(old(self).spec_state(), target) ==> final (self).spec_state()
                == target && (r matches Ok(prev) && prev == old(self).spec_state()),
            !spec_can_transition(old(self).spec_state(), target) ==> final (self).spec_state()
                == old(self).spec_state() && (r matches Err(e) && e == (TransitionError::Invalid {
                from: old(self).spec_state(),
                to: target,
            })),
    {
        let to = target.clone();
        let old_state = self.state.transition(target)?;
        event_send(
            &self.tx,
            ProcessEvent::StateChanged { from: old_state.clone(), to },
        );
        Ok(old_state)
    }

    /// Records an observed state unconditionally: the supervisor uses this
    /// when the process itself has already changed the world (it exited), so
    /// there is no transition left to validate. The `StateChanged` event is
    /// broadcast after the state has been updated, as with `transition`.
    pub(crate) fn force_set(&mut self, to: ProcessState) -> (prev: ProcessState)
        ensures
            final (self).spec_state() == to,
            prev == old(self).spec_state(),
    {
        let to_clone = to.clone();
        let prev = self.state.clone();
        self.state = to;
        event_send(
            &self.tx,
            ProcessEvent::StateChanged { from: prev.clone(), to: to_clone },
        );
        prev
    }

    /// A new receiver of the shared event broadcast.
    pub fn subscribe(&self) -> tokio::sync::broadcast::Receiver<ProcessEvent> {
        event_subscribe(&self.tx)
    }

    /// The sending half, for tasks that emit events on this manager's behalf.
    pub fn sender(&self) -> &tokio::sync::broadcast::Sender<ProcessEvent> {
        &self.tx
    }

    /// Broadcasts an event that is not a state transition; the state is kept.
    pub fn emit(&self, event: ProcessEvent) {
        event_send(&self.tx, event);
    }
}

impl Default for StateManager {
    fn default() -> (r: Self)
        ensures
            r.spec_state() == ProcessState::Stopped,
    {
        Self::new()
    }
}

/// What one call of `transition` leaves as the current state: the target on
/// success, the unchanged source on failure.
pub open spec fn spec_apply(s: ProcessState, target: ProcessState) -> ProcessState {
    if spec_can_transition(s, target) {
        target
    } else {
        s
    }
}

/// The state after attempting every target of the chain in order.
pub open spec fn spec_run_chain(s0: ProcessState, targets: Seq<ProcessState>) -> ProcessState
    decreases targets.len(),
{
    if targets.len() == 0 {
        s0
    } else {
        spec_run_chain(spec_apply(s0, targets[0]), targets.drop_first())
    }
}

/// A sequence of target states each of which the table allows from its
/// predecessor, starting from `s0`.
pub open spec fn spec_valid_chain(s0: ProcessState, targets: Seq<ProcessState>) -> bool
    decreases targets.len(),
{
    targets.len() == 0 || (spec_can_transition(s0, targets[0]) && spec_valid_chain(
        targets[0],
        targets.drop_first(),
    ))
}

/// Law: driving the machine through any chain of transitions that the table
/// allows ends with the chain's last target as the current state; with the
/// contract of `transition`, each step of such a chain returns `Ok` carrying
/// the state immediately before it.
pub proof fn lemma_valid_chain_reaches_last(s0: ProcessState, targets: Seq<ProcessState>)
    requires
        targets.len() > 0,
        spec_valid_chain(s0, targets),
    ensures
        spec_run_chain(s0, targets) == targets.last(),
    decreases targets.len(),
{
    assert(spec_can_transition(s0, targets[0]));
    assert(spec_apply(s0, targets[0]) == targets[0]);
    if targets.len() > 1 {
        lemma_valid_chain_reaches_last(targets[0], targets.drop_first());
        assert(targets.drop_first().last() == targets.last());
    } else {
        assert(targets.drop_first().len() == 0);
        assert(spec_run_chain(targets[0], targets.drop_first()) == targets[0]);
        assert(targets.last() == targets[0]);
    }
}

/// Law: a transition that the table does not allow leaves the state unchanged,
/// whatever the state and the target.
pub proof fn lemma_invalid_transition_keeps_state(s: ProcessState, target: ProcessState)
    requires
        !spec_can_transition(s, target),
    ensures
        spec_apply(s, target) == s,
{
}

} // verus!
