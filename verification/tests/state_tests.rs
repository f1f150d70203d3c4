use v2ray_rs::log_buffer::LogLine;
use v2ray_rs::state::{ProcessEvent, ProcessState, StateManager};

#[test]
fn valid_transitions_succeed() {
    let mut state = ProcessState::Stopped;
    assert!(state.transition(ProcessState::Starting).is_ok());
    assert_eq!(state, ProcessState::Starting);

    assert!(state.transition(ProcessState::Running).is_ok());
    assert_eq!(state, ProcessState::Running);

    assert!(state.transition(ProcessState::Stopping).is_ok());
    assert_eq!(state, ProcessState::Stopping);

    assert!(state.transition(ProcessState::Stopped).is_ok());
    assert_eq!(state, ProcessState::Stopped);
}

#[test]
fn error_transitions() {
    let mut state = ProcessState::Starting;
    assert!(state.transition(ProcessState::Error("test".into())).is_ok());
    assert_eq!(state, ProcessState::Error("test".into()));

    assert!(state.transition(ProcessState::Starting).is_ok());
    assert_eq!(state, ProcessState::Starting);

    state = ProcessState::Error("test".into());
    assert!(state.transition(ProcessState::Stopped).is_ok());
    assert_eq!(state, ProcessState::Stopped);
}

#[test]
fn invalid_transitions_fail() {
    let mut state = ProcessState::Stopped;
    assert!(state.transition(ProcessState::Running).is_err());

    state = ProcessState::Running;
    assert!(state.transition(ProcessState::Starting).is_err());

    state = ProcessState::Stopped;
    assert!(state.transition(ProcessState::Stopping).is_err());
}

#[test]
fn invalid_transition_keeps_state_and_names_both() {
    let mut state = ProcessState::Stopped;
    let err = state.transition(ProcessState::Running).unwrap_err();
    assert_eq!(state, ProcessState::Stopped);
    let msg = err.message();
    assert!(msg.contains("Stopped"));
    assert!(msg.contains("Running"));
    assert_eq!(msg, "invalid state transition from Stopped to Running");
}

#[test]
fn state_manager_broadcasts_events() {
    let mut mgr = StateManager::new();
    let mut rx = mgr.subscribe();

    mgr.transition(ProcessState::Starting).unwrap();

    let event = rx.try_recv().unwrap();
    match event {
        ProcessEvent::StateChanged { from, to } => {
            assert_eq!(from, ProcessState::Stopped);
            assert_eq!(to, ProcessState::Starting);
        }
        _ => panic!("expected StateChanged"),
    }
}

#[test]
fn multiple_subscribers_receive_events() {
    let mut mgr = StateManager::new();
    let mut rx1 = mgr.subscribe();
    let mut rx2 = mgr.subscribe();

    mgr.transition(ProcessState::Starting).unwrap();

    let event1 = rx1.try_recv().unwrap();
    let event2 = rx2.try_recv().unwrap();

    match (event1, event2) {
        (
            ProcessEvent::StateChanged { from: f1, to: t1 },
            ProcessEvent::StateChanged { from: f2, to: t2 },
        ) => {
            assert_eq!(f1, ProcessState::Stopped);
            assert_eq!(t1, ProcessState::Starting);
            assert_eq!(f2, ProcessState::Stopped);
            assert_eq!(t2, ProcessState::Starting);
        }
        _ => panic!("expected StateChanged"),
    }
}

#[test]
fn state_manager_emit() {
    let mgr = StateManager::new();
    let mut rx = mgr.subscribe();

    mgr.emit(ProcessEvent::LogLine(LogLine::stdout("test")));

    let event = rx.try_recv().unwrap();
    match event {
        ProcessEvent::LogLine(line) => {
            assert_eq!(line.content, "test");
        }
        _ => panic!("expected LogLine"),
    }
}

#[test]
fn state_manager_starts_stopped() {
    let mgr = StateManager::new();
    assert_eq!(mgr.state(), ProcessState::Stopped);
}

#[test]
fn transition_returns_old_state() {
    let mut mgr = StateManager::new();
    let old = mgr.transition(ProcessState::Starting).unwrap();
    assert_eq!(old, ProcessState::Stopped);
    assert_eq!(mgr.state(), ProcessState::Starting);
}
