use v2ray_rs::fetch::FetchError;
use v2ray_rs::icons::rgba_to_argb;
use v2ray_rs::manager::is_signal_exit_code;
use v2ray_rs::notification::{notification_for, Notifier};
use v2ray_rs::ping::PingError;
use v2ray_rs::state::ProcessState;
use v2ray_rs::tray::TrayAction;

#[test]
fn notification_for_running_connects() {
    let r = notification_for(&ProcessState::Starting, &ProcessState::Running).unwrap();
    assert_eq!(r.0, "Proxy Connected");
    assert_eq!(r.1, "Backend process started successfully");
}

#[test]
fn notification_for_error_carries_message() {
    let r = notification_for(
        &ProcessState::Running,
        &ProcessState::Error("boom".to_string()),
    )
    .unwrap();
    assert_eq!(r.0, "Proxy Error");
    assert_eq!(r.1, "boom");
}

#[test]
fn notification_for_unexpected_stop_disconnects() {
    let r = notification_for(&ProcessState::Running, &ProcessState::Stopped).unwrap();
    assert_eq!(r.0, "Proxy Disconnected");

    assert!(notification_for(&ProcessState::Stopping, &ProcessState::Stopped).is_none());
    assert!(notification_for(&ProcessState::Stopped, &ProcessState::Starting).is_none());
}

#[test]
fn notifier_toggles() {
    let mut n = Notifier::new(false);
    n.set_enabled(true);
    let _ = n;
}

#[test]
fn rgba_rotation_rotates_complete_pixels_only() {
    let mut data = vec![1u8, 2, 3, 4, 5, 6, 7, 8, 9];
    rgba_to_argb(&mut data);
    assert_eq!(data, vec![4, 1, 2, 3, 8, 5, 6, 7, 9]);
}

#[test]
fn signal_exit_codes() {
    assert!(is_signal_exit_code(None));
    assert!(is_signal_exit_code(Some(130)));
    assert!(is_signal_exit_code(Some(137)));
    assert!(is_signal_exit_code(Some(143)));
    assert!(!is_signal_exit_code(Some(0)));
    assert!(!is_signal_exit_code(Some(1)));
}

#[test]
fn fetch_error_messages() {
    assert_eq!(
        FetchError::NetworkError("dns".to_string()).message(),
        "network error: dns"
    );
    assert_eq!(
        FetchError::HttpError {
            status: 404,
            body: "missing".to_string()
        }
        .message(),
        "HTTP 404: missing"
    );
    assert_eq!(
        FetchError::FileError("gone".to_string()).message(),
        "file error: gone"
    );
    assert_eq!(FetchError::Timeout.message(), "request timed out");
}

#[test]
fn ping_error_messages() {
    assert_eq!(PingError::Timeout.message(), "connection timed out");
    assert_eq!(
        PingError::ConnectionFailed("refused".to_string()).message(),
        "connection failed: refused"
    );
}

#[test]
fn tray_actions_are_distinct() {
    assert_ne!(TrayAction::Connect, TrayAction::Disconnect);
    assert_ne!(TrayAction::ShowWindow, TrayAction::Quit);
}
