//! Desktop notifications for lifecycle changes: which transitions notify,
//! and with what text.

use vstd::prelude::*;

verus! {

use vstd::string::StringExecFns;
use crate::state::ProcessState;

pub const NOTIFICATION_TIMEOUT_MS: u32 = 5000;

/// The notification a state change produces: connection, error, or an
/// unexpected disconnection; every other change is silent.
pub open spec fn spec_notification_for(from: ProcessState, to: ProcessState) -> Option<
    (Seq<char>, Seq<char>),
> {
    match to {
        ProcessState::Running => Some(
            ("Proxy Connected"@, "Backend process started successfully"@),
        ),
        ProcessState::Error(m) => Some(("Proxy Error"@, m@)),
        ProcessState::Stopped => if from is Running {
            Some(("Proxy Disconnected"@, "Backend process stopped unexpectedly"@))
        } else {
            None
        },
        _ => None,
    }
}

/// The summary and body to show for a state change, when one is due.
pub fn notification_for(from: &ProcessState, to: &ProcessState) -> (r: Option<(String, String)>)
    ensures
        match r {
            Some(pair) => spec_notification_for(*from, *to) == Some((pair.0@, pair.1@)),
            None => spec_notification_for(*from, *to) is None,
        },
{
    match to {
        ProcessState::Running => Some(
            (
                String::from_str("Proxy Connected"),
                String::from_str("Backend process started successfully"),
            ),
        ),
        ProcessState::Error(m) => Some((String::from_str("Proxy Error"), m.clone())),
        ProcessState::Stopped => {
            match from {
                ProcessState::Running => Some(
                    (
                        String::from_str("Proxy Disconnected"),
                        String::from_str("Backend process stopped unexpectedly"),
                    ),
                ),
                _ => None,
            }
        },
        _ => None,
    }
}

/// Relies on notify_rust::Notification: shows a desktop notification with
/// the application's name and icon; whether the desktop displays it is not
/// this crate's to promise.
#[verifier::external_body]
fn send_notification(summary: &str, body: &str, timeout_ms: u32) {
    let _ = notify_rust::Notification::new()
        .appname("V2Ray Manager")
        .summary(summary)
        .body(body)
        .icon("network-vpn")
        .timeout(notify_rust::Timeout::Milliseconds(timeout_ms))
        .show();
}

/// Sends desktop notifications for lifecycle changes, when enabled.
#[derive(Debug, Clone, PartialEq, Eq, Structural)]
pub struct Notifier {
    enabled: bool,
}

impl Notifier {
    pub closed spec fn spec_enabled(&self) -> bool {
        self.enabled
    }

    /// A notifier that is on or off from the start.
    pub fn new(enabled: bool) -> (r: Self)
        ensures
            r.spec_enabled() == enabled,
    {
        Notifier { enabled }
    }

    /// Turns notifications on or off.
    pub fn set_enabled(&mut self, enabled: bool)
        ensures
            final (self).spec_enabled() == enabled,
    {
        self.enabled = enabled;
    }

    /// Shows the notification a state change is due, when enabled; the text
    /// is exactly what `notification_for` decides.
    pub fn on_state_change(&self, from: &ProcessState, to: &ProcessState) {
        if !self.enabled {
            return ;
        }
        match notification_for(from, to) {
            Some(pair) => {
                send_notification(pair.0.as_str(), pair.1.as_str(), NOTIFICATION_TIMEOUT_MS);
            },
            None => {},
        }
    }
}

} // verus!
