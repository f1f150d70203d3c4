//! What the system-tray menu can ask the host application to do.

use vstd::prelude::*;

verus! {

/// A request coming from the tray menu.
#[derive(Debug, Clone, Copy, PartialEq, Eq, Structural)]
pub enum TrayAction {
    Connect,
    Disconnect,
    ShowWindow,
    Quit,
}

} // verus!
