//! Power-menu messages and the system action each one requests.
//!
//! The menu itself is presentation glue; the verified part is the mapping
//! from a chosen menu entry to the system action the launcher must perform.

use vstd::prelude::*;

verus! {

/// One entry of the power menu.
#[derive(Debug, Clone, Copy, PartialEq, Eq, Structural)]
pub enum PowerMessage {
    Suspend,
    Reboot,
    Shutdown,
    Logout,
}

/// The system action the launcher performs for a chosen menu entry.
#[derive(Debug, Clone, Copy, PartialEq, Eq, Structural)]
pub enum PowerAction {
    Suspend,
    Reboot,
    Shutdown,
    Logout,
}

/// The action a power message requests.
pub open spec fn power_action_spec(m: PowerMessage) -> PowerAction {
    match m {
        PowerMessage::Suspend => PowerAction::Suspend,
        PowerMessage::Reboot => PowerAction::Reboot,
        PowerMessage::Shutdown => PowerAction::Shutdown,
        PowerMessage::Logout => PowerAction::Logout,
    }
}

impl PowerMessage {
    /// Decide which system action this message launches; the launcher glue
    /// around the library performs it.
    pub fn update(self) -> (r: PowerAction)
        ensures
            r == power_action_spec(self),
    {
        match self {
            PowerMessage::Suspend => PowerAction::Suspend,
            PowerMessage::Reboot => PowerAction::Reboot,
            PowerMessage::Shutdown => PowerAction::Shutdown,
            PowerMessage::Logout => PowerAction::Logout,
        }
    }
}

} // verus!
