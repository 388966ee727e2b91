//! Commands for controlling the overlay from the control channel.

use vstd::prelude::*;

verus! {

/// Commands for controlling the overlay application, sent from the control
/// service to the overlay through a message channel.
#[derive(Clone, Copy, Debug, PartialEq, Eq, Structural)]
pub enum DaemonCommand {
    /// Show the overlay and detect clickable elements
    Show,
    /// Hide the overlay without exiting the daemon
    Hide,
    /// Toggle the overlay visibility
    Toggle,
    /// Exit the entire application
    Exit,
}

} // verus!
