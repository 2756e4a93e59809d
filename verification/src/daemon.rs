//! The observable state of the background daemon, as the status
//! presentation reports it.

use vstd::prelude::*;

verus! {

/// Whether the daemon runs, is stopped, or is still on its way up.
/// Until something is known, it counts as pending.
#[derive(Debug, Clone, Copy, PartialEq, Eq, Structural)]
pub enum DaemonState {
    Stopped,
    Pending,
    Running,
}

/// What the daemon reports of itself: its state, and whether the user
/// still has to log in.
#[derive(Debug, Clone, Copy, PartialEq, Eq, Structural)]
pub struct DaemonStatus {
    pub state: DaemonState,
    pub login_required: bool,
}

impl Default for DaemonState {
    /// The state before anything is known.
    fn default() -> (r: Self)
        ensures
            r == DaemonState::Pending,
    {
        DaemonState::Pending
    }
}

impl Default for DaemonStatus {
    /// A pending daemon with no login required yet.
    fn default() -> (r: Self)
        ensures
            r.state == DaemonState::Pending,
            !r.login_required,
    {
        DaemonStatus { state: DaemonState::Pending, login_required: false }
    }
}

} // verus!
