//! Whether closing the main window hides it to the tray or lets the
//! application exit.
use vstd::prelude::*;

verus! {

/// Records whether the user asked the application to exit. Until then,
/// closing the main window only hides it.
pub struct CloseState {
    exit_requested: bool,
}

impl CloseState {
    /// Whether an exit was requested.
    pub closed spec fn exiting(&self) -> bool {
        self.exit_requested
    }

    /// Whether closing the window should hide it instead: true until an exit is requested.
    pub fn should_hide_on_close(&self) -> (r: bool)
        ensures
            r == !self.exiting(),
    {
        !self.exit_requested
    }

    /// Records that the user asked to exit; from now on closing is not intercepted.
    pub fn request_exit(&mut self)
        ensures
            final(self).exiting(),
    {
        self.exit_requested = true;
    }
}

impl Default for CloseState {
    fn default() -> (s: CloseState)
        ensures
            !s.exiting(),
    {
        CloseState { exit_requested: false }
    }
}

} // verus!
