//! Terminal states — success and failure endpoints.

use vstd::prelude::*;

verus! {

/// Success terminal state.
pub struct DoneState {
    logged: bool,
}

impl DoneState {
    /// Whether the completion banner was printed.
    pub closed spec fn spec_logged(&self) -> bool {
        self.logged
    }

    pub fn new() -> (r: Self)
        ensures
            !r.spec_logged(),
    {
        DoneState { logged: false }
    }

    /// One step: the download is done. Returns whether the completion
    /// banner is to be printed now (only on the first step).
    pub fn step(&mut self) -> (r: bool)
        ensures
            r == !old(self).spec_logged(),
            final(self).spec_logged(),
    {
        let first = !self.logged;
        self.logged = true;
        first
    }
}

impl Default for DoneState {
    fn default() -> (r: Self)
        ensures
            !r.spec_logged(),
    {
        DoneState::new()
    }
}

/// Failure terminal state.
pub struct FailedState {
    reason: &'static str,
    logged: bool,
}

impl FailedState {
    pub closed spec fn spec_reason(&self) -> &'static str {
        self.reason
    }

    pub closed spec fn spec_logged(&self) -> bool {
        self.logged
    }

    pub fn new(reason: &'static str) -> (r: Self)
        ensures
            r.spec_reason() == reason,
            !r.spec_logged(),
    {
        FailedState { reason, logged: false }
    }

    /// Get failure reason.
    pub fn reason(&self) -> (r: &'static str)
        ensures
            r == self.spec_reason(),
    {
        self.reason
    }

    /// One step: the download failed for `reason`. Returns whether the
    /// failure banner is to be printed now (only on the first step).
    pub fn step(&mut self) -> (r: bool)
        ensures
            r == !old(self).spec_logged(),
            final(self).spec_logged(),
            final(self).spec_reason() == old(self).spec_reason(),
    {
        let first = !self.logged;
        self.logged = true;
        first
    }
}

} // verus!
