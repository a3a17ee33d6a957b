//! Outcome of one step of the download state machine.

use vstd::prelude::*;

verus! {

/// What a state's step reports to the main loop.
#[derive(Debug, Clone, Copy)]
pub enum StepResult {
    /// Stay in the current state.
    Continue,
    /// Moved to another state.
    Transition,
    /// The download finished.
    Done,
    /// The download failed, for the given reason.
    Failed(&'static str),
}

} // verus!
