//! Main loop runner.

use super::phases::{phase1_rx_refill, phase5_tx_completions};
use crate::driver::traits::{NetworkDriver, Upkeep};
use vstd::prelude::*;

verus! {

/// Main loop configuration.
pub struct MainLoopConfig {
    /// TSC frequency (ticks per second).
    pub tsc_freq: u64,
    /// Warning threshold for iteration timing (ticks).
    pub timing_warning_ticks: u64,
}

impl MainLoopConfig {
    /// Create from TSC frequency; the warning threshold is 5 ms.
    pub fn new(tsc_freq: u64) -> (r: Self)
        ensures
            r.tsc_freq == tsc_freq,
            r.timing_warning_ticks == tsc_freq / 200,
    {
        MainLoopConfig { tsc_freq, timing_warning_ticks: tsc_freq / 200 }
    }

    /// Convert TSC ticks to milliseconds (rounded down).
    pub fn ticks_to_ms(&self, ticks: u64) -> (r: u64)
        requires
            self.tsc_freq > 0,
            ticks * 1000 <= u64::MAX,
        ensures
            r == (ticks * 1000) / (self.tsc_freq as int),
    {
        ticks * 1000 / self.tsc_freq
    }
}

/// Single iteration result.
#[derive(Debug, Clone, Copy, PartialEq, Eq, Structural)]
pub enum IterationResult {
    /// Continue running.
    Continue,
    /// Application completed successfully.
    Done,
    /// Application failed.
    Failed,
    /// Application timed out.
    Timeout,
}

/// Run the device phases of one main loop iteration (RX refill, then TX
/// completions); the poll, TX drain and state step are the caller's.
pub fn run_iteration<D: NetworkDriver>(device: &mut D, config: &MainLoopConfig) -> (r: IterationResult)
    ensures
        r == IterationResult::Continue,
        final(device).upkeep() == old(device).upkeep().push(Upkeep::RxRefill).push(Upkeep::TxCollect),
        final(device).queued() == old(device).queued(),
        final(device).delivered() == old(device).delivered(),
{
    phase1_rx_refill(device);
    phase5_tx_completions(device);
    IterationResult::Continue
}

} // verus!
