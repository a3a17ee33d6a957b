//! Main loop phases. Each iteration runs:
//! 1. RX refill, 2. one smoltcp poll, 3. TX drain, 4. the state machine's
//! step, 5. TX completions; an iteration should take under 1 ms and is
//! reported when it takes over 5 ms.

use super::context::{elapsed, elapsed_ticks};
use crate::driver::traits::{NetworkDriver, Upkeep};
use vstd::prelude::*;

verus! {

/// TX budget per iteration (max packets to send in Phase 3).
pub const TX_BUDGET: usize = 16;

/// Phase 1: Refill RX queue, so the device has buffers to receive into.
pub fn phase1_rx_refill<D: NetworkDriver>(device: &mut D)
    ensures
        final(device).upkeep() == old(device).upkeep().push(Upkeep::RxRefill),
        final(device).queued() == old(device).queued(),
        final(device).delivered() == old(device).delivered(),
{
    device.refill_rx_queue();
}

/// Phase 5: Collect TX completions, reclaiming TX buffers for reuse.
pub fn phase5_tx_completions<D: NetworkDriver>(device: &mut D)
    ensures
        final(device).upkeep() == old(device).upkeep().push(Upkeep::TxCollect),
        final(device).queued() == old(device).queued(),
        final(device).delivered() == old(device).delivered(),
{
    device.collect_tx_completions();
}

/// Whether an iteration that started at `start_tsc` and is at `now_tsc`
/// has run past the warning threshold.
pub fn check_timing_warning(start_tsc: u64, now_tsc: u64, warning_threshold_ticks: u64) -> (r: bool)
    ensures
        r == (elapsed_ticks(start_tsc, now_tsc) > warning_threshold_ticks),
{
    elapsed(start_tsc, now_tsc) > warning_threshold_ticks
}

} // verus!
