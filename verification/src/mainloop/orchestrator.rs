//! How the download loop ends: the state machine's step results mapped to
//! the download's result, and the network stack's clock.

use super::state::StepResult;
use vstd::prelude::*;

verus! {

/// Result of a download operation.
#[derive(Debug, Clone, Copy)]
pub enum DownloadResult {
    Success { bytes_downloaded: u64 },
    Failed { reason: &'static str },
}

/// Whether the loop ends after a step that reported `result`, and with
/// which download result: `Done` succeeds with the bytes downloaded so
/// far, `Failed` fails with its reason, anything else continues.
pub fn finish(result: StepResult, bytes_downloaded: u64) -> (r: Option<DownloadResult>)
    ensures
        r == (match result {
            StepResult::Done => Some(DownloadResult::Success { bytes_downloaded }),
            StepResult::Failed(reason) => Some(DownloadResult::Failed { reason }),
            _ => None,
        }),
{
    match result {
        StepResult::Done => Some(DownloadResult::Success { bytes_downloaded }),
        StepResult::Failed(reason) => Some(DownloadResult::Failed { reason }),
        _ => None,
    }
}

/// The network stack's clock, in milliseconds, from the TSC: 0 when the
/// TSC frequency is unknown (0).
pub fn tsc_millis(tsc: u64, tsc_freq: u64) -> (r: i64)
    requires
        tsc_freq == 0 || tsc_freq >= 1000,
    ensures
        tsc_freq == 0 ==> r == 0,
        tsc_freq >= 1000 ==> r == (tsc / (tsc_freq / 1000)) as i64,
{
    if tsc_freq > 0 {
        (tsc / (tsc_freq / 1000)) as i64
    } else {
        0
    }
}

} // verus!
