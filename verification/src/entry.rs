//! Entry point configuration: which driver settings a run uses, and how a
//! download's outcome is reported.

use crate::driver::intel::init::E1000eConfig;
use crate::mainloop::orchestrator::DownloadResult;
use vstd::prelude::*;

verus! {

/// What a run needs: the DMA region, the TSC frequency, the URL and the ISO
/// name, and the ESP start (0 disables disk writes).
pub struct RunConfig {
    pub dma_cpu_base: u64,
    pub dma_bus_base: u64,
    pub dma_size: usize,
    pub tsc_freq: u64,
    pub url: &'static str,
    pub iso_name: &'static str,
    /// 0 disables disk write.
    pub esp_start_lba: u64,
}

/// Outcome of a run.
#[derive(Debug, Clone, Copy, PartialEq, Eq, Structural)]
pub enum RunResult {
    Success { bytes: u64 },
    NoDevice,
    DriverInitFailed,
    DownloadFailed,
}

impl RunConfig {
    /// Disk writes are on when an ESP is given.
    pub fn write_to_disk(&self) -> (r: bool)
        ensures
            r == (self.esp_start_lba > 0),
    {
        self.esp_start_lba > 0
    }

    /// The e1000e configuration of a run: 32 RX and TX descriptors of 2 KiB
    /// buffers over the run's DMA region.
    pub fn intel_config(&self) -> (r: E1000eConfig)
        ensures
            r == (E1000eConfig {
                rx_queue_size: 32,
                tx_queue_size: 32,
                buffer_size: 2048,
                tsc_freq: self.tsc_freq,
                dma_cpu_base: self.dma_cpu_base,
                dma_bus_base: self.dma_bus_base,
            }),
    {
        E1000eConfig {
            rx_queue_size: 32,
            tx_queue_size: 32,
            buffer_size: 2048,
            tsc_freq: self.tsc_freq,
            dma_cpu_base: self.dma_cpu_base,
            dma_bus_base: self.dma_bus_base,
        }
    }
}

/// A run's outcome from its download's: the bytes on success.
pub fn run_result(download: DownloadResult) -> (r: RunResult)
    ensures
        r == (match download {
            DownloadResult::Success { bytes_downloaded } => RunResult::Success { bytes: bytes_downloaded },
            DownloadResult::Failed { .. } => RunResult::DownloadFailed,
        }),
{
    match download {
        DownloadResult::Success { bytes_downloaded } => RunResult::Success { bytes: bytes_downloaded },
        DownloadResult::Failed { .. } => RunResult::DownloadFailed,
    }
}

} // verus!
