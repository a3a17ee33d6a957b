//! Block device trait definitions.

use super::traits::id_listed;
use vstd::prelude::*;

verus! {

/// Block I/O error types.
#[derive(Debug, Clone, Copy, PartialEq, Eq, Structural)]
pub enum BlockError {
    /// Request queue is full.
    QueueFull,
    /// Device not ready.
    DeviceNotReady,
    /// I/O error from device.
    IoError,
    /// Invalid sector number.
    InvalidSector,
    /// Request too large.
    RequestTooLarge,
    /// Device is read-only.
    ReadOnly,
    /// Unsupported operation.
    Unsupported,
    /// The device refused a command.
    DeviceError,
    /// The device did not complete a command in time.
    Timeout,
}

/// Result of a completed block I/O operation.
#[derive(Debug, Clone, Copy, PartialEq, Eq, Structural)]
pub struct BlockCompletion {
    /// Request ID (for matching with submit)
    pub request_id: u32,
    /// Status: 0 = success, non-zero = error
    pub status: u8,
    /// Bytes transferred
    pub bytes_transferred: u32,
}

/// Block device information.
#[derive(Debug, Clone, Copy, PartialEq, Eq, Structural)]
pub struct BlockDeviceInfo {
    /// Total capacity in sectors
    pub total_sectors: u64,
    /// Logical block (sector) size in bytes
    pub sector_size: u32,
    /// Maximum sectors per request
    pub max_sectors_per_request: u32,
    /// Whether device is read-only
    pub read_only: bool,
}

/// Core block device interface.
///
/// All block drivers implement this trait. Operations are non-blocking with
/// fire-and-forget semantics: submit, notify, then poll for completions.
pub trait BlockDriver {
    /// Get device information.
    fn info(&self) -> BlockDeviceInfo;

    /// Check if device can accept a new request.
    fn can_submit(&self) -> bool;

    /// Submit a read of `num_sectors` sectors at `sector` into the buffer at
    /// physical address `buffer_phys`, tagged with `request_id`.
    fn submit_read(&mut self, sector: u64, buffer_phys: u64, num_sectors: u32, request_id: u32) -> Result<(), BlockError>;

    /// Submit a write of `num_sectors` sectors at `sector` from the buffer at
    /// physical address `buffer_phys`, tagged with `request_id`.
    fn submit_write(&mut self, sector: u64, buffer_phys: u64, num_sectors: u32, request_id: u32) -> Result<(), BlockError>;

    /// Poll for a completed request.
    fn poll_completion(&mut self) -> Option<BlockCompletion>;

    /// Notify device that requests are pending.
    fn notify(&mut self);

    /// Flush any pending writes (no-op for devices without flush support).
    fn flush(&mut self) -> Result<(), BlockError> {
        Ok(())
    }
}

/// Block driver identification by PCI vendor and device IDs.
pub trait BlockDriverInit: Sized {
    /// PCI vendor IDs this driver supports, as a sequence.
    spec fn vendor_ids() -> Seq<u16>;

    /// PCI device IDs this driver supports, as a sequence.
    spec fn device_ids() -> Seq<u16>;

    /// PCI vendor IDs this driver supports.
    fn supported_vendors() -> (r: &'static [u16])
        ensures
            r@ == Self::vendor_ids(),
    ;

    /// PCI device IDs this driver supports.
    fn supported_devices() -> (r: &'static [u16])
        ensures
            r@ == Self::device_ids(),
    ;

    /// Check if driver supports a PCI device.
    fn supports_device(vendor: u16, device: u16) -> (r: bool)
        ensures
            r == (Self::vendor_ids().contains(vendor) && Self::device_ids().contains(device)),
    {
        id_listed(Self::supported_vendors(), vendor) && id_listed(Self::supported_devices(), device)
    }
}

} // verus!
