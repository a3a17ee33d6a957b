//! VirtIO block device driver bookkeeping: configuration checks, feature
//! negotiation, device info, and request slots.
//!
//! Each request uses a chain of three descriptors (header, data, status),
//! so request slot `s` owns descriptors `3s..3s+2`, header `s` and status
//! byte `s`. Register and descriptor writes are the platform's part.

use super::block_traits::{BlockCompletion, BlockDeviceInfo, BlockDriverInit, BlockError};
use vstd::prelude::*;

verus! {

/// Result of polling the used ring.
#[derive(Debug, Clone, Copy, PartialEq, Eq, Structural)]
pub struct BlkPollResult {
    pub desc_idx: u16,
    pub status: u8,
    pub bytes_written: u32,
}

/// VirtIO-blk request header (16 bytes).
#[derive(Debug, Clone, Copy, PartialEq, Eq, Structural)]
pub struct VirtioBlkReqHeader {
    /// Request type: 0=read, 1=write, 4=flush
    pub req_type: u32,
    /// Reserved
    pub reserved: u32,
    /// Starting sector
    pub sector: u64,
}

/// Read request type.
pub const TYPE_IN: u32 = 0;

/// Write request type.
pub const TYPE_OUT: u32 = 1;

/// Flush request type.
pub const TYPE_FLUSH: u32 = 4;

/// Status codes
pub const VIRTIO_BLK_S_OK: u8 = 0;

pub const VIRTIO_BLK_S_IOERR: u8 = 1;

pub const VIRTIO_BLK_S_UNSUPP: u8 = 2;

/// Device status: features accepted.
pub const VIRTIO_STATUS_FEATURES_OK: u8 = 0x08;

pub const VIRTIO_F_VERSION_1: u64 = 0x1_0000_0000;

pub const VIRTIO_BLK_F_RO: u64 = 0x20;

pub const VIRTIO_BLK_F_BLK_SIZE: u64 = 0x40;

pub const VIRTIO_BLK_F_FLUSH: u64 = 0x200;

/// Required features.
pub const REQUIRED_FEATURES: u64 = VIRTIO_F_VERSION_1;

/// Desired features.
pub const DESIRED_FEATURES: u64 = VIRTIO_BLK_F_BLK_SIZE | VIRTIO_BLK_F_FLUSH;

/// Size of one request header.
pub const HEADER_SIZE: u64 = 16;

/// Maximum in-flight requests.
pub const MAX_IN_FLIGHT: usize = 32;

/// VirtIO-blk driver configuration.
#[derive(Debug, Clone, Copy, PartialEq, Eq, Structural)]
pub struct VirtioBlkConfig {
    /// Queue size (number of descriptors)
    pub queue_size: u16,
    /// Physical address of descriptor table
    pub desc_phys: u64,
    /// Physical address of available ring
    pub avail_phys: u64,
    /// Physical address of used ring
    pub used_phys: u64,
    /// Physical address of request headers
    pub headers_phys: u64,
    /// Physical address of status bytes
    pub status_phys: u64,
    /// CPU address of headers
    pub headers_cpu: u64,
    /// CPU address of status bytes
    pub status_cpu: u64,
    /// Physical address for notify MMIO
    pub notify_addr: u64,
}

/// Initialization errors.
#[derive(Debug, Clone, Copy, PartialEq, Eq, Structural)]
pub enum VirtioBlkInitError {
    /// Device reset failed
    ResetFailed,
    /// Feature negotiation failed
    FeatureNegotiationFailed,
    /// Queue setup failed
    QueueSetupFailed,
    /// Device reported failure
    DeviceFailed,
    /// Invalid configuration
    InvalidConfig,
}

/// The queue holds between 3 and 256 descriptors.
pub fn check_blk_config(config: &VirtioBlkConfig) -> (r: Result<(), VirtioBlkInitError>)
    ensures
        r == (if config.queue_size < 3 || config.queue_size > 256 {
            Err(VirtioBlkInitError::InvalidConfig)
        } else {
            Ok(())
        }),
{
    if config.queue_size < 3 || config.queue_size > 256 {
        Err(VirtioBlkInitError::InvalidConfig)
    } else {
        Ok(())
    }
}

/// Features the driver takes from the device's: VERSION_1 is required;
/// block size and flush are taken when offered.
pub fn blk_features(device_features: u64) -> (r: Result<u64, VirtioBlkInitError>)
    ensures
        r == (if device_features & REQUIRED_FEATURES != REQUIRED_FEATURES {
            Err(VirtioBlkInitError::FeatureNegotiationFailed)
        } else {
            Ok(REQUIRED_FEATURES | (DESIRED_FEATURES & device_features))
        }),
{
    if device_features & REQUIRED_FEATURES != REQUIRED_FEATURES {
        return Err(VirtioBlkInitError::FeatureNegotiationFailed);
    }
    Ok(REQUIRED_FEATURES | (DESIRED_FEATURES & device_features))
}

/// The device kept FEATURES_OK set after the features were written.
pub fn features_accepted(status: u8) -> (r: Result<(), VirtioBlkInitError>)
    ensures
        r == (if status & VIRTIO_STATUS_FEATURES_OK == 0 {
            Err(VirtioBlkInitError::FeatureNegotiationFailed)
        } else {
            Ok(())
        }),
{
    if status & VIRTIO_STATUS_FEATURES_OK == 0 {
        Err(VirtioBlkInitError::FeatureNegotiationFailed)
    } else {
        Ok(())
    }
}

/// Device info from the negotiated and offered features, the capacity and
/// the block size read from the device (used only when negotiated, else
/// 512); at most 128 sectors per request.
pub fn blk_device_info(our_features: u64, device_features: u64, capacity: u64, blk_size: u32) -> (r: BlockDeviceInfo)
    ensures
        r == (BlockDeviceInfo {
            total_sectors: capacity,
            sector_size: if our_features & VIRTIO_BLK_F_BLK_SIZE != 0 {
                blk_size
            } else {
                512
            },
            max_sectors_per_request: 128,
            read_only: device_features & VIRTIO_BLK_F_RO != 0,
        }),
{
    let sector_size = if our_features & VIRTIO_BLK_F_BLK_SIZE != 0 {
        blk_size
    } else {
        512
    };
    BlockDeviceInfo {
        total_sectors: capacity,
        sector_size,
        max_sectors_per_request: 128,
        read_only: device_features & VIRTIO_BLK_F_RO != 0,
    }
}

/// Track in-flight request.
#[derive(Debug, Clone, Copy)]
struct InFlightRequest {
    request_id: u32,
    desc_idx: u16,
    active: bool,
}

/// Where a request goes: its slot, the head of its descriptor chain, its
/// header and where the header and status byte lie.
#[derive(Debug, Clone, Copy, PartialEq, Eq, Structural)]
pub struct BlkSubmission {
    pub slot: u32,
    pub desc_idx: u16,
    pub header: VirtioBlkReqHeader,
    pub header_phys: u64,
    pub status_phys: u64,
}

/// VirtIO block device driver state.
pub struct VirtioBlkDriver {
    mmio_base: u64,
    features: u64,
    info: BlockDeviceInfo,
    in_flight: Vec<InFlightRequest>,
    next_desc_set: u16,
    headers_cpu: u64,
    status_cpu: u64,
}

impl VirtioBlkDriver {
    /// Slot table of full size, and header and status areas in range.
    pub closed spec fn wf(&self) -> bool {
        &&& self.in_flight@.len() == MAX_IN_FLIGHT
        &&& self.headers_cpu + HEADER_SIZE * MAX_IN_FLIGHT <= u64::MAX
        &&& self.status_cpu + MAX_IN_FLIGHT <= u64::MAX
    }

    /// Whether slot `i` holds a request.
    pub closed spec fn active(&self, i: int) -> bool {
        self.in_flight@[i].active
    }

    /// Request ID held by slot `i`.
    pub closed spec fn request_of(&self, i: int) -> u32 {
        self.in_flight@[i].request_id
    }

    pub closed spec fn spec_info(&self) -> BlockDeviceInfo {
        self.info
    }

    pub closed spec fn spec_features(&self) -> u64 {
        self.features
    }

    pub closed spec fn spec_mmio_base(&self) -> u64 {
        self.mmio_base
    }

    /// Header and status areas.
    pub closed spec fn areas(&self) -> (u64, u64) {
        (self.headers_cpu, self.status_cpu)
    }

    /// Driver state for a device brought up with `config`, `features`
    /// negotiated and `info` read: all slots free.
    pub fn from_parts(mmio_base: u64, features: u64, info: BlockDeviceInfo, config: &VirtioBlkConfig) -> (r: Self)
        requires
            config.headers_cpu + HEADER_SIZE * MAX_IN_FLIGHT <= u64::MAX,
            config.status_cpu + MAX_IN_FLIGHT <= u64::MAX,
        ensures
            r.wf(),
            r.spec_info() == info,
            r.spec_features() == features,
            r.spec_mmio_base() == mmio_base,
            r.areas() == (config.headers_cpu, config.status_cpu),
            forall|i: int| 0 <= i < MAX_IN_FLIGHT ==> !r.active(i),
    {
        let mut in_flight: Vec<InFlightRequest> = Vec::new();
        let mut i: usize = 0;
        while i < MAX_IN_FLIGHT
            invariant
                i <= MAX_IN_FLIGHT,
                in_flight@.len() == i,
                forall|j: int| 0 <= j < i ==> !(#[trigger] in_flight@[j]).active,
            decreases MAX_IN_FLIGHT - i,
        {
            in_flight.push(InFlightRequest { request_id: 0, desc_idx: 0, active: false });
            i += 1;
        }
        VirtioBlkDriver {
            mmio_base,
            features,
            info,
            in_flight,
            next_desc_set: 0,
            headers_cpu: config.headers_cpu,
            status_cpu: config.status_cpu,
        }
    }

    /// Get device information.
    pub fn info(&self) -> (r: BlockDeviceInfo)
        ensures
            r == self.spec_info(),
    {
        self.info
    }

    /// The first free slot, if any.
    fn free_slot(&self) -> (r: Option<usize>)
        requires
            self.wf(),
        ensures
            match r {
                Some(s) => s < MAX_IN_FLIGHT && !self.active(s as int) && forall|j: int| 0 <= j < s ==> self.active(j),
                None => forall|j: int| 0 <= j < MAX_IN_FLIGHT ==> self.active(j),
            },
    {
        let mut i: usize = 0;
        while i < MAX_IN_FLIGHT
            invariant
                self.wf(),
                i <= MAX_IN_FLIGHT,
                forall|j: int| 0 <= j < i ==> self.active(j),
            decreases MAX_IN_FLIGHT - i,
        {
            if !self.in_flight[i].active {
                return Some(i);
            }
            i += 1;
        }
        None
    }

    /// Check if a request slot is free.
    pub fn can_submit(&self) -> (r: bool)
        requires
            self.wf(),
        ensures
            r == exists|i: int| 0 <= i < MAX_IN_FLIGHT && !self.active(i),
    {
        self.free_slot().is_some()
    }

    /// Physical address of the header of `slot`.
    pub fn header_phys(&self, slot: usize) -> (r: u64)
        requires
            self.wf(),
            slot < MAX_IN_FLIGHT,
        ensures
            r == self.areas().0 + slot * HEADER_SIZE,
    {
        self.headers_cpu + (slot as u64) * HEADER_SIZE
    }

    /// Physical address of the status byte of `slot`.
    pub fn status_phys(&self, slot: usize) -> (r: u64)
        requires
            self.wf(),
            slot < MAX_IN_FLIGHT,
        ensures
            r == self.areas().1 + slot,
    {
        self.status_cpu + slot as u64
    }

    /// Check a read (`write` false) or write request and pick its slot: a
    /// write to a read-only device, a range past the end, or no free slot
    /// is refused.
    pub fn begin_request(&self, sector: u64, num_sectors: u32, write: bool) -> (r: Result<BlkSubmission, BlockError>)
        requires
            self.wf(),
        ensures
            write && self.spec_info().read_only ==> r == Err::<BlkSubmission, BlockError>(BlockError::ReadOnly),
            !(write && self.spec_info().read_only) && sector + num_sectors > self.spec_info().total_sectors ==> r
                == Err::<BlkSubmission, BlockError>(BlockError::InvalidSector),
            !(write && self.spec_info().read_only) && sector + num_sectors <= self.spec_info().total_sectors ==> (
            match r {
                Ok(s) => s.slot < MAX_IN_FLIGHT && !self.active(s.slot as int) && (forall|j: int|
                    0 <= j < s.slot ==> self.active(j)) && s.desc_idx == s.slot * 3 && s.header == (
                VirtioBlkReqHeader {
                    req_type: if write {
                        TYPE_OUT
                    } else {
                        TYPE_IN
                    },
                    reserved: 0,
                    sector,
                }) && s.header_phys == self.areas().0 + s.slot * HEADER_SIZE && s.status_phys
                    == self.areas().1 + s.slot,
                Err(e) => e == BlockError::QueueFull && forall|j: int| 0 <= j < MAX_IN_FLIGHT ==> self.active(j),
            }),
    {
        if write && self.info.read_only {
            return Err(BlockError::ReadOnly);
        }
        if sector > self.info.total_sectors || num_sectors as u64 > self.info.total_sectors - sector {
            return Err(BlockError::InvalidSector);
        }
        let slot = match self.free_slot() {
            Some(s) => s,
            None => return Err(BlockError::QueueFull),
        };
        Ok(
            BlkSubmission {
                slot: slot as u32,
                desc_idx: (slot * 3) as u16,
                header: VirtioBlkReqHeader {
                    req_type: if write {
                        TYPE_OUT
                    } else {
                        TYPE_IN
                    },
                    reserved: 0,
                    sector,
                },
                header_phys: self.header_phys(slot),
                status_phys: self.status_phys(slot),
            },
        )
    }

    /// Record that the request of `slot` was submitted for `request_id`.
    pub fn record_submission(&mut self, slot: u32, desc_idx: u16, request_id: u32)
        requires
            old(self).wf(),
            slot < MAX_IN_FLIGHT,
        ensures
            final(self).wf(),
            final(self).active(slot as int),
            final(self).request_of(slot as int) == request_id,
            forall|i: int| 0 <= i < MAX_IN_FLIGHT && i != slot ==> final(self).active(i) == old(self).active(i)
                && final(self).request_of(i) == old(self).request_of(i),
            final(self).spec_info() == old(self).spec_info(),
            final(self).spec_features() == old(self).spec_features(),
            final(self).areas() == old(self).areas(),
    {
        self.in_flight.set(slot as usize, InFlightRequest { request_id, desc_idx, active: true });
    }

    /// The completion of a used descriptor chain whose status byte reads
    /// `status`: the request of its slot, which is freed; `None` when the
    /// chain is no request in flight.
    pub fn complete(&mut self, poll: BlkPollResult, status: u8) -> (r: Option<BlockCompletion>)
        requires
            old(self).wf(),
        ensures
            final(self).wf(),
            final(self).spec_info() == old(self).spec_info(),
            final(self).spec_features() == old(self).spec_features(),
            final(self).areas() == old(self).areas(),
            ({
                let s = poll.desc_idx / 3;
                if s < MAX_IN_FLIGHT && old(self).active(s as int) {
                    &&& r == Some(
                        BlockCompletion {
                            request_id: old(self).request_of(s as int),
                            status,
                            bytes_transferred: poll.bytes_written,
                        },
                    )
                    &&& !final(self).active(s as int)
                    &&& forall|i: int| 0 <= i < MAX_IN_FLIGHT && i != s ==> final(self).active(i) == old(self).active(i)
                        && final(self).request_of(i) == old(self).request_of(i)
                } else {
                    &&& r is None
                    &&& forall|i: int| 0 <= i < MAX_IN_FLIGHT ==> final(self).active(i) == old(self).active(i)
                        && final(self).request_of(i) == old(self).request_of(i)
                }
            }),
    {
        let slot = (poll.desc_idx / 3) as usize;
        if slot >= MAX_IN_FLIGHT {
            return None;
        }
        if !self.in_flight[slot].active {
            return None;
        }
        let mut entry = self.in_flight[slot];
        let request_id = entry.request_id;
        entry.active = false;
        self.in_flight.set(slot, entry);
        Some(BlockCompletion { request_id, status, bytes_transferred: poll.bytes_written })
    }

    /// Flush: refused unless the flush feature was negotiated.
    pub fn flush(&self) -> (r: Result<(), BlockError>)
        ensures
            r == (if self.spec_features() & VIRTIO_BLK_F_FLUSH == 0 {
                Err(BlockError::Unsupported)
            } else {
                Ok(())
            }),
    {
        if self.features & VIRTIO_BLK_F_FLUSH == 0 {
            Err(BlockError::Unsupported)
        } else {
            Ok(())
        }
    }
}

impl BlockDriverInit for VirtioBlkDriver {
    open spec fn vendor_ids() -> Seq<u16> {
        seq![0x1AF4u16]
    }

    open spec fn device_ids() -> Seq<u16> {
        seq![0x1001u16, 0x1042u16]
    }

    fn supported_vendors() -> (r: &'static [u16]) {
        let r: &'static [u16] = &[0x1AF4];
        assert(r@ =~= seq![0x1AF4u16]);
        r
    }

    fn supported_devices() -> (r: &'static [u16]) {
        let r: &'static [u16] = &[0x1001, 0x1042];
        assert(r@ =~= seq![0x1001u16, 0x1042u16]);
        r
    }
}

} // verus!
