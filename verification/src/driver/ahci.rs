//! AHCI (SATA) block driver bookkeeping: configuration checks, port
//! selection, command-slot allocation and request tracking.
//!
//! The register accesses themselves are done by the caller; this module
//! decides which port to use, which command slot a request gets, and what a
//! completion reports.

use super::block_traits::{BlockCompletion, BlockDeviceInfo, BlockDriverInit, BlockError};
use vstd::prelude::*;

verus! {

/// Intel PCI Vendor ID
pub const INTEL_VENDOR_ID: u16 = 0x8086;

/// Wildcat Point-LP SATA Controller (ThinkPad T450s)
pub const AHCI_DEVICE_WPT_LP: u16 = 0x9C83;


/// PCI Class code for SATA AHCI controller
pub const PCI_CLASS_SATA_AHCI: u32 = 0x010601;

/// Maximum command slots we support
pub const MAX_CMD_SLOTS: usize = 32;

/// Detection status values
pub const DET_NONE: u32 = 0;

pub const DET_PRESENT: u32 = 1;

pub const DET_PHY_COMM: u32 = 3;

/// Device signatures
pub const SIG_ATA: u32 = 0x00000101;

pub const SIG_ATAPI: u32 = 0xEB140101;

/// Size of one command header in the command list.
pub const CMD_HEADER_SIZE: u64 = 32;

/// Size of one command table.
pub const CMD_TABLE_SIZE: u64 = 256;

/// AHCI driver configuration: DMA buffer addresses.
#[derive(Debug, Clone, Copy)]
pub struct AhciConfig {
    /// TSC frequency for timeouts
    pub tsc_freq: u64,
    /// Command List: CPU address (1K aligned, 1KB)
    pub cmd_list_cpu: u64,
    /// Command List: Physical/bus address
    pub cmd_list_phys: u64,
    /// FIS Receive buffer: CPU address (256-byte aligned, 256 bytes)
    pub fis_cpu: u64,
    /// FIS Receive buffer: Physical/bus address
    pub fis_phys: u64,
    /// Command Tables: CPU address (128-byte aligned, 256 bytes per slot)
    pub cmd_tables_cpu: u64,
    /// Command Tables: Physical/bus address
    pub cmd_tables_phys: u64,
    /// IDENTIFY buffer: CPU address (512 bytes for IDENTIFY data)
    pub identify_cpu: u64,
    /// IDENTIFY buffer: Physical/bus address
    pub identify_phys: u64,
}

/// AHCI driver initialization errors.
#[derive(Debug, Clone, Copy, PartialEq, Eq, Structural)]
pub enum AhciInitError {
    /// Invalid configuration parameters
    InvalidConfig,
    /// HBA reset failed/timed out
    ResetFailed,
    /// No SATA device found on any port
    NoDeviceFound,
    /// Port stop timed out
    PortStopTimeout,
    /// Port start failed
    PortStartFailed,
    /// IDENTIFY DEVICE command failed
    IdentifyFailed,
    /// HBA doesn't support 64-bit addressing but addresses are >4GB
    No64BitSupport,
    /// Device not responding
    DeviceNotResponding,
    /// DMA setup failed
    DmaSetupFailed,
}

impl AhciInitError {
    /// Human-readable description.
    pub fn message(&self) -> (r: &'static str)
        ensures
            r@ == match *self {
                AhciInitError::InvalidConfig => "Invalid AHCI configuration"@,
                AhciInitError::ResetFailed => "AHCI HBA reset failed"@,
                AhciInitError::NoDeviceFound => "No SATA device found"@,
                AhciInitError::PortStopTimeout => "Port stop timed out"@,
                AhciInitError::PortStartFailed => "Port start failed"@,
                AhciInitError::IdentifyFailed => "IDENTIFY DEVICE failed"@,
                AhciInitError::No64BitSupport => "64-bit addressing not supported"@,
                AhciInitError::DeviceNotResponding => "Device not responding"@,
                AhciInitError::DmaSetupFailed => "DMA setup failed"@,
            },
    {
        match self {
            AhciInitError::InvalidConfig => "Invalid AHCI configuration",
            AhciInitError::ResetFailed => "AHCI HBA reset failed",
            AhciInitError::NoDeviceFound => "No SATA device found",
            AhciInitError::PortStopTimeout => "Port stop timed out",
            AhciInitError::PortStartFailed => "Port start failed",
            AhciInitError::IdentifyFailed => "IDENTIFY DEVICE failed",
            AhciInitError::No64BitSupport => "64-bit addressing not supported",
            AhciInitError::DeviceNotResponding => "Device not responding",
            AhciInitError::DmaSetupFailed => "DMA setup failed",
        }
    }
}

/// Port detection status.
#[derive(Debug, Clone, Copy, PartialEq, Eq, Structural)]
pub enum PortDetection {
    /// No device detected
    NoDevice,
    /// Device present but no PHY communication
    Present,
    /// Device present and PHY communication established
    Ready,
    /// PHY in offline mode
    Offline,
}

/// Detection state of the DET field (low four bits) of PxSSTS.
pub open spec fn detection_of(det: u32) -> PortDetection {
    let d = det % 16;
    if d == 1 {
        PortDetection::Present
    } else if d == 3 {
        PortDetection::Ready
    } else if d == 4 {
        PortDetection::Offline
    } else {
        PortDetection::NoDevice
    }
}

impl From<u32> for PortDetection {
    fn from(det: u32) -> (r: Self) {
        let d = det & 0x0F;
        assert(det & 0x0F == det % 16) by (bit_vector);
        if d == 0 {
            PortDetection::NoDevice
        } else if d == 1 {
            PortDetection::Present
        } else if d == 3 {
            PortDetection::Ready
        } else if d == 4 {
            PortDetection::Offline
        } else {
            PortDetection::NoDevice
        }
    }
}

impl vstd::std_specs::convert::FromSpecImpl<u32> for PortDetection {
    open spec fn obeys_from_spec() -> bool {
        true
    }

    open spec fn from_spec(det: u32) -> PortDetection {
        detection_of(det)
    }
}

/// Device type detected from signature.
#[derive(Debug, Clone, Copy, PartialEq, Eq, Structural)]
pub enum DeviceType {
    /// ATA hard drive or SSD
    Ata,
    /// ATAPI device (CD/DVD)
    Atapi,
    /// Enclosure Management Bridge
    Semb,
    /// Port Multiplier
    PortMultiplier,
    /// Unknown device type
    Unknown(u32),
}

/// Device type named by a port signature.
pub open spec fn device_type_of(sig: u32) -> DeviceType {
    if sig == 0x00000101 {
        DeviceType::Ata
    } else if sig == 0xEB140101 {
        DeviceType::Atapi
    } else if sig == 0xC33C0101 {
        DeviceType::Semb
    } else if sig == 0x96690101 {
        DeviceType::PortMultiplier
    } else {
        DeviceType::Unknown(sig)
    }
}

impl From<u32> for DeviceType {
    fn from(sig: u32) -> (r: Self) {
        if sig == 0x00000101 {
            DeviceType::Ata
        } else if sig == 0xEB140101 {
            DeviceType::Atapi
        } else if sig == 0xC33C0101 {
            DeviceType::Semb
        } else if sig == 0x96690101 {
            DeviceType::PortMultiplier
        } else {
            DeviceType::Unknown(sig)
        }
    }
}

impl vstd::std_specs::convert::FromSpecImpl<u32> for DeviceType {
    open spec fn obeys_from_spec() -> bool {
        true
    }

    open spec fn from_spec(sig: u32) -> DeviceType {
        device_type_of(sig)
    }
}

/// SATA link speed.
#[derive(Debug, Clone, Copy, PartialEq, Eq, Structural)]
pub enum LinkSpeed {
    /// No speed negotiated
    NoLink,
    /// SATA Gen1 (1.5 Gbps)
    Gen1,
    /// SATA Gen2 (3.0 Gbps)
    Gen2,
    /// SATA Gen3 (6.0 Gbps)
    Gen3,
}

/// Link speed of the SPD field (bits 7:4) of PxSSTS.
pub open spec fn link_speed_of(ssts: u32) -> LinkSpeed {
    let s = (ssts / 16) % 16;
    if s == 1 {
        LinkSpeed::Gen1
    } else if s == 2 {
        LinkSpeed::Gen2
    } else if s == 3 {
        LinkSpeed::Gen3
    } else {
        LinkSpeed::NoLink
    }
}

impl From<u32> for LinkSpeed {
    fn from(spd: u32) -> (r: Self) {
        let s = (spd >> 4) & 0x0F;
        assert((spd >> 4) & 0x0F == (spd / 16) % 16) by (bit_vector);
        if s == 0 {
            LinkSpeed::NoLink
        } else if s == 1 {
            LinkSpeed::Gen1
        } else if s == 2 {
            LinkSpeed::Gen2
        } else if s == 3 {
            LinkSpeed::Gen3
        } else {
            LinkSpeed::NoLink
        }
    }
}

impl vstd::std_specs::convert::FromSpecImpl<u32> for LinkSpeed {
    open spec fn obeys_from_spec() -> bool {
        true
    }

    open spec fn from_spec(ssts: u32) -> LinkSpeed {
        link_speed_of(ssts)
    }
}

/// Port status information.
#[derive(Debug, Clone, Copy)]
pub struct PortStatus {
    /// Detection status
    pub detection: PortDetection,
    /// Link speed
    pub speed: LinkSpeed,
    /// Device type (from signature)
    pub device_type: DeviceType,
    /// Is device busy
    pub busy: bool,
    /// Data request pending
    pub drq: bool,
    /// Error occurred
    pub error: bool,
}

/// Checks the DMA configuration before the controller is touched: the
/// command list and FIS buffers must be given, and addresses above 4 GiB need
/// 64-bit support.
pub fn check_config(config: &AhciConfig, supports_64bit: bool) -> (r: Result<(), AhciInitError>)
    ensures
        r == (if config.cmd_list_cpu == 0 || config.fis_cpu == 0 {
            Err(AhciInitError::InvalidConfig)
        } else if !supports_64bit && config.cmd_list_phys >= 0x1_0000_0000 {
            Err(AhciInitError::No64BitSupport)
        } else {
            Ok(())
        }),
{
    if config.cmd_list_cpu == 0 || config.fis_cpu == 0 {
        return Err(AhciInitError::InvalidConfig);
    }
    let phys = config.cmd_list_phys;
    let hi = phys >> 32;
    assert(hi == 0 <==> phys < 0x1_0000_0000) by (bit_vector)
        requires
            hi == phys >> 32,
    ;
    if !supports_64bit && hi != 0 {
        return Err(AhciInitError::No64BitSupport);
    }
    Ok(())
}

/// Port `p` is implemented, has PHY communication and an ATA signature.
pub open spec fn port_usable(ports_impl: u32, det: Seq<u32>, sig: Seq<u32>, p: int) -> bool {
    &&& (ports_impl >> (p as u32)) % 2 == 1
    &&& det[p] == DET_PHY_COMM
    &&& sig[p] == SIG_ATA
}

/// The first port with an attached ATA device, given the implemented-ports
/// mask and each port's detection status and signature.
pub fn first_ata_port(ports_impl: u32, det: &[u32], sig: &[u32]) -> (r: Option<u32>)
    requires
        det@.len() == 32,
        sig@.len() == 32,
    ensures
        match r {
            Some(p) => p < 32 && port_usable(ports_impl, det@, sig@, p as int) && forall|q: int|
                0 <= q < p ==> !port_usable(ports_impl, det@, sig@, q),
            None => forall|q: int| 0 <= q < 32 ==> !port_usable(ports_impl, det@, sig@, q),
        },
{
    let mut port: u32 = 0;
    while port < 32
        invariant
            port <= 32,
            det@.len() == 32,
            sig@.len() == 32,
            forall|q: int| 0 <= q < port ==> !port_usable(ports_impl, det@, sig@, q),
        decreases 32 - port,
    {
        let bit = (ports_impl >> port) & 1;
        assert(bit == (ports_impl >> port) % 2) by (bit_vector)
            requires
                bit == (ports_impl >> port) & 1,
        ;
        if bit != 0 && det[port as usize] == DET_PHY_COMM && sig[port as usize] == SIG_ATA {
            return Some(port);
        }
        port += 1;
    }
    None
}

/// Major and minor version numbers of the VS register.
pub fn version_of(vs: u32) -> (r: (u8, u8))
    ensures
        r.0 == (vs / 0x10000) % 256,
        r.1 == (vs / 0x100) % 256,
{
    let major = ((vs >> 16) & 0xFF) as u8;
    let minor = ((vs >> 8) & 0xFF) as u8;
    assert((vs >> 16) & 0xFF == (vs / 0x10000) % 256) by (bit_vector);
    assert((vs >> 8) & 0xFF == (vs / 0x100) % 256) by (bit_vector);
    (major, minor)
}

/// Track an in-flight request.
#[derive(Debug, Clone, Copy)]
struct InFlightRequest {
    /// Caller's request ID
    request_id: u32,
    /// Command slot used
    slot: u8,
    /// Is this slot in use?
    active: bool,
}

/// AHCI block device driver state.
///
/// Supports Intel SATA controllers in AHCI mode.
pub struct AhciDriver {
    /// AHCI Base Address Register (BAR5 mapped)
    abar: u64,
    /// Active port number (first detected SATA device)
    port_num: u32,
    /// Calibrated TSC frequency
    tsc_freq: u64,
    /// Device information
    info: BlockDeviceInfo,
    /// Number of available command slots
    num_slots: u32,
    /// In-flight request tracking
    in_flight: Vec<InFlightRequest>,
    /// Next slot to use (round-robin)
    next_slot: u8,
    /// DMA buffer addresses
    config: AhciConfig,
}

/// Slot `(start + k) mod n`, the `k`-th visited by a round-robin scan.
pub open spec fn rr_slot(start: int, n: int, k: int) -> int {
    (start + k) % n
}

impl AhciDriver {
    /// Slot table and round-robin cursor are within the slot count, and the
    /// command areas fit in the address space.
    pub closed spec fn wf(&self) -> bool {
        &&& self.in_flight@.len() == MAX_CMD_SLOTS
        &&& 1 <= self.num_slots <= MAX_CMD_SLOTS
        &&& self.next_slot < self.num_slots
        &&& self.config.cmd_list_cpu + CMD_HEADER_SIZE * MAX_CMD_SLOTS <= u64::MAX
        &&& self.config.cmd_tables_cpu + CMD_TABLE_SIZE * MAX_CMD_SLOTS <= u64::MAX
        &&& self.config.cmd_tables_phys + CMD_TABLE_SIZE * MAX_CMD_SLOTS <= u64::MAX
    }

    /// Whether command slot `i` holds a request.
    pub closed spec fn active(&self, i: int) -> bool {
        self.in_flight@[i].active
    }

    /// Request ID held by command slot `i`.
    pub closed spec fn request_of(&self, i: int) -> u32 {
        self.in_flight@[i].request_id
    }

    pub closed spec fn spec_num_slots(&self) -> int {
        self.num_slots as int
    }

    pub closed spec fn spec_next_slot(&self) -> int {
        self.next_slot as int
    }

    pub closed spec fn spec_info(&self) -> BlockDeviceInfo {
        self.info
    }

    pub closed spec fn spec_abar(&self) -> u64 {
        self.abar
    }

    pub closed spec fn spec_port(&self) -> u32 {
        self.port_num
    }

    pub closed spec fn spec_config(&self) -> AhciConfig {
        self.config
    }

    /// Driver state for a controller whose port `port_num` was started and
    /// identified: all command slots free, round-robin at slot 0.
    pub fn from_parts(
        abar: u64,
        port_num: u32,
        config: AhciConfig,
        num_slots: u32,
        total_sectors: u64,
        sector_size: u32,
    ) -> (r: Self)
        requires
            1 <= num_slots <= MAX_CMD_SLOTS,
            config.cmd_list_cpu + CMD_HEADER_SIZE * MAX_CMD_SLOTS <= u64::MAX,
            config.cmd_tables_cpu + CMD_TABLE_SIZE * MAX_CMD_SLOTS <= u64::MAX,
            config.cmd_tables_phys + CMD_TABLE_SIZE * MAX_CMD_SLOTS <= u64::MAX,
        ensures
            r.wf(),
            r.spec_port() == port_num,
            r.spec_num_slots() == num_slots,
            r.spec_next_slot() == 0,
            r.spec_config() == config,
            r.spec_info() == (BlockDeviceInfo {
                total_sectors,
                sector_size,
                max_sectors_per_request: 256,
                read_only: false,
            }),
            forall|i: int| 0 <= i < MAX_CMD_SLOTS ==> !r.active(i),
    {
        let mut in_flight: Vec<InFlightRequest> = Vec::new();
        let mut i: usize = 0;
        while i < MAX_CMD_SLOTS
            invariant
                i <= MAX_CMD_SLOTS,
                in_flight@.len() == i,
                forall|j: int| 0 <= j < i ==> !(#[trigger] in_flight@[j]).active,
            decreases MAX_CMD_SLOTS - i,
        {
            in_flight.push(InFlightRequest { request_id: 0, slot: 0, active: false });
            i += 1;
        }
        AhciDriver {
            abar,
            port_num,
            tsc_freq: config.tsc_freq,
            info: BlockDeviceInfo {
                total_sectors,
                sector_size,
                max_sectors_per_request: 256,
                read_only: false,
            },
            num_slots,
            in_flight,
            next_slot: 0,
            config,
        }
    }

    /// Get port number being used
    pub fn port(&self) -> (r: u32)
        ensures
            r == self.spec_port(),
    {
        self.port_num
    }

    /// AHCI base address.
    pub fn abar(&self) -> (r: u64)
        ensures
            r == self.spec_abar(),
    {
        self.abar
    }

    /// Device information.
    pub fn info(&self) -> (r: BlockDeviceInfo)
        ensures
            r == self.spec_info(),
    {
        self.info
    }

    /// Address of the command header of `slot` (each is 32 bytes).
    pub fn cmd_header_addr(&self, slot: u32) -> (r: u64)
        requires
            self.wf(),
            slot < MAX_CMD_SLOTS,
        ensures
            r == self.spec_config().cmd_list_cpu + slot * CMD_HEADER_SIZE,
    {
        self.config.cmd_list_cpu + (slot as u64) * CMD_HEADER_SIZE
    }

    /// Address of the command table of `slot` (each is 256 bytes).
    pub fn cmd_table_addr(&self, slot: u32) -> (r: u64)
        requires
            self.wf(),
            slot < MAX_CMD_SLOTS,
        ensures
            r == self.spec_config().cmd_tables_cpu + slot * CMD_TABLE_SIZE,
    {
        self.config.cmd_tables_cpu + (slot as u64) * CMD_TABLE_SIZE
    }

    /// Physical address of the command table of `slot`.
    pub fn cmd_table_phys(&self, slot: u32) -> (r: u64)
        requires
            self.wf(),
            slot < MAX_CMD_SLOTS,
        ensures
            r == self.spec_config().cmd_tables_phys + slot * CMD_TABLE_SIZE,
    {
        self.config.cmd_tables_phys + (slot as u64) * CMD_TABLE_SIZE
    }

    /// Some command slot is free.
    pub fn can_submit(&self) -> (r: bool)
        requires
            self.wf(),
        ensures
            r == exists|i: int| 0 <= i < MAX_CMD_SLOTS && !self.active(i),
    {
        let mut i: usize = 0;
        while i < MAX_CMD_SLOTS
            invariant
                i <= MAX_CMD_SLOTS,
                self.in_flight@.len() == MAX_CMD_SLOTS,
                forall|j: int| 0 <= j < i ==> self.active(j),
            decreases MAX_CMD_SLOTS - i,
        {
            if !self.in_flight[i].active {
                assert(!self.active(i as int));
                return true;
            }
            i += 1;
        }
        false
    }

    /// Allocate a command slot: the first free slot in round-robin order
    /// from `next_slot`, which moves past every slot looked at.
    pub fn alloc_slot(&mut self) -> (r: Option<u32>)
        requires
            old(self).wf(),
        ensures
            final(self).wf(),
            forall|i: int| 0 <= i < MAX_CMD_SLOTS ==> final(self).active(i) == old(self).active(i)
                && final(self).request_of(i) == old(self).request_of(i),
            final(self).spec_num_slots() == old(self).spec_num_slots(),
            final(self).spec_info() == old(self).spec_info(),
            final(self).spec_port() == old(self).spec_port(),
            final(self).spec_config() == old(self).spec_config(),
            match r {
                Some(s) => exists|k: int|
                    #![trigger rr_slot(old(self).spec_next_slot(), old(self).spec_num_slots(), k)]
                    0 <= k < old(self).spec_num_slots() && s == rr_slot(
                        old(self).spec_next_slot(),
                        old(self).spec_num_slots(),
                        k,
                    ) && !old(self).active(s as int) && (forall|j: int|
                        0 <= j < k ==> old(self).active(
                            #[trigger] rr_slot(
                                old(self).spec_next_slot(),
                                old(self).spec_num_slots(),
                                j,
                            ),
                        )) && final(self).spec_next_slot() == rr_slot(
                        old(self).spec_next_slot(),
                        old(self).spec_num_slots(),
                        k + 1,
                    ),
                None => (forall|j: int|
                    0 <= j < old(self).spec_num_slots() ==> old(self).active(
                        #[trigger] rr_slot(
                            old(self).spec_next_slot(),
                            old(self).spec_num_slots(),
                            j,
                        ),
                    )) && final(self).spec_next_slot() == old(self).spec_next_slot(),
            },
    {
        let ghost start = self.next_slot as int;
        let ghost n = self.num_slots as int;
        let mut k: u32 = 0;
        assert(rr_slot(start, n, 0) == start) by (nonlinear_arith)
            requires
                0 <= start < n,
        ;
        while k < self.num_slots
            invariant
                0 <= k <= n,
                n == self.num_slots,
                1 <= n <= MAX_CMD_SLOTS,
                self.in_flight@.len() == MAX_CMD_SLOTS,
                self.in_flight@ == old(self).in_flight@,
                self.num_slots == old(self).num_slots,
                self.info == old(self).info,
                self.port_num == old(self).port_num,
                self.config == old(self).config,
                self.abar == old(self).abar,
                self.tsc_freq == old(self).tsc_freq,
                start == old(self).next_slot,
                self.next_slot < n,
                self.next_slot == rr_slot(start, n, k as int),
                forall|j: int| 0 <= j < k ==> old(self).active(#[trigger] rr_slot(start, n, j)),
                self.config.cmd_list_cpu + CMD_HEADER_SIZE * MAX_CMD_SLOTS <= u64::MAX,
                self.config.cmd_tables_cpu + CMD_TABLE_SIZE * MAX_CMD_SLOTS <= u64::MAX,
                self.config.cmd_tables_phys + CMD_TABLE_SIZE * MAX_CMD_SLOTS <= u64::MAX,
            decreases n - k,
        {
            let slot = self.next_slot as u32;
            let next = ((self.next_slot as u32 + 1) % self.num_slots) as u8;
            proof {
                assert((start + k + 1) % n == ((start + k) % n + 1) % n) by (nonlinear_arith)
                    requires
                        n > 0,
                        start >= 0,
                        k >= 0,
                ;
            }
            self.next_slot = next;
            if !self.in_flight[slot as usize].active {
                assert(slot == rr_slot(start, n, k as int));
                assert(self.next_slot == rr_slot(start, n, k + 1));
                assert(!old(self).active(slot as int));
                let ghost kk: int = k as int;
                assert(0 <= kk < old(self).spec_num_slots() && slot == rr_slot(
                    old(self).spec_next_slot(),
                    old(self).spec_num_slots(),
                    kk,
                ) && !old(self).active(slot as int) && (forall|j: int|
                    0 <= j < kk ==> old(self).active(
                        #[trigger] rr_slot(old(self).spec_next_slot(), old(self).spec_num_slots(), j),
                    )) && self.spec_next_slot() == rr_slot(
                    old(self).spec_next_slot(),
                    old(self).spec_num_slots(),
                    kk + 1,
                ));
                return Some(slot);
            }
            k += 1;
        }
        proof {
            assert(rr_slot(start, n, n) == start) by (nonlinear_arith)
                requires
                    n > 0,
                    0 <= start < n,
            ;
        }
        None
    }

    /// Checks a request against the device, then allocates a command slot
    /// for it: the checks of `submit_read` and `submit_write` before the
    /// command is issued.
    pub fn begin_request(&mut self, sector: u64, num_sectors: u32, write: bool) -> (r: Result<u32, BlockError>)
        requires
            old(self).wf(),
        ensures
            final(self).wf(),
            final(self).spec_num_slots() == old(self).spec_num_slots(),
            final(self).spec_info() == old(self).spec_info(),
            final(self).spec_port() == old(self).spec_port(),
            final(self).spec_config() == old(self).spec_config(),
            forall|i: int| 0 <= i < MAX_CMD_SLOTS ==> final(self).active(i) == old(self).active(i)
                && final(self).request_of(i) == old(self).request_of(i),
            write && old(self).spec_info().read_only ==> r == Err::<u32, BlockError>(BlockError::ReadOnly),
            !(write && old(self).spec_info().read_only) ==> {
                if sector + num_sectors > old(self).spec_info().total_sectors {
                    r == Err::<u32, BlockError>(BlockError::InvalidSector)
                } else if num_sectors > old(self).spec_info().max_sectors_per_request {
                    r == Err::<u32, BlockError>(BlockError::RequestTooLarge)
                } else {
                    &&& (r is Err ==> r == Err::<u32, BlockError>(BlockError::QueueFull) && forall|i: int|
                        0 <= i < MAX_CMD_SLOTS ==> old(self).active(i) || i >= old(self).spec_num_slots())
                    &&& (r matches Ok(s) ==> s < old(self).spec_num_slots() && !old(self).active(s as int))
                }
            },
    {
        if write && self.info.read_only {
            return Err(BlockError::ReadOnly);
        }
        if sector > self.info.total_sectors || num_sectors as u64 > self.info.total_sectors - sector {
            return Err(BlockError::InvalidSector);
        }
        if num_sectors > self.info.max_sectors_per_request {
            return Err(BlockError::RequestTooLarge);
        }
        let ghost before = *self;
        match self.alloc_slot() {
            Some(s) => {
                proof {
                    let k = choose|k: int|
                        #![trigger rr_slot(before.spec_next_slot(), before.spec_num_slots(), k)]
                        0 <= k < before.spec_num_slots() && s == rr_slot(
                            before.spec_next_slot(),
                            before.spec_num_slots(),
                            k,
                        ) && !before.active(s as int) && (forall|j: int|
                            0 <= j < k ==> before.active(
                                #[trigger] rr_slot(
                                    before.spec_next_slot(),
                                    before.spec_num_slots(),
                                    j,
                                ),
                            )) && self.spec_next_slot() == rr_slot(
                            before.spec_next_slot(),
                            before.spec_num_slots(),
                            k + 1,
                        );
                    assert(s < before.spec_num_slots());
                }
                Ok(s)
            },
            None => {
                proof {
                    assert forall|i: int|
                        0 <= i < MAX_CMD_SLOTS implies before.active(i) || i >= before.spec_num_slots() by {
                        if i < before.spec_num_slots() {
                            let n = before.spec_num_slots();
                            let st = before.spec_next_slot();
                            let j = if i >= st { i - st } else { i + n - st };
                            assert(rr_slot(st, n, j) == i) by (nonlinear_arith)
                                requires
                                    0 <= st < n,
                                    0 <= i < n,
                                    j == (if i >= st { i - st } else { i + n - st }),
                            ;
                            assert(before.active(rr_slot(st, n, j)));
                        }
                    }
                }
                Err(BlockError::QueueFull)
            },
        }
    }

    /// Records that the command in `slot` was issued for `request_id`.
    pub fn record_submission(&mut self, slot: u32, request_id: u32)
        requires
            old(self).wf(),
            slot < MAX_CMD_SLOTS,
        ensures
            final(self).wf(),
            final(self).active(slot as int),
            final(self).request_of(slot as int) == request_id,
            forall|i: int| 0 <= i < MAX_CMD_SLOTS && i != slot ==> final(self).active(i) == old(self).active(i)
                && final(self).request_of(i) == old(self).request_of(i),
            final(self).spec_num_slots() == old(self).spec_num_slots(),
            final(self).spec_next_slot() == old(self).spec_next_slot(),
            final(self).spec_info() == old(self).spec_info(),
            final(self).spec_port() == old(self).spec_port(),
            final(self).spec_config() == old(self).spec_config(),
    {
        self.in_flight.set(slot as usize, InFlightRequest { request_id, slot: slot as u8, active: true });
    }

    /// Active command slots among the first `num_slots`, in ascending order:
    /// the slots whose completion is polled.
    pub fn active_slots(&self) -> (r: Vec<u32>)
        requires
            self.wf(),
        ensures
            forall|k: int| 0 <= k < r@.len() ==> r@[k] < self.spec_num_slots() && self.active(r@[k] as int),
            forall|i: int| 0 <= i < self.spec_num_slots() && #[trigger] self.active(i) ==> r@.contains(i as u32),
            forall|a: int, b: int| 0 <= a < b < r@.len() ==> r@[a] < r@[b],
    {
        let mut v: Vec<u32> = Vec::new();
        let mut i: u32 = 0;
        while i < self.num_slots
            invariant
                i <= self.num_slots <= MAX_CMD_SLOTS,
                self.in_flight@.len() == MAX_CMD_SLOTS,
                forall|k: int| 0 <= k < v@.len() ==> v@[k] < i && self.active(v@[k] as int),
                forall|j: int| 0 <= j < i && #[trigger] self.active(j) ==> v@.contains(j as u32),
                forall|a: int, b: int| 0 <= a < b < v@.len() ==> v@[a] < v@[b],
            decreases self.num_slots - i,
        {
            if self.in_flight[i as usize].active {
                let ghost before = v@;
                v.push(i);
                proof {
                    assert forall|j: int| 0 <= j < i + 1 && #[trigger] self.active(j) implies v@.contains(
                        j as u32,
                    ) by {
                        if j < i {
                            let t = choose|t: int| 0 <= t < before.len() && before[t] == j as u32;
                            assert(v@[t] == j as u32);
                        } else {
                            assert(v@[v@.len() - 1] == j as u32);
                        }
                    }
                }
            }
            i += 1;
        }
        v
    }

    /// Frees `slot` after the controller reported it done, and builds the
    /// completion: status 0 when the controller reported success (`1`), 1
    /// otherwise.
    pub fn finish_completion(&mut self, slot: u32, hw_status: u32, bytes_transferred: u32) -> (r: BlockCompletion)
        requires
            old(self).wf(),
            slot < MAX_CMD_SLOTS,
        ensures
            final(self).wf(),
            r == (BlockCompletion {
                request_id: old(self).request_of(slot as int),
                status: if hw_status == 1 { 0 } else { 1 },
                bytes_transferred,
            }),
            !final(self).active(slot as int),
            forall|i: int| 0 <= i < MAX_CMD_SLOTS && i != slot ==> final(self).active(i) == old(self).active(i)
                && final(self).request_of(i) == old(self).request_of(i),
            final(self).spec_num_slots() == old(self).spec_num_slots(),
            final(self).spec_next_slot() == old(self).spec_next_slot(),
            final(self).spec_info() == old(self).spec_info(),
            final(self).spec_port() == old(self).spec_port(),
            final(self).spec_config() == old(self).spec_config(),
    {
        let mut entry = self.in_flight[slot as usize];
        let request_id = entry.request_id;
        entry.active = false;
        self.in_flight.set(slot as usize, entry);
        BlockCompletion { request_id, status: if hw_status == 1 { 0 } else { 1 }, bytes_transferred }
    }
}

impl BlockDriverInit for AhciDriver {
    open spec fn vendor_ids() -> Seq<u16> {
        seq![0x8086u16]
    }

    open spec fn device_ids() -> Seq<u16> {
        seq![
            0x9C83u16,
            0x9C03u16,
            0x8C02u16,
            0x8C03u16,
            0xA102u16,
            0xA103u16,
            0xA282u16,
            0xA353u16,
            0x02D3u16,
            0xA0D3u16,
        ]
    }

    fn supported_vendors() -> (r: &'static [u16]) {
        let r: &'static [u16] = &[INTEL_VENDOR_ID];
        assert(r@ =~= seq![0x8086u16]);
        r
    }

    fn supported_devices() -> (r: &'static [u16]) {
        let r: &'static [u16] = &[
            0x9C83,
            0x9C03,
            0x8C02,
            0x8C03,
            0xA102,
            0xA103,
            0xA282,
            0xA353,
            0x02D3,
            0xA0D3,
        ];
        assert(r@ =~= Self::device_ids());
        r
    }
}

} // verus!
