//! VirtIO transport addressing: MMIO and PCI Modern (capability based).
//! The register accesses themselves are the platform's part; the register
//! addresses, queue sizing and notification addresses are decided here.

use super::init::VirtioInitError;
use vstd::prelude::*;

verus! {

/// MMIO register offsets.
pub const MMIO_QUEUE_SEL: u64 = 0x030;

pub const MMIO_QUEUE_NUM_MAX: u64 = 0x034;

pub const MMIO_QUEUE_NUM: u64 = 0x038;

pub const MMIO_QUEUE_READY: u64 = 0x044;

pub const MMIO_QUEUE_NOTIFY: u64 = 0x050;

pub const MMIO_QUEUE_DESC_LOW: u64 = 0x080;

pub const MMIO_QUEUE_AVAIL_LOW: u64 = 0x090;

pub const MMIO_QUEUE_USED_LOW: u64 = 0x0A0;

/// Device-specific configuration space of an MMIO device.
pub const MMIO_DEVICE_CONFIG: u64 = 0x100;

/// Offset of `blk_size` in the virtio-blk configuration.
pub const BLK_SIZE_OFFSET: u64 = 20;

/// VirtIO transport type, determined at probe time.
#[derive(Debug, Clone, Copy, PartialEq, Eq, Structural)]
pub enum TransportType {
    /// VirtIO MMIO transport (direct register access)
    Mmio,
    /// VirtIO PCI Modern transport (capability-based)
    PciModern,
    /// VirtIO PCI Legacy transport (BAR0 I/O ports) - not supported
    PciLegacy,
}

/// Configuration for VirtIO PCI Modern transport.
#[derive(Debug, Clone, Copy, PartialEq, Eq, Structural)]
pub struct PciModernConfig {
    /// Base address of common_cfg (BAR + cap_offset)
    pub common_cfg: u64,
    /// Base address of notify_cfg (BAR + cap_offset)
    pub notify_cfg: u64,
    /// Notify offset multiplier (from capability)
    pub notify_off_multiplier: u32,
    /// Base address of isr_cfg (BAR + cap_offset)
    pub isr_cfg: u64,
    /// Base address of device_cfg (BAR + cap_offset)
    pub device_cfg: u64,
    /// Base address of pci_cfg (optional, for config space access)
    pub pci_cfg: u64,
}

impl Default for PciModernConfig {
    fn default() -> (r: Self)
        ensures
            r == (PciModernConfig {
                common_cfg: 0,
                notify_cfg: 0,
                notify_off_multiplier: 0,
                isr_cfg: 0,
                device_cfg: 0,
                pci_cfg: 0,
            }),
    {
        PciModernConfig {
            common_cfg: 0,
            notify_cfg: 0,
            notify_off_multiplier: 0,
            isr_cfg: 0,
            device_cfg: 0,
            pci_cfg: 0,
        }
    }
}

/// Unified VirtIO transport handle.
#[derive(Debug, Clone, Copy, PartialEq, Eq, Structural)]
pub struct VirtioTransport {
    /// Transport type
    pub transport_type: TransportType,
    /// For MMIO: the MMIO base address. For PCI Modern: common_cfg.
    pub base: u64,
    /// PCI Modern specific config (only meaningful for PCI Modern)
    pub pci_modern: PciModernConfig,
}

/// Queue size and notification address a queue was set up with.
#[derive(Debug, Clone, Copy, PartialEq, Eq, Structural)]
pub struct QueueSetup {
    pub size: u16,
    pub notify_addr: u64,
}

/// Where the notification of a queue goes: the fixed MMIO register, or for
/// PCI Modern `notify_cfg + queue_notify_off * notify_off_multiplier`; the
/// legacy transport has none (0).
pub open spec fn notify_addr_of(t: VirtioTransport, queue_notify_off: u32) -> int {
    match t.transport_type {
        TransportType::Mmio => t.base + MMIO_QUEUE_NOTIFY,
        TransportType::PciModern => t.pci_modern.notify_cfg + queue_notify_off
            * t.pci_modern.notify_off_multiplier,
        TransportType::PciLegacy => 0,
    }
}

impl VirtioTransport {
    /// MMIO transport at `mmio_base`.
    pub fn mmio(mmio_base: u64) -> (r: Self)
        ensures
            r.transport_type == TransportType::Mmio,
            r.base == mmio_base,
            r.pci_modern == (PciModernConfig {
                common_cfg: 0,
                notify_cfg: 0,
                notify_off_multiplier: 0,
                isr_cfg: 0,
                device_cfg: 0,
                pci_cfg: 0,
            }),
    {
        VirtioTransport {
            transport_type: TransportType::Mmio,
            base: mmio_base,
            pci_modern: PciModernConfig::default(),
        }
    }

    /// PCI Modern transport; its base is the common configuration.
    pub fn pci_modern(config: PciModernConfig) -> (r: Self)
        ensures
            r.transport_type == TransportType::PciModern,
            r.base == config.common_cfg,
            r.pci_modern == config,
    {
        VirtioTransport { transport_type: TransportType::PciModern, base: config.common_cfg, pci_modern: config }
    }

    /// Number of queues: what a PCI Modern device reports, 2 (RX and TX)
    /// for an MMIO net device.
    pub fn num_queues(&self, reported: u32) -> (r: u16)
        ensures
            self.transport_type == TransportType::PciModern ==> r == reported as u16,
            self.transport_type != TransportType::PciModern ==> r == 2,
    {
        match self.transport_type {
            TransportType::PciModern => reported as u16,
            _ => 2,
        }
    }

    /// Notification address of the selected queue, given its
    /// `queue_notify_off` (read from a PCI Modern device).
    pub fn get_notify_addr(&self, queue_notify_off: u32) -> (r: u64)
        requires
            0 <= notify_addr_of(*self, queue_notify_off) <= u64::MAX,
        ensures
            r == notify_addr_of(*self, queue_notify_off),
    {
        match self.transport_type {
            TransportType::Mmio => self.base + MMIO_QUEUE_NOTIFY,
            TransportType::PciModern => {
                let off = queue_notify_off as u64;
                let mult = self.pci_modern.notify_off_multiplier as u64;
                assert(off * mult <= 0xFFFF_FFFF * 0xFFFF_FFFF) by (nonlinear_arith)
                    requires
                        off <= 0xFFFF_FFFF,
                        mult <= 0xFFFF_FFFF,
                ;
                self.pci_modern.notify_cfg + off * mult
            },
            TransportType::PciLegacy => 0,
        }
    }

    /// Set up a queue: a device that offers no queue (maximum size 0)
    /// fails; otherwise the queue gets the smaller of the requested and the
    /// maximum size, and its notification address.
    pub fn setup_queue(&self, queue_size: u16, max_size: u16, queue_notify_off: u32) -> (r: Result<QueueSetup, VirtioInitError>)
        requires
            0 <= notify_addr_of(*self, queue_notify_off) <= u64::MAX,
        ensures
            max_size == 0 ==> r == Err::<QueueSetup, VirtioInitError>(VirtioInitError::QueueSetupFailed),
            max_size != 0 ==> r == Ok::<QueueSetup, VirtioInitError>(
                QueueSetup {
                    size: if queue_size < max_size { queue_size } else { max_size },
                    notify_addr: notify_addr_of(*self, queue_notify_off) as u64,
                },
            ),
    {
        if max_size == 0 {
            return Err(VirtioInitError::QueueSetupFailed);
        }
        let size = if queue_size < max_size { queue_size } else { max_size };
        let notify_addr = self.get_notify_addr(queue_notify_off);
        Ok(QueueSetup { size, notify_addr })
    }

    /// Where the 64-bit capacity of a virtio-blk device is read; `None`
    /// means it is taken as 0.
    pub fn blk_capacity_addr(&self) -> (r: Option<u64>)
        requires
            self.base + MMIO_DEVICE_CONFIG <= u64::MAX,
        ensures
            r == match self.transport_type {
                TransportType::Mmio => Some((self.base + MMIO_DEVICE_CONFIG) as u64),
                TransportType::PciModern => if self.pci_modern.device_cfg != 0 {
                    Some(self.pci_modern.device_cfg)
                } else {
                    None
                },
                TransportType::PciLegacy => None,
            },
    {
        match self.transport_type {
            TransportType::Mmio => Some(self.base + MMIO_DEVICE_CONFIG),
            TransportType::PciModern => if self.pci_modern.device_cfg != 0 {
                Some(self.pci_modern.device_cfg)
            } else {
                None
            },
            TransportType::PciLegacy => None,
        }
    }

    /// Where the 32-bit block size of a virtio-blk device is read; `None`
    /// means it is taken as 512.
    pub fn blk_size_addr(&self) -> (r: Option<u64>)
        requires
            self.base + MMIO_DEVICE_CONFIG + BLK_SIZE_OFFSET <= u64::MAX,
            self.pci_modern.device_cfg + BLK_SIZE_OFFSET <= u64::MAX,
        ensures
            r == match self.transport_type {
                TransportType::Mmio => Some((self.base + MMIO_DEVICE_CONFIG + BLK_SIZE_OFFSET) as u64),
                TransportType::PciModern => if self.pci_modern.device_cfg != 0 {
                    Some((self.pci_modern.device_cfg + BLK_SIZE_OFFSET) as u64)
                } else {
                    None
                },
                TransportType::PciLegacy => None,
            },
    {
        match self.transport_type {
            TransportType::Mmio => Some(self.base + MMIO_DEVICE_CONFIG + BLK_SIZE_OFFSET),
            TransportType::PciModern => if self.pci_modern.device_cfg != 0 {
                Some(self.pci_modern.device_cfg + BLK_SIZE_OFFSET)
            } else {
                None
            },
            TransportType::PciLegacy => None,
        }
    }

    /// Whether the MAC address can be read: an MMIO device is asked, a PCI
    /// Modern one needs its device configuration mapped.
    pub fn can_read_mac(&self) -> (r: bool)
        ensures
            r == match self.transport_type {
                TransportType::Mmio => true,
                TransportType::PciModern => self.pci_modern.device_cfg != 0,
                TransportType::PciLegacy => false,
            },
    {
        match self.transport_type {
            TransportType::Mmio => true,
            TransportType::PciModern => self.pci_modern.device_cfg != 0,
            TransportType::PciLegacy => false,
        }
    }
}

} // verus!
