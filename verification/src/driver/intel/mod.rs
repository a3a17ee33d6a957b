//! Intel e1000e family driver (82574L, 82577/9, I218, I219): device
//! identification, BAR decoding, the reset-and-bring-up sequence, PHY
//! register values and the RX/TX descriptor rings' bookkeeping.

pub mod bringup;
pub mod e1000e;
pub mod init;
pub mod phy;
pub mod regs;
pub mod rx;
pub mod tx;

pub use e1000e::{E1000eDriver, E1000eError};
pub use init::{E1000eConfig, E1000eInitError};

use crate::pci::config::PciAddr;
use vstd::prelude::*;

verus! {

pub const INTEL_VENDOR_ID: u16 = 0x8086;

pub const PCI_CLASS_NETWORK_ETHERNET: u32 = 0x0200_0000;

pub const PCI_CLASS_MASK: u32 = 0xFFFF_0000;

/// Device IDs of the supported e1000e parts: 82540EM (QEMU e1000), I218-LM,
/// I218-V, I218-LM (T450s), 82574L, 82577LM/LC, 82578DM/DC, I210, I211, and
/// the I219-LM/V generations.
pub open spec fn e1000e_device_ids() -> Seq<u16> {
    seq![
        0x100Eu16, 0x1502u16, 0x1503u16, 0x155Au16, 0x10D3u16, 0x10EAu16, 0x10EBu16, 0x10EFu16,
        0x10F0u16, 0x1533u16, 0x1539u16, 0x156Fu16, 0x1570u16, 0x15B7u16, 0x15B8u16, 0x15BBu16,
        0x15BCu16, 0x15BDu16, 0x15BEu16,
    ]
}

/// The supported device IDs.
pub fn e1000e_device_id_list() -> (r: &'static [u16])
    ensures
        r@ == e1000e_device_ids(),
{
    let r: &'static [u16] = &[
        0x100E, 0x1502, 0x1503, 0x155A, 0x10D3, 0x10EA, 0x10EB, 0x10EF, 0x10F0, 0x1533, 0x1539,
        0x156F, 0x1570, 0x15B7, 0x15B8, 0x15BB, 0x15BC, 0x15BD, 0x15BE,
    ];
    assert(r@ =~= e1000e_device_ids());
    r
}

/// An Intel part with a supported e1000e device ID.
pub fn is_supported_device(vendor_id: u16, device_id: u16) -> (r: bool)
    ensures
        r == (vendor_id == INTEL_VENDOR_ID && e1000e_device_ids().contains(device_id)),
{
    vendor_id == INTEL_VENDOR_ID && crate::driver::traits::id_listed(e1000e_device_id_list(), device_id)
}

/// A found e1000e NIC.
#[derive(Debug, Clone, Copy, PartialEq, Eq, Structural)]
pub struct IntelNicInfo {
    pub pci_addr: PciAddr,
    pub device_id: u16,
    pub mmio_base: u64,
    pub mmio_size: u32,
}

/// The configuration registers of one PCI function that the scan reads.
#[derive(Debug, Clone, Copy, PartialEq, Eq, Structural)]
pub struct PciFunctionHeader {
    pub addr: PciAddr,
    pub vendor_id: u16,
    pub device_id: u16,
    pub header_type: u16,
    pub class_code: u32,
    pub bar0: u32,
    pub bar1: u32,
    /// BAR0 read back after writing all ones to it (and before restoring
    /// it): the size probe, taken for NIC candidates.
    pub bar0_probe: u32,
}

/// The function is a supported Intel Ethernet controller with a memory
/// BAR0.
pub open spec fn nic_candidate(h: PciFunctionHeader) -> bool {
    &&& h.vendor_id == INTEL_VENDOR_ID
    &&& e1000e_device_ids().contains(h.device_id)
    &&& h.class_code & PCI_CLASS_MASK == PCI_CLASS_NETWORK_ETHERNET
    &&& h.bar0 & 1 == 0
}

/// Whether the function is a supported NIC with a memory BAR0.
pub fn is_nic_candidate(h: &PciFunctionHeader) -> (r: bool)
    ensures
        r == nic_candidate(*h),
{
    is_supported_device(h.vendor_id, h.device_id) && (h.class_code & PCI_CLASS_MASK) == PCI_CLASS_NETWORK_ETHERNET
        && h.bar0 & 0x01 == 0
}

/// MMIO base of a memory BAR0 (with BAR1 as high half when 64-bit).
pub open spec fn mmio_base_of(bar0: u32, bar1: u32) -> u64 {
    if bar0 & 0x06 == 0x04 {
        ((bar1 as u64) << 32u64) | ((bar0 & 0xFFFF_FFF0) as u64)
    } else {
        (bar0 & 0xFFFF_FFF0) as u64
    }
}

/// MMIO base of a memory BAR0 (with BAR1 as high half when 64-bit).
pub fn decode_mmio_base(bar0: u32, bar1: u32) -> (r: u64)
    ensures
        r == mmio_base_of(bar0, bar1),
{
    if (bar0 & 0x06) == 0x04 {
        ((bar1 as u64) << 32u64) | ((bar0 & 0xFFFF_FFF0) as u64)
    } else {
        (bar0 & 0xFFFF_FFF0) as u64
    }
}

/// Size of a BAR from its all-ones probe: 0 when the probe reads 0 or all
/// ones, else the two's complement of the address bits.
pub open spec fn bar_size_of(probe: u32) -> u32 {
    if probe == 0 || probe == 0xFFFF_FFFF {
        0
    } else {
        vstd::wrapping::u32_specs::wrapping_add(!(probe & 0xFFFF_FFF0), 1)
    }
}

/// Size of a BAR from its all-ones probe.
pub fn bar_size(probe: u32) -> (r: u32)
    ensures
        r == bar_size_of(probe),
{
    if probe == 0 || probe == 0xFFFF_FFFF {
        0
    } else {
        let mask = probe & 0xFFFF_FFF0;
        (!mask).wrapping_add(1)
    }
}

/// The NIC described by a candidate function.
pub open spec fn nic_info_of(h: PciFunctionHeader) -> IntelNicInfo {
    IntelNicInfo {
        pci_addr: h.addr,
        device_id: h.device_id,
        mmio_base: mmio_base_of(h.bar0, h.bar1),
        mmio_size: bar_size_of(h.bar0_probe),
    }
}

/// Index of the first NIC in a bus scan, from `i` on, given headers in scan
/// order (bus, device, function ascending) and the device whose remaining
/// functions are skipped: a missing function 0, or a non-Intel
/// single-function device at function 0, ends its device's scan.
pub open spec fn scan_from(hs: Seq<PciFunctionHeader>, i: int, skip: Option<(u8, u8)>) -> Option<int>
    decreases hs.len() - i,
{
    if i < 0 || i >= hs.len() {
        None
    } else {
        let h = hs[i];
        if skip == Some((h.addr.bus, h.addr.device)) {
            scan_from(hs, i + 1, skip)
        } else if h.vendor_id == 0xFFFF {
            scan_from(hs, i + 1, if h.addr.function == 0 { Some((h.addr.bus, h.addr.device)) } else { None })
        } else if h.vendor_id != INTEL_VENDOR_ID {
            scan_from(
                hs,
                i + 1,
                if h.addr.function == 0 && h.header_type & 0x80 == 0 {
                    Some((h.addr.bus, h.addr.device))
                } else {
                    None
                },
            )
        } else if !nic_candidate(h) {
            scan_from(hs, i + 1, None)
        } else {
            Some(i)
        }
    }
}

/// Returns the first matching e1000e device of a bus scan, given the
/// headers of the functions in scan order.
pub fn find_intel_nic(headers: &[PciFunctionHeader]) -> (r: Option<IntelNicInfo>)
    ensures
        r == (match scan_from(headers@, 0, None) {
            Some(i) => Some(nic_info_of(headers@[i])),
            None => None,
        }),
{
    let mut i: usize = 0;
    let mut skip: Option<(u8, u8)> = None;
    while i < headers.len()
        invariant
            i <= headers@.len(),
            scan_from(headers@, 0, None) == scan_from(headers@, i as int, skip),
        decreases headers.len() - i,
    {
        let h = headers[i];
        let same = match skip {
            Some((b, d)) => b == h.addr.bus && d == h.addr.device,
            None => false,
        };
        if same {
            i += 1;
        } else if h.vendor_id == 0xFFFF {
            skip = if h.addr.function == 0 {
                Some((h.addr.bus, h.addr.device))
            } else {
                None
            };
            i += 1;
        } else if h.vendor_id != INTEL_VENDOR_ID {
            skip = if h.addr.function == 0 && h.header_type & 0x80 == 0 {
                Some((h.addr.bus, h.addr.device))
            } else {
                None
            };
            i += 1;
        } else if !is_nic_candidate(&h) {
            skip = None;
            i += 1;
        } else {
            return Some(
                IntelNicInfo {
                    pci_addr: h.addr,
                    device_id: h.device_id,
                    mmio_base: decode_mmio_base(h.bar0, h.bar1),
                    mmio_size: bar_size(h.bar0_probe),
                },
            );
        }
    }
    None
}

/// Command register value with memory space and bus master enabled.
pub fn enable_device(command: u16) -> (r: u16)
    ensures
        r == command | 0x06,
{
    command | 0x06
}

/// The STATUS register reads like a live device: neither all ones (no
/// device) nor all zeros (dead).
pub fn validate_mmio_access(status: u32) -> (r: bool)
    ensures
        r == (status != 0xFFFF_FFFF && status != 0),
{
    status != 0xFFFF_FFFF && status != 0x0000_0000
}

} // verus!
