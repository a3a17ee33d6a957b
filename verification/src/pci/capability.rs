//! PCI capability chain walking and VirtIO capability parsing, over a
//! snapshot of a function's configuration space.
//!
//! VirtIO PCI capability layout (VirtIO 1.2 §4.1.4):
//! ```text
//! offset+0:  cap_vndr  (u8)  = 0x09
//! offset+1:  cap_next  (u8)
//! offset+2:  cap_len   (u8)
//! offset+3:  cfg_type  (u8)  — 1=common, 2=notify, 3=isr, 4=device, 5=pci_cfg
//! offset+4:  bar       (u8)  — BAR index 0-5
//! offset+8:  offset    (u32) — offset within BAR
//! offset+12: length    (u32) — region length
//! offset+16: notify_off_multiplier (u32), notify capability only
//! ```

use super::config::{
    cfg16, cfg32, cfg8, cfg_read16, cfg_read32, cfg_read8, offset_plus, PciAddr, CAP_PTR,
    CONFIG_SPACE_SIZE, STATUS, STATUS_CAP_LIST,
};
use crate::mainloop::serial::{crlf_bytes, hex64_text, print, print_hex};
use vstd::prelude::*;
use vstd::string::StringSliceAdditionalSpecFns;

verus! {

/// PCI capability ID: Vendor-specific (used by VirtIO).
pub const PCI_CAP_ID_VNDR: u8 = 0x09;

/// VirtIO PCI capability type: Common configuration.
pub const VIRTIO_PCI_CAP_COMMON: u8 = 1;

/// VirtIO PCI capability type: Notification area.
pub const VIRTIO_PCI_CAP_NOTIFY: u8 = 2;

/// VirtIO PCI capability type: ISR status.
pub const VIRTIO_PCI_CAP_ISR: u8 = 3;

/// VirtIO PCI capability type: Device-specific configuration.
pub const VIRTIO_PCI_CAP_DEVICE: u8 = 4;

/// VirtIO PCI capability type: PCI config access alternative.
pub const VIRTIO_PCI_CAP_PCI_CFG: u8 = 5;

/// Longest capability chain followed: the walk stops after this many
/// entries even if the chain loops.
pub const MAX_CAPS: u8 = 49;

/// Parsed VirtIO PCI capability information.
#[derive(Debug, Clone, Copy, PartialEq, Eq, Structural)]
pub struct VirtioCapInfo {
    /// Capability type (1=common, 2=notify, 3=isr, 4=device, 5=pci_cfg).
    pub cfg_type: u8,
    /// BAR index (0-5).
    pub bar: u8,
    /// Offset within BAR.
    pub offset: u32,
    /// Length of region.
    pub length: u32,
    /// Notify offset multiplier (only valid for notify cap).
    pub notify_off_multiplier: u32,
    /// PCI config space offset where this cap was found.
    pub cap_offset: u8,
}

impl Default for VirtioCapInfo {
    fn default() -> (r: Self)
        ensures
            r == (VirtioCapInfo {
                cfg_type: 0,
                bar: 0,
                offset: 0,
                length: 0,
                notify_off_multiplier: 0,
                cap_offset: 0,
            }),
    {
        VirtioCapInfo { cfg_type: 0, bar: 0, offset: 0, length: 0, notify_off_multiplier: 0, cap_offset: 0 }
    }
}

/// Collection of all VirtIO PCI capabilities for a device.
#[derive(Debug, Clone, Copy)]
pub struct VirtioPciCaps {
    /// Common configuration capability.
    pub common: Option<VirtioCapInfo>,
    /// Notification capability.
    pub notify: Option<VirtioCapInfo>,
    /// ISR status capability.
    pub isr: Option<VirtioCapInfo>,
    /// Device-specific configuration capability.
    pub device: Option<VirtioCapInfo>,
    /// PCI config access capability.
    pub pci_cfg: Option<VirtioCapInfo>,
    /// BAR base addresses (resolved).
    pub bar_addrs: [u64; 6],
    /// Bitmask of found capabilities.
    pub found_mask: u8,
}

/// No capability found, all BAR addresses zero.
pub open spec fn no_caps() -> VirtioPciCaps {
    VirtioPciCaps {
        common: None,
        notify: None,
        isr: None,
        device: None,
        pci_cfg: None,
        bar_addrs: [0u64, 0, 0, 0, 0, 0],
        found_mask: 0,
    }
}

impl Default for VirtioPciCaps {
    fn default() -> (r: Self)
        ensures
            r == no_caps(),
    {
        VirtioPciCaps {
            common: None,
            notify: None,
            isr: None,
            device: None,
            pci_cfg: None,
            bar_addrs: [0u64, 0, 0, 0, 0, 0],
            found_mask: 0,
        }
    }
}

/// Address of a region: its BAR's base plus its offset.
pub open spec fn region_addr(bars: [u64; 6], info: VirtioCapInfo) -> int {
    bars@[info.bar as int] + info.offset
}

/// The region of `info`, if any, names a BAR and its address fits in 64 bits.
pub open spec fn region_ok(bars: [u64; 6], info: Option<VirtioCapInfo>) -> bool {
    info matches Some(c) ==> c.bar < 6 && region_addr(bars, c) <= u64::MAX
}

/// Address of the region of `info`, if present.
pub open spec fn region_of(bars: [u64; 6], info: Option<VirtioCapInfo>) -> Option<u64> {
    match info {
        Some(c) => Some(region_addr(bars, c) as u64),
        None => None,
    }
}

fn region(bars: &[u64; 6], info: Option<VirtioCapInfo>) -> (r: Option<u64>)
    requires
        region_ok(*bars, info),
    ensures
        r == region_of(*bars, info),
{
    match info {
        Some(c) => Some(bars[c.bar as usize] + c.offset as u64),
        None => None,
    }
}

impl VirtioPciCaps {
    /// Check if all required capabilities are present: common configuration
    /// and notification.
    pub fn has_required(&self) -> (r: bool)
        ensures
            r == (self.common is Some && self.notify is Some),
    {
        self.common.is_some() && self.notify.is_some()
    }

    /// Get the address for common config access.
    pub fn common_cfg_addr(&self) -> (r: Option<u64>)
        requires
            region_ok(self.bar_addrs, self.common),
        ensures
            r == region_of(self.bar_addrs, self.common),
    {
        region(&self.bar_addrs, self.common)
    }

    /// Get the address for notification.
    pub fn notify_addr(&self) -> (r: Option<u64>)
        requires
            region_ok(self.bar_addrs, self.notify),
        ensures
            r == region_of(self.bar_addrs, self.notify),
    {
        region(&self.bar_addrs, self.notify)
    }

    /// Get the notify offset multiplier (0 without a notify capability).
    pub fn notify_multiplier(&self) -> (r: u32)
        ensures
            r == (match self.notify {
                Some(n) => n.notify_off_multiplier,
                None => 0,
            }),
    {
        match self.notify {
            Some(n) => n.notify_off_multiplier,
            None => 0,
        }
    }

    /// Get the address for device-specific config.
    pub fn device_cfg_addr(&self) -> (r: Option<u64>)
        requires
            region_ok(self.bar_addrs, self.device),
        ensures
            r == region_of(self.bar_addrs, self.device),
    {
        region(&self.bar_addrs, self.device)
    }

    /// Get the address for ISR status.
    pub fn isr_addr(&self) -> (r: Option<u64>)
        requires
            region_ok(self.bar_addrs, self.isr),
        ensures
            r == region_of(self.bar_addrs, self.isr),
    {
        region(&self.bar_addrs, self.isr)
    }
}

/// Offset of the first capability: the capabilities pointer (low two bits
/// cleared) when the status register announces a list, else 0.
pub open spec fn caps_start(cfg: Seq<u8>) -> u8 {
    if cfg16(cfg, STATUS as int) & STATUS_CAP_LIST != 0 {
        cfg8(cfg, CAP_PTR as int) & 0xFC
    } else {
        0
    }
}

/// Capability ID in the header at `off`.
pub open spec fn cap_id_at(cfg: Seq<u8>, off: u8) -> u8 {
    (cfg16(cfg, off as int) & 0xFF) as u8
}

/// Next-capability pointer in the header at `off` (low two bits cleared).
pub open spec fn cap_next_at(cfg: Seq<u8>, off: u8) -> u8 {
    ((cfg16(cfg, off as int) >> 8) & 0xFC) as u8
}

/// The `(offset, capability ID)` entries of the chain from `current`, when
/// `count` entries were already visited; a zero pointer ends the chain, and
/// at most `MAX_CAPS` entries are visited in all.
pub open spec fn cap_chain(cfg: Seq<u8>, current: u8, count: int) -> Seq<(u8, u8)>
    decreases MAX_CAPS - count,
{
    if current == 0 || count >= MAX_CAPS || count < 0 {
        Seq::empty()
    } else {
        seq![(current, cap_id_at(cfg, current))] + cap_chain(cfg, cap_next_at(cfg, current), count + 1)
    }
}

/// The whole capability chain of a configuration space.
pub open spec fn capabilities(cfg: Seq<u8>) -> Seq<(u8, u8)> {
    cap_chain(cfg, caps_start(cfg), 0)
}

/// Walk the capability chain: each capability's offset and ID, in chain
/// order.
pub fn walk_capabilities_rust(cfg: &[u8]) -> (r: Vec<(u8, u8)>)
    requires
        cfg@.len() == CONFIG_SPACE_SIZE,
    ensures
        r@ == capabilities(cfg@),
{
    let status = cfg_read16(cfg, STATUS);
    let mut current: u8 = if (status & STATUS_CAP_LIST) != 0 {
        cfg_read8(cfg, CAP_PTR) & 0xFC
    } else {
        0
    };
    let mut count: u8 = 0;
    let mut out: Vec<(u8, u8)> = Vec::new();
    while current != 0 && count < MAX_CAPS
        invariant
            cfg@.len() == CONFIG_SPACE_SIZE,
            count <= MAX_CAPS,
            out@ + cap_chain(cfg@, current, count as int) == capabilities(cfg@),
        decreases MAX_CAPS - count,
    {
        let header = cfg_read16(cfg, current);
        let cap_id = (header & 0xFF) as u8;
        let next = ((header >> 8) & 0xFC) as u8;
        let ghost before = out@;
        out.push((current, cap_id));
        proof {
            assert(cap_chain(cfg@, current, count as int) == seq![(current, cap_id)] + cap_chain(
                cfg@,
                next,
                count + 1,
            ));
            assert(out@ + cap_chain(cfg@, next, count + 1) =~= before + cap_chain(
                cfg@,
                current,
                count as int,
            ));
        }
        current = next;
        count += 1;
    }
    proof {
        assert(cap_chain(cfg@, current, count as int) =~= Seq::<(u8, u8)>::empty());
        assert(out@ =~= out@ + Seq::<(u8, u8)>::empty());
    }
    out
}

/// The VirtIO capability described at `off`.
pub open spec fn cap_info_at(cfg: Seq<u8>, off: u8) -> VirtioCapInfo {
    let cfg_type = cfg8(cfg, (off + 3) % 256);
    VirtioCapInfo {
        cfg_type,
        bar: cfg8(cfg, (off + 4) % 256),
        offset: cfg32(cfg, (off + 8) % 256),
        length: cfg32(cfg, (off + 12) % 256),
        notify_off_multiplier: if cfg_type == VIRTIO_PCI_CAP_NOTIFY {
            cfg32(cfg, (off + 16) % 256)
        } else {
            0
        },
        cap_offset: off,
    }
}

/// `caps` with `info` recorded under its type, and the type's bit set in
/// the found mask; an unknown type leaves `caps` as it is.
pub open spec fn record_cap(caps: VirtioPciCaps, info: VirtioCapInfo) -> VirtioPciCaps {
    if info.cfg_type == VIRTIO_PCI_CAP_COMMON {
        VirtioPciCaps { common: Some(info), found_mask: caps.found_mask | 1, ..caps }
    } else if info.cfg_type == VIRTIO_PCI_CAP_NOTIFY {
        VirtioPciCaps { notify: Some(info), found_mask: caps.found_mask | 2, ..caps }
    } else if info.cfg_type == VIRTIO_PCI_CAP_ISR {
        VirtioPciCaps { isr: Some(info), found_mask: caps.found_mask | 4, ..caps }
    } else if info.cfg_type == VIRTIO_PCI_CAP_DEVICE {
        VirtioPciCaps { device: Some(info), found_mask: caps.found_mask | 8, ..caps }
    } else if info.cfg_type == VIRTIO_PCI_CAP_PCI_CFG {
        VirtioPciCaps { pci_cfg: Some(info), found_mask: caps.found_mask | 16, ..caps }
    } else {
        caps
    }
}

/// The capabilities recorded from the vendor-specific entries of `chain`,
/// in order, starting from `caps`: a later capability of a type replaces an
/// earlier one.
pub open spec fn record_chain(cfg: Seq<u8>, caps: VirtioPciCaps, chain: Seq<(u8, u8)>) -> VirtioPciCaps
    decreases chain.len(),
{
    if chain.len() == 0 {
        caps
    } else {
        let prev = record_chain(cfg, caps, chain.drop_last());
        let (off, id) = chain.last();
        if id == PCI_CAP_ID_VNDR {
            record_cap(prev, cap_info_at(cfg, off))
        } else {
            prev
        }
    }
}

/// Base address held by BAR `idx`: 0 for an empty BAR, the I/O base (low two
/// bits cleared) for an I/O BAR, the memory base (low four bits cleared) for
/// a memory BAR, with the next BAR as high half for a 64-bit one.
pub open spec fn bar_addr(cfg: Seq<u8>, idx: u8) -> u64 {
    if idx > 5 {
        0
    } else {
        let low = cfg32(cfg, 0x10 + idx * 4);
        if low == 0 {
            0
        } else if low & 1 != 0 {
            (low & 0xFFFF_FFFC) as u64
        } else {
            let base_low = (low & 0xFFFF_FFF0) as u64;
            if (low >> 1u32) & 3 == 2 && idx < 5 {
                ((cfg32(cfg, 0x10 + idx * 4 + 4) as u64) << 32u64) | base_low
            } else {
                base_low
            }
        }
    }
}

/// The VirtIO capabilities of a configuration space, with all BAR
/// addresses resolved.
pub open spec fn virtio_caps(cfg: Seq<u8>) -> VirtioPciCaps {
    VirtioPciCaps {
        bar_addrs: [
            bar_addr(cfg, 0),
            bar_addr(cfg, 1),
            bar_addr(cfg, 2),
            bar_addr(cfg, 3),
            bar_addr(cfg, 4),
            bar_addr(cfg, 5),
        ],
        ..record_chain(cfg, no_caps(), capabilities(cfg))
    }
}

/// Read a BAR base address; see `bar_addr`.
fn read_bar_rust(cfg: &[u8], bar_idx: u8) -> (r: u64)
    requires
        cfg@.len() == CONFIG_SPACE_SIZE,
    ensures
        r == bar_addr(cfg@, bar_idx),
{
    if bar_idx > 5 {
        return 0;
    }
    let bar_offset = 0x10u8 + bar_idx * 4;
    let bar_low = cfg_read32(cfg, bar_offset);
    if bar_low == 0 {
        return 0;
    }
    if bar_low & 0x01 != 0 {
        return (bar_low & 0xFFFF_FFFC) as u64;
    }
    let bar_type = (bar_low >> 1u32) & 0x03;
    let base_low = (bar_low & 0xFFFF_FFF0) as u64;
    if bar_type == 0x02 && bar_idx < 5 {
        let bar_high = cfg_read32(cfg, bar_offset + 4);
        return ((bar_high as u64) << 32u64) | base_low;
    }
    base_low
}

/// The capability described at `cap_offset`.
fn parse_cap(cfg: &[u8], cap_offset: u8) -> (r: VirtioCapInfo)
    requires
        cfg@.len() == CONFIG_SPACE_SIZE,
    ensures
        r == cap_info_at(cfg@, cap_offset),
{
    let cfg_type = cfg_read8(cfg, offset_plus(cap_offset, 3));
    let bar = cfg_read8(cfg, offset_plus(cap_offset, 4));
    let bar_offset = cfg_read32(cfg, offset_plus(cap_offset, 8));
    let length = cfg_read32(cfg, offset_plus(cap_offset, 12));
    let notify_off_multiplier = if cfg_type == VIRTIO_PCI_CAP_NOTIFY {
        cfg_read32(cfg, offset_plus(cap_offset, 16))
    } else {
        0
    };
    VirtioCapInfo { cfg_type, bar, offset: bar_offset, length, notify_off_multiplier, cap_offset }
}

/// Probe all VirtIO capabilities of a device from its configuration space:
/// every vendor-specific capability on the chain is recorded under its
/// type, and all six BAR addresses are resolved.
pub fn probe_virtio_caps(cfg: &[u8]) -> (r: VirtioPciCaps)
    requires
        cfg@.len() == CONFIG_SPACE_SIZE,
    ensures
        r == virtio_caps(cfg@),
{
    let chain = walk_capabilities_rust(cfg);
    let mut caps = VirtioPciCaps::default();
    let mut i: usize = 0;
    while i < chain.len()
        invariant
            cfg@.len() == CONFIG_SPACE_SIZE,
            chain@ == capabilities(cfg@),
            i <= chain@.len(),
            caps == record_chain(cfg@, no_caps(), chain@.take(i as int)),
        decreases chain.len() - i,
    {
        let (cap_offset, cap_id) = chain[i];
        proof {
            assert(chain@.take(i + 1).drop_last() =~= chain@.take(i as int));
            assert(chain@.take(i + 1).last() == chain@[i as int]);
        }
        if cap_id == PCI_CAP_ID_VNDR {
            let info = parse_cap(cfg, cap_offset);
            if info.cfg_type == VIRTIO_PCI_CAP_COMMON {
                caps.common = Some(info);
                caps.found_mask = caps.found_mask | 1;
            } else if info.cfg_type == VIRTIO_PCI_CAP_NOTIFY {
                caps.notify = Some(info);
                caps.found_mask = caps.found_mask | 2;
            } else if info.cfg_type == VIRTIO_PCI_CAP_ISR {
                caps.isr = Some(info);
                caps.found_mask = caps.found_mask | 4;
            } else if info.cfg_type == VIRTIO_PCI_CAP_DEVICE {
                caps.device = Some(info);
                caps.found_mask = caps.found_mask | 8;
            } else if info.cfg_type == VIRTIO_PCI_CAP_PCI_CFG {
                caps.pci_cfg = Some(info);
                caps.found_mask = caps.found_mask | 16;
            }
        }
        i += 1;
    }
    proof {
        assert(chain@.take(chain@.len() as int) =~= chain@);
    }
    caps.bar_addrs = [
        read_bar_rust(cfg, 0),
        read_bar_rust(cfg, 1),
        read_bar_rust(cfg, 2),
        read_bar_rust(cfg, 3),
        read_bar_rust(cfg, 4),
        read_bar_rust(cfg, 5),
    ];
    caps
}

/// One line of the capability dump: offset and ID, and for a VirtIO
/// capability its type, BAR, offset and length.
pub open spec fn cap_dump_line(cfg: Seq<u8>, off: u8, id: u8) -> Seq<u8> {
    let info = cap_info_at(cfg, off);
    "  [".spec_bytes() + hex64_text(off as u64) + "] ID=".spec_bytes() + hex64_text(id as u64) + (if id
        == PCI_CAP_ID_VNDR {
        " VirtIO cfg_type=".spec_bytes() + hex64_text(info.cfg_type as u64) + " bar=".spec_bytes()
            + hex64_text(info.bar as u64) + " off=".spec_bytes() + hex64_text(info.offset as u64)
            + " len=".spec_bytes() + hex64_text(info.length as u64)
    } else {
        Seq::empty()
    }) + crlf_bytes()
}

/// The dump lines of the capabilities `caps`, in order.
pub open spec fn cap_dump_lines(cfg: Seq<u8>, caps: Seq<(u8, u8)>) -> Seq<u8>
    decreases caps.len(),
{
    if caps.len() == 0 {
        Seq::empty()
    } else {
        cap_dump_lines(cfg, caps.drop_last()) + cap_dump_line(cfg, caps.last().0, caps.last().1)
    }
}

/// The whole capability dump of a function: a header naming its address,
/// then one line per capability.
pub open spec fn capability_dump(addr: PciAddr, cfg: Seq<u8>) -> Seq<u8> {
    "PCI ".spec_bytes() + hex64_text(addr.bus as u64) + ":".spec_bytes() + hex64_text(addr.device as u64)
        + ".".spec_bytes() + hex64_text(addr.function as u64) + " capabilities:".spec_bytes()
        + crlf_bytes() + cap_dump_lines(cfg, capabilities(cfg))
}

fn dump_cap_line(cfg: &[u8], offset: u8, cap_id: u8, out: &mut Vec<u8>)
    requires
        cfg@.len() == CONFIG_SPACE_SIZE,
    ensures
        final(out)@ == old(out)@ + cap_dump_line(cfg@, offset, cap_id),
{
    print(out, "  [");
    print_hex(out, offset as u64);
    print(out, "] ID=");
    print_hex(out, cap_id as u64);
    if cap_id == PCI_CAP_ID_VNDR {
        let cfg_type = cfg_read8(cfg, offset_plus(offset, 3));
        print(out, " VirtIO cfg_type=");
        print_hex(out, cfg_type as u64);
        let bar = cfg_read8(cfg, offset_plus(offset, 4));
        print(out, " bar=");
        print_hex(out, bar as u64);
        let bar_offset = cfg_read32(cfg, offset_plus(offset, 8));
        print(out, " off=");
        print_hex(out, bar_offset as u64);
        let length = cfg_read32(cfg, offset_plus(offset, 12));
        print(out, " len=");
        print_hex(out, length as u64);
    }
    crate::mainloop::serial::println(out, "");
    proof {
        assert("".spec_bytes() =~= Seq::<u8>::empty()) by {
            reveal_strlit("");
        }
    }
    assert(out@ =~= old(out)@ + cap_dump_line(cfg@, offset, cap_id));
}

/// Print every capability of a function to the serial output.
pub fn dump_capabilities(addr: PciAddr, cfg: &[u8], out: &mut Vec<u8>)
    requires
        cfg@.len() == CONFIG_SPACE_SIZE,
    ensures
        final(out)@ == old(out)@ + capability_dump(addr, cfg@),
{
    print(out, "PCI ");
    print_hex(out, addr.bus as u64);
    print(out, ":");
    print_hex(out, addr.device as u64);
    print(out, ".");
    print_hex(out, addr.function as u64);
    crate::mainloop::serial::println(out, " capabilities:");
    let ghost head = out@;
    let caps = walk_capabilities_rust(cfg);
    let mut i: usize = 0;
    while i < caps.len()
        invariant
            cfg@.len() == CONFIG_SPACE_SIZE,
            caps@ == capabilities(cfg@),
            i <= caps@.len(),
            out@ == head + cap_dump_lines(cfg@, caps@.take(i as int)),
        decreases caps@.len() - i,
    {
        let (offset, cap_id) = caps[i];
        dump_cap_line(cfg, offset, cap_id, out);
        proof {
            assert(caps@.take(i as int + 1).drop_last() =~= caps@.take(i as int));
        }
        i += 1;
    }
    assert(caps@.take(caps@.len() as int) =~= caps@);
}

/// Entry `k` of `chain` is a vendor-specific capability whose description
/// is `info`.
pub open spec fn vendor_entry(cfg: Seq<u8>, chain: Seq<(u8, u8)>, k: int, info: VirtioCapInfo) -> bool {
    0 <= k < chain.len() && chain[k].1 == PCI_CAP_ID_VNDR && info == cap_info_at(cfg, chain[k].0)
}

/// Some vendor-specific entry of `chain` has type `t`.
pub open spec fn has_vendor_type(cfg: Seq<u8>, chain: Seq<(u8, u8)>, t: u8) -> bool {
    exists|k: int|
        0 <= k < chain.len() && chain[k].1 == PCI_CAP_ID_VNDR && #[trigger] cap_info_at(cfg, chain[k].0).cfg_type == t
}

/// `slot` holds a vendor entry of `chain` of type `t`, and holds one
/// exactly when the chain has such an entry.
pub open spec fn slot_of_type(cfg: Seq<u8>, chain: Seq<(u8, u8)>, slot: Option<VirtioCapInfo>, t: u8) -> bool {
    &&& (slot matches Some(i) ==> i.cfg_type == t && exists|k: int| #[trigger] vendor_entry(cfg, chain, k, i))
    &&& (slot is Some <==> has_vendor_type(cfg, chain, t))
}

#[verifier::rlimit(40)]
proof fn lemma_record_chain_typed(cfg: Seq<u8>, chain: Seq<(u8, u8)>)
    ensures
        slot_of_type(cfg, chain, record_chain(cfg, no_caps(), chain).common, VIRTIO_PCI_CAP_COMMON),
        slot_of_type(cfg, chain, record_chain(cfg, no_caps(), chain).notify, VIRTIO_PCI_CAP_NOTIFY),
        slot_of_type(cfg, chain, record_chain(cfg, no_caps(), chain).isr, VIRTIO_PCI_CAP_ISR),
        slot_of_type(cfg, chain, record_chain(cfg, no_caps(), chain).device, VIRTIO_PCI_CAP_DEVICE),
        slot_of_type(cfg, chain, record_chain(cfg, no_caps(), chain).pci_cfg, VIRTIO_PCI_CAP_PCI_CFG),
    decreases chain.len(),
{
    if chain.len() == 0 {
        return;
    }
    let pre = chain.drop_last();
    lemma_record_chain_typed(cfg, pre);
    let n = chain.len() - 1;
    let (off, id) = chain.last();
    assert(chain[n] == chain.last());
    assert forall|k: int| 0 <= k < pre.len() implies #[trigger] chain[k] == pre[k] by {}
    assert forall|k: int, i: VirtioCapInfo| #[trigger] vendor_entry(cfg, pre, k, i) implies vendor_entry(cfg, chain, k, i) by {
        assert(chain[k] == pre[k]);
    }
    assert forall|t: u8| has_vendor_type(cfg, chain, t) <==> (has_vendor_type(cfg, pre, t) || (id == PCI_CAP_ID_VNDR
        && cap_info_at(cfg, off).cfg_type == t)) by {
        if has_vendor_type(cfg, chain, t) {
            let k = choose|k: int|
                0 <= k < chain.len() && chain[k].1 == PCI_CAP_ID_VNDR && #[trigger] cap_info_at(cfg, chain[k].0).cfg_type == t;
            if k < n {
                assert(chain[k] == pre[k]);
                assert(cap_info_at(cfg, pre[k].0).cfg_type == t);
            }
        }
        if has_vendor_type(cfg, pre, t) {
            let k = choose|k: int|
                0 <= k < pre.len() && pre[k].1 == PCI_CAP_ID_VNDR && #[trigger] cap_info_at(cfg, pre[k].0).cfg_type == t;
            assert(chain[k] == pre[k]);
            assert(cap_info_at(cfg, chain[k].0).cfg_type == t);
        }
        if id == PCI_CAP_ID_VNDR && cap_info_at(cfg, off).cfg_type == t {
            assert(cap_info_at(cfg, chain[n].0).cfg_type == t);
        }
    }
    if id == PCI_CAP_ID_VNDR {
        assert(vendor_entry(cfg, chain, n, cap_info_at(cfg, off)));
    }
    let prev = record_chain(cfg, no_caps(), pre);
    let cur = record_chain(cfg, no_caps(), chain);
    assert(cur == (if id == PCI_CAP_ID_VNDR {
        record_cap(prev, cap_info_at(cfg, off))
    } else {
        prev
    }));
    assert forall|slot: Option<VirtioCapInfo>, t: u8|
        #![trigger slot_of_type(cfg, pre, slot, t)]
        slot_of_type(cfg, pre, slot, t) && !(id == PCI_CAP_ID_VNDR && cap_info_at(cfg, off).cfg_type == t) implies
            slot_of_type(cfg, chain, slot, t) by {
        if let Some(i) = slot {
            let k = choose|k: int| #[trigger] vendor_entry(cfg, pre, k, i);
            assert(vendor_entry(cfg, chain, k, i));
        }
    }
    assert forall|t: u8| id == PCI_CAP_ID_VNDR && cap_info_at(cfg, off).cfg_type == t implies
        #[trigger] slot_of_type(cfg, chain, Some(cap_info_at(cfg, off)), t) by {
        assert(vendor_entry(cfg, chain, n, cap_info_at(cfg, off)));
    }
    assert(slot_of_type(cfg, pre, prev.common, VIRTIO_PCI_CAP_COMMON));
    assert(slot_of_type(cfg, pre, prev.notify, VIRTIO_PCI_CAP_NOTIFY));
    assert(slot_of_type(cfg, pre, prev.isr, VIRTIO_PCI_CAP_ISR));
    assert(slot_of_type(cfg, pre, prev.device, VIRTIO_PCI_CAP_DEVICE));
    assert(slot_of_type(cfg, pre, prev.pci_cfg, VIRTIO_PCI_CAP_PCI_CFG));
}

/// Each probed capability slot holds a vendor-specific capability of the
/// chain whose type is that slot's (common 1, notify 2, ISR 3, device 4,
/// PCI config 5), and a slot is filled exactly when the chain has a
/// capability of its type.
pub proof fn lemma_caps_typed(cfg: Seq<u8>)
    ensures
        slot_of_type(cfg, capabilities(cfg), virtio_caps(cfg).common, 1),
        slot_of_type(cfg, capabilities(cfg), virtio_caps(cfg).notify, 2),
        slot_of_type(cfg, capabilities(cfg), virtio_caps(cfg).isr, 3),
        slot_of_type(cfg, capabilities(cfg), virtio_caps(cfg).device, 4),
        slot_of_type(cfg, capabilities(cfg), virtio_caps(cfg).pci_cfg, 5),
{
    lemma_record_chain_typed(cfg, capabilities(cfg));
}

} // verus!
