//! USB mass-storage block driver decisions: xHCI capability decoding,
//! command/transfer/event ring cursors, completion decoding, descriptor
//! parsing, Bulk-Only Transport framing and SCSI command blocks.
//!
//! The register and DMA-memory accesses are the platform's part; every value
//! written to the controller and every decision taken on a value read from
//! it is computed here. The controller bring-up, the device enumeration and
//! each Bulk-Only Transport command run as state machines (`xhci_bringup`,
//! `usb_enum`, `usb_bot`) built on these pieces.

use super::block_traits::{BlockCompletion, BlockDeviceInfo, BlockDriverInit, BlockError};
use vstd::prelude::*;

verus! {

// Operational register offsets (from op_base).
pub const OP_USBCMD: u64 = 0x00;

pub const OP_USBSTS: u64 = 0x04;

pub const OP_CRCR: u64 = 0x18;

pub const OP_DCBAAP: u64 = 0x30;

pub const OP_CONFIG: u64 = 0x38;

pub const PORT_REG_BASE: u64 = 0x400;

pub const PORT_REG_STRIDE: u64 = 0x10;

// Interrupter 0 offsets (from rt_base).
pub const IR0_IMAN: u64 = 0x20;

pub const IR0_ERSTSZ: u64 = 0x28;

pub const IR0_ERSTBA: u64 = 0x30;

pub const IR0_ERDP: u64 = 0x38;

/// USBCMD run/stop.
pub const CMD_RS: u32 = 1;

/// USBCMD interrupter enable.
pub const CMD_INTE: u32 = 4;

/// USBSTS host controller halted.
pub const STS_HCH: u32 = 1;

// PORTSC bits.
pub const PORTSC_CCS: u32 = 1;

pub const PORTSC_PED: u32 = 2;

pub const PORTSC_PR: u32 = 0x10;

pub const PORTSC_PP: u32 = 0x200;

pub const PORTSC_PRC: u32 = 0x20_0000;

/// Write-1-to-clear bits 17..23: written as 0 to preserve them.
pub const PORTSC_RW1C: u32 = 0x00FE_0000;

// TRB types, already shifted to bits 15:10.
pub const TRB_NORMAL: u32 = 0x400;

pub const TRB_SETUP: u32 = 0x800;

pub const TRB_DATA: u32 = 0xC00;

pub const TRB_STATUS: u32 = 0x1000;

pub const TRB_LINK: u32 = 0x1800;

pub const TRB_ENABLE_SLOT: u32 = 0x2400;

pub const TRB_ADDRESS_DEV: u32 = 0x2C00;

pub const TRB_CONFIGURE_EP: u32 = 0x3000;

pub const TRB_XFER_EVENT: u32 = 0x8000;

pub const TRB_CMD_COMPLETE: u32 = 0x8400;

// TRB control bits.
pub const TRB_TC: u32 = 2;

pub const TRB_ISP: u32 = 4;

pub const TRB_IOC: u32 = 0x20;

pub const TRB_IDT: u32 = 0x40;

pub const TRB_DIR_IN: u32 = 0x1_0000;

pub const TRB_TRT_IN: u32 = 0x3_0000;

pub const TRB_TYPE_MASK: u32 = 0xFC00;

// USB class codes of a Bulk-Only SCSI mass-storage interface.
pub const USB_CLASS_MASS_STORAGE: u8 = 0x08;

pub const USB_SUBCLASS_SCSI: u8 = 0x06;

pub const USB_PROTOCOL_BOT: u8 = 0x50;

/// Command Block Wrapper signature ("USBC").
pub const CBW_SIG: u32 = 0x4342_5355;

/// Command Status Wrapper signature ("USBS").
pub const CSW_SIG: u32 = 0x5342_5355;

pub const SCSI_TEST_UNIT_READY: u8 = 0x00;

pub const SCSI_READ_CAPACITY_10: u8 = 0x25;

pub const SCSI_READ_10: u8 = 0x28;

/// Size of the DMA area.
pub const DMA_SIZE: usize = 65536;

/// Ring lengths in TRBs.
pub const CMD_RING_LEN: u8 = 32;

pub const EVT_RING_LEN: u8 = 32;

pub const XFER_RING_LEN: u8 = 16;

// DMA layout.
pub const OFF_DCBAA: u64 = 0x0000;

pub const OFF_CMD_RING: u64 = 0x1000;

pub const OFF_EVT_RING: u64 = 0x1200;

pub const OFF_ERST: u64 = 0x1400;

pub const OFF_OUT_CTX: u64 = 0x2000;

pub const OFF_IN_CTX: u64 = 0x3000;

pub const OFF_XFER_EP0: u64 = 0x4000;

pub const OFF_XFER_BOUT: u64 = 0x4100;

pub const OFF_XFER_BIN: u64 = 0x4200;

pub const OFF_CBW: u64 = 0x4400;

pub const OFF_CSW: u64 = 0x4440;

pub const OFF_DESC: u64 = 0x4480;

pub const OFF_DATA: u64 = 0x5000;

/// Size of the sector bounce buffer (one page).
pub const DATA_BUF_SIZE: u32 = 4096;

pub const OFF_SCRATCH_ARR: u64 = 0x7000;

pub const OFF_SCRATCH_PG: u64 = 0x8000;

/// Most scratchpad pages the DMA area has room for.
pub const MAX_SCRATCH: u16 = 8;

/// Controller reset attempts.
pub const RESET_ATTEMPTS: u32 = 3;

/// USB mass-storage configuration.
#[derive(Debug, Clone)]
pub struct UsbMsdConfig {
    /// TSC frequency for timeout calculations.
    pub tsc_freq: u64,
    /// Optional DMA bounce buffer base (physical).
    pub dma_phys: u64,
    /// Optional DMA bounce buffer size.
    pub dma_size: usize,
}

/// USB mass-storage init errors.
#[derive(Debug, Clone, Copy, PartialEq, Eq, Structural)]
pub enum UsbMsdInitError {
    InvalidConfig,
    ControllerInitFailed,
    DeviceEnumerationFailed,
    TransportInitFailed,
    NoMedia,
    CommandTimeout,
    IoError,
    NotImplemented,
}

impl UsbMsdInitError {
    /// Human-readable description.
    pub fn message(&self) -> (r: &'static str)
        ensures
            r@ == match *self {
                UsbMsdInitError::InvalidConfig => "Invalid USB MSD configuration"@,
                UsbMsdInitError::ControllerInitFailed => "USB xHCI controller init failed"@,
                UsbMsdInitError::DeviceEnumerationFailed => "USB device enumeration failed"@,
                UsbMsdInitError::TransportInitFailed => "USB BOT transport init failed"@,
                UsbMsdInitError::NoMedia => "No USB mass-storage device found"@,
                UsbMsdInitError::CommandTimeout => "USB command timeout"@,
                UsbMsdInitError::IoError => "USB I/O error"@,
                UsbMsdInitError::NotImplemented => "USB mass-storage driver not implemented yet"@,
            },
    {
        match self {
            UsbMsdInitError::InvalidConfig => "Invalid USB MSD configuration",
            UsbMsdInitError::ControllerInitFailed => "USB xHCI controller init failed",
            UsbMsdInitError::DeviceEnumerationFailed => "USB device enumeration failed",
            UsbMsdInitError::TransportInitFailed => "USB BOT transport init failed",
            UsbMsdInitError::NoMedia => "No USB mass-storage device found",
            UsbMsdInitError::CommandTimeout => "USB command timeout",
            UsbMsdInitError::IoError => "USB I/O error",
            UsbMsdInitError::NotImplemented => "USB mass-storage driver not implemented yet",
        }
    }
}

/// A controller needs a register base and a TSC frequency.
pub fn check_config(mmio_base: u64, config: &UsbMsdConfig) -> (r: Result<(), UsbMsdInitError>)
    ensures
        r == (if mmio_base == 0 || config.tsc_freq == 0 {
            Err(UsbMsdInitError::InvalidConfig)
        } else {
            Ok(())
        }),
{
    if mmio_base == 0 || config.tsc_freq == 0 {
        Err(UsbMsdInitError::InvalidConfig)
    } else {
        Ok(())
    }
}

/// Capability registers of an xHCI controller, decoded.
#[derive(Debug, Clone, Copy, PartialEq, Eq, Structural)]
pub struct XhciCaps {
    /// Operational registers base (MMIO base + CAPLENGTH).
    pub op_base: u64,
    /// Runtime registers base.
    pub rt_base: u64,
    /// Doorbell array base.
    pub db_base: u64,
    /// HCSPARAMS1.MaxSlots.
    pub max_slots: u8,
    /// HCSPARAMS1.MaxPorts.
    pub max_ports: u8,
    /// Context size in bytes (64 when HCCPARAMS1.CSZ is set, else 32).
    pub ctx_size: u8,
    /// Scratchpad buffers the controller asks for.
    pub n_scratch: u16,
    /// HCCPARAMS1, handed to the BIOS hand-off.
    pub hccparams1: u32,
}

/// DBOFF with its reserved low bits cleared.
pub open spec fn db_offset(dboff: u32) -> u32 {
    dboff & 0xFFFF_FFFC
}

/// RTSOFF with its reserved low bits cleared.
pub open spec fn rts_offset(rtsoff: u32) -> u32 {
    rtsoff & 0xFFFF_FFE0
}

/// Scratchpad count: Max Scratchpad Buffers Hi (bits 25:21) above Lo
/// (bits 31:27).
pub open spec fn scratch_count(hcsparams2: u32) -> int {
    ((hcsparams2 >> 21) & 0x1F) * 32 + ((hcsparams2 >> 27) & 0x1F)
}

/// Decode the capability registers. `probe` holds CAPLENGTH in its low byte
/// and is 0 for a dead controller.
pub fn decode_caps(
    mmio_base: u64,
    probe: u32,
    hcsparams1: u32,
    hcsparams2: u32,
    hccparams1: u32,
    dboff: u32,
    rtsoff: u32,
) -> (r: Result<XhciCaps, UsbMsdInitError>)
    requires
        mmio_base + 0xFF <= u64::MAX,
        mmio_base + db_offset(dboff) <= u64::MAX,
        mmio_base + rts_offset(rtsoff) <= u64::MAX,
    ensures
        probe == 0 ==> r == Err::<XhciCaps, UsbMsdInitError>(UsbMsdInitError::ControllerInitFailed),
        probe != 0 ==> r == Ok::<XhciCaps, UsbMsdInitError>(
            XhciCaps {
                op_base: (mmio_base + (probe & 0xFF)) as u64,
                rt_base: (mmio_base + rts_offset(rtsoff)) as u64,
                db_base: (mmio_base + db_offset(dboff)) as u64,
                max_slots: (hcsparams1 & 0xFF) as u8,
                max_ports: ((hcsparams1 >> 24) & 0xFF) as u8,
                ctx_size: if hccparams1 & 4 != 0 { 64u8 } else { 32u8 },
                n_scratch: scratch_count(hcsparams2) as u16,
                hccparams1,
            },
        ),
{
    if probe == 0 {
        return Err(UsbMsdInitError::ControllerInitFailed);
    }
    let cap_len = probe & 0xFF;
    assert(cap_len <= 0xFF) by (bit_vector)
        requires
            cap_len == probe & 0xFF,
    ;
    let db = dboff & 0xFFFF_FFFC;
    let rts = rtsoff & 0xFFFF_FFE0;
    let hi: u32 = (hcsparams2 >> 21) & 0x1F;
    let lo: u32 = (hcsparams2 >> 27) & 0x1F;
    assert(hi < 32 && lo < 32) by (bit_vector)
        requires
            hi == (hcsparams2 >> 21) & 0x1F,
            lo == (hcsparams2 >> 27) & 0x1F,
    ;
    let n_scratch: u16 = (hi * 32 + lo) as u16;
    Ok(XhciCaps {
        op_base: mmio_base + cap_len as u64,
        rt_base: mmio_base + rts as u64,
        db_base: mmio_base + db as u64,
        max_slots: (hcsparams1 & 0xFF) as u8,
        max_ports: ((hcsparams1 >> 24) & 0xFF) as u8,
        ctx_size: if hccparams1 & 4 != 0 { 64 } else { 32 },
        n_scratch,
        hccparams1,
    })
}

impl XhciCaps {
    /// Value for CONFIG.MaxSlotsEn: the controller's slots, at most 16.
    pub fn slots_enabled(&self) -> (r: u32)
        ensures
            r == if self.max_slots < 16 { self.max_slots as u32 } else { 16u32 },
    {
        if self.max_slots < 16 {
            self.max_slots as u32
        } else {
            16
        }
    }

    /// The DMA area holds at most `MAX_SCRATCH` scratchpad pages.
    pub fn check_scratch(&self) -> (r: Result<(), UsbMsdInitError>)
        ensures
            r == (if self.n_scratch > MAX_SCRATCH {
                Err(UsbMsdInitError::ControllerInitFailed)
            } else {
                Ok(())
            }),
    {
        if self.n_scratch > MAX_SCRATCH {
            Err(UsbMsdInitError::ControllerInitFailed)
        } else {
            Ok(())
        }
    }
}

/// Busy-wait before reset attempt `attempt + 1`: 100 ms more for each
/// failed attempt.
pub fn reset_backoff_ms(attempt: u32) -> (r: u64)
    requires
        attempt < RESET_ATTEMPTS,
    ensures
        r == 100 * (attempt + 1),
{
    100 * (attempt as u64 + 1)
}

/// Physical address of scratchpad page `i`.
pub fn scratch_page_addr(dma_base: u64, i: u16) -> (r: u64)
    requires
        i < MAX_SCRATCH,
        dma_base + OFF_SCRATCH_PG + MAX_SCRATCH * 4096 <= u64::MAX,
    ensures
        r == dma_base + OFF_SCRATCH_PG + i * 4096,
{
    dma_base + OFF_SCRATCH_PG + i as u64 * 4096
}

/// Low and high halves of CRCR for a command ring at `ring`, with the ring
/// cycle state set.
pub fn crcr_value(ring: u64) -> (r: (u32, u32))
    ensures
        r.0 == ((ring as u32) & 0xFFFF_FFC0) | 1,
        r.1 == (ring >> 32) as u32,
{
    (((ring as u32) & 0xFFFF_FFC0) | 1, (ring >> 32) as u32)
}

/// Low and high halves of ERDP for a dequeue pointer `deq`, with the event
/// handler busy bit written to clear it.
pub fn erdp_value(deq: u64) -> (r: (u32, u32))
    ensures
        r.0 == ((deq as u32) & 0xFFFF_FFF0) | 0x08,
        r.1 == (deq >> 32) as u32,
{
    (((deq as u32) & 0xFFFF_FFF0) | 0x08, (deq >> 32) as u32)
}

/// PORTSC value that powers a port on or off without clearing change bits.
pub fn port_power_value(ps: u32, on: bool) -> (r: u32)
    ensures
        r == if on {
            (ps & !PORTSC_RW1C) | PORTSC_PP
        } else {
            (ps & !PORTSC_RW1C) & !PORTSC_PP
        },
{
    if on {
        (ps & !PORTSC_RW1C) | PORTSC_PP
    } else {
        (ps & !PORTSC_RW1C) & !PORTSC_PP
    }
}

/// PORTSC register address of port `port` (0-based).
pub fn portsc_addr(op_base: u64, port: u8) -> (r: u64)
    requires
        op_base + PORT_REG_BASE + 255 * PORT_REG_STRIDE <= u64::MAX,
    ensures
        r == op_base + PORT_REG_BASE + port * PORT_REG_STRIDE,
{
    op_base + PORT_REG_BASE + port as u64 * PORT_REG_STRIDE
}

/// A port is worth enumerating when a device is connected and it is powered.
pub fn port_has_device(ps: u32) -> (r: bool)
    ensures
        r == (ps & PORTSC_CCS != 0 && ps & PORTSC_PP != 0),
{
    ps & PORTSC_CCS != 0 && ps & PORTSC_PP != 0
}

/// PORTSC value that starts a port reset.
pub fn port_reset_value(ps: u32) -> (r: u32)
    ensures
        r == (ps & !PORTSC_RW1C) | PORTSC_PR,
{
    (ps & !PORTSC_RW1C) | PORTSC_PR
}

/// PORTSC value that acknowledges a finished port reset.
pub fn port_reset_ack_value(ps: u32) -> (r: u32)
    ensures
        r == (ps & !PORTSC_RW1C) | PORTSC_PRC,
{
    (ps & !PORTSC_RW1C) | PORTSC_PRC
}

/// What one poll of PORTSC during a port reset decides: `None` while the
/// reset is still running; once it has completed, the port speed when the
/// port came up enabled, else an enumeration failure.
pub fn port_reset_poll(ps: u32) -> (r: Option<Result<u8, UsbMsdInitError>>)
    ensures
        ps & PORTSC_PRC == 0 ==> r is None,
        ps & PORTSC_PRC != 0 && ps & PORTSC_PED != 0 ==> r == Some(
            Ok::<u8, UsbMsdInitError>(((ps >> 10) & 0xF) as u8),
        ),
        ps & PORTSC_PRC != 0 && ps & PORTSC_PED == 0 ==> r == Some(
            Err::<u8, UsbMsdInitError>(UsbMsdInitError::DeviceEnumerationFailed),
        ),
{
    if ps & PORTSC_PRC != 0 {
        if ps & PORTSC_PED != 0 {
            Some(Ok(((ps >> 10) & 0xF) as u8))
        } else {
            Some(Err(UsbMsdInitError::DeviceEnumerationFailed))
        }
    } else {
        None
    }
}

/// Producer cursor of a command or transfer ring: the next TRB to write and
/// the producer cycle state. The last TRB of the ring is a link TRB back to
/// the start.
#[derive(Debug, Clone, Copy, PartialEq, Eq, Structural)]
pub struct TrbRing {
    pub enq: u8,
    pub cycle: u8,
}

/// Where one enqueued TRB goes, with the cycle bit it carries, and the slot
/// of the link TRB written after it when the ring wrapped.
#[derive(Debug, Clone, Copy, PartialEq, Eq, Structural)]
pub struct TrbPlacement {
    pub index: u8,
    pub cycle: u8,
    pub link_index: Option<u8>,
}

/// The cursor after one TRB is enqueued on a ring of `len` TRBs.
pub open spec fn ring_after_push(r: TrbRing, len: u8) -> TrbRing {
    if r.enq + 1 >= len - 1 {
        TrbRing { enq: 0, cycle: (1 - r.cycle) as u8 }
    } else {
        TrbRing { enq: (r.enq + 1) as u8, cycle: r.cycle }
    }
}

/// The cursor after `k` TRBs are enqueued.
pub open spec fn ring_after_pushes(r: TrbRing, len: u8, k: nat) -> TrbRing
    decreases k,
{
    if k == 0 {
        r
    } else {
        ring_after_pushes(ring_after_push(r, len), len, (k - 1) as nat)
    }
}

/// The event ring cursor after one event is consumed.
pub open spec fn event_after_advance(e: EventRing) -> EventRing {
    if e.deq + 1 >= EVT_RING_LEN {
        EventRing { deq: 0, cycle: (1 - e.cycle) as u8 }
    } else {
        EventRing { deq: (e.deq + 1) as u8, cycle: e.cycle }
    }
}

/// The event ring cursor after `k` events are consumed.
pub open spec fn event_after_advances(e: EventRing, k: nat) -> EventRing
    decreases k,
{
    if k == 0 {
        e
    } else {
        event_after_advances(event_after_advance(e), (k - 1) as nat)
    }
}

impl TrbRing {
    /// A cursor of a ring of `len` TRBs: it stays before the link TRB and
    /// its cycle state is a bit.
    pub open spec fn wf(self, len: u8) -> bool {
        &&& 2 <= len
        &&& self.enq < len - 1
        &&& self.cycle <= 1
    }

    /// A fresh ring: first TRB, cycle state 1.
    pub fn new() -> (r: Self)
        ensures
            r.enq == 0,
            r.cycle == 1,
    {
        TrbRing { enq: 0, cycle: 1 }
    }

    /// Enqueue one TRB in a ring of `len` TRBs. When the cursor reaches the
    /// link slot, a link TRB is written there and the cursor wraps to the
    /// start with the cycle state flipped.
    pub fn push(&mut self, len: u8) -> (p: TrbPlacement)
        requires
            old(self).wf(len),
        ensures
            p.index == old(self).enq,
            p.cycle == old(self).cycle,
            final(self).wf(len),
            *final(self) == ring_after_push(*old(self), len),
            old(self).enq + 1 < len - 1 ==> p.link_index is None && final(self).enq == old(self).enq + 1
                && final(self).cycle == old(self).cycle,
            old(self).enq + 1 >= len - 1 ==> p.link_index == Some((old(self).enq + 1) as u8)
                && final(self).enq == 0 && final(self).cycle == 1 - old(self).cycle,
    {
        let index = self.enq;
        let cycle = self.cycle;
        self.enq = self.enq + 1;
        if self.enq >= len - 1 {
            let link = self.enq;
            self.enq = 0;
            self.cycle = 1 - self.cycle;
            TrbPlacement { index, cycle, link_index: Some(link) }
        } else {
            TrbPlacement { index, cycle, link_index: None }
        }
    }
}

/// Control word of a TRB: its type and flags with the cycle bit replaced.
pub fn trb_control(ctrl: u32, cycle: u8) -> (r: u32)
    requires
        cycle <= 1,
    ensures
        r == (ctrl & 0xFFFF_FFFE) | (cycle as u32),
{
    (ctrl & 0xFFFF_FFFE) | (cycle as u32)
}

/// Control word of the link TRB that closes a ring, with toggle-cycle set.
pub fn link_control(cycle: u8) -> (r: u32)
    requires
        cycle <= 1,
    ensures
        r == TRB_LINK | TRB_TC | (cycle as u32),
{
    TRB_LINK | TRB_TC | (cycle as u32)
}

/// Consumer cursor of the event ring.
#[derive(Debug, Clone, Copy, PartialEq, Eq, Structural)]
pub struct EventRing {
    pub deq: u8,
    pub cycle: u8,
}

impl EventRing {
    pub open spec fn wf(self) -> bool {
        self.deq < EVT_RING_LEN && self.cycle <= 1
    }

    /// A fresh event ring: first TRB, consumer cycle state 1.
    pub fn new() -> (r: Self)
        ensures
            r.deq == 0,
            r.cycle == 1,
    {
        EventRing { deq: 0, cycle: 1 }
    }

    /// An event TRB belongs to software when its cycle bit matches the
    /// consumer cycle state.
    pub fn owns(&self, ctrl: u32) -> (r: bool)
        ensures
            r == ((ctrl & 1) == self.cycle as u32),
    {
        (ctrl & 1) == self.cycle as u32
    }

    /// Move past the event just consumed, wrapping at the end of the ring
    /// with the cycle state flipped.
    pub fn advance(&mut self)
        requires
            old(self).wf(),
        ensures
            final(self).wf(),
            *final(self) == event_after_advance(*old(self)),
            old(self).deq + 1 < EVT_RING_LEN ==> final(self).deq == old(self).deq + 1
                && final(self).cycle == old(self).cycle,
            old(self).deq + 1 >= EVT_RING_LEN ==> final(self).deq == 0 && final(self).cycle == 1
                - old(self).cycle,
    {
        self.deq = self.deq + 1;
        if self.deq >= EVT_RING_LEN {
            self.deq = 0;
            self.cycle = 1 - self.cycle;
        }
    }

    /// Physical address of the current dequeue slot in a ring at `base`.
    pub fn slot_addr(&self, base: u64) -> (r: u64)
        requires
            self.wf(),
            base + EVT_RING_LEN * 16 <= u64::MAX,
        ensures
            r == base + self.deq * 16,
    {
        base + self.deq as u64 * 16
    }
}

/// Whether an event TRB has the expected type.
pub fn event_is(ctrl: u32, expected: u32) -> (r: bool)
    ensures
        r == ((ctrl & TRB_TYPE_MASK) == expected),
{
    (ctrl & TRB_TYPE_MASK) == expected
}

/// Decode a Command Completion Event: its completion code (bits 31:24 of
/// `status`) must be Success (1); returns the code and the slot ID (bits
/// 31:24 of `ctrl`).
pub fn cmd_completion(status: u32, ctrl: u32) -> (r: Result<(u8, u8), UsbMsdInitError>)
    ensures
        (status >> 24) as u8 != 1 ==> r == Err::<(u8, u8), UsbMsdInitError>(UsbMsdInitError::IoError),
        (status >> 24) as u8 == 1 ==> r == Ok::<(u8, u8), UsbMsdInitError>((1u8, (ctrl >> 24) as u8)),
{
    let cc = (status >> 24) as u8;
    let sid = (ctrl >> 24) as u8;
    if cc != 1 {
        return Err(UsbMsdInitError::IoError);
    }
    Ok((cc, sid))
}

/// An Enable Slot command must hand out a nonzero slot.
pub fn check_slot(slot: u8) -> (r: Result<u8, UsbMsdInitError>)
    ensures
        r == (if slot == 0 {
            Err(UsbMsdInitError::DeviceEnumerationFailed)
        } else {
            Ok(slot)
        }),
{
    if slot == 0 {
        Err(UsbMsdInitError::DeviceEnumerationFailed)
    } else {
        Ok(slot)
    }
}

/// Decode a Transfer Event: Success (1) and Short Packet (13) are accepted,
/// and the residue (bits 23:0) is returned.
pub fn xfer_completion(status: u32) -> (r: Result<u32, UsbMsdInitError>)
    ensures
        ((status >> 24) as u8 == 1 || (status >> 24) as u8 == 13) ==> r == Ok::<u32, UsbMsdInitError>(
            status & 0x00FF_FFFF,
        ),
        !((status >> 24) as u8 == 1 || (status >> 24) as u8 == 13) ==> r == Err::<u32, UsbMsdInitError>(
            UsbMsdInitError::IoError,
        ),
{
    let cc = (status >> 24) as u8;
    if cc != 1 && cc != 13 {
        return Err(UsbMsdInitError::IoError);
    }
    Ok(status & 0x00FF_FFFF)
}

/// The 8-byte SETUP packet of a control transfer, little-endian:
/// bmRequestType, bRequest, wValue, wIndex, wLength.
pub fn setup_packet(req_type: u8, request: u8, value: u16, index: u16, len: u16) -> (r: u64)
    ensures
        r == req_type + request * 0x100 + value * 0x1_0000 + index * 0x1_0000_0000 + len
            * 0x1_0000_0000_0000,
{
    let a = req_type as u64;
    let b = request as u64;
    let c = value as u64;
    let d = index as u64;
    let e = len as u64;
    let r = a | (b << 8) | (c << 16) | (d << 32) | (e << 48);
    assert(r == a + b * 0x100 + c * 0x1_0000 + d * 0x1_0000_0000 + e * 0x1_0000_0000_0000)
        by (bit_vector)
        requires
            a < 0x100,
            b < 0x100,
            c < 0x1_0000,
            d < 0x1_0000,
            e < 0x1_0000,
            r == a | (b << 8) | (c << 16) | (d << 32) | (e << 48),
    ;
    r
}

/// Device Context Index of an endpoint address: twice the endpoint number,
/// plus one for IN endpoints.
pub fn dci_of(ep_addr: u8) -> (r: u8)
    ensures
        r == (ep_addr % 16) * 2 + ep_addr / 128,
{
    let n = ep_addr & 0x0F;
    let dir = (ep_addr >> 7) & 1;
    assert(n == ep_addr % 16 && dir == ep_addr / 128) by (bit_vector)
        requires
            n == ep_addr & 0x0F,
            dir == (ep_addr >> 7) & 1,
    ;
    n * 2 + dir
}

/// Default control endpoint max packet size for a port speed:
/// SuperSpeed 512, High Speed 64, Low Speed 8, else 64.
pub fn ep0_max_packet(speed: u8) -> (r: u16)
    ensures
        r == if speed == 4 {
            512u16
        } else if speed == 2 {
            8u16
        } else {
            64u16
        },
{
    match speed {
        4 => 512,
        3 => 64,
        2 => 8,
        _ => 64,
    }
}

/// Dwords 0 and 1 of the slot context for Address Device: speed and one
/// context entry; the 1-based root hub port.
pub fn slot_context(speed: u8, port: u8) -> (r: (u32, u32))
    requires
        speed < 16,
    ensures
        r.0 == speed * 0x10_0000 + 0x400_0000,
        r.1 == (port + 1) * 0x1_0000,
{
    let s = speed as u32;
    let p = port as u32 + 1;
    let d0 = (s << 20) | (1u32 << 26);
    let d1 = p << 16;
    assert(d0 == s * 0x10_0000 + 0x400_0000 && d1 == p * 0x1_0000) by (bit_vector)
        requires
            s < 16,
            p <= 256,
            d0 == (s << 20) | (1u32 << 26),
            d1 == p << 16,
    ;
    (d0, d1)
}

/// Dword 1 of an endpoint context: error count 3, endpoint type and max
/// packet size.
pub fn ep_context_dword1(ep_type: u8, max_packet: u16) -> (r: u32)
    requires
        ep_type < 8,
    ensures
        r == 6 + ep_type * 8 + max_packet * 0x1_0000,
{
    let t = ep_type as u32;
    let m = max_packet as u32;
    let r = (3u32 << 1) | (t << 3) | (m << 16);
    assert(r == 6 + t * 8 + m * 0x1_0000) by (bit_vector)
        requires
            t < 8,
            m < 0x1_0000,
            r == (3u32 << 1) | (t << 3) | (m << 16),
    ;
    r
}

/// Low dword of a transfer ring dequeue pointer with the dequeue cycle
/// state set.
pub fn tr_dequeue_lo(ring: u64) -> (r: u32)
    ensures
        r == ((ring as u32) & 0xFFFF_FFF0) | 1,
{
    ((ring as u32) & 0xFFFF_FFF0) | 1
}

/// Add-context flags of Configure Endpoint: the slot and both bulk
/// endpoints.
pub fn configure_add_flags(dci_in: u8, dci_out: u8) -> (r: u32)
    requires
        dci_in < 32,
        dci_out < 32,
    ensures
        r == 1 | (1u32 << dci_in) | (1u32 << dci_out),
{
    1 | (1u32 << dci_in) | (1u32 << dci_out)
}

/// What the walk over a configuration descriptor has found so far.
#[derive(Debug, Clone, Copy, PartialEq, Eq, Structural)]
pub struct DescWalk {
    /// Inside a Bulk-Only SCSI mass-storage interface.
    pub in_msc: bool,
    pub ep_in: u8,
    pub ep_out: u8,
    pub mp_in: u16,
    pub mp_out: u16,
}

/// Endpoints of the mass-storage interface of a configuration.
#[derive(Debug, Clone, Copy, PartialEq, Eq, Structural)]
pub struct MscEndpoints {
    /// bConfigurationValue of the configuration.
    pub config_value: u8,
    /// Bulk IN endpoint address.
    pub ep_in: u8,
    /// Bulk OUT endpoint address.
    pub ep_out: u8,
    /// Bulk IN max packet size.
    pub max_packet_in: u16,
    /// Bulk OUT max packet size.
    pub max_packet_out: u16,
}

/// Little-endian 16-bit value at `i`.
pub open spec fn le16_at(d: Seq<u8>, i: int) -> int {
    d[i] + d[i + 1] * 0x100
}

/// What one descriptor of `blen` bytes at `off` changes: an interface
/// descriptor (type 4) sets whether we are inside a mass-storage BOT
/// interface; a bulk endpoint descriptor (type 5) inside one records the
/// endpoint by its direction.
pub open spec fn desc_step(d: Seq<u8>, off: int, blen: int, w: DescWalk) -> DescWalk {
    let btype = d[off + 1];
    let in_msc = if btype == 4 && blen >= 9 {
        d[off + 5] == USB_CLASS_MASS_STORAGE && d[off + 6] == USB_SUBCLASS_SCSI && d[off + 7]
            == USB_PROTOCOL_BOT
    } else {
        w.in_msc
    };
    if btype == 5 && blen >= 7 && in_msc && d[off + 3] & 3 == 2 {
        if d[off + 2] & 0x80 != 0 {
            DescWalk { in_msc, ep_in: d[off + 2], mp_in: le16_at(d, off + 4) as u16, ..w }
        } else {
            DescWalk { in_msc, ep_out: d[off + 2], mp_out: le16_at(d, off + 4) as u16, ..w }
        }
    } else {
        DescWalk { in_msc, ..w }
    }
}

/// Walk the descriptors from `off` up to `limit`, stopping at a descriptor
/// shorter than 2 bytes or one that runs past `limit`.
pub open spec fn desc_walk(d: Seq<u8>, off: nat, limit: nat, w: DescWalk) -> DescWalk
    decreases limit - off,
{
    if off + 2 > limit {
        w
    } else {
        let blen = d[off as int] as nat;
        if blen < 2 || off + blen > limit {
            w
        } else {
            desc_walk(d, off + blen, limit, desc_step(d, off as int, blen as int, w))
        }
    }
}

pub open spec fn empty_walk() -> DescWalk {
    DescWalk { in_msc: false, ep_in: 0, ep_out: 0, mp_in: 0, mp_out: 0 }
}

/// The mass-storage endpoints of a configuration descriptor (its
/// wTotalLength, at most 255 bytes, is walked), when it has both a bulk IN
/// and a bulk OUT endpoint.
pub open spec fn config_endpoints(d: Seq<u8>) -> Option<MscEndpoints> {
    let total = le16_at(d, 2);
    let limit: nat = if total < 255 { total as nat } else { 255 };
    let w = desc_walk(d, 0, limit, empty_walk());
    if w.ep_in != 0 && w.ep_out != 0 {
        Some(
            MscEndpoints {
                config_value: d[5],
                ep_in: w.ep_in,
                ep_out: w.ep_out,
                max_packet_in: w.mp_in,
                max_packet_out: w.mp_out,
            },
        )
    } else {
        None
    }
}

fn walk_descriptors(d: &[u8], limit: usize) -> (r: DescWalk)
    requires
        limit <= 255,
        d@.len() >= 256,
    ensures
        r == desc_walk(d@, 0, limit as nat, empty_walk()),
{
    let mut off: usize = 0;
    let mut w = DescWalk { in_msc: false, ep_in: 0, ep_out: 0, mp_in: 0, mp_out: 0 };
    while off + 2 <= limit
        invariant
            limit <= 255,
            d@.len() >= 256,
            off <= limit,
            desc_walk(d@, 0, limit as nat, empty_walk()) == desc_walk(d@, off as nat, limit as nat, w),
        decreases limit - off,
    {
        let blen = d[off] as usize;
        if blen < 2 || off + blen > limit {
            return w;
        }
        let btype = d[off + 1];
        let mut in_msc = w.in_msc;
        if btype == 4 && blen >= 9 {
            in_msc = d[off + 5] == USB_CLASS_MASS_STORAGE && d[off + 6] == USB_SUBCLASS_SCSI
                && d[off + 7] == USB_PROTOCOL_BOT;
        }
        let mut next = DescWalk { in_msc, ..w };
        if btype == 5 && blen >= 7 && in_msc {
            let addr = d[off + 2];
            let attr = d[off + 3];
            let mpkt: u16 = d[off + 4] as u16 + d[off + 5] as u16 * 256;
            if attr & 3 == 2 {
                if addr & 0x80 != 0 {
                    next = DescWalk { in_msc, ep_in: addr, mp_in: mpkt, ..w };
                } else {
                    next = DescWalk { in_msc, ep_out: addr, mp_out: mpkt, ..w };
                }
            }
        }
        assert(next == desc_step(d@, off as int, blen as int, w));
        w = next;
        off = off + blen;
    }
    w
}

/// Find the Bulk-Only mass-storage interface in a configuration descriptor
/// read into the 256-byte descriptor buffer.
pub fn parse_config_desc(desc: &[u8]) -> (r: Option<MscEndpoints>)
    requires
        desc@.len() >= 256,
    ensures
        r == config_endpoints(desc@),
{
    let total: u16 = desc[2] as u16 + desc[3] as u16 * 256;
    let limit: usize = if total < 255 { total as usize } else { 255 };
    let w = walk_descriptors(desc, limit);
    if w.ep_in != 0 && w.ep_out != 0 {
        Some(
            MscEndpoints {
                config_value: desc[5],
                ep_in: w.ep_in,
                ep_out: w.ep_out,
                max_packet_in: w.mp_in,
                max_packet_out: w.mp_out,
            },
        )
    } else {
        None
    }
}

/// Little-endian bytes of a 32-bit value.
pub open spec fn le32_bytes(v: u32) -> Seq<u8> {
    seq![v as u8, (v >> 8) as u8, (v >> 16) as u8, (v >> 24) as u8]
}

/// Little-endian 32-bit value at `i`.
pub open spec fn le32_at(d: Seq<u8>, i: int) -> int {
    d[i] + d[i + 1] * 0x100 + d[i + 2] * 0x1_0000 + d[i + 3] * 0x100_0000
}

/// Big-endian 32-bit value at `i`.
pub open spec fn be32_at(d: Seq<u8>, i: int) -> int {
    d[i] * 0x100_0000 + d[i + 1] * 0x1_0000 + d[i + 2] * 0x100 + d[i + 3]
}

/// Length of the command block carried by a CBW: at most 16 bytes.
pub open spec fn cb_len(cb: Seq<u8>) -> nat {
    if cb.len() < 16 { cb.len() } else { 16 }
}

/// The 31-byte Command Block Wrapper: signature, tag, transfer length,
/// direction flag (0x80 for a data-in transfer), LUN 0, the command block
/// length, and the command block padded with zeros to 16 bytes.
pub open spec fn cbw_spec(tag: u32, data_len: u32, data_in: bool, cb: Seq<u8>) -> Seq<u8> {
    let n = cb_len(cb);
    le32_bytes(CBW_SIG) + le32_bytes(tag) + le32_bytes(data_len) + seq![
        if data_in && data_len > 0 { 0x80u8 } else { 0u8 },
        0u8,
        n as u8,
    ] + cb.take(n as int) + Seq::new((16 - n) as nat, |i: int| 0u8)
}

fn push_le32(out: &mut Vec<u8>, v: u32)
    ensures
        final(out)@ == old(out)@ + le32_bytes(v),
{
    out.push(v as u8);
    out.push((v >> 8) as u8);
    out.push((v >> 16) as u8);
    out.push((v >> 24) as u8);
}

/// Build the Command Block Wrapper of a SCSI command.
pub fn build_cbw(tag: u32, data_len: u32, data_in: bool, cb: &[u8]) -> (r: Vec<u8>)
    ensures
        r@ == cbw_spec(tag, data_len, data_in, cb@),
        r@.len() == 31,
{
    let mut out: Vec<u8> = Vec::new();
    push_le32(&mut out, CBW_SIG);
    push_le32(&mut out, tag);
    push_le32(&mut out, data_len);
    let flags: u8 = if data_in && data_len > 0 { 0x80 } else { 0x00 };
    out.push(flags);
    out.push(0);
    let n: usize = if cb.len() < 16 { cb.len() } else { 16 };
    out.push(n as u8);
    let ghost head = out@;
    let mut i: usize = 0;
    while i < n
        invariant
            n <= cb@.len(),
            n <= 16,
            i <= n,
            out@ == head + cb@.take(i as int),
        decreases n - i,
    {
        out.push(cb[i]);
        assert(cb@.take(i as int + 1) == cb@.take(i as int).push(cb@[i as int]));
        i += 1;
    }
    let ghost body = out@;
    let mut j: usize = n;
    while j < 16
        invariant
            n <= j <= 16,
            out@ == body + Seq::new((j - n) as nat, |k: int| 0u8),
        decreases 16 - j,
    {
        out.push(0);
        assert(Seq::new((j + 1 - n) as nat, |k: int| 0u8) == Seq::new((j - n) as nat, |k: int| 0u8).push(0u8));
        j += 1;
    }
    assert(n as nat == cb_len(cb@));
    out
}

/// A Command Status Wrapper is good when it has the CSW signature, echoes
/// the command's tag and reports status 0.
pub fn csw_valid(csw: &[u8], tag: u32) -> (r: bool)
    requires
        csw@.len() >= 13,
    ensures
        r == (le32_at(csw@, 0) == CSW_SIG && le32_at(csw@, 4) == tag && csw@[12] == 0),
{
    let sig: u32 = csw[0] as u32 + csw[1] as u32 * 0x100 + csw[2] as u32 * 0x1_0000 + csw[3] as u32 * 0x100_0000;
    let t: u32 = csw[4] as u32 + csw[5] as u32 * 0x100 + csw[6] as u32 * 0x1_0000 + csw[7] as u32 * 0x100_0000;
    sig == CSW_SIG && t == tag && csw[12] == 0
}

/// Bytes moved by a data phase of `data_len` bytes that left `residue`.
pub fn bot_transferred(data_len: u32, residue: u32) -> (r: u32)
    ensures
        r == if residue <= data_len { (data_len - residue) as u32 } else { 0u32 },
{
    data_len.saturating_sub(residue)
}

/// TEST UNIT READY command block.
pub fn test_unit_ready_cdb() -> (r: [u8; 6])
    ensures
        r@ == seq![SCSI_TEST_UNIT_READY, 0u8, 0u8, 0u8, 0u8, 0u8],
{
    [SCSI_TEST_UNIT_READY, 0, 0, 0, 0, 0]
}

/// READ CAPACITY(10) command block.
pub fn read_capacity_cdb() -> (r: [u8; 10])
    ensures
        r@ == seq![SCSI_READ_CAPACITY_10, 0u8, 0u8, 0u8, 0u8, 0u8, 0u8, 0u8, 0u8, 0u8],
{
    [SCSI_READ_CAPACITY_10, 0, 0, 0, 0, 0, 0, 0, 0, 0]
}

/// READ(10) command block: the low 32 bits of the LBA and the low 16 bits
/// of the block count, big-endian.
pub fn read10_cdb(lba: u64, count: u32) -> (r: [u8; 10])
    ensures
        r@ == seq![
            SCSI_READ_10,
            0u8,
            (lba >> 24) as u8,
            (lba >> 16) as u8,
            (lba >> 8) as u8,
            lba as u8,
            0u8,
            (count >> 8) as u8,
            count as u8,
            0u8,
        ],
{
    [
        SCSI_READ_10,
        0,
        (lba >> 24) as u8,
        (lba >> 16) as u8,
        (lba >> 8) as u8,
        lba as u8,
        0,
        (count >> 8) as u8,
        count as u8,
        0,
    ]
}

/// Device geometry from READ CAPACITY(10) data (last LBA and block length,
/// big-endian): a block length of 0 counts as 512, and a request is limited
/// to what the 4 KiB bounce buffer holds, at least one sector.
pub open spec fn capacity_info(data: Seq<u8>) -> BlockDeviceInfo {
    let blk = be32_at(data, 4);
    let sector_size: u32 = if blk == 0 { 512 } else { blk as u32 };
    let per_req = DATA_BUF_SIZE / sector_size;
    BlockDeviceInfo {
        total_sectors: (be32_at(data, 0) + 1) as u64,
        sector_size,
        max_sectors_per_request: if per_req < 1 { 1 } else { per_req },
        read_only: true,
    }
}

/// Device geometry from the 8 bytes of READ CAPACITY(10) data.
pub fn read_capacity_info(data: &[u8]) -> (r: BlockDeviceInfo)
    requires
        data@.len() >= 8,
    ensures
        r == capacity_info(data@),
{
    let last_lba: u32 = data[0] as u32 * 0x100_0000 + data[1] as u32 * 0x1_0000 + data[2] as u32 * 0x100
        + data[3] as u32;
    let blk_size: u32 = data[4] as u32 * 0x100_0000 + data[5] as u32 * 0x1_0000 + data[6] as u32 * 0x100
        + data[7] as u32;
    let sector_size: u32 = if blk_size == 0 { 512 } else { blk_size };
    let per_req = DATA_BUF_SIZE / sector_size;
    BlockDeviceInfo {
        total_sectors: last_lba as u64 + 1,
        sector_size,
        max_sectors_per_request: if per_req < 1 { 1 } else { per_req },
        read_only: true,
    }
}

/// The three transfer rings of the device.
#[derive(Debug, Clone, Copy, PartialEq, Eq, Structural)]
pub enum TransferRing {
    Ep0,
    BulkOut,
    BulkIn,
}

/// USB mass-storage driver state: register bases, ring cursors, the
/// addressed device and its geometry, and the one outstanding completion.
pub struct UsbMsdDriver {
    op_base: u64,
    rt_base: u64,
    db_base: u64,
    tsc_freq: u64,
    max_ports: u8,
    ctx_size: u8,
    dma_base: u64,
    cmd: TrbRing,
    evt: EventRing,
    ep0: TrbRing,
    bout: TrbRing,
    bin: TrbRing,
    slot_id: u8,
    dci_bulk_in: u8,
    dci_bulk_out: u8,
    info: BlockDeviceInfo,
    last_completion: Option<BlockCompletion>,
    bot_tag: u32,
}

impl UsbMsdDriver {
    /// The ring cursors are in range.
    pub closed spec fn wf(&self) -> bool {
        &&& self.cmd.wf(CMD_RING_LEN)
        &&& self.evt.wf()
        &&& self.ep0.wf(XFER_RING_LEN)
        &&& self.bout.wf(XFER_RING_LEN)
        &&& self.bin.wf(XFER_RING_LEN)
    }

    pub closed spec fn spec_info(&self) -> BlockDeviceInfo {
        self.info
    }

    pub closed spec fn spec_pending(&self) -> Option<BlockCompletion> {
        self.last_completion
    }

    pub closed spec fn spec_tag(&self) -> u32 {
        self.bot_tag
    }

    pub closed spec fn spec_op_base(&self) -> u64 {
        self.op_base
    }

    pub closed spec fn spec_db_base(&self) -> u64 {
        self.db_base
    }

    pub closed spec fn spec_max_ports(&self) -> u8 {
        self.max_ports
    }

    pub closed spec fn spec_slot(&self) -> u8 {
        self.slot_id
    }

    pub closed spec fn spec_dcis(&self) -> (u8, u8) {
        (self.dci_bulk_in, self.dci_bulk_out)
    }

    pub closed spec fn spec_ring(&self, ring: TransferRing) -> TrbRing {
        match ring {
            TransferRing::Ep0 => self.ep0,
            TransferRing::BulkOut => self.bout,
            TransferRing::BulkIn => self.bin,
        }
    }

    pub closed spec fn spec_cmd(&self) -> TrbRing {
        self.cmd
    }

    pub closed spec fn spec_evt(&self) -> EventRing {
        self.evt
    }

    /// Driver state right after controller bring-up: rings at their start
    /// with cycle state 1, no device addressed, a provisional read-only
    /// geometry of 512-byte sectors, first BOT tag 1.
    pub fn init_controller(caps: &XhciCaps, tsc_freq: u64, dma_base: u64) -> (r: Self)
        ensures
            r.wf(),
            r.spec_op_base() == caps.op_base,
            r.spec_db_base() == caps.db_base,
            r.spec_max_ports() == caps.max_ports,
            r.spec_cmd() == (TrbRing { enq: 0, cycle: 1 }),
            r.spec_evt() == (EventRing { deq: 0, cycle: 1 }),
            forall|k: TransferRing| r.spec_ring(k) == (TrbRing { enq: 0, cycle: 1 }),
            r.spec_slot() == 0,
            r.spec_dcis() == (0u8, 0u8),
            r.spec_info() == (BlockDeviceInfo {
                total_sectors: 0,
                sector_size: 512,
                max_sectors_per_request: 8,
                read_only: true,
            }),
            r.spec_pending() is None,
            r.spec_tag() == 1,
    {
        let r = UsbMsdDriver {
            op_base: caps.op_base,
            rt_base: caps.rt_base,
            db_base: caps.db_base,
            tsc_freq,
            max_ports: caps.max_ports,
            ctx_size: caps.ctx_size,
            dma_base,
            cmd: TrbRing::new(),
            evt: EventRing::new(),
            ep0: TrbRing::new(),
            bout: TrbRing::new(),
            bin: TrbRing::new(),
            slot_id: 0,
            dci_bulk_in: 0,
            dci_bulk_out: 0,
            info: BlockDeviceInfo {
                total_sectors: 0,
                sector_size: 512,
                max_sectors_per_request: 8,
                read_only: true,
            },
            last_completion: None,
            bot_tag: 1,
        };
        assert forall|k: TransferRing| r.spec_ring(k) == (TrbRing { enq: 0, cycle: 1 }) by {
            match k {
                TransferRing::Ep0 => {},
                TransferRing::BulkOut => {},
                TransferRing::BulkIn => {},
            }
        }
        r
    }

    /// Number of root hub ports.
    pub fn max_ports(&self) -> (r: u8)
        ensures
            r == self.spec_max_ports(),
    {
        self.max_ports
    }

    /// PORTSC register address of `port`.
    pub fn portsc(&self, port: u8) -> (r: u64)
        requires
            self.spec_op_base() + PORT_REG_BASE + 255 * PORT_REG_STRIDE <= u64::MAX,
        ensures
            r == self.spec_op_base() + PORT_REG_BASE + port * PORT_REG_STRIDE,
    {
        portsc_addr(self.op_base, port)
    }

    /// Enqueue one command TRB.
    pub fn cmd_enqueue(&mut self) -> (p: TrbPlacement)
        requires
            old(self).wf(),
        ensures
            final(self).wf(),
            p.index == old(self).spec_cmd().enq,
            p.cycle == old(self).spec_cmd().cycle,
            final(self).spec_cmd().enq == (if old(self).spec_cmd().enq + 1 >= CMD_RING_LEN - 1 { 0 } else { old(self).spec_cmd().enq + 1 }),
            forall|k: TransferRing| final(self).spec_ring(k) == old(self).spec_ring(k),
            final(self).spec_evt() == old(self).spec_evt(),
            final(self).spec_info() == old(self).spec_info(),
            final(self).spec_pending() == old(self).spec_pending(),
    {
        self.cmd.push(CMD_RING_LEN)
    }

    /// Enqueue one TRB on a transfer ring.
    pub fn xfer_enqueue(&mut self, ring: TransferRing) -> (p: TrbPlacement)
        requires
            old(self).wf(),
        ensures
            final(self).wf(),
            p.index == old(self).spec_ring(ring).enq,
            p.cycle == old(self).spec_ring(ring).cycle,
            final(self).spec_ring(ring).enq == (if old(self).spec_ring(ring).enq + 1 >= XFER_RING_LEN - 1 { 0 } else { old(self).spec_ring(ring).enq + 1 }),
            forall|k: TransferRing| k != ring ==> final(self).spec_ring(k) == old(self).spec_ring(k),
            final(self).spec_cmd() == old(self).spec_cmd(),
            final(self).spec_evt() == old(self).spec_evt(),
            final(self).spec_info() == old(self).spec_info(),
            final(self).spec_pending() == old(self).spec_pending(),
    {
        match ring {
            TransferRing::Ep0 => self.ep0.push(XFER_RING_LEN),
            TransferRing::BulkOut => self.bout.push(XFER_RING_LEN),
            TransferRing::BulkIn => self.bin.push(XFER_RING_LEN),
        }
    }

    /// The event ring consumer: whether the event TRB with control word
    /// `ctrl` at the dequeue slot belongs to software; if it does it is
    /// consumed.
    pub fn take_event(&mut self, ctrl: u32) -> (r: bool)
        requires
            old(self).wf(),
        ensures
            final(self).wf(),
            r == ((ctrl & 1) == old(self).spec_evt().cycle as u32),
            !r ==> final(self).spec_evt() == old(self).spec_evt(),
            r ==> final(self).spec_evt().deq == (if old(self).spec_evt().deq + 1 >= EVT_RING_LEN { 0 } else { old(self).spec_evt().deq + 1 }),
            final(self).spec_cmd() == old(self).spec_cmd(),
            forall|k: TransferRing| final(self).spec_ring(k) == old(self).spec_ring(k),
            final(self).spec_info() == old(self).spec_info(),
            final(self).spec_pending() == old(self).spec_pending(),
    {
        if self.evt.owns(ctrl) {
            self.evt.advance();
            true
        } else {
            false
        }
    }

    /// Rewind the transfer rings for a fresh enumeration attempt.
    pub fn reset_transfer_state(&mut self)
        requires
            old(self).wf(),
        ensures
            final(self).wf(),
            forall|k: TransferRing| final(self).spec_ring(k) == (TrbRing { enq: 0, cycle: 1 }),
            final(self).spec_cmd() == old(self).spec_cmd(),
            final(self).spec_evt() == old(self).spec_evt(),
            final(self).spec_info() == old(self).spec_info(),
            final(self).spec_pending() == old(self).spec_pending(),
    {
        self.ep0 = TrbRing::new();
        self.bout = TrbRing::new();
        self.bin = TrbRing::new();
        assert forall|k: TransferRing| self.spec_ring(k) == (TrbRing { enq: 0, cycle: 1 }) by {
            match k {
                TransferRing::Ep0 => {},
                TransferRing::BulkOut => {},
                TransferRing::BulkIn => {},
            }
        }
    }

    /// Record the slot the controller gave the device.
    pub fn set_slot(&mut self, slot: u8)
        ensures
            final(self).spec_slot() == slot,
            final(self).wf() == old(self).wf(),
            final(self).spec_info() == old(self).spec_info(),
            final(self).spec_pending() == old(self).spec_pending(),
    {
        self.slot_id = slot;
    }

    /// Record the bulk endpoints, by their device context indices.
    pub fn set_bulk_endpoints(&mut self, ep_in: u8, ep_out: u8) -> (r: (u8, u8))
        ensures
            r.0 == (ep_in % 16) * 2 + ep_in / 128,
            r.1 == (ep_out % 16) * 2 + ep_out / 128,
            final(self).spec_dcis() == r,
            final(self).wf() == old(self).wf(),
            final(self).spec_info() == old(self).spec_info(),
            final(self).spec_pending() == old(self).spec_pending(),
    {
        let dci_in = dci_of(ep_in);
        let dci_out = dci_of(ep_out);
        self.dci_bulk_in = dci_in;
        self.dci_bulk_out = dci_out;
        (dci_in, dci_out)
    }

    /// Doorbell register of the addressed device slot.
    pub fn device_doorbell(&self) -> (r: u64)
        requires
            self.spec_db_base() + 255 * 4 <= u64::MAX,
        ensures
            r == self.spec_db_base() + self.spec_slot() * 4,
    {
        self.db_base + self.slot_id as u64 * 4
    }

    /// Tag for the next BOT command; tags count up, wrapping.
    pub fn next_tag(&mut self) -> (r: u32)
        ensures
            r == old(self).spec_tag(),
            final(self).spec_tag() == old(self).spec_tag().wrapping_add(1),
            final(self).wf() == old(self).wf(),
            final(self).spec_info() == old(self).spec_info(),
            final(self).spec_pending() == old(self).spec_pending(),
    {
        let t = self.bot_tag;
        self.bot_tag = self.bot_tag.wrapping_add(1);
        t
    }

    /// Take the geometry from READ CAPACITY(10) data.
    pub fn apply_capacity(&mut self, data: &[u8])
        requires
            data@.len() >= 8,
        ensures
            final(self).spec_info() == capacity_info(data@),
            final(self).wf() == old(self).wf(),
            final(self).spec_pending() == old(self).spec_pending(),
    {
        self.info = read_capacity_info(data);
    }

    /// Device information.
    pub fn info(&self) -> (r: BlockDeviceInfo)
        ensures
            r == self.spec_info(),
    {
        self.info
    }

    /// A new request can be taken while no completion is waiting.
    pub fn can_submit(&self) -> (r: bool)
        ensures
            r == self.spec_pending() is None,
    {
        self.last_completion.is_none()
    }

    /// Check a read of `num_sectors` at `sector` into `buffer_phys`; on
    /// success returns the byte count the SCSI READ(10) moves.
    pub fn begin_read(&self, sector: u64, buffer_phys: u64, num_sectors: u32) -> (r: Result<u64, BlockError>)
        ensures
            self.spec_pending() is Some ==> r == Err::<u64, BlockError>(BlockError::QueueFull),
            self.spec_pending() is None && (num_sectors == 0 || num_sectors > self.spec_info().max_sectors_per_request)
                ==> r == Err::<u64, BlockError>(BlockError::RequestTooLarge),
            self.spec_pending() is None && !(num_sectors == 0 || num_sectors > self.spec_info().max_sectors_per_request)
                && (buffer_phys == 0 || sector + num_sectors > self.spec_info().total_sectors)
                ==> r == Err::<u64, BlockError>(BlockError::InvalidSector),
            self.spec_pending() is None && !(num_sectors == 0 || num_sectors > self.spec_info().max_sectors_per_request)
                && !(buffer_phys == 0 || sector + num_sectors > self.spec_info().total_sectors)
                ==> r == Ok::<u64, BlockError>((num_sectors * self.spec_info().sector_size) as u64),
    {
        if self.last_completion.is_some() {
            return Err(BlockError::QueueFull);
        }
        if num_sectors == 0 || num_sectors > self.info.max_sectors_per_request {
            return Err(BlockError::RequestTooLarge);
        }
        if buffer_phys == 0 {
            return Err(BlockError::InvalidSector);
        }
        let end = match sector.checked_add(num_sectors as u64) {
            Some(e) => e,
            None => return Err(BlockError::InvalidSector),
        };
        if end > self.info.total_sectors {
            return Err(BlockError::InvalidSector);
        }
        let n = num_sectors as u64;
        let size = self.info.sector_size as u64;
        assert(n * size <= 0xFFFF_FFFF * 0xFFFF_FFFF) by (nonlinear_arith)
            requires
                n <= 0xFFFF_FFFF,
                size <= 0xFFFF_FFFF,
        ;
        Ok(n * size)
    }

    /// Record a finished read of `byte_count` bytes for `request_id`.
    pub fn finish_read(&mut self, request_id: u32, byte_count: u64)
        ensures
            final(self).spec_pending() == Some(
                BlockCompletion { request_id, status: 0, bytes_transferred: byte_count as u32 },
            ),
            final(self).spec_info() == old(self).spec_info(),
            final(self).wf() == old(self).wf(),
    {
        self.last_completion = Some(
            BlockCompletion { request_id, status: 0, bytes_transferred: byte_count as u32 },
        );
    }

    /// The device is read-only.
    pub fn submit_write(&mut self, sector: u64, buffer_phys: u64, num_sectors: u32, request_id: u32) -> (r: Result<(), BlockError>)
        ensures
            r == Err::<(), BlockError>(BlockError::Unsupported),
    {
        Err(BlockError::Unsupported)
    }

    /// Hand out the waiting completion, if any.
    pub fn poll_completion(&mut self) -> (r: Option<BlockCompletion>)
        ensures
            r == old(self).spec_pending(),
            final(self).spec_pending() is None,
            final(self).spec_info() == old(self).spec_info(),
            final(self).wf() == old(self).wf(),
    {
        let r = self.last_completion;
        self.last_completion = None;
        r
    }
}

impl BlockDriverInit for UsbMsdDriver {
    open spec fn vendor_ids() -> Seq<u16> {
        Seq::empty()
    }

    open spec fn device_ids() -> Seq<u16> {
        Seq::empty()
    }

    fn supported_vendors() -> (r: &'static [u16]) {
        let r: &'static [u16] = &[];
        assert(r@ =~= Seq::<u16>::empty());
        r
    }

    fn supported_devices() -> (r: &'static [u16]) {
        let r: &'static [u16] = &[];
        assert(r@ =~= Seq::<u16>::empty());
        r
    }
}

proof fn lemma_ring_pushes_from(r: TrbRing, len: u8, k: nat)
    requires
        r.wf(len),
        r.enq + k <= len - 2,
    ensures
        ring_after_pushes(r, len, k) == (TrbRing { enq: (r.enq + k) as u8, cycle: r.cycle }),
    decreases k,
{
    if k > 0 {
        let n = ring_after_push(r, len);
        assert(n == TrbRing { enq: (r.enq + 1) as u8, cycle: r.cycle });
        lemma_ring_pushes_from(n, len, (k - 1) as nat);
    }
}

/// A producer cursor comes back to the start of its ring after `len - 1`
/// TRBs (the last slot holds the link TRB), with its cycle state flipped,
/// so the consumer can tell new TRBs from those of the previous lap.
pub proof fn lemma_ring_lap(cycle: u8, len: u8)
    requires
        2 <= len,
        cycle <= 1,
    ensures
        ring_after_pushes(TrbRing { enq: 0, cycle }, len, (len - 1) as nat) == (TrbRing {
            enq: 0,
            cycle: (1 - cycle) as u8,
        }),
{
    let start = TrbRing { enq: 0, cycle };
    let k = (len - 2) as nat;
    lemma_ring_pushes_from(start, len, k);
    let before_last = TrbRing { enq: (len - 2) as u8, cycle };
    lemma_ring_pushes_split(start, len, k);
    assert(ring_after_push(before_last, len) == TrbRing { enq: 0, cycle: (1 - cycle) as u8 });
    assert(ring_after_pushes(ring_after_push(before_last, len), len, 0) == ring_after_push(before_last, len));
}

proof fn lemma_ring_pushes_split(r: TrbRing, len: u8, k: nat)
    ensures
        ring_after_pushes(r, len, k + 1) == ring_after_push(ring_after_pushes(r, len, k), len),
    decreases k,
{
    if k > 0 {
        lemma_ring_pushes_split(ring_after_push(r, len), len, (k - 1) as nat);
        assert(ring_after_pushes(r, len, k) == ring_after_pushes(ring_after_push(r, len), len, (k - 1) as nat));
        assert(ring_after_pushes(r, len, k + 1) == ring_after_pushes(ring_after_push(r, len), len, k));
    } else {
        assert(ring_after_pushes(ring_after_push(r, len), len, 0) == ring_after_push(r, len));
    }
}

proof fn lemma_events_from(e: EventRing, k: nat)
    requires
        e.wf(),
        e.deq + k <= EVT_RING_LEN - 1,
    ensures
        event_after_advances(e, k) == (EventRing { deq: (e.deq + k) as u8, cycle: e.cycle }),
    decreases k,
{
    if k > 0 {
        lemma_events_from(event_after_advance(e), (k - 1) as nat);
    }
}

proof fn lemma_events_split(e: EventRing, k: nat)
    ensures
        event_after_advances(e, k + 1) == event_after_advance(event_after_advances(e, k)),
    decreases k,
{
    if k > 0 {
        lemma_events_split(event_after_advance(e), (k - 1) as nat);
        assert(event_after_advances(e, k) == event_after_advances(event_after_advance(e), (k - 1) as nat));
        assert(event_after_advances(e, k + 1) == event_after_advances(event_after_advance(e), k));
    } else {
        assert(event_after_advances(event_after_advance(e), 0) == event_after_advance(e));
    }
}

/// The event ring consumer comes back to the first slot after a whole lap
/// of `EVT_RING_LEN` events, expecting the other cycle bit.
pub proof fn lemma_event_lap(cycle: u8)
    requires
        cycle <= 1,
    ensures
        event_after_advances(EventRing { deq: 0, cycle }, EVT_RING_LEN as nat) == (EventRing {
            deq: 0,
            cycle: (1 - cycle) as u8,
        }),
{
    let start = EventRing { deq: 0, cycle };
    lemma_events_from(start, (EVT_RING_LEN - 1) as nat);
    lemma_events_split(start, (EVT_RING_LEN - 1) as nat);
}

} // verus!
