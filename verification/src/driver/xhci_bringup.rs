//! The xHCI controller bring-up as a state machine.
//!
//! Read and decode the capability registers (a dead controller fails);
//! clear the DMA area; take the controller over from the firmware and let
//! it settle; reset it, up to three times with a growing back-off (all
//! three failing fails the bring-up); settle; enable the slots; fill the
//! scratchpad array (more pages than the DMA area holds fails); program the
//! device context array, the command ring, the event ring segment table
//! and the interrupter; run the controller and wait up to a second for it
//! to leave the halted state (fatal); power every port off and on again,
//! letting each change settle. The platform performs each action and
//! reports what it read.

use super::usb_msd::{
    decode_caps, db_offset, rts_offset, scratch_count, UsbMsdInitError, XhciCaps, CMD_INTE, CMD_RS,
    EVT_RING_LEN, IR0_ERDP, IR0_ERSTBA, IR0_ERSTSZ, IR0_IMAN, MAX_SCRATCH, OFF_CMD_RING, OFF_DCBAA, OFF_ERST,
    OFF_EVT_RING, OFF_SCRATCH_ARR, OFF_SCRATCH_PG, OP_CONFIG, OP_CRCR, OP_DCBAAP, OP_USBCMD, OP_USBSTS,
    PORTSC_PP, PORTSC_RW1C, PORT_REG_BASE, PORT_REG_STRIDE, RESET_ATTEMPTS, STS_HCH,
};
use crate::mainloop::context::{elapsed, elapsed_ticks};
use vstd::prelude::*;

verus! {

/// Highest register base the bring-up addresses from (the decoded bases lie
/// up to 4 GiB above it).
pub const MMIO_BASE_LIMIT: u64 = 0xFFFF_FFFE_0000_0000;

/// Highest DMA area base (the area is 64 KiB).
pub const DMA_BASE_LIMIT: u64 = 0xFFFF_FFFF_FFFF_0000;

/// Where the bring-up is.
#[derive(Debug, Clone, Copy, PartialEq, Eq, Structural)]
pub enum XhciPhase {
    ReadCaps,
    ZeroDma,
    HandOff,
    HandOffSettle,
    /// Reset attempt (0-based).
    Reset(u32),
    /// Back-off after failed attempt.
    Backoff(u32),
    PostReset,
    MaxSlots,
    /// Scratchpad array entry.
    ScratchEntry(u16),
    ScratchArray,
    DcbaapLo,
    DcbaapHi,
    CrcrLo,
    CrcrHi,
    /// Word of the event ring segment table entry.
    ErstWord(u8),
    Erstsz,
    ErdpLo,
    ErdpHi,
    ErstbaLo,
    ErstbaHi,
    ReadIman,
    WriteIman(u32),
    Run,
    WaitRunning,
    PowerOffRead(u8),
    PowerOffWrite(u8, u32),
    PowerOffSettle,
    PowerOnRead(u8),
    PowerOnWrite(u8, u32),
    PowerOnSettle,
    Done,
    Failed(UsbMsdInitError),
}

/// What the platform is to do next.
#[derive(Debug, Clone, Copy, PartialEq, Eq, Structural)]
pub enum XhciAction {
    /// Read the capability registers (answer: `Caps`).
    ReadCaps,
    /// Zero the DMA area.
    ZeroDma,
    /// Take the controller over from the firmware, given HCCPARAMS1.
    BiosHandOff(u32),
    /// Run the controller reset routine (answer: `Outcome`).
    ResetController,
    /// Busy-wait this many milliseconds.
    DelayMs(u64),
    /// Write a 32-bit register.
    Write(u64, u32),
    /// Read a 32-bit register (answer: `Value`).
    Read(u64),
    /// Read a 32-bit register while waiting on it (answer: `Sample`).
    Sample(u64),
    /// Write a 64-bit word of DMA memory.
    WriteDma64(u64, u64),
    /// Write a 32-bit word of DMA memory.
    WriteDma32(u64, u32),
    /// Nothing more: done or failed.
    Finish,
}

/// What the platform reports back.
#[derive(Debug, Clone, Copy, PartialEq, Eq, Structural)]
pub enum XhciEvent {
    /// The action was carried out.
    Done,
    /// The routine succeeded (`true`) or not.
    Outcome(bool),
    /// The probe word (CAPLENGTH in its low byte, 0 for a dead controller),
    /// HCSPARAMS1, HCSPARAMS2, HCCPARAMS1, DBOFF and RTSOFF.
    Caps(u32, u32, u32, u32, u32, u32),
    /// The register read gave this value.
    Value(u32),
    /// The sampled register's value and the TSC when it was read.
    Sample(u32, u64),
}

/// The bring-up's progress.
#[derive(Debug, Clone, Copy, PartialEq, Eq, Structural)]
pub struct XhciState {
    pub phase: XhciPhase,
    pub mmio_base: u64,
    pub tsc_freq: u64,
    pub dma_base: u64,
    /// The decoded capabilities (meaningful once read).
    pub caps: XhciCaps,
    /// TSC at the first sample of the current wait.
    pub wait_start: Option<u64>,
}

/// Addresses stay within range: the bases are below their limits, the
/// decoded register bases lie within 4 GiB above the MMIO base, and the
/// scratchpad entries written lie within the DMA area.
pub open spec fn xhci_wf(s: XhciState) -> bool {
    &&& s.mmio_base <= MMIO_BASE_LIMIT
    &&& s.dma_base <= DMA_BASE_LIMIT
    &&& s.caps.op_base <= s.mmio_base + 0xFF
    &&& s.caps.rt_base <= s.mmio_base + 0xFFFF_FFFF
    &&& (s.phase matches XhciPhase::ScratchEntry(i) ==> i < s.caps.n_scratch <= MAX_SCRATCH)
}

/// PORTSC address of port `p`.
pub open spec fn port_addr(s: XhciState, p: u8) -> u64 {
    (s.caps.op_base + PORT_REG_BASE + p * PORT_REG_STRIDE) as u64
}

pub open spec fn op_reg(s: XhciState, off: u64) -> u64 {
    (s.caps.op_base + off) as u64
}

pub open spec fn rt_reg(s: XhciState, off: u64) -> u64 {
    (s.caps.rt_base + off) as u64
}

pub open spec fn dma_addr(s: XhciState, off: u64) -> u64 {
    (s.dma_base + off) as u64
}

/// The event ring segment table entry's words: ring base low and high, ring
/// size, reserved.
pub open spec fn erst_word(s: XhciState, k: u8) -> u32 {
    let er = dma_addr(s, OFF_EVT_RING);
    if k == 0 {
        er as u32
    } else if k == 1 {
        (er >> 32) as u32
    } else if k == 2 {
        EVT_RING_LEN as u32
    } else {
        0u32
    }
}

/// The action of each phase.
pub open spec fn xhci_action(s: XhciState) -> XhciAction {
    match s.phase {
        XhciPhase::ReadCaps => XhciAction::ReadCaps,
        XhciPhase::ZeroDma => XhciAction::ZeroDma,
        XhciPhase::HandOff => XhciAction::BiosHandOff(s.caps.hccparams1),
        XhciPhase::HandOffSettle => XhciAction::DelayMs(10),
        XhciPhase::Reset(_) => XhciAction::ResetController,
        XhciPhase::Backoff(a) => XhciAction::DelayMs((100 * (a + 1)) as u64),
        XhciPhase::PostReset => XhciAction::DelayMs(50),
        XhciPhase::MaxSlots => XhciAction::Write(
            op_reg(s, OP_CONFIG),
            if s.caps.max_slots < 16 { s.caps.max_slots as u32 } else { 16u32 },
        ),
        XhciPhase::ScratchEntry(i) => XhciAction::WriteDma64(
            (dma_addr(s, OFF_SCRATCH_ARR) + i * 8) as u64,
            (dma_addr(s, OFF_SCRATCH_PG) + i * 4096) as u64,
        ),
        XhciPhase::ScratchArray => XhciAction::WriteDma64(dma_addr(s, OFF_DCBAA), dma_addr(s, OFF_SCRATCH_ARR)),
        XhciPhase::DcbaapLo => XhciAction::Write(op_reg(s, OP_DCBAAP), dma_addr(s, OFF_DCBAA) as u32),
        XhciPhase::DcbaapHi => XhciAction::Write(
            op_reg(s, (OP_DCBAAP + 4) as u64),
            (dma_addr(s, OFF_DCBAA) >> 32) as u32,
        ),
        XhciPhase::CrcrLo => XhciAction::Write(
            op_reg(s, OP_CRCR),
            ((dma_addr(s, OFF_CMD_RING) as u32) & 0xFFFF_FFC0) | 1,
        ),
        XhciPhase::CrcrHi => XhciAction::Write(
            op_reg(s, (OP_CRCR + 4) as u64),
            (dma_addr(s, OFF_CMD_RING) >> 32) as u32,
        ),
        XhciPhase::ErstWord(k) => XhciAction::WriteDma32((dma_addr(s, OFF_ERST) + k * 4) as u64, erst_word(s, k)),
        XhciPhase::Erstsz => XhciAction::Write(rt_reg(s, IR0_ERSTSZ), 1),
        XhciPhase::ErdpLo => XhciAction::Write(
            rt_reg(s, IR0_ERDP),
            ((dma_addr(s, OFF_EVT_RING) as u32) & 0xFFFF_FFF0) | 0x08,
        ),
        XhciPhase::ErdpHi => XhciAction::Write(
            rt_reg(s, (IR0_ERDP + 4) as u64),
            (dma_addr(s, OFF_EVT_RING) >> 32) as u32,
        ),
        XhciPhase::ErstbaLo => XhciAction::Write(rt_reg(s, IR0_ERSTBA), dma_addr(s, OFF_ERST) as u32),
        XhciPhase::ErstbaHi => XhciAction::Write(
            rt_reg(s, (IR0_ERSTBA + 4) as u64),
            (dma_addr(s, OFF_ERST) >> 32) as u32,
        ),
        XhciPhase::ReadIman => XhciAction::Read(rt_reg(s, IR0_IMAN)),
        XhciPhase::WriteIman(v) => XhciAction::Write(rt_reg(s, IR0_IMAN), v),
        XhciPhase::Run => XhciAction::Write(op_reg(s, OP_USBCMD), CMD_RS | CMD_INTE),
        XhciPhase::WaitRunning => XhciAction::Sample(op_reg(s, OP_USBSTS)),
        XhciPhase::PowerOffRead(p) | XhciPhase::PowerOnRead(p) => XhciAction::Read(port_addr(s, p)),
        XhciPhase::PowerOffWrite(p, v) | XhciPhase::PowerOnWrite(p, v) => XhciAction::Write(port_addr(s, p), v),
        XhciPhase::PowerOffSettle => XhciAction::DelayMs(50),
        XhciPhase::PowerOnSettle => XhciAction::DelayMs(200),
        XhciPhase::Done | XhciPhase::Failed(_) => XhciAction::Finish,
    }
}

/// Ticks since the current wait's first sample (0 at that sample).
pub open spec fn xhci_waited(s: XhciState, now: u64) -> int {
    match s.wait_start {
        Some(start) => elapsed_ticks(start, now),
        None => 0,
    }
}

/// Move on to phase `p`, ending any wait.
pub open spec fn xhci_go(s: XhciState, p: XhciPhase) -> XhciState {
    XhciState { phase: p, wait_start: None, ..s }
}

/// The capabilities the registers read describe, for a live controller.
pub open spec fn caps_of(mmio_base: u64, hcsparams1: u32, hcsparams2: u32, hccparams1: u32, probe: u32, dboff: u32, rtsoff: u32) -> XhciCaps {
    XhciCaps {
        op_base: (mmio_base + (probe & 0xFF)) as u64,
        rt_base: (mmio_base + rts_offset(rtsoff)) as u64,
        db_base: (mmio_base + db_offset(dboff)) as u64,
        max_slots: (hcsparams1 & 0xFF) as u8,
        max_ports: ((hcsparams1 >> 24) & 0xFF) as u8,
        ctx_size: if hccparams1 & 4 != 0 { 64u8 } else { 32u8 },
        n_scratch: scratch_count(hcsparams2) as u16,
        hccparams1,
    }
}

/// The first power phase of a sweep over the ports (straight to its
/// settling delay when there are none).
pub open spec fn first_port(s: XhciState, off: bool) -> XhciPhase {
    if s.caps.max_ports == 0 {
        if off { XhciPhase::PowerOffSettle } else { XhciPhase::PowerOnSettle }
    } else {
        if off { XhciPhase::PowerOffRead(0) } else { XhciPhase::PowerOnRead(0) }
    }
}

/// How the bring-up moves on an event; an event that does not answer the
/// current action leaves it as it is.
pub open spec fn xhci_next(s: XhciState, ev: XhciEvent) -> XhciState {
    match (s.phase, ev) {
        (XhciPhase::ReadCaps, XhciEvent::Caps(probe, hcs1, hcs2, hcc1, dboff, rtsoff)) => if probe == 0 {
            xhci_go(s, XhciPhase::Failed(UsbMsdInitError::ControllerInitFailed))
        } else {
            XhciState {
                phase: XhciPhase::ZeroDma,
                caps: caps_of(s.mmio_base, hcs1, hcs2, hcc1, probe, dboff, rtsoff),
                wait_start: None,
                ..s
            }
        },
        (XhciPhase::ZeroDma, XhciEvent::Done) => xhci_go(s, XhciPhase::HandOff),
        (XhciPhase::HandOff, XhciEvent::Done) => xhci_go(s, XhciPhase::HandOffSettle),
        (XhciPhase::HandOffSettle, XhciEvent::Done) => xhci_go(s, XhciPhase::Reset(0)),
        (XhciPhase::Reset(a), XhciEvent::Outcome(ok)) => if ok {
            xhci_go(s, XhciPhase::PostReset)
        } else {
            xhci_go(s, XhciPhase::Backoff(a))
        },
        (XhciPhase::Backoff(a), XhciEvent::Done) => if a + 1 < RESET_ATTEMPTS {
            xhci_go(s, XhciPhase::Reset((a + 1) as u32))
        } else {
            xhci_go(s, XhciPhase::Failed(UsbMsdInitError::ControllerInitFailed))
        },
        (XhciPhase::PostReset, XhciEvent::Done) => xhci_go(s, XhciPhase::MaxSlots),
        (XhciPhase::MaxSlots, XhciEvent::Done) => if s.caps.n_scratch > MAX_SCRATCH {
            xhci_go(s, XhciPhase::Failed(UsbMsdInitError::ControllerInitFailed))
        } else if s.caps.n_scratch > 0 {
            xhci_go(s, XhciPhase::ScratchEntry(0))
        } else {
            xhci_go(s, XhciPhase::DcbaapLo)
        },
        (XhciPhase::ScratchEntry(i), XhciEvent::Done) => if i + 1 < s.caps.n_scratch {
            xhci_go(s, XhciPhase::ScratchEntry((i + 1) as u16))
        } else {
            xhci_go(s, XhciPhase::ScratchArray)
        },
        (XhciPhase::ScratchArray, XhciEvent::Done) => xhci_go(s, XhciPhase::DcbaapLo),
        (XhciPhase::DcbaapLo, XhciEvent::Done) => xhci_go(s, XhciPhase::DcbaapHi),
        (XhciPhase::DcbaapHi, XhciEvent::Done) => xhci_go(s, XhciPhase::CrcrLo),
        (XhciPhase::CrcrLo, XhciEvent::Done) => xhci_go(s, XhciPhase::CrcrHi),
        (XhciPhase::CrcrHi, XhciEvent::Done) => xhci_go(s, XhciPhase::ErstWord(0)),
        (XhciPhase::ErstWord(k), XhciEvent::Done) => if k < 3 {
            xhci_go(s, XhciPhase::ErstWord((k + 1) as u8))
        } else {
            xhci_go(s, XhciPhase::Erstsz)
        },
        (XhciPhase::Erstsz, XhciEvent::Done) => xhci_go(s, XhciPhase::ErdpLo),
        (XhciPhase::ErdpLo, XhciEvent::Done) => xhci_go(s, XhciPhase::ErdpHi),
        (XhciPhase::ErdpHi, XhciEvent::Done) => xhci_go(s, XhciPhase::ErstbaLo),
        (XhciPhase::ErstbaLo, XhciEvent::Done) => xhci_go(s, XhciPhase::ErstbaHi),
        (XhciPhase::ErstbaHi, XhciEvent::Done) => xhci_go(s, XhciPhase::ReadIman),
        (XhciPhase::ReadIman, XhciEvent::Value(v)) => xhci_go(s, XhciPhase::WriteIman(v | 0x02)),
        (XhciPhase::WriteIman(_), XhciEvent::Done) => xhci_go(s, XhciPhase::Run),
        (XhciPhase::Run, XhciEvent::Done) => xhci_go(s, XhciPhase::WaitRunning),
        (XhciPhase::WaitRunning, XhciEvent::Sample(v, now)) => if v & STS_HCH == 0 {
            xhci_go(s, first_port(s, true))
        } else if xhci_waited(s, now) > s.tsc_freq {
            xhci_go(s, XhciPhase::Failed(UsbMsdInitError::ControllerInitFailed))
        } else {
            XhciState {
                wait_start: Some(
                    match s.wait_start {
                        Some(start) => start,
                        None => now,
                    },
                ),
                ..s
            }
        },
        (XhciPhase::PowerOffRead(p), XhciEvent::Value(v)) => xhci_go(
            s,
            XhciPhase::PowerOffWrite(p, (v & !PORTSC_RW1C) & !PORTSC_PP),
        ),
        (XhciPhase::PowerOffWrite(p, _), XhciEvent::Done) => if p + 1 < s.caps.max_ports {
            xhci_go(s, XhciPhase::PowerOffRead((p + 1) as u8))
        } else {
            xhci_go(s, XhciPhase::PowerOffSettle)
        },
        (XhciPhase::PowerOffSettle, XhciEvent::Done) => xhci_go(s, first_port(s, false)),
        (XhciPhase::PowerOnRead(p), XhciEvent::Value(v)) => xhci_go(
            s,
            XhciPhase::PowerOnWrite(p, (v & !PORTSC_RW1C) | PORTSC_PP),
        ),
        (XhciPhase::PowerOnWrite(p, _), XhciEvent::Done) => if p + 1 < s.caps.max_ports {
            xhci_go(s, XhciPhase::PowerOnRead((p + 1) as u8))
        } else {
            xhci_go(s, XhciPhase::PowerOnSettle)
        },
        (XhciPhase::PowerOnSettle, XhciEvent::Done) => xhci_go(s, XhciPhase::Done),
        _ => s,
    }
}

/// An xHCI controller bring-up.
pub struct XhciBringUp {
    state: XhciState,
}

impl XhciBringUp {
    pub closed spec fn spec_state(&self) -> XhciState {
        self.state
    }

    /// The bring-up of the controller at `mmio_base`, with its DMA area at
    /// `dma_base`.
    pub fn new(mmio_base: u64, tsc_freq: u64, dma_base: u64) -> (r: Self)
        requires
            mmio_base <= MMIO_BASE_LIMIT,
            dma_base <= DMA_BASE_LIMIT,
        ensures
            r.spec_state().phase == XhciPhase::ReadCaps,
            r.spec_state().mmio_base == mmio_base,
            r.spec_state().tsc_freq == tsc_freq,
            r.spec_state().dma_base == dma_base,
            r.spec_state().wait_start is None,
            xhci_wf(r.spec_state()),
    {
        XhciBringUp {
            state: XhciState {
                phase: XhciPhase::ReadCaps,
                mmio_base,
                tsc_freq,
                dma_base,
                caps: XhciCaps {
                    op_base: 0,
                    rt_base: 0,
                    db_base: 0,
                    max_slots: 0,
                    max_ports: 0,
                    ctx_size: 0,
                    n_scratch: 0,
                    hccparams1: 0,
                },
                wait_start: None,
            },
        }
    }

    /// The bring-up's progress.
    pub fn state(&self) -> (r: XhciState)
        ensures
            r == self.spec_state(),
    {
        self.state
    }

    /// The action of the current phase.
    #[verifier::rlimit(40)]
    pub fn action(&self) -> (r: XhciAction)
        requires
            xhci_wf(self.spec_state()),
        ensures
            r == xhci_action(self.spec_state()),
    {
        let s = self.state;
        let c = s.caps;
        let dma = s.dma_base;
        match s.phase {
            XhciPhase::ReadCaps => XhciAction::ReadCaps,
            XhciPhase::ZeroDma => XhciAction::ZeroDma,
            XhciPhase::HandOff => XhciAction::BiosHandOff(c.hccparams1),
            XhciPhase::HandOffSettle => XhciAction::DelayMs(10),
            XhciPhase::Reset(_) => XhciAction::ResetController,
            XhciPhase::Backoff(a) => XhciAction::DelayMs(100 * (a as u64 + 1)),
            XhciPhase::PostReset => XhciAction::DelayMs(50),
            XhciPhase::MaxSlots => XhciAction::Write(
                c.op_base + OP_CONFIG,
                if c.max_slots < 16 { c.max_slots as u32 } else { 16u32 },
            ),
            XhciPhase::ScratchEntry(i) => XhciAction::WriteDma64(
                dma + OFF_SCRATCH_ARR + i as u64 * 8,
                dma + OFF_SCRATCH_PG + i as u64 * 4096,
            ),
            XhciPhase::ScratchArray => XhciAction::WriteDma64(dma + OFF_DCBAA, dma + OFF_SCRATCH_ARR),
            XhciPhase::DcbaapLo => XhciAction::Write(c.op_base + OP_DCBAAP, (dma + OFF_DCBAA) as u32),
            XhciPhase::DcbaapHi => XhciAction::Write(c.op_base + (OP_DCBAAP + 4), ((dma + OFF_DCBAA) >> 32u64) as u32),
            XhciPhase::CrcrLo => XhciAction::Write(
                c.op_base + OP_CRCR,
                (((dma + OFF_CMD_RING) as u32) & 0xFFFF_FFC0) | 1,
            ),
            XhciPhase::CrcrHi => XhciAction::Write(c.op_base + (OP_CRCR + 4), ((dma + OFF_CMD_RING) >> 32u64) as u32),
            XhciPhase::ErstWord(k) => {
                let er = dma + OFF_EVT_RING;
                let word = if k == 0 {
                    er as u32
                } else if k == 1 {
                    (er >> 32u64) as u32
                } else if k == 2 {
                    EVT_RING_LEN as u32
                } else {
                    0u32
                };
                XhciAction::WriteDma32(dma + OFF_ERST + k as u64 * 4, word)
            },
            XhciPhase::Erstsz => XhciAction::Write(c.rt_base + IR0_ERSTSZ, 1),
            XhciPhase::ErdpLo => XhciAction::Write(
                c.rt_base + IR0_ERDP,
                (((dma + OFF_EVT_RING) as u32) & 0xFFFF_FFF0) | 0x08,
            ),
            XhciPhase::ErdpHi => XhciAction::Write(c.rt_base + (IR0_ERDP + 4), ((dma + OFF_EVT_RING) >> 32u64) as u32),
            XhciPhase::ErstbaLo => XhciAction::Write(c.rt_base + IR0_ERSTBA, (dma + OFF_ERST) as u32),
            XhciPhase::ErstbaHi => XhciAction::Write(c.rt_base + (IR0_ERSTBA + 4), ((dma + OFF_ERST) >> 32u64) as u32),
            XhciPhase::ReadIman => XhciAction::Read(c.rt_base + IR0_IMAN),
            XhciPhase::WriteIman(v) => XhciAction::Write(c.rt_base + IR0_IMAN, v),
            XhciPhase::Run => XhciAction::Write(c.op_base + OP_USBCMD, CMD_RS | CMD_INTE),
            XhciPhase::WaitRunning => XhciAction::Sample(c.op_base + OP_USBSTS),
            XhciPhase::PowerOffRead(p) | XhciPhase::PowerOnRead(p) => XhciAction::Read(
                c.op_base + PORT_REG_BASE + p as u64 * PORT_REG_STRIDE,
            ),
            XhciPhase::PowerOffWrite(p, v) | XhciPhase::PowerOnWrite(p, v) => XhciAction::Write(
                c.op_base + PORT_REG_BASE + p as u64 * PORT_REG_STRIDE,
                v,
            ),
            XhciPhase::PowerOffSettle => XhciAction::DelayMs(50),
            XhciPhase::PowerOnSettle => XhciAction::DelayMs(200),
            XhciPhase::Done | XhciPhase::Failed(_) => XhciAction::Finish,
        }
    }

    /// Move on to phase `p`.
    fn go(&mut self, p: XhciPhase)
        ensures
            final(self).spec_state() == xhci_go(old(self).spec_state(), p),
    {
        self.state.phase = p;
        self.state.wait_start = None;
    }

    /// The first phase of a power sweep over the ports.
    fn first_port(&self, off: bool) -> (r: XhciPhase)
        ensures
            r == first_port(self.spec_state(), off),
    {
        if self.state.caps.max_ports == 0 {
            if off { XhciPhase::PowerOffSettle } else { XhciPhase::PowerOnSettle }
        } else {
            if off { XhciPhase::PowerOffRead(0) } else { XhciPhase::PowerOnRead(0) }
        }
    }

    /// Take the platform's report of the last action.
    #[verifier::rlimit(50)]
    pub fn on_event(&mut self, ev: XhciEvent)
        requires
            xhci_wf(old(self).spec_state()),
        ensures
            xhci_wf(final(self).spec_state()),
            final(self).spec_state() == xhci_next(old(self).spec_state(), ev),
    {
        let s = self.state;
        match (s.phase, ev) {
            (XhciPhase::ReadCaps, XhciEvent::Caps(probe, hcs1, hcs2, hcc1, dboff, rtsoff)) => {
                match decode_caps(s.mmio_base, probe, hcs1, hcs2, hcc1, dboff, rtsoff) {
                    Ok(caps) => {
                        proof {
                            assert(probe & 0xFF <= 0xFFu32) by (bit_vector);
                        }
                        self.state.caps = caps;
                        self.go(XhciPhase::ZeroDma);
                    },
                    Err(e) => self.go(XhciPhase::Failed(e)),
                }
            },
            (XhciPhase::ZeroDma, XhciEvent::Done) => self.go(XhciPhase::HandOff),
            (XhciPhase::HandOff, XhciEvent::Done) => self.go(XhciPhase::HandOffSettle),
            (XhciPhase::HandOffSettle, XhciEvent::Done) => self.go(XhciPhase::Reset(0)),
            (XhciPhase::Reset(a), XhciEvent::Outcome(ok)) => if ok {
                self.go(XhciPhase::PostReset)
            } else {
                self.go(XhciPhase::Backoff(a))
            },
            (XhciPhase::Backoff(a), XhciEvent::Done) => if a < RESET_ATTEMPTS - 1 {
                self.go(XhciPhase::Reset(a + 1))
            } else {
                self.go(XhciPhase::Failed(UsbMsdInitError::ControllerInitFailed))
            },
            (XhciPhase::PostReset, XhciEvent::Done) => self.go(XhciPhase::MaxSlots),
            (XhciPhase::MaxSlots, XhciEvent::Done) => if s.caps.n_scratch > MAX_SCRATCH {
                self.go(XhciPhase::Failed(UsbMsdInitError::ControllerInitFailed))
            } else if s.caps.n_scratch > 0 {
                self.go(XhciPhase::ScratchEntry(0))
            } else {
                self.go(XhciPhase::DcbaapLo)
            },
            (XhciPhase::ScratchEntry(i), XhciEvent::Done) => if i < s.caps.n_scratch && i + 1 < s.caps.n_scratch {
                self.go(XhciPhase::ScratchEntry(i + 1))
            } else {
                self.go(XhciPhase::ScratchArray)
            },
            (XhciPhase::ScratchArray, XhciEvent::Done) => self.go(XhciPhase::DcbaapLo),
            (XhciPhase::DcbaapLo, XhciEvent::Done) => self.go(XhciPhase::DcbaapHi),
            (XhciPhase::DcbaapHi, XhciEvent::Done) => self.go(XhciPhase::CrcrLo),
            (XhciPhase::CrcrLo, XhciEvent::Done) => self.go(XhciPhase::CrcrHi),
            (XhciPhase::CrcrHi, XhciEvent::Done) => self.go(XhciPhase::ErstWord(0)),
            (XhciPhase::ErstWord(k), XhciEvent::Done) => if k < 3 {
                self.go(XhciPhase::ErstWord(k + 1))
            } else {
                self.go(XhciPhase::Erstsz)
            },
            (XhciPhase::Erstsz, XhciEvent::Done) => self.go(XhciPhase::ErdpLo),
            (XhciPhase::ErdpLo, XhciEvent::Done) => self.go(XhciPhase::ErdpHi),
            (XhciPhase::ErdpHi, XhciEvent::Done) => self.go(XhciPhase::ErstbaLo),
            (XhciPhase::ErstbaLo, XhciEvent::Done) => self.go(XhciPhase::ErstbaHi),
            (XhciPhase::ErstbaHi, XhciEvent::Done) => self.go(XhciPhase::ReadIman),
            (XhciPhase::ReadIman, XhciEvent::Value(v)) => self.go(XhciPhase::WriteIman(v | 0x02)),
            (XhciPhase::WriteIman(_), XhciEvent::Done) => self.go(XhciPhase::Run),
            (XhciPhase::Run, XhciEvent::Done) => self.go(XhciPhase::WaitRunning),
            (XhciPhase::WaitRunning, XhciEvent::Sample(v, now)) => {
                let waited = match s.wait_start {
                    Some(start) => elapsed(start, now),
                    None => 0,
                };
                if v & STS_HCH == 0 {
                    let p = self.first_port(true);
                    self.go(p);
                } else if waited > s.tsc_freq {
                    self.go(XhciPhase::Failed(UsbMsdInitError::ControllerInitFailed));
                } else if s.wait_start.is_none() {
                    self.state.wait_start = Some(now);
                }
            },
            (XhciPhase::PowerOffRead(p), XhciEvent::Value(v)) => self.go(
                XhciPhase::PowerOffWrite(p, (v & !PORTSC_RW1C) & !PORTSC_PP),
            ),
            (XhciPhase::PowerOffWrite(p, _), XhciEvent::Done) => if p < s.caps.max_ports && p + 1 < s.caps.max_ports {
                self.go(XhciPhase::PowerOffRead(p + 1))
            } else {
                self.go(XhciPhase::PowerOffSettle)
            },
            (XhciPhase::PowerOffSettle, XhciEvent::Done) => {
                let p = self.first_port(false);
                self.go(p);
            },
            (XhciPhase::PowerOnRead(p), XhciEvent::Value(v)) => self.go(
                XhciPhase::PowerOnWrite(p, (v & !PORTSC_RW1C) | PORTSC_PP),
            ),
            (XhciPhase::PowerOnWrite(p, _), XhciEvent::Done) => if p < s.caps.max_ports && p + 1 < s.caps.max_ports {
                self.go(XhciPhase::PowerOnRead(p + 1))
            } else {
                self.go(XhciPhase::PowerOnSettle)
            },
            (XhciPhase::PowerOnSettle, XhciEvent::Done) => self.go(XhciPhase::Done),
            _ => {},
        }
    }

    /// How the bring-up ended: the decoded capabilities, or the error;
    /// `None` while it is under way.
    pub fn outcome(&self) -> (r: Option<Result<XhciCaps, UsbMsdInitError>>)
        ensures
            r == (match self.spec_state().phase {
                XhciPhase::Done => Some(Ok::<XhciCaps, UsbMsdInitError>(self.spec_state().caps)),
                XhciPhase::Failed(e) => Some(Err::<XhciCaps, UsbMsdInitError>(e)),
                _ => None,
            }),
    {
        match self.state.phase {
            XhciPhase::Done => Some(Ok(self.state.caps)),
            XhciPhase::Failed(e) => Some(Err(e)),
            _ => None,
        }
    }
}

/// The bring-up's invariant: at most three reset attempts; the scratchpad
/// array is filled only when the controller asks for pages the DMA area
/// holds, and only within them; the power sweeps stay within the ports;
/// the segment table entry has four words; the only failure is a
/// controller init failure.
pub open spec fn xhci_inv(s: XhciState) -> bool {
    &&& (s.phase matches XhciPhase::Reset(a) ==> a < RESET_ATTEMPTS)
    &&& (s.phase matches XhciPhase::Backoff(a) ==> a < RESET_ATTEMPTS)
    &&& (s.phase matches XhciPhase::ScratchEntry(i) ==> i < s.caps.n_scratch <= MAX_SCRATCH)
    &&& (s.phase == XhciPhase::ScratchArray ==> 0 < s.caps.n_scratch <= MAX_SCRATCH)
    &&& (s.phase matches XhciPhase::ErstWord(k) ==> k < 4)
    &&& (s.phase matches XhciPhase::PowerOffRead(p) ==> p < s.caps.max_ports)
    &&& (s.phase matches XhciPhase::PowerOffWrite(p, _) ==> p < s.caps.max_ports)
    &&& (s.phase matches XhciPhase::PowerOnRead(p) ==> p < s.caps.max_ports)
    &&& (s.phase matches XhciPhase::PowerOnWrite(p, _) ==> p < s.caps.max_ports)
    &&& (s.phase matches XhciPhase::Failed(e) ==> e == UsbMsdInitError::ControllerInitFailed)
}

/// Whatever the controller reads back and whenever it answers, the
/// bring-up keeps its invariant from its start on.
pub proof fn lemma_xhci_inv(s: XhciState, ev: XhciEvent)
    ensures
        xhci_inv(XhciState { phase: XhciPhase::ReadCaps, wait_start: None, ..s }),
        xhci_inv(s) ==> xhci_inv(xhci_next(s, ev)),
{
}

} // verus!
