//! The e1000e reset-and-bring-up sequence as a state machine.
//!
//! Each phase names one register access or platform routine (MMIO reads
//! and writes, the MDIC PHY accesses, the reset and MAC routines, delays);
//! the platform performs it and reports what it read, and that decides the
//! next phase. The sequence: mask and clear interrupts; disable RX and TX
//! and wait for the queues to stop; disable bus mastering and wait for it;
//! reset (fatal on timeout); wait for the EEPROM auto-read; clean up
//! (interrupts, ring registers, receive address, loopback, multicast
//! table); disable ULP, make sure the PHY answers (with up to three
//! recovery steps, fatal after that), wake the PHY, reset it and restart
//! auto-negotiation; read and check the MAC (fatal if invalid) and program
//! it; set up both descriptor rings; re-enable bus mastering, enable RX,
//! arm it, enable TX, set link up, restart auto-negotiation and let the
//! PHY settle. Waits that time out only warn.

use super::init::{
    check_mac, mac_valid, phy_recovery, ring_len_bytes, E1000eConfig, E1000eInitError, PhyRecovery,
};
use super::phy::{BMCR_ANENABLE, BMCR_ANRESTART, BMCR_ISOLATE, BMCR_PDOWN, BMCR_RESET, PHY_BMCR};
use super::regs::{
    CTRL, CTRL_GIO_MASTER_DISABLE, EECD, EECD_AUTO_RD, ICR, IMC, INT_MASK_ALL, RAH0, RAL0, RCTL, RCTL_EN,
    RCTL_LBM_MASK, RDBAH, RDBAL, RDH, RDLEN, RDT, STATUS, STATUS_GIO_MASTER_EN, TCTL, TCTL_EN, TDBAH, TDBAL,
    TDH, TDLEN, TDT, XDCTL_QUEUE_ENABLE,
};
use crate::mainloop::context::{elapsed, elapsed_ticks};
use crate::types::MacAddress;
use vstd::prelude::*;

verus! {

/// Number of ring registers cleared after the reset.
pub const RING_REGISTERS: u8 = 10;

/// Where the bring-up is; the numbers in comments are the sequence's
/// phases.
#[derive(Debug, Clone, Copy, PartialEq, Eq, Structural)]
pub enum BringUpPhase {
    // 1: mask and clear interrupts.
    MaskInterrupts,
    FlushMask,
    ClearPending,
    // 2: disable RX and TX, wait for the queues to stop.
    ReadRctl,
    DisableRx(u32),
    FlushRx,
    ReadTctl,
    DisableTx(u32),
    FlushTx,
    Quiesce,
    // 3: disable bus mastering and wait for it.
    ReadCtrl,
    MasterDisable(u32),
    FlushCtrl,
    WaitMaster,
    // 4, 5: reset, EEPROM auto-read.
    Reset,
    WaitEeprom,
    // 6: post-reset cleanup.
    RemaskInterrupts,
    ClearPendingAgain,
    FlushRemask,
    ClearRing(u8),
    FlushRingClear,
    ClearRal,
    ClearRah,
    ReadRctlLoopback,
    ClearLoopback(u32),
    ClearMta,
    FlushCleanup,
    // 7: ULP, PHY access, PHY wake.
    DisableUlp,
    CheckPhy(u32),
    RecoverPhy(u32),
    WakeReadPower,
    WakeWritePower(u16),
    WakeReadIsolate,
    WakeWriteIsolate(u16),
    WakeSettle,
    PhyReset,
    PhyResetWait,
    PhyResetSettle,
    WakeReadAutoneg,
    WakeWriteAutoneg(u16),
    WakeAutonegSettle,
    // 8: MAC.
    ReadMac,
    WriteMac,
    FlushMac,
    // 9: descriptor rings.
    SetupRxRing,
    InitRxDescriptors,
    SetupTxRing,
    InitTxDescriptors,
    FlushRings,
    // 10: enable and bring the link up.
    ReadCtrlEnable,
    MasterEnable(u32),
    FlushMasterEnable,
    EnableRx,
    FlushEnableRx,
    ArmRx,
    FlushArmRx,
    EnableTx,
    FlushEnableTx,
    LinkUp,
    ReadAutoneg,
    WriteAutoneg(u16),
    Settle,
    Done,
    Failed(E1000eInitError),
}

/// What the platform is to do next.
#[derive(Debug, Clone, Copy, PartialEq, Eq)]
pub enum BringUpAction {
    /// Write `value` to register `reg`.
    Write(u32, u32),
    /// Read register `reg` (answer: `Value`; a flush reads STATUS).
    Read(u32),
    /// Read register `reg` while waiting on it (answer: `Sample`).
    Sample(u32),
    /// Read the RX and TX descriptor control registers (answer: `Queues`).
    SampleQueues,
    /// Run the device reset routine (answer: `Outcome`).
    ResetDevice,
    /// Clear the multicast table.
    ClearMulticast,
    /// Disable ULP mode (answer: `Outcome`, not used).
    DisableUlp,
    /// Check that the PHY answers (answer: `Outcome`).
    CheckPhy,
    /// Power-cycle the PHY with a LANPHYPC toggle.
    TogglePhyPower,
    /// Force SMBus mode, toggle LANPHYPC, clear SMBus mode.
    SmbusTogglePhyPower,
    /// Read PHY register `reg` (answer: `Phy`).
    PhyRead(u32),
    /// Read PHY register `reg` while waiting on it (answer: `PhySample`).
    PhySample(u32),
    /// Write `value` to PHY register `reg` (its outcome is not used).
    PhyWrite(u32, u16),
    /// Busy-wait this many TSC ticks.
    Delay(u64),
    /// Read the MAC address (answer: `Mac`).
    ReadMac,
    /// Program the receive address with this MAC, marked valid.
    WriteMac(MacAddress),
    /// Program the RX ring registers for a ring of this many bytes.
    SetupRxRing(u32),
    /// Give each RX descriptor its buffer.
    InitRxDescriptors,
    /// Program the TX ring registers for a ring of this many bytes.
    SetupTxRing(u32),
    /// Clear the TX descriptors.
    InitTxDescriptors,
    /// Enable the receiver.
    EnableRx,
    /// Move the RX tail to arm reception.
    ArmRx,
    /// Enable the transmitter.
    EnableTx,
    /// Set link up.
    SetLinkUp,
    /// Nothing more: the bring-up is done or failed.
    Finish,
}

/// What the platform reports back.
#[derive(Debug, Clone, Copy, PartialEq, Eq)]
pub enum BringUpEvent {
    /// The action was carried out.
    Done,
    /// The register read gave this value.
    Value(u32),
    /// The sampled register's value, and the TSC when it was read.
    Sample(u32, u64),
    /// RXDCTL and TXDCTL, and the TSC when they were read.
    Queues(u32, u32, u64),
    /// The routine succeeded (`true`) or not.
    Outcome(bool),
    /// The PHY register's value, if the read succeeded.
    Phy(Option<u16>),
    /// The sampled PHY register's value, if the read succeeded, and the
    /// TSC when it was read.
    PhySample(Option<u16>, u64),
    /// The MAC read routine's status (0: success) and the address read.
    Mac(u32, MacAddress),
}

/// A wait that gave up; the bring-up goes on.
#[derive(Debug, Clone, Copy, PartialEq, Eq, Structural)]
pub enum BringUpWarning {
    /// RX/TX did not stop within 10 ms.
    QuiesceTimeout,
    /// Bus mastering did not stop within 10 ms.
    MasterDisableTimeout,
    /// The EEPROM auto-read did not finish within 500 ms.
    EepromTimeout,
}

/// Bring-up state.
#[derive(Debug, Clone, Copy)]
pub struct E1000eBringUp {
    pub phase: BringUpPhase,
    /// TSC ticks per second.
    pub tsc_freq: u64,
    /// Size in bytes of the RX and TX descriptor rings.
    pub rx_ring_len: u32,
    pub tx_ring_len: u32,
    /// TSC at the first sample of the current wait.
    pub wait_start: Option<u64>,
    /// The MAC address, once read and checked.
    pub mac: MacAddress,
}

/// The ring registers cleared after the reset, in order.
pub open spec fn ring_register_at(i: u8) -> u32 {
    if i == 0 {
        RDBAL
    } else if i == 1 {
        RDBAH
    } else if i == 2 {
        RDLEN
    } else if i == 3 {
        RDH
    } else if i == 4 {
        RDT
    } else if i == 5 {
        TDBAL
    } else if i == 6 {
        TDBAH
    } else if i == 7 {
        TDLEN
    } else if i == 8 {
        TDH
    } else {
        TDT
    }
}

/// What to do after failed PHY check `attempt` (below 3).
pub open spec fn recovery_action(attempt: u32, tsc_freq: u64) -> BringUpAction {
    if attempt == 0 {
        BringUpAction::Delay(tsc_freq / 20)
    } else if attempt == 1 {
        BringUpAction::TogglePhyPower
    } else {
        BringUpAction::SmbusTogglePhyPower
    }
}

/// The action of each phase.
pub open spec fn bringup_action(s: E1000eBringUp) -> BringUpAction {
    match s.phase {
        BringUpPhase::MaskInterrupts | BringUpPhase::RemaskInterrupts => BringUpAction::Write(IMC, INT_MASK_ALL),
        BringUpPhase::FlushMask | BringUpPhase::FlushRx | BringUpPhase::FlushTx | BringUpPhase::FlushCtrl
        | BringUpPhase::FlushRemask | BringUpPhase::FlushRingClear | BringUpPhase::FlushCleanup
        | BringUpPhase::FlushMac | BringUpPhase::FlushRings | BringUpPhase::FlushMasterEnable
        | BringUpPhase::FlushEnableRx | BringUpPhase::FlushArmRx | BringUpPhase::FlushEnableTx => BringUpAction::Read(
            STATUS,
        ),
        BringUpPhase::ClearPending | BringUpPhase::ClearPendingAgain => BringUpAction::Read(ICR),
        BringUpPhase::ReadRctl | BringUpPhase::ReadRctlLoopback => BringUpAction::Read(RCTL),
        BringUpPhase::DisableRx(v) | BringUpPhase::ClearLoopback(v) => BringUpAction::Write(RCTL, v),
        BringUpPhase::ReadTctl => BringUpAction::Read(TCTL),
        BringUpPhase::DisableTx(v) => BringUpAction::Write(TCTL, v),
        BringUpPhase::Quiesce => BringUpAction::SampleQueues,
        BringUpPhase::ReadCtrl | BringUpPhase::ReadCtrlEnable => BringUpAction::Read(CTRL),
        BringUpPhase::MasterDisable(v) | BringUpPhase::MasterEnable(v) => BringUpAction::Write(CTRL, v),
        BringUpPhase::WaitMaster => BringUpAction::Sample(STATUS),
        BringUpPhase::Reset => BringUpAction::ResetDevice,
        BringUpPhase::WaitEeprom => BringUpAction::Sample(EECD),
        BringUpPhase::ClearRing(i) => BringUpAction::Write(ring_register_at(i), 0),
        BringUpPhase::ClearRal => BringUpAction::Write(RAL0, 0),
        BringUpPhase::ClearRah => BringUpAction::Write(RAH0, 0),
        BringUpPhase::ClearMta => BringUpAction::ClearMulticast,
        BringUpPhase::DisableUlp => BringUpAction::DisableUlp,
        BringUpPhase::CheckPhy(_) => BringUpAction::CheckPhy,
        BringUpPhase::RecoverPhy(a) => recovery_action(a, s.tsc_freq),
        BringUpPhase::WakeReadPower | BringUpPhase::WakeReadIsolate | BringUpPhase::WakeReadAutoneg
        | BringUpPhase::ReadAutoneg => BringUpAction::PhyRead(PHY_BMCR),
        BringUpPhase::WakeWritePower(v) | BringUpPhase::WakeWriteIsolate(v) | BringUpPhase::WakeWriteAutoneg(v)
        | BringUpPhase::WriteAutoneg(v) => BringUpAction::PhyWrite(PHY_BMCR, v),
        BringUpPhase::WakeSettle | BringUpPhase::Settle => BringUpAction::Delay(s.tsc_freq / 10),
        BringUpPhase::PhyReset => BringUpAction::PhyWrite(PHY_BMCR, BMCR_RESET),
        BringUpPhase::PhyResetWait => BringUpAction::PhySample(PHY_BMCR),
        BringUpPhase::PhyResetSettle | BringUpPhase::WakeAutonegSettle => BringUpAction::Delay(s.tsc_freq / 100),
        BringUpPhase::ReadMac => BringUpAction::ReadMac,
        BringUpPhase::WriteMac => BringUpAction::WriteMac(s.mac),
        BringUpPhase::SetupRxRing => BringUpAction::SetupRxRing(s.rx_ring_len),
        BringUpPhase::InitRxDescriptors => BringUpAction::InitRxDescriptors,
        BringUpPhase::SetupTxRing => BringUpAction::SetupTxRing(s.tx_ring_len),
        BringUpPhase::InitTxDescriptors => BringUpAction::InitTxDescriptors,
        BringUpPhase::EnableRx => BringUpAction::EnableRx,
        BringUpPhase::ArmRx => BringUpAction::ArmRx,
        BringUpPhase::EnableTx => BringUpAction::EnableTx,
        BringUpPhase::LinkUp => BringUpAction::SetLinkUp,
        BringUpPhase::Done | BringUpPhase::Failed(_) => BringUpAction::Finish,
    }
}

/// Ticks since the current wait's first sample (0 at that sample).
pub open spec fn wait_elapsed(s: E1000eBringUp, now: u64) -> int {
    match s.wait_start {
        Some(start) => elapsed_ticks(start, now),
        None => 0,
    }
}

/// Move on to phase `p`, ending any wait.
pub open spec fn move_to(s: E1000eBringUp, p: BringUpPhase) -> E1000eBringUp {
    E1000eBringUp { phase: p, wait_start: None, ..s }
}

/// Stay in a wait, its start being the first sample's time.
pub open spec fn keep_waiting(s: E1000eBringUp, now: u64) -> E1000eBringUp {
    E1000eBringUp {
        wait_start: Some(
            match s.wait_start {
                Some(start) => start,
                None => now,
            },
        ),
        ..s
    }
}

/// A wait ends when its condition holds or after more than `timeout`
/// ticks, and goes on to `next`.
pub open spec fn wait_step(s: E1000eBringUp, ready: bool, now: u64, timeout: u64, next: BringUpPhase) -> E1000eBringUp {
    if ready || wait_elapsed(s, now) > timeout {
        move_to(s, next)
    } else {
        keep_waiting(s, now)
    }
}

/// The BMCR value with `bit` cleared if it was set (`None`: no write).
pub open spec fn bmcr_cleared(r: Option<u16>, bit: u16) -> Option<u16> {
    match r {
        Some(b) => if b & bit != 0 {
            Some(b & !bit)
        } else {
            None
        },
        None => None,
    }
}

/// How the state moves on an event; an event that does not answer the
/// current action leaves the state as it is.
pub open spec fn bringup_next(s: E1000eBringUp, ev: BringUpEvent) -> E1000eBringUp {
    match (s.phase, ev) {
        (BringUpPhase::MaskInterrupts, BringUpEvent::Done) => move_to(s, BringUpPhase::FlushMask),
        (BringUpPhase::FlushMask, BringUpEvent::Value(_)) => move_to(s, BringUpPhase::ClearPending),
        (BringUpPhase::ClearPending, BringUpEvent::Value(_)) => move_to(s, BringUpPhase::ReadRctl),
        (BringUpPhase::ReadRctl, BringUpEvent::Value(v)) => move_to(s, BringUpPhase::DisableRx(v & !RCTL_EN)),
        (BringUpPhase::DisableRx(_), BringUpEvent::Done) => move_to(s, BringUpPhase::FlushRx),
        (BringUpPhase::FlushRx, BringUpEvent::Value(_)) => move_to(s, BringUpPhase::ReadTctl),
        (BringUpPhase::ReadTctl, BringUpEvent::Value(v)) => move_to(s, BringUpPhase::DisableTx(v & !TCTL_EN)),
        (BringUpPhase::DisableTx(_), BringUpEvent::Done) => move_to(s, BringUpPhase::FlushTx),
        (BringUpPhase::FlushTx, BringUpEvent::Value(_)) => move_to(s, BringUpPhase::Quiesce),
        (BringUpPhase::Quiesce, BringUpEvent::Queues(rx, tx, now)) => wait_step(
            s,
            rx & XDCTL_QUEUE_ENABLE == 0 && tx & XDCTL_QUEUE_ENABLE == 0,
            now,
            s.tsc_freq / 100,
            BringUpPhase::ReadCtrl,
        ),
        (BringUpPhase::ReadCtrl, BringUpEvent::Value(v)) => move_to(
            s,
            BringUpPhase::MasterDisable(v | CTRL_GIO_MASTER_DISABLE),
        ),
        (BringUpPhase::MasterDisable(_), BringUpEvent::Done) => move_to(s, BringUpPhase::FlushCtrl),
        (BringUpPhase::FlushCtrl, BringUpEvent::Value(_)) => move_to(s, BringUpPhase::WaitMaster),
        (BringUpPhase::WaitMaster, BringUpEvent::Sample(v, now)) => wait_step(
            s,
            v & STATUS_GIO_MASTER_EN == 0,
            now,
            s.tsc_freq / 100,
            BringUpPhase::Reset,
        ),
        (BringUpPhase::Reset, BringUpEvent::Outcome(ok)) => if ok {
            move_to(s, BringUpPhase::WaitEeprom)
        } else {
            move_to(s, BringUpPhase::Failed(E1000eInitError::ResetTimeout))
        },
        (BringUpPhase::WaitEeprom, BringUpEvent::Sample(v, now)) => wait_step(
            s,
            v & EECD_AUTO_RD != 0,
            now,
            s.tsc_freq / 2,
            BringUpPhase::RemaskInterrupts,
        ),
        (BringUpPhase::RemaskInterrupts, BringUpEvent::Done) => move_to(s, BringUpPhase::ClearPendingAgain),
        (BringUpPhase::ClearPendingAgain, BringUpEvent::Value(_)) => move_to(s, BringUpPhase::FlushRemask),
        (BringUpPhase::FlushRemask, BringUpEvent::Value(_)) => move_to(s, BringUpPhase::ClearRing(0)),
        (BringUpPhase::ClearRing(i), BringUpEvent::Done) => if i + 1 < RING_REGISTERS {
            move_to(s, BringUpPhase::ClearRing((i + 1) as u8))
        } else {
            move_to(s, BringUpPhase::FlushRingClear)
        },
        (BringUpPhase::FlushRingClear, BringUpEvent::Value(_)) => move_to(s, BringUpPhase::ClearRal),
        (BringUpPhase::ClearRal, BringUpEvent::Done) => move_to(s, BringUpPhase::ClearRah),
        (BringUpPhase::ClearRah, BringUpEvent::Done) => move_to(s, BringUpPhase::ReadRctlLoopback),
        (BringUpPhase::ReadRctlLoopback, BringUpEvent::Value(v)) => move_to(
            s,
            BringUpPhase::ClearLoopback(v & !RCTL_LBM_MASK),
        ),
        (BringUpPhase::ClearLoopback(_), BringUpEvent::Done) => move_to(s, BringUpPhase::ClearMta),
        (BringUpPhase::ClearMta, BringUpEvent::Done) => move_to(s, BringUpPhase::FlushCleanup),
        (BringUpPhase::FlushCleanup, BringUpEvent::Value(_)) => move_to(s, BringUpPhase::DisableUlp),
        (BringUpPhase::DisableUlp, BringUpEvent::Outcome(_)) => move_to(s, BringUpPhase::CheckPhy(0)),
        (BringUpPhase::CheckPhy(a), BringUpEvent::Outcome(ok)) => if ok {
            move_to(s, BringUpPhase::WakeReadPower)
        } else if a < 3 {
            move_to(s, BringUpPhase::RecoverPhy(a))
        } else {
            move_to(s, BringUpPhase::Failed(E1000eInitError::PhyNotAccessible))
        },
        (BringUpPhase::RecoverPhy(a), BringUpEvent::Done) => move_to(s, BringUpPhase::CheckPhy(a.wrapping_add(1))),
        (BringUpPhase::WakeReadPower, BringUpEvent::Phy(r)) => match bmcr_cleared(r, BMCR_PDOWN) {
            Some(v) => move_to(s, BringUpPhase::WakeWritePower(v)),
            None => move_to(s, BringUpPhase::WakeReadIsolate),
        },
        (BringUpPhase::WakeWritePower(_), BringUpEvent::Done) => move_to(s, BringUpPhase::WakeReadIsolate),
        (BringUpPhase::WakeReadIsolate, BringUpEvent::Phy(r)) => match bmcr_cleared(r, BMCR_ISOLATE) {
            Some(v) => move_to(s, BringUpPhase::WakeWriteIsolate(v)),
            None => move_to(s, BringUpPhase::WakeSettle),
        },
        (BringUpPhase::WakeWriteIsolate(_), BringUpEvent::Done) => move_to(s, BringUpPhase::WakeSettle),
        (BringUpPhase::WakeSettle, BringUpEvent::Done) => move_to(s, BringUpPhase::PhyReset),
        (BringUpPhase::PhyReset, BringUpEvent::Done) => move_to(s, BringUpPhase::PhyResetWait),
        (BringUpPhase::PhyResetWait, BringUpEvent::PhySample(r, now)) => if (r matches Some(b) && b & BMCR_RESET
            == 0) || wait_elapsed(s, now) >= s.tsc_freq / 2 {
            move_to(s, BringUpPhase::PhyResetSettle)
        } else {
            keep_waiting(s, now)
        },
        (BringUpPhase::PhyResetSettle, BringUpEvent::Done) => move_to(s, BringUpPhase::WakeReadAutoneg),
        (BringUpPhase::WakeReadAutoneg, BringUpEvent::Phy(r)) => match r {
            Some(b) => move_to(s, BringUpPhase::WakeWriteAutoneg(b | BMCR_ANENABLE | BMCR_ANRESTART)),
            None => move_to(s, BringUpPhase::WakeAutonegSettle),
        },
        (BringUpPhase::WakeWriteAutoneg(_), BringUpEvent::Done) => move_to(s, BringUpPhase::WakeAutonegSettle),
        (BringUpPhase::WakeAutonegSettle, BringUpEvent::Done) => move_to(s, BringUpPhase::ReadMac),
        (BringUpPhase::ReadMac, BringUpEvent::Mac(status, m)) => if status != 0 || !mac_valid(m@) {
            move_to(s, BringUpPhase::Failed(E1000eInitError::InvalidMac))
        } else {
            E1000eBringUp { phase: BringUpPhase::WriteMac, wait_start: None, mac: m, ..s }
        },
        (BringUpPhase::WriteMac, BringUpEvent::Done) => move_to(s, BringUpPhase::FlushMac),
        (BringUpPhase::FlushMac, BringUpEvent::Value(_)) => move_to(s, BringUpPhase::SetupRxRing),
        (BringUpPhase::SetupRxRing, BringUpEvent::Done) => move_to(s, BringUpPhase::InitRxDescriptors),
        (BringUpPhase::InitRxDescriptors, BringUpEvent::Done) => move_to(s, BringUpPhase::SetupTxRing),
        (BringUpPhase::SetupTxRing, BringUpEvent::Done) => move_to(s, BringUpPhase::InitTxDescriptors),
        (BringUpPhase::InitTxDescriptors, BringUpEvent::Done) => move_to(s, BringUpPhase::FlushRings),
        (BringUpPhase::FlushRings, BringUpEvent::Value(_)) => move_to(s, BringUpPhase::ReadCtrlEnable),
        (BringUpPhase::ReadCtrlEnable, BringUpEvent::Value(v)) => move_to(
            s,
            BringUpPhase::MasterEnable(v & !CTRL_GIO_MASTER_DISABLE),
        ),
        (BringUpPhase::MasterEnable(_), BringUpEvent::Done) => move_to(s, BringUpPhase::FlushMasterEnable),
        (BringUpPhase::FlushMasterEnable, BringUpEvent::Value(_)) => move_to(s, BringUpPhase::EnableRx),
        (BringUpPhase::EnableRx, BringUpEvent::Done) => move_to(s, BringUpPhase::FlushEnableRx),
        (BringUpPhase::FlushEnableRx, BringUpEvent::Value(_)) => move_to(s, BringUpPhase::ArmRx),
        (BringUpPhase::ArmRx, BringUpEvent::Done) => move_to(s, BringUpPhase::FlushArmRx),
        (BringUpPhase::FlushArmRx, BringUpEvent::Value(_)) => move_to(s, BringUpPhase::EnableTx),
        (BringUpPhase::EnableTx, BringUpEvent::Done) => move_to(s, BringUpPhase::FlushEnableTx),
        (BringUpPhase::FlushEnableTx, BringUpEvent::Value(_)) => move_to(s, BringUpPhase::LinkUp),
        (BringUpPhase::LinkUp, BringUpEvent::Done) => move_to(s, BringUpPhase::ReadAutoneg),
        (BringUpPhase::ReadAutoneg, BringUpEvent::Phy(r)) => match r {
            Some(b) => move_to(s, BringUpPhase::WriteAutoneg(b | BMCR_ANENABLE | BMCR_ANRESTART)),
            None => move_to(s, BringUpPhase::Settle),
        },
        (BringUpPhase::WriteAutoneg(_), BringUpEvent::Done) => move_to(s, BringUpPhase::Settle),
        (BringUpPhase::Settle, BringUpEvent::Done) => move_to(s, BringUpPhase::Done),
        _ => s,
    }
}

/// The warning an event gives: a wait that ends without its condition.
pub open spec fn bringup_warning(s: E1000eBringUp, ev: BringUpEvent) -> Option<BringUpWarning> {
    match (s.phase, ev) {
        (BringUpPhase::Quiesce, BringUpEvent::Queues(rx, tx, now)) => if !(rx & XDCTL_QUEUE_ENABLE == 0 && tx
            & XDCTL_QUEUE_ENABLE == 0) && wait_elapsed(s, now) > s.tsc_freq / 100 {
            Some(BringUpWarning::QuiesceTimeout)
        } else {
            None
        },
        (BringUpPhase::WaitMaster, BringUpEvent::Sample(v, now)) => if v & STATUS_GIO_MASTER_EN != 0
            && wait_elapsed(s, now) > s.tsc_freq / 100 {
            Some(BringUpWarning::MasterDisableTimeout)
        } else {
            None
        },
        (BringUpPhase::WaitEeprom, BringUpEvent::Sample(v, now)) => if v & EECD_AUTO_RD == 0 && wait_elapsed(
            s,
            now,
        ) > s.tsc_freq / 2 {
            Some(BringUpWarning::EepromTimeout)
        } else {
            None
        },
        _ => None,
    }
}

/// The ring register cleared at step `i` of the cleanup.
pub fn ring_register(i: u8) -> (r: u32)
    ensures
        r == ring_register_at(i),
{
    if i == 0 {
        RDBAL
    } else if i == 1 {
        RDBAH
    } else if i == 2 {
        RDLEN
    } else if i == 3 {
        RDH
    } else if i == 4 {
        RDT
    } else if i == 5 {
        TDBAL
    } else if i == 6 {
        TDBAH
    } else if i == 7 {
        TDLEN
    } else if i == 8 {
        TDH
    } else {
        TDT
    }
}

impl E1000eBringUp {
    /// The bring-up for `config`, at its first phase.
    pub fn new(config: &E1000eConfig) -> (r: Self)
        ensures
            r.phase == BringUpPhase::MaskInterrupts,
            r.tsc_freq == config.tsc_freq,
            r.rx_ring_len == config.rx_queue_size * 16,
            r.tx_ring_len == config.tx_queue_size * 16,
            r.wait_start is None,
    {
        E1000eBringUp {
            phase: BringUpPhase::MaskInterrupts,
            tsc_freq: config.tsc_freq,
            rx_ring_len: ring_len_bytes(config.rx_queue_size),
            tx_ring_len: ring_len_bytes(config.tx_queue_size),
            wait_start: None,
            mac: [0u8; 6],
        }
    }

    /// The action of the current phase.
    pub fn action(&self) -> (r: BringUpAction)
        ensures
            r == bringup_action(*self),
    {
        match self.phase {
            BringUpPhase::MaskInterrupts | BringUpPhase::RemaskInterrupts => BringUpAction::Write(IMC, INT_MASK_ALL),
            BringUpPhase::FlushMask | BringUpPhase::FlushRx | BringUpPhase::FlushTx | BringUpPhase::FlushCtrl
            | BringUpPhase::FlushRemask | BringUpPhase::FlushRingClear | BringUpPhase::FlushCleanup
            | BringUpPhase::FlushMac | BringUpPhase::FlushRings | BringUpPhase::FlushMasterEnable
            | BringUpPhase::FlushEnableRx | BringUpPhase::FlushArmRx | BringUpPhase::FlushEnableTx => {
                BringUpAction::Read(STATUS)
            },
            BringUpPhase::ClearPending | BringUpPhase::ClearPendingAgain => BringUpAction::Read(ICR),
            BringUpPhase::ReadRctl | BringUpPhase::ReadRctlLoopback => BringUpAction::Read(RCTL),
            BringUpPhase::DisableRx(v) | BringUpPhase::ClearLoopback(v) => BringUpAction::Write(RCTL, v),
            BringUpPhase::ReadTctl => BringUpAction::Read(TCTL),
            BringUpPhase::DisableTx(v) => BringUpAction::Write(TCTL, v),
            BringUpPhase::Quiesce => BringUpAction::SampleQueues,
            BringUpPhase::ReadCtrl | BringUpPhase::ReadCtrlEnable => BringUpAction::Read(CTRL),
            BringUpPhase::MasterDisable(v) | BringUpPhase::MasterEnable(v) => BringUpAction::Write(CTRL, v),
            BringUpPhase::WaitMaster => BringUpAction::Sample(STATUS),
            BringUpPhase::Reset => BringUpAction::ResetDevice,
            BringUpPhase::WaitEeprom => BringUpAction::Sample(EECD),
            BringUpPhase::ClearRing(i) => BringUpAction::Write(ring_register(i), 0),
            BringUpPhase::ClearRal => BringUpAction::Write(RAL0, 0),
            BringUpPhase::ClearRah => BringUpAction::Write(RAH0, 0),
            BringUpPhase::ClearMta => BringUpAction::ClearMulticast,
            BringUpPhase::DisableUlp => BringUpAction::DisableUlp,
            BringUpPhase::CheckPhy(_) => BringUpAction::CheckPhy,
            BringUpPhase::RecoverPhy(a) => match phy_recovery(a) {
                Some(PhyRecovery::Wait) => BringUpAction::Delay(self.tsc_freq / 20),
                Some(PhyRecovery::TogglePower) => BringUpAction::TogglePhyPower,
                _ => BringUpAction::SmbusTogglePhyPower,
            },
            BringUpPhase::WakeReadPower | BringUpPhase::WakeReadIsolate | BringUpPhase::WakeReadAutoneg
            | BringUpPhase::ReadAutoneg => BringUpAction::PhyRead(PHY_BMCR),
            BringUpPhase::WakeWritePower(v) | BringUpPhase::WakeWriteIsolate(v)
            | BringUpPhase::WakeWriteAutoneg(v) | BringUpPhase::WriteAutoneg(v) => BringUpAction::PhyWrite(
                PHY_BMCR,
                v,
            ),
            BringUpPhase::WakeSettle | BringUpPhase::Settle => BringUpAction::Delay(self.tsc_freq / 10),
            BringUpPhase::PhyReset => BringUpAction::PhyWrite(PHY_BMCR, BMCR_RESET),
            BringUpPhase::PhyResetWait => BringUpAction::PhySample(PHY_BMCR),
            BringUpPhase::PhyResetSettle | BringUpPhase::WakeAutonegSettle => BringUpAction::Delay(
                self.tsc_freq / 100,
            ),
            BringUpPhase::ReadMac => BringUpAction::ReadMac,
            BringUpPhase::WriteMac => BringUpAction::WriteMac(self.mac),
            BringUpPhase::SetupRxRing => BringUpAction::SetupRxRing(self.rx_ring_len),
            BringUpPhase::InitRxDescriptors => BringUpAction::InitRxDescriptors,
            BringUpPhase::SetupTxRing => BringUpAction::SetupTxRing(self.tx_ring_len),
            BringUpPhase::InitTxDescriptors => BringUpAction::InitTxDescriptors,
            BringUpPhase::EnableRx => BringUpAction::EnableRx,
            BringUpPhase::ArmRx => BringUpAction::ArmRx,
            BringUpPhase::EnableTx => BringUpAction::EnableTx,
            BringUpPhase::LinkUp => BringUpAction::SetLinkUp,
            BringUpPhase::Done | BringUpPhase::Failed(_) => BringUpAction::Finish,
        }
    }

    /// Ticks since the current wait's first sample.
    fn waited(&self, now: u64) -> (r: u64)
        ensures
            r == wait_elapsed(*self, now),
    {
        match self.wait_start {
            Some(start) => elapsed(start, now),
            None => 0,
        }
    }

    /// Take one sample of a wait: move on to `next` when `ready` or after
    /// more than `timeout` ticks; returns whether it gave up.
    fn wait_on(&mut self, ready: bool, now: u64, timeout: u64, next: BringUpPhase) -> (gave_up: bool)
        ensures
            *final(self) == wait_step(*old(self), ready, now, timeout, next),
            gave_up == (!ready && wait_elapsed(*old(self), now) > timeout),
    {
        let waited = self.waited(now);
        if ready || waited > timeout {
            self.phase = next;
            self.wait_start = None;
            !ready
        } else {
            if self.wait_start.is_none() {
                self.wait_start = Some(now);
            }
            false
        }
    }

    /// Move on to phase `p`.
    fn go(&mut self, p: BringUpPhase)
        ensures
            *final(self) == move_to(*old(self), p),
    {
        self.phase = p;
        self.wait_start = None;
    }

    /// Take the platform's report of the last action; returns the warning
    /// of a wait that gave up.
    #[verifier::rlimit(50)]
    pub fn on_event(&mut self, ev: BringUpEvent) -> (w: Option<BringUpWarning>)
        ensures
            *final(self) == bringup_next(*old(self), ev),
            w == bringup_warning(*old(self), ev),
    {
        match (self.phase, ev) {
            (BringUpPhase::MaskInterrupts, BringUpEvent::Done) => self.go(BringUpPhase::FlushMask),
            (BringUpPhase::FlushMask, BringUpEvent::Value(_)) => self.go(BringUpPhase::ClearPending),
            (BringUpPhase::ClearPending, BringUpEvent::Value(_)) => self.go(BringUpPhase::ReadRctl),
            (BringUpPhase::ReadRctl, BringUpEvent::Value(v)) => self.go(BringUpPhase::DisableRx(v & !RCTL_EN)),
            (BringUpPhase::DisableRx(_), BringUpEvent::Done) => self.go(BringUpPhase::FlushRx),
            (BringUpPhase::FlushRx, BringUpEvent::Value(_)) => self.go(BringUpPhase::ReadTctl),
            (BringUpPhase::ReadTctl, BringUpEvent::Value(v)) => self.go(BringUpPhase::DisableTx(v & !TCTL_EN)),
            (BringUpPhase::DisableTx(_), BringUpEvent::Done) => self.go(BringUpPhase::FlushTx),
            (BringUpPhase::FlushTx, BringUpEvent::Value(_)) => self.go(BringUpPhase::Quiesce),
            (BringUpPhase::Quiesce, BringUpEvent::Queues(rx, tx, now)) => {
                let ready = rx & XDCTL_QUEUE_ENABLE == 0 && tx & XDCTL_QUEUE_ENABLE == 0;
                let timeout = self.tsc_freq / 100;
                if self.wait_on(ready, now, timeout, BringUpPhase::ReadCtrl) {
                    return Some(BringUpWarning::QuiesceTimeout);
                }
            },
            (BringUpPhase::ReadCtrl, BringUpEvent::Value(v)) => self.go(
                BringUpPhase::MasterDisable(v | CTRL_GIO_MASTER_DISABLE),
            ),
            (BringUpPhase::MasterDisable(_), BringUpEvent::Done) => self.go(BringUpPhase::FlushCtrl),
            (BringUpPhase::FlushCtrl, BringUpEvent::Value(_)) => self.go(BringUpPhase::WaitMaster),
            (BringUpPhase::WaitMaster, BringUpEvent::Sample(v, now)) => {
                let timeout = self.tsc_freq / 100;
                if self.wait_on(v & STATUS_GIO_MASTER_EN == 0, now, timeout, BringUpPhase::Reset) {
                    return Some(BringUpWarning::MasterDisableTimeout);
                }
            },
            (BringUpPhase::Reset, BringUpEvent::Outcome(ok)) => if ok {
                self.go(BringUpPhase::WaitEeprom)
            } else {
                self.go(BringUpPhase::Failed(E1000eInitError::ResetTimeout))
            },
            (BringUpPhase::WaitEeprom, BringUpEvent::Sample(v, now)) => {
                let timeout = self.tsc_freq / 2;
                if self.wait_on(v & EECD_AUTO_RD != 0, now, timeout, BringUpPhase::RemaskInterrupts) {
                    return Some(BringUpWarning::EepromTimeout);
                }
            },
            (BringUpPhase::RemaskInterrupts, BringUpEvent::Done) => self.go(BringUpPhase::ClearPendingAgain),
            (BringUpPhase::ClearPendingAgain, BringUpEvent::Value(_)) => self.go(BringUpPhase::FlushRemask),
            (BringUpPhase::FlushRemask, BringUpEvent::Value(_)) => self.go(BringUpPhase::ClearRing(0)),
            (BringUpPhase::ClearRing(i), BringUpEvent::Done) => if i < RING_REGISTERS - 1 {
                self.go(BringUpPhase::ClearRing(i + 1))
            } else {
                self.go(BringUpPhase::FlushRingClear)
            },
            (BringUpPhase::FlushRingClear, BringUpEvent::Value(_)) => self.go(BringUpPhase::ClearRal),
            (BringUpPhase::ClearRal, BringUpEvent::Done) => self.go(BringUpPhase::ClearRah),
            (BringUpPhase::ClearRah, BringUpEvent::Done) => self.go(BringUpPhase::ReadRctlLoopback),
            (BringUpPhase::ReadRctlLoopback, BringUpEvent::Value(v)) => self.go(
                BringUpPhase::ClearLoopback(v & !RCTL_LBM_MASK),
            ),
            (BringUpPhase::ClearLoopback(_), BringUpEvent::Done) => self.go(BringUpPhase::ClearMta),
            (BringUpPhase::ClearMta, BringUpEvent::Done) => self.go(BringUpPhase::FlushCleanup),
            (BringUpPhase::FlushCleanup, BringUpEvent::Value(_)) => self.go(BringUpPhase::DisableUlp),
            (BringUpPhase::DisableUlp, BringUpEvent::Outcome(_)) => self.go(BringUpPhase::CheckPhy(0)),
            (BringUpPhase::CheckPhy(a), BringUpEvent::Outcome(ok)) => if ok {
                self.go(BringUpPhase::WakeReadPower)
            } else if a < 3 {
                self.go(BringUpPhase::RecoverPhy(a))
            } else {
                self.go(BringUpPhase::Failed(E1000eInitError::PhyNotAccessible))
            },
            (BringUpPhase::RecoverPhy(a), BringUpEvent::Done) => self.go(BringUpPhase::CheckPhy(a.wrapping_add(1))),
            (BringUpPhase::WakeReadPower, BringUpEvent::Phy(r)) => match r {
                Some(b) if b & BMCR_PDOWN != 0 => self.go(BringUpPhase::WakeWritePower(b & !BMCR_PDOWN)),
                _ => self.go(BringUpPhase::WakeReadIsolate),
            },
            (BringUpPhase::WakeWritePower(_), BringUpEvent::Done) => self.go(BringUpPhase::WakeReadIsolate),
            (BringUpPhase::WakeReadIsolate, BringUpEvent::Phy(r)) => match r {
                Some(b) if b & BMCR_ISOLATE != 0 => self.go(BringUpPhase::WakeWriteIsolate(b & !BMCR_ISOLATE)),
                _ => self.go(BringUpPhase::WakeSettle),
            },
            (BringUpPhase::WakeWriteIsolate(_), BringUpEvent::Done) => self.go(BringUpPhase::WakeSettle),
            (BringUpPhase::WakeSettle, BringUpEvent::Done) => self.go(BringUpPhase::PhyReset),
            (BringUpPhase::PhyReset, BringUpEvent::Done) => self.go(BringUpPhase::PhyResetWait),
            (BringUpPhase::PhyResetWait, BringUpEvent::PhySample(r, now)) => {
                let cleared = match r {
                    Some(b) => b & BMCR_RESET == 0,
                    None => false,
                };
                if cleared || self.waited(now) >= self.tsc_freq / 2 {
                    self.go(BringUpPhase::PhyResetSettle);
                } else if self.wait_start.is_none() {
                    self.wait_start = Some(now);
                }
            },
            (BringUpPhase::PhyResetSettle, BringUpEvent::Done) => self.go(BringUpPhase::WakeReadAutoneg),
            (BringUpPhase::WakeReadAutoneg, BringUpEvent::Phy(r)) => match r {
                Some(b) => self.go(BringUpPhase::WakeWriteAutoneg(b | BMCR_ANENABLE | BMCR_ANRESTART)),
                None => self.go(BringUpPhase::WakeAutonegSettle),
            },
            (BringUpPhase::WakeWriteAutoneg(_), BringUpEvent::Done) => self.go(BringUpPhase::WakeAutonegSettle),
            (BringUpPhase::WakeAutonegSettle, BringUpEvent::Done) => self.go(BringUpPhase::ReadMac),
            (BringUpPhase::ReadMac, BringUpEvent::Mac(status, m)) => match check_mac(status, m) {
                Ok(mac) => {
                    self.mac = mac;
                    self.go(BringUpPhase::WriteMac);
                },
                Err(e) => self.go(BringUpPhase::Failed(e)),
            },
            (BringUpPhase::WriteMac, BringUpEvent::Done) => self.go(BringUpPhase::FlushMac),
            (BringUpPhase::FlushMac, BringUpEvent::Value(_)) => self.go(BringUpPhase::SetupRxRing),
            (BringUpPhase::SetupRxRing, BringUpEvent::Done) => self.go(BringUpPhase::InitRxDescriptors),
            (BringUpPhase::InitRxDescriptors, BringUpEvent::Done) => self.go(BringUpPhase::SetupTxRing),
            (BringUpPhase::SetupTxRing, BringUpEvent::Done) => self.go(BringUpPhase::InitTxDescriptors),
            (BringUpPhase::InitTxDescriptors, BringUpEvent::Done) => self.go(BringUpPhase::FlushRings),
            (BringUpPhase::FlushRings, BringUpEvent::Value(_)) => self.go(BringUpPhase::ReadCtrlEnable),
            (BringUpPhase::ReadCtrlEnable, BringUpEvent::Value(v)) => self.go(
                BringUpPhase::MasterEnable(v & !CTRL_GIO_MASTER_DISABLE),
            ),
            (BringUpPhase::MasterEnable(_), BringUpEvent::Done) => self.go(BringUpPhase::FlushMasterEnable),
            (BringUpPhase::FlushMasterEnable, BringUpEvent::Value(_)) => self.go(BringUpPhase::EnableRx),
            (BringUpPhase::EnableRx, BringUpEvent::Done) => self.go(BringUpPhase::FlushEnableRx),
            (BringUpPhase::FlushEnableRx, BringUpEvent::Value(_)) => self.go(BringUpPhase::ArmRx),
            (BringUpPhase::ArmRx, BringUpEvent::Done) => self.go(BringUpPhase::FlushArmRx),
            (BringUpPhase::FlushArmRx, BringUpEvent::Value(_)) => self.go(BringUpPhase::EnableTx),
            (BringUpPhase::EnableTx, BringUpEvent::Done) => self.go(BringUpPhase::FlushEnableTx),
            (BringUpPhase::FlushEnableTx, BringUpEvent::Value(_)) => self.go(BringUpPhase::LinkUp),
            (BringUpPhase::LinkUp, BringUpEvent::Done) => self.go(BringUpPhase::ReadAutoneg),
            (BringUpPhase::ReadAutoneg, BringUpEvent::Phy(r)) => match r {
                Some(b) => self.go(BringUpPhase::WriteAutoneg(b | BMCR_ANENABLE | BMCR_ANRESTART)),
                None => self.go(BringUpPhase::Settle),
            },
            (BringUpPhase::WriteAutoneg(_), BringUpEvent::Done) => self.go(BringUpPhase::Settle),
            (BringUpPhase::Settle, BringUpEvent::Done) => self.go(BringUpPhase::Done),
            _ => {},
        }
        None
    }

    /// How the bring-up ended: the checked MAC, or the error; `None` while
    /// it is under way.
    pub fn outcome(&self) -> (r: Option<Result<MacAddress, E1000eInitError>>)
        ensures
            r == (match self.phase {
                BringUpPhase::Done => Some(Ok::<MacAddress, E1000eInitError>(self.mac)),
                BringUpPhase::Failed(e) => Some(Err::<MacAddress, E1000eInitError>(e)),
                _ => None,
            }),
    {
        match self.phase {
            BringUpPhase::Done => Some(Ok(self.mac)),
            BringUpPhase::Failed(e) => Some(Err(e)),
            _ => None,
        }
    }
}

/// The MAC has been read and checked: every phase from programming it on.
pub open spec fn mac_checked(p: BringUpPhase) -> bool {
    match p {
        BringUpPhase::WriteMac | BringUpPhase::FlushMac | BringUpPhase::SetupRxRing
        | BringUpPhase::InitRxDescriptors | BringUpPhase::SetupTxRing | BringUpPhase::InitTxDescriptors
        | BringUpPhase::FlushRings | BringUpPhase::ReadCtrlEnable | BringUpPhase::MasterEnable(_)
        | BringUpPhase::FlushMasterEnable | BringUpPhase::EnableRx | BringUpPhase::FlushEnableRx
        | BringUpPhase::ArmRx | BringUpPhase::FlushArmRx | BringUpPhase::EnableTx | BringUpPhase::FlushEnableTx
        | BringUpPhase::LinkUp | BringUpPhase::ReadAutoneg | BringUpPhase::WriteAutoneg(_)
        | BringUpPhase::Settle | BringUpPhase::Done => true,
        _ => false,
    }
}

/// The bring-up invariant: the MAC it programs and finishes with is valid;
/// the PHY gets at most three recovery steps and four checks; the cleanup
/// clears ten ring registers; it fails only on a reset timeout, an
/// inaccessible PHY or an invalid MAC.
pub open spec fn bringup_inv(s: E1000eBringUp) -> bool {
    &&& mac_checked(s.phase) ==> mac_valid(s.mac@)
    &&& (s.phase matches BringUpPhase::CheckPhy(a) ==> a <= 3)
    &&& (s.phase matches BringUpPhase::RecoverPhy(a) ==> a < 3)
    &&& (s.phase matches BringUpPhase::ClearRing(i) ==> i < RING_REGISTERS)
    &&& (s.phase matches BringUpPhase::Failed(e) ==> (e == E1000eInitError::ResetTimeout || e
        == E1000eInitError::PhyNotAccessible || e == E1000eInitError::InvalidMac))
}

/// Whatever the device reads back and whenever it answers, the bring-up
/// keeps its invariant: it holds at the start and every event keeps it. In
/// particular a bring-up that is done has a MAC that is neither all zeros
/// nor all ones.
pub proof fn lemma_bringup_inv(s: E1000eBringUp, ev: BringUpEvent)
    ensures
        bringup_inv(E1000eBringUp { phase: BringUpPhase::MaskInterrupts, wait_start: None, ..s }),
        bringup_inv(s) ==> bringup_inv(bringup_next(s, ev)),
{
}

} // verus!
