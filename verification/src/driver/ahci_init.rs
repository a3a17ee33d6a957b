//! AHCI controller initialization as a state machine.
//!
//! A configuration without command list or FIS buffer is refused before
//! anything is touched. The controller is put in AHCI mode and its
//! capabilities read; command list addresses above 4 GiB need 64-bit
//! support. Interrupts are disabled (the driver polls). The implemented
//! ports are scanned in order for one with PHY communication and an ATA
//! signature (none: no device). That port is stopped (a timeout is fatal),
//! given its command list and FIS buffer, cleared of errors, its interrupts
//! disabled, and started; IDENTIFY DEVICE must succeed, and its data give
//! the capacity and sector size. The platform performs each action and
//! reports what it read.

use super::ahci::{AhciConfig, AhciInitError, DET_PHY_COMM, SIG_ATA};
use vstd::prelude::*;

verus! {

/// Where the initialization is; ports are 0-based.
#[derive(Debug, Clone, Copy, PartialEq, Eq, Structural)]
pub enum AhciInitPhase {
    Enable,
    ReadCaps,
    DisableInterrupts,
    Detect(u32),
    Signature(u32),
    StopPort(u32),
    SetupPort(u32),
    ClearErrors(u32),
    DisablePortInterrupts(u32),
    StartPort(u32),
    Identify(u32),
    ReadIdentify(u32),
    Done,
    Failed(AhciInitError),
}

/// What the platform is to do next.
#[derive(Debug, Clone, Copy, PartialEq, Eq, Structural)]
pub enum AhciInitAction {
    /// Set GHC.AE.
    EnableAhci,
    /// Read CAP, the command slot count, PI and 64-bit support (answer:
    /// `Caps`).
    ReadCaps,
    /// Clear GHC.IE.
    DisableInterrupts,
    /// Read a port's SStatus detection field (answer: `Value`).
    ReadDetection(u32),
    /// Read a port's signature (answer: `Value`).
    ReadSignature(u32),
    /// Stop a port's command engine (answer: `Outcome`).
    StopPort(u32),
    /// Program a port's command list and FIS receive buffer.
    SetupPort { port: u32, cmd_list_phys: u64, fis_phys: u64 },
    /// Clear a port's error and interrupt status.
    ClearErrors(u32),
    /// Disable a port's interrupts.
    DisablePortInterrupts(u32),
    /// Start a port's command engine.
    StartPort(u32),
    /// Issue IDENTIFY DEVICE on a port (answer: `Outcome`).
    Identify(u32),
    /// Read the capacity and sector size from the IDENTIFY data (answer:
    /// `Identity`).
    ReadIdentify,
    /// Nothing more: done or failed.
    Finish,
}

/// What the platform reports back.
#[derive(Debug, Clone, Copy, PartialEq, Eq, Structural)]
pub enum AhciInitEvent {
    /// The action was carried out.
    Done,
    /// CAP, command slots, PI, and whether 64-bit addressing is supported.
    Caps(u32, u32, u32, bool),
    /// The register read gave this value.
    Value(u32),
    /// The routine succeeded (`true`) or timed out.
    Outcome(bool),
    /// Total sectors and sector size from IDENTIFY.
    Identity(u64, u32),
}

/// The initialization's progress.
#[derive(Debug, Clone, Copy)]
pub struct AhciInitState {
    pub phase: AhciInitPhase,
    pub config: AhciConfig,
    /// Implemented ports (PI).
    pub ports_impl: u32,
    /// Command slots.
    pub num_slots: u32,
    /// The port in use, once identified.
    pub port: u32,
    /// Capacity in sectors and sector size, from IDENTIFY.
    pub total_sectors: u64,
    pub sector_size: u32,
}

/// Port `p` is implemented.
pub open spec fn implemented(ports_impl: u32, p: int) -> bool {
    0 <= p < 32 && (ports_impl >> (p as u32)) % 2 == 1
}

/// The first implemented port at or after `from`.
pub open spec fn next_implemented(ports_impl: u32, from: int) -> Option<u32>
    decreases 32 - from,
{
    if from < 0 || from >= 32 {
        None
    } else if implemented(ports_impl, from) {
        Some(from as u32)
    } else {
        next_implemented(ports_impl, from + 1)
    }
}

/// Scan on from port `from`: the next implemented port, or no device.
pub open spec fn scan_from(s: AhciInitState, from: int) -> AhciInitState {
    match next_implemented(s.ports_impl, from) {
        Some(p) => AhciInitState { phase: AhciInitPhase::Detect(p), ..s },
        None => AhciInitState { phase: AhciInitPhase::Failed(AhciInitError::NoDeviceFound), ..s },
    }
}

pub open spec fn ahci_go(s: AhciInitState, p: AhciInitPhase) -> AhciInitState {
    AhciInitState { phase: p, ..s }
}

/// The action of each phase.
pub open spec fn ahci_action(s: AhciInitState) -> AhciInitAction {
    match s.phase {
        AhciInitPhase::Enable => AhciInitAction::EnableAhci,
        AhciInitPhase::ReadCaps => AhciInitAction::ReadCaps,
        AhciInitPhase::DisableInterrupts => AhciInitAction::DisableInterrupts,
        AhciInitPhase::Detect(p) => AhciInitAction::ReadDetection(p),
        AhciInitPhase::Signature(p) => AhciInitAction::ReadSignature(p),
        AhciInitPhase::StopPort(p) => AhciInitAction::StopPort(p),
        AhciInitPhase::SetupPort(p) => AhciInitAction::SetupPort {
            port: p,
            cmd_list_phys: s.config.cmd_list_phys,
            fis_phys: s.config.fis_phys,
        },
        AhciInitPhase::ClearErrors(p) => AhciInitAction::ClearErrors(p),
        AhciInitPhase::DisablePortInterrupts(p) => AhciInitAction::DisablePortInterrupts(p),
        AhciInitPhase::StartPort(p) => AhciInitAction::StartPort(p),
        AhciInitPhase::Identify(p) => AhciInitAction::Identify(p),
        AhciInitPhase::ReadIdentify(_) => AhciInitAction::ReadIdentify,
        AhciInitPhase::Done | AhciInitPhase::Failed(_) => AhciInitAction::Finish,
    }
}

/// How the initialization moves on an event; an event that does not answer
/// the current action leaves it as it is.
pub open spec fn ahci_next(s: AhciInitState, ev: AhciInitEvent) -> AhciInitState {
    match (s.phase, ev) {
        (AhciInitPhase::Enable, AhciInitEvent::Done) => ahci_go(s, AhciInitPhase::ReadCaps),
        (AhciInitPhase::ReadCaps, AhciInitEvent::Caps(_, slots, pi, s64)) => if !s64 && s.config.cmd_list_phys
            >= 0x1_0000_0000 {
            ahci_go(s, AhciInitPhase::Failed(AhciInitError::No64BitSupport))
        } else {
            AhciInitState { phase: AhciInitPhase::DisableInterrupts, ports_impl: pi, num_slots: slots, ..s }
        },
        (AhciInitPhase::DisableInterrupts, AhciInitEvent::Done) => scan_from(s, 0),
        (AhciInitPhase::Detect(p), AhciInitEvent::Value(det)) => if det == DET_PHY_COMM {
            ahci_go(s, AhciInitPhase::Signature(p))
        } else {
            scan_from(s, p + 1)
        },
        (AhciInitPhase::Signature(p), AhciInitEvent::Value(sig)) => if sig == SIG_ATA {
            ahci_go(s, AhciInitPhase::StopPort(p))
        } else {
            scan_from(s, p + 1)
        },
        (AhciInitPhase::StopPort(p), AhciInitEvent::Outcome(ok)) => if ok {
            ahci_go(s, AhciInitPhase::SetupPort(p))
        } else {
            ahci_go(s, AhciInitPhase::Failed(AhciInitError::PortStopTimeout))
        },
        (AhciInitPhase::SetupPort(p), AhciInitEvent::Done) => ahci_go(s, AhciInitPhase::ClearErrors(p)),
        (AhciInitPhase::ClearErrors(p), AhciInitEvent::Done) => ahci_go(s, AhciInitPhase::DisablePortInterrupts(p)),
        (AhciInitPhase::DisablePortInterrupts(p), AhciInitEvent::Done) => ahci_go(s, AhciInitPhase::StartPort(p)),
        (AhciInitPhase::StartPort(p), AhciInitEvent::Done) => ahci_go(s, AhciInitPhase::Identify(p)),
        (AhciInitPhase::Identify(p), AhciInitEvent::Outcome(ok)) => if ok {
            ahci_go(s, AhciInitPhase::ReadIdentify(p))
        } else {
            ahci_go(s, AhciInitPhase::Failed(AhciInitError::IdentifyFailed))
        },
        (AhciInitPhase::ReadIdentify(p), AhciInitEvent::Identity(total, ss)) => AhciInitState {
            phase: AhciInitPhase::Done,
            port: p,
            total_sectors: total,
            sector_size: ss,
            ..s
        },
        _ => s,
    }
}

/// The first implemented port at or after `from`.
pub fn first_implemented(ports_impl: u32, from: u32) -> (r: Option<u32>)
    ensures
        r == next_implemented(ports_impl, from as int),
{
    let mut k = from;
    while k < 32
        invariant
            from <= k,
            next_implemented(ports_impl, from as int) == next_implemented(ports_impl, k as int),
        decreases 32 - k,
    {
        let bit = (ports_impl >> k) & 1;
        assert(bit == (ports_impl >> k) % 2) by (bit_vector)
            requires
                bit == (ports_impl >> k) & 1,
        ;
        if bit == 1 {
            return Some(k);
        }
        k += 1;
    }
    None
}

/// An AHCI controller initialization.
pub struct AhciInit {
    state: AhciInitState,
}

impl AhciInit {
    pub closed spec fn spec_state(&self) -> AhciInitState {
        self.state
    }

    /// The initialization with `config`; one without command list or FIS
    /// buffer fails at once.
    pub fn new(config: AhciConfig) -> (r: Self)
        ensures
            r.spec_state().phase == (if config.cmd_list_cpu == 0 || config.fis_cpu == 0 {
                AhciInitPhase::Failed(AhciInitError::InvalidConfig)
            } else {
                AhciInitPhase::Enable
            }),
            r.spec_state().config == config,
            r.spec_state().ports_impl == 0,
    {
        let phase = if config.cmd_list_cpu == 0 || config.fis_cpu == 0 {
            AhciInitPhase::Failed(AhciInitError::InvalidConfig)
        } else {
            AhciInitPhase::Enable
        };
        AhciInit {
            state: AhciInitState {
                phase,
                config,
                ports_impl: 0,
                num_slots: 0,
                port: 0,
                total_sectors: 0,
                sector_size: 0,
            },
        }
    }

    /// The initialization's progress.
    pub fn state(&self) -> (r: AhciInitState)
        ensures
            r == self.spec_state(),
    {
        self.state
    }

    /// The action of the current phase.
    pub fn action(&self) -> (r: AhciInitAction)
        ensures
            r == ahci_action(self.spec_state()),
    {
        let s = self.state;
        match s.phase {
            AhciInitPhase::Enable => AhciInitAction::EnableAhci,
            AhciInitPhase::ReadCaps => AhciInitAction::ReadCaps,
            AhciInitPhase::DisableInterrupts => AhciInitAction::DisableInterrupts,
            AhciInitPhase::Detect(p) => AhciInitAction::ReadDetection(p),
            AhciInitPhase::Signature(p) => AhciInitAction::ReadSignature(p),
            AhciInitPhase::StopPort(p) => AhciInitAction::StopPort(p),
            AhciInitPhase::SetupPort(p) => AhciInitAction::SetupPort {
                port: p,
                cmd_list_phys: s.config.cmd_list_phys,
                fis_phys: s.config.fis_phys,
            },
            AhciInitPhase::ClearErrors(p) => AhciInitAction::ClearErrors(p),
            AhciInitPhase::DisablePortInterrupts(p) => AhciInitAction::DisablePortInterrupts(p),
            AhciInitPhase::StartPort(p) => AhciInitAction::StartPort(p),
            AhciInitPhase::Identify(p) => AhciInitAction::Identify(p),
            AhciInitPhase::ReadIdentify(_) => AhciInitAction::ReadIdentify,
            AhciInitPhase::Done | AhciInitPhase::Failed(_) => AhciInitAction::Finish,
        }
    }

    /// Scan on from port `from`.
    fn scan(&mut self, from: u32)
        ensures
            final(self).spec_state() == scan_from(old(self).spec_state(), from as int),
    {
        self.state.phase = match first_implemented(self.state.ports_impl, from) {
            Some(p) => AhciInitPhase::Detect(p),
            None => AhciInitPhase::Failed(AhciInitError::NoDeviceFound),
        };
    }

    /// Take the platform's report of the last action.
    pub fn on_event(&mut self, ev: AhciInitEvent)
        ensures
            final(self).spec_state() == ahci_next(old(self).spec_state(), ev),
    {
        let s = self.state;
        match (s.phase, ev) {
            (AhciInitPhase::Enable, AhciInitEvent::Done) => {
                self.state.phase = AhciInitPhase::ReadCaps;
            },
            (AhciInitPhase::ReadCaps, AhciInitEvent::Caps(_, slots, pi, s64)) => {
                if !s64 && s.config.cmd_list_phys >= 0x1_0000_0000 {
                    self.state.phase = AhciInitPhase::Failed(AhciInitError::No64BitSupport);
                } else {
                    self.state.ports_impl = pi;
                    self.state.num_slots = slots;
                    self.state.phase = AhciInitPhase::DisableInterrupts;
                }
            },
            (AhciInitPhase::DisableInterrupts, AhciInitEvent::Done) => self.scan(0),
            (AhciInitPhase::Detect(p), AhciInitEvent::Value(det)) => if det == DET_PHY_COMM {
                self.state.phase = AhciInitPhase::Signature(p);
            } else if p < 31 {
                self.scan(p + 1);
            } else {
                self.state.phase = AhciInitPhase::Failed(AhciInitError::NoDeviceFound);
            },
            (AhciInitPhase::Signature(p), AhciInitEvent::Value(sig)) => if sig == SIG_ATA {
                self.state.phase = AhciInitPhase::StopPort(p);
            } else if p < 31 {
                self.scan(p + 1);
            } else {
                self.state.phase = AhciInitPhase::Failed(AhciInitError::NoDeviceFound);
            },
            (AhciInitPhase::StopPort(p), AhciInitEvent::Outcome(ok)) => {
                self.state.phase = if ok {
                    AhciInitPhase::SetupPort(p)
                } else {
                    AhciInitPhase::Failed(AhciInitError::PortStopTimeout)
                };
            },
            (AhciInitPhase::SetupPort(p), AhciInitEvent::Done) => {
                self.state.phase = AhciInitPhase::ClearErrors(p);
            },
            (AhciInitPhase::ClearErrors(p), AhciInitEvent::Done) => {
                self.state.phase = AhciInitPhase::DisablePortInterrupts(p);
            },
            (AhciInitPhase::DisablePortInterrupts(p), AhciInitEvent::Done) => {
                self.state.phase = AhciInitPhase::StartPort(p);
            },
            (AhciInitPhase::StartPort(p), AhciInitEvent::Done) => {
                self.state.phase = AhciInitPhase::Identify(p);
            },
            (AhciInitPhase::Identify(p), AhciInitEvent::Outcome(ok)) => {
                self.state.phase = if ok {
                    AhciInitPhase::ReadIdentify(p)
                } else {
                    AhciInitPhase::Failed(AhciInitError::IdentifyFailed)
                };
            },
            (AhciInitPhase::ReadIdentify(p), AhciInitEvent::Identity(total, ss)) => {
                self.state.port = p;
                self.state.total_sectors = total;
                self.state.sector_size = ss;
                self.state.phase = AhciInitPhase::Done;
            },
            _ => {},
        }
    }

    /// How the initialization ended: the port, command slot count, capacity
    /// and sector size, or the error; `None` while it is under way.
    pub fn outcome(&self) -> (r: Option<Result<(u32, u32, u64, u32), AhciInitError>>)
        ensures
            r == (match self.spec_state().phase {
                AhciInitPhase::Done => Some(
                    Ok::<(u32, u32, u64, u32), AhciInitError>(
                        (
                            self.spec_state().port,
                            self.spec_state().num_slots,
                            self.spec_state().total_sectors,
                            self.spec_state().sector_size,
                        ),
                    ),
                ),
                AhciInitPhase::Failed(e) => Some(Err::<(u32, u32, u64, u32), AhciInitError>(e)),
                _ => None,
            }),
    {
        let s = self.state;
        match s.phase {
            AhciInitPhase::Done => Some(Ok((s.port, s.num_slots, s.total_sectors, s.sector_size))),
            AhciInitPhase::Failed(e) => Some(Err(e)),
            _ => None,
        }
    }
}

/// The port a phase works on, if any.
pub open spec fn ahci_phase_port(p: AhciInitPhase) -> Option<u32> {
    match p {
        AhciInitPhase::Detect(q) | AhciInitPhase::Signature(q) | AhciInitPhase::StopPort(q)
        | AhciInitPhase::SetupPort(q) | AhciInitPhase::ClearErrors(q) | AhciInitPhase::DisablePortInterrupts(q)
        | AhciInitPhase::StartPort(q) | AhciInitPhase::Identify(q) | AhciInitPhase::ReadIdentify(q) => Some(q),
        _ => None,
    }
}

/// The initialization's invariant: it only touches implemented ports, ends
/// with one, and fails only for a bad configuration, missing 64-bit
/// support, no device, a port that does not stop or a failed IDENTIFY.
pub open spec fn ahci_inv(s: AhciInitState) -> bool {
    &&& (ahci_phase_port(s.phase) matches Some(q) ==> implemented(s.ports_impl, q as int))
    &&& (s.phase == AhciInitPhase::Done ==> implemented(s.ports_impl, s.port as int))
    &&& (s.phase matches AhciInitPhase::Failed(e) ==> (e == AhciInitError::InvalidConfig || e
        == AhciInitError::No64BitSupport || e == AhciInitError::NoDeviceFound || e == AhciInitError::PortStopTimeout
        || e == AhciInitError::IdentifyFailed))
}

/// The first implemented port at or after `from` is implemented.
proof fn lemma_next_implemented(pi: u32, from: int)
    ensures
        next_implemented(pi, from) matches Some(p) ==> implemented(pi, p as int),
    decreases 32 - from,
{
    if 0 <= from < 32 && !implemented(pi, from) {
        lemma_next_implemented(pi, from + 1);
    }
}

/// Whatever the controller reads back, the initialization keeps its
/// invariant from its start on (before the capabilities are read no port
/// is implemented yet).
pub proof fn lemma_ahci_inv(s: AhciInitState, ev: AhciInitEvent)
    ensures
        ahci_inv(AhciInitState { phase: AhciInitPhase::Enable, ..s }),
        ahci_inv(AhciInitState { phase: AhciInitPhase::Failed(AhciInitError::InvalidConfig), ..s }),
        ahci_inv(s) ==> ahci_inv(ahci_next(s, ev)),
{
    match (s.phase, ev) {
        (AhciInitPhase::DisableInterrupts, AhciInitEvent::Done) => lemma_next_implemented(s.ports_impl, 0),
        (AhciInitPhase::Detect(p), AhciInitEvent::Value(_)) => lemma_next_implemented(s.ports_impl, p + 1),
        (AhciInitPhase::Signature(p), AhciInitEvent::Value(_)) => lemma_next_implemented(s.ports_impl, p + 1),
        _ => {},
    }
}

} // verus!
