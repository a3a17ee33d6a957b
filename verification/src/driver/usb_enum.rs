//! Finding and configuring a USB mass-storage device, as a state machine.
//!
//! The root hub ports are tried in order. A port is tried when a device is
//! connected and the port is powered: after a settling delay the transfer
//! state is reset and the port is reset (the reset must complete within
//! half a second and leave the port enabled); a slot is enabled and its
//! output context linked; the device is addressed; its device and
//! configuration descriptors are read and the configuration must hold a
//! Bulk-Only SCSI interface with a bulk IN and a bulk OUT endpoint; the
//! configuration is set and the endpoints configured. Any failure on a port
//! moves on to the next one; when none is left the result is `NoMedia`.
//! On the configured device, TEST UNIT READY absorbs a unit attention
//! (whatever it answers) and READ CAPACITY(10) gives the geometry (its
//! failure fails the whole). The platform performs each action with the
//! driver's ring and context helpers and reports the outcome.

use super::block_traits::BlockDeviceInfo;
use super::usb_msd::{
    capacity_info, config_endpoints, dci_of, parse_config_desc, read_capacity_info, setup_packet,
    MscEndpoints, SCSI_READ_CAPACITY_10, SCSI_TEST_UNIT_READY, UsbMsdInitError, PORTSC_CCS, PORTSC_PED, PORTSC_PP,
    PORTSC_PR, PORTSC_PRC, PORTSC_RW1C,
};
use crate::mainloop::context::{elapsed, elapsed_ticks};
use vstd::prelude::*;

verus! {

/// Settling delay before a connected port is touched, in milliseconds.
pub const PORT_SETTLE_MS: u64 = 100;

/// A SCSI command run over Bulk-Only Transport.
#[derive(Debug, Clone, Copy, PartialEq, Eq, Structural)]
pub enum ScsiCommand {
    TestUnitReady,
    ReadCapacity,
}

impl ScsiCommand {
    /// The command block.
    pub fn cdb(&self) -> (r: Vec<u8>)
        ensures
            r@ == (match *self {
                ScsiCommand::TestUnitReady => seq![0x00u8, 0u8, 0u8, 0u8, 0u8, 0u8],
                ScsiCommand::ReadCapacity => seq![0x25u8, 0u8, 0u8, 0u8, 0u8, 0u8, 0u8, 0u8, 0u8, 0u8],
            }),
    {
        match self {
            ScsiCommand::TestUnitReady => vec![SCSI_TEST_UNIT_READY, 0, 0, 0, 0, 0],
            ScsiCommand::ReadCapacity => vec![SCSI_READ_CAPACITY_10, 0, 0, 0, 0, 0, 0, 0, 0, 0],
        }
    }

    /// Bytes of the data phase: READ CAPACITY(10) returns 8.
    pub fn data_len(&self) -> (r: u32)
        ensures
            r == (match *self {
                ScsiCommand::TestUnitReady => 0u32,
                ScsiCommand::ReadCapacity => 8u32,
            }),
    {
        match self {
            ScsiCommand::TestUnitReady => 0,
            ScsiCommand::ReadCapacity => 8,
        }
    }

    /// The data phase reads from the device.
    pub fn data_in(&self) -> (r: bool)
        ensures
            r == (*self == ScsiCommand::ReadCapacity),
    {
        match self {
            ScsiCommand::TestUnitReady => false,
            ScsiCommand::ReadCapacity => true,
        }
    }
}

/// Where the enumeration is; ports are 0-based.
#[derive(Debug, Clone, Copy, PartialEq, Eq, Structural)]
pub enum UsbEnumPhase {
    PortRead(u8),
    PortSettle(u8),
    PortPrepare(u8),
    ResetRead(u8),
    ResetStart(u8, u32),
    ResetWait(u8),
    /// Acknowledge the finished reset; the port speed if it came up
    /// enabled.
    ResetAck(u8, u32, Option<u8>),
    EnableSlot(u8),
    LinkContext(u8),
    Address(u8),
    GetDevice(u8),
    GetConfig(u8),
    ReadConfig(u8),
    SetConfig(u8),
    ConfigureEps(u8),
    TestUnitReady,
    ReadCapacity,
    ReadCapacityData,
    Done,
    Failed(UsbMsdInitError),
}

/// What the platform is to do next.
#[derive(Debug, Clone, Copy, PartialEq, Eq, Structural)]
pub enum UsbEnumAction {
    /// Read PORTSC of a port (answer: `Value`).
    ReadPortsc(u8),
    /// Write PORTSC of a port.
    WritePortsc(u8, u32),
    /// Read PORTSC of a port while waiting on it (answer: `Sample`).
    SamplePortsc(u8),
    /// Busy-wait this many milliseconds.
    DelayMs(u64),
    /// Reset the driver's transfer rings and event cursor.
    ResetTransferState,
    /// Issue Enable Slot (answer: `Command`).
    EnableSlot,
    /// Record the slot and point its device context entry at the output
    /// context.
    LinkOutputContext(u8),
    /// Issue Address Device for the port at this speed (answer: `Command`).
    AddressDevice { port: u8, speed: u8 },
    /// Control transfer reading `len` bytes into the descriptor buffer
    /// (answer: `Transfer`).
    ControlIn { setup: u64, len: u16 },
    /// Read the descriptor buffer (answer: `Descriptors`).
    ReadDescriptors,
    /// Control transfer without data (answer: `Transfer`).
    ControlNoData { setup: u64 },
    /// Record the bulk endpoints and issue Configure Endpoint (answer:
    /// `Command`).
    ConfigureEndpoints { ep_in: u8, ep_out: u8, dci_in: u8, dci_out: u8, max_packet_in: u16, max_packet_out: u16 },
    /// Run a SCSI command over Bulk-Only Transport (answer: `Scsi`).
    Scsi(ScsiCommand),
    /// Read the 8 bytes READ CAPACITY(10) returned (answer: `Capacity`).
    ReadCapacityData,
    /// Nothing more: done or failed.
    Finish,
}

/// What the platform reports back.
#[derive(Debug, Clone, Copy)]
pub enum UsbEnumEvent {
    /// The action was carried out.
    Done,
    /// The register read gave this value.
    Value(u32),
    /// The sampled register's value and the TSC when it was read.
    Sample(u32, u64),
    /// A command's completion: completion code and slot, or its error.
    Command(Result<(u8, u8), UsbMsdInitError>),
    /// A transfer's completion: the bytes left, or its error.
    Transfer(Result<u32, UsbMsdInitError>),
    /// The descriptor buffer.
    Descriptors([u8; 256]),
    /// A SCSI command's outcome: the bytes its data phase moved, or its
    /// error.
    Scsi(Result<u32, UsbMsdInitError>),
    /// The READ CAPACITY(10) data.
    Capacity([u8; 8]),
}

/// The enumeration's progress.
#[derive(Debug, Clone, Copy, PartialEq, Eq, Structural)]
pub struct UsbEnumState {
    pub phase: UsbEnumPhase,
    /// Root hub ports.
    pub max_ports: u8,
    /// TSC ticks per second.
    pub tsc_freq: u64,
    /// TSC at the first sample of the current wait.
    pub wait_start: Option<u64>,
    /// Speed of the port being tried.
    pub speed: u8,
    /// Slot of the device being configured.
    pub slot: u8,
    /// Its mass-storage endpoints.
    pub endpoints: MscEndpoints,
    /// The geometry, once read.
    pub info: BlockDeviceInfo,
}

/// The SETUP packet value (see `setup_packet`).
pub open spec fn setup_value(req_type: u8, request: u8, value: u16, index: u16, len: u16) -> u64 {
    (req_type + request * 0x100 + value * 0x1_0000 + index * 0x1_0000_0000 + len * 0x1_0000_0000_0000) as u64
}

/// GET_DESCRIPTOR(DEVICE), 18 bytes.
pub open spec fn get_device_setup() -> u64 {
    setup_value(0x80, 0x06, 0x0100, 0, 18)
}

/// GET_DESCRIPTOR(CONFIGURATION), up to 255 bytes.
pub open spec fn get_config_setup() -> u64 {
    setup_value(0x80, 0x06, 0x0200, 0, 255)
}

/// SET_CONFIGURATION with the configuration's value.
pub open spec fn set_config_setup(config_value: u8) -> u64 {
    setup_value(0x00, 0x09, config_value as u16, 0, 0)
}

/// Device context index of an endpoint address.
pub open spec fn dci(ep: u8) -> u8 {
    ((ep % 16) * 2 + ep / 128) as u8
}

/// The action of each phase.
pub open spec fn enum_action(s: UsbEnumState) -> UsbEnumAction {
    match s.phase {
        UsbEnumPhase::PortRead(p) | UsbEnumPhase::ResetRead(p) => UsbEnumAction::ReadPortsc(p),
        UsbEnumPhase::PortSettle(_) => UsbEnumAction::DelayMs(PORT_SETTLE_MS),
        UsbEnumPhase::PortPrepare(_) => UsbEnumAction::ResetTransferState,
        UsbEnumPhase::ResetStart(p, v) | UsbEnumPhase::ResetAck(p, v, _) => UsbEnumAction::WritePortsc(p, v),
        UsbEnumPhase::ResetWait(p) => UsbEnumAction::SamplePortsc(p),
        UsbEnumPhase::EnableSlot(_) => UsbEnumAction::EnableSlot,
        UsbEnumPhase::LinkContext(_) => UsbEnumAction::LinkOutputContext(s.slot),
        UsbEnumPhase::Address(p) => UsbEnumAction::AddressDevice { port: p, speed: s.speed },
        UsbEnumPhase::GetDevice(_) => UsbEnumAction::ControlIn { setup: get_device_setup(), len: 18 },
        UsbEnumPhase::GetConfig(_) => UsbEnumAction::ControlIn { setup: get_config_setup(), len: 255 },
        UsbEnumPhase::ReadConfig(_) => UsbEnumAction::ReadDescriptors,
        UsbEnumPhase::SetConfig(_) => UsbEnumAction::ControlNoData {
            setup: set_config_setup(s.endpoints.config_value),
        },
        UsbEnumPhase::ConfigureEps(_) => UsbEnumAction::ConfigureEndpoints {
            ep_in: s.endpoints.ep_in,
            ep_out: s.endpoints.ep_out,
            dci_in: dci(s.endpoints.ep_in),
            dci_out: dci(s.endpoints.ep_out),
            max_packet_in: s.endpoints.max_packet_in,
            max_packet_out: s.endpoints.max_packet_out,
        },
        UsbEnumPhase::TestUnitReady => UsbEnumAction::Scsi(ScsiCommand::TestUnitReady),
        UsbEnumPhase::ReadCapacity => UsbEnumAction::Scsi(ScsiCommand::ReadCapacity),
        UsbEnumPhase::ReadCapacityData => UsbEnumAction::ReadCapacityData,
        UsbEnumPhase::Done | UsbEnumPhase::Failed(_) => UsbEnumAction::Finish,
    }
}

/// Move on to phase `p`, ending any wait.
pub open spec fn enum_go(s: UsbEnumState, p: UsbEnumPhase) -> UsbEnumState {
    UsbEnumState { phase: p, wait_start: None, ..s }
}

/// Give up on port `p`: try the next one, or fail with `NoMedia` after the
/// last.
pub open spec fn next_port(s: UsbEnumState, p: u8) -> UsbEnumState {
    if p + 1 < s.max_ports {
        enum_go(s, UsbEnumPhase::PortRead((p + 1) as u8))
    } else {
        enum_go(s, UsbEnumPhase::Failed(UsbMsdInitError::NoMedia))
    }
}

/// Ticks since the current wait's first sample (0 at that sample).
pub open spec fn enum_waited(s: UsbEnumState, now: u64) -> int {
    match s.wait_start {
        Some(start) => elapsed_ticks(start, now),
        None => 0,
    }
}

/// How the enumeration moves on an event; an event that does not answer
/// the current action leaves it as it is.
pub open spec fn enum_next(s: UsbEnumState, ev: UsbEnumEvent) -> UsbEnumState {
    match (s.phase, ev) {
        (UsbEnumPhase::PortRead(p), UsbEnumEvent::Value(ps)) => if ps & PORTSC_CCS != 0 && ps & PORTSC_PP != 0 {
            enum_go(s, UsbEnumPhase::PortSettle(p))
        } else {
            next_port(s, p)
        },
        (UsbEnumPhase::PortSettle(p), UsbEnumEvent::Done) => enum_go(s, UsbEnumPhase::PortPrepare(p)),
        (UsbEnumPhase::PortPrepare(p), UsbEnumEvent::Done) => enum_go(s, UsbEnumPhase::ResetRead(p)),
        (UsbEnumPhase::ResetRead(p), UsbEnumEvent::Value(ps)) => enum_go(
            s,
            UsbEnumPhase::ResetStart(p, (ps & !PORTSC_RW1C) | PORTSC_PR),
        ),
        (UsbEnumPhase::ResetStart(p, _), UsbEnumEvent::Done) => enum_go(s, UsbEnumPhase::ResetWait(p)),
        (UsbEnumPhase::ResetWait(p), UsbEnumEvent::Sample(ps, now)) => if ps & PORTSC_PRC != 0 {
            enum_go(
                s,
                UsbEnumPhase::ResetAck(
                    p,
                    (ps & !PORTSC_RW1C) | PORTSC_PRC,
                    if ps & PORTSC_PED != 0 { Some(((ps >> 10) & 0xF) as u8) } else { None },
                ),
            )
        } else if enum_waited(s, now) > s.tsc_freq / 2 {
            next_port(s, p)
        } else {
            UsbEnumState {
                wait_start: Some(
                    match s.wait_start {
                        Some(start) => start,
                        None => now,
                    },
                ),
                ..s
            }
        },
        (UsbEnumPhase::ResetAck(p, _, r), UsbEnumEvent::Done) => match r {
            Some(speed) => UsbEnumState { phase: UsbEnumPhase::EnableSlot(p), speed, wait_start: None, ..s },
            None => next_port(s, p),
        },
        (UsbEnumPhase::EnableSlot(p), UsbEnumEvent::Command(r)) => match r {
            Ok((_, slot)) => if slot != 0 {
                UsbEnumState { phase: UsbEnumPhase::LinkContext(p), slot, wait_start: None, ..s }
            } else {
                next_port(s, p)
            },
            Err(_) => next_port(s, p),
        },
        (UsbEnumPhase::LinkContext(p), UsbEnumEvent::Done) => enum_go(s, UsbEnumPhase::Address(p)),
        (UsbEnumPhase::Address(p), UsbEnumEvent::Command(r)) => if r is Ok {
            enum_go(s, UsbEnumPhase::GetDevice(p))
        } else {
            next_port(s, p)
        },
        (UsbEnumPhase::GetDevice(p), UsbEnumEvent::Transfer(r)) => if r is Ok {
            enum_go(s, UsbEnumPhase::GetConfig(p))
        } else {
            next_port(s, p)
        },
        (UsbEnumPhase::GetConfig(p), UsbEnumEvent::Transfer(r)) => if r is Ok {
            enum_go(s, UsbEnumPhase::ReadConfig(p))
        } else {
            next_port(s, p)
        },
        (UsbEnumPhase::ReadConfig(p), UsbEnumEvent::Descriptors(d)) => match config_endpoints(d@) {
            Some(e) => UsbEnumState { phase: UsbEnumPhase::SetConfig(p), endpoints: e, wait_start: None, ..s },
            None => next_port(s, p),
        },
        (UsbEnumPhase::SetConfig(p), UsbEnumEvent::Transfer(r)) => if r is Ok {
            enum_go(s, UsbEnumPhase::ConfigureEps(p))
        } else {
            next_port(s, p)
        },
        (UsbEnumPhase::ConfigureEps(p), UsbEnumEvent::Command(r)) => if r is Ok {
            enum_go(s, UsbEnumPhase::TestUnitReady)
        } else {
            next_port(s, p)
        },
        (UsbEnumPhase::TestUnitReady, UsbEnumEvent::Scsi(_)) => enum_go(s, UsbEnumPhase::ReadCapacity),
        (UsbEnumPhase::ReadCapacity, UsbEnumEvent::Scsi(r)) => match r {
            Ok(_) => enum_go(s, UsbEnumPhase::ReadCapacityData),
            Err(e) => enum_go(s, UsbEnumPhase::Failed(e)),
        },
        (UsbEnumPhase::ReadCapacityData, UsbEnumEvent::Capacity(d)) => UsbEnumState {
            phase: UsbEnumPhase::Done,
            info: capacity_info(d@),
            wait_start: None,
            ..s
        },
        _ => s,
    }
}

/// A device enumeration.
pub struct UsbEnumeration {
    state: UsbEnumState,
}

impl UsbEnumeration {
    pub closed spec fn spec_state(&self) -> UsbEnumState {
        self.state
    }

    /// Enumeration over `max_ports` root hub ports; with none there is no
    /// medium.
    pub fn new(max_ports: u8, tsc_freq: u64) -> (r: Self)
        ensures
            r.spec_state().phase == (if max_ports > 0 {
                UsbEnumPhase::PortRead(0)
            } else {
                UsbEnumPhase::Failed(UsbMsdInitError::NoMedia)
            }),
            r.spec_state().max_ports == max_ports,
            r.spec_state().tsc_freq == tsc_freq,
            r.spec_state().wait_start is None,
    {
        UsbEnumeration {
            state: UsbEnumState {
                phase: if max_ports > 0 {
                    UsbEnumPhase::PortRead(0)
                } else {
                    UsbEnumPhase::Failed(UsbMsdInitError::NoMedia)
                },
                max_ports,
                tsc_freq,
                wait_start: None,
                speed: 0,
                slot: 0,
                endpoints: MscEndpoints { config_value: 0, ep_in: 0, ep_out: 0, max_packet_in: 0, max_packet_out: 0 },
                info: BlockDeviceInfo { total_sectors: 0, sector_size: 512, max_sectors_per_request: 8, read_only: true },
            },
        }
    }

    /// The enumeration's progress.
    pub fn state(&self) -> (r: UsbEnumState)
        ensures
            r == self.spec_state(),
    {
        self.state
    }

    /// The action of the current phase.
    pub fn action(&self) -> (r: UsbEnumAction)
        ensures
            r == enum_action(self.spec_state()),
    {
        let s = self.state;
        match s.phase {
            UsbEnumPhase::PortRead(p) | UsbEnumPhase::ResetRead(p) => UsbEnumAction::ReadPortsc(p),
            UsbEnumPhase::PortSettle(_) => UsbEnumAction::DelayMs(PORT_SETTLE_MS),
            UsbEnumPhase::PortPrepare(_) => UsbEnumAction::ResetTransferState,
            UsbEnumPhase::ResetStart(p, v) | UsbEnumPhase::ResetAck(p, v, _) => UsbEnumAction::WritePortsc(p, v),
            UsbEnumPhase::ResetWait(p) => UsbEnumAction::SamplePortsc(p),
            UsbEnumPhase::EnableSlot(_) => UsbEnumAction::EnableSlot,
            UsbEnumPhase::LinkContext(_) => UsbEnumAction::LinkOutputContext(s.slot),
            UsbEnumPhase::Address(p) => UsbEnumAction::AddressDevice { port: p, speed: s.speed },
            UsbEnumPhase::GetDevice(_) => UsbEnumAction::ControlIn { setup: setup_packet(0x80, 0x06, 0x0100, 0, 18), len: 18 },
            UsbEnumPhase::GetConfig(_) => UsbEnumAction::ControlIn {
                setup: setup_packet(0x80, 0x06, 0x0200, 0, 255),
                len: 255,
            },
            UsbEnumPhase::ReadConfig(_) => UsbEnumAction::ReadDescriptors,
            UsbEnumPhase::SetConfig(_) => UsbEnumAction::ControlNoData {
                setup: setup_packet(0x00, 0x09, s.endpoints.config_value as u16, 0, 0),
            },
            UsbEnumPhase::ConfigureEps(_) => UsbEnumAction::ConfigureEndpoints {
                ep_in: s.endpoints.ep_in,
                ep_out: s.endpoints.ep_out,
                dci_in: dci_of(s.endpoints.ep_in),
                dci_out: dci_of(s.endpoints.ep_out),
                max_packet_in: s.endpoints.max_packet_in,
                max_packet_out: s.endpoints.max_packet_out,
            },
            UsbEnumPhase::TestUnitReady => UsbEnumAction::Scsi(ScsiCommand::TestUnitReady),
            UsbEnumPhase::ReadCapacity => UsbEnumAction::Scsi(ScsiCommand::ReadCapacity),
            UsbEnumPhase::ReadCapacityData => UsbEnumAction::ReadCapacityData,
            UsbEnumPhase::Done | UsbEnumPhase::Failed(_) => UsbEnumAction::Finish,
        }
    }

    /// Move on to phase `p`.
    fn go(&mut self, p: UsbEnumPhase)
        ensures
            final(self).spec_state() == enum_go(old(self).spec_state(), p),
    {
        self.state.phase = p;
        self.state.wait_start = None;
    }

    /// Give up on port `p`.
    fn next_port(&mut self, p: u8)
        ensures
            final(self).spec_state() == next_port(old(self).spec_state(), p),
    {
        if p < self.state.max_ports && p + 1 < self.state.max_ports {
            self.go(UsbEnumPhase::PortRead(p + 1));
        } else {
            self.go(UsbEnumPhase::Failed(UsbMsdInitError::NoMedia));
        }
    }

    /// Take the platform's report of the last action.
    #[verifier::rlimit(50)]
    pub fn on_event(&mut self, ev: UsbEnumEvent)
        ensures
            final(self).spec_state() == enum_next(old(self).spec_state(), ev),
    {
        let s = self.state;
        match (s.phase, ev) {
            (UsbEnumPhase::PortRead(p), UsbEnumEvent::Value(ps)) => if ps & PORTSC_CCS != 0 && ps & PORTSC_PP != 0 {
                self.go(UsbEnumPhase::PortSettle(p))
            } else {
                self.next_port(p)
            },
            (UsbEnumPhase::PortSettle(p), UsbEnumEvent::Done) => self.go(UsbEnumPhase::PortPrepare(p)),
            (UsbEnumPhase::PortPrepare(p), UsbEnumEvent::Done) => self.go(UsbEnumPhase::ResetRead(p)),
            (UsbEnumPhase::ResetRead(p), UsbEnumEvent::Value(ps)) => self.go(
                UsbEnumPhase::ResetStart(p, (ps & !PORTSC_RW1C) | PORTSC_PR),
            ),
            (UsbEnumPhase::ResetStart(p, _), UsbEnumEvent::Done) => self.go(UsbEnumPhase::ResetWait(p)),
            (UsbEnumPhase::ResetWait(p), UsbEnumEvent::Sample(ps, now)) => {
                let waited = match s.wait_start {
                    Some(start) => elapsed(start, now),
                    None => 0,
                };
                if ps & PORTSC_PRC != 0 {
                    let speed = if ps & PORTSC_PED != 0 {
                        Some(((ps >> 10u32) & 0xF) as u8)
                    } else {
                        None
                    };
                    self.go(UsbEnumPhase::ResetAck(p, (ps & !PORTSC_RW1C) | PORTSC_PRC, speed));
                } else if waited > s.tsc_freq / 2 {
                    self.next_port(p);
                } else if s.wait_start.is_none() {
                    self.state.wait_start = Some(now);
                }
            },
            (UsbEnumPhase::ResetAck(p, _, r), UsbEnumEvent::Done) => match r {
                Some(speed) => {
                    self.state.speed = speed;
                    self.go(UsbEnumPhase::EnableSlot(p));
                },
                None => self.next_port(p),
            },
            (UsbEnumPhase::EnableSlot(p), UsbEnumEvent::Command(r)) => match r {
                Ok((_, slot)) => if slot != 0 {
                    self.state.slot = slot;
                    self.go(UsbEnumPhase::LinkContext(p));
                } else {
                    self.next_port(p);
                },
                Err(_) => self.next_port(p),
            },
            (UsbEnumPhase::LinkContext(p), UsbEnumEvent::Done) => self.go(UsbEnumPhase::Address(p)),
            (UsbEnumPhase::Address(p), UsbEnumEvent::Command(r)) => if r.is_ok() {
                self.go(UsbEnumPhase::GetDevice(p))
            } else {
                self.next_port(p)
            },
            (UsbEnumPhase::GetDevice(p), UsbEnumEvent::Transfer(r)) => if r.is_ok() {
                self.go(UsbEnumPhase::GetConfig(p))
            } else {
                self.next_port(p)
            },
            (UsbEnumPhase::GetConfig(p), UsbEnumEvent::Transfer(r)) => if r.is_ok() {
                self.go(UsbEnumPhase::ReadConfig(p))
            } else {
                self.next_port(p)
            },
            (UsbEnumPhase::ReadConfig(p), UsbEnumEvent::Descriptors(d)) => match parse_config_desc(d.as_slice()) {
                Some(e) => {
                    self.state.endpoints = e;
                    self.go(UsbEnumPhase::SetConfig(p));
                },
                None => self.next_port(p),
            },
            (UsbEnumPhase::SetConfig(p), UsbEnumEvent::Transfer(r)) => if r.is_ok() {
                self.go(UsbEnumPhase::ConfigureEps(p))
            } else {
                self.next_port(p)
            },
            (UsbEnumPhase::ConfigureEps(p), UsbEnumEvent::Command(r)) => if r.is_ok() {
                self.go(UsbEnumPhase::TestUnitReady)
            } else {
                self.next_port(p)
            },
            (UsbEnumPhase::TestUnitReady, UsbEnumEvent::Scsi(_)) => self.go(UsbEnumPhase::ReadCapacity),
            (UsbEnumPhase::ReadCapacity, UsbEnumEvent::Scsi(r)) => match r {
                Ok(_) => self.go(UsbEnumPhase::ReadCapacityData),
                Err(e) => self.go(UsbEnumPhase::Failed(e)),
            },
            (UsbEnumPhase::ReadCapacityData, UsbEnumEvent::Capacity(d)) => {
                self.state.info = read_capacity_info(d.as_slice());
                self.go(UsbEnumPhase::Done);
            },
            _ => {},
        }
    }

    /// How the enumeration ended: the configured device's slot, endpoints
    /// and geometry, or the error; `None` while it is under way.
    pub fn outcome(&self) -> (r: Option<Result<(u8, MscEndpoints, BlockDeviceInfo), UsbMsdInitError>>)
        ensures
            r == (match self.spec_state().phase {
                UsbEnumPhase::Done => Some(
                    Ok::<(u8, MscEndpoints, BlockDeviceInfo), UsbMsdInitError>(
                        (self.spec_state().slot, self.spec_state().endpoints, self.spec_state().info),
                    ),
                ),
                UsbEnumPhase::Failed(e) => Some(Err::<(u8, MscEndpoints, BlockDeviceInfo), UsbMsdInitError>(e)),
                _ => None,
            }),
    {
        match self.state.phase {
            UsbEnumPhase::Done => Some(Ok((self.state.slot, self.state.endpoints, self.state.info))),
            UsbEnumPhase::Failed(e) => Some(Err(e)),
            _ => None,
        }
    }
}

/// The port a phase works on, if any.
pub open spec fn phase_port(p: UsbEnumPhase) -> Option<u8> {
    match p {
        UsbEnumPhase::PortRead(q) | UsbEnumPhase::PortSettle(q) | UsbEnumPhase::PortPrepare(q)
        | UsbEnumPhase::ResetRead(q) | UsbEnumPhase::ResetStart(q, _) | UsbEnumPhase::ResetWait(q)
        | UsbEnumPhase::ResetAck(q, _, _) | UsbEnumPhase::EnableSlot(q) | UsbEnumPhase::LinkContext(q)
        | UsbEnumPhase::Address(q) | UsbEnumPhase::GetDevice(q) | UsbEnumPhase::GetConfig(q)
        | UsbEnumPhase::ReadConfig(q) | UsbEnumPhase::SetConfig(q) | UsbEnumPhase::ConfigureEps(q) => Some(q),
        _ => None,
    }
}

/// The device has a slot: every phase from linking its context on.
pub open spec fn has_slot(p: UsbEnumPhase) -> bool {
    match p {
        UsbEnumPhase::LinkContext(_) | UsbEnumPhase::Address(_) | UsbEnumPhase::GetDevice(_)
        | UsbEnumPhase::GetConfig(_) | UsbEnumPhase::ReadConfig(_) | UsbEnumPhase::SetConfig(_)
        | UsbEnumPhase::ConfigureEps(_) | UsbEnumPhase::TestUnitReady | UsbEnumPhase::ReadCapacity
        | UsbEnumPhase::ReadCapacityData | UsbEnumPhase::Done => true,
        _ => false,
    }
}

/// The device's endpoints are known: every phase from setting its
/// configuration on.
pub open spec fn has_endpoints(p: UsbEnumPhase) -> bool {
    match p {
        UsbEnumPhase::SetConfig(_) | UsbEnumPhase::ConfigureEps(_) | UsbEnumPhase::TestUnitReady
        | UsbEnumPhase::ReadCapacity | UsbEnumPhase::ReadCapacityData | UsbEnumPhase::Done => true,
        _ => false,
    }
}

/// The enumeration's invariant: it only works on existing ports; a device
/// is addressed and configured only with a nonzero slot, and configured
/// only with both a bulk IN and a bulk OUT endpoint.
pub open spec fn enum_inv(s: UsbEnumState) -> bool {
    &&& (phase_port(s.phase) matches Some(q) ==> q < s.max_ports)
    &&& (has_slot(s.phase) ==> s.slot != 0)
    &&& (has_endpoints(s.phase) ==> s.endpoints.ep_in != 0 && s.endpoints.ep_out != 0)
}

/// Whatever the ports and the device answer, the enumeration keeps its
/// invariant from its start on.
pub proof fn lemma_enum_inv(s: UsbEnumState, ev: UsbEnumEvent)
    ensures
        s.max_ports > 0 ==> enum_inv(UsbEnumState { phase: UsbEnumPhase::PortRead(0), ..s }),
        enum_inv(UsbEnumState { phase: UsbEnumPhase::Failed(UsbMsdInitError::NoMedia), ..s }),
        enum_inv(s) ==> enum_inv(enum_next(s, ev)),
{
    if let (UsbEnumPhase::ReadConfig(_), UsbEnumEvent::Descriptors(d)) = (s.phase, ev) {
        assert(config_endpoints(d@) matches Some(e) ==> e.ep_in != 0 && e.ep_out != 0);
    }
}

} // verus!
