//! TCP connection state: opens the connection to the resolved server and
//! waits for it to be established.

use super::dhcp::saturating_elapsed;
use crate::mainloop::state::StepResult;
use vstd::prelude::*;

verus! {

/// First local port used for the connection.
pub const LOCAL_PORT_BASE: u16 = 49152;

/// What the TCP socket's state says about the connection.
#[derive(Debug, Clone, Copy, PartialEq, Eq, Structural)]
pub enum TcpStatus {
    /// The connection is established.
    Established,
    /// The handshake is under way (SYN sent or received).
    Connecting,
    /// The connection closed or was reset (closed or time-wait).
    Closed,
    /// Any other state.
    Other,
}

/// What the connect step decided.
#[derive(Debug, Clone, Copy)]
pub enum ConnectStep {
    /// Not connected within the timeout: fail with "TCP timeout".
    Timeout,
    /// No address to connect to: fail with "no IP".
    NoAddress,
    /// No TCP socket: fail with "no socket".
    NoSocket,
    /// Open the connection to `addr:port` from `local_port`, and report
    /// the outcome with `connect_result`.
    Connect { addr: [u8; 4], port: u16, local_port: u16 },
    /// Connected: go to HTTP.
    ToHttp,
    /// The connection closed: fail with "closed".
    Closed,
    /// Keep waiting.
    Wait,
}

impl ConnectStep {
    /// What the download loop reports for this decision; after `Connect`
    /// the loop continues if opening the connection succeeded (see
    /// `ConnectState::connect_result`).
    pub fn result(self) -> (r: StepResult)
        ensures
            r == (match self {
                ConnectStep::Timeout => StepResult::Failed("TCP timeout"),
                ConnectStep::NoAddress => StepResult::Failed("no IP"),
                ConnectStep::NoSocket => StepResult::Failed("no socket"),
                ConnectStep::Connect { .. } => StepResult::Continue,
                ConnectStep::ToHttp => StepResult::Transition,
                ConnectStep::Closed => StepResult::Failed("closed"),
                ConnectStep::Wait => StepResult::Continue,
            }),
    {
        match self {
            ConnectStep::Timeout => StepResult::Failed("TCP timeout"),
            ConnectStep::NoAddress => StepResult::Failed("no IP"),
            ConnectStep::NoSocket => StepResult::Failed("no socket"),
            ConnectStep::Connect { .. } => StepResult::Continue,
            ConnectStep::ToHttp => StepResult::Transition,
            ConnectStep::Closed => StepResult::Failed("closed"),
            ConnectStep::Wait => StepResult::Continue,
        }
    }
}

/// TCP connection state.
pub struct ConnectState {
    start_tsc: u64,
    connect_started: bool,
    target: Option<([u8; 4], u16)>,
}

/// Local port for a connection opened at time `tsc`: in 49152..65535,
/// picked from the low bits of the time.
pub open spec fn local_port_for(tsc: u64) -> u16 {
    (49152 + ((tsc % 0x10000) as u16) % 16384) as u16
}

/// Local port for a connection opened at time `tsc`.
pub fn local_port(tsc: u64) -> (r: u16)
    ensures
        r == local_port_for(tsc),
        49152 <= r,
{
    let low = (tsc & 0xFFFF) as u16;
    assert(tsc & 0xFFFF == tsc % 0x10000) by (bit_vector);
    LOCAL_PORT_BASE + low % 16384
}

impl ConnectState {
    pub closed spec fn spec_start(&self) -> u64 {
        self.start_tsc
    }

    pub closed spec fn spec_started(&self) -> bool {
        self.connect_started
    }

    pub closed spec fn spec_target(&self) -> Option<(Seq<u8>, u16)> {
        match self.target {
            Some((a, p)) => Some((a@, p)),
            None => None,
        }
    }

    /// Connect to the address resolved by DNS.
    pub fn new() -> (r: Self)
        ensures
            r.spec_start() == 0,
            !r.spec_started(),
            r.spec_target() is None,
    {
        ConnectState { start_tsc: 0, connect_started: false, target: None }
    }

    /// Connect to the given endpoint.
    pub fn with_endpoint(addr: [u8; 4], port: u16) -> (r: Self)
        ensures
            r.spec_start() == 0,
            !r.spec_started(),
            r.spec_target() == Some((addr@, port)),
    {
        ConnectState { start_tsc: 0, connect_started: false, target: Some((addr, port)) }
    }

    /// One step at time `tsc`: the first step records the start time; a
    /// timeout fails; the endpoint is the state's own, or the resolved
    /// address and port; the connection is opened once, and then the
    /// socket's status decides.
    pub fn step(
        &mut self,
        tsc: u64,
        timeout_ticks: u64,
        resolved: Option<[u8; 4]>,
        resolved_port: u16,
        has_socket: bool,
        status: TcpStatus,
    ) -> (r: ConnectStep)
        ensures
            final(self).spec_target() == old(self).spec_target(),
            final(self).spec_started() == old(self).spec_started(),
            final(self).spec_start() == (if old(self).spec_start() == 0 {
                tsc
            } else {
                old(self).spec_start()
            }),
            saturating_elapsed(final(self).spec_start(), tsc) > timeout_ticks ==> r == ConnectStep::Timeout,
            saturating_elapsed(final(self).spec_start(), tsc) <= timeout_ticks ==> {
                if old(self).spec_target() is None && resolved is None {
                    r == ConnectStep::NoAddress
                } else if !has_socket {
                    r == ConnectStep::NoSocket
                } else if !old(self).spec_started() {
                    r matches ConnectStep::Connect { addr, port, local_port } && local_port == local_port_for(tsc)
                        && (match old(self).spec_target() {
                        Some((a, p)) => addr@ == a && port == p,
                        None => resolved matches Some(ra) && addr@ == ra@ && port == resolved_port,
                    })
                } else {
                    r == (match status {
                        TcpStatus::Established => ConnectStep::ToHttp,
                        TcpStatus::Closed => ConnectStep::Closed,
                        _ => ConnectStep::Wait,
                    })
                }
            },
    {
        if self.start_tsc == 0 {
            self.start_tsc = tsc;
        }
        let elapsed = tsc.saturating_sub(self.start_tsc);
        if elapsed > timeout_ticks {
            return ConnectStep::Timeout;
        }
        let (addr, port) = match self.target {
            Some((a, p)) => (a, p),
            None => match resolved {
                Some(a) => (a, resolved_port),
                None => return ConnectStep::NoAddress,
            },
        };
        if !has_socket {
            return ConnectStep::NoSocket;
        }
        if !self.connect_started {
            return ConnectStep::Connect { addr, port, local_port: local_port(tsc) };
        }
        match status {
            TcpStatus::Established => ConnectStep::ToHttp,
            TcpStatus::Closed => ConnectStep::Closed,
            _ => ConnectStep::Wait,
        }
    }

    /// Record the outcome of opening the connection: on success the
    /// connection counts as started and the loop continues; a failure fails
    /// the download with "connect".
    pub fn connect_result(&mut self, ok: bool) -> (r: StepResult)
        ensures
            r == (if ok {
                StepResult::Continue
            } else {
                StepResult::Failed("connect")
            }),
            final(self).spec_started() == (old(self).spec_started() || ok),
            final(self).spec_start() == old(self).spec_start(),
            final(self).spec_target() == old(self).spec_target(),
    {
        if ok {
            self.connect_started = true;
            StepResult::Continue
        } else {
            StepResult::Failed("connect")
        }
    }
}

impl Default for ConnectState {
    fn default() -> (r: Self)
        ensures
            r.spec_start() == 0,
            !r.spec_started(),
            r.spec_target() is None,
    {
        ConnectState::new()
    }
}

} // verus!
