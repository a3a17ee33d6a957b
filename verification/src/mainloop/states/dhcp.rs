//! DHCP state — waits for the DHCP socket to be configured.

use crate::mainloop::state::StepResult;
use vstd::prelude::*;

verus! {

/// What the DHCP socket reported when polled.
#[derive(Debug, Clone, Copy, PartialEq, Eq, Structural)]
pub enum DhcpEvent {
    /// An address was assigned (the caller applies it to the interface).
    Configured,
    /// The lease was lost.
    Deconfigured,
}

/// What the DHCP step decided before polling the socket.
#[derive(Debug, Clone, Copy, PartialEq, Eq, Structural)]
pub enum DhcpStep {
    /// No address within the timeout: fail with "DHCP timeout".
    Timeout,
    /// An address was obtained: go to DNS.
    ToDns,
    /// No DHCP socket: fail with "no socket".
    NoSocket,
    /// Poll the DHCP socket and report its event with `on_event`.
    Poll,
}

impl DhcpStep {
    /// What the download loop reports for this decision; `Poll` continues
    /// (the socket's event is handled before the next step).
    pub fn result(self) -> (r: StepResult)
        ensures
            r == (match self {
                DhcpStep::Timeout => StepResult::Failed("DHCP timeout"),
                DhcpStep::ToDns => StepResult::Transition,
                DhcpStep::NoSocket => StepResult::Failed("no socket"),
                DhcpStep::Poll => StepResult::Continue,
            }),
    {
        match self {
            DhcpStep::Timeout => StepResult::Failed("DHCP timeout"),
            DhcpStep::ToDns => StepResult::Transition,
            DhcpStep::NoSocket => StepResult::Failed("no socket"),
            DhcpStep::Poll => StepResult::Continue,
        }
    }
}

/// DHCP acquisition state.
pub struct DhcpState {
    start_tsc: u64,
    got_ip: bool,
}

/// Ticks elapsed from `start` to `now`, zero if `now` is earlier.
pub open spec fn saturating_elapsed(start: u64, now: u64) -> int {
    if now >= start {
        now - start
    } else {
        0
    }
}

impl DhcpState {
    pub closed spec fn spec_start(&self) -> u64 {
        self.start_tsc
    }

    pub closed spec fn spec_got_ip(&self) -> bool {
        self.got_ip
    }

    pub fn new() -> (r: Self)
        ensures
            r.spec_start() == 0,
            !r.spec_got_ip(),
    {
        DhcpState { start_tsc: 0, got_ip: false }
    }

    /// One step at time `tsc`: the first step records the start time; then
    /// a timeout fails, an address moves on, and otherwise the socket is
    /// polled if there is one.
    pub fn step(&mut self, tsc: u64, timeout_ticks: u64, has_socket: bool) -> (r: DhcpStep)
        ensures
            final(self).spec_got_ip() == old(self).spec_got_ip(),
            final(self).spec_start() == (if old(self).spec_start() == 0 {
                tsc
            } else {
                old(self).spec_start()
            }),
            r == (if saturating_elapsed(final(self).spec_start(), tsc) > timeout_ticks {
                DhcpStep::Timeout
            } else if old(self).spec_got_ip() {
                DhcpStep::ToDns
            } else if !has_socket {
                DhcpStep::NoSocket
            } else {
                DhcpStep::Poll
            }),
    {
        if self.start_tsc == 0 {
            self.start_tsc = tsc;
        }
        let elapsed = tsc.saturating_sub(self.start_tsc);
        if elapsed > timeout_ticks {
            return DhcpStep::Timeout;
        }
        if self.got_ip {
            return DhcpStep::ToDns;
        }
        if !has_socket {
            return DhcpStep::NoSocket;
        }
        DhcpStep::Poll
    }

    /// Record what the DHCP socket reported.
    pub fn on_event(&mut self, event: Option<DhcpEvent>)
        ensures
            final(self).spec_start() == old(self).spec_start(),
            final(self).spec_got_ip() == (old(self).spec_got_ip() || event == Some(DhcpEvent::Configured)),
    {
        if let Some(DhcpEvent::Configured) = event {
            self.got_ip = true;
        }
    }
}

impl Default for DhcpState {
    fn default() -> (r: Self)
        ensures
            r.spec_start() == 0,
            !r.spec_got_ip(),
    {
        DhcpState::new()
    }
}

} // verus!
