//! PHY link wait state: polls the link until it is up, then waits for it to
//! settle; gives up waiting after a timeout and lets DHCP fail on its own.

use crate::mainloop::context::elapsed_ticks;
use vstd::prelude::*;

verus! {

/// Timeout for PHY auto-negotiation, in seconds.
pub const LINK_TIMEOUT_SECS: u64 = 15;

/// Stabilization delay after link comes up, in milliseconds.
pub const STABILIZE_MS: u64 = 500;

/// Interval between progress dots, in seconds.
pub const DOT_INTERVAL_SECS: u64 = 1;

/// What the link wait step decided.
#[derive(Debug, Clone, Copy, PartialEq, Eq, Structural)]
pub enum LinkStep {
    /// Keep waiting; print a progress dot if `dot`.
    Wait { dot: bool },
    /// The link just came up; stabilization starts.
    LinkUp,
    /// Move on to DHCP: the link is stable, or waiting timed out.
    ToDhcp { timed_out: bool },
}

/// PHY link wait state.
pub struct LinkWaitState {
    started: bool,
    start_tsc: u64,
    link_established: bool,
    stable_start_tsc: u64,
    last_dot_tsc: u64,
}

/// The link wait state's fields, as a plain value.
pub struct LinkWaitView {
    pub started: bool,
    pub start_tsc: u64,
    pub link_established: bool,
    pub stable_start_tsc: u64,
    pub last_dot_tsc: u64,
}

/// One step of the link wait, from state `s` at time `tsc`, with the TSC
/// running at `freq` and the driver reporting `link_up`.
pub open spec fn link_step(s: LinkWaitView, tsc: u64, freq: u64, link_up: bool) -> (LinkWaitView, LinkStep) {
    let s1 = if !s.started {
        LinkWaitView { started: true, start_tsc: tsc, last_dot_tsc: tsc, ..s }
    } else {
        s
    };
    if s1.link_established {
        if elapsed_ticks(s1.stable_start_tsc, tsc) >= freq * STABILIZE_MS / 1000 {
            (s1, LinkStep::ToDhcp { timed_out: false })
        } else {
            (s1, LinkStep::Wait { dot: false })
        }
    } else if link_up {
        (LinkWaitView { link_established: true, stable_start_tsc: tsc, ..s1 }, LinkStep::LinkUp)
    } else {
        let dot = elapsed_ticks(s1.last_dot_tsc, tsc) >= freq * DOT_INTERVAL_SECS;
        let s2 = if dot {
            LinkWaitView { last_dot_tsc: tsc, ..s1 }
        } else {
            s1
        };
        if elapsed_ticks(s2.start_tsc, tsc) >= freq * LINK_TIMEOUT_SECS {
            (s2, LinkStep::ToDhcp { timed_out: true })
        } else {
            (s2, LinkStep::Wait { dot })
        }
    }
}

impl LinkWaitState {
    pub closed spec fn view(&self) -> LinkWaitView {
        LinkWaitView {
            started: self.started,
            start_tsc: self.start_tsc,
            link_established: self.link_established,
            stable_start_tsc: self.stable_start_tsc,
            last_dot_tsc: self.last_dot_tsc,
        }
    }

    pub fn new() -> (r: Self)
        ensures
            r.view() == (LinkWaitView {
                started: false,
                start_tsc: 0,
                link_established: false,
                stable_start_tsc: 0,
                last_dot_tsc: 0,
            }),
    {
        LinkWaitState { started: false, start_tsc: 0, link_established: false, stable_start_tsc: 0, last_dot_tsc: 0 }
    }

    /// One step of the link wait; see `link_step`.
    pub fn step(&mut self, tsc: u64, tsc_freq: u64, link_up: bool) -> (r: LinkStep)
        requires
            tsc_freq * STABILIZE_MS <= u64::MAX,
        ensures
            (final(self).view(), r) == link_step(old(self).view(), tsc, tsc_freq, link_up),
    {
        if !self.started {
            self.started = true;
            self.start_tsc = tsc;
            self.last_dot_tsc = tsc;
        }
        if self.link_established {
            let stabilize_ticks = (tsc_freq * STABILIZE_MS) / 1000;
            if tsc.wrapping_sub(self.stable_start_tsc) >= stabilize_ticks {
                return LinkStep::ToDhcp { timed_out: false };
            }
            return LinkStep::Wait { dot: false };
        }
        if link_up {
            self.link_established = true;
            self.stable_start_tsc = tsc;
            return LinkStep::LinkUp;
        }
        let dot_ticks = tsc_freq * DOT_INTERVAL_SECS;
        let dot = tsc.wrapping_sub(self.last_dot_tsc) >= dot_ticks;
        if dot {
            self.last_dot_tsc = tsc;
        }
        let timeout_ticks = tsc_freq * LINK_TIMEOUT_SECS;
        if tsc.wrapping_sub(self.start_tsc) >= timeout_ticks {
            return LinkStep::ToDhcp { timed_out: true };
        }
        LinkStep::Wait { dot }
    }
}

impl Default for LinkWaitState {
    fn default() -> (r: Self)
        ensures
            r.view() == (LinkWaitView {
                started: false,
                start_tsc: 0,
                link_established: false,
                stable_start_tsc: 0,
                last_dot_tsc: 0,
            }),
    {
        LinkWaitState::new()
    }
}

} // verus!
