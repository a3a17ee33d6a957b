//! Timeouts and download configuration shared by the download states.

use vstd::prelude::*;

verus! {

/// Timeout configuration for network operations, in TSC ticks.
#[derive(Clone, Copy)]
pub struct Timeouts {
    tsc_freq: u64,
}

impl Timeouts {
    /// TSC frequency (ticks per second) the timeouts are measured in.
    pub closed spec fn freq(&self) -> int {
        self.tsc_freq as int
    }

    pub fn new(tsc_freq: u64) -> (r: Self)
        ensures
            r.freq() == tsc_freq,
    {
        Timeouts { tsc_freq }
    }

    /// DHCP timeout (10 seconds).
    pub fn dhcp(&self) -> (r: u64)
        requires
            self.freq() * 10 <= u64::MAX,
        ensures
            r == self.freq() * 10,
    {
        self.tsc_freq * 10
    }

    /// DNS timeout (5 seconds).
    pub fn dns(&self) -> (r: u64)
        requires
            self.freq() * 5 <= u64::MAX,
        ensures
            r == self.freq() * 5,
    {
        self.tsc_freq * 5
    }

    /// TCP connect timeout (10 seconds).
    pub fn tcp_connect(&self) -> (r: u64)
        requires
            self.freq() * 10 <= u64::MAX,
        ensures
            r == self.freq() * 10,
    {
        self.tsc_freq * 10
    }

    /// HTTP idle timeout (30 seconds).
    pub fn http_idle(&self) -> (r: u64)
        requires
            self.freq() * 30 <= u64::MAX,
        ensures
            r == self.freq() * 30,
    {
        self.tsc_freq * 30
    }
}

/// Configuration for the download operation.
#[derive(Clone)]
pub struct DownloadConfig<'a> {
    /// URL to download
    pub url: &'a str,
}

impl<'a> DownloadConfig<'a> {
    pub fn new(url: &'a str) -> (r: Self)
        ensures
            r.url == url,
    {
        DownloadConfig { url }
    }
}

/// Ticks from `start` to `now` on a counter that wraps at 2^64.
pub open spec fn elapsed_ticks(start: u64, now: u64) -> int {
    if now >= start {
        now - start
    } else {
        now - start + 0x1_0000_0000_0000_0000
    }
}

/// Ticks from `start` to `now`, the counter being allowed to wrap once.
pub fn elapsed(start: u64, now: u64) -> (r: u64)
    ensures
        r == elapsed_ticks(start, now),
{
    now.wrapping_sub(start)
}

} // verus!
