//! Intel e1000e PHY management: link status from the STATUS register
//! summary, and the PHY register values the driver reads and writes.
//!
//! Register accesses go through the platform's MDIC routines; the functions
//! here take what was read and give what is to be written.

use vstd::prelude::*;

verus! {

/// Basic Mode Control Register.
pub const PHY_BMCR: u32 = 0x00;

/// Basic Mode Status Register.
pub const PHY_BMSR: u32 = 0x01;

/// PHY identifier registers.
pub const PHY_PHYID1: u32 = 0x02;

pub const PHY_PHYID2: u32 = 0x03;

/// BMCR: restart auto-negotiation.
pub const BMCR_ANRESTART: u16 = 0x0200;

/// BMCR: isolate.
pub const BMCR_ISOLATE: u16 = 0x0400;

/// BMCR: power down.
pub const BMCR_PDOWN: u16 = 0x0800;

/// BMCR: auto-negotiation enable.
pub const BMCR_ANENABLE: u16 = 0x1000;

/// BMCR: software reset.
pub const BMCR_RESET: u16 = 0x8000;

/// BMSR: auto-negotiation complete.
pub const BMSR_ANEGCOMPLETE: u16 = 0x0020;

/// Link speed.
#[derive(Debug, Clone, Copy, PartialEq, Eq, Structural)]
pub enum LinkSpeed {
    /// 10 Mbps.
    Speed10,
    /// 100 Mbps.
    Speed100,
    /// 1000 Mbps (1 Gbps).
    Speed1000,
    /// Unknown speed.
    Unknown,
}

impl LinkSpeed {
    /// Get speed in Mbps (0 when unknown).
    pub fn mbps(&self) -> (r: u32)
        ensures
            r == (match *self {
                LinkSpeed::Speed10 => 10u32,
                LinkSpeed::Speed100 => 100,
                LinkSpeed::Speed1000 => 1000,
                LinkSpeed::Unknown => 0,
            }),
    {
        match self {
            LinkSpeed::Speed10 => 10,
            LinkSpeed::Speed100 => 100,
            LinkSpeed::Speed1000 => 1000,
            LinkSpeed::Unknown => 0,
        }
    }
}

/// Link status information.
#[derive(Debug, Clone, Copy, PartialEq, Eq, Structural)]
pub struct LinkStatus {
    /// Link is up.
    pub link_up: bool,
    /// Full duplex mode.
    pub full_duplex: bool,
    /// Link speed.
    pub speed: LinkSpeed,
}

impl Default for LinkStatus {
    /// Link down, half duplex, unknown speed.
    fn default() -> (r: Self)
        ensures
            r == (LinkStatus { link_up: false, full_duplex: false, speed: LinkSpeed::Unknown }),
    {
        LinkStatus { link_up: false, full_duplex: false, speed: LinkSpeed::Unknown }
    }
}

/// The link summary the platform reads from the STATUS register: nonzero
/// flags, and the speed field (0 = 10, 1 = 100, 2 = 1000 Mbps).
#[derive(Debug, Clone, Copy, PartialEq, Eq, Structural)]
pub struct LinkStatusResult {
    pub link_up: u32,
    pub full_duplex: u32,
    pub speed: u32,
}

/// Link status described by a STATUS summary.
pub open spec fn status_of(result: LinkStatusResult) -> LinkStatus {
    LinkStatus {
        link_up: result.link_up != 0,
        full_duplex: result.full_duplex != 0,
        speed: if result.speed == 0 {
            LinkSpeed::Speed10
        } else if result.speed == 1 {
            LinkSpeed::Speed100
        } else if result.speed == 2 {
            LinkSpeed::Speed1000
        } else {
            LinkSpeed::Unknown
        },
    }
}

impl LinkStatus {
    /// Link status described by a STATUS summary.
    pub fn from_result(result: LinkStatusResult) -> (r: Self)
        ensures
            r == status_of(result),
    {
        let speed = if result.speed == 0 {
            LinkSpeed::Speed10
        } else if result.speed == 1 {
            LinkSpeed::Speed100
        } else if result.speed == 2 {
            LinkSpeed::Speed1000
        } else {
            LinkSpeed::Unknown
        };
        LinkStatus { link_up: result.link_up != 0, full_duplex: result.full_duplex != 0, speed }
    }
}

/// PHY manager for an e1000e device.
pub struct PhyManager {
    /// MMIO base address.
    mmio_base: u64,
    /// TSC frequency for timeouts.
    tsc_freq: u64,
    /// Cached link status.
    cached_status: LinkStatus,
}

impl PhyManager {
    /// MMIO base address of the device.
    pub closed spec fn base(&self) -> u64 {
        self.mmio_base
    }

    /// TSC frequency used for timeouts.
    pub closed spec fn freq(&self) -> u64 {
        self.tsc_freq
    }

    /// Last link status seen.
    pub closed spec fn cached(&self) -> LinkStatus {
        self.cached_status
    }

    /// A manager for the device at `mmio_base` that has read nothing yet:
    /// its cached status is link down.
    pub closed spec fn fresh(mmio_base: u64, tsc_freq: u64) -> PhyManager {
        PhyManager {
            mmio_base,
            tsc_freq,
            cached_status: LinkStatus { link_up: false, full_duplex: false, speed: LinkSpeed::Unknown },
        }
    }

    /// The manager after recording the STATUS summaries `results`, in order.
    pub closed spec fn after_reads(&self, results: Seq<LinkStatusResult>) -> PhyManager
        decreases results.len(),
    {
        if results.len() == 0 {
            *self
        } else {
            let p = self.after_reads(results.drop_last());
            PhyManager { mmio_base: p.mmio_base, tsc_freq: p.tsc_freq, cached_status: status_of(results.last()) }
        }
    }

    /// Create a new PHY manager; the cached status is the default (down).
    pub fn new(mmio_base: u64, tsc_freq: u64) -> (r: Self)
        ensures
            r == PhyManager::fresh(mmio_base, tsc_freq),
            r.base() == mmio_base,
            r.freq() == tsc_freq,
            r.cached() == (LinkStatus { link_up: false, full_duplex: false, speed: LinkSpeed::Unknown }),
    {
        PhyManager { mmio_base, tsc_freq, cached_status: LinkStatus::default() }
    }

    /// MMIO base address of the device.
    pub fn mmio_base(&self) -> (r: u64)
        ensures
            r == self.base(),
    {
        self.mmio_base
    }

    /// TSC frequency used for timeouts.
    pub fn tsc_freq(&self) -> (r: u64)
        ensures
            r == self.freq(),
    {
        self.tsc_freq
    }

    /// Record a fresh STATUS summary as the current link status, and return
    /// it.
    pub fn link_status_from(&mut self, result: LinkStatusResult) -> (r: LinkStatus)
        ensures
            r == status_of(result),
            *final(self) == old(self).after_reads(seq![result]),
            final(self).cached() == r,
            final(self).base() == old(self).base(),
            final(self).freq() == old(self).freq(),
    {
        let ghost before = *self;
        self.cached_status = LinkStatus::from_result(result);
        proof {
            assert(seq![result].drop_last() =~= Seq::<LinkStatusResult>::empty());
            assert(before.after_reads(seq![result].drop_last()) == before);
        }
        self.cached_status
    }

    /// Record a fresh STATUS summary and tell whether the link is up.
    pub fn is_link_up(&mut self, result: LinkStatusResult) -> (r: bool)
        ensures
            r == (result.link_up != 0),
            *final(self) == old(self).after_reads(seq![result]),
            final(self).cached() == status_of(result),
            final(self).base() == old(self).base(),
            final(self).freq() == old(self).freq(),
    {
        self.link_status_from(result).link_up
    }

    /// The cached status is what the most recent read gave (or what was
    /// cached before, with no read), and reads keep the base and frequency.
    pub proof fn lemma_after_reads(&self, results: Seq<LinkStatusResult>)
        ensures
            self.after_reads(results).cached() == (if results.len() == 0 {
                self.cached()
            } else {
                status_of(results.last())
            }),
            self.after_reads(results).base() == self.base(),
            self.after_reads(results).freq() == self.freq(),
        decreases results.len(),
    {
        if results.len() > 0 {
            self.lemma_after_reads(results.drop_last());
        }
    }

    /// Get cached link status (no hardware access).
    pub fn cached_link_status(&self) -> (r: LinkStatus)
        ensures
            r == self.cached(),
    {
        self.cached_status
    }

    /// PHY identifier from the two ID register reads; `None` if either read
    /// failed.
    pub fn read_phy_id(&self, id1: Option<u16>, id2: Option<u16>) -> (r: Option<(u16, u16)>)
        ensures
            r == (match (id1, id2) {
                (Some(a), Some(b)) => Some((a, b)),
                _ => None::<(u16, u16)>,
            }),
    {
        match (id1, id2) {
            (Some(a), Some(b)) => Some((a, b)),
            _ => None,
        }
    }

    /// Whether auto-negotiation is complete, from a BMSR read (false if the
    /// read failed).
    pub fn is_autoneg_complete(&self, bmsr: Option<u16>) -> (r: bool)
        ensures
            r == (match bmsr {
                Some(b) => b & BMSR_ANEGCOMPLETE != 0,
                None => false,
            }),
    {
        match bmsr {
            Some(b) => b & BMSR_ANEGCOMPLETE != 0,
            None => false,
        }
    }

    /// BMCR value that restarts auto-negotiation, from the current BMCR
    /// (`Err` if it could not be read).
    pub fn restart_autoneg(&self, bmcr: Option<u16>) -> (r: Result<u16, ()>)
        ensures
            r == (match bmcr {
                Some(b) => Ok::<u16, ()>(b | BMCR_ANENABLE | BMCR_ANRESTART),
                None => Err(()),
            }),
    {
        match bmcr {
            Some(b) => Ok(b | BMCR_ANENABLE | BMCR_ANRESTART),
            None => Err(()),
        }
    }

    /// BMCR value written to software-reset the PHY.
    pub fn reset(&self) -> (r: u16)
        ensures
            r == BMCR_RESET,
    {
        BMCR_RESET
    }
}

/// Wrap a raw PHY register read: the MDIC routine reports failure as
/// all ones, otherwise the value is in the low 16 bits.
pub fn phy_read_value(raw: u32) -> (r: Option<u16>)
    ensures
        r == (if raw != 0xFFFF_FFFF {
            Some((raw % 0x10000) as u16)
        } else {
            None
        }),
{
    if raw != 0xFFFF_FFFF {
        let low = raw % 0x10000;
        Some(low as u16)
    } else {
        None
    }
}

/// The cached link status of a manager made for `mmio_base` is the status
/// the most recent of its reads gave, or link down (half duplex, speed
/// unknown) before any read; the base and frequency never change.
pub proof fn lemma_cache_is_last_read(mmio_base: u64, tsc_freq: u64, results: Seq<LinkStatusResult>)
    ensures
        PhyManager::fresh(mmio_base, tsc_freq).after_reads(results).cached() == (if results.len() == 0 {
            LinkStatus { link_up: false, full_duplex: false, speed: LinkSpeed::Unknown }
        } else {
            status_of(results.last())
        }),
        PhyManager::fresh(mmio_base, tsc_freq).after_reads(results).base() == mmio_base,
        PhyManager::fresh(mmio_base, tsc_freq).after_reads(results).freq() == tsc_freq,
{
    PhyManager::fresh(mmio_base, tsc_freq).lemma_after_reads(results);
}

} // verus!
