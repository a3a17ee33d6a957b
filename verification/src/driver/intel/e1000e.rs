//! The e1000e driver state: MAC, PHY and rings, and the network driver
//! operations' decisions on them.

use super::init::{E1000eConfig, E1000eInitError, E1000eInitResult};
use super::phy::{status_of, LinkSpeed, LinkStatus, LinkStatusResult, PhyManager};
use super::rx::{rx_step_of, RxPollResult, RxStep};
use super::tx::{next_submission, ring_next, TxSubmission, MAX_FRAME_SIZE};
use super::{e1000e_device_id_list, e1000e_device_ids, INTEL_VENDOR_ID};
use crate::driver::traits::{DriverInit, RxError, TxError};
use crate::types::MacAddress;
use vstd::prelude::*;

verus! {

/// Driver errors.
#[derive(Debug, Clone, Copy, PartialEq, Eq, Structural)]
pub enum E1000eError {
    InitFailed(E1000eInitError),
    NotReady,
    LinkDown,
}

impl From<E1000eInitError> for E1000eError {
    fn from(e: E1000eInitError) -> (r: Self) {
        E1000eError::InitFailed(e)
    }
}

impl vstd::std_specs::convert::FromSpecImpl<E1000eInitError> for E1000eError {
    open spec fn obeys_from_spec() -> bool {
        true
    }

    open spec fn from_spec(e: E1000eInitError) -> E1000eError {
        E1000eError::InitFailed(e)
    }
}

/// Ring errors as the generic driver interface reports them.
pub fn tx_error(e: super::tx::TxError) -> (r: TxError)
    ensures
        r == (match e {
            super::tx::TxError::QueueFull => TxError::QueueFull,
            super::tx::TxError::FrameTooLarge { .. } => TxError::FrameTooLarge,
        }),
{
    match e {
        super::tx::TxError::QueueFull => TxError::QueueFull,
        super::tx::TxError::FrameTooLarge { .. } => TxError::FrameTooLarge,
    }
}

/// Ring errors as the generic driver interface reports them.
pub fn rx_error(e: super::rx::RxError) -> (r: RxError)
    ensures
        r == (match e {
            super::rx::RxError::BufferTooSmall { needed, .. } => RxError::BufferTooSmall { needed },
            super::rx::RxError::PacketError(_) => RxError::DeviceError,
        }),
{
    match e {
        super::rx::RxError::BufferTooSmall { needed, .. } => RxError::BufferTooSmall { needed },
        super::rx::RxError::PacketError(_) => RxError::DeviceError,
    }
}

/// An initialized e1000e device.
pub struct E1000eDriver {
    mmio_base: u64,
    mac: MacAddress,
    phy: PhyManager,
    rx_ring: super::rx::RxRing,
    tx_ring: super::tx::TxRing,
    initialized: bool,
}

impl E1000eDriver {
    /// Both rings are well formed.
    pub closed spec fn wf(&self) -> bool {
        self.rx_ring.wf() && self.tx_ring.wf()
    }

    pub closed spec fn spec_mmio_base(&self) -> u64 {
        self.mmio_base
    }

    pub closed spec fn spec_mac(&self) -> MacAddress {
        self.mac
    }

    pub closed spec fn spec_initialized(&self) -> bool {
        self.initialized
    }

    pub closed spec fn spec_phy(&self) -> PhyManager {
        self.phy
    }

    pub closed spec fn spec_tx(&self) -> super::tx::TxRing {
        self.tx_ring
    }

    pub closed spec fn spec_rx(&self) -> super::rx::RxRing {
        self.rx_ring
    }

    /// Driver over a device that the init sequence brought up with
    /// `config`, yielding `init`.
    pub fn new(mmio_base: u64, config: &E1000eConfig, init: E1000eInitResult) -> (r: Self)
        requires
            init.rx_ring.wf(),
            init.tx_ring.wf(),
        ensures
            r.wf(),
            r.spec_mmio_base() == mmio_base,
            r.spec_mac() == init.mac,
            r.spec_initialized(),
            r.spec_phy().base() == mmio_base,
            r.spec_phy().freq() == config.tsc_freq,
            r.spec_phy().cached() == (LinkStatus { link_up: false, full_duplex: false, speed: LinkSpeed::Unknown }),
            r.spec_tx() == init.tx_ring,
            r.spec_rx() == init.rx_ring,
    {
        let phy = PhyManager::new(mmio_base, config.tsc_freq);
        E1000eDriver {
            mmio_base,
            mac: init.mac,
            phy,
            rx_ring: init.rx_ring,
            tx_ring: init.tx_ring,
            initialized: true,
        }
    }

    pub fn mmio_base(&self) -> (r: u64)
        ensures
            r == self.spec_mmio_base(),
    {
        self.mmio_base
    }

    pub fn is_initialized(&self) -> (r: bool)
        ensures
            r == self.spec_initialized(),
    {
        self.initialized
    }

    pub fn mac_address(&self) -> (r: MacAddress)
        ensures
            r == self.spec_mac(),
    {
        self.mac
    }

    /// The PHY manager.
    pub fn phy(&self) -> (r: &PhyManager)
        ensures
            *r == self.spec_phy(),
    {
        &self.phy
    }

    /// Outcome of waiting for the link: the STATUS summary once it came up
    /// (recorded as the PHY's link status), or `None` on timeout.
    pub fn wait_for_link(&mut self, outcome: Option<LinkStatusResult>) -> (r: bool)
        ensures
            r == outcome is Some,
            outcome matches Some(res) ==> final(self).spec_phy().cached() == status_of(res),
            outcome is None ==> final(self).spec_phy() == old(self).spec_phy(),
            final(self).spec_tx() == old(self).spec_tx(),
            final(self).spec_rx() == old(self).spec_rx(),
            final(self).spec_initialized() == old(self).spec_initialized(),
            final(self).spec_mac() == old(self).spec_mac(),
            final(self).spec_mmio_base() == old(self).spec_mmio_base(),
            final(self).spec_phy().base() == old(self).spec_phy().base(),
            final(self).spec_phy().freq() == old(self).spec_phy().freq(),
    {
        match outcome {
            Some(res) => {
                self.phy.link_status_from(res);
                true
            },
            None => false,
        }
    }

    /// The device is up and a TX descriptor is free.
    pub fn can_transmit(&self) -> (r: bool)
        requires
            self.wf(),
        ensures
            r == (self.spec_initialized() && self.spec_tx().pending() < self.spec_tx().size() - 1),
    {
        self.initialized && self.tx_ring.can_transmit()
    }

    /// Submit a frame of `frame_len` bytes; see `TxRing::transmit`. A device
    /// that is not up is `DeviceNotReady`.
    pub fn transmit(&mut self, frame_len: usize) -> (r: Result<TxSubmission, TxError>)
        requires
            old(self).wf(),
        ensures
            final(self).wf(),
            final(self).spec_rx() == old(self).spec_rx(),
            final(self).spec_initialized() == old(self).spec_initialized(),
            !old(self).spec_initialized() ==> r == Err::<TxSubmission, TxError>(TxError::DeviceNotReady)
                && final(self).spec_tx() == old(self).spec_tx(),
            old(self).spec_initialized() && frame_len > MAX_FRAME_SIZE ==> r == Err::<TxSubmission, TxError>(
                TxError::FrameTooLarge,
            ),
            old(self).spec_initialized() && frame_len <= MAX_FRAME_SIZE && old(self).spec_tx().pending()
                >= old(self).spec_tx().size() - 1 ==> r == Err::<TxSubmission, TxError>(TxError::QueueFull),
            r is Ok ==> final(self).spec_tx().pending() == old(self).spec_tx().pending() + 1,
            old(self).spec_initialized() && frame_len <= MAX_FRAME_SIZE && old(self).spec_tx().pending()
                < old(self).spec_tx().size() - 1 ==> r == Ok::<TxSubmission, TxError>(
                next_submission(old(self).spec_tx(), frame_len),
            ) && final(self).spec_tx().head() == ring_next(old(self).spec_tx().head(), old(self).spec_tx().size()),
            r is Err ==> final(self).spec_tx().head() == old(self).spec_tx().head(),
            final(self).spec_tx().size() == old(self).spec_tx().size(),
            final(self).spec_tx().clean() == old(self).spec_tx().clean(),
            final(self).spec_tx().desc_base() == old(self).spec_tx().desc_base(),
            final(self).spec_tx().buffers() == old(self).spec_tx().buffers(),
            final(self).spec_mmio_base() == old(self).spec_mmio_base(),
            final(self).spec_mac() == old(self).spec_mac(),
            final(self).spec_phy() == old(self).spec_phy(),
    {
        if !self.initialized {
            return Err(TxError::DeviceNotReady);
        }
        match self.tx_ring.transmit(frame_len) {
            Ok(s) => Ok(s),
            Err(e) => Err(tx_error(e)),
        }
    }

    /// Receive from the RX ring; see `RxRing::receive`. A device that is not
    /// up is `DeviceError`.
    pub fn receive(&mut self, poll: RxPollResult, out_len: usize) -> (r: Result<RxStep, RxError>)
        requires
            old(self).wf(),
        ensures
            final(self).wf(),
            final(self).spec_tx() == old(self).spec_tx(),
            !old(self).spec_initialized() ==> r == Err::<RxStep, RxError>(RxError::DeviceError)
                && final(self).spec_rx() == old(self).spec_rx(),
            old(self).spec_initialized() ==> r == Ok::<RxStep, RxError>(
                rx_step_of(old(self).spec_rx(), poll, out_len),
            ) && final(self).spec_rx().clean() == (if poll.ready {
                ring_next(old(self).spec_rx().clean(), old(self).spec_rx().size())
            } else {
                old(self).spec_rx().clean()
            }) && final(self).spec_rx().tail_value() == (if poll.ready {
                old(self).spec_rx().clean()
            } else {
                old(self).spec_rx().tail_value()
            }),
            final(self).spec_rx().size() == old(self).spec_rx().size(),
            forall|i: int| final(self).spec_rx().desc_addr(i) == old(self).spec_rx().desc_addr(i),
            forall|i: int| final(self).spec_rx().buffer_addr(i) == old(self).spec_rx().buffer_addr(i),
            forall|i: int| final(self).spec_rx().buffer_bus_addr(i) == old(self).spec_rx().buffer_bus_addr(i),
            final(self).spec_initialized() == old(self).spec_initialized(),
            final(self).spec_mmio_base() == old(self).spec_mmio_base(),
            final(self).spec_mac() == old(self).spec_mac(),
            final(self).spec_phy() == old(self).spec_phy(),
    {
        if !self.initialized {
            return Err(RxError::DeviceError);
        }
        Ok(self.rx_ring.receive(poll, out_len))
    }

    /// Descriptor to poll for the next received packet.
    pub fn rx_next_desc(&self) -> (r: u64)
        requires
            self.wf(),
        ensures
            r == self.spec_rx().desc_addr(self.spec_rx().clean()),
    {
        self.rx_ring.next_desc()
    }

    /// The receive result as the driver interface reports it.
    pub fn receive_result(step: &RxStep) -> (r: Result<Option<usize>, RxError>)
        ensures
            r == (match step.result {
                Ok(v) => Ok::<Option<usize>, RxError>(v),
                Err(super::rx::RxError::BufferTooSmall { needed, .. }) => Err(RxError::BufferTooSmall { needed }),
                Err(super::rx::RxError::PacketError(_)) => Err(RxError::DeviceError),
            }),
    {
        match step.result {
            Ok(v) => Ok(v),
            Err(e) => Err(rx_error(e)),
        }
    }

    /// Descriptor whose completion to poll next, when the device is up and a
    /// frame is in flight.
    pub fn tx_pending_desc(&self) -> (r: Option<u64>)
        requires
            self.wf(),
        ensures
            !self.spec_initialized() || self.spec_tx().pending() == 0 ==> r is None,
            self.spec_initialized() && self.spec_tx().pending() > 0 ==> r == Some(
                (self.spec_tx().desc_base() + self.spec_tx().clean() * 16) as u64,
            ),
    {
        if self.initialized {
            self.tx_ring.pending_desc()
        } else {
            None
        }
    }

    /// Reclaim the oldest TX descriptor in flight, reported sent.
    pub fn tx_complete_one(&mut self)
        requires
            old(self).wf(),
            old(self).spec_tx().pending() > 0,
        ensures
            final(self).wf(),
            final(self).spec_tx().pending() == old(self).spec_tx().pending() - 1,
            final(self).spec_rx() == old(self).spec_rx(),
            final(self).spec_initialized() == old(self).spec_initialized(),
            final(self).spec_mmio_base() == old(self).spec_mmio_base(),
            final(self).spec_mac() == old(self).spec_mac(),
            final(self).spec_phy() == old(self).spec_phy(),
            final(self).spec_tx().head() == old(self).spec_tx().head(),
            final(self).spec_tx().clean() == ring_next(old(self).spec_tx().clean(), old(self).spec_tx().size()),
    {
        self.tx_ring.complete_one();
    }
}

impl DriverInit for E1000eDriver {
    open spec fn vendor_ids() -> Seq<u16> {
        seq![INTEL_VENDOR_ID]
    }

    open spec fn device_ids() -> Seq<u16> {
        e1000e_device_ids()
    }

    fn supported_vendors() -> (r: &'static [u16]) {
        let r: &'static [u16] = &[INTEL_VENDOR_ID];
        assert(r@ =~= seq![INTEL_VENDOR_ID]);
        r
    }

    fn supported_devices() -> (r: &'static [u16]) {
        e1000e_device_id_list()
    }
}

} // verus!
