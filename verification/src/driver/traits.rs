//! Driver trait definitions.

use crate::types::MacAddress;
use vstd::prelude::*;

verus! {

/// TX error types.
#[derive(Debug, Clone, Copy, PartialEq, Eq, Structural)]
pub enum TxError {
    /// TX queue is full, try again after completions collected.
    QueueFull,
    /// Device not ready.
    DeviceNotReady,
    /// Frame too large.
    FrameTooLarge,
}

/// RX error types.
#[derive(Debug, Clone, Copy, PartialEq, Eq, Structural)]
pub enum RxError {
    /// Provided buffer too small for frame.
    BufferTooSmall {
        /// Required buffer size.
        needed: usize,
    },
    /// Device error.
    DeviceError,
}

/// Queue upkeep a driver did.
#[derive(Debug, Clone, Copy, PartialEq, Eq, Structural)]
pub enum Upkeep {
    /// The RX queue was refilled.
    RxRefill,
    /// TX completions were collected.
    TxCollect,
}

/// Core network device interface.
///
/// All NIC drivers implement this trait. Higher layers (the smoltcp adapter,
/// the state machines) use this interface. Every method returns immediately.
pub trait NetworkDriver {
    /// The driver has room for a frame to transmit (what `can_transmit`
    /// reports, a function of the driver's own state). Each driver defines
    /// it; a driver that does not leaves it unspecified.
    closed spec fn tx_ready(&self) -> bool {
        vstd::pervasive::arbitrary()
    }

    /// The frames the driver queued for transmission so far, in order (a
    /// history the driver defines; unspecified where it does not).
    closed spec fn queued(&self) -> Seq<Seq<u8>> {
        vstd::pervasive::arbitrary()
    }

    /// The frames the driver handed out by `receive` so far, in order (a
    /// history the driver defines; unspecified where it does not).
    closed spec fn delivered(&self) -> Seq<Seq<u8>> {
        vstd::pervasive::arbitrary()
    }

    /// The queue upkeep done so far (RX refills and TX completion
    /// collections), in order (a history the driver defines; unspecified
    /// where it does not).
    closed spec fn upkeep(&self) -> Seq<Upkeep> {
        vstd::pervasive::arbitrary()
    }

    /// The driver's MAC address (defined by each driver).
    closed spec fn mac(&self) -> MacAddress {
        vstd::pervasive::arbitrary()
    }

    /// Get MAC address.
    fn mac_address(&self) -> (r: MacAddress)
        ensures
            r == self.mac(),
    ;

    /// Check if device can accept a TX frame.
    fn can_transmit(&self) -> (r: bool)
        ensures
            r == self.tx_ready(),
    ;

    /// Check if device has a received frame ready.
    fn can_receive(&self) -> bool;

    /// Transmit an Ethernet frame (fire-and-forget): `Ok` when the frame was
    /// queued, an error when it was not.
    fn transmit(&mut self, frame: &[u8]) -> (r: Result<(), TxError>)
        ensures
            r is Ok ==> final(self).queued() == old(self).queued().push(frame@),
            r is Err ==> final(self).queued() == old(self).queued(),
            final(self).delivered() == old(self).delivered(),
            final(self).upkeep() == old(self).upkeep(),
    ;

    /// Receive an Ethernet frame into `buffer`: `Ok(Some(len))` when a frame
    /// of `len` bytes was copied to its start, `Ok(None)` when none is
    /// waiting.
    fn receive(&mut self, buffer: &mut [u8]) -> (r: Result<Option<usize>, RxError>)
        ensures
            final(buffer)@.len() == old(buffer)@.len(),
            r matches Ok(Some(n)) ==> n <= old(buffer)@.len() && final(self).delivered() == old(
                self,
            ).delivered().push(final(buffer)@.take(n as int)),
            !(r matches Ok(Some(_))) ==> final(self).delivered() == old(self).delivered(),
            final(self).queued() == old(self).queued(),
            final(self).upkeep() == old(self).upkeep(),
    ;

    /// Refill RX queue with available buffers.
    fn refill_rx_queue(&mut self)
        ensures
            final(self).upkeep() == old(self).upkeep().push(Upkeep::RxRefill),
            final(self).queued() == old(self).queued(),
            final(self).delivered() == old(self).delivered(),
    ;

    /// Collect TX completions.
    fn collect_tx_completions(&mut self)
        ensures
            final(self).upkeep() == old(self).upkeep().push(Upkeep::TxCollect),
            final(self).queued() == old(self).queued(),
            final(self).delivered() == old(self).delivered(),
    ;

    /// Get link status.
    fn link_up(&self) -> bool {
        true
    }
}

/// Whether `v` occurs in `ids`.
pub fn id_listed(ids: &[u16], v: u16) -> (r: bool)
    ensures
        r == ids@.contains(v),
{
    let mut i: usize = 0;
    while i < ids.len()
        invariant
            i <= ids.len(),
            forall|j: int| 0 <= j < i ==> ids@[j] != v,
        decreases ids.len() - i,
    {
        if ids[i] == v {
            assert(ids@[i as int] == v);
            return true;
        }
        i += 1;
    }
    false
}

/// Driver identification by PCI vendor and device IDs.
pub trait DriverInit: Sized {
    /// PCI vendor IDs this driver supports, as a sequence.
    spec fn vendor_ids() -> Seq<u16>;

    /// PCI device IDs this driver supports, as a sequence.
    spec fn device_ids() -> Seq<u16>;

    /// PCI vendor IDs this driver supports.
    fn supported_vendors() -> (r: &'static [u16])
        ensures
            r@ == Self::vendor_ids(),
    ;

    /// PCI device IDs this driver supports.
    fn supported_devices() -> (r: &'static [u16])
        ensures
            r@ == Self::device_ids(),
    ;

    /// Check if driver supports a PCI device.
    fn supports_device(vendor: u16, device: u16) -> (r: bool)
        ensures
            r == (Self::vendor_ids().contains(vendor) && Self::device_ids().contains(device)),
    {
        id_listed(Self::supported_vendors(), vendor) && id_listed(Self::supported_devices(), device)
    }
}

} // verus!
