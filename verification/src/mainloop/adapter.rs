//! Adapter between a `NetworkDriver` and the network stack's device
//! interface: it holds at most one received frame until the stack takes it,
//! and passes frames to transmit through to the driver.

use crate::driver::traits::{NetworkDriver, Upkeep};
use crate::types::MacAddress;
use vstd::prelude::*;
use vstd::slice::slice_subrange;

verus! {

/// Largest frame the adapter buffers.
pub const MAX_FRAME: usize = 2048;

/// Adapter bridging a `NetworkDriver` to the network stack.
pub struct SmoltcpAdapter<D: NetworkDriver> {
    driver: D,
    rx_buffer: [u8; 2048],
    rx_len: usize,
    tx_count: u32,
    rx_count: u32,
}

/// A received frame handed to the network stack.
pub struct RxToken {
    buffer: [u8; 2048],
    len: usize,
}

impl RxToken {
    /// The frame's bytes.
    pub closed spec fn frame(&self) -> Seq<u8> {
        self.buffer@.take(if self.len <= MAX_FRAME { self.len as int } else { MAX_FRAME as int })
    }

    /// The frame, as the stack consumes it.
    pub fn data(&self) -> (r: &[u8])
        ensures
            r@ == self.frame(),
    {
        let r = slice_subrange(self.buffer.as_slice(), 0, self.len());
        assert(r@ =~= self.frame());
        r
    }

    /// Length of the frame.
    pub fn len(&self) -> (r: usize)
        ensures
            r == self.frame().len(),
            r <= MAX_FRAME,
    {
        if self.len <= MAX_FRAME {
            self.len
        } else {
            MAX_FRAME
        }
    }
}

impl<D: NetworkDriver> SmoltcpAdapter<D> {
    /// Length of the frame waiting for the stack (0 if none).
    pub closed spec fn rx_pending(&self) -> int {
        self.rx_len as int
    }

    /// The frame waiting for the stack.
    pub closed spec fn rx_frame(&self) -> Seq<u8> {
        self.rx_buffer@.take(self.rx_len as int)
    }

    pub closed spec fn spec_rx_count(&self) -> u32 {
        self.rx_count
    }

    pub closed spec fn spec_tx_count(&self) -> u32 {
        self.tx_count
    }

    /// The wrapped driver.
    pub closed spec fn spec_driver(&self) -> D {
        self.driver
    }

    /// The driver's queue upkeep so far.
    pub closed spec fn spec_upkeep(&self) -> Seq<Upkeep> {
        self.driver.upkeep()
    }

    /// The frames the driver queued for transmission so far.
    pub closed spec fn spec_queued(&self) -> Seq<Seq<u8>> {
        self.driver.queued()
    }

    /// The frames the driver handed out so far.
    pub closed spec fn spec_delivered(&self) -> Seq<Seq<u8>> {
        self.driver.delivered()
    }

    /// The driver has room for a frame to transmit.
    pub closed spec fn spec_tx_ready(&self) -> bool {
        self.driver.tx_ready()
    }

    /// The held frame fits the buffer.
    pub closed spec fn wf(&self) -> bool {
        self.rx_len <= MAX_FRAME
    }

    /// Create a new adapter wrapping a network driver.
    pub fn new(driver: D) -> (r: Self)
        ensures
            r.wf(),
            r.rx_pending() == 0,
            r.spec_rx_count() == 0,
            r.spec_tx_count() == 0,
            r.spec_driver() == driver,
    {
        SmoltcpAdapter { driver, rx_buffer: [0u8; 2048], rx_len: 0, tx_count: 0, rx_count: 0 }
    }

    /// The wrapped driver.
    pub fn driver(&self) -> (r: &D)
        ensures
            *r == self.spec_driver(),
    {
        &self.driver
    }

    /// Poll the driver for a received frame, unless one is already held. A
    /// received frame is held and counted.
    pub fn poll_receive(&mut self)
        requires
            old(self).wf(),
        ensures
            final(self).wf(),
            final(self).spec_tx_count() == old(self).spec_tx_count(),
            old(self).rx_pending() > 0 ==> final(self).rx_pending() == old(self).rx_pending() && final(self).rx_frame() == old(self).rx_frame() && final(self).spec_rx_count() == old(self).spec_rx_count(),
            old(self).rx_pending() > 0 ==> *final(self) == *old(self),
            final(self).spec_queued() == old(self).spec_queued(),
            final(self).spec_upkeep() == old(self).spec_upkeep(),
            old(self).rx_pending() == 0 ==> {
                ||| final(self).spec_rx_count() == vstd::wrapping::u32_specs::wrapping_add(old(self).spec_rx_count(), 1)
                    && final(self).spec_delivered() == old(self).spec_delivered().push(final(self).rx_frame())
                ||| final(self).rx_pending() == 0 && final(self).spec_rx_count() == old(self).spec_rx_count()
                    && final(self).spec_delivered() == old(self).spec_delivered()
            },
    {
        if self.rx_len == 0 {
            let mut buf = self.rx_buffer;
            let got = self.driver.receive(&mut buf);
            self.rx_buffer = buf;
            if let Ok(Some(len)) = got {
                self.rx_len = len;
                self.rx_count = self.rx_count.wrapping_add(1);
            }
        }
    }

    /// Hand the held frame (receiving one first if none is held) to the
    /// stack, as the stack's receive does.
    pub fn take_rx(&mut self) -> (r: Option<RxToken>)
        requires
            old(self).wf(),
        ensures
            final(self).wf(),
            final(self).rx_pending() == 0,
            final(self).spec_tx_count() == old(self).spec_tx_count(),
            final(self).spec_queued() == old(self).spec_queued(),
            final(self).spec_upkeep() == old(self).spec_upkeep(),
            old(self).rx_pending() > 0 ==> (r matches Some(t) && t.frame() == old(self).rx_frame())
                && final(self).spec_rx_count() == old(self).spec_rx_count() && final(self).spec_delivered()
                == old(self).spec_delivered(),
            old(self).rx_pending() == 0 ==> {
                ||| final(self).spec_rx_count() == vstd::wrapping::u32_specs::wrapping_add(old(self).spec_rx_count(), 1)
                    && exists|f: Seq<u8>|
                    #![trigger old(self).spec_delivered().push(f)]
                    final(self).spec_delivered() == old(self).spec_delivered().push(f) && (if f.len() > 0 {
                        r matches Some(t) && t.frame() == f
                    } else {
                        r is None
                    })
                ||| final(self).spec_rx_count() == old(self).spec_rx_count() && final(self).spec_delivered()
                    == old(self).spec_delivered() && r is None
            },
    {
        self.poll_receive();
        if self.rx_len > 0 {
            let token = RxToken { buffer: self.rx_buffer, len: self.rx_len };
            self.rx_len = 0;
            Some(token)
        } else {
            None
        }
    }

    /// Transmit a frame the stack built, cut to `MAX_FRAME` bytes
    /// (fire-and-forget).
    pub fn transmit_frame(&mut self, frame: &[u8]) -> (r: bool)
        requires
            old(self).wf(),
        ensures
            final(self).wf(),
            final(self).rx_pending() == old(self).rx_pending(),
            final(self).rx_frame() == old(self).rx_frame(),
            final(self).spec_rx_count() == old(self).spec_rx_count(),
            final(self).spec_delivered() == old(self).spec_delivered(),
            final(self).spec_upkeep() == old(self).spec_upkeep(),
            r ==> final(self).spec_tx_count() == vstd::wrapping::u32_specs::wrapping_add(old(self).spec_tx_count(), 1),
            !r ==> final(self).spec_tx_count() == old(self).spec_tx_count(),
            r ==> final(self).spec_queued() == old(self).spec_queued().push(
                frame@.take(if frame@.len() < MAX_FRAME { frame@.len() as int } else { MAX_FRAME as int }),
            ),
            !r ==> final(self).spec_queued() == old(self).spec_queued(),
    {
        let n = if frame.len() < MAX_FRAME {
            frame.len()
        } else {
            MAX_FRAME
        };
        let part = slice_subrange(frame, 0, n);
        assert(part@ =~= frame@.take(n as int));
        let sent = self.driver.transmit(part).is_ok();
        if sent {
            self.tx_count = self.tx_count.wrapping_add(1);
        }
        sent
    }

    /// The driver can take a frame to transmit.
    pub fn can_transmit(&self) -> (r: bool)
        ensures
            r == self.spec_tx_ready(),
    {
        self.driver.can_transmit()
    }

    /// Refill RX descriptor queue.
    pub fn refill_rx(&mut self)
        requires
            old(self).wf(),
        ensures
            final(self).wf(),
            final(self).rx_pending() == old(self).rx_pending(),
            final(self).rx_frame() == old(self).rx_frame(),
            final(self).spec_rx_count() == old(self).spec_rx_count(),
            final(self).spec_tx_count() == old(self).spec_tx_count(),
            final(self).spec_upkeep() == old(self).spec_upkeep().push(Upkeep::RxRefill),
            final(self).spec_queued() == old(self).spec_queued(),
            final(self).spec_delivered() == old(self).spec_delivered(),
    {
        self.driver.refill_rx_queue();
    }

    /// Collect TX completions.
    pub fn collect_tx(&mut self)
        requires
            old(self).wf(),
        ensures
            final(self).wf(),
            final(self).rx_pending() == old(self).rx_pending(),
            final(self).rx_frame() == old(self).rx_frame(),
            final(self).spec_rx_count() == old(self).spec_rx_count(),
            final(self).spec_tx_count() == old(self).spec_tx_count(),
            final(self).spec_upkeep() == old(self).spec_upkeep().push(Upkeep::TxCollect),
            final(self).spec_queued() == old(self).spec_queued(),
            final(self).spec_delivered() == old(self).spec_delivered(),
    {
        self.driver.collect_tx_completions();
    }

    /// Get MAC address.
    pub fn mac_address(&self) -> (r: MacAddress)
        ensures
            r == self.spec_driver().mac(),
    {
        self.driver.mac_address()
    }

    /// Get TX packet count.
    pub fn tx_count(&self) -> (r: u32)
        ensures
            r == self.spec_tx_count(),
    {
        self.tx_count
    }

    /// Get RX packet count.
    pub fn rx_count(&self) -> (r: u32)
        ensures
            r == self.spec_rx_count(),
    {
        self.rx_count
    }

    /// Check if PHY link is up.
    pub fn driver_link_up(&self) -> bool {
        self.driver.link_up()
    }
}

} // verus!

verus! {

/// A token to transmit one frame through the adapter's driver.
pub struct TxToken<'a, D: NetworkDriver> {
    /// The adapter the frame goes through.
    pub adapter: &'a mut SmoltcpAdapter<D>,
}

impl<'a, D: NetworkDriver> TxToken<'a, D> {
    /// Length of the buffer a frame of `len` bytes is built in: at most
    /// `MAX_FRAME`.
    pub fn frame_len(len: usize) -> (r: usize)
        ensures
            r == if len < MAX_FRAME { len } else { MAX_FRAME },
    {
        if len < MAX_FRAME {
            len
        } else {
            MAX_FRAME
        }
    }

    /// Send the built frame (fire-and-forget); a frame the driver queued is
    /// counted.
    pub fn send(self, frame: &[u8]) -> (r: bool)
        ensures
            r ==> final(self.adapter).spec_queued() == old(self.adapter).spec_queued().push(frame@),
            !r ==> final(self.adapter).spec_queued() == old(self.adapter).spec_queued(),
            r ==> final(self.adapter).spec_tx_count() == vstd::wrapping::u32_specs::wrapping_add(
                old(self.adapter).spec_tx_count(),
                1,
            ),
            !r ==> final(self.adapter).spec_tx_count() == old(self.adapter).spec_tx_count(),
            final(self.adapter).spec_delivered() == old(self.adapter).spec_delivered(),
            final(self.adapter).spec_upkeep() == old(self.adapter).spec_upkeep(),
            final(self.adapter).spec_rx_count() == old(self.adapter).spec_rx_count(),
            final(self.adapter).rx_pending() == old(self.adapter).rx_pending(),
            final(self.adapter).rx_frame() == old(self.adapter).rx_frame(),
            final(self.adapter).wf() == old(self.adapter).wf(),
    {
        let sent = self.adapter.driver.transmit(frame).is_ok();
        if sent {
            self.adapter.tx_count = self.adapter.tx_count.wrapping_add(1);
        }
        sent
    }
}

impl<D: NetworkDriver> SmoltcpAdapter<D> {
    /// A transmit token to answer a received frame with, whether or not the
    /// driver reports room (the frame is then dropped by the driver).
    pub fn reply_token(&mut self) -> TxToken<'_, D> {
        TxToken { adapter: self }
    }

    /// A transmit token when the driver can take a frame.
    pub fn tx_token(&mut self) -> (r: Option<TxToken<'_, D>>)
        ensures
            r is Some <==> old(self).spec_tx_ready(),
    {
        if self.driver.can_transmit() {
            Some(TxToken { adapter: self })
        } else {
            None
        }
    }
}

} // verus!
