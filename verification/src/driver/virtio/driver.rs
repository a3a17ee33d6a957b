//! VirtIO network driver state: the transport, negotiated features, MAC
//! address, both virtqueues and their buffer pools.
//!
//! Submitting buffers to a virtqueue and polling its used ring are the
//! platform's ring primitives; the driver decides which buffers go and
//! what a returned buffer holds.

use super::config::{VirtioConfig, VIRTIO_NET_DEVICE_IDS, VIRTIO_VENDOR_ID};
use super::init::{NetInit, NetInitPhase, VirtioInitError};
use super::pool::{
    copy_rx_payload, queue_state, rx_payload_len, tx_total_len, BufferPool, QueueRegion, VirtqueueState,
    VIRTIO_NET_HDR_SIZE,
};
use super::transport::VirtioTransport;
use crate::driver::traits::{DriverInit, RxError, TxError};
use crate::types::MacAddress;
use vstd::prelude::*;

verus! {

/// A buffer the device returned on the RX used ring: its index and the
/// number of bytes written (header included).
#[derive(Debug, Clone, Copy, PartialEq, Eq, Structural)]
pub struct RxUsed {
    pub buffer_idx: u16,
    pub length: u32,
}

/// Progress of an RX (re)fill: buffers submitted so far, and whether the
/// queue refused one.
#[derive(Debug, Clone, Copy, PartialEq, Eq, Structural)]
pub struct Refill {
    pub submitted: usize,
    pub stopped: bool,
}

impl Refill {
    pub fn new() -> (r: Self)
        ensures
            r.submitted == 0,
            !r.stopped,
    {
        Refill { submitted: 0, stopped: false }
    }

    /// The device is notified once at the end when anything was submitted.
    pub fn should_notify(&self) -> (r: bool)
        ensures
            r == (self.submitted > 0),
    {
        self.submitted > 0
    }
}

/// VirtIO network driver.
pub struct VirtioNetDriver {
    transport: VirtioTransport,
    mac: MacAddress,
    features: u64,
    rx_state: VirtqueueState,
    tx_state: VirtqueueState,
    rx_pool: BufferPool,
    tx_pool: BufferPool,
}

impl VirtioNetDriver {
    pub closed spec fn wf(&self) -> bool {
        &&& self.rx_pool.wf()
        &&& self.tx_pool.wf()
        &&& self.rx_pool.spec_count() == self.tx_pool.spec_count()
    }

    /// Free RX buffers (not handed to the device).
    pub closed spec fn rx_free(&self) -> Set<u16> {
        self.rx_pool@
    }

    /// Free TX buffers (not in flight).
    pub closed spec fn tx_free(&self) -> Set<u16> {
        self.tx_pool@
    }

    pub closed spec fn spec_features(&self) -> u64 {
        self.features
    }

    pub closed spec fn spec_mac(&self) -> MacAddress {
        self.mac
    }

    pub closed spec fn spec_transport(&self) -> VirtioTransport {
        self.transport
    }

    pub closed spec fn spec_rx_state(&self) -> VirtqueueState {
        self.rx_state
    }

    pub closed spec fn spec_tx_state(&self) -> VirtqueueState {
        self.tx_state
    }

    pub closed spec fn buffers_per_pool(&self) -> u16 {
        self.rx_pool.spec_count()
    }

    /// The driver after a finished initialization: the queues it set up,
    /// and pools of `config.queue_size` buffers each, all free. A failed
    /// initialization reports its error; an unfinished one is a device
    /// error.
    pub fn from_init(
        transport: VirtioTransport,
        config: &VirtioConfig,
        init: &NetInit,
        rx_region: &QueueRegion,
        tx_region: &QueueRegion,
    ) -> (r: Result<Self, VirtioInitError>)
        requires
            config.dma_bus_base + rx_region.desc <= u64::MAX,
            config.dma_bus_base + rx_region.avail <= u64::MAX,
            config.dma_bus_base + rx_region.used <= u64::MAX,
            config.dma_bus_base + rx_region.buffers <= u64::MAX,
            config.dma_cpu_base + rx_region.desc <= u64::MAX,
            config.dma_cpu_base + rx_region.buffers <= u64::MAX,
            config.dma_bus_base + tx_region.desc <= u64::MAX,
            config.dma_bus_base + tx_region.avail <= u64::MAX,
            config.dma_bus_base + tx_region.used <= u64::MAX,
            config.dma_bus_base + tx_region.buffers <= u64::MAX,
            config.dma_cpu_base + tx_region.desc <= u64::MAX,
            config.dma_cpu_base + tx_region.buffers <= u64::MAX,
        ensures
            match init.phase {
                NetInitPhase::Done => r matches Ok(d) && d.wf() && d.spec_features() == init.features
                    && d.spec_mac() == init.mac && d.spec_transport() == transport
                    && d.spec_rx_state().queue_size == init.rx.0 && d.spec_rx_state().notify_addr == init.rx.1
                    && d.spec_rx_state().queue_index == 0
                    && d.spec_tx_state().queue_size == init.tx.0 && d.spec_tx_state().notify_addr == init.tx.1
                    && d.spec_tx_state().queue_index == 1
                    && d.rx_free() == Set::new(|i: u16| i < config.queue_size)
                    && d.tx_free() == Set::new(|i: u16| i < config.queue_size),
                NetInitPhase::Failed(e) => r == Err::<Self, VirtioInitError>(e),
                _ => r == Err::<Self, VirtioInitError>(VirtioInitError::DeviceError),
            },
    {
        match init.phase {
            NetInitPhase::Done => {},
            NetInitPhase::Failed(e) => return Err(e),
            _ => return Err(VirtioInitError::DeviceError),
        }
        let rx_state = queue_state(config, rx_region, 0, init.rx.0, init.rx.1);
        let tx_state = queue_state(config, tx_region, 1, init.tx.0, init.tx.1);
        let rx_pool = BufferPool::new(
            config.dma_cpu_base + rx_region.buffers,
            config.dma_bus_base + rx_region.buffers,
            config.buffer_size,
            config.queue_size,
        );
        let tx_pool = BufferPool::new(
            config.dma_cpu_base + tx_region.buffers,
            config.dma_bus_base + tx_region.buffers,
            config.buffer_size,
            config.queue_size,
        );
        Ok(VirtioNetDriver {
            transport,
            mac: init.mac,
            features: init.features,
            rx_state,
            tx_state,
            rx_pool,
            tx_pool,
        })
    }

    /// Negotiated features.
    pub fn features(&self) -> (r: u64)
        ensures
            r == self.spec_features(),
    {
        self.features
    }

    /// Base address (MMIO base or common_cfg for PCI Modern).
    pub fn mmio_base(&self) -> (r: u64)
        ensures
            r == self.spec_transport().base,
    {
        self.transport.base
    }

    /// Transport handle.
    pub fn transport(&self) -> (r: &VirtioTransport)
        ensures
            *r == self.spec_transport(),
    {
        &self.transport
    }

    /// RX queue state.
    pub fn rx_state(&self) -> (r: &VirtqueueState)
        ensures
            *r == self.spec_rx_state(),
    {
        &self.rx_state
    }

    /// TX queue state.
    pub fn tx_state(&self) -> (r: &VirtqueueState)
        ensures
            *r == self.spec_tx_state(),
    {
        &self.tx_state
    }

    /// Number of free RX buffers.
    pub fn rx_buffers_available(&self) -> (r: usize)
        requires
            self.wf(),
        ensures
            r == self.rx_free().len(),
    {
        self.rx_pool.available()
    }

    /// Number of free TX buffers.
    pub fn tx_buffers_available(&self) -> (r: usize)
        requires
            self.wf(),
        ensures
            r == self.tx_free().len(),
    {
        self.tx_pool.available()
    }

    /// MAC address.
    pub fn mac_address(&self) -> (r: MacAddress)
        ensures
            r == self.spec_mac(),
    {
        self.mac
    }

    /// A frame can be sent while a TX buffer is free.
    pub fn can_transmit(&self) -> (r: bool)
        requires
            self.wf(),
        ensures
            r == (self.tx_free().len() > 0),
    {
        self.tx_pool.available() > 0
    }

    /// Receiving is always worth a try: the poll returns at once.
    pub fn can_receive(&self) -> (r: bool)
        ensures
            r,
    {
        true
    }

    /// The link is taken as up.
    pub fn link_up(&self) -> (r: bool)
        ensures
            r,
    {
        true
    }

    /// The next RX buffer to submit in a (re)fill, unless the queue refused
    /// one already; the buffer leaves the pool.
    pub fn rx_refill_next(&mut self, progress: &Refill) -> (r: Option<u16>)
        requires
            old(self).wf(),
        ensures
            final(self).wf(),
            final(self).buffers_per_pool() == old(self).buffers_per_pool(),
            final(self).tx_free() == old(self).tx_free(),
            r matches Some(i) ==> i < old(self).buffers_per_pool(),
            progress.stopped ==> r is None && final(self).rx_free() == old(self).rx_free(),
            !progress.stopped ==> match r {
                Some(i) => old(self).rx_free().contains(i) && final(self).rx_free() == old(self).rx_free().remove(i),
                None => old(self).rx_free().len() == 0 && final(self).rx_free() == old(self).rx_free(),
            },
    {
        if progress.stopped {
            return None;
        }
        self.rx_pool.allocate()
    }

    /// Outcome of submitting RX buffer `idx`: counted when the queue took
    /// it, else the buffer goes back to the pool and the fill stops.
    pub fn rx_refill_result(&mut self, progress: &mut Refill, idx: u16, accepted: bool)
        requires
            old(self).wf(),
            idx < old(self).buffers_per_pool(),
            old(progress).submitted < usize::MAX,
        ensures
            final(self).wf(),
            final(self).tx_free() == old(self).tx_free(),
            final(self).buffers_per_pool() == old(self).buffers_per_pool(),
            accepted ==> final(progress).submitted == old(progress).submitted + 1 && final(progress).stopped
                == old(progress).stopped && final(self).rx_free() == old(self).rx_free(),
            !accepted ==> final(progress).submitted == old(progress).submitted && final(progress).stopped
                && final(self).rx_free() == old(self).rx_free().insert(idx),
    {
        if accepted {
            progress.submitted = progress.submitted + 1;
        } else {
            self.rx_pool.free(idx);
            progress.stopped = true;
        }
    }

    /// Take a frame the device returned: none waiting is `Ok(None)`; a
    /// buffer index out of range or a buffer shorter than the header is a
    /// device error; a frame that does not fit `out` is reported with its
    /// size; else the frame is copied to the start of `out`. `buf` holds
    /// the returned buffer.
    pub fn receive(&self, used: Option<RxUsed>, buf: &[u8], out: &mut [u8]) -> (r: Result<Option<usize>, RxError>)
        requires
            used matches Some(u) ==> u.length <= buf@.len(),
        ensures
            final(out)@.len() == old(out)@.len(),
            used is None ==> r == Ok::<Option<usize>, RxError>(None) && final(out)@ == old(out)@,
            used matches Some(u) ==> {
                if u.buffer_idx >= self.buffers_per_pool() || u.length < VIRTIO_NET_HDR_SIZE {
                    r == Err::<Option<usize>, RxError>(RxError::DeviceError)
                } else if u.length - VIRTIO_NET_HDR_SIZE > old(out)@.len() {
                    r == Err::<Option<usize>, RxError>(
                        RxError::BufferTooSmall { needed: (u.length - VIRTIO_NET_HDR_SIZE) as usize },
                    )
                } else {
                    let n = u.length - VIRTIO_NET_HDR_SIZE;
                    &&& r == Ok::<Option<usize>, RxError>(Some(n as usize))
                    &&& final(out)@.subrange(0, n) == buf@.subrange(VIRTIO_NET_HDR_SIZE as int, u.length as int)
                }
            },
    {
        let u = match used {
            None => return Ok(None),
            Some(u) => u,
        };
        if u.buffer_idx >= self.rx_pool.count_of() {
            return Err(RxError::DeviceError);
        }
        let n = match rx_payload_len(u.length, out.len()) {
            Ok(n) => n,
            Err(e) => return Err(e),
        };
        copy_rx_payload(buf, out, n);
        Ok(Some(n))
    }

    /// Start sending a frame of `frame_len` bytes: its buffer length with
    /// the header, and a free TX buffer for it, which leaves the pool.
    pub fn tx_begin(&mut self, frame_len: usize) -> (r: Result<(u16, usize), TxError>)
        requires
            old(self).wf(),
        ensures
            final(self).wf(),
            final(self).buffers_per_pool() == old(self).buffers_per_pool(),
            final(self).rx_free() == old(self).rx_free(),
            r matches Ok((i, _)) ==> i < old(self).buffers_per_pool(),
            VIRTIO_NET_HDR_SIZE + frame_len > super::pool::MAX_TX_FRAME_SIZE ==> r == Err::<(u16, usize), TxError>(
                TxError::FrameTooLarge,
            ) && final(self).tx_free() == old(self).tx_free(),
            VIRTIO_NET_HDR_SIZE + frame_len <= super::pool::MAX_TX_FRAME_SIZE && old(self).tx_free().len() == 0
                ==> r == Err::<(u16, usize), TxError>(TxError::QueueFull) && final(self).tx_free() == old(self).tx_free(),
            r matches Ok((i, total)) ==> total == VIRTIO_NET_HDR_SIZE + frame_len && old(self).tx_free().contains(i)
                && final(self).tx_free() == old(self).tx_free().remove(i),
            VIRTIO_NET_HDR_SIZE + frame_len <= super::pool::MAX_TX_FRAME_SIZE && old(self).tx_free().len() > 0
                ==> r is Ok,
    {
        let total = match tx_total_len(frame_len) {
            Ok(t) => t,
            Err(e) => return Err(e),
        };
        match self.tx_pool.allocate() {
            Some(i) => Ok((i, total)),
            None => Err(TxError::QueueFull),
        }
    }

    /// The TX queue refused buffer `idx`: it goes back to the pool.
    pub fn tx_rejected(&mut self, idx: u16) -> (r: TxError)
        requires
            old(self).wf(),
            idx < old(self).buffers_per_pool(),
        ensures
            r == TxError::QueueFull,
            final(self).wf(),
            final(self).buffers_per_pool() == old(self).buffers_per_pool(),
            final(self).rx_free() == old(self).rx_free(),
            final(self).tx_free() == old(self).tx_free().insert(idx),
    {
        self.tx_pool.free(idx);
        TxError::QueueFull
    }

    /// The device finished with TX buffer `idx`: it goes back to the pool
    /// (an index out of range is ignored).
    pub fn tx_completed(&mut self, idx: u16)
        requires
            old(self).wf(),
        ensures
            final(self).wf(),
            final(self).buffers_per_pool() == old(self).buffers_per_pool(),
            final(self).rx_free() == old(self).rx_free(),
            final(self).tx_free() == if idx < old(self).buffers_per_pool() {
                old(self).tx_free().insert(idx)
            } else {
                old(self).tx_free()
            },
    {
        self.tx_pool.free(idx);
    }

    /// Return the TX buffers the device reports finished, in order.
    pub fn collect_completions(&mut self, done: &[u16])
        requires
            old(self).wf(),
        ensures
            final(self).wf(),
            final(self).buffers_per_pool() == old(self).buffers_per_pool(),
            final(self).rx_free() == old(self).rx_free(),
            final(self).tx_free() == old(self).tx_free() + Set::new(
                |i: u16| done@.contains(i) && i < old(self).buffers_per_pool(),
            ),
    {
        let mut k: usize = 0;
        while k < done.len()
            invariant
                self.wf(),
                k <= done@.len(),
                self.buffers_per_pool() == old(self).buffers_per_pool(),
                self.rx_free() == old(self).rx_free(),
                self.tx_free() == old(self).tx_free() + Set::new(
                    |i: u16| done@.take(k as int).contains(i) && i < old(self).buffers_per_pool(),
                ),
            decreases done@.len() - k,
        {
            let ghost before = self.tx_free();
            self.tx_completed(done[k]);
            proof {
                let d = done@[k as int];
                let a = done@.take(k as int);
                let b = done@.take(k as int + 1);
                assert forall|i: u16| b.contains(i) <==> (a.contains(i) || i == d) by {
                    if b.contains(i) {
                        let j = choose|j: int| 0 <= j < b.len() && b[j] == i;
                        if j < k {
                            assert(a[j] == i);
                        }
                    }
                    if a.contains(i) {
                        let j = choose|j: int| 0 <= j < a.len() && a[j] == i;
                        assert(b[j] == i);
                    }
                    if i == d {
                        assert(b[k as int] == d);
                    }
                }
                assert(self.tx_free() =~= old(self).tx_free() + Set::new(
                    |i: u16| done@.take(k as int + 1).contains(i) && i < old(self).buffers_per_pool(),
                ));
            }
            k += 1;
        }
        assert(done@.take(done@.len() as int) =~= done@);
    }
}

impl DriverInit for VirtioNetDriver {
    open spec fn vendor_ids() -> Seq<u16> {
        seq![VIRTIO_VENDOR_ID]
    }

    open spec fn device_ids() -> Seq<u16> {
        seq![0x1000u16, 0x1041u16]
    }

    fn supported_vendors() -> (r: &'static [u16]) {
        let r: &'static [u16] = &[VIRTIO_VENDOR_ID];
        assert(r@ =~= seq![VIRTIO_VENDOR_ID]);
        r
    }

    fn supported_devices() -> (r: &'static [u16]) {
        let r: &'static [u16] = &[0x1000, 0x1041];
        assert(r@ =~= seq![0x1000u16, 0x1041u16]);
        r
    }
}

} // verus!
