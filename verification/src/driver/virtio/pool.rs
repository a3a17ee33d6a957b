//! DMA buffer pools and virtqueue state of the VirtIO network driver, and
//! the frame handling of receive and transmit.

use super::config::VirtioConfig;
use crate::driver::traits::{RxError, TxError};
use vstd::prelude::*;

verus! {

/// Size of the VirtIO network header that precedes every frame.
pub const VIRTIO_NET_HDR_SIZE: usize = 12;

/// Maximum frame size including the VirtIO header.
pub const MAX_TX_FRAME_SIZE: usize = 1526;

/// Virtqueue addresses and indices, shared with the ring primitives.
#[derive(Debug, Clone, Copy, PartialEq, Eq, Structural)]
pub struct VirtqueueState {
    pub desc_base: u64,
    pub avail_base: u64,
    pub used_base: u64,
    pub queue_size: u16,
    pub queue_index: u16,
    pub notify_addr: u64,
    pub last_used_idx: u16,
    pub next_avail_idx: u16,
    pub desc_cpu_ptr: u64,
    pub buffer_cpu_base: u64,
    pub buffer_bus_base: u64,
    pub buffer_size: u32,
    pub buffer_count: u32,
}

/// Where a queue's descriptor table, rings and buffers sit in the DMA
/// region, as offsets from its start.
#[derive(Debug, Clone, Copy, PartialEq, Eq, Structural)]
pub struct QueueRegion {
    pub desc: u64,
    pub avail: u64,
    pub used: u64,
    pub buffers: u64,
}

/// The state of a freshly set-up queue of `size` descriptors: bus
/// addresses of its parts in the DMA region, CPU addresses of its
/// descriptors and buffers, both ring indices at 0, one buffer per
/// descriptor.
pub fn queue_state(config: &VirtioConfig, region: &QueueRegion, queue_index: u16, size: u16, notify_addr: u64) -> (r: VirtqueueState)
    requires
        config.dma_bus_base + region.desc <= u64::MAX,
        config.dma_bus_base + region.avail <= u64::MAX,
        config.dma_bus_base + region.used <= u64::MAX,
        config.dma_bus_base + region.buffers <= u64::MAX,
        config.dma_cpu_base + region.desc <= u64::MAX,
        config.dma_cpu_base + region.buffers <= u64::MAX,
    ensures
        r == (VirtqueueState {
            desc_base: (config.dma_bus_base + region.desc) as u64,
            avail_base: (config.dma_bus_base + region.avail) as u64,
            used_base: (config.dma_bus_base + region.used) as u64,
            queue_size: size,
            queue_index,
            notify_addr,
            last_used_idx: 0,
            next_avail_idx: 0,
            desc_cpu_ptr: (config.dma_cpu_base + region.desc) as u64,
            buffer_cpu_base: (config.dma_cpu_base + region.buffers) as u64,
            buffer_bus_base: (config.dma_bus_base + region.buffers) as u64,
            buffer_size: config.buffer_size as u32,
            buffer_count: size as u32,
        }),
{
    VirtqueueState {
        desc_base: config.dma_bus_base + region.desc,
        avail_base: config.dma_bus_base + region.avail,
        used_base: config.dma_bus_base + region.used,
        queue_size: size,
        queue_index,
        notify_addr,
        last_used_idx: 0,
        next_avail_idx: 0,
        desc_cpu_ptr: config.dma_cpu_base + region.desc,
        buffer_cpu_base: config.dma_cpu_base + region.buffers,
        buffer_bus_base: config.dma_bus_base + region.buffers,
        buffer_size: config.buffer_size as u32,
        buffer_count: size as u32,
    }
}

/// A pool of `count` equal DMA buffers and the indices of those the driver
/// holds (not handed to the device).
pub struct BufferPool {
    count: u16,
    buffer_size: usize,
    cpu_base: u64,
    bus_base: u64,
    free: Vec<u16>,
}

impl BufferPool {
    /// Free indices are in range and listed once.
    pub closed spec fn wf(&self) -> bool {
        &&& self.free@.no_duplicates()
        &&& forall|k: int| 0 <= k < self.free@.len() ==> self.free@[k] < self.count
    }

    /// The indices of the free buffers.
    pub closed spec fn view(&self) -> Set<u16> {
        self.free@.to_set()
    }

    pub closed spec fn spec_count(&self) -> u16 {
        self.count
    }

    pub closed spec fn spec_buffer_size(&self) -> usize {
        self.buffer_size
    }

    pub closed spec fn spec_bus_base(&self) -> u64 {
        self.bus_base
    }

    /// A pool whose `count` buffers of `buffer_size` bytes start at
    /// `cpu_base` / `bus_base`; all are free.
    pub fn new(cpu_base: u64, bus_base: u64, buffer_size: usize, count: u16) -> (r: Self)
        ensures
            r.wf(),
            r.spec_count() == count,
            r.spec_buffer_size() == buffer_size,
            r.spec_bus_base() == bus_base,
            r@ == Set::new(|i: u16| i < count),
    {
        let mut free: Vec<u16> = Vec::new();
        let mut i: u16 = 0;
        while i < count
            invariant
                i <= count,
                free@.len() == i,
                forall|k: int| 0 <= k < i ==> free@[k] == k,
            decreases count - i,
        {
            free.push(i);
            i += 1;
        }
        let r = BufferPool { count, buffer_size, cpu_base, bus_base, free };
        assert(r@ =~= Set::new(|j: u16| j < count)) by {
            assert forall|j: u16| j < count implies r.free@.contains(j) by {
                assert(r.free@[j as int] == j);
            }
        }
        r
    }

    /// Number of buffers in the pool.
    pub fn count_of(&self) -> (r: u16)
        ensures
            r == self.spec_count(),
    {
        self.count
    }

    /// Number of free buffers.
    pub fn available(&self) -> (r: usize)
        requires
            self.wf(),
        ensures
            r == self@.len(),
    {
        proof {
            self.free@.unique_seq_to_set();
        }
        self.free.len()
    }

    /// Take a free buffer, if any.
    pub fn allocate(&mut self) -> (r: Option<u16>)
        requires
            old(self).wf(),
        ensures
            final(self).wf(),
            final(self).spec_count() == old(self).spec_count(),
            final(self).spec_buffer_size() == old(self).spec_buffer_size(),
            final(self).spec_bus_base() == old(self).spec_bus_base(),
            match r {
                Some(i) => old(self)@.contains(i) && final(self)@ == old(self)@.remove(i) && i < old(self).spec_count()
                    && old(self)@.len() > 0,
                None => old(self)@.len() == 0 && final(self)@ == old(self)@,
            },
    {
        proof {
            self.free@.unique_seq_to_set();
        }
        match self.free.pop() {
            Some(i) => {
                proof {
                    let s = old(self).free@;
                    assert(s == self.free@.push(i));
                    assert(s[s.len() - 1] == i);
                    assert(self@ =~= old(self)@.remove(i)) by {
                        assert forall|x: u16| old(self)@.remove(i).contains(x) implies self@.contains(x) by {
                            let k = choose|k: int| 0 <= k < s.len() && s[k] == x;
                            assert(k != s.len() - 1);
                            assert(self.free@[k] == x);
                        }
                        assert forall|x: u16| self@.contains(x) implies old(self)@.remove(i).contains(x) by {
                            let k = choose|k: int| 0 <= k < self.free@.len() && self.free@[k] == x;
                            assert(s[k] == x);
                            assert(k != s.len() - 1);
                        }
                    }
                    assert(s[s.len() - 1] < self.count);
                }
                Some(i)
            },
            None => {
                proof {
                    assert(self@ =~= Set::<u16>::empty());
                }
                None
            },
        }
    }

    /// Return buffer `idx` to the pool; an index out of range or already
    /// free changes nothing.
    pub fn free(&mut self, idx: u16)
        requires
            old(self).wf(),
        ensures
            final(self).wf(),
            final(self).spec_count() == old(self).spec_count(),
            final(self).spec_buffer_size() == old(self).spec_buffer_size(),
            final(self).spec_bus_base() == old(self).spec_bus_base(),
            final(self)@ == if idx < old(self).spec_count() { old(self)@.insert(idx) } else { old(self)@ },
    {
        if idx >= self.count || index_listed(&self.free, idx) {
            return;
        }
        let ghost before = self.free@;
        self.free.push(idx);
        proof {
            assert(self.free@ == before.push(idx));
            assert(self@ =~= old(self)@.insert(idx)) by {
                assert(self.free@[before.len() as int] == idx);
                assert forall|x: u16| self@.contains(x) implies old(self)@.insert(idx).contains(x) by {
                    let j = choose|j: int| 0 <= j < self.free@.len() && self.free@[j] == x;
                    if j < before.len() {
                        assert(before[j] == x);
                    }
                }
                assert forall|x: u16| old(self)@.contains(x) implies self@.contains(x) by {
                    let j = choose|j: int| 0 <= j < before.len() && before[j] == x;
                    assert(self.free@[j] == x);
                }
            }
            assert(self.free@.no_duplicates()) by {
                assert forall|a: int, b: int| 0 <= a < b < self.free@.len() implies self.free@[a] != self.free@[b] by {
                    if b == before.len() {
                        assert(before[a] != idx);
                    } else {
                        assert(before[a] != before[b]);
                    }
                }
            }
        }
    }

    /// Bus address of buffer `idx`.
    pub fn buffer_bus(&self, idx: u16) -> (r: u64)
        requires
            idx < self.spec_count(),
            self.spec_bus_base() + self.spec_count() * self.spec_buffer_size() <= u64::MAX,
        ensures
            r == self.spec_bus_base() + idx * self.spec_buffer_size(),
    {
        let i = idx as u64;
        let size = self.buffer_size as u64;
        assert(i * size <= self.count * size) by (nonlinear_arith)
            requires
                i < self.count,
        ;
        self.bus_base + i * size
    }
}

fn index_listed(v: &Vec<u16>, idx: u16) -> (r: bool)
    ensures
        r == v@.contains(idx),
{
    let mut k: usize = 0;
    while k < v.len()
        invariant
            k <= v@.len(),
            forall|j: int| 0 <= j < k ==> v@[j] != idx,
        decreases v@.len() - k,
    {
        if v[k] == idx {
            assert(v@[k as int] == idx);
            return true;
        }
        k += 1;
    }
    false
}

/// A buffer taken from a pool and given back leaves the pool's free set
/// as it was.
pub proof fn lemma_take_give_back(free: Set<u16>, i: u16)
    requires
        free.contains(i),
    ensures
        free.remove(i).insert(i) == free,
{
    assert(free.remove(i).insert(i) =~= free);
}

/// Payload length of a received buffer of `length` bytes: what follows the
/// VirtIO header. A buffer shorter than the header is a device error; a
/// payload larger than the caller's buffer is reported with its size.
pub fn rx_payload_len(length: u32, out_len: usize) -> (r: Result<usize, RxError>)
    ensures
        length < VIRTIO_NET_HDR_SIZE ==> r == Err::<usize, RxError>(RxError::DeviceError),
        length >= VIRTIO_NET_HDR_SIZE && length - VIRTIO_NET_HDR_SIZE > out_len ==> r == Err::<usize, RxError>(
            RxError::BufferTooSmall { needed: (length - VIRTIO_NET_HDR_SIZE) as usize },
        ),
        length >= VIRTIO_NET_HDR_SIZE && length - VIRTIO_NET_HDR_SIZE <= out_len ==> r == Ok::<usize, RxError>(
            (length - VIRTIO_NET_HDR_SIZE) as usize,
        ),
{
    let frame_len = length as usize;
    if frame_len < VIRTIO_NET_HDR_SIZE {
        return Err(RxError::DeviceError);
    }
    let payload_len = frame_len - VIRTIO_NET_HDR_SIZE;
    if payload_len > out_len {
        return Err(RxError::BufferTooSmall { needed: payload_len });
    }
    Ok(payload_len)
}

/// Copy the frame of a received buffer (after its VirtIO header) to the
/// start of `out`.
pub fn copy_rx_payload(buf: &[u8], out: &mut [u8], payload_len: usize)
    requires
        VIRTIO_NET_HDR_SIZE + payload_len <= buf@.len(),
        payload_len <= old(out)@.len(),
    ensures
        final(out)@.len() == old(out)@.len(),
        final(out)@.subrange(0, payload_len as int) == buf@.subrange(
            VIRTIO_NET_HDR_SIZE as int,
            VIRTIO_NET_HDR_SIZE + payload_len,
        ),
        final(out)@.subrange(payload_len as int, old(out)@.len() as int) == old(out)@.subrange(
            payload_len as int,
            old(out)@.len() as int,
        ),
{
    let mut i: usize = 0;
    while i < payload_len
        invariant
            VIRTIO_NET_HDR_SIZE + payload_len <= buf.len(),
            payload_len <= out@.len(),
            out@.len() == old(out)@.len(),
            i <= payload_len,
            forall|k: int| 0 <= k < i ==> out@[k] == buf@[VIRTIO_NET_HDR_SIZE + k],
            forall|k: int| payload_len <= k < out@.len() ==> out@[k] == old(out)@[k],
        decreases payload_len - i,
    {
        out[i] = buf[VIRTIO_NET_HDR_SIZE + i];
        i += 1;
    }
    assert(out@.subrange(0, payload_len as int) =~= buf@.subrange(
        VIRTIO_NET_HDR_SIZE as int,
        VIRTIO_NET_HDR_SIZE + payload_len,
    ));
    assert(out@.subrange(payload_len as int, out@.len() as int) =~= old(out)@.subrange(
        payload_len as int,
        old(out)@.len() as int,
    ));
}

/// Length of the buffer a frame of `frame_len` bytes takes with its
/// header; frames beyond the maximum are refused.
pub fn tx_total_len(frame_len: usize) -> (r: Result<usize, TxError>)
    ensures
        VIRTIO_NET_HDR_SIZE + frame_len > MAX_TX_FRAME_SIZE ==> r == Err::<usize, TxError>(TxError::FrameTooLarge),
        VIRTIO_NET_HDR_SIZE + frame_len <= MAX_TX_FRAME_SIZE ==> r == Ok::<usize, TxError>(
            (VIRTIO_NET_HDR_SIZE + frame_len) as usize,
        ),
{
    if frame_len > MAX_TX_FRAME_SIZE - VIRTIO_NET_HDR_SIZE {
        return Err(TxError::FrameTooLarge);
    }
    Ok(VIRTIO_NET_HDR_SIZE + frame_len)
}

/// Fill a transmit buffer: a zeroed VirtIO header, then the frame.
pub fn fill_tx_buffer(frame: &[u8], buf: &mut [u8])
    requires
        VIRTIO_NET_HDR_SIZE + frame@.len() <= old(buf)@.len(),
    ensures
        final(buf)@.len() == old(buf)@.len(),
        forall|k: int| 0 <= k < VIRTIO_NET_HDR_SIZE ==> final(buf)@[k] == 0,
        final(buf)@.subrange(VIRTIO_NET_HDR_SIZE as int, VIRTIO_NET_HDR_SIZE + frame@.len()) == frame@,
{
    let mut i: usize = 0;
    while i < VIRTIO_NET_HDR_SIZE
        invariant
            VIRTIO_NET_HDR_SIZE + frame@.len() <= buf@.len(),
            buf@.len() == old(buf)@.len(),
            i <= VIRTIO_NET_HDR_SIZE,
            forall|k: int| 0 <= k < i ==> buf@[k] == 0,
        decreases VIRTIO_NET_HDR_SIZE - i,
    {
        buf[i] = 0;
        i += 1;
    }
    let mut j: usize = 0;
    while j < frame.len()
        invariant
            VIRTIO_NET_HDR_SIZE + frame@.len() <= buf.len(),
            buf@.len() == old(buf)@.len(),
            j <= frame@.len(),
            forall|k: int| 0 <= k < VIRTIO_NET_HDR_SIZE ==> buf@[k] == 0,
            forall|k: int| 0 <= k < j ==> buf@[VIRTIO_NET_HDR_SIZE + k] == frame@[k],
        decreases frame@.len() - j,
    {
        buf[VIRTIO_NET_HDR_SIZE + j] = frame[j];
        j += 1;
    }
    assert(buf@.subrange(VIRTIO_NET_HDR_SIZE as int, VIRTIO_NET_HDR_SIZE + frame@.len()) =~= frame@);
}

} // verus!
