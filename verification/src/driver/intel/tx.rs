//! Intel e1000e TX descriptor ring: which descriptor and buffer a frame
//! goes to, how far the tail moves, and which descriptors are reclaimed.
//!
//! The ring keeps one descriptor free, so at most `queue_size - 1` frames
//! are in flight. Copying the frame, writing the descriptor and the tail
//! register, and polling the done bit are the platform's part.

use vstd::prelude::*;

verus! {

/// Size of a single TX descriptor in bytes.
pub const TX_DESC_SIZE: u64 = 16;

/// Maximum Ethernet frame size (without FCS - hardware adds it).
pub const MAX_FRAME_SIZE: usize = 1514;

/// Default TX buffer size (2KB).
pub const DEFAULT_BUFFER_SIZE: usize = 2048;

/// TX errors.
#[derive(Debug, Clone, Copy, PartialEq, Eq, Structural)]
pub enum TxError {
    /// TX queue is full.
    QueueFull,
    /// Frame too large.
    FrameTooLarge {
        /// Provided frame size.
        provided: usize,
        /// Maximum allowed size.
        max: usize,
    },
}

/// Where a submitted frame goes: the descriptor to fill, the buffer to
/// copy the frame into, and the new tail value.
#[derive(Debug, Clone, Copy, PartialEq, Eq, Structural)]
pub struct TxSubmission {
    /// CPU address of the descriptor.
    pub desc_addr: u64,
    /// CPU address of the frame buffer.
    pub buffer_cpu: u64,
    /// Bus address of the frame buffer, written into the descriptor.
    pub buffer_bus: u64,
    /// Frame length.
    pub length: u32,
    /// New value of the tail register.
    pub tail: u16,
}

/// TX descriptor ring.
pub struct TxRing {
    /// MMIO base address.
    mmio_base: u64,
    /// CPU address of descriptor ring.
    desc_cpu: u64,
    /// Bus address of descriptor ring.
    desc_bus: u64,
    /// CPU address of buffer region.
    buffer_cpu: u64,
    /// Bus address of buffer region.
    buffer_bus: u64,
    /// Size of each buffer.
    buffer_size: usize,
    /// Number of descriptors.
    queue_size: u16,
    /// Next descriptor to use for transmit.
    next_to_use: u16,
    /// Next descriptor to check for completion.
    next_to_clean: u16,
}

/// Descriptors in flight in a ring of `q` descriptors whose producer is at
/// `used` and consumer at `cleaned`.
pub open spec fn ring_in_flight(used: int, cleaned: int, q: int) -> int {
    if used >= cleaned {
        used - cleaned
    } else {
        q - cleaned + used
    }
}

/// Index after `i` in a ring of `q` entries.
pub open spec fn ring_next(i: int, q: int) -> int {
    if i + 1 >= q {
        0
    } else {
        i + 1
    }
}

/// The submission for a frame of `frame_len` bytes on `ring`: the
/// descriptor and buffer at the producer index, and the index after it as
/// the new tail.
pub open spec fn next_submission(ring: TxRing, frame_len: usize) -> TxSubmission {
    let i = ring.head();
    let (bc, bb, bs) = ring.buffers();
    TxSubmission {
        desc_addr: (ring.desc_base() + i * 16) as u64,
        buffer_cpu: (bc + i * bs) as u64,
        buffer_bus: (bb + i * bs) as u64,
        length: frame_len as u32,
        tail: ring_next(i, ring.size()) as u16,
    }
}

/// The ring's areas fit in the address space: `q` descriptors from
/// `desc`, and `q` buffers of `size` bytes from each buffer base.
pub open spec fn ring_fits(desc: u64, buf_cpu: u64, buf_bus: u64, size: usize, q: u16) -> bool {
    &&& desc + q * TX_DESC_SIZE <= u64::MAX
    &&& buf_cpu + q * size <= u64::MAX
    &&& buf_bus + q * size <= u64::MAX
}

impl TxRing {
    /// Indices within the ring, at least one descriptor, areas in range.
    pub closed spec fn wf(&self) -> bool {
        &&& self.queue_size >= 1
        &&& self.next_to_use < self.queue_size
        &&& self.next_to_clean < self.queue_size
        &&& ring_fits(self.desc_cpu, self.buffer_cpu, self.buffer_bus, self.buffer_size, self.queue_size)
    }

    /// Number of descriptors.
    pub closed spec fn size(&self) -> int {
        self.queue_size as int
    }

    /// Producer index.
    pub closed spec fn head(&self) -> int {
        self.next_to_use as int
    }

    /// Consumer index.
    pub closed spec fn clean(&self) -> int {
        self.next_to_clean as int
    }

    /// Descriptors submitted and not yet reclaimed.
    pub open spec fn pending(&self) -> int {
        ring_in_flight(self.head(), self.clean(), self.size())
    }

    /// CPU address of descriptor ring.
    pub closed spec fn desc_base(&self) -> int {
        self.desc_cpu as int
    }

    /// CPU and bus addresses of the buffer region, and the buffer size.
    pub closed spec fn buffers(&self) -> (int, int, int) {
        (self.buffer_cpu as int, self.buffer_bus as int, self.buffer_size as int)
    }

    /// Create a new, empty TX ring over the given descriptor and buffer
    /// areas.
    pub fn new(
        mmio_base: u64,
        desc_cpu: u64,
        desc_bus: u64,
        buffer_cpu: u64,
        buffer_bus: u64,
        buffer_size: usize,
        queue_size: u16,
    ) -> (r: Self)
        requires
            queue_size >= 1,
            ring_fits(desc_cpu, buffer_cpu, buffer_bus, buffer_size, queue_size),
        ensures
            r.wf(),
            r.size() == queue_size,
            r.head() == 0,
            r.clean() == 0,
            r.desc_base() == desc_cpu,
            r.buffers() == (buffer_cpu as int, buffer_bus as int, buffer_size as int),
    {
        TxRing {
            mmio_base,
            desc_cpu,
            desc_bus,
            buffer_cpu,
            buffer_bus,
            buffer_size,
            queue_size,
            next_to_use: 0,
            next_to_clean: 0,
        }
    }

    /// Get descriptor ring length in bytes.
    pub fn desc_len_bytes(&self) -> (r: u32)
        ensures
            r == self.size() * 16,
    {
        (self.queue_size as u32) * 16u32
    }

    /// Get number of descriptors in flight (submitted but not completed).
    pub fn in_flight(&self) -> (r: u16)
        requires
            self.wf(),
        ensures
            r == self.pending(),
            r < self.size(),
    {
        if self.next_to_use >= self.next_to_clean {
            self.next_to_use - self.next_to_clean
        } else {
            self.queue_size - self.next_to_clean + self.next_to_use
        }
    }

    /// Get number of available descriptors: the ring size less the
    /// descriptors in flight and the one kept free.
    pub fn available(&self) -> (r: u16)
        requires
            self.wf(),
        ensures
            r == self.size() - self.pending() - 1,
    {
        self.queue_size - self.in_flight() - 1
    }

    /// Check if we can transmit a frame.
    pub fn can_transmit(&self) -> (r: bool)
        requires
            self.wf(),
        ensures
            r == (self.pending() < self.size() - 1),
    {
        self.available() > 0
    }

    /// Submit a frame of `frame_len` bytes: checks its size and that a
    /// descriptor is free, then takes the descriptor at the producer index
    /// and advances it (the new tail).
    pub fn transmit(&mut self, frame_len: usize) -> (r: Result<TxSubmission, TxError>)
        requires
            old(self).wf(),
        ensures
            final(self).wf(),
            final(self).size() == old(self).size(),
            final(self).clean() == old(self).clean(),
            final(self).desc_base() == old(self).desc_base(),
            final(self).buffers() == old(self).buffers(),
            frame_len > MAX_FRAME_SIZE ==> r == Err::<TxSubmission, TxError>(
                TxError::FrameTooLarge { provided: frame_len, max: MAX_FRAME_SIZE },
            ),
            frame_len <= MAX_FRAME_SIZE && old(self).pending() >= old(self).size() - 1 ==> r == Err::<
                TxSubmission,
                TxError,
            >(TxError::QueueFull),
            r is Err ==> final(self).head() == old(self).head(),
            frame_len <= MAX_FRAME_SIZE && old(self).pending() < old(self).size() - 1 ==> r == Ok::<
                TxSubmission,
                TxError,
            >(next_submission(*old(self), frame_len)),
            frame_len <= MAX_FRAME_SIZE && old(self).pending() < old(self).size() - 1 ==> {
                let i = old(self).head();
                let (bc, bb, bs) = old(self).buffers();
                &&& r == Ok::<TxSubmission, TxError>(
                    TxSubmission {
                        desc_addr: (old(self).desc_base() + i * 16) as u64,
                        buffer_cpu: (bc + i * bs) as u64,
                        buffer_bus: (bb + i * bs) as u64,
                        length: frame_len as u32,
                        tail: final(self).head() as u16,
                    },
                )
                &&& final(self).head() == ring_next(i, old(self).size())
                &&& final(self).pending() == old(self).pending() + 1
            },
    {
        if frame_len > MAX_FRAME_SIZE {
            return Err(TxError::FrameTooLarge { provided: frame_len, max: MAX_FRAME_SIZE });
        }
        if !self.can_transmit() {
            return Err(TxError::QueueFull);
        }
        let idx = self.next_to_use;
        proof {
            let q = self.queue_size as int;
            let b = self.buffer_size as int;
            assert(idx * 16 <= q * 16) by (nonlinear_arith)
                requires
                    idx < q,
            ;
            assert(idx * b <= q * b) by (nonlinear_arith)
                requires
                    idx < q,
                    b >= 0,
            ;
        }
        let desc_addr = self.desc_cpu + (idx as u64) * TX_DESC_SIZE;
        let buffer_cpu = self.buffer_cpu + (idx as u64) * (self.buffer_size as u64);
        let buffer_bus = self.buffer_bus + (idx as u64) * (self.buffer_size as u64);
        self.next_to_use = if idx + 1 >= self.queue_size {
            0
        } else {
            idx + 1
        };
        Ok(TxSubmission { desc_addr, buffer_cpu, buffer_bus, length: frame_len as u32, tail: self.next_to_use })
    }

    /// CPU address of the oldest descriptor in flight, whose completion is
    /// polled next; `None` when nothing is in flight.
    pub fn pending_desc(&self) -> (r: Option<u64>)
        requires
            self.wf(),
        ensures
            self.pending() == 0 ==> r is None,
            self.pending() > 0 ==> r == Some((self.desc_base() + self.clean() * 16) as u64),
    {
        if self.next_to_clean == self.next_to_use {
            None
        } else {
            proof {
                let q = self.queue_size as int;
                assert(self.next_to_clean * 16 <= q * 16) by (nonlinear_arith)
                    requires
                        self.next_to_clean < q,
                ;
            }
            Some(self.desc_cpu + (self.next_to_clean as u64) * TX_DESC_SIZE)
        }
    }

    /// Reclaim the oldest descriptor in flight, after the device reported it
    /// sent.
    pub fn complete_one(&mut self)
        requires
            old(self).wf(),
            old(self).pending() > 0,
        ensures
            final(self).wf(),
            final(self).size() == old(self).size(),
            final(self).head() == old(self).head(),
            final(self).clean() == ring_next(old(self).clean(), old(self).size()),
            final(self).pending() == old(self).pending() - 1,
            final(self).desc_base() == old(self).desc_base(),
            final(self).buffers() == old(self).buffers(),
    {
        self.next_to_clean = if self.next_to_clean + 1 >= self.queue_size {
            0
        } else {
            self.next_to_clean + 1
        };
    }
}

} // verus!
