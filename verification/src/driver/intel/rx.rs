//! Intel e1000e RX descriptor ring: what a polled descriptor yields, and
//! how the consumer index and the tail move as descriptors are handed back
//! to the device.
//!
//! Polling the descriptor, copying the packet out of its buffer, clearing
//! the descriptor and writing the tail register are the platform's part;
//! `receive` says which of them to do.

use super::tx::ring_next;
use vstd::prelude::*;

verus! {

/// Size of a single RX descriptor in bytes.
pub const RX_DESC_SIZE: u64 = 16;

/// Default RX buffer size (2KB).
pub const DEFAULT_BUFFER_SIZE: usize = 2048;

/// RX descriptor error bits that make a packet unusable: CRC, symbol,
/// sequence and RX data errors.
pub const RXD_ERR_FATAL: u8 = 0x27;

/// RX errors.
#[derive(Debug, Clone, Copy, PartialEq, Eq, Structural)]
pub enum RxError {
    /// Provided buffer too small for received packet.
    BufferTooSmall {
        /// Required size.
        needed: usize,
        /// Provided size.
        provided: usize,
    },
    /// Packet had hardware errors.
    PacketError(u8),
}

/// What polling the descriptor at the consumer index found.
#[derive(Debug, Clone, Copy, PartialEq, Eq, Structural)]
pub struct RxPollResult {
    /// The device has written a packet (descriptor done).
    pub ready: bool,
    /// Packet length written by the device.
    pub length: u16,
    /// Error bits of the descriptor.
    pub errors: u8,
}

impl RxPollResult {
    /// Whether the descriptor reports a fatal receive error.
    pub fn has_errors(&self) -> (r: bool)
        ensures
            r == (self.errors & RXD_ERR_FATAL != 0),
    {
        self.errors & RXD_ERR_FATAL != 0
    }
}

/// What `receive` decided: its result, and the device work it asks for.
#[derive(Debug, Clone, Copy)]
pub struct RxStep {
    /// The receive result.
    pub result: Result<Option<usize>, RxError>,
    /// CPU address of the buffer to copy `length` bytes from, on success.
    pub copy_from: Option<u64>,
    /// CPU address of the descriptor to clear and hand back, if any.
    pub release_desc: Option<u64>,
    /// New tail value to write to the device, if it changed.
    pub write_tail: Option<u16>,
}

/// What receiving from `ring` does for the descriptor state `poll` and an
/// output buffer of `out_len` bytes: nothing without a packet; otherwise
/// the packet at the consumer index is reported (an error, too large, or
/// its length), copied from its buffer on success, and its descriptor is
/// released and becomes the tail (written when it changed).
pub open spec fn rx_step_of(ring: RxRing, poll: RxPollResult, out_len: usize) -> RxStep {
    if !poll.ready {
        RxStep { result: Ok(None), copy_from: None, release_desc: None, write_tail: None }
    } else {
        let idx = ring.clean();
        let result = if poll.errors & RXD_ERR_FATAL != 0 {
            Err::<Option<usize>, RxError>(RxError::PacketError(poll.errors))
        } else if out_len < poll.length {
            Err(RxError::BufferTooSmall { needed: poll.length as usize, provided: out_len })
        } else {
            Ok(Some(poll.length as usize))
        };
        RxStep {
            result,
            copy_from: if result is Ok {
                Some(ring.buffer_addr(idx) as u64)
            } else {
                None
            },
            release_desc: Some(ring.desc_addr(idx) as u64),
            write_tail: if idx != ring.tail_value() {
                Some(idx as u16)
            } else {
                None
            },
        }
    }
}

/// RX descriptor ring.
pub struct RxRing {
    /// MMIO base address.
    mmio_base: u64,
    /// CPU address of descriptor ring.
    desc_cpu: u64,
    /// Bus address of descriptor ring.
    desc_bus: u64,
    /// CPU address of buffer region.
    buffer_cpu: u64,
    /// Bus address of buffer region.
    buffer_bus: u64,
    /// Size of each buffer.
    buffer_size: usize,
    /// Number of descriptors.
    queue_size: u16,
    /// Next descriptor to check for received packet.
    next_to_clean: u16,
    /// Last tail value written to hardware.
    tail: u16,
}

impl RxRing {
    /// Indices within the ring, at least one descriptor, areas in range.
    pub closed spec fn wf(&self) -> bool {
        &&& self.queue_size >= 1
        &&& self.next_to_clean < self.queue_size
        &&& self.tail < self.queue_size
        &&& self.desc_cpu + self.queue_size * RX_DESC_SIZE <= u64::MAX
        &&& self.buffer_cpu + self.queue_size * self.buffer_size <= u64::MAX
        &&& self.buffer_bus + self.queue_size * self.buffer_size <= u64::MAX
    }

    /// Number of descriptors.
    pub closed spec fn size(&self) -> int {
        self.queue_size as int
    }

    /// Consumer index: the next descriptor to check.
    pub closed spec fn clean(&self) -> int {
        self.next_to_clean as int
    }

    /// Last tail value written.
    pub closed spec fn tail_value(&self) -> int {
        self.tail as int
    }

    /// CPU address of descriptor `i`.
    pub closed spec fn desc_addr(&self, i: int) -> int {
        self.desc_cpu + i * 16
    }

    /// CPU address of buffer `i`.
    pub closed spec fn buffer_addr(&self, i: int) -> int {
        self.buffer_cpu + i * self.buffer_size
    }

    /// Bus address of buffer `i`.
    pub closed spec fn buffer_bus_addr(&self, i: int) -> int {
        self.buffer_bus + i * self.buffer_size
    }

    /// CPU address of the descriptor checked next for a received packet.
    pub fn next_desc(&self) -> (r: u64)
        requires
            self.wf(),
        ensures
            r == self.desc_addr(self.clean()),
    {
        proof {
            let q = self.queue_size as int;
            assert(self.next_to_clean * 16 <= q * 16) by (nonlinear_arith)
                requires
                    self.next_to_clean < q,
            ;
        }
        self.desc_cpu + (self.next_to_clean as u64) * RX_DESC_SIZE
    }

    /// Create a new RX ring over the given descriptor and buffer areas.
    pub fn new(
        mmio_base: u64,
        desc_cpu: u64,
        desc_bus: u64,
        buffer_cpu: u64,
        buffer_bus: u64,
        buffer_size: usize,
        queue_size: u16,
    ) -> (r: Self)
        requires
            queue_size >= 1,
            desc_cpu + queue_size * RX_DESC_SIZE <= u64::MAX,
            buffer_cpu + queue_size * buffer_size <= u64::MAX,
            buffer_bus + queue_size * buffer_size <= u64::MAX,
        ensures
            r.wf(),
            r.size() == queue_size,
            r.clean() == 0,
            r.tail_value() == 0,
            forall|i: int| r.desc_addr(i) == desc_cpu + i * 16,
            forall|i: int| r.buffer_addr(i) == buffer_cpu + i * buffer_size,
            forall|i: int| r.buffer_bus_addr(i) == buffer_bus + i * buffer_size,
    {
        RxRing {
            mmio_base,
            desc_cpu,
            desc_bus,
            buffer_cpu,
            buffer_bus,
            buffer_size,
            queue_size,
            next_to_clean: 0,
            tail: 0,
        }
    }

    /// Get descriptor ring length in bytes.
    pub fn desc_len_bytes(&self) -> (r: u32)
        ensures
            r == self.size() * 16,
    {
        (self.queue_size as u32) * 16u32
    }

    /// Bus address of the buffer that descriptor `i` is set up with.
    pub fn buffer_bus_of(&self, i: u16) -> (r: u64)
        requires
            self.wf(),
            i < self.size(),
        ensures
            r == self.buffer_bus_addr(i as int),
    {
        proof {
            let q = self.queue_size as int;
            let b = self.buffer_size as int;
            assert(i * b <= q * b) by (nonlinear_arith)
                requires
                    i < q,
                    b >= 0,
            ;
        }
        self.buffer_bus + (i as u64) * (self.buffer_size as u64)
    }

    /// Arm the ring: the tail points at the last descriptor, so all but one
    /// are the device's. Returns the tail value to write.
    pub fn update_tail(&mut self) -> (r: u16)
        requires
            old(self).wf(),
        ensures
            final(self).wf(),
            r == old(self).size() - 1,
            final(self).tail_value() == r,
            final(self).size() == old(self).size(),
            final(self).clean() == old(self).clean(),
            forall|i: int| final(self).desc_addr(i) == old(self).desc_addr(i),
            forall|i: int| final(self).buffer_addr(i) == old(self).buffer_addr(i),
            forall|i: int| final(self).buffer_bus_addr(i) == old(self).buffer_bus_addr(i),
    {
        self.tail = self.queue_size - 1;
        self.tail
    }

    /// Receive from the descriptor at the consumer index, given what polling
    /// it found and the size of the caller's buffer. No packet: nothing
    /// changes. A fatal error or a too-small buffer: the descriptor is
    /// released and the error returned. Otherwise the packet is copied out
    /// of the descriptor's buffer and the descriptor released. Releasing
    /// advances the consumer index and makes the released descriptor the
    /// tail, written when it changed.
    pub fn receive(&mut self, poll: RxPollResult, out_len: usize) -> (r: RxStep)
        requires
            old(self).wf(),
        ensures
            final(self).wf(),
            final(self).size() == old(self).size(),
            forall|i: int| final(self).desc_addr(i) == old(self).desc_addr(i),
            forall|i: int| final(self).buffer_addr(i) == old(self).buffer_addr(i),
            forall|i: int| final(self).buffer_bus_addr(i) == old(self).buffer_bus_addr(i),
            r == rx_step_of(*old(self), poll, out_len),
            !poll.ready ==> r == (RxStep {
                result: Ok(None),
                copy_from: None,
                release_desc: None,
                write_tail: None,
            }) && final(self).clean() == old(self).clean() && final(self).tail_value() == old(self).tail_value(),
            poll.ready ==> {
                let idx = old(self).clean();
                &&& final(self).clean() == ring_next(idx, old(self).size())
                &&& final(self).tail_value() == idx
                &&& r.release_desc == Some(old(self).desc_addr(idx) as u64)
                &&& r.write_tail == (if idx != old(self).tail_value() {
                    Some(idx as u16)
                } else {
                    None
                })
                &&& r.result == (if poll.errors & RXD_ERR_FATAL != 0 {
                    Err::<Option<usize>, RxError>(RxError::PacketError(poll.errors))
                } else if out_len < poll.length {
                    Err(RxError::BufferTooSmall { needed: poll.length as usize, provided: out_len })
                } else {
                    Ok(Some(poll.length as usize))
                })
                &&& r.copy_from == (if r.result is Ok {
                    Some(old(self).buffer_addr(idx) as u64)
                } else {
                    None
                })
            },
    {
        if !poll.ready {
            return RxStep { result: Ok(None), copy_from: None, release_desc: None, write_tail: None };
        }
        let idx = self.next_to_clean;
        proof {
            let q = self.queue_size as int;
            let b = self.buffer_size as int;
            assert(idx * 16 <= q * 16) by (nonlinear_arith)
                requires
                    idx < q,
            ;
            assert(idx * b <= q * b) by (nonlinear_arith)
                requires
                    idx < q,
                    b >= 0,
            ;
        }
        let desc = self.desc_cpu + (idx as u64) * RX_DESC_SIZE;
        let result: Result<Option<usize>, RxError> = if poll.has_errors() {
            Err(RxError::PacketError(poll.errors))
        } else if out_len < poll.length as usize {
            Err(RxError::BufferTooSmall { needed: poll.length as usize, provided: out_len })
        } else {
            Ok(Some(poll.length as usize))
        };
        let copy_from = if result.is_ok() {
            Some(self.buffer_cpu + (idx as u64) * (self.buffer_size as u64))
        } else {
            None
        };
        self.next_to_clean = if idx + 1 >= self.queue_size {
            0
        } else {
            idx + 1
        };
        let old_tail = self.tail;
        self.tail = idx;
        let write_tail = if self.tail != old_tail {
            Some(self.tail)
        } else {
            None
        };
        RxStep { result, copy_from, release_desc: Some(desc), write_tail }
    }
}

} // verus!
