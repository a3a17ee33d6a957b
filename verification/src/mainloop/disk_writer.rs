//! Buffered disk writer for streaming ISO downloads: data accumulates in a
//! 64 KiB buffer, which is written out in whole sectors when full and,
//! zero-padded, at the end of the download.
//!
//! Submitting a flush to the block device and waiting for its completion
//! is the platform's part: `flush_request` says what to write, and
//! `flush_done` records a successful write.

use vstd::prelude::*;

verus! {

/// Write buffer size: 64 KiB = 128 sectors.
pub const BUFFER_SIZE: usize = 65536;

/// One buffer write to the block device.
#[derive(Debug, Clone, Copy, PartialEq, Eq, Structural)]
pub struct FlushRequest {
    /// First sector to write.
    pub sector: u64,
    /// Sectors to write (the buffered bytes rounded up).
    pub num_sectors: u32,
    /// Buffered bytes.
    pub bytes: usize,
    /// Request tag.
    pub request_id: u32,
}

/// Disk writer state.
pub struct DiskWriter {
    start_sector: u64,
    enabled: bool,
    buffer: Vec<u8>,
    fill: usize,
    next_sector: u64,
    total_written: u64,
    next_request_id: u32,
}

impl DiskWriter {
    /// The buffer has its full size and the fill level lies within it.
    pub closed spec fn wf(&self) -> bool {
        &&& self.buffer@.len() == BUFFER_SIZE
        &&& self.fill <= BUFFER_SIZE
    }

    pub closed spec fn spec_enabled(&self) -> bool {
        self.enabled
    }

    /// Bytes waiting in the buffer.
    pub closed spec fn pending(&self) -> Seq<u8> {
        self.buffer@.take(self.fill as int)
    }

    pub closed spec fn spec_next_sector(&self) -> u64 {
        self.next_sector
    }

    pub closed spec fn spec_total(&self) -> u64 {
        self.total_written
    }

    pub closed spec fn spec_request_id(&self) -> u32 {
        self.next_request_id
    }

    pub closed spec fn spec_start(&self) -> u64 {
        self.start_sector
    }

    /// The whole buffer.
    pub closed spec fn contents(&self) -> Seq<u8> {
        self.buffer@
    }

    /// Create a disk writer starting at the given sector.
    pub fn new(start_sector: u64) -> (r: Self)
        ensures
            r.wf(),
            r.spec_enabled(),
            r.spec_start() == start_sector,
            r.pending() == Seq::<u8>::empty(),
            r.spec_next_sector() == start_sector,
            r.spec_total() == 0,
            r.spec_request_id() == 1,
    {
        let mut buffer: Vec<u8> = Vec::new();
        let mut i: usize = 0;
        while i < BUFFER_SIZE
            invariant
                i <= BUFFER_SIZE,
                buffer@.len() == i,
            decreases BUFFER_SIZE - i,
        {
            buffer.push(0u8);
            i += 1;
        }
        let r = DiskWriter {
            start_sector,
            enabled: true,
            buffer,
            fill: 0,
            next_sector: start_sector,
            total_written: 0,
            next_request_id: 1,
        };
        assert(r.pending() =~= Seq::<u8>::empty());
        r
    }

    /// Create a disabled disk writer (for download-only mode): writes are
    /// accepted and dropped.
    pub fn disabled() -> (r: Self)
        ensures
            !r.spec_enabled(),
            r.spec_start() == 0,
            r.spec_total() == 0,
            r.contents() == Seq::<u8>::empty(),
            r.pending() == Seq::<u8>::empty(),
            r.spec_next_sector() == 0,
            r.spec_request_id() == 1,
    {
        let r = DiskWriter {
            start_sector: 0,
            enabled: false,
            buffer: Vec::new(),
            fill: 0,
            next_sector: 0,
            total_written: 0,
            next_request_id: 1,
        };
        assert(r.contents() =~= Seq::<u8>::empty());
        assert(r.pending() =~= Seq::<u8>::empty());
        r
    }

    /// Check if disk writing is enabled.
    pub fn is_enabled(&self) -> (r: bool)
        ensures
            r == self.spec_enabled(),
    {
        self.enabled
    }

    /// Get total bytes written to disk.
    pub fn bytes_written(&self) -> (r: u64)
        ensures
            r == self.spec_total(),
    {
        self.total_written
    }

    /// Get current sector position.
    pub fn current_sector(&self) -> (r: u64)
        ensures
            r == self.spec_next_sector(),
    {
        self.next_sector
    }

    /// Bytes waiting in the buffer.
    pub fn buffered(&self) -> (r: usize)
        requires
            self.wf(),
        ensures
            r == self.pending().len(),
    {
        self.fill
    }

    /// Whether the buffer is full and must be flushed before taking more.
    pub fn is_full(&self) -> (r: bool)
        requires
            self.wf(),
        ensures
            r == (self.pending().len() == BUFFER_SIZE),
    {
        self.fill >= BUFFER_SIZE
    }

    /// Take as much of `data` as fits in the buffer; returns how much.
    pub fn buffer_data(&mut self, data: &[u8]) -> (r: usize)
        requires
            old(self).wf(),
        ensures
            final(self).wf(),
            r == (if data@.len() < BUFFER_SIZE - old(self).pending().len() {
                data@.len() as int
            } else {
                BUFFER_SIZE - old(self).pending().len()
            }),
            final(self).pending() == old(self).pending() + data@.take(r as int),
            final(self).spec_enabled() == old(self).spec_enabled(),
            final(self).spec_next_sector() == old(self).spec_next_sector(),
            final(self).spec_total() == old(self).spec_total(),
            final(self).spec_request_id() == old(self).spec_request_id(),
            final(self).spec_start() == old(self).spec_start(),
    {
        let space = BUFFER_SIZE - self.fill;
        let to_copy = if data.len() < space {
            data.len()
        } else {
            space
        };
        let ghost before = self.pending();
        let mut k: usize = 0;
        while k < to_copy
            invariant
                self.buffer@.len() == BUFFER_SIZE,
                self.fill + to_copy <= BUFFER_SIZE,
                to_copy <= data@.len(),
                k <= to_copy,
                self.buffer@.take(self.fill + k) == before + data@.take(k as int),
                before == old(self).pending(),
                self.fill == old(self).fill,
                self.enabled == old(self).enabled,
                self.next_sector == old(self).next_sector,
                self.total_written == old(self).total_written,
                self.next_request_id == old(self).next_request_id,
                self.start_sector == old(self).start_sector,
            decreases to_copy - k,
        {
            let ghost prev = self.buffer@;
            self.buffer.set(self.fill + k, data[k]);
            assert(self.buffer@.take(self.fill + k + 1) =~= prev.take(self.fill + k).push(data@[k as int]));
            assert(data@.take(k + 1) =~= data@.take(k as int).push(data@[k as int]));
            k += 1;
        }
        self.fill = self.fill + to_copy;
        to_copy
    }

    /// The write of the buffered bytes to issue, if any, taking the next
    /// request tag: the buffer is written whole sectors at a time from the
    /// next sector.
    pub fn flush_request(&mut self) -> (r: Option<FlushRequest>)
        requires
            old(self).wf(),
        ensures
            final(self).wf(),
            final(self).pending() == old(self).pending(),
            final(self).spec_enabled() == old(self).spec_enabled(),
            final(self).spec_next_sector() == old(self).spec_next_sector(),
            final(self).spec_total() == old(self).spec_total(),
            final(self).spec_start() == old(self).spec_start(),
            old(self).pending().len() == 0 ==> r is None && final(self).spec_request_id() == old(self).spec_request_id(),
            old(self).pending().len() > 0 ==> r == Some(
                FlushRequest {
                    sector: old(self).spec_next_sector(),
                    num_sectors: ((old(self).pending().len() + 511) / 512) as u32,
                    bytes: old(self).pending().len() as usize,
                    request_id: old(self).spec_request_id(),
                },
            ) && final(self).spec_request_id() == vstd::wrapping::u32_specs::wrapping_add(
                old(self).spec_request_id(),
                1,
            ),
    {
        if self.fill == 0 {
            return None;
        }
        let request_id = self.next_request_id;
        self.next_request_id = self.next_request_id.wrapping_add(1);
        let num_sectors = ((self.fill + 511) / 512) as u32;
        Some(FlushRequest { sector: self.next_sector, num_sectors, bytes: self.fill, request_id })
    }

    /// The buffer's bytes, as handed to the device for a flush.
    pub fn buffer(&self) -> (r: &[u8])
        ensures
            r@ == self.contents(),
    {
        self.buffer.as_slice()
    }

    /// Record that `request` was written: the position moves past its
    /// sectors, its bytes count as written, and the buffer is empty.
    pub fn flush_done(&mut self, request: FlushRequest)
        requires
            old(self).wf(),
            old(self).spec_next_sector() + request.num_sectors <= u64::MAX,
            old(self).spec_total() + request.bytes <= u64::MAX,
        ensures
            final(self).wf(),
            final(self).pending() == Seq::<u8>::empty(),
            final(self).spec_next_sector() == old(self).spec_next_sector() + request.num_sectors,
            final(self).spec_total() == old(self).spec_total() + request.bytes,
            final(self).spec_enabled() == old(self).spec_enabled(),
            final(self).spec_request_id() == old(self).spec_request_id(),
            final(self).spec_start() == old(self).spec_start(),
    {
        self.next_sector = self.next_sector + request.num_sectors as u64;
        self.total_written = self.total_written + request.bytes as u64;
        self.fill = 0;
        assert(self.pending() =~= Seq::<u8>::empty());
    }

    /// Zero the unused rest of the buffer, before the final flush.
    pub fn pad(&mut self)
        requires
            old(self).wf(),
        ensures
            final(self).wf(),
            final(self).pending() == old(self).pending(),
            forall|i: int| old(self).pending().len() <= i < BUFFER_SIZE ==> #[trigger] final(self).contents()[i] == 0,
            final(self).spec_enabled() == old(self).spec_enabled(),
            final(self).spec_next_sector() == old(self).spec_next_sector(),
            final(self).spec_total() == old(self).spec_total(),
            final(self).spec_request_id() == old(self).spec_request_id(),
            final(self).spec_start() == old(self).spec_start(),
    {
        let mut i = self.fill;
        while i < BUFFER_SIZE
            invariant
                self.buffer@.len() == BUFFER_SIZE,
                old(self).fill <= i <= BUFFER_SIZE,
                self.fill == old(self).fill,
                self.buffer@.take(self.fill as int) == old(self).pending(),
                forall|k: int| self.fill <= k < i ==> #[trigger] self.buffer@[k] == 0,
                self.enabled == old(self).enabled,
                self.next_sector == old(self).next_sector,
                self.total_written == old(self).total_written,
                self.next_request_id == old(self).next_request_id,
                self.start_sector == old(self).start_sector,
            decreases BUFFER_SIZE - i,
        {
            let ghost prev = self.buffer@;
            self.buffer.set(i, 0);
            assert(self.buffer@.take(self.fill as int) =~= prev.take(self.fill as int));
            i += 1;
        }
    }
}

} // verus!
