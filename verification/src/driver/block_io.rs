//! Synchronous block I/O over the asynchronous block drivers: the checks
//! of the adapters, how a transfer is cut into requests through a DMA
//! bounce buffer, and how the wait for a completion ends.

use super::block_traits::{BlockCompletion, BlockError};
use vstd::prelude::*;

verus! {

/// Maximum transfer size per request (64 KiB).
pub const MAX_TRANSFER_SIZE: usize = 65536;

/// Error type of the VirtIO-blk block I/O adapter.
#[derive(Debug, Clone, Copy, PartialEq, Eq, Structural)]
pub enum BlockIoError {
    /// Underlying block driver error
    DriverError(BlockError),
    /// Request timeout
    Timeout,
    /// Buffer alignment error
    BufferAlignment,
    /// Invalid operation
    InvalidOperation,
}

/// Error type of the unified and generic block I/O adapters.
#[derive(Debug, Clone, Copy, PartialEq, Eq, Structural)]
pub enum UnifiedBlockIoError {
    /// Underlying block driver error
    DriverError(BlockError),
    /// Request timeout
    Timeout,
    /// Buffer alignment error
    BufferAlignment,
    /// Invalid operation
    InvalidOperation,
    /// Device not ready
    DeviceNotReady,
}

impl BlockIoError {
    /// Human-readable description (driver errors without their detail).
    pub fn message(&self) -> (r: &'static str)
        ensures
            r@ == match *self {
                BlockIoError::DriverError(_) => "Block driver error"@,
                BlockIoError::Timeout => "I/O timeout"@,
                BlockIoError::BufferAlignment => "Buffer alignment error"@,
                BlockIoError::InvalidOperation => "Invalid operation"@,
            },
    {
        match self {
            BlockIoError::DriverError(_) => "Block driver error",
            BlockIoError::Timeout => "I/O timeout",
            BlockIoError::BufferAlignment => "Buffer alignment error",
            BlockIoError::InvalidOperation => "Invalid operation",
        }
    }
}

impl UnifiedBlockIoError {
    /// Human-readable description (driver errors without their detail).
    pub fn message(&self) -> (r: &'static str)
        ensures
            r@ == match *self {
                UnifiedBlockIoError::DriverError(_) => "Block driver error"@,
                UnifiedBlockIoError::Timeout => "I/O timeout"@,
                UnifiedBlockIoError::BufferAlignment => "Buffer alignment error"@,
                UnifiedBlockIoError::InvalidOperation => "Invalid operation"@,
                UnifiedBlockIoError::DeviceNotReady => "Block device not ready"@,
            },
    {
        match self {
            UnifiedBlockIoError::DriverError(_) => "Block driver error",
            UnifiedBlockIoError::Timeout => "I/O timeout",
            UnifiedBlockIoError::BufferAlignment => "Buffer alignment error",
            UnifiedBlockIoError::InvalidOperation => "Invalid operation",
            UnifiedBlockIoError::DeviceNotReady => "Block device not ready",
        }
    }
}

/// An adapter needs a bounce buffer of at least one maximal transfer.
pub fn dma_buffer_fits(dma_len: usize) -> (r: bool)
    ensures
        r == (dma_len >= MAX_TRANSFER_SIZE),
{
    dma_len >= MAX_TRANSFER_SIZE
}

/// Starting a synchronous adapter over a bounce buffer of `dma_len` bytes:
/// the first request ID (1), or `BufferAlignment` when the buffer cannot
/// hold one maximal transfer.
pub fn first_request_id(dma_len: usize) -> (r: Result<u32, UnifiedBlockIoError>)
    ensures
        r == (if dma_len < MAX_TRANSFER_SIZE {
            Err(UnifiedBlockIoError::BufferAlignment)
        } else {
            Ok::<u32, UnifiedBlockIoError>(1)
        }),
{
    if dma_buffer_fits(dma_len) {
        Ok(1)
    } else {
        Err(UnifiedBlockIoError::BufferAlignment)
    }
}

/// The unified adapter also needs a ready device.
pub fn check_unified_new(dma_len: usize, device_ready: bool) -> (r: Result<(), UnifiedBlockIoError>)
    ensures
        r == (if dma_len < MAX_TRANSFER_SIZE {
            Err(UnifiedBlockIoError::BufferAlignment)
        } else if !device_ready {
            Err(UnifiedBlockIoError::DeviceNotReady)
        } else {
            Ok(())
        }),
{
    if dma_len < MAX_TRANSFER_SIZE {
        return Err(UnifiedBlockIoError::BufferAlignment);
    }
    if !device_ready {
        return Err(UnifiedBlockIoError::DeviceNotReady);
    }
    Ok(())
}

/// Bytes a request of `num_sectors` sectors moves through the bounce
/// buffer, when they fit in it.
pub fn transfer_bytes(num_sectors: u32, sector_size: u32, dma_len: usize) -> (r: Option<usize>)
    requires
        num_sectors * sector_size <= usize::MAX,
    ensures
        r == (if num_sectors * sector_size > dma_len { None } else { Some((num_sectors * sector_size) as usize) }),
{
    let bytes = num_sectors as usize * sector_size as usize;
    if bytes > dma_len {
        None
    } else {
        Some(bytes)
    }
}

/// Request ID for the next request, and the counter after it (wrapping).
pub fn take_request_id(next: u32) -> (r: (u32, u32))
    ensures
        r.0 == next,
        r.1 == next.wrapping_add(1),
{
    (next, next.wrapping_add(1))
}

/// How one poll of the wait for request `request_id` ends: its completion
/// finishes the wait (status 0 is success, any other an I/O error); another
/// request's completion or none keeps waiting, until more than `timeout`
/// ticks have passed.
pub fn completion_step(c: Option<BlockCompletion>, request_id: u32, elapsed: u64, timeout: u64) -> (r: Option<Result<(), BlockError>>)
    ensures
        (c matches Some(x) && x.request_id == request_id) ==> r == Some(
            if c->0.status == 0 { Ok::<(), BlockError>(()) } else { Err::<(), BlockError>(BlockError::IoError) },
        ),
        !(c matches Some(x) && x.request_id == request_id) ==> r == (if elapsed > timeout {
            Some(Err::<(), BlockError>(BlockError::Timeout))
        } else {
            None
        }),
{
    if let Some(x) = c {
        if x.request_id == request_id {
            if x.status == 0 {
                return Some(Ok(()));
            } else {
                return Some(Err(BlockError::IoError));
            }
        }
    }
    if elapsed > timeout {
        Some(Err(BlockError::Timeout))
    } else {
        None
    }
}

/// One request of a transfer: `sectors` sectors from `sector`, at `offset`
/// in the caller's buffer, `bytes` long.
#[derive(Debug, Clone, Copy, PartialEq, Eq, Structural)]
pub struct Chunk {
    pub sector: u64,
    pub sectors: u32,
    pub offset: usize,
    pub bytes: usize,
}

/// The requests of a transfer of `remaining` sectors from `sector` at
/// `offset`: as many sectors as one request takes (`max`), the rest in the
/// next.
pub open spec fn chunks_from(sector: int, remaining: int, max: int, offset: int, ss: int) -> Seq<Chunk>
    decreases remaining,
{
    if remaining <= 0 || max <= 0 {
        Seq::empty()
    } else {
        let c = if remaining < max { remaining } else { max };
        seq![Chunk { sector: sector as u64, sectors: c as u32, offset: offset as usize, bytes: (c * ss) as usize }]
            + chunks_from(sector + c, remaining - c, max, offset + c * ss, ss)
    }
}

/// Sectors in a buffer of `len` bytes, as a 32-bit count.
pub open spec fn sector_count(len: int, ss: int) -> int {
    ((len / ss) as u32) as int
}

/// The requests that read or write a buffer of `len` bytes at `start_lba`:
/// `None` when the buffer is not a whole number of sectors.
pub open spec fn transfer_plan(start_lba: u64, len: usize, sector_size: u32) -> Option<Seq<Chunk>> {
    if (len as int) % (sector_size as int) != 0 {
        None
    } else {
        Some(
            chunks_from(
                start_lba as int,
                sector_count(len as int, sector_size as int),
                (MAX_TRANSFER_SIZE as int) / (sector_size as int),
                0,
                sector_size as int,
            ),
        )
    }
}

/// Cut a transfer of a `len`-byte buffer at `start_lba` into requests of at
/// most `MAX_TRANSFER_SIZE` bytes.
pub fn chunk_plan(start_lba: u64, len: usize, sector_size: u32) -> (r: Option<Vec<Chunk>>)
    requires
        0 < sector_size <= MAX_TRANSFER_SIZE,
        start_lba + sector_count(len as int, sector_size as int) <= u64::MAX,
    ensures
        r matches Some(v) ==> transfer_plan(start_lba, len, sector_size) == Some(v@),
        r is None ==> transfer_plan(start_lba, len, sector_size) is None,
{
    let ss = sector_size as usize;
    if len % ss != 0 {
        return None;
    }
    let total: u32 = (len / ss) as u32;
    let max: u32 = (MAX_TRANSFER_SIZE / ss) as u32;
    assert(max >= 1) by (nonlinear_arith)
        requires
            0 < ss <= MAX_TRANSFER_SIZE,
            max == MAX_TRANSFER_SIZE / ss,
    ;
    let mut plan: Vec<Chunk> = Vec::new();
    let mut current: u64 = start_lba;
    let mut remaining: u32 = total;
    let mut offset: usize = 0;
    assert(total * ss <= len) by (nonlinear_arith)
        requires
            0 < ss,
            total <= len / ss,
    ;
    while remaining > 0
        invariant
            0 < ss <= MAX_TRANSFER_SIZE,
            max >= 1,
            max == (MAX_TRANSFER_SIZE as int) / (ss as int),
            remaining <= total,
            current + remaining <= u64::MAX,
            offset + remaining * ss <= len,
            plan@ + chunks_from(current as int, remaining as int, max as int, offset as int, ss as int)
                == chunks_from(start_lba as int, total as int, max as int, 0, ss as int),
        decreases remaining,
    {
        let chunk: u32 = if remaining < max { remaining } else { max };
        assert(chunk * ss <= remaining * ss) by (nonlinear_arith)
            requires
                chunk <= remaining,
                0 < ss,
        ;
        let bytes: usize = chunk as usize * ss;
        let ghost before = plan@;
        plan.push(Chunk { sector: current, sectors: chunk, offset, bytes });
        proof {
            let rest = chunks_from(
                current as int + chunk,
                remaining as int - chunk,
                max as int,
                offset as int + chunk * ss,
                ss as int,
            );
            assert(chunks_from(current as int, remaining as int, max as int, offset as int, ss as int)
                == seq![Chunk { sector: current, sectors: chunk, offset, bytes }] + rest);
            assert(plan@ + rest == before + (seq![Chunk { sector: current, sectors: chunk, offset, bytes }] + rest));
            assert((remaining - chunk) * ss == remaining * ss - chunk * ss) by (nonlinear_arith);
        }
        current = current + chunk as u64;
        remaining = remaining - chunk;
        offset = offset + bytes;
    }
    assert(plan@ + Seq::<Chunk>::empty() == plan@);
    Some(plan)
}

/// Sectors taken by a list of requests.
pub open spec fn plan_sectors(cs: Seq<Chunk>) -> int
    decreases cs.len(),
{
    if cs.len() == 0 {
        0
    } else {
        cs[0].sectors + plan_sectors(cs.drop_first())
    }
}

/// A transfer is cut into requests that together take exactly its
/// sectors: the first starts at the transfer's sector and buffer offset,
/// each takes between one and `max` sectors and the bytes they hold, and
/// each starts, on the disk and in the buffer, where the previous ended.
pub proof fn lemma_chunks_cover(sector: int, remaining: int, max: int, offset: int, ss: int)
    requires
        0 <= sector,
        0 <= remaining <= u32::MAX,
        max >= 1,
        ss >= 1,
        0 <= offset,
        sector + remaining <= u64::MAX,
        offset + remaining * ss <= usize::MAX,
    ensures
        ({
            let cs = chunks_from(sector, remaining, max, offset, ss);
            &&& plan_sectors(cs) == remaining
            &&& cs.len() > 0 ==> cs[0].sector == sector && cs[0].offset == offset
            &&& forall|i: int| 0 <= i < cs.len() ==> 1 <= #[trigger] cs[i].sectors <= max && cs[i].bytes
                == cs[i].sectors * ss
            &&& forall|i: int| 0 <= i < cs.len() - 1 ==> #[trigger] cs[i + 1].sector == cs[i].sector
                + cs[i].sectors && cs[i + 1].offset == cs[i].offset + cs[i].bytes
        }),
    decreases remaining,
{
    let cs = chunks_from(sector, remaining, max, offset, ss);
    if remaining > 0 {
        let c = if remaining < max { remaining } else { max };
        assert(c * ss <= remaining * ss) by (nonlinear_arith)
            requires
                c <= remaining,
                ss >= 1,
        ;
        assert((remaining - c) * ss == remaining * ss - c * ss) by (nonlinear_arith);
        let rest = chunks_from(sector + c, remaining - c, max, offset + c * ss, ss);
        lemma_chunks_cover(sector + c, remaining - c, max, offset + c * ss, ss);
        assert(cs == seq![
            Chunk { sector: sector as u64, sectors: c as u32, offset: offset as usize, bytes: (c * ss) as usize },
        ] + rest);
        assert(cs.drop_first() =~= rest);
        assert forall|i: int| 0 <= i < cs.len() implies 1 <= #[trigger] cs[i].sectors <= max && cs[i].bytes
            == cs[i].sectors * ss by {
            if i > 0 {
                assert(cs[i] == rest[i - 1]);
            }
        }
        assert forall|i: int| 0 <= i < cs.len() - 1 implies #[trigger] cs[i + 1].sector == cs[i].sector
            + cs[i].sectors && cs[i + 1].offset == cs[i].offset + cs[i].bytes by {
            assert(cs[i + 1] == rest[i]);
            if i > 0 {
                assert(cs[i] == rest[i - 1]);
            }
        }
    }
}

} // verus!
