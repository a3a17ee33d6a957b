//! GPT preparation state: before downloading, claim disk space for the
//! ISO — the requested range if it is free, else the first free region,
//! aligned to 1 MiB, if it is large enough.

use vstd::prelude::*;

verus! {

/// Size assumed for the download when none is expected: 8 GiB.
pub const DEFAULT_ISO_SIZE: u64 = 8 * 1024 * 1024 * 1024;

/// Partition alignment in sectors (1 MiB).
pub const ALIGN_SECTORS: u64 = 2048;

/// Sectors (of 512 bytes) to reserve for a download of `expected_size`
/// bytes, or of the default size when none is expected.
pub open spec fn sectors_for(expected_size: u64) -> int {
    let size = if expected_size > 0 {
        expected_size as int
    } else {
        DEFAULT_ISO_SIZE as int
    };
    (size + 511) / 512
}

/// Sectors to reserve for a download; see `sectors_for`.
pub fn sectors_needed(expected_size: u64) -> (r: u64)
    requires
        expected_size + 511 <= u64::MAX,
    ensures
        r == sectors_for(expected_size),
        r >= 1,
{
    let size = if expected_size > 0 {
        expected_size
    } else {
        DEFAULT_ISO_SIZE
    };
    (size + 511) / 512
}

/// Last sector of the requested range starting at `start`.
pub fn requested_end(start: u64, sectors: u64) -> (r: u64)
    requires
        sectors >= 1,
        start + sectors - 1 <= u64::MAX,
    ensures
        r == start + sectors - 1,
{
    start + (sectors - 1)
}

/// `x` rounded up to a multiple of `ALIGN_SECTORS`.
pub open spec fn align_up(x: int) -> int {
    ((x + 2047) / 2048) * 2048
}

/// The range to use when the requested one `[start, end]` overlaps a
/// partition and `[free_start, free_end]` is the first free region: the
/// aligned start of the free region and the requested length, if the free
/// region is at least that long.
pub open spec fn relocated(start: u64, end: u64, free_start: u64, free_end: u64) -> Result<(u64, u64), &'static str> {
    let needed = end - start + 1;
    let free = free_end - free_start + 1;
    if free >= needed {
        Ok((align_up(free_start as int) as u64, (align_up(free_start as int) + needed - 1) as u64))
    } else {
        Err("insufficient free space")
    }
}

/// Relocate the requested range into the free region; see `relocated`.
pub fn relocate(start: u64, end: u64, free_start: u64, free_end: u64) -> (r: Result<(u64, u64), &'static str>)
    requires
        start <= end,
        free_start <= free_end,
        free_end + 2048 + (end - start) <= u64::MAX,
    ensures
        r == relocated(start, end, free_start, free_end),
{
    let free_size = free_end - free_start + 1;
    let needed_size = end - start + 1;
    if free_size >= needed_size {
        proof {
            assert(align_up(free_start as int) <= free_start + 2047) by (nonlinear_arith)
                requires
                    free_start >= 0,
            ;
        }
        let aligned_start = ((free_start + 2047) / 2048) * 2048;
        let aligned_end = aligned_start + needed_size - 1;
        Ok((aligned_start, aligned_end))
    } else {
        Err("insufficient free space")
    }
}

/// What the GPT preparation step decided.
#[derive(Debug, Clone, Copy, PartialEq, Eq, Structural)]
pub enum GptStep {
    /// Nothing to prepare (disk writes off, or no block device).
    Skip,
    /// Check the requested range and create the partition.
    Prepare,
    /// Stay for one more step.
    Wait,
    /// Preparation is over: go to link wait.
    ToLinkWait,
}

/// GPT preparation state.
pub struct GptPrepState {
    started: bool,
    completed: bool,
}

impl GptPrepState {
    pub closed spec fn spec_started(&self) -> bool {
        self.started
    }

    pub closed spec fn spec_completed(&self) -> bool {
        self.completed
    }

    pub fn new() -> (r: Self)
        ensures
            !r.spec_started(),
            !r.spec_completed(),
    {
        GptPrepState { started: false, completed: false }
    }

    /// One step: once done, move on; on the first step, skip when disk
    /// writes are off or there is no block device, else prepare (and the
    /// preparation is then over, whatever its outcome short of a failure).
    pub fn step(&mut self, write_to_disk: bool, has_block_device: bool) -> (r: GptStep)
        ensures
            old(self).spec_completed() ==> r == GptStep::ToLinkWait && *final(self) == *old(self),
            !old(self).spec_completed() && old(self).spec_started() ==> r == GptStep::Wait && *final(self)
                == *old(self),
            !old(self).spec_completed() && !old(self).spec_started() ==> final(self).spec_started()
                && final(self).spec_completed() && r == (if !write_to_disk || !has_block_device {
                GptStep::Skip
            } else {
                GptStep::Prepare
            }),
    {
        if self.completed {
            return GptStep::ToLinkWait;
        }
        if self.started {
            return GptStep::Wait;
        }
        self.started = true;
        self.completed = true;
        if !write_to_disk || !has_block_device {
            GptStep::Skip
        } else {
            GptStep::Prepare
        }
    }
}

impl Default for GptPrepState {
    fn default() -> (r: Self)
        ensures
            !r.spec_started(),
            !r.spec_completed(),
    {
        GptPrepState::new()
    }
}

/// Relocation succeeds exactly when the free region is at least as long as
/// the request. The new range then starts at the first multiple of 2048
/// sectors at or after the free region's start (so within 2047 sectors of
/// it), keeps the requested length, and ends at most 2047 sectors past the
/// free region's end.
pub proof fn lemma_relocated_placement(start: u64, end: u64, free_start: u64, free_end: u64)
    requires
        start <= end,
        free_start <= free_end,
        free_end + 2048 + (end - start) <= u64::MAX,
    ensures
        relocated(start, end, free_start, free_end) is Ok <==> free_end - free_start >= end - start,
        relocated(start, end, free_start, free_end) matches Ok((s, e)) ==> {
            &&& s % 2048 == 0
            &&& free_start <= s < free_start + 2048
            &&& e - s == end - start
            &&& e <= free_end + 2047
        },
{
    let a = align_up(free_start as int);
    assert(free_start <= a < free_start + 2048 && a % 2048 == 0) by (nonlinear_arith)
        requires
            a == ((free_start + 2047) / 2048) * 2048,
            free_start >= 0,
    ;
}

} // verus!
