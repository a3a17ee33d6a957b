//! SD host controller block driver decisions: configuration checks, the SD
//! card initialization sequence as a state machine, command encoding,
//! status decoding and read bookkeeping.
//!
//! The platform sends each command the machine asks for, polls the
//! controller, and hands back the response.

use super::block_traits::{BlockCompletion, BlockDeviceInfo, BlockDriverInit, BlockError};
use vstd::prelude::*;

verus! {

/// PCI base class / subclass / prog-if for SD Host Controller.
pub const PCI_CLASS_SDHCI: u32 = 0x080501;

pub const REG_ARGUMENT: u64 = 0x08;

pub const REG_COMMAND: u64 = 0x0E;

pub const REG_RESPONSE0: u64 = 0x10;

pub const REG_PRESENT_STATE: u64 = 0x24;

pub const REG_INT_STATUS: u64 = 0x30;

pub const PRESENT_CMD_INHIBIT: u32 = 1;

pub const PRESENT_DAT_INHIBIT: u32 = 2;

pub const INT_CMD_COMPLETE: u32 = 1;

pub const INT_ERROR: u32 = 0x8000;

pub const CMD_RESP_NONE: u16 = 0x00;

pub const CMD_RESP_LONG: u16 = 0x01;

pub const CMD_RESP_SHORT: u16 = 0x02;

pub const CMD_RESP_SHORT_BUSY: u16 = 0x03;

pub const CMD_CRC: u16 = 0x08;

pub const CMD_INDEX: u16 = 0x10;

/// ACMD41 argument: the voltage window the host supports.
pub const ACMD41_OCR: u32 = 0x40FF_8000;

/// OCR bit 30: card capacity status (high capacity) / host capacity support.
pub const OCR_CCS: u32 = 0x4000_0000;

/// OCR bit 31: card power-up finished.
pub const OCR_BUSY: u32 = 0x8000_0000;

/// SDHCI configuration.
#[derive(Debug, Clone)]
pub struct SdhciConfig {
    /// TSC frequency for timeout calculations.
    pub tsc_freq: u64,
    /// Optional DMA bounce buffer base (physical).
    pub dma_phys: u64,
    /// Optional DMA bounce buffer size.
    pub dma_size: usize,
}

/// SDHCI initialization errors.
#[derive(Debug, Clone, Copy, PartialEq, Eq, Structural)]
pub enum SdhciInitError {
    InvalidConfig,
    ControllerResetFailed,
    NoCardPresent,
    VoltageSwitchFailed,
    ClockSetupFailed,
    CommandTimeout,
    DataTimeout,
    IoError,
    NotImplemented,
}

impl SdhciInitError {
    /// Human-readable description.
    pub fn message(&self) -> (r: &'static str)
        ensures
            r@ == match *self {
                SdhciInitError::InvalidConfig => "Invalid SDHCI configuration"@,
                SdhciInitError::ControllerResetFailed => "SDHCI controller reset failed"@,
                SdhciInitError::NoCardPresent => "No SD card present"@,
                SdhciInitError::VoltageSwitchFailed => "SDHCI voltage switch failed"@,
                SdhciInitError::ClockSetupFailed => "SDHCI clock setup failed"@,
                SdhciInitError::CommandTimeout => "SDHCI command timeout"@,
                SdhciInitError::DataTimeout => "SDHCI data timeout"@,
                SdhciInitError::IoError => "SDHCI I/O error"@,
                SdhciInitError::NotImplemented => "SDHCI driver not implemented yet"@,
            },
    {
        match self {
            SdhciInitError::InvalidConfig => "Invalid SDHCI configuration",
            SdhciInitError::ControllerResetFailed => "SDHCI controller reset failed",
            SdhciInitError::NoCardPresent => "No SD card present",
            SdhciInitError::VoltageSwitchFailed => "SDHCI voltage switch failed",
            SdhciInitError::ClockSetupFailed => "SDHCI clock setup failed",
            SdhciInitError::CommandTimeout => "SDHCI command timeout",
            SdhciInitError::DataTimeout => "SDHCI data timeout",
            SdhciInitError::IoError => "SDHCI I/O error",
            SdhciInitError::NotImplemented => "SDHCI driver not implemented yet",
        }
    }
}

/// A controller needs a register base and a TSC frequency.
pub fn check_config(mmio_base: u64, config: &SdhciConfig) -> (r: Result<(), SdhciInitError>)
    ensures
        r == (if mmio_base == 0 || config.tsc_freq == 0 {
            Err(SdhciInitError::InvalidConfig)
        } else {
            Ok(())
        }),
{
    if mmio_base == 0 || config.tsc_freq == 0 {
        Err(SdhciInitError::InvalidConfig)
    } else {
        Ok(())
    }
}

/// Controller bring-up stages, each done by one platform primitive.
#[derive(Debug, Clone, Copy, PartialEq, Eq, Structural)]
pub enum BringUpStage {
    /// Software reset; returns 0 on success.
    Reset,
    /// Bus power and SD clock; returns 0 on success.
    PowerClock,
    /// Card detect; returns nonzero when a card is inserted.
    CardPresent,
}

/// The error a bring-up stage reports for the primitive's return value.
pub fn bring_up_error(stage: BringUpStage, rc: u32) -> (r: Option<SdhciInitError>)
    ensures
        r == match stage {
            BringUpStage::Reset => if rc != 0 { Some(SdhciInitError::ControllerResetFailed) } else { None },
            BringUpStage::PowerClock => if rc != 0 { Some(SdhciInitError::ClockSetupFailed) } else { None },
            BringUpStage::CardPresent => if rc == 0 { Some(SdhciInitError::NoCardPresent) } else { None },
        },
{
    match stage {
        BringUpStage::Reset => if rc != 0 { Some(SdhciInitError::ControllerResetFailed) } else { None },
        BringUpStage::PowerClock => if rc != 0 { Some(SdhciInitError::ClockSetupFailed) } else { None },
        BringUpStage::CardPresent => if rc == 0 { Some(SdhciInitError::NoCardPresent) } else { None },
    }
}

/// TSC ticks in `ms` milliseconds, saturating.
pub fn timeout_ticks(tsc_freq: u64, ms: u64) -> (r: u64)
    ensures
        r == (if tsc_freq * ms <= u64::MAX { tsc_freq * ms } else { u64::MAX as int }) / 1000,
{
    match tsc_freq.checked_mul(ms) {
        Some(t) => t / 1000,
        None => u64::MAX / 1000,
    }
}

/// The command register value: command index in the high byte, response
/// and check flags in the low byte.
pub fn command_word(index: u8, flags: u16) -> (r: u16)
    requires
        flags < 0x100,
    ensures
        r == index * 0x100 + flags,
{
    let i = index as u16;
    let r = (i << 8) | flags;
    assert(r == i * 0x100 + flags) by (bit_vector)
        requires
            i < 0x100,
            flags < 0x100,
            r == (i << 8) | flags,
    ;
    r
}

/// The controller takes a command once neither the command nor the data
/// line is inhibited.
pub fn cmd_ready(present_state: u32) -> (r: bool)
    ensures
        r == (present_state & (PRESENT_CMD_INHIBIT | PRESENT_DAT_INHIBIT) == 0),
{
    present_state & (PRESENT_CMD_INHIBIT | PRESENT_DAT_INHIBIT) == 0
}

/// One poll of the interrupt status after a command: an error interrupt
/// fails it, command-complete finishes it, else keep waiting.
pub fn poll_command(int_status: u32) -> (r: Option<Result<(), SdhciInitError>>)
    ensures
        int_status & INT_ERROR != 0 ==> r == Some(Err::<(), SdhciInitError>(SdhciInitError::IoError)),
        int_status & INT_ERROR == 0 && int_status & INT_CMD_COMPLETE != 0 ==> r == Some(
            Ok::<(), SdhciInitError>(()),
        ),
        int_status & INT_ERROR == 0 && int_status & INT_CMD_COMPLETE == 0 ==> r is None,
{
    if int_status & INT_ERROR != 0 {
        Some(Err(SdhciInitError::IoError))
    } else if int_status & INT_CMD_COMPLETE != 0 {
        Some(Ok(()))
    } else {
        None
    }
}

/// One SD command: index, argument, response flags and timeout.
#[derive(Debug, Clone, Copy, PartialEq, Eq, Structural)]
pub struct SdCommand {
    pub index: u8,
    pub arg: u32,
    pub flags: u16,
    pub timeout_ms: u64,
}

/// Steps of the SD card initialization sequence.
#[derive(Debug, Clone, Copy, PartialEq, Eq, Structural)]
pub enum CardInitPhase {
    /// CMD0: go idle.
    GoIdle,
    /// CMD8: interface condition.
    IfCond,
    /// CMD55: the next command is application-specific.
    AppCmd,
    /// ACMD41: operating condition, repeated until the card is powered up.
    OpCond,
    /// CMD2: card identification.
    AllSendCid,
    /// CMD3: relative card address.
    SendRca,
    /// CMD7: select the card.
    Select,
    /// CMD16: 512-byte blocks (standard-capacity cards only).
    SetBlockLen,
    /// The card is ready.
    Ready,
    /// The sequence failed.
    Failed(SdhciInitError),
}

/// The SD card initialization sequence.
#[derive(Debug, Clone, Copy, PartialEq, Eq, Structural)]
pub struct CardInit {
    pub phase: CardInitPhase,
    /// The card answered CMD8 with the check pattern (SD 2.0 or later).
    pub supports_v2: bool,
    /// The card reported high capacity in its OCR.
    pub high_capacity: bool,
    /// The card's relative address.
    pub rca: u16,
}

/// The command each phase sends; none once the sequence is over.
pub open spec fn phase_command(c: CardInit) -> Option<SdCommand> {
    match c.phase {
        CardInitPhase::GoIdle => Some(SdCommand { index: 0, arg: 0, flags: CMD_RESP_NONE, timeout_ms: 100 }),
        CardInitPhase::IfCond => Some(
            SdCommand { index: 8, arg: 0x1AA, flags: CMD_RESP_SHORT | CMD_CRC | CMD_INDEX, timeout_ms: 100 },
        ),
        CardInitPhase::AppCmd => Some(
            SdCommand { index: 55, arg: 0, flags: CMD_RESP_SHORT | CMD_CRC | CMD_INDEX, timeout_ms: 100 },
        ),
        CardInitPhase::OpCond => Some(
            SdCommand {
                index: 41,
                arg: ACMD41_OCR | (if c.supports_v2 { OCR_CCS } else { 0u32 }),
                flags: CMD_RESP_SHORT,
                timeout_ms: 100,
            },
        ),
        CardInitPhase::AllSendCid => Some(
            SdCommand { index: 2, arg: 0, flags: CMD_RESP_LONG | CMD_CRC, timeout_ms: 200 },
        ),
        CardInitPhase::SendRca => Some(
            SdCommand { index: 3, arg: 0, flags: CMD_RESP_SHORT | CMD_CRC | CMD_INDEX, timeout_ms: 200 },
        ),
        CardInitPhase::Select => Some(
            SdCommand {
                index: 7,
                arg: (c.rca * 0x1_0000) as u32,
                flags: CMD_RESP_SHORT_BUSY | CMD_CRC | CMD_INDEX,
                timeout_ms: 200,
            },
        ),
        CardInitPhase::SetBlockLen => Some(
            SdCommand { index: 16, arg: 512, flags: CMD_RESP_SHORT | CMD_CRC | CMD_INDEX, timeout_ms: 100 },
        ),
        _ => None,
    }
}

/// How the sequence moves on a command's response. CMD8 may fail (an older
/// card); every other failure ends the sequence with that error. ACMD41 is
/// repeated (after CMD55) until the card reports power-up, or fails with a
/// timeout once the 2 s budget is spent.
pub open spec fn phase_next(c: CardInit, resp: Result<u32, SdhciInitError>, timed_out: bool) -> CardInit {
    match c.phase {
        CardInitPhase::IfCond => CardInit {
            phase: CardInitPhase::AppCmd,
            supports_v2: match resp {
                Ok(r7) => r7 & 0xFFF == 0x1AA,
                Err(_) => false,
            },
            ..c
        },
        CardInitPhase::Ready => c,
        CardInitPhase::Failed(_) => c,
        _ => match resp {
            Err(e) => CardInit { phase: CardInitPhase::Failed(e), ..c },
            Ok(v) => match c.phase {
                CardInitPhase::GoIdle => CardInit { phase: CardInitPhase::IfCond, ..c },
                CardInitPhase::AppCmd => CardInit { phase: CardInitPhase::OpCond, ..c },
                CardInitPhase::OpCond => if v & OCR_BUSY != 0 {
                    CardInit { phase: CardInitPhase::AllSendCid, high_capacity: v & OCR_CCS != 0, ..c }
                } else if timed_out {
                    CardInit { phase: CardInitPhase::Failed(SdhciInitError::CommandTimeout), ..c }
                } else {
                    CardInit { phase: CardInitPhase::AppCmd, ..c }
                },
                CardInitPhase::AllSendCid => CardInit { phase: CardInitPhase::SendRca, ..c },
                CardInitPhase::SendRca => if (v >> 16) as u16 == 0 {
                    CardInit { phase: CardInitPhase::Failed(SdhciInitError::IoError), rca: 0, ..c }
                } else {
                    CardInit { phase: CardInitPhase::Select, rca: (v >> 16) as u16, ..c }
                },
                CardInitPhase::Select => if c.high_capacity {
                    CardInit { phase: CardInitPhase::Ready, ..c }
                } else {
                    CardInit { phase: CardInitPhase::SetBlockLen, ..c }
                },
                _ => CardInit { phase: CardInitPhase::Ready, ..c },
            },
        },
    }
}

impl CardInit {
    /// A fresh sequence, starting with CMD0. A card counts as high capacity
    /// until its OCR says otherwise.
    pub fn new() -> (r: Self)
        ensures
            r == (CardInit { phase: CardInitPhase::GoIdle, supports_v2: false, high_capacity: true, rca: 0 }),
    {
        CardInit { phase: CardInitPhase::GoIdle, supports_v2: false, high_capacity: true, rca: 0 }
    }

    /// The command to send now, or `None` when the sequence is over.
    pub fn command(&self) -> (r: Option<SdCommand>)
        ensures
            r == phase_command(*self),
    {
        let std_flags = CMD_RESP_SHORT | CMD_CRC | CMD_INDEX;
        match self.phase {
            CardInitPhase::GoIdle => Some(SdCommand { index: 0, arg: 0, flags: CMD_RESP_NONE, timeout_ms: 100 }),
            CardInitPhase::IfCond => Some(SdCommand { index: 8, arg: 0x1AA, flags: std_flags, timeout_ms: 100 }),
            CardInitPhase::AppCmd => Some(SdCommand { index: 55, arg: 0, flags: std_flags, timeout_ms: 100 }),
            CardInitPhase::OpCond => {
                let hcs: u32 = if self.supports_v2 { OCR_CCS } else { 0 };
                Some(SdCommand { index: 41, arg: ACMD41_OCR | hcs, flags: CMD_RESP_SHORT, timeout_ms: 100 })
            },
            CardInitPhase::AllSendCid => Some(
                SdCommand { index: 2, arg: 0, flags: CMD_RESP_LONG | CMD_CRC, timeout_ms: 200 },
            ),
            CardInitPhase::SendRca => Some(SdCommand { index: 3, arg: 0, flags: std_flags, timeout_ms: 200 }),
            CardInitPhase::Select => Some(
                SdCommand {
                    index: 7,
                    arg: self.rca as u32 * 0x1_0000,
                    flags: CMD_RESP_SHORT_BUSY | CMD_CRC | CMD_INDEX,
                    timeout_ms: 200,
                },
            ),
            CardInitPhase::SetBlockLen => Some(SdCommand { index: 16, arg: 512, flags: std_flags, timeout_ms: 100 }),
            CardInitPhase::Ready => None,
            CardInitPhase::Failed(_) => None,
        }
    }

    /// Take the response to the command just sent. `timed_out` tells
    /// whether the power-up budget of ACMD41 is spent.
    pub fn on_response(&mut self, resp: Result<u32, SdhciInitError>, timed_out: bool)
        ensures
            *final(self) == phase_next(*old(self), resp, timed_out),
    {
        match self.phase {
            CardInitPhase::IfCond => {
                self.supports_v2 = match resp {
                    Ok(r7) => r7 & 0xFFF == 0x1AA,
                    Err(_) => false,
                };
                self.phase = CardInitPhase::AppCmd;
            },
            CardInitPhase::Ready => {},
            CardInitPhase::Failed(_) => {},
            _ => match resp {
                Err(e) => {
                    self.phase = CardInitPhase::Failed(e);
                },
                Ok(v) => match self.phase {
                    CardInitPhase::GoIdle => {
                        self.phase = CardInitPhase::IfCond;
                    },
                    CardInitPhase::AppCmd => {
                        self.phase = CardInitPhase::OpCond;
                    },
                    CardInitPhase::OpCond => {
                        if v & OCR_BUSY != 0 {
                            self.high_capacity = v & OCR_CCS != 0;
                            self.phase = CardInitPhase::AllSendCid;
                        } else if timed_out {
                            self.phase = CardInitPhase::Failed(SdhciInitError::CommandTimeout);
                        } else {
                            self.phase = CardInitPhase::AppCmd;
                        }
                    },
                    CardInitPhase::AllSendCid => {
                        self.phase = CardInitPhase::SendRca;
                    },
                    CardInitPhase::SendRca => {
                        self.rca = (v >> 16) as u16;
                        if self.rca == 0 {
                            self.phase = CardInitPhase::Failed(SdhciInitError::IoError);
                        } else {
                            self.phase = CardInitPhase::Select;
                        }
                    },
                    CardInitPhase::Select => {
                        if self.high_capacity {
                            self.phase = CardInitPhase::Ready;
                        } else {
                            self.phase = CardInitPhase::SetBlockLen;
                        }
                    },
                    _ => {
                        self.phase = CardInitPhase::Ready;
                    },
                },
            },
        }
    }
}

/// Error a PIO block read reports: codes 1 to 4 are timeouts, any other
/// nonzero code an I/O error.
pub fn pio_error(rc: u32) -> (r: BlockError)
    requires
        rc != 0,
    ensures
        r == if 1 <= rc <= 4 { BlockError::Timeout } else { BlockError::IoError },
{
    if 1 <= rc && rc <= 4 {
        BlockError::Timeout
    } else {
        BlockError::IoError
    }
}

/// Geometry the driver announces: 512-byte sectors, up to 128 per request,
/// read-only, capacity taken as the 32-bit sector range.
pub open spec fn sdhci_info() -> BlockDeviceInfo {
    BlockDeviceInfo {
        total_sectors: 0xFFFF_FFFF,
        sector_size: 512,
        max_sectors_per_request: 128,
        read_only: true,
    }
}

/// SDHCI driver state.
pub struct SdhciDriver {
    mmio_base: u64,
    tsc_freq: u64,
    caps: u32,
    info: BlockDeviceInfo,
    high_capacity: bool,
    rca: u16,
    last_completion: Option<BlockCompletion>,
}

impl SdhciDriver {
    /// The geometry never changes.
    pub closed spec fn wf(&self) -> bool {
        self.info == sdhci_info()
    }

    pub closed spec fn spec_pending(&self) -> Option<BlockCompletion> {
        self.last_completion
    }

    pub closed spec fn spec_high_capacity(&self) -> bool {
        self.high_capacity
    }

    pub closed spec fn spec_rca(&self) -> u16 {
        self.rca
    }

    pub closed spec fn spec_mmio_base(&self) -> u64 {
        self.mmio_base
    }

    pub closed spec fn spec_tsc_freq(&self) -> u64 {
        self.tsc_freq
    }

    /// A driver for a controller that came up with a card in it, before the
    /// card sequence.
    pub fn new(mmio_base: u64, config: &SdhciConfig, caps: u32) -> (r: Self)
        ensures
            r.wf(),
            r.spec_mmio_base() == mmio_base,
            r.spec_tsc_freq() == config.tsc_freq,
            r.spec_high_capacity(),
            r.spec_rca() == 0,
            r.spec_pending() is None,
    {
        SdhciDriver {
            mmio_base,
            tsc_freq: config.tsc_freq,
            caps,
            info: BlockDeviceInfo {
                total_sectors: 0xFFFF_FFFF,
                sector_size: 512,
                max_sectors_per_request: 128,
                read_only: true,
            },
            high_capacity: true,
            rca: 0,
            last_completion: None,
        }
    }

    /// Take the outcome of the card sequence: the card's capacity class and
    /// address when it is ready, else its error.
    pub fn finish_init(&mut self, card: &CardInit) -> (r: Result<(), SdhciInitError>)
        ensures
            final(self).wf() == old(self).wf(),
            final(self).spec_pending() == old(self).spec_pending(),
            final(self).spec_high_capacity() == card.high_capacity,
            final(self).spec_rca() == card.rca,
            r == match card.phase {
                CardInitPhase::Ready => Ok(()),
                CardInitPhase::Failed(e) => Err(e),
                _ => Err(SdhciInitError::NotImplemented),
            },
    {
        self.high_capacity = card.high_capacity;
        self.rca = card.rca;
        match card.phase {
            CardInitPhase::Ready => Ok(()),
            CardInitPhase::Failed(e) => Err(e),
            _ => Err(SdhciInitError::NotImplemented),
        }
    }

    /// TSC frequency.
    pub fn tsc_freq(&self) -> (r: u64)
        ensures
            r == self.spec_tsc_freq(),
    {
        self.tsc_freq
    }

    /// Device information.
    pub fn info(&self) -> (r: BlockDeviceInfo)
        requires
            self.wf(),
        ensures
            r == sdhci_info(),
    {
        self.info
    }

    /// A new request can be taken while no completion is waiting.
    pub fn can_submit(&self) -> (r: bool)
        ensures
            r == self.spec_pending() is None,
    {
        self.last_completion.is_none()
    }

    /// Check a read of `num_sectors` at `sector` into `buffer_phys`.
    pub fn begin_read(&self, sector: u64, buffer_phys: u64, num_sectors: u32) -> (r: Result<(), BlockError>)
        requires
            self.wf(),
        ensures
            self.spec_pending() is Some ==> r == Err::<(), BlockError>(BlockError::QueueFull),
            self.spec_pending() is None && (num_sectors == 0 || num_sectors > 128) ==> r == Err::<(), BlockError>(
                BlockError::RequestTooLarge,
            ),
            self.spec_pending() is None && !(num_sectors == 0 || num_sectors > 128) && (buffer_phys == 0
                || sector + num_sectors > 0xFFFF_FFFF) ==> r == Err::<(), BlockError>(BlockError::InvalidSector),
            self.spec_pending() is None && !(num_sectors == 0 || num_sectors > 128) && !(buffer_phys == 0
                || sector + num_sectors > 0xFFFF_FFFF) ==> r is Ok,
    {
        if self.last_completion.is_some() {
            return Err(BlockError::QueueFull);
        }
        if num_sectors == 0 || num_sectors > self.info.max_sectors_per_request {
            return Err(BlockError::RequestTooLarge);
        }
        if buffer_phys == 0 {
            return Err(BlockError::InvalidSector);
        }
        let end = match sector.checked_add(num_sectors as u64) {
            Some(e) => e,
            None => return Err(BlockError::InvalidSector),
        };
        if end > self.info.total_sectors {
            return Err(BlockError::InvalidSector);
        }
        Ok(())
    }

    /// Argument and destination of block `i` of a read starting at `sector`
    /// into `buffer_phys`: high-capacity cards are addressed by block, the
    /// others by byte.
    pub fn pio_block(&self, sector: u64, buffer_phys: u64, i: u32) -> (r: Result<(u64, u64), BlockError>)
        requires
            self.wf(),
            sector + i <= u64::MAX,
        ensures
            self.spec_high_capacity() ==> r == Ok::<(u64, u64), BlockError>(
                ((sector + i) as u64, ((buffer_phys + i * 512) % 0x1_0000_0000_0000_0000) as u64),
            ),
            !self.spec_high_capacity() && (sector + i) * 512 > u64::MAX ==> r == Err::<(u64, u64), BlockError>(
                BlockError::InvalidSector,
            ),
            !self.spec_high_capacity() && (sector + i) * 512 <= u64::MAX ==> r == Ok::<(u64, u64), BlockError>(
                (((sector + i) * 512) as u64, ((buffer_phys + i * 512) % 0x1_0000_0000_0000_0000) as u64),
            ),
    {
        let s = sector + i as u64;
        let off = i as u64 * 512;
        let dst = buffer_phys.wrapping_add(off);
        assert(dst == (buffer_phys + i * 512) % 0x1_0000_0000_0000_0000);
        if self.high_capacity {
            Ok((s, dst))
        } else {
            match s.checked_mul(self.info.sector_size as u64) {
                Some(a) => Ok((a, dst)),
                None => Err(BlockError::InvalidSector),
            }
        }
    }

    /// Record a finished read of `num_sectors` sectors for `request_id`.
    pub fn finish_read(&mut self, request_id: u32, num_sectors: u32)
        requires
            old(self).wf(),
            num_sectors <= 128,
        ensures
            final(self).wf(),
            final(self).spec_pending() == Some(
                BlockCompletion { request_id, status: 0, bytes_transferred: (num_sectors * 512) as u32 },
            ),
            final(self).spec_high_capacity() == old(self).spec_high_capacity(),
    {
        self.last_completion = Some(
            BlockCompletion { request_id, status: 0, bytes_transferred: num_sectors * self.info.sector_size },
        );
    }

    /// The device is read-only.
    pub fn submit_write(&mut self, sector: u64, buffer_phys: u64, num_sectors: u32, request_id: u32) -> (r: Result<(), BlockError>)
        ensures
            r == Err::<(), BlockError>(BlockError::Unsupported),
    {
        Err(BlockError::Unsupported)
    }

    /// Hand out the waiting completion, if any.
    pub fn poll_completion(&mut self) -> (r: Option<BlockCompletion>)
        ensures
            r == old(self).spec_pending(),
            final(self).spec_pending() is None,
            final(self).wf() == old(self).wf(),
            final(self).spec_high_capacity() == old(self).spec_high_capacity(),
    {
        let r = self.last_completion;
        self.last_completion = None;
        r
    }
}

impl BlockDriverInit for SdhciDriver {
    open spec fn vendor_ids() -> Seq<u16> {
        Seq::empty()
    }

    open spec fn device_ids() -> Seq<u16> {
        Seq::empty()
    }

    fn supported_vendors() -> (r: &'static [u16]) {
        let r: &'static [u16] = &[];
        assert(r@ =~= Seq::<u16>::empty());
        r
    }

    fn supported_devices() -> (r: &'static [u16]) {
        let r: &'static [u16] = &[];
        assert(r@ =~= Seq::<u16>::empty());
        r
    }
}

/// What holds of the card sequence at every step: once the card has an
/// address (from Select on) the address is nonzero, and the block length
/// is only set for standard-capacity cards.
pub open spec fn card_init_inv(c: CardInit) -> bool {
    &&& (c.phase == CardInitPhase::Select || c.phase == CardInitPhase::SetBlockLen || c.phase
        == CardInitPhase::Ready) ==> c.rca != 0
    &&& c.phase == CardInitPhase::SetBlockLen ==> !c.high_capacity
}

/// The card sequence starts in a state that satisfies its invariant, and
/// every response keeps it: a card is never selected or used at address 0,
/// and only a standard-capacity card gets CMD16.
pub proof fn lemma_card_init_inv(c: CardInit, resp: Result<u32, SdhciInitError>, timed_out: bool)
    ensures
        card_init_inv(CardInit { phase: CardInitPhase::GoIdle, supports_v2: false, high_capacity: true, rca: 0 }),
        card_init_inv(c) ==> card_init_inv(phase_next(c, resp, timed_out)),
{
}

} // verus!
