//! A Bulk-Only Transport command as a state machine.
//!
//! The Command Block Wrapper goes out on the bulk-out endpoint; the data
//! phase, if the command has one, runs on the endpoint of its direction;
//! the Command Status Wrapper comes back on bulk-in. Each transfer is
//! queued, its doorbell rung and its event waited for by the platform,
//! which reports the outcome. The command succeeds when the status wrapper
//! has the right signature and tag and status 0, with the bytes the data
//! phase moved; a failed transfer fails it with that transfer's error.

use super::usb_msd::{
    bot_transferred, build_cbw, cbw_spec, csw_valid, le32_at, TransferRing, UsbMsdInitError, CSW_SIG,
    OFF_CBW, OFF_CSW, OFF_DATA, TRB_IOC, TRB_ISP, TRB_NORMAL,
};
use vstd::prelude::*;

verus! {

/// Length of the Command Block Wrapper.
pub const CBW_LEN: u32 = 31;

/// Length of the Command Status Wrapper.
pub const CSW_LEN: u32 = 13;

/// Time allowed for each wrapper transfer, in milliseconds.
pub const WRAPPER_TIMEOUT_MS: u64 = 5000;

/// Time allowed for the data phase, in milliseconds.
pub const DATA_TIMEOUT_MS: u64 = 10000;

/// Where the command is.
#[derive(Debug, Clone, Copy, PartialEq, Eq, Structural)]
pub enum BotPhase {
    SendCbw,
    WaitCbw,
    SendData,
    WaitData,
    ReceiveCsw,
    WaitCsw,
    CheckCsw,
    /// Succeeded; the bytes the data phase moved.
    Done(u32),
    Failed(UsbMsdInitError),
}

/// What the platform is to do next.
#[derive(Debug, Clone, Copy, PartialEq, Eq, Structural)]
pub enum BotAction {
    /// Queue a transfer of `len` bytes at `offset` in the DMA area on
    /// `ring`, with TRB control bits `flags`, and ring the endpoint's
    /// doorbell (answer: `Queued`). The CBW's bytes (`BotCommand::cbw`) are
    /// written at its offset first; the CSW's 13 bytes are zeroed first.
    Queue { ring: TransferRing, offset: u64, len: u32, flags: u32 },
    /// Wait up to this many milliseconds for the transfer's event (answer:
    /// `Transferred`).
    Wait(u64),
    /// Read the 13 status bytes (answer: `Status`).
    ReadCsw,
    /// Nothing more: the command succeeded or failed.
    Finish,
}

/// What the platform reports back.
#[derive(Debug, Clone, Copy)]
pub enum BotEvent {
    /// The transfer was queued and its doorbell rung.
    Queued,
    /// The transfer completed, leaving this many bytes untransferred, or
    /// failed.
    Transferred(Result<u32, UsbMsdInitError>),
    /// The status wrapper's bytes.
    Status([u8; 13]),
}

/// The command's progress.
#[derive(Debug, Clone, Copy, PartialEq, Eq, Structural)]
pub struct BotState {
    pub phase: BotPhase,
    /// The tag the wrappers carry.
    pub tag: u32,
    /// Bytes of the data phase (0: none).
    pub data_len: u32,
    /// The data phase reads from the device.
    pub data_in: bool,
    /// Bytes the data phase moved.
    pub transferred: u32,
}

/// A normal TRB that interrupts on completion.
pub open spec fn wrapper_flags() -> u32 {
    TRB_NORMAL | TRB_IOC
}

/// The action of each phase.
pub open spec fn bot_action(s: BotState) -> BotAction {
    match s.phase {
        BotPhase::SendCbw => BotAction::Queue {
            ring: TransferRing::BulkOut,
            offset: OFF_CBW,
            len: CBW_LEN,
            flags: wrapper_flags(),
        },
        BotPhase::WaitCbw | BotPhase::WaitCsw => BotAction::Wait(WRAPPER_TIMEOUT_MS),
        BotPhase::SendData => if s.data_in {
            BotAction::Queue {
                ring: TransferRing::BulkIn,
                offset: OFF_DATA,
                len: s.data_len,
                flags: TRB_NORMAL | TRB_IOC | TRB_ISP,
            }
        } else {
            BotAction::Queue { ring: TransferRing::BulkOut, offset: OFF_DATA, len: s.data_len, flags: wrapper_flags() }
        },
        BotPhase::WaitData => BotAction::Wait(DATA_TIMEOUT_MS),
        BotPhase::ReceiveCsw => BotAction::Queue {
            ring: TransferRing::BulkIn,
            offset: OFF_CSW,
            len: CSW_LEN,
            flags: wrapper_flags(),
        },
        BotPhase::CheckCsw => BotAction::ReadCsw,
        BotPhase::Done(_) | BotPhase::Failed(_) => BotAction::Finish,
    }
}

/// A good status wrapper for `tag`: signature, tag, status 0.
pub open spec fn csw_good(csw: Seq<u8>, tag: u32) -> bool {
    le32_at(csw, 0) == CSW_SIG && le32_at(csw, 4) == tag && csw[12] == 0
}

/// How the command moves on an event; an event that does not answer the
/// current action leaves it as it is.
pub open spec fn bot_next(s: BotState, ev: BotEvent) -> BotState {
    match (s.phase, ev) {
        (BotPhase::SendCbw, BotEvent::Queued) => BotState { phase: BotPhase::WaitCbw, ..s },
        (BotPhase::WaitCbw, BotEvent::Transferred(r)) => match r {
            Ok(_) => BotState {
                phase: if s.data_len > 0 { BotPhase::SendData } else { BotPhase::ReceiveCsw },
                ..s
            },
            Err(e) => BotState { phase: BotPhase::Failed(e), ..s },
        },
        (BotPhase::SendData, BotEvent::Queued) => BotState { phase: BotPhase::WaitData, ..s },
        (BotPhase::WaitData, BotEvent::Transferred(r)) => match r {
            Ok(residue) => BotState {
                phase: BotPhase::ReceiveCsw,
                transferred: if residue <= s.data_len { (s.data_len - residue) as u32 } else { 0u32 },
                ..s
            },
            Err(e) => BotState { phase: BotPhase::Failed(e), ..s },
        },
        (BotPhase::ReceiveCsw, BotEvent::Queued) => BotState { phase: BotPhase::WaitCsw, ..s },
        (BotPhase::WaitCsw, BotEvent::Transferred(r)) => match r {
            Ok(_) => BotState { phase: BotPhase::CheckCsw, ..s },
            Err(e) => BotState { phase: BotPhase::Failed(e), ..s },
        },
        (BotPhase::CheckCsw, BotEvent::Status(b)) => if csw_good(b@, s.tag) {
            BotState { phase: BotPhase::Done(s.transferred), ..s }
        } else {
            BotState { phase: BotPhase::Failed(UsbMsdInitError::IoError), ..s }
        },
        _ => s,
    }
}

/// A Bulk-Only Transport command: its progress and its wrapper.
pub struct BotCommand {
    state: BotState,
    cbw: Vec<u8>,
}

impl BotCommand {
    pub closed spec fn spec_state(&self) -> BotState {
        self.state
    }

    /// The command's progress.
    pub fn state(&self) -> (r: BotState)
        ensures
            r == self.spec_state(),
    {
        self.state
    }

    /// The wrapper's bytes.
    pub closed spec fn spec_cbw(&self) -> Seq<u8> {
        self.cbw@
    }

    /// A command carrying SCSI command block `cb`, tagged `tag`, with a data
    /// phase of `data_len` bytes read from (`data_in`) or written to the
    /// device.
    pub fn new(tag: u32, cb: &[u8], data_len: u32, data_in: bool) -> (r: Self)
        ensures
            r.spec_state() == (BotState { phase: BotPhase::SendCbw, tag, data_len, data_in, transferred: 0 }),
            r.spec_cbw() == cbw_spec(tag, data_len, data_in, cb@),
    {
        BotCommand {
            state: BotState { phase: BotPhase::SendCbw, tag, data_len, data_in, transferred: 0 },
            cbw: build_cbw(tag, data_len, data_in, cb),
        }
    }

    /// The Command Block Wrapper, as written to the device.
    pub fn cbw(&self) -> (r: &[u8])
        ensures
            r@ == self.spec_cbw(),
    {
        self.cbw.as_slice()
    }

    /// The action of the current phase.
    pub fn action(&self) -> (r: BotAction)
        ensures
            r == bot_action(self.spec_state()),
    {
        let s = self.state;
        match s.phase {
            BotPhase::SendCbw => BotAction::Queue {
                ring: TransferRing::BulkOut,
                offset: OFF_CBW,
                len: CBW_LEN,
                flags: TRB_NORMAL | TRB_IOC,
            },
            BotPhase::WaitCbw | BotPhase::WaitCsw => BotAction::Wait(WRAPPER_TIMEOUT_MS),
            BotPhase::SendData => if s.data_in {
                BotAction::Queue {
                    ring: TransferRing::BulkIn,
                    offset: OFF_DATA,
                    len: s.data_len,
                    flags: TRB_NORMAL | TRB_IOC | TRB_ISP,
                }
            } else {
                BotAction::Queue {
                    ring: TransferRing::BulkOut,
                    offset: OFF_DATA,
                    len: s.data_len,
                    flags: TRB_NORMAL | TRB_IOC,
                }
            },
            BotPhase::WaitData => BotAction::Wait(DATA_TIMEOUT_MS),
            BotPhase::ReceiveCsw => BotAction::Queue {
                ring: TransferRing::BulkIn,
                offset: OFF_CSW,
                len: CSW_LEN,
                flags: TRB_NORMAL | TRB_IOC,
            },
            BotPhase::CheckCsw => BotAction::ReadCsw,
            BotPhase::Done(_) | BotPhase::Failed(_) => BotAction::Finish,
        }
    }

    /// Take the platform's report of the last action.
    pub fn on_event(&mut self, ev: BotEvent)
        ensures
            final(self).spec_state() == bot_next(old(self).spec_state(), ev),
            final(self).spec_cbw() == old(self).spec_cbw(),
    {
        let s = self.state;
        match (s.phase, ev) {
            (BotPhase::SendCbw, BotEvent::Queued) => {
                self.state.phase = BotPhase::WaitCbw;
            },
            (BotPhase::WaitCbw, BotEvent::Transferred(r)) => {
                self.state.phase = match r {
                    Ok(_) => if s.data_len > 0 {
                        BotPhase::SendData
                    } else {
                        BotPhase::ReceiveCsw
                    },
                    Err(e) => BotPhase::Failed(e),
                };
            },
            (BotPhase::SendData, BotEvent::Queued) => {
                self.state.phase = BotPhase::WaitData;
            },
            (BotPhase::WaitData, BotEvent::Transferred(r)) => match r {
                Ok(residue) => {
                    self.state.transferred = bot_transferred(s.data_len, residue);
                    self.state.phase = BotPhase::ReceiveCsw;
                },
                Err(e) => {
                    self.state.phase = BotPhase::Failed(e);
                },
            },
            (BotPhase::ReceiveCsw, BotEvent::Queued) => {
                self.state.phase = BotPhase::WaitCsw;
            },
            (BotPhase::WaitCsw, BotEvent::Transferred(r)) => {
                self.state.phase = match r {
                    Ok(_) => BotPhase::CheckCsw,
                    Err(e) => BotPhase::Failed(e),
                };
            },
            (BotPhase::CheckCsw, BotEvent::Status(b)) => {
                self.state.phase = if csw_valid(b.as_slice(), s.tag) {
                    BotPhase::Done(s.transferred)
                } else {
                    BotPhase::Failed(UsbMsdInitError::IoError)
                };
            },
            _ => {},
        }
    }

    /// How the command ended: the bytes its data phase moved, or the error;
    /// `None` while it is under way.
    pub fn outcome(&self) -> (r: Option<Result<u32, UsbMsdInitError>>)
        ensures
            r == (match self.spec_state().phase {
                BotPhase::Done(n) => Some(Ok::<u32, UsbMsdInitError>(n)),
                BotPhase::Failed(e) => Some(Err::<u32, UsbMsdInitError>(e)),
                _ => None,
            }),
    {
        match self.state.phase {
            BotPhase::Done(n) => Some(Ok(n)),
            BotPhase::Failed(e) => Some(Err(e)),
            _ => None,
        }
    }
}

/// The command's invariant: the data phase never counts more bytes than
/// it asked for, and a command that succeeded reports what it counted.
pub open spec fn bot_inv(s: BotState) -> bool {
    &&& s.transferred <= s.data_len
    &&& (s.phase matches BotPhase::Done(n) ==> n == s.transferred)
}

/// Whatever the device reports, a command keeps its invariant from its
/// start on; in particular a command that succeeds has moved at most the
/// bytes it asked for, and it succeeds only on a good status wrapper, the
/// last step.
pub proof fn lemma_bot_inv(s: BotState, ev: BotEvent)
    ensures
        bot_inv(BotState { phase: BotPhase::SendCbw, transferred: 0, ..s }),
        bot_inv(s) ==> bot_inv(bot_next(s, ev)),
        (!(s.phase matches BotPhase::Done(_)) && (bot_next(s, ev).phase matches BotPhase::Done(_))) ==> (
        s.phase == BotPhase::CheckCsw && (ev matches BotEvent::Status(b) && csw_good(b@, s.tag))),
{
}

} // verus!
