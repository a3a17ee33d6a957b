//! VirtIO block device initialization as a state machine.
//!
//! A queue size outside 3..=256 is refused before anything is touched. The
//! device is reset (status 0, polled up to a million times, then checked
//! once more: still nonzero fails); ACKNOWLEDGE and DRIVER are set; the
//! device must offer VERSION_1, and the driver takes block size and flush
//! when offered; FEATURES_OK is set and must stick; queue 0 is set up; and
//! DRIVER_OK is set. The capacity is read, and the block size when it was
//! negotiated (else 512). A failure after the device was acknowledged sets
//! its FAILED status first. The platform performs each action and reports
//! what it read.

use super::block_traits::BlockDeviceInfo;
use super::virtio::config::{STATUS_ACKNOWLEDGE, STATUS_DRIVER, STATUS_DRIVER_OK, STATUS_FAILED};
use super::virtio_blk::{
    VirtioBlkConfig, VirtioBlkInitError, DESIRED_FEATURES, REQUIRED_FEATURES, VIRTIO_BLK_F_BLK_SIZE,
    VIRTIO_BLK_F_RO, VIRTIO_STATUS_FEATURES_OK,
};
use vstd::prelude::*;

verus! {

/// Status reads spent waiting for the reset before the last check.
pub const RESET_POLLS: u32 = 1_000_000;

/// Where the initialization is.
#[derive(Debug, Clone, Copy, PartialEq, Eq, Structural)]
pub enum BlkInitPhase {
    Reset,
    /// Status read number `k` while waiting for the reset.
    WaitReset(u32),
    CheckReset,
    Acknowledge,
    Driver,
    ReadFeatures,
    WriteFeatures,
    FeaturesOk,
    CheckStatus,
    SetupQueue,
    DriverOk,
    ReadCapacity,
    ReadBlkSize,
    /// Set FAILED, then fail with the error.
    Rejecting(VirtioBlkInitError),
    Done,
    Failed(VirtioBlkInitError),
}

/// What the platform is to do next.
#[derive(Debug, Clone, Copy, PartialEq, Eq, Structural)]
pub enum BlkInitAction {
    /// Write the device status.
    SetStatus(u8),
    /// Read the device status (answer: `Status`).
    ReadStatus,
    /// Read the device feature bits (answer: `Features`).
    ReadFeatures,
    /// Write the driver feature bits.
    WriteFeatures(u64),
    /// Set up queue 0 with these ring addresses and size (answer:
    /// `Outcome`).
    SetupQueue { desc: u64, avail: u64, used: u64, size: u16 },
    /// Read the capacity in sectors (answer: `Capacity`).
    ReadCapacity,
    /// Read the block size (answer: `BlkSize`).
    ReadBlkSize,
    /// Nothing more: done or failed.
    Finish,
}

/// What the platform reports back.
#[derive(Debug, Clone, Copy, PartialEq, Eq, Structural)]
pub enum BlkInitEvent {
    /// The write was done.
    Done,
    /// The device status.
    Status(u8),
    /// The device feature bits.
    Features(u64),
    /// The routine succeeded (`true`) or not.
    Outcome(bool),
    /// The capacity in sectors.
    Capacity(u64),
    /// The block size.
    BlkSize(u32),
}

/// The initialization's progress.
#[derive(Debug, Clone, Copy, PartialEq, Eq, Structural)]
pub struct BlkInitState {
    pub phase: BlkInitPhase,
    pub config: VirtioBlkConfig,
    /// The device's feature bits and the negotiated ones.
    pub device_features: u64,
    pub features: u64,
    /// The device geometry, once read.
    pub info: BlockDeviceInfo,
}

pub open spec fn ack_driver() -> u8 {
    STATUS_ACKNOWLEDGE | STATUS_DRIVER
}

pub open spec fn ack_driver_features() -> u8 {
    STATUS_ACKNOWLEDGE | STATUS_DRIVER | VIRTIO_STATUS_FEATURES_OK
}

pub open spec fn blk_all_ok() -> u8 {
    STATUS_ACKNOWLEDGE | STATUS_DRIVER | VIRTIO_STATUS_FEATURES_OK | STATUS_DRIVER_OK
}

/// The action of each phase.
pub open spec fn blk_action(s: BlkInitState) -> BlkInitAction {
    match s.phase {
        BlkInitPhase::Reset => BlkInitAction::SetStatus(0),
        BlkInitPhase::WaitReset(_) | BlkInitPhase::CheckReset | BlkInitPhase::CheckStatus => BlkInitAction::ReadStatus,
        BlkInitPhase::Acknowledge => BlkInitAction::SetStatus(STATUS_ACKNOWLEDGE),
        BlkInitPhase::Driver => BlkInitAction::SetStatus(ack_driver()),
        BlkInitPhase::ReadFeatures => BlkInitAction::ReadFeatures,
        BlkInitPhase::WriteFeatures => BlkInitAction::WriteFeatures(s.features),
        BlkInitPhase::FeaturesOk => BlkInitAction::SetStatus(ack_driver_features()),
        BlkInitPhase::SetupQueue => BlkInitAction::SetupQueue {
            desc: s.config.desc_phys,
            avail: s.config.avail_phys,
            used: s.config.used_phys,
            size: s.config.queue_size,
        },
        BlkInitPhase::DriverOk => BlkInitAction::SetStatus(blk_all_ok()),
        BlkInitPhase::ReadCapacity => BlkInitAction::ReadCapacity,
        BlkInitPhase::ReadBlkSize => BlkInitAction::ReadBlkSize,
        BlkInitPhase::Rejecting(_) => BlkInitAction::SetStatus(STATUS_FAILED),
        BlkInitPhase::Done | BlkInitPhase::Failed(_) => BlkInitAction::Finish,
    }
}

pub open spec fn blk_go(s: BlkInitState, p: BlkInitPhase) -> BlkInitState {
    BlkInitState { phase: p, ..s }
}

/// The geometry for capacity `capacity` and sector size `sector_size`.
pub open spec fn blk_info(s: BlkInitState, capacity: u64, sector_size: u32) -> BlockDeviceInfo {
    BlockDeviceInfo {
        total_sectors: capacity,
        sector_size,
        max_sectors_per_request: 128,
        read_only: s.device_features & VIRTIO_BLK_F_RO != 0,
    }
}

/// How the initialization moves on an event; an event that does not answer
/// the current action leaves it as it is.
pub open spec fn blk_next(s: BlkInitState, ev: BlkInitEvent) -> BlkInitState {
    match (s.phase, ev) {
        (BlkInitPhase::Reset, BlkInitEvent::Done) => blk_go(s, BlkInitPhase::WaitReset(0)),
        (BlkInitPhase::WaitReset(k), BlkInitEvent::Status(st)) => if st == 0 || k + 1 >= RESET_POLLS {
            blk_go(s, BlkInitPhase::CheckReset)
        } else {
            blk_go(s, BlkInitPhase::WaitReset((k + 1) as u32))
        },
        (BlkInitPhase::CheckReset, BlkInitEvent::Status(st)) => if st == 0 {
            blk_go(s, BlkInitPhase::Acknowledge)
        } else {
            blk_go(s, BlkInitPhase::Failed(VirtioBlkInitError::ResetFailed))
        },
        (BlkInitPhase::Acknowledge, BlkInitEvent::Done) => blk_go(s, BlkInitPhase::Driver),
        (BlkInitPhase::Driver, BlkInitEvent::Done) => blk_go(s, BlkInitPhase::ReadFeatures),
        (BlkInitPhase::ReadFeatures, BlkInitEvent::Features(dev)) => if dev & REQUIRED_FEATURES != REQUIRED_FEATURES {
            BlkInitState {
                phase: BlkInitPhase::Rejecting(VirtioBlkInitError::FeatureNegotiationFailed),
                device_features: dev,
                ..s
            }
        } else {
            BlkInitState {
                phase: BlkInitPhase::WriteFeatures,
                device_features: dev,
                features: REQUIRED_FEATURES | (DESIRED_FEATURES & dev),
                ..s
            }
        },
        (BlkInitPhase::WriteFeatures, BlkInitEvent::Done) => blk_go(s, BlkInitPhase::FeaturesOk),
        (BlkInitPhase::FeaturesOk, BlkInitEvent::Done) => blk_go(s, BlkInitPhase::CheckStatus),
        (BlkInitPhase::CheckStatus, BlkInitEvent::Status(st)) => if st & VIRTIO_STATUS_FEATURES_OK == 0 {
            blk_go(s, BlkInitPhase::Rejecting(VirtioBlkInitError::FeatureNegotiationFailed))
        } else {
            blk_go(s, BlkInitPhase::SetupQueue)
        },
        (BlkInitPhase::SetupQueue, BlkInitEvent::Outcome(ok)) => if ok {
            blk_go(s, BlkInitPhase::DriverOk)
        } else {
            blk_go(s, BlkInitPhase::Rejecting(VirtioBlkInitError::QueueSetupFailed))
        },
        (BlkInitPhase::DriverOk, BlkInitEvent::Done) => blk_go(s, BlkInitPhase::ReadCapacity),
        (BlkInitPhase::ReadCapacity, BlkInitEvent::Capacity(c)) => if s.features & VIRTIO_BLK_F_BLK_SIZE != 0 {
            BlkInitState { phase: BlkInitPhase::ReadBlkSize, info: blk_info(s, c, 512), ..s }
        } else {
            BlkInitState { phase: BlkInitPhase::Done, info: blk_info(s, c, 512), ..s }
        },
        (BlkInitPhase::ReadBlkSize, BlkInitEvent::BlkSize(b)) => BlkInitState {
            phase: BlkInitPhase::Done,
            info: blk_info(s, s.info.total_sectors, b),
            ..s
        },
        (BlkInitPhase::Rejecting(e), BlkInitEvent::Done) => blk_go(s, BlkInitPhase::Failed(e)),
        _ => s,
    }
}

/// A VirtIO block device initialization.
pub struct BlkInit {
    state: BlkInitState,
}

impl BlkInit {
    pub closed spec fn spec_state(&self) -> BlkInitState {
        self.state
    }

    /// The initialization with `config`; a queue size outside 3..=256 fails
    /// at once.
    pub fn new(config: VirtioBlkConfig) -> (r: Self)
        ensures
            r.spec_state().phase == (if config.queue_size < 3 || config.queue_size > 256 {
                BlkInitPhase::Failed(VirtioBlkInitError::InvalidConfig)
            } else {
                BlkInitPhase::Reset
            }),
            r.spec_state().config == config,
            r.spec_state().features == 0,
    {
        let phase = if config.queue_size < 3 || config.queue_size > 256 {
            BlkInitPhase::Failed(VirtioBlkInitError::InvalidConfig)
        } else {
            BlkInitPhase::Reset
        };
        BlkInit {
            state: BlkInitState {
                phase,
                config,
                device_features: 0,
                features: 0,
                info: BlockDeviceInfo { total_sectors: 0, sector_size: 512, max_sectors_per_request: 128, read_only: false },
            },
        }
    }

    /// The initialization's progress.
    pub fn state(&self) -> (r: BlkInitState)
        ensures
            r == self.spec_state(),
    {
        self.state
    }

    /// The action of the current phase.
    pub fn action(&self) -> (r: BlkInitAction)
        ensures
            r == blk_action(self.spec_state()),
    {
        let s = self.state;
        match s.phase {
            BlkInitPhase::Reset => BlkInitAction::SetStatus(0),
            BlkInitPhase::WaitReset(_) | BlkInitPhase::CheckReset | BlkInitPhase::CheckStatus => BlkInitAction::ReadStatus,
            BlkInitPhase::Acknowledge => BlkInitAction::SetStatus(STATUS_ACKNOWLEDGE),
            BlkInitPhase::Driver => BlkInitAction::SetStatus(STATUS_ACKNOWLEDGE | STATUS_DRIVER),
            BlkInitPhase::ReadFeatures => BlkInitAction::ReadFeatures,
            BlkInitPhase::WriteFeatures => BlkInitAction::WriteFeatures(s.features),
            BlkInitPhase::FeaturesOk => BlkInitAction::SetStatus(
                STATUS_ACKNOWLEDGE | STATUS_DRIVER | VIRTIO_STATUS_FEATURES_OK,
            ),
            BlkInitPhase::SetupQueue => BlkInitAction::SetupQueue {
                desc: s.config.desc_phys,
                avail: s.config.avail_phys,
                used: s.config.used_phys,
                size: s.config.queue_size,
            },
            BlkInitPhase::DriverOk => BlkInitAction::SetStatus(
                STATUS_ACKNOWLEDGE | STATUS_DRIVER | VIRTIO_STATUS_FEATURES_OK | STATUS_DRIVER_OK,
            ),
            BlkInitPhase::ReadCapacity => BlkInitAction::ReadCapacity,
            BlkInitPhase::ReadBlkSize => BlkInitAction::ReadBlkSize,
            BlkInitPhase::Rejecting(_) => BlkInitAction::SetStatus(STATUS_FAILED),
            BlkInitPhase::Done | BlkInitPhase::Failed(_) => BlkInitAction::Finish,
        }
    }

    /// Take the platform's report of the last action.
    pub fn on_event(&mut self, ev: BlkInitEvent)
        ensures
            final(self).spec_state() == blk_next(old(self).spec_state(), ev),
    {
        let s = self.state;
        match (s.phase, ev) {
            (BlkInitPhase::Reset, BlkInitEvent::Done) => {
                self.state.phase = BlkInitPhase::WaitReset(0);
            },
            (BlkInitPhase::WaitReset(k), BlkInitEvent::Status(st)) => {
                self.state.phase = if st == 0 || k >= RESET_POLLS - 1 {
                    BlkInitPhase::CheckReset
                } else {
                    BlkInitPhase::WaitReset(k + 1)
                };
            },
            (BlkInitPhase::CheckReset, BlkInitEvent::Status(st)) => {
                self.state.phase = if st == 0 {
                    BlkInitPhase::Acknowledge
                } else {
                    BlkInitPhase::Failed(VirtioBlkInitError::ResetFailed)
                };
            },
            (BlkInitPhase::Acknowledge, BlkInitEvent::Done) => {
                self.state.phase = BlkInitPhase::Driver;
            },
            (BlkInitPhase::Driver, BlkInitEvent::Done) => {
                self.state.phase = BlkInitPhase::ReadFeatures;
            },
            (BlkInitPhase::ReadFeatures, BlkInitEvent::Features(dev)) => {
                self.state.device_features = dev;
                if dev & REQUIRED_FEATURES != REQUIRED_FEATURES {
                    self.state.phase = BlkInitPhase::Rejecting(VirtioBlkInitError::FeatureNegotiationFailed);
                } else {
                    self.state.features = REQUIRED_FEATURES | (DESIRED_FEATURES & dev);
                    self.state.phase = BlkInitPhase::WriteFeatures;
                }
            },
            (BlkInitPhase::WriteFeatures, BlkInitEvent::Done) => {
                self.state.phase = BlkInitPhase::FeaturesOk;
            },
            (BlkInitPhase::FeaturesOk, BlkInitEvent::Done) => {
                self.state.phase = BlkInitPhase::CheckStatus;
            },
            (BlkInitPhase::CheckStatus, BlkInitEvent::Status(st)) => {
                self.state.phase = if st & VIRTIO_STATUS_FEATURES_OK == 0 {
                    BlkInitPhase::Rejecting(VirtioBlkInitError::FeatureNegotiationFailed)
                } else {
                    BlkInitPhase::SetupQueue
                };
            },
            (BlkInitPhase::SetupQueue, BlkInitEvent::Outcome(ok)) => {
                self.state.phase = if ok {
                    BlkInitPhase::DriverOk
                } else {
                    BlkInitPhase::Rejecting(VirtioBlkInitError::QueueSetupFailed)
                };
            },
            (BlkInitPhase::DriverOk, BlkInitEvent::Done) => {
                self.state.phase = BlkInitPhase::ReadCapacity;
            },
            (BlkInitPhase::ReadCapacity, BlkInitEvent::Capacity(c)) => {
                self.state.info = BlockDeviceInfo {
                    total_sectors: c,
                    sector_size: 512,
                    max_sectors_per_request: 128,
                    read_only: s.device_features & VIRTIO_BLK_F_RO != 0,
                };
                self.state.phase = if s.features & VIRTIO_BLK_F_BLK_SIZE != 0 {
                    BlkInitPhase::ReadBlkSize
                } else {
                    BlkInitPhase::Done
                };
            },
            (BlkInitPhase::ReadBlkSize, BlkInitEvent::BlkSize(b)) => {
                self.state.info = BlockDeviceInfo {
                    total_sectors: s.info.total_sectors,
                    sector_size: b,
                    max_sectors_per_request: 128,
                    read_only: s.device_features & VIRTIO_BLK_F_RO != 0,
                };
                self.state.phase = BlkInitPhase::Done;
            },
            (BlkInitPhase::Rejecting(e), BlkInitEvent::Done) => {
                self.state.phase = BlkInitPhase::Failed(e);
            },
            _ => {},
        }
    }

    /// How the initialization ended: the negotiated features and the
    /// geometry, or the error; `None` while it is under way.
    pub fn outcome(&self) -> (r: Option<Result<(u64, BlockDeviceInfo), VirtioBlkInitError>>)
        ensures
            r == (match self.spec_state().phase {
                BlkInitPhase::Done => Some(
                    Ok::<(u64, BlockDeviceInfo), VirtioBlkInitError>((self.spec_state().features, self.spec_state().info)),
                ),
                BlkInitPhase::Failed(e) => Some(Err::<(u64, BlockDeviceInfo), VirtioBlkInitError>(e)),
                _ => None,
            }),
    {
        let s = self.state;
        match s.phase {
            BlkInitPhase::Done => Some(Ok((s.features, s.info))),
            BlkInitPhase::Failed(e) => Some(Err(e)),
            _ => None,
        }
    }
}

/// Features were negotiated: every phase from writing them on, until done.
pub open spec fn negotiated(p: BlkInitPhase) -> bool {
    match p {
        BlkInitPhase::WriteFeatures | BlkInitPhase::FeaturesOk | BlkInitPhase::CheckStatus
        | BlkInitPhase::SetupQueue | BlkInitPhase::DriverOk | BlkInitPhase::ReadCapacity
        | BlkInitPhase::ReadBlkSize | BlkInitPhase::Done => true,
        _ => false,
    }
}

/// The initialization's invariant: negotiated features always hold
/// VERSION_1 and only what the device offered beyond it (block size and
/// flush at most); the reset wait stays within its polls; a device that
/// reports itself read-only yields a read-only geometry.
pub open spec fn blk_inv(s: BlkInitState) -> bool {
    &&& negotiated(s.phase) ==> s.features == REQUIRED_FEATURES | (DESIRED_FEATURES & s.device_features)
    &&& (s.phase matches BlkInitPhase::WaitReset(k) ==> k < RESET_POLLS)
    &&& (s.phase == BlkInitPhase::Done ==> s.info.read_only == (s.device_features & VIRTIO_BLK_F_RO != 0))
}

/// Whatever the device offers and reports, the initialization keeps its
/// invariant from its start on.
pub proof fn lemma_blk_inv(s: BlkInitState, ev: BlkInitEvent)
    ensures
        blk_inv(BlkInitState { phase: BlkInitPhase::Reset, ..s }),
        blk_inv(s) ==> blk_inv(blk_next(s, ev)),
{
}

} // verus!
