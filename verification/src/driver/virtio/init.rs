//! VirtIO network device initialization as a state machine: reset,
//! status handshake, feature negotiation, queue setup, DRIVER_OK and the
//! MAC address. The platform performs each action and reports back.

use super::config::{
    negotiate_features, DESIRED_FEATURES, FORBIDDEN_FEATURES, REQUIRED_FEATURES, STATUS_ACKNOWLEDGE,
    STATUS_DRIVER, STATUS_DRIVER_OK, STATUS_FAILED, STATUS_FEATURES_OK, VIRTIO_NET_F_MAC,
};
use crate::driver::traits::RxError;
use crate::types::MacAddress;
use vstd::prelude::*;

verus! {

/// VirtIO initialization error.
#[derive(Debug, Clone, Copy, PartialEq, Eq, Structural)]
pub enum VirtioInitError {
    /// Device reset timed out.
    ResetTimeout,
    /// Feature negotiation failed.
    FeatureNegotiationFailed,
    /// Device rejected features.
    FeaturesRejected,
    /// Queue setup failed.
    QueueSetupFailed,
    /// RX prefill failed.
    RxPrefillFailed(usize),
    /// Device error.
    DeviceError,
}

impl From<RxError> for VirtioInitError {
    fn from(err: RxError) -> (r: Self) {
        VirtioInitError::DeviceError
    }
}

impl vstd::std_specs::convert::FromSpecImpl<RxError> for VirtioInitError {
    open spec fn obeys_from_spec() -> bool {
        true
    }

    open spec fn from_spec(err: RxError) -> VirtioInitError {
        VirtioInitError::DeviceError
    }
}

/// The locally administered MAC address used when the device has none.
pub fn generate_local_mac() -> (r: MacAddress)
    ensures
        r == local_mac(),
        r@ == seq![0x02u8, 0x00u8, 0x00u8, 0x00u8, 0x00u8, 0x01u8],
{
    [0x02, 0x00, 0x00, 0x00, 0x00, 0x01]
}

/// Size of a queue: the smaller of the device's maximum and the configured
/// size; a queue of size 0 cannot be set up.
pub fn init_queue_size(device_max: u16, configured: u16) -> (r: Result<u16, VirtioInitError>)
    ensures
        r == (if device_max == 0 || configured == 0 {
            Err(VirtioInitError::QueueSetupFailed)
        } else if device_max < configured {
            Ok(device_max)
        } else {
            Ok(configured)
        }),
{
    let size = if device_max < configured { device_max } else { configured };
    if size == 0 {
        return Err(VirtioInitError::QueueSetupFailed);
    }
    Ok(size)
}

/// Steps of the initialization.
#[derive(Debug, Clone, Copy, PartialEq, Eq, Structural)]
pub enum NetInitPhase {
    Reset,
    Acknowledge,
    Driver,
    ReadFeatures,
    WriteFeatures,
    FeaturesOk,
    CheckStatus,
    /// The device refused the features: tell it the driver gave up.
    Rejecting,
    /// Queue `index` (0 = RX, 1 = TX): read its maximum size.
    QueueMax(u16),
    /// Queue `index`: program it with the decided size.
    QueueProgram(u16, u16),
    DriverOk,
    ReadMac,
    Done,
    Failed(VirtioInitError),
}

/// What the platform is asked to do next.
#[derive(Debug, Clone, Copy, PartialEq, Eq, Structural)]
pub enum NetInitAction {
    /// Reset the device.
    Reset,
    /// Write the device status register.
    SetStatus(u8),
    /// Read the device feature bits.
    ReadFeatures,
    /// Write the accepted feature bits.
    WriteFeatures(u64),
    /// Read the device status register.
    ReadStatus,
    /// Select queue `index` and read its maximum size.
    ReadQueueMax(u16),
    /// Program queue `index` with `size` descriptors, enable it, and report
    /// its notification address.
    ProgramQueue(u16, u16),
    /// Read the MAC address from the device configuration.
    ReadMac,
    /// Nothing more to do.
    Finish,
}

/// What the platform reports back.
#[derive(Debug, Clone, Copy)]
pub enum NetInitEvent {
    /// A write was done.
    Written,
    /// The reset finished (`true`) or timed out.
    ResetDone(bool),
    /// Device feature bits.
    Features(u64),
    /// Device status register.
    Status(u8),
    /// Maximum size of the selected queue.
    QueueMax(u16),
    /// The queue is enabled; its notification address.
    QueueProgrammed(u64),
    /// MAC address, if the device has one.
    Mac(Option<MacAddress>),
}

/// Initialization state: the phase and what has been learned.
#[derive(Debug, Clone, Copy)]
pub struct NetInit {
    pub phase: NetInitPhase,
    /// The configured queue size.
    pub queue_size: u16,
    /// Negotiated features.
    pub features: u64,
    /// RX queue: size and notification address.
    pub rx: (u16, u64),
    /// TX queue: size and notification address.
    pub tx: (u16, u64),
    pub mac: MacAddress,
}

pub open spec fn ack_driver() -> u8 {
    STATUS_ACKNOWLEDGE | STATUS_DRIVER
}

pub open spec fn ack_driver_features() -> u8 {
    STATUS_ACKNOWLEDGE | STATUS_DRIVER | STATUS_FEATURES_OK
}

pub open spec fn all_ok() -> u8 {
    STATUS_ACKNOWLEDGE | STATUS_DRIVER | STATUS_FEATURES_OK | STATUS_DRIVER_OK
}

/// The action of each phase.
pub open spec fn init_action(s: NetInit) -> NetInitAction {
    match s.phase {
        NetInitPhase::Reset => NetInitAction::Reset,
        NetInitPhase::Acknowledge => NetInitAction::SetStatus(STATUS_ACKNOWLEDGE),
        NetInitPhase::Driver => NetInitAction::SetStatus(ack_driver()),
        NetInitPhase::ReadFeatures => NetInitAction::ReadFeatures,
        NetInitPhase::WriteFeatures => NetInitAction::WriteFeatures(s.features),
        NetInitPhase::FeaturesOk => NetInitAction::SetStatus(ack_driver_features()),
        NetInitPhase::CheckStatus => NetInitAction::ReadStatus,
        NetInitPhase::Rejecting => NetInitAction::SetStatus(STATUS_FAILED),
        NetInitPhase::QueueMax(q) => NetInitAction::ReadQueueMax(q),
        NetInitPhase::QueueProgram(q, size) => NetInitAction::ProgramQueue(q, size),
        NetInitPhase::DriverOk => NetInitAction::SetStatus(all_ok()),
        NetInitPhase::ReadMac => NetInitAction::ReadMac,
        _ => NetInitAction::Finish,
    }
}

/// The local MAC address as a value.
pub open spec fn local_mac() -> MacAddress {
    [0x02u8, 0x00u8, 0x00u8, 0x00u8, 0x00u8, 0x01u8]
}

/// How the state moves on an event. An event that does not answer the
/// current action leaves the state as it is.
pub open spec fn init_next(s: NetInit, ev: NetInitEvent) -> NetInit {
    match (s.phase, ev) {
        (NetInitPhase::Reset, NetInitEvent::ResetDone(ok)) => if ok {
            NetInit { phase: NetInitPhase::Acknowledge, ..s }
        } else {
            NetInit { phase: NetInitPhase::Failed(VirtioInitError::ResetTimeout), ..s }
        },
        (NetInitPhase::Acknowledge, NetInitEvent::Written) => NetInit { phase: NetInitPhase::Driver, ..s },
        (NetInitPhase::Driver, NetInitEvent::Written) => NetInit { phase: NetInitPhase::ReadFeatures, ..s },
        (NetInitPhase::ReadFeatures, NetInitEvent::Features(dev)) => if dev & REQUIRED_FEATURES
            == REQUIRED_FEATURES {
            NetInit {
                phase: NetInitPhase::WriteFeatures,
                features: REQUIRED_FEATURES | ((DESIRED_FEATURES & dev) & !FORBIDDEN_FEATURES),
                ..s
            }
        } else {
            NetInit { phase: NetInitPhase::Failed(VirtioInitError::FeatureNegotiationFailed), ..s }
        },
        (NetInitPhase::WriteFeatures, NetInitEvent::Written) => NetInit { phase: NetInitPhase::FeaturesOk, ..s },
        (NetInitPhase::FeaturesOk, NetInitEvent::Written) => NetInit { phase: NetInitPhase::CheckStatus, ..s },
        (NetInitPhase::CheckStatus, NetInitEvent::Status(st)) => if st & STATUS_FEATURES_OK == 0 {
            NetInit { phase: NetInitPhase::Rejecting, ..s }
        } else {
            NetInit { phase: NetInitPhase::QueueMax(0), ..s }
        },
        (NetInitPhase::Rejecting, NetInitEvent::Written) => NetInit {
            phase: NetInitPhase::Failed(VirtioInitError::FeaturesRejected),
            ..s
        },
        (NetInitPhase::QueueMax(q), NetInitEvent::QueueMax(max)) => if max == 0 || s.queue_size == 0 {
            NetInit { phase: NetInitPhase::Failed(VirtioInitError::QueueSetupFailed), ..s }
        } else {
            NetInit {
                phase: NetInitPhase::QueueProgram(q, if max < s.queue_size { max } else { s.queue_size }),
                ..s
            }
        },
        (NetInitPhase::QueueProgram(q, size), NetInitEvent::QueueProgrammed(notify)) => if q == 0 {
            NetInit { phase: NetInitPhase::QueueMax(1), rx: (size, notify), ..s }
        } else {
            NetInit { phase: NetInitPhase::DriverOk, tx: (size, notify), ..s }
        },
        (NetInitPhase::DriverOk, NetInitEvent::Written) => if s.features & VIRTIO_NET_F_MAC != 0 {
            NetInit { phase: NetInitPhase::ReadMac, ..s }
        } else {
            NetInit { phase: NetInitPhase::Done, mac: local_mac(), ..s }
        },
        (NetInitPhase::ReadMac, NetInitEvent::Mac(m)) => NetInit {
            phase: NetInitPhase::Done,
            mac: match m {
                Some(mac) => mac,
                None => local_mac(),
            },
            ..s
        },
        _ => s,
    }
}

impl NetInit {
    /// A fresh initialization for queues of `queue_size` descriptors.
    pub fn new(queue_size: u16) -> (r: Self)
        ensures
            r.phase == NetInitPhase::Reset,
            r.queue_size == queue_size,
            r.features == 0,
    {
        NetInit { phase: NetInitPhase::Reset, queue_size, features: 0, rx: (0, 0), tx: (0, 0), mac: [0u8; 6] }
    }

    /// The action of the current phase.
    pub fn action(&self) -> (r: NetInitAction)
        ensures
            r == init_action(*self),
    {
        match self.phase {
            NetInitPhase::Reset => NetInitAction::Reset,
            NetInitPhase::Acknowledge => NetInitAction::SetStatus(STATUS_ACKNOWLEDGE),
            NetInitPhase::Driver => NetInitAction::SetStatus(STATUS_ACKNOWLEDGE | STATUS_DRIVER),
            NetInitPhase::ReadFeatures => NetInitAction::ReadFeatures,
            NetInitPhase::WriteFeatures => NetInitAction::WriteFeatures(self.features),
            NetInitPhase::FeaturesOk => NetInitAction::SetStatus(
                STATUS_ACKNOWLEDGE | STATUS_DRIVER | STATUS_FEATURES_OK,
            ),
            NetInitPhase::CheckStatus => NetInitAction::ReadStatus,
            NetInitPhase::Rejecting => NetInitAction::SetStatus(STATUS_FAILED),
            NetInitPhase::QueueMax(q) => NetInitAction::ReadQueueMax(q),
            NetInitPhase::QueueProgram(q, size) => NetInitAction::ProgramQueue(q, size),
            NetInitPhase::DriverOk => NetInitAction::SetStatus(
                STATUS_ACKNOWLEDGE | STATUS_DRIVER | STATUS_FEATURES_OK | STATUS_DRIVER_OK,
            ),
            NetInitPhase::ReadMac => NetInitAction::ReadMac,
            NetInitPhase::Done => NetInitAction::Finish,
            NetInitPhase::Failed(_) => NetInitAction::Finish,
        }
    }

    /// Take the platform's report of the last action.
    pub fn on_event(&mut self, ev: NetInitEvent)
        ensures
            *final(self) == init_next(*old(self), ev),
    {
        match (self.phase, ev) {
            (NetInitPhase::Reset, NetInitEvent::ResetDone(ok)) => {
                self.phase = if ok {
                    NetInitPhase::Acknowledge
                } else {
                    NetInitPhase::Failed(VirtioInitError::ResetTimeout)
                };
            },
            (NetInitPhase::Acknowledge, NetInitEvent::Written) => {
                self.phase = NetInitPhase::Driver;
            },
            (NetInitPhase::Driver, NetInitEvent::Written) => {
                self.phase = NetInitPhase::ReadFeatures;
            },
            (NetInitPhase::ReadFeatures, NetInitEvent::Features(dev)) => match negotiate_features(dev) {
                Ok(f) => {
                    self.features = f;
                    self.phase = NetInitPhase::WriteFeatures;
                },
                Err(_) => {
                    self.phase = NetInitPhase::Failed(VirtioInitError::FeatureNegotiationFailed);
                },
            },
            (NetInitPhase::WriteFeatures, NetInitEvent::Written) => {
                self.phase = NetInitPhase::FeaturesOk;
            },
            (NetInitPhase::FeaturesOk, NetInitEvent::Written) => {
                self.phase = NetInitPhase::CheckStatus;
            },
            (NetInitPhase::CheckStatus, NetInitEvent::Status(st)) => {
                self.phase = if st & STATUS_FEATURES_OK == 0 {
                    NetInitPhase::Rejecting
                } else {
                    NetInitPhase::QueueMax(0)
                };
            },
            (NetInitPhase::Rejecting, NetInitEvent::Written) => {
                self.phase = NetInitPhase::Failed(VirtioInitError::FeaturesRejected);
            },
            (NetInitPhase::QueueMax(q), NetInitEvent::QueueMax(max)) => {
                self.phase = match init_queue_size(max, self.queue_size) {
                    Ok(size) => NetInitPhase::QueueProgram(q, size),
                    Err(e) => NetInitPhase::Failed(e),
                };
            },
            (NetInitPhase::QueueProgram(q, size), NetInitEvent::QueueProgrammed(notify)) => {
                if q == 0 {
                    self.rx = (size, notify);
                    self.phase = NetInitPhase::QueueMax(1);
                } else {
                    self.tx = (size, notify);
                    self.phase = NetInitPhase::DriverOk;
                }
            },
            (NetInitPhase::DriverOk, NetInitEvent::Written) => {
                if self.features & VIRTIO_NET_F_MAC != 0 {
                    self.phase = NetInitPhase::ReadMac;
                } else {
                    self.mac = generate_local_mac();
                    self.phase = NetInitPhase::Done;
                }
            },
            (NetInitPhase::ReadMac, NetInitEvent::Mac(m)) => {
                self.mac = match m {
                    Some(mac) => mac,
                    None => generate_local_mac(),
                };
                self.phase = NetInitPhase::Done;
            },
            _ => {},
        }
    }
}

/// Negotiated features are acceptable: VERSION_1 is in, no forbidden
/// feature is.
pub open spec fn features_acceptable(f: u64) -> bool {
    f & REQUIRED_FEATURES == REQUIRED_FEATURES && f & FORBIDDEN_FEATURES == 0
}

/// Once features are negotiated, they are acceptable.
pub open spec fn init_inv(s: NetInit) -> bool {
    match s.phase {
        NetInitPhase::Reset | NetInitPhase::Acknowledge | NetInitPhase::Driver | NetInitPhase::ReadFeatures
        | NetInitPhase::Failed(_) => true,
        _ => features_acceptable(s.features),
    }
}

/// Whatever the device offers and reports, the initialization never
/// accepts a forbidden feature and never goes on without VERSION_1: the
/// invariant holds at the start and every event keeps it.
pub proof fn lemma_init_inv(s: NetInit, ev: NetInitEvent)
    ensures
        init_inv(NetInit { phase: NetInitPhase::Reset, ..s }),
        init_inv(s) ==> init_inv(init_next(s, ev)),
{
    if let (NetInitPhase::ReadFeatures, NetInitEvent::Features(dev)) = (s.phase, ev) {
        let f = REQUIRED_FEATURES | ((DESIRED_FEATURES & dev) & !FORBIDDEN_FEATURES);
        assert(DESIRED_FEATURES == 0x1_0020u64 && FORBIDDEN_FEATURES == 0x2_8580u64
            && REQUIRED_FEATURES == 0x1_0000_0000u64) by (bit_vector);
        assert(f & 0x1_0000_0000u64 == 0x1_0000_0000u64 && f & 0x2_8580u64 == 0) by (bit_vector)
            requires
                f == 0x1_0000_0000u64 | ((0x1_0020u64 & dev) & !0x2_8580u64),
        ;
    }
}

} // verus!
