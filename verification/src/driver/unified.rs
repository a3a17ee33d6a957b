//! A network driver over every supported NIC: VirtIO-net (QEMU, KVM) and
//! Intel e1000e (real hardware).

use super::intel::{E1000eDriver, E1000eError};
use super::virtio::{VirtioInitError, VirtioNetDriver};
use crate::types::MacAddress;
use vstd::prelude::*;

verus! {

/// Errors during unified driver initialization.
#[derive(Debug, Clone, Copy, PartialEq, Eq, Structural)]
pub enum UnifiedDriverError {
    /// No NIC detected in handoff.
    NoNicDetected,
    /// Unsupported NIC type.
    UnsupportedNicType(u8),
    /// VirtIO initialization failed.
    VirtioError(VirtioInitError),
    /// Intel e1000e initialization failed.
    IntelError(E1000eError),
    /// Invalid handoff data.
    InvalidHandoff,
}

impl From<VirtioInitError> for UnifiedDriverError {
    fn from(e: VirtioInitError) -> (r: Self) {
        UnifiedDriverError::VirtioError(e)
    }
}

impl vstd::std_specs::convert::FromSpecImpl<VirtioInitError> for UnifiedDriverError {
    open spec fn obeys_from_spec() -> bool {
        true
    }

    open spec fn from_spec(e: VirtioInitError) -> UnifiedDriverError {
        UnifiedDriverError::VirtioError(e)
    }
}

impl From<E1000eError> for UnifiedDriverError {
    fn from(e: E1000eError) -> (r: Self) {
        UnifiedDriverError::IntelError(e)
    }
}

impl vstd::std_specs::convert::FromSpecImpl<E1000eError> for UnifiedDriverError {
    open spec fn obeys_from_spec() -> bool {
        true
    }

    open spec fn from_spec(e: E1000eError) -> UnifiedDriverError {
        UnifiedDriverError::IntelError(e)
    }
}

/// Unified network driver that wraps all supported NIC drivers.
pub enum UnifiedNetworkDriver {
    /// VirtIO-net driver (QEMU, KVM).
    VirtIO(VirtioNetDriver),
    /// Intel e1000e driver (real hardware).
    Intel(E1000eDriver),
}

impl UnifiedNetworkDriver {
    /// The driver type name for logging.
    pub fn driver_name(&self) -> (r: &'static str)
        ensures
            r@ == match self {
                UnifiedNetworkDriver::VirtIO(_) => "VirtIO-net"@,
                UnifiedNetworkDriver::Intel(_) => "Intel e1000e"@,
            },
    {
        match self {
            UnifiedNetworkDriver::VirtIO(_) => "VirtIO-net",
            UnifiedNetworkDriver::Intel(_) => "Intel e1000e",
        }
    }

    /// MAC address of the wrapped NIC.
    pub fn mac_address(&self) -> (r: MacAddress)
        ensures
            r == match self {
                UnifiedNetworkDriver::VirtIO(d) => d.spec_mac(),
                UnifiedNetworkDriver::Intel(d) => d.spec_mac(),
            },
    {
        match self {
            UnifiedNetworkDriver::VirtIO(d) => d.mac_address(),
            UnifiedNetworkDriver::Intel(d) => d.mac_address(),
        }
    }
}

} // verus!
