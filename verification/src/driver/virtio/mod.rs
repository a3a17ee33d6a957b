//! VirtIO network driver: feature negotiation, transport addressing, the
//! initialization decisions, buffer pools and the driver state.

pub mod config;
pub mod driver;
pub mod init;
pub mod pool;
pub mod transport;

pub use config::{is_virtio_net, negotiate_features, VirtioConfig, VIRTIO_NET_DEVICE_IDS, VIRTIO_VENDOR_ID};
pub use driver::VirtioNetDriver;
pub use init::VirtioInitError;
pub use transport::{PciModernConfig, TransportType, VirtioTransport};
