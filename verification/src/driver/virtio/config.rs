//! VirtIO configuration and feature flags.

use vstd::prelude::*;

verus! {

/// VIRTIO_F_VERSION_1: modern device.
pub const VIRTIO_F_VERSION_1: u64 = 0x1_0000_0000;

/// Device has MAC address in config space.
pub const VIRTIO_NET_F_MAC: u64 = 0x20;

/// Device has link status in config space.
pub const VIRTIO_NET_F_STATUS: u64 = 0x1_0000;

/// Checksum offload (host handles).
pub const VIRTIO_NET_F_CSUM: u64 = 0x1;

pub const VIRTIO_NET_F_GUEST_TSO4: u64 = 0x80;

pub const VIRTIO_NET_F_GUEST_TSO6: u64 = 0x100;

pub const VIRTIO_NET_F_GUEST_UFO: u64 = 0x400;

/// Mergeable RX buffers - changes header semantics.
pub const VIRTIO_NET_F_MRG_RXBUF: u64 = 0x8000;

/// Control virtqueue - not needed for basic operation.
pub const VIRTIO_NET_F_CTRL_VQ: u64 = 0x2_0000;

/// Device status: driver found device.
pub const STATUS_ACKNOWLEDGE: u8 = 0x01;

pub const STATUS_DRIVER: u8 = 0x02;

/// Device status: driver ready, device may operate.
pub const STATUS_DRIVER_OK: u8 = 0x04;

pub const STATUS_FEATURES_OK: u8 = 0x08;

pub const STATUS_DEVICE_NEEDS_RESET: u8 = 0x40;

/// Device status: driver gave up.
pub const STATUS_FAILED: u8 = 0x80;

/// Required features (device must support, else reject).
pub const REQUIRED_FEATURES: u64 = VIRTIO_F_VERSION_1;

/// Features taken when the device offers them.
pub const DESIRED_FEATURES: u64 = VIRTIO_NET_F_MAC | VIRTIO_NET_F_STATUS;

/// Features never accepted: offloads and mergeable buffers change the frame
/// format, the control queue is not used.
pub const FORBIDDEN_FEATURES: u64 = VIRTIO_NET_F_GUEST_TSO4 | VIRTIO_NET_F_GUEST_TSO6
    | VIRTIO_NET_F_GUEST_UFO | VIRTIO_NET_F_MRG_RXBUF | VIRTIO_NET_F_CTRL_VQ;

/// Feature negotiation error.
#[derive(Debug, Clone, Copy, PartialEq, Eq, Structural)]
pub enum FeatureError {
    /// Device missing required features.
    MissingRequired(u64),
}

/// The features the driver accepts from those the device offers: the
/// required ones (whose absence is an error), plus the desired ones the
/// device offers, without any forbidden one.
pub fn negotiate_features(device_features: u64) -> (r: Result<u64, FeatureError>)
    ensures
        device_features & REQUIRED_FEATURES != REQUIRED_FEATURES ==> r == Err::<u64, FeatureError>(
            FeatureError::MissingRequired(REQUIRED_FEATURES),
        ),
        device_features & REQUIRED_FEATURES == REQUIRED_FEATURES ==> r == Ok::<u64, FeatureError>(
            REQUIRED_FEATURES | ((DESIRED_FEATURES & device_features) & !FORBIDDEN_FEATURES),
        ),
{
    if device_features & REQUIRED_FEATURES != REQUIRED_FEATURES {
        return Err(FeatureError::MissingRequired(REQUIRED_FEATURES));
    }
    Ok(REQUIRED_FEATURES | ((DESIRED_FEATURES & device_features) & !FORBIDDEN_FEATURES))
}

/// Red Hat / VirtIO PCI vendor ID.
pub const VIRTIO_VENDOR_ID: u16 = 0x1AF4;

/// Legacy (transitional) and modern virtio-net device IDs.
pub const VIRTIO_NET_DEVICE_IDS: [u16; 2] = [0x1000, 0x1041];

/// Whether a PCI function is a virtio-net device.
pub fn is_virtio_net(vendor: u16, device: u16) -> (r: bool)
    ensures
        r == (vendor == VIRTIO_VENDOR_ID && (device == 0x1000 || device == 0x1041)),
{
    vendor == VIRTIO_VENDOR_ID && (device == VIRTIO_NET_DEVICE_IDS[0] || device == VIRTIO_NET_DEVICE_IDS[1])
}

/// VirtIO driver configuration: the pre-allocated DMA region and the queue
/// geometry.
#[derive(Debug, Clone, Copy, PartialEq, Eq, Structural)]
pub struct VirtioConfig {
    /// Pre-allocated DMA region CPU base.
    pub dma_cpu_base: u64,
    /// Pre-allocated DMA region bus address.
    pub dma_bus_base: u64,
    /// DMA region size.
    pub dma_size: usize,
    /// Queue size (number of descriptors).
    pub queue_size: u16,
    /// Buffer size for each queue entry.
    pub buffer_size: usize,
}

impl VirtioConfig {
    pub const DEFAULT_QUEUE_SIZE: u16 = 32;

    pub const DEFAULT_BUFFER_SIZE: usize = 2048;
}

} // verus!
