//! Driver abstractions and the bookkeeping of the NIC and block drivers.

pub mod block_io;
pub mod block_traits;
pub mod sdhci;
pub mod traits;
pub mod ahci;
pub mod ahci_init;
pub mod intel;
pub mod usb_bot;
pub mod usb_enum;
pub mod usb_msd;
pub mod unified;
pub mod virtio;
pub mod virtio_blk;
pub mod virtio_blk_init;
pub mod xhci_bringup;
