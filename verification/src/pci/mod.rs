//! PCI configuration space: device addresses, reads from a snapshot of a
//! function's 256-byte configuration space, and the capability chain with the
//! VirtIO PCI capabilities found on it.

pub mod capability;
pub mod config;

pub use capability::{VirtioCapInfo, VirtioPciCaps};
pub use config::PciAddr;
