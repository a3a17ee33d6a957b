//! PCI device addresses and little-endian reads from a configuration space
//! snapshot.
//!
//! The snapshot is the 256 bytes of one function's configuration space, as
//! read from the hardware; offsets wrap within those 256 bytes as the 8-bit
//! offset arithmetic of the access routines does.

use vstd::prelude::*;

verus! {

/// Vendor ID register offset.
pub const VENDOR_ID: u8 = 0x00;

/// Device ID register offset.
pub const DEVICE_ID: u8 = 0x02;

/// Command register offset.
pub const COMMAND: u8 = 0x04;

/// Status register offset.
pub const STATUS: u8 = 0x06;

/// Class code register offset.
pub const CLASS_CODE: u8 = 0x09;

/// Header type register offset.
pub const HEADER_TYPE: u8 = 0x0E;

/// First base address register offset.
pub const BAR0: u8 = 0x10;

/// Second base address register offset.
pub const BAR1: u8 = 0x14;

/// Capabilities pointer offset.
pub const CAP_PTR: u8 = 0x34;

/// Status register bit: the function has a capability list.
pub const STATUS_CAP_LIST: u16 = 1 << 4;

/// Size of a function's configuration space.
pub const CONFIG_SPACE_SIZE: usize = 256;

/// PCI device address (bus/device/function).
#[derive(Debug, Clone, Copy, PartialEq, Eq, Structural)]
pub struct PciAddr {
    pub bus: u8,
    pub device: u8,
    pub function: u8,
}

impl PciAddr {
    /// Create new PCI address.
    pub fn new(bus: u8, device: u8, function: u8) -> (r: Self)
        ensures
            r == (PciAddr { bus, device, function }),
    {
        PciAddr { bus, device, function }
    }
}

/// Byte at offset `off` (modulo 256) of a configuration space snapshot.
pub open spec fn cfg8(cfg: Seq<u8>, off: int) -> u8 {
    cfg[off % 256]
}

/// Little-endian 16-bit value at offset `off`.
pub open spec fn cfg16(cfg: Seq<u8>, off: int) -> u16 {
    (cfg8(cfg, off) + 256 * cfg8(cfg, off + 1)) as u16
}

/// Little-endian 32-bit value at offset `off`.
pub open spec fn cfg32(cfg: Seq<u8>, off: int) -> u32 {
    (cfg16(cfg, off) + 65536 * cfg16(cfg, off + 2)) as u32
}

/// Offset `off + k`, wrapped to eight bits.
pub fn offset_plus(off: u8, k: u8) -> (r: u8)
    ensures
        r == (off + k) % 256,
{
    ((off as u16 + k as u16) % 256) as u8
}

/// Read an 8-bit value from a configuration space snapshot.
pub fn cfg_read8(cfg: &[u8], offset: u8) -> (r: u8)
    requires
        cfg@.len() == CONFIG_SPACE_SIZE,
    ensures
        r == cfg8(cfg@, offset as int),
{
    cfg[offset as usize]
}

/// Read a little-endian 16-bit value from a configuration space snapshot.
pub fn cfg_read16(cfg: &[u8], offset: u8) -> (r: u16)
    requires
        cfg@.len() == CONFIG_SPACE_SIZE,
    ensures
        r == cfg16(cfg@, offset as int),
{
    let lo = cfg_read8(cfg, offset) as u16;
    let hi = cfg_read8(cfg, offset_plus(offset, 1)) as u16;
    proof {
        assert(((offset + 1) % 256) % 256 == (offset + 1) % 256);
    }
    lo + hi * 256
}

/// Read a little-endian 32-bit value from a configuration space snapshot.
pub fn cfg_read32(cfg: &[u8], offset: u8) -> (r: u32)
    requires
        cfg@.len() == CONFIG_SPACE_SIZE,
    ensures
        r == cfg32(cfg@, offset as int),
{
    let lo = cfg_read16(cfg, offset) as u32;
    let hi = cfg_read16(cfg, offset_plus(offset, 2)) as u32;
    proof {
        let o = offset as int;
        assert(cfg8(cfg@, (o + 2) % 256) == cfg8(cfg@, o + 2));
        assert(cfg8(cfg@, (o + 2) % 256 + 1) == cfg8(cfg@, o + 3)) by {
            assert(((o + 2) % 256 + 1) % 256 == (o + 3) % 256);
        }
    }
    lo + hi * 65536
}

} // verus!
