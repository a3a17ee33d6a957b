//! Intel 82579/I218 registers and bits used by the bring-up sequence.

use vstd::prelude::*;

verus! {

/// Device control.
pub const CTRL: u32 = 0x0000;

/// Device status.
pub const STATUS: u32 = 0x0008;

/// EEPROM/flash control.
pub const EECD: u32 = 0x0010;

/// Interrupt cause read (reading clears it).
pub const ICR: u32 = 0x00C0;

/// Interrupt mask clear.
pub const IMC: u32 = 0x00D8;

/// Receive control.
pub const RCTL: u32 = 0x0100;

/// RX descriptor ring: base low/high, length, head, tail.
pub const RDBAL: u32 = 0x2800;

pub const RDBAH: u32 = 0x2804;

pub const RDLEN: u32 = 0x2808;

pub const RDH: u32 = 0x2810;

pub const RDT: u32 = 0x2818;

/// RX descriptor control.
pub const RXDCTL: u32 = 0x2828;

/// Transmit control.
pub const TCTL: u32 = 0x0400;

/// TX descriptor ring: base low/high, length, head, tail.
pub const TDBAL: u32 = 0x3800;

pub const TDBAH: u32 = 0x3804;

pub const TDLEN: u32 = 0x3808;

pub const TDH: u32 = 0x3810;

pub const TDT: u32 = 0x3818;

/// TX descriptor control.
pub const TXDCTL: u32 = 0x3828;

/// Receive address 0, low and high.
pub const RAL0: u32 = 0x5400;

pub const RAH0: u32 = 0x5404;

/// CTRL: disable bus mastering (GIO master disable).
pub const CTRL_GIO_MASTER_DISABLE: u32 = 0x0000_0004;

/// STATUS: bus mastering still enabled.
pub const STATUS_GIO_MASTER_EN: u32 = 0x0008_0000;

/// RCTL: receiver enable.
pub const RCTL_EN: u32 = 0x0000_0002;

/// RCTL: loopback mode (bits 6-7).
pub const RCTL_LBM_MASK: u32 = 0x0000_00C0;

/// TCTL: transmitter enable.
pub const TCTL_EN: u32 = 0x0000_0002;

/// RXDCTL/TXDCTL: queue enable.
pub const XDCTL_QUEUE_ENABLE: u32 = 0x0200_0000;

/// EECD: EEPROM auto-read done.
pub const EECD_AUTO_RD: u32 = 0x0000_0200;

/// All interrupt bits.
pub const INT_MASK_ALL: u32 = 0xFFFF_FFFF;

} // verus!
