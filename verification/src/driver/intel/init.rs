//! Intel e1000e initialization: configuration, errors, and the decisions
//! the reset-and-bring-up sequence (`bringup`) makes on what it reads back:
//! the MAC check, the PHY recovery steps, BMCR updates, ring sizes.

use super::rx::RxRing;
use super::tx::TxRing;
use crate::types::MacAddress;
use vstd::prelude::*;

verus! {

/// Default number of RX and TX descriptors.
pub const DEFAULT_QUEUE_SIZE: u16 = 32;

/// Default size of each packet buffer.
pub const DEFAULT_BUFFER_SIZE: usize = 2048;

/// Size of one descriptor in bytes.
pub const DESC_SIZE: u32 = 16;

/// Recovery attempts made before giving up on the PHY.
pub const PHY_MAX_ATTEMPTS: u32 = 3;

/// E1000e driver configuration.
#[derive(Debug, Clone, Copy, PartialEq, Eq, Structural)]
pub struct E1000eConfig {
    /// Number of RX descriptors.
    pub rx_queue_size: u16,
    /// Number of TX descriptors.
    pub tx_queue_size: u16,
    /// Size of each buffer.
    pub buffer_size: usize,
    /// TSC frequency (ticks per second) for timeouts.
    pub tsc_freq: u64,
    /// DMA region CPU base address.
    pub dma_cpu_base: u64,
    /// DMA region bus address.
    pub dma_bus_base: u64,
}

impl E1000eConfig {
    /// Configuration with the default queue and buffer sizes.
    pub fn new(dma_cpu_base: u64, dma_bus_base: u64, tsc_freq: u64) -> (r: Self)
        ensures
            r == (E1000eConfig {
                rx_queue_size: DEFAULT_QUEUE_SIZE,
                tx_queue_size: DEFAULT_QUEUE_SIZE,
                buffer_size: DEFAULT_BUFFER_SIZE,
                tsc_freq,
                dma_cpu_base,
                dma_bus_base,
            }),
    {
        E1000eConfig {
            rx_queue_size: DEFAULT_QUEUE_SIZE,
            tx_queue_size: DEFAULT_QUEUE_SIZE,
            buffer_size: DEFAULT_BUFFER_SIZE,
            tsc_freq,
            dma_cpu_base,
            dma_bus_base,
        }
    }
}

/// Initialization errors.
#[derive(Debug, Clone, Copy, PartialEq, Eq, Structural)]
pub enum E1000eInitError {
    /// Device reset timed out.
    ResetTimeout,
    /// MAC address invalid (all zeros or all ones).
    InvalidMac,
    /// MMIO access failed (device not responding).
    MmioError,
    /// Link did not come up.
    LinkTimeout,
    /// Failed to disable ULP mode (I218 specific).
    UlpDisableFailed,
    /// PHY is not accessible after all recovery attempts.
    PhyNotAccessible,
    /// Failed to acquire hardware semaphore.
    SemaphoreTimeout,
}

/// Result of successful initialization.
pub struct E1000eInitResult {
    /// MAC address.
    pub mac: MacAddress,
    /// RX ring.
    pub rx_ring: RxRing,
    /// TX ring.
    pub tx_ring: TxRing,
}

/// The MAC address is usable: neither all zeros nor all ones.
pub open spec fn mac_valid(mac: Seq<u8>) -> bool {
    &&& mac != seq![0u8, 0u8, 0u8, 0u8, 0u8, 0u8]
    &&& mac != seq![0xFFu8, 0xFFu8, 0xFFu8, 0xFFu8, 0xFFu8, 0xFFu8]
}

/// Check the MAC read back from the EEPROM: a failed read (nonzero status)
/// or an all-zeros / all-ones address is `InvalidMac`.
pub fn check_mac(read_status: u32, mac: MacAddress) -> (r: Result<MacAddress, E1000eInitError>)
    ensures
        r == (if read_status != 0 || !mac_valid(mac@) {
            Err(E1000eInitError::InvalidMac)
        } else {
            Ok(mac)
        }),
{
    if read_status != 0 {
        return Err(E1000eInitError::InvalidMac);
    }
    let all_zero = mac[0] == 0 && mac[1] == 0 && mac[2] == 0 && mac[3] == 0 && mac[4] == 0 && mac[5] == 0;
    let all_ones = mac[0] == 0xFF && mac[1] == 0xFF && mac[2] == 0xFF && mac[3] == 0xFF && mac[4] == 0xFF
        && mac[5] == 0xFF;
    proof {
        if !all_zero {
            assert(mac@ != seq![0u8, 0u8, 0u8, 0u8, 0u8, 0u8]) by {
                if mac@ == seq![0u8, 0u8, 0u8, 0u8, 0u8, 0u8] {
                    assert(mac@[0] == 0 && mac@[1] == 0 && mac@[2] == 0);
                    assert(mac@[3] == 0 && mac@[4] == 0 && mac@[5] == 0);
                }
            }
        } else {
            assert(mac@ =~= seq![0u8, 0u8, 0u8, 0u8, 0u8, 0u8]);
        }
        if !all_ones {
            assert(mac@ != seq![0xFFu8, 0xFFu8, 0xFFu8, 0xFFu8, 0xFFu8, 0xFFu8]) by {
                if mac@ == seq![0xFFu8, 0xFFu8, 0xFFu8, 0xFFu8, 0xFFu8, 0xFFu8] {
                    assert(mac@[0] == 0xFF && mac@[1] == 0xFF && mac@[2] == 0xFF);
                    assert(mac@[3] == 0xFF && mac@[4] == 0xFF && mac@[5] == 0xFF);
                }
            }
        } else {
            assert(mac@ =~= seq![0xFFu8, 0xFFu8, 0xFFu8, 0xFFu8, 0xFFu8, 0xFFu8]);
        }
    }
    if all_zero || all_ones {
        return Err(E1000eInitError::InvalidMac);
    }
    Ok(mac)
}

/// Length in bytes of a descriptor ring of `queue_size` descriptors.
pub fn ring_len_bytes(queue_size: u16) -> (r: u32)
    ensures
        r == queue_size * 16,
{
    (queue_size as u32) * DESC_SIZE
}

/// What to try when the PHY does not answer.
#[derive(Debug, Clone, Copy, PartialEq, Eq, Structural)]
pub enum PhyRecovery {
    /// Wait 50 ms: some I218 parts need extra time after ULP disable.
    Wait,
    /// Power-cycle the PHY with a LANPHYPC toggle.
    TogglePower,
    /// Force SMBus mode, toggle LANPHYPC, clear SMBus mode.
    SmbusToggle,
}

/// Recovery step taken after failed check `attempt` (0, 1, 2); after the
/// last one the PHY is checked once more and init fails if it still does
/// not answer.
pub fn phy_recovery(attempt: u32) -> (r: Option<PhyRecovery>)
    ensures
        r == (if attempt == 0 {
            Some(PhyRecovery::Wait)
        } else if attempt == 1 {
            Some(PhyRecovery::TogglePower)
        } else if attempt == 2 {
            Some(PhyRecovery::SmbusToggle)
        } else {
            None
        }),
{
    if attempt == 0 {
        Some(PhyRecovery::Wait)
    } else if attempt == 1 {
        Some(PhyRecovery::TogglePower)
    } else if attempt == 2 {
        Some(PhyRecovery::SmbusToggle)
    } else {
        None
    }
}

/// The BMCR value with `bit` cleared, if it was set (to be written back);
/// `None` when there is nothing to change.
pub fn clear_bmcr_bit(bmcr: u16, bit: u16) -> (r: Option<u16>)
    ensures
        r == (if bmcr & bit != 0 {
            Some(bmcr & !bit)
        } else {
            None
        }),
{
    if bmcr & bit != 0 {
        Some(bmcr & !bit)
    } else {
        None
    }
}

/// Byte `k` (0 = least significant) of `seed`.
pub open spec fn le_byte(seed: u64, k: int) -> u8 {
    ((seed >> ((8 * k) as u64)) & 0xFF) as u8
}

/// Generate a locally-administered unicast MAC address from the low six
/// bytes of `seed`: the multicast bit is cleared and the
/// locally-administered bit set in the first byte.
pub fn generate_fallback_mac(seed: u64) -> (r: MacAddress)
    ensures
        r@ == seq![
            (le_byte(seed, 0) & 0xFE) | 0x02,
            le_byte(seed, 1),
            le_byte(seed, 2),
            le_byte(seed, 3),
            le_byte(seed, 4),
            le_byte(seed, 5),
        ],
{
    let b0 = (seed & 0xFF) as u8;
    let b1 = ((seed >> 8u64) & 0xFF) as u8;
    let b2 = ((seed >> 16u64) & 0xFF) as u8;
    let b3 = ((seed >> 24u64) & 0xFF) as u8;
    let b4 = ((seed >> 32u64) & 0xFF) as u8;
    let b5 = ((seed >> 40u64) & 0xFF) as u8;
    assert(seed >> 0u64 == seed) by (bit_vector);
    let mac: MacAddress = [(b0 & 0xFE) | 0x02, b1, b2, b3, b4, b5];
    assert(mac@ =~= seq![
        (le_byte(seed, 0) & 0xFE) | 0x02,
        le_byte(seed, 1),
        le_byte(seed, 2),
        le_byte(seed, 3),
        le_byte(seed, 4),
        le_byte(seed, 5),
    ]);
    mac
}

} // verus!
