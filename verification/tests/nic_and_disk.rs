use morpheus_network::driver::intel::phy::{LinkSpeed, LinkStatus, LinkStatusResult, PhyManager};
use morpheus_network::driver::ahci::{
    check_config as ahci_check_config, first_ata_port, version_of, AhciConfig, AhciDriver, AhciInitError,
};
use morpheus_network::driver::block_traits::{BlockDeviceInfo, BlockError};
use morpheus_network::driver::intel::init::{
    check_mac, clear_bmcr_bit, generate_fallback_mac, phy_recovery, ring_len_bytes, E1000eConfig, E1000eInitError,
    PhyRecovery,
};
use morpheus_network::driver::intel::rx::{RxError as RingRxError, RxPollResult, RxRing};
use morpheus_network::driver::intel::tx::{TxError as RingTxError, TxRing};
use morpheus_network::driver::intel::{
    bar_size, decode_mmio_base, enable_device, find_intel_nic, is_supported_device, validate_mmio_access,
    PciFunctionHeader,
};
use morpheus_network::driver::virtio_blk::{
    blk_device_info, blk_features, check_blk_config, features_accepted, BlkPollResult, VirtioBlkConfig,
    VirtioBlkDriver, VirtioBlkInitError, TYPE_IN, TYPE_OUT,
};
use morpheus_network::pci::config::PciAddr;

#[test]
fn intel_device_table() {
    assert!(is_supported_device(0x8086, 0x10D3));
    assert!(is_supported_device(0x8086, 0x15BE));
    assert!(!is_supported_device(0x8086, 0x1234));
    assert!(!is_supported_device(0x1AF4, 0x10D3));
}

#[test]
fn intel_bars() {
    assert_eq!(decode_mmio_base(0xF7E0_0000, 0x1234), 0xF7E0_0000);
    assert_eq!(decode_mmio_base(0xF7E0_0004, 0x2), 0x2_F7E0_0000);
    assert_eq!(bar_size(0xFFFE_0000), 0x2_0000);
    assert_eq!(bar_size(0), 0);
    assert_eq!(bar_size(0xFFFF_FFFF), 0);
    assert_eq!(enable_device(0x0400), 0x0406);
    assert!(validate_mmio_access(0x0008_0783));
    assert!(!validate_mmio_access(0xFFFF_FFFF));
    assert!(!validate_mmio_access(0));
}

fn header(bus: u8, vendor: u16, device: u16, class: u32, bar0: u32) -> PciFunctionHeader {
    PciFunctionHeader {
        addr: PciAddr::new(bus, 0, 0),
        vendor_id: vendor,
        device_id: device,
        header_type: 0,
        class_code: class,
        bar0,
        bar1: 0,
        bar0_probe: 0xFFFE_0000,
    }
}

#[test]
fn intel_scan_finds_first_nic() {
    let hs = [
        header(0, 0x8086, 0x1234, 0x0200_0000, 0xF000_0000),
        header(1, 0x1AF4, 0x1000, 0x0200_0000, 0xF000_0000),
        header(2, 0x8086, 0x15A2, 0x0200_0000, 0xF100_0000),
        header(3, 0x8086, 0x10D3, 0x0200_0000, 0xF200_0000),
        header(4, 0x8086, 0x1502, 0x0200_0000, 0xF300_0000),
    ];
    let nic = find_intel_nic(&hs).unwrap();
    assert_eq!(nic.pci_addr.bus, 3);
    assert_eq!(nic.device_id, 0x10D3);
    assert_eq!(nic.mmio_base, 0xF200_0000);
    assert_eq!(nic.mmio_size, 0x2_0000);
    assert!(find_intel_nic(&hs[..2]).is_none());
}

#[test]
fn intel_init_decisions() {
    let mac = [0x00, 0x1B, 0x21, 0x01, 0x02, 0x03];
    assert_eq!(check_mac(0, mac), Ok(mac));
    assert_eq!(check_mac(1, mac), Err(E1000eInitError::InvalidMac));
    assert_eq!(check_mac(0, [0; 6]), Err(E1000eInitError::InvalidMac));
    assert_eq!(check_mac(0, [0xFF; 6]), Err(E1000eInitError::InvalidMac));
    assert_eq!(ring_len_bytes(32), 512);
    assert_eq!(phy_recovery(0), Some(PhyRecovery::Wait));
    assert_eq!(phy_recovery(1), Some(PhyRecovery::TogglePower));
    assert_eq!(phy_recovery(2), Some(PhyRecovery::SmbusToggle));
    assert_eq!(phy_recovery(3), None);
    assert_eq!(clear_bmcr_bit(0x1940, 0x0800), Some(0x1140));
    assert_eq!(clear_bmcr_bit(0x1140, 0x0800), None);
    let m = generate_fallback_mac(0x0605_0403_0201_FF);
    assert_eq!(m, [0xFE, 0x01, 0x02, 0x03, 0x04, 0x05]);
    assert_eq!(m[0] & 0x01, 0);
    assert_eq!(m[0] & 0x02, 0x02);
    let cfg = E1000eConfig::new(0x1000, 0x2000, 3_000_000_000);
    assert_eq!(cfg.tsc_freq, 3_000_000_000);
}

#[test]
fn intel_tx_ring_fills_and_drains() {
    let mut ring = TxRing::new(0, 0x10_0000, 0x10_0000, 0x20_0000, 0x30_0000, 2048, 4);
    assert_eq!(ring.desc_len_bytes(), 64);
    assert_eq!(ring.available(), 3);
    assert_eq!(ring.transmit(1515), Err(RingTxError::FrameTooLarge { provided: 1515, max: 1514 }));
    let first = ring.transmit(60).unwrap();
    assert_eq!(first.desc_addr, 0x10_0000);
    assert_eq!(first.buffer_bus, 0x30_0000);
    assert_eq!(first.tail, 1);
    let second = ring.transmit(1514).unwrap();
    assert_eq!(second.buffer_cpu, 0x20_0000 + 2048);
    ring.transmit(100).unwrap();
    assert_eq!(ring.in_flight(), 3);
    assert_eq!(ring.available(), 0);
    assert!(!ring.can_transmit());
    assert_eq!(ring.transmit(60), Err(RingTxError::QueueFull));
    assert_eq!(ring.pending_desc(), Some(0x10_0000));
    ring.complete_one();
    assert_eq!(ring.pending_desc(), Some(0x10_0010));
    assert_eq!(ring.in_flight() + ring.available(), 3);
    let wrapped = ring.transmit(60).unwrap();
    assert_eq!(wrapped.tail, 0);
    ring.complete_one();
    ring.complete_one();
    ring.complete_one();
    assert_eq!(ring.in_flight(), 0);
    assert_eq!(ring.pending_desc(), None);
}

#[test]
fn intel_rx_ring_steps() {
    let mut ring = RxRing::new(0, 0x40_0000, 0x40_0000, 0x50_0000, 0x60_0000, 2048, 4);
    assert_eq!(ring.update_tail(), 3);
    assert_eq!(ring.buffer_bus_of(2), 0x60_0000 + 4096);
    let idle = ring.receive(RxPollResult { ready: false, length: 0, errors: 0 }, 1514);
    assert!(matches!(idle.result, Ok(None)));
    assert_eq!(idle.release_desc, None);
    let got = ring.receive(RxPollResult { ready: true, length: 60, errors: 0 }, 1514);
    assert!(matches!(got.result, Ok(Some(60))));
    assert_eq!(got.copy_from, Some(0x50_0000));
    assert_eq!(got.release_desc, Some(0x40_0000));
    assert_eq!(got.write_tail, Some(0));
    let bad = ring.receive(RxPollResult { ready: true, length: 60, errors: 0x01 }, 1514);
    assert!(matches!(bad.result, Err(RingRxError::PacketError(0x01))));
    assert_eq!(bad.copy_from, None);
    let small = ring.receive(RxPollResult { ready: true, length: 600, errors: 0 }, 100);
    assert!(matches!(small.result, Err(RingRxError::BufferTooSmall { needed: 600, provided: 100 })));
    assert!(RxPollResult { ready: true, length: 0, errors: 0x20 }.has_errors());
    assert!(!RxPollResult { ready: true, length: 0, errors: 0x40 }.has_errors());
}

fn ahci_config() -> AhciConfig {
    AhciConfig {
        tsc_freq: 1_000_000,
        cmd_list_cpu: 0x10_0000,
        cmd_list_phys: 0x10_0000,
        fis_cpu: 0x11_0000,
        fis_phys: 0x11_0000,
        cmd_tables_cpu: 0x12_0000,
        cmd_tables_phys: 0x12_0000,
        identify_cpu: 0x13_0000,
        identify_phys: 0x13_0000,
    }
}

#[test]
fn ahci_checks() {
    assert_eq!(ahci_check_config(&ahci_config(), false), Ok(()));
    let mut high = ahci_config();
    high.cmd_list_phys = 0x1_0000_0000;
    assert_eq!(ahci_check_config(&high, false), Err(AhciInitError::No64BitSupport));
    assert_eq!(ahci_check_config(&high, true), Ok(()));
    let mut none = ahci_config();
    none.fis_cpu = 0;
    assert_eq!(ahci_check_config(&none, true), Err(AhciInitError::InvalidConfig));
    assert_eq!(AhciInitError::NoDeviceFound.message(), "No SATA device found");
    assert_eq!(version_of(0x0001_0301), (1, 3));
}

#[test]
fn ahci_port_selection() {
    let mut det = [0u32; 32];
    let mut sig = [0u32; 32];
    det[1] = 3;
    sig[1] = 0xEB14_0101; // ATAPI
    det[2] = 3;
    sig[2] = 0x0000_0101; // ATA
    det[5] = 3;
    sig[5] = 0x0000_0101;
    assert_eq!(first_ata_port(0b100110, &det, &sig), Some(2));
    assert_eq!(first_ata_port(0b100010, &det, &sig), Some(5));
    assert_eq!(first_ata_port(0b000010, &det, &sig), None);
}

#[test]
fn ahci_slots_and_requests() {
    let mut d = AhciDriver::from_parts(0xFEB0_0000, 2, ahci_config(), 2, 1000, 512);
    assert_eq!(d.port(), 2);
    assert_eq!(d.info().max_sectors_per_request, 256);
    assert_eq!(d.cmd_header_addr(1), 0x10_0020);
    assert_eq!(d.cmd_table_phys(1), 0x12_0100);
    assert_eq!(d.begin_request(999, 2, false), Err(BlockError::InvalidSector));
    assert_eq!(d.begin_request(0, 257, false), Err(BlockError::RequestTooLarge));
    let s0 = d.begin_request(0, 8, false).unwrap();
    d.record_submission(s0, 11);
    let s1 = d.begin_request(8, 8, true).unwrap();
    assert_ne!(s0, s1);
    d.record_submission(s1, 12);
    // The 32-entry slot table still has entries past the two the HBA offers.
    assert!(d.can_submit());
    assert_eq!(d.begin_request(16, 8, false), Err(BlockError::QueueFull));
    let mut active = d.active_slots();
    active.sort();
    assert_eq!(active.len(), 2);
    let c = d.finish_completion(s0, 1, 4096);
    assert_eq!((c.request_id, c.status, c.bytes_transferred), (11, 0, 4096));
    let e = d.finish_completion(s1, 0x51, 0);
    assert_eq!((e.request_id, e.status), (12, 1));
    assert!(d.begin_request(16, 8, false).is_ok());
}

fn blk_config(queue_size: u16) -> VirtioBlkConfig {
    VirtioBlkConfig {
        queue_size,
        desc_phys: 0x1000,
        avail_phys: 0x2000,
        used_phys: 0x3000,
        headers_phys: 0x4000,
        status_phys: 0x5000,
        headers_cpu: 0x4000,
        status_cpu: 0x5000,
        notify_addr: 0xFE00_3000,
    }
}

#[test]
fn virtio_blk_setup_decisions() {
    assert_eq!(check_blk_config(&blk_config(2)), Err(VirtioBlkInitError::InvalidConfig));
    assert_eq!(check_blk_config(&blk_config(257)), Err(VirtioBlkInitError::InvalidConfig));
    assert_eq!(check_blk_config(&blk_config(128)), Ok(()));
    assert_eq!(blk_features(0x40), Err(VirtioBlkInitError::FeatureNegotiationFailed));
    assert_eq!(blk_features(0x1_0000_0000 | 0x40 | 0x20), Ok(0x1_0000_0040));
    assert_eq!(features_accepted(0x0B), Ok(()));
    assert!(features_accepted(0x03).is_err());
    let info = blk_device_info(0x1_0000_0040, 0x20, 2048, 4096);
    assert_eq!(
        info,
        BlockDeviceInfo { total_sectors: 2048, sector_size: 4096, max_sectors_per_request: 128, read_only: true }
    );
    assert_eq!(blk_device_info(0x1_0000_0000, 0, 10, 4096).sector_size, 512);
}

#[test]
fn virtio_blk_requests() {
    let info = BlockDeviceInfo { total_sectors: 100, sector_size: 512, max_sectors_per_request: 128, read_only: false };
    let mut d = VirtioBlkDriver::from_parts(0xFEB0_0000, 0x1_0000_0000, info, &blk_config(128));
    assert!(d.can_submit());
    assert_eq!(d.begin_request(99, 2, false), Err(BlockError::InvalidSector));
    let s = d.begin_request(10, 4, true).unwrap();
    assert_eq!(s.slot, 0);
    assert_eq!(s.desc_idx, 0);
    assert_eq!(s.header.req_type, TYPE_OUT);
    assert_eq!(s.header.sector, 10);
    assert_eq!(s.header_phys, 0x4000);
    assert_eq!(s.status_phys, 0x5000);
    d.record_submission(s.slot, s.desc_idx, 77);
    let next = d.begin_request(0, 1, false).unwrap();
    assert_eq!(next.slot, 1);
    assert_eq!(next.desc_idx, 3);
    assert_eq!(next.header.req_type, TYPE_IN);
    assert_eq!(next.header_phys, 0x4010);
    let done = d.complete(BlkPollResult { desc_idx: 0, status: 0, bytes_written: 2048 }, 0).unwrap();
    assert_eq!((done.request_id, done.status, done.bytes_transferred), (77, 0, 2048));
    assert!(d.complete(BlkPollResult { desc_idx: 0, status: 0, bytes_written: 0 }, 0).is_none());
    assert_eq!(d.flush(), Err(BlockError::Unsupported));
}

#[test]
fn phy_cache_is_last_read() {
    let mut phy = PhyManager::new(0xfebc_0000, 1_000_000);
    let down = LinkStatus { link_up: false, full_duplex: false, speed: LinkSpeed::Unknown };
    assert_eq!(phy.cached_link_status(), down);
    let up = phy.link_status_from(LinkStatusResult { link_up: 1, full_duplex: 1, speed: 2 });
    assert_eq!(up, LinkStatus { link_up: true, full_duplex: true, speed: LinkSpeed::Speed1000 });
    assert_eq!(phy.cached_link_status(), up);
    assert_eq!(phy.cached_link_status(), up);
    assert!(!phy.is_link_up(LinkStatusResult { link_up: 0, full_duplex: 0, speed: 1 }));
    assert_eq!(
        phy.cached_link_status(),
        LinkStatus { link_up: false, full_duplex: false, speed: LinkSpeed::Speed100 }
    );
    assert_eq!(phy.mmio_base(), 0xfebc_0000);
    assert_eq!(phy.tsc_freq(), 1_000_000);
}
