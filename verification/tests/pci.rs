use morpheus_network::pci::capability::{dump_capabilities, probe_virtio_caps, walk_capabilities_rust};
use morpheus_network::pci::config::{cfg_read16, cfg_read32, cfg_read8, PciAddr};

/// A virtio-net function's configuration space: capabilities at 0x40
/// (common, BAR4 + 0x0), 0x54 (notify, BAR4 + 0x3000, multiplier 4) and
/// 0x68 (a non-vendor capability, MSI-X).
fn virtio_cfg() -> Vec<u8> {
    let mut c = vec![0u8; 256];
    c[0x00..0x02].copy_from_slice(&0x1AF4u16.to_le_bytes());
    c[0x02..0x04].copy_from_slice(&0x1041u16.to_le_bytes());
    c[0x06] = 0x10; // capability list
    c[0x34] = 0x40;
    // BAR4: 64-bit memory BAR at 0x0000_0001_FE00_0000
    c[0x20..0x24].copy_from_slice(&0xFE00_000Cu32.to_le_bytes());
    c[0x24..0x28].copy_from_slice(&0x0000_0001u32.to_le_bytes());
    // common cfg
    c[0x40] = 0x09;
    c[0x41] = 0x54;
    c[0x42] = 16;
    c[0x43] = 1;
    c[0x44] = 4;
    c[0x48..0x4C].copy_from_slice(&0u32.to_le_bytes());
    c[0x4C..0x50].copy_from_slice(&0x1000u32.to_le_bytes());
    // notify cfg
    c[0x54] = 0x09;
    c[0x55] = 0x68;
    c[0x56] = 20;
    c[0x57] = 2;
    c[0x58] = 4;
    c[0x5C..0x60].copy_from_slice(&0x3000u32.to_le_bytes());
    c[0x60..0x64].copy_from_slice(&0x1000u32.to_le_bytes());
    c[0x64..0x68].copy_from_slice(&4u32.to_le_bytes());
    // MSI-X
    c[0x68] = 0x11;
    c[0x69] = 0x00;
    c
}

#[test]
fn pci_config_reads() {
    let c = virtio_cfg();
    assert_eq!(cfg_read16(&c, 0x00), 0x1AF4);
    assert_eq!(cfg_read16(&c, 0x02), 0x1041);
    assert_eq!(cfg_read8(&c, 0x34), 0x40);
    assert_eq!(cfg_read32(&c, 0x20), 0xFE00_000C);
    assert_eq!(PciAddr::new(0, 3, 0), PciAddr { bus: 0, device: 3, function: 0 });
}

#[test]
fn pci_capability_walk() {
    let c = virtio_cfg();
    assert_eq!(walk_capabilities_rust(&c), vec![(0x40, 0x09), (0x54, 0x09), (0x68, 0x11)]);
    let mut no_list = c.clone();
    no_list[0x06] = 0;
    assert!(walk_capabilities_rust(&no_list).is_empty());
}

#[test]
fn pci_capability_walk_stops_on_loops() {
    let mut c = vec![0u8; 256];
    c[0x06] = 0x10;
    c[0x34] = 0x40;
    c[0x40] = 0x05;
    c[0x41] = 0x40; // points at itself
    assert_eq!(walk_capabilities_rust(&c).len(), 49);
}

#[test]
fn pci_virtio_capabilities() {
    let c = virtio_cfg();
    let caps = probe_virtio_caps(&c);
    assert!(caps.has_required());
    assert_eq!(caps.bar_addrs[4], 0x1_FE00_0000);
    assert_eq!(caps.common_cfg_addr(), Some(0x1_FE00_0000));
    assert_eq!(caps.notify_addr(), Some(0x1_FE00_3000));
    assert_eq!(caps.notify_multiplier(), 4);
    assert_eq!(caps.device_cfg_addr(), None);
    assert_eq!(caps.isr_addr(), None);
    assert_eq!(caps.found_mask, 0b11);
}

#[test]
fn pci_capability_dump() {
    let c = virtio_cfg();
    let mut out = Vec::new();
    dump_capabilities(PciAddr::new(0, 3, 0), &c, &mut out);
    let text = String::from_utf8(out).unwrap();
    let lines: Vec<&str> = text.split("\r\n").collect();
    assert_eq!(lines[0], "PCI 0x0000000000000000:0x0000000000000003.0x0000000000000000 capabilities:");
    assert_eq!(
        lines[1],
        "  [0x0000000000000040] ID=0x0000000000000009 VirtIO cfg_type=0x0000000000000001 bar=0x0000000000000004 off=0x0000000000000000 len=0x0000000000001000"
    );
    assert!(lines[2].contains("cfg_type=0x0000000000000002"));
    assert_eq!(lines[3], "  [0x0000000000000068] ID=0x0000000000000011");
    assert_eq!(lines.len(), 5);
}
