use morpheus_network::driver::block_traits::BlockError;
use morpheus_network::driver::usb_bot::{BotAction, BotCommand, BotEvent, BotPhase};
use morpheus_network::driver::usb_msd::{
    read_capacity_cdb, test_unit_ready_cdb, TransferRing, OFF_CBW, OFF_CSW, OFF_DATA,
    bot_transferred, build_cbw, check_config, check_slot, cmd_completion, configure_add_flags, crcr_value,
    csw_valid, dci_of, decode_caps, ep0_max_packet, ep_context_dword1, erdp_value, parse_config_desc,
    port_has_device, port_power_value, port_reset_poll, read10_cdb, read_capacity_info, reset_backoff_ms,
    setup_packet, slot_context, xfer_completion, EventRing, TrbRing, UsbMsdConfig, UsbMsdDriver,
    UsbMsdInitError, CMD_RING_LEN, EVT_RING_LEN, XFER_RING_LEN,
};

fn config(tsc: u64) -> UsbMsdConfig {
    UsbMsdConfig { tsc_freq: tsc, dma_phys: 0, dma_size: 0 }
}

#[test]
fn usb_config_needs_base_and_clock() {
    assert_eq!(check_config(0, &config(1000)), Err(UsbMsdInitError::InvalidConfig));
    assert_eq!(check_config(0x1000, &config(0)), Err(UsbMsdInitError::InvalidConfig));
    assert_eq!(check_config(0x1000, &config(1000)), Ok(()));
}

#[test]
fn usb_error_messages() {
    assert_eq!(UsbMsdInitError::NoMedia.message(), "No USB mass-storage device found");
    assert_eq!(UsbMsdInitError::CommandTimeout.message(), "USB command timeout");
}

#[test]
fn usb_decode_caps_fields() {
    // CAPLENGTH 0x20, 64 slots, 4 ports, 64-byte contexts, 3 scratchpads (lo).
    let hcsparams1 = 0x0400_0040u32;
    let hcsparams2 = 3u32 << 27;
    let caps = decode_caps(0xF000_0000, 0x0100_0020, hcsparams1, hcsparams2, 4, 0x2003, 0x3011).unwrap();
    assert_eq!(caps.op_base, 0xF000_0020);
    assert_eq!(caps.db_base, 0xF000_2000);
    assert_eq!(caps.rt_base, 0xF000_3000);
    assert_eq!(caps.max_slots, 64);
    assert_eq!(caps.max_ports, 4);
    assert_eq!(caps.ctx_size, 64);
    assert_eq!(caps.n_scratch, 3);
    assert_eq!(caps.slots_enabled(), 16);
    assert_eq!(caps.check_scratch(), Ok(()));
}

#[test]
fn usb_decode_caps_dead_controller() {
    assert_eq!(decode_caps(0x1000, 0, 0, 0, 0, 0, 0), Err(UsbMsdInitError::ControllerInitFailed));
}

#[test]
fn usb_too_many_scratchpads() {
    // Hi field 1 => 32 scratchpads.
    let caps = decode_caps(0x1000, 0x20, 8, 1 << 21, 0, 0, 0).unwrap();
    assert_eq!(caps.n_scratch, 32);
    assert_eq!(caps.ctx_size, 32);
    assert_eq!(caps.slots_enabled(), 8);
    assert_eq!(caps.check_scratch(), Err(UsbMsdInitError::ControllerInitFailed));
}

#[test]
fn usb_register_values() {
    assert_eq!(reset_backoff_ms(0), 100);
    assert_eq!(reset_backoff_ms(2), 300);
    assert_eq!(crcr_value(0x1_2345_6789), (0x2345_6781, 1));
    assert_eq!(erdp_value(0x1234_5678), (0x1234_5678, 0));
    assert_eq!(erdp_value(0x1234_5670), (0x1234_5678, 0));
    // Power off clears PP and keeps RW1C bits written as zero.
    assert_eq!(port_power_value(0x00FE_0203, false), 0x0000_0003);
    assert_eq!(port_power_value(0x00FE_0003, true), 0x0000_0203);
    assert!(port_has_device(0x201));
    assert!(!port_has_device(0x200));
    assert!(!port_has_device(0x001));
}

#[test]
fn usb_port_reset_poll() {
    assert_eq!(port_reset_poll(0x10), None);
    assert_eq!(port_reset_poll(0x20_0000 | 0x2 | (4 << 10)), Some(Ok(4)));
    assert_eq!(port_reset_poll(0x20_0000), Some(Err(UsbMsdInitError::DeviceEnumerationFailed)));
}

#[test]
fn usb_ring_wraps_with_link_trb() {
    let mut r = TrbRing::new();
    for i in 0..(XFER_RING_LEN - 2) {
        let p = r.push(XFER_RING_LEN);
        assert_eq!(p.index, i);
        assert_eq!(p.cycle, 1);
        assert_eq!(p.link_index, None);
    }
    let p = r.push(XFER_RING_LEN);
    assert_eq!(p.index, XFER_RING_LEN - 2);
    assert_eq!(p.link_index, Some(XFER_RING_LEN - 1));
    assert_eq!(r, TrbRing { enq: 0, cycle: 0 });
}

#[test]
fn usb_command_ring_lap_flips_cycle() {
    let mut r = TrbRing::new();
    for _ in 0..(CMD_RING_LEN - 1) {
        r.push(CMD_RING_LEN);
    }
    assert_eq!(r, TrbRing { enq: 0, cycle: 0 });
    for _ in 0..(CMD_RING_LEN - 1) {
        r.push(CMD_RING_LEN);
    }
    assert_eq!(r, TrbRing { enq: 0, cycle: 1 });
}

#[test]
fn usb_event_ring_lap() {
    let mut e = EventRing::new();
    assert!(e.owns(1));
    assert!(!e.owns(0));
    for _ in 0..EVT_RING_LEN {
        e.advance();
    }
    assert_eq!(e, EventRing { deq: 0, cycle: 0 });
    assert!(e.owns(0x8400));
    assert_eq!(e.slot_addr(0x1000), 0x1000);
}

#[test]
fn usb_completions() {
    assert_eq!(cmd_completion(1 << 24, 5 << 24), Ok((1, 5)));
    assert_eq!(cmd_completion(4 << 24, 5 << 24), Err(UsbMsdInitError::IoError));
    assert_eq!(check_slot(0), Err(UsbMsdInitError::DeviceEnumerationFailed));
    assert_eq!(check_slot(3), Ok(3));
    assert_eq!(xfer_completion((1 << 24) | 12), Ok(12));
    assert_eq!(xfer_completion((13 << 24) | 0x0100_0000 - 1), Ok(0xFF_FFFF));
    assert_eq!(xfer_completion(6 << 24), Err(UsbMsdInitError::IoError));
}

#[test]
fn usb_setup_and_contexts() {
    // GET_DESCRIPTOR(device), 18 bytes.
    assert_eq!(setup_packet(0x80, 0x06, 0x0100, 0, 18), 0x0012_0000_0100_0680);
    assert_eq!(dci_of(0x81), 3);
    assert_eq!(dci_of(0x02), 4);
    assert_eq!(ep0_max_packet(4), 512);
    assert_eq!(ep0_max_packet(3), 64);
    assert_eq!(ep0_max_packet(2), 8);
    assert_eq!(ep0_max_packet(1), 64);
    assert_eq!(slot_context(3, 0), (0x0430_0000, 0x0001_0000));
    assert_eq!(ep_context_dword1(4, 64), 6 | (4 << 3) | (64 << 16));
    assert_eq!(configure_add_flags(3, 4), 0b11001);
}

fn msc_config_descriptor() -> Vec<u8> {
    let mut d = vec![0u8; 256];
    let desc: [u8; 32] = [
        9, 2, 32, 0, 1, 1, 0, 0x80, 50, // configuration, value 1, total 32
        9, 4, 0, 0, 2, 0x08, 0x06, 0x50, 0, // interface: mass storage, SCSI, BOT
        7, 5, 0x81, 0x02, 0x00, 0x02, 0, // bulk IN 0x81, 512
        7, 5, 0x02, 0x02, 0x40, 0x00, 0, // bulk OUT 0x02, 64
    ];
    d[..32].copy_from_slice(&desc);
    d
}

#[test]
fn usb_parse_config_descriptor() {
    let d = msc_config_descriptor();
    let eps = parse_config_desc(&d).unwrap();
    assert_eq!(eps.config_value, 1);
    assert_eq!(eps.ep_in, 0x81);
    assert_eq!(eps.ep_out, 0x02);
    assert_eq!(eps.max_packet_in, 512);
    assert_eq!(eps.max_packet_out, 64);
}

#[test]
fn usb_parse_config_descriptor_not_storage() {
    let mut d = msc_config_descriptor();
    d[9 + 5] = 0x03; // HID interface
    assert_eq!(parse_config_desc(&d), None);
}

#[test]
fn usb_parse_config_descriptor_truncated() {
    let mut d = msc_config_descriptor();
    d[2] = 25; // total length cuts the OUT endpoint
    assert_eq!(parse_config_desc(&d), None);
}

#[test]
fn usb_cbw_layout() {
    let cdb = read10_cdb(0x0102_0304, 8);
    assert_eq!(cdb, [0x28, 0, 1, 2, 3, 4, 0, 0, 8, 0]);
    let cbw = build_cbw(7, 4096, true, &cdb);
    assert_eq!(cbw.len(), 31);
    assert_eq!(&cbw[0..4], &[0x55, 0x53, 0x42, 0x43]);
    assert_eq!(&cbw[4..8], &[7, 0, 0, 0]);
    assert_eq!(&cbw[8..12], &[0, 0x10, 0, 0]);
    assert_eq!(cbw[12], 0x80);
    assert_eq!(cbw[13], 0);
    assert_eq!(cbw[14], 10);
    assert_eq!(&cbw[15..25], &cdb);
    assert!(cbw[25..].iter().all(|b| *b == 0));
    let no_data = build_cbw(1, 0, true, &[0u8; 6]);
    assert_eq!(no_data[12], 0);
    assert_eq!(no_data[14], 6);
}

#[test]
fn usb_csw_check() {
    let mut csw = vec![0x55, 0x53, 0x42, 0x53, 7, 0, 0, 0, 0, 0, 0, 0, 0];
    assert!(csw_valid(&csw, 7));
    assert!(!csw_valid(&csw, 8));
    csw[12] = 1;
    assert!(!csw_valid(&csw, 7));
    assert_eq!(bot_transferred(512, 12), 500);
    assert_eq!(bot_transferred(512, 600), 0);
}

#[test]
fn usb_capacity_and_reads() {
    // Last LBA 0x0003FFFF, 512-byte blocks.
    let info = read_capacity_info(&[0, 3, 0xFF, 0xFF, 0, 0, 2, 0]);
    assert_eq!(info.total_sectors, 0x4_0000);
    assert_eq!(info.sector_size, 512);
    assert_eq!(info.max_sectors_per_request, 8);
    assert!(info.read_only);
    let zero_block = read_capacity_info(&[0, 0, 0, 9, 0, 0, 0, 0]);
    assert_eq!(zero_block.sector_size, 512);
    let big_block = read_capacity_info(&[0, 0, 0, 9, 0, 0, 0x20, 0]);
    assert_eq!(big_block.max_sectors_per_request, 1);

    let caps = decode_caps(0x1000, 0x20, 0x0100_0020, 0, 0, 0x2000, 0x3000).unwrap();
    let mut drv = UsbMsdDriver::init_controller(&caps, 1000, 0x10_0000);
    assert_eq!(drv.info().sector_size, 512);
    assert!(drv.can_submit());
    drv.apply_capacity(&[0, 0, 0, 99, 0, 0, 2, 0]);
    assert_eq!(drv.info().total_sectors, 100);
    assert_eq!(drv.begin_read(0, 0x5000, 0), Err(BlockError::RequestTooLarge));
    assert_eq!(drv.begin_read(0, 0x5000, 9), Err(BlockError::RequestTooLarge));
    assert_eq!(drv.begin_read(0, 0, 1), Err(BlockError::InvalidSector));
    assert_eq!(drv.begin_read(99, 0x5000, 2), Err(BlockError::InvalidSector));
    assert_eq!(drv.begin_read(10, 0x5000, 4), Ok(2048));
    drv.finish_read(42, 2048);
    assert!(!drv.can_submit());
    assert_eq!(drv.begin_read(10, 0x5000, 4), Err(BlockError::QueueFull));
    let c = drv.poll_completion().unwrap();
    assert_eq!((c.request_id, c.status, c.bytes_transferred), (42, 0, 2048));
    assert_eq!(drv.poll_completion(), None);
    assert_eq!(drv.submit_write(0, 0x5000, 1, 1), Err(BlockError::Unsupported));
}

#[test]
fn usb_driver_tags_and_endpoints() {
    let caps = decode_caps(0x1000, 0x20, 0x0100_0020, 0, 0, 0x2000, 0x3000).unwrap();
    let mut drv = UsbMsdDriver::init_controller(&caps, 1000, 0x10_0000);
    assert_eq!(drv.next_tag(), 1);
    assert_eq!(drv.next_tag(), 2);
    assert_eq!(drv.set_bulk_endpoints(0x81, 0x02), (3, 4));
    drv.set_slot(2);
    assert_eq!(drv.device_doorbell(), 0x3008);
    assert_eq!(drv.portsc(1), 0x1020 + 0x400 + 0x10);
    let p = drv.cmd_enqueue();
    assert_eq!((p.index, p.cycle), (0, 1));
    assert!(drv.take_event(1));
    assert!(!drv.take_event(0));
}

fn csw(tag: u32, status: u8) -> [u8; 13] {
    let mut b = [0u8; 13];
    b[..4].copy_from_slice(&0x5342_5355u32.to_le_bytes());
    b[4..8].copy_from_slice(&tag.to_le_bytes());
    b[12] = status;
    b
}

#[test]
fn bot_command_with_data_in() {
    let cdb = read_capacity_cdb();
    let mut c = BotCommand::new(7, &cdb, 8, true);
    assert_eq!(c.cbw(), &build_cbw(7, 8, true, &cdb)[..]);
    assert_eq!(c.action(), BotAction::Queue { ring: TransferRing::BulkOut, offset: OFF_CBW, len: 31, flags: 0x420 });
    c.on_event(BotEvent::Queued);
    assert_eq!(c.action(), BotAction::Wait(5000));
    c.on_event(BotEvent::Transferred(Ok(0)));
    assert_eq!(c.action(), BotAction::Queue { ring: TransferRing::BulkIn, offset: OFF_DATA, len: 8, flags: 0x424 });
    c.on_event(BotEvent::Queued);
    assert_eq!(c.action(), BotAction::Wait(10000));
    c.on_event(BotEvent::Transferred(Ok(0)));
    assert_eq!(c.action(), BotAction::Queue { ring: TransferRing::BulkIn, offset: OFF_CSW, len: 13, flags: 0x420 });
    c.on_event(BotEvent::Queued);
    c.on_event(BotEvent::Transferred(Ok(0)));
    assert_eq!(c.action(), BotAction::ReadCsw);
    c.on_event(BotEvent::Status(csw(7, 0)));
    assert_eq!(c.state().phase, BotPhase::Done(8));
    assert_eq!(c.outcome(), Some(Ok(8)));
    assert_eq!(c.action(), BotAction::Finish);
}

#[test]
fn bot_command_without_data_and_with_errors() {
    let cdb = test_unit_ready_cdb();
    let mut c = BotCommand::new(1, &cdb, 0, false);
    c.on_event(BotEvent::Queued);
    c.on_event(BotEvent::Transferred(Ok(0)));
    assert_eq!(c.action(), BotAction::Queue { ring: TransferRing::BulkIn, offset: OFF_CSW, len: 13, flags: 0x420 });
    c.on_event(BotEvent::Queued);
    c.on_event(BotEvent::Transferred(Ok(0)));
    c.on_event(BotEvent::Status(csw(2, 0)));
    assert_eq!(c.outcome(), Some(Err(UsbMsdInitError::IoError)));

    let mut timeout = BotCommand::new(3, &cdb, 0, false);
    timeout.on_event(BotEvent::Queued);
    timeout.on_event(BotEvent::Transferred(Err(UsbMsdInitError::CommandTimeout)));
    assert_eq!(timeout.outcome(), Some(Err(UsbMsdInitError::CommandTimeout)));

    let mut short = BotCommand::new(4, &[0x28, 0, 0, 0, 0, 0, 0, 0, 1, 0], 512, true);
    short.on_event(BotEvent::Queued);
    short.on_event(BotEvent::Transferred(Ok(0)));
    short.on_event(BotEvent::Queued);
    short.on_event(BotEvent::Transferred(Ok(12)));
    short.on_event(BotEvent::Queued);
    short.on_event(BotEvent::Transferred(Ok(0)));
    short.on_event(BotEvent::Status(csw(4, 0)));
    assert_eq!(short.outcome(), Some(Ok(500)));
}
