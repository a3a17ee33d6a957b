use morpheus_network::driver::usb_enum::{ScsiCommand, UsbEnumAction, UsbEnumEvent, UsbEnumPhase, UsbEnumeration};
use morpheus_network::driver::usb_msd::{MscEndpoints, UsbMsdInitError};

fn config_descriptor() -> [u8; 256] {
    let mut d = [0u8; 256];
    let parts: [&[u8]; 4] = [
        &[9, 2, 32, 0, 1, 1, 0, 0x80, 50],
        &[9, 4, 0, 0, 2, 0x08, 0x06, 0x50, 0],
        &[7, 5, 0x81, 0x02, 0x00, 0x02, 0],
        &[7, 5, 0x02, 0x02, 0x00, 0x02, 0],
    ];
    let mut off = 0;
    for p in parts {
        d[off..off + p.len()].copy_from_slice(p);
        off += p.len();
    }
    d
}

/// A hub whose port `device_port` holds a mass-storage device.
struct Hub {
    tsc: u64,
    device_port: u8,
    reset_completes: bool,
    slot: u8,
    capacity_ok: bool,
}

impl Hub {
    fn answer(&mut self, a: UsbEnumAction) -> UsbEnumEvent {
        self.tsc += 1000;
        match a {
            UsbEnumAction::ReadPortsc(p) => UsbEnumEvent::Value(if p == self.device_port { 0x201 } else { 0 }),
            UsbEnumAction::SamplePortsc(_) => {
                let ps = if self.reset_completes { 0x20_0000 | 0x2 | (3 << 10) | 0x201 } else { 0x211 };
                UsbEnumEvent::Sample(ps, self.tsc)
            }
            UsbEnumAction::EnableSlot => UsbEnumEvent::Command(Ok((1, self.slot))),
            UsbEnumAction::AddressDevice { .. } | UsbEnumAction::ConfigureEndpoints { .. } => {
                UsbEnumEvent::Command(Ok((1, self.slot)))
            }
            UsbEnumAction::ControlIn { .. } | UsbEnumAction::ControlNoData { .. } => UsbEnumEvent::Transfer(Ok(0)),
            UsbEnumAction::ReadDescriptors => UsbEnumEvent::Descriptors(config_descriptor()),
            UsbEnumAction::Scsi(ScsiCommand::TestUnitReady) => UsbEnumEvent::Scsi(Err(UsbMsdInitError::IoError)),
            UsbEnumAction::Scsi(ScsiCommand::ReadCapacity) => {
                UsbEnumEvent::Scsi(if self.capacity_ok { Ok(8) } else { Err(UsbMsdInitError::CommandTimeout) })
            }
            UsbEnumAction::ReadCapacityData => UsbEnumEvent::Capacity([0, 0, 0x0F, 0xFF, 0, 0, 2, 0]),
            _ => UsbEnumEvent::Done,
        }
    }
}

fn hub(device_port: u8) -> Hub {
    Hub { tsc: 1, device_port, reset_completes: true, slot: 5, capacity_ok: true }
}

fn run(h: &mut Hub, max_ports: u8, tsc_freq: u64) -> (UsbEnumeration, Vec<UsbEnumAction>) {
    let mut e = UsbEnumeration::new(max_ports, tsc_freq);
    let mut actions = Vec::new();
    for _ in 0..1000 {
        let a = e.action();
        if a == UsbEnumAction::Finish {
            break;
        }
        actions.push(a);
        e.on_event(h.answer(a));
    }
    (e, actions)
}

#[test]
fn enumeration_configures_the_first_mass_storage_device() {
    let mut h = hub(1);
    let (e, actions) = run(&mut h, 4, 3_000_000_000);
    let (slot, eps, info) = e.outcome().unwrap().unwrap();
    assert_eq!(slot, 5);
    assert_eq!(
        eps,
        MscEndpoints { config_value: 1, ep_in: 0x81, ep_out: 0x02, max_packet_in: 512, max_packet_out: 512 }
    );
    assert_eq!((info.total_sectors, info.sector_size, info.max_sectors_per_request), (0x1000, 512, 8));
    let expected = vec![
        UsbEnumAction::ReadPortsc(0),
        UsbEnumAction::ReadPortsc(1),
        UsbEnumAction::DelayMs(100),
        UsbEnumAction::ResetTransferState,
        UsbEnumAction::ReadPortsc(1),
        UsbEnumAction::WritePortsc(1, 0x211),
        UsbEnumAction::SamplePortsc(1),
        UsbEnumAction::WritePortsc(1, 0x20_0E03),
        UsbEnumAction::EnableSlot,
        UsbEnumAction::LinkOutputContext(5),
        UsbEnumAction::AddressDevice { port: 1, speed: 3 },
        UsbEnumAction::ControlIn { setup: 0x0012_0000_0100_0680, len: 18 },
        UsbEnumAction::ControlIn { setup: 0x00FF_0000_0200_0680, len: 255 },
        UsbEnumAction::ReadDescriptors,
        UsbEnumAction::ControlNoData { setup: 0x1_0900 },
        UsbEnumAction::ConfigureEndpoints {
            ep_in: 0x81,
            ep_out: 0x02,
            dci_in: 3,
            dci_out: 4,
            max_packet_in: 512,
            max_packet_out: 512,
        },
        UsbEnumAction::Scsi(ScsiCommand::TestUnitReady),
        UsbEnumAction::Scsi(ScsiCommand::ReadCapacity),
        UsbEnumAction::ReadCapacityData,
    ];
    assert_eq!(actions, expected);
}

#[test]
fn enumeration_moves_past_bad_ports_and_reports_no_media() {
    let mut nothing = hub(9);
    let (e, actions) = run(&mut nothing, 3, 1000);
    assert_eq!(e.outcome(), Some(Err(UsbMsdInitError::NoMedia)));
    assert_eq!(actions.len(), 3);

    let (e, actions) = run(&mut hub(0), 0, 1000);
    assert_eq!(e.outcome(), Some(Err(UsbMsdInitError::NoMedia)));
    assert!(actions.is_empty());

    let mut stuck = hub(0);
    stuck.reset_completes = false;
    let (e, actions) = run(&mut stuck, 1, 4000);
    assert_eq!(e.outcome(), Some(Err(UsbMsdInitError::NoMedia)));
    let samples = actions.iter().filter(|a| matches!(a, UsbEnumAction::SamplePortsc(_))).count();
    assert_eq!(samples, 4);

    let mut no_slot = hub(0);
    no_slot.slot = 0;
    let (e, _) = run(&mut no_slot, 1, 1000);
    assert_eq!(e.outcome(), Some(Err(UsbMsdInitError::NoMedia)));
    assert_eq!(e.state().phase, UsbEnumPhase::Failed(UsbMsdInitError::NoMedia));
}

#[test]
fn enumeration_fails_when_the_capacity_cannot_be_read() {
    let mut h = hub(0);
    h.capacity_ok = false;
    let (e, _) = run(&mut h, 2, 1000);
    assert_eq!(e.outcome(), Some(Err(UsbMsdInitError::CommandTimeout)));
}

#[test]
fn scsi_commands_carry_their_blocks() {
    assert_eq!(ScsiCommand::TestUnitReady.cdb(), vec![0u8; 6]);
    assert_eq!(ScsiCommand::ReadCapacity.cdb(), vec![0x25, 0, 0, 0, 0, 0, 0, 0, 0, 0]);
    assert_eq!((ScsiCommand::ReadCapacity.data_len(), ScsiCommand::ReadCapacity.data_in()), (8, true));
    assert_eq!((ScsiCommand::TestUnitReady.data_len(), ScsiCommand::TestUnitReady.data_in()), (0, false));
}
