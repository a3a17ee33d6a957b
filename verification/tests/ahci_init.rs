use morpheus_network::driver::ahci::{AhciConfig, AhciInitError, SIG_ATA, SIG_ATAPI};
use morpheus_network::driver::ahci_init::{first_implemented, AhciInit, AhciInitAction, AhciInitEvent};

fn config(cmd_list_phys: u64) -> AhciConfig {
    AhciConfig {
        tsc_freq: 1_000_000,
        cmd_list_cpu: 0x10_0000,
        cmd_list_phys,
        fis_cpu: 0x10_0400,
        fis_phys: 0x10_0400,
        cmd_tables_cpu: 0x10_1000,
        cmd_tables_phys: 0x10_1000,
        identify_cpu: 0x10_3000,
        identify_phys: 0x10_3000,
    }
}

struct Hba {
    s64: bool,
    sig: u32,
    stop_ok: bool,
    identify_ok: bool,
}

impl Hba {
    fn answer(&self, a: AhciInitAction) -> AhciInitEvent {
        match a {
            AhciInitAction::ReadCaps => AhciInitEvent::Caps(0, 32, 0b1010, self.s64),
            AhciInitAction::ReadDetection(p) => AhciInitEvent::Value(if p == 3 { 3 } else { 1 }),
            AhciInitAction::ReadSignature(_) => AhciInitEvent::Value(self.sig),
            AhciInitAction::StopPort(_) => AhciInitEvent::Outcome(self.stop_ok),
            AhciInitAction::Identify(_) => AhciInitEvent::Outcome(self.identify_ok),
            AhciInitAction::ReadIdentify => AhciInitEvent::Identity(1000, 512),
            _ => AhciInitEvent::Done,
        }
    }
}

fn healthy() -> Hba {
    Hba { s64: true, sig: SIG_ATA, stop_ok: true, identify_ok: true }
}

fn run(hba: &Hba, cfg: AhciConfig) -> (AhciInit, Vec<AhciInitAction>) {
    let mut init = AhciInit::new(cfg);
    let mut actions = Vec::new();
    for _ in 0..100 {
        let a = init.action();
        if a == AhciInitAction::Finish {
            break;
        }
        actions.push(a);
        init.on_event(hba.answer(a));
    }
    (init, actions)
}

#[test]
fn ahci_init_finds_the_ata_port_and_identifies_it() {
    let (init, actions) = run(&healthy(), config(0x10_0000));
    assert_eq!(init.outcome(), Some(Ok((3, 32, 1000, 512))));
    assert_eq!(
        actions,
        vec![
            AhciInitAction::EnableAhci,
            AhciInitAction::ReadCaps,
            AhciInitAction::DisableInterrupts,
            AhciInitAction::ReadDetection(1),
            AhciInitAction::ReadDetection(3),
            AhciInitAction::ReadSignature(3),
            AhciInitAction::StopPort(3),
            AhciInitAction::SetupPort { port: 3, cmd_list_phys: 0x10_0000, fis_phys: 0x10_0400 },
            AhciInitAction::ClearErrors(3),
            AhciInitAction::DisablePortInterrupts(3),
            AhciInitAction::StartPort(3),
            AhciInitAction::Identify(3),
            AhciInitAction::ReadIdentify,
        ]
    );
}

#[test]
fn ahci_init_failures() {
    let mut bad = config(0x10_0000);
    bad.fis_cpu = 0;
    let (init, actions) = run(&healthy(), bad);
    assert_eq!(init.outcome(), Some(Err(AhciInitError::InvalidConfig)));
    assert!(actions.is_empty());

    let no64 = Hba { s64: false, ..healthy() };
    let (init, _) = run(&no64, config(0x1_0000_0000));
    assert_eq!(init.outcome(), Some(Err(AhciInitError::No64BitSupport)));
    let (init, _) = run(&no64, config(0xFFFF_F000));
    assert!(matches!(init.outcome(), Some(Ok(_))));

    let atapi = Hba { sig: SIG_ATAPI, ..healthy() };
    let (init, _) = run(&atapi, config(0x10_0000));
    assert_eq!(init.outcome(), Some(Err(AhciInitError::NoDeviceFound)));

    let stuck = Hba { stop_ok: false, ..healthy() };
    let (init, _) = run(&stuck, config(0x10_0000));
    assert_eq!(init.outcome(), Some(Err(AhciInitError::PortStopTimeout)));

    let mute = Hba { identify_ok: false, ..healthy() };
    let (init, _) = run(&mute, config(0x10_0000));
    assert_eq!(init.outcome(), Some(Err(AhciInitError::IdentifyFailed)));
}

#[test]
fn implemented_ports_are_scanned_in_order() {
    assert_eq!(first_implemented(0b1010, 0), Some(1));
    assert_eq!(first_implemented(0b1010, 2), Some(3));
    assert_eq!(first_implemented(0b1010, 4), None);
    assert_eq!(first_implemented(0x8000_0000, 0), Some(31));
    assert_eq!(first_implemented(u32::MAX, 40), None);
}
