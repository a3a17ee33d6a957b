use morpheus_network::driver::intel::bringup::{
    BringUpAction, BringUpEvent, BringUpPhase, BringUpWarning, E1000eBringUp,
};
use morpheus_network::driver::intel::init::{E1000eConfig, E1000eInitError};
use morpheus_network::driver::intel::regs::{CTRL, IMC, INT_MASK_ALL, RCTL, RDBAL, STATUS, TDT};

const MAC: [u8; 6] = [0x52, 0x54, 0x00, 0x12, 0x34, 0x56];

/// A device that answers every action: registers read back `reg_value`,
/// waits are satisfied at once, routines succeed as configured.
struct Device {
    tsc: u64,
    reset_ok: bool,
    phy_ok_from: u32,
    phy_checks: u32,
    mac: (u32, [u8; 6]),
    queues_busy: bool,
}

impl Device {
    fn healthy() -> Self {
        Device { tsc: 1, reset_ok: true, phy_ok_from: 0, phy_checks: 0, mac: (0, MAC), queues_busy: false }
    }

    fn answer(&mut self, a: BringUpAction) -> BringUpEvent {
        self.tsc += 1000;
        match a {
            BringUpAction::Read(_) => BringUpEvent::Value(0xFF),
            BringUpAction::Sample(_) => BringUpEvent::Sample(0x200, self.tsc),
            BringUpAction::SampleQueues => {
                let q = if self.queues_busy { 0x0200_0000 } else { 0 };
                BringUpEvent::Queues(q, 0, self.tsc)
            }
            BringUpAction::ResetDevice => BringUpEvent::Outcome(self.reset_ok),
            BringUpAction::DisableUlp => BringUpEvent::Outcome(true),
            BringUpAction::CheckPhy => {
                self.phy_checks += 1;
                BringUpEvent::Outcome(self.phy_checks > self.phy_ok_from)
            }
            BringUpAction::PhyRead(_) => BringUpEvent::Phy(Some(0x0800)),
            BringUpAction::PhySample(_) => BringUpEvent::PhySample(Some(0), self.tsc),
            BringUpAction::ReadMac => BringUpEvent::Mac(self.mac.0, self.mac.1),
            _ => BringUpEvent::Done,
        }
    }
}

fn run(dev: &mut Device, tsc_freq: u64) -> (E1000eBringUp, Vec<BringUpAction>, Vec<BringUpWarning>) {
    let config = E1000eConfig::new(0x1000_0000, 0x1000_0000, tsc_freq);
    let mut b = E1000eBringUp::new(&config);
    let mut actions = Vec::new();
    let mut warnings = Vec::new();
    for _ in 0..1000 {
        let a = b.action();
        if a == BringUpAction::Finish {
            break;
        }
        actions.push(a);
        if let Some(w) = b.on_event(dev.answer(a)) {
            warnings.push(w);
        }
    }
    (b, actions, warnings)
}

fn position(actions: &[BringUpAction], a: BringUpAction) -> usize {
    actions.iter().position(|x| *x == a).unwrap()
}

#[test]
fn bring_up_runs_the_whole_sequence() {
    let mut dev = Device::healthy();
    let (b, actions, warnings) = run(&mut dev, 1_000_000);
    assert_eq!(b.outcome(), Some(Ok(MAC)));
    assert!(warnings.is_empty());
    assert_eq!(actions[0], BringUpAction::Write(IMC, INT_MASK_ALL));
    assert_eq!(actions[1], BringUpAction::Read(STATUS));
    // RX is disabled from what RCTL read back (0xFF without the enable bit).
    assert_eq!(actions[4], BringUpAction::Write(RCTL, 0xFD));
    // Bus mastering is disabled before the reset and enabled again after the rings.
    let master_off = position(&actions, BringUpAction::Write(CTRL, 0xFF | 0x4));
    let reset = position(&actions, BringUpAction::ResetDevice);
    let mac = position(&actions, BringUpAction::WriteMac(MAC));
    let rx_ring = position(&actions, BringUpAction::SetupRxRing(32 * 16));
    let tx_ring = position(&actions, BringUpAction::SetupTxRing(32 * 16));
    let master_on = position(&actions, BringUpAction::Write(CTRL, 0xFF & !0x4));
    let enable_rx = position(&actions, BringUpAction::EnableRx);
    let link = position(&actions, BringUpAction::SetLinkUp);
    assert!(master_off < reset && reset < mac && mac < rx_ring && rx_ring < tx_ring);
    assert!(tx_ring < master_on && master_on < enable_rx && enable_rx < link);
    // The ten ring registers are cleared in order.
    let first = position(&actions, BringUpAction::Write(RDBAL, 0));
    assert_eq!(actions[first + 9], BringUpAction::Write(TDT, 0));
    // The PHY is woken (power-down bit cleared) and reset.
    assert!(actions.contains(&BringUpAction::PhyWrite(0, 0)));
    assert!(actions.contains(&BringUpAction::PhyWrite(0, 0x8000)));
    assert_eq!(*actions.last().unwrap(), BringUpAction::Delay(100_000));
}

#[test]
fn bring_up_fails_on_reset_timeout() {
    let mut dev = Device::healthy();
    dev.reset_ok = false;
    let (b, actions, _) = run(&mut dev, 1_000_000);
    assert_eq!(b.outcome(), Some(Err(E1000eInitError::ResetTimeout)));
    assert_eq!(*actions.last().unwrap(), BringUpAction::ResetDevice);
}

#[test]
fn bring_up_recovers_the_phy_or_gives_up() {
    let mut late = Device::healthy();
    late.phy_ok_from = 2;
    let (b, actions, _) = run(&mut late, 1_000_000);
    assert_eq!(b.outcome(), Some(Ok(MAC)));
    let check = position(&actions, BringUpAction::CheckPhy);
    assert_eq!(actions[check + 1], BringUpAction::Delay(50_000));
    assert_eq!(actions[check + 3], BringUpAction::TogglePhyPower);

    let mut dead = Device::healthy();
    dead.phy_ok_from = u32::MAX;
    let (b, actions, _) = run(&mut dead, 1_000_000);
    assert_eq!(b.outcome(), Some(Err(E1000eInitError::PhyNotAccessible)));
    assert_eq!(dead.phy_checks, 4);
    assert!(actions.contains(&BringUpAction::SmbusTogglePhyPower));
}

#[test]
fn bring_up_rejects_bad_macs() {
    for mac in [(0, [0u8; 6]), (0, [0xFF; 6]), (1, MAC)] {
        let mut dev = Device::healthy();
        dev.mac = mac;
        let (b, _, _) = run(&mut dev, 1_000_000);
        assert_eq!(b.outcome(), Some(Err(E1000eInitError::InvalidMac)));
    }
}

#[test]
fn bring_up_warns_when_a_wait_times_out() {
    let mut dev = Device::healthy();
    dev.queues_busy = true;
    let (b, _, warnings) = run(&mut dev, 100_000);
    assert_eq!(warnings, vec![BringUpWarning::QuiesceTimeout]);
    assert_eq!(b.outcome(), Some(Ok(MAC)));
}

#[test]
fn bring_up_ignores_unrelated_reports() {
    let config = E1000eConfig::new(0, 0, 1000);
    let mut b = E1000eBringUp::new(&config);
    assert_eq!(b.on_event(BringUpEvent::Value(1)), None);
    assert_eq!(b.phase, BringUpPhase::MaskInterrupts);
}
