use morpheus_network::driver::usb_msd::UsbMsdInitError;
use morpheus_network::driver::xhci_bringup::{XhciAction, XhciBringUp, XhciEvent, XhciPhase};

const MMIO: u64 = 0xFE00_0000;
const DMA: u64 = 0x10_0000;
const OP: u64 = MMIO + 0x20;
const RT: u64 = MMIO + 0x3000;

struct Controller {
    tsc: u64,
    probe: u32,
    hcs2: u32,
    resets_failing: u32,
    halted: bool,
}

impl Controller {
    fn healthy() -> Self {
        Controller { tsc: 1, probe: 0x0100_0020, hcs2: 2 << 27, resets_failing: 0, halted: false }
    }

    fn answer(&mut self, a: XhciAction) -> XhciEvent {
        self.tsc += 100;
        match a {
            XhciAction::ReadCaps => XhciEvent::Caps(self.probe, (4 << 24) | 0x20, self.hcs2, 4, 0x2000, 0x3000),
            XhciAction::ResetController => {
                if self.resets_failing > 0 {
                    self.resets_failing -= 1;
                    XhciEvent::Outcome(false)
                } else {
                    XhciEvent::Outcome(true)
                }
            }
            XhciAction::Read(_) => XhciEvent::Value(0x2A0),
            XhciAction::Sample(_) => XhciEvent::Sample(if self.halted { 1 } else { 0 }, self.tsc),
            _ => XhciEvent::Done,
        }
    }
}

fn run(c: &mut Controller, tsc_freq: u64) -> (XhciBringUp, Vec<XhciAction>) {
    let mut b = XhciBringUp::new(MMIO, tsc_freq, DMA);
    let mut actions = Vec::new();
    for _ in 0..1000 {
        let a = b.action();
        if a == XhciAction::Finish {
            break;
        }
        actions.push(a);
        b.on_event(c.answer(a));
    }
    (b, actions)
}

#[test]
fn xhci_bring_up_programs_the_controller() {
    let mut c = Controller::healthy();
    let (b, actions) = run(&mut c, 3_000_000_000);
    let caps = b.outcome().unwrap().unwrap();
    assert_eq!((caps.op_base, caps.rt_base, caps.db_base), (OP, RT, MMIO + 0x2000));
    assert_eq!((caps.max_slots, caps.max_ports, caps.ctx_size, caps.n_scratch), (0x20, 4, 64, 2));
    let expected_head = vec![
        XhciAction::ReadCaps,
        XhciAction::ZeroDma,
        XhciAction::BiosHandOff(4),
        XhciAction::DelayMs(10),
        XhciAction::ResetController,
        XhciAction::DelayMs(50),
        XhciAction::Write(OP + 0x38, 16),
        XhciAction::WriteDma64(DMA + 0x7000, DMA + 0x8000),
        XhciAction::WriteDma64(DMA + 0x7008, DMA + 0x9000),
        XhciAction::WriteDma64(DMA, DMA + 0x7000),
        XhciAction::Write(OP + 0x30, DMA as u32),
        XhciAction::Write(OP + 0x34, 0),
        XhciAction::Write(OP + 0x18, 0x10_1001),
        XhciAction::Write(OP + 0x1C, 0),
        XhciAction::WriteDma32(DMA + 0x1400, 0x10_1200),
        XhciAction::WriteDma32(DMA + 0x1404, 0),
        XhciAction::WriteDma32(DMA + 0x1408, 32),
        XhciAction::WriteDma32(DMA + 0x140C, 0),
        XhciAction::Write(RT + 0x28, 1),
        XhciAction::Write(RT + 0x38, 0x10_1208),
        XhciAction::Write(RT + 0x3C, 0),
        XhciAction::Write(RT + 0x30, 0x10_1400),
        XhciAction::Write(RT + 0x34, 0),
        XhciAction::Read(RT + 0x20),
        XhciAction::Write(RT + 0x20, 0x2A2),
        XhciAction::Write(OP, 5),
        XhciAction::Sample(OP + 4),
    ];
    assert_eq!(&actions[..expected_head.len()], &expected_head[..]);
    let tail = &actions[expected_head.len()..];
    assert_eq!(tail.len(), 4 * 2 + 1 + 4 * 2 + 1);
    assert_eq!(tail[0], XhciAction::Read(OP + 0x400));
    assert_eq!(tail[1], XhciAction::Write(OP + 0x400, 0xA0));
    assert_eq!(tail[7], XhciAction::Write(OP + 0x430, 0xA0));
    assert_eq!(tail[8], XhciAction::DelayMs(50));
    assert_eq!(tail[10], XhciAction::Write(OP + 0x400, 0x2A0));
    assert_eq!(tail[17], XhciAction::DelayMs(200));
}

#[test]
fn xhci_bring_up_fails_on_a_dead_controller() {
    let mut c = Controller::healthy();
    c.probe = 0;
    let (b, actions) = run(&mut c, 1000);
    assert_eq!(b.outcome(), Some(Err(UsbMsdInitError::ControllerInitFailed)));
    assert_eq!(actions, vec![XhciAction::ReadCaps]);
}

#[test]
fn xhci_reset_retries_with_backoff() {
    let mut once = Controller::healthy();
    once.resets_failing = 1;
    let (b, actions) = run(&mut once, 1000);
    assert!(matches!(b.outcome(), Some(Ok(_))));
    assert_eq!(&actions[4..7], &[XhciAction::ResetController, XhciAction::DelayMs(100), XhciAction::ResetController]);

    let mut never = Controller::healthy();
    never.resets_failing = 3;
    let (b, actions) = run(&mut never, 1000);
    assert_eq!(b.outcome(), Some(Err(UsbMsdInitError::ControllerInitFailed)));
    assert_eq!(
        &actions[4..],
        &[
            XhciAction::ResetController,
            XhciAction::DelayMs(100),
            XhciAction::ResetController,
            XhciAction::DelayMs(200),
            XhciAction::ResetController,
            XhciAction::DelayMs(300),
        ]
    );
}

#[test]
fn xhci_bring_up_refuses_too_many_scratchpads_and_a_halted_controller() {
    let mut greedy = Controller::healthy();
    greedy.hcs2 = 9 << 27;
    let (b, actions) = run(&mut greedy, 1000);
    assert_eq!(b.outcome(), Some(Err(UsbMsdInitError::ControllerInitFailed)));
    assert_eq!(*actions.last().unwrap(), XhciAction::Write(OP + 0x38, 16));

    let mut halted = Controller::healthy();
    halted.halted = true;
    let (b, actions) = run(&mut halted, 1000);
    assert_eq!(b.outcome(), Some(Err(UsbMsdInitError::ControllerInitFailed)));
    let samples = actions.iter().filter(|a| matches!(a, XhciAction::Sample(_))).count();
    assert_eq!(samples, 12);
    assert_eq!(b.state().phase, XhciPhase::Failed(UsbMsdInitError::ControllerInitFailed));
}
