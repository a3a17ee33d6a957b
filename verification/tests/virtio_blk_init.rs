use morpheus_network::driver::virtio_blk::{VirtioBlkConfig, VirtioBlkInitError};
use morpheus_network::driver::virtio_blk_init::{BlkInit, BlkInitAction, BlkInitEvent, BlkInitPhase};

fn config(queue_size: u16) -> VirtioBlkConfig {
    VirtioBlkConfig {
        queue_size,
        desc_phys: 0x1000,
        avail_phys: 0x2000,
        used_phys: 0x3000,
        headers_phys: 0x4000,
        status_phys: 0x5000,
        headers_cpu: 0x4000,
        status_cpu: 0x5000,
        notify_addr: 0x6000,
    }
}

struct Device {
    features: u64,
    reset_reads_left: u32,
    keeps_features_ok: bool,
    queue_ok: bool,
    status: u8,
}

impl Device {
    fn answer(&mut self, a: BlkInitAction) -> BlkInitEvent {
        match a {
            BlkInitAction::SetStatus(s) => {
                self.status = s;
                BlkInitEvent::Done
            }
            BlkInitAction::ReadStatus => {
                if self.reset_reads_left > 0 {
                    self.reset_reads_left -= 1;
                    BlkInitEvent::Status(0x0F)
                } else if !self.keeps_features_ok {
                    BlkInitEvent::Status(self.status & !0x08)
                } else {
                    BlkInitEvent::Status(self.status)
                }
            }
            BlkInitAction::ReadFeatures => BlkInitEvent::Features(self.features),
            BlkInitAction::SetupQueue { .. } => BlkInitEvent::Outcome(self.queue_ok),
            BlkInitAction::ReadCapacity => BlkInitEvent::Capacity(2048),
            BlkInitAction::ReadBlkSize => BlkInitEvent::BlkSize(4096),
            _ => BlkInitEvent::Done,
        }
    }
}

fn device(features: u64) -> Device {
    Device { features, reset_reads_left: 0, keeps_features_ok: true, queue_ok: true, status: 0 }
}

fn run(d: &mut Device, cfg: VirtioBlkConfig) -> (BlkInit, Vec<BlkInitAction>) {
    let mut init = BlkInit::new(cfg);
    let mut actions = Vec::new();
    for _ in 0..100 {
        let a = init.action();
        if a == BlkInitAction::Finish {
            break;
        }
        actions.push(a);
        init.on_event(d.answer(a));
    }
    (init, actions)
}

#[test]
fn blk_init_negotiates_and_reads_the_geometry() {
    let mut d = device(0x1_0000_0000 | 0x40 | 0x200 | 0x20 | 0x4);
    let (init, actions) = run(&mut d, config(128));
    let (features, info) = init.outcome().unwrap().unwrap();
    assert_eq!(features, 0x1_0000_0000 | 0x40 | 0x200);
    assert_eq!((info.total_sectors, info.sector_size, info.max_sectors_per_request, info.read_only), (2048, 4096, 128, true));
    assert_eq!(
        actions,
        vec![
            BlkInitAction::SetStatus(0),
            BlkInitAction::ReadStatus,
            BlkInitAction::ReadStatus,
            BlkInitAction::SetStatus(1),
            BlkInitAction::SetStatus(3),
            BlkInitAction::ReadFeatures,
            BlkInitAction::WriteFeatures(0x1_0000_0240),
            BlkInitAction::SetStatus(0x0B),
            BlkInitAction::ReadStatus,
            BlkInitAction::SetupQueue { desc: 0x1000, avail: 0x2000, used: 0x3000, size: 128 },
            BlkInitAction::SetStatus(0x0F),
            BlkInitAction::ReadCapacity,
            BlkInitAction::ReadBlkSize,
        ]
    );

    let mut plain = device(0x1_0000_0000);
    let (init, actions) = run(&mut plain, config(3));
    let (_, info) = init.outcome().unwrap().unwrap();
    assert_eq!((info.sector_size, info.read_only), (512, false));
    assert_eq!(*actions.last().unwrap(), BlkInitAction::ReadCapacity);
}

#[test]
fn blk_init_failures() {
    for size in [2u16, 257] {
        let (init, actions) = run(&mut device(0x1_0000_0000), config(size));
        assert_eq!(init.outcome(), Some(Err(VirtioBlkInitError::InvalidConfig)));
        assert!(actions.is_empty());
    }

    let mut legacy = device(0x40);
    let (init, actions) = run(&mut legacy, config(64));
    assert_eq!(init.outcome(), Some(Err(VirtioBlkInitError::FeatureNegotiationFailed)));
    assert_eq!(*actions.last().unwrap(), BlkInitAction::SetStatus(0x80));

    let mut picky = device(0x1_0000_0000);
    picky.keeps_features_ok = false;
    let (init, _) = run(&mut picky, config(64));
    assert_eq!(init.outcome(), Some(Err(VirtioBlkInitError::FeatureNegotiationFailed)));

    let mut no_queue = device(0x1_0000_0000);
    no_queue.queue_ok = false;
    let (init, _) = run(&mut no_queue, config(64));
    assert_eq!(init.outcome(), Some(Err(VirtioBlkInitError::QueueSetupFailed)));
}

#[test]
fn blk_init_waits_for_the_reset() {
    let mut slow = device(0x1_0000_0000);
    slow.reset_reads_left = 5;
    let (init, actions) = run(&mut slow, config(64));
    assert!(matches!(init.outcome(), Some(Ok(_))));
    assert_eq!(actions.iter().take_while(|a| **a != BlkInitAction::SetStatus(1)).count(), 1 + 5 + 2);

    let mut stuck = BlkInit::new(config(64));
    stuck.on_event(BlkInitEvent::Done);
    for _ in 0..1_000_000 {
        stuck.on_event(BlkInitEvent::Status(1));
    }
    assert_eq!(stuck.state().phase, BlkInitPhase::CheckReset);
    stuck.on_event(BlkInitEvent::Status(1));
    assert_eq!(stuck.outcome(), Some(Err(VirtioBlkInitError::ResetFailed)));
}
