use morpheus_network::driver::traits::{DriverInit, RxError, TxError};
use morpheus_network::driver::virtio::config::{
    is_virtio_net, negotiate_features, FeatureError, VirtioConfig, VIRTIO_F_VERSION_1, VIRTIO_NET_F_CTRL_VQ,
    VIRTIO_NET_F_MAC, VIRTIO_NET_F_MRG_RXBUF, VIRTIO_NET_F_STATUS,
};
use morpheus_network::driver::virtio::driver::{Refill, RxUsed, VirtioNetDriver};
use morpheus_network::driver::virtio::init::{
    generate_local_mac, init_queue_size, NetInit, NetInitAction, NetInitEvent, NetInitPhase, VirtioInitError,
};
use morpheus_network::driver::virtio::pool::{
    copy_rx_payload, fill_tx_buffer, queue_state, rx_payload_len, tx_total_len, BufferPool, QueueRegion,
};
use morpheus_network::driver::virtio::transport::{PciModernConfig, TransportType, VirtioTransport};

#[test]
fn virtio_feature_negotiation() {
    let offered = VIRTIO_F_VERSION_1 | VIRTIO_NET_F_MAC | VIRTIO_NET_F_MRG_RXBUF | VIRTIO_NET_F_CTRL_VQ;
    assert_eq!(negotiate_features(offered), Ok(VIRTIO_F_VERSION_1 | VIRTIO_NET_F_MAC));
    let all = VIRTIO_F_VERSION_1 | VIRTIO_NET_F_MAC | VIRTIO_NET_F_STATUS;
    assert_eq!(negotiate_features(all), Ok(all));
    assert_eq!(
        negotiate_features(VIRTIO_NET_F_MAC),
        Err(FeatureError::MissingRequired(VIRTIO_F_VERSION_1))
    );
}

#[test]
fn virtio_device_ids() {
    assert!(is_virtio_net(0x1AF4, 0x1000));
    assert!(is_virtio_net(0x1AF4, 0x1041));
    assert!(!is_virtio_net(0x1AF4, 0x1001));
    assert!(!is_virtio_net(0x8086, 0x1000));
    assert!(VirtioNetDriver::supports_device(0x1AF4, 0x1041));
    assert!(!VirtioNetDriver::supports_device(0x1AF4, 0x1042));
}

#[test]
fn virtio_transports() {
    let m = VirtioTransport::mmio(0x1000_0000);
    assert_eq!(m.transport_type, TransportType::Mmio);
    assert_eq!(m.pci_modern, PciModernConfig::default());
    assert_eq!(m.get_notify_addr(7), 0x1000_0050);
    assert_eq!(m.num_queues(9), 2);
    assert_eq!(m.blk_capacity_addr(), Some(0x1000_0100));
    assert_eq!(m.blk_size_addr(), Some(0x1000_0114));
    assert!(m.can_read_mac());

    let cfg = PciModernConfig {
        common_cfg: 0xFE00_0000,
        notify_cfg: 0xFE00_3000,
        notify_off_multiplier: 4,
        isr_cfg: 0xFE00_1000,
        device_cfg: 0xFE00_2000,
        pci_cfg: 0,
    };
    let p = VirtioTransport::pci_modern(cfg);
    assert_eq!(p.base, 0xFE00_0000);
    assert_eq!(p.get_notify_addr(1), 0xFE00_3004);
    assert_eq!(p.num_queues(3), 3);
    assert_eq!(p.blk_size_addr(), Some(0xFE00_2014));
    let s = p.setup_queue(256, 128, 2).unwrap();
    assert_eq!((s.size, s.notify_addr), (128, 0xFE00_3008));
    assert_eq!(p.setup_queue(64, 128, 0).unwrap().size, 64);
    assert_eq!(p.setup_queue(64, 0, 0), Err(VirtioInitError::QueueSetupFailed));

    let no_cfg = VirtioTransport::pci_modern(PciModernConfig { device_cfg: 0, ..cfg });
    assert_eq!(no_cfg.blk_capacity_addr(), None);
    assert_eq!(no_cfg.blk_size_addr(), None);
    assert!(!no_cfg.can_read_mac());
}

fn run_init(init: &mut NetInit, device_features: u64, status: u8, mac: Option<[u8; 6]>) {
    for _ in 0..32 {
        let ev = match init.action() {
            NetInitAction::Reset => NetInitEvent::ResetDone(true),
            NetInitAction::SetStatus(_) | NetInitAction::WriteFeatures(_) => NetInitEvent::Written,
            NetInitAction::ReadFeatures => NetInitEvent::Features(device_features),
            NetInitAction::ReadStatus => NetInitEvent::Status(status),
            NetInitAction::ReadQueueMax(_) => NetInitEvent::QueueMax(256),
            NetInitAction::ProgramQueue(q, _) => NetInitEvent::QueueProgrammed(0x1000 + q as u64),
            NetInitAction::ReadMac => NetInitEvent::Mac(mac),
            NetInitAction::Finish => return,
        };
        init.on_event(ev);
    }
}

#[test]
fn virtio_init_sequence() {
    let mut init = NetInit::new(32);
    assert_eq!(init.action(), NetInitAction::Reset);
    run_init(&mut init, VIRTIO_F_VERSION_1 | VIRTIO_NET_F_MAC, 0x0B, Some([0x52, 0x54, 0, 1, 2, 3]));
    assert_eq!(init.phase, NetInitPhase::Done);
    assert_eq!(init.features, VIRTIO_F_VERSION_1 | VIRTIO_NET_F_MAC);
    assert_eq!(init.rx, (32, 0x1000));
    assert_eq!(init.tx, (32, 0x1001));
    assert_eq!(init.mac, [0x52, 0x54, 0, 1, 2, 3]);
}

#[test]
fn virtio_init_without_mac_feature_uses_local_mac() {
    let mut init = NetInit::new(16);
    run_init(&mut init, VIRTIO_F_VERSION_1, 0x0B, Some([9; 6]));
    assert_eq!(init.phase, NetInitPhase::Done);
    assert_eq!(init.mac, generate_local_mac());
    assert_eq!(init.mac, [0x02, 0, 0, 0, 0, 1]);
}

#[test]
fn virtio_init_failures() {
    let mut reset = NetInit::new(32);
    reset.on_event(NetInitEvent::ResetDone(false));
    assert_eq!(reset.phase, NetInitPhase::Failed(VirtioInitError::ResetTimeout));

    let mut legacy = NetInit::new(32);
    run_init(&mut legacy, VIRTIO_NET_F_MAC, 0x0B, None);
    assert_eq!(legacy.phase, NetInitPhase::Failed(VirtioInitError::FeatureNegotiationFailed));

    let mut rejected = NetInit::new(32);
    run_init(&mut rejected, VIRTIO_F_VERSION_1, 0x03, None);
    assert_eq!(rejected.phase, NetInitPhase::Failed(VirtioInitError::FeaturesRejected));

    let mut no_queue = NetInit::new(0);
    run_init(&mut no_queue, VIRTIO_F_VERSION_1, 0x0B, None);
    assert_eq!(no_queue.phase, NetInitPhase::Failed(VirtioInitError::QueueSetupFailed));

    assert_eq!(init_queue_size(0, 32), Err(VirtioInitError::QueueSetupFailed));
    assert_eq!(init_queue_size(16, 32), Ok(16));
    assert_eq!(init_queue_size(256, 32), Ok(32));
    assert_eq!(VirtioInitError::from(RxError::DeviceError), VirtioInitError::DeviceError);
}

#[test]
fn virtio_init_ignores_unexpected_events() {
    let mut init = NetInit::new(32);
    init.on_event(NetInitEvent::Written);
    assert_eq!(init.phase, NetInitPhase::Reset);
}

#[test]
fn virtio_pool_take_and_return() {
    let mut pool = BufferPool::new(0x10_0000, 0x20_0000, 2048, 4);
    assert_eq!(pool.available(), 4);
    let a = pool.allocate().unwrap();
    let b = pool.allocate().unwrap();
    assert_ne!(a, b);
    assert_eq!(pool.available(), 2);
    pool.free(a);
    assert_eq!(pool.available(), 3);
    pool.free(a); // already free
    pool.free(9); // out of range
    assert_eq!(pool.available(), 3);
    assert_eq!(pool.buffer_bus(3), 0x20_0000 + 3 * 2048);
    while pool.allocate().is_some() {}
    assert_eq!(pool.available(), 0);
}

#[test]
fn virtio_frames() {
    assert_eq!(rx_payload_len(10, 100), Err(RxError::DeviceError));
    assert_eq!(rx_payload_len(112, 50), Err(RxError::BufferTooSmall { needed: 100 }));
    assert_eq!(rx_payload_len(112, 100), Ok(100));
    let buf: Vec<u8> = (0..40u8).collect();
    let mut out = [0xAAu8; 32];
    copy_rx_payload(&buf, &mut out, 20);
    assert_eq!(&out[..20], &buf[12..32]);
    assert!(out[20..].iter().all(|b| *b == 0xAA));

    assert_eq!(tx_total_len(1514), Ok(1526));
    assert_eq!(tx_total_len(1515), Err(TxError::FrameTooLarge));
    let mut tx = [0xFFu8; 20];
    fill_tx_buffer(&[1, 2, 3], &mut tx);
    assert!(tx[..12].iter().all(|b| *b == 0));
    assert_eq!(&tx[12..15], &[1, 2, 3]);
}

fn ready_driver(queue_size: u16) -> VirtioNetDriver {
    let mut init = NetInit::new(queue_size);
    run_init(&mut init, VIRTIO_F_VERSION_1 | VIRTIO_NET_F_MAC, 0x0B, Some([0x52, 0x54, 0, 0, 0, 7]));
    let config = VirtioConfig {
        dma_cpu_base: 0x100_0000,
        dma_bus_base: 0x200_0000,
        dma_size: 0x10_0000,
        queue_size,
        buffer_size: 2048,
    };
    let rx = QueueRegion { desc: 0, avail: 0x200, used: 0x400, buffers: 0x1000 };
    let tx = QueueRegion { desc: 0x800, avail: 0xA00, used: 0xC00, buffers: 0x2_0000 };
    VirtioNetDriver::from_init(VirtioTransport::mmio(0xFEB0_0000), &config, &init, &rx, &tx).unwrap()
}

#[test]
fn virtio_driver_state() {
    let d = ready_driver(8);
    assert_eq!(d.mac_address(), [0x52, 0x54, 0, 0, 0, 7]);
    assert_eq!(d.features(), VIRTIO_F_VERSION_1 | VIRTIO_NET_F_MAC);
    assert_eq!(d.mmio_base(), 0xFEB0_0000);
    assert_eq!(d.rx_state().queue_index, 0);
    assert_eq!(d.rx_state().desc_base, 0x200_0000);
    assert_eq!(d.tx_state().buffer_bus_base, 0x202_0000);
    assert_eq!(d.tx_state().queue_index, 1);
    assert_eq!(d.rx_buffers_available(), 8);
    assert_eq!(d.tx_buffers_available(), 8);
    assert!(d.can_transmit());
    assert!(d.can_receive());
    assert!(d.link_up());

    let cfg = VirtioConfig { dma_cpu_base: 0, dma_bus_base: 0x1000, dma_size: 0, queue_size: 4, buffer_size: 2048 };
    let region = QueueRegion { desc: 0, avail: 0x100, used: 0x200, buffers: 0x400 };
    let q = queue_state(&cfg, &region, 1, 4, 0x99);
    assert_eq!((q.avail_base, q.used_base, q.buffer_count, q.notify_addr), (0x1100, 0x1200, 4, 0x99));
}

#[test]
fn virtio_driver_from_failed_init() {
    let mut init = NetInit::new(8);
    init.on_event(NetInitEvent::ResetDone(false));
    let config = VirtioConfig { dma_cpu_base: 0, dma_bus_base: 0, dma_size: 0, queue_size: 8, buffer_size: 2048 };
    let r = QueueRegion { desc: 0, avail: 0, used: 0, buffers: 0 };
    assert!(matches!(
        VirtioNetDriver::from_init(VirtioTransport::mmio(0), &config, &init, &r, &r),
        Err(VirtioInitError::ResetTimeout)
    ));
    let fresh = NetInit::new(8);
    assert!(matches!(
        VirtioNetDriver::from_init(VirtioTransport::mmio(0), &config, &fresh, &r, &r),
        Err(VirtioInitError::DeviceError)
    ));
}

#[test]
fn virtio_refill_stops_when_queue_is_full() {
    let mut d = ready_driver(4);
    let mut progress = Refill::new();
    let mut accepted = 0;
    while let Some(idx) = d.rx_refill_next(&progress) {
        let ok = accepted < 2;
        d.rx_refill_result(&mut progress, idx, ok);
        if ok {
            accepted += 1;
        }
    }
    assert_eq!(progress.submitted, 2);
    assert!(progress.stopped);
    assert!(progress.should_notify());
    assert_eq!(d.rx_buffers_available(), 2);
    assert!(!Refill::new().should_notify());
}

#[test]
fn virtio_receive_and_transmit() {
    let mut d = ready_driver(4);
    let mut out = [0u8; 64];
    assert_eq!(d.receive(None, &[], &mut out), Ok(None));
    let mut buf = vec![0u8; 2048];
    buf[12..16].copy_from_slice(&[1, 2, 3, 4]);
    assert_eq!(d.receive(Some(RxUsed { buffer_idx: 1, length: 16 }), &buf, &mut out), Ok(Some(4)));
    assert_eq!(&out[..4], &[1, 2, 3, 4]);
    assert_eq!(
        d.receive(Some(RxUsed { buffer_idx: 9, length: 16 }), &buf, &mut out),
        Err(RxError::DeviceError)
    );
    assert_eq!(
        d.receive(Some(RxUsed { buffer_idx: 0, length: 100 }), &buf, &mut out),
        Err(RxError::BufferTooSmall { needed: 88 })
    );

    assert_eq!(d.tx_begin(2000), Err(TxError::FrameTooLarge));
    let mut taken = vec![];
    for _ in 0..4 {
        let (idx, total) = d.tx_begin(60).unwrap();
        assert_eq!(total, 72);
        taken.push(idx);
    }
    assert!(!d.can_transmit());
    assert_eq!(d.tx_begin(60), Err(TxError::QueueFull));
    assert_eq!(d.tx_rejected(taken[0]), TxError::QueueFull);
    assert_eq!(d.tx_buffers_available(), 1);
    d.collect_completions(&[taken[1], taken[2], 77]);
    assert_eq!(d.tx_buffers_available(), 3);
    d.tx_completed(taken[3]);
    assert_eq!(d.tx_buffers_available(), 4);
}
