use morpheus_network::driver::block_io::{
    check_unified_new, first_request_id, chunk_plan, completion_step, dma_buffer_fits, take_request_id, transfer_bytes, BlockIoError,
    Chunk, UnifiedBlockIoError, MAX_TRANSFER_SIZE,
};
use morpheus_network::driver::block_traits::{BlockCompletion, BlockError};
use morpheus_network::driver::sdhci::{
    bring_up_error, check_config, cmd_ready, command_word, pio_error, poll_command, timeout_ticks, BringUpStage,
    CardInit, CardInitPhase, SdCommand, SdhciConfig, SdhciDriver, SdhciInitError,
};

fn sd_config() -> SdhciConfig {
    SdhciConfig { tsc_freq: 2_000_000_000, dma_phys: 0, dma_size: 0 }
}

#[test]
fn sdhci_config_checks() {
    assert_eq!(check_config(0, &sd_config()), Err(SdhciInitError::InvalidConfig));
    assert_eq!(check_config(0xFE00_0000, &sd_config()), Ok(()));
    assert_eq!(bring_up_error(BringUpStage::Reset, 1), Some(SdhciInitError::ControllerResetFailed));
    assert_eq!(bring_up_error(BringUpStage::Reset, 0), None);
    assert_eq!(bring_up_error(BringUpStage::PowerClock, 2), Some(SdhciInitError::ClockSetupFailed));
    assert_eq!(bring_up_error(BringUpStage::CardPresent, 0), Some(SdhciInitError::NoCardPresent));
    assert_eq!(bring_up_error(BringUpStage::CardPresent, 1), None);
    assert_eq!(SdhciInitError::DataTimeout.message(), "SDHCI data timeout");
}

#[test]
fn sdhci_command_encoding() {
    assert_eq!(command_word(8, 0x1A), 0x081A);
    assert!(cmd_ready(0x4));
    assert!(!cmd_ready(0x1));
    assert!(!cmd_ready(0x2));
    assert_eq!(poll_command(0x8001), Some(Err(SdhciInitError::IoError)));
    assert_eq!(poll_command(0x1), Some(Ok(())));
    assert_eq!(poll_command(0x0), None);
    assert_eq!(timeout_ticks(2_000_000_000, 100), 200_000_000);
    assert_eq!(timeout_ticks(u64::MAX, 2), u64::MAX / 1000);
    assert_eq!(pio_error(3), BlockError::Timeout);
    assert_eq!(pio_error(5), BlockError::IoError);
}

fn cmd(c: &CardInit) -> SdCommand {
    c.command().unwrap()
}

#[test]
fn sdhci_card_sequence_high_capacity() {
    let mut c = CardInit::new();
    assert_eq!(cmd(&c).index, 0);
    c.on_response(Ok(0), false);
    let c8 = cmd(&c);
    assert_eq!((c8.index, c8.arg), (8, 0x1AA));
    c.on_response(Ok(0x1AA), false);
    assert!(c.supports_v2);
    assert_eq!(cmd(&c).index, 55);
    c.on_response(Ok(0), false);
    let a41 = cmd(&c);
    assert_eq!((a41.index, a41.arg), (41, 0x40FF_8000 | 0x4000_0000));
    // Not powered up yet: back to CMD55.
    c.on_response(Ok(0x00FF_8000), false);
    assert_eq!(c.phase, CardInitPhase::AppCmd);
    c.on_response(Ok(0), false);
    c.on_response(Ok(0xC0FF_8000), false);
    assert!(c.high_capacity);
    assert_eq!(cmd(&c).index, 2);
    c.on_response(Ok(0), false);
    assert_eq!(cmd(&c).index, 3);
    c.on_response(Ok(0x1234_0000), false);
    assert_eq!(c.rca, 0x1234);
    let c7 = cmd(&c);
    assert_eq!((c7.index, c7.arg), (7, 0x1234_0000));
    c.on_response(Ok(0), false);
    assert_eq!(c.phase, CardInitPhase::Ready);
    assert_eq!(c.command(), None);

    let mut d = SdhciDriver::new(0xFE00_0000, &sd_config(), 0);
    assert_eq!(d.finish_init(&c), Ok(()));
    assert_eq!(d.info().max_sectors_per_request, 128);
    assert_eq!(d.begin_read(0, 0x8000, 2), Ok(()));
    assert_eq!(d.pio_block(10, 0x8000, 1), Ok((11, 0x8200)));
    d.finish_read(9, 2);
    assert!(!d.can_submit());
    assert_eq!(d.begin_read(0, 0x8000, 2), Err(BlockError::QueueFull));
    let done = d.poll_completion().unwrap();
    assert_eq!((done.request_id, done.bytes_transferred), (9, 1024));
}

#[test]
fn sdhci_card_sequence_standard_capacity() {
    let mut c = CardInit::new();
    c.on_response(Ok(0), false);
    c.on_response(Err(SdhciInitError::CommandTimeout), false); // CMD8 unanswered: older card
    assert!(!c.supports_v2);
    c.on_response(Ok(0), false);
    assert_eq!(cmd(&c).arg, 0x40FF_8000);
    c.on_response(Ok(0x80FF_8000), false);
    assert!(!c.high_capacity);
    c.on_response(Ok(0), false);
    c.on_response(Ok(0x0001_0000), false);
    c.on_response(Ok(0), false);
    assert_eq!(c.phase, CardInitPhase::SetBlockLen);
    assert_eq!((cmd(&c).index, cmd(&c).arg), (16, 512));
    c.on_response(Ok(0), false);
    assert_eq!(c.phase, CardInitPhase::Ready);

    let mut d = SdhciDriver::new(0xFE00_0000, &sd_config(), 0);
    assert_eq!(d.finish_init(&c), Ok(()));
    assert_eq!(d.pio_block(2, 0x8000, 1), Ok((3 * 512, 0x8200)));
    assert_eq!(d.pio_block(u64::MAX - 1, 0, 0), Err(BlockError::InvalidSector));
}

#[test]
fn sdhci_card_sequence_failures() {
    let mut c = CardInit::new();
    c.on_response(Err(SdhciInitError::IoError), false);
    assert_eq!(c.phase, CardInitPhase::Failed(SdhciInitError::IoError));
    assert_eq!(c.command(), None);

    let mut t = CardInit::new();
    t.on_response(Ok(0), false);
    t.on_response(Ok(0x1AA), false);
    t.on_response(Ok(0), false);
    t.on_response(Ok(0), true);
    assert_eq!(t.phase, CardInitPhase::Failed(SdhciInitError::CommandTimeout));

    let mut z = CardInit::new();
    for r in [0u32, 0x1AA, 0, 0x8000_0000, 0] {
        z.on_response(Ok(r), false);
    }
    z.on_response(Ok(0x0000_FFFF), false); // RCA 0
    assert_eq!(z.phase, CardInitPhase::Failed(SdhciInitError::IoError));
    let mut d = SdhciDriver::new(1, &sd_config(), 0);
    assert_eq!(d.finish_init(&z), Err(SdhciInitError::IoError));
}

#[test]
fn sdhci_read_checks() {
    let d = SdhciDriver::new(1, &sd_config(), 0);
    assert_eq!(d.begin_read(0, 0x8000, 0), Err(BlockError::RequestTooLarge));
    assert_eq!(d.begin_read(0, 0x8000, 129), Err(BlockError::RequestTooLarge));
    assert_eq!(d.begin_read(0, 0, 1), Err(BlockError::InvalidSector));
    assert_eq!(d.begin_read(0xFFFF_FFFF, 0x8000, 1), Err(BlockError::InvalidSector));
    let mut w = SdhciDriver::new(1, &sd_config(), 0);
    assert_eq!(w.submit_write(0, 0x8000, 1, 1), Err(BlockError::Unsupported));
}

#[test]
fn block_io_adapter_checks() {
    assert!(dma_buffer_fits(MAX_TRANSFER_SIZE));
    assert!(!dma_buffer_fits(MAX_TRANSFER_SIZE - 1));
    assert_eq!(check_unified_new(4096, true), Err(UnifiedBlockIoError::BufferAlignment));
    assert_eq!(check_unified_new(65536, false), Err(UnifiedBlockIoError::DeviceNotReady));
    assert_eq!(check_unified_new(65536, true), Ok(()));
    assert_eq!(transfer_bytes(128, 512, 65536), Some(65536));
    assert_eq!(transfer_bytes(129, 512, 65536), None);
    assert_eq!(take_request_id(7), (7, 8));
    assert_eq!(take_request_id(u32::MAX), (u32::MAX, 0));
    assert_eq!(BlockIoError::Timeout.message(), "I/O timeout");
    assert_eq!(UnifiedBlockIoError::DeviceNotReady.message(), "Block device not ready");
}

#[test]
fn block_io_wait_decisions() {
    let ok = BlockCompletion { request_id: 5, status: 0, bytes_transferred: 512 };
    let bad = BlockCompletion { request_id: 5, status: 1, bytes_transferred: 0 };
    let other = BlockCompletion { request_id: 4, status: 0, bytes_transferred: 512 };
    assert_eq!(completion_step(Some(ok), 5, 100, 10), Some(Ok(())));
    assert_eq!(completion_step(Some(bad), 5, 0, 10), Some(Err(BlockError::IoError)));
    assert_eq!(completion_step(Some(other), 5, 5, 10), None);
    assert_eq!(completion_step(None, 5, 11, 10), Some(Err(BlockError::Timeout)));
    assert_eq!(completion_step(None, 5, 10, 10), None);
}

#[test]
fn block_io_chunk_plan_splits_at_64k() {
    // 300 sectors of 512 bytes: 128 + 128 + 44.
    let plan = chunk_plan(1000, 300 * 512, 512).unwrap();
    assert_eq!(
        plan,
        vec![
            Chunk { sector: 1000, sectors: 128, offset: 0, bytes: 65536 },
            Chunk { sector: 1128, sectors: 128, offset: 65536, bytes: 65536 },
            Chunk { sector: 1256, sectors: 44, offset: 131072, bytes: 44 * 512 },
        ]
    );
    let total: u32 = plan.iter().map(|c| c.sectors).sum();
    assert_eq!(total, 300);
}

#[test]
fn block_io_chunk_plan_edges() {
    assert_eq!(chunk_plan(0, 513, 512), None);
    assert_eq!(chunk_plan(0, 0, 512), Some(vec![]));
    let plan = chunk_plan(5, 8192, 4096).unwrap();
    assert_eq!(plan, vec![Chunk { sector: 5, sectors: 2, offset: 0, bytes: 8192 }]);
}

#[test]
fn block_io_first_request() {
    assert_eq!(first_request_id(MAX_TRANSFER_SIZE), Ok(1));
    assert_eq!(first_request_id(MAX_TRANSFER_SIZE - 1), Err(UnifiedBlockIoError::BufferAlignment));
}
