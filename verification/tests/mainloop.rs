use morpheus_network::mainloop::adapter::{SmoltcpAdapter, TxToken, MAX_FRAME};
use morpheus_network::mainloop::bare_metal::{
    format_http_get, human_size, parse_bare_url, parse_u16, parse_u8, parse_usize, starts_with_ignore_case,
    SizeUnit,
};
use morpheus_network::mainloop::context::{elapsed, Timeouts};
use morpheus_network::mainloop::disk_writer::{DiskWriter, BUFFER_SIZE};
use morpheus_network::mainloop::orchestrator::{finish, tsc_millis, DownloadResult};
use morpheus_network::mainloop::serial::{print_hex, print_hex_byte, print_ipv4, print_mac, print_u32};
use morpheus_network::mainloop::state::StepResult;
use morpheus_network::mainloop::states::dhcp::{DhcpEvent, DhcpState, DhcpStep};
use morpheus_network::mainloop::states::dns::{parse_ipv4_octets, DnsState, DnsStep};
use morpheus_network::mainloop::states::gpt::{relocate, sectors_needed};
use morpheus_network::mainloop::states::http::{find_header_end, format_http_request, parse_content_length};
use morpheus_network::mainloop::states::init::{parse_port, parse_url};
use morpheus_network::mainloop::states::manifest::{
    regenerate_manifest, write_manifest_standalone, ManifestConfig, ManifestMode, ManifestStep,
};
use morpheus_network::driver::traits::{NetworkDriver, RxError, TxError};
use morpheus_network::types::MacAddress;

#[test]
fn serial_text() {
    let mut out = Vec::new();
    print_hex_byte(&mut out, 0xAB);
    assert_eq!(out, b"ab");
    let mut hex = Vec::new();
    print_hex(&mut hex, 0x1F);
    assert_eq!(hex, b"0x000000000000001f");
    let mut dec = Vec::new();
    print_u32(&mut dec, 4096);
    assert_eq!(dec, b"4096");
    let mut mac = Vec::new();
    print_mac(&mut mac, &[0x52, 0x54, 0x00, 0x12, 0x34, 0x56]);
    assert_eq!(mac, b"52:54:00:12:34:56");
    let mut ip = Vec::new();
    print_ipv4(&mut ip, &[192, 168, 0, 10]);
    assert_eq!(ip, b"192.168.0.10");
}

#[test]
fn printed_ipv4_parses_back() {
    let octets = [10u8, 0, 2, 15];
    let mut ip = Vec::new();
    print_ipv4(&mut ip, &octets);
    let text = String::from_utf8(ip).unwrap();
    assert_eq!(parse_ipv4_octets(&text), Some(octets));
}

#[test]
fn dns_resolves_literal_addresses_only() {
    assert_eq!(parse_ipv4_octets("10.0.2.2"), Some([10, 0, 2, 2]));
    assert_eq!(parse_ipv4_octets("256.0.0.1"), None);
    assert_eq!(parse_ipv4_octets("1.2.3"), None);
    assert_eq!(parse_ipv4_octets("a.b.c.d"), None);
    assert!(DnsState::is_ip_address("127.0.0.1"));
    assert!(!DnsState::is_ip_address("example.com"));
    let mut dns = DnsState::new();
    assert!(matches!(dns.step(100, "10.0.2.2"), DnsStep::Resolved([10, 0, 2, 2])));
    assert!(matches!(dns.step(200, "example.com"), DnsStep::NotImplemented));
    let mut fixed = DnsState::with_hostname("192.168.1.1");
    assert!(matches!(fixed.step(1, "example.com"), DnsStep::Resolved([192, 168, 1, 1])));
}

#[test]
fn init_url_parsing() {
    let t = parse_url("http://10.0.2.2:8000/images/tails.iso").unwrap();
    assert_eq!((t.host.as_str(), t.port, t.path.as_str()), ("10.0.2.2", 8000, "/images/tails.iso"));
    let s = parse_url("https://example.com").unwrap();
    assert_eq!((s.host.as_str(), s.port, s.path.as_str()), ("example.com", 443, "/"));
    assert!(parse_url("ftp://example.com/").is_none());
    assert_eq!(parse_port("8080"), Some(8080));
    assert_eq!(parse_port("70000"), None);
}

#[test]
fn dhcp_steps() {
    let mut d = DhcpState::new();
    assert_eq!(d.step(1000, 500, true), DhcpStep::Poll);
    assert_eq!(d.step(1200, 500, false), DhcpStep::NoSocket);
    d.on_event(Some(DhcpEvent::Configured));
    assert_eq!(d.step(1300, 500, true), DhcpStep::ToDns);
    assert_eq!(d.step(1600, 500, true), DhcpStep::Timeout);
}

#[test]
fn gpt_sizes() {
    assert_eq!(sectors_needed(0), (8 * 1024 * 1024 * 1024) / 512);
    assert_eq!(sectors_needed(1), 1);
    assert_eq!(sectors_needed(1024), 2);
    assert_eq!(sectors_needed(1025), 3);
    assert!(relocate(100, 199, 2048, 2000_000).is_ok());
    assert_eq!(relocate(0, 9999, 2048, 3000), Err("insufficient free space"));
}

#[test]
fn http_helpers() {
    assert_eq!(find_header_end(b"HTTP/1.1 200 OK\r\nA: b\r\n\r\nbody"), Some(21));
    assert_eq!(find_header_end(b"HTTP/1.1 200 OK\r\n"), None);
    assert_eq!(parse_content_length("HTTP/1.1 200 OK\r\ncontent-length: 1234\r\n"), Some(1234));
    assert_eq!(parse_content_length("HTTP/1.1 200 OK\r\nServer: x\r\n"), None);
    let mut buf = [0u8; 256];
    let n = format_http_request(&mut buf, "GET", "/a.iso", "host");
    let expected = b"GET /a.iso HTTP/1.1\r\nHost: host\r\nUser-Agent: MorpheusX/1.0\r\nAccept: */*\r\nConnection: close\r\n\r\n";
    assert_eq!(&buf[..n], &expected[..]);
    let mut tiny = [0u8; 8];
    assert_eq!(format_http_request(&mut tiny, "GET", "/a.iso", "host"), 0);
}

#[test]
fn bare_metal_helpers() {
    assert_eq!(parse_u16("8080"), Some(8080));
    assert_eq!(parse_u16("65536"), None);
    assert_eq!(parse_u16("12a"), None);
    assert_eq!(parse_u8("255"), Some(255));
    assert_eq!(parse_u8("256"), None);
    assert_eq!(parse_usize("  42 rest"), Some(42));
    assert_eq!(parse_usize("x"), None);
    assert!(starts_with_ignore_case("Content-Length: 5", "content-length:"));
    assert!(!starts_with_ignore_case("Con", "content"));
    assert_eq!(
        parse_bare_url("http://10.0.2.2:8080/x.iso"),
        Ok((String::from("10.0.2.2"), 8080, String::from("/x.iso")))
    );
    assert_eq!(parse_bare_url("http://host"), Ok((String::from("host"), 80, String::from("/"))));
    assert_eq!(parse_bare_url("https://host/"), Err("HTTPS not supported in bare-metal mode"));
    assert_eq!(parse_bare_url("ftp://host/"), Err("Invalid URL scheme (must be http://)"));
    let mut buf = [0u8; 128];
    let n = format_http_get(&mut buf, "/f", "h").unwrap();
    assert!(buf[..n].starts_with(b"GET /f HTTP/1.1\r\nHost: h\r\n"));
    let mut small = [0u8; 4];
    assert_eq!(format_http_get(&mut small, "/f", "h"), None);
    assert_eq!(human_size(3 * 1024 * 1024 * 1024), (3, SizeUnit::GB));
    assert_eq!(human_size(5 * 1024 * 1024 + 7), (5, SizeUnit::MB));
    assert_eq!(human_size(2048), (2, SizeUnit::KB));
    assert_eq!(human_size(1023), (1023, SizeUnit::Bytes));
}

#[test]
fn orchestration() {
    assert!(matches!(finish(StepResult::Done, 10), Some(DownloadResult::Success { bytes_downloaded: 10 })));
    assert!(matches!(finish(StepResult::Failed("x"), 10), Some(DownloadResult::Failed { reason: "x" })));
    assert!(finish(StepResult::Continue, 10).is_none());
    assert_eq!(tsc_millis(3_000_000, 3_000_000_000), 1);
    assert_eq!(tsc_millis(5, 0), 0);
    assert_eq!(elapsed(100, 350), 250);
    let t = Timeouts::new(1000);
    assert_eq!((t.dhcp(), t.dns(), t.tcp_connect(), t.http_idle()), (10_000, 5_000, 10_000, 30_000));
}

#[test]
fn disk_writer_buffers_and_flushes() {
    let mut w = DiskWriter::new(2048);
    assert!(w.is_enabled());
    assert_eq!(w.buffered(), 0);
    assert_eq!(w.buffer_data(&[1u8; 1000]), 1000);
    assert_eq!(w.buffered(), 1000);
    let req = w.flush_request().unwrap();
    assert_eq!((req.sector, req.num_sectors, req.bytes, req.request_id), (2048, 2, 1000, 1));
    w.pad();
    assert_eq!(&w.buffer()[..1000], &[1u8; 1000][..]);
    assert!(w.buffer()[1000..1024].iter().all(|b| *b == 0));
    w.flush_done(req);
    assert_eq!(w.buffered(), 0);
    assert_eq!(w.current_sector(), 2050);
    assert_eq!(w.bytes_written(), 1000);
    assert!(w.flush_request().is_none());
    let big = vec![7u8; BUFFER_SIZE + 10];
    assert_eq!(w.buffer_data(&big), BUFFER_SIZE);
    assert!(w.is_full());
    assert!(!DiskWriter::disabled().is_enabled());
}

#[test]
fn manifest_regeneration() {
    let mut out = Vec::new();
    let cfg = regenerate_manifest("tails.iso", 5 * 1024 * 1024, 0x800, 0x3000, [1; 16], 0, 0x40, &mut out).unwrap();
    assert_eq!(cfg.mode, ManifestMode::RawSector { sector: 0x40 });
    assert_eq!(cfg.iso_name(), "tails.iso");
    let text = String::from_utf8(out).unwrap();
    assert!(text.contains("[MANIFEST] ISO: tails.iso\r\n"));
    assert!(text.contains("[MANIFEST] Size: 5 MB\r\n"));
    assert!(text.ends_with("[MANIFEST] Mode: Raw sector 0x0000000000000040\r\n"));

    let mut out2 = Vec::new();
    let fat = regenerate_manifest("a.iso", 1, 1, 2, [0; 16], 34, 0x40, &mut out2).unwrap();
    assert_eq!(fat.mode, ManifestMode::Fat32 { esp_start_lba: 34 });

    let mut none_out = Vec::new();
    assert!(regenerate_manifest("a.iso", 1, 1, 2, [0; 16], 0, 0, &mut none_out).is_none());
    assert!(String::from_utf8(none_out).unwrap().ends_with("[MANIFEST] ERROR: No write mode specified\r\n"));

    let mut skip_out = Vec::new();
    assert_eq!(write_manifest_standalone(&ManifestConfig::skip(), &mut skip_out), ManifestStep::Skip);
    assert_eq!(skip_out, b"[MANIFEST] Skipping (not configured)\r\n");
    let mut w_out = Vec::new();
    assert_eq!(write_manifest_standalone(&cfg, &mut w_out), ManifestStep::WriteRaw { sector: 0x40 });
    assert!(w_out.is_empty());
}

struct LoopbackNic {
    sent: Vec<Vec<u8>>,
    inbox: Option<Vec<u8>>,
}

impl NetworkDriver for LoopbackNic {
    fn mac_address(&self) -> MacAddress {
        [2, 0, 0, 0, 0, 1]
    }
    fn can_transmit(&self) -> bool {
        true
    }
    fn can_receive(&self) -> bool {
        self.inbox.is_some()
    }
    fn transmit(&mut self, frame: &[u8]) -> Result<(), TxError> {
        self.sent.push(frame.to_vec());
        Ok(())
    }
    fn receive(&mut self, buffer: &mut [u8]) -> Result<Option<usize>, RxError> {
        match self.inbox.take() {
            Some(f) => {
                buffer[..f.len()].copy_from_slice(&f);
                Ok(Some(f.len()))
            }
            None => Ok(None),
        }
    }
    fn refill_rx_queue(&mut self) {}
    fn collect_tx_completions(&mut self) {}
}

#[test]
fn adapter_moves_frames() {
    let nic = LoopbackNic { sent: vec![], inbox: Some(vec![9, 8, 7]) };
    let mut a = SmoltcpAdapter::new(nic);
    let tok = a.take_rx().unwrap();
    assert_eq!(tok.data(), &[9, 8, 7]);
    assert_eq!(a.rx_count(), 1);
    assert!(a.take_rx().is_none());
    assert_eq!(a.tx_count(), 0);
    assert!(a.transmit_frame(&[1, 2, 3]));
    assert_eq!(a.tx_count(), 1);
    assert_eq!(TxToken::<LoopbackNic>::frame_len(5000), MAX_FRAME);
    assert_eq!(TxToken::<LoopbackNic>::frame_len(60), 60);
    let t = a.tx_token().unwrap();
    assert!(t.send(&[4, 5]));
    assert_eq!(a.driver().sent, vec![vec![1, 2, 3], vec![4, 5]]);
    assert_eq!(a.tx_count(), 2);
    assert!(a.reply_token().send(&[6]));
    assert_eq!(a.tx_count(), 3);
    assert_eq!(a.mac_address(), [2, 0, 0, 0, 0, 1]);
}
