use morpheus_network::mainloop::state::StepResult;
use morpheus_network::mainloop::states::connect::{local_port, ConnectState, ConnectStep, TcpStatus};
use morpheus_network::mainloop::states::dhcp::DhcpStep;
use morpheus_network::mainloop::states::dns::DnsStep;
use morpheus_network::mainloop::states::done::{DoneState, FailedState};
use morpheus_network::mainloop::states::http::{BodyEnd, HeaderEvent, HttpPhase, HttpState, REQUEST_BUF_SIZE};
use morpheus_network::mainloop::states::init::{InitState, InitStep};
use smoltcp::iface::SocketHandle;

fn failed(r: StepResult) -> Option<&'static str> {
    match r {
        StepResult::Failed(reason) => Some(reason),
        _ => None,
    }
}

#[test]
fn init_validates_then_moves_to_dhcp() {
    let mut s = InitState::new();
    match s.step("http://10.0.2.2:8080/tails.iso") {
        InitStep::Parsed(t) => {
            assert_eq!((t.host.as_str(), t.port, t.path.as_str()), ("10.0.2.2", 8080, "/tails.iso"))
        }
        other => panic!("unexpected {:?}", other),
    }
    let next = s.step("http://10.0.2.2:8080/tails.iso");
    assert!(matches!(next, InitStep::ToDhcp));
    assert!(matches!(next.result(), StepResult::Transition));

    let mut bad = InitState::new();
    let step = bad.step("ftp://host/file");
    assert!(matches!(step, InitStep::InvalidUrl));
    assert_eq!(failed(step.result()), Some("invalid URL"));
    assert!(matches!(bad.step("ftp://host/file"), InitStep::InvalidUrl));
}

#[test]
fn step_results_name_the_failure() {
    assert_eq!(failed(DhcpStep::Timeout.result()), Some("DHCP timeout"));
    assert_eq!(failed(DhcpStep::NoSocket.result()), Some("no socket"));
    assert!(matches!(DhcpStep::ToDns.result(), StepResult::Transition));
    assert!(matches!(DhcpStep::Poll.result(), StepResult::Continue));
    assert!(matches!(DnsStep::Resolved([10, 0, 2, 2]).result(), StepResult::Transition));
    assert_eq!(failed(DnsStep::NotImplemented.result()), Some("DNS not implemented"));
    assert_eq!(failed(ConnectStep::Timeout.result()), Some("TCP timeout"));
    assert_eq!(failed(ConnectStep::NoAddress.result()), Some("no IP"));
    assert_eq!(failed(ConnectStep::Closed.result()), Some("closed"));
    assert!(matches!(ConnectStep::ToHttp.result(), StepResult::Transition));
    assert!(matches!(ConnectStep::Wait.result(), StepResult::Continue));
    assert_eq!(failed(HeaderEvent::BadStatus.result()), Some("status"));
    assert!(matches!(HeaderEvent::Pending.result(), StepResult::Continue));
    assert!(matches!(BodyEnd::Done.result(), StepResult::Transition));
    assert!(matches!(BodyEnd::DoneOnClose.result(), StepResult::Transition));
    assert_eq!(failed(BodyEnd::PrematureClose.result()), Some("close"));
}

#[test]
fn connect_opens_once_then_follows_the_socket() {
    let mut c = ConnectState::new();
    assert!(matches!(c.step(1000, 500, None, 80, true, TcpStatus::Other), ConnectStep::NoAddress));
    match c.step(1100, 500, Some([10, 0, 2, 2]), 8080, true, TcpStatus::Other) {
        ConnectStep::Connect { addr, port, local_port: lp } => {
            assert_eq!((addr, port), ([10, 0, 2, 2], 8080));
            assert_eq!(lp, local_port(1100));
        }
        other => panic!("unexpected {:?}", other),
    }
    assert!(matches!(c.connect_result(true), StepResult::Continue));
    assert!(matches!(c.step(1200, 500, Some([10, 0, 2, 2]), 8080, true, TcpStatus::Connecting), ConnectStep::Wait));
    assert!(matches!(c.step(1300, 500, Some([10, 0, 2, 2]), 8080, true, TcpStatus::Established), ConnectStep::ToHttp));
    assert!(matches!(c.step(1400, 500, Some([10, 0, 2, 2]), 8080, true, TcpStatus::Closed), ConnectStep::Closed));
    assert!(matches!(c.step(1600, 500, Some([10, 0, 2, 2]), 8080, true, TcpStatus::Established), ConnectStep::Timeout));

    let mut fixed = ConnectState::with_endpoint([192, 168, 1, 5], 80);
    assert!(matches!(fixed.step(7, 100, None, 0, false, TcpStatus::Other), ConnectStep::NoSocket));
    assert!(matches!(fixed.step(8, 100, None, 0, true, TcpStatus::Other), ConnectStep::Connect { addr: [192, 168, 1, 5], port: 80, .. }));
    assert_eq!(failed(fixed.connect_result(false)), Some("connect"));
    assert!(matches!(fixed.step(9, 100, None, 0, true, TcpStatus::Other), ConnectStep::Connect { .. }));
}

#[test]
fn local_ports_stay_in_the_dynamic_range() {
    assert_eq!(local_port(0), 49152);
    assert_eq!(local_port(0x1_0005), 49157);
    assert_eq!(local_port(0xFFFF), 49152 + 0xFFFF % 16384);
}

#[test]
fn http_request_then_head_then_body() {
    let mut h = HttpState::new(SocketHandle::default());
    assert_eq!(h.phase(), HttpPhase::SendRequest);
    assert!(!h.idle_check(1000, 100));
    let mut req = [0u8; REQUEST_BUF_SIZE];
    let n = h.build_request("/tails.iso", "10.0.2.2", &mut req);
    assert!(req[..n].starts_with(b"GET /tails.iso HTTP/1.1\r\nHost: 10.0.2.2\r\n"));
    h.request_sent(1010);
    assert_eq!(h.phase(), HttpPhase::ReceiveHeaders);
    assert_eq!(h.header_space(), 2048);

    assert_eq!(h.on_header_data(b"HTTP/1.1 200 OK\r\nContent-Length: 10\r\n", 1020), HeaderEvent::Pending);
    assert_eq!(h.on_header_data(b"\r\nabcd", 1030), HeaderEvent::HeadersDone { body_len: 4 });
    assert_eq!(h.phase(), HttpPhase::ReceiveBody);
    assert_eq!(h.content_length(), Some(10));
    assert_eq!(h.bytes_received(), 4);
    assert!(!h.is_chunked());

    assert_eq!(h.on_body_idle(true), BodyEnd::Wait);
    assert_eq!(h.on_body_data(6, 1040), (0, false));
    assert_eq!(h.bytes_received(), 10);
    assert_eq!(h.on_body_idle(true), BodyEnd::Done);
    assert_eq!(h.phase(), HttpPhase::Complete);
}

#[test]
fn http_failures() {
    let mut bad = HttpState::new(SocketHandle::default());
    bad.request_sent(5);
    assert_eq!(bad.on_header_data(b"HTTP/1.1 404 Not Found\r\n\r\n", 6), HeaderEvent::BadStatus);

    let mut short = HttpState::new(SocketHandle::default());
    short.request_sent(5);
    let ev = short.on_header_data(b"HTTP/1.0 200 OK\r\ncontent-length: 100\r\n\r\n", 6);
    assert_eq!(ev, HeaderEvent::HeadersDone { body_len: 0 });
    assert_eq!(short.on_body_idle(false), BodyEnd::PrematureClose);

    let mut open_ended = HttpState::new(SocketHandle::default());
    open_ended.request_sent(5);
    open_ended.on_header_data(b"HTTP/1.1 200 OK\r\nTransfer-Encoding: chunked\r\n\r\n", 6);
    assert!(open_ended.is_chunked());
    assert_eq!(open_ended.content_length(), None);
    assert_eq!(open_ended.on_body_idle(false), BodyEnd::DoneOnClose);

    let mut idle = HttpState::new(SocketHandle::default());
    assert!(!idle.idle_check(100, 50));
    assert!(idle.idle_check(200, 50));
}

#[test]
fn progress_is_reported_per_mebibyte() {
    let mut h = HttpState::new(SocketHandle::default());
    h.request_sent(1);
    h.on_header_data(b"HTTP/1.1 200 OK\r\n\r\n", 2);
    assert_eq!(h.on_body_data(0x10_0000 - 1, 3), (0, false));
    assert_eq!(h.on_body_data(1, 4), (1, true));
    assert_eq!(h.on_body_data(10, 5), (1, false));
}

#[test]
fn terminal_states_log_once() {
    let mut d = DoneState::new();
    assert!(d.step());
    assert!(!d.step());
    let mut f = FailedState::new("DHCP timeout");
    assert_eq!(f.reason(), "DHCP timeout");
    assert!(f.step());
    assert!(!f.step());
}
