use morpheus_network::mainloop::bare_receive::{
    bare_timeouts, head_fields, progress_bar, status_code, wait_outcome, BareEnd, BareEvent, BareReceiver,
    BareTimeout, ProgressLine, WaitOutcome, BARE_HEAD_CAPACITY,
};

#[test]
fn bare_head_then_body_to_announced_length() {
    let mut r = BareReceiver::new(100);
    assert_eq!(r.on_data(b"", 105), BareEvent::NoData);
    assert_eq!(r.on_data(b"HTTP/1.1 200 OK\r\nContent-Length: 10\r\n", 110), BareEvent::Pending);
    assert!(!r.headers_done());
    assert_eq!(r.end_check(false, true), BareEnd::Continue);
    assert_eq!(
        r.on_data(b"\r\nabcd", 120),
        BareEvent::HeadersDone { status: Some(200), content_length: Some(10), chunked: false, body_len: 4 }
    );
    assert_eq!(r.initial_body(), b"abcd");
    assert_eq!(r.body_received(), 4);
    assert_eq!(r.end_check(true, false), BareEnd::Continue);
    assert_eq!(r.on_data(b"efghij", 130), BareEvent::Body);
    assert_eq!(r.body_received(), 10);
    assert_eq!(r.total_received(), 49);
    assert_eq!(r.end_check(true, false), BareEnd::Complete);
}

#[test]
fn bare_close_without_length_completes() {
    let mut r = BareReceiver::new(0);
    let e = r.on_data(b"HTTP/1.0 200 OK\r\nServer: x\r\n\r\nhello", 1);
    assert_eq!(e, BareEvent::HeadersDone { status: Some(200), content_length: None, chunked: false, body_len: 5 });
    assert_eq!(r.end_check(true, true), BareEnd::Continue);
    assert_eq!(r.end_check(false, false), BareEnd::Continue);
    assert_eq!(r.end_check(false, true), BareEnd::CompleteOnClose);
}

#[test]
fn bare_close_before_length_is_short() {
    let mut r = BareReceiver::new(0);
    r.on_data(b"HTTP/1.1 200 OK\r\nContent-Length: 100\r\n\r\nxy", 1);
    assert_eq!(r.end_check(false, true), BareEnd::ClosedShort);
}

#[test]
fn bare_error_status_fails() {
    let mut r = BareReceiver::new(0);
    assert_eq!(
        r.on_data(b"HTTP/1.1 404 Not Found\r\nServer: x\r\n\r\n", 1),
        BareEvent::HttpError { status: 404 }
    );
    // The status line is read up to its `\r` inside the head before the
    // blank line; a head of the status line alone has none.
    let mut r = BareReceiver::new(0);
    assert_eq!(
        r.on_data(b"HTTP/1.1 404 Not Found\r\n\r\n", 1),
        BareEvent::HeadersDone { status: None, content_length: None, chunked: false, body_len: 0 }
    );
    let mut r = BareReceiver::new(0);
    assert_eq!(
        r.on_data(b"HTTP/1.1 301 Moved\r\nLocation: /x\r\n\r\n", 1),
        BareEvent::HeadersDone { status: Some(301), content_length: None, chunked: false, body_len: 0 }
    );
}

#[test]
fn bare_head_overflow_fails() {
    let mut r = BareReceiver::new(0);
    let big = vec![b'a'; BARE_HEAD_CAPACITY + 1];
    assert_eq!(r.on_data(&big, 1), BareEvent::HeadersTooLarge);
    assert_eq!(r.total_received(), 0);
    let fill = vec![b'a'; BARE_HEAD_CAPACITY];
    assert_eq!(r.on_data(&fill, 1), BareEvent::Pending);
    assert_eq!(r.on_data(b"a", 2), BareEvent::HeadersTooLarge);
}

#[test]
fn bare_status_code_forms() {
    assert_eq!(status_code("HTTP/1.1 200 OK\r\n"), Some(200));
    assert_eq!(status_code("HTTP/1.1 204\r\n"), Some(204));
    assert_eq!(status_code("HTTP/1.1 200 OK"), None);
    assert_eq!(status_code("HTTP/1.1\r\n"), None);
    assert_eq!(status_code("HTTP/1.1 2x0 OK\r\n"), None);
    assert_eq!(status_code("HTTP/1.1 70000 Big\r\n"), None);
}

#[test]
fn bare_head_fields_last_length_wins() {
    let text = "HTTP/1.1 200 OK\r\ncontent-length: 7\r\nCONTENT-LENGTH:  9 \r\nContent-Length: junk\r\nTransfer-Encoding: Chunked";
    assert_eq!(head_fields(text), (Some(9), true));
    assert_eq!(head_fields("Content-Length: 5"), (None, false));
    assert_eq!(head_fields("HTTP/1.1 200 OK\r\nX-Note: transfer-encoding: chunked"), (None, false));
}

#[test]
fn bare_non_utf8_head_has_no_fields() {
    let mut r = BareReceiver::new(0);
    let e = r.on_data(b"HTTP/1.1 200 \xff\r\nContent-Length: 3\r\n\r\n", 1);
    assert_eq!(e, BareEvent::HeadersDone { status: None, content_length: None, chunked: false, body_len: 0 });
}

#[test]
fn bare_progress_per_mebibyte() {
    let mut r = BareReceiver::new(0);
    r.on_data(b"HTTP/1.1 200 OK\r\nContent-Length: 4194304\r\n\r\n", 1);
    assert_eq!(r.progress(), None);
    let chunk = vec![0u8; 1 << 20];
    r.on_data(&chunk, 2);
    assert_eq!(r.progress(), Some(ProgressLine { mb: 1, percent: Some(25), total_mb: Some(4) }));
    assert_eq!(r.progress(), None);
    let mut r = BareReceiver::new(0);
    r.on_data(b"HTTP/1.1 200 OK\r\n\r\n", 1);
    r.on_data(&chunk, 2);
    r.on_data(&chunk, 3);
    assert_eq!(r.progress(), Some(ProgressLine { mb: 2, percent: None, total_mb: None }));
}

#[test]
fn bare_progress_bar_shape() {
    let mut expected = b"=====>".to_vec();
    expected.extend_from_slice(&[b' '; 14]);
    assert_eq!(progress_bar(25), expected);
    let mut expected = b">".to_vec();
    expected.extend_from_slice(&[b' '; 19]);
    assert_eq!(progress_bar(0), expected);
    assert_eq!(progress_bar(100), b"====================".to_vec());
}

#[test]
fn bare_timeouts_order() {
    let mut r = BareReceiver::new(0);
    assert_eq!(r.timeout(3601, 3600, 60), Some(BareTimeout::Total));
    assert_eq!(r.timeout(200, 3600, 60), None);
    r.on_data(b"HTTP/1.1 200 OK\r\n\r\n", 120);
    assert_eq!(r.timeout(200, 3600, 60), Some(BareTimeout::Stalled));
    assert_eq!(r.timeout(180, 3600, 60), None);
    assert_eq!(bare_timeouts(1000), (3_600_000, 60_000));
}

#[test]
fn bare_wait_outcomes() {
    assert_eq!(wait_outcome(10, 20, 5, true, true), WaitOutcome::TimedOut);
    assert_eq!(wait_outcome(10, 12, 5, true, false), WaitOutcome::Done);
    assert_eq!(wait_outcome(10, 12, 5, false, false), WaitOutcome::Closed);
    assert_eq!(wait_outcome(10, 12, 5, false, true), WaitOutcome::Pending);
    assert_eq!(wait_outcome(u64::MAX, 1, 5, false, true), WaitOutcome::Pending);
}
