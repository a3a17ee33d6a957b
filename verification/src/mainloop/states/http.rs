//! HTTP download state's text handling: the GET request it sends, where the
//! response head ends, and the `Content-Length` it announces.

use super::dhcp::saturating_elapsed;
use crate::text::{
    chars_eq_ignore_case, chars_of, contains_ignore_case, contains_ignore_case_spec, eq_ignore_case,
    parse_unsigned, parse_unsigned_exec, split_chars, split_on, trim, trim_bounds, utf8_text,
};
use crate::mainloop::state::StepResult;
use vstd::prelude::*;
use vstd::slice::slice_subrange;
use vstd::string::StringSliceAdditionalSpecFns;
use vstd::utf8::{decode_utf8, encode_utf8_decode_utf8, valid_utf8};

verus! {

/// HTTP download phase.
#[derive(Debug, Clone, Copy, PartialEq, Eq, Structural)]
pub enum HttpPhase {
    SendRequest,
    ReceiveHeaders,
    ReceiveBody,
    Complete,
}

/// `\r\n\r\n` starts at `i` in `data`.
pub open spec fn blank_line_at(data: Seq<u8>, i: int) -> bool {
    0 <= i && i + 4 <= data.len() && data[i] == 13 && data[i + 1] == 10 && data[i + 2] == 13 && data[i
        + 3] == 10
}

/// Find end of HTTP headers: the first position of `\r\n\r\n`.
pub fn find_header_end(data: &[u8]) -> (r: Option<usize>)
    ensures
        match r {
            Some(i) => blank_line_at(data@, i as int) && forall|j: int| 0 <= j < i ==> !blank_line_at(data@, j),
            None => forall|j: int| !blank_line_at(data@, j),
        },
{
    let n = data.len();
    let limit = if n >= 3 {
        n - 3
    } else {
        0
    };
    let mut i: usize = 0;
    while i < limit
        invariant
            limit == (if n >= 3 { n - 3 } else { 0 }),
            n == data@.len(),
            i <= limit,
            forall|j: int| 0 <= j < i ==> !blank_line_at(data@, j),
        decreases limit - i,
    {
        if data[i] == 13 && data[i + 1] == 10 && data[i + 2] == 13 && data[i + 3] == 10 {
            return Some(i);
        }
        i += 1;
    }
    None
}

/// The bytes of the GET request for `path` on `host` with `method`.
pub open spec fn request_bytes(method: &str, path: &str, host: &str) -> Seq<u8> {
    method.spec_bytes() + " ".spec_bytes() + path.spec_bytes() + " HTTP/1.1\r\nHost: ".spec_bytes()
        + host.spec_bytes() + "\r\nUser-Agent: MorpheusX/1.0\r\nAccept: */*\r\nConnection: close\r\n\r\n".spec_bytes()
}

/// Copy `part` into `buf` at `pos`, if it fits.
fn put(buf: &mut [u8], pos: usize, part: &[u8]) -> (r: Option<usize>)
    requires
        pos <= old(buf)@.len(),
    ensures
        final(buf)@.len() == old(buf)@.len(),
        final(buf)@.take(pos as int) == old(buf)@.take(pos as int),
        pos + part@.len() <= old(buf)@.len() ==> (r matches Some(q) && q == pos + part@.len()
            && final(buf)@.take(pos + part@.len()) == old(buf)@.take(pos as int) + part@),
        pos + part@.len() > old(buf)@.len() ==> r is None,
{
    if part.len() > buf.len() - pos {
        return None;
    }
    let mut k: usize = 0;
    while k < part.len()
        invariant
            pos + part.len() <= buf.len(),
            buf@.len() == old(buf)@.len(),
            k <= part.len(),
            buf@.take(pos + k) == old(buf)@.take(pos as int) + part@.take(k as int),
        decreases part.len() - k,
    {
        let ghost prev = buf@;
        buf[pos + k] = part[k];
        assert(buf@ == prev.update(pos + k, part@[k as int]));
        assert(buf@.take(pos + k + 1) =~= prev.take(pos + k).push(part@[k as int]));
        assert(part@.take(k + 1) =~= part@.take(k as int).push(part@[k as int]));
        k += 1;
        assert(buf@.take(pos + k) =~= old(buf)@.take(pos as int) + part@.take(k as int));
    }
    assert(part@.take(part@.len() as int) =~= part@);
    assert(buf@.take(pos as int) =~= old(buf)@.take(pos as int)) by {
        assert(buf@.take(pos as int) =~= buf@.take(pos + k).take(pos as int));
    }
    Some(pos + part.len())
}

/// Format the HTTP GET request into `buf`: its length, or 0 if it does not
/// fit (`buf` may then hold a partial request).
pub fn format_http_request(buf: &mut [u8], method: &str, path: &str, host: &str) -> (r: usize)
    ensures
        final(buf)@.len() == old(buf)@.len(),
        request_bytes(method, path, host).len() <= old(buf)@.len() ==> r == request_bytes(method, path, host).len()
            && final(buf)@.take(r as int) == request_bytes(method, path, host),
        request_bytes(method, path, host).len() > old(buf)@.len() ==> r == 0,
{
    let p0 = method.as_bytes();
    let p1 = " ".as_bytes();
    let p2 = path.as_bytes();
    let p3 = " HTTP/1.1\r\nHost: ".as_bytes();
    let p4 = host.as_bytes();
    let p5 = "\r\nUser-Agent: MorpheusX/1.0\r\nAccept: */*\r\nConnection: close\r\n\r\n".as_bytes();
    let ghost req = request_bytes(method, path, host);
    let ghost n = old(buf)@.len();
    assert(req =~= p0@ + p1@ + p2@ + p3@ + p4@ + p5@);
    assert(buf@.take(0) =~= Seq::<u8>::empty());
    let q0 = match put(buf, 0, p0) {
        Some(q) => q,
        None => return 0,
    };
    assert(buf@.take(q0 as int) =~= p0@);
    assert(q0 as int == p0@.len());
    let q1 = match put(buf, q0, p1) {
        Some(q) => q,
        None => return 0,
    };
    let q2 = match put(buf, q1, p2) {
        Some(q) => q,
        None => return 0,
    };
    let q3 = match put(buf, q2, p3) {
        Some(q) => q,
        None => return 0,
    };
    let q4 = match put(buf, q3, p4) {
        Some(q) => q,
        None => return 0,
    };
    let q5 = match put(buf, q4, p5) {
        Some(q) => q,
        None => return 0,
    };
    assert(buf@.take(q5 as int) =~= req);
    q5
}

/// The line starts with `Content-Length:` (ASCII case-insensitive).
pub open spec fn is_content_length_line(line: Seq<char>) -> bool {
    line.len() >= 15 && eq_ignore_case(line.take(15), "content-length:"@)
}

/// Value of the first `Content-Length:` line among `lines`: its trimmed
/// rest parsed as a `u64` (`None` if that fails), or `None` without such a
/// line.
pub open spec fn content_length_in(lines: Seq<Seq<char>>) -> Option<int>
    decreases lines.len(),
{
    if lines.len() == 0 {
        None
    } else if is_content_length_line(lines[0]) {
        parse_unsigned(trim(lines[0].skip(15)), u64::MAX as int)
    } else {
        content_length_in(lines.drop_first())
    }
}

/// Parse Content-Length from the response head, line by line.
pub fn parse_content_length(headers: &str) -> (r: Option<u64>)
    ensures
        match content_length_in(split_on(headers@, '\n')) {
            Some(v) => r == Some(v as u64),
            None => r is None,
        },
{
    let cs = chars_of(headers);
    let lines = split_chars(&cs, '\n');
    let key = chars_of("content-length:");
    proof {
        reveal_strlit("content-length:");
    }
    let ghost all = split_on(headers@, '\n');
    assert(all.skip(0) =~= all);
    let mut i: usize = 0;
    while i < lines.len()
        invariant
            all == split_on(headers@, '\n'),
            lines@.len() == all.len(),
            forall|k: int| 0 <= k < lines@.len() ==> #[trigger] lines@[k]@ == all[k],
            key@ == "content-length:"@,
            key@.len() == 15,
            i <= lines@.len(),
            content_length_in(all) == content_length_in(all.skip(i as int)),
        decreases lines.len() - i,
    {
        let line = &lines[i];
        assert(all.skip(i as int).drop_first() =~= all.skip(i + 1));
        assert(all.skip(i as int)[0] == all[i as int]);
        if line.len() >= 15 {
            let mut head: Vec<char> = Vec::new();
            let mut k: usize = 0;
            while k < 15
                invariant
                    k <= 15,
                    line@.len() >= 15,
                    head@ == line@.take(k as int),
                decreases 15 - k,
            {
                head.push(line[k]);
                k += 1;
                assert(head@ =~= line@.take(k as int));
            }
            if chars_eq_ignore_case(&head, &key) {
                let (a, b) = trim_bounds(line, 15, line.len());
                assert(line@.subrange(15, line@.len() as int) =~= line@.skip(15));
                let v = parse_unsigned_exec(line, a, b, u64::MAX);
                proof {
                    assert(line@.subrange(a as int, b as int) == trim(line@.skip(15)));
                    assert(head@ =~= line@.take(15));
                    assert(is_content_length_line(all[i as int]));
                    assert(content_length_in(all.skip(i as int)) == parse_unsigned(
                        trim(all[i as int].skip(15)),
                        u64::MAX as int,
                    ));
                    assert(content_length_in(all) == parse_unsigned(
                        line@.subrange(a as int, b as int),
                        u64::MAX as int,
                    ));
                }
                return v;
            }
        }
        i += 1;
    }
    proof {
        assert(all.skip(lines@.len() as int) =~= Seq::<Seq<char>>::empty());
    }
    None
}

/// A socket handle of the network stack.
#[verifier::external_type_specification]
#[verifier::external_body]
pub struct ExSocketHandle(smoltcp::iface::SocketHandle);

/// Size of the buffer the response head is collected in.
pub const HEADER_BUF_SIZE: usize = 2048;

/// Size of the buffer the request is built in.
pub const REQUEST_BUF_SIZE: usize = 512;

/// `bytes` starts with `p`.
pub open spec fn bytes_start_with(bytes: Seq<u8>, p: Seq<u8>) -> bool {
    bytes.len() >= p.len() && bytes.take(p.len() as int) == p
}

/// The response head (up to its blank line) is UTF-8 text and its status
/// line says `HTTP/1.1 200` or `HTTP/1.0 200`.
pub open spec fn status_ok(head: Seq<u8>) -> bool {
    &&& valid_utf8(head)
    &&& (bytes_start_with(head, "HTTP/1.1 200".spec_bytes()) || bytes_start_with(head, "HTTP/1.0 200".spec_bytes()))
}

/// What collecting the response head gave.
#[derive(Debug, Clone, Copy, PartialEq, Eq, Structural)]
pub enum HeaderEvent {
    /// The head is not complete yet.
    Pending,
    /// The status is not 200: fail with "status".
    BadStatus,
    /// The head is complete: the body starts; `body_len` bytes of it came
    /// with the head.
    HeadersDone { body_len: usize },
}

/// What the body phase decided when no data can be received.
#[derive(Debug, Clone, Copy, PartialEq, Eq, Structural)]
pub enum BodyEnd {
    /// All the announced bytes arrived: done.
    Done,
    /// No length was announced and the connection closed: done, with
    /// everything up to the close.
    DoneOnClose,
    /// The connection closed before the announced length: fail with
    /// "close".
    PrematureClose,
    /// Keep waiting.
    Wait,
}

impl HeaderEvent {
    /// What the download loop reports for this event.
    pub fn result(self) -> (r: StepResult)
        ensures
            r == (match self {
                HeaderEvent::BadStatus => StepResult::Failed("status"),
                _ => StepResult::Continue,
            }),
    {
        match self {
            HeaderEvent::BadStatus => StepResult::Failed("status"),
            _ => StepResult::Continue,
        }
    }
}

impl BodyEnd {
    /// What the download loop reports for this decision.
    pub fn result(self) -> (r: StepResult)
        ensures
            r == (match self {
                BodyEnd::Done | BodyEnd::DoneOnClose => StepResult::Transition,
                BodyEnd::PrematureClose => StepResult::Failed("close"),
                BodyEnd::Wait => StepResult::Continue,
            }),
    {
        match self {
            BodyEnd::Done | BodyEnd::DoneOnClose => StepResult::Transition,
            BodyEnd::PrematureClose => StepResult::Failed("close"),
            BodyEnd::Wait => StepResult::Continue,
        }
    }
}

/// HTTP state — sends a GET request and follows the response.
pub struct HttpState {
    tcp_handle: smoltcp::iface::SocketHandle,
    phase: HttpPhase,
    start_tsc: u64,
    last_activity_tsc: u64,
    method: &'static str,
    path: Option<&'static str>,
    host: Option<&'static str>,
    headers_complete: bool,
    content_length: Option<u64>,
    chunked: bool,
    bytes_received: u64,
    header_buf: [u8; 2048],
    header_len: usize,
}

impl HttpState {
    /// The head buffer's fill level is within it, and nothing of the body
    /// is counted before the head is complete.
    pub closed spec fn wf(&self) -> bool {
        &&& self.header_len <= HEADER_BUF_SIZE
        &&& (!self.headers_complete ==> self.bytes_received == 0)
    }

    pub closed spec fn spec_phase(&self) -> HttpPhase {
        self.phase
    }

    pub closed spec fn spec_bytes(&self) -> u64 {
        self.bytes_received
    }

    pub closed spec fn spec_content_length(&self) -> Option<u64> {
        self.content_length
    }

    pub closed spec fn spec_chunked(&self) -> bool {
        self.chunked
    }

    /// The response head was complete.
    pub closed spec fn spec_headers_complete(&self) -> bool {
        self.headers_complete
    }

    pub closed spec fn spec_last_activity(&self) -> u64 {
        self.last_activity_tsc
    }

    pub closed spec fn spec_start(&self) -> u64 {
        self.start_tsc
    }

    /// The response bytes collected so far while reading the head.
    pub closed spec fn head_bytes(&self) -> Seq<u8> {
        self.header_buf@.take(self.header_len as int)
    }

    pub closed spec fn spec_request(&self) -> (&'static str, Option<&'static str>, Option<&'static str>) {
        (self.method, self.path, self.host)
    }

    pub closed spec fn spec_handle(&self) -> smoltcp::iface::SocketHandle {
        self.tcp_handle
    }

    /// HTTP state for the download: a GET of the URL's path on its host.
    pub fn new(tcp_handle: smoltcp::iface::SocketHandle) -> (r: Self)
        ensures
            r.wf(),
            r.spec_phase() == HttpPhase::SendRequest,
            r.spec_start() == 0,
            r.spec_bytes() == 0,
            r.spec_content_length() is None,
            !r.spec_headers_complete(),
            r.head_bytes() == Seq::<u8>::empty(),
            r.spec_request() == ("GET", None::<&'static str>, None::<&'static str>),
            r.spec_handle() == tcp_handle,
    {
        let r = HttpState {
            tcp_handle,
            phase: HttpPhase::SendRequest,
            start_tsc: 0,
            last_activity_tsc: 0,
            method: "GET",
            path: None,
            host: None,
            headers_complete: false,
            content_length: None,
            chunked: false,
            bytes_received: 0,
            header_buf: [0u8; 2048],
            header_len: 0,
        };
        assert(r.head_bytes() =~= Seq::<u8>::empty());
        r
    }

    /// HTTP state with an explicit request.
    pub fn with_request(
        tcp_handle: smoltcp::iface::SocketHandle,
        method: &'static str,
        path: &'static str,
        host: &'static str,
    ) -> (r: Self)
        ensures
            r.wf(),
            r.spec_phase() == HttpPhase::SendRequest,
            r.spec_start() == 0,
            r.spec_bytes() == 0,
            r.spec_content_length() is None,
            !r.spec_headers_complete(),
            r.head_bytes() == Seq::<u8>::empty(),
            r.spec_request() == (method, Some(path), Some(host)),
            r.spec_handle() == tcp_handle,
    {
        let r = HttpState {
            tcp_handle,
            phase: HttpPhase::SendRequest,
            start_tsc: 0,
            last_activity_tsc: 0,
            method,
            path: Some(path),
            host: Some(host),
            headers_complete: false,
            content_length: None,
            chunked: false,
            bytes_received: 0,
            header_buf: [0u8; 2048],
            header_len: 0,
        };
        assert(r.head_bytes() =~= Seq::<u8>::empty());
        r
    }

    /// The TCP socket's handle.
    pub fn tcp_handle(&self) -> (r: smoltcp::iface::SocketHandle)
        ensures
            r == self.spec_handle(),
    {
        self.tcp_handle
    }

    /// Get current phase.
    pub fn phase(&self) -> (r: HttpPhase)
        ensures
            r == self.spec_phase(),
    {
        self.phase
    }

    /// Get bytes received so far.
    pub fn bytes_received(&self) -> (r: u64)
        ensures
            r == self.spec_bytes(),
    {
        self.bytes_received
    }

    /// Get content length (if known from headers).
    pub fn content_length(&self) -> (r: Option<u64>)
        ensures
            r == self.spec_content_length(),
    {
        self.content_length
    }

    /// Whether the response announced chunked transfer encoding.
    pub fn is_chunked(&self) -> (r: bool)
        ensures
            r == self.spec_chunked(),
    {
        self.chunked
    }

    /// Start of a step at time `tsc`: the first step records the start and
    /// activity times; returns whether the connection was idle longer than
    /// `idle_timeout` (the download then fails with "idle timeout").
    pub fn idle_check(&mut self, tsc: u64, idle_timeout: u64) -> (r: bool)
        ensures
            ({
                let last = if old(self).spec_start() == 0 {
                    tsc
                } else {
                    old(self).spec_last_activity()
                };
                &&& final(self).spec_last_activity() == last
                &&& r == (saturating_elapsed(last, tsc) > idle_timeout)
            }),
            final(self).spec_start() == (if old(self).spec_start() == 0 {
                tsc
            } else {
                old(self).spec_start()
            }),
            final(self).wf() == old(self).wf(),
            final(self).spec_phase() == old(self).spec_phase(),
            final(self).spec_bytes() == old(self).spec_bytes(),
            final(self).spec_content_length() == old(self).spec_content_length(),
            final(self).head_bytes() == old(self).head_bytes(),
            final(self).spec_request() == old(self).spec_request(),
    {
        if self.start_tsc == 0 {
            self.start_tsc = tsc;
            self.last_activity_tsc = tsc;
        }
        tsc.saturating_sub(self.last_activity_tsc) > idle_timeout
    }

    /// Build the request into `buf` (the state's own path and host, or the
    /// URL's); its length, or 0 if it does not fit (the download then fails
    /// with "request").
    pub fn build_request(&self, url_path: &str, url_host: &str, buf: &mut [u8]) -> (r: usize)
        ensures
            ({
                let (method, path, host) = self.spec_request();
                let p = match path {
                    Some(p) => p,
                    None => url_path,
                };
                let h = match host {
                    Some(h) => h,
                    None => url_host,
                };
                &&& request_bytes(method, p, h).len() <= old(buf)@.len() ==> r == request_bytes(method, p, h).len()
                    && final(buf)@.take(r as int) == request_bytes(method, p, h)
                &&& request_bytes(method, p, h).len() > old(buf)@.len() ==> r == 0
            }),
            final(buf)@.len() == old(buf)@.len(),
    {
        let path = match self.path {
            Some(p) => p,
            None => url_path,
        };
        let host = match self.host {
            Some(h) => h,
            None => url_host,
        };
        format_http_request(buf, self.method, path, host)
    }

    /// The request was sent at `tsc`: collect the response head next.
    pub fn request_sent(&mut self, tsc: u64)
        ensures
            final(self).wf() == old(self).wf(),
            final(self).spec_phase() == HttpPhase::ReceiveHeaders,
            final(self).spec_last_activity() == tsc,
            final(self).spec_start() == old(self).spec_start(),
            final(self).spec_bytes() == old(self).spec_bytes(),
            final(self).spec_content_length() == old(self).spec_content_length(),
            final(self).head_bytes() == old(self).head_bytes(),
            final(self).spec_request() == old(self).spec_request(),
    {
        self.phase = HttpPhase::ReceiveHeaders;
        self.last_activity_tsc = tsc;
    }

    /// Room left for the response head (0: the download fails with
    /// "headers").
    pub fn header_space(&self) -> (r: usize)
        requires
            self.wf(),
        ensures
            r == HEADER_BUF_SIZE - self.head_bytes().len(),
    {
        HEADER_BUF_SIZE - self.header_len
    }

    /// Take `data` received at `tsc` while collecting the response head.
    /// Once the head is complete, its status must be 200; the announced
    /// length and chunked encoding are recorded, the bytes after the head
    /// count as body, and the body phase starts.
    pub fn on_header_data(&mut self, data: &[u8], tsc: u64) -> (r: HeaderEvent)
        requires
            old(self).wf(),
            !old(self).spec_headers_complete(),
            data@.len() <= HEADER_BUF_SIZE - old(self).head_bytes().len(),
        ensures
            final(self).wf(),
            final(self).spec_request() == old(self).spec_request(),
            final(self).spec_start() == old(self).spec_start(),
            data@.len() == 0 ==> r == HeaderEvent::Pending && *final(self) == *old(self),
            data@.len() > 0 ==> {
                let head = old(self).head_bytes() + data@;
                &&& final(self).head_bytes() == head
                &&& final(self).spec_last_activity() == tsc
                &&& match r {
                    HeaderEvent::Pending => forall|j: int| !blank_line_at(head, j),
                    HeaderEvent::BadStatus => exists|e: int| blank_line_at(head, e) && (forall|j: int|
                        0 <= j < e ==> !blank_line_at(head, j)) && !status_ok(head.take(e)),
                    HeaderEvent::HeadersDone { body_len } => exists|e: int|
                        #![trigger head.take(e)]
                        blank_line_at(head, e) && (forall|j: int| 0 <= j < e ==> !blank_line_at(head, j))
                            && status_ok(head.take(e)) && body_len == head.len() - (e + 4)
                            && final(self).spec_phase() == HttpPhase::ReceiveBody && final(self).spec_headers_complete() && final(self).spec_bytes()
                            == old(self).spec_bytes() + body_len && final(self).spec_content_length() == (
                        match content_length_in(split_on(decode_utf8(head.take(e)), '\n')) {
                            Some(v) => Some(v as u64),
                            None => None,
                        }) && final(self).spec_chunked() == contains_ignore_case_spec(
                            decode_utf8(head.take(e)),
                            "transfer-encoding: chunked"@,
                        ),
                }
            },
    {
        if data.len() == 0 {
            return HeaderEvent::Pending;
        }
        let ghost old_head = self.head_bytes();
        let mut k: usize = 0;
        while k < data.len()
            invariant
                self.header_len + data@.len() <= HEADER_BUF_SIZE,
                self.header_len == old(self).header_len,
                k <= data@.len(),
                self.header_buf@.take(self.header_len + k) == old_head + data@.take(k as int),
                old_head == old(self).head_bytes(),
                self.tcp_handle == old(self).tcp_handle,
                self.phase == old(self).phase,
                self.start_tsc == old(self).start_tsc,
                self.last_activity_tsc == old(self).last_activity_tsc,
                self.method == old(self).method,
                self.path == old(self).path,
                self.host == old(self).host,
                self.headers_complete == old(self).headers_complete,
                self.content_length == old(self).content_length,
                self.chunked == old(self).chunked,
                self.bytes_received == old(self).bytes_received,
            decreases data.len() - k,
        {
            let ghost prev = self.header_buf@;
            self.header_buf[self.header_len + k] = data[k];
            assert(self.header_buf@.take(self.header_len + k + 1) =~= prev.take(self.header_len + k).push(
                data@[k as int],
            ));
            assert(data@.take(k + 1) =~= data@.take(k as int).push(data@[k as int]));
            k += 1;
        }
        assert(data@.take(data@.len() as int) =~= data@);
        self.header_len = self.header_len + data.len();
        self.last_activity_tsc = tsc;
        let ghost head = self.head_bytes();
        let collected = slice_subrange(self.header_buf.as_slice(), 0, self.header_len);
        assert(collected@ =~= head);
        let end = match find_header_end(collected) {
            Some(e) => e,
            None => {
                return HeaderEvent::Pending;
            },
        };
        let head_part = slice_subrange(self.header_buf.as_slice(), 0, end);
        assert(head_part@ =~= head.take(end as int));
        let text = match utf8_text(head_part) {
            Some(t) => t,
            None => {
                return HeaderEvent::BadStatus;
            },
        };
        proof {
            encode_utf8_decode_utf8(text@);
        }
        let status11 = "HTTP/1.1 200".as_bytes();
        let status10 = "HTTP/1.0 200".as_bytes();
        if !starts_with_bytes(head_part, status11) && !starts_with_bytes(head_part, status10) {
            return HeaderEvent::BadStatus;
        }
        self.content_length = parse_content_length(text);
        self.chunked = contains_ignore_case(text, "transfer-encoding: chunked");
        let body_len = self.header_len - (end + 4);
        self.headers_complete = true;
        self.bytes_received = self.bytes_received + body_len as u64;
        self.phase = HttpPhase::ReceiveBody;
        HeaderEvent::HeadersDone { body_len }
    }

    /// Count `n` body bytes received at `tsc`; returns the whole mebibytes
    /// received, and whether that number just grew (a progress line is then
    /// printed).
    pub fn on_body_data(&mut self, n: usize, tsc: u64) -> (r: (u64, bool))
        requires
            old(self).spec_bytes() + n <= u64::MAX,
        ensures
            final(self).spec_bytes() == old(self).spec_bytes() + n,
            final(self).spec_last_activity() == (if n > 0 {
                tsc
            } else {
                old(self).spec_last_activity()
            }),
            r.0 == final(self).spec_bytes() / 0x10_0000,
            r.1 == (final(self).spec_bytes() / 0x10_0000 > old(self).spec_bytes() / 0x10_0000),
            final(self).spec_phase() == old(self).spec_phase(),
            final(self).spec_content_length() == old(self).spec_content_length(),
            final(self).spec_request() == old(self).spec_request(),
            final(self).head_bytes() == old(self).head_bytes(),
            final(self).spec_start() == old(self).spec_start(),
            final(self).spec_headers_complete() == old(self).spec_headers_complete(),
            old(self).wf() && (old(self).spec_headers_complete() || n == 0) ==> final(self).wf(),
    {
        let before = self.bytes_received;
        if n > 0 {
            self.bytes_received = self.bytes_received + n as u64;
            self.last_activity_tsc = tsc;
        }
        let mb = self.bytes_received / 0x10_0000;
        (mb, mb > before / 0x10_0000)
    }

    /// Decide the body phase when nothing can be received: done when the
    /// announced length arrived, or on a close without an announced length;
    /// a close before the announced length fails.
    pub fn on_body_idle(&mut self, established: bool) -> (r: BodyEnd)
        ensures
            r == (match old(self).spec_content_length() {
                Some(e) => if old(self).spec_bytes() >= e {
                    BodyEnd::Done
                } else if !established {
                    BodyEnd::PrematureClose
                } else {
                    BodyEnd::Wait
                },
                None => if !established {
                    BodyEnd::DoneOnClose
                } else {
                    BodyEnd::Wait
                },
            }),
            final(self).spec_phase() == (if old(self).spec_content_length() matches Some(e) && old(self).spec_bytes() >= e {
                HttpPhase::Complete
            } else {
                old(self).spec_phase()
            }),
            final(self).spec_bytes() == old(self).spec_bytes(),
            final(self).spec_content_length() == old(self).spec_content_length(),
            final(self).wf() == old(self).wf(),
    {
        if let Some(expected) = self.content_length {
            if self.bytes_received >= expected {
                self.phase = HttpPhase::Complete;
                return BodyEnd::Done;
            }
        }
        if !established {
            if self.content_length.is_none() {
                return BodyEnd::DoneOnClose;
            }
            return BodyEnd::PrematureClose;
        }
        BodyEnd::Wait
    }
}

/// `data` starts with the bytes of `prefix`.
fn starts_with_bytes(data: &[u8], prefix: &[u8]) -> (r: bool)
    ensures
        r == bytes_start_with(data@, prefix@),
{
    if data.len() < prefix.len() {
        return false;
    }
    let mut i: usize = 0;
    while i < prefix.len()
        invariant
            prefix.len() <= data.len(),
            i <= prefix.len(),
            forall|k: int| 0 <= k < i ==> data@[k] == prefix@[k],
        decreases prefix.len() - i,
    {
        if data[i] != prefix[i] {
            assert(data@.take(prefix@.len() as int)[i as int] != prefix@[i as int]);
            return false;
        }
        i += 1;
    }
    assert(data@.take(prefix@.len() as int) =~= prefix@);
    true
}

} // verus!
