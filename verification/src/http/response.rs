//! HTTP response parsing.
//!
//! Parse HTTP/1.1 responses from wire format.

use super::headers::{
    content_length_of, content_type_name, lookup, parse_wire, transfer_encoding_name, value_is,
    HeaderView, Headers,
};
use crate::error::{NetworkError, Result};
use crate::text::{
    utf8_text,
    chars_of, crlf, find, find_exec, find_from, lemma_find_bounded, lemma_find_from_range, lemma_find_shift, lemma_parse_unsigned_bounds,
    lemma_utf8_len_concat, lemma_utf8_len_crlf, lemma_utf8_len_prefix, occurs_at, occurs_at_exec,
    parse_unsigned, parse_unsigned_exec, substring, utf8_len, utf8_len_of,
};
use vstd::prelude::*;
use vstd::string::StringSliceAdditionalSpecFns;
use vstd::utf8::{decode_utf8, decode_utf8_encode_utf8, encode_utf8, encode_utf8_decode_utf8, encode_utf8_valid_utf8, valid_utf8};

verus! {

/// A response as the contracts see it: version, status code, reason phrase,
/// headers and body.
pub type ResponseView = (Seq<char>, u16, Seq<char>, Seq<HeaderView>, Seq<u8>);

pub open spec fn crlf2() -> Seq<char> {
    seq!['\r', '\n', '\r', '\n']
}

pub open spec fn version_prefix() -> Seq<char> {
    seq!['H', 'T', 'T', 'P', '/']
}

/// The default reason phrase of a status code.
pub open spec fn reason_text(code: u16) -> Seq<char> {
    if code == 100 {
        "Continue"@
    } else if code == 101 {
        "Switching Protocols"@
    } else if code == 200 {
        "OK"@
    } else if code == 201 {
        "Created"@
    } else if code == 204 {
        "No Content"@
    } else if code == 206 {
        "Partial Content"@
    } else if code == 301 {
        "Moved Permanently"@
    } else if code == 302 {
        "Found"@
    } else if code == 304 {
        "Not Modified"@
    } else if code == 307 {
        "Temporary Redirect"@
    } else if code == 308 {
        "Permanent Redirect"@
    } else if code == 400 {
        "Bad Request"@
    } else if code == 401 {
        "Unauthorized"@
    } else if code == 403 {
        "Forbidden"@
    } else if code == 404 {
        "Not Found"@
    } else if code == 405 {
        "Method Not Allowed"@
    } else if code == 408 {
        "Request Timeout"@
    } else if code == 416 {
        "Range Not Satisfiable"@
    } else if code == 500 {
        "Internal Server Error"@
    } else if code == 501 {
        "Not Implemented"@
    } else if code == 502 {
        "Bad Gateway"@
    } else if code == 503 {
        "Service Unavailable"@
    } else if code == 504 {
        "Gateway Timeout"@
    } else {
        "Unknown"@
    }
}

/// `VERSION SP STATUS [SP REASON]`: the line split at its first two spaces;
/// the version must start with `HTTP/` and the status must be a decimal
/// number up to 65535.
pub open spec fn parse_status_line(line: Seq<char>) -> Option<(Seq<char>, u16, Seq<char>)> {
    match find(line, seq![' ']) {
        None => None,
        Some(a) => {
            let version = line.take(a);
            let after = line.skip(a + 1);
            let status = match find(after, seq![' ']) {
                Some(b) => after.take(b),
                None => after,
            };
            let reason = match find(after, seq![' ']) {
                Some(b) => after.skip(b + 1),
                None => Seq::empty(),
            };
            if version.len() >= 5 && version.take(5) == version_prefix() {
                match parse_unsigned(status, 65535) {
                    Some(c) => Some((version, c as u16, reason)),
                    None => None,
                }
            } else {
                None
            }
        },
    }
}

/// Status line, headers and position (in characters) of the blank line that
/// ends the head of a response text.
pub open spec fn parse_head(text: Seq<char>) -> Option<
    (Seq<char>, u16, Seq<char>, Seq<HeaderView>, int),
> {
    match find(text, crlf2()) {
        None => None,
        Some(he) => match find(text, crlf()) {
            None => None,
            Some(fl) => match parse_status_line(text.take(fl)) {
                None => None,
                Some((v, c, r)) => {
                    let hs = if fl + 2 < he {
                        parse_wire(text.subrange(fl + 2, he)).0
                    } else {
                        Seq::empty()
                    };
                    Some((v, c, r, hs, he))
                },
            },
        },
    }
}

/// Byte offset where the body starts, for a head that ends at character `he`.
pub open spec fn body_offset(text: Seq<char>, he: int) -> int {
    utf8_len(text.take(he)) + 4int
}

/// What `Response::parse` returns for `data`: the head, then as many body
/// bytes as Content-Length asks for (all remaining bytes when it is absent),
/// never more than there are; and the offset just past the body.
pub open spec fn parse_response(data: Seq<u8>) -> Option<(ResponseView, int)> {
    if !valid_utf8(data) {
        None
    } else {
        let text = decode_utf8(data);
        match parse_head(text) {
            None => None,
            Some((v, c, r, hs, he)) => {
                let start = body_offset(text, he);
                let avail = data.len() - start;
                let len = match content_length_of(hs) {
                    Some(n) => if n < avail {
                        n
                    } else {
                        avail
                    },
                    None => avail,
                };
                Some(((v, c, r, hs, data.subrange(start, start + len)), start + len))
            },
        }
    }
}

/// What `Response::parse_headers_only` returns for `data`: the head with an
/// empty body, and the offset where the body starts.
pub open spec fn parse_response_head(data: Seq<u8>) -> Option<(ResponseView, int)> {
    if !valid_utf8(data) {
        None
    } else {
        let text = decode_utf8(data);
        match parse_head(text) {
            None => None,
            Some((v, c, r, hs, he)) => Some(
                ((v, c, r, hs, Seq::empty()), body_offset(text, he)),
            ),
        }
    }
}

/// Text of `data` when it is valid UTF-8.
///
/// HTTP response.
#[derive(Debug)]
pub struct Response {
    /// HTTP version (e.g., "HTTP/1.1").
    pub version: String,
    /// Status code (e.g., 200, 404).
    pub status_code: u16,
    /// Reason phrase (e.g., "OK", "Not Found").
    pub reason: String,
    /// Response headers.
    pub headers: Headers,
    /// Response body.
    pub body: Vec<u8>,
}

impl View for Response {
    type V = ResponseView;

    open spec fn view(&self) -> ResponseView {
        (self.version@, self.status_code, self.reason@, self.headers@, self.body@)
    }
}

/// Version, code and reason of the status line `cs[0..fl]`.
fn status_line_of(text: &str, cs: &Vec<char>, fl: usize) -> (r: Option<(String, u16, String)>)
    requires
        cs@ == text@,
        fl <= cs.len(),
    ensures
        match parse_status_line(cs@.take(fl as int)) {
            Some((v, c, rs)) => r matches Some((rv, rc, rr)) && rv@ == v && rc == c && rr@ == rs,
            None => r is None,
        },
{
    let ghost line = cs@.take(fl as int);
    let space = chars_of(" ");
    let prefix = chars_of("HTTP/");
    proof {
        reveal_strlit(" ");
        reveal_strlit("HTTP/");
        assert(space@ =~= seq![' ']);
        assert(prefix@ =~= version_prefix());
        lemma_find_from_range(cs@, seq![' '], 0);
        lemma_find_bounded(cs@, seq![' '], 0, fl as int);
        assert(cs@.subrange(0, fl as int) =~= line);
    }
    let a = match find_exec(cs, &space, 0) {
        Some(a) if a < fl => a,
        _ => {
            return None;
        },
    };
    let ghost after = line.skip(a + 1);
    proof {
        assert(after =~= cs@.subrange(a + 1, fl as int));
        lemma_find_from_range(cs@, seq![' '], a + 1);
        lemma_find_bounded(cs@, seq![' '], a + 1, fl as int);
    }
    let (status_end, reason_start) = match find_exec(cs, &space, a + 1) {
        Some(b) if b < fl => (b, b + 1),
        _ => (fl, fl),
    };
    proof {
        assert(line.take(a as int) =~= cs@.subrange(0, a as int));
        if 5 <= a {
            assert(line.take(a as int).take(5) =~= cs@.subrange(0, 5));
        }
        assert(cs@.subrange(a + 1, status_end as int) =~= (match find(after, seq![' ']) {
            Some(b) => after.take(b),
            None => after,
        }));
        assert(cs@.subrange(reason_start as int, fl as int) =~= (match find(after, seq![' ']) {
            Some(b) => after.skip(b + 1),
            None => Seq::empty(),
        }));
    }
    if a < 5 || !occurs_at_exec(cs, &prefix, 0) {
        return None;
    }
    let code = match parse_unsigned_exec(cs, a + 1, status_end, 65535) {
        Some(c) => c as u16,
        None => {
            return None;
        },
    };
    Some((substring(text, 0, a), code, substring(text, reason_start, fl)))
}

/// Parsed head of `text`, with the character position of the blank line and
/// the byte offset of the body.
fn head_of(text: &str) -> (r: Option<(String, u16, String, Headers, usize, usize)>)
    ensures
        match parse_head(text@) {
            Some((v, c, rs, hs, he)) => r matches Some((rv, rc, rr, rh, rhe, rb)) && rv@ == v
                && rc == c && rr@ == rs && rh@ == hs && rhe == he && rb == body_offset(text@, he)
                && rb <= utf8_len(text@),
            None => r is None,
        },
{
    let total = text.as_bytes().len();
    let cs = chars_of(text);
    let end2 = chars_of("\r\n\r\n");
    let end1 = chars_of("\r\n");
    proof {
        reveal_strlit("\r\n\r\n");
        reveal_strlit("\r\n");
        assert(end2@ =~= crlf2());
        assert(end1@ =~= crlf());
        lemma_find_from_range(cs@, crlf2(), 0);
        lemma_find_from_range(cs@, crlf(), 0);
    }
    let found2 = find_exec(&cs, &end2, 0);
    let he = match found2 {
        Some(he) => he,
        None => {
            return None;
        },
    };
    proof {
        assert(find_from(cs@, end2@, 0) is Some);
        let k = find_from(cs@, crlf2(), 0)->0;
        assert(0 <= k && k + 4 <= cs.len());
        assert(found2 == Some(k as usize));
        assert(he as int == k);
    }
    let fl = match find_exec(&cs, &end1, 0) {
        Some(fl) => fl,
        None => {
            return None;
        },
    };
    proof {
        assert(find_from(cs@, crlf2(), 0) == Some(he as int));
        assert(occurs_at(cs@, crlf2(), he as int));
        assert(cs@.subrange(he as int, he + 4) == crlf2());
        assert(cs@.subrange(he as int, he + 2) =~= cs@.subrange(he as int, he + 4).take(2));
        assert(crlf2().take(2) =~= crlf());
        assert(occurs_at(cs@, crlf(), he as int));
        assert(fl <= he);
    }
    let (version, code, reason) = match status_line_of(text, &cs, fl) {
        Some(s) => s,
        None => {
            return None;
        },
    };
    proof {
        lemma_utf8_len_crlf2();
        assert(cs@.take(he + 4) =~= cs@.take(he as int) + crlf2());
        lemma_utf8_len_concat(cs@.take(he as int), crlf2());
        lemma_utf8_len_prefix(cs@, he + 4);
    }
    let headers = if fl + 2 < he {
        let sub = text.substring_char(fl + 2, he);
        proof {
            assert(cs@.take(he as int) =~= cs@.take(fl + 2) + sub@);
            lemma_utf8_len_concat(cs@.take(fl + 2), sub@);
        }
        let (h, _) = Headers::from_wire_format(sub);
        h
    } else {
        Headers::new()
    };
    let start = utf8_len_of(text, 0, he) + 4;
    proof {
        assert(cs@.subrange(0, he as int) =~= cs@.take(he as int));
    }
    Some((version, code, reason, headers, he, start))
}

pub proof fn lemma_utf8_len_crlf2()
    ensures
        utf8_len(crlf2()) == 4,
{
    assert(crlf2() =~= crlf() + crlf());
    lemma_utf8_len_concat(crlf(), crlf());
    lemma_utf8_len_crlf();
}

impl Response {
    /// Create a new response with the given status code.
    pub fn new(status_code: u16) -> (r: Self)
        ensures
            r@ == ("HTTP/1.1"@, status_code, reason_text(status_code), Seq::<HeaderView>::empty(), Seq::<u8>::empty()),
    {
        let r = Response {
            version: "HTTP/1.1".to_owned(),
            status_code,
            reason: Self::default_reason(status_code).to_owned(),
            headers: Headers::new(),
            body: Vec::new(),
        };
        assert(r.body@ =~= Seq::<u8>::empty());
        r
    }

    /// Check if response indicates success (2xx).
    pub fn is_success(&self) -> (r: bool)
        ensures
            r == (200 <= self.status_code < 300),
    {
        200 <= self.status_code && self.status_code < 300
    }

    /// Check if response indicates redirect (3xx).
    pub fn is_redirect(&self) -> (r: bool)
        ensures
            r == (300 <= self.status_code < 400),
    {
        300 <= self.status_code && self.status_code < 400
    }

    /// Check if response indicates client error (4xx).
    pub fn is_client_error(&self) -> (r: bool)
        ensures
            r == (400 <= self.status_code < 500),
    {
        400 <= self.status_code && self.status_code < 500
    }

    /// Check if response indicates server error (5xx).
    pub fn is_server_error(&self) -> (r: bool)
        ensures
            r == (500 <= self.status_code < 600),
    {
        500 <= self.status_code && self.status_code < 600
    }

    /// Get default reason phrase for status code.
    pub fn default_reason(status_code: u16) -> (r: &'static str)
        ensures
            r@ == reason_text(status_code),
    {
        match status_code {
            100 => "Continue",
            101 => "Switching Protocols",
            200 => "OK",
            201 => "Created",
            204 => "No Content",
            206 => "Partial Content",
            301 => "Moved Permanently",
            302 => "Found",
            304 => "Not Modified",
            307 => "Temporary Redirect",
            308 => "Permanent Redirect",
            400 => "Bad Request",
            401 => "Unauthorized",
            403 => "Forbidden",
            404 => "Not Found",
            405 => "Method Not Allowed",
            408 => "Request Timeout",
            416 => "Range Not Satisfiable",
            500 => "Internal Server Error",
            501 => "Not Implemented",
            502 => "Bad Gateway",
            503 => "Service Unavailable",
            504 => "Gateway Timeout",
            _ => "Unknown",
        }
    }

    /// Get Location header (for redirects).
    pub fn location(&self) -> (r: Option<&str>)
        ensures
            match lookup(self.headers@, "Location"@) {
                Some(v) => r is Some && r->0@ == v,
                None => r is None,
            },
    {
        self.headers.get("Location")
    }

    /// Get Content-Length.
    pub fn content_length(&self) -> (r: Option<usize>)
        ensures
            match content_length_of(self.headers@) {
                Some(n) => r == Some(n as usize),
                None => r is None,
            },
    {
        self.headers.content_length()
    }

    /// Check if response has chunked transfer encoding.
    pub fn is_chunked(&self) -> (r: bool)
        ensures
            r == value_is(self.headers@, transfer_encoding_name(), "chunked"@),
    {
        proof {
            reveal_strlit("chunked");
            assert("chunked"@ =~= super::headers::chunked_word());
        }
        self.headers.is_chunked()
    }

    /// Get Content-Type.
    pub fn content_type(&self) -> (r: Option<&str>)
        ensures
            match lookup(self.headers@, content_type_name()) {
                Some(v) => r is Some && r->0@ == v,
                None => r is None,
            },
    {
        self.headers.content_type()
    }

    // ==================== Parsing ====================
    /// Parse a complete HTTP response from raw bytes.
    ///
    /// Returns the parsed response and the total bytes consumed.
    pub fn parse(data: &[u8]) -> (r: Result<(Self, usize)>)
        ensures
            match parse_response(data@) {
                Some((v, n)) => r matches Ok((resp, m)) && resp@ == v && m == n,
                None => r == Err::<(Self, usize), NetworkError>(NetworkError::InvalidResponse),
            },
    {
        let text = match utf8_text(data) {
            Some(t) => t,
            None => {
                return Err(NetworkError::InvalidResponse);
            },
        };
        proof {
            encode_utf8_decode_utf8(text@);
            assert(decode_utf8(data@) == text@);
            assert(utf8_len(text@) == data@.len());
        }
        let (version, status_code, reason, headers, _he, body_start) = match head_of(text) {
            Some(h) => h,
            None => {
                return Err(NetworkError::InvalidResponse);
            },
        };
        let ghost text_v = text@;
        let ghost head = parse_head(text_v)->Some_0;
        assert(body_start == body_offset(decode_utf8(data@), head.4));
        let avail = data.len() - body_start;
        let cl = headers.content_length();
        assert(headers@ == head.3);
        proof {
            if let Some(v) = lookup(head.3, super::headers::content_length_name()) {
                lemma_parse_unsigned_bounds(v, usize::MAX as int);
            }
            if let Some(n) = content_length_of(head.3) {
                assert(0 <= n <= usize::MAX);
            }
        }
        let body_len = match cl {
            Some(n) => n,
            None => avail,
        };
        let take = if body_len < avail {
            body_len
        } else {
            avail
        };
        let body_end = body_start + take;
        let mut body: Vec<u8> = Vec::new();
        let mut i = body_start;
        while i < body_end
            invariant
                body_start <= i <= body_end <= data.len(),
                body@ == data@.subrange(body_start as int, i as int),
            decreases body_end - i,
        {
            body.push(data[i]);
            assert(data@.subrange(body_start as int, i + 1) =~= data@.subrange(
                body_start as int,
                i as int,
            ).push(data@[i as int]));
            i += 1;
        }
        let response = Response { version, status_code, reason, headers, body };
        proof {
            let (v, n) = parse_response(data@)->Some_0;
            assert(avail == data@.len() - body_offset(text_v, head.4));
            assert(body_end == n);
            assert(response@ == v);
        }
        Ok((response, body_end))
    }

    /// Parse headers only, without body.
    ///
    /// Useful for HEAD responses or when body will be streamed separately.
    pub fn parse_headers_only(data: &[u8]) -> (r: Result<(Self, usize)>)
        ensures
            match parse_response_head(data@) {
                Some((v, n)) => r matches Ok((resp, m)) && resp@ == v && m == n,
                None => r == Err::<(Self, usize), NetworkError>(NetworkError::InvalidResponse),
            },
    {
        let text = match utf8_text(data) {
            Some(t) => t,
            None => {
                return Err(NetworkError::InvalidResponse);
            },
        };
        proof {
            encode_utf8_decode_utf8(text@);
            assert(decode_utf8(data@) == text@);
        }
        let (version, status_code, reason, headers, _he, body_start) = match head_of(text) {
            Some(h) => h,
            None => {
                return Err(NetworkError::InvalidResponse);
            },
        };
        let response = Response { version, status_code, reason, headers, body: Vec::new() };
        assert(response.body@ =~= Seq::<u8>::empty());
        Ok((response, body_start))
    }
}

/// The body starts right after the head's blank line (its first
/// `\r\n\r\n`) and runs to the consumed offset. With `Content-Length: n`
/// and at least `n` bytes after the head, the body is exactly those `n`
/// bytes and parsing stops at their end, leaving what follows; with fewer
/// bytes, or without a length, it takes everything that follows.
pub proof fn lemma_body_framed_by_length(data: Seq<u8>)
    ensures
        parse_response(data) matches Some((resp, consumed)) ==> {
            let text = decode_utf8(data);
            &&& find(text, crlf2()) is Some
            &&& {
                let start: int = utf8_len(text.take(find(text, crlf2())->0)) + 4int;
                &&& start <= consumed <= data.len()
                &&& resp.4 == data.subrange(start, consumed)
                &&& match content_length_of(resp.3) {
                    Some(n) => if n <= data.len() - start {
                        consumed == start + n
                    } else {
                        consumed == data.len()
                    },
                    None => consumed == data.len(),
                }
            }
        },
{
    if let Some((resp, consumed)) = parse_response(data) {
        let text = decode_utf8(data);
        decode_utf8_encode_utf8(data);
        assert(utf8_len(text) == data.len());
        lemma_find_from_range(text, crlf2(), 0);
        let he = find(text, crlf2())->0;
        assert(text.subrange(he, he + 4) == crlf2());
        assert(text.take(he + 4) =~= text.take(he) + crlf2());
        lemma_utf8_len_concat(text.take(he), crlf2());
        lemma_utf8_len_crlf2();
        lemma_utf8_len_prefix(text, he + 4);
        let hs = parse_head(text)->Some_0.3;
        if let Some(v) = lookup(hs, super::headers::content_length_name()) {
            lemma_parse_unsigned_bounds(v, usize::MAX as int);
        }
    }
}

} // verus!
