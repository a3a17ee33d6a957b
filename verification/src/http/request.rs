//! HTTP request building and serialization.
//!
//! Build HTTP/1.1 requests and serialize them to wire format.

use super::headers::{
    connection_name, content_length_name, content_type_name, host_name, set_header, headers_text,
    HeaderView, Headers,
};
use crate::text::{crlf, decimal, utf8_len};
use crate::types::HttpMethod;
use crate::url::{host_header_of, request_uri_of, Url, UrlView};
use vstd::prelude::*;
use vstd::utf8::encode_utf8;

verus! {

/// The method token of the request line.
pub open spec fn method_name(m: HttpMethod) -> Seq<char> {
    match m {
        HttpMethod::Get => "GET"@,
        HttpMethod::Head => "HEAD"@,
        HttpMethod::Post => "POST"@,
        HttpMethod::Put => "PUT"@,
        HttpMethod::Delete => "DELETE"@,
    }
}

pub open spec fn user_agent_name() -> Seq<char> {
    "User-Agent"@
}

pub open spec fn user_agent_value() -> Seq<char> {
    "MorpheusX/1.0"@
}

pub open spec fn accept_name() -> Seq<char> {
    "Accept"@
}

pub open spec fn accept_value() -> Seq<char> {
    "*/*"@
}

pub open spec fn close_value() -> Seq<char> {
    "close"@
}

/// The headers every new request carries: Host, User-Agent, Accept and
/// Connection, each set in that order.
pub open spec fn default_headers(u: UrlView) -> Seq<HeaderView> {
    set_header(
        set_header(
            set_header(
                set_header(Seq::empty(), host_name(), host_header_of(u)),
                user_agent_name(),
                user_agent_value(),
            ),
            accept_name(),
            accept_value(),
        ),
        connection_name(),
        close_value(),
    )
}

/// Request line, headers and blank line: `METHOD uri HTTP/1.1\r\n...\r\n`.
pub open spec fn request_head(m: HttpMethod, u: UrlView, hs: Seq<HeaderView>) -> Seq<char> {
    method_name(m) + seq![' '] + request_uri_of(u) + " HTTP/1.1\r\n"@ + headers_text(hs) + crlf()
}

/// The bytes of a request on the wire: its head in UTF-8, then the body.
pub open spec fn request_bytes(
    m: HttpMethod,
    u: UrlView,
    hs: Seq<HeaderView>,
    body: Option<Seq<u8>>,
) -> Seq<u8> {
    encode_utf8(request_head(m, u, hs)) + match body {
        Some(b) => b,
        None => Seq::empty(),
    }
}

/// HTTP request.
#[derive(Debug)]
pub struct Request {
    /// HTTP method (GET, POST, etc.).
    pub method: HttpMethod,
    /// Target URL.
    pub url: Url,
    /// Request headers.
    pub headers: Headers,
    /// Optional request body.
    pub body: Option<Vec<u8>>,
}

impl Request {
    pub open spec fn body_view(&self) -> Option<Seq<u8>> {
        match self.body {
            Some(b) => Some(b@),
            None => None,
        }
    }

    /// Create a new request with the given method and URL.
    pub fn new(method: HttpMethod, url: Url) -> (r: Self)
        ensures
            r.method == method,
            r.url@ == url@,
            r.headers@ == default_headers(url@),
            r.body is None,
    {
        let mut headers = Headers::new();
        let hh = url.host_header();
        headers.set_host(hh.as_str());
        headers.set("User-Agent", "MorpheusX/1.0");
        headers.set("Accept", "*/*");
        headers.set("Connection", "close");
        proof {
            reveal_strlit("Connection");
            assert("Connection"@ =~= connection_name());
        }
        Request { method, url, headers, body: None }
    }

    /// Create a GET request.
    pub fn get(url: Url) -> (r: Self)
        ensures
            r.method == HttpMethod::Get,
            r.url@ == url@,
            r.headers@ == default_headers(url@),
            r.body is None,
    {
        Self::new(HttpMethod::Get, url)
    }

    /// Create a HEAD request (for checking file size, etc.).
    pub fn head(url: Url) -> (r: Self)
        ensures
            r.method == HttpMethod::Head,
            r.url@ == url@,
            r.headers@ == default_headers(url@),
            r.body is None,
    {
        Self::new(HttpMethod::Head, url)
    }

    /// Create a POST request.
    pub fn post(url: Url) -> (r: Self)
        ensures
            r.method == HttpMethod::Post,
            r.url@ == url@,
            r.headers@ == default_headers(url@),
            r.body is None,
    {
        Self::new(HttpMethod::Post, url)
    }

    /// Create a PUT request.
    pub fn put(url: Url) -> (r: Self)
        ensures
            r.method == HttpMethod::Put,
            r.url@ == url@,
            r.headers@ == default_headers(url@),
            r.body is None,
    {
        Self::new(HttpMethod::Put, url)
    }

    /// Create a DELETE request.
    pub fn delete(url: Url) -> (r: Self)
        ensures
            r.method == HttpMethod::Delete,
            r.url@ == url@,
            r.headers@ == default_headers(url@),
            r.body is None,
    {
        Self::new(HttpMethod::Delete, url)
    }

    /// Set the request body (and its Content-Length).
    pub fn with_body(self, body: Vec<u8>) -> (r: Self)
        ensures
            r.method == self.method,
            r.url@ == self.url@,
            r.headers@ == set_header(self.headers@, content_length_name(), decimal(body@.len())),
            r.body_view() == Some(body@),
    {
        let mut s = self;
        s.headers.set_content_length(body.len());
        s.body = Some(body);
        s
    }

    /// Set a header.
    pub fn with_header(self, name: &str, value: &str) -> (r: Self)
        ensures
            r.method == self.method,
            r.url@ == self.url@,
            r.headers@ == set_header(self.headers@, name@, value@),
            r.body_view() == self.body_view(),
    {
        let mut s = self;
        s.headers.set(name, value);
        s
    }

    /// Set Content-Type header.
    pub fn with_content_type(self, content_type: &str) -> (r: Self)
        ensures
            r.method == self.method,
            r.url@ == self.url@,
            r.headers@ == set_header(self.headers@, content_type_name(), content_type@),
            r.body_view() == self.body_view(),
    {
        let mut s = self;
        s.headers.set_content_type(content_type);
        s
    }

    /// Get the request method as string.
    pub fn method_str(&self) -> (r: &'static str)
        ensures
            r@ == method_name(self.method),
    {
        match self.method {
            HttpMethod::Get => "GET",
            HttpMethod::Head => "HEAD",
            HttpMethod::Post => "POST",
            HttpMethod::Put => "PUT",
            HttpMethod::Delete => "DELETE",
        }
    }

    /// Serialize the request to HTTP/1.1 wire format.
    ///
    /// Format:
    /// ```text
    /// METHOD /path HTTP/1.1\r\n
    /// Header: Value\r\n
    /// ...
    /// \r\n
    /// [body]
    /// ```
    pub fn to_wire_format(&self) -> (r: Vec<u8>)
        ensures
            r@ == request_bytes(self.method, self.url@, self.headers@, self.body_view()),
    {
        let mut result = String::new();
        result.append(self.method_str());
        result.append(" ");
        let uri = self.url.request_uri();
        result.append(uri.as_str());
        result.append(" HTTP/1.1\r\n");
        let hw = self.headers.to_wire_format();
        result.append(hw.as_str());
        result.append("\r\n");
        proof {
            reveal_strlit(" ");
            reveal_strlit("\r\n");
            assert(" "@ =~= seq![' ']);
            assert("\r\n"@ =~= crlf());
            assert(result@ =~= request_head(self.method, self.url@, self.headers@));
        }
        let bytes = result.as_str().as_bytes();
        let mut out = vstd::slice::slice_to_vec(bytes);
        match &self.body {
            Some(b) => {
                let mut i: usize = 0;
                let ghost head = out@;
                while i < b.len()
                    invariant
                        i <= b.len(),
                        out@ == head + b@.take(i as int),
                    decreases b.len() - i,
                {
                    out.push(b[i]);
                    assert(b@.take(i + 1) =~= b@.take(i as int).push(b@[i as int]));
                    i += 1;
                }
                assert(b@.take(i as int) =~= b@);
            },
            None => {
                assert(out@ =~= out@ + Seq::<u8>::empty());
            },
        }
        out
    }

    /// Get the total size of the serialized request.
    pub fn wire_size(&self) -> (r: usize)
        ensures
            r == request_bytes(self.method, self.url@, self.headers@, self.body_view()).len(),
    {
        let body_len = match &self.body {
            Some(b) => b.len(),
            None => 0,
        };
        let w = self.to_wire_format();
        w.len() - body_len + body_len
    }
}

} // verus!
