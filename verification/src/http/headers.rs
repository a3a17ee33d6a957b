//! HTTP header management.
//!
//! Case-insensitive header storage and retrieval for HTTP requests and
//! responses. Headers keep their insertion order; several headers may share a
//! name (e.g. Set-Cookie).

use crate::text::{
    chars_of, crlf, decimal, decimal_string, eq_ignore_case, find, fold_code, lemma_parse_decimal, find_exec, find_from, lemma_find_bounded, lemma_find_from_range, lemma_find_shift, lemma_utf8_len_concat,
    lemma_utf8_len_crlf, lemma_utf8_len_prefix, occurs_at, parse_unsigned, parse_unsigned_exec,
    str_eq_ignore_case, substring, trim, trim_bounds, trim_end, trim_start, utf8_len, utf8_len_of, is_ws,
};
use vstd::prelude::*;
use vstd::std_specs::iter::IteratorSpec;

verus! {

/// A header as the contracts see it: its name and its value.
pub type HeaderView = (Seq<char>, Seq<char>);

/// Value of the first header named `name` (case-insensitively).
pub open spec fn lookup(hs: Seq<HeaderView>, name: Seq<char>) -> Option<Seq<char>>
    decreases hs.len(),
{
    if hs.len() == 0 {
        None
    } else if eq_ignore_case(hs[0].0, name) {
        Some(hs[0].1)
    } else {
        lookup(hs.drop_first(), name)
    }
}

/// The headers not named `name`, in order.
pub open spec fn without(hs: Seq<HeaderView>, name: Seq<char>) -> Seq<HeaderView>
    decreases hs.len(),
{
    if hs.len() == 0 {
        hs
    } else if eq_ignore_case(hs.last().0, name) {
        without(hs.drop_last(), name)
    } else {
        without(hs.drop_last(), name).push(hs.last())
    }
}

/// The values of the headers named `name`, in order.
pub open spec fn values_named(hs: Seq<HeaderView>, name: Seq<char>) -> Seq<Seq<char>>
    decreases hs.len(),
{
    if hs.len() == 0 {
        Seq::empty()
    } else if eq_ignore_case(hs.last().0, name) {
        values_named(hs.drop_last(), name).push(hs.last().1)
    } else {
        values_named(hs.drop_last(), name)
    }
}

/// Result of `set`: every header with that name replaced by one at the end.
pub open spec fn set_header(hs: Seq<HeaderView>, name: Seq<char>, value: Seq<char>) -> Seq<
    HeaderView,
> {
    without(hs, name).push((name, value))
}

/// One header on the wire: `Name: Value\r\n`.
pub open spec fn header_line(h: HeaderView) -> Seq<char> {
    h.0 + seq![':', ' '] + h.1 + crlf()
}

/// All headers on the wire, in order.
pub open spec fn headers_text(hs: Seq<HeaderView>) -> Seq<char>
    decreases hs.len(),
{
    if hs.len() == 0 {
        Seq::empty()
    } else {
        headers_text(hs.drop_last()) + header_line(hs.last())
    }
}

/// `Name: Value` parsed from one line: the text before the first colon and the
/// text after it, both trimmed; nothing when there is no colon or the name is
/// empty.
pub open spec fn header_of_line(line: Seq<char>) -> Seq<HeaderView> {
    match find(line, seq![':']) {
        Some(p) => {
            let name = trim(line.take(p));
            if name.len() > 0 {
                seq![(name, trim(line.skip(p + 1)))]
            } else {
                Seq::empty()
            }
        },
        None => Seq::empty(),
    }
}

/// Headers and consumed byte count of `Headers::from_wire_format` on `s`:
/// lines separated by CRLF, each counted with two bytes for its terminator,
/// stopping after the first empty line.
pub open spec fn parse_wire(s: Seq<char>) -> (Seq<HeaderView>, int)
    decreases s.len(),
{
    match find(s, crlf()) {
        Some(k) => {
            proof {
                lemma_find_from_range(s, crlf(), 0);
            }
            let line = s.take(k);
            if line.len() == 0 {
                (Seq::empty(), 2)
            } else {
                let rest = parse_wire(s.skip(k + 2));
                (header_of_line(line) + rest.0, utf8_len(line) + 2int + rest.1)
            }
        },
        None => {
            if s.len() == 0 {
                (Seq::empty(), 2)
            } else {
                (header_of_line(s), utf8_len(s) + 2int)
            }
        },
    }
}

pub open spec fn content_length_name() -> Seq<char> {
    seq!['C', 'o', 'n', 't', 'e', 'n', 't', '-', 'L', 'e', 'n', 'g', 't', 'h']
}

pub open spec fn content_type_name() -> Seq<char> {
    seq!['C', 'o', 'n', 't', 'e', 'n', 't', '-', 'T', 'y', 'p', 'e']
}

pub open spec fn transfer_encoding_name() -> Seq<char> {
    seq!['T', 'r', 'a', 'n', 's', 'f', 'e', 'r', '-', 'E', 'n', 'c', 'o', 'd', 'i', 'n', 'g']
}

pub open spec fn host_name() -> Seq<char> {
    seq!['H', 'o', 's', 't']
}

pub open spec fn connection_name() -> Seq<char> {
    seq!['C', 'o', 'n', 'n', 'e', 'c', 't', 'i', 'o', 'n']
}

pub open spec fn chunked_word() -> Seq<char> {
    seq!['c', 'h', 'u', 'n', 'k', 'e', 'd']
}

pub open spec fn keep_alive_word() -> Seq<char> {
    seq!['k', 'e', 'e', 'p', '-', 'a', 'l', 'i', 'v', 'e']
}

/// The Content-Length of a header list: its first Content-Length header read
/// as an unsigned decimal that fits a `usize`.
pub open spec fn content_length_of(hs: Seq<HeaderView>) -> Option<int> {
    match lookup(hs, content_length_name()) {
        Some(v) => parse_unsigned(v, usize::MAX as int),
        None => None,
    }
}

/// The first header named `name` has a value equal to `word` ignoring case.
pub open spec fn value_is(hs: Seq<HeaderView>, name: Seq<char>, word: Seq<char>) -> bool {
    match lookup(hs, name) {
        Some(v) => eq_ignore_case(v, word),
        None => false,
    }
}

/// A single HTTP header (name-value pair).
#[derive(Debug)]
pub struct Header {
    /// Header name (stored in original case).
    pub name: String,
    /// Header value.
    pub value: String,
}

impl View for Header {
    type V = HeaderView;

    open spec fn view(&self) -> HeaderView {
        (self.name@, self.value@)
    }
}

impl Clone for Header {
    fn clone(&self) -> (r: Self)
        ensures
            r@ == self@,
    {
        Header { name: self.name.clone(), value: self.value.clone() }
    }
}

impl Header {
    /// Create a new header.
    pub fn new(name: &str, value: &str) -> (r: Self)
        ensures
            r@ == (name@, value@),
    {
        Header { name: name.to_owned(), value: value.to_owned() }
    }

    /// Check if this header matches the given name (case-insensitive).
    pub fn name_matches(&self, name: &str) -> (r: bool)
        ensures
            r == eq_ignore_case(self.name@, name@),
    {
        str_eq_ignore_case(self.name.as_str(), name)
    }
}

/// Collection of HTTP headers.
///
/// Headers are stored in insertion order and support case-insensitive lookup.
/// Multiple headers with the same name are allowed (e.g., Set-Cookie).
#[derive(Debug)]
pub struct Headers {
    headers: Vec<Header>,
}

impl View for Headers {
    type V = Seq<HeaderView>;

    closed spec fn view(&self) -> Seq<HeaderView> {
        self.headers@.map_values(|h: Header| h@)
    }
}

impl Clone for Headers {
    fn clone(&self) -> (r: Self)
        ensures
            r@ == self@,
    {
        let mut v: Vec<Header> = Vec::new();
        let mut i: usize = 0;
        while i < self.headers.len()
            invariant
                i <= self.headers.len(),
                v@.map_values(|h: Header| h@) == self@.take(i as int),
            decreases self.headers.len() - i,
        {
            let h = self.headers[i].clone();
            let ghost before = v@;
            v.push(h);
            proof {
                assert(v@.map_values(|h: Header| h@) =~= before.map_values(|h: Header| h@).push(
                    h@,
                ));
                assert(self@.take(i + 1) =~= self@.take(i as int).push(self@[i as int]));
            }
            i += 1;
        }
        proof {
            assert(self@.take(i as int) =~= self@);
        }
        Headers { headers: v }
    }
}

impl Headers {
    /// Create an empty header collection.
    pub fn new() -> (r: Self)
        ensures
            r@ == Seq::<HeaderView>::empty(),
    {
        let r = Headers { headers: Vec::new() };
        assert(r@ =~= Seq::<HeaderView>::empty());
        r
    }

    /// Number of headers.
    pub fn len(&self) -> (r: usize)
        ensures
            r == self@.len(),
    {
        self.headers.len()
    }

    /// Check if empty.
    pub fn is_empty(&self) -> (r: bool)
        ensures
            r == (self@.len() == 0),
    {
        self.headers.len() == 0
    }

    /// Add a header (allows duplicates).
    ///
    /// Use this when multiple values for the same header are valid
    /// (e.g., Set-Cookie).
    pub fn add(&mut self, name: &str, value: &str)
        ensures
            final(self)@ == old(self)@.push((name@, value@)),
    {
        let h = Header::new(name, value);
        self.headers.push(h);
        assert(self@ =~= old(self)@.push((name@, value@)));
    }

    /// Headers not named `name`, in order.
    fn kept(&self, name: &str) -> (r: Vec<Header>)
        ensures
            r@.map_values(|h: Header| h@) == without(self@, name@),
    {
        let mut v: Vec<Header> = Vec::new();
        let mut i: usize = 0;
        while i < self.headers.len()
            invariant
                i <= self.headers.len(),
                v@.map_values(|h: Header| h@) == without(self@.take(i as int), name@),
            decreases self.headers.len() - i,
        {
            let ghost before = v@;
            let matches = self.headers[i].name_matches(name);
            proof {
                assert(self@.take(i + 1).drop_last() =~= self@.take(i as int));
                assert(self@.take(i + 1).last() == self@[i as int]);
                assert(self@[i as int] == self.headers@[i as int]@);
            }
            if !matches {
                let h = self.headers[i].clone();
                v.push(h);
                assert(v@.map_values(|h: Header| h@) =~= before.map_values(|h: Header| h@).push(
                    h@,
                ));
            }
            i += 1;
        }
        proof {
            assert(self@.take(i as int) =~= self@);
        }
        v
    }

    /// Set a header (replaces existing with same name).
    ///
    /// Use this for headers that should have only one value
    /// (e.g., Content-Type, Host).
    pub fn set(&mut self, name: &str, value: &str)
        ensures
            final(self)@ == set_header(old(self)@, name@, value@),
    {
        let mut v = self.kept(name);
        let ghost before = v@;
        let h = Header::new(name, value);
        v.push(h);
        self.headers = v;
        assert(self@ =~= before.map_values(|h: Header| h@).push((name@, value@)));
    }

    /// Index of the first header named `name`.
    fn position(&self, name: &str) -> (r: Option<usize>)
        ensures
            match r {
                Some(i) => i < self@.len() && lookup(self@, name@) == Some(self@[i as int].1),
                None => lookup(self@, name@) is None,
            },
    {
        let mut i: usize = 0;
        assert(self@.skip(0) =~= self@);
        while i < self.headers.len()
            invariant
                i <= self.headers.len(),
                lookup(self@, name@) == lookup(self@.skip(i as int), name@),
            decreases self.headers.len() - i,
        {
            proof {
                assert(self@.skip(i as int)[0] == self@[i as int]);
                assert(self@.skip(i as int).drop_first() =~= self@.skip(i + 1));
                assert(self@[i as int] == self.headers@[i as int]@);
            }
            if self.headers[i].name_matches(name) {
                return Some(i);
            }
            i += 1;
        }
        None
    }

    /// Get the first header value by name (case-insensitive).
    pub fn get(&self, name: &str) -> (r: Option<&str>)
        ensures
            match lookup(self@, name@) {
                Some(v) => r is Some && r->0@ == v,
                None => r is None,
            },
    {
        match self.position(name) {
            Some(i) => {
                assert(self@[i as int] == self.headers@[i as int]@);
                Some(self.headers[i].value.as_str())
            },
            None => None,
        }
    }

    /// Get all header values by name (case-insensitive).
    pub fn get_all(&self, name: &str) -> (r: Vec<&str>)
        ensures
            r@.map_values(|s: &str| s@) == values_named(self@, name@),
    {
        let mut v: Vec<&str> = Vec::new();
        let mut i: usize = 0;
        while i < self.headers.len()
            invariant
                i <= self.headers.len(),
                v@.map_values(|s: &str| s@) == values_named(self@.take(i as int), name@),
            decreases self.headers.len() - i,
        {
            let ghost before = v@;
            proof {
                assert(self@.take(i + 1).drop_last() =~= self@.take(i as int));
                assert(self@.take(i + 1).last() == self@[i as int]);
                assert(self@[i as int] == self.headers@[i as int]@);
            }
            if self.headers[i].name_matches(name) {
                let s = self.headers[i].value.as_str();
                v.push(s);
                assert(v@.map_values(|s: &str| s@) =~= before.map_values(|s: &str| s@).push(
                    s@,
                ));
            }
            i += 1;
        }
        proof {
            assert(self@.take(i as int) =~= self@);
        }
        v
    }

    /// Check if a header exists (case-insensitive).
    pub fn contains(&self, name: &str) -> (r: bool)
        ensures
            r == lookup(self@, name@) is Some,
    {
        self.position(name).is_some()
    }

    /// Remove all headers with the given name (case-insensitive).
    ///
    /// Returns the number of headers removed.
    pub fn remove(&mut self, name: &str) -> (r: usize)
        ensures
            final(self)@ == without(old(self)@, name@),
            r == old(self)@.len() - without(old(self)@, name@).len(),
    {
        let before = self.headers.len();
        let v = self.kept(name);
        proof {
            lemma_without_len(self@, name@);
        }
        self.headers = v;
        before - self.headers.len()
    }

    /// Iterate over all headers.
    pub fn iter(&self) -> (r: std::slice::Iter<'_, Header>)
        ensures
            IteratorSpec::remaining(&r).map_values(|h: &Header| h@) == self@,
    {
        broadcast use vstd::std_specs::slice::group_slice_axioms;

        let it = self.headers.as_slice().iter();
        assert(IteratorSpec::remaining(&it).map_values(|h: &Header| h@) =~= self@);
        it
    }

    /// Clear all headers.
    pub fn clear(&mut self)
        ensures
            final(self)@ == Seq::<HeaderView>::empty(),
    {
        self.headers.clear();
        assert(self@ =~= Seq::<HeaderView>::empty());
    }

    // ==================== Common Header Helpers ====================
    /// Get Content-Length header as usize.
    pub fn content_length(&self) -> (r: Option<usize>)
        ensures
            match content_length_of(self@) {
                Some(n) => r == Some(n as usize),
                None => r is None,
            },
    {
        let lit = "Content-Length";
        proof {
            reveal_strlit("Content-Length");
            assert(lit@ =~= content_length_name());
        }
        match self.get(lit) {
            Some(v) => {
                let cs = chars_of(v);
                assert(cs@.subrange(0, cs@.len() as int) =~= cs@);
                let max = usize::MAX as u64;
                assert(max as int == usize::MAX as int);
                match parse_unsigned_exec(&cs, 0, cs.len(), max) {
                    Some(n) => {
                        assert(n <= usize::MAX);
                        assert(lookup(self@, content_length_name()) == Some(v@));
                        assert(parse_unsigned(v@, usize::MAX as int) == Some(n as int));
                        Some(n as usize)
                    },
                    None => None,
                }
            },
            None => None,
        }
    }

    /// Set Content-Length header.
    pub fn set_content_length(&mut self, length: usize)
        ensures
            final(self)@ == set_header(old(self)@, content_length_name(), decimal(length as nat)),
    {
        let lit = "Content-Length";
        proof {
            reveal_strlit("Content-Length");
            assert(lit@ =~= content_length_name());
        }
        let v = decimal_string(length as u64);
        self.set(lit, v.as_str());
    }

    /// Get Content-Type header.
    pub fn content_type(&self) -> (r: Option<&str>)
        ensures
            match lookup(self@, content_type_name()) {
                Some(v) => r is Some && r->0@ == v,
                None => r is None,
            },
    {
        let lit = "Content-Type";
        proof {
            reveal_strlit("Content-Type");
            assert(lit@ =~= content_type_name());
        }
        self.get(lit)
    }

    /// Set Content-Type header.
    pub fn set_content_type(&mut self, content_type: &str)
        ensures
            final(self)@ == set_header(old(self)@, content_type_name(), content_type@),
    {
        let lit = "Content-Type";
        proof {
            reveal_strlit("Content-Type");
            assert(lit@ =~= content_type_name());
        }
        self.set(lit, content_type)
    }

    /// Check if Transfer-Encoding is chunked.
    pub fn is_chunked(&self) -> (r: bool)
        ensures
            r == value_is(self@, transfer_encoding_name(), chunked_word()),
    {
        let lit = "Transfer-Encoding";
        let word = "chunked";
        proof {
            reveal_strlit("Transfer-Encoding");
            reveal_strlit("chunked");
            assert(lit@ =~= transfer_encoding_name());
            assert(word@ =~= chunked_word());
        }
        match self.get(lit) {
            Some(v) => str_eq_ignore_case(v, word),
            None => false,
        }
    }

    /// Get Host header.
    pub fn host(&self) -> (r: Option<&str>)
        ensures
            match lookup(self@, host_name()) {
                Some(v) => r is Some && r->0@ == v,
                None => r is None,
            },
    {
        let lit = "Host";
        proof {
            reveal_strlit("Host");
            assert(lit@ =~= host_name());
        }
        self.get(lit)
    }

    /// Set Host header.
    pub fn set_host(&mut self, host: &str)
        ensures
            final(self)@ == set_header(old(self)@, host_name(), host@),
    {
        let lit = "Host";
        proof {
            reveal_strlit("Host");
            assert(lit@ =~= host_name());
        }
        self.set(lit, host)
    }

    /// Get Connection header.
    pub fn connection(&self) -> (r: Option<&str>)
        ensures
            match lookup(self@, connection_name()) {
                Some(v) => r is Some && r->0@ == v,
                None => r is None,
            },
    {
        let lit = "Connection";
        proof {
            reveal_strlit("Connection");
            assert(lit@ =~= connection_name());
        }
        self.get(lit)
    }

    /// Check if connection should be kept alive.
    pub fn keep_alive(&self) -> (r: bool)
        ensures
            r == value_is(self@, connection_name(), keep_alive_word()),
    {
        let lit = "Connection";
        let word = "keep-alive";
        proof {
            reveal_strlit("Connection");
            reveal_strlit("keep-alive");
            assert(lit@ =~= connection_name());
            assert(word@ =~= keep_alive_word());
        }
        match self.get(lit) {
            Some(v) => str_eq_ignore_case(v, word),
            None => false,
        }
    }

    // ==================== Serialization ====================
    /// Serialize headers to wire format (for HTTP requests).
    ///
    /// Each header is formatted as: `Name: Value\r\n`
    pub fn to_wire_format(&self) -> (r: String)
        ensures
            r@ == headers_text(self@),
    {
        let sep = ": ";
        let end = "\r\n";
        proof {
            reveal_strlit(": ");
            reveal_strlit("\r\n");
            assert(sep@ =~= seq![':', ' ']);
            assert(end@ =~= crlf());
        }
        let mut result = String::new();
        let mut i: usize = 0;
        while i < self.headers.len()
            invariant
                i <= self.headers.len(),
                sep@ == seq![':', ' '],
                end@ == crlf(),
                result@ == headers_text(self@.take(i as int)),
            decreases self.headers.len() - i,
        {
            let h = &self.headers[i];
            result.append(h.name.as_str());
            result.append(sep);
            result.append(h.value.as_str());
            result.append(end);
            proof {
                assert(self@.take(i + 1).drop_last() =~= self@.take(i as int));
                assert(self@.take(i + 1).last() == self@[i as int]);
                assert(self@[i as int] == self.headers@[i as int]@);
                assert(result@ =~= headers_text(self@.take(i + 1)));
            }
            i += 1;
        }
        proof {
            assert(self@.take(i as int) =~= self@);
        }
        result
    }

    /// Parse headers from wire format.
    ///
    /// Expects format: `Name: Value\r\n` for each header.
    /// Stops at empty line (double CRLF). Lines without a colon, or with an
    /// empty name, are ignored.
    pub fn from_wire_format(data: &str) -> (r: (Self, usize))
        requires
            utf8_len(data@) + 2 <= usize::MAX,
        ensures
            r.0@ == parse_wire(data@).0,
            r.1 == parse_wire(data@).1,
    {
        let cs = chars_of(data);
        let crlf_s = "\r\n";
        proof {
            reveal_strlit("\r\n");
            assert(crlf_s@ =~= crlf());
        }
        let pat = chars_of(crlf_s);
        let colon_s = ":";
        proof {
            reveal_strlit(":");
            assert(colon_s@ =~= seq![':']);
        }
        let colon = chars_of(colon_s);
        let mut headers = Headers::new();
        let mut consumed: usize = 0;
        let mut start: usize = 0;
        proof {
            assert(cs@.skip(0) =~= cs@);
            lemma_utf8_len_prefix(cs@, 0);
            assert(cs@.take(0) =~= Seq::<char>::empty());
        }
        loop
            invariant
                start <= cs.len(),
                cs@ == data@,
                pat@ == crlf(),
                colon@ == seq![':'],
                utf8_len(data@) + 2 <= usize::MAX,
                consumed == utf8_len(cs@.take(start as int)),
                headers@ + parse_wire(cs@.skip(start as int)).0 == parse_wire(cs@).0,
                consumed + parse_wire(cs@.skip(start as int)).1 == parse_wire(cs@).1,
            decreases cs.len() - start,
        {
            let ghost rest = cs@.skip(start as int);
            let found = find_exec(&cs, &pat, start);
            let line_end = match found {
                Some(k) => k,
                None => cs.len(),
            };
            proof {
                lemma_find_from_range(cs@, crlf(), start as int);
                lemma_find_shift(cs@, crlf(), start as int);
                lemma_utf8_len_prefix(cs@, start as int);
                lemma_utf8_len_crlf();
            }
            let ghost line = cs@.subrange(start as int, line_end as int);
            assert(line =~= (match find(rest, crlf()) {
                Some(k) => rest.take(k),
                None => rest,
            }));
            let line_bytes = utf8_len_of(data, start, line_end);
            proof {
                assert(cs@.take(line_end as int) =~= cs@.take(start as int) + line);
                lemma_utf8_len_concat(cs@.take(start as int), line);
                lemma_utf8_len_prefix(cs@, line_end as int);
            }
            if line_end == start {
                // Empty line marks end of headers.
                assert(consumed + 2 <= usize::MAX);
                proof {
                    assert(headers@ + Seq::<HeaderView>::empty() =~= headers@);
                }
                return (headers, consumed + 2);
            }
            let h = line_header(data, &cs, &colon, start, line_end);
            let ghost before = headers@;
            if let Some((n, v)) = h {
                headers.add(n.as_str(), v.as_str());
            }
            proof {
                assert(headers@ =~= before + header_of_line(line));
            }
            match found {
                Some(k) => {
                    proof {
                        assert(cs@.take(k + 2) =~= cs@.take(k as int) + crlf());
                        lemma_utf8_len_concat(cs@.take(k as int), crlf());
                        assert(rest.skip((k - start) + 2) =~= cs@.skip(k + 2));
                        lemma_utf8_len_prefix(cs@, k + 2);
                        assert(before + header_of_line(line) + parse_wire(cs@.skip(k + 2)).0
                            =~= before + (header_of_line(line) + parse_wire(cs@.skip(k + 2)).0));
                    }
                    consumed = consumed + line_bytes + 2;
                    start = k + 2;
                },
                None => {
                    proof {
                        assert(rest.len() > 0);
                        assert(headers@ + Seq::<HeaderView>::empty() =~= headers@);
                    }
                    return (headers, consumed + line_bytes + 2);
                },
            }
        }
    }
}

/// Name and value of the header on `data[lo..hi]`, when it has a colon and a
/// non-empty trimmed name.
fn line_header(data: &str, cs: &Vec<char>, colon: &Vec<char>, lo: usize, hi: usize) -> (r: Option<
    (String, String),
>)
    requires
        cs@ == data@,
        colon@ == seq![':'],
        lo <= hi <= cs.len(),
    ensures
        match r {
            Some((n, v)) => header_of_line(cs@.subrange(lo as int, hi as int)) == seq![(n@, v@)],
            None => header_of_line(cs@.subrange(lo as int, hi as int)) == Seq::<HeaderView>::empty(),
        },
{
    let ghost line = cs@.subrange(lo as int, hi as int);
    let found = find_exec(cs, colon, lo);
    proof {
        lemma_find_from_range(cs@, seq![':'], lo as int);
        lemma_find_shift(cs@, seq![':'], lo as int);
        lemma_find_bounded(cs@, seq![':'], lo as int, hi as int);
    }
    match found {
        Some(p) if p < hi => {
            let (a, b) = trim_bounds(cs, lo, p);
            let (c, d) = trim_bounds(cs, p + 1, hi);
            proof {
                assert(line.take(p - lo) =~= cs@.subrange(lo as int, p as int));
                assert(line.skip(p - lo + 1) =~= cs@.subrange(p + 1, hi as int));
            }
            if a == b {
                None
            } else {
                Some((substring(data, a, b), substring(data, c, d)))
            }
        },
        _ => None,
    }
}

proof fn lemma_without_len(hs: Seq<HeaderView>, name: Seq<char>)
    ensures
        without(hs, name).len() <= hs.len(),
    decreases hs.len(),
{
    if hs.len() > 0 {
        lemma_without_len(hs.drop_last(), name);
    }
}

proof fn lemma_eq_ignore_case_trans(a: Seq<char>, b: Seq<char>, c: Seq<char>)
    requires
        eq_ignore_case(a, b),
        eq_ignore_case(b, c),
    ensures
        eq_ignore_case(a, c),
        eq_ignore_case(c, a),
{
    assert forall|i: int| 0 <= i < a.len() implies #[trigger] fold_code(a[i]) == fold_code(c[i]) by {
        assert(fold_code(a[i]) == fold_code(b[i]));
        assert(fold_code(b[i]) == fold_code(c[i]));
    }
    assert forall|i: int| 0 <= i < c.len() implies #[trigger] fold_code(c[i]) == fold_code(a[i]) by {
        assert(fold_code(a[i]) == fold_code(b[i]));
        assert(fold_code(b[i]) == fold_code(c[i]));
    }
}

proof fn lemma_eq_ignore_case_sym(a: Seq<char>, b: Seq<char>)
    requires
        eq_ignore_case(a, b),
    ensures
        eq_ignore_case(b, a),
{
    assert forall|i: int| 0 <= i < b.len() implies #[trigger] fold_code(b[i]) == fold_code(a[i]) by {
        assert(fold_code(a[i]) == fold_code(b[i]));
    }
}

proof fn lemma_lookup_push(hs: Seq<HeaderView>, h: HeaderView, n: Seq<char>)
    ensures
        lookup(hs.push(h), n) == match lookup(hs, n) {
            Some(v) => Some(v),
            None => if eq_ignore_case(h.0, n) { Some(h.1) } else { None },
        },
    decreases hs.len(),
{
    if hs.len() == 0 {
        assert(hs.push(h).drop_first() =~= Seq::<HeaderView>::empty());
    } else {
        assert(hs.push(h)[0] == hs[0]);
        assert(hs.push(h).drop_first() =~= hs.drop_first().push(h));
        lemma_lookup_push(hs.drop_first(), h, n);
    }
}

proof fn lemma_lookup_without_same(hs: Seq<HeaderView>, name: Seq<char>, n: Seq<char>)
    requires
        eq_ignore_case(name, n),
    ensures
        lookup(without(hs, name), n) is None,
        values_named(without(hs, name), n) == Seq::<Seq<char>>::empty(),
    decreases hs.len(),
{
    if hs.len() > 0 {
        let w = without(hs.drop_last(), name);
        lemma_lookup_without_same(hs.drop_last(), name, n);
        if !eq_ignore_case(hs.last().0, name) {
            lemma_lookup_push(w, hs.last(), n);
            if eq_ignore_case(hs.last().0, n) {
                lemma_eq_ignore_case_sym(name, n);
                lemma_eq_ignore_case_trans(hs.last().0, n, name);
            }
            assert(w.push(hs.last()).drop_last() =~= w);
        }
    }
}

proof fn lemma_lookup_without_other(hs: Seq<HeaderView>, name: Seq<char>, m: Seq<char>)
    requires
        !eq_ignore_case(name, m),
    ensures
        lookup(without(hs, name), m) == lookup(hs, m),
    decreases hs.len(),
{
    if hs.len() > 0 {
        let dl = hs.drop_last();
        let last = hs.last();
        lemma_lookup_without_other(dl, name, m);
        assert(dl.push(last) =~= hs);
        lemma_lookup_push(dl, last, m);
        if eq_ignore_case(last.0, name) {
            if eq_ignore_case(last.0, m) {
                lemma_eq_ignore_case_sym(last.0, name);
                lemma_eq_ignore_case_trans(name, last.0, m);
            }
        } else {
            lemma_lookup_push(without(dl, name), last, m);
        }
    }
}

/// Looking a header up ignores letter case: two names that differ only in
/// case find the same value.
pub proof fn lemma_lookup_case_insensitive(hs: Seq<HeaderView>, a: Seq<char>, b: Seq<char>)
    requires
        eq_ignore_case(a, b),
    ensures
        lookup(hs, a) == lookup(hs, b),
    decreases hs.len(),
{
    if hs.len() > 0 {
        if eq_ignore_case(hs[0].0, a) {
            lemma_eq_ignore_case_trans(hs[0].0, a, b);
        }
        if eq_ignore_case(hs[0].0, b) {
            lemma_eq_ignore_case_sym(a, b);
            lemma_eq_ignore_case_trans(hs[0].0, b, a);
        }
        lemma_lookup_case_insensitive(hs.drop_first(), a, b);
    }
}

/// After `set(name, value)`, the header reads `value` under any spelling
/// of `name`, and it is the only header of that name.
pub proof fn lemma_set_then_get(hs: Seq<HeaderView>, name: Seq<char>, value: Seq<char>, n: Seq<char>)
    requires
        eq_ignore_case(name, n),
    ensures
        lookup(set_header(hs, name, value), n) == Some(value),
        values_named(set_header(hs, name, value), n) == seq![value],
{
    lemma_lookup_without_same(hs, name, n);
    lemma_lookup_push(without(hs, name), (name, value), n);
    let s = set_header(hs, name, value);
    assert(s.drop_last() =~= without(hs, name));
}

/// `set` leaves the headers of every other name as they were.
pub proof fn lemma_set_keeps_others(hs: Seq<HeaderView>, name: Seq<char>, value: Seq<char>, m: Seq<char>)
    requires
        !eq_ignore_case(name, m),
    ensures
        lookup(set_header(hs, name, value), m) == lookup(hs, m),
{
    lemma_lookup_without_other(hs, name, m);
    lemma_lookup_push(without(hs, name), (name, value), m);
}

/// After `remove(name)`, no header answers to `name` under any spelling,
/// and the headers of other names are unchanged.
pub proof fn lemma_remove_then_absent(hs: Seq<HeaderView>, name: Seq<char>, n: Seq<char>, m: Seq<char>)
    requires
        eq_ignore_case(name, n),
        !eq_ignore_case(name, m),
    ensures
        lookup(without(hs, name), n) is None,
        lookup(without(hs, name), m) == lookup(hs, m),
{
    lemma_lookup_without_same(hs, name, n);
    lemma_lookup_without_other(hs, name, m);
}

/// `add` keeps the earlier values of a name and puts the new one after
/// them.
pub proof fn lemma_add_appends_value(hs: Seq<HeaderView>, name: Seq<char>, value: Seq<char>)
    ensures
        values_named(hs.push((name, value)), name) == values_named(hs, name).push(value),
{
    assert(hs.push((name, value)).drop_last() =~= hs);
    assert(eq_ignore_case(name, name));
}

/// The Content-Length written by `set_content_length(n)` reads back as `n`.
pub proof fn lemma_content_length_round_trip(hs: Seq<HeaderView>, n: usize)
    ensures
        content_length_of(set_header(hs, content_length_name(), decimal(n as nat))) == Some(n as int),
{
    assert(eq_ignore_case(content_length_name(), content_length_name()));
    lemma_set_then_get(hs, content_length_name(), decimal(n as nat), content_length_name());
    lemma_parse_decimal(n as nat, usize::MAX as int);
}

/// `s` has no whitespace at either end.
pub open spec fn is_trimmed(s: Seq<char>) -> bool {
    s.len() == 0 || (!is_ws(s[0]) && !is_ws(s.last()))
}

/// A header that the wire format carries unchanged: a non-empty name
/// without a colon, name and value without a CRLF and without whitespace
/// at their ends.
pub open spec fn wire_safe(h: HeaderView) -> bool {
    &&& h.0.len() > 0
    &&& is_trimmed(h.0)
    &&& is_trimmed(h.1)
    &&& !h.0.contains(':')
    &&& find(h.0, crlf()) is None
    &&& find(h.1, crlf()) is None
}

/// The first occurrence of `p` at or after `i` is at `k` when it occurs
/// there and nowhere in between.
proof fn lemma_find_first(s: Seq<char>, p: Seq<char>, i: int, k: int)
    requires
        0 <= i <= k,
        occurs_at(s, p, k),
        forall|j: int| i <= j < k ==> !#[trigger] occurs_at(s, p, j),
    ensures
        find_from(s, p, i) == Some(k),
    decreases k - i,
{
    if i < k {
        lemma_find_first(s, p, i + 1, k);
    }
}

/// The wire text of a list of headers is that of its first header followed
/// by that of the rest.
proof fn lemma_headers_text_front(hs: Seq<HeaderView>)
    requires
        hs.len() > 0,
    ensures
        headers_text(hs) == header_line(hs[0]) + headers_text(hs.skip(1)),
    decreases hs.len(),
{
    if hs.len() == 1 {
        assert(hs.drop_last() =~= Seq::<HeaderView>::empty());
        assert(hs.skip(1) =~= Seq::<HeaderView>::empty());
        assert(headers_text(hs) =~= header_line(hs[0]) + headers_text(hs.skip(1)));
    } else {
        let init = hs.drop_last();
        lemma_headers_text_front(init);
        assert(init[0] == hs[0]);
        assert(hs.skip(1).drop_last() =~= init.skip(1));
        assert(hs.skip(1).last() == hs.last());
        assert(headers_text(hs) =~= header_line(hs[0]) + headers_text(hs.skip(1)));
    }
}

/// A safe header's line, `Name: Value`, holds no CRLF, not even where its
/// parts meet.
proof fn lemma_line_has_no_crlf(h: HeaderView, rest: Seq<char>, j: int)
    requires
        wire_safe(h),
        0 <= j < (h.0 + seq![':', ' '] + h.1).len(),
    ensures
        !occurs_at(h.0 + seq![':', ' '] + h.1 + rest, crlf(), j),
{
    let n = h.0;
    let v = h.1;
    let line = n + seq![':', ' '] + v;
    let s = line + rest;
    if occurs_at(s, crlf(), j) {
        assert(s.subrange(j, j + 2)[0] == '\r' && s.subrange(j, j + 2)[1] == '\n');
        assert(s[j] == '\r' && s[j + 1] == '\n');
        lemma_find_from_range(n, crlf(), 0);
        lemma_find_from_range(v, crlf(), 0);
        if j + 1 < n.len() {
            assert(n.subrange(j, j + 2) =~= crlf());
            assert(occurs_at(n, crlf(), j));
        } else if j == n.len() - 1 {
            assert(s[j] == n.last());
        } else if j == n.len() || j == n.len() + 1 {
        } else if j + 1 < line.len() {
            let k = j - n.len() - 2;
            assert(s[j] == v[k] && s[j + 1] == v[k + 1]);
            assert(v.subrange(k, k + 2) =~= crlf());
            assert(occurs_at(v, crlf(), k));
        } else {
            assert(s[j] == v.last());
        }
    }
}

/// `Name: Value` reads back as the header itself.
proof fn lemma_header_of_line(h: HeaderView)
    requires
        wire_safe(h),
    ensures
        header_of_line(h.0 + seq![':', ' '] + h.1) == seq![h],
{
    let n = h.0;
    let v = h.1;
    let line = n + seq![':', ' '] + v;
    assert forall|j: int| 0 <= j < n.len() implies !#[trigger] occurs_at(line, seq![':'], j) by {
        if occurs_at(line, seq![':'], j) {
            assert(line.subrange(j, j + 1)[0] == ':');
            assert(line[j] == n[j]);
            assert(n.contains(':'));
        }
    }
    assert(line.subrange(n.len() as int, n.len() + 1int) =~= seq![':']);
    lemma_find_first(line, seq![':'], 0, n.len() as int);
    assert(line.take(n.len() as int) =~= n);
    assert(line.skip(n.len() + 1int) =~= seq![' '] + v);
    assert(trim_start(n) == n);
    assert(trim_end(n) == n);
    assert((seq![' '] + v).drop_first() =~= v);
    assert(trim_start(seq![' '] + v) == trim_start(v));
    assert(trim_start(v) == v);
    assert(trim_end(v) == v);
}

/// What `to_wire_format` writes, followed by the blank line that ends a
/// head, `from_wire_format` reads back: the same headers in the same order,
/// consuming all of it. This holds for every list of headers whose names are
/// non-empty and hold no colon, and whose names and values hold no CRLF and
/// no whitespace at their ends (the parser trims both and splits at the
/// first colon and at every CRLF).
pub proof fn lemma_wire_round_trip(hs: Seq<HeaderView>)
    requires
        forall|i: int| 0 <= i < hs.len() ==> #[trigger] wire_safe(hs[i]),
    ensures
        parse_wire(headers_text(hs) + crlf()) == (hs, utf8_len(headers_text(hs)) + 2int),
    decreases hs.len(),
{
    let s = headers_text(hs) + crlf();
    if hs.len() == 0 {
        assert(s =~= crlf());
        assert(s.subrange(0, 2) =~= crlf());
        lemma_find_first(s, crlf(), 0, 0);
        assert(s.take(0) =~= Seq::<char>::empty());
        assert(vstd::utf8::encode_utf8(Seq::<char>::empty()) =~= Seq::<u8>::empty());
    } else {
        let h = hs[0];
        let t = hs.skip(1);
        assert(wire_safe(h));
        assert forall|i: int| 0 <= i < t.len() implies #[trigger] wire_safe(t[i]) by {
            assert(t[i] == hs[i + 1]);
        }
        lemma_wire_round_trip(t);
        lemma_headers_text_front(hs);
        let line = h.0 + seq![':', ' '] + h.1;
        assert(header_line(h) == line + crlf());
        let rest = headers_text(t) + crlf();
        assert(s =~= line + (crlf() + rest));
        assert forall|j: int| 0 <= j < line.len() implies !#[trigger] occurs_at(s, crlf(), j) by {
            lemma_line_has_no_crlf(h, crlf() + rest, j);
        }
        assert(s.subrange(line.len() as int, line.len() + 2int) =~= crlf());
        lemma_find_first(s, crlf(), 0, line.len() as int);
        assert(s.take(line.len() as int) =~= line);
        assert(s.skip(line.len() + 2int) =~= rest);
        lemma_header_of_line(h);
        assert(seq![h] + t =~= hs);
        lemma_utf8_len_concat(line, crlf());
        lemma_utf8_len_concat(line + crlf(), headers_text(t));
        lemma_utf8_len_crlf();
    }
}

} // verus!
