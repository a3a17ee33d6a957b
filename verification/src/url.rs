//! HTTP URLs: `scheme://host[:port][/path][?query]`.

use crate::error::NetworkError;
use crate::text::{
    chars_of, decimal, find, find_exec, find_from, lemma_find_bounded, lemma_find_from_range,
    lemma_find_shift, occurs_at, occurs_at_exec, parse_unsigned, parse_unsigned_exec, push_decimal,
    substring,
};
use vstd::prelude::*;

verus! {

/// A URL as the contracts see it: scheme, host, explicit port, path, query.
pub type UrlView = (Seq<char>, Seq<char>, Option<u16>, Seq<char>, Option<Seq<char>>);

pub open spec fn http_prefix() -> Seq<char> {
    seq!['h', 't', 't', 'p', ':', '/', '/']
}

pub open spec fn https_prefix() -> Seq<char> {
    seq!['h', 't', 't', 'p', 's', ':', '/', '/']
}

/// Host and explicit port of `host[:port]`; a port that is not a decimal
/// number up to 65535 makes the URL invalid.
pub open spec fn split_host_port(hp: Seq<char>) -> Option<(Seq<char>, Option<u16>)> {
    match find(hp, seq![':']) {
        Some(c) => match parse_unsigned(hp.skip(c + 1), 65535) {
            Some(p) => Some((hp.take(c), Some(p as u16))),
            None => None,
        },
        None => Some((hp, None)),
    }
}

/// Path and query of the text after the authority (`/` when it is empty).
pub open spec fn split_path_query(pq: Seq<char>) -> (Seq<char>, Option<Seq<char>>) {
    match find(pq, seq!['?']) {
        Some(q) => (pq.take(q), Some(pq.skip(q + 1))),
        None => (pq, None),
    }
}

/// What `Url::parse` accepts and builds: an `http://` or `https://` URL with
/// a non-empty host.
pub open spec fn parse_url(s: Seq<char>) -> Option<UrlView> {
    let scheme_len: int = if occurs_at(s, https_prefix(), 0) {
        8
    } else if occurs_at(s, http_prefix(), 0) {
        7
    } else {
        0
    };
    if scheme_len == 0 {
        None
    } else {
        let scheme = s.take(scheme_len - 3);
        let rest = s.skip(scheme_len);
        let (hp, pq) = match find(rest, seq!['/']) {
            Some(k) => (rest.take(k), rest.skip(k)),
            None => (rest, seq!['/']),
        };
        match split_host_port(hp) {
            Some((host, port)) => if host.len() == 0 {
                None
            } else {
                let (path, query) = split_path_query(pq);
                Some((scheme, host, port, path, query))
            },
            None => None,
        }
    }
}

/// `host` or `host:port` as sent in the Host header.
pub open spec fn host_header_of(u: UrlView) -> Seq<char> {
    match u.2 {
        Some(p) => u.1 + seq![':'] + decimal(p as nat),
        None => u.1,
    }
}

/// Path and query as sent in the request line.
pub open spec fn request_uri_of(u: UrlView) -> Seq<char> {
    match u.4 {
        Some(q) => u.3 + seq!['?'] + q,
        None => u.3,
    }
}

/// A parsed HTTP URL.
#[derive(Debug)]
pub struct Url {
    /// `http` or `https`.
    pub scheme: String,
    /// Host name or address.
    pub host: String,
    /// Port given in the URL, if any.
    pub port: Option<u16>,
    /// Path, starting with `/`.
    pub path: String,
    /// Query, without the `?`.
    pub query: Option<String>,
}

impl View for Url {
    type V = UrlView;

    open spec fn view(&self) -> UrlView {
        (
            self.scheme@,
            self.host@,
            self.port,
            self.path@,
            match self.query {
                Some(q) => Some(q@),
                None => None,
            },
        )
    }
}

impl Clone for Url {
    fn clone(&self) -> (r: Self)
        ensures
            r@ == self@,
    {
        Url {
            scheme: self.scheme.clone(),
            host: self.host.clone(),
            port: self.port,
            path: self.path.clone(),
            query: match &self.query {
                Some(q) => Some(q.clone()),
                None => None,
            },
        }
    }
}

/// `?` does not occur in `/`.
proof fn lemma_no_query_in_root()
    ensures
        split_path_query(seq!['/']) == (seq!['/'], None::<Seq<char>>),
{
    lemma_find_from_range(seq!['/'], seq!['?'], 0);
    if find(seq!['/'], seq!['?']) is Some {
        assert(seq!['/'].subrange(0, 1)[0] == '/');
    }
}

/// Host and port of `cs[lo..hi]`.
fn host_port_of(s: &str, cs: &Vec<char>, lo: usize, hi: usize) -> (r: Option<(String, Option<u16>)>)
    requires
        cs@ == s@,
        lo <= hi <= cs.len(),
    ensures
        match split_host_port(cs@.subrange(lo as int, hi as int)) {
            Some((h, p)) => r matches Some((hh, pp)) && hh@ == h && pp == p,
            None => r is None,
        },
{
    let ghost hp = cs@.subrange(lo as int, hi as int);
    let colon = chars_of(":");
    proof {
        reveal_strlit(":");
        assert(colon@ =~= seq![':']);
        lemma_find_from_range(cs@, seq![':'], lo as int);
        lemma_find_bounded(cs@, seq![':'], lo as int, hi as int);
    }
    match find_exec(cs, &colon, lo) {
        Some(c) if c < hi => {
            proof {
                assert(hp.skip(c + 1 - lo) =~= cs@.subrange(c + 1, hi as int));
                assert(hp.take(c - lo) =~= cs@.subrange(lo as int, c as int));
            }
            match parse_unsigned_exec(cs, c + 1, hi, 65535) {
                Some(v) => Some((substring(s, lo, c), Some(v as u16))),
                None => None,
            }
        },
        _ => Some((substring(s, lo, hi), None)),
    }
}

/// Path and query of `cs[lo..]`.
fn path_query_of(s: &str, cs: &Vec<char>, lo: usize) -> (r: (String, Option<String>))
    requires
        cs@ == s@,
        lo <= cs.len(),
    ensures
        r.0@ == split_path_query(cs@.skip(lo as int)).0,
        (match r.1 {
            Some(q) => Some(q@),
            None => None,
        }) == split_path_query(cs@.skip(lo as int)).1,
{
    let qmark = chars_of("?");
    proof {
        reveal_strlit("?");
        assert(qmark@ =~= seq!['?']);
        lemma_find_shift(cs@, seq!['?'], lo as int);
        lemma_find_from_range(cs@, seq!['?'], lo as int);
    }
    let n = cs.len();
    match find_exec(cs, &qmark, lo) {
        Some(q) => {
            proof {
                assert(cs@.skip(lo as int).take(q - lo) =~= cs@.subrange(lo as int, q as int));
                assert(cs@.skip(lo as int).skip(q - lo + 1) =~= cs@.subrange(q + 1, n as int));
            }
            (substring(s, lo, q), Some(substring(s, q + 1, n)))
        },
        None => {
            proof {
                assert(cs@.skip(lo as int) =~= cs@.subrange(lo as int, n as int));
            }
            (substring(s, lo, n), None)
        },
    }
}

impl Url {
    /// Parse an `http://` or `https://` URL.
    pub fn parse(s: &str) -> (r: Result<Url, NetworkError>)
        ensures
            match parse_url(s@) {
                Some(u) => r is Ok && r->Ok_0@ == u,
                None => r == Err::<Url, NetworkError>(NetworkError::InvalidUrl),
            },
    {
        let cs = chars_of(s);
        let https = "https://";
        let http = "http://";
        proof {
            reveal_strlit("https://");
            reveal_strlit("http://");
            assert(https@ =~= https_prefix());
            assert(http@ =~= http_prefix());
        }
        let https_c = chars_of(https);
        let http_c = chars_of(http);
        let scheme_len: usize = if occurs_at_exec(&cs, &https_c, 0) {
            8
        } else if occurs_at_exec(&cs, &http_c, 0) {
            7
        } else {
            return Err(NetworkError::InvalidUrl);
        };
        assert(scheme_len as int <= cs@.len());
        let scheme = substring(s, 0, scheme_len - 3);
        let ghost rest = cs@.skip(scheme_len as int);
        let slash = chars_of("/");
        proof {
            reveal_strlit("/");
            assert(slash@ =~= seq!['/']);
            lemma_find_from_range(cs@, seq!['/'], scheme_len as int);
            lemma_find_shift(cs@, seq!['/'], scheme_len as int);
        }
        let n = cs.len();
        let found = find_exec(&cs, &slash, scheme_len);
        let hp_end = match found {
            Some(k) => k,
            None => n,
        };
        let ghost hp = cs@.subrange(scheme_len as int, hp_end as int);
        assert(hp =~= (match find(rest, seq!['/']) {
            Some(k) => rest.take(k),
            None => rest,
        }));
        let (host, port) = match host_port_of(s, &cs, scheme_len, hp_end) {
            Some(hp) => hp,
            None => {
                return Err(NetworkError::InvalidUrl);
            },
        };
        if host.unicode_len() == 0 {
            return Err(NetworkError::InvalidUrl);
        }
        let (path, query) = if hp_end == n {
            proof {
                lemma_no_query_in_root();
                reveal_strlit("/");
            }
            ("/".to_owned(), None)
        } else {
            proof {
                assert(rest.skip(hp_end - scheme_len) =~= cs@.skip(hp_end as int));
            }
            path_query_of(s, &cs, hp_end)
        };
        let u = Url { scheme, host, port, path, query };
        proof {
            assert(scheme@ =~= s@.take(scheme_len - 3));
            if hp_end == n {
                assert(path@ =~= seq!['/']);
            }
            assert(u@ == parse_url(s@)->Some_0);
        }
        Ok(u)
    }

    /// `host` or `host:port`, as sent in the Host header.
    pub fn host_header(&self) -> (r: String)
        ensures
            r@ == host_header_of(self@),
    {
        let mut r = self.host.clone();
        match self.port {
            Some(p) => {
                let c = ":";
                proof {
                    reveal_strlit(":");
                }
                r.append(c);
                push_decimal(&mut r, p as u64);
                assert(r@ =~= host_header_of(self@));
            },
            None => {},
        }
        r
    }

    /// Path plus `?query`, as sent in the request line.
    pub fn request_uri(&self) -> (r: String)
        ensures
            r@ == request_uri_of(self@),
    {
        let mut r = self.path.clone();
        match &self.query {
            Some(q) => {
                let m = "?";
                proof {
                    reveal_strlit("?");
                }
                r.append(m);
                r.append(q.as_str());
                assert(r@ =~= request_uri_of(self@));
            },
            None => {},
        }
        r
    }
}

} // verus!
