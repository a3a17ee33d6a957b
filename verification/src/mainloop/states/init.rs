//! Initialization state — parses the download URL into host, port and
//! path: `http://host[:port]/path` (port 80) or `https://...` (port 443).

use crate::text::{
    all_digits, chars_of, digits_value, find, find_exec, find_from, is_digit, lemma_digits_value_monotone,
    lemma_find_from_range, lemma_find_char_first, lemma_find_char_absent,
    lemma_find_bounded, lemma_find_shift, substring,
};
use crate::mainloop::state::StepResult;
use vstd::prelude::*;

verus! {

/// End of the run of ASCII digits in `s` that starts at `i`.
pub open spec fn digit_run_end(s: Seq<char>, i: int) -> int
    decreases s.len() - i,
{
    if 0 <= i < s.len() && is_digit(s[i]) {
        digit_run_end(s, i + 1)
    } else {
        i
    }
}

/// Port number given after `:` in a URL: the value of the leading digits,
/// if it is between 1 and 65535.
pub open spec fn port_of(s: Seq<char>) -> Option<u16> {
    let v = digits_value(s.take(digit_run_end(s, 0)));
    if 0 < v && v <= 65535 {
        Some(v as u16)
    } else {
        None
    }
}

/// The characters of `https://`.
pub open spec fn https_prefix() -> Seq<char> {
    seq!['h', 't', 't', 'p', 's', ':', '/', '/']
}

/// The characters of `http://`.
pub open spec fn http_prefix() -> Seq<char> {
    seq!['h', 't', 't', 'p', ':', '/', '/']
}

/// `s` starts with `p`.
pub open spec fn has_prefix(s: Seq<char>, p: Seq<char>) -> bool {
    s.len() >= p.len() && s.take(p.len() as int) == p
}

/// Host, port and path of a download URL; `None` when the scheme is neither
/// `http://` nor `https://`. The path runs from the first `/` after the
/// scheme (`/` if there is none); a `:` in the host part starts the port,
/// and an unusable port leaves the scheme's default.
pub open spec fn url_target(url: Seq<char>) -> Option<(Seq<char>, u16, Seq<char>)> {
    let scheme: Option<(Seq<char>, u16)> = if has_prefix(url, https_prefix()) {
        Some((url.skip(8), 443u16))
    } else if has_prefix(url, http_prefix()) {
        Some((url.skip(7), 80u16))
    } else {
        None
    };
    match scheme {
        None => None,
        Some((rest, default_port)) => {
            let (hp, path) = match find(rest, seq!['/']) {
                Some(i) => (rest.take(i), rest.skip(i)),
                None => (rest, seq!['/']),
            };
            match find(hp, seq![':']) {
                Some(j) => Some(
                    (
                        hp.take(j),
                        match port_of(hp.skip(j + 1)) {
                            Some(p) => p,
                            None => default_port,
                        },
                        path,
                    ),
                ),
                None => Some((hp, default_port, path)),
            }
        },
    }
}

proof fn lemma_digit_run(s: Seq<char>, i: int)
    requires
        0 <= i <= s.len(),
    ensures
        i <= digit_run_end(s, i) <= s.len(),
        forall|k: int| i <= k < digit_run_end(s, i) ==> #[trigger] is_digit(s[k]),
        digit_run_end(s, i) < s.len() ==> !is_digit(s[digit_run_end(s, i)]),
    decreases s.len() - i,
{
    if i < s.len() && is_digit(s[i]) {
        lemma_digit_run(s, i + 1);
    }
}

fn char_is_digit(c: char) -> (r: bool)
    ensures
        r == is_digit(c),
{
    let x = c as u32;
    48 <= x && x <= 57
}

/// Parse the port after `:` in a URL; see `port_of`.
pub fn parse_port(s: &str) -> (r: Option<u16>)
    ensures
        r == port_of(s@),
{
    let cs = chars_of(s);
    let ghost t = s@;
    proof {
        lemma_digit_run(t, 0);
    }
    let mut result: u32 = 0;
    let mut i: usize = 0;
    while i < cs.len() && char_is_digit(cs[i])
        invariant
            cs@ == t,
            t == s@,
            0 <= i <= digit_run_end(t, 0) <= t.len(),
            forall|k: int| 0 <= k < digit_run_end(t, 0) ==> #[trigger] is_digit(t[k]),
            digit_run_end(t, 0) < t.len() ==> !is_digit(t[digit_run_end(t, 0)]),
            result == digits_value(t.take(i as int)),
            result <= 65535,
        decreases cs.len() - i,
    {
        let x = cs[i] as u32;
        assert(t.take(i + 1).drop_last() =~= t.take(i as int));
        assert(t.take(i + 1).last() == t[i as int]);
        assert(is_digit(t[i as int]));
        assert(i < digit_run_end(t, 0)) by {
            if i == digit_run_end(t, 0) {
                assert(i < t.len());
            }
        }
        result = result * 10 + (x - 48);
        i += 1;
        if result > 65535 {
            proof {
                assert(result == digits_value(t.take(i as int)));
                let e = digit_run_end(t, 0);
                let d = t.take(e);
                assert(i <= e);
                assert(all_digits(d)) by {
                    assert forall|k: int| 0 <= k < d.len() implies #[trigger] is_digit(d[k]) by {
                        assert(is_digit(t[k]));
                    }
                }
                lemma_digits_value_monotone(d, i as int);
                assert(d.take(i as int) =~= t.take(i as int));
                assert(digits_value(d) > 65535);
                assert(port_of(t) is None);
                assert(port_of(s@) is None);
            }
            return None;
        }
    }
    proof {
        assert(i == digit_run_end(t, 0));
    }
    if result > 0 {
        Some(result as u16)
    } else {
        None
    }
}

/// `cs` starts with the characters of `p`.
fn starts_with_chars(cs: &Vec<char>, p: &[char]) -> (r: bool)
    ensures
        r == has_prefix(cs@, p@),
{
    if cs.len() < p.len() {
        return false;
    }
    let mut i: usize = 0;
    while i < p.len()
        invariant
            p.len() <= cs.len(),
            i <= p.len(),
            forall|k: int| 0 <= k < i ==> cs@[k] == p@[k],
        decreases p.len() - i,
    {
        if cs[i] != p[i] {
            assert(cs@.take(p@.len() as int)[i as int] != p@[i as int]);
            return false;
        }
        i += 1;
    }
    assert(cs@.take(p@.len() as int) =~= p@);
    true
}

/// Where the download goes.
#[derive(Debug, Clone)]
pub struct DownloadTarget {
    pub host: String,
    pub port: u16,
    pub path: String,
}

/// Parse a download URL; see `url_target`.
pub fn parse_url(url: &str) -> (r: Option<DownloadTarget>)
    ensures
        match url_target(url@) {
            Some((host, port, path)) => r matches Some(t) && t.host@ == host && t.port == port && t.path@
                == path,
            None => r is None,
        },
{
    let cs = chars_of(url);
    let https: &[char] = &['h', 't', 't', 'p', 's', ':', '/', '/'];
    let http: &[char] = &['h', 't', 't', 'p', ':', '/', '/'];
    assert(https@ =~= https_prefix());
    assert(http@ =~= http_prefix());
    let (start, default_port): (usize, u16) = if starts_with_chars(&cs, https) {
        (8, 443)
    } else if starts_with_chars(&cs, http) {
        (7, 80)
    } else {
        return None;
    };
    let ghost rest = url@.skip(start as int);
    let slash: Vec<char> = vec!['/'];
    let colon: Vec<char> = vec![':'];
    assert(slash@ =~= seq!['/']);
    assert(colon@ =~= seq![':']);
    proof {
        lemma_find_shift(url@, seq!['/'], start as int);
        lemma_find_from_range(url@, seq!['/'], start as int);
        lemma_find_from_range(url@, seq![':'], start as int);
    }
    let found = find_exec(&cs, &slash, start);
    let (hp_end, path): (usize, String) = match found {
        Some(i) => {
            proof {
                assert(found == Some(i));
                let ff = find_from(url@, seq!['/'], start as int);
                assert(ff is Some);
                let kk = ff->0;
                assert(start <= kk && kk + 1 <= url@.len());
                assert(cs@ == url@);
                assert(slash@ == seq!['/']);
                assert(find_from(cs@, slash@, start as int) == ff);
                assert(ff == Some(kk));
                assert(kk < cs.len());
                assert(0 <= kk <= usize::MAX);
                assert(found == Some(kk as usize));
                assert(i as int == kk);
                assert(rest.take(i - start) =~= url@.subrange(start as int, i as int));
                assert(rest.skip(i - start) =~= url@.subrange(i as int, url@.len() as int));
            }
            (i, substring(url, i, cs.len()))
        },
        None => {
            let p = String::from_str("/");
            proof {
                reveal_strlit("/");
                assert(rest =~= url@.subrange(start as int, url@.len() as int));
            }
            (cs.len(), p)
        },
    };
    let ghost hp = url@.subrange(start as int, hp_end as int);
    proof {
        lemma_find_bounded(url@, seq![':'], start as int, hp_end as int);
    }
    match find_exec(&cs, &colon, start) {
        Some(j) if j < hp_end => {
            let host = substring(url, start, j);
            let port_text = substring(url, j + 1, hp_end);
            proof {
                assert(hp.take(j - start) =~= url@.subrange(start as int, j as int));
                assert(hp.skip(j - start + 1) =~= url@.subrange(j + 1, hp_end as int));
            }
            let port = match parse_port(port_text.as_str()) {
                Some(p) => p,
                None => default_port,
            };
            Some(DownloadTarget { host, port, path })
        },
        _ => {
            let host = substring(url, start, hp_end);
            Some(DownloadTarget { host, port: default_port, path })
        },
    }
}

/// What the initialization step decided.
#[derive(Debug, Clone)]
pub enum InitStep {
    /// The URL was parsed; stay for one more step.
    Parsed(DownloadTarget),
    /// The URL does not start with `http://` or `https://`: fail.
    InvalidUrl,
    /// The URL was validated earlier: go to DHCP.
    ToDhcp,
}

impl InitStep {
    /// What the download loop reports for this decision.
    pub fn result(&self) -> (r: StepResult)
        ensures
            r == (match self {
                InitStep::Parsed(_) => StepResult::Continue,
                InitStep::InvalidUrl => StepResult::Failed("invalid URL"),
                InitStep::ToDhcp => StepResult::Transition,
            }),
    {
        match self {
            InitStep::Parsed(_) => StepResult::Continue,
            InitStep::InvalidUrl => StepResult::Failed("invalid URL"),
            InitStep::ToDhcp => StepResult::Transition,
        }
    }
}

/// Initialization state.
pub struct InitState {
    validated: bool,
}

impl InitState {
    pub closed spec fn spec_validated(&self) -> bool {
        self.validated
    }

    pub fn new() -> (r: Self)
        ensures
            !r.spec_validated(),
    {
        InitState { validated: false }
    }

    /// One step: the first parses the URL (failing on a bad scheme), the
    /// next moves on to DHCP.
    pub fn step(&mut self, url: &str) -> (r: InitStep)
        ensures
            old(self).spec_validated() ==> r is ToDhcp && final(self).spec_validated(),
            !old(self).spec_validated() ==> match url_target(url@) {
                Some((host, port, path)) => r matches InitStep::Parsed(t) && t.host@ == host && t.port
                    == port && t.path@ == path && final(self).spec_validated(),
                None => r is InvalidUrl && !final(self).spec_validated(),
            },
    {
        if self.validated {
            return InitStep::ToDhcp;
        }
        match parse_url(url) {
            Some(t) => {
                self.validated = true;
                InitStep::Parsed(t)
            },
            None => InitStep::InvalidUrl,
        }
    }
}

impl Default for InitState {
    fn default() -> (r: Self)
        ensures
            !r.spec_validated(),
    {
        InitState::new()
    }
}


/// A URL made of a scheme, a host free of `/` and `:`, and a path that is
/// empty or starts with `/` names that host and that path (`/` when empty),
/// on the scheme's default port: 80 for `http://`, 443 for `https://`.
pub proof fn lemma_url_default_port(scheme: Seq<char>, host: Seq<char>, path: Seq<char>)
    requires
        scheme == http_prefix() || scheme == https_prefix(),
        forall|i: int| 0 <= i < host.len() ==> host[i] != '/' && host[i] != ':',
        path.len() == 0 || path[0] == '/',
    ensures
        url_target(scheme + host + path) == Some(
            (
                host,
                if scheme == http_prefix() {
                    80u16
                } else {
                    443u16
                },
                if path.len() == 0 {
                    seq!['/']
                } else {
                    path
                },
            ),
        ),
{
    let url = scheme + host + path;
    let rest = host + path;
    if scheme == http_prefix() {
        assert(url[4] == ':');
        assert(!has_prefix(url, https_prefix())) by {
            if url.len() >= 8 {
                assert(url.take(8)[4] == url[4]);
            }
        }
        assert(url.take(7) =~= http_prefix());
        assert(url.skip(7) =~= rest);
    } else {
        assert(url.take(8) =~= https_prefix());
        assert(url.skip(8) =~= rest);
    }
    if path.len() == 0 {
        assert(rest =~= host);
        lemma_find_char_absent(rest, '/');
    } else {
        assert(rest[host.len() as int] == '/');
        assert forall|j: int| 0 <= j < host.len() implies rest[j] != '/' by {
            assert(rest[j] == host[j]);
        }
        lemma_find_char_first(rest, '/', host.len() as int);
        assert(rest.take(host.len() as int) =~= host);
        assert(rest.skip(host.len() as int) =~= path);
    }
    lemma_find_char_absent(host, ':');
}

} // verus!
