//! DNS resolution state. Only literal IPv4 hosts are resolved: a host name
//! that is not a dotted-quad address fails with "DNS not implemented".

use crate::text::{all_digits, chars_of, digits_value, is_digit, split_chars, split_on};
use crate::mainloop::state::StepResult;
use vstd::prelude::*;

verus! {

/// An IPv4 address of the network stack.
#[verifier::external_type_specification]
#[verifier::external_body]
pub struct ExIpv4Address(smoltcp::wire::Ipv4Address);

/// What `smoltcp::wire::Ipv4Address::new` returns for four octets.
pub uninterp spec fn ipv4_address(a: u8, b: u8, c: u8, d: u8) -> smoltcp::wire::Ipv4Address;

/// `smoltcp::wire::Ipv4Address::new`: the address with the given octets, in
/// order. The address type is opaque here, so the contract names the result.
#[verifier::external_body]
fn ipv4_new(a: u8, b: u8, c: u8, d: u8) -> (r: smoltcp::wire::Ipv4Address)
    ensures
        r == ipv4_address(a, b, c, d),
{
    smoltcp::wire::Ipv4Address::new(a, b, c, d)
}

/// The `.`-separated fields of `s` (one empty field for an empty `s`).
pub open spec fn fields_of(s: Seq<char>) -> Seq<Seq<char>> {
    split_on(s, '.')
}

/// A dotted-quad field: one to three ASCII digits, value at most 255.
pub open spec fn octet_field(f: Seq<char>) -> bool {
    1 <= f.len() <= 3 && all_digits(f) && digits_value(f) <= 255
}

/// The octets of a dotted-quad IPv4 address `a.b.c.d`; `None` for anything
/// else.
pub open spec fn ipv4_octets(s: Seq<char>) -> Option<Seq<u8>> {
    let f = fields_of(s);
    if f.len() == 4 && (forall|i: int| 0 <= i < 4 ==> #[trigger] octet_field(f[i])) {
        Some(Seq::new(4, |i: int| digits_value(f[i]) as u8))
    } else {
        None
    }
}

/// Value of a field of one to three digits.
fn field_value(f: &Vec<char>) -> (r: Option<u8>)
    ensures
        r == (if octet_field(f@) {
            Some(digits_value(f@) as u8)
        } else {
            None::<u8>
        }),
{
    if f.len() < 1 || f.len() > 3 {
        return None;
    }
    let mut v: u32 = 0;
    let mut i: usize = 0;
    while i < f.len()
        invariant
            1 <= f@.len() <= 3,
            i <= f@.len(),
            all_digits(f@.take(i as int)),
            v == digits_value(f@.take(i as int)),
            v < (if i == 0 {
                1u32
            } else if i == 1 {
                10
            } else if i == 2 {
                100
            } else {
                1000
            }),
        decreases f.len() - i,
    {
        let x = f[i] as u32;
        if !(48 <= x && x <= 57) {
            assert(!is_digit(f@[i as int]));
            assert(!all_digits(f@));
            return None;
        }
        assert(f@.take(i + 1).drop_last() =~= f@.take(i as int));
        v = v * 10 + (x - 48);
        i += 1;
        assert(all_digits(f@.take(i as int))) by {
            assert forall|k: int| 0 <= k < i implies #[trigger] is_digit(f@.take(i as int)[k]) by {
                if k < i - 1 {
                    assert(is_digit(f@.take(i - 1)[k]));
                }
            }
        }
    }
    assert(f@.take(f@.len() as int) =~= f@);
    if v > 255 {
        None
    } else {
        Some(v as u8)
    }
}

/// The octets of a dotted-quad IPv4 address; see `ipv4_octets`.
pub fn parse_ipv4_octets(s: &str) -> (r: Option<[u8; 4]>)
    ensures
        match ipv4_octets(s@) {
            Some(o) => r matches Some(a) && a@ == o,
            None => r is None,
        },
{
    let cs = chars_of(s);
    let fields = split_chars(&cs, '.');
    let ghost f = fields_of(s@);
    if fields.len() != 4 {
        return None;
    }
    let a = field_value(&fields[0]);
    let b = field_value(&fields[1]);
    let c = field_value(&fields[2]);
    let d = field_value(&fields[3]);
    match (a, b, c, d) {
        (Some(a), Some(b), Some(c), Some(d)) => {
            let r: [u8; 4] = [a, b, c, d];
            proof {
                assert(fields@[0]@ == f[0] && fields@[1]@ == f[1] && fields@[2]@ == f[2] && fields@[3]@ == f[3]);
                assert forall|i: int| 0 <= i < 4 implies #[trigger] octet_field(f[i]) by {
                    if i == 3 {
                    }
                }
                assert(r@ =~= Seq::new(4, |i: int| digits_value(f[i]) as u8));
            }
            Some(r)
        },
        _ => {
            proof {
                assert(fields@[0]@ == f[0] && fields@[1]@ == f[1] && fields@[2]@ == f[2] && fields@[3]@ == f[3]);
                if a is None {
                    assert(!octet_field(f[0]));
                } else if b is None {
                    assert(!octet_field(f[1]));
                } else if c is None {
                    assert(!octet_field(f[2]));
                } else {
                    assert(!octet_field(f[3]));
                }
            }
            None
        },
    }
}

/// Parse IPv4 address from dotted decimal string.
pub fn parse_ipv4(s: &str) -> (r: Option<smoltcp::wire::Ipv4Address>)
    ensures
        match ipv4_octets(s@) {
            Some(o) => r == Some(ipv4_address(o[0], o[1], o[2], o[3])),
            None => r is None,
        },
{
    match parse_ipv4_octets(s) {
        Some(o) => Some(ipv4_new(o[0], o[1], o[2], o[3])),
        None => None,
    }
}

/// What the DNS step decided.
#[derive(Debug, Clone, Copy)]
pub enum DnsStep {
    /// The host is an IPv4 address: connect to it.
    Resolved([u8; 4]),
    /// The host is a name: fail with "DNS not implemented".
    NotImplemented,
}

impl DnsStep {
    /// What the download loop reports for this decision.
    pub fn result(self) -> (r: StepResult)
        ensures
            r == (match self {
                DnsStep::Resolved(_) => StepResult::Transition,
                DnsStep::NotImplemented => StepResult::Failed("DNS not implemented"),
            }),
    {
        match self {
            DnsStep::Resolved(_) => StepResult::Transition,
            DnsStep::NotImplemented => StepResult::Failed("DNS not implemented"),
        }
    }
}

/// DNS resolution state.
pub struct DnsState {
    start_tsc: u64,
    hostname: Option<&'static str>,
}

impl DnsState {
    pub closed spec fn spec_start(&self) -> u64 {
        self.start_tsc
    }

    pub closed spec fn spec_hostname(&self) -> Option<&'static str> {
        self.hostname
    }

    /// Resolve the host of the download URL.
    pub fn new() -> (r: Self)
        ensures
            r.spec_start() == 0,
            r.spec_hostname() is None,
    {
        DnsState { start_tsc: 0, hostname: None }
    }

    /// Resolve `hostname` instead of the URL's host.
    pub fn with_hostname(hostname: &'static str) -> (r: Self)
        ensures
            r.spec_start() == 0,
            r.spec_hostname() == Some(hostname),
    {
        DnsState { start_tsc: 0, hostname: Some(hostname) }
    }

    /// Whether `s` is a dotted-quad IPv4 address.
    pub fn is_ip_address(s: &str) -> (r: bool)
        ensures
            r == ipv4_octets(s@) is Some,
    {
        parse_ipv4_octets(s).is_some()
    }

    /// One step at time `tsc`: resolve the state's host name, or `url_host`
    /// when it has none.
    pub fn step(&mut self, tsc: u64, url_host: &str) -> (r: DnsStep)
        ensures
            final(self).spec_hostname() == old(self).spec_hostname(),
            final(self).spec_start() == (if old(self).spec_start() == 0 {
                tsc
            } else {
                old(self).spec_start()
            }),
            ({
                let host = match old(self).spec_hostname() {
                    Some(h) => h@,
                    None => url_host@,
                };
                match ipv4_octets(host) {
                    Some(o) => r matches DnsStep::Resolved(a) && a@ == o,
                    None => r is NotImplemented,
                }
            }),
    {
        if self.start_tsc == 0 {
            self.start_tsc = tsc;
        }
        let host = match self.hostname {
            Some(h) => h,
            None => url_host,
        };
        match parse_ipv4_octets(host) {
            Some(o) => DnsStep::Resolved(o),
            None => DnsStep::NotImplemented,
        }
    }
}

impl Default for DnsState {
    fn default() -> (r: Self)
        ensures
            r.spec_start() == 0,
            r.spec_hostname() is None,
    {
        DnsState::new()
    }
}

} // verus!
