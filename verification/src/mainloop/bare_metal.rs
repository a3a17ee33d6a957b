//! The single-pass bare-metal runner's configuration, results and text
//! handling: its URL form (`http://host[:port]/path` only), number parsing
//! without allocation, case-insensitive header matching, the GET request,
//! the response status and the size shown for a `Content-Length`.

pub use super::adapter::{RxToken, SmoltcpAdapter};
use super::serial::crlf_bytes;
use super::states::http::{format_http_request, request_bytes};
use super::states::init::{has_prefix, http_prefix, https_prefix};
use crate::text::{lemma_find_char_absent, lemma_find_char_first, all_digits, chars_of, digits_value, find, find_exec, find_from, is_digit, lemma_digits_value_monotone, lemma_find_bounded, lemma_find_from_range, substring};
use vstd::prelude::*;
use vstd::string::StringSliceAdditionalSpecFns;

verus! {

/// Run result.
#[derive(Debug, Clone, Copy, PartialEq, Eq, Structural)]
pub enum RunResult {
    /// ISO download and write completed successfully.
    Success,
    /// Initialization failed.
    InitFailed,
    /// DHCP timeout.
    DhcpTimeout,
    /// Download failed.
    DownloadFailed,
    /// Disk write failed.
    DiskWriteFailed,
}

/// Configuration for the bare-metal runner.
pub struct BareMetalConfig {
    /// URL to download ISO from.
    pub iso_url: &'static str,
    /// ISO filename for manifest (e.g., "tails-6.0.iso").
    pub iso_name: &'static str,
    /// Target disk sector to start writing ISO data at.
    pub target_start_sector: u64,
    /// Sector where manifest is stored (raw sector write); 0 to use FAT32.
    pub manifest_sector: u64,
    /// ESP partition start LBA for FAT32 manifest writing (0: none).
    pub esp_start_lba: u64,
    /// Maximum download size in bytes.
    pub max_download_size: u64,
    /// Whether to write to disk.
    pub write_to_disk: bool,
    /// Partition UUID for chunk tracking (16 bytes, or zeros if unknown).
    pub partition_uuid: [u8; 16],
}

impl Default for BareMetalConfig {
    /// Download `http://10.0.2.2:8000/test-iso.img` as `download.iso`,
    /// written from 4 GiB into the disk (sector 8388608, after a 4 GiB ESP
    /// at sector 2048 holding the FAT32 manifest), at most 8 GiB.
    fn default() -> (r: Self)
        ensures
            r.iso_url@ == "http://10.0.2.2:8000/test-iso.img"@,
            r.iso_name@ == "download.iso"@,
            r.target_start_sector == 8388608,
            r.manifest_sector == 0,
            r.esp_start_lba == 2048,
            r.max_download_size == 8 * 1024 * 1024 * 1024,
            r.write_to_disk,
            r.partition_uuid@ == Seq::new(16, |i: int| 0u8),
    {
        let r = BareMetalConfig {
            iso_url: "http://10.0.2.2:8000/test-iso.img",
            iso_name: "download.iso",
            target_start_sector: 8388608,
            manifest_sector: 0,
            esp_start_lba: 2048,
            max_download_size: 8 * 1024 * 1024 * 1024,
            write_to_disk: true,
            partition_uuid: [0u8; 16],
        };
        assert(r.partition_uuid@ =~= Seq::new(16, |i: int| 0u8));
        r
    }
}

/// Write a line to the COM1 output.
pub fn serial_println(out: &mut Vec<u8>, s: &str)
    ensures
        final(out)@ == old(out)@ + s.spec_bytes() + crlf_bytes(),
{
    super::serial::println(out, s);
}

/// Write a string to the COM1 output.
pub fn serial_print(out: &mut Vec<u8>, s: &str)
    ensures
        final(out)@ == old(out)@ + s.spec_bytes(),
{
    super::serial::print(out, s);
}

/// Write a byte as two lower-case hex digits.
pub fn serial_print_hex_byte(out: &mut Vec<u8>, value: u8)
    ensures
        final(out)@ == old(out)@ + super::serial::hex_byte_text(value),
{
    super::serial::print_hex_byte(out, value);
}

/// Write a `u64` as `0x` and sixteen hex digits.
pub fn serial_print_hex(out: &mut Vec<u8>, value: u64)
    ensures
        final(out)@ == old(out)@ + super::serial::hex64_text(value),
{
    super::serial::print_hex(out, value);
}

/// Write a `u32` in decimal.
pub fn serial_print_decimal(out: &mut Vec<u8>, value: u32)
    ensures
        final(out)@ == old(out)@ + super::serial::decimal_bytes(value as nat),
{
    super::serial::print_u32(out, value);
}

/// A decimal `u16`: digits only (none gives 0), value at most 65535.
pub open spec fn u16_text(s: Seq<char>) -> Option<u16> {
    if all_digits(s) && digits_value(s) <= 65535 {
        Some(digits_value(s) as u16)
    } else {
        None
    }
}

/// A decimal `u8`: digits only (none gives 0), value at most 255.
pub open spec fn u8_text(s: Seq<char>) -> Option<u8> {
    if all_digits(s) && digits_value(s) <= 255 {
        Some(digits_value(s) as u8)
    } else {
        None
    }
}

fn char_digit(c: char) -> (r: Option<u32>)
    ensures
        r == (if is_digit(c) {
            Some((c as u32 - 48) as u32)
        } else {
            None
        }),
{
    let x = c as u32;
    if 48 <= x && x <= 57 {
        Some(x - 48)
    } else {
        None
    }
}

/// Value of the digits of `cs`, if all are digits and the value is at most
/// `max`; `None` otherwise.
fn bounded_of_chars(cs: &Vec<char>, max: u32) -> (r: Option<u32>)
    ensures
        r == (if all_digits(cs@) && digits_value(cs@) <= max {
            Some(digits_value(cs@) as u32)
        } else {
            None
        }),
        r matches Some(v) ==> v == digits_value(cs@),
{
    let ghost t = cs@;
    let mut v: u32 = 0;
    let mut i: usize = 0;
    while i < cs.len()
        invariant
            cs@ == t,
            i <= t.len(),
            all_digits(t.take(i as int)),
            v == digits_value(t.take(i as int)),
            v <= max,
        decreases cs.len() - i,
    {
        let d = match char_digit(cs[i]) {
            Some(d) => d,
            None => {
                assert(!is_digit(t[i as int]));
                return None;
            },
        };
        assert(t.take(i + 1).drop_last() =~= t.take(i as int));
        assert(all_digits(t.take(i + 1))) by {
            assert forall|k: int| 0 <= k < i + 1 implies #[trigger] is_digit(t.take(i + 1)[k]) by {
                if k < i {
                    assert(is_digit(t.take(i as int)[k]));
                }
            }
        }
        if d > max || v > (max - d) / 10 {
            proof {
                if d <= max {
                    assert(v * 10 + d > max) by (nonlinear_arith)
                        requires
                            v > (max - d) / 10,
                            d <= max,
                    ;
                }
                if all_digits(t) {
                    lemma_digits_value_monotone(t, i + 1);
                }
            }
            return None;
        }
        proof {
            assert(v * 10 + d <= max) by (nonlinear_arith)
                requires
                    v <= (max - d) / 10,
                    d <= max,
            ;
        }
        v = v * 10 + d;
        i += 1;
    }
    assert(t.take(t.len() as int) =~= t);
    Some(v)
}

/// Parse a u16 from a string without allocation.
pub fn parse_u16(s: &str) -> (r: Option<u16>)
    ensures
        r == u16_text(s@),
{
    u16_of_chars(&chars_of(s))
}

/// `u16_text` of a run of characters.
pub(crate) fn u16_of_chars(cs: &Vec<char>) -> (r: Option<u16>)
    ensures
        r == u16_text(cs@),
{
    match bounded_of_chars(cs, 65535) {
        Some(v) => Some(v as u16),
        None => None,
    }
}

/// Parse a u8 from a string without allocation.
pub fn parse_u8(s: &str) -> (r: Option<u8>)
    ensures
        r == u8_text(s@),
{
    match bounded_of_chars(&chars_of(s), 255) {
        Some(v) => Some(v as u8),
        None => None,
    }
}

/// Space or tab.
pub open spec fn is_blank(c: char) -> bool {
    c == ' ' || c == '\t'
}

/// Index of the first character of `s` from `i` that is not a blank.
pub open spec fn skip_blanks(s: Seq<char>, i: int) -> int
    decreases s.len() - i,
{
    if 0 <= i < s.len() && is_blank(s[i]) {
        skip_blanks(s, i + 1)
    } else {
        i
    }
}

/// End of the run of digits of `s` from `i`.
pub open spec fn digits_end(s: Seq<char>, i: int) -> int
    decreases s.len() - i,
{
    if 0 <= i < s.len() && is_digit(s[i]) {
        digits_end(s, i + 1)
    } else {
        i
    }
}

/// A `usize` after optional leading blanks: the digits up to the first
/// non-digit; `None` without digits or when the value does not fit.
pub open spec fn usize_text(s: Seq<char>) -> Option<usize> {
    let a = skip_blanks(s, 0);
    let d = s.subrange(a, digits_end(s, a));
    if d.len() > 0 && digits_value(d) <= usize::MAX {
        Some(digits_value(d) as usize)
    } else {
        None
    }
}

proof fn lemma_skip_blanks(s: Seq<char>, i: int)
    requires
        0 <= i <= s.len(),
    ensures
        i <= skip_blanks(s, i) <= s.len(),
        skip_blanks(s, i) < s.len() ==> !is_blank(s[skip_blanks(s, i)]),
    decreases s.len() - i,
{
    if i < s.len() && is_blank(s[i]) {
        lemma_skip_blanks(s, i + 1);
    }
}

proof fn lemma_digits_end(s: Seq<char>, i: int)
    requires
        0 <= i <= s.len(),
    ensures
        i <= digits_end(s, i) <= s.len(),
        forall|k: int| i <= k < digits_end(s, i) ==> #[trigger] is_digit(s[k]),
        digits_end(s, i) < s.len() ==> !is_digit(s[digits_end(s, i)]),
    decreases s.len() - i,
{
    if i < s.len() && is_digit(s[i]) {
        lemma_digits_end(s, i + 1);
    }
}

/// Parse usize from string without allocation; see `usize_text`.
pub fn parse_usize(s: &str) -> (r: Option<usize>)
    ensures
        r == usize_text(s@),
{
    usize_of_chars(&chars_of(s))
}

/// `usize_text` of a run of characters.
pub(crate) fn usize_of_chars(cs: &Vec<char>) -> (r: Option<usize>)
    ensures
        r == usize_text(cs@),
{
    let ghost t = cs@;
    proof {
        lemma_skip_blanks(t, 0);
    }
    let mut a: usize = 0;
    while a < cs.len() && (cs[a] == ' ' || cs[a] == '\t')
        invariant
            cs@ == t,
            a <= skip_blanks(t, 0),
            skip_blanks(t, 0) == skip_blanks(t, a as int),
        decreases cs.len() - a,
    {
        proof {
            lemma_skip_blanks(t, a + 1);
        }
        a += 1;
    }
    assert(a == skip_blanks(t, 0));
    proof {
        lemma_digits_end(t, a as int);
    }
    let ghost e = digits_end(t, a as int);
    let mut v: usize = 0;
    let mut i = a;
    while i < cs.len() && char_digit(cs[i]).is_some()
        invariant
            cs@ == t,
            a == skip_blanks(t, 0),
            a <= i <= e,
            e == digits_end(t, a as int),
            e <= t.len(),
            forall|k: int| a <= k < e ==> #[trigger] is_digit(t[k]),
            e < t.len() ==> !is_digit(t[e]),
            v == digits_value(t.subrange(a as int, i as int)),
        decreases cs.len() - i,
    {
        let d = match char_digit(cs[i]) {
            Some(d) => d as usize,
            None => 0,
        };
        assert(t.subrange(a as int, i + 1).drop_last() =~= t.subrange(a as int, i as int));
        assert(i < e) by {
            if i == e {
                assert(is_digit(t[i as int]));
            }
        }
        assert(d == t[i as int] as u32 - 48);
        assert(digits_value(t.subrange(a as int, i + 1)) == v * 10 + d);
        if v > (usize::MAX - d) / 10 {
            proof {
                assert(v * 10 + d > usize::MAX) by (nonlinear_arith)
                    requires
                        v > (usize::MAX - d) / 10,
                        d <= 9,
                ;
                let full = t.subrange(a as int, e);
                assert(all_digits(full)) by {
                    assert forall|k: int| 0 <= k < full.len() implies #[trigger] is_digit(full[k]) by {
                        assert(is_digit(t[a + k]));
                    }
                }
                lemma_digits_value_monotone(full, i + 1 - a);
                assert(full.take(i + 1 - a) =~= t.subrange(a as int, i + 1));
                assert(digits_value(full) > usize::MAX);
                assert(full == t.subrange(skip_blanks(t, 0), digits_end(t, skip_blanks(t, 0))));
            }
            return None;
        }
        proof {
            assert(v * 10 + d <= usize::MAX) by (nonlinear_arith)
                requires
                    v <= (usize::MAX - d) / 10,
                    d <= 9,
            ;
        }
        v = v * 10 + d;
        i += 1;
    }
    assert(i == e);
    if i == a {
        None
    } else {
        Some(v)
    }
}

/// ASCII lower case of a byte.
pub open spec fn lower_byte(b: u8) -> u8 {
    if 65 <= b && b <= 90 {
        (b + 32) as u8
    } else {
        b
    }
}

/// The bytes of `s` start with those of `p`, ASCII letters compared
/// without case.
pub open spec fn starts_with_ignore_case_spec(s: Seq<u8>, p: Seq<u8>) -> bool {
    s.len() >= p.len() && forall|i: int| 0 <= i < p.len() ==> #[trigger] lower_byte(s[i]) == lower_byte(p[i])
}

fn to_lower(b: u8) -> (r: u8)
    ensures
        r == lower_byte(b),
{
    if 65 <= b && b <= 90 {
        b + 32
    } else {
        b
    }
}

/// Case-insensitive starts_with for ASCII strings (no heap allocation).
pub fn starts_with_ignore_case(s: &str, prefix: &str) -> (r: bool)
    ensures
        r == starts_with_ignore_case_spec(s.spec_bytes(), prefix.spec_bytes()),
{
    let sb = s.as_bytes();
    let pb = prefix.as_bytes();
    if sb.len() < pb.len() {
        return false;
    }
    let mut i: usize = 0;
    while i < pb.len()
        invariant
            sb@ == s.spec_bytes(),
            pb@ == prefix.spec_bytes(),
            pb.len() <= sb.len(),
            i <= pb.len(),
            forall|k: int| 0 <= k < i ==> #[trigger] lower_byte(sb@[k]) == lower_byte(pb@[k]),
        decreases pb.len() - i,
    {
        if to_lower(sb[i]) != to_lower(pb[i]) {
            return false;
        }
        i += 1;
    }
    true
}

/// Format an HTTP GET request into `buffer`: its length, or `None` if it
/// does not fit.
pub fn format_http_get(buffer: &mut [u8], path: &str, host: &str) -> (r: Option<usize>)
    ensures
        final(buffer)@.len() == old(buffer)@.len(),
        request_bytes("GET", path, host).len() <= old(buffer)@.len() ==> r == Some(
            request_bytes("GET", path, host).len() as usize,
        ) && final(buffer)@.take(request_bytes("GET", path, host).len() as int) == request_bytes(
            "GET",
            path,
            host,
        ),
        request_bytes("GET", path, host).len() > old(buffer)@.len() ==> r is None,
{
    let n = format_http_request(buffer, "GET", path, host);
    if n == 0 {
        proof {
            assert(request_bytes("GET", path, host).len() > 0) by {
                reveal_strlit(" ");
                assert(" "@ =~= seq![' ']);
                crate::text::lemma_encode_ascii(' ');
                assert(" ".spec_bytes().len() == 1);
            }
        }
        None
    } else {
        Some(n)
    }
}

/// Last position of `c` in `s`.
pub open spec fn rfind_char(s: Seq<char>, c: char) -> Option<int>
    decreases s.len(),
{
    if s.len() == 0 {
        None
    } else if s.last() == c {
        Some(s.len() - 1)
    } else {
        rfind_char(s.drop_last(), c)
    }
}

/// How the bare-metal runner reads its URL: `http://` only (HTTPS is
/// refused), the path from the first `/`, and a port after the last `:`
/// of the authority when it parses as a `u16` (else the whole authority is
/// the host, on port 80).
pub open spec fn bare_url(url: Seq<char>) -> Result<(Seq<char>, u16, Seq<char>), &'static str> {
    if has_prefix(url, seq!['h', 't', 't', 'p', 's', ':', '/', '/']) {
        Err("HTTPS not supported in bare-metal mode")
    } else if !has_prefix(url, seq!['h', 't', 't', 'p', ':', '/', '/']) {
        Err("Invalid URL scheme (must be http://)")
    } else {
        let rest = url.skip(7);
        let (auth, path) = match find(rest, seq!['/']) {
            Some(i) => (rest.take(i), rest.skip(i)),
            None => (rest, seq!['/']),
        };
        match rfind_char(auth, ':') {
            Some(j) => match u16_text(auth.skip(j + 1)) {
                Some(p) => Ok((auth.take(j), p, path)),
                None => Ok((auth, 80u16, path)),
            },
            None => Ok((auth, 80u16, path)),
        }
    }
}

fn rfind_in(cs: &Vec<char>, lo: usize, hi: usize, c: char) -> (r: Option<usize>)
    requires
        lo <= hi <= cs@.len(),
    ensures
        match r {
            Some(k) => lo <= k < hi && rfind_char(cs@.subrange(lo as int, hi as int), c) == Some(k - lo),
            None => rfind_char(cs@.subrange(lo as int, hi as int), c) is None,
        },
{
    let mut k = hi;
    while k > lo
        invariant
            lo <= k <= hi <= cs@.len(),
            rfind_char(cs@.subrange(lo as int, hi as int), c) == rfind_char(cs@.subrange(lo as int, k as int), c),
        decreases k - lo,
    {
        let ghost sub = cs@.subrange(lo as int, k as int);
        assert(sub.drop_last() =~= cs@.subrange(lo as int, k - 1));
        if cs[k - 1] == c {
            return Some(k - 1);
        }
        k -= 1;
    }
    None
}

/// Host, port and path of the bare-metal runner's URL; see `bare_url`.
#[verifier::spinoff_prover]
pub fn parse_bare_url(url: &str) -> (r: Result<(String, u16, String), &'static str>)
    ensures
        match bare_url(url@) {
            Ok((h, p, path)) => r matches Ok((rh, rp, rpath)) && rh@ == h && rp == p && rpath@ == path,
            Err(e) => r == Err::<(String, u16, String), &'static str>(e),
        },
{
    let cs = chars_of(url);
    let https: &[char] = &['h', 't', 't', 'p', 's', ':', '/', '/'];
    let http: &[char] = &['h', 't', 't', 'p', ':', '/', '/'];
    assert(https@ =~= seq!['h', 't', 't', 'p', 's', ':', '/', '/']);
    assert(http@ =~= seq!['h', 't', 't', 'p', ':', '/', '/']);
    if prefix_chars(&cs, https) {
        return Err("HTTPS not supported in bare-metal mode");
    }
    if !prefix_chars(&cs, http) {
        return Err("Invalid URL scheme (must be http://)");
    }
    let start: usize = 7;
    let ghost rest = url@.skip(7);
    let slash: Vec<char> = vec!['/'];
    assert(slash@ =~= seq!['/']);
    proof {
        crate::text::lemma_find_shift(url@, seq!['/'], 7);
        lemma_find_from_range(url@, seq!['/'], 7);
    }
    let (auth_end, path): (usize, String) = match find_exec(&cs, &slash, start) {
        Some(i) => {
            proof {
                let ff = find_from(url@, seq!['/'], 7);
                assert(cs@ == url@);
                assert(slash@ == seq!['/']);
                assert(find_from(cs@, slash@, start as int) == ff);
                assert(ff is Some);
                let kk = ff->0;
                assert(7 <= kk && kk + 1 <= url@.len());
                assert(url@.len() == cs.len());
                assert(kk < usize::MAX);
                assert((kk as usize) as int == kk);
                assert(i as int == kk);
                assert(rest.take(i - 7) =~= url@.subrange(7, i as int));
                assert(rest.skip(i - 7) =~= url@.subrange(i as int, url@.len() as int));
            }
            (i, substring(url, i, cs.len()))
        },
        None => {
            let p = String::from_str("/");
            proof {
                reveal_strlit("/");
                assert(rest =~= url@.subrange(7, url@.len() as int));
            }
            (cs.len(), p)
        },
    };
    let ghost auth = url@.subrange(7, auth_end as int);
    proof {
        assert(has_prefix(url@, seq!['h', 't', 't', 'p', ':', '/', '/']));
        assert(!has_prefix(url@, seq!['h', 't', 't', 'p', 's', ':', '/', '/']));
        let spec_pair: (Seq<char>, Seq<char>) = match find(rest, seq!['/']) {
            Some(i) => (rest.take(i), rest.skip(i)),
            None => (rest, seq!['/']),
        };
        assert(spec_pair.0 == auth);
        assert(spec_pair.1 == path@);
    }
    match rfind_in(&cs, start, auth_end, ':') {
        Some(j) => {
            let port_text = substring(url, j + 1, auth_end);
            proof {
                assert(cs@.subrange(7, auth_end as int) == auth);
                assert(rfind_char(auth, ':') == Some(j - 7));
                assert(auth.skip(j - 7 + 1) =~= url@.subrange(j + 1, auth_end as int));
                assert(auth.take(j - 7) =~= url@.subrange(7, j as int));
            }
            match parse_u16(port_text.as_str()) {
                Some(p) => Ok((substring(url, start, j), p, path)),
                None => Ok((substring(url, start, auth_end), 80, path)),
            }
        },
        None => {
            proof {
                assert(cs@.subrange(7, auth_end as int) == auth);
                assert(rfind_char(auth, ':') is None);
            }
            Ok((substring(url, start, auth_end), 80, path))
        },
    }
}

fn prefix_chars(cs: &Vec<char>, p: &[char]) -> (r: bool)
    ensures
        r == has_prefix(cs@, p@),
{
    if cs.len() < p.len() {
        return false;
    }
    let mut i: usize = 0;
    while i < p.len()
        invariant
            p.len() <= cs.len(),
            i <= p.len(),
            forall|k: int| 0 <= k < i ==> cs@[k] == p@[k],
        decreases p.len() - i,
    {
        if cs[i] != p[i] {
            assert(cs@.take(p@.len() as int)[i as int] != p@[i as int]);
            return false;
        }
        i += 1;
    }
    assert(cs@.take(p@.len() as int) =~= p@);
    true
}

/// Unit in which a length is shown.
#[derive(Debug, Clone, Copy, PartialEq, Eq, Structural)]
pub enum SizeUnit {
    Bytes,
    KB,
    MB,
    GB,
}

/// A length as shown in the log: whole GiB, MiB or KiB, or bytes.
pub fn human_size(len: u64) -> (r: (u64, SizeUnit))
    ensures
        r == (if len >= 0x4000_0000 {
            (len / 0x4000_0000, SizeUnit::GB)
        } else if len >= 0x10_0000 {
            (len / 0x10_0000, SizeUnit::MB)
        } else if len >= 1024 {
            (len / 1024, SizeUnit::KB)
        } else {
            (len, SizeUnit::Bytes)
        }),
{
    if len >= 0x4000_0000 {
        (len / 0x4000_0000, SizeUnit::GB)
    } else if len >= 0x10_0000 {
        (len / 0x10_0000, SizeUnit::MB)
    } else if len >= 1024 {
        (len / 1024, SizeUnit::KB)
    } else {
        (len, SizeUnit::Bytes)
    }
}

/// A character that does not occur has no last position.
proof fn lemma_rfind_absent(s: Seq<char>, c: char)
    requires
        forall|i: int| 0 <= i < s.len() ==> s[i] != c,
    ensures
        rfind_char(s, c) is None,
    decreases s.len(),
{
    if s.len() > 0 {
        assert(s.last() == s[s.len() - 1]);
        lemma_rfind_absent(s.drop_last(), c);
    }
}

/// For an `http://` URL the path is everything from the first `/` after
/// the scheme (`/` when there is none), whatever the authority holds; an
/// authority without `:` is the host, on port 80. `https://` is refused.
pub proof fn lemma_bare_url_parts(auth: Seq<char>, path: Seq<char>)
    requires
        forall|i: int| 0 <= i < auth.len() ==> auth[i] != '/',
        path.len() == 0 || path[0] == '/',
    ensures
        bare_url(http_prefix() + auth + path) matches Ok((h, p, q)) && q == (if path.len() == 0 {
            seq!['/']
        } else {
            path
        }),
        (forall|i: int| 0 <= i < auth.len() ==> auth[i] != ':') ==> bare_url(http_prefix() + auth + path)
            == Ok::<(Seq<char>, u16, Seq<char>), &'static str>(
            (
                auth,
                80u16,
                if path.len() == 0 {
                    seq!['/']
                } else {
                    path
                },
            ),
        ),
        bare_url(https_prefix() + auth + path) == Err::<(Seq<char>, u16, Seq<char>), &'static str>(
            "HTTPS not supported in bare-metal mode",
        ),
{
    let url = http_prefix() + auth + path;
    let rest = auth + path;
    assert(url[4] == ':');
    assert(!has_prefix(url, seq!['h', 't', 't', 'p', 's', ':', '/', '/'])) by {
        if url.len() >= 8 {
            assert(url.take(8)[4] == url[4]);
        }
    }
    assert(url.take(7) =~= seq!['h', 't', 't', 'p', ':', '/', '/']);
    assert(url.skip(7) =~= rest);
    if path.len() == 0 {
        assert(rest =~= auth);
        lemma_find_char_absent(rest, '/');
    } else {
        assert(rest[auth.len() as int] == '/');
        assert forall|j: int| 0 <= j < auth.len() implies rest[j] != '/' by {
            assert(rest[j] == auth[j]);
        }
        lemma_find_char_first(rest, '/', auth.len() as int);
        assert(rest.take(auth.len() as int) =~= auth);
        assert(rest.skip(auth.len() as int) =~= path);
    }
    if forall|i: int| 0 <= i < auth.len() ==> auth[i] != ':' {
        lemma_rfind_absent(auth, ':');
    }
    let surl = https_prefix() + auth + path;
    assert(surl.take(8) =~= seq!['h', 't', 't', 'p', 's', ':', '/', '/']);
}

} // verus!
