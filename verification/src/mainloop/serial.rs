//! Serial console text: the bytes that go out on COM1.
//!
//! Each function appends the bytes it prints to an output buffer; the
//! platform layer drains that buffer to the UART.

use vstd::prelude::*;
use vstd::string::StringSliceAdditionalSpecFns;

verus! {

/// Lower-case hexadecimal digit for `n` (0..16).
pub open spec fn nibble_char(n: int) -> u8 {
    if n < 10 {
        (48 + n) as u8
    } else {
        (97 + n - 10) as u8
    }
}

/// Two lower-case hex digits of a byte, high nibble first.
pub open spec fn hex_byte_text(v: u8) -> Seq<u8> {
    seq![nibble_char((v / 16) as int), nibble_char((v % 16) as int)]
}

/// Nibble `i` of `v`, counted from the most significant (i = 0) to the
/// least significant (i = 15).
pub open spec fn nibble_of(v: u64, i: int) -> int {
    ((v >> ((60 - 4 * i) as u64)) & 0xF) as int
}

/// `0x` and the sixteen hex digits of `v`, most significant first.
pub open spec fn hex64_text(v: u64) -> Seq<u8> {
    seq![48u8, 120u8] + Seq::new(16, |i: int| nibble_char(nibble_of(v, i)))
}

/// Decimal digits of `n` as ASCII bytes, without leading zeros.
pub open spec fn decimal_bytes(n: nat) -> Seq<u8>
    decreases n,
{
    if n < 10 {
        seq![(n + 48) as u8]
    } else {
        decimal_bytes(n / 10).push(((n % 10) + 48) as u8)
    }
}

/// The bytes of `s` as hex byte pairs separated by `:`.
pub open spec fn hex_joined(s: Seq<u8>) -> Seq<u8>
    decreases s.len(),
{
    if s.len() == 0 {
        Seq::empty()
    } else if s.len() == 1 {
        hex_byte_text(s[0])
    } else {
        hex_joined(s.drop_last()) + seq![58u8] + hex_byte_text(s.last())
    }
}

/// The bytes of `s` in decimal, separated by `.`.
pub open spec fn decimal_joined(s: Seq<u8>) -> Seq<u8>
    decreases s.len(),
{
    if s.len() == 0 {
        Seq::empty()
    } else if s.len() == 1 {
        decimal_bytes(s[0] as nat)
    } else {
        decimal_joined(s.drop_last()) + seq![46u8] + decimal_bytes(s.last() as nat)
    }
}

/// Carriage return and line feed.
pub open spec fn crlf_bytes() -> Seq<u8> {
    seq![13u8, 10u8]
}

/// Appends `bytes` to `out`.
pub fn push_bytes(out: &mut Vec<u8>, bytes: &[u8])
    ensures
        final(out)@ == old(out)@ + bytes@,
{
    let mut i: usize = 0;
    while i < bytes.len()
        invariant
            i <= bytes@.len(),
            out@ == old(out)@ + bytes@.take(i as int),
        decreases bytes.len() - i,
    {
        out.push(bytes[i]);
        i += 1;
        assert(out@ =~= old(out)@ + bytes@.take(i as int));
    }
    assert(bytes@.take(bytes@.len() as int) =~= bytes@);
}

/// Write a single byte.
pub fn write_byte(out: &mut Vec<u8>, byte: u8)
    ensures
        final(out)@ == old(out)@.push(byte),
{
    out.push(byte);
}

/// Write a string.
pub fn print(out: &mut Vec<u8>, s: &str)
    ensures
        final(out)@ == old(out)@ + s.spec_bytes(),
{
    push_bytes(out, s.as_bytes());
}

/// Write a string with newline (`\r\n`).
pub fn println(out: &mut Vec<u8>, s: &str)
    ensures
        final(out)@ == old(out)@ + s.spec_bytes() + crlf_bytes(),
{
    print(out, s);
    out.push(13u8);
    out.push(10u8);
    assert(out@ =~= old(out)@ + s.spec_bytes() + crlf_bytes());
}

/// Hex digit byte for a nibble.
fn nibble_byte(n: u8) -> (r: u8)
    requires
        n < 16,
    ensures
        r == nibble_char(n as int),
{
    if n < 10 {
        48u8 + n
    } else {
        97u8 + n - 10
    }
}

/// Print a byte as two hex digits.
pub fn print_hex_byte(out: &mut Vec<u8>, value: u8)
    ensures
        final(out)@ == old(out)@ + hex_byte_text(value),
{
    let hi = value >> 4u8;
    let lo = value & 0xF;
    assert(hi == value / 16 && lo == value % 16) by (bit_vector)
        requires
            hi == value >> 4u8,
            lo == value & 0xF,
    ;
    out.push(nibble_byte(hi));
    out.push(nibble_byte(lo));
    assert(out@ =~= old(out)@ + hex_byte_text(value));
}

/// Print a u64 as `0x` and sixteen hex digits.
pub fn print_hex(out: &mut Vec<u8>, value: u64)
    ensures
        final(out)@ == old(out)@ + hex64_text(value),
{
    out.push(48u8);
    out.push(120u8);
    let ghost start = out@;
    let mut i: usize = 0;
    while i < 16
        invariant
            i <= 16,
            out@ == start + Seq::new(i as nat, |k: int| nibble_char(nibble_of(value, k))),
        decreases 16 - i,
    {
        let shift: u64 = (60 - 4 * i) as u64;
        let nibble = ((value >> shift) & 0xF) as u8;
        assert(((value >> shift) & 0xF) < 16) by (bit_vector);
        assert(nibble as int == nibble_of(value, i as int));
        out.push(nibble_byte(nibble));
        i += 1;
        assert(out@ =~= start + Seq::new(i as nat, |k: int| nibble_char(nibble_of(value, k))));
    }
    assert(out@ =~= old(out)@ + hex64_text(value));
}

/// Appends the decimal digits of `n`.
fn push_decimal_bytes(out: &mut Vec<u8>, n: u64)
    ensures
        final(out)@ == old(out)@ + decimal_bytes(n as nat),
    decreases n,
{
    if n >= 10 {
        push_decimal_bytes(out, n / 10);
    }
    out.push((n % 10) as u8 + 48u8);
    assert(out@ =~= old(out)@ + decimal_bytes(n as nat));
}

/// Print a u32 in decimal.
pub fn print_u32(out: &mut Vec<u8>, value: u32)
    ensures
        final(out)@ == old(out)@ + decimal_bytes(value as nat),
{
    push_decimal_bytes(out, value as u64);
}

/// Print MAC address in xx:xx:xx:xx:xx:xx format.
pub fn print_mac(out: &mut Vec<u8>, mac: &[u8; 6])
    ensures
        final(out)@ == old(out)@ + hex_joined(mac@),
{
    let mut i: usize = 0;
    while i < 6
        invariant
            i <= 6,
            mac@.len() == 6,
            out@ == old(out)@ + hex_joined(mac@.take(i as int)),
        decreases 6 - i,
    {
        let ghost before = out@;
        if i > 0 {
            out.push(58u8);
        }
        print_hex_byte(out, mac[i]);
        proof {
            let t = mac@.take(i + 1);
            assert(t.drop_last() =~= mac@.take(i as int));
            assert(t.last() == mac@[i as int]);
            if i == 0 {
                assert(mac@.take(0) =~= Seq::<u8>::empty());
                assert(hex_joined(Seq::<u8>::empty()) =~= Seq::<u8>::empty());
            }
        }
        i += 1;
        assert(out@ =~= old(out)@ + hex_joined(mac@.take(i as int)));
    }
    assert(mac@.take(6) =~= mac@);
}

/// Print IPv4 address in dotted decimal.
pub fn print_ipv4(out: &mut Vec<u8>, octets: &[u8; 4])
    ensures
        final(out)@ == old(out)@ + decimal_joined(octets@),
{
    let mut i: usize = 0;
    while i < 4
        invariant
            i <= 4,
            octets@.len() == 4,
            out@ == old(out)@ + decimal_joined(octets@.take(i as int)),
        decreases 4 - i,
    {
        if i > 0 {
            out.push(46u8);
        }
        print_u32(out, octets[i] as u32);
        proof {
            let t = octets@.take(i + 1);
            assert(t.drop_last() =~= octets@.take(i as int));
            assert(t.last() == octets@[i as int]);
            if i == 0 {
                assert(octets@.take(0) =~= Seq::<u8>::empty());
                assert(decimal_joined(Seq::<u8>::empty()) =~= Seq::<u8>::empty());
            }
        }
        i += 1;
        assert(out@ =~= old(out)@ + decimal_joined(octets@.take(i as int)));
    }
    assert(octets@.take(4) =~= octets@);
}

} // verus!
