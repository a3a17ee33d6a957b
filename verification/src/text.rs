//! Character-level text primitives shared by the HTTP layer: ASCII
//! case-insensitive comparison, Unicode whitespace trimming, substring search,
//! decimal parsing and formatting, and the UTF-8 length facts that relate
//! character positions to byte offsets.

use vstd::prelude::*;
use vstd::utf8::*;
use vstd::string::StringSliceAdditionalSpecFns;

verus! {

// ───────────────────────────── specifications ─────────────────────────────

/// Code point of `c` with ASCII upper-case letters folded to lower case.
pub open spec fn fold_code(c: char) -> u32 {
    let x = c as u32;
    if 65 <= x && x <= 90 { (x + 32) as u32 } else { x }
}

/// `a` and `b` are equal when ASCII letters are compared without case.
pub open spec fn eq_ignore_case(a: Seq<char>, b: Seq<char>) -> bool {
    &&& a.len() == b.len()
    &&& forall|i: int| 0 <= i < a.len() ==> #[trigger] fold_code(a[i]) == fold_code(b[i])
}

/// Unicode `White_Space` property, the set that `char::is_whitespace` tests.
pub open spec fn is_ws(c: char) -> bool {
    let x = c as u32;
    (9 <= x && x <= 13) || x == 32 || x == 0x85 || x == 0xA0 || x == 0x1680 || (0x2000 <= x
        && x <= 0x200A) || x == 0x2028 || x == 0x2029 || x == 0x202F || x == 0x205F || x == 0x3000
}

/// `s` without its leading whitespace.
pub open spec fn trim_start(s: Seq<char>) -> Seq<char>
    decreases s.len(),
{
    if s.len() > 0 && is_ws(s[0]) {
        trim_start(s.drop_first())
    } else {
        s
    }
}

/// `s` without its trailing whitespace.
pub open spec fn trim_end(s: Seq<char>) -> Seq<char>
    decreases s.len(),
{
    if s.len() > 0 && is_ws(s.last()) {
        trim_end(s.drop_last())
    } else {
        s
    }
}

/// `s` without leading and trailing whitespace (what `str::trim` returns).
pub open spec fn trim(s: Seq<char>) -> Seq<char> {
    trim_end(trim_start(s))
}

/// `p` occurs in `s` at position `i`.
pub open spec fn occurs_at(s: Seq<char>, p: Seq<char>, i: int) -> bool {
    0 <= i && i + p.len() <= s.len() && s.subrange(i, i + p.len()) == p
}

/// First position at or after `i` where `p` occurs in `s`.
pub open spec fn find_from(s: Seq<char>, p: Seq<char>, i: int) -> Option<int>
    decreases s.len() + 1 - i,
{
    if i < 0 || i + p.len() > s.len() {
        None
    } else if occurs_at(s, p, i) {
        Some(i)
    } else {
        find_from(s, p, i + 1)
    }
}

/// First position of `p` in `s` (what `str::find` locates, counted in characters).
pub open spec fn find(s: Seq<char>, p: Seq<char>) -> Option<int> {
    find_from(s, p, 0)
}

/// `find_from` gives the first occurrence at or after `i`, if any.
pub proof fn lemma_find_from_range(s: Seq<char>, p: Seq<char>, i: int)
    requires
        0 <= i,
    ensures
        match find_from(s, p, i) {
            Some(k) => {
                &&& i <= k
                &&& k + p.len() <= s.len()
                &&& occurs_at(s, p, k)
                &&& forall|j: int| i <= j < k ==> !#[trigger] occurs_at(s, p, j)
            },
            None => forall|j: int| i <= j ==> !#[trigger] occurs_at(s, p, j),
        },
    decreases s.len() + 1 - i,
{
    if i + p.len() > s.len() {
    } else if !occurs_at(s, p, i) {
        lemma_find_from_range(s, p, i + 1);
    }
}

pub open spec fn crlf() -> Seq<char> {
    seq!['\r', '\n']
}

pub open spec fn is_digit(c: char) -> bool {
    48 <= (c as u32) && (c as u32) <= 57
}

pub open spec fn digit_value(c: char) -> int {
    (c as u32) - 48
}

/// Value of a sequence of decimal digits.
pub open spec fn digits_value(s: Seq<char>) -> int
    decreases s.len(),
{
    if s.len() == 0 {
        0
    } else {
        digits_value(s.drop_last()) * 10 + digit_value(s.last())
    }
}

pub open spec fn all_digits(s: Seq<char>) -> bool {
    forall|i: int| 0 <= i < s.len() ==> #[trigger] is_digit(s[i])
}

/// What `str::parse` gives for an unsigned integer type whose largest value
/// is `max`: an optional `+`, then at least one ASCII digit, nothing else,
/// and a value that fits.
pub open spec fn parse_unsigned(s: Seq<char>, max: int) -> Option<int> {
    let d = if s.len() > 0 && s[0] == '+' { s.drop_first() } else { s };
    if d.len() > 0 && all_digits(d) && digits_value(d) <= max {
        Some(digits_value(d))
    } else {
        None
    }
}

pub open spec fn digit_char(d: nat) -> char {
    ((d + 48) as u32) as char
}

/// Decimal representation of `n`, without leading zeros.
pub open spec fn decimal(n: nat) -> Seq<char>
    decreases n,
{
    if n < 10 {
        seq![digit_char(n)]
    } else {
        decimal(n / 10).push(digit_char(n % 10))
    }
}

/// Number of bytes in the UTF-8 encoding of `s`.
pub open spec fn utf8_len(s: Seq<char>) -> nat {
    encode_utf8(s).len()
}

// ───────────────────────────────── lemmas ─────────────────────────────────

pub proof fn lemma_encode_concat(a: Seq<char>, b: Seq<char>)
    ensures
        encode_utf8(a + b) == encode_utf8(a) + encode_utf8(b),
    decreases a.len(),
{
    if a.len() == 0 {
        assert(a + b =~= b);
        assert(encode_utf8(a) =~= Seq::<u8>::empty());
        assert(encode_utf8(a) + encode_utf8(b) =~= encode_utf8(b));
    } else {
        assert((a + b).drop_first() =~= a.drop_first() + b);
        assert((a + b)[0] == a[0]);
        lemma_encode_concat(a.drop_first(), b);
        assert(encode_utf8(a + b) =~= encode_scalar(a[0] as u32) + encode_utf8(a.drop_first() + b));
        assert(encode_utf8(a + b) =~= encode_utf8(a) + encode_utf8(b));
    }
}

pub proof fn lemma_utf8_len_concat(a: Seq<char>, b: Seq<char>)
    ensures
        utf8_len(a + b) == utf8_len(a) + utf8_len(b),
{
    lemma_encode_concat(a, b);
}

/// An ASCII character encodes as one byte, its code.
pub proof fn lemma_encode_ascii(c: char)
    requires
        (c as u32) < 128,
    ensures
        encode_utf8(seq![c]) == seq![(c as u32) as u8],
{
    let s = seq![c];
    assert(s.drop_first() =~= Seq::<char>::empty());
    assert(encode_utf8(s.drop_first()) =~= Seq::<u8>::empty());
    assert(has_width_1_encoding(c as u32));
    let x = c as u32;
    assert(leading_byte_width_1(x) == x as u8) by (bit_vector)
        requires
            x < 128,
    ;
    assert(encode_utf8(s) =~= encode_scalar(c as u32) + Seq::<u8>::empty());
}

pub proof fn lemma_utf8_len_crlf()
    ensures
        utf8_len(crlf()) == 2,
{
    let r = seq!['\r'];
    let n = seq!['\n'];
    assert(crlf() =~= r + n);
    lemma_utf8_len_concat(r, n);
    lemma_encode_ascii('\r');
    lemma_encode_ascii('\n');
}

/// The byte length of a prefix is at most that of the whole.
pub proof fn lemma_utf8_len_prefix(s: Seq<char>, i: int)
    requires
        0 <= i <= s.len(),
    ensures
        utf8_len(s.take(i)) <= utf8_len(s),
        utf8_len(s) == utf8_len(s.take(i)) + utf8_len(s.skip(i)),
{
    assert(s =~= s.take(i) + s.skip(i));
    lemma_utf8_len_concat(s.take(i), s.skip(i));
}

pub proof fn lemma_trim_start_skip(s: Seq<char>, lo: int, hi: int)
    requires
        0 <= lo < hi <= s.len(),
        is_ws(s[lo]),
    ensures
        trim_start(s.subrange(lo, hi)) == trim_start(s.subrange(lo + 1, hi)),
{
    assert(s.subrange(lo, hi).drop_first() =~= s.subrange(lo + 1, hi));
}

pub proof fn lemma_trim_end_skip(s: Seq<char>, lo: int, hi: int)
    requires
        0 <= lo < hi <= s.len(),
        is_ws(s[hi - 1]),
    ensures
        trim_end(s.subrange(lo, hi)) == trim_end(s.subrange(lo, hi - 1)),
{
    assert(s.subrange(lo, hi).drop_last() =~= s.subrange(lo, hi - 1));
}

pub proof fn lemma_digits_value_monotone(s: Seq<char>, i: int)
    requires
        0 <= i <= s.len(),
        all_digits(s),
    ensures
        digits_value(s.take(i)) <= digits_value(s),
    decreases s.len() - i,
{
    if i < s.len() {
        lemma_digits_value_monotone(s, i + 1);
        assert(s.take(i + 1).drop_last() =~= s.take(i));
        assert(is_digit(s[i]));
        assert(digits_value(s.take(i + 1)) == digits_value(s.take(i)) * 10 + digit_value(s[i]));
        assert(digits_value(s.take(i)) >= 0) by {
            lemma_digits_value_nonneg(s.take(i));
        }
    } else {
        assert(s.take(i) =~= s);
    }
}

pub proof fn lemma_digits_value_nonneg(s: Seq<char>)
    requires
        all_digits(s),
    ensures
        digits_value(s) >= 0,
    decreases s.len(),
{
    if s.len() > 0 {
        assert(all_digits(s.drop_last())) by {
            assert forall|i: int| 0 <= i < s.drop_last().len() implies #[trigger] is_digit(
                s.drop_last()[i],
            ) by {
                assert(is_digit(s[i]));
            }
        }
        lemma_digits_value_nonneg(s.drop_last());
        assert(is_digit(s[s.len() - 1]));
    }
}

/// A parsed number lies between zero and the bound.
pub proof fn lemma_parse_unsigned_bounds(s: Seq<char>, max: int)
    ensures
        parse_unsigned(s, max) matches Some(v) ==> 0 <= v <= max,
{
    let d = if s.len() > 0 && s[0] == '+' { s.drop_first() } else { s };
    if all_digits(d) {
        lemma_digits_value_nonneg(d);
    }
}

/// `decimal(n)` is made of digits, does not start with `+`, and reads back as `n`.
pub proof fn lemma_decimal_digits(n: nat)
    ensures
        decimal(n).len() > 0,
        all_digits(decimal(n)),
        digits_value(decimal(n)) == n,
        decimal(n)[0] != '+',
    decreases n,
{
    if n < 10 {
        assert(decimal(n) =~= seq![digit_char(n)]);
        assert(digit_char(n) as u32 == n + 48);
        assert(decimal(n).drop_last() =~= Seq::<char>::empty());
        assert(digits_value(decimal(n)) == digits_value(decimal(n).drop_last()) * 10 + digit_value(decimal(n).last()));
    } else {
        lemma_decimal_digits(n / 10);
        let d = decimal(n);
        assert(d.drop_last() =~= decimal(n / 10));
        assert(digit_char(n % 10) as u32 == n % 10 + 48);
        assert(digits_value(d) == digits_value(d.drop_last()) * 10 + digit_value(d.last()));
        assert forall|i: int| 0 <= i < d.len() implies #[trigger] is_digit(d[i]) by {
            if i < d.len() - 1 {
                assert(d[i] == decimal(n / 10)[i]);
            }
        }
        assert(d[0] == decimal(n / 10)[0]);
    }
}

/// Formatting then parsing gives the number back.
pub proof fn lemma_parse_decimal(n: nat, max: int)
    requires
        n <= max,
    ensures
        parse_unsigned(decimal(n), max) == Some(n as int),
{
    lemma_decimal_digits(n);
}

/// Searching a suffix finds the same occurrence, shifted.
pub proof fn lemma_find_shift(s: Seq<char>, p: Seq<char>, start: int)
    requires
        0 <= start <= s.len(),
    ensures
        match find_from(s, p, start) {
            Some(k) => find(s.skip(start), p) == Some(k - start) && start <= k,
            None => find(s.skip(start), p) is None,
        },
{
    lemma_find_shift_from(s, p, start, start);
}

pub proof fn lemma_find_shift_from(s: Seq<char>, p: Seq<char>, start: int, i: int)
    requires
        0 <= start <= i,
        start <= s.len(),
    ensures
        match find_from(s, p, i) {
            Some(k) => find_from(s.skip(start), p, i - start) == Some(k - start) && i <= k,
            None => find_from(s.skip(start), p, i - start) is None,
        },
    decreases s.len() + 1 - i,
{
    let t = s.skip(start);
    if i + p.len() > s.len() {
    } else {
        assert(t.subrange(i - start, i - start + p.len()) =~= s.subrange(i, i + p.len()));
        if !occurs_at(s, p, i) {
            lemma_find_shift_from(s, p, start, i + 1);
        }
    }
}

/// Searching a prefix of the text sees the same occurrences that lie inside it.
pub proof fn lemma_find_bounded(s: Seq<char>, p: Seq<char>, lo: int, hi: int)
    requires
        0 <= lo <= hi <= s.len(),
    ensures
        match find_from(s, p, lo) {
            Some(k) => if k + p.len() <= hi {
                find(s.subrange(lo, hi), p) == Some(k - lo)
            } else {
                find(s.subrange(lo, hi), p) is None
            },
            None => find(s.subrange(lo, hi), p) is None,
        },
{
    lemma_find_bounded_from(s, p, lo, hi, lo);
}

pub proof fn lemma_find_bounded_from(s: Seq<char>, p: Seq<char>, lo: int, hi: int, i: int)
    requires
        0 <= lo <= i,
        lo <= hi <= s.len(),
    ensures
        match find_from(s, p, i) {
            Some(k) => if k + p.len() <= hi {
                find_from(s.subrange(lo, hi), p, i - lo) == Some(k - lo)
            } else {
                find_from(s.subrange(lo, hi), p, i - lo) is None
            },
            None => find_from(s.subrange(lo, hi), p, i - lo) is None,
        },
    decreases s.len() + 1 - i,
{
    let t = s.subrange(lo, hi);
    if i + p.len() > s.len() {
    } else {
        if i + p.len() <= hi {
            assert(t.subrange(i - lo, i - lo + p.len()) =~= s.subrange(i, i + p.len()));
        }
        if !occurs_at(s, p, i) {
            lemma_find_bounded_from(s, p, lo, hi, i + 1);
        } else {
            if i + p.len() > hi {
                lemma_find_none_past(t, p, i - lo);
            }
        }
    }
}

/// No occurrence can start where the pattern would run past the end.
pub proof fn lemma_find_none_past(t: Seq<char>, p: Seq<char>, j: int)
    requires
        j + p.len() > t.len(),
    ensures
        find_from(t, p, j) is None,
{
}

/// The `sep`-separated pieces of `s` (one empty piece for an empty `s`).
pub open spec fn split_on(s: Seq<char>, sep: char) -> Seq<Seq<char>>
    decreases s.len(),
{
    if s.len() == 0 {
        seq![Seq::empty()]
    } else if s.last() == sep {
        split_on(s.drop_last(), sep).push(Seq::empty())
    } else {
        let f = split_on(s.drop_last(), sep);
        f.update(f.len() - 1, f.last().push(s.last()))
    }
}

pub proof fn lemma_split_nonempty(s: Seq<char>, sep: char)
    ensures
        split_on(s, sep).len() >= 1,
    decreases s.len(),
{
    if s.len() > 0 {
        lemma_split_nonempty(s.drop_last(), sep);
    }
}

// ─────────────────────────────── executables ───────────────────────────────

/// The characters of `s`, in order.
pub fn chars_of(s: &str) -> (v: Vec<char>)
    ensures
        v@ == s@,
{
    let mut v: Vec<char> = Vec::new();
    for c in it: s.chars()
        invariant
            v@ == it.seq().take(it.index() as int),
            it.seq() == s@,
    {
        v.push(c);
    }
    v
}

/// `fold_code` computed.
pub fn fold(c: char) -> (r: u32)
    ensures
        r == fold_code(c),
{
    let x = c as u32;
    if 65 <= x && x <= 90 {
        x + 32
    } else {
        x
    }
}

/// ASCII case-insensitive equality of two character sequences.
pub fn chars_eq_ignore_case(a: &Vec<char>, b: &Vec<char>) -> (r: bool)
    ensures
        r == eq_ignore_case(a@, b@),
{
    if a.len() != b.len() {
        return false;
    }
    let mut i: usize = 0;
    while i < a.len()
        invariant
            a.len() == b.len(),
            i <= a.len(),
            forall|j: int| 0 <= j < i ==> #[trigger] fold_code(a@[j]) == fold_code(b@[j]),
        decreases a.len() - i,
    {
        if fold(a[i]) != fold(b[i]) {
            return false;
        }
        i += 1;
    }
    true
}

/// ASCII case-insensitive equality of two strings (`str::eq_ignore_ascii_case`).
pub fn str_eq_ignore_case(a: &str, b: &str) -> (r: bool)
    ensures
        r == eq_ignore_case(a@, b@),
{
    let va = chars_of(a);
    let vb = chars_of(b);
    chars_eq_ignore_case(&va, &vb)
}

/// `is_ws` computed.
pub fn char_is_ws(c: char) -> (r: bool)
    ensures
        r == is_ws(c),
{
    let x = c as u32;
    (9 <= x && x <= 13) || x == 32 || x == 0x85 || x == 0xA0 || x == 0x1680 || (0x2000 <= x && x
        <= 0x200A) || x == 0x2028 || x == 0x2029 || x == 0x202F || x == 0x205F || x == 0x3000
}

/// Bounds of `trim(cs[lo..hi])` inside `cs`.
pub fn trim_bounds(cs: &Vec<char>, lo: usize, hi: usize) -> (r: (usize, usize))
    requires
        lo <= hi <= cs.len(),
    ensures
        lo <= r.0 <= r.1 <= hi,
        cs@.subrange(r.0 as int, r.1 as int) == trim(cs@.subrange(lo as int, hi as int)),
{
    let mut a = lo;
    while a < hi && char_is_ws(cs[a])
        invariant
            lo <= a <= hi <= cs.len(),
            trim_start(cs@.subrange(lo as int, hi as int)) == trim_start(
                cs@.subrange(a as int, hi as int),
            ),
        decreases hi - a,
    {
        proof {
            lemma_trim_start_skip(cs@, a as int, hi as int);
        }
        a += 1;
    }
    assert(trim_start(cs@.subrange(a as int, hi as int)) == cs@.subrange(a as int, hi as int));
    let mut b = hi;
    while b > a && char_is_ws(cs[b - 1])
        invariant
            lo <= a <= b <= hi <= cs.len(),
            trim_end(cs@.subrange(a as int, hi as int)) == trim_end(
                cs@.subrange(a as int, b as int),
            ),
        decreases b - a,
    {
        proof {
            lemma_trim_end_skip(cs@, a as int, b as int);
        }
        b -= 1;
    }
    assert(trim_end(cs@.subrange(a as int, b as int)) == cs@.subrange(a as int, b as int));
    (a, b)
}

/// `p` occurs in `cs` at `i`, checked.
pub fn occurs_at_exec(cs: &Vec<char>, p: &Vec<char>, i: usize) -> (r: bool)
    ensures
        r == occurs_at(cs@, p@, i as int),
{
    if i > cs.len() || p.len() > cs.len() - i {
        return false;
    }
    let mut k: usize = 0;
    while k < p.len()
        invariant
            i + p.len() <= cs.len(),
            k <= p.len(),
            forall|j: int| 0 <= j < k ==> cs@[i + j] == #[trigger] p@[j],
        decreases p.len() - k,
    {
        if cs[i + k] != p[k] {
            assert(cs@.subrange(i as int, i + p.len())[k as int] != p@[k as int]);
            return false;
        }
        k += 1;
    }
    assert(cs@.subrange(i as int, i + p.len()) =~= p@);
    true
}

/// First occurrence of `p` in `cs` at or after `from` (`find_from`).
pub fn find_exec(cs: &Vec<char>, p: &Vec<char>, from: usize) -> (r: Option<usize>)
    ensures
        match find_from(cs@, p@, from as int) {
            Some(k) => r == Some(k as usize),
            None => r is None,
        },
{
    let mut i = from;
    while i <= cs.len() && p.len() <= cs.len() - i
        invariant
            from <= i,
            find_from(cs@, p@, from as int) == find_from(cs@, p@, i as int),
        decreases cs.len() + 1 - i,
    {
        if occurs_at_exec(cs, p, i) {
            return Some(i);
        }
        if i == cs.len() {
            assert(find_from(cs@, p@, i + 1) is None);
            return None;
        }
        i += 1;
    }
    None
}

/// `parse_unsigned` computed over `cs[lo..hi]`.
pub fn parse_unsigned_exec(cs: &Vec<char>, lo: usize, hi: usize, max: u64) -> (r: Option<u64>)
    requires
        lo <= hi <= cs.len(),
    ensures
        match parse_unsigned(cs@.subrange(lo as int, hi as int), max as int) {
            Some(v) => r == Some(v as u64),
            None => r is None,
        },
        r matches Some(v) ==> v <= max && parse_unsigned(cs@.subrange(lo as int, hi as int), max as int)
            == Some(v as int),
{
    let ghost s = cs@.subrange(lo as int, hi as int);
    let mut start = lo;
    if lo < hi && cs[lo] == '+' {
        start = lo + 1;
    }
    let ghost d = cs@.subrange(start as int, hi as int);
    assert(d =~= (if s.len() > 0 && s[0] == '+' { s.drop_first() } else { s }));
    if start == hi {
        return None;
    }
    let mut acc: u64 = 0;
    let mut i = start;
    while i < hi
        invariant
            start <= i <= hi <= cs.len(),
            d == cs@.subrange(start as int, hi as int),
            s == cs@.subrange(lo as int, hi as int),
            d == (if s.len() > 0 && s[0] == '+' { s.drop_first() } else { s }),
            d.len() > 0,
            acc == digits_value(d.take(i - start)),
            acc <= max,
            all_digits(d.take(i - start)),
        decreases hi - i,
    {
        let c = cs[i];
        let x = c as u32;
        assert(d[i - start] == c);
        if !(48 <= x && x <= 57) {
            assert(!is_digit(d[i - start]));
            return None;
        }
        let dv = (x - 48) as u64;
        assert(d.take(i - start + 1).drop_last() =~= d.take(i - start));
        if dv > max || acc > (max - dv) / 10 {
            proof {
                if dv <= max {
                    assert(acc * 10 + dv > max) by (nonlinear_arith)
                        requires
                            acc > (max - dv) / 10,
                            dv <= max,
                    ;
                }
                assert(all_digits(d.take(i - start + 1))) by {
                    assert forall|j: int| 0 <= j < i - start + 1 implies #[trigger] is_digit(
                        d.take(i - start + 1)[j],
                    ) by {
                        if j < i - start {
                            assert(is_digit(d.take(i - start)[j]));
                        }
                    }
                }
                if all_digits(d) {
                    lemma_digits_value_monotone(d, i - start + 1);
                }
            }
            return None;
        }
        proof {
            assert(acc * 10 + dv <= max) by (nonlinear_arith)
                requires
                    acc <= (max - dv) / 10,
                    dv <= max,
            ;
            assert(all_digits(d.take(i - start + 1))) by {
                assert forall|j: int| 0 <= j < i - start + 1 implies #[trigger] is_digit(
                    d.take(i - start + 1)[j],
                ) by {
                    if j < i - start {
                        assert(is_digit(d.take(i - start)[j]));
                    }
                }
            }
        }
        acc = acc * 10 + dv;
        i += 1;
    }
    assert(d.take(hi - start) =~= d);
    Some(acc)
}

/// One-character string of the decimal digit `d`.
pub fn digit_str(d: u64) -> (s: &'static str)
    requires
        d < 10,
    ensures
        s@ == seq![digit_char(d as nat)],
{
    proof {
        assert(digit_char(0) == '0');
        assert(digit_char(1) == '1');
        assert(digit_char(2) == '2');
        assert(digit_char(3) == '3');
        assert(digit_char(4) == '4');
        assert(digit_char(5) == '5');
        assert(digit_char(6) == '6');
        assert(digit_char(7) == '7');
        assert(digit_char(8) == '8');
        assert(digit_char(9) == '9');
    }
    if d == 0 {
        proof { reveal_strlit("0"); }
        "0"
    } else if d == 1 {
        proof { reveal_strlit("1"); }
        "1"
    } else if d == 2 {
        proof { reveal_strlit("2"); }
        "2"
    } else if d == 3 {
        proof { reveal_strlit("3"); }
        "3"
    } else if d == 4 {
        proof { reveal_strlit("4"); }
        "4"
    } else if d == 5 {
        proof { reveal_strlit("5"); }
        "5"
    } else if d == 6 {
        proof { reveal_strlit("6"); }
        "6"
    } else if d == 7 {
        proof { reveal_strlit("7"); }
        "7"
    } else if d == 8 {
        proof { reveal_strlit("8"); }
        "8"
    } else {
        proof { reveal_strlit("9"); }
        "9"
    }
}

/// Appends the decimal representation of `n` to `s`.
pub fn push_decimal(s: &mut String, n: u64)
    ensures
        final(s)@ == old(s)@ + decimal(n as nat),
    decreases n,
{
    if n >= 10 {
        push_decimal(s, n / 10);
    }
    s.append(digit_str(n % 10));
    proof {
        if n >= 10 {
            assert(decimal(n as nat) =~= decimal((n / 10) as nat).push(digit_char((n % 10) as nat)));
        } else {
            assert(decimal(n as nat) =~= seq![digit_char(n as nat)]);
        }
        assert(s@ =~= old(s)@ + decimal(n as nat));
    }
}

/// Decimal representation of `n` as a new string.
pub fn decimal_string(n: u64) -> (s: String)
    ensures
        s@ == decimal(n as nat),
{
    let mut s = String::new();
    push_decimal(&mut s, n);
    assert(s@ =~= decimal(n as nat));
    s
}

/// Owned copy of `s[lo..hi]`, counted in characters.
pub fn substring(s: &str, lo: usize, hi: usize) -> (r: String)
    requires
        lo <= hi <= s@.len(),
    ensures
        r@ == s@.subrange(lo as int, hi as int),
{
    s.substring_char(lo, hi).to_owned()
}

/// Number of UTF-8 bytes of `s[lo..hi]`.
pub fn utf8_len_of(s: &str, lo: usize, hi: usize) -> (r: usize)
    requires
        lo <= hi <= s@.len(),
    ensures
        r == utf8_len(s@.subrange(lo as int, hi as int)),
{
    let t = s.substring_char(lo, hi);
    t.as_bytes().len()
}

/// The `sep`-separated pieces of `cs`; see `split_on`.
pub fn split_chars(cs: &Vec<char>, sep: char) -> (r: Vec<Vec<char>>)
    ensures
        r@.len() == split_on(cs@, sep).len(),
        forall|i: int| 0 <= i < r@.len() ==> #[trigger] r@[i]@ == split_on(cs@, sep)[i],
{
    let ghost t = cs@;
    let mut done: Vec<Vec<char>> = Vec::new();
    let mut cur: Vec<char> = Vec::new();
    let mut k: usize = 0;
    assert(t.take(0) =~= Seq::<char>::empty());
    while k < cs.len()
        invariant
            cs@ == t,
            k <= t.len(),
            done@.len() + 1 == split_on(t.take(k as int), sep).len(),
            forall|i: int| 0 <= i < done@.len() ==> #[trigger] done@[i]@ == split_on(t.take(k as int), sep)[i],
            cur@ == split_on(t.take(k as int), sep).last(),
        decreases cs.len() - k,
    {
        let c = cs[k];
        let ghost before = split_on(t.take(k as int), sep);
        assert(t.take(k + 1).drop_last() =~= t.take(k as int));
        assert(t.take(k + 1).last() == c);
        proof {
            lemma_split_nonempty(t.take(k as int), sep);
        }
        if c == sep {
            let finished = cur;
            done.push(finished);
            cur = Vec::new();
            proof {
                let after = split_on(t.take(k + 1), sep);
                assert(after == before.push(Seq::<char>::empty()));
                assert forall|i: int| 0 <= i < done@.len() implies #[trigger] done@[i]@ == after[i] by {
                    if i < done@.len() - 1 {
                        assert(done@[i]@ == before[i]);
                    }
                }
                assert(cur@ =~= after.last());
            }
        } else {
            cur.push(c);
            proof {
                let after = split_on(t.take(k + 1), sep);
                assert(after == before.update(before.len() - 1, before.last().push(c)));
                assert forall|i: int| 0 <= i < done@.len() implies #[trigger] done@[i]@ == after[i] by {
                    assert(done@[i]@ == before[i]);
                }
            }
        }
        k += 1;
    }
    assert(t.take(t.len() as int) =~= t);
    let ghost f = split_on(t, sep);
    let ghost d = done@;
    done.push(cur);
    proof {
        assert forall|i: int| 0 <= i < done@.len() implies #[trigger] done@[i]@ == f[i] by {
            if i < d.len() {
                assert(done@[i] == d[i]);
            }
        }
    }
    done
}

/// Trusted: calls `core::str::from_utf8`, which returns `Ok` exactly when the
/// bytes are valid UTF-8, with a string slice over those same bytes.
#[verifier::external_body]
pub(crate) fn utf8_text(data: &[u8]) -> (r: Option<&str>)
    ensures
        r is Some <==> valid_utf8(data@),
        r matches Some(t) ==> t.spec_bytes() == data@,
{
    core::str::from_utf8(data).ok()
}

/// `needle` occurs in `s` at `i`, ASCII letters compared without case.
pub open spec fn occurs_ignore_case_at(s: Seq<char>, needle: Seq<char>, i: int) -> bool {
    0 <= i && i + needle.len() <= s.len() && eq_ignore_case(s.subrange(i, i + needle.len()), needle)
}

/// `needle` occurs somewhere in `s`, ASCII letters compared without case.
pub open spec fn contains_ignore_case_spec(s: Seq<char>, needle: Seq<char>) -> bool {
    exists|i: int| occurs_ignore_case_at(s, needle, i)
}

/// Whether `needle` occurs in `s`, ASCII letters compared without case.
pub fn contains_ignore_case(s: &str, needle: &str) -> (r: bool)
    ensures
        r == contains_ignore_case_spec(s@, needle@),
{
    contains_ignore_case_chars(&chars_of(s), &chars_of(needle))
}

/// Whether `ns` occurs in `cs`, ASCII letters compared without case.
pub fn contains_ignore_case_chars(cs: &Vec<char>, ns: &Vec<char>) -> (r: bool)
    ensures
        r == contains_ignore_case_spec(cs@, ns@),
{
    if ns.len() > cs.len() {
        assert forall|i: int| !occurs_ignore_case_at(cs@, ns@, i) by {}
        return false;
    }
    let mut i: usize = 0;
    while i <= cs.len() - ns.len()
        invariant
            ns.len() <= cs.len(),
            i <= cs.len() - ns.len() + 1,
            forall|j: int| 0 <= j < i ==> !#[trigger] occurs_ignore_case_at(cs@, ns@, j),
        decreases cs.len() - ns.len() + 1 - i,
    {
        let mut k: usize = 0;
        let mut same = true;
        while k < ns.len()
            invariant
                        i + ns.len() <= cs.len(),
                k <= ns.len(),
                same == (forall|m: int| 0 <= m < k ==> #[trigger] fold_code(cs@[i + m]) == fold_code(ns@[m])),
            decreases ns.len() - k,
        {
            if fold(cs[i + k]) != fold(ns[k]) {
                same = false;
            }
            k += 1;
        }
        proof {
            let sub = cs@.subrange(i as int, i + ns@.len());
            assert(same == eq_ignore_case(sub, ns@)) by {
                if same {
                    assert forall|m: int| 0 <= m < sub.len() implies #[trigger] fold_code(sub[m]) == fold_code(ns@[m]) by {
                        assert(fold_code(cs@[i + m]) == fold_code(ns@[m]));
                    }
                } else {
                    let m = choose|m: int| 0 <= m < ns@.len() && !(#[trigger] fold_code(cs@[i + m]) == fold_code(ns@[m]));
                    assert(fold_code(sub[m]) != fold_code(ns@[m]));
                }
            }
        }
        if same {
            assert(occurs_ignore_case_at(cs@, ns@, i as int));
            return true;
        }
        i += 1;
    }
    proof {
        assert forall|j: int| !occurs_ignore_case_at(cs@, ns@, j) by {
            if 0 <= j < i {
            }
        }
    }
    false
}

/// The first occurrence of a character is its first position.
pub proof fn lemma_find_char_first(s: Seq<char>, c: char, k: int)
    requires
        0 <= k < s.len(),
        s[k] == c,
        forall|j: int| 0 <= j < k ==> s[j] != c,
    ensures
        find(s, seq![c]) == Some(k),
{
    lemma_find_from_range(s, seq![c], 0);
    assert(s.subrange(k, k + 1) =~= seq![c]);
    assert(occurs_at(s, seq![c], k));
    match find(s, seq![c]) {
        Some(m) => {
            if m < k {
                assert(s.subrange(m, m + 1)[0] == s[m]);
            }
        },
        None => {},
    }
}

/// A character that does not occur is not found.
pub proof fn lemma_find_char_absent(s: Seq<char>, c: char)
    requires
        forall|j: int| 0 <= j < s.len() ==> s[j] != c,
    ensures
        find(s, seq![c]) is None,
{
    lemma_find_from_range(s, seq![c], 0);
    match find(s, seq![c]) {
        Some(m) => {
            assert(s.subrange(m, m + 1)[0] == s[m]);
        },
        None => {},
    }
}

} // verus!
