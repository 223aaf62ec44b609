//! Reading integers from text as `str::parse` and `from_str_radix` read
//! them, and writing 16-bit values as four upper-case hex digits.

use vstd::prelude::*;
use vstd::string::StrSliceExecFns;

use crate::text::push_char;

verus! {

/// An ASCII decimal digit.
pub open spec fn is_ascii_digit(c: char) -> bool {
    '0' <= c && c <= '9'
}

/// Every character of `s` is an ASCII decimal digit.
pub open spec fn all_ascii_digits(s: Seq<char>) -> bool {
    forall|i: int| 0 <= i < s.len() ==> is_ascii_digit(#[trigger] s[i])
}

/// The number written by the decimal digits `s`, most significant first.
pub open spec fn digits_value(s: Seq<char>) -> int
    decreases s.len(),
{
    if s.len() == 0 {
        0
    } else {
        digits_value(s.drop_last()) * 10 + (s.last() as int - '0' as int)
    }
}

/// `s` without its first character when that character is `c`.
pub open spec fn without_sign(s: Seq<char>, c: char) -> Seq<char> {
    if s.len() > 0 && s[0] == c {
        s.drop_first()
    } else {
        s
    }
}

/// The number that `str::parse` reads for an unsigned integer type, before
/// the range of the type is checked: an optional `+` followed by one or
/// more ASCII digits. `None` for any other text, the empty text among them.
pub open spec fn unsigned_value(s: Seq<char>) -> Option<int> {
    let body = without_sign(s, '+');
    if body.len() > 0 && all_ascii_digits(body) {
        Some(digits_value(body))
    } else {
        None
    }
}

/// The number that `str::parse` reads for a signed integer type, before
/// the range of the type is checked: an optional `+` or `-` followed by
/// one or more ASCII digits.
pub open spec fn signed_value(s: Seq<char>) -> Option<int> {
    if s.len() > 0 && s[0] == '-' {
        let body = s.drop_first();
        if body.len() > 0 && all_ascii_digits(body) {
            Some(-digits_value(body))
        } else {
            None
        }
    } else {
        unsigned_value(s)
    }
}

/// The value `v` when it lies in `lo ..= hi`.
pub open spec fn within(v: Option<int>, lo: int, hi: int) -> Option<int> {
    match v {
        Some(x) => if lo <= x && x <= hi {
            Some(x)
        } else {
            None
        },
        None => None,
    }
}

/// An ASCII hexadecimal digit, in either case.
pub open spec fn is_hex_digit(c: char) -> bool {
    ('0' <= c && c <= '9') || ('a' <= c && c <= 'f') || ('A' <= c && c <= 'F')
}

/// The value of a hexadecimal digit.
pub open spec fn hex_digit_value(c: char) -> int {
    if '0' <= c && c <= '9' {
        c as int - '0' as int
    } else if 'a' <= c && c <= 'f' {
        c as int - 'a' as int + 10
    } else {
        c as int - 'A' as int + 10
    }
}

/// Every character of `s` is a hexadecimal digit.
pub open spec fn all_hex_digits(s: Seq<char>) -> bool {
    forall|i: int| 0 <= i < s.len() ==> is_hex_digit(#[trigger] s[i])
}

/// The number written by the hexadecimal digits `s`.
pub open spec fn hex_digits_value(s: Seq<char>) -> int
    decreases s.len(),
{
    if s.len() == 0 {
        0
    } else {
        hex_digits_value(s.drop_last()) * 16 + hex_digit_value(s.last())
    }
}

/// The number that `from_str_radix(s, 16)` reads for an unsigned type,
/// before the range check: an optional `+` then one or more hex digits.
pub open spec fn hex_value(s: Seq<char>) -> Option<int> {
    let body = without_sign(s, '+');
    if body.len() > 0 && all_hex_digits(body) {
        Some(hex_digits_value(body))
    } else {
        None
    }
}

/// The upper-case hex digit for `d` (`0 <= d < 16`).
pub open spec fn hex_char(d: int) -> char {
    if d < 10 {
        ('0' as int + d) as char
    } else {
        ('A' as int + d - 10) as char
    }
}

/// `v` written as `{:04X}` writes it: four upper-case hex digits.
pub open spec fn hex4(v: u16) -> Seq<char> {
    seq![
        hex_char((v / 4096) as int),
        hex_char(((v / 256) % 16) as int),
        hex_char(((v / 16) % 16) as int),
        hex_char((v % 16) as int),
    ]
}

proof fn lemma_digits_value_nonneg(s: Seq<char>)
    requires
        all_ascii_digits(s),
    ensures
        digits_value(s) >= 0,
    decreases s.len(),
{
    if s.len() > 0 {
        assert(is_ascii_digit(s[s.len() - 1]));
        lemma_digits_value_nonneg(s.drop_last());
    }
}

/// A prefix of a digit string is worth no more than the whole string.
proof fn lemma_digits_prefix_le(s: Seq<char>, k: int)
    requires
        all_ascii_digits(s),
        0 <= k <= s.len(),
    ensures
        digits_value(s.take(k)) <= digits_value(s),
    decreases s.len(),
{
    if k < s.len() {
        let t = s.drop_last();
        assert(t.take(k) =~= s.take(k));
        assert(is_ascii_digit(s[s.len() - 1]));
        lemma_digits_prefix_le(t, k);
        lemma_digits_value_nonneg(t);
    } else {
        assert(s.take(k) =~= s);
    }
}

proof fn lemma_hex_digits_value_nonneg(s: Seq<char>)
    requires
        all_hex_digits(s),
    ensures
        hex_digits_value(s) >= 0,
    decreases s.len(),
{
    if s.len() > 0 {
        assert(is_hex_digit(s[s.len() - 1]));
        lemma_hex_digits_value_nonneg(s.drop_last());
    }
}

proof fn lemma_hex_prefix_le(s: Seq<char>, k: int)
    requires
        all_hex_digits(s),
        0 <= k <= s.len(),
    ensures
        hex_digits_value(s.take(k)) <= hex_digits_value(s),
    decreases s.len(),
{
    if k < s.len() {
        let t = s.drop_last();
        assert(t.take(k) =~= s.take(k));
        assert(is_hex_digit(s[s.len() - 1]));
        lemma_hex_prefix_le(t, k);
        lemma_hex_digits_value_nonneg(t);
    } else {
        assert(s.take(k) =~= s);
    }
}

/// The value of the decimal digits of `s` from `start` on: `None` when one
/// of them is not a digit or the value does not fit in a `u64`.
fn digits_from(s: &str, start: usize) -> (r: Option<u64>)
    requires
        start <= s@.len(),
    ensures
        match r {
            Some(v) => all_ascii_digits(s@.skip(start as int)) && v == digits_value(
                s@.skip(start as int),
            ),
            None => !all_ascii_digits(s@.skip(start as int)) || digits_value(
                s@.skip(start as int),
            ) > u64::MAX,
        },
{
    let n = s.unicode_len();
    let ghost body = s@.skip(start as int);
    let mut acc: u64 = 0;
    let mut i: usize = start;
    assert(body.take(0) =~= Seq::<char>::empty());
    while i < n
        invariant
            n == s@.len(),
            start <= i <= n,
            body == s@.skip(start as int),
            all_ascii_digits(body.take(i - start)),
            acc == digits_value(body.take(i - start)),
        decreases n - i,
    {
        let c = s.get_char(i);
        let ghost k = i - start;
        assert(body[k] == c);
        if c < '0' || c > '9' {
            assert(!is_ascii_digit(body[k]));
            return None;
        }
        let d = (c as u32 - '0' as u32) as u64;
        let ghost next = body.take(k + 1);
        assert(next.drop_last() =~= body.take(k));
        assert(next.last() == c);
        assert(all_ascii_digits(next)) by {
            assert forall|j: int| 0 <= j < next.len() implies is_ascii_digit(#[trigger] next[j]) by {
                if j < k {
                    assert(next[j] == body.take(k)[j]);
                }
            }
        }
        match acc.checked_mul(10) {
            Some(m) => match m.checked_add(d) {
                Some(a) => {
                    acc = a;
                },
                None => {
                    proof {
                        if all_ascii_digits(body) {
                            lemma_digits_prefix_le(body, k + 1);
                        }
                    }
                    return None;
                },
            },
            None => {
                proof {
                    if all_ascii_digits(body) {
                        lemma_digits_prefix_le(body, k + 1);
                    }
                }
                return None;
            },
        }
        i = i + 1;
    }
    assert(body.take(n - start) =~= body);
    Some(acc)
}

/// `str::parse::<u64>`.
pub fn parse_u64(s: &str) -> (r: Option<u64>)
    ensures
        match r {
            Some(v) => within(unsigned_value(s@), 0, u64::MAX as int) == Some(v as int),
            None => within(unsigned_value(s@), 0, u64::MAX as int) is None,
        },
{
    let n = s.unicode_len();
    let start: usize = if n > 0 && s.get_char(0) == '+' {
        1
    } else {
        0
    };
    assert(s@.skip(start as int) =~= without_sign(s@, '+'));
    if start == n {
        return None;
    }
    let r = digits_from(s, start);
    proof {
        if all_ascii_digits(without_sign(s@, '+')) {
            lemma_digits_value_nonneg(without_sign(s@, '+'));
        }
    }
    r
}

/// `str::parse::<u32>`.
pub fn parse_u32(s: &str) -> (r: Option<u32>)
    ensures
        match r {
            Some(v) => within(unsigned_value(s@), 0, u32::MAX as int) == Some(v as int),
            None => within(unsigned_value(s@), 0, u32::MAX as int) is None,
        },
{
    match parse_u64(s) {
        Some(v) => if v <= u32::MAX as u64 {
            Some(v as u32)
        } else {
            None
        },
        None => None,
    }
}

/// `str::parse::<usize>`.
pub fn parse_usize(s: &str) -> (r: Option<usize>)
    ensures
        match r {
            Some(v) => within(unsigned_value(s@), 0, usize::MAX as int) == Some(v as int),
            None => within(unsigned_value(s@), 0, usize::MAX as int) is None,
        },
{
    match parse_u64(s) {
        Some(v) => if v <= usize::MAX as u64 {
            Some(v as usize)
        } else {
            None
        },
        None => None,
    }
}

/// `str::parse::<i32>`.
pub fn parse_i32(s: &str) -> (r: Option<i32>)
    ensures
        match r {
            Some(v) => within(signed_value(s@), i32::MIN as int, i32::MAX as int) == Some(
                v as int,
            ),
            None => within(signed_value(s@), i32::MIN as int, i32::MAX as int) is None,
        },
{
    let n = s.unicode_len();
    if n > 0 && s.get_char(0) == '-' {
        if n == 1 {
            return None;
        }
        let r = digits_from(s, 1);
        assert(s@.skip(1) =~= s@.drop_first());
        match r {
            Some(v) => {
                if v <= 0x8000_0000 {
                    let m = v as i64;
                    Some((-m) as i32)
                } else {
                    None
                }
            },
            None => None,
        }
    } else {
        proof {
            if all_ascii_digits(without_sign(s@, '+')) {
                lemma_digits_value_nonneg(without_sign(s@, '+'));
            }
        }
        match parse_u64(s) {
            Some(v) => if v <= i32::MAX as u64 {
                Some(v as i32)
            } else {
                None
            },
            None => None,
        }
    }
}

/// The value of the hex digits of `s` from `start` on: `None` when one of
/// them is not a hex digit or the value exceeds `0xFFFF`.
fn hex_digits_from(s: &str, start: usize) -> (r: Option<u16>)
    requires
        start <= s@.len(),
    ensures
        match r {
            Some(v) => all_hex_digits(s@.skip(start as int)) && v == hex_digits_value(
                s@.skip(start as int),
            ),
            None => !all_hex_digits(s@.skip(start as int)) || hex_digits_value(
                s@.skip(start as int),
            ) > 0xFFFF,
        },
{
    let n = s.unicode_len();
    let ghost body = s@.skip(start as int);
    let mut acc: u32 = 0;
    let mut i: usize = start;
    assert(body.take(0) =~= Seq::<char>::empty());
    while i < n
        invariant
            n == s@.len(),
            start <= i <= n,
            body == s@.skip(start as int),
            all_hex_digits(body.take(i - start)),
            acc == hex_digits_value(body.take(i - start)),
            acc <= 0xFFFF,
        decreases n - i,
    {
        let c = s.get_char(i);
        let ghost k = i - start;
        assert(body[k] == c);
        let d: u32 = if '0' <= c && c <= '9' {
            c as u32 - '0' as u32
        } else if 'a' <= c && c <= 'f' {
            c as u32 - 'a' as u32 + 10
        } else if 'A' <= c && c <= 'F' {
            c as u32 - 'A' as u32 + 10
        } else {
            assert(!is_hex_digit(body[k]));
            return None;
        };
        let ghost next = body.take(k + 1);
        assert(next.drop_last() =~= body.take(k));
        assert(next.last() == c);
        assert(all_hex_digits(next)) by {
            assert forall|j: int| 0 <= j < next.len() implies is_hex_digit(#[trigger] next[j]) by {
                if j < k {
                    assert(next[j] == body.take(k)[j]);
                }
            }
        }
        let a = acc * 16 + d;
        if a > 0xFFFF {
            proof {
                if all_hex_digits(body) {
                    lemma_hex_prefix_le(body, k + 1);
                }
            }
            return None;
        }
        acc = a;
        i = i + 1;
    }
    assert(body.take(n - start) =~= body);
    Some(acc as u16)
}

/// `u16::from_str_radix(s, 16)`.
pub fn parse_hex_u16(s: &str) -> (r: Option<u16>)
    ensures
        match r {
            Some(v) => within(hex_value(s@), 0, 0xFFFF) == Some(v as int),
            None => within(hex_value(s@), 0, 0xFFFF) is None,
        },
{
    let n = s.unicode_len();
    let start: usize = if n > 0 && s.get_char(0) == '+' {
        1
    } else {
        0
    };
    assert(s@.skip(start as int) =~= without_sign(s@, '+'));
    if start == n {
        return None;
    }
    let r = hex_digits_from(s, start);
    proof {
        if all_hex_digits(without_sign(s@, '+')) {
            lemma_hex_digits_value_nonneg(without_sign(s@, '+'));
        }
    }
    r
}

/// The upper-case hex digit for `d`.
fn hex_digit_char(d: u16) -> (c: char)
    requires
        d < 16,
    ensures
        c == hex_char(d as int),
{
    if d < 10 {
        crate::text::digit(d as u64)
    } else if d == 10 {
        'A'
    } else if d == 11 {
        'B'
    } else if d == 12 {
        'C'
    } else if d == 13 {
        'D'
    } else if d == 14 {
        'E'
    } else {
        'F'
    }
}

/// Appends `v` as four upper-case hex digits, as `{:04X}` writes it.
pub fn push_hex4(out: &mut String, v: u16)
    ensures
        final(out)@ == old(out)@ + hex4(v),
{
    push_char(out, hex_digit_char(v / 4096));
    push_char(out, hex_digit_char((v / 256) % 16));
    push_char(out, hex_digit_char((v / 16) % 16));
    push_char(out, hex_digit_char(v % 16));
    assert(out@ =~= old(out)@ + hex4(v));
}

/// Reading four hex digits back gives the value they were written from.
pub proof fn lemma_hex4_round_trip(v: u16)
    ensures
        all_hex_digits(hex4(v)),
        hex_digits_value(hex4(v)) == v,
        hex_value(hex4(v)) == Some(v as int),
{
    let s = hex4(v);
    let a = (v / 4096) as int;
    let b = ((v / 256) % 16) as int;
    let c = ((v / 16) % 16) as int;
    let d = (v % 16) as int;
    assert((v / 4096) * 4096 + ((v / 256) % 16) * 256 + ((v / 16) % 16) * 16 + v % 16 == v)
        by (bit_vector);
    assert(v / 4096 < 16) by (bit_vector);
    assert forall|i: int| 0 <= i < s.len() implies is_hex_digit(#[trigger] s[i]) by {}
    assert(hex_digit_value(hex_char(a)) == a);
    assert(hex_digit_value(hex_char(b)) == b);
    assert(hex_digit_value(hex_char(c)) == c);
    assert(hex_digit_value(hex_char(d)) == d);
    let s1 = s.drop_last();
    let s2 = s1.drop_last();
    let s3 = s2.drop_last();
    assert(s3 =~= seq![hex_char(a)]);
    assert(hex_digits_value(Seq::<char>::empty()) == 0);
    assert(s3.drop_last() =~= Seq::<char>::empty());
    assert(hex_digits_value(s3) == a);
    assert(hex_digits_value(s2) == a * 16 + b);
    assert(hex_digits_value(s1) == (a * 16 + b) * 16 + c);
    assert(hex_digits_value(s) == ((a * 16 + b) * 16 + c) * 16 + d);
    assert(without_sign(s, '+') == s);
}

} // verus!
