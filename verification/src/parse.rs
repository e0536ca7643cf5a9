//! Verified parsing of the operator's console inputs.
//!
//! The console hands the configuration plain strings: a hexadecimal
//! network identifier, 32-hex-character session keys, decimal numbers
//! and a dotted-quad IPv4 address. Unsigned numbers follow the usual
//! grammar of an optional leading `+` and at least one digit, rejected
//! on any other character or on overflow; a rejected input yields
//! nothing, so the caller can leave its state untouched.

use vstd::prelude::*;
use crate::config::Ipv4Addr;

verus! {

/// Numeric value of a digit character; 16 for anything that is no
/// hexadecimal digit.
pub open spec fn spec_digit_val(c: char) -> int {
    if '0' <= c && c <= '9' {
        c as u32 - '0' as u32
    } else if 'a' <= c && c <= 'f' {
        c as u32 - 'a' as u32 + 10
    } else if 'A' <= c && c <= 'F' {
        c as u32 - 'A' as u32 + 10
    } else {
        16
    }
}

/// Whether `c` is a digit of the given radix.
pub open spec fn spec_is_digit(c: char, radix: int) -> bool {
    spec_digit_val(c) < radix
}

/// Whether every character of `s` is a digit of the given radix.
pub open spec fn spec_all_digits(s: Seq<char>, radix: int) -> bool {
    forall|i: int| 0 <= i < s.len() ==> spec_is_digit(#[trigger] s[i], radix)
}

/// The number that a digit string denotes, most significant digit
/// first.
pub open spec fn spec_digits_val(s: Seq<char>, radix: int) -> int
    decreases s.len(),
{
    if s.len() == 0 {
        0
    } else {
        spec_digits_val(s.drop_last(), radix) * radix + spec_digit_val(s.last())
    }
}

/// The digit part of a number: everything after an optional leading
/// `+`.
pub open spec fn spec_sans_sign(s: Seq<char>) -> Seq<char> {
    if s.len() > 0 && s[0] == '+' {
        s.skip(1)
    } else {
        s
    }
}

/// The unsigned number that `s` denotes in the given radix: an optional
/// leading `+`, then at least one digit, and a value no greater than
/// `max`; anything else denotes nothing.
pub open spec fn spec_parse_uint(s: Seq<char>, radix: int, max: u128) -> Option<u128> {
    let digits = spec_sans_sign(s);
    if digits.len() == 0 || !spec_all_digits(digits, radix) {
        None
    } else if spec_digits_val(digits, radix) > max {
        None
    } else {
        Some(spec_digits_val(digits, radix) as u128)
    }
}

/// A parsed number never exceeds the bound it was parsed under.
pub proof fn lemma_parse_uint_bounded(s: Seq<char>, radix: int, max: u128)
    requires
        radix >= 1,
        spec_parse_uint(s, radix, max) is Some,
    ensures
        spec_parse_uint(s, radix, max)->Some_0 <= max,
{
    let digits = spec_sans_sign(s);
    lemma_digits_val_nonneg(digits, radix);
}

/// A digit string denotes nothing negative.
proof fn lemma_digits_val_nonneg(s: Seq<char>, radix: int)
    requires
        radix >= 1,
    ensures
        spec_digits_val(s, radix) >= 0,
    decreases s.len(),
{
    if s.len() > 0 {
        lemma_digits_val_nonneg(s.drop_last(), radix);
        let v = spec_digits_val(s.drop_last(), radix);
        assert(v * radix >= 0) by (nonlinear_arith)
            requires
                v >= 0 && radix >= 1,
        ;
    }
}

/// Appending digits never shrinks the denoted value.
proof fn lemma_digits_val_prefix(s: Seq<char>, radix: int, j: int)
    requires
        radix >= 1,
        0 <= j <= s.len(),
    ensures
        spec_digits_val(s.take(j), radix) <= spec_digits_val(s, radix),
    decreases s.len(),
{
    if j < s.len() {
        assert(s.take(j) =~= s.drop_last().take(j));
        lemma_digits_val_prefix(s.drop_last(), radix, j);
        lemma_digits_val_nonneg(s.drop_last(), radix);
        let v = spec_digits_val(s.drop_last(), radix);
        assert(v * radix >= v) by (nonlinear_arith)
            requires
                v >= 0 && radix >= 1,
        ;
        assert(spec_digit_val(s.last()) >= 0);
    } else {
        assert(s.take(j) =~= s);
    }
}

/// Value of `c` as a digit of `radix`, if it is one.
fn digit_val(c: char, radix: u32) -> (r: Option<u32>)
    requires
        radix == 10 || radix == 16,
    ensures
        r is Some <==> spec_is_digit(c, radix as int),
        r is Some ==> r->Some_0 == spec_digit_val(c),
{
    let v = c as u32;
    if v >= 48 && v <= 57 {
        Some(v - 48)
    } else if radix == 16 && v >= 97 && v <= 102 {
        Some(v - 87)
    } else if radix == 16 && v >= 65 && v <= 70 {
        Some(v - 55)
    } else {
        None
    }
}

/// Parse the characters of `s` in `[from, to)` as an unsigned number of
/// the given radix, no greater than `max`.
pub fn parse_uint_range(s: &str, from: usize, to: usize, radix: u32, max: u128) -> (r: Option<
    u128,
>)
    requires
        radix == 10 || radix == 16,
        from <= to <= s@.len(),
    ensures
        r == spec_parse_uint(s@.subrange(from as int, to as int), radix as int, max),
{
    let ghost sub = s@.subrange(from as int, to as int);
    let mut i = from;
    if i < to && s.get_char(i) == '+' {
        i = i + 1;
    }
    let start = i;
    let ghost digits = spec_sans_sign(sub);
    assert(digits =~= s@.subrange(start as int, to as int));
    if i == to {
        assert(digits.len() == 0);
        return None;
    }
    let mut val: u128 = 0;
    loop
        invariant
            from <= start <= i <= to <= s@.len(),
            i < to,
            radix == 10 || radix == 16,
            sub == s@.subrange(from as int, to as int),
            digits == spec_sans_sign(sub),
            digits == s@.subrange(start as int, to as int),
            digits.len() > 0,
            spec_all_digits(digits.take(i - start), radix as int),
            val == spec_digits_val(digits.take(i - start), radix as int),
            val <= max,
        decreases to - i,
    {
        let c = s.get_char(i);
        assert(c == digits[i - start]);
        let d: u32;
        match digit_val(c, radix) {
            Some(v) => {
                d = v;
            },
            None => {
                proof {
                    let k = i - start;
                    assert(!spec_is_digit(digits[k], radix as int));
                    assert(!spec_all_digits(digits, radix as int));
                }
                return None;
            },
        }
        let dv = d as u128;
        proof {
            let k = i - start;
            assert(digits.take(k + 1).drop_last() =~= digits.take(k));
            assert(digits.take(k + 1).last() == digits[k]);
        }
        let overflowed: bool;
        let mut next: u128 = 0;
        match val.checked_mul(radix as u128) {
            Some(m) => match m.checked_add(dv) {
                Some(nx) => {
                    overflowed = nx > max;
                    next = nx;
                },
                None => {
                    overflowed = true;
                },
            },
            None => {
                assert(val * radix > u128::MAX) by (nonlinear_arith)
                    requires
                        val * (radix as u128) > u128::MAX && radix >= 1,
                ;
                overflowed = true;
            },
        }
        if overflowed {
            proof {
                let k = i - start;
                assert(spec_digits_val(digits.take(k + 1), radix as int) == val * radix + dv);
                assert(spec_digits_val(digits.take(k + 1), radix as int) > max);
                lemma_digits_val_prefix(digits, radix as int, k + 1);
                assert(spec_digits_val(digits, radix as int) > max);
            }
            return None;
        }
        assert(spec_digits_val(digits.take(i + 1 - start), radix as int) == next);
        val = next;
        i = i + 1;
        if i == to {
            assert(digits.take(to - start) =~= digits);
            return Some(val);
        }
    }
}

/// Parse all of `s` as an unsigned number of the given radix, no
/// greater than `max`.
pub fn parse_uint(s: &str, radix: u32, max: u128) -> (r: Option<u128>)
    requires
        radix == 10 || radix == 16,
    ensures
        r == spec_parse_uint(s@, radix as int, max),
{
    let n = s.unicode_len();
    let r = parse_uint_range(s, 0, n, radix, max);
    assert(s@.subrange(0, n as int) =~= s@);
    r
}

/// What remains of `s` after every leading `0x` pair is stripped.
pub open spec fn spec_strip_hex_prefix(s: Seq<char>) -> Seq<char>
    decreases s.len(),
{
    if s.len() >= 2 && s[0] == '0' && s[1] == 'x' {
        spec_strip_hex_prefix(s.skip(2))
    } else {
        s
    }
}

/// The network identifier that `s` denotes: hexadecimal, with any
/// number of leading `0x` prefixes tolerated.
pub open spec fn spec_parse_net_id(s: Seq<char>) -> Option<u32> {
    match spec_parse_uint(spec_strip_hex_prefix(s), 16, u32::MAX as u128) {
        Some(v) => Some(v as u32),
        None => None,
    }
}

/// Parse a network identifier: hexadecimal, `0x` prefixes tolerated.
pub fn parse_net_id(s: &str) -> (r: Option<u32>)
    ensures
        r == spec_parse_net_id(s@),
{
    let n = s.unicode_len();
    let mut start: usize = 0;
    assert(s@.skip(0) =~= s@);
    loop
        invariant
            0 <= start <= n == s@.len(),
            spec_strip_hex_prefix(s@) == spec_strip_hex_prefix(s@.skip(start as int)),
        ensures
            0 <= start <= n == s@.len(),
            spec_strip_hex_prefix(s@) == s@.skip(start as int),
        decreases n - start,
    {
        if n - start >= 2 && s.get_char(start) == '0' && s.get_char(start + 1) == 'x' {
            proof {
                let rest = s@.skip(start as int);
                assert(rest.len() >= 2 && rest[0] == '0' && rest[1] == 'x');
                assert(rest.skip(2) =~= s@.skip(start + 2));
            }
            start = start + 2;
        } else {
            proof {
                let rest = s@.skip(start as int);
                assert(!(rest.len() >= 2 && rest[0] == '0' && rest[1] == 'x'));
                assert(spec_strip_hex_prefix(rest) == rest);
            }
            break;
        }
    }
    assert(s@.subrange(start as int, n as int) =~= s@.skip(start as int));
    match parse_uint_range(s, start, n, 16, 0xffff_ffff) {
        Some(v) => {
            proof {
                lemma_parse_uint_bounded(s@.skip(start as int), 16, 0xffff_ffff);
            }
            Some(v as u32)
        },
        None => None,
    }
}

/// The session key that `s` denotes: exactly 32 hexadecimal characters,
/// nothing else.
pub open spec fn spec_parse_skey(s: Seq<char>) -> Option<u128> {
    if s.len() == 32 && spec_all_digits(s, 16) {
        spec_parse_uint(s, 16, u128::MAX)
    } else {
        None
    }
}

/// Parse a session key: exactly 32 hexadecimal characters.
pub fn parse_session_key(s: &str) -> (r: Option<u128>)
    ensures
        r == spec_parse_skey(s@),
{
    let n = s.unicode_len();
    if n != 32 {
        return None;
    }
    if s.get_char(0) == '+' {
        assert(!spec_is_digit(s@[0], 16));
        return None;
    }
    let r = parse_uint_range(s, 0, n, 16, u128::MAX);
    assert(s@.subrange(0, n as int) =~= s@);
    r
}

/// The position of the first `.` in `s`, or its length if it has none.
pub open spec fn spec_first_dot(s: Seq<char>) -> int
    decreases s.len(),
{
    if s.len() == 0 {
        0
    } else if s[0] == '.' {
        0
    } else {
        1 + spec_first_dot(s.skip(1))
    }
}

/// The IPv4 address that `s` denotes: exactly four dot-separated
/// segments, each an unsigned decimal number no greater than 255.
pub open spec fn spec_parse_ipv4(s: Seq<char>) -> Option<Ipv4Addr> {
    let d1 = spec_first_dot(s);
    if d1 == s.len() {
        None
    } else {
        let rest1 = s.skip(d1 + 1);
        let d2 = spec_first_dot(rest1);
        if d2 == rest1.len() {
            None
        } else {
            let rest2 = rest1.skip(d2 + 1);
            let d3 = spec_first_dot(rest2);
            if d3 == rest2.len() {
                None
            } else {
                let seg4 = rest2.skip(d3 + 1);
                if spec_first_dot(seg4) != seg4.len() {
                    None
                } else {
                    match (
                        spec_parse_uint(s.take(d1), 10, 255),
                        spec_parse_uint(rest1.take(d2), 10, 255),
                        spec_parse_uint(rest2.take(d3), 10, 255),
                        spec_parse_uint(seg4, 10, 255),
                    ) {
                        (Some(a), Some(b), Some(c), Some(d)) => Some(
                            [a as u8, b as u8, c as u8, d as u8],
                        ),
                        _ => None,
                    }
                }
            }
        }
    }
}

/// The index of the first `.` at or after `from`, or the string's
/// length if there is none.
fn find_dot(s: &str, from: usize) -> (r: usize)
    requires
        from <= s@.len(),
    ensures
        from <= r <= s@.len(),
        r - from == spec_first_dot(s@.skip(from as int)),
{
    let n = s.unicode_len();
    let mut i = from;
    loop
        invariant
            from <= i <= n == s@.len(),
            spec_first_dot(s@.skip(from as int)) == (i - from) + spec_first_dot(
                s@.skip(i as int),
            ),
        decreases n - i,
    {
        if i == n {
            assert(s@.skip(i as int).len() == 0);
            return i;
        }
        let c = s.get_char(i);
        proof {
            let rest = s@.skip(i as int);
            assert(rest[0] == s@[i as int]);
            if c != '.' {
                assert(rest.skip(1) =~= s@.skip(i + 1));
            }
        }
        if c == '.' {
            return i;
        }
        i = i + 1;
    }
}

/// Parse a dotted-quad IPv4 address: exactly four segments, each an
/// octet between 0 and 255.
#[verifier::rlimit(50)]
pub fn parse_ipv4(s: &str) -> (r: Option<Ipv4Addr>)
    ensures
        r == spec_parse_ipv4(s@),
{
    let n = s.unicode_len();
    let d1 = find_dot(s, 0);
    assert(s@.skip(0) =~= s@);
    if d1 == n {
        return None;
    }
    let d2 = find_dot(s, d1 + 1);
    let ghost rest1 = s@.skip(d1 + 1);
    if d2 == n {
        assert(d2 - (d1 + 1) == rest1.len());
        return None;
    }
    let d3 = find_dot(s, d2 + 1);
    proof {
        assert(rest1.skip((d2 - d1) as int) =~= s@.skip(d2 + 1));
        assert(spec_first_dot(rest1) == d2 - (d1 + 1));
    }
    let ghost rest2 = rest1.skip((d2 - d1) as int);
    if d3 == n {
        assert(d3 - (d2 + 1) == rest2.len());
        return None;
    }
    let d4 = find_dot(s, d3 + 1);
    proof {
        assert(spec_first_dot(rest2) == d3 - (d2 + 1));
        assert(rest2.skip((d3 - d2) as int) =~= s@.skip(d3 + 1));
    }
    let ghost seg4 = rest2.skip((d3 - d2) as int);
    if d4 != n {
        assert(spec_first_dot(seg4) != seg4.len());
        return None;
    }
    assert(spec_first_dot(seg4) == seg4.len());
    assert(s@.subrange(0, d1 as int) =~= s@.take(d1 as int));
    assert(s@.subrange(d1 + 1, d2 as int) =~= rest1.take((d2 - d1 - 1) as int));
    assert(s@.subrange(d2 + 1, d3 as int) =~= rest2.take((d3 - d2 - 1) as int));
    assert(s@.subrange(d3 + 1, n as int) =~= seg4);
    let a = match parse_uint_range(s, 0, d1, 10, 255) {
        Some(v) => v,
        None => {
            return None;
        },
    };
    let b = match parse_uint_range(s, d1 + 1, d2, 10, 255) {
        Some(v) => v,
        None => {
            return None;
        },
    };
    let c = match parse_uint_range(s, d2 + 1, d3, 10, 255) {
        Some(v) => v,
        None => {
            return None;
        },
    };
    let d = match parse_uint_range(s, d3 + 1, n, 10, 255) {
        Some(v) => v,
        None => {
            return None;
        },
    };
    proof {
        lemma_parse_uint_bounded(s@.take(d1 as int), 10, 255);
        lemma_parse_uint_bounded(rest1.take((d2 - d1 - 1) as int), 10, 255);
        lemma_parse_uint_bounded(rest2.take((d3 - d2 - 1) as int), 10, 255);
        lemma_parse_uint_bounded(seg4, 10, 255);
    }
    Some([a as u8, b as u8, c as u8, d as u8])
}

} // verus!
