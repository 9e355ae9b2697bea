//! Numbers in text: printing them in decimal and hexadecimal, reading them.

use crate::text::chars_of;
use vstd::prelude::*;
use vstd::string::*;

verus! {

/// The character of a decimal digit.
pub open spec fn digit(d: nat) -> char {
    (48 + d) as u8 as char
}

/// A number in decimal.
pub open spec fn decimal(n: nat) -> Seq<char>
    decreases n,
{
    if n < 10 {
        seq![digit(n)]
    } else {
        decimal(n / 10).push(digit(n % 10))
    }
}

/// A number in decimal, with a minus sign below zero.
pub open spec fn signed(n: int) -> Seq<char> {
    if n < 0 {
        seq!['-'] + decimal((-n) as nat)
    } else {
        decimal(n as nat)
    }
}

fn push_decimal(out: &mut String, n: u128)
    ensures
        final(out)@ == old(out)@ + decimal(n as nat),
    decreases n,
{
    if n < 10 {
        out.push((48 + n as u8) as char);
    } else {
        push_decimal(out, n / 10);
        out.push((48 + (n % 10) as u8) as char);
    }
    assert(out@ =~= old(out)@ + decimal(n as nat));
}

pub fn print(n: u128) -> (r: String)
    ensures
        r@ == decimal(n as nat),
{
    let mut r = String::new();
    push_decimal(&mut r, n);
    assert(r@ =~= decimal(n as nat));
    r
}

pub fn print_signed(n: i64) -> (r: String)
    ensures
        r@ == signed(n as int),
{
    if n < 0 {
        let mut r = String::new();
        r.push('-');
        push_decimal(&mut r, (-(n as i128)) as u128);
        assert(r@ =~= signed(n as int));
        r
    } else {
        print(n as u128)
    }
}

/// Different numbers print differently.
pub proof fn decimal_injective(a: nat, b: nat)
    requires
        decimal(a) == decimal(b),
    ensures
        a == b,
    decreases a,
{
    assert(decimal(a).last() == digit(a % 10));
    assert(decimal(b).last() == digit(b % 10));
    assert(a % 10 == b % 10);
    if a < 10 {
        if b >= 10 {
            decimal_nonempty(b / 10);
        }
    } else {
        decimal_nonempty(a / 10);
        if b >= 10 {
            assert(decimal(a).drop_last() =~= decimal(a / 10));
            assert(decimal(b).drop_last() =~= decimal(b / 10));
            decimal_injective(a / 10, b / 10);
        }
    }
}

pub proof fn decimal_nonempty(n: nat)
    ensures
        decimal(n).len() > 0,
{
}

/// The character of a hexadecimal digit, in capitals.
pub open spec fn hex_digit(d: nat) -> char {
    if d < 10 {
        digit(d)
    } else {
        (55 + d) as u8 as char
    }
}

/// A byte as two hexadecimal digits.
pub open spec fn hex_byte(b: u8) -> Seq<char> {
    seq![hex_digit((b / 16) as nat), hex_digit((b % 16) as nat)]
}

fn to_hex_digit(d: u8) -> (r: char)
    requires
        d < 16,
    ensures
        r == hex_digit(d as nat),
{
    if d < 10 {
        (48 + d) as char
    } else {
        (55 + d) as char
    }
}

pub fn push_hex_byte(out: &mut String, b: u8)
    ensures
        final(out)@ == old(out)@ + hex_byte(b),
{
    out.push(to_hex_digit(b / 16));
    out.push(to_hex_digit(b % 16));
    assert(out@ =~= old(out)@ + hex_byte(b));
}

pub open spec fn is_digit(c: char) -> bool {
    '0' <= c && c <= '9'
}

/// The value of a run of decimal digits.
pub open spec fn value(digits: Seq<char>) -> nat
    decreases digits.len(),
{
    if digits.len() == 0 {
        0
    } else {
        10 * value(digits.drop_last()) + (digits.last() as u32 - 48) as nat
    }
}

pub open spec fn all_digits(s: Seq<char>) -> bool {
    s.len() > 0 && forall|i: int| 0 <= i < s.len() ==> is_digit(#[trigger] s[i])
}

/// The number a text writes: decimal digits, with a plus sign or (where
/// `negative` allows one) a minus sign before them.
pub open spec fn number(s: Seq<char>, negative: bool) -> Option<int> {
    let sign = s.len() > 0 && (s[0] == '+' || (negative && s[0] == '-'));
    let digits = if sign { s.skip(1) } else { s };
    if !all_digits(digits) {
        None
    } else if sign && s[0] == '-' {
        Some(-value(digits))
    } else {
        Some(value(digits) as int)
    }
}

/// A text read as an `i64`.
pub open spec fn i64_in(s: Seq<char>) -> Option<i64> {
    match number(s, true) {
        Some(n) => if i64::MIN <= n <= i64::MAX {
            Some(n as i64)
        } else {
            None
        },
        None => None,
    }
}

/// A text read as a `u8`.
pub open spec fn u8_in(s: Seq<char>) -> Option<u8> {
    match number(s, false) {
        Some(n) => if n <= u8::MAX {
            Some(n as u8)
        } else {
            None
        },
        None => None,
    }
}

/// The digits' value, or anything above `u64::MAX` when it is larger than that.
fn read_digits(v: &Vec<char>, from: usize) -> (r: Option<u128>)
    requires
        from <= v@.len(),
    ensures
        r is Some == all_digits(v@.skip(from as int)),
        r is Some && r->0 <= u64::MAX ==> r->0 == value(v@.skip(from as int)),
        r is Some && r->0 > u64::MAX ==> value(v@.skip(from as int)) > u64::MAX,
{
    let ghost digits = v@.skip(from as int);
    if from == v.len() {
        return None;
    }
    let mut total: u128 = 0;
    let mut i = from;
    while i < v.len()
        invariant
            from <= i <= v@.len(),
            digits == v@.skip(from as int),
            forall|k: int| 0 <= k < i - from ==> is_digit(#[trigger] digits[k]),
            total <= 0x1_0000_0000_0000_0000 * 10 + 9,
            total <= u64::MAX ==> total == value(digits.take(i - from)),
            total > u64::MAX ==> value(digits.take(i - from)) > u64::MAX,
        decreases v@.len() - i,
    {
        let c = v[i];
        assert(digits[i - from] == c);
        if !('0' <= c && c <= '9') {
            return None;
        }
        assert(digits.take(i - from + 1).drop_last() =~= digits.take(i - from));
        if total <= 0xFFFF_FFFF_FFFF_FFFF {
            total = total * 10 + (c as u32 - 48) as u128;
        }
        i += 1;
    }
    assert(digits.take(v@.len() - from) =~= digits);
    Some(total)
}

pub fn read_i64(s: &str) -> (r: Option<i64>)
    ensures
        r == i64_in(s@),
{
    let v = chars_of(s);
    assert(v@.skip(0) =~= v@);
    let signed = v.len() > 0 && (v[0] == '+' || v[0] == '-');
    let from: usize = if signed { 1 } else { 0 };
    match read_digits(&v, from) {
        None => None,
        Some(total) => {
            if signed && v[0] == '-' {
                if total <= 0x8000_0000_0000_0000 {
                    Some((-(total as i128)) as i64)
                } else {
                    None
                }
            } else if total <= 0x7FFF_FFFF_FFFF_FFFF {
                Some(total as i64)
            } else {
                None
            }
        },
    }
}

pub fn read_u8(s: &str) -> (r: Option<u8>)
    ensures
        r == u8_in(s@),
{
    let v = chars_of(s);
    assert(v@.skip(0) =~= v@);
    let from: usize = if v.len() > 0 && v[0] == '+' { 1 } else { 0 };
    match read_digits(&v, from) {
        None => None,
        Some(total) => if total <= 255 {
            Some(total as u8)
        } else {
            None
        },
    }
}

} // verus!
