//! Double-precision numbers. Settings carry them by their bit pattern; the
//! few results that percentages go through are computed here as the hardware
//! rounds them, on whole numbers.

use vstd::arithmetic::div_mod::*;
use vstd::arithmetic::mul::*;
use vstd::arithmetic::power2::*;
use vstd::prelude::*;
use vstd::std_specs::cmp::PartialEqSpecImpl;

verus! {

/// A double, by its IEEE 754 bit pattern. Two are equal where they are the same
/// number: both zeros are, and what is no number equals nothing.
#[derive(Debug, Clone, Copy)]
pub struct Double {
    pub bits: u64,
}

/// A single-precision number, by its IEEE 754 bit pattern. Equal as doubles
/// are.
#[derive(Debug, Clone, Copy)]
pub struct Single {
    pub bits: u32,
}

/// The bit pattern of 100.
pub const HUNDRED: u64 = 0x4059_0000_0000_0000;

/// The bit pattern of infinity: the patterns of the positive numbers ascend
/// to it as the numbers do, and those above it are no numbers.
pub const INFINITY: u64 = 0x7ff0_0000_0000_0000;

/// The sign's bit: the patterns of the negative numbers are those of the
/// positive ones with it.
pub const SIGN: u64 = 0x8000_0000_0000_0000;

/// Where a double stands among the others: both zeros at the same place.
pub open spec fn rank(d: Double) -> int {
    if d.bits >= SIGN {
        SIGN - d.bits
    } else {
        d.bits as int
    }
}

/// Whether a double is a number at all.
pub open spec fn is_number(d: Double) -> bool {
    -INFINITY <= rank(d) <= INFINITY
}

/// Whether one number is at most another.
pub open spec fn at_most(a: Double, b: Double) -> bool {
    is_number(a) && is_number(b) && rank(a) <= rank(b)
}

/// Whether two doubles are the same number.
pub open spec fn same_number(a: Double, b: Double) -> bool {
    is_number(a) && is_number(b) && rank(a) == rank(b)
}

pub fn to_rank(d: Double) -> (r: i128)
    ensures
        r == rank(d),
{
    if d.bits >= SIGN {
        SIGN as i128 - d.bits as i128
    } else {
        d.bits as i128
    }
}

pub fn is_at_most(a: Double, b: Double) -> (r: bool)
    ensures
        r == at_most(a, b),
{
    let top = INFINITY as i128;
    let x = to_rank(a);
    let y = to_rank(b);
    -top <= x && x <= top && -top <= y && y <= top && x <= y
}

impl PartialEq for Double {
    fn eq(&self, other: &Self) -> (r: bool) {
        is_at_most(*self, *other) && is_at_most(*other, *self)
    }
}

impl PartialEqSpecImpl for Double {
    open spec fn obeys_eq_spec() -> bool {
        true
    }

    open spec fn eq_spec(&self, other: &Self) -> bool {
        same_number(*self, *other)
    }
}

/// The bit pattern of a single-precision infinity.
pub const SINGLE_INFINITY: u32 = 0x7f80_0000;

/// The sign's bit of a single-precision number.
pub const SINGLE_SIGN: u32 = 0x8000_0000;

/// A single-precision pattern without its sign.
pub open spec fn single_size(s: Single) -> int {
    if s.bits >= SINGLE_SIGN {
        s.bits - SINGLE_SIGN
    } else {
        s.bits as int
    }
}

/// Whether two single-precision numbers are the same: of one pattern, or both
/// zero, and numbers at all.
pub open spec fn same_single(a: Single, b: Single) -> bool {
    single_size(a) <= SINGLE_INFINITY && (a.bits == b.bits || (single_size(a) == 0 && single_size(
        b,
    ) == 0))
}

fn to_single_size(s: Single) -> (r: u32)
    ensures
        r == single_size(s),
{
    if s.bits >= SINGLE_SIGN {
        s.bits - SINGLE_SIGN
    } else {
        s.bits
    }
}

impl PartialEq for Single {
    fn eq(&self, other: &Self) -> (r: bool) {
        let x = to_single_size(*self);
        let y = to_single_size(*other);
        x <= SINGLE_INFINITY && (self.bits == other.bits || (x == 0 && y == 0))
    }
}

impl PartialEqSpecImpl for Single {
    open spec fn obeys_eq_spec() -> bool {
        true
    }

    open spec fn eq_spec(&self, other: &Self) -> bool {
        same_single(*self, *other)
    }
}

/// A double is the same number as itself where it is a number, whatever its
/// pattern otherwise; and being the same number goes both ways and on.
pub proof fn same_number_is_equality(a: Double, b: Double, c: Double)
    ensures
        same_number(a, a) <==> is_number(a),
        same_number(a, b) <==> same_number(b, a),
        same_number(a, b) && same_number(b, c) ==> same_number(a, c),
        same_number(a, b) <==> at_most(a, b) && at_most(b, a),
        same_number(a, b) && a.bits != b.bits ==> (a.bits == 0 && b.bits == SIGN) || (a.bits
            == SIGN && b.bits == 0),
        a.bits == 0 && b.bits == 0x8000_0000_0000_0000 ==> same_number(a, b),
        is_number(a) <==> a.bits <= 0x7ff0_0000_0000_0000 || 0x8000_0000_0000_0000 <= a.bits
            <= 0xfff0_0000_0000_0000,
{
}

/// A single-precision number is the same as itself where it is a number; being
/// the same goes both ways and on, and of two patterns only the zeros' are.
pub proof fn same_single_is_equality(a: Single, b: Single, c: Single)
    ensures
        same_single(a, a) <==> a.bits <= 0x7f80_0000 || 0x8000_0000 <= a.bits <= 0xff80_0000,
        same_single(a, b) <==> same_single(b, a),
        same_single(a, b) && same_single(b, c) ==> same_single(a, c),
        same_single(a, b) && a.bits != b.bits ==> (a.bits == 0 && b.bits == 0x8000_0000) || (
        a.bits == 0x8000_0000 && b.bits == 0),
        a.bits == 0 && b.bits == 0x8000_0000 ==> same_single(a, b),
{
}

/// A percentage kept between 0 and 100: negative numbers become 0, greater
/// ones 100; a minus zero, and what is no number, stay as they are.
pub open spec fn in_percent(d: Double) -> Double {
    if SIGN < d.bits <= SIGN + INFINITY {
        Double { bits: 0 }
    } else if HUNDRED < d.bits <= INFINITY {
        Double { bits: HUNDRED }
    } else {
        d
    }
}

pub fn to_percent(d: Double) -> (r: Double)
    ensures
        r == in_percent(d),
{
    if SIGN < d.bits && d.bits - SIGN <= INFINITY {
        Double { bits: 0 }
    } else if HUNDRED < d.bits && d.bits <= INFINITY {
        Double { bits: HUNDRED }
    } else {
        d
    }
}

/// The numbers a mantissa holds exactly: all below this.
pub const MANTISSA: u128 = 0x20_0000_0000_0000;

/// `n / d` to the nearest whole number, and to the even one of two as near.
pub open spec fn nearest(n: nat, d: nat) -> nat {
    if 2 * (n % d) > d || (2 * (n % d) == d && (n / d) % 2 == 1) {
        n / d + 1
    } else {
        n / d
    }
}

/// How many times a whole number is halved before a mantissa holds it.
pub open spec fn excess(n: nat) -> nat
    decreases n,
{
    if n < MANTISSA {
        0
    } else {
        1 + excess(n / 2)
    }
}

/// The double nearest a whole number.
pub open spec fn rounded(n: nat) -> nat {
    nearest(n, pow2(excess(n))) * pow2(excess(n))
}

/// The binary places that the double nearest `a / b` takes.
pub open spec fn places(a: nat, b: nat) -> nat
    decreases b * MANTISSA - a,
{
    if a == 0 || 2 * a >= b * MANTISSA {
        0
    } else {
        1 + places(2 * a, b)
    }
}

/// The double nearest `a / b`, in units of its last binary place. For a
/// quotient below [`MANTISSA`].
pub open spec fn quotient(a: nat, b: nat) -> nat {
    nearest(a * pow2(places(a, b)), b)
}

/// `m / 2^s` to the nearest whole number, and up from halfway.
pub open spec fn round_up(m: nat, s: nat) -> nat {
    (m + pow2(s) / 2) / pow2(s)
}

pub fn to_nearest(n: u128, d: u128) -> (r: u128)
    requires
        0 < d < 0x8000_0000_0000_0000_0000_0000_0000_0000,
    ensures
        r == nearest(n as nat, d as nat),
{
    let q = n / d;
    let left = n % d;
    if 2 * left > d || (2 * left == d && q % 2 == 1) {
        assert(q < u128::MAX) by {
            if d == 1 {
                assert(left == 0);
            } else {
                assert(q <= n / 2) by (nonlinear_arith)
                    requires
                        q == n / d,
                        d >= 2,
                ;
            }
        }
        q + 1
    } else {
        q
    }
}

pub proof fn excess_bounds(n: nat)
    ensures
        n / pow2(excess(n)) < MANTISSA,
        n >= MANTISSA ==> n / pow2(excess(n)) >= MANTISSA / 2,
        excess(n) > 0 <==> n >= MANTISSA,
        pow2(excess(n)) > 0,
    decreases n,
{
    lemma_pow2_pos(excess(n));
    if n < MANTISSA {
        lemma2_to64();
    } else {
        excess_bounds(n / 2);
        let k = excess(n / 2);
        lemma_pow2_pos(k);
        lemma_pow2_unfold(k + 1);
        lemma_div_denominator(n as int, 2, pow2(k) as int);
        assert(n / pow2(k + 1) == (n / 2) / pow2(k));
        if n / 2 < MANTISSA {
            lemma2_to64();
        }
    }
}

pub fn to_rounded(n: u128) -> (r: u128)
    requires
        n < 0x1000_0000_0000_0000_0000_0000_0000_0000,
    ensures
        r == rounded(n as nat),
{
    let mut q = n;
    let mut d: u128 = 1;
    let ghost mut k: nat = 0;
    proof {
        lemma2_to64();
    }
    while q >= MANTISSA
        invariant
            d == pow2(k),
            1 <= d <= 0x1_0000_0000_0000_0000_0000,
            q == n / d,
            excess(n as nat) == k + excess(q as nat),
            n < 0x1000_0000_0000_0000_0000_0000_0000_0000,
        decreases q,
    {
        proof {
            lemma_pow2_unfold(k + 1);
            lemma_div_denominator(n as int, d as int, 2);
            assert(d * MANTISSA <= n) by (nonlinear_arith)
                requires
                    q == n / d,
                    q >= MANTISSA,
                    d >= 1,
            ;
            k = k + 1;
        }
        q = q / 2;
        d = d * 2;
    }
    let m = to_nearest(n, d);
    proof {
        let near = nearest(n as nat, d as nat);
        assert(near <= q + 1);
        assert(near * d <= n + d) by (nonlinear_arith)
            requires
                near <= n / d + 1,
                d >= 1,
        ;
    }
    m * d
}

/// The double nearest a quotient, and its binary places.
pub fn to_quotient(a: u128, b: u128) -> (r: (u128, u32))
    requires
        0 < b <= 0x2_0000_0000_0000_0000,
        a < b * MANTISSA,
    ensures
        r.0 == quotient(a as nat, b as nat),
        r.1 == places(a as nat, b as nat),
        r.0 <= MANTISSA,
        r.1 <= 118,
{
    let mut n = a;
    let mut s: u32 = 0;
    proof {
        lemma2_to64();
        assert(b * MANTISSA <= 0x40_0000_0000_0000_0000_0000_0000_0000) by (nonlinear_arith)
            requires
                b <= 0x2_0000_0000_0000_0000,
                MANTISSA == 0x20_0000_0000_0000,
        ;
    }
    while n != 0 && 2 * n < b * MANTISSA
        invariant
            n == a * pow2(s as nat),
            0 < b <= 0x2_0000_0000_0000_0000,
            b * MANTISSA <= 0x40_0000_0000_0000_0000_0000_0000_0000,
            n < b * MANTISSA,
            places(a as nat, b as nat) == s + places(n as nat, b as nat),
            s <= 118,
            a > 0 ==> pow2(s as nat) <= n,
        decreases b * MANTISSA - n,
    {
        proof {
            lemma_pow2_unfold((s + 1) as nat);
            assert(a * pow2((s + 1) as nat) == 2 * n) by (nonlinear_arith)
                requires
                    n == a * pow2(s as nat),
                    pow2((s + 1) as nat) == 2 * pow2(s as nat),
            ;
            pow2_118(s as nat);
        }
        n = 2 * n;
        s = s + 1;
    }
    let m = to_nearest(n, b);
    proof {
        assert(n / b <= MANTISSA - 1) by (nonlinear_arith)
            requires
                n < b * MANTISSA,
                b > 0,
        ;
    }
    (m, s)
}

proof fn pow2_118(s: nat)
    ensures
        pow2(118) == 0x40_0000_0000_0000_0000_0000_0000_0000,
        s <= 118 ==> pow2(s) <= pow2(118),
        s >= 118 ==> pow2(s) >= pow2(118),
        pow2(s) > 0,
{
    lemma2_to64();
    lemma2_to64_rest();
    lemma_pow2_adds(64, 54);
    lemma_pow2_pos(s);
    if s < 118 {
        lemma_pow2_strictly_increases(s, 118);
    } else if s > 118 {
        lemma_pow2_strictly_increases(118, s);
    }
}

/// `m / 2^s` to the nearest whole number, and up from halfway.
pub fn to_round_up(m: u128, s: u32) -> (r: u128)
    requires
        m < 0x1000_0000_0000_0000_0000_0000_0000_0000,
        s <= 118,
    ensures
        r == round_up(m as nat, s as nat),
{
    let mut d: u128 = 1;
    let mut i: u32 = 0;
    proof {
        lemma2_to64();
    }
    while i < s
        invariant
            i <= s <= 118,
            d == pow2(i as nat),
            0 < d <= 0x40_0000_0000_0000_0000_0000_0000_0000,
        decreases s - i,
    {
        proof {
            lemma_pow2_unfold((i + 1) as nat);
            pow2_118((i + 1) as nat);
            pow2_118(i as nat);
        }
        d = d * 2;
        i += 1;
    }
    (m + d / 2) / d
}

/// Rounding to the nearest whole number moves by half a unit at most.
pub proof fn nearest_error(n: nat, d: nat)
    requires
        d > 0,
    ensures
        2 * (nearest(n, d) * d) <= 2 * n + d,
        2 * n <= 2 * (nearest(n, d) * d) + d,
        nearest(n, d) <= n / d + 1,
{
    lemma_fundamental_div_mod(n as int, d as int);
    lemma_mod_bound(n as int, d as int);
    let q = n / d;
    assert((q + 1) * d == q * d + d) by (nonlinear_arith);
    assert(q * d == d * q) by (nonlinear_arith);
}

/// Of two whole numbers as near, rounding takes the even one.
pub proof fn nearest_is_even_from_halfway(n: nat, d: nat)
    requires
        d > 0,
        2 * (nearest(n, d) * d) == 2 * n + d || 2 * n == 2 * (nearest(n, d) * d) + d,
    ensures
        nearest(n, d) % 2 == 0,
{
    lemma_fundamental_div_mod(n as int, d as int);
    lemma_mod_bound(n as int, d as int);
    let q = n / d;
    assert((q + 1) * d == q * d + d) by (nonlinear_arith);
    assert(q * d == d * q) by (nonlinear_arith);
}

/// Rounding to a double moves by half of its last place at most, and that
/// place is small beside the number.
pub proof fn rounded_error(n: nat)
    ensures
        2 * rounded(n) <= 2 * n + pow2(excess(n)),
        2 * n <= 2 * rounded(n) + pow2(excess(n)),
        n < MANTISSA ==> rounded(n) == n,
        n >= MANTISSA ==> pow2(excess(n)) * (MANTISSA / 2) <= n,
        rounded(n) <= 2 * n,
        n <= 2 * rounded(n),
        pow2(excess(n)) > 0,
{
    excess_bounds(n);
    let d = pow2(excess(n));
    nearest_error(n, d);
    if n < MANTISSA {
        lemma2_to64();
        assert(n % 1 == 0);
    } else {
        lemma_fundamental_div_mod(n as int, d as int);
        lemma_mod_bound(n as int, d as int);
        assert(d * (MANTISSA / 2) <= n) by (nonlinear_arith)
            requires
                n / d >= MANTISSA / 2,
                d > 0,
                n == d * (n / d) + n % d,
                n % d >= 0,
        ;
        assert(d <= n) by (nonlinear_arith)
            requires
                d * (MANTISSA / 2) <= n,
                d > 0,
                MANTISSA == 0x20_0000_0000_0000,
        ;
    }
}

/// A positive quotient up to one takes at least 52 places, and is within half
/// a unit of its last place.
pub proof fn quotient_error(a: nat, b: nat)
    requires
        0 < a <= b,
    ensures
        places(a, b) >= 52,
        2 * (quotient(a, b) * b) <= 2 * (a * pow2(places(a, b))) + b,
        2 * (a * pow2(places(a, b))) <= 2 * (quotient(a, b) * b) + b,
        2 * (a * pow2(places(a, b))) >= b * MANTISSA,
        a * pow2(places(a, b)) < b * MANTISSA,
{
    places_bounds(a, b);
    nearest_error(a * pow2(places(a, b)), b);
    let s = places(a, b);
    if s < 52 {
        lemma2_to64_rest();
        lemma2_to64();
        lemma_pow2_strictly_increases(s, 52);
        assert(2 * (a * pow2(s)) < b * MANTISSA) by (nonlinear_arith)
            requires
                a <= b,
                0 < b,
                pow2(s) < 0x10_0000_0000_0000,
                MANTISSA == 0x20_0000_0000_0000,
        ;
    }
}

pub proof fn places_bounds(a: nat, b: nat)
    requires
        0 < a,
        a < b * MANTISSA,
    ensures
        2 * (a * pow2(places(a, b))) >= b * MANTISSA,
        a * pow2(places(a, b)) < b * MANTISSA,
    decreases b * MANTISSA - a,
{
    if 2 * a >= b * MANTISSA {
        lemma2_to64();
        assert(places(a, b) == 0);
        assert(a * pow2(0) == a) by (nonlinear_arith)
            requires
                pow2(0) == 1,
        ;
    } else {
        assert(places(a, b) == 1 + places(2 * a, b));
        places_bounds(2 * a, b);
        let s = places(2 * a, b);
        lemma_pow2_unfold(s + 1);
        assert((2 * a) * pow2(s) == a * pow2(s + 1)) by (nonlinear_arith)
            requires
                pow2(s + 1) == 2 * pow2(s),
        ;
    }
}

/// Rounding up from halfway moves by half a unit at most.
pub proof fn round_up_error(m: nat, s: nat)
    requires
        s > 0,
    ensures
        2 * (round_up(m, s) * pow2(s)) <= 2 * m + pow2(s),
        2 * m < 2 * (round_up(m, s) * pow2(s)) + pow2(s),
{
    lemma_pow2_pos(s);
    lemma_pow2_unfold(s);
    let d = pow2(s);
    let n = m + d / 2;
    lemma_fundamental_div_mod(n as int, d as int);
    lemma_mod_bound(n as int, d as int);
    assert((n / d) * d == d * (n / d)) by (nonlinear_arith);
}

} // verus!
