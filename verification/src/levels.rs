//! Brightness: the levels an Aura keyboard offers, and the byte a Slash bar
//! takes, for a percentage, and back.

use crate::{double, number};
use vstd::arithmetic::power2::*;
use vstd::prelude::*;
use vstd::string::*;

verus! {

/// A number put in its place among ascending ones.
pub open spec fn inserted(s: Seq<u32>, x: u32) -> Seq<u32>
    decreases s.len(),
{
    if s.len() == 0 || s.last() <= x {
        s.push(x)
    } else {
        inserted(s.drop_last(), x).push(s.last())
    }
}

/// Numbers in ascending order.
pub open spec fn ascending(s: Seq<u32>) -> Seq<u32>
    decreases s.len(),
{
    if s.len() == 0 {
        s
    } else {
        inserted(ascending(s.drop_last()), s.last())
    }
}

pub open spec fn is_ascending(s: Seq<u32>) -> bool {
    forall|i: int, j: int| 0 <= i <= j < s.len() ==> s[i] <= s[j]
}

proof fn inserted_ascends(s: Seq<u32>, x: u32)
    requires
        is_ascending(s),
    ensures
        is_ascending(inserted(s, x)),
        inserted(s, x).len() == s.len() + 1,
        inserted(s, x).to_multiset() == s.to_multiset().insert(x),
        forall|k: int| 0 <= k < s.len() + 1 ==> #[trigger] inserted(s, x)[k] <= x || inserted(s, x)[k] <= s.last(),
    decreases s.len(),
{
    broadcast use vstd::seq_lib::group_to_multiset_ensures;

    if s.len() == 0 || s.last() <= x {
    } else {
        let rest = s.drop_last();
        inserted_ascends(rest, x);
        let r = inserted(rest, x);
        assert(inserted(s, x) =~= r.push(s.last()));
        assert(rest.push(s.last()) =~= s);
        assert forall|k: int| 0 <= k < r.len() implies #[trigger] r[k] <= s.last() by {
            if rest.len() > 0 {
                assert(rest.last() == s[s.len() - 2]);
            }
        }
        assert(s.to_multiset() == rest.to_multiset().insert(s.last()));
        assert(r.push(s.last()).to_multiset() == r.to_multiset().insert(s.last()));
        assert(rest.to_multiset().insert(x).insert(s.last()) =~= rest.to_multiset().insert(
            s.last(),
        ).insert(x));
    }
}

/// Sorting puts the same numbers in ascending order.
pub proof fn ascending_sorts(s: Seq<u32>)
    ensures
        is_ascending(ascending(s)),
        ascending(s).len() == s.len(),
        ascending(s).to_multiset() == s.to_multiset(),
        forall|x: u32| ascending(s).contains(x) <==> s.contains(x),
    decreases s.len(),
{
    broadcast use vstd::seq_lib::group_to_multiset_ensures;

    if s.len() > 0 {
        ascending_sorts(s.drop_last());
        inserted_ascends(ascending(s.drop_last()), s.last());
        assert(s.drop_last().push(s.last()) =~= s);
    }
    assert forall|x: u32| ascending(s).contains(x) <==> s.contains(x) by {
        assert(ascending(s).contains(x) <==> ascending(s).to_multiset().count(x) > 0);
        assert(s.contains(x) <==> s.to_multiset().count(x) > 0);
    }
}

fn insert(v: &mut Vec<u32>, x: u32)
    ensures
        final(v)@ == inserted(old(v)@, x),
    decreases old(v)@.len(),
{
    if v.len() == 0 || v[v.len() - 1] <= x {
        v.push(x);
    } else {
        let last = v[v.len() - 1];
        v.pop();
        insert(v, x);
        v.push(last);
    }
}

fn sort(levels: &[u32]) -> (r: Vec<u32>)
    ensures
        r@ == ascending(levels@),
{
    let mut r: Vec<u32> = Vec::new();
    let mut i: usize = 0;
    while i < levels.len()
        invariant
            i <= levels@.len(),
            r@ == ascending(levels@.take(i as int)),
        decreases levels@.len() - i,
    {
        assert(levels@.take(i + 1).drop_last() =~= levels@.take(i as int));
        insert(&mut r, levels[i]);
        i += 1;
    }
    assert(levels@.take(levels@.len() as int) =~= levels@);
    r
}

/// Where a number first stands.
pub open spec fn place(s: Seq<u32>, x: u32) -> Option<int>
    decreases s.len(),
{
    if s.len() == 0 {
        None
    } else if place(s.drop_last(), x) is Some {
        place(s.drop_last(), x)
    } else if s.last() == x {
        Some(s.len() - 1)
    } else {
        None
    }
}

/// [`place`] finds a number that is there, at its first place.
pub proof fn place_first(s: Seq<u32>, x: u32)
    ensures
        place(s, x) is Some == s.contains(x),
        match place(s, x) {
            Some(i) => 0 <= i < s.len() && s[i] == x && forall|k: int| 0 <= k < i ==> s[k] != x,
            None => true,
        },
    decreases s.len(),
{
    if s.len() > 0 {
        place_first(s.drop_last(), x);
        if place(s.drop_last(), x) is Some {
            let i = place(s.drop_last(), x)->0;
            assert(s[i] == x);
            assert forall|k: int| 0 <= k < i implies s[k] != x by {
                assert(s.drop_last()[k] == s[k]);
            }
        } else {
            assert forall|k: int| 0 <= k < s.len() - 1 implies s[k] != x by {
                assert(s.drop_last()[k] == s[k]);
            }
            if s.last() == x {
                assert(s[s.len() - 1] == x);
            }
        }
    }
}

fn find(s: &Vec<u32>, x: u32) -> (r: Option<usize>)
    ensures
        match r {
            Some(i) => place(s@, x) == Some(i as int) && i < s@.len(),
            None => place(s@, x) is None,
        },
{
    let mut i: usize = 0;
    while i < s.len()
        invariant
            i <= s@.len(),
            forall|k: int| 0 <= k < i ==> s@[k] != x,
        decreases s@.len() - i,
    {
        if s[i] == x {
            proof {
                place_first(s@, x);
            }
            return Some(i);
        }
        i += 1;
    }
    proof {
        place_first(s@, x);
    }
    None
}

/// The place among `top + 1` levels for a percentage, in double precision:
/// `percent / 100 * top`, rounded.
pub open spec fn level_index(percent: u8, top: nat) -> nat {
    let p = if percent > 100 { 100 } else { percent as nat };
    double::round_up(double::rounded(double::quotient(p, 100) * double::rounded(top)), double::places(p, 100))
}

/// The percentage for a place among `top + 1` levels, in double precision:
/// `i / top * 100`, rounded.
pub open spec fn level_percent(i: nat, top: nat) -> nat {
    double::round_up(
        double::rounded(double::quotient(double::rounded(i), double::rounded(top)) * 100),
        double::places(double::rounded(i), double::rounded(top)),
    )
}

/// The level that a percentage selects.
pub open spec fn level_for(levels: Seq<u32>, percent: u8) -> Option<u32> {
    if levels.len() == 0 {
        None
    } else {
        let i = level_index(percent, (levels.len() - 1) as nat);
        if i < levels.len() {
            Some(ascending(levels)[i as int])
        } else {
            None
        }
    }
}

/// The percentage that selects a level.
pub open spec fn percent_for(levels: Seq<u32>, level: u32) -> u8 {
    match place(ascending(levels), level) {
        Some(i) => if levels.len() > 1 {
            let p = level_percent(i as nat, (levels.len() - 1) as nat);
            if p > 255 {
                255
            } else {
                p as u8
            }
        } else {
            100
        },
        None => 100,
    }
}

/// The device's brightness level for a profile brightness in percent.
pub fn aura_level(levels: &[u32], percent: u8) -> (r: Option<u32>)
    ensures
        r == level_for(levels@, percent),
{
    let sorted = sort(levels);
    proof {
        ascending_sorts(levels@);
    }
    if sorted.len() == 0 {
        return None;
    }
    let top = sorted.len() - 1;
    let p: u128 = if percent > 100 { 100 } else { percent as u128 };
    let (m, s) = double::to_quotient(p, 100);
    proof {
        double::rounded_error(top as nat);
    }
    let t = double::to_rounded(top as u128);
    proof {
        assert(m * t <= 0x20_0000_0000_0000 * 0x2_0000_0000_0000_0000) by (nonlinear_arith)
            requires
                m <= 0x20_0000_0000_0000,
                t <= 0x2_0000_0000_0000_0000,
        ;
        double::rounded_error((m * t) as nat);
    }
    let i = double::to_round_up(double::to_rounded(m * t), s);
    if i < sorted.len() as u128 {
        Some(sorted[i as usize])
    } else {
        None
    }
}

/// The percent that selects `level` (the inverse of [`aura_level`]).
pub fn aura_percent(levels: &[u32], level: u32) -> (r: u8)
    ensures
        r == percent_for(levels@, level),
{
    let sorted = sort(levels);
    proof {
        ascending_sorts(levels@);
        place_first(sorted@, level);
    }
    match find(&sorted, level) {
        None => 100,
        Some(i) => {
            if sorted.len() < 2 {
                return 100;
            }
            let top = sorted.len() - 1;
            proof {
                double::rounded_error(i as nat);
                double::rounded_error(top as nat);
            }
            let a = double::to_rounded(i as u128);
            let b = double::to_rounded(top as u128);
            let (m, s) = double::to_quotient(a, b);
            proof {
                double::rounded_error((m * 100) as nat);
            }
            let p = double::to_round_up(double::to_rounded(m * 100), s);
            if p > 255 {
                255
            } else {
                p as u8
            }
        },
    }
}

/// A level's name: Off, Low, Med or High by its place among four, else its
/// number.
pub open spec fn level_name(sorted: Seq<u32>, level: u32) -> Seq<char> {
    if sorted.len() == 4 && place(sorted, level) is Some {
        let i = place(sorted, level)->0;
        if i == 0 {
            "Off"@
        } else if i == 1 {
            "Low"@
        } else if i == 2 {
            "Med"@
        } else {
            "High"@
        }
    } else {
        number::decimal(level as nat)
    }
}

/// Names for brightness levels: Off/Low/Med/High when there are four, else numbers.
pub fn level_names(levels: &[u32]) -> (r: Vec<String>)
    ensures
        r@.len() == levels@.len(),
        forall|k: int|
            0 <= k < r@.len() ==> (#[trigger] r@[k])@ == level_name(ascending(levels@), levels@[k]),
{
    let sorted = sort(levels);
    let mut r: Vec<String> = Vec::new();
    let mut k: usize = 0;
    while k < levels.len()
        invariant
            k <= levels@.len(),
            sorted@ == ascending(levels@),
            r@.len() == k,
            forall|j: int|
                0 <= j < k ==> (#[trigger] r@[j])@ == level_name(ascending(levels@), levels@[j]),
        decreases levels@.len() - k,
    {
        let level = levels[k];
        let name = match find(&sorted, level) {
            Some(i) => if sorted.len() == 4 {
                if i == 0 {
                    "Off".to_string()
                } else if i == 1 {
                    "Low".to_string()
                } else if i == 2 {
                    "Med".to_string()
                } else {
                    "High".to_string()
                }
            } else {
                number::print(level as u128)
            },
            None => number::print(level as u128),
        };
        r.push(name);
        k += 1;
    }
    r
}

/// 2.55 in double precision, in units of `2^-51`.
pub const BYTES_PER_PERCENT: u128 = 5742089524897382;

/// The Slash brightness byte for a percentage, in double precision:
/// `percent * 2.55`, rounded, and 1 at least.
pub open spec fn byte_for(percent: u8) -> u8 {
    let p = if percent > 100 { 100 } else { percent as nat };
    let b = double::round_up(double::rounded(p * BYTES_PER_PERCENT as nat), 51);
    if b > 255 {
        255
    } else if b < 1 {
        1
    } else {
        b as u8
    }
}

/// The percentage of a Slash brightness byte, in double precision:
/// `byte / 2.55`, rounded.
pub open spec fn byte_percent(byte: u8) -> u8 {
    let n = byte as nat * 0x8_0000_0000_0000;
    let p = double::round_up(
        double::quotient(n, BYTES_PER_PERCENT as nat),
        double::places(n, BYTES_PER_PERCENT as nat),
    );
    if p > 255 {
        255
    } else {
        p as u8
    }
}

/// Slash brightness byte for a percent; never 0, which asusd swaps for its own default.
pub fn slash_byte(percent: u8) -> (r: u8)
    ensures
        r == byte_for(percent),
        r >= 1,
{
    let p: u128 = if percent > 100 { 100 } else { percent as u128 };
    proof {
        double::rounded_error((p * BYTES_PER_PERCENT) as nat);
    }
    let b = double::to_round_up(double::to_rounded(p * BYTES_PER_PERCENT), 51);
    if b > 255 {
        255
    } else if b < 1 {
        1
    } else {
        b as u8
    }
}

/// The percentage of a Slash brightness byte.
pub fn slash_percent(byte: u8) -> (r: u8)
    ensures
        r == byte_percent(byte),
{
    let n = byte as u128 * 0x8_0000_0000_0000;
    let (m, s) = double::to_quotient(n, BYTES_PER_PERCENT);
    let p = double::to_round_up(m, s);
    if p > 255 {
        255
    } else {
        p as u8
    }
}

/// Three roundings in a row, each by half a unit at most, move a quotient of
/// small numbers by half a unit of the last: `q` stands for `a / b * c`.
proof fn three_roundings(a: int, b: int, c: int, d: int, m: int, x: int, e: int, q: int)
    requires
        0 <= a,
        0 < b <= 100,
        0 < c <= 100,
        d >= 0x10_0000_0000_0000,
        2 * (m * b) <= 2 * (a * d) + b,
        2 * (a * d) <= 2 * (m * b) + b,
        2 * x <= 2 * (m * c) + e,
        2 * (m * c) <= 2 * x + e,
        0 <= e <= 200,
        2 * (q * d) <= 2 * x + d,
        2 * x < 2 * (q * d) + d,
    ensures
        2 * (q * b) <= 2 * (a * c) + b,
        2 * (a * c) <= 2 * (q * b) + b,
{
    let small = b * c + e * b;
    assert(small <= 30000) by (nonlinear_arith)
        requires
            small == b * c + e * b,
            0 < b <= 100,
            0 < c <= 100,
            0 <= e <= 200,
    ;
    let over = 2 * (q * b) - 2 * (a * c) - b;
    let under = 2 * (a * c) - 2 * (q * b) - b;
    assert(over * d <= small) by (nonlinear_arith)
        requires
            over == 2 * (q * b) - 2 * (a * c) - b,
            small == b * c + e * b,
            b > 0,
            c > 0,
            2 * (q * d) <= 2 * x + d,
            2 * x <= 2 * (m * c) + e,
            2 * (m * b) <= 2 * (a * d) + b,
    {
        assert(2 * (q * d) * b <= (2 * (m * c) + e + d) * b);
        assert(2 * (m * b) * c <= (2 * (a * d) + b) * c);
        assert(2 * (q * d) * b == 2 * (q * b) * d);
        assert(2 * (m * c) * b == 2 * (m * b) * c);
        assert(2 * (a * d) * c == 2 * (a * c) * d);
    }
    assert(under * d <= small) by (nonlinear_arith)
        requires
            under == 2 * (a * c) - 2 * (q * b) - b,
            small == b * c + e * b,
            b > 0,
            c > 0,
            2 * x <= 2 * (q * d) + d,
            2 * (m * c) <= 2 * x + e,
            2 * (a * d) <= 2 * (m * b) + b,
    {
        assert((2 * (m * c)) * b <= (2 * (q * d) + d + e) * b);
        assert(2 * (a * d) * c <= (2 * (m * b) + b) * c);
        assert(2 * (q * d) * b == 2 * (q * b) * d);
        assert(2 * (m * c) * b == 2 * (m * b) * c);
        assert(2 * (a * d) * c == 2 * (a * c) * d);
    }
    assert(over <= 0) by (nonlinear_arith)
        requires
            over * d <= 30000,
            d >= 0x10_0000_0000_0000,
    ;
    assert(under <= 0) by (nonlinear_arith)
        requires
            under * d <= 30000,
            d >= 0x10_0000_0000_0000,
    ;
}

/// A quotient of small numbers times a small one, rounded, is within half a
/// unit.
proof fn scaled_near(a: nat, b: nat, c: nat)
    requires
        0 < a <= b <= 100,
        0 < c <= 100,
    ensures
        ({
            let q = double::round_up(
                double::rounded(double::quotient(a, b) * c),
                double::places(a, b),
            );
            2 * (q * b) <= 2 * (a * c) + b && 2 * (a * c) <= 2 * (q * b) + b
        }),
{
    let s = double::places(a, b);
    let d = pow2(s);
    let m = double::quotient(a, b);
    double::quotient_error(a, b);
    lemma2_to64_rest();
    if s > 52 {
        lemma_pow2_strictly_increases(52, s);
    }
    assert(m <= double::MANTISSA) by {
        double::nearest_error(a * d, b);
        assert(a * d / b < double::MANTISSA) by (nonlinear_arith)
            requires
                a * d < b * double::MANTISSA,
                b > 0,
        ;
    }
    assert(m * c <= 0x20_0000_0000_0000 * 100) by (nonlinear_arith)
        requires
            m <= 0x20_0000_0000_0000,
            c <= 100,
    ;
    double::rounded_error(m * c);
    let e = pow2(double::excess(m * c));
    if m * c < double::MANTISSA {
        lemma2_to64();
        assert(double::excess(m * c) == 0);
    }
    let x = double::rounded(m * c);
    double::round_up_error(x, s);
    let q = double::round_up(x, s);
    three_roundings(a as int, b as int, c as int, d as int, m as int, x as int, e as int, q as int);
}

/// With up to 101 levels, the place that a place's percentage selects is that
/// place.
proof fn index_of_percent(i: nat, top: nat)
    requires
        0 < top <= 100,
        i <= top,
    ensures
        level_percent(i, top) <= 100,
        level_index(level_percent(i, top) as u8, top) == i,
{
    double::rounded_error(i);
    double::rounded_error(top);
    let p = level_percent(i, top);
    if i == 0 {
        zero_rounds(top);
        zero_rounds(100);
        double::rounded_error(0);
        assert(0 * 100 == 0nat);
        assert(p == 0);
    } else {
        scaled_near(i, top, 100);
        assert(p <= 100) by (nonlinear_arith)
            requires
                2 * (p * top) <= 2 * (i * 100) + top,
                i <= top,
                top > 0,
        ;
    }
    let k = level_index(p as u8, top);
    if p == 0 {
        zero_rounds(100);
        double::rounded_error(0);
        assert(0 * top == 0) by (nonlinear_arith);
        assert(k == 0);
        assert(i == 0) by (nonlinear_arith)
            requires
                2 * (i * 100) <= 2 * (0 * top) + top || i == 0,
                top <= 100,
        ;
    } else {
        scaled_near(p, 100, top);
        assert(top == 100 ==> p == i) by {
            if top == 100 {
                assert(2 * (p * 100) <= 2 * (i * 100) + 100);
                assert(2 * (i * 100) <= 2 * (p * 100) + 100);
            }
        }
        assert(2 * (k * 100) <= 2 * (p * top) + 100);
        assert(2 * (p * top) <= 2 * (k * 100) + 100);
        assert(k == i);
    }
}

proof fn zero_rounds(b: nat)
    requires
        b > 0,
    ensures
        double::places(0, b) == 0,
        double::quotient(0, b) == 0,
        double::round_up(0, 0) == 0,
{
    lemma2_to64();
    assert(0 * pow2(0) == 0);
    assert(0nat / b == 0) by (nonlinear_arith)
        requires
            b > 0,
    ;
    assert(0nat % b == 0) by (nonlinear_arith)
        requires
            b > 0,
    ;
}

/// With up to 101 levels, a level's percentage selects that level again.
pub proof fn level_reads_back(levels: Seq<u32>, level: u32)
    requires
        levels.contains(level),
        levels.len() <= 101,
    ensures
        level_for(levels, percent_for(levels, level)) == Some(level),
{
    ascending_sorts(levels);
    place_first(ascending(levels), level);
    let i = place(ascending(levels), level)->0;
    let top = (levels.len() - 1) as nat;
    if top > 0 {
        index_of_percent(i as nat, top);
    } else {
        double::rounded_error(0);
        let m = double::quotient(100, 100);
        assert(m * double::rounded(0) == 0) by (nonlinear_arith)
            requires
                double::rounded(0) == 0,
        ;
        double::quotient_error(100, 100);
        let s = double::places(100, 100);
        double::round_up_error(0, s);
        lemma_pow2_pos(s);
        assert(double::round_up(0, s) == 0) by (nonlinear_arith)
            requires
                2 * (double::round_up(0, s) * pow2(s)) <= pow2(s),
                pow2(s) > 0,
        ;
    }
}

/// The place of the level for a percentage, among `top` steps, is the nearest
/// to that share of them; what is beyond 100 % counts as that.
pub proof fn level_is_nearest(percent: u8, top: nat)
    requires
        0 < top <= 100,
    ensures
        ({
            let p: int = if percent > 100 {
                100
            } else {
                percent as int
            };
            let k = level_index(percent, top);
            &&& 2 * (k * 100) <= 2 * (p * top) + 100
            &&& 2 * (p * top) <= 2 * (k * 100) + 100
        }),
{
    let p: nat = if percent > 100 {
        100
    } else {
        percent as nat
    };
    double::rounded_error(top);
    if p == 0 {
        zero_rounds(100);
        double::rounded_error(0);
        assert(0 * top == 0) by (nonlinear_arith);
    } else {
        scaled_near(p, 100, top);
    }
}

/// No brightness is the lowest level and full brightness the highest.
pub proof fn ends_are_the_lowest_and_the_highest(levels: Seq<u32>, percent: u8)
    requires
        1 < levels.len() <= 101,
        percent == 0 || percent >= 100,
    ensures
        level_for(levels, percent) matches Some(l) && levels.contains(l) && forall|i: int|
            0 <= i < levels.len() ==> if percent == 0 {
                l <= #[trigger] levels[i]
            } else {
                #[trigger] levels[i] <= l
            },
{
    let top = (levels.len() - 1) as nat;
    level_is_nearest(percent, top);
    ascending_sorts(levels);
    let sorted = ascending(levels);
    let k = level_index(percent, top);
    assert(percent == 0 ==> k == 0) by {
        assert(0 * top == 0) by (nonlinear_arith);
    }
    assert(percent >= 100 ==> k == top);
    assert(sorted.contains(sorted[k as int]));
    assert forall|i: int| 0 <= i < levels.len() implies if percent == 0 {
        sorted[k as int] <= #[trigger] levels[i]
    } else {
        #[trigger] levels[i] <= sorted[k as int]
    } by {
        assert(levels.contains(levels[i]));
        let j = choose|j: int| 0 <= j < sorted.len() && sorted[j] == levels[i];
        assert(sorted[j] == levels[i]);
    }
}

/// The percentage of a level at a place among `top` steps is the nearest to
/// its share of them.
pub proof fn percent_is_nearest(i: nat, top: nat)
    requires
        0 < top <= 100,
        0 < i <= top,
    ensures
        2 * (level_percent(i, top) * top) <= 2 * (i * 100) + top,
        2 * (i * 100) <= 2 * (level_percent(i, top) * top) + top,
{
    double::rounded_error(top);
    double::rounded_error(i);
    scaled_near(i, top, 100);
}

/// The byte for a percentage is within half a unit of `2.55 * percent`.
pub proof fn byte_near(percent: u8)
    requires
        0 < percent <= 100,
    ensures
        100 * byte_for(percent) <= 255 * percent + 50,
        255 * percent <= 100 * byte_for(percent) + 50,
{
    let n = percent as nat * BYTES_PER_PERCENT as nat;
    double::rounded_error(n);
    let e = pow2(double::excess(n));
    if n < double::MANTISSA {
        lemma2_to64();
        assert(double::excess(n) == 0);
    }
    assert(n <= 100 * 5742089524897382);
    assert(e <= 200) by (nonlinear_arith)
        requires
            e * 0x10_0000_0000_0000 <= n || e == 1,
            n <= 100 * 5742089524897382,
    ;
    let x = double::rounded(n);
    double::round_up_error(x, 51);
    lemma2_to64_rest();
    let b = double::round_up(x, 51);
    assert(2 * (b * 0x8_0000_0000_0000) <= 2 * n + e + 0x8_0000_0000_0000);
    assert(2 * n <= 2 * (b * 0x8_0000_0000_0000) + e + 0x8_0000_0000_0000);
}

/// The percentage of a byte is within half a unit of `byte / 2.55`.
pub proof fn byte_percent_near(byte: u8)
    requires
        byte > 0,
    ensures
        byte_percent(byte) <= 100,
        510 * byte_percent(byte) <= 200 * byte + 255,
        200 * byte <= 510 * byte_percent(byte) + 255,
{
    let n = byte as nat * 0x8_0000_0000_0000;
    let b = BYTES_PER_PERCENT as nat;
    let s = double::places(n, b);
    let d = pow2(s);
    double::places_bounds(n, b);
    lemma2_to64_rest();
    lemma2_to64();
    if s < 45 {
        lemma_pow2_strictly_increases(s, 45);
        assert(n * d <= 255 * 0x8_0000_0000_0000 * 0x2000_0000_0000) by (nonlinear_arith)
            requires
                n <= 255 * 0x8_0000_0000_0000,
                d <= 0x2000_0000_0000,
        ;
    } else if s > 45 {
        lemma_pow2_strictly_increases(45, s);
    }
    double::nearest_error(n * d, b);
    let m = double::quotient(n, b);
    double::round_up_error(m, s);
    let q = double::round_up(m, s);
    let over = 2 * (q * b) - 2 * n - b;
    let under = 2 * n - 2 * (q * b) - b;
    assert(over * d <= b) by (nonlinear_arith)
        requires
            over == 2 * (q * b) - 2 * n - b,
            2 * (q * d) <= 2 * m + d,
            2 * (m * b) <= 2 * (n * d) + b,
            b > 0,
    {
        assert(2 * (q * d) * b <= (2 * m + d) * b);
        assert(2 * (q * d) * b == 2 * (q * b) * d);
        assert(2 * m * b == 2 * (m * b));
    }
    assert(under * d <= b) by (nonlinear_arith)
        requires
            under == 2 * n - 2 * (q * b) - b,
            2 * m <= 2 * (q * d) + d,
            2 * (n * d) <= 2 * (m * b) + b,
            b > 0,
    {
        assert(2 * m * b <= (2 * (q * d) + d) * b);
        assert(2 * (q * d) * b == 2 * (q * b) * d);
        assert(2 * m * b == 2 * (m * b));
    }
    assert(over <= 0x1000) by (nonlinear_arith)
        requires
            over * d <= 5742089524897382,
            d >= 0x2000_0000_0000,
    ;
    assert(under <= 0x1000) by (nonlinear_arith)
        requires
            under * d <= 5742089524897382,
            d >= 0x2000_0000_0000,
    ;
    assert(q * b == q * 5742089524897382);
}

/// A percentage set on a Slash bar reads back as that percentage.
pub proof fn slash_reads_back(percent: u8)
    requires
        percent <= 100,
    ensures
        byte_percent(byte_for(percent)) == percent,
{
    if percent == 0 {
        double::rounded_error(0);
        lemma2_to64_rest();
        assert(double::round_up(0, 51) == 0);
        byte_percent_near(1);
    } else {
        byte_near(percent);
        byte_percent_near(byte_for(percent));
    }
}

/// A percentage selects one of the levels there are, for any number of levels
/// up to `2^52`.
pub proof fn level_is_offered(levels: Seq<u32>, percent: u8)
    requires
        0 < levels.len() <= 0x10_0000_0000_0000,
    ensures
        level_for(levels, percent) is Some,
        levels.contains(level_for(levels, percent)->0),
{
    let p: nat = if percent > 100 { 100 } else { percent as nat };
    let top = (levels.len() - 1) as nat;
    let s = double::places(p, 100);
    let d = pow2(s);
    let m = double::quotient(p, 100);
    double::rounded_error(top);
    double::rounded_error(m * top);
    let x = double::rounded(m * top);
    let e = pow2(double::excess(m * top));
    let k = level_index(percent, top);
    if p == 0 {
        zero_rounds(100);
        assert(0 * top == 0) by (nonlinear_arith);
        double::rounded_error(0);
    } else {
        double::quotient_error(p, 100);
        double::round_up_error(x, s);
        lemma2_to64_rest();
        lemma2_to64();
        if s > 52 {
            lemma_pow2_strictly_increases(52, s);
        }
        assert(2 * (p * d) <= 200 * d) by (nonlinear_arith)
            requires
                p <= 100,
        ;
        assert(m <= d);
        assert(m * top <= d * top) by (nonlinear_arith)
            requires
                m <= d,
        ;
        assert(e < d) by {
            if m * top < double::MANTISSA {
                assert(double::excess(m * top) == 0);
            } else {
                assert(e < d) by (nonlinear_arith)
                    requires
                        e * 0x10_0000_0000_0000 <= d * top,
                        top < 0x10_0000_0000_0000,
                        d > 0,
                ;
            }
        }
        assert(k <= top) by (nonlinear_arith)
            requires
                2 * (k * d) <= 2 * x + d,
                2 * x <= 2 * (m * top) + e,
                m * top <= d * top,
                e < d,
                d > 0,
        ;
    }
    ascending_sorts(levels);
    assert(ascending(levels).contains(ascending(levels)[k as int]));
}

} // verus!
