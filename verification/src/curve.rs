//! Fan curves: which points of a curve a temperature lies between, and the
//! curves that come with the program. Duties are interpolated by whoever asks.

use crate::double::{self, Double};
use crate::profile::{FanCurve, TempSource};
use vstd::arithmetic::power2::*;
use vstd::prelude::*;

verus! {

/// The place of a number's highest bit.
pub open spec fn top_bit(n: nat) -> nat
    decreases n,
{
    if n <= 1 {
        0
    } else {
        1 + top_bit(n / 2)
    }
}

/// The bit pattern of a number of halves: an exponent, and what follows the
/// highest bit.
pub open spec fn half_bits(n: nat) -> nat {
    if n == 0 {
        0
    } else {
        (1022 + top_bit(n)) * 0x10_0000_0000_0000 + ((n - pow2(top_bit(n))) * pow2(
            (52 - top_bit(n)) as nat,
        )) as nat
    }
}

/// A number of halves as a double.
pub fn halves(n: u16) -> (r: Double)
    ensures
        r.bits == half_bits(n as nat),
{
    if n == 0 {
        return Double { bits: 0 };
    }
    let mut k: u64 = n as u64;
    let mut e: u64 = 0;
    let mut p: u64 = 1;
    let mut q: u64 = 0x10_0000_0000_0000;
    proof {
        lemma2_to64();
        lemma2_to64_rest();
    }
    while k > 1
        invariant
            1 <= k <= 0xffff,
            e + top_bit(k as nat) == top_bit(n as nat),
            e <= 16,
            k * p <= n < (k + 1) * p,
            1 <= p <= n <= 0xffff,
            p == pow2(e as nat),
            q == pow2((52 - e) as nat),
            q * p == 0x10_0000_0000_0000,
            pow2(16) == 0x10000,
        decreases k,
    {
        proof {
            let half = k as int / 2;
            assert(half * (2 * p) <= k * p && (half + 1) * (2 * p) >= (k + 1) * p)
                by (nonlinear_arith)
                requires
                    half == k as int / 2,
                    p >= 1,
                    k >= 0,
            ;
            assert(2 * p <= half * (2 * p)) by (nonlinear_arith)
                requires
                    half >= 1,
                    p >= 1,
            ;
            lemma_pow2_unfold((e + 1) as nat);
            lemma_pow2_unfold((52 - e) as nat);
            if e >= 16 {
                if e > 16 {
                    lemma_pow2_strictly_increases(16, e as nat);
                }
                assert(false);
            }
            let r = pow2((52 - e - 1) as nat) as int;
            assert(q == 2 * r);
            assert((q as int / 2) * (p * 2) == q * p) by (nonlinear_arith)
                requires
                    q == 2 * r,
            ;
        }
        k = k / 2;
        e += 1;
        p = p * 2;
        q = q / 2;
    }
    proof {
        assert(n < 2 * p);
        assert((n - p) * q < p * q) by (nonlinear_arith)
            requires
                p <= n,
                n < 2 * p,
                q >= 1,
        ;
        assert(q * p == p * q) by (nonlinear_arith);
        assert((n - p) * q >= 0) by (nonlinear_arith)
            requires
                p <= n,
                q >= 1,
        ;
        lemma_pow2_pos((52 - e) as nat);
    }
    Double { bits: (1022 + e) * 0x10_0000_0000_0000 + (n as u64 - p) * q }
}

/// A number lies between the power of two at its highest bit and the next.
proof fn top_bit_bounds(n: nat)
    requires
        n > 0,
    ensures
        pow2(top_bit(n)) <= n < pow2(top_bit(n) + 1),
    decreases n,
{
    lemma2_to64();
    if n > 1 {
        top_bit_bounds(n / 2);
        lemma_pow2_unfold(top_bit(n));
        lemma_pow2_unfold(top_bit(n) + 1);
    }
}

/// Halves are exact: an exponent of 1022 stands for one half, and the fraction
/// behind it, with its leading one, scaled by the exponent, is the number.
pub proof fn halves_are_exact(n: nat)
    requires
        n < 0x10000,
    ensures
        n == 0 ==> half_bits(n) == 0,
        n > 0 ==> {
            let exponent = half_bits(n) / 0x10_0000_0000_0000;
            let fraction = half_bits(n) % 0x10_0000_0000_0000;
            &&& 1022 <= exponent < 1038
            &&& (0x10_0000_0000_0000 + fraction) * pow2((exponent - 1022) as nat) == n
                * 0x10_0000_0000_0000
        },
{
    if n > 0 {
        let k = top_bit(n);
        top_bit_bounds(n);
        lemma2_to64();
        lemma2_to64_rest();
        if k >= 16 {
            if k > 16 {
                lemma_pow2_strictly_increases(16, k);
            }
            assert(false);
        }
        let p = pow2(k);
        let q = pow2((52 - k) as nat);
        lemma_pow2_adds(k, (52 - k) as nat);
        lemma_pow2_pos((52 - k) as nat);
        lemma_pow2_unfold(k + 1);
        let m = (n - p) * q;
        assert(0 <= m < p * q) by (nonlinear_arith)
            requires
                m == (n - p) * q,
                p <= n < 2 * p,
                q > 0,
        ;
        assert(p * q == 0x10_0000_0000_0000);
        let bits = half_bits(n);
        assert(bits == (1022 + k) * 0x10_0000_0000_0000 + m);
        vstd::arithmetic::div_mod::lemma_fundamental_div_mod_converse(
            bits as int,
            0x10_0000_0000_0000,
            (1022 + k) as int,
            m,
        );
        assert((p * q + m) * p == n * (p * q)) by (nonlinear_arith)
            requires
                m == (n - p) * q,
        ;
    }
}

/// A point of a curve in whole degrees and percents.
pub open spec fn is_point(p: (Double, Double), temp: nat, duty: nat) -> bool {
    p.0.bits == half_bits(2 * temp) && p.1.bits == half_bits(2 * duty)
}

fn point(temp: u16, duty: u16) -> (r: (Double, Double))
    requires
        temp <= 1000,
        duty <= 1000,
    ensures
        is_point(r, temp as nat, duty as nat),
{
    (halves(2 * temp), halves(2 * duty))
}

/// Whether a curve has these points, in whole degrees and percents.
pub open spec fn has_points(c: FanCurve, points: Seq<(nat, nat)>) -> bool {
    c.points@.len() == points.len() && forall|i: int|
        0 <= i < points.len() ==> is_point(
            #[trigger] c.points@[i],
            points[i].0,
            points[i].1,
        )
}

/// Whether a curve follows a source, with hysteresis and ramp in halves of a
/// degree and of a second, and a least duty in percent.
pub open spec fn follows(
    c: FanCurve,
    source: TempSource,
    hysteresis: nat,
    min_duty: nat,
    ramp: nat,
) -> bool {
    &&& c.source == source
    &&& c.hysteresis_c.bits == half_bits(hysteresis)
    &&& c.min_duty.bits == half_bits(2 * min_duty)
    &&& c.ramp_s.bits == half_bits(ramp)
}

impl FanCurve {
    pub fn silent() -> (r: Self)
        ensures
            has_points(r, seq![(30, 20), (50, 30), (65, 45), (75, 70), (85, 100)]),
            follows(r, TempSource::CpuTctl, 4, 20, 8),
    {
        FanCurve {
            points: vec![point(30, 20), point(50, 30), point(65, 45), point(75, 70), point(85, 100)],
            source: TempSource::CpuTctl,
            hysteresis_c: halves(4),
            min_duty: halves(40),
            ramp_s: halves(8),
        }
    }

    pub fn balanced() -> (r: Self)
        ensures
            has_points(r, seq![(30, 30), (50, 40), (60, 55), (70, 75), (80, 100)]),
            follows(r, TempSource::CpuTctl, 3, 25, 6),
    {
        FanCurve {
            points: vec![point(30, 30), point(50, 40), point(60, 55), point(70, 75), point(80, 100)],
            source: TempSource::CpuTctl,
            hysteresis_c: halves(3),
            min_duty: halves(50),
            ramp_s: halves(6),
        }
    }

    pub fn performance() -> (r: Self)
        ensures
            has_points(r, seq![(30, 40), (45, 55), (55, 70), (65, 85), (75, 100)]),
            follows(r, TempSource::CpuTctl, 2, 35, 4),
    {
        FanCurve {
            points: vec![point(30, 40), point(45, 55), point(55, 70), point(65, 85), point(75, 100)],
            source: TempSource::CpuTctl,
            hysteresis_c: halves(2),
            min_duty: halves(70),
            ramp_s: halves(4),
        }
    }

    pub fn coolant() -> (r: Self)
        ensures
            has_points(r, seq![(25, 30), (30, 40), (35, 60), (40, 85), (45, 100)]),
            follows(r, TempSource::Coolant, 1, 30, 10),
    {
        FanCurve {
            points: vec![point(25, 30), point(30, 40), point(35, 60), point(40, 85), point(45, 100)],
            source: TempSource::Coolant,
            hysteresis_c: halves(1),
            min_duty: halves(60),
            ramp_s: halves(10),
        }
    }

    pub fn pump() -> (r: Self)
        ensures
            has_points(r, seq![(25, 60), (32, 70), (38, 85), (42, 100)]),
            follows(r, TempSource::Coolant, 1, 60, 12),
    {
        FanCurve {
            points: vec![point(25, 60), point(32, 70), point(38, 85), point(42, 100)],
            source: TempSource::Coolant,
            hysteresis_c: halves(1),
            min_duty: halves(120),
            ramp_s: halves(12),
        }
    }
}

impl Default for FanCurve {
    fn default() -> (r: Self)
        ensures
            r.points@.len() == 0,
            follows(r, TempSource::CpuTctl, 0, 0, 0),
    {
        FanCurve {
            points: Vec::new(),
            source: TempSource::CpuTctl,
            hysteresis_c: halves(0),
            min_duty: halves(0),
            ramp_s: halves(0),
        }
    }
}

/// Points with one more in its place: behind those that are no hotter.
pub open spec fn placed(s: Seq<(Double, Double)>, p: (Double, Double)) -> Seq<(Double, Double)>
    decreases s.len(),
{
    if s.len() == 0 || double::rank(s.last().0) <= double::rank(p.0) {
        s.push(p)
    } else {
        placed(s.drop_last(), p).push(s.last())
    }
}

/// Points by their temperatures; those of one temperature keep their order.
pub open spec fn by_temperature(s: Seq<(Double, Double)>) -> Seq<(Double, Double)>
    decreases s.len(),
{
    if s.len() == 0 {
        seq![]
    } else {
        placed(by_temperature(s.drop_last()), s.last())
    }
}

/// A point placed at an index.
proof fn placed_at(s: Seq<(Double, Double)>, p: (Double, Double), i: int)
    requires
        0 <= i <= s.len(),
        i > 0 ==> double::rank(s[i - 1].0) <= double::rank(p.0),
        forall|k: int| i <= k < s.len() ==> double::rank((#[trigger] s[k]).0) > double::rank(p.0),
    ensures
        placed(s, p) == s.insert(i, p),
    decreases s.len(),
{
    if i == s.len() {
        assert(s.insert(i, p) =~= s.push(p));
    } else {
        let rest = s.drop_last();
        assert(double::rank(s[s.len() - 1].0) > double::rank(p.0));
        assert forall|k: int| i <= k < rest.len() implies double::rank(
            (#[trigger] rest[k]).0,
        ) > double::rank(p.0) by {
            assert(rest[k] == s[k]);
        }
        placed_at(rest, p, i);
        assert(s.insert(i, p) =~= rest.insert(i, p).push(s.last()));
    }
}

fn sort_points(points: &Vec<(Double, Double)>) -> (r: Vec<(Double, Double)>)
    ensures
        r@ == by_temperature(points@),
{
    let mut r: Vec<(Double, Double)> = Vec::new();
    let mut n: usize = 0;
    assert(r@ =~= by_temperature(points@.take(0)));
    while n < points.len()
        invariant
            n <= points@.len(),
            r@ == by_temperature(points@.take(n as int)),
        decreases points@.len() - n,
    {
        let p = (points[n].0, points[n].1);
        let at = double::to_rank(p.0);
        let mut i = r.len();
        while i > 0 && double::to_rank(r[i - 1].0) > at
            invariant
                i <= r@.len(),
                at == double::rank(p.0),
                forall|k: int| i <= k < r@.len() ==> double::rank((#[trigger] r@[k]).0) > at,
            decreases i,
        {
            i -= 1;
        }
        proof {
            placed_at(r@, p, i as int);
            assert(points@.take(n + 1).drop_last() =~= points@.take(n as int));
        }
        r.insert(i, p);
        n += 1;
    }
    assert(points@.take(points@.len() as int) =~= points@);
    r
}

/// Where a temperature lies on a curve.
#[derive(Debug, Clone, Copy, PartialEq)]
pub enum Place {
    /// The curve has no points.
    Nowhere,
    /// At its first point or below, which has this duty.
    First(Double),
    /// Behind one point and at the next, or before it.
    Between(Point, Point),
    /// Behind its last point, which has this duty.
    Last(Double),
}

/// A point of a curve.
#[derive(Debug, Clone, Copy, PartialEq)]
pub struct Point {
    pub temp: Double,
    pub duty: Double,
}

pub open spec fn point_of(p: (Double, Double)) -> Point {
    Point { temp: p.0, duty: p.1 }
}

/// Whether the first point from a place on that a temperature does not pass
/// is here.
pub open spec fn reaches(s: Seq<(Double, Double)>, temp: Double, i: int) -> bool {
    &&& 0 <= i < s.len()
    &&& double::at_most(temp, s[i].0)
    &&& forall|k: int| 0 <= k < i ==> !double::at_most(temp, (#[trigger] s[k]).0)
}

/// Where a temperature lies on points in order.
pub open spec fn lies(s: Seq<(Double, Double)>, temp: Double, place: Place) -> bool {
    match place {
        Place::Nowhere => s.len() == 0,
        Place::First(duty) => reaches(s, temp, 0) && duty == s[0].1,
        Place::Between(a, b) => exists|i: int| #[trigger]
            reaches(s, temp, i) && i > 0 && a == point_of(s[i - 1]) && b == point_of(s[i]),
        Place::Last(duty) => s.len() > 0 && duty == s.last().1 && forall|k: int|
            0 <= k < s.len() ==> !double::at_most(temp, (#[trigger] s[k]).0),
    }
}

impl FanCurve {
    /// Finds where a temperature lies on the curve.
    pub fn place_of(&self, temp: Double) -> (r: Place)
        ensures
            lies(by_temperature(self.points@), temp, r),
    {
        let s = sort_points(&self.points);
        let mut i: usize = 0;
        while i < s.len()
            invariant
                i <= s@.len(),
                s@ == by_temperature(self.points@),
                forall|k: int| 0 <= k < i ==> !double::at_most(temp, (#[trigger] s@[k]).0),
            decreases s@.len() - i,
        {
            if double::is_at_most(temp, s[i].0) {
                assert(reaches(s@, temp, i as int));
                if i == 0 {
                    return Place::First(s[0].1);
                }
                return Place::Between(
                    Point { temp: s[i - 1].0, duty: s[i - 1].1 },
                    Point { temp: s[i].0, duty: s[i].1 },
                );
            }
            i += 1;
        }
        if s.len() == 0 {
            Place::Nowhere
        } else {
            Place::Last(s[s.len() - 1].1)
        }
    }

    /// The temperatures of the curve, in order.
    pub fn temperatures(&self) -> (r: Vec<Double>)
        ensures
            r@ == by_temperature(self.points@).map_values(|p: (Double, Double)| p.0),
    {
        let ghost f = |p: (Double, Double)| p.0;
        let s = sort_points(&self.points);
        let mut r: Vec<Double> = Vec::new();
        let mut i: usize = 0;
        assert(r@ =~= s@.take(0).map_values(f));
        while i < s.len()
            invariant
                i <= s@.len(),
                f == (|p: (Double, Double)| p.0),
                r@ == s@.take(i as int).map_values(f),
            decreases s@.len() - i,
        {
            r.push(s[i].0);
            assert(r@ =~= s@.take(i + 1).map_values(f));
            i += 1;
        }
        assert(s@.take(s@.len() as int) =~= s@);
        r
    }
}

/// Whether temperatures ascend.
pub open spec fn ascends(s: Seq<(Double, Double)>) -> bool {
    forall|i: int, j: int|
        0 <= i <= j < s.len() ==> double::rank(#[trigger] s[i].0) <= double::rank(#[trigger] s[j].0)
}

proof fn placed_ascends(s: Seq<(Double, Double)>, p: (Double, Double))
    requires
        ascends(s),
    ensures
        ascends(placed(s, p)),
        placed(s, p).to_multiset() == s.to_multiset().insert(p),
        placed(s, p).len() == s.len() + 1,
        forall|i: int|
            0 <= i < placed(s, p).len() ==> double::rank((#[trigger] placed(s, p)[i]).0)
                <= double::rank(p.0)
                || s.len() > 0 && double::rank(placed(s, p)[i].0) <= double::rank(s.last().0),
    decreases s.len(),
{
    broadcast use vstd::seq_lib::group_to_multiset_ensures;

    let r = placed(s, p);
    if s.len() == 0 || double::rank(s.last().0) <= double::rank(p.0) {
        assert forall|i: int, j: int| 0 <= i <= j < r.len() implies double::rank(
            #[trigger] r[i].0,
        ) <= double::rank(#[trigger] r[j].0) by {
            if j == s.len() && i < s.len() {
                assert(double::rank(s[i].0) <= double::rank(s[s.len() - 1].0));
            } else if j < s.len() {
                assert(double::rank(s[i].0) <= double::rank(s[j].0));
            }
        }
        assert forall|i: int| 0 <= i < r.len() implies double::rank((#[trigger] r[i]).0)
            <= double::rank(p.0) by {
            if i < s.len() {
                assert(double::rank(s[i].0) <= double::rank(s[s.len() - 1].0));
            }
        }
    } else {
        let rest = s.drop_last();
        assert(ascends(rest)) by {
            assert forall|i: int, j: int| 0 <= i <= j < rest.len() implies double::rank(
                #[trigger] rest[i].0,
            ) <= double::rank(#[trigger] rest[j].0) by {
                assert(double::rank(s[i].0) <= double::rank(s[j].0));
            }
        }
        placed_ascends(rest, p);
        let q = placed(rest, p);
        assert(r == q.push(s.last()));
        if rest.len() > 0 {
            assert(double::rank(s[s.len() - 2].0) <= double::rank(s[s.len() - 1].0));
        }
        assert forall|i: int| 0 <= i < r.len() implies double::rank((#[trigger] r[i]).0)
            <= double::rank(s.last().0) by {
            if i < q.len() {
                assert(r[i] == q[i]);
            }
        }
        assert forall|i: int, j: int| 0 <= i <= j < r.len() implies double::rank(
            #[trigger] r[i].0,
        ) <= double::rank(#[trigger] r[j].0) by {
            if j < q.len() {
                assert(double::rank(q[i].0) <= double::rank(q[j].0));
            } else {
                assert(double::rank(r[i].0) <= double::rank(s.last().0));
            }
        }
        assert(s =~= rest.push(s.last()));
        assert(r.to_multiset() =~= s.to_multiset().insert(p));
    }
}

/// Ordering points keeps them all, coldest first.
pub proof fn points_are_ordered(s: Seq<(Double, Double)>)
    ensures
        ascends(by_temperature(s)),
        by_temperature(s).to_multiset() == s.to_multiset(),
        by_temperature(s).len() == s.len(),
    decreases s.len(),
{
    broadcast use vstd::seq_lib::group_to_multiset_ensures;

    if s.len() > 0 {
        let rest = s.drop_last();
        points_are_ordered(rest);
        placed_ascends(by_temperature(rest), s.last());
        assert(s =~= rest.push(s.last()));
    } else {
        assert(by_temperature(s) =~= s);
    }
}

/// A point goes behind those that are no hotter and before all that are, so
/// that points of one temperature keep their order.
pub proof fn points_go_behind_cooler_ones(s: Seq<(Double, Double)>, p: (Double, Double))
    ensures
        exists|i: int|
            0 <= i <= s.len() && by_temperature(s.push(p)) == #[trigger] by_temperature(s).insert(
                i,
                p,
            ) && (forall|k: int|
                0 <= k < i ==> double::rank((#[trigger] by_temperature(s)[k]).0) <= double::rank(
                    p.0,
                )) && (forall|k: int|
                i <= k < s.len() ==> double::rank((#[trigger] by_temperature(s)[k]).0)
                    > double::rank(p.0)),
{
    assert(s.push(p).drop_last() =~= s);
    points_are_ordered(s);
    let sorted = by_temperature(s);
    let i = hotter_from(sorted, p);
    placed_at(sorted, p, i);
}

proof fn hotter_from(s: Seq<(Double, Double)>, p: (Double, Double)) -> (i: int)
    requires
        ascends(s),
    ensures
        0 <= i <= s.len(),
        forall|k: int| 0 <= k < i ==> double::rank((#[trigger] s[k]).0) <= double::rank(p.0),
        forall|k: int| i <= k < s.len() ==> double::rank((#[trigger] s[k]).0) > double::rank(p.0),
    decreases s.len(),
{
    if s.len() == 0 || double::rank(s.last().0) <= double::rank(p.0) {
        assert forall|k: int| 0 <= k < s.len() implies double::rank((#[trigger] s[k]).0)
            <= double::rank(p.0) by {
            assert(double::rank(s[k].0) <= double::rank(s[s.len() - 1].0));
        }
        s.len() as int
    } else {
        let rest = s.drop_last();
        assert forall|a: int, b: int| 0 <= a <= b < rest.len() implies double::rank(
            #[trigger] rest[a].0,
        ) <= double::rank(#[trigger] rest[b].0) by {
            assert(double::rank(s[a].0) <= double::rank(s[b].0));
        }
        let i = hotter_from(rest, p);
        assert forall|k: int| 0 <= k < i implies double::rank((#[trigger] s[k]).0)
            <= double::rank(p.0) by {
            assert(rest[k] == s[k]);
        }
        assert forall|k: int| i <= k < s.len() implies double::rank((#[trigger] s[k]).0)
            > double::rank(p.0) by {
            if k < rest.len() {
                assert(rest[k] == s[k]);
            }
        }
        i
    }
}

/// Where a temperature lies is decided by the points in order: at the first
/// one that it does not pass, or behind them all.
pub proof fn places_are_by_temperature(s: Seq<(Double, Double)>, temp: Double, r: Place, i: int)
    requires
        lies(s, temp, r),
        0 <= i <= s.len(),
        forall|k: int| 0 <= k < i ==> !double::at_most(temp, (#[trigger] s[k]).0),
        i < s.len() ==> double::at_most(temp, s[i].0),
    ensures
        s.len() == 0 ==> r is Nowhere,
        s.len() > 0 && i == 0 ==> r == Place::First(s[0].1),
        0 < i < s.len() ==> r == Place::Between(
            Point { temp: s[i - 1].0, duty: s[i - 1].1 },
            Point { temp: s[i].0, duty: s[i].1 },
        ),
        s.len() > 0 && i == s.len() ==> r == Place::Last(s[s.len() - 1].1),
{
    match r {
        Place::Nowhere => {},
        Place::First(duty) => {
            assert(reaches(s, temp, 0));
            if i > 0 {
                assert(!double::at_most(temp, s[0].0));
            }
        },
        Place::Between(a, b) => {
            let k = choose|k: int| #[trigger]
                reaches(s, temp, k) && k > 0 && a == point_of(s[k - 1]) && b == point_of(s[k]);
            if k < i {
                assert(!double::at_most(temp, s[k].0));
            }
            if i < k {
                assert(!double::at_most(temp, s[i].0));
            }
        },
        Place::Last(duty) => {
            if i < s.len() {
                assert(!double::at_most(temp, s[i].0));
            }
        },
    }
}

/// A temperature between two points of a curve is hotter than the first and
/// no hotter than the second.
pub proof fn between_holds_the_temperature(s: Seq<(Double, Double)>, temp: Double, a: Point, b: Point)
    requires
        lies(s, temp, Place::Between(a, b)),
    ensures
        double::at_most(temp, b.temp),
        !double::at_most(temp, a.temp),
{
    let i = choose|i: int| #[trigger]
        reaches(s, temp, i) && i > 0 && a == point_of(s[i - 1]) && b == point_of(s[i]);
    assert(!double::at_most(temp, s[i - 1].0));
}

} // verus!
