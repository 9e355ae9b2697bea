use omaasus::curve::{halves, Place, Point};
use omaasus::double::{Double, Single};
use omaasus::profile::{FanCurve, TempSource};

fn d(v: f64) -> Double {
    Double { bits: v.to_bits() }
}

fn points(c: &FanCurve) -> Vec<(f64, f64)> {
    c.points.iter().map(|p| (f64::from_bits(p.0.bits), f64::from_bits(p.1.bits))).collect()
}

#[test]
fn equality_is_that_of_the_numbers() {
    let doubles = [0.0, -0.0, 1.0, -1.0, 5e-324, -5e-324, 1e300, f64::MAX, f64::INFINITY, f64::NEG_INFINITY, f64::NAN, -f64::NAN, f64::from_bits(0x7ff0_0000_0000_0001)];
    for a in doubles {
        for b in doubles {
            assert_eq!(d(a) == d(b), a == b, "{a} {b}");
        }
    }
    let single = |v: f32| Single { bits: v.to_bits() };
    let singles = [0.0, -0.0, 1.0, -1.0, 1e-45, -1e-45, f32::MAX, f32::INFINITY, f32::NEG_INFINITY, f32::NAN, -f32::NAN, f32::from_bits(0x7f80_0001)];
    for a in singles {
        for b in singles {
            assert_eq!(single(a) == single(b), a == b, "{a} {b}");
        }
    }
    let with = |min_duty: f64| FanCurve { min_duty: d(min_duty), ..FanCurve::default() };
    assert_eq!(with(0.0), with(-0.0));
    assert_ne!(with(f64::NAN), with(f64::NAN));
    assert_ne!(with(20.0), with(30.0));
}

#[test]
fn halves_are_doubles() {
    for n in 0u16..=u16::MAX {
        assert_eq!(f64::from_bits(halves(n).bits), f64::from(n) / 2.0);
    }
}

#[test]
fn the_curves_that_come_with_the_program() {
    let c = FanCurve::silent();
    assert_eq!(points(&c), [(30.0, 20.0), (50.0, 30.0), (65.0, 45.0), (75.0, 70.0), (85.0, 100.0)]);
    assert_eq!((c.source, c.hysteresis_c, c.min_duty, c.ramp_s), (TempSource::CpuTctl, d(2.0), d(20.0), d(4.0)));
    let c = FanCurve::balanced();
    assert_eq!(points(&c), [(30.0, 30.0), (50.0, 40.0), (60.0, 55.0), (70.0, 75.0), (80.0, 100.0)]);
    assert_eq!((c.source, c.hysteresis_c, c.min_duty, c.ramp_s), (TempSource::CpuTctl, d(1.5), d(25.0), d(3.0)));
    let c = FanCurve::performance();
    assert_eq!(points(&c), [(30.0, 40.0), (45.0, 55.0), (55.0, 70.0), (65.0, 85.0), (75.0, 100.0)]);
    assert_eq!((c.source, c.hysteresis_c, c.min_duty, c.ramp_s), (TempSource::CpuTctl, d(1.0), d(35.0), d(2.0)));
    let c = FanCurve::coolant();
    assert_eq!(points(&c), [(25.0, 30.0), (30.0, 40.0), (35.0, 60.0), (40.0, 85.0), (45.0, 100.0)]);
    assert_eq!((c.source, c.hysteresis_c, c.min_duty, c.ramp_s), (TempSource::Coolant, d(0.5), d(30.0), d(5.0)));
    let c = FanCurve::pump();
    assert_eq!(points(&c), [(25.0, 60.0), (32.0, 70.0), (38.0, 85.0), (42.0, 100.0)]);
    assert_eq!((c.source, c.hysteresis_c, c.min_duty, c.ramp_s), (TempSource::Coolant, d(0.5), d(60.0), d(6.0)));
    let c = FanCurve::default();
    assert_eq!((points(&c).len(), c.source, c.min_duty), (0, TempSource::CpuTctl, d(0.0)));
}

#[test]
fn a_temperature_lies_between_two_points() {
    let mut c = FanCurve::silent();
    c.points = vec![(d(60.0), d(50.0)), (d(-5.0), d(10.0)), (d(60.0), d(70.0)), (d(20.0), d(30.0))];
    let p = |t: f64, v: f64| Point { temp: d(t), duty: d(v) };
    assert_eq!(c.place_of(d(-6.0)), Place::First(d(10.0)));
    assert_eq!(c.place_of(d(-5.0)), Place::First(d(10.0)));
    assert_eq!(c.place_of(d(-0.0)), Place::Between(p(-5.0, 10.0), p(20.0, 30.0)));
    assert_eq!(c.place_of(d(20.0)), Place::Between(p(-5.0, 10.0), p(20.0, 30.0)));
    assert_eq!(c.place_of(d(59.5)), Place::Between(p(20.0, 30.0), p(60.0, 50.0)), "of one temperature the first comes first");
    assert_eq!(c.place_of(d(60.1)), Place::Last(d(70.0)));
    assert_eq!(c.place_of(d(f64::NAN)), Place::Last(d(70.0)));
    assert_eq!(FanCurve::default().place_of(d(1.0)), Place::Nowhere);
    assert_eq!(c.temperatures(), vec![d(-5.0), d(20.0), d(60.0), d(60.0)]);
}
