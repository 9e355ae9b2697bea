//! The sensors of the model, each under an id of its own.

use crate::inventory::{AmdGpu, FanInput, HwmonDevice, PowerInput, RawInventory, TempInput};
use crate::model::{DeviceId, Sensor, SensorKind, SensorRole, SensorView};
use crate::{number, seqs, text};
use vstd::prelude::*;
use vstd::string::*;

verus! {

/// An id as the nth device of its name gets it: bare, then `#2`, `#3` and so
/// on behind it.
pub open spec fn nth_id(base: Seq<char>, n: nat) -> Seq<char> {
    if n <= 1 {
        base
    } else {
        base + "#"@ + number::decimal(n)
    }
}

/// Whether the nth id is the first that is free.
pub open spec fn is_fresh(taken: Seq<Seq<char>>, base: Seq<char>, n: nat) -> bool {
    &&& n >= 1
    &&& !taken.contains(nth_id(base, n))
    &&& forall|m: nat| 1 <= m < n ==> taken.contains(#[trigger] nth_id(base, m))
}

/// The first free id of a name.
pub open spec fn fresh_id(taken: Seq<Seq<char>>, base: Seq<char>) -> Seq<char> {
    nth_id(base, choose|n: nat| is_fresh(taken, base, n))
}

proof fn nth_id_injective(base: Seq<char>, a: nat, b: nat)
    requires
        1 <= a,
        1 <= b,
        nth_id(base, a) == nth_id(base, b),
    ensures
        a == b,
{
    reveal_strlit("#");
    let mark = "#"@;
    if a > 1 && b > 1 {
        let head = base + mark;
        assert(number::decimal(a) =~= (head + number::decimal(a)).skip(head.len() as int));
        assert(number::decimal(b) =~= (head + number::decimal(b)).skip(head.len() as int));
        number::decimal_injective(a, b);
    } else if a > 1 {
        assert(nth_id(base, a).len() > base.len());
    } else if b > 1 {
        assert(nth_id(base, b).len() > base.len());
    }
}

/// Only one id is the first that is free.
proof fn fresh_is(taken: Seq<Seq<char>>, base: Seq<char>, n: nat)
    requires
        is_fresh(taken, base, n),
    ensures
        fresh_id(taken, base) == nth_id(base, n),
{
    let m = choose|m: nat| is_fresh(taken, base, m);
    assert(is_fresh(taken, base, m));
    if m < n {
        assert(taken.contains(nth_id(base, m)));
    } else if n < m {
        assert(taken.contains(nth_id(base, n)));
    }
}

/// Finds the first free id of a name.
fn find_fresh(taken: &Vec<String>, base: &str) -> (r: String)
    ensures
        r@ == fresh_id(text::texts(taken@), base@),
        !text::texts(taken@).contains(r@),
{
    let ghost all = text::texts(taken@);
    let ghost mut free: nat = 0;
    proof {
        free = search_fresh(all, base@, 1, Set::empty());
    }
    let count = taken.len();
    let mut id = base.to_string();
    let mut n: u128 = 1;
    while text::holds(taken.as_slice(), id.as_str())
        invariant
            all == text::texts(taken@),
            all.len() == count,
            1 <= n <= free <= all.len() + 1,
            is_fresh(all, base@, free),
            id@ == nth_id(base@, n as nat),
        decreases free - n,
    {
        n += 1;
        id = text::cat3(base, "#", number::print(n).as_str());
    }
    proof {
        if n < free {
            assert(all.contains(nth_id(base@, n as nat)));
        }
        fresh_is(all, base@, free);
    }
    id
}

/// Whether a device is an integrated GPU's.
pub open spec fn is_igpu(gpus: Seq<AmdGpu>, d: HwmonDevice) -> bool {
    exists|i: int|
        0 <= i < gpus.len() && (#[trigger] gpus[i]).is_integrated && gpus[i].device_path@
            == d.device_path@
}

/// A sensor of a device before it has an id of its own.
pub open spec fn named(
    d: HwmonDevice,
    label: Seq<char>,
    kind: SensorKind,
    role: SensorRole,
    input: Seq<char>,
) -> SensorView {
    SensorView {
        id: "hwmon:"@ + d.name@ + ":"@ + label,
        label,
        role,
        kind,
        driver: d.name@,
        input,
    }
}

pub open spec fn temp_sensor(d: HwmonDevice, igpu: bool) -> spec_fn(TempInput) -> Seq<SensorView> {
    |t: TempInput|
        if t.hidden {
            seq![]
        } else {
            seq![
                named(
                    d,
                    t.label@,
                    SensorKind::Temperature,
                    if igpu {
                        t.igpu_role
                    } else {
                        t.role
                    },
                    t.input@,
                ),
            ]
        }
}

pub open spec fn power_sensor(d: HwmonDevice, igpu: bool) -> spec_fn(PowerInput) -> Seq<
    SensorView,
> {
    |p: PowerInput|
        seq![
            named(
                d,
                p.label@,
                SensorKind::Power,
                if igpu {
                    p.igpu_role
                } else {
                    p.role
                },
                p.input@,
            ),
        ]
}

pub open spec fn fan_sensor(d: HwmonDevice) -> spec_fn(FanInput) -> Seq<SensorView> {
    |f: FanInput| seq![named(d, f.label@, SensorKind::Fan, SensorRole::FanSpeed, f.input@)]
}

/// The sensors of a device: its temperatures but for the hidden ones, its
/// powers and its fan speeds.
pub open spec fn device_sensors(gpus: Seq<AmdGpu>) -> spec_fn(HwmonDevice) -> Seq<SensorView> {
    |d: HwmonDevice|
        seqs::concat(d.temps@, temp_sensor(d, is_igpu(gpus, d))) + seqs::concat(
            d.powers@,
            power_sensor(d, is_igpu(gpus, d)),
        ) + seqs::concat(d.fans@, fan_sensor(d))
}

pub open spec fn ids_of(sensors: Seq<SensorView>) -> Seq<Seq<char>> {
    sensors.map_values(|s: SensorView| s.id)
}

/// Sensors in order, each under the first id of its name that is still free.
pub open spec fn with_ids(sensors: Seq<SensorView>) -> Seq<SensorView>
    decreases sensors.len(),
{
    if sensors.len() == 0 {
        seq![]
    } else {
        let done = with_ids(sensors.drop_last());
        done.push(
            SensorView { id: fresh_id(ids_of(done), sensors.last().id), ..sensors.last() },
        )
    }
}

/// The sensors of everything found.
pub open spec fn sensors_of(raw: RawInventory) -> Seq<SensorView> {
    with_ids(seqs::concat(raw.system.hwmon@, device_sensors(raw.system.amd_gpus@)))
}

/// Puts one sensor more at the end, under an id of its own.
fn push_sensor(
    out: &mut Vec<Sensor>,
    seen: &mut Vec<String>,
    d: &HwmonDevice,
    label: &str,
    kind: SensorKind,
    role: SensorRole,
    input: &str,
    Ghost(so_far): Ghost<Seq<SensorView>>,
)
    requires
        seqs::views(old(out)@) == with_ids(so_far),
        text::texts(old(seen)@) == ids_of(with_ids(so_far)),
    ensures
        seqs::views(final(out)@) == with_ids(
            so_far.push(named(*d, label@, kind, role, input@)),
        ),
        text::texts(final(seen)@) == ids_of(
            with_ids(so_far.push(named(*d, label@, kind, role, input@))),
        ),
{
    let ghost new = named(*d, label@, kind, role, input@);
    let base = text::cat4("hwmon:", d.name.as_str(), ":", label);
    let id = find_fresh(seen, base.as_str());
    let s = Sensor {
        id: DeviceId(id.clone()),
        label: label.to_string(),
        role,
        kind,
        driver: d.name.clone(),
        input: input.to_string(),
    };
    proof {
        assert(so_far.push(new).drop_last() =~= so_far);
        seqs::views_push(out@, s);
        text::texts_push(seen@, id);
        assert(ids_of(with_ids(so_far.push(new))) =~= ids_of(with_ids(so_far)).push(id@));
    }
    out.push(s);
    seen.push(id);
}

/// The sensors of the model.
pub fn sensors(raw: &RawInventory) -> (r: Vec<Sensor>)
    ensures
        seqs::views(r@) == sensors_of(*raw),
{
    let ghost gpus = raw.system.amd_gpus@;
    let ghost f = device_sensors(gpus);
    let hwmon = &raw.system.hwmon;
    let mut out: Vec<Sensor> = Vec::new();
    let mut seen: Vec<String> = Vec::new();
    let ghost mut so_far: Seq<SensorView> = seq![];
    proof {
        assert(seqs::views(out@) =~= with_ids(so_far));
        assert(text::texts(seen@) =~= ids_of(with_ids(so_far)));
        assert(seqs::concat(hwmon@.take(0), f) =~= so_far);
    }
    let mut i: usize = 0;
    while i < hwmon.len()
        invariant
            i <= hwmon@.len(),
            hwmon@ == raw.system.hwmon@,
            gpus == raw.system.amd_gpus@,
            f == device_sensors(gpus),
            so_far == seqs::concat(hwmon@.take(i as int), f),
            seqs::views(out@) == with_ids(so_far),
            text::texts(seen@) == ids_of(with_ids(so_far)),
        decreases hwmon@.len() - i,
    {
        let d = &hwmon[i];
        let ghost before = so_far;
        let mut igpu = false;
        let mut k: usize = 0;
        while k < raw.system.amd_gpus.len()
            invariant
                k <= gpus.len(),
                gpus == raw.system.amd_gpus@,
                igpu == exists|j: int|
                    0 <= j < k && (#[trigger] gpus[j]).is_integrated && gpus[j].device_path@
                        == d.device_path@,
            decreases gpus.len() - k,
        {
            let g = &raw.system.amd_gpus[k];
            if g.is_integrated && text::same(g.device_path.as_str(), d.device_path.as_str()) {
                assert(gpus[k as int].is_integrated);
                igpu = true;
            }
            k += 1;
        }
        let ghost ft = temp_sensor(*d, igpu);
        let ghost fp = power_sensor(*d, igpu);
        let ghost ff = fan_sensor(*d);
        let mut k: usize = 0;
        assert(so_far =~= before + seqs::concat(d.temps@.take(0), ft));
        while k < d.temps.len()
            invariant
                k <= d.temps@.len(),
                ft == temp_sensor(*d, igpu),
                so_far == before + seqs::concat(d.temps@.take(k as int), ft),
                seqs::views(out@) == with_ids(so_far),
                text::texts(seen@) == ids_of(with_ids(so_far)),
            decreases d.temps@.len() - k,
        {
            let t = &d.temps[k];
            proof {
                seqs::concat_take(d.temps@, ft, k as int);
            }
            if !t.hidden {
                let role = if igpu {
                    t.igpu_role
                } else {
                    t.role
                };
                push_sensor(
                    &mut out,
                    &mut seen,
                    d,
                    t.label.as_str(),
                    SensorKind::Temperature,
                    role,
                    t.input.as_str(),
                    Ghost(so_far),
                );
                proof {
                    so_far =
                    so_far.push(named(*d, t.label@, SensorKind::Temperature, role, t.input@));
                }
            }
            assert(so_far =~= before + seqs::concat(d.temps@.take(k + 1), ft));
            k += 1;
        }
        let ghost temps_done = so_far;
        let mut k: usize = 0;
        assert(d.temps@.take(d.temps@.len() as int) =~= d.temps@);
        assert(so_far =~= temps_done + seqs::concat(d.powers@.take(0), fp));
        while k < d.powers.len()
            invariant
                k <= d.powers@.len(),
                fp == power_sensor(*d, igpu),
                so_far == temps_done + seqs::concat(d.powers@.take(k as int), fp),
                seqs::views(out@) == with_ids(so_far),
                text::texts(seen@) == ids_of(with_ids(so_far)),
            decreases d.powers@.len() - k,
        {
            let p = &d.powers[k];
            let role = if igpu {
                p.igpu_role
            } else {
                p.role
            };
            proof {
                seqs::concat_take(d.powers@, fp, k as int);
            }
            push_sensor(
                &mut out,
                &mut seen,
                d,
                p.label.as_str(),
                SensorKind::Power,
                role,
                p.input.as_str(),
                Ghost(so_far),
            );
            proof {
                so_far = so_far.push(named(*d, p.label@, SensorKind::Power, role, p.input@));
                assert(so_far =~= temps_done + seqs::concat(d.powers@.take(k + 1), fp));
            }
            k += 1;
        }
        let ghost powers_done = so_far;
        let mut k: usize = 0;
        assert(d.powers@.take(d.powers@.len() as int) =~= d.powers@);
        assert(so_far =~= powers_done + seqs::concat(d.fans@.take(0), ff));
        while k < d.fans.len()
            invariant
                k <= d.fans@.len(),
                ff == fan_sensor(*d),
                so_far == powers_done + seqs::concat(d.fans@.take(k as int), ff),
                seqs::views(out@) == with_ids(so_far),
                text::texts(seen@) == ids_of(with_ids(so_far)),
            decreases d.fans@.len() - k,
        {
            let x = &d.fans[k];
            proof {
                seqs::concat_take(d.fans@, ff, k as int);
            }
            push_sensor(
                &mut out,
                &mut seen,
                d,
                x.label.as_str(),
                SensorKind::Fan,
                SensorRole::FanSpeed,
                x.input.as_str(),
                Ghost(so_far),
            );
            proof {
                so_far =
                so_far.push(
                    named(*d, x.label@, SensorKind::Fan, SensorRole::FanSpeed, x.input@),
                );
                assert(so_far =~= powers_done + seqs::concat(d.fans@.take(k + 1), ff));
            }
            k += 1;
        }
        proof {
            assert(d.fans@.take(d.fans@.len() as int) =~= d.fans@);
            seqs::concat_take(hwmon@, f, i as int);
            assert(igpu == is_igpu(gpus, *d));
            assert(so_far =~= before + f(*d));
        }
        i += 1;
    }
    assert(hwmon@.take(hwmon@.len() as int) =~= hwmon@);
    out
}

/// Whether a sensor reads the speed of a driver's fan.
pub open spec fn reads_fan(driver: Seq<char>, label: Seq<char>) -> spec_fn(SensorView) -> bool {
    |s: SensorView| s.kind == SensorKind::Fan && s.driver == driver && s.label == label
}

/// The first sensor that reads the speed of a driver's fan.
pub open spec fn tach_of(
    sensors: Seq<SensorView>,
    driver: Seq<char>,
    label: Seq<char>,
) -> Option<Seq<char>> {
    match seqs::first_where(sensors, reads_fan(driver, label)) {
        Some(i) => Some(sensors[i].id),
        None => None,
    }
}

/// Finds the fan-speed sensor of a driver's fan.
pub fn tach(sensors: &Vec<Sensor>, driver: &str, label: &str) -> (r: Option<DeviceId>)
    ensures
        crate::model::id_text(r) == tach_of(seqs::views(sensors@), driver@, label@),
{
    let ghost all = seqs::views(sensors@);
    let ghost f = reads_fan(driver@, label@);
    let mut i: usize = 0;
    while i < sensors.len()
        invariant
            i <= sensors@.len(),
            all == seqs::views(sensors@),
            f == reads_fan(driver@, label@),
            forall|k: int| 0 <= k < i ==> !f(#[trigger] all[k]),
        decreases sensors@.len() - i,
    {
        let s = &sensors[i];
        assert(all[i as int] == s@);
        if s.kind == SensorKind::Fan && text::same(s.driver.as_str(), driver) && text::same(
            s.label.as_str(),
            label,
        ) {
            proof {
                seqs::first_where_is(all, f, i as int);
            }
            return Some(DeviceId(s.id.0.clone()));
        }
        i += 1;
    }
    proof {
        seqs::first_where_none(all, f);
    }
    None
}

/// No two sensors share an id: each keeps everything else and gets its own
/// name, or that name with a number behind it.
pub proof fn sensor_ids_are_distinct(sensors: Seq<SensorView>)
    ensures
        ids_of(with_ids(sensors)).no_duplicates(),
        with_ids(sensors).len() == sensors.len(),
        forall|i: int|
            #![trigger with_ids(sensors)[i]]
            0 <= i < sensors.len() ==> {
                &&& with_ids(sensors)[i] == (SensorView {
                    id: with_ids(sensors)[i].id,
                    ..sensors[i]
                })
                &&& exists|n: nat| n >= 1 && with_ids(sensors)[i].id == #[trigger] nth_id(
                    sensors[i].id,
                    n,
                )
            },
    decreases sensors.len(),
{
    if sensors.len() > 0 {
        let done = with_ids(sensors.drop_last());
        let base = sensors.last().id;
        sensor_ids_are_distinct(sensors.drop_last());
        some_id_is_fresh(ids_of(done), base);
        let id = fresh_id(ids_of(done), base);
        assert(ids_of(with_ids(sensors)) =~= ids_of(done).push(id));
        assert(!ids_of(done).contains(id));
        assert forall|i: int| #![trigger with_ids(sensors)[i]] 0 <= i < sensors.len() implies {
            &&& with_ids(sensors)[i] == (SensorView {
                id: with_ids(sensors)[i].id,
                ..sensors[i]
            })
            &&& exists|n: nat| n >= 1 && with_ids(sensors)[i].id == #[trigger] nth_id(
                sensors[i].id,
                n,
            )
        } by {
            if i < done.len() {
                assert(with_ids(sensors)[i] == done[i]);
                assert(sensors.drop_last()[i] == sensors[i]);
            } else {
                let n = choose|n: nat| is_fresh(ids_of(done), base, n);
                assert(id == nth_id(base, n));
            }
        }
        let all = ids_of(with_ids(sensors));
        assert forall|i: int, j: int| 0 <= i < all.len() && 0 <= j < all.len() && i != j implies all[i]
            != all[j] by {
            if i < done.len() && j < done.len() {
                assert(all[i] == ids_of(done)[i]);
                assert(all[j] == ids_of(done)[j]);
            } else if i < done.len() {
                assert(all[i] == ids_of(done)[i]);
            } else {
                assert(all[j] == ids_of(done)[j]);
            }
        }
    }
}

/// However many ids are taken, one of a name is free.
pub proof fn some_id_is_fresh(taken: Seq<Seq<char>>, base: Seq<char>)
    ensures
        exists|n: nat| is_fresh(taken, base, n),
        !taken.contains(fresh_id(taken, base)),
{
    let n = search_fresh(taken, base, 1, Set::empty());
    fresh_is(taken, base, n);
}

proof fn search_fresh(taken: Seq<Seq<char>>, base: Seq<char>, n: nat, used: Set<Seq<char>>) -> (r:
    nat)
    requires
        1 <= n <= taken.len() + 1,
        used.finite(),
        used.len() == n - 1,
        forall|s: Seq<char>| #[trigger]
            used.contains(s) ==> taken.contains(s) && exists|m: nat|
                1 <= m < n && s == #[trigger] nth_id(base, m),
        forall|m: nat| 1 <= m < n ==> taken.contains(#[trigger] nth_id(base, m)),
    ensures
        is_fresh(taken, base, r),
        r <= taken.len() + 1,
    decreases taken.len() + 1 - n,
{
    let id = nth_id(base, n);
    if taken.contains(id) {
        if used.contains(id) {
            let m = choose|m: nat| 1 <= m < n && id == #[trigger] nth_id(base, m);
            nth_id_injective(base, m, n);
        }
        let more = used.insert(id);
        assert(more.subset_of(taken.to_set())) by {
            assert forall|s: Seq<char>| more.contains(s) implies taken.to_set().contains(s) by {
                assert(taken.contains(s));
            }
        }
        taken.lemma_cardinality_of_set();
        vstd::set_lib::lemma_len_subset(more, taken.to_set());
        assert forall|s: Seq<char>| #[trigger] more.contains(s) implies taken.contains(s)
            && exists|m: nat| 1 <= m < n + 1 && s == #[trigger] nth_id(base, m) by {
            if s != id {
                assert(used.contains(s));
                let m = choose|m: nat| 1 <= m < n && s == #[trigger] nth_id(base, m);
                assert(s == nth_id(base, m));
            } else {
                assert(s == nth_id(base, n));
            }
        }
        search_fresh(taken, base, n + 1, more)
    } else {
        n
    }
}

/// Whether two devices are the same but for where the kernel put them.
pub open spec fn same_device(a: HwmonDevice, b: HwmonDevice) -> bool {
    &&& a.name@ == b.name@
    &&& a.temps@.len() == b.temps@.len()
    &&& forall|i: int|
        0 <= i < a.temps@.len() ==> (#[trigger] a.temps@[i]).label@ == b.temps@[i].label@
            && a.temps@[i].hidden == b.temps@[i].hidden
    &&& a.powers@.len() == b.powers@.len()
    &&& forall|i: int|
        0 <= i < a.powers@.len() ==> (#[trigger] a.powers@[i]).label@ == b.powers@[i].label@
    &&& a.fans@.len() == b.fans@.len()
    &&& forall|i: int|
        0 <= i < a.fans@.len() ==> (#[trigger] a.fans@[i]).label@ == b.fans@[i].label@
}

proof fn same_ids_stay_the_same(a: Seq<SensorView>, b: Seq<SensorView>)
    requires
        ids_of(a) == ids_of(b),
    ensures
        ids_of(with_ids(a)) == ids_of(with_ids(b)),
    decreases a.len(),
{
    assert(ids_of(a).len() == a.len());
    assert(ids_of(b).len() == b.len());
    if a.len() > 0 {
        let x = a.drop_last();
        let y = b.drop_last();
        assert(ids_of(x) =~= ids_of(a).drop_last());
        assert(ids_of(y) =~= ids_of(b).drop_last());
        same_ids_stay_the_same(x, y);
        assert(ids_of(a)[a.len() - 1] == a.last().id);
        assert(ids_of(b)[b.len() - 1] == b.last().id);
        let id = fresh_id(ids_of(with_ids(x)), a.last().id);
        assert(ids_of(with_ids(a)) =~= ids_of(with_ids(x)).push(id));
        assert(ids_of(with_ids(b)) =~= ids_of(with_ids(y)).push(id));
    }
}

proof fn device_ids_are_stable(a: HwmonDevice, x: Seq<AmdGpu>, b: HwmonDevice, y: Seq<AmdGpu>)
    requires
        same_device(a, b),
    ensures
        ids_of(device_sensors(x)(a)) == ids_of(device_sensors(y)(b)),
{
    let h = |s: SensorView| s.id;
    let (ta, tb) = (temp_sensor(a, is_igpu(x, a)), temp_sensor(b, is_igpu(y, b)));
    let (pa, pb) = (power_sensor(a, is_igpu(x, a)), power_sensor(b, is_igpu(y, b)));
    let (fa, fb) = (fan_sensor(a), fan_sensor(b));
    assert forall|i: int| 0 <= i < a.temps@.len() implies ta(#[trigger] a.temps@[i]).map_values(h)
        == tb(b.temps@[i]).map_values(h) by {
        assert(ta(a.temps@[i]).map_values(h) =~= tb(b.temps@[i]).map_values(h));
    }
    assert forall|i: int| 0 <= i < a.powers@.len() implies pa(#[trigger] a.powers@[i]).map_values(h)
        == pb(b.powers@[i]).map_values(h) by {
        assert(pa(a.powers@[i]).map_values(h) =~= pb(b.powers@[i]).map_values(h));
    }
    assert forall|i: int| 0 <= i < a.fans@.len() implies fa(#[trigger] a.fans@[i]).map_values(h)
        == fb(b.fans@[i]).map_values(h) by {
        assert(fa(a.fans@[i]).map_values(h) =~= fb(b.fans@[i]).map_values(h));
    }
    seqs::concat_same(a.temps@, ta, b.temps@, tb, h);
    seqs::concat_same(a.powers@, pa, b.powers@, pb, h);
    seqs::concat_same(a.fans@, fa, b.fans@, fb, h);
    let (t1, t2) = (seqs::concat(a.temps@, ta), seqs::concat(b.temps@, tb));
    let (p1, p2) = (seqs::concat(a.powers@, pa), seqs::concat(b.powers@, pb));
    seqs::map_concat(t1, p1, h);
    seqs::map_concat(t2, p2, h);
    seqs::map_concat(t1 + p1, seqs::concat(a.fans@, fa), h);
    seqs::map_concat(t2 + p2, seqs::concat(b.fans@, fb), h);
}

/// The same hardware gets the same ids across boots: wherever the kernel put
/// its devices, and whatever their inputs are called, ids only depend on the
/// devices' names and labels.
pub proof fn sensor_ids_are_stable(a: RawInventory, b: RawInventory)
    requires
        a.system.hwmon@.len() == b.system.hwmon@.len(),
        forall|i: int|
            0 <= i < a.system.hwmon@.len() ==> same_device(
                #[trigger] a.system.hwmon@[i],
                b.system.hwmon@[i],
            ),
    ensures
        ids_of(sensors_of(a)) == ids_of(sensors_of(b)),
{
    let h = |s: SensorView| s.id;
    let f = device_sensors(a.system.amd_gpus@);
    let g = device_sensors(b.system.amd_gpus@);
    assert forall|i: int| 0 <= i < a.system.hwmon@.len() implies f(
        #[trigger] a.system.hwmon@[i],
    ).map_values(h) == g(b.system.hwmon@[i]).map_values(h) by {
        device_ids_are_stable(
            a.system.hwmon@[i],
            a.system.amd_gpus@,
            b.system.hwmon@[i],
            b.system.amd_gpus@,
        );
    }
    seqs::concat_same(a.system.hwmon@, f, b.system.hwmon@, g, h);
    same_ids_stay_the_same(
        seqs::concat(a.system.hwmon@, f),
        seqs::concat(b.system.hwmon@, g),
    );
}

} // verus!
