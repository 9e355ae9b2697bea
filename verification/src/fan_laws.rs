//! What the model says of fan outputs and sensors, by what the inventory
//! lists.

use crate::inventory::{
    AsusdInfo, HidDevice, HwmonDevice, ModeCurves, NvidiaGpu, PwmChannel, RawInventory, TempInput,
};
use crate::model::{
    CurveInput, CurveTemp, FanBackendView, FanOutputView, Release, SensorKind, SensorRole,
    SensorView, StoredCurveView,
};
use crate::{fans, number, sensors, seqs};
use vstd::prelude::*;
use vstd::string::*;

verus! {

/// An output that takes a duty has the name that is known of it; else its
/// header's on the board, else its driver's, each with its number.
pub proof fn duty_outputs_are_named(d: HwmonDevice, p: PwmChannel, s: Seq<SensorView>)
    ensures
        p.quirk matches Some(q) ==> fans::pwm_fan(d, p, s).id == q.id@ && fans::pwm_fan(
            d,
            p,
            s,
        ).label == q.label@,
        p.quirk is None && d.super_io ==> fans::pwm_fan(d, p, s).id == "superio:pwm"@
            + number::decimal(p.index as nat),
        p.quirk is None && !d.super_io ==> {
            &&& fans::pwm_fan(d, p, s).id == "hwmon:"@ + d.name@ + ":pwm"@ + number::decimal(
                p.index as nat,
            )
            &&& fans::pwm_fan(d, p, s).label == d.friendly_name@ + " pwm"@ + number::decimal(
                p.index as nat,
            )
        },
        p.quirk is None && d.super_io && p.header is None ==> fans::pwm_fan(d, p, s).label
            == "Fan header "@ + number::decimal(p.index as nat),
        p.quirk is None && d.super_io && p.header is Some ==> fans::pwm_fan(d, p, s).label
            == p.header->0.name@ + " (pwm"@ + number::decimal(p.index as nat) + ")"@,
{
}

/// An output that takes a duty is driven where it was found. What is known of
/// it says how low it goes, how it is handed back and what it follows;
/// without that it goes down to zero, follows processor and GPU, and goes
/// back to its own mode, or to full speed where it has none.
pub proof fn duty_outputs_are_safe(d: HwmonDevice, p: PwmChannel, s: Seq<SensorView>)
    ensures
        ({
            let f = fans::pwm_fan(d, p, s);
            &&& f.caps.duty
            &&& f.caps.max_rpm is None
            &&& f.backend == (FanBackendView::Hwmon { dir: d.path@, index: p.index })
            &&& f.firmware_curves == Map::<Seq<char>, StoredCurveView>::empty()
            &&& p.quirk matches Some(q) ==> f.caps.min_duty == q.min_duty && f.caps.release
                == q.release && f.caps.curve_input == q.curve_input
            &&& p.quirk is None ==> {
                &&& f.caps.min_duty.bits == 0
                &&& f.caps.curve_input == CurveInput::CpuOrGpu
                &&& p.has_enable ==> f.caps.release is RestoreMode
                &&& !p.has_enable ==> (f.caps.release matches Release::SafeFixed(full)
                    && full.bits == 0x4059_0000_0000_0000)
            }
        }),
{
}

/// Only curves of a Super I/O chip whose mode is known are programmed, with as
/// many points as the output has; their temperature can be chosen exactly
/// where the output says so.
pub proof fn programmed_curves_are_known(d: HwmonDevice, p: PwmChannel, s: Seq<SensorView>)
    ensures
        fans::pwm_fan(d, p, s).caps.firmware_curve is Some <==> p.auto_curve is Some && d.super_io
            && d.smart_fan,
        fans::pwm_fan(d, p, s).caps.firmware_curve matches Some(c) ==> {
            &&& c.points == p.auto_curve->0.points
            &&& c.temp == CurveTemp::Selectable <==> p.auto_curve->0.has_temp_sel
        },
{
}

/// An output's speed is read by the first sensor of its driver that reads a
/// fan, under the label of the first fan input of its number.
pub proof fn speeds_are_read_beside_the_output(
    d: HwmonDevice,
    p: PwmChannel,
    s: Seq<SensorView>,
    i: int,
    k: int,
)
    requires
        0 <= i < d.fans@.len(),
        d.fans@[i].index == p.index,
        forall|j: int| 0 <= j < i ==> (#[trigger] d.fans@[j]).index != p.index,
        0 <= k <= s.len(),
        forall|j: int|
            0 <= j < k ==> !((#[trigger] s[j]).kind == SensorKind::Fan && s[j].driver == d.name@
                && s[j].label == d.fans@[i].label@),
    ensures
        k < s.len() && s[k].kind == SensorKind::Fan && s[k].driver == d.name@ && s[k].label
            == d.fans@[i].label@ ==> fans::pwm_fan(d, p, s).tach == Some(s[k].id),
        k == s.len() ==> fans::pwm_fan(d, p, s).tach is None,
{
    device_speed(s, d, p.index, i, k);
}

proof fn device_speed(s: Seq<SensorView>, d: HwmonDevice, index: u32, i: int, k: int)
    requires
        0 <= i < d.fans@.len(),
        d.fans@[i].index == index,
        forall|j: int| 0 <= j < i ==> (#[trigger] d.fans@[j]).index != index,
        0 <= k <= s.len(),
        forall|j: int|
            0 <= j < k ==> !((#[trigger] s[j]).kind == SensorKind::Fan && s[j].driver == d.name@
                && s[j].label == d.fans@[i].label@),
    ensures
        k < s.len() && s[k].kind == SensorKind::Fan && s[k].driver == d.name@ && s[k].label
            == d.fans@[i].label@ ==> fans::device_tach(s, d, index) == Some(s[k].id),
        k == s.len() ==> fans::device_tach(s, d, index) is None,
{
    seqs::first_where_is(d.fans@, fans::at_index(index), i);
    let reads = sensors::reads_fan(d.name@, d.fans@[i].label@);
    if k < s.len() {
        if reads(s[k]) {
            seqs::first_where_is(s, reads, k);
        }
    } else {
        seqs::first_where_none(s, reads);
    }
}

/// Without a fan input of its number an output's speed is not read.
pub proof fn no_input_reads_no_speed(d: HwmonDevice, p: PwmChannel, s: Seq<SensorView>)
    requires
        forall|j: int| 0 <= j < d.fans@.len() ==> (#[trigger] d.fans@[j]).index != p.index,
    ensures
        fans::pwm_fan(d, p, s).tach is None,
{
    seqs::first_where_none(d.fans@, fans::at_index(p.index));
}

/// What is known of an output is noted, and else its header's name, each with
/// where it is known from.
pub proof fn known_outputs_are_noted(d: HwmonDevice, p: PwmChannel)
    ensures
        p.quirk matches Some(q) ==> {
            let notes = fans::pwm_fan_notes(d, p);
            &&& notes.len() == 1
            &&& notes[0].source == q.source@
            &&& notes[0].what == q.id@ + ": minimum "@ + q.min_duty_text@ + " %, released to "@ + (
            match q.release {
                Release::RestoreMode => "RestoreMode"@,
                Release::Auto => "Auto"@,
                Release::SafeFixed(_) => "SafeFixed("@ + q.release_duty_text@ + ")"@,
            })
        },
        p.quirk is None && d.super_io && p.header is Some ==> {
            let notes = fans::pwm_fan_notes(d, p);
            &&& notes.len() == 1
            &&& notes[0].source == p.header->0.source@
            &&& notes[0].what == fans::pwm_fan(d, p, seq![]).id + ": header "@ + p.header->0.name@
        },
        p.quirk is None && !(d.super_io && p.header is Some) ==> fans::pwm_fan_notes(d, p).len()
            == 0,
{
}

/// Whether asusd stores the curve of a fan: in the first of its modes.
pub open spec fn stored_by(a: AsusdInfo, fan: Seq<char>) -> bool {
    &&& a.has_fan_curves
    &&& a.fan_curves@.len() > 0
    &&& exists|i: int|
        0 <= i < a.fan_curves@[0].curves@.len() && (
        #[trigger] a.fan_curves@[0].curves@[i]).fan@ == fan
}

/// A fan that only its firmware drives goes through asusd exactly where asusd
/// stores its curve, and else straight to the driver.
pub proof fn firmware_fans_go_through_asusd(
    raw: RawInventory,
    s: Seq<SensorView>,
    d: HwmonDevice,
    p: PwmChannel,
    points: u32,
    fan: Seq<char>,
)
    ensures
        ({
            let f = fans::curve_fan(raw, s, d, p, points, fan);
            let by_asusd = raw.asusd is Some && stored_by(raw.asusd->0, fan);
            &&& by_asusd ==> f.id == "asusd:fan:"@ + fan && f.backend == (
            FanBackendView::AsusdCurve { fan })
            &&& !by_asusd ==> f.id == "asuscurve:pwm"@ + number::decimal(p.index as nat)
                && f.backend == (FanBackendView::AsusCurve {
                dir: d.path@,
                index: p.index,
                driver: d.name@,
            })
        }),
{
    if let Some(a) = raw.asusd {
        if a.fan_curves@.len() > 0 {
            let curves = a.fan_curves@[0].curves@;
            let names = fans::fans_in(curves);
            if names.contains(fan) {
                let i = choose|i: int| 0 <= i < names.len() && names[i] == fan;
                assert(curves[i].fan@ == fan);
            }
            if stored_by(a, fan) {
                let i = choose|i: int| 0 <= i < curves.len() && (#[trigger] curves[i]).fan@ == fan;
                assert(names[i] == fan);
            }
        }
    }
}

/// A fan that only its firmware drives takes no duty. It has the curve of its
/// output, follows its own processor or GPU, is handed back to itself, and
/// is called by its name.
pub proof fn firmware_fans_take_no_duty(
    raw: RawInventory,
    s: Seq<SensorView>,
    d: HwmonDevice,
    p: PwmChannel,
    points: u32,
    fan: Seq<char>,
)
    ensures
        ({
            let f = fans::curve_fan(raw, s, d, p, points, fan);
            &&& !f.caps.duty
            &&& f.caps.firmware_curve is Some
            &&& f.caps.firmware_curve->0.points == points
            &&& f.caps.firmware_curve->0.temp == CurveTemp::Firmware
            &&& f.caps.min_duty.bits == 0
            &&& f.caps.release is Auto
            &&& f.caps.curve_input == CurveInput::Gpu <==> fan == "GPU"@
            &&& f.caps.curve_input == CurveInput::Cpu <==> fan != "GPU"@
            &&& f.caps.max_rpm is Some <==> p.max_rpm is Some
            &&& p.max_rpm matches Some(m) ==> f.caps.max_rpm == Some(m.rpm)
            &&& fan == "MID"@ ==> f.label == "Mid fan"@
            &&& fan != "MID"@ ==> f.label == fan + " fan"@
        }),
{
}

/// The speed of a fan that only its firmware drives is read by the driver that
/// goes with its curves, at the input of its number.
pub proof fn firmware_speeds_are_read_by_their_driver(
    raw: RawInventory,
    s: Seq<SensorView>,
    d: HwmonDevice,
    p: PwmChannel,
    points: u32,
    fan: Seq<char>,
    x: int,
    i: int,
    k: int,
)
    requires
        d.curve_tach_driver is Some,
        0 <= x < raw.system.hwmon@.len(),
        raw.system.hwmon@[x].name@ == d.curve_tach_driver->0@,
        forall|j: int|
            0 <= j < x ==> (#[trigger] raw.system.hwmon@[j]).name@ != d.curve_tach_driver->0@,
        0 <= i < raw.system.hwmon@[x].fans@.len(),
        raw.system.hwmon@[x].fans@[i].index == p.index,
        forall|j: int|
            0 <= j < i ==> (#[trigger] raw.system.hwmon@[x].fans@[j]).index != p.index,
        0 <= k < s.len(),
        s[k].kind == SensorKind::Fan,
        s[k].driver == d.curve_tach_driver->0@,
        s[k].label == raw.system.hwmon@[x].fans@[i].label@,
        forall|j: int|
            0 <= j < k ==> !((#[trigger] s[j]).kind == SensorKind::Fan && s[j].driver
                == d.curve_tach_driver->0@ && s[j].label
                == raw.system.hwmon@[x].fans@[i].label@),
    ensures
        fans::curve_fan(raw, s, d, p, points, fan).tach == Some(s[k].id),
{
    seqs::first_where_is(raw.system.hwmon@, fans::driven_by(d.curve_tach_driver->0@), x);
    device_speed(s, raw.system.hwmon@[x], p.index, i, k);
}

/// Without a driver that goes with its curves, such a fan's speed is not read.
pub proof fn no_driver_reads_no_speed(
    raw: RawInventory,
    s: Seq<SensorView>,
    d: HwmonDevice,
    p: PwmChannel,
    points: u32,
    fan: Seq<char>,
)
    requires
        d.curve_tach_driver is None || forall|j: int|
            0 <= j < raw.system.hwmon@.len() ==> (#[trigger] raw.system.hwmon@[j]).name@
                != d.curve_tach_driver->0@,
    ensures
        fans::curve_fan(raw, s, d, p, points, fan).tach is None,
{
    if d.curve_tach_driver is Some {
        seqs::first_where_none(raw.system.hwmon@, fans::driven_by(d.curve_tach_driver->0@));
    }
}

/// How fast such a fan turns is noted where it is known.
pub proof fn known_speeds_are_noted(
    raw: RawInventory,
    s: Seq<SensorView>,
    d: HwmonDevice,
    p: PwmChannel,
    points: u32,
    fan: Seq<char>,
)
    ensures
        p.max_rpm is None ==> fans::curve_fan_notes(raw, p, fan).len() == 0,
        p.max_rpm matches Some(m) ==> {
            let notes = fans::curve_fan_notes(raw, p, fan);
            &&& notes.len() == 1
            &&& notes[0].what == fans::curve_fan(raw, s, d, p, points, fan).id
                + ": maximum speed "@ + number::decimal(m.rpm as nat) + " rpm"@
            &&& notes[0].source == m.source@
        },
{
}

/// Whether a mode stores a curve for a fan.
pub open spec fn has_curve(m: ModeCurves, fan: Seq<char>) -> bool {
    exists|i: int| 0 <= i < m.curves@.len() && (#[trigger] m.curves@[i]).fan@ == fan
}

/// The curves that asusd stores for a fan: for each mode that has one, the
/// first of the fan, of the last mode under a name; and for no other.
pub proof fn stored_curves_are_by_mode(modes: Seq<ModeCurves>, fan: Seq<char>, i: int, k: int)
    requires
        0 <= i < modes.len(),
        0 <= k < modes[i].curves@.len(),
        modes[i].curves@[k].fan@ == fan,
        forall|j: int| 0 <= j < k ==> (#[trigger] modes[i].curves@[j]).fan@ != fan,
        forall|j: int|
            i < j < modes.len() ==> (#[trigger] modes[j]).mode@ != modes[i].mode@ || !has_curve(
                modes[j],
                fan,
            ),
    ensures
        fans::stored_curves(modes, fan).contains_key(modes[i].mode@),
        fans::stored_curves(modes, fan)[modes[i].mode@].enabled == modes[i].curves@[k].enabled,
        fans::stored_curves(modes, fan)[modes[i].mode@].points == modes[i].curves@[k].points@,
    decreases modes.len(),
{
    let m = modes.last();
    if i == modes.len() - 1 {
        seqs::first_where_is(m.curves@, fans::curve_for(fan), k);
    } else {
        let rest = modes.drop_last();
        assert forall|j: int| i < j < rest.len() implies (#[trigger] rest[j]).mode@
            != rest[i].mode@ || !has_curve(rest[j], fan) by {
            assert(rest[j] == modes[j]);
        }
        stored_curves_are_by_mode(rest, fan, i, k);
        seqs::first_where_found(m.curves@, fans::curve_for(fan));
        assert(modes[modes.len() - 1] == m);
        if seqs::first_where(m.curves@, fans::curve_for(fan)) is Some {
            let f = seqs::first_where(m.curves@, fans::curve_for(fan))->0;
            assert(m.curves@[f].fan@ == fan);
            assert(has_curve(m, fan));
        }
    }
}

/// A curve is stored only under a mode that has one for the fan.
pub proof fn stored_curves_have_modes(modes: Seq<ModeCurves>, fan: Seq<char>, name: Seq<char>)
    requires
        fans::stored_curves(modes, fan).contains_key(name),
    ensures
        exists|i: int|
            0 <= i < modes.len() && (#[trigger] modes[i]).mode@ == name && has_curve(modes[i], fan),
    decreases modes.len(),
{
    if modes.len() > 0 {
        let m = modes.last();
        seqs::first_where_found(m.curves@, fans::curve_for(fan));
        let rest = modes.drop_last();
        if fans::stored_curves(rest, fan).contains_key(name) {
            stored_curves_have_modes(rest, fan, name);
            let i = choose|i: int|
                0 <= i < rest.len() && (#[trigger] rest[i]).mode@ == name && has_curve(
                    rest[i],
                    fan,
                );
            assert(modes[i] == rest[i]);
        } else {
            let f = seqs::first_where(m.curves@, fans::curve_for(fan))->0;
            assert(m.curves@[f].fan@ == fan);
            assert(modes[modes.len() - 1].mode@ == name);
        }
    }
}

/// A fan that only its firmware drives shows the curves that asusd stores.
pub proof fn firmware_fans_show_stored_curves(
    raw: RawInventory,
    s: Seq<SensorView>,
    d: HwmonDevice,
    p: PwmChannel,
    points: u32,
    fan: Seq<char>,
)
    ensures
        raw.asusd is None ==> fans::curve_fan(raw, s, d, p, points, fan).firmware_curves
            == Map::<Seq<char>, StoredCurveView>::empty(),
        raw.asusd matches Some(a) ==> fans::curve_fan(raw, s, d, p, points, fan).firmware_curves
            == fans::stored_curves(a.fan_curves@, fan),
{
}

/// A channel is an output where it takes a duty, or where it has a curve that
/// drives a known fan; and else it is none.
pub proof fn channels_become_outputs(
    raw: RawInventory,
    s: Seq<SensorView>,
    d: HwmonDevice,
    p: PwmChannel,
)
    ensures
        p.has_duty ==> fans::channel_fans(raw, s, d)(p) == seq![fans::pwm_fan(d, p, s)]
            && fans::channel_notes(raw, d)(p) == fans::pwm_fan_notes(d, p),
        !p.has_duty && p.auto_curve is Some && p.firmware_fan is Some ==> fans::channel_fans(
            raw,
            s,
            d,
        )(p) == seq![
            fans::curve_fan(raw, s, d, p, p.auto_curve->0.points, p.firmware_fan->0@),
        ] && fans::channel_notes(raw, d)(p) == fans::curve_fan_notes(raw, p, p.firmware_fan->0@),
        !p.has_duty && !(p.auto_curve is Some && p.firmware_fan is Some) ==> fans::channel_fans(
            raw,
            s,
            d,
        )(p).len() == 0 && fans::channel_notes(raw, d)(p).len() == 0,
{
}

/// An NVIDIA GPU with fans is one output that takes a duty for all of them,
/// and one without is none.
pub proof fn nvidia_fans_are_one_output(g: NvidiaGpu)
    ensures
        g.num_fans == 0 ==> fans::nvidia_fans(g).len() == 0,
        g.num_fans > 0 ==> {
            let all = fans::nvidia_fans(g);
            &&& all.len() == 1
            &&& all[0].id == "nvidia:"@ + number::decimal(g.index as nat) + ":fans"@
            &&& all[0].label == g.name@ + " fans"@
            &&& all[0].backend == (FanBackendView::Nvidia { gpu: g.index, fans: g.num_fans })
            &&& drives_freely(all[0], CurveInput::Gpu)
        },
{
}

/// Whether an output takes any duty, is handed back to itself, has no curve of
/// its own, and follows something.
pub open spec fn drives_freely(f: FanOutputView, input: CurveInput) -> bool {
    &&& f.tach is None
    &&& f.caps.duty
    &&& f.caps.firmware_curve is None
    &&& f.caps.min_duty.bits == 0
    &&& f.caps.release is Auto
    &&& f.caps.max_rpm is None
    &&& f.caps.curve_input == input
    &&& f.firmware_curves == Map::<Seq<char>, StoredCurveView>::empty()
}

/// Each channel of a Lian Li hub is an output that takes a duty, numbered from
/// one; where there are several hubs its label says which.
pub proof fn hub_channels_are_outputs(hub: HidDevice, n: int, hubs: nat, c: int)
    requires
        n >= 0,
        hub.channels is Some,
        1 <= c <= hub.channels->0,
    ensures
        fans::hub_fans(hub, n, hubs).len() == hub.channels->0,
        ({
            let f = fans::hub_fans(hub, n, hubs)[c - 1];
            &&& f.id == "lianli:"@ + number::decimal(n as nat) + ":ch"@ + number::decimal(c as nat)
            &&& hubs <= 1 ==> f.label == "Lian Li channel "@ + number::decimal(c as nat)
            &&& hubs > 1 ==> f.label == "Lian Li hub "@ + number::decimal((n + 1) as nat)
                + " channel "@ + number::decimal(c as nat)
            &&& f.backend == (FanBackendView::LianLi { path: hub.path@, channel: c as u8 })
            &&& drives_freely(f, CurveInput::CpuOrGpu)
        }),
{
}

/// A hub is counted once for each path: the first of ENE's devices there,
/// where it is a known hub.
pub proof fn hubs_are_counted_once(hid: Seq<HidDevice>, i: int)
    requires
        0 <= i < hid.len(),
        hid[i].by_ene,
        hid[i].channels is Some,
        forall|j: int| 0 <= j < i ==> !((#[trigger] hid[j]).by_ene && hid[j].path@ == hid[i].path@),
    ensures
        fans::hubs_of(hid).contains(hid[i]),
    decreases hid.len(),
{
    let rest = hid.drop_last();
    if i == hid.len() - 1 {
        seqs::first_where_none(rest, fans::is_ene_at(hid[i].path@));
        assert(fans::hubs_of(hid).last() == hid[i]);
        assert(fans::hubs_of(hid)[fans::hubs_of(hid).len() - 1] == hid[i]);
    } else {
        assert forall|j: int| 0 <= j < i implies !((#[trigger] rest[j]).by_ene && rest[j].path@
            == rest[i].path@) by {
            assert(rest[j] == hid[j]);
        }
        hubs_are_counted_once(rest, i);
        let k = choose|k: int|
            0 <= k < fans::hubs_of(rest).len() && fans::hubs_of(rest)[k] == hid[i];
        assert(fans::hubs_of(hid)[k] == hid[i]);
    }
}

/// Nothing else is a hub, and no two are at one path.
pub proof fn only_known_hubs_count(hid: Seq<HidDevice>)
    ensures
        forall|k: int|
            0 <= k < fans::hubs_of(hid).len() ==> {
                &&& (#[trigger] fans::hubs_of(hid)[k]).by_ene
                &&& fans::hubs_of(hid)[k].channels is Some
                &&& hid.contains(fans::hubs_of(hid)[k])
            },
        forall|a: int, b: int|
            0 <= a < b < fans::hubs_of(hid).len() ==> (#[trigger] fans::hubs_of(hid)[a]).path@ != (
            #[trigger] fans::hubs_of(hid)[b]).path@,
    decreases hid.len(),
{
    if hid.len() > 0 {
        let rest = hid.drop_last();
        let h = hid.last();
        let was = fans::hubs_of(rest);
        let now = fans::hubs_of(hid);
        only_known_hubs_count(rest);
        seqs::first_where_found(rest, fans::is_ene_at(h.path@));
        assert forall|k: int| 0 <= k < now.len() implies {
            &&& (#[trigger] now[k]).by_ene
            &&& now[k].channels is Some
            &&& hid.contains(now[k])
        } by {
            if k < was.len() {
                assert(now[k] == was[k]);
                let j = choose|j: int| 0 <= j < rest.len() && rest[j] == was[k];
                assert(hid[j] == was[k]);
            } else {
                assert(hid[hid.len() - 1] == h);
            }
        }
        assert forall|a: int, b: int| 0 <= a < b < now.len() implies (#[trigger] now[a]).path@ != (
        #[trigger] now[b]).path@ by {
            assert(now[a] == was[a]);
            if b < was.len() {
                assert(now[b] == was[b]);
            } else {
                let j = choose|j: int| 0 <= j < rest.len() && rest[j] == was[a];
                assert(!fans::is_ene_at(h.path@)(rest[j]));
            }
        }
    }
}

/// Hubs are numbered in the order they are listed: one more device never moves
/// those before it.
pub proof fn hubs_keep_their_places(hid: Seq<HidDevice>, h: HidDevice)
    ensures
        fans::hubs_of(hid).is_prefix_of(fans::hubs_of(hid.push(h))),
        fans::hubs_of(seq![]).len() == 0,
{
    assert(hid.push(h).drop_last() =~= hid);
}

/// Notes come in the order of the channels that they are of.
pub proof fn notes_come_with_their_channels(raw: RawInventory, i: int, j: int)
    requires
        0 <= i < raw.system.hwmon@.len(),
        0 <= j < raw.system.hwmon@[i].pwms@.len(),
    ensures
        ({
            let d = raw.system.hwmon@[i];
            let before = seqs::concat(raw.system.hwmon@.take(i), fans::device_notes(raw)).len()
                + seqs::concat(d.pwms@.take(j), fans::channel_notes(raw, d)).len();
            let own = fans::channel_notes(raw, d)(d.pwms@[j]);
            &&& before + own.len() <= fans::fan_notes(raw).len()
            &&& own =~= fans::fan_notes(raw).subrange(before as int, (before + own.len()) as int)
        }),
{
    let all = raw.system.hwmon@;
    let d = all[i];
    let f = fans::device_notes(raw);
    let g = fans::channel_notes(raw, d);
    concat_part(all, f, i);
    concat_part(d.pwms@, g, j);
    let a = seqs::concat(all.take(i), f).len();
    let b = seqs::concat(d.pwms@.take(j), g).len();
    let own = g(d.pwms@[j]);
    assert(f(d) == seqs::concat(d.pwms@, g));
    assert(own =~= fans::fan_notes(raw).subrange(
        (a + b) as int,
        (a + b + own.len()) as int,
    ));
}

/// The outputs are those of the drivers' channels, device by device, then
/// NVIDIA's, then the hubs'.
pub proof fn outputs_come_in_order(raw: RawInventory, s: Seq<SensorView>, i: int, j: int)
    requires
        0 <= i < raw.system.hwmon@.len(),
        0 <= j < raw.system.hwmon@[i].pwms@.len(),
    ensures
        ({
            let d = raw.system.hwmon@[i];
            let before = seqs::concat(raw.system.hwmon@.take(i), fans::device_fans(raw, s)).len()
                + seqs::concat(d.pwms@.take(j), fans::channel_fans(raw, s, d)).len();
            let own = fans::channel_fans(raw, s, d)(d.pwms@[j]);
            &&& before + own.len() <= fans::fans_of(raw, s).len()
            &&& own =~= fans::fans_of(raw, s).subrange(before as int, (before + own.len()) as int)
        }),
{
    let all = raw.system.hwmon@;
    let d = all[i];
    let f = fans::device_fans(raw, s);
    let g = fans::channel_fans(raw, s, d);
    concat_part(all, f, i);
    concat_part(d.pwms@, g, j);
    let dev = seqs::concat(all, f);
    let a = seqs::concat(all.take(i), f).len();
    let b = seqs::concat(d.pwms@.take(j), g).len();
    let own = g(d.pwms@[j]);
    assert(f(d) == seqs::concat(d.pwms@, g));
    assert(f(d) == dev.subrange(a as int, (a + f(d).len()) as int));
    assert(own == f(d).subrange(b as int, (b + own.len()) as int));
    assert(own =~= dev.subrange((a + b) as int, (a + b + own.len()) as int));
    assert(fans::fans_of(raw, s).subrange((a + b) as int, (a + b + own.len()) as int)
        =~= dev.subrange((a + b) as int, (a + b + own.len()) as int));
}

proof fn concat_part<T, U>(s: Seq<T>, f: spec_fn(T) -> Seq<U>, i: int)
    requires
        0 <= i < s.len(),
    ensures
        seqs::concat(s.take(i), f).len() + f(s[i]).len() <= seqs::concat(s, f).len(),
        f(s[i]) == seqs::concat(s, f).subrange(
            seqs::concat(s.take(i), f).len() as int,
            (seqs::concat(s.take(i), f).len() + f(s[i]).len()) as int,
        ),
    decreases s.len(),
{
    let before = seqs::concat(s.take(i), f);
    let rest = s.drop_last();
    if i == s.len() - 1 {
        assert(s.take(i) =~= rest);
        assert(f(s[i]) =~= seqs::concat(s, f).subrange(
            before.len() as int,
            (before.len() + f(s[i]).len()) as int,
        ));
    } else {
        concat_part(rest, f, i);
        assert(rest.take(i) =~= s.take(i));
        assert(rest[i] == s[i]);
        assert(f(s[i]) =~= seqs::concat(s, f).subrange(
            before.len() as int,
            (before.len() + f(s[i]).len()) as int,
        ));
    }
}

/// Behind them come NVIDIA's outputs, then the hubs', each in its order, and
/// nothing more.
pub proof fn gpu_and_hub_outputs_follow(raw: RawInventory, s: Seq<SensorView>, i: int, c: int)
    ensures
        ({
            let all = fans::fans_of(raw, s);
            let own = |g: NvidiaGpu| fans::nvidia_fans(g);
            let hubs = fans::hubs_of(raw.system.hid@);
            let first = seqs::concat(raw.system.hwmon@, fans::device_fans(raw, s)).len();
            let second = seqs::concat(raw.nvidia@, own).len();
            &&& all.len() == first + second + fans::all_hub_fans(hubs, hubs.len() as int).len()
            &&& 0 <= i < raw.nvidia@.len() && raw.nvidia@[i].num_fans > 0 ==> {
                let at = first + seqs::concat(raw.nvidia@.take(i), own).len();
                at < first + second && all[at as int] == fans::nvidia_fans(raw.nvidia@[i])[0]
            }
            &&& 0 <= i < hubs.len() && 1 <= c <= hubs[i].channels->0 ==> {
                let at = first + second + fans::all_hub_fans(hubs, i).len() + c - 1;
                at < all.len() && all[at as int] == fans::hub_fans(hubs[i], i, hubs.len())[c - 1]
            }
        }),
{
    let all = fans::fans_of(raw, s);
    let dev = seqs::concat(raw.system.hwmon@, fans::device_fans(raw, s));
    let own = |g: NvidiaGpu| fans::nvidia_fans(g);
    let nv = seqs::concat(raw.nvidia@, own);
    let hubs = fans::hubs_of(raw.system.hid@);
    if 0 <= i < raw.nvidia@.len() && raw.nvidia@[i].num_fans > 0 {
        concat_part(raw.nvidia@, own, i);
        let at = seqs::concat(raw.nvidia@.take(i), own).len() as int;
        assert(own(raw.nvidia@[i])[0] == nv[at]);
        assert(all[dev.len() + at] == nv[at]);
    }
    if 0 <= i < hubs.len() && 1 <= c <= hubs[i].channels->0 {
        hub_part(hubs, hubs.len() as int, i);
        let at = fans::all_hub_fans(hubs, i).len() as int;
        let part = fans::hub_fans(hubs[i], i, hubs.len());
        let end = fans::all_hub_fans(hubs, hubs.len() as int);
        assert(part[c - 1] == end[at + c - 1]);
        assert(all[dev.len() + nv.len() + at + c - 1] == end[at + c - 1]);
    }
}

proof fn hub_part(hubs: Seq<HidDevice>, n: int, i: int)
    requires
        0 <= i < n <= hubs.len(),
    ensures
        ({
            let own = fans::hub_fans(hubs[i], i, hubs.len());
            let at = fans::all_hub_fans(hubs, i).len();
            &&& at + own.len() <= fans::all_hub_fans(hubs, n).len()
            &&& own == fans::all_hub_fans(hubs, n).subrange(at as int, (at + own.len()) as int)
        }),
    decreases n,
{
    let own = fans::hub_fans(hubs[i], i, hubs.len());
    let at = fans::all_hub_fans(hubs, i).len();
    if i < n - 1 {
        hub_part(hubs, n - 1, i);
    }
    assert(own =~= fans::all_hub_fans(hubs, n).subrange(at as int, (at + own.len()) as int));
}

/// A driver's sensors: its temperatures without those that mean nothing, then
/// its powers, then its fans, each with its label, its driver and the file to
/// read, and what it measures.
pub proof fn sensors_are_as_their_driver_says(raw: RawInventory, d: HwmonDevice, i: int)
    ensures
        ({
            let temps = d.temps@.filter(|t: TempInput| !t.hidden);
            let igpu = exists|g: int|
                0 <= g < raw.system.amd_gpus@.len() && (
                #[trigger] raw.system.amd_gpus@[g]).is_integrated
                    && raw.system.amd_gpus@[g].device_path@ == d.device_path@;
            let all = sensors::device_sensors(raw.system.amd_gpus@)(d);
            &&& all.len() == temps.len() + d.powers@.len() + d.fans@.len()
            &&& 0 <= i < temps.len() ==> {
                &&& all[i].kind == SensorKind::Temperature
                &&& all[i].label == temps[i].label@
                &&& all[i].driver == d.name@
                &&& all[i].input == temps[i].input@
                &&& all[i].id == "hwmon:"@ + d.name@ + ":"@ + temps[i].label@
                &&& igpu ==> all[i].role == temps[i].igpu_role
                &&& !igpu ==> all[i].role == temps[i].role
            }
            &&& 0 <= i < d.powers@.len() ==> {
                let s = all[temps.len() + i];
                &&& s.kind == SensorKind::Power
                &&& s.label == d.powers@[i].label@
                &&& s.driver == d.name@
                &&& s.input == d.powers@[i].input@
                &&& s.id == "hwmon:"@ + d.name@ + ":"@ + d.powers@[i].label@
                &&& igpu ==> s.role == d.powers@[i].igpu_role
                &&& !igpu ==> s.role == d.powers@[i].role
            }
            &&& 0 <= i < d.fans@.len() ==> {
                let s = all[temps.len() + d.powers@.len() + i];
                &&& s.kind == SensorKind::Fan
                &&& s.label == d.fans@[i].label@
                &&& s.driver == d.name@
                &&& s.input == d.fans@[i].input@
                &&& s.id == "hwmon:"@ + d.name@ + ":"@ + d.fans@[i].label@
                &&& s.role == SensorRole::FanSpeed
            }
        }),
{
    let igpu = sensors::is_igpu(raw.system.amd_gpus@, d);
    temps_as_filtered(d, igpu, d.temps@);
    singles(d.powers@, sensors::power_sensor(d, igpu));
    singles(d.fans@, sensors::fan_sensor(d));
}

proof fn temps_as_filtered(d: HwmonDevice, igpu: bool, temps: Seq<TempInput>)
    ensures
        ({
            let kept = temps.filter(|t: TempInput| !t.hidden);
            let all = seqs::concat(temps, sensors::temp_sensor(d, igpu));
            &&& all.len() == kept.len()
            &&& forall|i: int|
                0 <= i < kept.len() ==> #[trigger] all[i] == sensors::temp_sensor(d, igpu)(
                    kept[i],
                )[0] && !kept[i].hidden
        }),
    decreases temps.len(),
{
    reveal(Seq::filter);
    if temps.len() > 0 {
        temps_as_filtered(d, igpu, temps.drop_last());
    }
}

proof fn singles<T>(s: Seq<T>, f: spec_fn(T) -> Seq<SensorView>)
    requires
        forall|x: T| (#[trigger] f(x)).len() == 1,
    ensures
        seqs::concat(s, f).len() == s.len(),
        forall|i: int| 0 <= i < s.len() ==> #[trigger] seqs::concat(s, f)[i] == f(s[i])[0],
    decreases s.len(),
{
    if s.len() > 0 {
        singles(s.drop_last(), f);
        assert(f(s.last()).len() == 1);
        let before = seqs::concat(s.drop_last(), f);
        assert forall|i: int| 0 <= i < s.len() implies #[trigger] seqs::concat(s, f)[i] == f(
            s[i],
        )[0] by {
            if i < s.len() - 1 {
                assert(before[i] == f(s.drop_last()[i])[0]);
            }
        }
    }
}

/// The machine's sensors are its drivers', one after the other, and only ids
/// that are taken are changed: the first of a name keeps it, and a later one
/// gets the first free number from two on.
pub proof fn sensors_come_driver_by_driver(raw: RawInventory, i: int)
    ensures
        ({
            let all = seqs::concat(
                raw.system.hwmon@,
                sensors::device_sensors(raw.system.amd_gpus@),
            );
            let s = sensors::sensors_of(raw);
            &&& s.len() == all.len()
            &&& 0 <= i < all.len() ==> {
                let taken = sensors::ids_of(s.take(i));
                &&& s[i] == (SensorView { id: s[i].id, ..all[i] })
                &&& !taken.contains(all[i].id) ==> s[i].id == all[i].id
                &&& taken.contains(all[i].id) ==> exists|n: nat|
                    n >= 2 && s[i].id == all[i].id + "#"@ + #[trigger] number::decimal(n)
                        && forall|m: nat|
                        2 <= m < n ==> taken.contains(
                            all[i].id + "#"@ + #[trigger] number::decimal(m),
                        )
            }
        }),
{
    let all = seqs::concat(raw.system.hwmon@, sensors::device_sensors(raw.system.amd_gpus@));
    sensors::sensor_ids_are_distinct(all);
    if 0 <= i < all.len() {
        id_at(all, i);
    }
}

proof fn id_at(all: Seq<SensorView>, i: int)
    requires
        0 <= i < all.len(),
    ensures
        ({
            let s = sensors::with_ids(all);
            let taken = sensors::ids_of(s.take(i));
            &&& s[i] == (SensorView { id: s[i].id, ..all[i] })
            &&& !taken.contains(all[i].id) ==> s[i].id == all[i].id
            &&& taken.contains(all[i].id) ==> exists|n: nat|
                n >= 2 && s[i].id == all[i].id + "#"@ + #[trigger] number::decimal(n) && forall|
                    m: nat,
                |
                    2 <= m < n ==> taken.contains(
                        all[i].id + "#"@ + #[trigger] number::decimal(m),
                    )
        }),
    decreases all.len(),
{
    let s = sensors::with_ids(all);
    let rest = all.drop_last();
    sensors::sensor_ids_are_distinct(all);
    sensors::sensor_ids_are_distinct(rest);
    let done = sensors::with_ids(rest);
    if i < all.len() - 1 {
        id_at(rest, i);
        assert(s.take(i) =~= done.take(i));
        assert(s[i] == done[i]);
        assert(rest[i] == all[i]);
    } else {
        assert(s.take(i) =~= done);
        let taken = sensors::ids_of(done);
        let base = all[i].id;
        sensors::some_id_is_fresh(taken, base);
        let n = choose|n: nat| sensors::is_fresh(taken, base, n);
        assert(s[i].id == sensors::nth_id(base, n));
        if !taken.contains(base) {
            if n >= 2 {
                assert(taken.contains(sensors::nth_id(base, 1)));
            }
        } else {
            assert(n != 1);
            assert forall|m: nat| 2 <= m < n implies taken.contains(
                base + "#"@ + #[trigger] number::decimal(m),
            ) by {
                assert(taken.contains(sensors::nth_id(base, m)));
            }
            assert(s[i].id == base + "#"@ + number::decimal(n));
        }
    }
}

} // verus!
