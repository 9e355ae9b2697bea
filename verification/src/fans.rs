//! The fan outputs of the model.

use crate::double::{Double, HUNDRED};
use crate::inventory::{
    AsusdCurve, AsusdInfo, FanInput, HidDevice, HwmonDevice, ModeCurves, NvidiaGpu, PwmChannel,
    RawInventory,
};
use crate::model::{
    CurveInput, CurveSpec, CurveTemp, DeviceId, FanBackend, FanBackendView, FanCaps, FanOutput,
    FanOutputView, Note, NoteView, Release, Sensor, SensorView, StoredCurve, StoredCurveView,
};
use crate::sensors::tach;
use crate::strmap::StrMap;
use crate::{model, number, sensors, seqs, strmap, text};
use vstd::prelude::*;
use vstd::string::*;

verus! {

/// The fan inputs of an index.
pub open spec fn at_index(index: u32) -> spec_fn(FanInput) -> bool {
    |f: FanInput| f.index == index
}

/// The speed sensor of a device's fan.
pub open spec fn device_tach(
    sensors: Seq<SensorView>,
    d: HwmonDevice,
    index: u32,
) -> Option<Seq<char>> {
    match seqs::first_where(d.fans@, at_index(index)) {
        Some(i) => sensors::tach_of(sensors, d.name@, d.fans@[i].label@),
        None => None,
    }
}

fn find_device_tach(sensors: &Vec<Sensor>, d: &HwmonDevice, index: u32) -> (r: Option<DeviceId>)
    ensures
        model::id_text(r) == device_tach(seqs::views(sensors@), *d, index),
{
    let mut i: usize = 0;
    while i < d.fans.len()
        invariant
            i <= d.fans@.len(),
            forall|k: int| 0 <= k < i ==> !at_index(index)(#[trigger] d.fans@[k]),
        decreases d.fans@.len() - i,
    {
        if d.fans[i].index == index {
            proof {
                seqs::first_where_is(d.fans@, at_index(index), i as int);
            }
            return tach(sensors, d.name.as_str(), d.fans[i].label.as_str());
        }
        i += 1;
    }
    proof {
        seqs::first_where_none(d.fans@, at_index(index));
    }
    None
}

/// A number behind a name.
pub open spec fn numbered(name: Seq<char>, n: u32) -> Seq<char> {
    name + number::decimal(n as nat)
}

fn print_numbered(name: &str, n: u32) -> (r: String)
    ensures
        r@ == numbered(name@, n),
{
    text::cat2(name, number::print(n as u128).as_str())
}

/// The id of an output that takes a duty.
pub open spec fn pwm_id(d: HwmonDevice, p: PwmChannel) -> Seq<char> {
    match p.quirk {
        Some(q) => q.id@,
        None => if d.super_io {
            numbered("superio:pwm"@, p.index)
        } else {
            numbered("hwmon:"@ + d.name@ + ":pwm"@, p.index)
        },
    }
}

/// The label of an output that takes a duty.
pub open spec fn pwm_label(d: HwmonDevice, p: PwmChannel) -> Seq<char> {
    match p.quirk {
        Some(q) => q.label@,
        None => if d.super_io {
            match p.header {
                Some(h) => numbered(h.name@ + " (pwm"@, p.index) + ")"@,
                None => numbered("Fan header "@, p.index),
            }
        } else {
            numbered(d.friendly_name@ + " pwm"@, p.index)
        },
    }
}

/// A PWM output that takes a duty: Super I/O header, AIO, or anything else
/// hwmon exposes. Only Super I/O curves whose mode is known are programmed,
/// and without an automatic mode to return to full speed is the only state
/// known to be safe.
pub open spec fn pwm_fan(
    d: HwmonDevice,
    p: PwmChannel,
    sensors: Seq<SensorView>,
) -> FanOutputView {
    FanOutputView {
        id: pwm_id(d, p),
        label: pwm_label(d, p),
        tach: device_tach(sensors, d, p.index),
        caps: FanCaps {
            duty: true,
            firmware_curve: match p.auto_curve {
                Some(c) => if d.super_io && d.smart_fan {
                    Some(
                        CurveSpec {
                            points: c.points,
                            temp: if c.has_temp_sel {
                                CurveTemp::Selectable
                            } else {
                                CurveTemp::Firmware
                            },
                        },
                    )
                } else {
                    None
                },
                None => None,
            },
            min_duty: match p.quirk {
                Some(q) => q.min_duty,
                None => Double { bits: 0 },
            },
            release: match p.quirk {
                Some(q) => q.release,
                None => if p.has_enable {
                    Release::RestoreMode
                } else {
                    Release::SafeFixed(Double { bits: HUNDRED })
                },
            },
            max_rpm: None,
            curve_input: match p.quirk {
                Some(q) => q.curve_input,
                None => CurveInput::CpuOrGpu,
            },
        },
        backend: FanBackendView::Hwmon { dir: d.path@, index: p.index },
        firmware_curves: Map::empty(),
    }
}

/// What handing an output back is called, with a fixed duty as a text has it.
pub open spec fn release_name(r: Release, duty: Seq<char>) -> Seq<char> {
    match r {
        Release::RestoreMode => "RestoreMode"@,
        Release::Auto => "Auto"@,
        Release::SafeFixed(_) => "SafeFixed("@ + duty + ")"@,
    }
}

fn print_release(r: Release, duty: &str) -> (text: String)
    ensures
        text@ == release_name(r, duty@),
{
    match r {
        Release::RestoreMode => "RestoreMode".to_string(),
        Release::Auto => "Auto".to_string(),
        Release::SafeFixed(_) => text::cat3("SafeFixed(", duty, ")"),
    }
}

/// What the model notes of an output that takes a duty.
pub open spec fn pwm_fan_notes(d: HwmonDevice, p: PwmChannel) -> Seq<NoteView> {
    match p.quirk {
        Some(q) => seq![
            NoteView {
                what: q.id@ + ": minimum "@ + q.min_duty_text@ + " %, released to "@
                    + release_name(q.release, q.release_duty_text@),
                source: q.source@,
            },
        ],
        None => match p.header {
            Some(h) => if d.super_io {
                seq![
                    NoteView {
                        what: numbered("superio:pwm"@, p.index) + ": header "@ + h.name@,
                        source: h.source@,
                    },
                ]
            } else {
                seq![]
            },
            None => seq![],
        },
    }
}

/// No curves.
fn no_curves() -> (r: StrMap<StoredCurve>)
    ensures
        model::curves_of(strmap::map_of(r.items())) == Map::<Seq<char>, StoredCurveView>::empty(),
{
    let r: StrMap<StoredCurve> = StrMap::new();
    assert(model::curves_of(strmap::map_of(r.items())) =~= Map::<
        Seq<char>,
        StoredCurveView,
    >::empty());
    r
}

/// Describes an output that takes a duty, and notes what is known of it.
pub fn pwm_output(
    d: &HwmonDevice,
    p: &PwmChannel,
    sensors: &Vec<Sensor>,
    notes: &mut Vec<Note>,
) -> (r: FanOutput)
    ensures
        r@ == pwm_fan(*d, *p, seqs::views(sensors@)),
        seqs::views(final(notes)@) == seqs::views(old(notes)@) + pwm_fan_notes(*d, *p),
{
    let ghost was = seqs::views(notes@);
    let (id, label) = match &p.quirk {
        Some(q) => (q.id.clone(), q.label.clone()),
        None => if d.super_io {
            let id = print_numbered("superio:pwm", p.index);
            let label = match &p.header {
                Some(h) => {
                    let note = Note {
                        what: text::cat3(id.as_str(), ": header ", h.name.as_str()),
                        source: model::copy_source(&h.source),
                    };
                    proof {
                        seqs::views_push(notes@, note);
                    }
                    notes.push(note);
                    let head = text::cat2(h.name.as_str(), " (pwm");
                    text::cat2(print_numbered(head.as_str(), p.index).as_str(), ")")
                },
                None => print_numbered("Fan header ", p.index),
            };
            (id, label)
        } else {
            let head = text::cat3("hwmon:", d.name.as_str(), ":pwm");
            let shown = text::cat2(d.friendly_name.as_str(), " pwm");
            (print_numbered(head.as_str(), p.index), print_numbered(shown.as_str(), p.index))
        },
    };
    match &p.quirk {
        Some(q) => {
            let note = Note {
                what: text::cat5(
                    id.as_str(),
                    ": minimum ",
                    q.min_duty_text.as_str(),
                    " %, released to ",
                    print_release(q.release, q.release_duty_text.as_str()).as_str(),
                ),
                source: model::copy_source(&q.source),
            };
            proof {
                seqs::views_push(notes@, note);
            }
            notes.push(note);
        },
        None => {},
    }
    assert(seqs::views(notes@) =~= was + pwm_fan_notes(*d, *p));
    let firmware_curve = match &p.auto_curve {
        Some(c) => if d.super_io && d.smart_fan {
            Some(
                CurveSpec {
                    points: c.points,
                    temp: if c.has_temp_sel {
                        CurveTemp::Selectable
                    } else {
                        CurveTemp::Firmware
                    },
                },
            )
        } else {
            None
        },
        None => None,
    };
    let (min_duty, release, curve_input) = match &p.quirk {
        Some(q) => (q.min_duty, q.release, q.curve_input),
        None => (
            Double { bits: 0 },
            if p.has_enable {
                Release::RestoreMode
            } else {
                Release::SafeFixed(Double { bits: HUNDRED })
            },
            CurveInput::CpuOrGpu,
        ),
    };
    FanOutput {
        id: DeviceId(id),
        label,
        tach: find_device_tach(sensors, d, p.index),
        caps: FanCaps { duty: true, firmware_curve, min_duty, release, max_rpm: None, curve_input },
        backend: FanBackend::Hwmon { dir: d.path.clone(), index: p.index },
        firmware_curves: no_curves(),
    }
}

/// The fans that curves are for.
pub open spec fn fans_in(curves: Seq<AsusdCurve>) -> Seq<Seq<char>> {
    curves.map_values(|c: AsusdCurve| c.fan@)
}

/// Whether asusd stores and applies a fan's curves: those of its first mode
/// say which fans it manages.
pub open spec fn asusd_manages(asusd: Option<AsusdInfo>, fan: Seq<char>) -> bool {
    match asusd {
        Some(a) => a.has_fan_curves && a.fan_curves@.len() > 0 && fans_in(
            a.fan_curves@[0].curves@,
        ).contains(fan),
        None => false,
    }
}

fn is_asusd_fan(asusd: &Option<AsusdInfo>, fan: &str) -> (r: bool)
    ensures
        r == asusd_manages(*asusd, fan@),
{
    match asusd {
        Some(a) => {
            if !a.has_fan_curves || a.fan_curves.len() == 0 {
                return false;
            }
            let curves = &a.fan_curves[0].curves;
            let ghost all = fans_in(curves@);
            let mut i: usize = 0;
            while i < curves.len()
                invariant
                    i <= curves@.len(),
                    *asusd == Some(*a),
                    a.has_fan_curves,
                    a.fan_curves@.len() > 0,
                    curves@ == a.fan_curves@[0].curves@,
                    all == fans_in(curves@),
                    forall|k: int| 0 <= k < i ==> #[trigger] all[k] != fan@,
                decreases curves@.len() - i,
            {
                assert(all[i as int] == curves@[i as int].fan@);
                if text::same(curves[i].fan.as_str(), fan) {
                    assert(all.contains(fan@));
                    return true;
                }
                i += 1;
            }
            false
        },
        None => false,
    }
}

/// The curves of a fan.
pub open spec fn curve_for(fan: Seq<char>) -> spec_fn(AsusdCurve) -> bool {
    |c: AsusdCurve| c.fan@ == fan
}

/// What asusd stores for a fan, by power mode: the first curve for it of each
/// mode; of modes of one name the last counts.
pub open spec fn stored_curves(modes: Seq<ModeCurves>, fan: Seq<char>) -> Map<
    Seq<char>,
    StoredCurveView,
>
    decreases modes.len(),
{
    if modes.len() == 0 {
        Map::empty()
    } else {
        let rest = stored_curves(modes.drop_last(), fan);
        let m = modes.last();
        match seqs::first_where(m.curves@, curve_for(fan)) {
            Some(i) => rest.insert(
                m.mode@,
                StoredCurveView { enabled: m.curves@[i].enabled, points: m.curves@[i].points@ },
            ),
            None => rest,
        }
    }
}

fn copy_points(points: &Vec<(Double, Double)>) -> (r: Vec<(Double, Double)>)
    ensures
        r@ == points@,
{
    let mut r: Vec<(Double, Double)> = Vec::new();
    let mut i: usize = 0;
    while i < points.len()
        invariant
            i <= points@.len(),
            r@ == points@.take(i as int),
        decreases points@.len() - i,
    {
        r.push((points[i].0, points[i].1));
        assert(r@ =~= points@.take(i + 1));
        i += 1;
    }
    assert(points@.take(points@.len() as int) =~= points@);
    r
}

fn find_curve(curves: &Vec<AsusdCurve>, fan: &str) -> (r: Option<usize>)
    ensures
        match seqs::first_where(curves@, curve_for(fan@)) {
            Some(i) => r is Some && r->0 == i && 0 <= i < curves@.len(),
            None => r is None,
        },
{
    let mut i: usize = 0;
    while i < curves.len()
        invariant
            i <= curves@.len(),
            forall|k: int| 0 <= k < i ==> !curve_for(fan@)(#[trigger] curves@[k]),
        decreases curves@.len() - i,
    {
        if text::same(curves[i].fan.as_str(), fan) {
            proof {
                seqs::first_where_is(curves@, curve_for(fan@), i as int);
            }
            return Some(i);
        }
        i += 1;
    }
    proof {
        seqs::first_where_none(curves@, curve_for(fan@));
    }
    None
}

fn read_stored(modes: &Vec<ModeCurves>, fan: &str) -> (r: StrMap<StoredCurve>)
    ensures
        model::curves_of(strmap::map_of(r.items())) == stored_curves(modes@, fan@),
{
    let mut r: StrMap<StoredCurve> = no_curves();
    let mut i: usize = 0;
    while i < modes.len()
        invariant
            i <= modes@.len(),
            model::curves_of(strmap::map_of(r.items())) == stored_curves(
                modes@.take(i as int),
                fan@,
            ),
        decreases modes@.len() - i,
    {
        assert(modes@.take(i + 1).drop_last() =~= modes@.take(i as int));
        let m = &modes[i];
        match find_curve(&m.curves, fan) {
            Some(k) => {
                let c = &m.curves[k];
                let stored = StoredCurve { enabled: c.enabled, points: copy_points(&c.points) };
                let ghost was = strmap::map_of(r.items());
                let ghost s = stored;
                r = r.insert(m.mode.clone(), stored);
                assert(model::curves_of(was.insert(m.mode@, s)) =~= model::curves_of(was).insert(
                    m.mode@,
                    s@,
                ));
            },
            None => {},
        }
        i += 1;
    }
    assert(modes@.take(modes@.len() as int) =~= modes@);
    r
}

/// The devices of a driver.
pub open spec fn driven_by(driver: Seq<char>) -> spec_fn(HwmonDevice) -> bool {
    |d: HwmonDevice| d.name@ == driver
}

/// The speed sensor of a fan that only its firmware drives: the driver that
/// reads the speeds may be another than the one with the curves.
pub open spec fn curve_tach(
    hwmon: Seq<HwmonDevice>,
    sensors: Seq<SensorView>,
    d: HwmonDevice,
    index: u32,
) -> Option<Seq<char>> {
    match d.curve_tach_driver {
        Some(t) => match seqs::first_where(hwmon, driven_by(t@)) {
            Some(i) => device_tach(sensors, hwmon[i], index),
            None => None,
        },
        None => None,
    }
}

fn find_curve_tach(
    hwmon: &Vec<HwmonDevice>,
    sensors: &Vec<Sensor>,
    d: &HwmonDevice,
    index: u32,
) -> (r: Option<DeviceId>)
    ensures
        model::id_text(r) == curve_tach(hwmon@, seqs::views(sensors@), *d, index),
{
    match &d.curve_tach_driver {
        Some(t) => {
            let mut i: usize = 0;
            while i < hwmon.len()
                invariant
                    i <= hwmon@.len(),
                    d.curve_tach_driver == Some(*t),
                    forall|k: int| 0 <= k < i ==> !driven_by(t@)(#[trigger] hwmon@[k]),
                decreases hwmon@.len() - i,
            {
                if text::same(hwmon[i].name.as_str(), t.as_str()) {
                    proof {
                        seqs::first_where_is(hwmon@, driven_by(t@), i as int);
                    }
                    return find_device_tach(sensors, &hwmon[i], index);
                }
                i += 1;
            }
            proof {
                seqs::first_where_none(hwmon@, driven_by(t@));
            }
            None
        },
        None => None,
    }
}

/// The id of a fan that only its firmware drives.
pub open spec fn curve_fan_id(raw: RawInventory, p: PwmChannel, fan: Seq<char>) -> Seq<char> {
    if asusd_manages(raw.asusd, fan) {
        "asusd:fan:"@ + fan
    } else {
        numbered("asuscurve:pwm"@, p.index)
    }
}

/// A fan that only its firmware drives: through asusd when it manages the
/// curves, else straight to sysfs. What asusd stores for it per power mode is
/// there to start editing from.
pub open spec fn curve_fan(
    raw: RawInventory,
    sensors: Seq<SensorView>,
    d: HwmonDevice,
    p: PwmChannel,
    points: u32,
    fan: Seq<char>,
) -> FanOutputView {
    FanOutputView {
        id: curve_fan_id(raw, p, fan),
        label: if fan == "MID"@ {
            "Mid fan"@
        } else {
            fan + " fan"@
        },
        tach: curve_tach(raw.system.hwmon@, sensors, d, p.index),
        caps: FanCaps {
            duty: false,
            firmware_curve: Some(CurveSpec { points, temp: CurveTemp::Firmware }),
            min_duty: Double { bits: 0 },
            release: Release::Auto,
            max_rpm: match p.max_rpm {
                Some(m) => Some(m.rpm),
                None => None,
            },
            curve_input: if fan == "GPU"@ {
                CurveInput::Gpu
            } else {
                CurveInput::Cpu
            },
        },
        backend: if asusd_manages(raw.asusd, fan) {
            FanBackendView::AsusdCurve { fan }
        } else {
            FanBackendView::AsusCurve { dir: d.path@, index: p.index, driver: d.name@ }
        },
        firmware_curves: match raw.asusd {
            Some(a) => stored_curves(a.fan_curves@, fan),
            None => Map::empty(),
        },
    }
}

/// What the model notes of a fan that only its firmware drives.
pub open spec fn curve_fan_notes(raw: RawInventory, p: PwmChannel, fan: Seq<char>) -> Seq<
    NoteView,
> {
    match p.max_rpm {
        Some(m) => seq![
            NoteView {
                what: curve_fan_id(raw, p, fan) + ": maximum speed "@ + number::decimal(
                    m.rpm as nat,
                ) + " rpm"@,
                source: m.source@,
            },
        ],
        None => seq![],
    }
}

fn curve_output(
    raw: &RawInventory,
    sensors: &Vec<Sensor>,
    d: &HwmonDevice,
    p: &PwmChannel,
    points: u32,
    fan: &str,
    notes: &mut Vec<Note>,
) -> (r: FanOutput)
    ensures
        r@ == curve_fan(*raw, seqs::views(sensors@), *d, *p, points, fan@),
        seqs::views(final(notes)@) == seqs::views(old(notes)@) + curve_fan_notes(*raw, *p, fan@),
{
    let ghost was = seqs::views(notes@);
    let managed = is_asusd_fan(&raw.asusd, fan);
    let id = if managed {
        text::cat2("asusd:fan:", fan)
    } else {
        print_numbered("asuscurve:pwm", p.index)
    };
    let backend = if managed {
        FanBackend::AsusdCurve { fan: fan.to_string() }
    } else {
        FanBackend::AsusCurve { dir: d.path.clone(), index: p.index, driver: d.name.clone() }
    };
    let max_rpm = match &p.max_rpm {
        Some(m) => {
            let note = Note {
                what: text::cat4(
                    id.as_str(),
                    ": maximum speed ",
                    number::print(m.rpm as u128).as_str(),
                    " rpm",
                ),
                source: model::copy_source(&m.source),
            };
            proof {
                seqs::views_push(notes@, note);
            }
            notes.push(note);
            Some(m.rpm)
        },
        None => None,
    };
    assert(seqs::views(notes@) =~= was + curve_fan_notes(*raw, *p, fan@));
    let firmware_curves = match &raw.asusd {
        Some(a) => read_stored(&a.fan_curves, fan),
        None => no_curves(),
    };
    FanOutput {
        id: DeviceId(id),
        label: if text::same(fan, "MID") {
            "Mid fan".to_string()
        } else {
            text::cat2(fan, " fan")
        },
        tach: find_curve_tach(&raw.system.hwmon, sensors, d, p.index),
        caps: FanCaps {
            duty: false,
            firmware_curve: Some(CurveSpec { points, temp: CurveTemp::Firmware }),
            min_duty: Double { bits: 0 },
            release: Release::Auto,
            max_rpm,
            curve_input: if text::same(fan, "GPU") {
                CurveInput::Gpu
            } else {
                CurveInput::Cpu
            },
        },
        backend,
        firmware_curves,
    }
}

/// The output of a PWM channel, if it makes one.
pub open spec fn channel_fans(
    raw: RawInventory,
    sensors: Seq<SensorView>,
    d: HwmonDevice,
) -> spec_fn(PwmChannel) -> Seq<FanOutputView> {
    |p: PwmChannel|
        if p.has_duty {
            seq![pwm_fan(d, p, sensors)]
        } else {
            match (p.auto_curve, p.firmware_fan) {
                (Some(c), Some(fan)) => seq![curve_fan(raw, sensors, d, p, c.points, fan@)],
                _ => seq![],
            }
        }
}

/// What the model notes of a PWM channel.
pub open spec fn channel_notes(raw: RawInventory, d: HwmonDevice) -> spec_fn(PwmChannel) -> Seq<
    NoteView,
> {
    |p: PwmChannel|
        if p.has_duty {
            pwm_fan_notes(d, p)
        } else {
            match (p.auto_curve, p.firmware_fan) {
                (Some(c), Some(fan)) => curve_fan_notes(raw, p, fan@),
                _ => seq![],
            }
        }
}

pub open spec fn device_fans(raw: RawInventory, sensors: Seq<SensorView>) -> spec_fn(
    HwmonDevice,
) -> Seq<FanOutputView> {
    |d: HwmonDevice| seqs::concat(d.pwms@, channel_fans(raw, sensors, d))
}

pub open spec fn device_notes(raw: RawInventory) -> spec_fn(HwmonDevice) -> Seq<NoteView> {
    |d: HwmonDevice| seqs::concat(d.pwms@, channel_notes(raw, d))
}

/// The fans of an NVIDIA GPU, driven together.
pub open spec fn nvidia_fans(g: NvidiaGpu) -> Seq<FanOutputView> {
    if g.num_fans > 0 {
        seq![
            FanOutputView {
                id: numbered("nvidia:"@, g.index) + ":fans"@,
                label: g.name@ + " fans"@,
                tach: None,
                caps: free_caps(CurveInput::Gpu),
                backend: FanBackendView::Nvidia { gpu: g.index, fans: g.num_fans },
                firmware_curves: Map::empty(),
            },
        ]
    } else {
        seq![]
    }
}

/// What an output can do that takes any duty and has a mode of its own to
/// return to.
pub open spec fn free_caps(curve_input: CurveInput) -> FanCaps {
    FanCaps {
        duty: true,
        firmware_curve: None,
        min_duty: Double { bits: 0 },
        release: Release::Auto,
        max_rpm: None,
        curve_input,
    }
}

fn make_free_caps(curve_input: CurveInput) -> (r: FanCaps)
    ensures
        r == free_caps(curve_input),
{
    FanCaps {
        duty: true,
        firmware_curve: None,
        min_duty: Double { bits: 0 },
        release: Release::Auto,
        max_rpm: None,
        curve_input,
    }
}

/// Whether a HID device at a path is ENE's.
pub open spec fn is_ene_at(path: Seq<char>) -> spec_fn(HidDevice) -> bool {
    |h: HidDevice| h.by_ene && h.path@ == path
}

/// The fan hubs, each path once: the places of the first device at each, as
/// far as it is a known hub.
pub open spec fn hubs_of(hid: Seq<HidDevice>) -> Seq<HidDevice>
    decreases hid.len(),
{
    if hid.len() == 0 {
        seq![]
    } else {
        let h = hid.last();
        let rest = hubs_of(hid.drop_last());
        if h.by_ene && seqs::first_where(hid.drop_last(), is_ene_at(h.path@)) is None
            && h.channels is Some {
            rest.push(h)
        } else {
            rest
        }
    }
}

/// A channel of a hub. Hubs are counted only where there are several.
pub open spec fn hub_fan(hub: HidDevice, n: int, hubs: nat, channel: u8) -> FanOutputView {
    FanOutputView {
        id: "lianli:"@ + number::decimal(n as nat) + ":ch"@ + number::decimal(channel as nat),
        label: if hubs > 1 {
            "Lian Li hub "@ + number::decimal((n + 1) as nat) + " channel "@ + number::decimal(
                channel as nat,
            )
        } else {
            "Lian Li channel "@ + number::decimal(channel as nat)
        },
        tach: None,
        caps: free_caps(CurveInput::CpuOrGpu),
        backend: FanBackendView::LianLi { path: hub.path@, channel },
        firmware_curves: Map::empty(),
    }
}

/// The channels of a hub, from 1 on.
pub open spec fn hub_fans(hub: HidDevice, n: int, hubs: nat) -> Seq<FanOutputView> {
    Seq::new(hub.channels->0 as nat, |c: int| hub_fan(hub, n, hubs, (c + 1) as u8))
}

/// The channels of the first hubs.
pub open spec fn all_hub_fans(hubs: Seq<HidDevice>, n: int) -> Seq<FanOutputView>
    decreases n,
{
    if n <= 0 {
        seq![]
    } else {
        all_hub_fans(hubs, n - 1) + hub_fans(hubs[n - 1], n - 1, hubs.len())
    }
}

/// The fan outputs of everything found: what hwmon exposes, the fans of
/// NVIDIA GPUs, and the channels of fan hubs.
pub open spec fn fans_of(raw: RawInventory, sensors: Seq<SensorView>) -> Seq<FanOutputView> {
    seqs::concat(raw.system.hwmon@, device_fans(raw, sensors)) + seqs::concat(
        raw.nvidia@,
        |g: NvidiaGpu| nvidia_fans(g),
    ) + all_hub_fans(hubs_of(raw.system.hid@), hubs_of(raw.system.hid@).len() as int)
}

/// What the model notes of the fan outputs.
pub open spec fn fan_notes(raw: RawInventory) -> Seq<NoteView> {
    seqs::concat(raw.system.hwmon@, device_notes(raw))
}

/// The fan outputs of a device.
fn push_device(
    raw: &RawInventory,
    sensors: &Vec<Sensor>,
    d: &HwmonDevice,
    out: &mut Vec<FanOutput>,
    notes: &mut Vec<Note>,
)
    ensures
        seqs::views(final(out)@) == seqs::views(old(out)@) + device_fans(
            *raw,
            seqs::views(sensors@),
        )(*d),
        seqs::views(final(notes)@) == seqs::views(old(notes)@) + device_notes(*raw)(*d),
{
    let ghost f = channel_fans(*raw, seqs::views(sensors@), *d);
    let ghost g = channel_notes(*raw, *d);
    let ghost out_was = seqs::views(out@);
    let ghost notes_was = seqs::views(notes@);
    let mut i: usize = 0;
    assert(seqs::views(out@) =~= out_was + seqs::concat(d.pwms@.take(0), f));
    assert(seqs::views(notes@) =~= notes_was + seqs::concat(d.pwms@.take(0), g));
    while i < d.pwms.len()
        invariant
            i <= d.pwms@.len(),
            f == channel_fans(*raw, seqs::views(sensors@), *d),
            g == channel_notes(*raw, *d),
            seqs::views(out@) == out_was + seqs::concat(d.pwms@.take(i as int), f),
            seqs::views(notes@) == notes_was + seqs::concat(d.pwms@.take(i as int), g),
        decreases d.pwms@.len() - i,
    {
        let p = &d.pwms[i];
        let ghost out_before = seqs::views(out@);
        let ghost notes_before = seqs::views(notes@);
        proof {
            seqs::concat_take(d.pwms@, f, i as int);
            seqs::concat_take(d.pwms@, g, i as int);
        }
        if p.has_duty {
            let fan = pwm_output(d, p, sensors, notes);
            proof {
                seqs::views_push(out@, fan);
            }
            out.push(fan);
        } else {
            match (&p.auto_curve, &p.firmware_fan) {
                (Some(c), Some(name)) => {
                    let fan = curve_output(raw, sensors, d, p, c.points, name.as_str(), notes);
                    proof {
                        seqs::views_push(out@, fan);
                    }
                    out.push(fan);
                },
                _ => {},
            }
        }
        assert(seqs::views(out@) =~= out_before + f(*p));
        assert(seqs::views(notes@) =~= notes_before + g(*p));
        assert(seqs::views(out@) =~= out_was + seqs::concat(d.pwms@.take(i + 1), f));
        assert(seqs::views(notes@) =~= notes_was + seqs::concat(d.pwms@.take(i + 1), g));
        i += 1;
    }
    assert(d.pwms@.take(d.pwms@.len() as int) =~= d.pwms@);
}

/// The fans of the NVIDIA GPUs.
fn push_nvidia(gpus: &Vec<NvidiaGpu>, out: &mut Vec<FanOutput>)
    ensures
        seqs::views(final(out)@) == seqs::views(old(out)@) + seqs::concat(
            gpus@,
            |g: NvidiaGpu| nvidia_fans(g),
        ),
{
    let ghost f = |g: NvidiaGpu| nvidia_fans(g);
    let ghost was = seqs::views(out@);
    let mut i: usize = 0;
    assert(seqs::views(out@) =~= was + seqs::concat(gpus@.take(0), f));
    while i < gpus.len()
        invariant
            i <= gpus@.len(),
            f == (|g: NvidiaGpu| nvidia_fans(g)),
            seqs::views(out@) == was + seqs::concat(gpus@.take(i as int), f),
        decreases gpus@.len() - i,
    {
        let g = &gpus[i];
        proof {
            seqs::concat_take(gpus@, f, i as int);
        }
        let ghost before = seqs::views(out@);
        if g.num_fans > 0 {
            let fan = FanOutput {
                id: DeviceId(
                    text::cat2(print_numbered("nvidia:", g.index).as_str(), ":fans"),
                ),
                label: text::cat2(g.name.as_str(), " fans"),
                tach: None,
                caps: make_free_caps(CurveInput::Gpu),
                backend: FanBackend::Nvidia { gpu: g.index, fans: g.num_fans },
                firmware_curves: no_curves(),
            };
            proof {
                seqs::views_push(out@, fan);
            }
            out.push(fan);
        }
        assert(seqs::views(out@) =~= before + f(*g));
        assert(seqs::views(out@) =~= was + seqs::concat(gpus@.take(i + 1), f));
        i += 1;
    }
    assert(gpus@.take(gpus@.len() as int) =~= gpus@);
}

/// Finds the fan hubs.
fn find_hubs(hid: &Vec<HidDevice>) -> (r: Vec<&HidDevice>)
    ensures
        r@.map_values(|h: &HidDevice| *h) == hubs_of(hid@),
        r@.len() <= hid@.len(),
        forall|i: int| 0 <= i < r@.len() ==> (#[trigger] r@[i]).channels is Some,
{
    let ghost f = |h: &HidDevice| *h;
    let mut r: Vec<&HidDevice> = Vec::new();
    let mut i: usize = 0;
    assert(r@.map_values(f) =~= hubs_of(hid@.take(0)));
    while i < hid.len()
        invariant
            i <= hid@.len(),
            f == (|h: &HidDevice| *h),
            r@.len() <= i,
            r@.map_values(f) == hubs_of(hid@.take(i as int)),
            forall|k: int| 0 <= k < r@.len() ==> (#[trigger] r@[k]).channels is Some,
        decreases hid@.len() - i,
    {
        let h = &hid[i];
        let ghost earlier = hid@.take(i as int);
        let ghost g = is_ene_at(h.path@);
        assert(hid@.take(i + 1).drop_last() =~= earlier);
        let mut again = false;
        let mut k: usize = 0;
        while k < i
            invariant
                k <= i < hid@.len(),
                earlier == hid@.take(i as int),
                g == is_ene_at(h.path@),
                again == exists|j: int| 0 <= j < k && g(#[trigger] earlier[j]),
            decreases i - k,
        {
            assert(earlier[k as int] == hid@[k as int]);
            if hid[k].by_ene && text::same(hid[k].path.as_str(), h.path.as_str()) {
                assert(g(earlier[k as int]));
                again = true;
            }
            k += 1;
        }
        proof {
            seqs::first_where_found(earlier, g);
        }
        if h.by_ene && !again && h.channels.is_some() {
            r.push(h);
            assert(r@.map_values(f) =~= hubs_of(earlier).push(*h));
        }
        i += 1;
    }
    assert(hid@.take(hid@.len() as int) =~= hid@);
    r
}

/// The channels of the fan hubs.
fn push_hubs(hid: &Vec<HidDevice>, out: &mut Vec<FanOutput>)
    ensures
        seqs::views(final(out)@) == seqs::views(old(out)@) + all_hub_fans(
            hubs_of(hid@),
            hubs_of(hid@).len() as int,
        ),
{
    let hubs = find_hubs(hid);
    let several = hubs.len() > 1;
    let ghost all = hubs_of(hid@);
    let ghost was = seqs::views(out@);
    let mut n: usize = 0;
    assert(seqs::views(out@) =~= was + all_hub_fans(all, 0));
    while n < hubs.len()
        invariant
            n <= hubs@.len(),
            hubs@.map_values(|h: &HidDevice| *h) == all,
            several == (all.len() > 1),
            forall|k: int| 0 <= k < hubs@.len() ==> (#[trigger] hubs@[k]).channels is Some,
            seqs::views(out@) == was + all_hub_fans(all, n as int),
        decreases hubs@.len() - n,
    {
        let hub = hubs[n];
        let channels = match hub.channels {
            Some(c) => c,
            None => 0,
        };
        let ghost before = seqs::views(out@);
        let ghost fans = hub_fans(*hub, n as int, all.len());
        assert(all[n as int] == *hub);
        let mut c: u8 = 0;
        assert(seqs::views(out@) =~= before + fans.take(0));
        while c < channels
            invariant
                c <= channels,
                n < usize::MAX,
                Some(channels) == hub.channels,
                several == (all.len() > 1),
                fans == hub_fans(*hub, n as int, all.len()),
                seqs::views(out@) == before + fans.take(c as int),
            decreases channels - c,
        {
            let ghost done = c as int;
            c += 1;
            let shown = number::print(c as u128);
            let fan = FanOutput {
                id: DeviceId(
                    text::cat4(
                        "lianli:",
                        number::print(n as u128).as_str(),
                        ":ch",
                        shown.as_str(),
                    ),
                ),
                label: if several {
                    text::cat4(
                        "Lian Li hub ",
                        number::print((n + 1) as u128).as_str(),
                        " channel ",
                        shown.as_str(),
                    )
                } else {
                    text::cat2("Lian Li channel ", shown.as_str())
                },
                tach: None,
                caps: make_free_caps(CurveInput::CpuOrGpu),
                backend: FanBackend::LianLi { path: hub.path.clone(), channel: c },
                firmware_curves: no_curves(),
            };
            proof {
                seqs::views_push(out@, fan);
                assert(fan@ == fans[done]);
                assert(fans.take(done + 1) =~= fans.take(done).push(fans[done]));
            }
            out.push(fan);
            assert(seqs::views(out@) =~= before + fans.take(c as int));
        }
        assert(fans.take(fans.len() as int) =~= fans);
        assert(seqs::views(out@) =~= was + all_hub_fans(all, n + 1));
        n += 1;
    }
}

/// The fan outputs of the model; what is known of them is noted.
pub fn fans(raw: &RawInventory, sensors: &Vec<Sensor>, notes: &mut Vec<Note>) -> (r: Vec<FanOutput>)
    ensures
        seqs::views(r@) == fans_of(*raw, seqs::views(sensors@)),
        seqs::views(final(notes)@) == seqs::views(old(notes)@) + fan_notes(*raw),
{
    let ghost f = device_fans(*raw, seqs::views(sensors@));
    let ghost g = device_notes(*raw);
    let ghost notes_was = seqs::views(notes@);
    let hwmon = &raw.system.hwmon;
    let mut out: Vec<FanOutput> = Vec::new();
    let mut i: usize = 0;
    assert(seqs::views(out@) =~= seqs::concat(hwmon@.take(0), f));
    assert(seqs::views(notes@) =~= notes_was + seqs::concat(hwmon@.take(0), g));
    while i < hwmon.len()
        invariant
            i <= hwmon@.len(),
            hwmon@ == raw.system.hwmon@,
            f == device_fans(*raw, seqs::views(sensors@)),
            g == device_notes(*raw),
            seqs::views(out@) == seqs::concat(hwmon@.take(i as int), f),
            seqs::views(notes@) == notes_was + seqs::concat(hwmon@.take(i as int), g),
        decreases hwmon@.len() - i,
    {
        proof {
            seqs::concat_take(hwmon@, f, i as int);
            seqs::concat_take(hwmon@, g, i as int);
        }
        push_device(raw, sensors, &hwmon[i], &mut out, notes);
        assert(seqs::views(notes@) =~= notes_was + seqs::concat(hwmon@.take(i + 1), g));
        i += 1;
    }
    assert(hwmon@.take(hwmon@.len() as int) =~= hwmon@);
    push_nvidia(&raw.nvidia, &mut out);
    push_hubs(&raw.system.hid, &mut out);
    out
}

pub open spec fn fan_ids(fans: Seq<FanOutputView>) -> Seq<Seq<char>> {
    fans.map_values(|f: FanOutputView| f.id)
}

/// The same hardware gets the same ids across boots: wherever the kernel put
/// its devices, and whatever sensors they have, ids only depend on the
/// devices' names and outputs.
pub proof fn fan_ids_are_stable(
    a: RawInventory,
    x: Seq<SensorView>,
    b: RawInventory,
    y: Seq<SensorView>,
)
    requires
        a.asusd == b.asusd,
        a.nvidia@ == b.nvidia@,
        a.system.hid@ == b.system.hid@,
        a.system.hwmon@.len() == b.system.hwmon@.len(),
        forall|i: int|
            0 <= i < a.system.hwmon@.len() ==> (#[trigger] a.system.hwmon@[i]).name@
                == b.system.hwmon@[i].name@ && a.system.hwmon@[i].super_io
                == b.system.hwmon@[i].super_io && a.system.hwmon@[i].pwms@
                == b.system.hwmon@[i].pwms@,
    ensures
        fan_ids(fans_of(a, x)) == fan_ids(fans_of(b, y)),
{
    let h = |f: FanOutputView| f.id;
    let f = device_fans(a, x);
    let g = device_fans(b, y);
    let (da, db) = (a.system.hwmon@, b.system.hwmon@);
    assert forall|i: int| 0 <= i < da.len() implies f(#[trigger] da[i]).map_values(h) == g(
        db[i],
    ).map_values(h) by {
        let (ca, cb) = (channel_fans(a, x, da[i]), channel_fans(b, y, db[i]));
        let pwms = da[i].pwms@;
        assert forall|k: int| 0 <= k < pwms.len() implies ca(#[trigger] pwms[k]).map_values(h)
            == cb(pwms[k]).map_values(h) by {
            assert(ca(pwms[k]).map_values(h) =~= cb(pwms[k]).map_values(h));
        }
        seqs::concat_same(pwms, ca, pwms, cb, h);
    }
    seqs::concat_same(da, f, db, g, h);
    let nvidia = seqs::concat(a.nvidia@, |g: NvidiaGpu| nvidia_fans(g));
    let hubs = all_hub_fans(hubs_of(a.system.hid@), hubs_of(a.system.hid@).len() as int);
    seqs::map_concat(seqs::concat(da, f), nvidia, h);
    seqs::map_concat(seqs::concat(db, g), nvidia, h);
    seqs::map_concat(seqs::concat(da, f) + nvidia, hubs, h);
    seqs::map_concat(seqs::concat(db, g) + nvidia, hubs, h);
}

} // verus!
