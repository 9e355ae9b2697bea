//! Building the hardware model from what was found, without any I/O.

use crate::controls::controls;
use crate::fans::fans;
use crate::gpus::gpus;
use crate::inventory::{DutyOverride, Overrides, RawInventory};
use crate::lights::lighting;
use crate::model::{
    copy_cpu, fan_owner, FanCaps, FanOutput, FanOutputView, Gpu, GpuView, HardwareModel,
    HardwareModelView, Identity, LightingDevice, LightingDeviceView, Note, NoteView, Sensor,
    SensorView, Source, SourceView,
};
use crate::sensors::sensors;
use crate::{controls, double, fans, gpus, lights, model, sensors, seqs, strmap, text};
use vstd::prelude::*;
use vstd::string::*;

verus! {

/// An output with the lowest duty that the user wants, kept a percentage.
pub open spec fn with_min_duty(min: Map<Seq<char>, DutyOverride>) -> spec_fn(
    FanOutputView,
) -> FanOutputView {
    |f: FanOutputView|
        if min.contains_key(f.id) {
            FanOutputView {
                caps: FanCaps { min_duty: double::in_percent(min[f.id].value), ..f.caps },
                ..f
            }
        } else {
            f
        }
}

/// What the model notes of a lowest duty that the user wants.
pub open spec fn min_duty_note(min: Map<Seq<char>, DutyOverride>) -> spec_fn(FanOutputView) -> Seq<
    NoteView,
> {
    |f: FanOutputView|
        if min.contains_key(f.id) {
            seq![
                NoteView {
                    what: f.id + ": minimum duty "@ + min[f.id].text@ + " %"@,
                    source: SourceView::User,
                },
            ]
        } else {
            seq![]
        }
}

/// A part of the model that the user can hide.
pub trait Hideable: View + Sized {
    /// The id that it goes by.
    spec fn id_in(v: Self::V) -> Seq<char>;

    fn id_text(&self) -> (r: &str)
        ensures
            r@ == Self::id_in(self@),
    ;
}

impl Hideable for FanOutput {
    open spec fn id_in(v: FanOutputView) -> Seq<char> {
        v.id
    }

    fn id_text(&self) -> (r: &str) {
        self.id.as_str()
    }
}

impl Hideable for Sensor {
    open spec fn id_in(v: SensorView) -> Seq<char> {
        v.id
    }

    fn id_text(&self) -> (r: &str) {
        self.id.as_str()
    }
}

impl Hideable for Gpu {
    open spec fn id_in(v: GpuView) -> Seq<char> {
        v.id
    }

    fn id_text(&self) -> (r: &str) {
        self.id.as_str()
    }
}

impl Hideable for LightingDevice {
    open spec fn id_in(v: LightingDeviceView) -> Seq<char> {
        v.id
    }

    fn id_text(&self) -> (r: &str) {
        self.id.as_str()
    }
}

/// What is not hidden.
pub open spec fn shown<T: Hideable>(hide: Seq<Seq<char>>) -> spec_fn(T::V) -> bool {
    |v: T::V| !hide.contains(T::id_in(v))
}

/// The outputs of everything found, with the lowest duties that the user
/// wants.
pub open spec fn outputs_of(raw: RawInventory, o: Overrides) -> Seq<FanOutputView> {
    fans::fans_of(raw, sensors::sensors_of(raw)).map_values(
        with_min_duty(strmap::map_of(o.min_duty.items())),
    )
}

/// The model of a machine: what was found, under stable names, without what
/// the user hides. Who drives the fans does not depend on what is hidden.
pub open spec fn model_of(raw: RawInventory, o: Overrides) -> HardwareModelView {
    let hide = text::texts(o.hide@);
    let found = fans::fans_of(raw, sensors::sensors_of(raw));
    HardwareModelView {
        identity: raw.system.identity@,
        platform: raw.system.platform@,
        cpu: raw.system.cpu@,
        fans: outputs_of(raw, o).filter(shown::<FanOutput>(hide)),
        sensors: sensors::sensors_of(raw).filter(shown::<Sensor>(hide)),
        gpus: gpus::gpus_of(raw).filter(shown::<Gpu>(hide)),
        lighting: lights::lights_of(raw).filter(shown::<LightingDevice>(hide)),
        controls: controls::controls_of(raw),
        fan_owner: model::owner_of(outputs_of(raw, o), raw.system.coolercontrold),
        notes: fans::fan_notes(raw) + lights::light_notes(raw) + seqs::concat(
            found,
            min_duty_note(strmap::map_of(o.min_duty.items())),
        ),
    }
}

/// Sets the lowest duties that the user wants, and notes them.
fn override_duties(found: Vec<FanOutput>, o: &Overrides, notes: &mut Vec<Note>) -> (r: Vec<
    FanOutput,
>)
    ensures
        seqs::views(r@) == seqs::views(found@).map_values(
            with_min_duty(strmap::map_of(o.min_duty.items())),
        ),
        seqs::views(final(notes)@) == seqs::views(old(notes)@) + seqs::concat(
            seqs::views(found@),
            min_duty_note(strmap::map_of(o.min_duty.items())),
        ),
{
    let ghost min = strmap::map_of(o.min_duty.items());
    let ghost f = with_min_duty(min);
    let ghost g = min_duty_note(min);
    let ghost all = seqs::views(found@);
    let ghost was = seqs::views(notes@);
    let ghost mut n: int = 0;
    let mut left = found;
    let mut out: Vec<FanOutput> = Vec::new();
    assert(left@ =~= found@.skip(0));
    assert(seqs::views(out@) =~= all.take(0).map_values(f));
    assert(seqs::views(notes@) =~= was + seqs::concat(all.take(0), g));
    while left.len() > 0
        invariant
            0 <= n <= found@.len(),
            left@ == found@.skip(n),
            all == seqs::views(found@),
            min == strmap::map_of(o.min_duty.items()),
            f == with_min_duty(min),
            g == min_duty_note(min),
            seqs::views(out@) == all.take(n).map_values(f),
            seqs::views(notes@) == was + seqs::concat(all.take(n), g),
        decreases left@.len(),
    {
        let mut fan = left.remove(0);
        let ghost before = seqs::views(notes@);
        let ghost found_fan = fan@;
        assert(fan@ == all[n]);
        match o.min_duty.get(fan.id.0.as_str()) {
            Some(v) => {
                fan.caps = FanCaps { min_duty: double::to_percent(v.value), ..fan.caps };
                let note = Note {
                    what: text::cat4(
                        fan.id.0.as_str(),
                        ": minimum duty ",
                        v.text.as_str(),
                        " %",
                    ),
                    source: Source::User,
                };
                proof {
                    seqs::views_push(notes@, note);
                }
                notes.push(note);
            },
            None => {},
        }
        proof {
            assert(fan@ == f(found_fan));
            assert(seqs::views(notes@) =~= before + g(found_fan));
            seqs::concat_take(all, g, n);
            assert(seqs::views(notes@) =~= was + seqs::concat(all.take(n + 1), g));
            seqs::views_push(out@, fan);
            assert(all.take(n + 1).map_values(f) =~= all.take(n).map_values(f).push(f(all[n])));
            assert(left@ =~= found@.skip(n + 1));
            n = n + 1;
        }
        out.push(fan);
    }
    assert(all.take(all.len() as int) =~= all);
    out
}

/// Leaves out what is hidden.
fn keep<T: Hideable>(found: Vec<T>, hide: &Vec<String>) -> (r: Vec<T>)
    ensures
        seqs::views(r@) == seqs::views(found@).filter(shown::<T>(text::texts(hide@))),
{
    let ghost f = shown::<T>(text::texts(hide@));
    let ghost all = seqs::views(found@);
    let ghost mut n: int = 0;
    let mut left = found;
    let mut out: Vec<T> = Vec::new();
    proof {
        assert(left@ =~= found@.skip(0));
        seqs::filter_empty(f);
        assert(all.take(0) =~= Seq::empty());
        assert(seqs::views(out@) =~= Seq::empty());
    }
    while left.len() > 0
        invariant
            0 <= n <= found@.len(),
            left@ == found@.skip(n),
            all == seqs::views(found@),
            f == shown::<T>(text::texts(hide@)),
            seqs::views(out@) == all.take(n).filter(f),
        decreases left@.len(),
    {
        let x = left.remove(0);
        proof {
            seqs::filter_push(all.take(n), f, x@);
            assert(all.take(n + 1) =~= all.take(n).push(x@));
            assert(left@ =~= found@.skip(n + 1));
            seqs::views_push(out@, x);
            n = n + 1;
        }
        if !text::holds(hide.as_slice(), x.id_text()) {
            out.push(x);
        }
    }
    assert(all.take(all.len() as int) =~= all);
    out
}

impl HardwareModel {
    /// Builds the model of a machine.
    pub fn build(raw: &RawInventory, overrides: &Overrides) -> (r: Self)
        ensures
            r@ == model_of(*raw, *overrides),
    {
        let mut notes: Vec<Note> = Vec::new();
        assert(seqs::views(notes@) =~= Seq::empty());
        let sensors = sensors(raw);
        let fans = fans(raw, &sensors, &mut notes);
        let gpus = gpus(raw);
        let lighting = lighting(raw, &mut notes);
        let controls = controls(raw);
        let ghost found = seqs::views(fans@);
        let fans = override_duties(fans, overrides, &mut notes);
        let fan_owner = fan_owner(&fans, raw.system.coolercontrold);
        let identity = &raw.system.identity;
        let r = HardwareModel {
            identity: Identity {
                product: identity.product.clone(),
                board: identity.board.clone(),
                bios: identity.bios.clone(),
            },
            platform: raw.system.platform.clone(),
            cpu: copy_cpu(&raw.system.cpu),
            fans: keep(fans, &overrides.hide),
            sensors: keep(sensors, &overrides.hide),
            gpus: keep(gpus, &overrides.hide),
            lighting: keep(lighting, &overrides.hide),
            controls,
            fan_owner,
            notes,
        };
        assert(r@.notes =~= model_of(*raw, *overrides).notes);
        r
    }
}

/// What the user hides is not in the model.
pub proof fn hidden_is_left_out(raw: RawInventory, o: Overrides, id: Seq<char>)
    requires
        text::texts(o.hide@).contains(id),
    ensures
        forall|i: int|
            0 <= i < model_of(raw, o).fans.len() ==> (#[trigger] model_of(raw, o).fans[i]).id
                != id,
        forall|i: int|
            0 <= i < model_of(raw, o).sensors.len() ==> (#[trigger] model_of(
                raw,
                o,
            ).sensors[i]).id != id,
        forall|i: int|
            0 <= i < model_of(raw, o).gpus.len() ==> (#[trigger] model_of(raw, o).gpus[i]).id
                != id,
        forall|i: int|
            0 <= i < model_of(raw, o).lighting.len() ==> (#[trigger] model_of(
                raw,
                o,
            ).lighting[i]).id != id,
{
    let hide = text::texts(o.hide@);
    broadcast use vstd::seq_lib::group_filter_ensures;

    let m = model_of(raw, o);
    assert forall|i: int| 0 <= i < m.fans.len() implies (#[trigger] m.fans[i]).id != id by {
        assert(shown::<FanOutput>(hide)(m.fans[i]));
    }
    assert forall|i: int| 0 <= i < m.sensors.len() implies (#[trigger] m.sensors[i]).id != id by {
        assert(shown::<Sensor>(hide)(m.sensors[i]));
    }
    assert forall|i: int| 0 <= i < m.gpus.len() implies (#[trigger] m.gpus[i]).id != id by {
        assert(shown::<Gpu>(hide)(m.gpus[i]));
    }
    assert forall|i: int| 0 <= i < m.lighting.len() implies (#[trigger] m.lighting[i]).id != id by {
        assert(shown::<LightingDevice>(hide)(m.lighting[i]));
    }
}

/// Hiding only removes: with nothing hidden and the same lowest duties, the
/// model has the same outputs, sensors, GPUs and lights and those that are
/// hidden, in the same order, and the rest of it is the same.
pub proof fn hiding_only_removes(raw: RawInventory, o: Overrides, open: Overrides)
    requires
        strmap::map_of(open.min_duty.items()) == strmap::map_of(o.min_duty.items()),
        open.hide@.len() == 0,
    ensures
        model_of(raw, o) == (HardwareModelView {
            fans: model_of(raw, open).fans.filter(shown::<FanOutput>(text::texts(o.hide@))),
            sensors: model_of(raw, open).sensors.filter(shown::<Sensor>(text::texts(o.hide@))),
            gpus: model_of(raw, open).gpus.filter(shown::<Gpu>(text::texts(o.hide@))),
            lighting: model_of(raw, open).lighting.filter(
                shown::<LightingDevice>(text::texts(o.hide@)),
            ),
            ..model_of(raw, open)
        }),
{
    let none = text::texts(open.hide@);
    seqs::filter_all(outputs_of(raw, open), shown::<FanOutput>(none));
    seqs::filter_all(sensors::sensors_of(raw), shown::<Sensor>(none));
    seqs::filter_all(gpus::gpus_of(raw), shown::<Gpu>(none));
    seqs::filter_all(lights::lights_of(raw), shown::<LightingDevice>(none));
}

/// What is kept was there.
proof fn kept_was_there<T>(s: Seq<T>, f: spec_fn(T) -> bool, x: T)
    requires
        s.filter(f).contains(x),
    ensures
        s.contains(x),
    decreases s.len(),
{
    reveal(Seq::filter);
    if s.len() > 0 {
        let rest = s.drop_last();
        if rest.filter(f).contains(x) {
            kept_was_there(rest, f, x);
            let i = choose|i: int| 0 <= i < rest.len() && rest[i] == x;
            assert(s[i] == x);
        } else {
            assert(s[s.len() - 1] == x);
        }
    }
}

proof fn kept_ids_are_distinct(s: Seq<SensorView>, f: spec_fn(SensorView) -> bool)
    requires
        sensors::ids_of(s).no_duplicates(),
    ensures
        sensors::ids_of(s.filter(f)).no_duplicates(),
    decreases s.len(),
{
    reveal(Seq::filter);
    if s.len() > 0 {
        let rest = s.drop_last();
        let kept = rest.filter(f);
        assert(sensors::ids_of(rest) =~= sensors::ids_of(s).drop_last());
        kept_ids_are_distinct(rest, f);
        if f(s.last()) {
            let all = sensors::ids_of(s.filter(f));
            assert(all =~= sensors::ids_of(kept).push(s.last().id));
            assert forall|i: int| 0 <= i < kept.len() implies #[trigger] sensors::ids_of(kept)[i]
                != s.last().id by {
                assert(kept.contains(kept[i]));
                kept_was_there(rest, f, kept[i]);
                let k = choose|k: int| 0 <= k < rest.len() && rest[k] == kept[i];
                assert(sensors::ids_of(s)[k] == kept[i].id);
                assert(sensors::ids_of(s)[s.len() - 1] == s.last().id);
            }
            assert forall|i: int, j: int| 0 <= i < all.len() && 0 <= j < all.len() && i
                != j implies all[i] != all[j] by {
                if i < kept.len() {
                    assert(all[i] == sensors::ids_of(kept)[i]);
                }
                if j < kept.len() {
                    assert(all[j] == sensors::ids_of(kept)[j]);
                }
            }
        }
    }
}

/// No two sensors of a model share an id.
pub proof fn model_sensor_ids_are_distinct(raw: RawInventory, o: Overrides)
    ensures
        sensors::ids_of(model_of(raw, o).sensors).no_duplicates(),
{
    sensors::sensor_ids_are_distinct(
        seqs::concat(raw.system.hwmon@, sensors::device_sensors(raw.system.amd_gpus@)),
    );
    kept_ids_are_distinct(sensors::sensors_of(raw), shown::<Sensor>(text::texts(o.hide@)));
}

/// An output of the model whose lowest duty the user sets has it, within 0
/// and 100 %.
pub proof fn wanted_min_duty_is_kept(raw: RawInventory, o: Overrides, i: int)
    requires
        0 <= i < model_of(raw, o).fans.len(),
        strmap::map_of(o.min_duty.items()).contains_key(model_of(raw, o).fans[i].id),
    ensures
        model_of(raw, o).fans[i].caps.min_duty == double::in_percent(
            strmap::map_of(o.min_duty.items())[model_of(raw, o).fans[i].id].value,
        ),
{
    let min = strmap::map_of(o.min_duty.items());
    let all = outputs_of(raw, o);
    let f = model_of(raw, o).fans[i];
    assert(model_of(raw, o).fans.contains(f));
    kept_was_there(all, shown::<FanOutput>(text::texts(o.hide@)), f);
    let k = choose|k: int| 0 <= k < all.len() && all[k] == f;
    let found = fans::fans_of(raw, sensors::sensors_of(raw));
    assert(all[k] == with_min_duty(min)(found[k]));
}

} // verus!
