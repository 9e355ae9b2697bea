//! What the model says of power modes, limits and firmware attributes, and of
//! the machine as a whole.

use crate::inventory::{AttrName, Overrides, RawInventory};
use crate::model::{
    AttrFiles, FanOutput, FanOutputView, FileRead, FirmwareAttrView, HardwareModel, NoteView,
    Owner, SensorRole, SourceView,
};
use crate::{
    controls, double, fans, gpus, lights, machine, model, number, sensors, seqs, strmap, text,
};
use vstd::prelude::*;
use vstd::string::*;

verus! {

/// asusd owns power modes where it offers some, in the order it lists them.
pub proof fn asusd_owns_power_modes(raw: RawInventory)
    requires
        raw.asusd is Some,
        raw.asusd->0.platform is Some,
        raw.asusd->0.platform->0.choices@.len() > 0,
    ensures
        ({
            let p = raw.asusd->0.platform->0;
            let c = controls::controls_of(raw);
            &&& c.power_owner == Some(Owner::Asusd)
            &&& c.power_modes == text::texts(p.choices@)
            &&& p.profile is None ==> c.power_mode is None
            &&& p.profile matches Some(now) ==> c.power_mode == Some(now@)
            &&& p.charge_limit is Some ==> c.charge_limit == p.charge_limit
        }),
{
}

/// power-profiles-daemon owns power modes where asusd offers none.
pub proof fn daemon_owns_power_modes(raw: RawInventory)
    requires
        !(raw.asusd is Some && raw.asusd->0.platform is Some
            && raw.asusd->0.platform->0.choices@.len() > 0),
        raw.ppd is Some,
        raw.ppd->0.profiles@.len() > 0,
    ensures
        controls::controls_of(raw).power_owner == Some(Owner::PowerProfilesDaemon),
        controls::controls_of(raw).power_modes == text::texts(raw.ppd->0.profiles@),
        controls::controls_of(raw).power_mode == Some(raw.ppd->0.active@),
{
}

/// The kernel owns power modes where no daemon offers any, and says in its
/// file which is selected; where it lists none, nobody owns any.
pub proof fn kernel_owns_power_modes(raw: RawInventory)
    requires
        !(raw.asusd is Some && raw.asusd->0.platform is Some
            && raw.asusd->0.platform->0.choices@.len() > 0),
        !(raw.ppd is Some && raw.ppd->0.profiles@.len() > 0),
    ensures
        ({
            let c = controls::controls_of(raw);
            let files = strmap::map_of(raw.sysfs.items());
            let file = "/sys/firmware/acpi/platform_profile"@;
            let listed = raw.system.platform_profile_choices@.len() > 0;
            &&& c.power_modes == text::texts(raw.system.platform_profile_choices@)
            &&& listed ==> c.power_owner == Some(Owner::Sysfs)
            &&& !listed ==> c.power_owner is None && c.power_mode is None
            &&& listed && files.contains_key(file) && files[file].value is Some ==> c.power_mode
                == Some(files[file].value->0@)
            &&& listed && !(files.contains_key(file) && files[file].value is Some)
                ==> c.power_mode is None
        }),
{
    assert(raw.system.platform_profile_choices@.len() == 0
        ==> controls::controls_of(raw).power_modes =~= text::texts(
        raw.system.platform_profile_choices@,
    ));
}

/// Whether a file holds a battery's charge limit.
pub open spec fn holds_charge_limit(path: Seq<char>) -> bool {
    text::begins(path, "/sys/class/power_supply/"@) && text::ends(
        path,
        "/charge_control_end_threshold"@,
    )
}

/// Where asusd does not give the charge limit, it is the number in the first
/// battery's file, in the order of the paths.
pub proof fn charge_limit_is_the_first_batterys(raw: RawInventory, i: int)
    requires
        !(raw.asusd is Some && raw.asusd->0.platform is Some
            && raw.asusd->0.platform->0.choices@.len() > 0
            && raw.asusd->0.platform->0.charge_limit is Some),
        0 <= i <= raw.sysfs.items().len(),
        forall|j: int| 0 <= j < i ==> !holds_charge_limit((#[trigger] raw.sysfs.items()[j]).0),
    ensures
        i == raw.sysfs.items().len() ==> controls::controls_of(raw).charge_limit is None,
        i < raw.sysfs.items().len() && holds_charge_limit(raw.sysfs.items()[i].0) ==> {
            let f = raw.sysfs.items()[i].1;
            &&& f.value is None ==> controls::controls_of(raw).charge_limit is None
            &&& f.value matches Some(v) ==> controls::controls_of(raw).charge_limit
                == number::u8_in(v@)
        },
{
    let all = raw.sysfs.items();
    let limits = controls::is_charge_limit();
    assert forall|j: int| 0 <= j < i implies !limits(#[trigger] all[j]) by {
        assert(!holds_charge_limit(all[j].0));
    }
    if i == all.len() {
        seqs::first_where_none(all, limits);
    } else if holds_charge_limit(all[i].0) {
        assert(limits(all[i]));
        seqs::first_where_is(all, limits, i);
    }
}

/// supergfxd owns the graphics modes where it runs, and says which they are.
pub proof fn supergfxd_owns_graphics_modes(raw: RawInventory)
    ensures
        raw.supergfx is None ==> {
            &&& controls::controls_of(raw).gpu_owner is None
            &&& controls::controls_of(raw).gpu_mode is None
            &&& controls::controls_of(raw).gpu_modes.len() == 0
        },
        raw.supergfx matches Some(g) ==> {
            &&& controls::controls_of(raw).gpu_owner == Some(Owner::Supergfxd)
            &&& controls::controls_of(raw).gpu_mode == Some(g.mode@)
            &&& controls::controls_of(raw).gpu_modes == text::texts(g.supported@)
        },
{
}

/// Where an attribute's file stands.
pub open spec fn armoury_file(name: Seq<char>, file: Seq<char>) -> Seq<char> {
    "/sys/class/firmware-attributes/asus-armoury/attributes"@ + "/"@ + name + "/"@ + file
}

/// The text in a file, if it was read.
pub open spec fn text_in(raw: RawInventory, path: Seq<char>) -> Option<Seq<char>> {
    let files = strmap::map_of(raw.sysfs.items());
    if files.contains_key(path) && files[path].value is Some {
        Some(files[path].value->0@)
    } else {
        None
    }
}

/// What a text says as a number, if it does.
pub open spec fn says(text: Option<Seq<char>>, n: Option<i64>) -> bool {
    match text {
        Some(t) => n == number::i64_in(text::trimmed(t)),
        None => n is None,
    }
}

/// A firmware attribute is there exactly where its value's file is. Its value
/// and range are the numbers in its files; it can be written where its
/// owner may write the file; and a switch between GPUs belongs to supergfxd
/// where that runs.
pub proof fn attributes_are_as_their_files_say(raw: RawInventory, n: AttrName)
    ensures
        ({
            let files = strmap::map_of(raw.sysfs.items());
            let at = armoury_file(n.name@, "current_value"@);
            let all = controls::named_attr(raw)(n);
            &&& !files.contains_key(at) ==> all.len() == 0
            &&& files.contains_key(at) ==> {
                &&& all.len() == 1
                &&& all[0].name == n.name@
                &&& says(text_in(raw, at), all[0].current)
                &&& says(text_in(raw, armoury_file(n.name@, "min_value"@)), all[0].min)
                &&& says(text_in(raw, armoury_file(n.name@, "max_value"@)), all[0].max)
                &&& all[0].writable <==> files[at].mode & 0x80 != 0
                &&& all[0].owned_by == Some(Owner::Supergfxd) <==> n.gpu_switch
                    && raw.supergfx is Some
                &&& all[0].owned_by is None <==> !(n.gpu_switch && raw.supergfx is Some)
                &&& text_in(raw, armoury_file(n.name@, "possible_values"@)) matches Some(t)
                    ==> all[0].choices == model::numbers_in(text::pieces(t, ';'))
                &&& text_in(raw, armoury_file(n.name@, "possible_values"@)) is None
                    ==> all[0].choices.len() == 0
            }
        }),
{
}

/// The attributes are those that the firmware lists, in its order, without
/// those that are not there.
pub proof fn attributes_come_in_order(raw: RawInventory, i: int)
    requires
        0 <= i < raw.system.asus_armoury_attrs@.len(),
    ensures
        ({
            let names = raw.system.asus_armoury_attrs@;
            let own = controls::named_attr(raw)(names[i]);
            let before = seqs::concat(names.take(i), controls::named_attr(raw)).len();
            let all = controls::controls_of(raw).attributes;
            &&& own.len() == 1 ==> before < all.len() && all[before as int] == own[0]
        }),
{
    let names = raw.system.asus_armoury_attrs@;
    attribute_at(names, controls::named_attr(raw), i);
}

proof fn attribute_at(
    names: Seq<AttrName>,
    f: spec_fn(AttrName) -> Seq<FirmwareAttrView>,
    i: int,
)
    requires
        0 <= i < names.len(),
    ensures
        f(names[i]).len() == 1 ==> {
            let before = seqs::concat(names.take(i), f).len();
            &&& before < seqs::concat(names, f).len()
            &&& seqs::concat(names, f)[before as int] == f(names[i])[0]
        },
    decreases names.len(),
{
    let rest = names.drop_last();
    if i < names.len() - 1 {
        attribute_at(rest, f, i);
        assert(rest.take(i) =~= names.take(i));
    } else {
        assert(names.take(i) =~= rest);
    }
}

/// A list of choices holds the numbers of its parts, in order, and leaves out
/// what is no number.
pub proof fn choices_are_the_numbers(a: Seq<Seq<char>>, part: Seq<char>, b: Seq<Seq<char>>)
    ensures
        model::numbers_in(a + b) == model::numbers_in(a) + model::numbers_in(b),
        number::i64_in(text::trimmed(part)) matches Some(n) ==> model::numbers_in(seq![part])
            == seq![n],
        number::i64_in(text::trimmed(part)) is None ==> model::numbers_in(seq![part]).len() == 0,
    decreases b.len(),
{
    assert(seq![part].drop_last() =~= seq![]);
    assert(model::numbers_in(seq![]) =~= seq![]);
    if number::i64_in(text::trimmed(part)) is Some {
        assert(model::numbers_in(seq![part]) =~= seq![
            number::i64_in(text::trimmed(part))->0,
        ]);
    }
    if b.len() == 0 {
        assert(a + b =~= a);
        assert(model::numbers_in(a + b) =~= model::numbers_in(a) + model::numbers_in(b));
    } else {
        choices_are_the_numbers(a, part, b.drop_last());
        assert((a + b).drop_last() =~= a + b.drop_last());
        assert(model::numbers_in(a + b) =~= model::numbers_in(a) + model::numbers_in(b));
    }
}

/// An attribute's own files are read the same way wherever they come from.
pub proof fn files_make_the_attribute(name: Seq<char>, owned_by: Option<Owner>, files: AttrFiles)
    ensures
        model::attr_in(name, owned_by, files) is Some <==> files.current_value is Some,
        model::attr_in(name, owned_by, files) matches Some(a) ==> {
            &&& a.name == name
            &&& a.owned_by == owned_by
            &&& a.writable <==> files.current_value->0.mode & 0x80 != 0
            &&& a.current == model::number_in(files.current_value)
            &&& a.min == model::number_in(files.min_value)
            &&& a.max == model::number_in(files.max_value)
        },
{
}

/// A file's number is the one its text is, between white space.
pub proof fn file_numbers_are_their_texts(f: FileRead)
    ensures
        model::number_in(None) is None,
        f.value is None ==> model::number_in(Some(f)) is None && model::choices_in(
            Some(f),
        ).len() == 0,
        f.value matches Some(v) ==> model::number_in(Some(f)) == number::i64_in(text::trimmed(v@)),
        f.value matches Some(v) ==> model::choices_in(Some(f)) == model::numbers_in(
            text::pieces(v@, ';'),
        ),
{
}

/// A value that an attribute can take is taken as it is; one out of its range
/// goes to the end of the range that it is beyond.
pub proof fn values_are_kept_in_range(a: FirmwareAttrView, wanted: i64)
    requires
        a.owned_by is None,
        a.writable,
    ensures
        a.choices.contains(wanted) ==> model::accepted(a, wanted) == Ok::<i64, Seq<char>>(wanted),
        a.choices.len() == 0 ==> match (a.min, a.max) {
            (Some(lo), Some(hi)) => {
                &&& lo <= wanted <= hi || lo > hi ==> model::accepted(a, wanted) == Ok::<
                    i64,
                    Seq<char>,
                >(wanted)
                &&& lo <= hi && wanted < lo ==> model::accepted(a, wanted) == Ok::<i64, Seq<char>>(
                    lo,
                )
                &&& lo <= hi && wanted > hi ==> model::accepted(a, wanted) == Ok::<i64, Seq<char>>(
                    hi,
                )
            },
            _ => model::accepted(a, wanted) == Ok::<i64, Seq<char>>(wanted),
        },
{
}

/// A refusal names the attribute and says why: who manages it, that it is
/// read-only, or what it takes.
pub proof fn refusals_say_why(a: FirmwareAttrView, wanted: i64)
    ensures
        a.owned_by matches Some(o) ==> model::accepted(a, wanted) == Err::<i64, Seq<char>>(
            a.name + " (managed by "@ + (match o {
                Owner::Asusd => "Asusd"@,
                Owner::PowerProfilesDaemon => "PowerProfilesDaemon"@,
                Owner::Sysfs => "Sysfs"@,
                Owner::Supergfxd => "Supergfxd"@,
                Owner::CoolerControl => "CoolerControl"@,
                Owner::OmaAsus => "OmaAsus"@,
                Owner::Firmware => "Firmware"@,
            }) + ")"@,
        ),
        a.owned_by is None && !a.writable ==> model::accepted(a, wanted) == Err::<i64, Seq<char>>(
            a.name + " (read-only)"@,
        ),
        a.owned_by is None && a.writable && a.choices.len() > 0 && !a.choices.contains(wanted)
            ==> model::accepted(a, wanted) == Err::<i64, Seq<char>>(
            a.name + " (takes ["@ + text::joined(
                a.choices.map_values(|n: i64| number::signed(n as int)),
                ", "@,
            ) + "], not "@ + number::signed(wanted as int) + ")"@,
        ),
{
    reveal_strlit("[");
    reveal_strlit("]");
    reveal_strlit(" (takes ");
    reveal_strlit(" (takes [");
    reveal_strlit(", not ");
    reveal_strlit("], not ");
    let list = text::joined(a.choices.map_values(|n: i64| number::signed(n as int)), ", "@);
    assert(" (takes ["@ =~= " (takes "@ + "["@);
    assert("], not "@ =~= "]"@ + ", not "@);
    if a.owned_by is None && a.writable && a.choices.len() > 0 && !a.choices.contains(wanted) {
        assert(a.name + " (takes "@ + model::listed(a.choices) + ", not "@ + number::signed(
            wanted as int,
        ) + ")"@ =~= a.name + " (takes ["@ + list + "], not "@ + number::signed(wanted as int)
            + ")"@);
    }
}

/// Who drives the fans: CoolerControl while it runs, else asusd where it
/// stores a curve, else OmaAsus where an output takes a duty, else the
/// firmware.
pub proof fn fans_have_the_first_owner(all: Seq<FanOutputView>, i: int, running: bool)
    ensures
        running ==> model::owner_of(all, running) == Owner::CoolerControl,
        !running && 0 <= i < all.len() && all[i].backend is AsusdCurve ==> model::owner_of(
            all,
            running,
        ) == Owner::Asusd,
        !running && (forall|k: int|
            0 <= k < all.len() ==> !((#[trigger] all[k]).backend is AsusdCurve)) ==> {
            &&& 0 <= i < all.len() && all[i].caps.duty ==> model::owner_of(all, running)
                == Owner::OmaAsus
            &&& (forall|k: int| 0 <= k < all.len() ==> !(#[trigger] all[k]).caps.duty)
                ==> model::owner_of(all, running) == Owner::Firmware
        },
{
}

/// Where the user hides nothing, the model has all that was found; and what it
/// says of the machine itself is what the inventory says.
pub proof fn model_has_all_that_was_found(raw: RawInventory, o: Overrides)
    requires
        o.hide@.len() == 0,
    ensures
        ({
            let m = machine::model_of(raw, o);
            &&& m.identity.product == raw.system.identity.product@
            &&& m.identity.board == raw.system.identity.board@
            &&& m.identity.bios == raw.system.identity.bios@
            &&& m.platform == raw.system.platform@
            &&& m.cpu == raw.system.cpu@
            &&& m.sensors == sensors::sensors_of(raw)
            &&& m.gpus == gpus::gpus_of(raw)
            &&& m.lighting == lights::lights_of(raw)
            &&& m.controls == controls::controls_of(raw)
            &&& m.fan_owner == model::owner_of(m.fans, raw.system.coolercontrold)
            &&& m.fans.len() == fans::fans_of(raw, sensors::sensors_of(raw)).len()
        }),
{
    let none = text::texts(o.hide@);
    seqs::filter_all(machine::outputs_of(raw, o), machine::shown::<FanOutput>(none));
    seqs::filter_all(sensors::sensors_of(raw), machine::shown::<model::Sensor>(none));
    seqs::filter_all(gpus::gpus_of(raw), machine::shown::<model::Gpu>(none));
    seqs::filter_all(lights::lights_of(raw), machine::shown::<model::LightingDevice>(none));
}

/// Exactly what the user names is hidden: all else stays, in its order.
pub proof fn only_what_is_named_is_hidden(raw: RawInventory, o: Overrides, open: Overrides)
    requires
        strmap::map_of(open.min_duty.items()) == strmap::map_of(o.min_duty.items()),
        open.hide@.len() == 0,
    ensures
        ({
            let hide = text::texts(o.hide@);
            let all = machine::model_of(raw, open);
            let m = machine::model_of(raw, o);
            &&& m.fans == all.fans.filter(|f: FanOutputView| !hide.contains(f.id))
            &&& m.sensors == all.sensors.filter(|s: model::SensorView| !hide.contains(s.id))
            &&& m.gpus == all.gpus.filter(|g: model::GpuView| !hide.contains(g.id))
            &&& m.lighting == all.lighting.filter(
                |l: model::LightingDeviceView| !hide.contains(l.id),
            )
        }),
{
    let hide = text::texts(o.hide@);
    machine::hiding_only_removes(raw, o, open);
    assert(machine::shown::<FanOutput>(hide) =~= (|f: FanOutputView| !hide.contains(f.id)));
    assert(machine::shown::<model::Sensor>(hide) =~= (|s: model::SensorView|
        !hide.contains(s.id)));
    assert(machine::shown::<model::Gpu>(hide) =~= (|g: model::GpuView| !hide.contains(g.id)));
    assert(machine::shown::<model::LightingDevice>(hide) =~= (|l: model::LightingDeviceView|
        !hide.contains(l.id)));
}

/// The user's lowest duty goes to the output it is for, and changes nothing
/// else of it, nor any other output.
pub proof fn lowest_duties_go_to_their_outputs(raw: RawInventory, o: Overrides, i: int)
    requires
        o.hide@.len() == 0,
        0 <= i < fans::fans_of(raw, sensors::sensors_of(raw)).len(),
    ensures
        ({
            let was = fans::fans_of(raw, sensors::sensors_of(raw))[i];
            let now = machine::model_of(raw, o).fans[i];
            let wanted = strmap::map_of(o.min_duty.items());
            &&& !wanted.contains_key(was.id) ==> now == was
            &&& wanted.contains_key(was.id) ==> {
                &&& now.id == was.id
                &&& now.label == was.label
                &&& now.tach == was.tach
                &&& now.backend == was.backend
                &&& now.firmware_curves == was.firmware_curves
                &&& now.caps == (model::FanCaps { min_duty: now.caps.min_duty, ..was.caps })
                &&& now.caps.min_duty == double::in_percent(wanted[was.id].value)
            }
        }),
{
    let none = text::texts(o.hide@);
    seqs::filter_all(machine::outputs_of(raw, o), machine::shown::<FanOutput>(none));
}

/// A wanted percentage within 0 and 100 stays; a smaller one is 0, and a
/// greater one 100.
pub proof fn percentages_are_kept_in_range(d: double::Double)
    ensures
        double::is_number(d) ==> 0 <= double::rank(double::in_percent(d)) <= double::rank(
            double::Double { bits: 0x4059_0000_0000_0000 },
        ),
        double::is_number(d) && double::rank(d) < 0 ==> double::in_percent(d).bits == 0,
        double::is_number(d) && double::rank(d) > double::rank(
            double::Double { bits: 0x4059_0000_0000_0000 },
        ) ==> double::in_percent(d).bits == 0x4059_0000_0000_0000,
        double::is_number(d) && 0 <= double::rank(d) <= double::rank(
            double::Double { bits: 0x4059_0000_0000_0000 },
        ) ==> double::in_percent(d) == d,
        !double::is_number(d) ==> double::in_percent(d) == d,
{
}

/// Doubles stand in the order of their patterns, the negative ones the other
/// way round before the others; beyond infinity there is no number.
pub proof fn patterns_order_doubles(a: double::Double, b: double::Double)
    ensures
        a.bits <= 0x7fff_ffff_ffff_ffff && b.bits <= 0x7fff_ffff_ffff_ffff ==> (double::rank(a)
            <= double::rank(b) <==> a.bits <= b.bits),
        a.bits >= 0x8000_0000_0000_0000 && b.bits >= 0x8000_0000_0000_0000 ==> (double::rank(a)
            <= double::rank(b) <==> a.bits >= b.bits),
        a.bits > 0x8000_0000_0000_0000 && b.bits <= 0x7fff_ffff_ffff_ffff ==> double::rank(a)
            < double::rank(b),
        a.bits <= 0x7fff_ffff_ffff_ffff ==> (double::is_number(a) <==> a.bits
            <= 0x7ff0_0000_0000_0000),
        a.bits >= 0x8000_0000_0000_0000 ==> (double::is_number(a) <==> a.bits
            <= 0xfff0_0000_0000_0000),
{
}

/// The model notes what it knows of outputs, then of lights, then the lowest
/// duties that the user sets, in the order of the outputs.
pub proof fn notes_come_in_order(raw: RawInventory, o: Overrides)
    ensures
        ({
            let found = fans::fans_of(raw, sensors::sensors_of(raw));
            let notes = machine::model_of(raw, o).notes;
            let first = fans::fan_notes(raw).len();
            let second = lights::light_notes(raw).len();
            &&& notes.len() >= first + second
            &&& notes.take(first as int) == fans::fan_notes(raw)
            &&& notes.subrange(first as int, (first + second) as int) == lights::light_notes(raw)
            &&& forall|i: int|
                first + second <= i < notes.len() ==> exists|k: int|
                    0 <= k < found.len() && is_duty_note(
                        #[trigger] notes[i],
                        o,
                        #[trigger] found[k],
                    )
        }),
{
    let found = fans::fans_of(raw, sensors::sensors_of(raw));
    let notes = machine::model_of(raw, o).notes;
    let a = fans::fan_notes(raw);
    let b = lights::light_notes(raw);
    let g = machine::min_duty_note(strmap::map_of(o.min_duty.items()));
    let c = seqs::concat(found, g);
    assert(notes == a + b + c);
    assert(notes.take(a.len() as int) =~= a);
    assert(notes.subrange(a.len() as int, (a.len() + b.len()) as int) =~= b);
    assert forall|i: int| a.len() + b.len() <= i < notes.len() implies exists|k: int|
        0 <= k < found.len() && is_duty_note(#[trigger] notes[i], o, #[trigger] found[k]) by {
        let at = i - a.len() - b.len();
        assert(notes[i] == c[at]);
        let k = duty_note_of(o, found, at);
        assert(is_duty_note(notes[i], o, found[k]));
    }
}

/// Whether a note is of the lowest duty that the user sets for an output.
pub open spec fn is_duty_note(n: NoteView, o: Overrides, f: FanOutputView) -> bool {
    let wanted = strmap::map_of(o.min_duty.items());
    &&& wanted.contains_key(f.id)
    &&& n.what == f.id + ": minimum duty "@ + wanted[f.id].text@ + " %"@
    &&& n.source == SourceView::User
}

proof fn duty_note_of(o: Overrides, found: Seq<FanOutputView>, i: int) -> (k: int)
    requires
        0 <= i < seqs::concat(
            found,
            machine::min_duty_note(strmap::map_of(o.min_duty.items())),
        ).len(),
    ensures
        0 <= k < found.len(),
        is_duty_note(
            seqs::concat(found, machine::min_duty_note(strmap::map_of(o.min_duty.items())))[i],
            o,
            found[k],
        ),
    decreases found.len(),
{
    let g = machine::min_duty_note(strmap::map_of(o.min_duty.items()));
    let rest = found.drop_last();
    let before = seqs::concat(rest, g);
    if i < before.len() {
        let k = duty_note_of(o, rest, i);
        assert(rest[k] == found[k]);
        k
    } else {
        found.len() - 1
    }
}

/// Each output with a lowest duty that the user sets is noted.
pub proof fn set_duties_are_noted(raw: RawInventory, o: Overrides, k: int)
    requires
        0 <= k < fans::fans_of(raw, sensors::sensors_of(raw)).len(),
        strmap::map_of(o.min_duty.items()).contains_key(
            fans::fans_of(raw, sensors::sensors_of(raw))[k].id,
        ),
    ensures
        exists|i: int|
            0 <= i < machine::model_of(raw, o).notes.len() && is_duty_note(
                #[trigger] machine::model_of(raw, o).notes[i],
                o,
                fans::fans_of(raw, sensors::sensors_of(raw))[k],
            ),
{
    let found = fans::fans_of(raw, sensors::sensors_of(raw));
    let g = machine::min_duty_note(strmap::map_of(o.min_duty.items()));
    let at = duty_note_at(o, found, k);
    let before = fans::fan_notes(raw) + lights::light_notes(raw);
    assert(machine::model_of(raw, o).notes[before.len() + at] == seqs::concat(found, g)[at]);
}

proof fn duty_note_at(o: Overrides, found: Seq<FanOutputView>, k: int) -> (i: int)
    requires
        0 <= k < found.len(),
        strmap::map_of(o.min_duty.items()).contains_key(found[k].id),
    ensures
        0 <= i < seqs::concat(
            found,
            machine::min_duty_note(strmap::map_of(o.min_duty.items())),
        ).len(),
        is_duty_note(
            seqs::concat(found, machine::min_duty_note(strmap::map_of(o.min_duty.items())))[i],
            o,
            found[k],
        ),
    decreases found.len(),
{
    let g = machine::min_duty_note(strmap::map_of(o.min_duty.items()));
    let rest = found.drop_last();
    if k < found.len() - 1 {
        let i = duty_note_at(o, rest, k);
        assert(seqs::concat(found, g)[i] == seqs::concat(rest, g)[i]);
        i
    } else {
        let i = seqs::concat(rest, g).len() as int;
        assert(seqs::concat(found, g)[i] == g(found[k])[0]);
        i
    }
}

/// Looking something up by its id or its name finds the first that has it,
/// and a sensor by what it measures the first that measures it.
pub proof fn lookups_find_the_first(m: HardwareModel, id: Seq<char>, role: SensorRole, i: int)
    ensures
        0 <= i < m.fans@.len() && m.fans@[i].id.0@ == id && (forall|j: int|
            0 <= j < i ==> (#[trigger] m.fans@[j]).id.0@ != id) ==> seqs::first_where(
            m.fans@,
            model::fan_has(id),
        ) == Some(i),
        0 <= i < m.sensors@.len() && m.sensors@[i].id.0@ == id && (forall|j: int|
            0 <= j < i ==> (#[trigger] m.sensors@[j]).id.0@ != id) ==> seqs::first_where(
            m.sensors@,
            model::sensor_has(id),
        ) == Some(i),
        0 <= i < m.sensors@.len() && m.sensors@[i].role == role && (forall|j: int|
            0 <= j < i ==> (#[trigger] m.sensors@[j]).role != role) ==> seqs::first_where(
            m.sensors@,
            model::measures(role),
        ) == Some(i),
        0 <= i < m.controls.attributes@.len() && m.controls.attributes@[i].name@ == id && (forall|
            j: int,
        |
            0 <= j < i ==> (#[trigger] m.controls.attributes@[j]).name@ != id)
            ==> seqs::first_where(m.controls.attributes@, model::attr_has(id)) == Some(i),
{
    seqs::first_where_found(m.fans@, model::fan_has(id));
    seqs::first_where_found(m.sensors@, model::sensor_has(id));
    seqs::first_where_found(m.sensors@, model::measures(role));
    seqs::first_where_found(m.controls.attributes@, model::attr_has(id));
    if 0 <= i < m.fans@.len() && m.fans@[i].id.0@ == id && (forall|j: int|
        0 <= j < i ==> (#[trigger] m.fans@[j]).id.0@ != id) {
        seqs::first_where_is(m.fans@, model::fan_has(id), i);
    }
    if 0 <= i < m.sensors@.len() && m.sensors@[i].id.0@ == id && (forall|j: int|
        0 <= j < i ==> (#[trigger] m.sensors@[j]).id.0@ != id) {
        seqs::first_where_is(m.sensors@, model::sensor_has(id), i);
    }
    if 0 <= i < m.sensors@.len() && m.sensors@[i].role == role && (forall|j: int|
        0 <= j < i ==> (#[trigger] m.sensors@[j]).role != role) {
        seqs::first_where_is(m.sensors@, model::measures(role), i);
    }
    if 0 <= i < m.controls.attributes@.len() && m.controls.attributes@[i].name@ == id && (forall|
        j: int,
    |
        0 <= j < i ==> (#[trigger] m.controls.attributes@[j]).name@ != id) {
        seqs::first_where_is(m.controls.attributes@, model::attr_has(id), i);
    }
}

/// The fixed fan names of a first config read as the ids that the model gives
/// the same outputs.
pub proof fn fixed_names_read_as_ids(name: model::FanName)
    ensures
        name matches model::FanName::Id(s) ==> {
            &&& s@ == "RyujinPump"@ ==> name.id() == "ryujin:pump"@
            &&& s@ == "RyujinInternalFan"@ ==> name.id() == "ryujin:block-fan"@
            &&& s@ == "RyujinExternalFans"@ ==> name.id() == "ryujin:radiator"@
            &&& s@ == "NvidiaFans"@ ==> name.id() == "nvidia:0:fans"@
        },
        name matches model::FanName::SuperIo(n) ==> name.id() == "superio:pwm"@ + number::decimal(
            n as nat,
        ),
        name matches model::FanName::LianLiChannel(c) ==> name.id() == "lianli:0:ch"@
            + number::decimal(c as nat),
        name matches model::FanName::CoolerControl { device_uid, channel } ==> name.id() == "cc:"@
            + device_uid@ + ":"@ + channel@,
{
    reveal_strlit("RyujinPump");
    reveal_strlit("RyujinInternalFan");
    reveal_strlit("RyujinExternalFans");
    reveal_strlit("NvidiaFans");
    assert("RyujinPump"@[0] != "NvidiaFans"@[0]);
    assert("RyujinPump"@.len() == 10);
    assert("RyujinInternalFan"@.len() == 17);
    assert("RyujinExternalFans"@.len() == 18);
    assert("NvidiaFans"@.len() == 10);
}

/// Those ids are the ones that the model gives: a header of the Super I/O
/// chip, NVIDIA's first GPU and a channel of the first hub.
pub proof fn fixed_names_find_their_outputs(
    d: crate::inventory::HwmonDevice,
    p: crate::inventory::PwmChannel,
    g: crate::inventory::NvidiaGpu,
    hub: crate::inventory::HidDevice,
    c: u8,
    hubs: nat,
)
    ensures
        p.quirk is None && d.super_io ==> fans::pwm_fan(d, p, seq![]).id == model::FanName::SuperIo(
            p.index,
        ).id(),
        g.index == 0 && g.num_fans > 0 ==> fans::nvidia_fans(g)[0].id == "nvidia:0:fans"@,
        hub.channels is Some && 1 <= c <= hub.channels->0 ==> fans::hub_fans(hub, 0, hubs)[c - 1].id
            == model::FanName::LianLiChannel(c).id(),
{
    reveal_strlit("nvidia:");
    reveal_strlit(":fans");
    reveal_strlit("nvidia:0:fans");
    reveal_strlit("lianli:");
    reveal_strlit(":ch");
    reveal_strlit("lianli:0:ch");
    assert(number::decimal(0) =~= seq!['0']);
    assert("nvidia:"@ + number::decimal(0) + ":fans"@ =~= "nvidia:0:fans"@);
    assert("lianli:"@ + number::decimal(0) + ":ch"@ =~= "lianli:0:ch"@);
    assert("lianli:"@ + number::decimal(0) + ":ch"@ + number::decimal(c as nat) =~= "lianli:0:ch"@
        + number::decimal(c as nat));
}

} // verus!
