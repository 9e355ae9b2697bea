//! The platform controls of the model: power modes, charge limit, firmware
//! attributes and GPU modes.

use crate::inventory::{AttrName, RawInventory};
use crate::model::{
    AttrFiles, FileRead, FirmwareAttr, FirmwareAttrView, Owner, PlatformControls,
    PlatformControlsView, ARMOURY,
};
use crate::strmap::StrMap;
use crate::{model, number, seqs, strmap, text};
use vstd::prelude::*;
use vstd::string::*;

verus! {

/// A file, if it was found.
pub open spec fn file_at(files: Map<Seq<char>, FileRead>, path: Seq<char>) -> Option<FileRead> {
    if files.contains_key(path) {
        Some(files[path])
    } else {
        None
    }
}

fn find_file(files: &StrMap<FileRead>, path: &str) -> (r: Option<FileRead>)
    ensures
        r == file_at(strmap::map_of(files.items()), path@),
{
    match files.get(path) {
        Some(f) => Some(
            FileRead {
                value: match &f.value {
                    Some(v) => Some(v.clone()),
                    None => None,
                },
                mode: f.mode,
            },
        ),
        None => None,
    }
}

/// Where a file of a firmware attribute is.
pub open spec fn attr_path(name: Seq<char>, file: Seq<char>) -> Seq<char> {
    ARMOURY@ + "/"@ + name + "/"@ + file
}

/// The files of a firmware attribute.
pub open spec fn files_of(files: Map<Seq<char>, FileRead>, name: Seq<char>) -> AttrFiles {
    AttrFiles {
        current_value: file_at(files, attr_path(name, "current_value"@)),
        min_value: file_at(files, attr_path(name, "min_value"@)),
        max_value: file_at(files, attr_path(name, "max_value"@)),
        possible_values: file_at(files, attr_path(name, "possible_values"@)),
    }
}

fn find_files(files: &StrMap<FileRead>, name: &str) -> (r: AttrFiles)
    ensures
        r == files_of(strmap::map_of(files.items()), name@),
{
    let dir = text::cat4(ARMOURY, "/", name, "/");
    AttrFiles {
        current_value: find_file(files, text::cat2(dir.as_str(), "current_value").as_str()),
        min_value: find_file(files, text::cat2(dir.as_str(), "min_value").as_str()),
        max_value: find_file(files, text::cat2(dir.as_str(), "max_value").as_str()),
        possible_values: find_file(files, text::cat2(dir.as_str(), "possible_values").as_str()),
    }
}

/// The firmware attribute of a name, as far as its files are there. Those
/// that switch between GPUs belong to supergfxd where it runs.
pub open spec fn named_attr(raw: RawInventory) -> spec_fn(AttrName) -> Seq<FirmwareAttrView> {
    |n: AttrName|
        match model::attr_in(
            n.name@,
            if n.gpu_switch && raw.supergfx is Some {
                Some(Owner::Supergfxd)
            } else {
                None
            },
            files_of(strmap::map_of(raw.sysfs.items()), n.name@),
        ) {
            Some(a) => seq![a],
            None => seq![],
        }
}

/// Whether a file holds a battery's charge limit.
pub open spec fn is_charge_limit() -> spec_fn((Seq<char>, FileRead)) -> bool {
    |e: (Seq<char>, FileRead)|
        text::begins(e.0, "/sys/class/power_supply/"@) && text::ends(
            e.0,
            "/charge_control_end_threshold"@,
        )
}

/// The charge limit of the first battery that has one, by the order of the
/// paths.
pub open spec fn battery_limit(files: Seq<(Seq<char>, FileRead)>) -> Option<u8> {
    match seqs::first_where(files, is_charge_limit()) {
        Some(i) => match files[i].1.value {
            Some(v) => number::u8_in(v@),
            None => None,
        },
        None => None,
    }
}

fn find_battery_limit(files: &StrMap<FileRead>) -> (r: Option<u8>)
    ensures
        r == battery_limit(files.items()),
{
    let ghost all = files.items();
    let mut i: usize = 0;
    while i < files.len()
        invariant
            i <= all.len(),
            all == files.items(),
            forall|k: int| 0 <= k < i ==> !is_charge_limit()(#[trigger] all[k]),
        decreases all.len() - i,
    {
        let path = files.key(i);
        if text::has_start(path, "/sys/class/power_supply/") && text::has_end(
            path,
            "/charge_control_end_threshold",
        ) {
            proof {
                seqs::first_where_is(all, is_charge_limit(), i as int);
            }
            return match &files.value(i).value {
                Some(v) => number::read_u8(v.as_str()),
                None => None,
            };
        }
        i += 1;
    }
    proof {
        seqs::first_where_none(all, is_charge_limit());
    }
    None
}

/// The power modes and who switches them: asusd owns the platform profile
/// when it runs, then power-profiles-daemon, then the kernel's sysfs switch.
pub open spec fn power_controls(raw: RawInventory) -> PlatformControlsView {
    let by_asusd = match raw.asusd {
        Some(a) => match a.platform {
            Some(p) => p.choices@.len() > 0,
            None => false,
        },
        None => false,
    };
    let by_ppd = match raw.ppd {
        Some(p) => p.profiles@.len() > 0,
        None => false,
    };
    if by_asusd {
        let p = raw.asusd->0.platform->0;
        PlatformControlsView {
            power_modes: text::texts(p.choices@),
            power_mode: model::opt_text(p.profile),
            power_owner: Some(Owner::Asusd),
            charge_limit: p.charge_limit,
            ..PlatformControlsView::none()
        }
    } else if by_ppd {
        PlatformControlsView {
            power_modes: text::texts(raw.ppd->0.profiles@),
            power_mode: Some(raw.ppd->0.active@),
            power_owner: Some(Owner::PowerProfilesDaemon),
            ..PlatformControlsView::none()
        }
    } else if raw.system.platform_profile_choices@.len() > 0 {
        PlatformControlsView {
            power_modes: text::texts(raw.system.platform_profile_choices@),
            power_mode: match file_at(
                strmap::map_of(raw.sysfs.items()),
                "/sys/firmware/acpi/platform_profile"@,
            ) {
                Some(f) => model::opt_text(f.value),
                None => None,
            },
            power_owner: Some(Owner::Sysfs),
            ..PlatformControlsView::none()
        }
    } else {
        PlatformControlsView::none()
    }
}

/// The platform controls of everything found.
pub open spec fn controls_of(raw: RawInventory) -> PlatformControlsView {
    let power = power_controls(raw);
    PlatformControlsView {
        charge_limit: if power.charge_limit is Some {
            power.charge_limit
        } else {
            battery_limit(raw.sysfs.items())
        },
        attributes: seqs::concat(raw.system.asus_armoury_attrs@, named_attr(raw)),
        gpu_modes: match raw.supergfx {
            Some(g) => text::texts(g.supported@),
            None => seq![],
        },
        gpu_mode: match raw.supergfx {
            Some(g) => Some(g.mode@),
            None => None,
        },
        gpu_owner: match raw.supergfx {
            Some(_) => Some(Owner::Supergfxd),
            None => None,
        },
        ..power
    }
}

fn find_power(raw: &RawInventory) -> (r: PlatformControls)
    ensures
        r@ == power_controls(*raw),
{
    let mut c = PlatformControls::default();
    match &raw.asusd {
        Some(a) => match &a.platform {
            Some(p) => if p.choices.len() > 0 {
                c.power_modes = text::copy_list(p.choices.as_slice());
                c.power_mode = match &p.profile {
                    Some(s) => Some(s.clone()),
                    None => None,
                };
                c.power_owner = Some(Owner::Asusd);
                c.charge_limit = p.charge_limit;
                return c;
            },
            None => {},
        },
        None => {},
    }
    match &raw.ppd {
        Some(p) => if p.profiles.len() > 0 {
            c.power_modes = text::copy_list(p.profiles.as_slice());
            c.power_mode = Some(p.active.clone());
            c.power_owner = Some(Owner::PowerProfilesDaemon);
            return c;
        },
        None => {},
    }
    if raw.system.platform_profile_choices.len() > 0 {
        c.power_modes = text::copy_list(raw.system.platform_profile_choices.as_slice());
        c.power_mode = match find_file(&raw.sysfs, "/sys/firmware/acpi/platform_profile") {
            Some(f) => f.value,
            None => None,
        };
        c.power_owner = Some(Owner::Sysfs);
    }
    c
}

/// The platform controls of the model.
pub fn controls(raw: &RawInventory) -> (r: PlatformControls)
    ensures
        r@ == controls_of(*raw),
{
    let mut c = find_power(raw);
    let ghost power = c@;
    if c.charge_limit.is_none() {
        c.charge_limit = find_battery_limit(&raw.sysfs);
    }
    let ghost limit = c.charge_limit;
    let names = &raw.system.asus_armoury_attrs;
    let ghost f = named_attr(*raw);
    let mut attributes: Vec<FirmwareAttr> = Vec::new();
    let mut i: usize = 0;
    assert(seqs::views(attributes@) =~= seqs::concat(names@.take(0), f));
    while i < names.len()
        invariant
            i <= names@.len(),
            f == named_attr(*raw),
            seqs::views(attributes@) == seqs::concat(names@.take(i as int), f),
        decreases names@.len() - i,
    {
        let n = &names[i];
        let ghost before = seqs::views(attributes@);
        proof {
            seqs::concat_take(names@, f, i as int);
        }
        let owned_by = if n.gpu_switch && raw.supergfx.is_some() {
            Some(Owner::Supergfxd)
        } else {
            None
        };
        let files = find_files(&raw.sysfs, n.name.as_str());
        match FirmwareAttr::from_files(n.name.as_str(), owned_by, &files) {
            Some(a) => {
                proof {
                    seqs::views_push(attributes@, a);
                }
                attributes.push(a);
            },
            None => {},
        }
        assert(seqs::views(attributes@) =~= before + f(*n));
        i += 1;
    }
    assert(names@.take(names@.len() as int) =~= names@);
    c.attributes = attributes;
    match &raw.supergfx {
        Some(g) => {
            c.gpu_modes = text::copy_list(g.supported.as_slice());
            c.gpu_mode = Some(g.mode.clone());
            c.gpu_owner = Some(Owner::Supergfxd);
        },
        None => {},
    }
    c
}

/// A machine without a component doesn't get its controls: power modes have
/// an owner exactly where there are some, and so has the graphics mode.
pub proof fn controls_have_owners(raw: RawInventory)
    ensures
        controls_of(raw).power_owner is Some <==> controls_of(raw).power_modes.len() > 0,
        controls_of(raw).power_owner is None ==> controls_of(raw).power_mode is None,
        controls_of(raw).gpu_owner is Some <==> controls_of(raw).gpu_mode is Some,
        raw.supergfx is None ==> controls_of(raw).gpu_modes.len() == 0,
{
}

} // verus!
