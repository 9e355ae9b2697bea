//! What power modes, profiles and configs come to: which mode is of which
//! kind, what a first config holds, and what an older one becomes.

use crate::config::{Config, FanOwner, Mode};
use crate::ids::Uuid;
use crate::profile::{FanAssignment, FanMode, FanTarget, LightingMode, Profile, ProfileRole, Rgb};
use crate::{config, power, profile, seqs, strmap, text};
use vstd::prelude::*;
use vstd::string::*;

verus! {

proof fn kind_names_differ(n: Seq<char>)
    ensures
        n == "quiet"@ || n == "silent"@ || n == "power-saver"@ || n == "low-power"@ || n
            == "cool"@ ==> n != "balanced"@ && n != "balanced-performance"@ && n
            != "performance"@ && n != "turbo"@ && n != "max-power"@,
        n == "balanced"@ || n == "balanced-performance"@ ==> n != "performance"@ && n
            != "turbo"@ && n != "max-power"@,
{
    reveal_strlit("quiet");
    reveal_strlit("silent");
    reveal_strlit("power-saver");
    reveal_strlit("low-power");
    reveal_strlit("cool");
    reveal_strlit("balanced");
    reveal_strlit("balanced-performance");
    reveal_strlit("performance");
    reveal_strlit("turbo");
    reveal_strlit("max-power");
    assert("quiet"@[0] != "turbo"@[0]);
    assert("power-saver"@[1] != "performance"@[1]);
    assert("low-power"@[0] != "max-power"@[0]);
    assert("quiet"@.len() == 5 && "silent"@.len() == 6 && "power-saver"@.len() == 11
        && "low-power"@.len() == 9 && "cool"@.len() == 4 && "balanced"@.len() == 8
        && "balanced-performance"@.len() == 20 && "performance"@.len() == 11 && "turbo"@.len()
        == 5 && "max-power"@.len() == 9);
}

/// Names of power modes are compared in small letters, with hyphens for
/// spaces and underscores.
pub proof fn names_are_folded(name: Seq<char>, i: int)
    requires
        0 <= i < name.len(),
    ensures
        power::folded(name).len() == name.len(),
        name[i] == '_' || name[i] == ' ' || name[i] == '-' ==> power::folded(name)[i] == '-',
        'A' <= name[i] && name[i] <= 'Z' ==> power::folded(name)[i] as u32 == name[i] as u32 + 32,
        !('A' <= name[i] && name[i] <= 'Z') && name[i] != '_' && name[i] != ' ' ==> power::folded(
            name,
        )[i] == name[i],
{
}

/// The quiet modes, across asusd, power-profiles-daemon and the kernel.
pub proof fn quiet_modes(name: Seq<char>)
    ensures
        ({
            let n = power::folded(name);
            power::kind_of(name) == Some(ProfileRole::Quiet) <==> n == "quiet"@ || n == "silent"@
                || n == "power-saver"@ || n == "low-power"@ || n == "cool"@
        }),
{
    kind_names_differ(power::folded(name));
}

/// The balanced modes.
pub proof fn balanced_modes(name: Seq<char>)
    ensures
        power::kind_of(name) == Some(ProfileRole::Balanced) <==> power::folded(name)
            == "balanced"@ || power::folded(name) == "balanced-performance"@,
{
    kind_names_differ(power::folded(name));
}

/// The fast modes.
pub proof fn performance_modes(name: Seq<char>)
    ensures
        ({
            let n = power::folded(name);
            power::kind_of(name) == Some(ProfileRole::Performance) <==> n == "performance"@ || n
                == "turbo"@ || n == "max-power"@
        }),
{
    kind_names_differ(power::folded(name));
}

/// A mode of the wanted name is the match, the first of them, in any case of
/// letters.
pub proof fn same_name_is_the_match(wanted: Seq<char>, choices: Seq<Seq<char>>, i: int)
    requires
        0 <= i < choices.len(),
        text::lower(choices[i]) == text::lower(wanted),
        forall|j: int| 0 <= j < i ==> text::lower(#[trigger] choices[j]) != text::lower(wanted),
    ensures
        power::best_match(wanted, choices) == Some(i),
{
    seqs::first_where_is(choices, power::same_name(wanted), i);
}

/// Where no mode has the wanted name, the match is the first of its kind; a
/// name of no kind has none.
pub proof fn same_kind_is_the_next_match(wanted: Seq<char>, choices: Seq<Seq<char>>, i: int)
    requires
        forall|j: int|
            0 <= j < choices.len() ==> text::lower(#[trigger] choices[j]) != text::lower(wanted),
        0 <= i <= choices.len(),
        forall|j: int|
            0 <= j < i ==> power::kind_of(#[trigger] choices[j]) != power::kind_of(wanted),
    ensures
        power::kind_of(wanted) is None ==> power::best_match(wanted, choices) is None,
        power::kind_of(wanted) is Some && i == choices.len() ==> power::best_match(wanted, choices)
            is None,
        power::kind_of(wanted) is Some && i < choices.len() && power::kind_of(choices[i])
            == power::kind_of(wanted) ==> power::best_match(wanted, choices) == Some(i),
{
    seqs::first_where_none(choices, power::same_name(wanted));
    if let Some(kind) = power::kind_of(wanted) {
        if i == choices.len() {
            seqs::first_where_none(choices, power::of_kind(kind));
        } else if power::kind_of(choices[i]) == Some(kind) {
            seqs::first_where_is(choices, power::of_kind(kind), i);
        }
    }
}

/// A mode is shown with spaces for hyphens and underscores and a capital at
/// its start; nothing else of it changes.
pub proof fn modes_are_shown_as_words(mode: Seq<char>, i: int)
    requires
        0 < i < mode.len(),
    ensures
        ({
            let first = if mode[0] == '-' || mode[0] == '_' {
                ' '
            } else {
                mode[0]
            };
            let head = text::uppercase(first);
            &&& power::shown(mode).len() == head.len() + mode.len() - 1
            &&& power::shown(mode).take(head.len() as int) == head
            &&& mode[i] == '-' || mode[i] == '_' ==> power::shown(mode)[head.len() + i - 1] == ' '
            &&& mode[i] != '-' && mode[i] != '_' ==> power::shown(mode)[head.len() + i - 1]
                == mode[i]
        }),
        power::shown(seq![]).len() == 0,
{
    let first = if mode[0] == '-' || mode[0] == '_' {
        ' '
    } else {
        mode[0]
    };
    assert(power::shown(mode).take(text::uppercase(first).len() as int) =~= text::uppercase(
        first,
    ));
}

/// A profile carries a mode where its own power mode matches that one here, in
/// any case of letters; one without a power mode carries none.
pub proof fn profiles_carry_their_match(
    p: Profile,
    live: Seq<char>,
    choices: Seq<Seq<char>>,
)
    ensures
        p.cpu.power_mode is None ==> !config::carries_mode(p, live, choices),
        p.cpu.power_mode matches Some(w) ==> match power::best_match(w@, choices) {
            Some(i) => config::carries_mode(p, live, choices) <==> text::lower(choices[i])
                == text::lower(live),
            None => !config::carries_mode(p, live, choices),
        },
{
}

/// The follower of a power mode is the default profile where it carries the
/// mode, else the first that does, else none.
pub proof fn default_profile_follows_first(
    c: Config,
    live: Seq<char>,
    choices: Seq<Seq<char>>,
    d: int,
    i: int,
)
    requires
        0 <= d < c.profiles@.len(),
        c.profiles@[d].id == c.default_profile,
        forall|j: int| 0 <= j < d ==> (#[trigger] c.profiles@[j]).id != c.default_profile,
        0 <= i <= c.profiles@.len(),
        forall|j: int| 0 <= j < i ==> !config::carries_mode(#[trigger] c.profiles@[j], live, choices),
    ensures
        config::carries_mode(c.profiles@[d], live, choices) ==> c.follower(live, choices) == Some(
            d,
        ),
        !config::carries_mode(c.profiles@[d], live, choices) && i < c.profiles@.len()
            && config::carries_mode(c.profiles@[i], live, choices) ==> c.follower(live, choices)
            == Some(i),
        i == c.profiles@.len() ==> c.follower(live, choices) is None,
{
    seqs::first_where_is(c.profiles@, config::has_id(c.default_profile), d);
    let f = config::carries(live, choices);
    assert forall|j: int| 0 <= j < i implies !f(#[trigger] c.profiles@[j]) by {
        assert(!config::carries_mode(c.profiles@[j], live, choices));
    }
    if i == c.profiles@.len() {
        seqs::first_where_none(c.profiles@, f);
        assert(!config::carries_mode(c.profiles@[d], live, choices));
    } else if config::carries_mode(c.profiles@[i], live, choices) {
        seqs::first_where_is(c.profiles@, f, i);
    }
}

/// A profile is found by its id, and by what it is for, as the first that has
/// it.
pub proof fn profiles_are_found_first(c: Config, id: Uuid, role: ProfileRole, i: int)
    requires
        0 <= i < c.profiles@.len(),
    ensures
        c.profiles@[i].id == id && (forall|j: int|
            0 <= j < i ==> (#[trigger] c.profiles@[j]).id != id) ==> seqs::first_where(
            c.profiles@,
            config::has_id(id),
        ) == Some(i),
        c.profiles@[i].role == Some(role) && (forall|j: int|
            0 <= j < i ==> (#[trigger] c.profiles@[j]).role != Some(role)) ==> seqs::first_where(
            c.profiles@,
            config::has_role(role),
        ) == Some(i),
{
    if c.profiles@[i].id == id && (forall|j: int|
        0 <= j < i ==> (#[trigger] c.profiles@[j]).id != id) {
        seqs::first_where_is(c.profiles@, config::has_id(id), i);
    }
    if c.profiles@[i].role == Some(role) && (forall|j: int|
        0 <= j < i ==> (#[trigger] c.profiles@[j]).role != Some(role)) {
        seqs::first_where_is(c.profiles@, config::has_role(role), i);
    }
}

proof fn first_names_differ()
    ensures
        "silent"@ != "balanced"@,
        "silent"@ != "gaming"@,
        "silent"@ != "turbo"@,
        "balanced"@ != "gaming"@,
        "balanced"@ != "turbo"@,
{
    reveal_strlit("silent");
    reveal_strlit("balanced");
    reveal_strlit("gaming");
    reveal_strlit("turbo");
    assert("silent"@[0] != "gaming"@[0]);
    assert("silent"@.len() == 6 && "balanced"@.len() == 8 && "gaming"@.len() == 6
        && "turbo"@.len() == 5);
}

/// A built-in profile of a first config, which has no role, gets one by its
/// name in any case of letters: the silent one is the quiet one, the balanced
/// one the balanced one, and the gaming and turbo ones are the fast ones. No
/// other profile's role changes.
pub proof fn built_in_profiles_get_their_roles(was: Profile, now: Profile)
    requires
        config::is_migrated(was, now),
    ensures
        was.role is Some || !was.builtin ==> now.role == was.role,
        was.role is None && was.builtin ==> {
            let n = text::lower(was.name@);
            &&& now.role == Some(ProfileRole::Quiet) <==> n == "silent"@
            &&& now.role == Some(ProfileRole::Balanced) <==> n == "balanced"@
            &&& now.role == Some(ProfileRole::Performance) <==> n == "gaming"@ || n == "turbo"@
            &&& now.role is None <==> n != "silent"@ && n != "balanced"@ && n != "gaming"@ && n
                != "turbo"@
        },
{
    first_names_differ();
}

/// So the fast profile of a first config is found as that, and never as the
/// quiet one.
pub proof fn gaming_is_found_as_the_fast_one(old: Config, new: Config, i: int)
    requires
        new.profiles@.len() == old.profiles@.len(),
        forall|j: int|
            0 <= j < old.profiles@.len() ==> config::is_migrated(
                old.profiles@[j],
                #[trigger] new.profiles@[j],
            ),
        0 <= i < old.profiles@.len(),
        old.profiles@[i].role is None,
        old.profiles@[i].builtin,
        text::lower(old.profiles@[i].name@) == "gaming"@,
        forall|j: int|
            0 <= j < i ==> (#[trigger] new.profiles@[j]).role != Some(ProfileRole::Performance),
    ensures
        seqs::first_where(new.profiles@, config::has_role(ProfileRole::Performance)) == Some(i),
        seqs::first_where(new.profiles@, config::has_role(ProfileRole::Quiet)) != Some(i),
{
    assert(config::is_migrated(old.profiles@[i], new.profiles@[i]));
    built_in_profiles_get_their_roles(old.profiles@[i], new.profiles@[i]);
    first_names_differ();
    seqs::first_where_is(new.profiles@, config::has_role(ProfileRole::Performance), i);
    seqs::first_where_found(new.profiles@, config::has_role(ProfileRole::Quiet));
}

/// A profile of a first config keeps its power mode; one without takes
/// power-profiles-daemon's, else the platform profile's; both are gone
/// afterwards.
pub proof fn power_modes_are_moved(was: Profile, now: Profile)
    requires
        config::is_migrated(was, now),
    ensures
        was.cpu.power_mode is Some ==> now.cpu.power_mode == was.cpu.power_mode,
        was.cpu.power_mode is None && was.cpu.ppd_profile is Some ==> now.cpu.power_mode
            == was.cpu.ppd_profile,
        was.cpu.power_mode is None && was.cpu.ppd_profile is None ==> now.cpu.power_mode
            == was.cpu.platform_profile,
        now.cpu.ppd_profile is None,
        now.cpu.platform_profile is None,
{
}

/// What else a profile holds stays.
pub proof fn migrating_keeps_the_rest(was: Profile, now: Profile)
    requires
        config::is_migrated(was, now),
    ensures
        now.id == was.id,
        now.name == was.name,
        now.icon == was.icon,
        now.accent == was.accent,
        now.cpu.control == was.cpu.control,
        now.cpu.prefer_ccd0 == was.cpu.prefer_ccd0,
        now.gpu == was.gpu,
        now.cooling == was.cooling,
        now.lighting.brightness == was.lighting.brightness,
        now.lighting.device_brightness == was.lighting.device_brightness,
        now.lcd == was.lcd,
        now.asusd == was.asusd,
        now.gfx_mode == was.gfx_mode,
        now.cc_mode == was.cc_mode,
        now.builtin == was.builtin,
{
}

/// The key that a lighting zone has: its own where it names a backend, else
/// OpenRGB's.
pub open spec fn key_of(k: Seq<char>) -> Seq<char> {
    if k.contains(':') {
        k
    } else {
        "openrgb:"@ + k
    }
}

/// Each zone's mode stays, under the key that names its backend; where two
/// come to one key, the later in the order of the old keys.
pub proof fn zones_keep_their_modes(was: Profile, now: Profile, i: int)
    requires
        config::is_migrated(was, now),
        0 <= i < was.lighting.zones.items().len(),
        forall|j: int|
            i < j < was.lighting.zones.items().len() ==> key_of(
                (#[trigger] was.lighting.zones.items()[j]).0,
            ) != key_of(was.lighting.zones.items()[i].0),
    ensures
        ({
            let old = was.lighting.zones.items()[i];
            let zones = strmap::map_of(now.lighting.zones.items());
            &&& zones.contains_key(key_of(old.0))
            &&& zones[key_of(old.0)] == old.1
        }),
{
    zone_stays(was.lighting.zones.items(), i);
}

proof fn zone_stays(zones: Seq<(Seq<char>, LightingMode)>, i: int)
    requires
        0 <= i < zones.len(),
        forall|j: int|
            i < j < zones.len() ==> key_of((#[trigger] zones[j]).0) != key_of(zones[i].0),
    ensures
        config::rekeyed(zones).contains_key(key_of(zones[i].0)),
        config::rekeyed(zones)[key_of(zones[i].0)] == zones[i].1,
    decreases zones.len(),
{
    let f = |e: (Seq<char>, LightingMode)| (config::zone_key(e.0), e.1);
    let rest = zones.drop_last();
    assert(zones.map_values(f).drop_last() =~= rest.map_values(f));
    if i < zones.len() - 1 {
        assert forall|j: int| i < j < rest.len() implies key_of((#[trigger] rest[j]).0) != key_of(
            rest[i].0,
        ) by {
            assert(rest[j] == zones[j]);
        }
        zone_stays(rest, i);
        assert(key_of(zones[zones.len() - 1].0) != key_of(zones[i].0));
    }
}

/// No zone comes from nowhere.
pub proof fn zones_come_from_zones(was: Profile, now: Profile, key: Seq<char>)
    requires
        config::is_migrated(was, now),
        strmap::map_of(now.lighting.zones.items()).contains_key(key),
    ensures
        exists|i: int|
            0 <= i < was.lighting.zones.items().len() && key_of(
                (#[trigger] was.lighting.zones.items()[i]).0,
            ) == key,
{
    zone_source(was.lighting.zones.items(), key);
}

proof fn zone_source(zones: Seq<(Seq<char>, LightingMode)>, key: Seq<char>)
    requires
        config::rekeyed(zones).contains_key(key),
    ensures
        exists|i: int| 0 <= i < zones.len() && key_of((#[trigger] zones[i]).0) == key,
    decreases zones.len(),
{
    let f = |e: (Seq<char>, LightingMode)| (config::zone_key(e.0), e.1);
    if zones.len() > 0 {
        let rest = zones.drop_last();
        assert(zones.map_values(f).drop_last() =~= rest.map_values(f));
        if config::rekeyed(rest).contains_key(key) {
            zone_source(rest, key);
            let i = choose|i: int| 0 <= i < rest.len() && key_of((#[trigger] rest[i]).0) == key;
            assert(zones[i] == rest[i]);
        } else {
            assert(key_of(zones[zones.len() - 1].0) == key);
        }
    }
}

/// Configs are of the second schema; the first is older.
pub proof fn second_schema_is_current()
    ensures
        config::SCHEMA == 2,
{
}

/// A first config has the settings that a user starts with.
pub proof fn first_settings(c: Config)
    requires
        c.has_first_settings(),
    ensures
        c.schema_version == 2,
        c.mode == Mode::Manual,
        c.fan_owner == FanOwner::Auto,
        !c.coolercontrol.enabled,
        c.coolercontrol.url@ == "http://localhost:11987"@,
        c.coolercontrol.password is None,
        c.overlay.anchor@ == "right"@,
        c.overlay.width == 560,
        c.overlay.height == 1040,
        c.overlay.margin == 16,
        c.overlay.opacity.bits == 0x3F7851EC,
        c.overlay.hud_enabled,
        c.telemetry_hz == 2,
        c.tray_enabled,
{
}

/// Whether a profile changes nothing but what its processor settings say.
pub open spec fn leaves_the_rest(p: Profile) -> bool {
    &&& p.gpu.nvidia is None
    &&& p.gpu.amd_perf_level is None
    &&& p.cooling.fans@.len() == 0
    &&& !p.cooling.gpu_zero_rpm
    &&& p.lighting.zones.items().len() == 0
    &&& p.lighting.brightness == 0
    &&& p.lighting.device_brightness.items().len() == 0
    &&& p.lcd.content is Firmware
    &&& p.lcd.brightness == 0
    &&& p.asusd.items().len() == 0
    &&& p.gfx_mode is None
    &&& p.cc_mode is None
}

/// A generated profile for each power mode selects that mode, has its name and
/// what it is for, and forces nothing else.
pub proof fn generated_profiles_select_their_mode(
    c: Config,
    modes: Seq<Seq<char>>,
    current: Option<Seq<char>>,
    profile_ids: Seq<Uuid>,
    rule_ids: (Uuid, Uuid),
    i: int,
)
    requires
        c.is_generated(modes, current, profile_ids, rule_ids),
        0 <= i < modes.len(),
    ensures
        c.profiles@.len() == modes.len(),
        c.profiles@[i].id == profile_ids[i],
        c.profiles@[i].name@ == power::shown(modes[i]),
        c.profiles@[i].role == power::kind_of(modes[i]),
        c.profiles@[i].builtin,
        c.profiles@[i].cpu.power_mode is Some,
        c.profiles@[i].cpu.power_mode->0@ == modes[i],
        c.profiles@[i].cpu.control is None,
        !c.profiles@[i].cpu.prefer_ccd0,
        c.profiles@[i].cpu.ppd_profile is None,
        c.profiles@[i].cpu.platform_profile is None,
        leaves_the_rest(c.profiles@[i]),
        c.profiles@[i].role == Some(ProfileRole::Quiet) ==> c.profiles@[i].icon@ == "moon"@
            && c.profiles@[i].accent == (Rgb { r: 96, g: 140, b: 255 }),
        c.profiles@[i].role == Some(ProfileRole::Performance) ==> c.profiles@[i].icon@
            == "gamepad"@ && c.profiles@[i].accent == (Rgb { r: 255, g: 64, b: 96 }),
        c.profiles@[i].role is None || c.profiles@[i].role == Some(ProfileRole::Balanced)
            ==> c.profiles@[i].icon@ == "scale"@ && c.profiles@[i].accent == (Rgb {
            r: 64,
            g: 224,
            b: 180,
        }),
{
    assert(config::is_mode_profile(c.profiles@[i], profile_ids[i], modes[i]));
}

/// A machine without power modes has one profile, which changes nothing.
pub proof fn generated_default_changes_nothing(
    c: Config,
    current: Option<Seq<char>>,
    profile_ids: Seq<Uuid>,
    rule_ids: (Uuid, Uuid),
)
    requires
        c.is_generated(seq![], current, profile_ids, rule_ids),
    ensures
        c.profiles@.len() == 1,
        c.profiles@[0].id == profile_ids[0],
        c.profiles@[0].name@ == "Default"@,
        c.profiles@[0].role == Some(ProfileRole::Balanced),
        c.profiles@[0].icon@ == "bolt"@,
        c.profiles@[0].accent == (Rgb { r: 255, g: 64, b: 96 }),
        c.profiles@[0].builtin,
        c.profiles@[0].cpu.power_mode is None,
        c.profiles@[0].cpu.control is None,
        !c.profiles@[0].cpu.prefer_ccd0,
        leaves_the_rest(c.profiles@[0]),
        c.rules@.len() == 0,
{
    seqs::first_where_none(c.profiles@, config::has_role(ProfileRole::Performance));
}

/// The default profile is the first balanced one, or the first of all; the
/// active one is the first of the mode that is selected, or the default.
pub proof fn generated_default_is_balanced(
    c: Config,
    modes: Seq<Seq<char>>,
    current: Option<Seq<char>>,
    profile_ids: Seq<Uuid>,
    rule_ids: (Uuid, Uuid),
    i: int,
)
    requires
        c.is_generated(modes, current, profile_ids, rule_ids),
        0 <= i < modes.len(),
    ensures
        power::kind_of(modes[i]) == Some(ProfileRole::Balanced) && (forall|j: int|
            0 <= j < i ==> power::kind_of(#[trigger] modes[j]) != Some(ProfileRole::Balanced))
            ==> c.default_profile == profile_ids[i],
        (forall|j: int|
            0 <= j < modes.len() ==> power::kind_of(#[trigger] modes[j]) != Some(
                ProfileRole::Balanced,
            )) ==> c.default_profile == profile_ids[0],
        current == Some(modes[i]) && (forall|j: int| 0 <= j < i ==> #[trigger] modes[j] != modes[i])
            ==> c.active_profile == profile_ids[i],
        current is None || !modes.contains(current->0) ==> c.active_profile == c.default_profile,
{
    let all = c.profiles@;
    assert forall|j: int| 0 <= j < all.len() implies {
        &&& (#[trigger] all[j]).id == profile_ids[j]
        &&& all[j].role == power::kind_of(modes[j])
        &&& all[j].cpu.power_mode is Some
        &&& all[j].cpu.power_mode->0@ == modes[j]
    } by {
        assert(config::is_mode_profile(all[j], profile_ids[j], modes[j]));
    }
    let balanced = config::has_role(ProfileRole::Balanced);
    if power::kind_of(modes[i]) == Some(ProfileRole::Balanced) && (forall|j: int|
        0 <= j < i ==> power::kind_of(#[trigger] modes[j]) != Some(ProfileRole::Balanced)) {
        assert forall|j: int| 0 <= j < i implies !balanced(#[trigger] all[j]) by {
            assert(power::kind_of(modes[j]) != Some(ProfileRole::Balanced));
        }
        seqs::first_where_is(all, balanced, i);
    }
    if forall|j: int|
        0 <= j < modes.len() ==> power::kind_of(#[trigger] modes[j]) != Some(
            ProfileRole::Balanced,
        ) {
        assert forall|j: int| 0 <= j < all.len() implies !balanced(#[trigger] all[j]) by {
            assert(power::kind_of(modes[j]) != Some(ProfileRole::Balanced));
        }
        seqs::first_where_none(all, balanced);
    }
    if let Some(mode) = current {
        let names = config::names_mode(mode);
        if mode == modes[i] && (forall|j: int| 0 <= j < i ==> #[trigger] modes[j] != modes[i]) {
            assert forall|j: int| 0 <= j < i implies !names(#[trigger] all[j]) by {
                assert(modes[j] != modes[i]);
            }
            seqs::first_where_is(all, names, i);
        }
        if !modes.contains(mode) {
            assert forall|j: int| 0 <= j < all.len() implies !names(#[trigger] all[j]) by {
                assert(modes.contains(modes[j]));
            }
            seqs::first_where_none(all, names);
        }
    }
}

/// Games switch to the first fast profile, GameMode before a fullscreen
/// window, and each holds it for a while; without a fast profile there is no
/// rule.
pub proof fn games_switch_to_the_fast_profile(
    c: Config,
    modes: Seq<Seq<char>>,
    current: Option<Seq<char>>,
    profile_ids: Seq<Uuid>,
    rule_ids: (Uuid, Uuid),
    i: int,
)
    requires
        c.is_generated(modes, current, profile_ids, rule_ids),
        0 <= i < modes.len(),
    ensures
        power::kind_of(modes[i]) == Some(ProfileRole::Performance) && (forall|j: int|
            0 <= j < i ==> power::kind_of(#[trigger] modes[j]) != Some(ProfileRole::Performance))
            ==> {
            &&& c.rules@.len() == 2
            &&& c.rules@[0].id == rule_ids.0
            &&& c.rules@[0].name@ == "GameMode active"@
            &&& c.rules@[0].trigger is GameMode
            &&& c.rules@[0].priority == 100
            &&& c.rules@[1].id == rule_ids.1
            &&& c.rules@[1].name@ == "Fullscreen game"@
            &&& c.rules@[1].trigger is FullscreenGame
            &&& c.rules@[1].priority == 50
            &&& forall|k: int|
                0 <= k < 2 ==> (#[trigger] c.rules@[k]).enabled && c.rules@[k].profile
                    == profile_ids[i] && c.rules@[k].hold_s == 20
        },
        (forall|j: int|
            0 <= j < modes.len() ==> power::kind_of(#[trigger] modes[j]) != Some(
                ProfileRole::Performance,
            )) ==> c.rules@.len() == 0,
{
    let all = c.profiles@;
    let fast = config::has_role(ProfileRole::Performance);
    assert forall|j: int| 0 <= j < all.len() implies (#[trigger] all[j]).id == profile_ids[j]
        && all[j].role == power::kind_of(modes[j]) by {
        assert(config::is_mode_profile(all[j], profile_ids[j], modes[j]));
    }
    if power::kind_of(modes[i]) == Some(ProfileRole::Performance) && (forall|j: int|
        0 <= j < i ==> power::kind_of(#[trigger] modes[j]) != Some(ProfileRole::Performance)) {
        assert forall|j: int| 0 <= j < i implies !fast(#[trigger] all[j]) by {
            assert(power::kind_of(modes[j]) != Some(ProfileRole::Performance));
        }
        seqs::first_where_is(all, fast, i);
        assert(all[i].id == profile_ids[i]);
    }
    if forall|j: int|
        0 <= j < modes.len() ==> power::kind_of(#[trigger] modes[j]) != Some(
            ProfileRole::Performance,
        ) {
        assert forall|j: int| 0 <= j < all.len() implies !fast(#[trigger] all[j]) by {
            assert(power::kind_of(modes[j]) != Some(ProfileRole::Performance));
        }
        seqs::first_where_none(all, fast);
    }
}

/// A new profile has its name and changes nothing yet.
pub proof fn new_profiles_change_nothing(p: Profile, id: Uuid, name: Seq<char>)
    requires
        p.is_new(id, name),
    ensures
        p.id == id,
        p.name@ == name,
        p.role is None,
        p.icon@ == "bolt"@,
        p.accent == (Rgb { r: 255, g: 64, b: 96 }),
        p.cpu.control is None,
        !p.cpu.prefer_ccd0,
        p.cpu.power_mode is None,
        p.cpu.ppd_profile is None,
        p.cpu.platform_profile is None,
        !p.builtin,
        leaves_the_rest(p),
{
}

/// Setting a fan's mode changes the mode of its first assignment and nothing
/// else; a fan without one gets one behind the others.
pub proof fn setting_a_fan_keeps_the_others(
    fans: Seq<FanAssignment>,
    target: FanTarget,
    mode: FanMode,
    i: int,
)
    requires
        0 <= i <= fans.len(),
        forall|j: int| 0 <= j < i ==> (#[trigger] fans[j]).target.0@ != target.0@,
    ensures
        i == fans.len() ==> profile::with_mode(fans, target, mode) == fans.push(
            FanAssignment { target, mode },
        ),
        i < fans.len() && fans[i].target.0@ == target.0@ ==> profile::with_mode(
            fans,
            target,
            mode,
        ) == fans.update(i, FanAssignment { target: fans[i].target, mode }),
{
    let f = profile::assigns(target.0@);
    if i == fans.len() {
        seqs::first_where_none(fans, f);
    } else if f(fans[i]) {
        seqs::first_where_is(fans, f, i);
    }
}

/// What curves read their temperature from has a name.
pub proof fn temperatures_have_names(source: profile::TempSource)
    ensures
        source is CpuTctl ==> source.name() == "CPU (Tctl)"@,
        source is CpuPackage ==> source.name() == "CPU package"@,
        source is Gpu ==> source.name() == "GPU"@,
        source is Coolant ==> source.name() == "Coolant"@,
        source is Vrm ==> source.name() == "VRM"@,
        source is Motherboard ==> source.name() == "Motherboard"@,
        source is CpuGpuMax ==> source.name() == "CPU / GPU max"@,
        source matches profile::TempSource::Hwmon { driver, label } ==> source.name() == driver@
            + ": "@ + label@,
{
}

} // verus!
