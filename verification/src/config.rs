//! Everything persisted for the user: the profiles, the rules that select
//! them, and the settings around them.

use crate::double::{Double, Single};
use crate::ids::Uuid;
use crate::model::HardwareModel;
use crate::profile::{LightingMode, LightingSettings, Profile, ProfileRole, Rgb};
use crate::strmap::StrMap;
use crate::{ids, power, seqs, strmap, text};
use vstd::prelude::*;
use vstd::string::*;

verus! {

/// A time of day, local.
#[derive(Debug, Clone, Copy, PartialEq, Eq, Structural)]
pub struct TimeOfDay {
    pub hour: u8,
    pub minute: u8,
}

/// When the automatic engine should switch to a profile.
#[derive(Debug, Clone, PartialEq)]
pub enum Trigger {
    /// A GameMode client registered.
    GameMode,
    /// A fullscreen window that looks like a game is focused.
    FullscreenGame,
    /// A window with this class (exact or glob) is focused.
    WindowClass(String),
    /// A process with this executable name is running.
    Process(String),
    /// CPU package temperature above a threshold for N seconds.
    CpuHot { above_c: Double, for_s: u32 },
    /// GPU above a temperature.
    GpuHot { above_c: Double, for_s: u32 },
    /// Time window (24h, local), e.g. quiet at night.
    Time { from: TimeOfDay, to: TimeOfDay },
    /// System idle for N seconds (no input, via Hyprland idle / swayidle hook).
    Idle { for_s: u32 },
}

#[derive(Debug, Clone, PartialEq)]
pub struct Rule {
    pub id: Uuid,
    pub name: String,
    pub enabled: bool,
    pub trigger: Trigger,
    pub profile: Uuid,
    /// Higher wins when several rules match.
    pub priority: i32,
    /// Seconds to keep the profile after the trigger clears (debounce).
    pub hold_s: u32,
}

#[derive(Debug, Clone, Copy, PartialEq, Eq, Structural)]
pub enum Mode {
    /// The user picks the profile.
    Manual,
    /// Rules pick the profile; `default_profile` otherwise.
    Automatic,
}

impl Default for Mode {
    fn default() -> (r: Self)
        ensures
            r == Mode::Manual,
    {
        Mode::Manual
    }
}

/// Who drives the fans.
#[derive(Debug, Clone, Copy, PartialEq, Eq, Structural)]
pub enum FanOwner {
    /// CoolerControl when its daemon is running, otherwise OmaAsus.
    Auto,
    OmaAsus,
    CoolerControl,
    /// Leave fans to firmware / other tools.
    Nobody,
}

impl Default for FanOwner {
    fn default() -> (r: Self)
        ensures
            r == FanOwner::Auto,
    {
        FanOwner::Auto
    }
}

/// Current config schema. v1: fixed fan names, `ppd_profile`, lighting keyed
/// by OpenRGB device name, profiles known by name.
pub const SCHEMA: u32 = 2;

/// The schema of a config that names none.
pub fn schema_v1() -> (r: u32)
    ensures
        r == 1,
{
    1
}

/// The tray setting of a config that names none.
pub fn default_true() -> (r: bool)
    ensures
        r,
{
    true
}

#[derive(Debug, Clone, PartialEq)]
pub struct CoolerControlAuth {
    pub enabled: bool,
    pub url: String,
    pub password: Option<String>,
}

impl Default for CoolerControlAuth {
    fn default() -> (r: Self)
        ensures
            !r.enabled,
            r.url@.len() == 0,
            r.password is None,
    {
        CoolerControlAuth { enabled: false, url: String::new(), password: None }
    }
}

#[derive(Debug, Clone, PartialEq)]
pub struct OverlaySettings {
    pub anchor: String,
    pub width: u32,
    pub height: u32,
    pub margin: u32,
    pub opacity: Single,
    pub hud_enabled: bool,
}

impl OverlaySettings {
    /// The overlay as first installed; its opacity is 0.97.
    pub open spec fn is_default(&self) -> bool {
        &&& self.anchor@ == "right"@
        &&& self.width == 560
        &&& self.height == 1040
        &&& self.margin == 16
        &&& self.opacity == (Single { bits: 0x3F7851EC })
        &&& self.hud_enabled
    }
}

impl Default for OverlaySettings {
    fn default() -> (r: Self)
        ensures
            r.is_default(),
    {
        OverlaySettings {
            anchor: "right".to_string(),
            width: 560,
            height: 1040,
            margin: 16,
            opacity: Single { bits: 0x3F7851EC },
            hud_enabled: true,
        }
    }
}

/// Everything persisted for the user.
#[derive(Debug, Clone, PartialEq)]
pub struct Config {
    pub schema_version: u32,
    pub mode: Mode,
    pub fan_owner: FanOwner,
    pub active_profile: Uuid,
    pub default_profile: Uuid,
    pub profiles: Vec<Profile>,
    pub rules: Vec<Rule>,
    pub coolercontrol: CoolerControlAuth,
    pub overlay: OverlaySettings,
    pub telemetry_hz: u32,
    /// Keep a StatusNotifierItem in the bar so closing the window leaves the
    /// daemon (automation, fan engine, overlay) running.
    pub tray_enabled: bool,
}

/// The icon of a profile by what it is for.
pub open spec fn icon_of(role: Option<ProfileRole>) -> Seq<char> {
    match role {
        Some(ProfileRole::Quiet) => "moon"@,
        Some(ProfileRole::Performance) => "gamepad"@,
        _ => "scale"@,
    }
}

/// The colour of a profile by what it is for.
pub open spec fn accent_of(role: Option<ProfileRole>) -> Rgb {
    match role {
        Some(ProfileRole::Quiet) => Rgb { r: 96, g: 140, b: 255 },
        Some(ProfileRole::Performance) => Rgb { r: 255, g: 64, b: 96 },
        _ => Rgb { r: 64, g: 224, b: 180 },
    }
}

/// The profile generated for a power mode: named after it, and changing that
/// only.
pub open spec fn is_mode_profile(p: Profile, id: Uuid, mode: Seq<char>) -> bool {
    &&& p.id == id
    &&& p.name@ == power::shown(mode)
    &&& p.role == power::kind_of(mode)
    &&& p.icon@ == icon_of(p.role)
    &&& p.accent == accent_of(p.role)
    &&& p.builtin
    &&& p.cpu.power_mode is Some
    &&& p.cpu.power_mode->0@ == mode
    &&& p.cpu.control is None
    &&& !p.cpu.prefer_ccd0
    &&& p.cpu.ppd_profile is None
    &&& p.cpu.platform_profile is None
    &&& p.changes_nothing_but_cpu()
}

/// The one profile generated where the machine has no power modes.
pub open spec fn is_only_profile(p: Profile, id: Uuid) -> bool {
    &&& p.id == id
    &&& p.name@ == "Default"@
    &&& p.role == Some(ProfileRole::Balanced)
    &&& p.icon@ == "bolt"@
    &&& p.accent == (Rgb { r: 255, g: 64, b: 96 })
    &&& p.builtin
    &&& p.cpu.is_default()
    &&& p.changes_nothing_but_cpu()
}

/// A profile's place by its id.
pub open spec fn has_id(id: Uuid) -> spec_fn(Profile) -> bool {
    |p: Profile| p.id == id
}

/// A profile's place by what it is for.
pub open spec fn has_role(role: ProfileRole) -> spec_fn(Profile) -> bool {
    |p: Profile| p.role == Some(role)
}

/// Whether a profile names a power mode, letter for letter.
pub open spec fn names_mode(mode: Seq<char>) -> spec_fn(Profile) -> bool {
    |p: Profile| p.cpu.power_mode is Some && p.cpu.power_mode->0@ == mode
}

/// Whether a profile's power mode is `live`, among the machine's `choices`.
pub open spec fn carries(live: Seq<char>, choices: Seq<Seq<char>>) -> spec_fn(Profile) -> bool {
    |p: Profile| carries_mode(p, live, choices)
}

pub open spec fn carries_mode(p: Profile, live: Seq<char>, choices: Seq<Seq<char>>) -> bool {
    match p.cpu.power_mode {
        Some(wanted) => match power::best_match(wanted@, choices) {
            Some(i) => text::lower(choices[i]) == text::lower(live),
            None => false,
        },
        None => false,
    }
}

/// A rule that keeps a profile for 20 seconds after its trigger clears.
pub open spec fn is_rule(
    r: Rule,
    id: Uuid,
    name: Seq<char>,
    trigger: Trigger,
    profile: Uuid,
    priority: int,
) -> bool {
    &&& r.id == id
    &&& r.name@ == name
    &&& r.enabled
    &&& r.trigger == trigger
    &&& r.profile == profile
    &&& r.priority == priority
    &&& r.hold_s == 20
}

impl Config {
    /// The settings around the profiles, as first installed.
    pub open spec fn has_first_settings(&self) -> bool {
        &&& self.schema_version == SCHEMA
        &&& self.mode == Mode::Manual
        &&& self.fan_owner == FanOwner::Auto
        &&& !self.coolercontrol.enabled
        &&& self.coolercontrol.url@ == "http://localhost:11987"@
        &&& self.coolercontrol.password is None
        &&& self.overlay.is_default()
        &&& self.telemetry_hz == 2
        &&& self.tray_enabled
    }

    /// A config with no profiles yet: they are generated from the hardware
    /// model once detection has run ([`Config::generated`]).
    pub fn empty() -> (c: Self)
        ensures
            c.has_first_settings(),
            c.active_profile == Uuid::zero(),
            c.default_profile == Uuid::zero(),
            c.profiles@.len() == 0,
            c.rules@.len() == 0,
    {
        Config {
            schema_version: SCHEMA,
            mode: Mode::Manual,
            fan_owner: FanOwner::Auto,
            active_profile: Uuid::nil(),
            default_profile: Uuid::nil(),
            profiles: Vec::new(),
            rules: Vec::new(),
            coolercontrol: CoolerControlAuth {
                enabled: false,
                url: "http://localhost:11987".to_string(),
                password: None,
            },
            overlay: OverlaySettings::default(),
            telemetry_hz: 2,
            tray_enabled: true,
        }
    }

    /// The profile that is used when nothing else decides: the first balanced
    /// one, else the first.
    pub open spec fn balanced_place(profiles: Seq<Profile>) -> int {
        match seqs::first_where(profiles, has_role(ProfileRole::Balanced)) {
            Some(i) => i,
            None => 0,
        }
    }

    /// The profile of the current power mode, else the balanced one.
    pub open spec fn active_place(profiles: Seq<Profile>, current: Option<Seq<char>>) -> int {
        match current {
            Some(mode) => match seqs::first_where(profiles, names_mode(mode)) {
                Some(i) => i,
                None => Self::balanced_place(profiles),
            },
            None => Self::balanced_place(profiles),
        }
    }

    /// The rules of a fresh install: games select the performance profile,
    /// where there is one.
    pub open spec fn has_game_rules(&self, first: Uuid, second: Uuid) -> bool {
        match seqs::first_where(self.profiles@, has_role(ProfileRole::Performance)) {
            Some(i) => {
                &&& self.rules@.len() == 2
                &&& is_rule(
                    self.rules@[0],
                    first,
                    "GameMode active"@,
                    Trigger::GameMode,
                    self.profiles@[i].id,
                    100,
                )
                &&& is_rule(
                    self.rules@[1],
                    second,
                    "Fullscreen game"@,
                    Trigger::FullscreenGame,
                    self.profiles@[i].id,
                    50,
                )
            },
            None => self.rules@.len() == 0,
        }
    }

    /// A config as first installed on a machine with these power modes, its
    /// profiles and rules of these ids.
    pub open spec fn is_generated(
        &self,
        modes: Seq<Seq<char>>,
        current: Option<Seq<char>>,
        profile_ids: Seq<Uuid>,
        rule_ids: (Uuid, Uuid),
    ) -> bool {
        &&& self.has_first_settings()
        &&& if modes.len() == 0 {
            self.profiles@.len() == 1 && is_only_profile(self.profiles@[0], profile_ids[0])
        } else {
            &&& self.profiles@.len() == modes.len()
            &&& forall|i: int|
                0 <= i < modes.len() ==> is_mode_profile(
                    #[trigger] self.profiles@[i],
                    profile_ids[i],
                    modes[i],
                )
        }
        &&& self.default_profile == self.profiles@[Self::balanced_place(self.profiles@)].id
        &&& self.active_profile == self.profiles@[Self::active_place(self.profiles@, current)].id
        &&& self.has_game_rules(rule_ids.0, rule_ids.1)
    }

    fn find_id(profiles: &Vec<Profile>, id: Uuid) -> (r: Option<usize>)
        ensures
            match r {
                Some(i) => i < profiles@.len() && seqs::first_where(profiles@, has_id(id)) == Some(
                    i as int,
                ),
                None => seqs::first_where(profiles@, has_id(id)) is None,
            },
    {
        let mut i: usize = 0;
        while i < profiles.len()
            invariant
                i <= profiles@.len(),
                forall|k: int| 0 <= k < i ==> !has_id(id)(#[trigger] profiles@[k]),
            decreases profiles@.len() - i,
        {
            if profiles[i].id == id {
                proof {
                    seqs::first_where_is(profiles@, has_id(id), i as int);
                }
                return Some(i);
            }
            i += 1;
        }
        proof {
            seqs::first_where_none(profiles@, has_id(id));
        }
        None
    }

    fn find_role(profiles: &Vec<Profile>, role: ProfileRole) -> (r: Option<usize>)
        ensures
            match r {
                Some(i) => i < profiles@.len() && seqs::first_where(profiles@, has_role(role))
                    == Some(i as int),
                None => seqs::first_where(profiles@, has_role(role)) is None,
            },
    {
        let mut i: usize = 0;
        while i < profiles.len()
            invariant
                i <= profiles@.len(),
                forall|k: int| 0 <= k < i ==> !has_role(role)(#[trigger] profiles@[k]),
            decreases profiles@.len() - i,
        {
            if profiles[i].role == Some(role) {
                proof {
                    seqs::first_where_is(profiles@, has_role(role), i as int);
                }
                return Some(i);
            }
            i += 1;
        }
        proof {
            seqs::first_where_none(profiles@, has_role(role));
        }
        None
    }

    fn find_mode(profiles: &Vec<Profile>, mode: &str) -> (r: Option<usize>)
        ensures
            match r {
                Some(i) => i < profiles@.len() && seqs::first_where(profiles@, names_mode(mode@))
                    == Some(i as int),
                None => seqs::first_where(profiles@, names_mode(mode@)) is None,
            },
    {
        let mut i: usize = 0;
        while i < profiles.len()
            invariant
                i <= profiles@.len(),
                forall|k: int| 0 <= k < i ==> !names_mode(mode@)(#[trigger] profiles@[k]),
            decreases profiles@.len() - i,
        {
            let here = match &profiles[i].cpu.power_mode {
                Some(m) => text::same(m.as_str(), mode),
                None => false,
            };
            if here {
                proof {
                    seqs::first_where_is(profiles@, names_mode(mode@), i as int);
                }
                return Some(i);
            }
            i += 1;
        }
        proof {
            seqs::first_where_none(profiles@, names_mode(mode@));
        }
        None
    }

    /// The profile generated for a power mode.
    fn mode_profile(id: Uuid, mode: &String) -> (p: Profile)
        ensures
            is_mode_profile(p, id, mode@),
    {
        let name = power::display_name(mode.as_str());
        let role = power::power_kind(mode.as_str());
        let mut p = Profile::with_id(id, name.as_str());
        p.builtin = true;
        p.role = role;
        match role {
            Some(ProfileRole::Quiet) => {
                p.icon = "moon".to_string();
                p.accent = Rgb::new(96, 140, 255);
            },
            Some(ProfileRole::Performance) => {
                p.icon = "gamepad".to_string();
                p.accent = Rgb::new(255, 64, 96);
            },
            _ => {
                p.icon = "scale".to_string();
                p.accent = Rgb::new(64, 224, 180);
            },
        }
        p.cpu.power_mode = Some(mode.clone());
        p
    }

    /// A config as first installed on a machine with these power modes, with
    /// given ids for its profiles (one for each mode, and one where there is
    /// none) and for its two rules.
    pub fn generated_with(
        modes: &[String],
        current: Option<&str>,
        profile_ids: &[Uuid],
        rule_ids: (Uuid, Uuid),
    ) -> (c: Self)
        requires
            profile_ids@.len() >= 1,
            profile_ids@.len() >= modes@.len(),
        ensures
            c.is_generated(
                text::texts(modes@),
                match current {
                    Some(m) => Some(m@),
                    None => None,
                },
                profile_ids@,
                rule_ids,
            ),
    {
        let mut c = Config::empty();
        let mut profiles: Vec<Profile> = Vec::new();
        if modes.len() == 0 {
            let mut p = Profile::with_id(profile_ids[0], "Default");
            p.builtin = true;
            p.role = Some(ProfileRole::Balanced);
            profiles.push(p);
        } else {
            let mut i: usize = 0;
            while i < modes.len()
                invariant
                    i <= modes@.len() <= profile_ids@.len(),
                    profiles@.len() == i,
                    forall|k: int|
                        0 <= k < i ==> is_mode_profile(
                            #[trigger] profiles@[k],
                            profile_ids@[k],
                            text::texts(modes@)[k],
                        ),
                decreases modes@.len() - i,
            {
                let p = Config::mode_profile(profile_ids[i], &modes[i]);
                profiles.push(p);
                i += 1;
            }
        }
        let balanced: usize = match Config::find_role(&profiles, ProfileRole::Balanced) {
            Some(i) => i,
            None => 0,
        };
        let active: usize = match current {
            Some(m) => match Config::find_mode(&profiles, m) {
                Some(i) => i,
                None => balanced,
            },
            None => balanced,
        };
        c.active_profile = profiles[active].id;
        c.default_profile = profiles[balanced].id;
        match Config::find_role(&profiles, ProfileRole::Performance) {
            Some(i) => {
                let game = Rule {
                    id: rule_ids.0,
                    name: "GameMode active".to_string(),
                    enabled: true,
                    trigger: Trigger::GameMode,
                    profile: profiles[i].id,
                    priority: 100,
                    hold_s: 20,
                };
                let fullscreen = Rule {
                    id: rule_ids.1,
                    name: "Fullscreen game".to_string(),
                    enabled: true,
                    trigger: Trigger::FullscreenGame,
                    profile: profiles[i].id,
                    priority: 50,
                    hold_s: 20,
                };
                c.rules.push(game);
                c.rules.push(fullscreen);
            },
            None => {},
        }
        c.profiles = profiles;
        c
    }

    /// Profiles for a fresh install, from what the machine has: one per power
    /// mode it offers, each changing only that, under random ids. Fans stay
    /// with the firmware and nothing else is forced; users build on these.
    pub fn generated(model: &HardwareModel) -> (c: Self)
        ensures
            exists|profile_ids: Seq<Uuid>, rule_ids: (Uuid, Uuid)|
                {
                    &&& #[trigger] c.is_generated(
                        model@.controls.power_modes,
                        model@.controls.power_mode,
                        profile_ids,
                        rule_ids,
                    )
                    &&& forall|i: int|
                        0 <= i < profile_ids.len() ==> ids::is_random(#[trigger] profile_ids[i])
                    &&& profile_ids.len() >= c.profiles@.len()
                    &&& ids::is_random(rule_ids.0)
                    &&& ids::is_random(rule_ids.1)
                },
    {
        let modes = &model.controls.power_modes;
        let mut profile_ids: Vec<Uuid> = Vec::new();
        profile_ids.push(Uuid::new_v4());
        while profile_ids.len() < modes.len()
            invariant
                profile_ids@.len() >= 1,
                forall|i: int|
                    0 <= i < profile_ids@.len() ==> ids::is_random(#[trigger] profile_ids@[i]),
            decreases modes@.len() - profile_ids@.len(),
        {
            profile_ids.push(Uuid::new_v4());
        }
        let rule_ids = (Uuid::new_v4(), Uuid::new_v4());
        let current = match &model.controls.power_mode {
            Some(m) => Some(m.as_str()),
            None => None,
        };
        let c = Config::generated_with(modes.as_slice(), current, profile_ids.as_slice(), rule_ids);
        assert(c.is_generated(
            model@.controls.power_modes,
            model@.controls.power_mode,
            profile_ids@,
            rule_ids,
        ));
        c
    }

    /// Bring an older config up to [`SCHEMA`]. Fan targets are already read as
    /// model ids; this moves the rest. Returns whether anything changed.
    pub fn migrate(&mut self) -> (changed: bool)
        ensures
            changed == (old(self).schema_version < SCHEMA),
            !changed ==> *final(self) == *old(self),
            changed ==> {
                &&& final(self).schema_version == SCHEMA
                &&& final(self).profiles@.len() == old(self).profiles@.len()
                &&& forall|i: int|
                    0 <= i < old(self).profiles@.len() ==> is_migrated(
                        old(self).profiles@[i],
                        #[trigger] final(self).profiles@[i],
                    )
                &&& final(self).mode == old(self).mode
                &&& final(self).fan_owner == old(self).fan_owner
                &&& final(self).active_profile == old(self).active_profile
                &&& final(self).default_profile == old(self).default_profile
                &&& final(self).rules == old(self).rules
                &&& final(self).coolercontrol == old(self).coolercontrol
                &&& final(self).overlay == old(self).overlay
                &&& final(self).telemetry_hz == old(self).telemetry_hz
                &&& final(self).tray_enabled == old(self).tray_enabled
            },
    {
        if self.schema_version >= SCHEMA {
            return false;
        }
        let ghost all = self.profiles@;
        let mut left: Vec<Profile> = Vec::new();
        std::mem::swap(&mut left, &mut self.profiles);
        let mut done: Vec<Profile> = Vec::new();
        let ghost mut n: int = 0;
        assert(left@ =~= all.skip(0));
        while left.len() > 0
            invariant
                0 <= n <= all.len(),
                left@ == all.skip(n),
                done@.len() == n,
                forall|i: int| 0 <= i < n ==> is_migrated(all[i], #[trigger] done@[i]),
            decreases left@.len(),
        {
            let p = left.remove(0);
            assert(p == all[n]);
            done.push(migrate_profile(p));
            proof {
                assert(left@ =~= all.skip(n + 1));
                n = n + 1;
            }
        }
        self.profiles = done;
        self.schema_version = SCHEMA;
        true
    }

    pub fn profile(&self, id: Uuid) -> (r: Option<&Profile>)
        ensures
            match seqs::first_where(self.profiles@, has_id(id)) {
                Some(i) => r == Some(&self.profiles@[i]),
                None => r is None,
            },
    {
        match Config::find_id(&self.profiles, id) {
            Some(i) => Some(&self.profiles[i]),
            None => None,
        }
    }

    /// The first profile with this role.
    pub fn profile_by_role(&self, role: ProfileRole) -> (r: Option<&Profile>)
        ensures
            match seqs::first_where(self.profiles@, has_role(role)) {
                Some(i) => r == Some(&self.profiles@[i]),
                None => r is None,
            },
    {
        match Config::find_role(&self.profiles, role) {
            Some(i) => Some(&self.profiles[i]),
            None => None,
        }
    }

    /// The place of the profile that follows a power mode: the default
    /// profile's when it carries the mode, else the first that does.
    pub open spec fn follower(&self, live: Seq<char>, choices: Seq<Seq<char>>) -> Option<int> {
        let default = seqs::first_where(self.profiles@, has_id(self.default_profile));
        if default is Some && carries_mode(self.profiles@[default->0], live, choices) {
            default
        } else {
            seqs::first_where(self.profiles@, carries(live, choices))
        }
    }

    /// The profile to follow a power mode set outside a profile apply (a
    /// keyboard shortcut, `powerprofilesctl`, a bar widget): the default
    /// profile when it carries `live`, else the first in order that does.
    /// `None` when no profile carries it.
    pub fn profile_for_power_mode(&self, live: &str, choices: &[String]) -> (r: Option<&Profile>)
        ensures
            match self.follower(live@, text::texts(choices@)) {
                Some(i) => r == Some(&self.profiles@[i]),
                None => r is None,
            },
    {
        let ghost names = text::texts(choices@);
        match Config::find_id(&self.profiles, self.default_profile) {
            Some(i) => {
                if self.profiles[i].carries_power_mode(live, choices) {
                    return Some(&self.profiles[i]);
                }
            },
            None => {},
        }
        let mut i: usize = 0;
        while i < self.profiles.len()
            invariant
                i <= self.profiles@.len(),
                names == text::texts(choices@),
                self.follower(live@, names) == seqs::first_where(
                    self.profiles@,
                    carries(live@, names),
                ),
                forall|k: int|
                    0 <= k < i ==> !carries(live@, names)(#[trigger] self.profiles@[k]),
            decreases self.profiles@.len() - i,
        {
            if self.profiles[i].carries_power_mode(live, choices) {
                proof {
                    seqs::first_where_is(self.profiles@, carries(live@, names), i as int);
                }
                return Some(&self.profiles[i]);
            }
            i += 1;
        }
        proof {
            seqs::first_where_none(self.profiles@, carries(live@, names));
        }
        None
    }
}

/// The profile that follows a power mode carries it; the default profile
/// follows whenever it does; and none follows only where none carries it.
pub proof fn follower_carries(c: Config, live: Seq<char>, choices: Seq<Seq<char>>)
    ensures
        match c.follower(live, choices) {
            Some(i) => 0 <= i < c.profiles@.len() && carries_mode(c.profiles@[i], live, choices),
            None => forall|k: int|
                0 <= k < c.profiles@.len() ==> !carries_mode(
                    #[trigger] c.profiles@[k],
                    live,
                    choices,
                ),
        },
        match seqs::first_where(c.profiles@, has_id(c.default_profile)) {
            Some(d) => carries_mode(c.profiles@[d], live, choices) ==> c.follower(live, choices)
                == Some(d),
            None => true,
        },
{
    seqs::first_where_found(c.profiles@, has_id(c.default_profile));
    seqs::first_where_found(c.profiles@, carries(live, choices));
    if c.follower(live, choices) is None {
        assert forall|k: int| 0 <= k < c.profiles@.len() implies !carries_mode(
            #[trigger] c.profiles@[k],
            live,
            choices,
        ) by {
            assert(!carries(live, choices)(c.profiles@[k]));
        }
    }
}

impl Profile {
    /// Whether this profile's power mode is `live`, one of the machine's
    /// `choices` (a profile made under power-profiles-daemon names its
    /// modes; asusd's are matched by kind).
    pub fn carries_power_mode(&self, live: &str, choices: &[String]) -> (r: bool)
        ensures
            r == carries_mode(*self, live@, text::texts(choices@)),
    {
        match &self.cpu.power_mode {
            Some(wanted) => match power::match_power_mode(wanted.as_str(), choices) {
                Some(m) => {
                    proof {
                        power::match_is_offered(wanted@, text::texts(choices@));
                    }
                    text::same_ignoring_case(m, live)
                },
                None => false,
            },
            None => false,
        }
    }
}

/// A v1 lighting key as it is keyed now: OpenRGB devices were keyed by their
/// bare name.
pub open spec fn zone_key(k: Seq<char>) -> Seq<char> {
    if k.contains(':') {
        k
    } else {
        "openrgb:"@ + k
    }
}

/// Lighting zones under their present keys; of two that come under one key, the
/// later in order stays.
pub open spec fn rekeyed(zones: Seq<(Seq<char>, LightingMode)>) -> Map<Seq<char>, LightingMode> {
    strmap::map_of(zones.map_values(|e: (Seq<char>, LightingMode)| (zone_key(e.0), e.1)))
}

/// What a v1 built-in profile was for, which its name said.
pub open spec fn v1_role(name: Seq<char>) -> Option<ProfileRole> {
    let n = text::lower(name);
    if n == "silent"@ {
        Some(ProfileRole::Quiet)
    } else if n == "balanced"@ {
        Some(ProfileRole::Balanced)
    } else if n == "gaming"@ || n == "turbo"@ {
        Some(ProfileRole::Performance)
    } else {
        None
    }
}

/// The power mode of a v1 profile: its own, else the power-profiles-daemon one,
/// else the platform profile.
pub open spec fn v1_power_mode(p: Profile) -> Option<String> {
    if p.cpu.power_mode is Some {
        p.cpu.power_mode
    } else if p.cpu.ppd_profile is Some {
        p.cpu.ppd_profile
    } else {
        p.cpu.platform_profile
    }
}

/// Whether `now` is the v1 profile `was`, brought up to date.
pub open spec fn is_migrated(was: Profile, now: Profile) -> bool {
    &&& now.cpu.power_mode == v1_power_mode(was)
    &&& now.cpu.ppd_profile is None
    &&& now.cpu.platform_profile is None
    &&& strmap::map_of(now.lighting.zones.items()) == rekeyed(was.lighting.zones.items())
    &&& now.role == if was.role is None && was.builtin {
        v1_role(was.name@)
    } else {
        was.role
    }
    &&& now.id == was.id
    &&& now.name == was.name
    &&& now.icon == was.icon
    &&& now.accent == was.accent
    &&& now.cpu.control == was.cpu.control
    &&& now.cpu.prefer_ccd0 == was.cpu.prefer_ccd0
    &&& now.gpu == was.gpu
    &&& now.cooling == was.cooling
    &&& now.lighting.brightness == was.lighting.brightness
    &&& now.lighting.device_brightness == was.lighting.device_brightness
    &&& now.lcd == was.lcd
    &&& now.asusd == was.asusd
    &&& now.gfx_mode == was.gfx_mode
    &&& now.cc_mode == was.cc_mode
    &&& now.builtin == was.builtin
}

/// Every zone of a migrated profile is keyed by a backend and a device.
pub proof fn migrated_zones_name_a_backend(zones: Seq<(Seq<char>, LightingMode)>, key: Seq<char>)
    requires
        rekeyed(zones).contains_key(key),
    ensures
        key.contains(':'),
    decreases zones.len(),
{
    let f = |e: (Seq<char>, LightingMode)| (zone_key(e.0), e.1);
    let all = zones.map_values(f);
    if zones.len() > 0 {
        let last = zones.last().0;
        assert(all.drop_last() =~= zones.drop_last().map_values(f));
        if key == zone_key(last) {
            if !last.contains(':') {
                reveal_strlit("openrgb:");
                assert(key[7] == ':');
            }
        } else {
            migrated_zones_name_a_backend(zones.drop_last(), key);
        }
    }
}

fn migrate_zones(zones: StrMap<LightingMode>) -> (r: StrMap<LightingMode>)
    ensures
        strmap::map_of(r.items()) == rekeyed(zones.items()),
{
    let ghost all = zones.items();
    let ghost f = |e: (Seq<char>, LightingMode)| (zone_key(e.0), e.1);
    let ghost keyed = all.map_values(f);
    let mut left = zones.into_entries();
    let ghost entry = |e: (String, LightingMode)| (e.0@, e.1);
    let mut r: StrMap<LightingMode> = StrMap::new();
    let ghost mut n: int = 0;
    proof {
        assert(left@.map_values(entry) =~= all.skip(0));
        assert(keyed.take(0) =~= Seq::empty());
    }
    while left.len() > 0
        invariant
            0 <= n <= all.len(),
            left@.map_values(entry) == all.skip(n),
            entry == (|e: (String, LightingMode)| (e.0@, e.1)),
            f == (|e: (Seq<char>, LightingMode)| (zone_key(e.0), e.1)),
            keyed == all.map_values(f),
            strmap::map_of(r.items()) == strmap::map_of(keyed.take(n)),
        decreases left@.len(),
    {
        assert(left@.map_values(entry).len() == left@.len());
        assert(all.skip(n)[0] == all[n]);
        assert(left@.map_values(entry)[0] == all[n]);
        let ghost rest = left@.skip(1);
        let (k, v) = left.remove(0);
        assert(left@ =~= rest);
        assert(left@.map_values(entry) =~= all.skip(n).skip(1));
        assert(all.skip(n).skip(1) =~= all.skip(n + 1));
        assert((k@, v) == all[n]);
        let key = if text::has_char(k.as_str(), ':') {
            k
        } else {
            text::cat2("openrgb:", k.as_str())
        };
        assert(key@ == zone_key(all[n].0));
        assert(keyed.take(n + 1).drop_last() =~= keyed.take(n));
        assert(keyed.take(n + 1).last() == (key@, v));
        r = r.insert(key, v);
        proof {
            n = n + 1;
        }
    }
    assert(keyed.take(n) =~= keyed);
    r
}

/// A v1 profile brought up to date.
pub fn migrate_profile(p: Profile) -> (r: Profile)
    ensures
        is_migrated(p, r),
{
    let mut p = p;
    let ppd = p.cpu.ppd_profile.take();
    let platform = p.cpu.platform_profile.take();
    let v1_mode = match ppd {
        Some(m) => Some(m),
        None => platform,
    };
    if p.cpu.power_mode.is_none() {
        p.cpu.power_mode = v1_mode;
    }
    let LightingSettings { zones, brightness, device_brightness } = p.lighting;
    let zones = migrate_zones(zones);
    let lighting = LightingSettings { zones, brightness, device_brightness };
    let role = if p.role.is_none() && p.builtin {
        let name = text::to_lower(p.name.as_str());
        let name = name.as_str();
        if text::same(name, "silent") {
            Some(ProfileRole::Quiet)
        } else if text::same(name, "balanced") {
            Some(ProfileRole::Balanced)
        } else if text::same(name, "gaming") || text::same(name, "turbo") {
            Some(ProfileRole::Performance)
        } else {
            None
        }
    } else {
        p.role
    };
    Profile {
        id: p.id,
        name: p.name,
        role,
        icon: p.icon,
        accent: p.accent,
        cpu: p.cpu,
        gpu: p.gpu,
        cooling: p.cooling,
        lighting,
        lcd: p.lcd,
        asusd: p.asusd,
        gfx_mode: p.gfx_mode,
        cc_mode: p.cc_mode,
        builtin: p.builtin,
    }
}

/// Whether an id is that of one of the profiles.
pub open spec fn is_profile(c: Config, id: Uuid) -> bool {
    exists|i: int| 0 <= i < c.profiles@.len() && (#[trigger] c.profiles@[i]).id == id
}

/// A fresh config only refers to profiles that it has: by default a balanced
/// one where there is one, and now the one of the current power mode where
/// there is one.
pub proof fn generated_refers_to_its_profiles(
    c: Config,
    modes: Seq<Seq<char>>,
    current: Option<Seq<char>>,
    profile_ids: Seq<Uuid>,
    rule_ids: (Uuid, Uuid),
)
    requires
        c.is_generated(modes, current, profile_ids, rule_ids),
    ensures
        is_profile(c, c.default_profile),
        is_profile(c, c.active_profile),
        forall|i: int| 0 <= i < c.rules@.len() ==> is_profile(c, (#[trigger] c.rules@[i]).profile),
        current is Some && modes.contains(current->0) ==> exists|i: int|
            0 <= i < c.profiles@.len() && (#[trigger] c.profiles@[i]).id == c.active_profile
                && names_mode(current->0)(c.profiles@[i]),
        (exists|i: int|
            0 <= i < c.profiles@.len() && (#[trigger] c.profiles@[i]).role == Some(
                ProfileRole::Balanced,
            )) ==> exists|i: int|
            0 <= i < c.profiles@.len() && (#[trigger] c.profiles@[i]).id == c.default_profile
                && c.profiles@[i].role == Some(ProfileRole::Balanced),
{
    let all = c.profiles@;
    seqs::first_where_found(all, has_role(ProfileRole::Balanced));
    seqs::first_where_found(all, has_role(ProfileRole::Performance));
    let b = Config::balanced_place(all);
    assert(all[b].id == c.default_profile);
    if current is Some {
        seqs::first_where_found(all, names_mode(current->0));
        if modes.contains(current->0) {
            let k = choose|k: int| 0 <= k < modes.len() && modes[k] == current->0;
            assert(is_mode_profile(all[k], profile_ids[k], modes[k]));
            assert(names_mode(current->0)(all[k]));
        }
    }
    let a = Config::active_place(all, current);
    assert(all[a].id == c.active_profile);
}

/// A fresh config has a profile to follow every power mode of its machine.
pub proof fn generated_follows_every_mode(
    c: Config,
    modes: Seq<Seq<char>>,
    current: Option<Seq<char>>,
    profile_ids: Seq<Uuid>,
    rule_ids: (Uuid, Uuid),
    live: Seq<char>,
)
    requires
        c.is_generated(modes, current, profile_ids, rule_ids),
        modes.contains(live),
    ensures
        c.follower(live, modes) is Some,
{
    let k = choose|k: int| 0 <= k < modes.len() && modes[k] == live;
    assert(is_mode_profile(c.profiles@[k], profile_ids[k], modes[k]));
    seqs::first_where_found(modes, power::same_name(live));
    assert(power::same_name(live)(modes[k]));
    assert(carries_mode(c.profiles@[k], live, modes));
    follower_carries(c, live, modes);
}

} // verus!
