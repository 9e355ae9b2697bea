//! Gaming profile model: a named bundle of CPU, GPU, cooling, lighting and
//! platform settings, plus the automation rules that select profiles.

use crate::cpu::CpuControlState;
use crate::double::Double;
use crate::ids::Uuid;
use crate::model::DeviceId;
use crate::nvidia::NvidiaControl;
use crate::strmap;
use crate::strmap::StrMap;
use crate::{number, seqs, text};
use vstd::prelude::*;
use vstd::string::*;

verus! {

/// Where a curve reads its temperature from.
#[derive(Debug, Clone, PartialEq)]
pub enum TempSource {
    CpuTctl,
    CpuPackage,
    Gpu,
    Coolant,
    Vrm,
    Motherboard,
    /// Max of CPU and GPU: the usual case-fan driver.
    CpuGpuMax,
    /// Arbitrary hwmon input: (driver name, temp label).
    Hwmon { driver: String, label: String },
}

impl Default for TempSource {
    fn default() -> (r: Self)
        ensures
            r == TempSource::CpuTctl,
    {
        TempSource::CpuTctl
    }
}

impl TempSource {
    /// What a source is called.
    pub open spec fn name(&self) -> Seq<char> {
        match self {
            TempSource::CpuTctl => "CPU (Tctl)"@,
            TempSource::CpuPackage => "CPU package"@,
            TempSource::Gpu => "GPU"@,
            TempSource::Coolant => "Coolant"@,
            TempSource::Vrm => "VRM"@,
            TempSource::Motherboard => "Motherboard"@,
            TempSource::CpuGpuMax => "CPU / GPU max"@,
            TempSource::Hwmon { driver, label } => driver@ + ": "@ + label@,
        }
    }

    pub fn label(&self) -> (r: String)
        ensures
            r@ == self.name(),
    {
        match self {
            TempSource::CpuTctl => "CPU (Tctl)".to_string(),
            TempSource::CpuPackage => "CPU package".to_string(),
            TempSource::Gpu => "GPU".to_string(),
            TempSource::Coolant => "Coolant".to_string(),
            TempSource::Vrm => "VRM".to_string(),
            TempSource::Motherboard => "Motherboard".to_string(),
            TempSource::CpuGpuMax => "CPU / GPU max".to_string(),
            TempSource::Hwmon { driver, label } => text::cat3(
                driver.as_str(),
                ": ",
                label.as_str(),
            ),
        }
    }
}

/// A fan curve in device-agnostic terms: (°C, duty %) points.
#[derive(Debug, Clone, PartialEq)]
pub struct FanCurve {
    pub points: Vec<(Double, Double)>,
    /// Which temperature drives the curve.
    pub source: TempSource,
    /// Hysteresis / smoothing in °C.
    pub hysteresis_c: Double,
    /// Minimum duty ever applied (protects pumps).
    pub min_duty: Double,
    /// Seconds over which duty ramps (0 = instant).
    pub ramp_s: Double,
}

/// A fan output, by the id the hardware model gives it (`asusd:fan:CPU`,
/// `superio:pwm2`, `ryujin:pump`...). Profiles keep assignments for outputs a
/// machine doesn't have, so they carry between machines; those are not driven.
pub type FanTarget = DeviceId;

/// How a fan is controlled inside a profile.
#[derive(Debug, Clone, PartialEq)]
pub enum FanMode {
    /// Leave to firmware / driver default.
    Auto,
    /// Fixed duty percent.
    Fixed(Double),
    /// Software curve evaluated by OmaAsus (or handed to CoolerControl).
    Curve(FanCurve),
    /// Hardware Smart Fan IV curve written into the Super I/O (nct6775 only).
    HardwareCurve(FanCurve),
}

/// A fan output with the mode assigned to it.
#[derive(Debug, Clone, PartialEq)]
pub struct FanAssignment {
    pub target: FanTarget,
    pub mode: FanMode,
}

#[derive(Debug, Clone, PartialEq)]
pub struct CoolingSettings {
    pub fans: Vec<FanAssignment>,
    /// Zero-RPM allowed for GPU fans (NVIDIA default policy).
    pub gpu_zero_rpm: bool,
}

/// Whether an assignment is for a target.
pub open spec fn assigns(target: Seq<char>) -> spec_fn(FanAssignment) -> bool {
    |f: FanAssignment| f.target.0@ == target
}

/// Assignments with a mode given to a target: to its first assignment, or as a
/// new one at the end.
pub open spec fn with_mode(fans: Seq<FanAssignment>, target: FanTarget, mode: FanMode) -> Seq<
    FanAssignment,
> {
    match seqs::first_where(fans, assigns(target.0@)) {
        Some(i) => fans.update(i, FanAssignment { target: fans[i].target, mode }),
        None => fans.push(FanAssignment { target, mode }),
    }
}

/// Assignments without those for a target.
pub open spec fn without_target(fans: Seq<FanAssignment>, target: Seq<char>) -> Seq<FanAssignment> {
    fans.filter(|f: FanAssignment| !assigns(target)(f))
}

/// The mode assigned to a target: that of its first assignment.
pub open spec fn assigned(fans: Seq<FanAssignment>, target: Seq<char>) -> Option<FanMode> {
    match seqs::first_where(fans, assigns(target)) {
        Some(i) => Some(fans[i].mode),
        None => None,
    }
}

impl CoolingSettings {
    fn find(&self, target: &DeviceId) -> (r: Option<usize>)
        ensures
            match r {
                Some(i) => i < self.fans@.len() && seqs::first_where(self.fans@, assigns(target.0@))
                    == Some(i as int) && self.fans@[i as int].target.0@ == target.0@,
                None => seqs::first_where(self.fans@, assigns(target.0@)) is None,
            },
    {
        let mut i: usize = 0;
        while i < self.fans.len()
            invariant
                i <= self.fans@.len(),
                forall|k: int|
                    0 <= k < i ==> !assigns(target.0@)(#[trigger] self.fans@[k]),
            decreases self.fans@.len() - i,
        {
            if text::same(self.fans[i].target.0.as_str(), target.0.as_str()) {
                proof {
                    seqs::first_where_is(self.fans@, assigns(target.0@), i as int);
                }
                return Some(i);
            }
            i += 1;
        }
        proof {
            seqs::first_where_none(self.fans@, assigns(target.0@));
        }
        None
    }

    /// Assign a mode: to the target's first assignment, or as a new one at the
    /// end.
    pub fn set(&mut self, target: FanTarget, mode: FanMode)
        ensures
            final(self).gpu_zero_rpm == old(self).gpu_zero_rpm,
            final(self).fans@ == with_mode(old(self).fans@, target, mode),
    {
        match self.find(&target) {
            Some(i) => {
                let was = self.fans.remove(i);
                self.fans.insert(i, FanAssignment { target: was.target, mode });
                assert(self.fans@ =~= old(self).fans@.update(
                    i as int,
                    FanAssignment { target: old(self).fans@[i as int].target, mode },
                ));
            },
            None => {
                self.fans.push(FanAssignment { target, mode });
            },
        }
    }

    pub fn get(&self, target: &FanTarget) -> (r: Option<&FanMode>)
        ensures
            match r {
                Some(m) => assigned(self.fans@, target.0@) == Some(*m),
                None => assigned(self.fans@, target.0@) is None,
            },
    {
        match self.find(target) {
            Some(i) => Some(&self.fans[i].mode),
            None => None,
        }
    }

    /// Drop every assignment for a target.
    pub fn remove(&mut self, target: &FanTarget)
        ensures
            final(self).gpu_zero_rpm == old(self).gpu_zero_rpm,
            final(self).fans@ == without_target(old(self).fans@, target.0@),
    {
        let ghost keep = |f: FanAssignment| !assigns(target.0@)(f);
        let ghost all = self.fans@;
        let mut kept: Vec<FanAssignment> = Vec::new();
        let mut left: Vec<FanAssignment> = Vec::new();
        std::mem::swap(&mut left, &mut self.fans);
        let ghost mut n: int = 0;
        proof {
            seqs::filter_empty(keep);
            assert(all.take(0) =~= Seq::empty());
            assert(left@ =~= all.skip(0));
        }
        while left.len() > 0
            invariant
                0 <= n <= all.len(),
                left@ == all.skip(n),
                kept@ == all.take(n).filter(keep),
                keep == (|f: FanAssignment| !assigns(target.0@)(f)),
            decreases left@.len(),
        {
            let f = left.remove(0);
            proof {
                assert(f == all[n]);
                assert(all.take(n + 1) =~= all.take(n).push(f));
                seqs::filter_push(all.take(n), keep, f);
                assert(left@ =~= all.skip(n + 1));
                n = n + 1;
            }
            if !text::same(f.target.0.as_str(), target.0.as_str()) {
                kept.push(f);
            }
        }
        assert(all.take(n) =~= all);
        self.fans = kept;
    }
}

/// A target reads back the mode set on it, and the others keep theirs.
pub proof fn cooling_set_reads_back(
    fans: Seq<FanAssignment>,
    target: FanTarget,
    mode: FanMode,
    other: Seq<char>,
)
    ensures
        assigned(with_mode(fans, target, mode), target.0@) == Some(mode),
        other != target.0@ ==> assigned(with_mode(fans, target, mode), other) == assigned(
            fans,
            other,
        ),
{
    let now = with_mode(fans, target, mode);
    let f = assigns(target.0@);
    seqs::first_where_found(fans, f);
    match seqs::first_where(fans, f) {
        Some(i) => {
            assert forall|k: int| 0 <= k < i implies !f(#[trigger] now[k]) by {
                assert(now[k] == fans[k]);
            }
            seqs::first_where_is(now, f, i);
        },
        None => {
            let n = fans.len() as int;
            assert forall|k: int| 0 <= k < n implies !f(#[trigger] now[k]) by {
                assert(now[k] == fans[k]);
            }
            seqs::first_where_is(now, f, n);
        },
    }
    if other != target.0@ {
        let g = assigns(other);
        seqs::first_where_found(fans, g);
        match seqs::first_where(fans, g) {
            Some(i) => {
                assert(now[i] == fans[i]);
                assert forall|k: int| 0 <= k < i implies !g(#[trigger] now[k]) by {
                    assert(!g(fans[k]));
                }
                seqs::first_where_is(now, g, i);
            },
            None => {
                assert forall|k: int| 0 <= k < now.len() implies !g(#[trigger] now[k]) by {
                    if k < fans.len() {
                        assert(!g(fans[k]));
                    }
                }
                seqs::first_where_none(now, g);
            },
        }
    }
}

/// A removed target has no mode, and the others keep theirs.
pub proof fn cooling_remove_clears(fans: Seq<FanAssignment>, target: Seq<char>, other: Seq<char>)
    ensures
        assigned(without_target(fans, target), target) is None,
        other != target ==> assigned(without_target(fans, target), other) == assigned(fans, other),
    decreases fans.len(),
{
    let keep = |f: FanAssignment| !assigns(target)(f);
    if fans.len() == 0 {
        seqs::filter_empty(keep);
    } else {
        let rest = fans.drop_last();
        cooling_remove_clears(rest, target, other);
        assert(fans =~= rest.push(fans.last()));
        seqs::filter_push(rest, keep, fans.last());
        let kept = fans.filter(keep);
        if keep(fans.last()) {
            assert(kept.drop_last() =~= rest.filter(keep));
        }
        seqs::first_where_found(rest, assigns(other));
        seqs::first_where_found(rest.filter(keep), assigns(other));
    }
}

#[derive(Debug, Clone, PartialEq)]
pub struct CpuSettings {
    pub control: Option<CpuControlState>,
    /// Pin the game to physical cores of CCD0 (Zen 4 gaming trick) via cgroup/cpuset.
    pub prefer_ccd0: bool,
    /// Power mode to select, by the machine's name for it ("Quiet", "Balanced",
    /// "power-saver"...). Applied through whichever component owns power modes;
    /// a name from another machine maps to its nearest mode.
    pub power_mode: Option<String>,
    /// Config v1: power-profiles-daemon profile. Read only, to migrate into `power_mode`.
    pub ppd_profile: Option<String>,
    /// Config v1: `platform_profile` value. Read only, to migrate into `power_mode`.
    pub platform_profile: Option<String>,
}

#[derive(Debug, Clone, PartialEq)]
pub struct GpuSettings {
    pub nvidia: Option<NvidiaControl>,
    /// amdgpu `power_dpm_force_performance_level`.
    pub amd_perf_level: Option<String>,
}

#[derive(Debug, Clone, Copy, PartialEq, Eq, Structural)]
pub struct Rgb {
    pub r: u8,
    pub g: u8,
    pub b: u8,
}

impl Default for Rgb {
    fn default() -> (c: Self)
        ensures
            c == (Rgb { r: 0, g: 0, b: 0 }),
    {
        Rgb { r: 0, g: 0, b: 0 }
    }
}

impl Rgb {
    pub fn new(r: u8, g: u8, b: u8) -> (c: Self)
        ensures
            c == (Rgb { r, g, b }),
    {
        Rgb { r, g, b }
    }

    /// A colour as `#RRGGBB`.
    pub open spec fn code(&self) -> Seq<char> {
        seq!['#'] + number::hex_byte(self.r) + number::hex_byte(self.g) + number::hex_byte(self.b)
    }

    pub fn hex(&self) -> (s: String)
        ensures
            s@ == self.code(),
    {
        let mut s = String::new();
        s.push('#');
        assert(s@ =~= seq!['#']);
        number::push_hex_byte(&mut s, self.r);
        number::push_hex_byte(&mut s, self.g);
        number::push_hex_byte(&mut s, self.b);
        s
    }
}

#[derive(Debug, Clone, PartialEq)]
pub enum LightingMode {
    Off,
    Static(Rgb),
    Breathing(Rgb),
    Rainbow,
    /// Colour follows a temperature source between two colours.
    Thermal { source: TempSource, cool: Rgb, hot: Rgb, min_c: Double, max_c: Double },
    /// Direct per-LED colours (OpenRGB direct mode).
    Direct(Vec<Rgb>),
    /// One of the device's own effects, by its number (an asusd Aura mode as
    /// asusd lists it, a Slash animation, an OpenRGB mode index).
    Firmware(u32),
}

#[derive(Debug, Clone, PartialEq)]
pub struct LightingSettings {
    /// Keyed by device: a model `DeviceId` (`asusd:slash`) or `openrgb:<name>`.
    pub zones: StrMap<LightingMode>,
    /// Brightness for every device in percent; 0 leaves each as it is.
    pub brightness: u8,
    /// Brightness per device in percent, over `brightness`.
    pub device_brightness: StrMap<u8>,
}

impl LightingSettings {
    /// The brightness a profile sets on a device: the device's own, else the
    /// one for every device, unless that is 0.
    pub open spec fn brightness_of(&self, key: Seq<char>) -> Option<u8> {
        if strmap::map_of(self.device_brightness.items()).contains_key(key) {
            Some(strmap::map_of(self.device_brightness.items())[key])
        } else if self.brightness > 0 {
            Some(self.brightness)
        } else {
            None
        }
    }

    /// The brightness to set on a device, if the profile sets one.
    pub fn brightness_for(&self, key: &str) -> (r: Option<u8>)
        ensures
            r == self.brightness_of(key@),
    {
        match self.device_brightness.get(key) {
            Some(b) => Some(*b),
            None => if self.brightness > 0 {
                Some(self.brightness)
            } else {
                None
            },
        }
    }
}

#[derive(Debug, Clone, PartialEq)]
pub struct LcdSettings {
    /// Ryujin LCD / LiveDash content.
    pub content: LcdContent,
    pub brightness: u8,
}

#[derive(Debug, Clone, PartialEq)]
pub enum LcdContent {
    Firmware,
    Temps,
    Clocks,
    Image(String),
    Gif(String),
    Text(String),
}

/// What a profile is for, so rules and shortcuts find "the quiet one" or "the
/// gaming one" without relying on names.
#[derive(Debug, Clone, Copy, PartialEq, Eq, Structural)]
pub enum ProfileRole {
    Quiet,
    Balanced,
    Performance,
}

/// A full gaming profile.
#[derive(Debug, Clone, PartialEq)]
pub struct Profile {
    pub id: Uuid,
    pub name: String,
    pub role: Option<ProfileRole>,
    pub icon: String,
    pub accent: Rgb,
    pub cpu: CpuSettings,
    pub gpu: GpuSettings,
    pub cooling: CoolingSettings,
    pub lighting: LightingSettings,
    pub lcd: LcdSettings,
    /// Laptop-only knobs applied through asusd, kept generic.
    pub asusd: StrMap<String>,
    /// supergfxctl mode name to request (laptops).
    pub gfx_mode: Option<String>,
    /// CoolerControl Mode to activate with this profile (when CoolerControl owns fans).
    pub cc_mode: Option<String>,
    pub builtin: bool,
}

impl Default for CpuSettings {
    fn default() -> (r: Self)
        ensures
            r.is_default(),
    {
        CpuSettings {
            control: None,
            prefer_ccd0: false,
            power_mode: None,
            ppd_profile: None,
            platform_profile: None,
        }
    }
}

impl CpuSettings {
    /// Nothing set.
    pub open spec fn is_default(&self) -> bool {
        &&& self.control is None
        &&& !self.prefer_ccd0
        &&& self.power_mode is None
        &&& self.ppd_profile is None
        &&& self.platform_profile is None
    }
}

impl Default for GpuSettings {
    fn default() -> (r: Self)
        ensures
            r.nvidia is None,
            r.amd_perf_level is None,
    {
        GpuSettings { nvidia: None, amd_perf_level: None }
    }
}

impl Default for CoolingSettings {
    fn default() -> (r: Self)
        ensures
            r.fans@.len() == 0,
            !r.gpu_zero_rpm,
    {
        CoolingSettings { fans: Vec::new(), gpu_zero_rpm: false }
    }
}

impl Default for LightingSettings {
    fn default() -> (r: Self)
        ensures
            r.zones.items().len() == 0,
            r.brightness == 0,
            r.device_brightness.items().len() == 0,
    {
        LightingSettings { zones: StrMap::new(), brightness: 0, device_brightness: StrMap::new() }
    }
}

impl Default for LcdContent {
    fn default() -> (r: Self)
        ensures
            r is Firmware,
    {
        LcdContent::Firmware
    }
}

impl Default for LcdSettings {
    fn default() -> (r: Self)
        ensures
            r.content is Firmware,
            r.brightness == 0,
    {
        LcdSettings { content: LcdContent::default(), brightness: 0 }
    }
}

impl Profile {
    /// Nothing set beyond what [`Profile::new`] gives every profile: no GPU,
    /// cooling, lighting, LCD, firmware or graphics settings.
    pub open spec fn changes_nothing_but_cpu(&self) -> bool {
        &&& self.gpu.nvidia is None
        &&& self.gpu.amd_perf_level is None
        &&& self.cooling.fans@.len() == 0
        &&& !self.cooling.gpu_zero_rpm
        &&& self.lighting.zones.items().len() == 0
        &&& self.lighting.brightness == 0
        &&& self.lighting.device_brightness.items().len() == 0
        &&& self.lcd.content is Firmware
        &&& self.lcd.brightness == 0
        &&& self.asusd.items().len() == 0
        &&& self.gfx_mode is None
        &&& self.cc_mode is None
    }

    /// A profile as new: of this id and name, with nothing set.
    pub open spec fn is_new(&self, id: Uuid, name: Seq<char>) -> bool {
        &&& self.id == id
        &&& self.name@ == name
        &&& self.role is None
        &&& self.icon@ == "bolt"@
        &&& self.accent == (Rgb { r: 255, g: 64, b: 96 })
        &&& self.cpu.is_default()
        &&& self.changes_nothing_but_cpu()
        &&& !self.builtin
    }

    /// A new profile of a given id.
    pub fn with_id(id: Uuid, name: &str) -> (r: Self)
        ensures
            r.is_new(id, name@),
    {
        Profile {
            id,
            name: name.to_string(),
            role: None,
            icon: "bolt".to_string(),
            accent: Rgb::new(255, 64, 96),
            cpu: CpuSettings::default(),
            gpu: GpuSettings::default(),
            cooling: CoolingSettings::default(),
            lighting: LightingSettings::default(),
            lcd: LcdSettings::default(),
            asusd: StrMap::new(),
            gfx_mode: None,
            cc_mode: None,
            builtin: false,
        }
    }

    /// A new profile, of a random id.
    pub fn new(name: &str) -> (r: Self)
        ensures
            r.is_new(r.id, name@),
            crate::ids::is_random(r.id),
    {
        Profile::with_id(Uuid::new_v4(), name)
    }
}

} // verus!
