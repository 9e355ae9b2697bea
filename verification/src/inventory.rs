//! What was found on the machine, before the model gives it names: the
//! devices as the kernel and the daemons list them, each with what is known
//! of it.

use crate::cpu::CpuInfo;
use crate::double::Double;
use crate::model::{CurveInput, FileRead, Identity, Release, SensorRole, Source};
use crate::strmap::StrMap;
use vstd::prelude::*;

verus! {

/// A temperature input.
#[derive(Debug, Clone, PartialEq)]
pub struct TempInput {
    pub label: String,
    pub input: String,
    /// Known to be meaningless.
    pub hidden: bool,
    /// What it measures, by its driver and label.
    pub role: SensorRole,
    /// What it measures on an integrated GPU.
    pub igpu_role: SensorRole,
}

/// A power input.
#[derive(Debug, Clone, PartialEq)]
pub struct PowerInput {
    pub label: String,
    pub input: String,
    /// What it measures, by its driver and label.
    pub role: SensorRole,
    /// What it measures on an integrated GPU.
    pub igpu_role: SensorRole,
}

/// A fan-speed input.
#[derive(Debug, Clone, PartialEq)]
pub struct FanInput {
    pub label: String,
    pub input: String,
    pub index: u32,
}

/// A curve that a PWM output runs by itself.
#[derive(Debug, Clone, Copy, PartialEq, Eq, Structural)]
pub struct AutoCurve {
    pub points: u32,
    pub has_temp_sel: bool,
}

/// What is known of an output that does not behave like the others.
#[derive(Debug, Clone, PartialEq)]
pub struct OutputQuirk {
    pub id: String,
    pub label: String,
    pub min_duty: Double,
    /// `min_duty` in whole percent, as text.
    pub min_duty_text: String,
    pub release: Release,
    /// The fixed duty of `release`, as text; empty where there is none.
    pub release_duty_text: String,
    pub curve_input: CurveInput,
    pub source: Source,
}

/// What the board calls a fan header.
#[derive(Debug, Clone, PartialEq)]
pub struct HeaderFact {
    pub name: String,
    pub source: Source,
}

/// How fast a fan turns at full speed.
#[derive(Debug, Clone, PartialEq)]
pub struct RpmFact {
    pub rpm: u32,
    pub source: Source,
}

/// A PWM output.
#[derive(Debug, Clone, PartialEq)]
pub struct PwmChannel {
    pub index: u32,
    /// `pwmN` can be written.
    pub has_duty: bool,
    /// `pwmN_enable` is there.
    pub has_enable: bool,
    pub auto_curve: Option<AutoCurve>,
    pub quirk: Option<OutputQuirk>,
    pub header: Option<HeaderFact>,
    /// The fan that its firmware curve drives.
    pub firmware_fan: Option<String>,
    /// The full speed of that fan.
    pub max_rpm: Option<RpmFact>,
}

/// A hwmon device.
#[derive(Debug, Clone, PartialEq)]
pub struct HwmonDevice {
    pub name: String,
    pub friendly_name: String,
    /// Its directory.
    pub path: String,
    /// The device it belongs to.
    pub device_path: String,
    pub super_io: bool,
    /// Its driver's mode for a programmed curve is known.
    pub smart_fan: bool,
    /// The driver that reads the speeds of the fans its curves drive.
    pub curve_tach_driver: Option<String>,
    pub temps: Vec<TempInput>,
    pub powers: Vec<PowerInput>,
    pub fans: Vec<FanInput>,
    pub pwms: Vec<PwmChannel>,
}

/// An AMD GPU as its driver lists it.
#[derive(Debug, Clone, PartialEq)]
pub struct AmdGpu {
    pub pci_slot: String,
    pub name: String,
    pub device_path: String,
    pub is_integrated: bool,
}

/// An NVIDIA GPU as its driver lists it.
#[derive(Debug, Clone, PartialEq)]
pub struct NvidiaGpu {
    pub index: u32,
    pub name: String,
    pub num_fans: u32,
    pub pci_bus_id: String,
}

/// A HID device.
#[derive(Debug, Clone, PartialEq)]
pub struct HidDevice {
    pub path: String,
    /// Made by ENE, whose controllers are in Lian Li's fan hubs.
    pub by_ene: bool,
    /// The fan channels of a known hub.
    pub channels: Option<u8>,
}

/// A display device on the PCI bus.
#[derive(Debug, Clone, PartialEq)]
pub struct PciDevice {
    pub vendor: String,
    pub slot: String,
    pub runtime_status: Option<String>,
}

/// A firmware attribute that is there.
#[derive(Debug, Clone, PartialEq)]
pub struct AttrName {
    pub name: String,
    /// It switches between GPUs.
    pub gpu_switch: bool,
}

/// A fan curve stored by asusd.
#[derive(Debug, Clone, PartialEq)]
pub struct AsusdCurve {
    pub fan: String,
    pub enabled: bool,
    /// (°C, duty %).
    pub points: Vec<(Double, Double)>,
}

/// The fan curves that asusd stores for a power mode.
#[derive(Debug, Clone, PartialEq)]
pub struct ModeCurves {
    /// The mode's name.
    pub mode: String,
    pub curves: Vec<AsusdCurve>,
}

/// A light that asusd drives.
#[derive(Debug, Clone, PartialEq)]
pub struct AuraInfo {
    pub path: String,
    pub label: String,
    pub supported_basic_modes: Vec<u32>,
    pub supported_brightness: Vec<u32>,
}

/// How many LEDs a lid's light bar has.
#[derive(Debug, Clone, PartialEq)]
pub struct LedsFact {
    pub count: u8,
    pub source: Source,
}

/// The light bar on the lid.
#[derive(Debug, Clone, PartialEq)]
pub struct SlashInfo {
    pub path: String,
    pub leds: Option<LedsFact>,
    /// Its animations.
    pub modes: Vec<u32>,
}

/// asusd's platform settings.
#[derive(Debug, Clone, PartialEq)]
pub struct PlatformInfo {
    /// The names of the platform profiles.
    pub choices: Vec<String>,
    pub profile: Option<String>,
    pub charge_limit: Option<u8>,
}

/// What asusd offers.
#[derive(Debug, Clone, PartialEq)]
pub struct AsusdInfo {
    pub has_fan_curves: bool,
    /// In the order of the modes' numbers.
    pub fan_curves: Vec<ModeCurves>,
    pub aura: Vec<AuraInfo>,
    pub slash: Option<SlashInfo>,
    pub platform: Option<PlatformInfo>,
}

/// What power-profiles-daemon offers.
#[derive(Debug, Clone, PartialEq)]
pub struct PpdInfo {
    pub profiles: Vec<String>,
    pub active: String,
}

/// What supergfxd says.
#[derive(Debug, Clone, PartialEq)]
pub struct SupergfxInfo {
    pub vendor: String,
    /// The names of the modes.
    pub supported: Vec<String>,
    pub mode: String,
}

/// What the system itself lists.
#[derive(Debug, Clone, PartialEq)]
pub struct SystemInfo {
    pub identity: Identity,
    pub platform: String,
    pub cpu: CpuInfo,
    /// CoolerControl's daemon runs.
    pub coolercontrold: bool,
    pub hwmon: Vec<HwmonDevice>,
    pub amd_gpus: Vec<AmdGpu>,
    pub hid: Vec<HidDevice>,
    pub platform_profile_choices: Vec<String>,
    pub asus_armoury_attrs: Vec<AttrName>,
}

/// Everything that was found.
#[derive(Debug, Clone, PartialEq)]
pub struct RawInventory {
    pub system: SystemInfo,
    pub asusd: Option<AsusdInfo>,
    pub nvidia: Vec<NvidiaGpu>,
    pub ppd: Option<PpdInfo>,
    pub supergfx: Option<SupergfxInfo>,
    pub pci_display: Vec<PciDevice>,
    /// Files by their paths.
    pub sysfs: StrMap<FileRead>,
}

/// A duty in percent, with the whole percents as text.
#[derive(Debug, Clone, PartialEq)]
pub struct DutyOverride {
    pub value: Double,
    pub text: String,
}

/// What the user says of the machine.
#[derive(Debug, Clone, PartialEq)]
pub struct Overrides {
    /// The lowest duties, by the ids of the outputs.
    pub min_duty: StrMap<DutyOverride>,
    /// The ids of what is not shown.
    pub hide: Vec<String>,
}

} // verus!
