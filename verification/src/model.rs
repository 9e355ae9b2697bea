//! The hardware model: what this machine has, in stable, backend-neutral
//! terms.

use crate::cpu::CpuInfo;
use crate::double::Double;
use crate::strmap::StrMap;
use crate::{number, seqs, strmap, text};
use vstd::prelude::*;
use vstd::string::*;

verus! {

/// A stable, readable identifier for a fan output, sensor, GPU or lighting
/// device: the same hardware gets the same id across boots (no `hwmonN`
/// numbers), e.g. `asusd:fan:CPU`, `superio:pwm2`, `hwmon:k10temp:Tctl`.
/// Two identical sensors on one machine are told apart by a `#2` suffix.
#[derive(Debug, Clone, PartialEq, Eq, PartialOrd, Ord, Hash)]
pub struct DeviceId(pub String);

/// A fan target as a config writes it: an id, or one of the fixed fan names of
/// config v1.
#[derive(Debug, Clone, PartialEq, Eq)]
pub enum FanName {
    Id(String),
    SuperIo(u32),
    LianLiChannel(u8),
    CoolerControl { device_uid: String, channel: String },
}

impl FanName {
    /// The id that the model gives the output of a name.
    pub open spec fn id(&self) -> Seq<char> {
        match self {
            FanName::Id(s) => if s@ == "RyujinPump"@ {
                "ryujin:pump"@
            } else if s@ == "RyujinInternalFan"@ {
                "ryujin:block-fan"@
            } else if s@ == "RyujinExternalFans"@ {
                "ryujin:radiator"@
            } else if s@ == "NvidiaFans"@ {
                "nvidia:0:fans"@
            } else {
                s@
            },
            FanName::SuperIo(n) => "superio:pwm"@ + number::decimal(*n as nat),
            FanName::LianLiChannel(c) => "lianli:0:ch"@ + number::decimal(*c as nat),
            FanName::CoolerControl { device_uid, channel } => "cc:"@ + device_uid@ + ":"@
                + channel@,
        }
    }
}

impl DeviceId {
    pub fn new(id: String) -> (r: Self)
        ensures
            r.0 == id,
    {
        DeviceId(id)
    }

    pub fn as_str(&self) -> (r: &str)
        ensures
            r@ == self.0@,
    {
        self.0.as_str()
    }

    /// Reads ids, and the fixed fan names of config v1 as the ids the model
    /// gives the same outputs.
    pub fn read(name: FanName) -> (r: Self)
        ensures
            r.0@ == name.id(),
    {
        DeviceId(
            match name {
                FanName::Id(s) => if text::same(s.as_str(), "RyujinPump") {
                    "ryujin:pump".to_string()
                } else if text::same(s.as_str(), "RyujinInternalFan") {
                    "ryujin:block-fan".to_string()
                } else if text::same(s.as_str(), "RyujinExternalFans") {
                    "ryujin:radiator".to_string()
                } else if text::same(s.as_str(), "NvidiaFans") {
                    "nvidia:0:fans".to_string()
                } else {
                    s
                },
                FanName::SuperIo(n) => text::cat2(
                    "superio:pwm",
                    number::print(n as u128).as_str(),
                ),
                FanName::LianLiChannel(c) => text::cat2(
                    "lianli:0:ch",
                    number::print(c as u128).as_str(),
                ),
                FanName::CoolerControl { device_uid, channel } => text::cat4(
                    "cc:",
                    device_uid.as_str(),
                    ":",
                    channel.as_str(),
                ),
            },
        )
    }
}

/// An id reads as itself: the id that a name was read as, written to a config
/// and read again, stays.
pub proof fn id_reads_as_itself(name: FanName, written: String)
    requires
        written@ == name.id(),
    ensures
        FanName::Id(written).id() == name.id(),
{
    reveal_strlit("RyujinPump");
    reveal_strlit("RyujinInternalFan");
    reveal_strlit("RyujinExternalFans");
    reveal_strlit("NvidiaFans");
    reveal_strlit("ryujin:pump");
    reveal_strlit("ryujin:block-fan");
    reveal_strlit("ryujin:radiator");
    reveal_strlit("nvidia:0:fans");
    reveal_strlit("superio:pwm");
    reveal_strlit("lianli:0:ch");
    reveal_strlit("cc:");
    match name {
        FanName::Id(s) => {},
        FanName::SuperIo(n) => {
            assert(written@[0] == 's');
        },
        FanName::LianLiChannel(c) => {
            assert(written@[0] == 'l');
        },
        FanName::CoolerControl { device_uid, channel } => {
            assert(written@[0] == 'c');
        },
    }
}

/// A text other than the four fixed fan names stays as it is.
pub proof fn other_texts_stay(text: String)
    requires
        text@ != "RyujinPump"@,
        text@ != "RyujinInternalFan"@,
        text@ != "RyujinExternalFans"@,
        text@ != "NvidiaFans"@,
    ensures
        FanName::Id(text).id() == text@,
{
}

/// What a sensor measures.
#[derive(Debug, Clone, Copy, PartialEq, Eq, Structural)]
pub enum SensorRole {
    CpuTemp,
    CpuCore,
    IgpuTemp,
    DgpuTemp,
    GpuHotspot,
    Coolant,
    Vrm,
    Board,
    Storage,
    Memory,
    Wireless,
    PackagePower,
    GpuPower,
    FanSpeed,
    Other,
}

#[derive(Debug, Clone, Copy, PartialEq, Eq, Structural)]
pub enum SensorKind {
    Temperature,
    Power,
    Fan,
}

#[derive(Debug, Clone, PartialEq)]
pub struct Sensor {
    pub id: DeviceId,
    pub label: String,
    pub role: SensorRole,
    pub kind: SensorKind,
    pub driver: String,
    /// The attribute to read.
    pub input: String,
}

pub struct SensorView {
    pub id: Seq<char>,
    pub label: Seq<char>,
    pub role: SensorRole,
    pub kind: SensorKind,
    pub driver: Seq<char>,
    pub input: Seq<char>,
}

impl View for Sensor {
    type V = SensorView;

    open spec fn view(&self) -> SensorView {
        SensorView {
            id: self.id.0@,
            label: self.label@,
            role: self.role,
            kind: self.kind,
            driver: self.driver@,
            input: self.input@,
        }
    }
}

/// Which temperature a hardware curve follows.
#[derive(Debug, Clone, Copy, PartialEq, Eq, Structural)]
pub enum CurveTemp {
    /// Chosen per curve (`pwmN_temp_sel`).
    Selectable,
    /// Fixed by the firmware (the fan's own CPU or GPU sensor).
    Firmware,
}

#[derive(Debug, Clone, Copy, PartialEq, Eq, Structural)]
pub struct CurveSpec {
    pub points: u32,
    pub temp: CurveTemp,
}

/// What handing an output back to the hardware means.
#[derive(Debug, Clone, Copy, PartialEq)]
pub enum Release {
    /// Restore the `pwmN_enable` mode saved before taking control.
    RestoreMode,
    /// The device's own automatic behaviour (NVIDIA auto policy, Lian Li PWM
    /// sync, firmware curves switched off).
    Auto,
    /// A fixed duty, for devices with no automatic behaviour once driven.
    SafeFixed(Double),
}

/// The temperature a new software curve for an output should follow.
#[derive(Debug, Clone, Copy, PartialEq, Eq, Structural)]
pub enum CurveInput {
    Cpu,
    Gpu,
    /// The hotter of the two: the usual case-fan driver.
    CpuOrGpu,
    Coolant,
}

#[derive(Debug, Clone, Copy, PartialEq)]
pub struct FanCaps {
    /// Takes a fixed duty or a software curve.
    pub duty: bool,
    /// A curve the hardware runs itself.
    pub firmware_curve: Option<CurveSpec>,
    /// Lowest duty ever sent, in percent.
    pub min_duty: Double,
    pub release: Release,
    /// Speed at 100 %, for showing speed as a share of it.
    pub max_rpm: Option<u32>,
    pub curve_input: CurveInput,
}

/// How an output is driven.
#[derive(Debug, Clone, PartialEq)]
pub enum FanBackend {
    /// A hwmon PWM output (Super I/O header, AIO) at `dir/pwm{index}`.
    Hwmon { dir: String, index: u32 },
    /// A firmware curve stored and applied by asusd, per platform profile.
    AsusdCurve { fan: String },
    /// A firmware curve written straight to `asus_custom_fan_curve` (no asusd).
    AsusCurve { dir: String, index: u32, driver: String },
    Nvidia { gpu: u32, fans: u32 },
    LianLi { path: String, channel: u8 },
}

pub enum FanBackendView {
    Hwmon { dir: Seq<char>, index: u32 },
    AsusdCurve { fan: Seq<char> },
    AsusCurve { dir: Seq<char>, index: u32, driver: Seq<char> },
    Nvidia { gpu: u32, fans: u32 },
    LianLi { path: Seq<char>, channel: u8 },
}

impl View for FanBackend {
    type V = FanBackendView;

    open spec fn view(&self) -> FanBackendView {
        match self {
            FanBackend::Hwmon { dir, index } => FanBackendView::Hwmon { dir: dir@, index: *index },
            FanBackend::AsusdCurve { fan } => FanBackendView::AsusdCurve { fan: fan@ },
            FanBackend::AsusCurve { dir, index, driver } => FanBackendView::AsusCurve {
                dir: dir@,
                index: *index,
                driver: driver@,
            },
            FanBackend::Nvidia { gpu, fans } => FanBackendView::Nvidia { gpu: *gpu, fans: *fans },
            FanBackend::LianLi { path, channel } => FanBackendView::LianLi {
                path: path@,
                channel: *channel,
            },
        }
    }
}

#[derive(Debug, Clone, PartialEq)]
pub struct StoredCurve {
    /// The custom curve is in use rather than the firmware's own.
    pub enabled: bool,
    /// (°C, duty %).
    pub points: Vec<(Double, Double)>,
}

pub struct StoredCurveView {
    pub enabled: bool,
    pub points: Seq<(Double, Double)>,
}

impl View for StoredCurve {
    type V = StoredCurveView;

    open spec fn view(&self) -> StoredCurveView {
        StoredCurveView { enabled: self.enabled, points: self.points@ }
    }
}

#[derive(Debug, Clone, PartialEq)]
pub struct FanOutput {
    pub id: DeviceId,
    pub label: String,
    /// The fan-speed sensor reading this output's fan.
    pub tach: Option<DeviceId>,
    pub caps: FanCaps,
    pub backend: FanBackend,
    /// Curves the firmware stores for it, by power mode (asusd), as detected.
    pub firmware_curves: StrMap<StoredCurve>,
}

pub struct FanOutputView {
    pub id: Seq<char>,
    pub label: Seq<char>,
    pub tach: Option<Seq<char>>,
    pub caps: FanCaps,
    pub backend: FanBackendView,
    pub firmware_curves: Map<Seq<char>, StoredCurveView>,
}

/// A map of stored curves, by what they hold.
pub open spec fn curves_of(m: Map<Seq<char>, StoredCurve>) -> Map<Seq<char>, StoredCurveView> {
    m.map_values(|c: StoredCurve| c@)
}

/// An id that may be missing, as text.
pub open spec fn id_text(id: Option<DeviceId>) -> Option<Seq<char>> {
    match id {
        Some(d) => Some(d.0@),
        None => None,
    }
}

/// A text that may be missing.
pub open spec fn opt_text(s: Option<String>) -> Option<Seq<char>> {
    match s {
        Some(s) => Some(s@),
        None => None,
    }
}

impl View for FanOutput {
    type V = FanOutputView;

    open spec fn view(&self) -> FanOutputView {
        FanOutputView {
            id: self.id.0@,
            label: self.label@,
            tach: id_text(self.tach),
            caps: self.caps,
            backend: self.backend@,
            firmware_curves: curves_of(strmap::map_of(self.firmware_curves.items())),
        }
    }
}

#[derive(Debug, Clone, Copy, PartialEq, Eq, Structural)]
pub enum GpuVendor {
    Amd,
    Nvidia,
    Intel,
    Other,
}

#[derive(Debug, Clone, Copy, PartialEq, Eq, Structural)]
pub enum GpuPower {
    Active,
    /// Runtime-suspended (D3); reading it through the driver would wake it.
    Suspended,
    /// Removed from the bus (supergfxd Integrated mode, dGPU disabled).
    Off,
}

#[derive(Debug, Clone, PartialEq)]
pub struct Gpu {
    pub id: DeviceId,
    pub vendor: GpuVendor,
    pub name: String,
    pub integrated: bool,
    pub power: GpuPower,
    pub pci_slot: Option<String>,
}

pub struct GpuView {
    pub id: Seq<char>,
    pub vendor: GpuVendor,
    pub name: Seq<char>,
    pub integrated: bool,
    pub power: GpuPower,
    pub pci_slot: Option<Seq<char>>,
}

impl View for Gpu {
    type V = GpuView;

    open spec fn view(&self) -> GpuView {
        GpuView {
            id: self.id.0@,
            vendor: self.vendor,
            name: self.name@,
            integrated: self.integrated,
            power: self.power,
            pci_slot: opt_text(self.pci_slot),
        }
    }
}

#[derive(Debug, Clone, PartialEq)]
pub enum LightingBackend {
    AsusdAura { path: String },
    AsusdSlash { path: String },
}

pub enum LightingBackendView {
    AsusdAura { path: Seq<char> },
    AsusdSlash { path: Seq<char> },
}

impl View for LightingBackend {
    type V = LightingBackendView;

    open spec fn view(&self) -> LightingBackendView {
        match self {
            LightingBackend::AsusdAura { path } => LightingBackendView::AsusdAura { path: path@ },
            LightingBackend::AsusdSlash { path } => LightingBackendView::AsusdSlash { path: path@ },
        }
    }
}

#[derive(Debug, Clone, PartialEq)]
pub struct LightingDevice {
    pub id: DeviceId,
    pub label: String,
    pub backend: LightingBackend,
    /// Firmware modes, as the backend numbers them.
    pub modes: Vec<u32>,
    pub brightness_levels: Vec<u32>,
    pub leds: Option<u8>,
}

pub struct LightingDeviceView {
    pub id: Seq<char>,
    pub label: Seq<char>,
    pub backend: LightingBackendView,
    pub modes: Seq<u32>,
    pub brightness_levels: Seq<u32>,
    pub leds: Option<u8>,
}

impl View for LightingDevice {
    type V = LightingDeviceView;

    open spec fn view(&self) -> LightingDeviceView {
        LightingDeviceView {
            id: self.id.0@,
            label: self.label@,
            backend: self.backend@,
            modes: self.modes@,
            brightness_levels: self.brightness_levels@,
            leds: self.leds,
        }
    }
}

/// Which component a control goes through, so exactly one thing drives it.
#[derive(Debug, Clone, Copy, PartialEq, Eq, Structural)]
pub enum Owner {
    Asusd,
    PowerProfilesDaemon,
    Sysfs,
    Supergfxd,
    CoolerControl,
    OmaAsus,
    Firmware,
}

impl Owner {
    /// The owner's bare name.
    pub open spec fn word(&self) -> Seq<char> {
        match self {
            Owner::Asusd => "Asusd"@,
            Owner::PowerProfilesDaemon => "PowerProfilesDaemon"@,
            Owner::Sysfs => "Sysfs"@,
            Owner::Supergfxd => "Supergfxd"@,
            Owner::CoolerControl => "CoolerControl"@,
            Owner::OmaAsus => "OmaAsus"@,
            Owner::Firmware => "Firmware"@,
        }
    }

    fn to_word(&self) -> (r: &'static str)
        ensures
            r@ == self.word(),
    {
        match self {
            Owner::Asusd => "Asusd",
            Owner::PowerProfilesDaemon => "PowerProfilesDaemon",
            Owner::Sysfs => "Sysfs",
            Owner::Supergfxd => "Supergfxd",
            Owner::CoolerControl => "CoolerControl",
            Owner::OmaAsus => "OmaAsus",
            Owner::Firmware => "Firmware",
        }
    }
}

/// A firmware attribute (asus-armoury). Values and ranges come from sysfs:
/// they change with AC state, and asusd's cached copies can be stale.
#[derive(Debug, Clone, PartialEq, Eq)]
pub struct FirmwareAttr {
    pub name: String,
    pub current: Option<i64>,
    pub min: Option<i64>,
    pub max: Option<i64>,
    pub choices: Vec<i64>,
    /// The firmware accepts changes (through asusd or the helper).
    pub writable: bool,
    /// Another component owns it; show it read-only.
    pub owned_by: Option<Owner>,
}

pub struct FirmwareAttrView {
    pub name: Seq<char>,
    pub current: Option<i64>,
    pub min: Option<i64>,
    pub max: Option<i64>,
    pub choices: Seq<i64>,
    pub writable: bool,
    pub owned_by: Option<Owner>,
}

impl View for FirmwareAttr {
    type V = FirmwareAttrView;

    open spec fn view(&self) -> FirmwareAttrView {
        FirmwareAttrView {
            name: self.name@,
            current: self.current,
            min: self.min,
            max: self.max,
            choices: self.choices@,
            writable: self.writable,
            owned_by: self.owned_by,
        }
    }
}

/// Where the kernel's ASUS firmware attributes live.
pub const ARMOURY: &'static str = "/sys/class/firmware-attributes/asus-armoury/attributes";

/// A file as it was read: its value, if readable, and permission bits.
#[derive(Debug, Clone, PartialEq, Eq)]
pub struct FileRead {
    pub value: Option<String>,
    pub mode: u32,
}

/// The files of a firmware attribute that there are.
#[derive(Debug, Clone, PartialEq, Eq)]
pub struct AttrFiles {
    pub current_value: Option<FileRead>,
    pub min_value: Option<FileRead>,
    pub max_value: Option<FileRead>,
    pub possible_values: Option<FileRead>,
}

/// The number in a file, where it holds one.
pub open spec fn number_in(f: Option<FileRead>) -> Option<i64> {
    match f {
        Some(f) => match f.value {
            Some(v) => number::i64_in(text::trimmed(v@)),
            None => None,
        },
        None => None,
    }
}

/// The numbers among texts.
pub open spec fn numbers_in(parts: Seq<Seq<char>>) -> Seq<i64>
    decreases parts.len(),
{
    if parts.len() == 0 {
        seq![]
    } else {
        match number::i64_in(text::trimmed(parts.last())) {
            Some(n) => numbers_in(parts.drop_last()).push(n),
            None => numbers_in(parts.drop_last()),
        }
    }
}

/// The numbers in a file, between semicolons.
pub open spec fn choices_in(f: Option<FileRead>) -> Seq<i64> {
    match f {
        Some(f) => match f.value {
            Some(v) => numbers_in(text::pieces(v@, ';')),
            None => seq![],
        },
        None => seq![],
    }
}

/// The attribute that an attribute's files describe: none without a current
/// value.
pub open spec fn attr_in(
    name: Seq<char>,
    owned_by: Option<Owner>,
    files: AttrFiles,
) -> Option<FirmwareAttrView> {
    match files.current_value {
        Some(f) => Some(
            FirmwareAttrView {
                name,
                current: number_in(files.current_value),
                min: number_in(files.min_value),
                max: number_in(files.max_value),
                choices: choices_in(files.possible_values),
                writable: f.mode & 0x80 != 0,
                owned_by,
            },
        ),
        None => None,
    }
}

fn read_number(f: &Option<FileRead>) -> (r: Option<i64>)
    ensures
        r == number_in(*f),
{
    match f {
        Some(f) => match &f.value {
            Some(v) => number::read_i64(text::trim(v.as_str()).as_str()),
            None => None,
        },
        None => None,
    }
}

fn read_choices(f: &Option<FileRead>) -> (r: Vec<i64>)
    ensures
        r@ == choices_in(*f),
{
    let mut r: Vec<i64> = Vec::new();
    match f {
        Some(f) => match &f.value {
            Some(v) => {
                let parts = text::split(v.as_str(), ';');
                let ghost all = text::texts(parts@);
                let mut i: usize = 0;
                assert(r@ =~= numbers_in(all.take(0)));
                while i < parts.len()
                    invariant
                        i <= parts@.len(),
                        all == text::texts(parts@),
                        r@ == numbers_in(all.take(i as int)),
                    decreases parts@.len() - i,
                {
                    proof {
                        assert(all.take(i + 1).drop_last() =~= all.take(i as int));
                        assert(all.take(i + 1).last() == parts@[i as int]@);
                    }
                    match number::read_i64(text::trim(parts[i].as_str()).as_str()) {
                        Some(n) => {
                            r.push(n);
                        },
                        None => {},
                    }
                    i += 1;
                }
                assert(all.take(parts@.len() as int) =~= all);
            },
            None => {},
        },
        None => {},
    }
    r
}

/// A number kept within a range that is one.
pub open spec fn kept_within(wanted: i64, min: Option<i64>, max: Option<i64>) -> i64 {
    match (min, max) {
        (Some(lo), Some(hi)) => if lo > hi {
            wanted
        } else if wanted < lo {
            lo
        } else if wanted > hi {
            hi
        } else {
            wanted
        },
        _ => wanted,
    }
}

/// Numbers as a list: `[0, 1]`.
pub open spec fn listed(numbers: Seq<i64>) -> Seq<char> {
    "["@ + text::joined(numbers.map_values(|n: i64| number::signed(n as int)), ", "@) + "]"@
}

fn print_list(numbers: &Vec<i64>) -> (r: String)
    ensures
        r@ == listed(numbers@),
{
    let ghost f = |n: i64| number::signed(n as int);
    let mut parts: Vec<String> = Vec::new();
    let mut i: usize = 0;
    while i < numbers.len()
        invariant
            i <= numbers@.len(),
            f == (|n: i64| number::signed(n as int)),
            text::texts(parts@) == numbers@.take(i as int).map_values(f),
        decreases numbers@.len() - i,
    {
        let p = number::print_signed(numbers[i]);
        proof {
            text::texts_push(parts@, p);
            assert(numbers@.take(i + 1).map_values(f) =~= numbers@.take(i as int).map_values(
                f,
            ).push(p@));
        }
        parts.push(p);
        i += 1;
    }
    assert(numbers@.take(numbers@.len() as int) =~= numbers@);
    text::cat3("[", text::join(parts.as_slice(), ", ").as_str(), "]")
}

impl FirmwareAttr {
    /// Build from an attribute's files.
    pub fn from_files(name: &str, owned_by: Option<Owner>, files: &AttrFiles) -> (r: Option<Self>)
        ensures
            match attr_in(name@, owned_by, *files) {
                Some(v) => r is Some && r->0@ == v,
                None => r is None,
            },
    {
        match &files.current_value {
            None => None,
            Some(f) => Some(
                FirmwareAttr {
                    name: name.to_string(),
                    current: read_number(&files.current_value),
                    min: read_number(&files.min_value),
                    max: read_number(&files.max_value),
                    choices: read_choices(&files.possible_values),
                    writable: f.mode & 0x80 != 0,
                    owned_by,
                },
            ),
        }
    }

    /// The value to write for `wanted` (clamped to the range), or why it
    /// can't be written.
    pub fn accept(&self, wanted: i64) -> (r: Result<i64, String>)
        ensures
            match accepted(self@, wanted) {
                Ok(v) => r == Ok::<i64, String>(v),
                Err(why) => r is Err && r->Err_0@ == why,
            },
    {
        match self.owned_by {
            Some(owner) => {
                return Err(
                    text::cat4(self.name.as_str(), " (managed by ", owner.to_word(), ")"),
                );
            },
            None => {},
        }
        if !self.writable {
            return Err(text::cat2(self.name.as_str(), " (read-only)"));
        }
        if self.choices.len() > 0 {
            let mut i: usize = 0;
            while i < self.choices.len()
                invariant
                    i <= self.choices@.len(),
                    self.owned_by is None,
                    self.writable,
                    self.choices@.len() > 0,
                    forall|k: int| 0 <= k < i ==> self.choices@[k] != wanted,
                decreases self.choices@.len() - i,
            {
                if self.choices[i] == wanted {
                    return Ok(wanted);
                }
                i += 1;
            }
            return Err(
                text::cat6(
                    self.name.as_str(),
                    " (takes ",
                    print_list(&self.choices).as_str(),
                    ", not ",
                    number::print_signed(wanted).as_str(),
                    ")",
                ),
            );
        }
        Ok(
            match (self.min, self.max) {
                (Some(lo), Some(hi)) => if lo > hi {
                    wanted
                } else if wanted < lo {
                    lo
                } else if wanted > hi {
                    hi
                } else {
                    wanted
                },
                _ => wanted,
            },
        )
    }
}

/// What a firmware attribute takes for a wanted value: nothing where another
/// component owns it or it is read-only; one of its choices where it has some;
/// else the value, kept within its range.
pub open spec fn accepted(a: FirmwareAttrView, wanted: i64) -> Result<i64, Seq<char>> {
    if a.owned_by is Some {
        Err(a.name + " (managed by "@ + a.owned_by->0.word() + ")"@)
    } else if !a.writable {
        Err(a.name + " (read-only)"@)
    } else if a.choices.len() > 0 {
        if a.choices.contains(wanted) {
            Ok(wanted)
        } else {
            Err(
                a.name + " (takes "@ + listed(a.choices) + ", not "@ + number::signed(
                    wanted as int,
                ) + ")"@,
            )
        }
    } else {
        Ok(kept_within(wanted, a.min, a.max))
    }
}

/// An attribute that is written takes only values it can: one of its choices
/// where it has some, a value in its range where it has one; and what it
/// takes it takes again, unchanged.
pub proof fn accepts_only_what_it_can_take(a: FirmwareAttrView, wanted: i64)
    ensures
        match accepted(a, wanted) {
            Ok(v) => {
                &&& a.writable && a.owned_by is None
                &&& a.choices.len() > 0 ==> a.choices.contains(v)
                &&& a.choices.len() == 0 ==> match (a.min, a.max) {
                    (Some(lo), Some(hi)) => lo <= hi ==> lo <= v <= hi,
                    _ => v == wanted,
                }
                &&& accepted(a, v) == Ok::<i64, Seq<char>>(v)
            },
            Err(_) => !a.writable || a.owned_by is Some || (a.choices.len() > 0
                && !a.choices.contains(wanted)),
        },
{
}

#[derive(Debug, Clone, PartialEq)]
pub struct PlatformControls {
    pub power_modes: Vec<String>,
    pub power_mode: Option<String>,
    pub power_owner: Option<Owner>,
    pub charge_limit: Option<u8>,
    pub attributes: Vec<FirmwareAttr>,
    pub gpu_modes: Vec<String>,
    pub gpu_mode: Option<String>,
    pub gpu_owner: Option<Owner>,
}

pub struct PlatformControlsView {
    pub power_modes: Seq<Seq<char>>,
    pub power_mode: Option<Seq<char>>,
    pub power_owner: Option<Owner>,
    pub charge_limit: Option<u8>,
    pub attributes: Seq<FirmwareAttrView>,
    pub gpu_modes: Seq<Seq<char>>,
    pub gpu_mode: Option<Seq<char>>,
    pub gpu_owner: Option<Owner>,
}

impl View for PlatformControls {
    type V = PlatformControlsView;

    open spec fn view(&self) -> PlatformControlsView {
        PlatformControlsView {
            power_modes: text::texts(self.power_modes@),
            power_mode: opt_text(self.power_mode),
            power_owner: self.power_owner,
            charge_limit: self.charge_limit,
            attributes: seqs::views(self.attributes@),
            gpu_modes: text::texts(self.gpu_modes@),
            gpu_mode: opt_text(self.gpu_mode),
            gpu_owner: self.gpu_owner,
        }
    }
}

impl Default for PlatformControls {
    fn default() -> (r: Self)
        ensures
            r@ == PlatformControlsView::none(),
    {
        let r = PlatformControls {
            power_modes: Vec::new(),
            power_mode: None,
            power_owner: None,
            charge_limit: None,
            attributes: Vec::new(),
            gpu_modes: Vec::new(),
            gpu_mode: None,
            gpu_owner: None,
        };
        assert(text::texts(r.power_modes@) =~= seq![]);
        assert(text::texts(r.gpu_modes@) =~= seq![]);
        assert(seqs::views(r.attributes@) =~= seq![]);
        r
    }
}

impl PlatformControlsView {
    /// No control at all.
    pub open spec fn none() -> Self {
        PlatformControlsView {
            power_modes: seq![],
            power_mode: None,
            power_owner: None,
            charge_limit: None,
            attributes: seq![],
            gpu_modes: seq![],
            gpu_mode: None,
            gpu_owner: None,
        }
    }
}

/// Where a known fact comes from.
#[derive(Debug, Clone, PartialEq)]
pub enum Source {
    /// Seen on the hardware.
    Verified(String),
    /// Read in a reference.
    Reference(String),
    /// Said by the user.
    User,
}

pub enum SourceView {
    Verified(Seq<char>),
    Reference(Seq<char>),
    User,
}

impl View for Source {
    type V = SourceView;

    open spec fn view(&self) -> SourceView {
        match self {
            Source::Verified(s) => SourceView::Verified(s@),
            Source::Reference(s) => SourceView::Reference(s@),
            Source::User => SourceView::User,
        }
    }
}

pub fn copy_source(s: &Source) -> (r: Source)
    ensures
        r@ == s@,
{
    match s {
        Source::Verified(t) => Source::Verified(t.clone()),
        Source::Reference(t) => Source::Reference(t.clone()),
        Source::User => Source::User,
    }
}

/// A knowledge fact the model used, and where it came from.
#[derive(Debug, Clone, PartialEq)]
pub struct Note {
    pub what: String,
    pub source: Source,
}

pub struct NoteView {
    pub what: Seq<char>,
    pub source: SourceView,
}

impl View for Note {
    type V = NoteView;

    open spec fn view(&self) -> NoteView {
        NoteView { what: self.what@, source: self.source@ }
    }
}

/// What the firmware calls the machine.
#[derive(Debug, Clone, PartialEq, Eq)]
pub struct Identity {
    pub product: String,
    pub board: String,
    pub bios: String,
}

pub struct IdentityView {
    pub product: Seq<char>,
    pub board: Seq<char>,
    pub bios: Seq<char>,
}

impl View for Identity {
    type V = IdentityView;

    open spec fn view(&self) -> IdentityView {
        IdentityView { product: self.product@, board: self.board@, bios: self.bios@ }
    }
}

pub struct CpuInfoView {
    pub model: Seq<char>,
    pub available_governors: Seq<Seq<char>>,
    pub available_epp: Seq<Seq<char>>,
    pub rest: Seq<char>,
}

impl View for CpuInfo {
    type V = CpuInfoView;

    open spec fn view(&self) -> CpuInfoView {
        CpuInfoView {
            model: self.model@,
            available_governors: text::texts(self.available_governors@),
            available_epp: text::texts(self.available_epp@),
            rest: self.rest@,
        }
    }
}

pub(crate) fn copy_cpu(cpu: &CpuInfo) -> (r: CpuInfo)
    ensures
        r@ == cpu@,
{
    CpuInfo {
        model: cpu.model.clone(),
        available_governors: text::copy_list(cpu.available_governors.as_slice()),
        available_epp: text::copy_list(cpu.available_epp.as_slice()),
        rest: cpu.rest.clone(),
    }
}

#[derive(Debug, Clone, PartialEq)]
pub struct HardwareModel {
    pub identity: Identity,
    pub platform: String,
    pub cpu: CpuInfo,
    pub fans: Vec<FanOutput>,
    pub sensors: Vec<Sensor>,
    pub gpus: Vec<Gpu>,
    pub lighting: Vec<LightingDevice>,
    pub controls: PlatformControls,
    pub fan_owner: Owner,
    pub notes: Vec<Note>,
}

pub struct HardwareModelView {
    pub identity: IdentityView,
    pub platform: Seq<char>,
    pub cpu: CpuInfoView,
    pub fans: Seq<FanOutputView>,
    pub sensors: Seq<SensorView>,
    pub gpus: Seq<GpuView>,
    pub lighting: Seq<LightingDeviceView>,
    pub controls: PlatformControlsView,
    pub fan_owner: Owner,
    pub notes: Seq<NoteView>,
}

impl View for HardwareModel {
    type V = HardwareModelView;

    open spec fn view(&self) -> HardwareModelView {
        HardwareModelView {
            identity: self.identity@,
            platform: self.platform@,
            cpu: self.cpu@,
            fans: seqs::views(self.fans@),
            sensors: seqs::views(self.sensors@),
            gpus: seqs::views(self.gpus@),
            lighting: seqs::views(self.lighting@),
            controls: self.controls@,
            fan_owner: self.fan_owner,
            notes: seqs::views(self.notes@),
        }
    }
}

/// Who drives the fans: CoolerControl while its daemon runs (it drives every
/// fan it knows), else asusd where it stores the curves, else OmaAsus where
/// an output takes a duty, else the firmware.
pub open spec fn owner_of(fans: Seq<FanOutputView>, coolercontrold: bool) -> Owner {
    if coolercontrold {
        Owner::CoolerControl
    } else if exists|i: int|
        0 <= i < fans.len() && (#[trigger] fans[i]).backend is AsusdCurve {
        Owner::Asusd
    } else if exists|i: int| 0 <= i < fans.len() && (#[trigger] fans[i]).caps.duty {
        Owner::OmaAsus
    } else {
        Owner::Firmware
    }
}

pub fn fan_owner(fans: &Vec<FanOutput>, coolercontrold: bool) -> (r: Owner)
    ensures
        r == owner_of(seqs::views(fans@), coolercontrold),
{
    if coolercontrold {
        return Owner::CoolerControl;
    }
    let ghost all = seqs::views(fans@);
    let mut duty = false;
    let mut i: usize = 0;
    while i < fans.len()
        invariant
            i <= fans@.len(),
            !coolercontrold,
            all == seqs::views(fans@),
            forall|k: int| 0 <= k < i ==> !((#[trigger] all[k]).backend is AsusdCurve),
            duty == exists|k: int| 0 <= k < i && (#[trigger] all[k]).caps.duty,
        decreases fans@.len() - i,
    {
        assert(all[i as int] == fans@[i as int]@);
        match &fans[i].backend {
            FanBackend::AsusdCurve { .. } => {
                return Owner::Asusd;
            },
            _ => {},
        }
        if fans[i].caps.duty {
            duty = true;
        }
        i += 1;
    }
    if duty {
        Owner::OmaAsus
    } else {
        Owner::Firmware
    }
}

/// The fans of an id.
pub open spec fn fan_has(id: Seq<char>) -> spec_fn(FanOutput) -> bool {
    |f: FanOutput| f.id.0@ == id
}

/// The sensors of an id.
pub open spec fn sensor_has(id: Seq<char>) -> spec_fn(Sensor) -> bool {
    |s: Sensor| s.id.0@ == id
}

/// The sensors of a role.
pub open spec fn measures(role: SensorRole) -> spec_fn(Sensor) -> bool {
    |s: Sensor| s.role == role
}

/// The attributes of a name.
pub open spec fn attr_has(name: Seq<char>) -> spec_fn(FirmwareAttr) -> bool {
    |a: FirmwareAttr| a.name@ == name
}

impl HardwareModel {
    /// Who drives the fans with CoolerControl's daemon running or not: the
    /// field says what detection found, and the daemon starts and stops.
    pub fn fan_owner_now(&self, coolercontrold: bool) -> (r: Owner)
        ensures
            r == owner_of(self@.fans, coolercontrold),
    {
        fan_owner(&self.fans, coolercontrold)
    }

    pub fn fan(&self, id: &str) -> (r: Option<&FanOutput>)
        ensures
            match seqs::first_where(self.fans@, fan_has(id@)) {
                Some(i) => r == Some(&self.fans@[i]),
                None => r is None,
            },
    {
        let mut i: usize = 0;
        while i < self.fans.len()
            invariant
                i <= self.fans@.len(),
                forall|k: int| 0 <= k < i ==> !fan_has(id@)(#[trigger] self.fans@[k]),
            decreases self.fans@.len() - i,
        {
            if text::same(self.fans[i].id.0.as_str(), id) {
                proof {
                    seqs::first_where_is(self.fans@, fan_has(id@), i as int);
                }
                return Some(&self.fans[i]);
            }
            i += 1;
        }
        proof {
            seqs::first_where_none(self.fans@, fan_has(id@));
        }
        None
    }

    pub fn sensor(&self, id: &str) -> (r: Option<&Sensor>)
        ensures
            match seqs::first_where(self.sensors@, sensor_has(id@)) {
                Some(i) => r == Some(&self.sensors@[i]),
                None => r is None,
            },
    {
        let mut i: usize = 0;
        while i < self.sensors.len()
            invariant
                i <= self.sensors@.len(),
                forall|k: int| 0 <= k < i ==> !sensor_has(id@)(#[trigger] self.sensors@[k]),
            decreases self.sensors@.len() - i,
        {
            if text::same(self.sensors[i].id.0.as_str(), id) {
                proof {
                    seqs::first_where_is(self.sensors@, sensor_has(id@), i as int);
                }
                return Some(&self.sensors[i]);
            }
            i += 1;
        }
        proof {
            seqs::first_where_none(self.sensors@, sensor_has(id@));
        }
        None
    }

    /// The first sensor with this role.
    pub fn sensor_for(&self, role: SensorRole) -> (r: Option<&Sensor>)
        ensures
            match seqs::first_where(self.sensors@, measures(role)) {
                Some(i) => r == Some(&self.sensors@[i]),
                None => r is None,
            },
    {
        let mut i: usize = 0;
        while i < self.sensors.len()
            invariant
                i <= self.sensors@.len(),
                forall|k: int| 0 <= k < i ==> !measures(role)(#[trigger] self.sensors@[k]),
            decreases self.sensors@.len() - i,
        {
            if self.sensors[i].role == role {
                proof {
                    seqs::first_where_is(self.sensors@, measures(role), i as int);
                }
                return Some(&self.sensors[i]);
            }
            i += 1;
        }
        proof {
            seqs::first_where_none(self.sensors@, measures(role));
        }
        None
    }

    pub fn attribute(&self, name: &str) -> (r: Option<&FirmwareAttr>)
        ensures
            match seqs::first_where(self.controls.attributes@, attr_has(name@)) {
                Some(i) => r == Some(&self.controls.attributes@[i]),
                None => r is None,
            },
    {
        let all = &self.controls.attributes;
        let mut i: usize = 0;
        while i < all.len()
            invariant
                i <= all@.len(),
                all@ == self.controls.attributes@,
                forall|k: int| 0 <= k < i ==> !attr_has(name@)(#[trigger] all@[k]),
            decreases all@.len() - i,
        {
            if text::same(all[i].name.as_str(), name) {
                proof {
                    seqs::first_where_is(all@, attr_has(name@), i as int);
                }
                return Some(&all[i]);
            }
            i += 1;
        }
        proof {
            seqs::first_where_none(all@, attr_has(name@));
        }
        None
    }
}

/// CoolerControl's daemon decides alone while it runs; without it no output
/// belongs to it.
pub proof fn coolercontrol_owns_while_it_runs(fans: Seq<FanOutputView>, coolercontrold: bool)
    ensures
        owner_of(fans, coolercontrold) == Owner::CoolerControl <==> coolercontrold,
{
}

} // verus!
