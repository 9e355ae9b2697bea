//! Profile application: an ordered pipeline over what the machine has.
//!
//! Power mode first, because firmware applies the mode's own limits and fan
//! curves when it changes; then firmware limits once the new mode has settled;
//! then CPU and GPU. Fans follow through the fan engine. A newer apply
//! supersedes one still running, and every step reports whether it applied,
//! was skipped (and why) or failed.
//!
//! A run says what it waits for, and goes on with the answer.

use crate::cpu::{CpuControlState, CpuInfo};
use crate::lighting::{describe, describe_on, ModeNames};
use crate::model::{
    copy_cpu, CpuInfoView, FirmwareAttr, FirmwareAttrView, GpuVendor, GpuView, HardwareModel,
    LightingDevice, Owner,
};
use crate::nvidia::{NvidiaControl, NvidiaControlView};
use crate::power::match_power_mode;
use crate::profile::{LightingMode, Profile};
use crate::report::{
    cpu_readback_mismatch, profile_nvidia_control, CpuControlView, Report, ReportView,
};
use crate::strmap::StrMap;
use crate::{lighting, model, number, power, report, seqs, text};
use vstd::prelude::*;
use vstd::string::*;

verus! {

/// Why a profile is being applied.
#[derive(Debug, Clone, Copy, PartialEq, Eq, Structural)]
pub enum Origin {
    Manual,
    Automation,
    /// Again after resume, a charger change or a graphics switch.
    Reapply,
    /// The power mode was switched outside a profile (a keyboard shortcut,
    /// `powerprofilesctl`, a bar widget): the profile that carries it follows.
    PowerMode,
}

/// What an apply works with.
pub struct Context {
    /// The model, once it is built.
    pub model: Option<HardwareModel>,
    /// The processor as the inventory lists it.
    pub cpu: Option<CpuInfo>,
    /// What lighting modes are called.
    pub names: ModeNames,
    /// This apply's number; it stops when it's no longer the latest.
    pub this: u64,
}

impl Context {
    /// Whether a newer apply runs, by the latest apply's number.
    pub fn superseded(&self, latest: u64) -> (r: bool)
        ensures
            r == (latest != self.this),
    {
        latest != self.this
    }
}

/// Where a run asks whether it is still the latest.
#[derive(Debug, Clone, Copy, PartialEq, Eq, Structural)]
pub enum Checkpoint {
    Start,
    /// The new power mode has settled.
    Settled,
    BeforeCpu,
    BeforeGpu,
    BeforeLights,
}

/// What a run waits for.
#[derive(Debug, Clone, Copy, PartialEq, Eq, Structural)]
pub enum Stage {
    Checking(Checkpoint),
    AskingModes,
    SettingPower,
    Settling,
    /// The limit at a place of the list.
    ReadingLimit(usize),
    /// The limit at a place of the list, with this value.
    WritingLimit(usize, i64),
    AskingCpu,
    WritingCpu,
    ReadingCpu,
    AskingNvidia,
    ApplyingNvidia,
    /// The AMD GPU at a place of the list.
    WritingAmd(usize),
    OpeningBus,
    /// OpenRGB's devices, for the zone at a place.
    ListingOpenRgb(usize),
    ShowingOpenRgb(usize),
    ShowingLight(usize),
    Finished,
}

/// What is to be done, and answered.
#[derive(Debug, Clone, PartialEq)]
pub enum Action {
    /// Answer with the latest apply's number.
    Check,
    AskModes,
    SetPower { owner: Option<Owner>, mode: String },
    /// Wait so many milliseconds.
    Wait(u64),
    ReadAttr(String),
    WriteAttr { name: String, value: i64, via_asusd: bool },
    AskCpu,
    /// Write a processor's state.
    WriteCpu { info: CpuInfo, target: CpuControlState },
    ReadCpu,
    AskNvidia,
    ApplyNvidia(NvidiaControl),
    WriteAmd { path: String, level: String },
    OpenBus,
    ListOpenRgb,
    /// Show the mode of the zone at a place on OpenRGB's devices of a name.
    ShowOpenRgb { zone: usize, name: String },
    /// Show the mode of the zone at a place on the device at another.
    ShowLight { zone: usize, device: usize, brightness: Option<u8> },
    Nothing,
}

pub enum ActionView {
    Check,
    AskModes,
    SetPower { owner: Option<Owner>, mode: Seq<char> },
    Wait(u64),
    ReadAttr(Seq<char>),
    WriteAttr { name: Seq<char>, value: i64, via_asusd: bool },
    AskCpu,
    WriteCpu { info: CpuInfoView, target: CpuControlView },
    ReadCpu,
    AskNvidia,
    ApplyNvidia(NvidiaControlView),
    WriteAmd { path: Seq<char>, level: Seq<char> },
    OpenBus,
    ListOpenRgb,
    ShowOpenRgb { zone: usize, name: Seq<char> },
    ShowLight { zone: usize, device: usize, brightness: Option<u8> },
    Nothing,
}

impl View for Action {
    type V = ActionView;

    open spec fn view(&self) -> ActionView {
        match self {
            Action::Check => ActionView::Check,
            Action::AskModes => ActionView::AskModes,
            Action::SetPower { owner, mode } => ActionView::SetPower { owner: *owner, mode: mode@ },
            Action::Wait(ms) => ActionView::Wait(*ms),
            Action::ReadAttr(name) => ActionView::ReadAttr(name@),
            Action::WriteAttr { name, value, via_asusd } => ActionView::WriteAttr {
                name: name@,
                value: *value,
                via_asusd: *via_asusd,
            },
            Action::AskCpu => ActionView::AskCpu,
            Action::WriteCpu { info, target } => ActionView::WriteCpu {
                info: info@,
                target: target@,
            },
            Action::ReadCpu => ActionView::ReadCpu,
            Action::AskNvidia => ActionView::AskNvidia,
            Action::ApplyNvidia(nv) => ActionView::ApplyNvidia(nv@),
            Action::WriteAmd { path, level } => ActionView::WriteAmd { path: path@, level: level@ },
            Action::OpenBus => ActionView::OpenBus,
            Action::ListOpenRgb => ActionView::ListOpenRgb,
            Action::ShowOpenRgb { zone, name } => ActionView::ShowOpenRgb {
                zone: *zone,
                name: name@,
            },
            Action::ShowLight { zone, device, brightness } => ActionView::ShowLight {
                zone: *zone,
                device: *device,
                brightness: *brightness,
            },
            Action::Nothing => ActionView::Nothing,
        }
    }
}

/// Whether the dGPU can take settings now.
#[derive(Debug, Clone, Copy, PartialEq, Eq, Structural)]
pub enum NvidiaState {
    /// Asleep or off.
    Asleep,
    /// The graphics mode doesn't use it.
    ModeOff,
    /// The graphics are switching, or nobody can say.
    Settling,
    Ready,
}

/// What the graphics switching says of using the dGPU.
#[derive(Debug, Clone, Copy, PartialEq, Eq, Structural)]
pub enum Gate {
    Open,
    /// The graphics mode doesn't use it.
    ModeOff,
    /// The graphics are switching: whatever holds the dGPU is killed.
    Settling,
    /// Nobody can say.
    Unknown,
}

/// Whether the dGPU can take settings: it is awake, and free to be used.
pub open spec fn state_of(awake: bool, gate: Gate) -> NvidiaState {
    if !awake {
        NvidiaState::Asleep
    } else if gate == Gate::Open {
        NvidiaState::Ready
    } else if gate == Gate::ModeOff {
        NvidiaState::ModeOff
    } else {
        NvidiaState::Settling
    }
}

/// Whether the dGPU can take settings now. Waking it just to set limits would
/// cost battery, so where it sleeps nothing else counts.
pub fn nvidia_state(awake: bool, gate: Gate) -> (r: NvidiaState)
    ensures
        r == state_of(awake, gate),
{
    if !awake {
        return NvidiaState::Asleep;
    }
    match gate {
        Gate::Open => NvidiaState::Ready,
        Gate::ModeOff => NvidiaState::ModeOff,
        Gate::Settling | Gate::Unknown => NvidiaState::Settling,
    }
}

/// A write among several that failed, and why.
#[derive(Debug, Clone, PartialEq)]
pub struct WriteError {
    pub what: String,
    pub why: String,
}

/// The answer to an action.
#[derive(Debug, PartialEq)]
pub enum Answer {
    /// The latest apply's number.
    Latest(u64),
    /// Who owns power modes, and which there are.
    Modes { owner: Option<Owner>, modes: Vec<String> },
    /// Whether the power mode changed.
    Power(Result<bool, String>),
    Waited,
    /// A firmware attribute as it is now.
    Attr(Option<FirmwareAttr>),
    /// What the attribute is called, once it is written.
    AttrWritten(Result<String, String>),
    Cpu(CpuInfo),
    /// The writes that failed, or why there was none.
    CpuWritten(Result<Vec<WriteError>, String>),
    /// The processor's state, if it could be read.
    CpuState(Option<CpuControlState>),
    Nvidia(NvidiaState),
    /// The settings that failed, or why there was none.
    NvidiaApplied(Result<Vec<WriteError>, String>),
    AmdWritten(Result<(), String>),
    /// Whether the system bus is there.
    Bus(bool),
    /// Whether OpenRGB runs.
    OpenRgb(bool),
    /// How showing a mode went.
    Shown(Result<(), String>),
}

/// How far an apply has come.
#[derive(Debug, Clone, PartialEq)]
pub struct Run {
    pub at: Stage,
    /// Who owns power modes, and so firmware limits.
    pub owner: Option<Owner>,
    pub modes: Vec<String>,
    pub mode_changed: bool,
    /// The processor, once it is known.
    pub info: CpuInfo,
    /// The processor state to write.
    pub target: CpuControlState,
    pub bus: bool,
    /// Whether OpenRGB runs, once it is known.
    pub openrgb: Option<bool>,
    /// Only the NVIDIA settings are applied.
    pub nvidia_only: bool,
    pub report: Report,
}

pub struct RunView {
    pub at: Stage,
    pub owner: Option<Owner>,
    pub modes: Seq<Seq<char>>,
    pub mode_changed: bool,
    pub info: CpuInfoView,
    pub target: CpuControlView,
    pub bus: bool,
    pub openrgb: Option<bool>,
    pub nvidia_only: bool,
    pub report: ReportView,
}

impl View for Run {
    type V = RunView;

    open spec fn view(&self) -> RunView {
        RunView {
            at: self.at,
            owner: self.owner,
            modes: text::texts(self.modes@),
            mode_changed: self.mode_changed,
            info: self.info@,
            target: self.target@,
            bus: self.bus,
            openrgb: self.openrgb,
            nvidia_only: self.nvidia_only,
            report: self.report@,
        }
    }
}

impl RunView {
    /// Nothing done yet.
    pub open spec fn first() -> Self {
        RunView {
            at: Stage::Checking(Checkpoint::Start),
            owner: None,
            modes: seq![],
            mode_changed: false,
            info: CpuInfoView {
                model: seq![],
                available_governors: seq![],
                available_epp: seq![],
                rest: seq![],
            },
            target: CpuControlView { governor: seq![], epp: None, boost: None, rest: seq![] },
            bus: false,
            openrgb: None,
            nvidia_only: false,
            report: ReportView::empty(),
        }
    }

    pub open spec fn go(self, at: Stage) -> Self {
        RunView { at, ..self }
    }

    pub open spec fn apply(self, what: Seq<char>) -> Self {
        RunView { report: self.report.apply(what), ..self }
    }

    pub open spec fn skip(self, what: Seq<char>) -> Self {
        RunView { report: self.report.skip(what), ..self }
    }

    pub open spec fn fail(self, what: Seq<char>) -> Self {
        RunView { report: self.report.fail(what), ..self }
    }
}

/// The firmware limits among a profile's asusd settings: those that are
/// numbers, by their names.
pub open spec fn limits_in(settings: Seq<(Seq<char>, String)>) -> Seq<(Seq<char>, i64)>
    decreases settings.len(),
{
    if settings.len() == 0 {
        seq![]
    } else {
        let rest = limits_in(settings.drop_last());
        match number::i64_in(text::trimmed(settings.last().1@)) {
            Some(n) => rest.push((settings.last().0, n)),
            None => rest,
        }
    }
}

/// The firmware limits of a profile.
pub open spec fn limits_of(p: Profile) -> Seq<(Seq<char>, i64)> {
    limits_in(p.asusd.items())
}

fn find_limits(settings: &StrMap<String>) -> (r: Vec<(String, i64)>)
    ensures
        r@.map_values(|e: (String, i64)| (e.0@, e.1)) == limits_in(settings.items()),
        r@.len() == limits_in(settings.items()).len(),
{
    let ghost f = |e: (String, i64)| (e.0@, e.1);
    let ghost all = settings.items();
    let mut r: Vec<(String, i64)> = Vec::new();
    let mut i: usize = 0;
    assert(r@.map_values(f) =~= limits_in(all.take(0)));
    while i < settings.len()
        invariant
            i <= all.len(),
            all == settings.items(),
            f == (|e: (String, i64)| (e.0@, e.1)),
            r@.map_values(f) == limits_in(all.take(i as int)),
        decreases all.len() - i,
    {
        assert(all.take(i + 1).drop_last() =~= all.take(i as int));
        match number::read_i64(text::trim(settings.value(i).as_str()).as_str()) {
            Some(n) => {
                let ghost was = r@;
                let e = (settings.key(i).to_string(), n);
                r.push(e);
                assert(r@.map_values(f) =~= was.map_values(f).push(f(e)));
            },
            None => {},
        }
        i += 1;
    }
    assert(all.take(all.len() as int) =~= all);
    assert(r@.map_values(f).len() == r@.len());
    r
}

/// The PCI slots of AMD's GPUs.
pub open spec fn amd_slots(gpus: Seq<GpuView>) -> Seq<Seq<char>>
    decreases gpus.len(),
{
    if gpus.len() == 0 {
        seq![]
    } else {
        let rest = amd_slots(gpus.drop_last());
        match (gpus.last().vendor, gpus.last().pci_slot) {
            (GpuVendor::Amd, Some(slot)) => rest.push(slot),
            _ => rest,
        }
    }
}

/// The PCI slots of AMD's GPUs in the model.
pub open spec fn slots_of(cx: Context) -> Seq<Seq<char>> {
    match cx.model {
        Some(m) => amd_slots(m@.gpus),
        None => seq![],
    }
}

fn find_slots(cx: &Context) -> (r: Vec<String>)
    ensures
        text::texts(r@) == slots_of(*cx),
        r@.len() == slots_of(*cx).len(),
{
    let mut r: Vec<String> = Vec::new();
    match &cx.model {
        Some(m) => {
            let ghost all = m@.gpus;
            let mut i: usize = 0;
            assert(text::texts(r@) =~= amd_slots(all.take(0)));
            while i < m.gpus.len()
                invariant
                    i <= m.gpus@.len(),
                    all == seqs::views(m.gpus@),
                    text::texts(r@) == amd_slots(all.take(i as int)),
                decreases m.gpus@.len() - i,
            {
                assert(all.take(i + 1).drop_last() =~= all.take(i as int));
                assert(all[i as int] == m.gpus@[i as int]@);
                match (m.gpus[i].vendor, &m.gpus[i].pci_slot) {
                    (GpuVendor::Amd, Some(slot)) => {
                        let s = slot.clone();
                        proof {
                            text::texts_push(r@, s);
                        }
                        r.push(s);
                    },
                    _ => {},
                }
                i += 1;
            }
            assert(all.take(all.len() as int) =~= all);
        },
        None => {
            assert(text::texts(r@) =~= seq![]);
        },
    }
    assert(text::texts(r@).len() == r@.len());
    r
}

/// The lights of an id.
pub open spec fn light_has(id: Seq<char>) -> spec_fn(LightingDevice) -> bool {
    |d: LightingDevice| d.id.0@ == id
}

/// The place of the model's light of an id.
pub open spec fn light_at(cx: Context, id: Seq<char>) -> Option<int> {
    match cx.model {
        Some(m) => seqs::first_where(m.lighting@, light_has(id)),
        None => None,
    }
}

fn find_light(cx: &Context, id: &str) -> (r: Option<usize>)
    ensures
        match light_at(*cx, id@) {
            Some(i) => r is Some && r->0 == i && 0 <= i < cx.model->0.lighting@.len(),
            None => r is None,
        },
        r is Some ==> cx.model is Some,
{
    match &cx.model {
        Some(m) => {
            let mut i: usize = 0;
            while i < m.lighting.len()
                invariant
                    i <= m.lighting@.len(),
                    cx.model == Some(*m),
                    forall|k: int| 0 <= k < i ==> !light_has(id@)(#[trigger] m.lighting@[k]),
                decreases m.lighting@.len() - i,
            {
                if text::same(m.lighting[i].id.0.as_str(), id) {
                    proof {
                        seqs::first_where_is(m.lighting@, light_has(id@), i as int);
                    }
                    return Some(i);
                }
                i += 1;
            }
            proof {
                seqs::first_where_none(m.lighting@, light_has(id@));
            }
            None
        },
        None => None,
    }
}

/// How long a new power mode takes to settle, in milliseconds.
pub const SETTLE: u64 = 1000;

/// The zones of a profile's lighting, by their keys.
pub open spec fn zones_of(p: Profile) -> Seq<(Seq<char>, LightingMode)> {
    p.lighting.zones.items()
}

/// The OpenRGB name in a zone's key.
pub open spec fn openrgb_name(key: Seq<char>) -> Option<Seq<char>> {
    text::without_start(key, "openrgb:"@)
}

/// Graphics mode: switching can log you out or need a reboot, so a profile
/// never does it on its own.
pub open spec fn to_graphics(p: Profile, run: RunView) -> RunView {
    match p.gfx_mode {
        Some(mode) => run.skip("graphics mode "@ + mode@ + " (switch it on the ASUS page)"@),
        None => run,
    }.go(Stage::Finished)
}

/// The zones from a place on: those that no device shows are reported, and
/// the first that one shows is waited for.
pub open spec fn to_zone(p: Profile, cx: Context, run: RunView, i: int) -> RunView
    decreases zones_of(p).len() - i,
{
    let zones = zones_of(p);
    if i >= zones.len() {
        to_graphics(p, run)
    } else {
        let key = zones[i].0;
        match openrgb_name(key) {
            Some(name) => match run.openrgb {
                None => run.go(Stage::ListingOpenRgb(i as usize)),
                Some(true) => run.go(Stage::ShowingOpenRgb(i as usize)),
                Some(false) => to_zone(
                    p,
                    cx,
                    run.skip(name + " (OpenRGB isn't running)"@),
                    i + 1,
                ),
            },
            None => match light_at(cx, key) {
                Some(k) => if run.bus {
                    run.go(Stage::ShowingLight(i as usize))
                } else {
                    to_zone(
                        p,
                        cx,
                        run.fail(cx.model->0.lighting@[k].label@ + ": no system bus"@),
                        i + 1,
                    )
                },
                None => to_zone(p, cx, run.skip(key + " (not on this machine)"@), i + 1),
            },
        }
    }
}

/// Lighting, on the devices this machine has.
pub open spec fn to_lights(p: Profile, run: RunView) -> RunView {
    if zones_of(p).len() == 0 {
        to_graphics(p, run)
    } else {
        run.go(Stage::OpeningBus)
    }
}

/// The AMD GPUs from a place on.
pub open spec fn to_slot(cx: Context, run: RunView, i: int) -> RunView {
    if i < slots_of(cx).len() {
        run.go(Stage::WritingAmd(i as usize))
    } else {
        run.go(Stage::Checking(Checkpoint::BeforeLights))
    }
}

/// The AMD GPUs.
pub open spec fn to_amd(p: Profile, cx: Context, run: RunView) -> RunView {
    if run.nvidia_only {
        run.go(Stage::Finished)
    } else if p.gpu.amd_perf_level is None {
        run.go(Stage::Checking(Checkpoint::BeforeLights))
    } else if slots_of(cx).len() == 0 {
        to_slot(cx, run.skip("AMD GPU (none here)"@), 0)
    } else {
        to_slot(cx, run, 0)
    }
}

/// The NVIDIA settings, where the dGPU can take them now.
pub open spec fn to_nvidia(p: Profile, cx: Context, run: RunView) -> RunView {
    match p.gpu.nvidia {
        Some(_) => run.go(Stage::AskingNvidia),
        None => to_amd(p, cx, run),
    }
}

/// What is known of the processor: the model's answer, else the inventory's.
pub open spec fn known_cpu(cx: Context) -> Option<CpuInfoView> {
    match cx.model {
        Some(m) => Some(m@.cpu),
        None => match cx.cpu {
            Some(c) => Some(c@),
            None => None,
        },
    }
}

/// Whether a processor does not offer an EPP. A one-entry list is the governor
/// pinning EPP, not the CPU's choices.
pub open spec fn lacks_epp(info: CpuInfoView, epp: Option<Seq<char>>) -> bool {
    epp is Some && info.available_epp.len() > 1 && !info.available_epp.contains(epp->0)
}

/// The processor state to write for a wanted one: a governor that is there,
/// the first where the wanted one is not, and no EPP that is not.
pub open spec fn target_of(wanted: CpuControlView, info: CpuInfoView) -> CpuControlView {
    CpuControlView {
        governor: if info.available_governors.contains(wanted.governor) {
            wanted.governor
        } else if info.available_governors.len() > 0 {
            info.available_governors[0]
        } else {
            seq![]
        },
        epp: if lacks_epp(info, wanted.epp) {
            None
        } else {
            wanted.epp
        },
        boost: wanted.boost,
        rest: wanted.rest,
    }
}

/// The processor, once it is known. What is left out is said, rather than
/// silently writing less than the profile asks for.
pub open spec fn with_cpu(run: RunView, wanted: CpuControlView, info: CpuInfoView) -> RunView {
    let told = if lacks_epp(info, wanted.epp) {
        run.skip(
            "EPP "@ + wanted.epp->0 + " (this CPU offers "@ + text::joined(
                info.available_epp,
                " "@,
            ) + ")"@,
        )
    } else {
        run
    };
    RunView { info, target: target_of(wanted, info), ..told }.go(Stage::WritingCpu)
}

/// CPU governor, EPP and boost.
pub open spec fn to_cpu(p: Profile, cx: Context, run: RunView) -> RunView {
    match p.cpu.control {
        Some(wanted) => match known_cpu(cx) {
            Some(info) => with_cpu(run, wanted@, info),
            None => run.go(Stage::AskingCpu),
        },
        None => run.go(Stage::Checking(Checkpoint::BeforeGpu)),
    }
}

/// The firmware limits from a place on.
pub open spec fn to_limit(p: Profile, run: RunView, i: int) -> RunView {
    if i < limits_of(p).len() {
        run.go(Stage::ReadingLimit(i as usize))
    } else {
        run.go(Stage::Checking(Checkpoint::BeforeCpu))
    }
}

/// Firmware limits, once the firmware has put the new mode's own in place.
pub open spec fn to_limits(p: Profile, run: RunView) -> RunView {
    if limits_of(p).len() > 0 && run.mode_changed {
        run.go(Stage::Settling)
    } else {
        to_limit(p, run, 0)
    }
}

/// Power mode, through whichever component owns it here.
pub open spec fn to_power(p: Profile, run: RunView) -> RunView {
    match p.cpu.power_mode {
        None => to_limits(p, run),
        Some(wanted) => if power::best_match(wanted@, run.modes) is Some {
            run.go(Stage::SettingPower)
        } else if run.modes.len() == 0 {
            to_limits(
                p,
                run.skip(
                    "power mode "@ + wanted@ + " (nothing controls power modes here)"@,
                ),
            )
        } else {
            to_limits(p, run.skip("power mode "@ + wanted@ + " (not on this machine)"@))
        },
    }
}

/// Who owns power modes, and so firmware limits, where asusd keeps its own
/// copy: the model's answer. It can still be building in the first seconds
/// after launch; a profile applied then asks the daemons directly rather than
/// drop its power mode or go behind asusd's back.
pub open spec fn to_modes(p: Profile, cx: Context, run: RunView) -> RunView {
    match cx.model {
        Some(m) => to_power(
            p,
            RunView {
                owner: m@.controls.power_owner,
                modes: m@.controls.power_modes,
                ..run
            },
        ),
        None => if p.cpu.power_mode is Some || p.asusd.items().len() > 0 {
            run.go(Stage::AskingModes)
        } else {
            to_power(p, RunView { owner: None, modes: seq![], ..run })
        },
    }
}

/// Failed writes, one after the other.
pub open spec fn errors_text(errs: Seq<WriteError>) -> Seq<char> {
    text::joined(errs.map_values(|e: WriteError| e.what@ + " ("@ + e.why@ + ")"@), ", "@)
}

/// A live attribute with the owner that the model knows of.
pub open spec fn owned_attr(
    cx: Context,
    name: Seq<char>,
    attr: FirmwareAttrView,
) -> FirmwareAttrView {
    FirmwareAttrView {
        owned_by: match cx.model {
            Some(m) => match seqs::first_where(
                m.controls.attributes@,
                model::attr_has(name),
            ) {
                Some(k) => m.controls.attributes@[k].owned_by,
                None => None,
            },
            None => None,
        },
        ..attr
    }
}

/// A firmware limit as it is now: skipped where it is not there or does not
/// take the value, left alone where it has it, else written.
pub open spec fn with_attr(
    p: Profile,
    cx: Context,
    run: RunView,
    i: int,
    attr: Option<FirmwareAttr>,
) -> RunView {
    let name = limits_of(p)[i].0;
    match attr {
        None => to_limit(p, run.skip(name + " (not on this machine)"@), i + 1),
        Some(a) => {
            let live = owned_attr(cx, name, a@);
            match model::accepted(live, limits_of(p)[i].1) {
                Err(why) => to_limit(p, run.skip(why), i + 1),
                Ok(v) => if a.current == Some(v) {
                    to_limit(p, run, i + 1)
                } else {
                    run.go(Stage::WritingLimit(i as usize, v))
                },
            }
        },
    }
}

/// A run that a newer one supersedes.
pub open spec fn stopped(run: RunView) -> RunView {
    RunView { report: ReportView { superseded: true, ..run.report }, ..run }.go(Stage::Finished)
}

/// What follows a checkpoint.
pub open spec fn past(p: Profile, cx: Context, run: RunView, c: Checkpoint) -> RunView {
    match c {
        Checkpoint::Start => to_modes(p, cx, run),
        Checkpoint::Settled => to_limit(p, run, 0),
        Checkpoint::BeforeCpu => to_cpu(p, cx, run),
        Checkpoint::BeforeGpu => to_nvidia(p, cx, run),
        Checkpoint::BeforeLights => to_lights(p, run),
    }
}

/// How a processor state is written in a report.
pub open spec fn cpu_text(target: CpuControlView) -> Seq<char> {
    match target.epp {
        Some(e) => "CPU "@ + target.governor + "/"@ + e,
        None => "CPU "@ + target.governor,
    }
}

/// A run after an answer. One that does not answer what it waits for changes
/// nothing.
pub open spec fn after(p: Profile, cx: Context, run: RunView, answer: Answer) -> RunView {
    match (run.at, answer) {
        (Stage::Checking(c), Answer::Latest(n)) => if n != cx.this {
            stopped(run)
        } else {
            past(p, cx, run, c)
        },
        (Stage::AskingModes, Answer::Modes { owner, modes }) => to_power(
            p,
            RunView { owner, modes: text::texts(modes@), ..run },
        ),
        (Stage::SettingPower, Answer::Power(r)) => {
            let mode = run.modes[power::best_match(p.cpu.power_mode->0@, run.modes)->0];
            match r {
                Ok(true) => to_limits(
                    p,
                    RunView { mode_changed: true, ..run }.apply("power mode "@ + mode),
                ),
                Ok(false) => to_limits(p, run),
                Err(e) => to_limits(p, run.fail("power mode: "@ + e@)),
            }
        },
        (Stage::Settling, Answer::Waited) => run.go(Stage::Checking(Checkpoint::Settled)),
        (Stage::ReadingLimit(i), Answer::Attr(a)) => with_attr(p, cx, run, i as int, a),
        (Stage::WritingLimit(i, v), Answer::AttrWritten(r)) => to_limit(
            p,
            match r {
                Ok(label) => run.apply(label@ + " "@ + number::signed(v as int)),
                Err(e) => run.fail(limits_of(p)[i as int].0 + ": "@ + e@),
            },
            i + 1,
        ),
        (Stage::AskingCpu, Answer::Cpu(info)) => with_cpu(run, p.cpu.control->0@, info@),
        (Stage::WritingCpu, Answer::CpuWritten(r)) => match r {
            Ok(errs) => if errs@.len() == 0 {
                run.go(Stage::ReadingCpu)
            } else {
                run.fail("CPU: "@ + errs@[0].why@).go(Stage::Checking(Checkpoint::BeforeGpu))
            },
            Err(e) => run.fail("CPU: "@ + e@).go(Stage::Checking(Checkpoint::BeforeGpu)),
        },
        (Stage::ReadingCpu, Answer::CpuState(live)) => {
            let why = match live {
                Some(l) => report::mismatch(run.target, l@),
                None => None,
            };
            match why {
                None => run.apply(cpu_text(run.target)),
                Some(w) => run.fail("CPU: written, but the kernel reports "@ + w),
            }.go(Stage::Checking(Checkpoint::BeforeGpu))
        },
        (Stage::AskingNvidia, Answer::Nvidia(state)) => match state {
            NvidiaState::Asleep => to_amd(p, cx, run.skip("NVIDIA (asleep or off)"@)),
            NvidiaState::ModeOff => to_amd(
                p,
                cx,
                run.skip("NVIDIA (the graphics mode doesn't use it)"@),
            ),
            NvidiaState::Settling => {
                let told = run.skip("NVIDIA (graphics settling; applied once it has)"@);
                to_amd(
                    p,
                    cx,
                    RunView { report: ReportView { nvidia_deferred: true, ..told.report }, ..told },
                )
            },
            NvidiaState::Ready => run.go(Stage::ApplyingNvidia),
        },
        (Stage::ApplyingNvidia, Answer::NvidiaApplied(r)) => to_amd(
            p,
            cx,
            match r {
                Ok(errs) => if errs@.len() == 0 {
                    run.apply("NVIDIA"@)
                } else {
                    run.fail("NVIDIA: "@ + errors_text(errs@))
                },
                Err(e) => run.fail("NVIDIA: "@ + e@),
            },
        ),
        (Stage::WritingAmd(i), Answer::AmdWritten(r)) => to_slot(
            cx,
            match r {
                Ok(_) => run.apply("AMD GPU "@ + p.gpu.amd_perf_level->0@),
                Err(e) => run.fail("AMD GPU: "@ + e@),
            },
            i + 1,
        ),
        (Stage::OpeningBus, Answer::Bus(there)) => to_zone(p, cx, RunView { bus: there, ..run }, 0),
        (Stage::ListingOpenRgb(i), Answer::OpenRgb(runs)) => to_zone(
            p,
            cx,
            RunView { openrgb: Some(runs), ..run },
            i as int,
        ),
        (Stage::ShowingOpenRgb(i), Answer::Shown(r)) => to_zone(
            p,
            cx,
            match r {
                Ok(_) => run.apply(
                    openrgb_name(zones_of(p)[i as int].0)->0 + " "@ + lighting::described(
                        zones_of(p)[i as int].1,
                    ),
                ),
                Err(e) => run.skip(e@),
            },
            i + 1,
        ),
        (Stage::ShowingLight(i), Answer::Shown(r)) => to_zone(
            p,
            cx,
            match r {
                Ok(_) => {
                    let d = cx.model->0.lighting@[light_at(cx, zones_of(p)[i as int].0)->0];
                    run.apply(
                        d.label@ + " "@ + lighting::described_on(
                            d,
                            zones_of(p)[i as int].1,
                            cx.names,
                        ),
                    )
                },
                Err(e) => run.fail(e@),
            },
            i + 1,
        ),
        _ => run,
    }
}

/// What a run waits for.
pub open spec fn action_of(p: Profile, cx: Context, run: RunView) -> ActionView {
    match run.at {
        Stage::Checking(_) => ActionView::Check,
        Stage::AskingModes => ActionView::AskModes,
        Stage::SettingPower => ActionView::SetPower {
            owner: run.owner,
            mode: run.modes[power::best_match(p.cpu.power_mode->0@, run.modes)->0],
        },
        Stage::Settling => ActionView::Wait(SETTLE),
        Stage::ReadingLimit(i) => ActionView::ReadAttr(limits_of(p)[i as int].0),
        Stage::WritingLimit(i, v) => ActionView::WriteAttr {
            name: limits_of(p)[i as int].0,
            value: v,
            via_asusd: run.owner == Some(Owner::Asusd),
        },
        Stage::AskingCpu => ActionView::AskCpu,
        Stage::WritingCpu => ActionView::WriteCpu { info: run.info, target: run.target },
        Stage::ReadingCpu => ActionView::ReadCpu,
        Stage::AskingNvidia => ActionView::AskNvidia,
        Stage::ApplyingNvidia => ActionView::ApplyNvidia(report::complete(p.gpu.nvidia->0@)),
        Stage::WritingAmd(i) => ActionView::WriteAmd {
            path: "/sys/bus/pci/devices/"@ + slots_of(cx)[i as int]
                + "/power_dpm_force_performance_level"@,
            level: p.gpu.amd_perf_level->0@,
        },
        Stage::OpeningBus => ActionView::OpenBus,
        Stage::ListingOpenRgb(_) => ActionView::ListOpenRgb,
        Stage::ShowingOpenRgb(i) => ActionView::ShowOpenRgb {
            zone: i,
            name: openrgb_name(zones_of(p)[i as int].0)->0,
        },
        Stage::ShowingLight(i) => ActionView::ShowLight {
            zone: i,
            device: light_at(cx, zones_of(p)[i as int].0)->0 as usize,
            brightness: p.lighting.brightness_of(zones_of(p)[i as int].0),
        },
        Stage::Finished => ActionView::Nothing,
    }
}

/// Whether what a run waits for is there in the profile and on the machine.
pub open spec fn fits(p: Profile, cx: Context, run: RunView) -> bool {
    match run.at {
        Stage::SettingPower => p.cpu.power_mode is Some && power::best_match(
            p.cpu.power_mode->0@,
            run.modes,
        ) is Some,
        Stage::ReadingLimit(i) => i < limits_of(p).len(),
        Stage::WritingLimit(i, _) => i < limits_of(p).len(),
        Stage::AskingCpu | Stage::WritingCpu | Stage::ReadingCpu => p.cpu.control is Some,
        Stage::AskingNvidia | Stage::ApplyingNvidia => p.gpu.nvidia is Some,
        Stage::WritingAmd(i) => p.gpu.amd_perf_level is Some && i < slots_of(cx).len(),
        Stage::ListingOpenRgb(i) => i < zones_of(p).len() && openrgb_name(
            zones_of(p)[i as int].0,
        ) is Some,
        Stage::ShowingOpenRgb(i) => i < zones_of(p).len() && openrgb_name(
            zones_of(p)[i as int].0,
        ) is Some,
        Stage::ShowingLight(i) => i < zones_of(p).len() && openrgb_name(
            zones_of(p)[i as int].0,
        ) is None && light_at(cx, zones_of(p)[i as int].0) is Some,
        _ => true,
    }
}

fn print_errors(errs: &Vec<WriteError>) -> (r: String)
    ensures
        r@ == errors_text(errs@),
{
    let ghost f = |e: WriteError| e.what@ + " ("@ + e.why@ + ")"@;
    let mut parts: Vec<String> = Vec::new();
    let mut i: usize = 0;
    assert(text::texts(parts@) =~= errs@.take(0).map_values(f));
    while i < errs.len()
        invariant
            i <= errs@.len(),
            f == (|e: WriteError| e.what@ + " ("@ + e.why@ + ")"@),
            text::texts(parts@) == errs@.take(i as int).map_values(f),
        decreases errs@.len() - i,
    {
        let part = text::cat4(errs[i].what.as_str(), " (", errs[i].why.as_str(), ")");
        proof {
            text::texts_push(parts@, part);
            assert(errs@.take(i + 1).map_values(f) =~= errs@.take(i as int).map_values(f).push(
                f(errs@[i as int]),
            ));
        }
        parts.push(part);
        i += 1;
    }
    assert(errs@.take(errs@.len() as int) =~= errs@);
    text::join(parts.as_slice(), ", ")
}

fn copy_control(c: &CpuControlState) -> (r: CpuControlState)
    ensures
        r@ == c@,
{
    CpuControlState {
        governor: c.governor.clone(),
        epp: match &c.epp {
            Some(e) => Some(e.clone()),
            None => None,
        },
        boost: c.boost,
        rest: c.rest.clone(),
    }
}

impl Run {
    /// A run that applies a whole profile.
    pub fn start() -> (r: Self)
        ensures
            r@ == RunView::first(),
    {
        let r = Run {
            at: Stage::Checking(Checkpoint::Start),
            owner: None,
            modes: Vec::new(),
            mode_changed: false,
            info: CpuInfo {
                model: String::new(),
                available_governors: Vec::new(),
                available_epp: Vec::new(),
                rest: String::new(),
            },
            target: CpuControlState {
                governor: String::new(),
                epp: None,
                boost: None,
                rest: String::new(),
            },
            bus: false,
            openrgb: None,
            nvidia_only: false,
            report: Report::default(),
        };
        assert(r@.modes =~= seq![]);
        assert(r@.target.governor =~= seq![]);
        assert(r@.info.available_governors =~= seq![]);
        assert(r@.info.available_epp =~= seq![]);
        r
    }

    fn to_graphics(self, p: &Profile) -> (r: Self)
        ensures
            r@ == to_graphics(*p, self@),
    {
        let mut run = self;
        match &p.gfx_mode {
            Some(mode) => {
                run.report.skip(
                    text::cat3("graphics mode ", mode.as_str(), " (switch it on the ASUS page)"),
                );
            },
            None => {},
        }
        run.at = Stage::Finished;
        run
    }

    fn to_zone(self, p: &Profile, cx: &Context, from: usize) -> (r: Self)
        requires
            from <= zones_of(*p).len(),
        ensures
            r@ == to_zone(*p, *cx, self@, from as int),
            fits(*p, *cx, r@),
    {
        let zones = &p.lighting.zones;
        let mut run = self;
        let mut i = from;
        while i < zones.len()
            invariant
                from <= i <= zones_of(*p).len(),
                zones.items() == zones_of(*p),
                to_zone(*p, *cx, self@, from as int) == to_zone(*p, *cx, run@, i as int),
            decreases zones_of(*p).len() - i,
        {
            let key = zones.key(i);
            match text::strip_start(key, "openrgb:") {
                Some(name) => match run.openrgb {
                    None => {
                        run.at = Stage::ListingOpenRgb(i);
                        return run;
                    },
                    Some(true) => {
                        run.at = Stage::ShowingOpenRgb(i);
                        return run;
                    },
                    Some(false) => {
                        run.report.skip(text::cat2(name.as_str(), " (OpenRGB isn't running)"));
                    },
                },
                None => match find_light(cx, key) {
                    Some(k) => {
                        if run.bus {
                            run.at = Stage::ShowingLight(i);
                            return run;
                        }
                        match &cx.model {
                            Some(m) => {
                                run.report.fail(
                                    text::cat2(m.lighting[k].label.as_str(), ": no system bus"),
                                );
                            },
                            None => {},
                        }
                    },
                    None => {
                        run.report.skip(text::cat2(key, " (not on this machine)"));
                    },
                },
            }
            i += 1;
        }
        run.to_graphics(p)
    }

    fn to_lights(self, p: &Profile) -> (r: Self)
        ensures
            r@ == to_lights(*p, self@),
    {
        if p.lighting.zones.is_empty() {
            self.to_graphics(p)
        } else {
            let mut run = self;
            run.at = Stage::OpeningBus;
            run
        }
    }

    fn to_slot(self, p: &Profile, cx: &Context, i: usize) -> (r: Self)
        requires
            p.gpu.amd_perf_level is Some,
        ensures
            r@ == to_slot(*cx, self@, i as int),
            fits(*p, *cx, r@),
    {
        let mut run = self;
        run.at = if i < find_slots(cx).len() {
            Stage::WritingAmd(i)
        } else {
            Stage::Checking(Checkpoint::BeforeLights)
        };
        run
    }

    fn to_amd(self, p: &Profile, cx: &Context) -> (r: Self)
        ensures
            r@ == to_amd(*p, *cx, self@),
            fits(*p, *cx, r@),
    {
        let mut run = self;
        if run.nvidia_only {
            run.at = Stage::Finished;
            return run;
        }
        if p.gpu.amd_perf_level.is_none() {
            run.at = Stage::Checking(Checkpoint::BeforeLights);
            return run;
        }
        if find_slots(cx).len() == 0 {
            run.report.skip("AMD GPU (none here)".to_string());
        }
        run.to_slot(p, cx, 0)
    }

    fn nvidia_step(self, p: &Profile, cx: &Context) -> (r: Self)
        ensures
            r@ == to_nvidia(*p, *cx, self@),
            fits(*p, *cx, r@),
    {
        if p.gpu.nvidia.is_some() {
            let mut run = self;
            run.at = Stage::AskingNvidia;
            run
        } else {
            self.to_amd(p, cx)
        }
    }

    fn with_cpu(self, wanted: &CpuControlState, info: &CpuInfo) -> (r: Self)
        ensures
            r@ == with_cpu(self@, wanted@, info@),
    {
        let mut run = self;
        assert(info@.available_governors.len() == info.available_governors@.len());
        assert(info@.available_epp.len() == info.available_epp@.len());
        let governors = info.available_governors.as_slice();
        let governor = if text::holds(governors, wanted.governor.as_str()) {
            wanted.governor.clone()
        } else if governors.len() > 0 {
            assert(info@.available_governors[0] == governors@[0]@);
            governors[0].clone()
        } else {
            let none = String::new();
            assert(none@ =~= seq![]);
            none
        };
        let epp = match &wanted.epp {
            Some(e) => if info.available_epp.len() > 1 && !text::holds(
                info.available_epp.as_slice(),
                e.as_str(),
            ) {
                run.report.skip(
                    text::cat5(
                        "EPP ",
                        e.as_str(),
                        " (this CPU offers ",
                        text::join(info.available_epp.as_slice(), " ").as_str(),
                        ")",
                    ),
                );
                None
            } else {
                Some(e.clone())
            },
            None => None,
        };
        run.info = copy_cpu(info);
        run.target = CpuControlState {
            governor,
            epp,
            boost: wanted.boost,
            rest: wanted.rest.clone(),
        };
        run.at = Stage::WritingCpu;
        run
    }

    fn to_cpu(self, p: &Profile, cx: &Context) -> (r: Self)
        ensures
            r@ == to_cpu(*p, *cx, self@),
            fits(*p, *cx, r@),
    {
        match &p.cpu.control {
            Some(wanted) => match &cx.model {
                Some(m) => self.with_cpu(wanted, &m.cpu),
                None => match &cx.cpu {
                    Some(info) => self.with_cpu(wanted, info),
                    None => {
                        let mut run = self;
                        run.at = Stage::AskingCpu;
                        run
                    },
                },
            },
            None => {
                let mut run = self;
                run.at = Stage::Checking(Checkpoint::BeforeGpu);
                run
            },
        }
    }

    fn to_limit(self, p: &Profile, cx: &Context, i: usize) -> (r: Self)
        ensures
            r@ == to_limit(*p, self@, i as int),
            fits(*p, *cx, r@),
    {
        let mut run = self;
        run.at = if i < find_limits(&p.asusd).len() {
            Stage::ReadingLimit(i)
        } else {
            Stage::Checking(Checkpoint::BeforeCpu)
        };
        run
    }

    fn to_limits(self, p: &Profile, cx: &Context) -> (r: Self)
        ensures
            r@ == to_limits(*p, self@),
            fits(*p, *cx, r@),
    {
        if self.mode_changed && find_limits(&p.asusd).len() > 0 {
            let mut run = self;
            run.at = Stage::Settling;
            run
        } else {
            self.to_limit(p, cx, 0)
        }
    }

    fn to_power(self, p: &Profile, cx: &Context) -> (r: Self)
        ensures
            r@ == to_power(*p, self@),
            fits(*p, *cx, r@),
    {
        let mut run = self;
        assert(run@.modes.len() == run.modes@.len());
        match &p.cpu.power_mode {
            None => run.to_limits(p, cx),
            Some(wanted) => {
                if match_power_mode(wanted.as_str(), run.modes.as_slice()).is_some() {
                    run.at = Stage::SettingPower;
                    return run;
                }
                let why = if run.modes.len() == 0 {
                    " (nothing controls power modes here)"
                } else {
                    " (not on this machine)"
                };
                run.report.skip(text::cat3("power mode ", wanted.as_str(), why));
                run.to_limits(p, cx)
            },
        }
    }

    fn to_modes(self, p: &Profile, cx: &Context) -> (r: Self)
        ensures
            r@ == to_modes(*p, *cx, self@),
            fits(*p, *cx, r@),
    {
        let mut run = self;
        match &cx.model {
            Some(m) => {
                run.owner = m.controls.power_owner;
                run.modes = text::copy_list(m.controls.power_modes.as_slice());
                run.to_power(p, cx)
            },
            None => {
                if p.cpu.power_mode.is_some() || !p.asusd.is_empty() {
                    run.at = Stage::AskingModes;
                    return run;
                }
                run.owner = None;
                run.modes = Vec::new();
                assert(text::texts(run.modes@) =~= seq![]);
                run.to_power(p, cx)
            },
        }
    }

    fn with_attr(self, p: &Profile, cx: &Context, i: usize, attr: Option<FirmwareAttr>) -> (r: Self)
        requires
            i < limits_of(*p).len(),
        ensures
            r@ == with_attr(*p, *cx, self@, i as int, attr),
            fits(*p, *cx, r@),
    {
        let limits = find_limits(&p.asusd);
        assert(limits_of(*p)[i as int] == (limits@[i as int].0@, limits@[i as int].1));
        assert(i < limits.len());
        let name = limits[i].0.as_str();
        let wanted = limits[i].1;
        let mut run = self;
        match attr {
            None => {
                run.report.skip(text::cat2(name, " (not on this machine)"));
            },
            Some(live) => {
                let mut live = live;
                live.owned_by =
                match &cx.model {
                    Some(m) => match m.attribute(name) {
                        Some(a) => a.owned_by,
                        None => None,
                    },
                    None => None,
                };
                match live.accept(wanted) {
                    Err(why) => {
                        run.report.skip(why);
                    },
                    Ok(v) => if live.current != Some(v) {
                        run.at = Stage::WritingLimit(i, v);
                        return run;
                    },
                }
            },
        }
        run.to_limit(p, cx, i + 1)
    }

    fn past(self, p: &Profile, cx: &Context, c: Checkpoint) -> (r: Self)
        ensures
            r@ == past(*p, *cx, self@, c),
            fits(*p, *cx, r@),
    {
        match c {
            Checkpoint::Start => self.to_modes(p, cx),
            Checkpoint::Settled => self.to_limit(p, cx, 0),
            Checkpoint::BeforeCpu => self.to_cpu(p, cx),
            Checkpoint::BeforeGpu => self.nvidia_step(p, cx),
            Checkpoint::BeforeLights => self.to_lights(p),
        }
    }

    fn after_power(self, p: &Profile, cx: &Context, reply: Result<bool, String>) -> (r: Self)
        requires
            self.at == Stage::SettingPower,
            fits(*p, *cx, self@),
        ensures
            r@ == after(*p, *cx, self@, Answer::Power(reply)),
            fits(*p, *cx, r@),
    {
        let mut run = self;
        match reply {
            Ok(true) => match &p.cpu.power_mode {
                Some(wanted) => match match_power_mode(wanted.as_str(), run.modes.as_slice()) {
                    Some(mode) => {
                        proof {
                            power::match_is_offered(wanted@, run@.modes);
                        }
                        let what = text::cat2("power mode ", mode);
                        run.mode_changed = true;
                        run.report.apply(what);
                    },
                    None => {},
                },
                None => {},
            },
            Ok(false) => {},
            Err(e) => {
                run.report.fail(text::cat2("power mode: ", e.as_str()));
            },
        }
        run.to_limits(p, cx)
    }

    fn after_limit(
        self,
        p: &Profile,
        cx: &Context,
        i: usize,
        v: i64,
        reply: Result<String, String>,
    ) -> (r: Self)
        requires
            self.at == Stage::WritingLimit(i, v),
            fits(*p, *cx, self@),
        ensures
            r@ == after(*p, *cx, self@, Answer::AttrWritten(reply)),
            fits(*p, *cx, r@),
    {
        let limits = find_limits(&p.asusd);
        assert(limits_of(*p)[i as int] == (limits@[i as int].0@, limits@[i as int].1));
        assert(i < limits.len());
        let mut run = self;
        match reply {
            Ok(label) => {
                run.report.apply(
                    text::cat3(label.as_str(), " ", number::print_signed(v).as_str()),
                );
            },
            Err(e) => {
                run.report.fail(text::cat3(limits[i].0.as_str(), ": ", e.as_str()));
            },
        }
        run.to_limit(p, cx, i + 1)
    }

    fn after_cpu_write(self, reply: Result<Vec<WriteError>, String>) -> (r: Self)
        requires
            self.at == Stage::WritingCpu,
        ensures
            forall|p: Profile, cx: Context|
                r@ == #[trigger] after(p, cx, self@, Answer::CpuWritten(reply)),
    {
        let mut run = self;
        match reply {
            Ok(errs) => {
                if errs.len() == 0 {
                    run.at = Stage::ReadingCpu;
                    return run;
                }
                run.report.fail(text::cat2("CPU: ", errs[0].why.as_str()));
            },
            Err(e) => {
                run.report.fail(text::cat2("CPU: ", e.as_str()));
            },
        }
        run.at = Stage::Checking(Checkpoint::BeforeGpu);
        run
    }

    fn after_cpu_read(self, live: Option<CpuControlState>) -> (r: Self)
        requires
            self.at == Stage::ReadingCpu,
        ensures
            forall|p: Profile, cx: Context|
                r@ == #[trigger] after(p, cx, self@, Answer::CpuState(live)),
    {
        let mut run = self;
        let why = match &live {
            Some(l) => cpu_readback_mismatch(&run.target, l),
            None => None,
        };
        match why {
            None => {
                let what = match &run.target.epp {
                    Some(e) => text::cat4(
                        "CPU ",
                        run.target.governor.as_str(),
                        "/",
                        e.as_str(),
                    ),
                    None => text::cat2("CPU ", run.target.governor.as_str()),
                };
                run.report.apply(what);
            },
            Some(w) => {
                run.report.fail(
                    text::cat2("CPU: written, but the kernel reports ", w.as_str()),
                );
            },
        }
        run.at = Stage::Checking(Checkpoint::BeforeGpu);
        run
    }

    fn after_gate(self, p: &Profile, cx: &Context, state: NvidiaState) -> (r: Self)
        requires
            self.at == Stage::AskingNvidia,
            fits(*p, *cx, self@),
        ensures
            r@ == after(*p, *cx, self@, Answer::Nvidia(state)),
            fits(*p, *cx, r@),
    {
        let mut run = self;
        match state {
            NvidiaState::Asleep => {
                run.report.skip("NVIDIA (asleep or off)".to_string());
            },
            NvidiaState::ModeOff => {
                run.report.skip("NVIDIA (the graphics mode doesn't use it)".to_string());
            },
            NvidiaState::Settling => {
                run.report.skip("NVIDIA (graphics settling; applied once it has)".to_string());
                run.report.nvidia_deferred = true;
            },
            NvidiaState::Ready => {
                run.at = Stage::ApplyingNvidia;
                return run;
            },
        }
        run.to_amd(p, cx)
    }

    fn after_nvidia(self, p: &Profile, cx: &Context, reply: Result<Vec<WriteError>, String>) -> (r:
        Self)
        requires
            self.at == Stage::ApplyingNvidia,
        ensures
            r@ == after(*p, *cx, self@, Answer::NvidiaApplied(reply)),
            fits(*p, *cx, r@),
    {
        let mut run = self;
        match reply {
            Ok(errs) => if errs.len() == 0 {
                run.report.apply("NVIDIA".to_string());
            } else {
                run.report.fail(text::cat2("NVIDIA: ", print_errors(&errs).as_str()));
            },
            Err(e) => {
                run.report.fail(text::cat2("NVIDIA: ", e.as_str()));
            },
        }
        run.to_amd(p, cx)
    }

    fn after_amd(self, p: &Profile, cx: &Context, i: usize, reply: Result<(), String>) -> (r: Self)
        requires
            self.at == Stage::WritingAmd(i),
            fits(*p, *cx, self@),
        ensures
            r@ == after(*p, *cx, self@, Answer::AmdWritten(reply)),
            fits(*p, *cx, r@),
    {
        let count = find_slots(cx).len();
        assert(i < count);
        let mut run = self;
        match reply {
            Ok(_) => match &p.gpu.amd_perf_level {
                Some(level) => {
                    run.report.apply(text::cat2("AMD GPU ", level.as_str()));
                },
                None => {},
            },
            Err(e) => {
                run.report.fail(text::cat2("AMD GPU: ", e.as_str()));
            },
        }
        run.to_slot(p, cx, i + 1)
    }

    fn after_openrgb(self, p: &Profile, cx: &Context, i: usize, reply: Result<(), String>) -> (r:
        Self)
        requires
            self.at == Stage::ShowingOpenRgb(i),
            fits(*p, *cx, self@),
        ensures
            r@ == after(*p, *cx, self@, Answer::Shown(reply)),
            fits(*p, *cx, r@),
    {
        let zones = &p.lighting.zones;
        let count = zones.len();
        assert(i < count);
        let mut run = self;
        match reply {
            Ok(_) => match text::strip_start(zones.key(i), "openrgb:") {
                Some(name) => {
                    run.report.apply(
                        text::cat3(name.as_str(), " ", describe(zones.value(i)).as_str()),
                    );
                },
                None => {},
            },
            Err(e) => {
                run.report.skip(e);
            },
        }
        run.to_zone(p, cx, i + 1)
    }

    fn after_light(self, p: &Profile, cx: &Context, i: usize, reply: Result<(), String>) -> (r:
        Self)
        requires
            self.at == Stage::ShowingLight(i),
            fits(*p, *cx, self@),
        ensures
            r@ == after(*p, *cx, self@, Answer::Shown(reply)),
            fits(*p, *cx, r@),
    {
        let zones = &p.lighting.zones;
        let count = zones.len();
        assert(i < count);
        let mut run = self;
        match reply {
            Ok(_) => match (find_light(cx, zones.key(i)), &cx.model) {
                (Some(k), Some(m)) => {
                    let d = &m.lighting[k];
                    run.report.apply(
                        text::cat3(
                            d.label.as_str(),
                            " ",
                            describe_on(d, zones.value(i), &cx.names).as_str(),
                        ),
                    );
                },
                _ => {},
            },
            Err(e) => {
                run.report.fail(e);
            },
        }
        run.to_zone(p, cx, i + 1)
    }
}

/// A run that applies the profile's NVIDIA settings alone: what an apply
/// deferred while the dGPU settled.
pub fn apply_nvidia(p: &Profile) -> (r: Run)
    ensures
        r@ == (RunView { nvidia_only: true, ..RunView::first() }).go(
            if p.gpu.nvidia is Some {
                Stage::AskingNvidia
            } else {
                Stage::Finished
            },
        ),
        forall|cx: Context| #[trigger] fits(*p, cx, r@),
{
    let mut r = Run::start();
    r.nvidia_only = true;
    r.at = if p.gpu.nvidia.is_some() {
        Stage::AskingNvidia
    } else {
        Stage::Finished
    };
    r
}

/// Goes on with an answer. One that does not answer what the run waits
/// for changes nothing.
pub fn apply_profile(run: Run, p: &Profile, cx: &Context, answer: Answer) -> (r: Run)
    requires
        fits(*p, *cx, run@),
    ensures
        r@ == after(*p, *cx, run@, answer),
        fits(*p, *cx, r@),
{
    let mut run = run;
    match (run.at, answer) {
        (Stage::Checking(c), Answer::Latest(n)) => {
            if cx.superseded(n) {
                run.report.superseded = true;
                run.at = Stage::Finished;
                return run;
            }
            run.past(p, cx, c)
        },
        (Stage::AskingModes, Answer::Modes { owner, modes }) => {
            run.owner = owner;
            run.modes = modes;
            run.to_power(p, cx)
        },
        (Stage::SettingPower, Answer::Power(r)) => run.after_power(p, cx, r),
        (Stage::Settling, Answer::Waited) => {
            run.at = Stage::Checking(Checkpoint::Settled);
            run
        },
        (Stage::ReadingLimit(i), Answer::Attr(a)) => run.with_attr(p, cx, i, a),
        (Stage::WritingLimit(i, v), Answer::AttrWritten(r)) => run.after_limit(p, cx, i, v, r),
        (Stage::AskingCpu, Answer::Cpu(info)) => match &p.cpu.control {
            Some(wanted) => run.with_cpu(wanted, &info),
            None => run,
        },
        (Stage::WritingCpu, Answer::CpuWritten(r)) => run.after_cpu_write(r),
        (Stage::ReadingCpu, Answer::CpuState(live)) => run.after_cpu_read(live),
        (Stage::AskingNvidia, Answer::Nvidia(state)) => run.after_gate(p, cx, state),
        (Stage::ApplyingNvidia, Answer::NvidiaApplied(r)) => run.after_nvidia(p, cx, r),
        (Stage::WritingAmd(i), Answer::AmdWritten(r)) => run.after_amd(p, cx, i, r),
        (Stage::OpeningBus, Answer::Bus(there)) => {
            run.bus = there;
            run.to_zone(p, cx, 0)
        },
        (Stage::ListingOpenRgb(i), Answer::OpenRgb(runs)) => {
            run.openrgb = Some(runs);
            run.to_zone(p, cx, i)
        },
        (Stage::ShowingOpenRgb(i), Answer::Shown(r)) => run.after_openrgb(p, cx, i, r),
        (Stage::ShowingLight(i), Answer::Shown(r)) => run.after_light(p, cx, i, r),
        _ => run,
    }
}

impl Run {
    /// What the run waits for.
    pub fn action(&self, p: &Profile, cx: &Context) -> (r: Action)
        requires
            fits(*p, *cx, self@),
        ensures
            r@ == action_of(*p, *cx, self@),
    {
        match self.at {
            Stage::Checking(_) => Action::Check,
            Stage::AskingModes => Action::AskModes,
            Stage::SettingPower => {
                match &p.cpu.power_mode {
                    Some(wanted) => match match_power_mode(wanted.as_str(), self.modes.as_slice()) {
                        Some(mode) => {
                            proof {
                                power::match_is_offered(wanted@, self@.modes);
                            }
                            Action::SetPower { owner: self.owner, mode: mode.to_string() }
                        },
                        None => Action::Nothing,
                    },
                    None => Action::Nothing,
                }
            },
            Stage::Settling => Action::Wait(SETTLE),
            Stage::ReadingLimit(i) => {
                let limits = find_limits(&p.asusd);
                assert(limits_of(*p)[i as int] == (limits@[i as int].0@, limits@[i as int].1));
                Action::ReadAttr(limits[i].0.clone())
            },
            Stage::WritingLimit(i, v) => {
                let limits = find_limits(&p.asusd);
                assert(limits_of(*p)[i as int] == (limits@[i as int].0@, limits@[i as int].1));
                let via_asusd = match self.owner {
                    Some(Owner::Asusd) => true,
                    _ => false,
                };
                Action::WriteAttr { name: limits[i].0.clone(), value: v, via_asusd }
            },
            Stage::AskingCpu => Action::AskCpu,
            Stage::WritingCpu => Action::WriteCpu {
                info: copy_cpu(&self.info),
                target: copy_control(&self.target),
            },
            Stage::ReadingCpu => Action::ReadCpu,
            Stage::AskingNvidia => Action::AskNvidia,
            Stage::ApplyingNvidia => match &p.gpu.nvidia {
                Some(nv) => Action::ApplyNvidia(profile_nvidia_control(nv)),
                None => Action::Nothing,
            },
            Stage::WritingAmd(i) => {
                let slots = find_slots(cx);
                assert(slots_of(*cx)[i as int] == slots@[i as int]@);
                match &p.gpu.amd_perf_level {
                    Some(level) => Action::WriteAmd {
                        path: text::cat3(
                            "/sys/bus/pci/devices/",
                            slots[i].as_str(),
                            "/power_dpm_force_performance_level",
                        ),
                        level: level.clone(),
                    },
                    None => Action::Nothing,
                }
            },
            Stage::OpeningBus => Action::OpenBus,
            Stage::ListingOpenRgb(_) => Action::ListOpenRgb,
            Stage::ShowingOpenRgb(i) => match text::strip_start(
                p.lighting.zones.key(i),
                "openrgb:",
            ) {
                Some(name) => Action::ShowOpenRgb { zone: i, name },
                None => Action::Nothing,
            },
            Stage::ShowingLight(i) => {
                let key = p.lighting.zones.key(i);
                match find_light(cx, key) {
                    Some(device) => Action::ShowLight {
                        zone: i,
                        device,
                        brightness: p.lighting.brightness_for(key),
                    },
                    None => Action::Nothing,
                }
            },
            Stage::Finished => Action::Nothing,
        }
    }
}

} // verus!
