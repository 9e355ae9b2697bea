//! What the settings page shows: the helper's and CoolerControl's state, the
//! overlay's layout, and the hardware that was found.

use crate::config::Config;
use crate::model::{
    FanOutputView, Gpu, GpuPower, GpuView, HardwareModel, LightingDeviceView, Note, NoteView, Owner, SensorRole, SensorView, Source, SourceView,
};
use crate::{model, number, seqs, text};
use vstd::prelude::*;
use vstd::string::*;

verus! {

/// What a component is called in the hardware summary.
pub open spec fn owner_text(o: Owner) -> Seq<char> {
    match o {
        Owner::Asusd => "asusd"@,
        Owner::PowerProfilesDaemon => "power-profiles-daemon"@,
        Owner::Sysfs => "the kernel"@,
        Owner::Supergfxd => "supergfxd"@,
        Owner::CoolerControl => "CoolerControl"@,
        Owner::OmaAsus => "OmaAsus"@,
        Owner::Firmware => "firmware"@,
    }
}

/// What a component is called in the hardware summary.
pub fn owner_name(o: Owner) -> (r: &'static str)
    ensures
        r@ == owner_text(o),
{
    match o {
        Owner::Asusd => "asusd",
        Owner::PowerProfilesDaemon => "power-profiles-daemon",
        Owner::Sysfs => "the kernel",
        Owner::Supergfxd => "supergfxd",
        Owner::CoolerControl => "CoolerControl",
        Owner::OmaAsus => "OmaAsus",
        Owner::Firmware => "firmware",
    }
}

/// What a sensor role is called, where it is worth naming.
pub open spec fn role_text(r: SensorRole) -> Option<Seq<char>> {
    match r {
        SensorRole::CpuTemp => Some("CPU"@),
        SensorRole::IgpuTemp => Some("iGPU"@),
        SensorRole::DgpuTemp => Some("dGPU"@),
        SensorRole::Coolant => Some("coolant"@),
        SensorRole::Vrm => Some("VRM"@),
        SensorRole::Board => Some("board"@),
        SensorRole::Storage => Some("storage"@),
        SensorRole::Memory => Some("memory"@),
        SensorRole::PackagePower => Some("package power"@),
        SensorRole::GpuPower => Some("GPU power"@),
        SensorRole::FanSpeed => Some("fan speed"@),
        _ => None,
    }
}

/// Sensor roles worth naming in the summary.
pub fn role_name(r: SensorRole) -> (n: Option<&'static str>)
    ensures
        match role_text(r) {
            Some(t) => n is Some && n->0@ == t,
            None => n is None,
        },
{
    match r {
        SensorRole::CpuTemp => Some("CPU"),
        SensorRole::IgpuTemp => Some("iGPU"),
        SensorRole::DgpuTemp => Some("dGPU"),
        SensorRole::Coolant => Some("coolant"),
        SensorRole::Vrm => Some("VRM"),
        SensorRole::Board => Some("board"),
        SensorRole::Storage => Some("storage"),
        SensorRole::Memory => Some("memory"),
        SensorRole::PackagePower => Some("package power"),
        SensorRole::GpuPower => Some("GPU power"),
        SensorRole::FanSpeed => Some("fan speed"),
        SensorRole::CpuCore | SensorRole::GpuHotspot | SensorRole::Wireless
        | SensorRole::Other => None,
    }
}

/// Where a knowledge fact came from.
pub open spec fn source_text(s: SourceView) -> Seq<char> {
    match s {
        SourceView::Verified(w) => "verified: "@ + w,
        SourceView::Reference(w) => "from "@ + w,
        SourceView::User => "your quirks.toml"@,
    }
}

/// Where a knowledge fact came from.
pub fn source_name(s: &Source) -> (r: String)
    ensures
        r@ == source_text(s@),
{
    match s {
        Source::Verified(w) => text::cat2("verified: ", w.as_str()),
        Source::Reference(w) => text::cat2("from ", w.as_str()),
        Source::User => "your quirks.toml".to_string(),
    }
}

/// The marketing name in a PCI description: what stands behind the last `[`,
/// up to the first `]`; the whole where there is no such thing.
pub open spec fn marketing_name(name: Seq<char>) -> Seq<char> {
    let tail = text::after_last(name, '[');
    if name.contains('[') && tail.contains(']') {
        text::pieces(tail, ']')[0]
    } else {
        name
    }
}

/// The marketing name in a PCI description: "… [Radeon 880M / 890M] (rev c1)" → "Radeon 880M / 890M".
pub fn gpu_name(name: &str) -> (r: String)
    ensures
        r@ == marketing_name(name@),
{
    let tail = text::tail_after(name, '[');
    if text::has_char(name, '[') && text::has_char(tail.as_str(), ']') {
        let parts = text::split(tail.as_str(), ']');
        proof {
            text::pieces_some(tail@, ']');
            assert(text::texts(parts@).len() == parts@.len());
            assert(text::texts(parts@)[0] == parts@[0]@);
        }
        parts[0].clone()
    } else {
        name.to_string()
    }
}

/// What the inventory says beside the model.
#[derive(Debug, Clone, PartialEq)]
pub struct Features {
    pub cpu_epp: bool,
    pub cpu_boost: bool,
    pub cpu_smt: bool,
    pub asusd: bool,
    pub supergfxd: bool,
    pub coolercontrol: bool,
    pub openrgb: bool,
    pub liquidctl: bool,
    pub livedash_oled: bool,
    /// CoolerControl's daemon runs.
    pub coolercontrold: bool,
    pub power_profiles_daemon: bool,
    pub gamemode: bool,
    pub kernel: String,
}

/// A source of telemetry.
#[derive(Debug, Clone, PartialEq)]
pub struct SourceHealth {
    pub name: String,
    pub healthy: bool,
    /// For how many seconds it has said nothing.
    pub stalled_s: Option<u64>,
}

/// A line of the hardware summary.
#[derive(Debug, Clone, PartialEq)]
pub struct Line {
    pub what: String,
    pub value: String,
}

pub struct LineView {
    pub what: Seq<char>,
    pub value: Seq<char>,
}

impl View for Line {
    type V = LineView;

    open spec fn view(&self) -> LineView {
        LineView { what: self.what@, value: self.value@ }
    }
}

/// A list in words, or that there is nothing.
pub open spec fn or_none(list: Seq<Seq<char>>) -> Seq<char> {
    if list.len() == 0 {
        "none found"@
    } else {
        text::joined(list, ", "@)
    }
}

fn join_or_none(list: &Vec<String>) -> (r: String)
    ensures
        r@ == or_none(text::texts(list@)),
{
    assert(text::texts(list@).len() == list@.len());
    if list.len() == 0 {
        "none found".to_string()
    } else {
        text::join(list.as_slice(), ", ")
    }
}

pub open spec fn machine_text(m: HardwareModel) -> Seq<char> {
    m@.identity.product + " · board "@ + m@.identity.board + " · BIOS "@ + m@.identity.bios
}

/// What the processor can do, in words.
pub open spec fn cpu_caps(f: Features) -> Seq<Seq<char>> {
    text::word_if(f.cpu_epp, "EPP"@) + text::word_if(
        f.cpu_boost,
        "boost control"@,
    ) + text::word_if(f.cpu_smt, "SMT"@)
}

pub open spec fn cpu_text(m: HardwareModel, f: Features) -> Seq<char> {
    if cpu_caps(f).len() == 0 {
        m@.cpu.model
    } else {
        m@.cpu.model + " · "@ + text::joined(cpu_caps(f), ", "@)
    }
}

fn print_cpu(m: &HardwareModel, f: &Features) -> (r: String)
    ensures
        r@ == cpu_text(*m, *f),
{
    let mut caps: Vec<String> = Vec::new();
    assert(text::texts(caps@) =~= seq![]);
    text::push_if(&mut caps, f.cpu_epp, "EPP");
    text::push_if(&mut caps, f.cpu_boost, "boost control");
    text::push_if(&mut caps, f.cpu_smt, "SMT");
    assert(text::texts(caps@) =~= cpu_caps(*f));
    assert(text::texts(caps@).len() == caps@.len());
    if caps.len() == 0 {
        m.cpu.model.clone()
    } else {
        text::cat3(m.cpu.model.as_str(), " · ", text::join(caps.as_slice(), ", ").as_str())
    }
}

pub open spec fn power_word(p: GpuPower) -> Seq<char> {
    match p {
        GpuPower::Active => "active"@,
        GpuPower::Suspended => "suspended"@,
        GpuPower::Off => "off"@,
    }
}

/// A GPU in words.
pub open spec fn gpu_text() -> spec_fn(GpuView) -> Seq<char> {
    |g: GpuView|
        marketing_name(g.name) + " ("@ + (if g.integrated {
            "integrated"@
        } else {
            "discrete"@
        }) + ", "@ + power_word(g.power) + ")"@
}

fn print_gpus(gpus: &Vec<Gpu>) -> (r: String)
    ensures
        r@ == or_none(seqs::views(gpus@).map_values(gpu_text())),
{
    let ghost f = gpu_text();
    let ghost all = seqs::views(gpus@);
    let mut list: Vec<String> = Vec::new();
    let mut i: usize = 0;
    assert(text::texts(list@) =~= all.take(0).map_values(f));
    while i < gpus.len()
        invariant
            i <= gpus@.len(),
            f == gpu_text(),
            all == seqs::views(gpus@),
            text::texts(list@) == all.take(i as int).map_values(f),
        decreases gpus@.len() - i,
    {
        let g = &gpus[i];
        let kind = if g.integrated {
            "integrated"
        } else {
            "discrete"
        };
        let power = match g.power {
            GpuPower::Active => "active",
            GpuPower::Suspended => "suspended",
            GpuPower::Off => "off",
        };
        let s = text::cat6(gpu_name(g.name.as_str()).as_str(), " (", kind, ", ", power, ")");
        proof {
            assert(all[i as int] == g@);
            text::texts_push(list@, s);
            assert(all.take(i + 1).map_values(f) =~= all.take(i as int).map_values(f).push(
                f(all[i as int]),
            ));
        }
        list.push(s);
        i += 1;
    }
    assert(all.take(all.len() as int) =~= all);
    join_or_none(&list)
}

pub open spec fn fan_label() -> spec_fn(FanOutputView) -> Seq<char> {
    |f: FanOutputView| f.label
}

/// The fans, and who drives them with CoolerControl's daemon running or not.
pub open spec fn fans_text(m: HardwareModel, coolercontrold: bool) -> Seq<char> {
    if m@.fans.len() == 0 {
        "none controllable"@
    } else {
        text::joined(m@.fans.map_values(fan_label()), ", "@) + " · through "@ + owner_text(
            model::owner_of(m@.fans, coolercontrold),
        )
    }
}

fn print_fans(m: &HardwareModel, coolercontrold: bool) -> (r: String)
    ensures
        r@ == fans_text(*m, coolercontrold),
{
    assert(m@.fans.len() == m.fans@.len());
    if m.fans.len() == 0 {
        return "none controllable".to_string();
    }
    let ghost f = fan_label();
    let ghost all = m@.fans;
    let mut list: Vec<String> = Vec::new();
    let mut i: usize = 0;
    assert(text::texts(list@) =~= all.take(0).map_values(f));
    while i < m.fans.len()
        invariant
            i <= m.fans@.len(),
            f == fan_label(),
            all == seqs::views(m.fans@),
            text::texts(list@) == all.take(i as int).map_values(f),
        decreases m.fans@.len() - i,
    {
        let s = m.fans[i].label.clone();
        proof {
            assert(all[i as int] == m.fans@[i as int]@);
            text::texts_push(list@, s);
            assert(all.take(i + 1).map_values(f) =~= all.take(i as int).map_values(f).push(
                f(all[i as int]),
            ));
        }
        list.push(s);
        i += 1;
    }
    assert(all.take(all.len() as int) =~= all);
    text::cat3(
        text::join(list.as_slice(), ", ").as_str(),
        " · through ",
        owner_name(m.fan_owner_now(coolercontrold)),
    )
}

/// The roles of the summary, most telling first.
pub const ORDER: [SensorRole; 11] = [
    SensorRole::CpuTemp,
    SensorRole::IgpuTemp,
    SensorRole::DgpuTemp,
    SensorRole::Coolant,
    SensorRole::Vrm,
    SensorRole::Board,
    SensorRole::Memory,
    SensorRole::Storage,
    SensorRole::PackagePower,
    SensorRole::GpuPower,
    SensorRole::FanSpeed,
];

/// Whether a sensor measures something.
pub open spec fn has_role(sensors: Seq<SensorView>, role: SensorRole) -> bool {
    exists|i: int| 0 <= i < sensors.len() && (#[trigger] sensors[i]).role == role
}

/// What the sensors measure, most telling first: the first of the roles.
pub open spec fn roles_of(sensors: Seq<SensorView>, n: int) -> Seq<Seq<char>>
    decreases n,
{
    if n <= 0 {
        seq![]
    } else {
        let role = ORDER@[n - 1];
        match role_text(role) {
            Some(t) => if has_role(sensors, role) {
                roles_of(sensors, n - 1).push(t)
            } else {
                roles_of(sensors, n - 1)
            },
            None => roles_of(sensors, n - 1),
        }
    }
}

pub open spec fn sensors_text(m: HardwareModel) -> Seq<char> {
    number::decimal(m@.sensors.len()) + " · "@ + text::joined(roles_of(m@.sensors, 11), ", "@)
}

fn print_sensors(m: &HardwareModel) -> (r: String)
    ensures
        r@ == sensors_text(*m),
{
    let order = ORDER;
    let ghost all = m@.sensors;
    assert(all.len() == m.sensors@.len());
    let mut list: Vec<String> = Vec::new();
    let mut n: usize = 0;
    assert(text::texts(list@) =~= roles_of(all, 0));
    while n < 11
        invariant
            n <= 11,
            order@ == ORDER@,
            all == m@.sensors,
            text::texts(list@) == roles_of(all, n as int),
        decreases 11 - n,
    {
        let role = order[n];
        let found = m.sensor_for(role).is_some();
        proof {
            seqs::first_where_found(m.sensors@, model::measures(role));
            if found {
                let i = seqs::first_where(m.sensors@, model::measures(role))->0;
                assert(all[i] == m.sensors@[i]@);
                assert(has_role(all, role));
            } else if has_role(all, role) {
                let i = choose|i: int| 0 <= i < all.len() && (#[trigger] all[i]).role == role;
                assert(all[i] == m.sensors@[i]@);
                assert(!model::measures(role)(m.sensors@[i]));
            }
        }
        if found {
            match role_name(role) {
                Some(name) => {
                    let s = name.to_string();
                    proof {
                        text::texts_push(list@, s);
                    }
                    list.push(s);
                },
                None => {},
            }
        }
        n += 1;
    }
    text::cat3(
        number::print(m.sensors.len() as u128).as_str(),
        " · ",
        text::join(list.as_slice(), ", ").as_str(),
    )
}

/// A source of telemetry in words.
pub open spec fn health_text() -> spec_fn(SourceHealth) -> Seq<char> {
    |h: SourceHealth|
        if h.healthy {
            h.name@
        } else {
            h.name@ + " (silent "@ + number::decimal(
                match h.stalled_s {
                    Some(s) => s as nat,
                    None => 0,
                },
            ) + "s)"@
        }
}

pub open spec fn sources_text(sources: Option<Vec<SourceHealth>>) -> Seq<char> {
    match sources {
        Some(v) => if v@.len() == 0 {
            "none sampled yet"@
        } else {
            text::joined(v@.map_values(health_text()), ", "@)
        },
        None => "waiting for the first frame"@,
    }
}

fn print_sources(sources: &Option<Vec<SourceHealth>>) -> (r: String)
    ensures
        r@ == sources_text(*sources),
{
    match sources {
        Some(v) => {
            if v.len() == 0 {
                return "none sampled yet".to_string();
            }
            let ghost f = health_text();
            let mut list: Vec<String> = Vec::new();
            let mut i: usize = 0;
            assert(text::texts(list@) =~= v@.take(0).map_values(f));
            while i < v.len()
                invariant
                    i <= v@.len(),
                    f == health_text(),
                    text::texts(list@) == v@.take(i as int).map_values(f),
                decreases v@.len() - i,
            {
                let h = &v[i];
                let s = if h.healthy {
                    h.name.clone()
                } else {
                    let stalled: u64 = match h.stalled_s {
                        Some(s) => s,
                        None => 0,
                    };
                    text::cat4(
                        h.name.as_str(),
                        " (silent ",
                        number::print(stalled as u128).as_str(),
                        "s)",
                    )
                };
                proof {
                    text::texts_push(list@, s);
                    assert(v@.take(i + 1).map_values(f) =~= v@.take(i as int).map_values(f).push(
                        f(v@[i as int]),
                    ));
                }
                list.push(s);
                i += 1;
            }
            assert(v@.take(v@.len() as int) =~= v@);
            text::join(list.as_slice(), ", ")
        },
        None => "waiting for the first frame".to_string(),
    }
}

pub open spec fn light_label() -> spec_fn(LightingDeviceView) -> Seq<char> {
    |d: LightingDeviceView| d.label
}

pub open spec fn lights_text(m: HardwareModel, openrgb: nat) -> Seq<char> {
    let own = m@.lighting.map_values(light_label());
    or_none(
        if openrgb > 0 {
            own.push(number::decimal(openrgb) + " through OpenRGB"@)
        } else {
            own
        },
    )
}

fn print_lights(m: &HardwareModel, openrgb: usize) -> (r: String)
    ensures
        r@ == lights_text(*m, openrgb as nat),
{
    let ghost f = light_label();
    let ghost all = m@.lighting;
    let mut list: Vec<String> = Vec::new();
    let mut i: usize = 0;
    assert(text::texts(list@) =~= all.take(0).map_values(f));
    while i < m.lighting.len()
        invariant
            i <= m.lighting@.len(),
            f == light_label(),
            all == seqs::views(m.lighting@),
            text::texts(list@) == all.take(i as int).map_values(f),
        decreases m.lighting@.len() - i,
    {
        let s = m.lighting[i].label.clone();
        proof {
            assert(all[i as int] == m.lighting@[i as int]@);
            text::texts_push(list@, s);
            assert(all.take(i + 1).map_values(f) =~= all.take(i as int).map_values(f).push(
                f(all[i as int]),
            ));
        }
        list.push(s);
        i += 1;
    }
    assert(all.take(all.len() as int) =~= all);
    if openrgb > 0 {
        let s = text::cat2(number::print(openrgb as u128).as_str(), " through OpenRGB");
        proof {
            text::texts_push(list@, s);
        }
        list.push(s);
    }
    join_or_none(&list)
}

/// A line that may be missing.
pub open spec fn line_if(there: bool, what: Seq<char>, value: Seq<char>) -> Seq<LineView> {
    if there {
        seq![LineView { what, value }]
    } else {
        seq![]
    }
}

/// What the hardware model found, line by line.
pub open spec fn summary_of(
    m: HardwareModel,
    f: Features,
    sources: Option<Vec<SourceHealth>>,
    openrgb: nat,
) -> Seq<LineView> {
    let c = m@.controls;
    seq![
        LineView { what: "Machine"@, value: machine_text(m) },
        LineView { what: "CPU"@, value: cpu_text(m, f) },
        LineView { what: "GPUs"@, value: or_none(m@.gpus.map_values(gpu_text())) },
        LineView { what: "Fans"@, value: fans_text(m, f.coolercontrold) },
        LineView { what: "Sensors"@, value: sensors_text(m) },
        LineView { what: "Sources"@, value: sources_text(sources) },
        LineView { what: "Lighting"@, value: lights_text(m, openrgb) },
    ] + line_if(
        c.power_owner is Some,
        "Power modes"@,
        text::joined(c.power_modes, " / "@) + " · through "@ + owner_text(c.power_owner->0),
    ) + line_if(
        c.gpu_owner is Some && c.gpu_mode is Some,
        "Graphics"@,
        c.gpu_mode->0 + " · through "@ + owner_text(c.gpu_owner->0),
    ) + line_if(
        c.charge_limit is Some,
        "Battery"@,
        "charge limit "@ + number::decimal(c.charge_limit->0 as nat) + "%"@,
    )
}

fn push_line(lines: &mut Vec<Line>, what: &str, value: String)
    ensures
        seqs::views(final(lines)@) == seqs::views(old(lines)@).push(
            LineView { what: what@, value: value@ },
        ),
{
    let line = Line { what: what.to_string(), value };
    proof {
        seqs::views_push(lines@, line);
    }
    lines.push(line);
}

/// What the hardware model found, line by line.
pub fn summary(
    m: &HardwareModel,
    f: &Features,
    sources: &Option<Vec<SourceHealth>>,
    openrgb: usize,
) -> (r: Vec<Line>)
    ensures
        seqs::views(r@) == summary_of(*m, *f, *sources, openrgb as nat),
{
    let mut lines: Vec<Line> = Vec::new();
    assert(seqs::views(lines@) =~= seq![]);
    let id = &m.identity;
    push_line(
        &mut lines,
        "Machine",
        text::cat5(
            id.product.as_str(),
            " · board ",
            id.board.as_str(),
            " · BIOS ",
            id.bios.as_str(),
        ),
    );
    push_line(&mut lines, "CPU", print_cpu(m, f));
    push_line(&mut lines, "GPUs", print_gpus(&m.gpus));
    push_line(&mut lines, "Fans", print_fans(m, f.coolercontrold));
    push_line(&mut lines, "Sensors", print_sensors(m));
    push_line(&mut lines, "Sources", print_sources(sources));
    push_line(&mut lines, "Lighting", print_lights(m, openrgb));
    match m.controls.power_owner {
        Some(o) => {
            push_line(
                &mut lines,
                "Power modes",
                text::cat3(
                    text::join(m.controls.power_modes.as_slice(), " / ").as_str(),
                    " · through ",
                    owner_name(o),
                ),
            );
        },
        None => {},
    }
    match (m.controls.gpu_owner, &m.controls.gpu_mode) {
        (Some(o), Some(mode)) => {
            push_line(
                &mut lines,
                "Graphics",
                text::cat3(mode.as_str(), " · through ", owner_name(o)),
            );
        },
        _ => {},
    }
    match m.controls.charge_limit {
        Some(c) => {
            push_line(
                &mut lines,
                "Battery",
                text::cat3("charge limit ", number::print(c as u128).as_str(), "%"),
            );
        },
        None => {},
    }
    assert(seqs::views(lines@) =~= summary_of(*m, *f, *sources, openrgb as nat));
    lines
}

/// A service and whether it is there.
#[derive(Debug, Clone, Copy, PartialEq)]
pub struct Flag {
    pub name: &'static str,
    pub on: bool,
}

pub struct FlagView {
    pub name: Seq<char>,
    pub on: bool,
}

impl View for Flag {
    type V = FlagView;

    open spec fn view(&self) -> FlagView {
        FlagView { name: self.name@, on: self.on }
    }
}

/// The services, in the order they are shown.
pub open spec fn services_of(f: Features) -> Seq<FlagView> {
    seq![
        FlagView { name: "asusd"@, on: f.asusd },
        FlagView { name: "supergfxd"@, on: f.supergfxd },
        FlagView { name: "power-profiles-daemon"@, on: f.power_profiles_daemon },
        FlagView { name: "CoolerControl"@, on: f.coolercontrol },
        FlagView { name: "OpenRGB"@, on: f.openrgb },
        FlagView { name: "liquidctl"@, on: f.liquidctl },
        FlagView { name: "GameMode"@, on: f.gamemode },
    ]
}

pub fn services(f: &Features) -> (r: Vec<Flag>)
    ensures
        seqs::views(r@) == services_of(*f),
{
    let r = vec![
        Flag { name: "asusd", on: f.asusd },
        Flag { name: "supergfxd", on: f.supergfxd },
        Flag { name: "power-profiles-daemon", on: f.power_profiles_daemon },
        Flag { name: "CoolerControl", on: f.coolercontrol },
        Flag { name: "OpenRGB", on: f.openrgb },
        Flag { name: "liquidctl", on: f.liquidctl },
        Flag { name: "GameMode", on: f.gamemode },
    ];
    assert(seqs::views(r@) =~= services_of(*f));
    r
}

pub open spec fn note_text() -> spec_fn(NoteView) -> Seq<char> {
    |n: NoteView| n.what + " · "@ + source_text(n.source)
}

/// The knowledge that the model used.
pub fn knowledge_used(notes: &Vec<Note>) -> (r: Vec<String>)
    ensures
        text::texts(r@) == seqs::views(notes@).map_values(note_text()),
{
    let ghost f = note_text();
    let ghost all = seqs::views(notes@);
    let mut list: Vec<String> = Vec::new();
    let mut i: usize = 0;
    assert(text::texts(list@) =~= all.take(0).map_values(f));
    while i < notes.len()
        invariant
            i <= notes@.len(),
            f == note_text(),
            all == seqs::views(notes@),
            text::texts(list@) == all.take(i as int).map_values(f),
        decreases notes@.len() - i,
    {
        let n = &notes[i];
        let s = text::cat3(n.what.as_str(), " · ", source_name(&n.source).as_str());
        proof {
            assert(all[i as int] == n@);
            text::texts_push(list@, s);
            assert(all.take(i + 1).map_values(f) =~= all.take(i as int).map_values(f).push(
                f(all[i as int]),
            ));
        }
        list.push(s);
        i += 1;
    }
    assert(all.take(all.len() as int) =~= all);
    list
}

/// How a word is coloured.
#[derive(Debug, Clone, Copy, PartialEq, Eq, Structural)]
pub enum Tone {
    Good,
    Warning,
    Dim,
}

/// A word on the state of something.
#[derive(Debug, Clone, Copy, PartialEq)]
pub struct Pill {
    pub text: &'static str,
    pub tone: Tone,
}

/// What the page is about.
#[derive(Debug, Clone, PartialEq)]
pub struct State {
    /// The privileged helper answers.
    pub helper_ready: bool,
    pub cc_connected: bool,
    /// The tray icon is registered with the bar.
    pub tray_registered: bool,
    pub config: Config,
    pub config_path: String,
    /// What the inventory says, once it is there.
    pub features: Option<Features>,
    pub model: Option<HardwareModel>,
    /// How many devices OpenRGB lists.
    pub openrgb: usize,
    /// The sources of the last telemetry frame.
    pub sources: Option<Vec<SourceHealth>>,
}

/// The hardware part of the page.
#[derive(Debug, Clone, PartialEq)]
pub enum Hardware {
    Detecting,
    Found { lines: Vec<Line>, services: Vec<Flag>, knowledge: Vec<String>, footer: String },
}

/// The settings page.
#[derive(Debug, Clone, PartialEq)]
pub struct Page {
    pub helper: Pill,
    pub helper_button: &'static str,
    pub coolercontrol: Pill,
    pub shows_coolercontrol: bool,
    pub shows_oled: bool,
    /// Which of right, left and top center the overlay is anchored to.
    pub anchored_right: bool,
    pub anchored_left: bool,
    pub anchored_center: bool,
    pub width: String,
    pub height: String,
    pub margin: String,
    pub tray: &'static str,
    pub telemetry: String,
    pub hardware: Hardware,
}

/// Whether CoolerControl's daemon was detected.
pub open spec fn cc_detected(s: State) -> bool {
    match s.features {
        Some(f) => f.coolercontrold,
        None => false,
    }
}

pub open spec fn pixels(n: u32) -> Seq<char> {
    number::decimal(n as nat) + " px"@
}

fn print_pixels(n: u32) -> (r: String)
    ensures
        r@ == pixels(n),
{
    text::cat2(number::print(n as u128).as_str(), " px")
}

/// What the tray line says.
pub open spec fn tray_text(s: State) -> Seq<char> {
    if s.tray_registered {
        "Tray: registered with the bar. Click it for the panel, middle-click for the window, right-click for profiles."@
    } else if s.config.tray_enabled {
        "Tray: waiting for a StatusNotifier host (Omarchy's bar provides one)."@
    } else {
        "Tray: off. Closing the window exits OmaAsus unless the overlay is open."@
    }
}

/// What the hardware part shows: nothing until the machine is detected.
pub open spec fn shows_hardware(s: State, h: Hardware) -> bool {
    match (s.features, s.model) {
        (Some(f), Some(m)) => h matches Hardware::Found { lines, services, knowledge, footer }
            && seqs::views(lines@) == summary_of(m, f, s.sources, s.openrgb as nat) && seqs::views(
            services@,
        ) == services_of(f) && text::texts(knowledge@) == m@.notes.map_values(note_text())
            && footer@ == "kernel "@ + f.kernel@ + " · config "@ + s.config_path@,
        _ => h is Detecting,
    }
}

/// What the page shows of a state.
pub open spec fn is_page(s: State, p: Page) -> bool {
    let o = s.config.overlay;
    &&& p.helper.text@ == if s.helper_ready {
        "installed & running"@
    } else {
        "not running"@
    }
    &&& p.helper.tone == if s.helper_ready {
        Tone::Good
    } else {
        Tone::Warning
    }
    &&& p.helper_button@ == if s.helper_ready {
        "Reinstall helper"@
    } else {
        "Install helper (pkexec)"@
    }
    &&& p.coolercontrol.text@ == if s.cc_connected {
        "connected"@
    } else if cc_detected(s) {
        "detected — sign in"@
    } else {
        "not installed"@
    }
    &&& p.coolercontrol.tone == if s.cc_connected {
        Tone::Good
    } else if cc_detected(s) {
        Tone::Warning
    } else {
        Tone::Dim
    }
    &&& p.shows_coolercontrol == (cc_detected(s) || s.cc_connected
        || s.config.coolercontrol.password is Some)
    &&& p.shows_oled == match s.features {
        Some(f) => f.livedash_oled,
        None => false,
    }
    &&& p.anchored_right == (o.anchor@ == "right"@)
    &&& p.anchored_left == (o.anchor@ == "left"@)
    &&& p.anchored_center == (o.anchor@ == "center"@)
    &&& p.width@ == pixels(o.width)
    &&& p.height@ == if o.height == 0 {
        "screen"@
    } else {
        pixels(o.height)
    }
    &&& p.margin@ == pixels(o.margin)
    &&& p.tray@ == tray_text(s)
    &&& p.telemetry@ == number::decimal(s.config.telemetry_hz as nat) + " Hz"@
    &&& shows_hardware(s, p.hardware)
}

/// Fills the settings page. CoolerControl and the OLED only where they are
/// (or CoolerControl was set up).
pub fn view(s: &State) -> (r: Page)
    ensures
        is_page(*s, r),
{
    let o = &s.config.overlay;
    let (cc_found, oled) = match &s.features {
        Some(f) => (f.coolercontrold, f.livedash_oled),
        None => (false, false),
    };
    let hardware = match (&s.features, &s.model) {
        (Some(f), Some(m)) => Hardware::Found {
            lines: summary(m, f, &s.sources, s.openrgb),
            services: services(f),
            knowledge: knowledge_used(&m.notes),
            footer: text::cat4(
                "kernel ",
                f.kernel.as_str(),
                " · config ",
                s.config_path.as_str(),
            ),
        },
        _ => Hardware::Detecting,
    };
    Page {
        helper: if s.helper_ready {
            Pill { text: "installed & running", tone: Tone::Good }
        } else {
            Pill { text: "not running", tone: Tone::Warning }
        },
        helper_button: if s.helper_ready {
            "Reinstall helper"
        } else {
            "Install helper (pkexec)"
        },
        coolercontrol: if s.cc_connected {
            Pill { text: "connected", tone: Tone::Good }
        } else if cc_found {
            Pill { text: "detected — sign in", tone: Tone::Warning }
        } else {
            Pill { text: "not installed", tone: Tone::Dim }
        },
        shows_coolercontrol: cc_found || s.cc_connected
            || s.config.coolercontrol.password.is_some(),
        shows_oled: oled,
        anchored_right: text::same(o.anchor.as_str(), "right"),
        anchored_left: text::same(o.anchor.as_str(), "left"),
        anchored_center: text::same(o.anchor.as_str(), "center"),
        width: print_pixels(o.width),
        height: if o.height == 0 {
            "screen".to_string()
        } else {
            print_pixels(o.height)
        },
        margin: print_pixels(o.margin),
        tray: if s.tray_registered {
            "Tray: registered with the bar. Click it for the panel, middle-click for the window, right-click for profiles."
        } else if s.config.tray_enabled {
            "Tray: waiting for a StatusNotifier host (Omarchy's bar provides one)."
        } else {
            "Tray: off. Closing the window exits OmaAsus unless the overlay is open."
        },
        telemetry: text::cat2(number::print(s.config.telemetry_hz as u128).as_str(), " Hz"),
        hardware,
    }
}

/// Every role of the summary has a name, so each is named where a sensor has
/// it.
pub proof fn ordered_roles_have_names(i: int)
    requires
        0 <= i < 11,
    ensures
        role_text(ORDER@[i]) is Some,
{
}

} // verus!
