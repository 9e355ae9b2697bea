use omaasus::apply::{apply_nvidia, apply_profile, nvidia_state, Action, Answer, Checkpoint, Context, Gate, NvidiaState, Run, Stage, WriteError};
use omaasus::cpu::{CpuControlState, CpuInfo};
use omaasus::ids::Uuid;
use omaasus::lighting::ModeNames;
use omaasus::model::{
    DeviceId, FirmwareAttr, Gpu, GpuPower, GpuVendor, HardwareModel, Identity, LightingBackend, LightingDevice, Owner, PlatformControls,
};
use omaasus::nvidia::NvidiaControl;
use omaasus::profile::{LightingMode, Profile, Rgb};
use omaasus::report::{cpu_readback_mismatch, profile_nvidia_control, Report};
use omaasus::routes::{
    fallback_power_modes, set_power_mode, write_attr, AttrRoute, ModesAnswer, ModesQuestion, ModesStep, PowerCall, PowerReply, PowerRequest, PowerStep,
};

#[test]
fn readback_compares_only_what_was_asked() {
    let wanted = CpuControlState { governor: "powersave".into(), epp: Some("balance_performance".into()), boost: Some(true), ..Default::default() };
    let same = CpuControlState { governor: "powersave".into(), epp: Some("balance_performance".into()), boost: Some(true), ..Default::default() };
    assert_eq!(cpu_readback_mismatch(&wanted, &same), None);
    let epp_off = CpuControlState { epp: Some("power".into()), ..same.clone() };
    assert_eq!(cpu_readback_mismatch(&wanted, &epp_off).as_deref(), Some("EPP power"));
    let no_epp_asked = CpuControlState { epp: None, ..wanted.clone() };
    assert_eq!(cpu_readback_mismatch(&no_epp_asked, &epp_off), None, "an EPP the profile leaves alone is not a mismatch");
    let boost_off = CpuControlState { boost: Some(false), ..same.clone() };
    assert_eq!(cpu_readback_mismatch(&wanted, &boost_off).as_deref(), Some("boost off"));
}

#[test]
fn profile_without_limit_means_stock_limit() {
    let none = NvidiaControl::default();
    assert!(profile_nvidia_control(&none).reset_power_limit);
    let some = NvidiaControl { power_limit_w: Some(300), ..Default::default() };
    let got = profile_nvidia_control(&some);
    assert!(!got.reset_power_limit);
    assert_eq!(got.power_limit_w, Some(300));
}

#[test]
fn summaries_say_what_happened() {
    let mut r = Report::default();
    assert_eq!(r.summary("Quiet"), Ok("Quiet: already in place".into()));
    r.applied.push("power mode Quiet".into());
    r.skipped.push("NVIDIA (asleep or off)".into());
    assert_eq!(r.summary("Quiet"), Ok("Quiet applied: power mode Quiet · skipped NVIDIA (asleep or off)".into()));
    r.failed.push("CPU: denied".into());
    assert_eq!(r.summary("Quiet"), Err("Quiet partly applied (power mode Quiet); failed: CPU: denied · skipped NVIDIA (asleep or off)".into()));
}

#[test]
fn a_summary_without_success_fails() {
    let mut r = Report::default();
    r.failed.push("CPU: denied".into());
    r.failed.push("x: y".into());
    assert_eq!(r.summary("Quiet"), Err("Quiet failed: CPU: denied; x: y".into()));
    let live = CpuControlState { governor: "performance".into(), epp: None, boost: Some(true), ..Default::default() };
    let wanted = CpuControlState { governor: "powersave".into(), epp: None, boost: None, ..Default::default() };
    assert_eq!(cpu_readback_mismatch(&wanted, &live).as_deref(), Some("governor performance"));
    let wanted = CpuControlState { governor: String::new(), epp: None, boost: Some(false), ..Default::default() };
    assert_eq!(cpu_readback_mismatch(&wanted, &live).as_deref(), Some("boost on"));
}

fn names() -> ModeNames {
    ModeNames { aura: vec![], aura_other: "Effect".into(), slash: vec![], slash_static: 6 }
}

fn bare() -> Context {
    Context { model: None, cpu: None, names: names(), this: 7 }
}

fn gpu(vendor: GpuVendor, slot: Option<&str>) -> Gpu {
    Gpu { id: DeviceId("gpu".into()), vendor, name: "GPU".into(), integrated: false, power: GpuPower::Active, pci_slot: slot.map(str::to_string) }
}

fn model() -> HardwareModel {
    HardwareModel {
        identity: Identity { product: "P".into(), board: "B".into(), bios: "1".into() },
        platform: "Laptop".into(),
        cpu: CpuInfo { model: "CPU".into(), available_governors: vec!["powersave".into(), "performance".into()], available_epp: vec!["power".into(), "performance".into()], rest: "cores = 8\n".into() },
        fans: vec![],
        sensors: vec![],
        gpus: vec![gpu(GpuVendor::Nvidia, Some("0000:01:00.0")), gpu(GpuVendor::Amd, Some("0000:65:00.0")), gpu(GpuVendor::Amd, None)],
        lighting: vec![LightingDevice {
            id: DeviceId("asusd:aura:kb".into()),
            label: "Keyboard".into(),
            backend: LightingBackend::AsusdAura { path: "/kb".into() },
            modes: vec![0],
            brightness_levels: vec![0, 1],
            leds: None,
        }],
        controls: PlatformControls {
            power_modes: vec!["Quiet".into(), "Balanced".into()],
            power_mode: Some("Balanced".into()),
            power_owner: Some(Owner::Asusd),
            attributes: vec![FirmwareAttr { name: "mux".into(), current: Some(0), min: None, max: None, choices: vec![], writable: true, owned_by: Some(Owner::Supergfxd) }],
            ..Default::default()
        },
        fan_owner: Owner::Firmware,
        notes: vec![],
    }
}

fn full() -> Context {
    Context { model: Some(model()), ..bare() }
}

fn profile() -> Profile {
    Profile::with_id(Uuid { bits: 1 }, "Quiet")
}

/// Answers a run until it is finished, and tells what it asked for.
fn drive(run: Run, p: &Profile, cx: &Context, answer: fn(&Action) -> Answer) -> (Report, Vec<Action>) {
    let mut run = run;
    let mut asked = Vec::new();
    while run.at != Stage::Finished {
        let action = run.action(p, cx);
        let a = answer(&action);
        asked.push(action);
        run = apply_profile(run, p, cx, a);
        assert!(asked.len() < 100);
    }
    assert_eq!(run.action(p, cx), Action::Nothing);
    (run.report, asked)
}

fn all_well(action: &Action) -> Answer {
    match action {
        Action::Check => Answer::Latest(7),
        Action::AskModes => Answer::Modes { owner: Some(Owner::Sysfs), modes: vec!["low-power".into()] },
        Action::SetPower { .. } => Answer::Power(Ok(true)),
        Action::Wait(_) => Answer::Waited,
        Action::ReadAttr(name) => Answer::Attr(Some(FirmwareAttr { name: name.clone(), current: Some(1), min: Some(0), max: Some(50), choices: vec![], writable: true, owned_by: None })),
        Action::WriteAttr { name, .. } => Answer::AttrWritten(Ok(format!("<{name}>"))),
        Action::AskCpu => Answer::Cpu(CpuInfo { model: "C".into(), available_governors: vec![], available_epp: vec![], rest: "cores = 4\n".into() }),
        Action::WriteCpu { .. } => Answer::CpuWritten(Ok(vec![])),
        Action::ReadCpu => Answer::CpuState(None),
        Action::AskNvidia => Answer::Nvidia(NvidiaState::Ready),
        Action::ApplyNvidia(_) => Answer::NvidiaApplied(Ok(vec![])),
        Action::WriteAmd { .. } => Answer::AmdWritten(Ok(())),
        Action::OpenBus => Answer::Bus(true),
        Action::ListOpenRgb => Answer::OpenRgb(true),
        Action::ShowOpenRgb { .. } | Action::ShowLight { .. } => Answer::Shown(Ok(())),
        Action::Nothing => panic!("nothing to answer"),
    }
}

fn rich() -> Profile {
    let mut p = profile();
    p.cpu.power_mode = Some("power-saver".into());
    p.cpu.control = Some(CpuControlState { governor: "schedutil".into(), epp: Some("quiet".into()), boost: None, rest: "smt = false\n".into() });
    p.asusd = p.asusd.insert("ppt".into(), " 80 ".into()).insert("mux".into(), "1".into()).insert("same".into(), "1".into()).insert("word".into(), "fast".into());
    p.gpu.nvidia = Some(NvidiaControl { rest: "persistence = true\n".into(), ..Default::default() });
    p.gpu.amd_perf_level = Some("low".into());
    p.lighting.zones = p
        .lighting
        .zones
        .insert("asusd:aura:kb".into(), LightingMode::Static(Rgb::new(130, 251, 156)))
        .insert("openrgb:DIMM".into(), LightingMode::Off)
        .insert("other:x".into(), LightingMode::Off);
    p.lighting.brightness = 40;
    p.gfx_mode = Some("Hybrid".into());
    p
}

#[test]
fn an_empty_profile_only_passes_the_checkpoints() {
    let (r, asked) = drive(Run::start(), &profile(), &full(), all_well);
    assert_eq!(r, Report::default());
    assert_eq!(asked, vec![Action::Check; 4]);
}

#[test]
fn a_profile_is_applied_in_order() {
    let (r, asked) = drive(Run::start(), &rich(), &full(), all_well);
    assert_eq!(
        asked,
        vec![
            Action::Check,
            Action::SetPower { owner: Some(Owner::Asusd), mode: "Quiet".into() },
            Action::Wait(1000),
            Action::Check,
            Action::ReadAttr("mux".into()),
            Action::ReadAttr("ppt".into()),
            Action::WriteAttr { name: "ppt".into(), value: 50, via_asusd: true },
            Action::ReadAttr("same".into()),
            Action::Check,
            Action::WriteCpu {
                info: model().cpu,
                target: CpuControlState { governor: "powersave".into(), epp: None, boost: None, rest: "smt = false\n".into() },
            },
            Action::ReadCpu,
            Action::Check,
            Action::AskNvidia,
            Action::ApplyNvidia(NvidiaControl { power_limit_w: None, reset_power_limit: true, rest: "persistence = true\n".into() }),
            Action::WriteAmd { path: "/sys/bus/pci/devices/0000:65:00.0/power_dpm_force_performance_level".into(), level: "low".into() },
            Action::Check,
            Action::OpenBus,
            Action::ShowLight { zone: 0, device: 0, brightness: Some(40) },
            Action::ListOpenRgb,
            Action::ShowOpenRgb { zone: 1, name: "DIMM".into() },
        ]
    );
    assert_eq!(r.applied, ["power mode Quiet", "<ppt> 50", "CPU powersave", "NVIDIA", "AMD GPU low", "Keyboard static #82FB9C", "DIMM off"]);
    assert_eq!(
        r.skipped,
        ["mux (managed by Supergfxd)", "EPP quiet (this CPU offers power performance)", "other:x (not on this machine)", "graphics mode Hybrid (switch it on the ASUS page)"]
    );
    assert!(r.failed.is_empty() && !r.superseded && !r.nvidia_deferred);
}

#[test]
fn a_newer_apply_stops_an_older_one() {
    let mut run = Run::start();
    let p = rich();
    let cx = full();
    assert!(!cx.superseded(7) && cx.superseded(8));
    run = apply_profile(run, &p, &cx, Answer::Latest(7));
    run = apply_profile(run, &p, &cx, Answer::Power(Ok(true)));
    run = apply_profile(run, &p, &cx, Answer::Waited);
    run = apply_profile(run, &p, &cx, Answer::Latest(8));
    assert_eq!(run.at, Stage::Finished);
    assert_eq!(run.report, Report { applied: vec!["power mode Quiet".into()], superseded: true, ..Report::default() });
}

#[test]
fn a_wrong_answer_changes_nothing() {
    let p = rich();
    let cx = full();
    let run = apply_profile(Run::start(), &p, &cx, Answer::Waited);
    assert_eq!(run, Run::start());
    assert_eq!(run.at, Stage::Checking(Checkpoint::Start));
}

fn all_fails(action: &Action) -> Answer {
    let e = || "denied".to_string();
    match action {
        Action::AskModes => Answer::Modes { owner: None, modes: vec![] },
        Action::SetPower { .. } => Answer::Power(Err(e())),
        Action::WriteAttr { .. } => Answer::AttrWritten(Err(e())),
        Action::WriteCpu { .. } => Answer::CpuWritten(Ok(vec![WriteError { what: "governor".into(), why: "busy".into() }])),
        Action::ApplyNvidia(_) => Answer::NvidiaApplied(Ok(vec![WriteError { what: "limit".into(), why: "low".into() }, WriteError { what: "clock".into(), why: "high".into() }])),
        Action::WriteAmd { .. } => Answer::AmdWritten(Err(e())),
        Action::OpenBus => Answer::Bus(false),
        Action::ListOpenRgb => Answer::OpenRgb(false),
        Action::ShowOpenRgb { .. } | Action::ShowLight { .. } => Answer::Shown(Err(e())),
        other => all_well(other),
    }
}

#[test]
fn failures_are_reported_step_by_step() {
    let (r, _) = drive(Run::start(), &rich(), &full(), all_fails);
    assert!(r.applied.is_empty());
    assert_eq!(r.failed, ["power mode: denied", "ppt: denied", "CPU: busy", "NVIDIA: limit (low), clock (high)", "AMD GPU: denied", "Keyboard: no system bus"]);
    assert_eq!(
        r.skipped,
        [
            "mux (managed by Supergfxd)",
            "EPP quiet (this CPU offers power performance)",
            "DIMM (OpenRGB isn't running)",
            "other:x (not on this machine)",
            "graphics mode Hybrid (switch it on the ASUS page)",
        ]
    );
}

#[test]
fn without_a_model_the_daemons_are_asked() {
    let (r, asked) = drive(Run::start(), &rich(), &bare(), all_well);
    assert_eq!(asked[1], Action::AskModes);
    assert_eq!(asked[2], Action::SetPower { owner: Some(Owner::Sysfs), mode: "low-power".into() });
    assert!(asked.contains(&Action::WriteAttr { name: "ppt".into(), value: 50, via_asusd: false }));
    assert!(asked.contains(&Action::AskCpu));
    assert!(r.skipped.contains(&"AMD GPU (none here)".to_string()));
    assert!(r.skipped.contains(&"asusd:aura:kb (not on this machine)".to_string()));
    assert!(r.applied.contains(&"CPU /quiet".to_string()));
    let (r, _) = drive(Run::start(), &rich(), &bare(), all_fails);
    assert_eq!(r.skipped[0], "power mode power-saver (nothing controls power modes here)");
}

#[test]
fn a_mode_of_another_machine_is_skipped() {
    let mut p = profile();
    p.cpu.power_mode = Some("Turbo".into());
    let (r, _) = drive(Run::start(), &p, &full(), all_well);
    assert_eq!(r.skipped, ["power mode Turbo (not on this machine)"]);
}

#[test]
fn the_kernel_is_read_back() {
    fn live(action: &Action) -> Answer {
        match action {
            Action::ReadCpu => Answer::CpuState(Some(CpuControlState { governor: "performance".into(), epp: None, boost: None, ..Default::default() })),
            other => all_well(other),
        }
    }
    let mut p = profile();
    p.cpu.control = Some(CpuControlState { governor: "powersave".into(), epp: Some("power".into()), boost: None, ..Default::default() });
    let (r, _) = drive(Run::start(), &p, &full(), live);
    assert_eq!(r.failed, ["CPU: written, but the kernel reports governor performance"]);
    let (r, _) = drive(Run::start(), &p, &full(), all_well);
    assert_eq!(r.applied, ["CPU powersave/power"]);
    fn broken(action: &Action) -> Answer {
        match action {
            Action::WriteCpu { .. } => Answer::CpuWritten(Err("no helper".into())),
            other => all_well(other),
        }
    }
    let (r, _) = drive(Run::start(), &p, &full(), broken);
    assert_eq!(r.failed, ["CPU: no helper"]);
}

#[test]
fn missing_and_refused_limits_are_skipped() {
    fn gone(action: &Action) -> Answer {
        match action {
            Action::ReadAttr(_) => Answer::Attr(None),
            Action::SetPower { .. } => Answer::Power(Ok(false)),
            other => all_well(other),
        }
    }
    let mut p = profile();
    p.cpu.power_mode = Some("Quiet".into());
    p.asusd = p.asusd.insert("ppt".into(), "80".into());
    let (r, asked) = drive(Run::start(), &p, &full(), gone);
    assert_eq!(r.skipped, ["ppt (not on this machine)"]);
    assert!(r.applied.is_empty());
    assert!(!asked.contains(&Action::Wait(1000)), "nothing changed, nothing to settle");
}

#[test]
fn the_dgpu_takes_settings_only_when_it_can() {
    let mut p = profile();
    p.gpu.nvidia = Some(NvidiaControl { power_limit_w: Some(80), reset_power_limit: false, rest: "fan = 40\n".into() });
    p.gpu.amd_perf_level = Some("low".into());
    let cx = full();
    let after = |state: NvidiaState| apply_profile(apply_nvidia(&p), &p, &cx, Answer::Nvidia(state));
    let asleep = after(NvidiaState::Asleep);
    assert_eq!(asleep.report.skipped, ["NVIDIA (asleep or off)"]);
    assert_eq!(asleep.at, Stage::Finished);
    assert_eq!(after(NvidiaState::ModeOff).report.skipped, ["NVIDIA (the graphics mode doesn't use it)"]);
    let settling = after(NvidiaState::Settling);
    assert_eq!(settling.report.skipped, ["NVIDIA (graphics settling; applied once it has)"]);
    assert!(settling.report.nvidia_deferred);
    let ready = after(NvidiaState::Ready);
    assert_eq!(ready.action(&p, &cx), Action::ApplyNvidia(NvidiaControl { power_limit_w: Some(80), reset_power_limit: false, rest: "fan = 40\n".into() }));
    let done = apply_profile(ready, &p, &cx, Answer::NvidiaApplied(Err("no helper".into())));
    assert_eq!(done.report.failed, ["NVIDIA: no helper"]);
    assert_eq!(done.at, Stage::Finished);
    assert_eq!(apply_nvidia(&profile()).at, Stage::Finished);
}

#[test]
fn power_modes_without_a_model_come_from_the_first_that_answers() {
    assert_eq!(fallback_power_modes(ModesQuestion::Bus, ModesAnswer::Bus), ModesStep::Ask(ModesQuestion::Asusd));
    assert_eq!(fallback_power_modes(ModesQuestion::Bus, ModesAnswer::Nothing), ModesStep::Ask(ModesQuestion::Sysfs));
    assert_eq!(
        fallback_power_modes(ModesQuestion::Asusd, ModesAnswer::Names(vec!["Quiet".into()])),
        ModesStep::Known { owner: Some(Owner::Asusd), modes: vec!["Quiet".into()] }
    );
    assert_eq!(fallback_power_modes(ModesQuestion::Asusd, ModesAnswer::Names(vec![])), ModesStep::Ask(ModesQuestion::PowerProfilesDaemon));
    assert_eq!(fallback_power_modes(ModesQuestion::PowerProfilesDaemon, ModesAnswer::Nothing), ModesStep::Ask(ModesQuestion::Sysfs));
    assert_eq!(
        fallback_power_modes(ModesQuestion::PowerProfilesDaemon, ModesAnswer::Names(vec!["balanced".into()])),
        ModesStep::Known { owner: Some(Owner::PowerProfilesDaemon), modes: vec!["balanced".into()] }
    );
    assert_eq!(
        fallback_power_modes(ModesQuestion::Sysfs, ModesAnswer::Text(" quiet\tbalanced \n".into())),
        ModesStep::Known { owner: Some(Owner::Sysfs), modes: vec!["quiet".into(), "balanced".into()] }
    );
    assert_eq!(fallback_power_modes(ModesQuestion::Sysfs, ModesAnswer::Text(" \n".into())), ModesStep::Known { owner: None, modes: vec![] });
    assert_eq!(fallback_power_modes(ModesQuestion::Sysfs, ModesAnswer::Nothing), ModesStep::Known { owner: None, modes: vec![] });
}

#[test]
fn a_power_mode_goes_through_its_owner() {
    let ask = |owner: Option<Owner>, number: Option<u32>| PowerRequest { owner, mode: "Quiet".into(), asusd_number: number };
    let asusd = ask(Some(Owner::Asusd), Some(2));
    assert_eq!(set_power_mode(&asusd, None, PowerReply::Done), PowerStep::Call(PowerCall::Connect));
    assert_eq!(set_power_mode(&asusd, Some(PowerCall::Connect), PowerReply::Failed("no bus".into())), PowerStep::End(Err("no bus".into())));
    assert_eq!(set_power_mode(&asusd, Some(PowerCall::Connect), PowerReply::Done), PowerStep::Call(PowerCall::Read));
    assert_eq!(set_power_mode(&asusd, Some(PowerCall::Read), PowerReply::Number(2)), PowerStep::End(Ok(false)));
    assert_eq!(set_power_mode(&asusd, Some(PowerCall::Read), PowerReply::Failed("?".into())), PowerStep::Call(PowerCall::Write));
    assert_eq!(set_power_mode(&asusd, Some(PowerCall::Write), PowerReply::Done), PowerStep::End(Ok(true)));
    assert_eq!(set_power_mode(&asusd, Some(PowerCall::Write), PowerReply::Failed("denied".into())), PowerStep::End(Err("denied".into())));
    let unknown = ask(Some(Owner::Asusd), None);
    assert_eq!(set_power_mode(&unknown, None, PowerReply::Done), PowerStep::End(Err("asusd has no Quiet mode".into())));
    let sysfs = ask(Some(Owner::Sysfs), None);
    assert_eq!(set_power_mode(&sysfs, None, PowerReply::Done), PowerStep::Call(PowerCall::Read));
    assert_eq!(set_power_mode(&sysfs, Some(PowerCall::Read), PowerReply::Name("Quiet".into())), PowerStep::End(Ok(false)));
    assert_eq!(set_power_mode(&sysfs, Some(PowerCall::Read), PowerReply::Name("quiet".into())), PowerStep::Call(PowerCall::Write));
    let ppd = ask(Some(Owner::PowerProfilesDaemon), None);
    assert_eq!(set_power_mode(&ppd, None, PowerReply::Done), PowerStep::Call(PowerCall::Connect));
    assert_eq!(set_power_mode(&ask(None, None), None, PowerReply::Done), PowerStep::End(Err("nothing controls power modes here".into())));
    assert_eq!(set_power_mode(&ask(Some(Owner::Firmware), None), None, PowerReply::Done), PowerStep::End(Err("nothing controls power modes here".into())));
}

#[test]
fn an_attribute_goes_through_asusd_or_to_its_file() {
    assert_eq!(write_attr("ppt", -5, true), AttrRoute::Asusd(Ok(-5)));
    let text = i32::try_from(1i64 << 40).unwrap_err().to_string();
    assert_eq!(write_attr("ppt", 1 << 40, true), AttrRoute::Asusd(Err(text)));
    assert_eq!(
        write_attr("ppt", -5, false),
        AttrRoute::File { path: "/sys/class/firmware-attributes/asus-armoury/attributes/ppt/current_value".into(), text: "-5".into() }
    );
}

#[test]
fn the_gate_counts_only_for_an_awake_dgpu() {
    for gate in [Gate::Open, Gate::ModeOff, Gate::Settling, Gate::Unknown] {
        assert_eq!(nvidia_state(false, gate), NvidiaState::Asleep);
    }
    assert_eq!(nvidia_state(true, Gate::Open), NvidiaState::Ready);
    assert_eq!(nvidia_state(true, Gate::ModeOff), NvidiaState::ModeOff);
    assert_eq!(nvidia_state(true, Gate::Settling), NvidiaState::Settling);
    assert_eq!(nvidia_state(true, Gate::Unknown), NvidiaState::Settling);
}

#[test]
fn every_setting_reaches_its_device() {
    let nv = NvidiaControl { rest: "clock_lock = [300, 1500]\n".into(), ..Default::default() };
    assert_eq!(profile_nvidia_control(&nv), NvidiaControl { power_limit_w: None, reset_power_limit: true, rest: "clock_lock = [300, 1500]\n".into() });
    let mut p = profile();
    p.cpu.control = Some(CpuControlState { governor: "powersave".into(), epp: Some("power".into()), boost: Some(false), rest: "max_khz = 3000000\n".into() });
    let cx = Context { model: None, cpu: None, names: names(), this: 7 };
    let (_, asked) = drive(Run::start(), &p, &cx, all_well);
    let found = CpuInfo { model: "C".into(), available_governors: vec![], available_epp: vec![], rest: "cores = 4\n".into() };
    let target = CpuControlState { governor: String::new(), epp: Some("power".into()), boost: Some(false), rest: "max_khz = 3000000\n".into() };
    assert!(asked.contains(&Action::WriteCpu { info: found, target }));
}
