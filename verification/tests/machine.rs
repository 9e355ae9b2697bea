use omaasus::cpu::CpuInfo;
use omaasus::double::Double;
use omaasus::inventory::{
    AmdGpu, AsusdCurve, AsusdInfo, AttrName, AuraInfo, AutoCurve, DutyOverride, FanInput, HeaderFact, HidDevice, HwmonDevice, LedsFact, ModeCurves, NvidiaGpu,
    OutputQuirk, Overrides, PciDevice, PlatformInfo, PowerInput, PpdInfo, PwmChannel, RawInventory, RpmFact, SlashInfo, SupergfxInfo, SystemInfo, TempInput,
};
use omaasus::model::{
    CurveInput, CurveSpec, CurveTemp, FanBackend, FileRead, GpuPower, GpuVendor, HardwareModel, Identity, LightingBackend, Owner, Release, SensorKind, SensorRole, Source,
};
use omaasus::strmap::StrMap;

fn d(v: f64) -> Double {
    Double { bits: v.to_bits() }
}

fn hwmon(name: &str) -> HwmonDevice {
    HwmonDevice {
        name: name.into(),
        friendly_name: format!("Friendly {name}"),
        path: format!("/sys/class/hwmon/{name}"),
        device_path: format!("/sys/devices/{name}"),
        super_io: false,
        smart_fan: false,
        curve_tach_driver: None,
        temps: vec![],
        powers: vec![],
        fans: vec![],
        pwms: vec![],
    }
}

fn temp(label: &str) -> TempInput {
    TempInput { label: label.into(), input: format!("/in/{label}"), hidden: false, role: SensorRole::CpuTemp, igpu_role: SensorRole::IgpuTemp }
}

fn fan(label: &str, index: u32) -> FanInput {
    FanInput { label: label.into(), input: format!("/in/{label}"), index }
}

fn pwm(index: u32) -> PwmChannel {
    PwmChannel { index, has_duty: true, has_enable: true, auto_curve: None, quirk: None, header: None, firmware_fan: None, max_rpm: None }
}

fn empty() -> RawInventory {
    RawInventory {
        system: SystemInfo {
            identity: Identity { product: "GA403".into(), board: "B1".into(), bios: "300".into() },
            platform: "Laptop".into(),
            cpu: CpuInfo { model: "Ryzen".into(), available_governors: vec!["powersave".into()], available_epp: vec![], rest: "cores = 12\n".into() },
            coolercontrold: false,
            hwmon: vec![],
            amd_gpus: vec![],
            hid: vec![],
            platform_profile_choices: vec![],
            asus_armoury_attrs: vec![],
        },
        asusd: None,
        nvidia: vec![],
        ppd: None,
        supergfx: None,
        pci_display: vec![],
        sysfs: StrMap::new(),
    }
}

fn asusd() -> AsusdInfo {
    AsusdInfo { has_fan_curves: false, fan_curves: vec![], aura: vec![], slash: None, platform: None }
}

fn no_overrides() -> Overrides {
    Overrides { min_duty: StrMap::new(), hide: vec![] }
}

fn build(raw: &RawInventory) -> HardwareModel {
    HardwareModel::build(raw, &no_overrides())
}

#[test]
fn an_empty_machine_has_an_empty_model() {
    let m = build(&empty());
    assert_eq!((m.identity.product.as_str(), m.platform.as_str(), m.cpu.model.as_str()), ("GA403", "Laptop", "Ryzen"));
    assert_eq!(m.cpu, empty().system.cpu);
    assert!(m.fans.is_empty() && m.sensors.is_empty() && m.gpus.is_empty() && m.lighting.is_empty() && m.notes.is_empty());
    assert_eq!(m.fan_owner, Owner::Firmware);
    assert_eq!(m.controls, Default::default());
}

#[test]
fn identical_sensors_are_told_apart() {
    let mut raw = empty();
    let mut nvme = hwmon("nvme");
    nvme.temps = vec![temp("Composite"), TempInput { hidden: true, ..temp("Sensor 8") }];
    let mut odd = hwmon("nvme");
    odd.temps = vec![temp("Composite#2"), temp("Composite")];
    raw.system.hwmon = vec![nvme.clone(), odd, nvme];
    let m = build(&raw);
    let ids: Vec<&str> = m.sensors.iter().map(|s| s.id.as_str()).collect();
    assert_eq!(ids, ["hwmon:nvme:Composite", "hwmon:nvme:Composite#2", "hwmon:nvme:Composite#3", "hwmon:nvme:Composite#4"]);
    assert!(m.sensor("hwmon:nvme:Composite#3").is_some());
    assert!(m.sensor("hwmon:nvme:Sensor 8").is_none());
}

#[test]
fn ids_stay_the_same_across_boots() {
    let mut raw = curve_machine();
    raw.system.hwmon[0].pwms.push(pwm(7));
    raw.system.hwmon[1].temps = vec![temp("a"), temp("a")];
    let mut later = raw.clone();
    for (n, d) in later.system.hwmon.iter_mut().enumerate() {
        d.path = format!("/sys/class/hwmon/hwmon{}", n + 5);
        d.device_path = format!("/sys/devices/x{n}");
        for t in &mut d.temps {
            t.input = format!("{}/temp1_input", d.path);
        }
    }
    let ids = |m: &HardwareModel| -> Vec<String> { m.sensors.iter().map(|s| s.id.0.clone()).chain(m.fans.iter().map(|f| f.id.0.clone())).collect() };
    let (a, b) = (build(&raw), build(&later));
    assert_ne!(a, b);
    assert_eq!(ids(&a), ids(&b));
    assert_eq!(ids(&a), ["hwmon:asus:a", "hwmon:asus:a#2", "hwmon:asus:cpu_fan", "hwmon:asus:gpu_fan", "asuscurve:pwm1", "asuscurve:pwm2", "asuscurve:pwm3", "hwmon:asus_custom_fan_curve:pwm7"]);
}

#[test]
fn sensors_carry_what_they_measure() {
    let mut raw = empty();
    let mut g = hwmon("amdgpu");
    g.temps = vec![temp("edge")];
    g.powers = vec![PowerInput { label: "PPT".into(), input: "/in/PPT".into(), role: SensorRole::GpuPower, igpu_role: SensorRole::PackagePower }];
    g.fans = vec![fan("fan1", 1)];
    raw.system.hwmon = vec![g];
    let plain = build(&raw);
    assert_eq!(plain.sensors.iter().map(|s| (s.kind, s.role)).collect::<Vec<_>>(), vec![
        (SensorKind::Temperature, SensorRole::CpuTemp),
        (SensorKind::Power, SensorRole::GpuPower),
        (SensorKind::Fan, SensorRole::FanSpeed),
    ]);
    raw.system.amd_gpus = vec![AmdGpu { pci_slot: "0000:65:00.0".into(), name: "Radeon".into(), device_path: "/sys/devices/amdgpu".into(), is_integrated: true }];
    let igpu = build(&raw);
    assert_eq!(igpu.sensors[0].role, SensorRole::IgpuTemp);
    assert_eq!(igpu.sensors[1].role, SensorRole::PackagePower);
    assert_eq!(igpu.sensor_for(SensorRole::FanSpeed).unwrap().input, "/in/fan1");
    assert!(igpu.sensor_for(SensorRole::Coolant).is_none());
    assert_eq!(igpu.sensors[0].driver, "amdgpu");
}

#[test]
fn super_io_headers_are_outputs() {
    let mut raw = empty();
    let mut io = hwmon("nct6799");
    io.super_io = true;
    io.smart_fan = true;
    io.fans = vec![fan("fan2", 2)];
    io.pwms = vec![
        PwmChannel { header: Some(HeaderFact { name: "CPU_FAN".into(), source: Source::Reference("manual".into()) }), auto_curve: Some(AutoCurve { points: 5, has_temp_sel: true }), ..pwm(2) },
        PwmChannel { has_enable: false, ..pwm(3) },
    ];
    raw.system.hwmon = vec![io];
    let m = build(&raw);
    let f = m.fan("superio:pwm2").unwrap();
    assert_eq!(f.label, "CPU_FAN (pwm2)");
    assert_eq!(f.tach.as_ref().unwrap().as_str(), "hwmon:nct6799:fan2");
    assert_eq!(f.caps.firmware_curve, Some(CurveSpec { points: 5, temp: CurveTemp::Selectable }));
    assert_eq!((f.caps.duty, f.caps.min_duty, f.caps.release, f.caps.curve_input), (true, d(0.0), Release::RestoreMode, CurveInput::CpuOrGpu));
    assert_eq!(f.backend, FanBackend::Hwmon { dir: "/sys/class/hwmon/nct6799".into(), index: 2 });
    let other = m.fan("superio:pwm3").unwrap();
    assert_eq!((other.label.as_str(), other.tach.is_none(), other.caps.release), ("Fan header 3", true, Release::SafeFixed(d(100.0))));
    assert_eq!(m.notes.len(), 1);
    assert_eq!((m.notes[0].what.as_str(), &m.notes[0].source), ("superio:pwm2: header CPU_FAN", &Source::Reference("manual".into())));
    assert_eq!(m.fan_owner, Owner::OmaAsus);
    assert_eq!(m.fan_owner_now(true), Owner::CoolerControl);
    assert!(m.fan("superio:pwm9").is_none());
}

#[test]
fn quirks_and_plain_outputs() {
    let mut raw = empty();
    let mut aio = hwmon("rog_ryujin");
    let quirk = OutputQuirk {
        id: "ryujin:pump".into(),
        label: "Pump".into(),
        min_duty: d(20.0),
        min_duty_text: "20".into(),
        release: Release::SafeFixed(d(60.0)),
        release_duty_text: "60.0".into(),
        curve_input: CurveInput::Coolant,
        source: Source::Verified("desktop".into()),
    };
    aio.pwms = vec![PwmChannel { quirk: Some(quirk), auto_curve: Some(AutoCurve { points: 4, has_temp_sel: false }), ..pwm(1) }, pwm(4)];
    raw.system.hwmon = vec![aio];
    let m = build(&raw);
    let pump = m.fan("ryujin:pump").unwrap();
    assert_eq!((pump.caps.min_duty, pump.caps.release, pump.caps.curve_input, &pump.caps.firmware_curve), (d(20.0), Release::SafeFixed(d(60.0)), CurveInput::Coolant, &None));
    assert_eq!(m.fans[1].id.as_str(), "hwmon:rog_ryujin:pwm4");
    assert_eq!(m.fans[1].label, "Friendly rog_ryujin pwm4");
    assert_eq!(m.notes[0].what, "ryujin:pump: minimum 20 %, released to SafeFixed(60.0)");
}

fn curve_machine() -> RawInventory {
    let mut raw = empty();
    let mut curves = hwmon("asus_custom_fan_curve");
    curves.curve_tach_driver = Some("asus".into());
    let channel = |index: u32, name: &str| PwmChannel {
        has_duty: false,
        auto_curve: Some(AutoCurve { points: 8, has_temp_sel: true }),
        firmware_fan: Some(name.into()),
        ..pwm(index)
    };
    curves.pwms = vec![
        PwmChannel { max_rpm: Some(RpmFact { rpm: 6000, source: Source::User }), ..channel(1, "CPU") },
        channel(2, "GPU"),
        channel(3, "MID"),
        PwmChannel { firmware_fan: None, ..channel(4, "x") },
    ];
    let mut asus = hwmon("asus");
    asus.fans = vec![fan("cpu_fan", 1), fan("gpu_fan", 2)];
    raw.system.hwmon = vec![curves, asus];
    raw
}

#[test]
fn firmware_fans_go_through_asusd_where_it_stores_curves() {
    let mut raw = curve_machine();
    let stored = |fan: &str, enabled: bool| AsusdCurve { fan: fan.into(), enabled, points: vec![(d(40.0), d(10.0))] };
    raw.asusd = Some(AsusdInfo {
        has_fan_curves: true,
        fan_curves: vec![
            ModeCurves { mode: "Balanced".into(), curves: vec![stored("CPU", true), stored("GPU", false)] },
            ModeCurves { mode: "Quiet".into(), curves: vec![stored("CPU", false), stored("CPU", true)] },
        ],
        ..asusd()
    });
    let m = build(&raw);
    let cpu = m.fan("asusd:fan:CPU").unwrap();
    assert_eq!((cpu.label.as_str(), cpu.caps.duty, cpu.caps.max_rpm, cpu.caps.release), ("CPU fan", false, Some(6000), Release::Auto));
    assert_eq!(cpu.caps.firmware_curve, Some(CurveSpec { points: 8, temp: CurveTemp::Firmware }));
    assert_eq!(cpu.tach.as_ref().unwrap().as_str(), "hwmon:asus:cpu_fan");
    assert_eq!(cpu.backend, FanBackend::AsusdCurve { fan: "CPU".into() });
    assert_eq!(cpu.firmware_curves.len(), 2);
    assert!(cpu.firmware_curves.get("Balanced").unwrap().enabled);
    assert!(!cpu.firmware_curves.get("Quiet").unwrap().enabled, "the first of a mode counts");
    assert_eq!(cpu.firmware_curves.get("Quiet").unwrap().points, vec![(d(40.0), d(10.0))]);
    let gpu = m.fan("asusd:fan:GPU").unwrap();
    assert_eq!((gpu.caps.curve_input, gpu.firmware_curves.len()), (CurveInput::Gpu, 1));
    let mid = m.fan("asuscurve:pwm3").unwrap();
    assert_eq!((mid.label.as_str(), mid.tach.is_none(), mid.caps.curve_input), ("Mid fan", true, CurveInput::Cpu));
    assert_eq!(mid.backend, FanBackend::AsusCurve { dir: "/sys/class/hwmon/asus_custom_fan_curve".into(), index: 3, driver: "asus_custom_fan_curve".into() });
    assert_eq!(m.fans.len(), 3);
    assert_eq!(m.notes[0].what, "asusd:fan:CPU: maximum speed 6000 rpm");
    assert_eq!(m.fan_owner, Owner::Asusd);
}

#[test]
fn firmware_fans_go_to_sysfs_without_asusd() {
    let m = build(&curve_machine());
    assert_eq!(m.fans.iter().map(|f| f.id.as_str()).collect::<Vec<_>>(), ["asuscurve:pwm1", "asuscurve:pwm2", "asuscurve:pwm3"]);
    assert_eq!(m.fan_owner, Owner::Firmware);
}

#[test]
fn gpus_and_hubs_have_fans() {
    let mut raw = empty();
    let card = |index: u32, num_fans: u32| NvidiaGpu { index, name: "RTX".into(), num_fans, pci_bus_id: "00000000:01:00.0".into() };
    raw.nvidia = vec![card(0, 2), card(1, 0)];
    let hid = |path: &str, by_ene: bool, channels: Option<u8>| HidDevice { path: path.into(), by_ene, channels };
    raw.system.hid = vec![hid("/h0", false, Some(4)), hid("/h1", true, None), hid("/h1", true, Some(4)), hid("/h2", true, Some(2)), hid("/h2", true, Some(4))];
    let m = build(&raw);
    assert_eq!(m.fans.iter().map(|f| f.id.as_str()).collect::<Vec<_>>(), ["nvidia:0:fans", "lianli:0:ch1", "lianli:0:ch2"]);
    assert_eq!((m.fans[0].label.as_str(), &m.fans[0].backend), ("RTX fans", &FanBackend::Nvidia { gpu: 0, fans: 2 }));
    assert_eq!((m.fans[2].label.as_str(), &m.fans[2].backend), ("Lian Li channel 2", &FanBackend::LianLi { path: "/h2".into(), channel: 2 }));
    raw.system.hid.push(hid("/h3", true, Some(1)));
    let m = build(&raw);
    assert_eq!((m.fans[3].id.as_str(), m.fans[3].label.as_str()), ("lianli:1:ch1", "Lian Li hub 2 channel 1"));
    assert_eq!(m.fans[1].label, "Lian Li hub 1 channel 1");
}

#[test]
fn gpus_are_named_by_their_drivers() {
    let mut raw = empty();
    let pci = |vendor: &str, slot: &str, status: Option<&str>| PciDevice { vendor: vendor.into(), slot: slot.into(), runtime_status: status.map(str::to_string) };
    raw.pci_display = vec![pci("0x10de", "0000:01:00.0", Some("suspended")), pci("0x1002", "0000:65:00.0", Some("active")), pci("0x8086", "0000:00:02.0", None), pci("0x1234", "0000:05:00.0", None)];
    raw.nvidia = vec![NvidiaGpu { index: 0, name: "RTX 5070 Ti".into(), num_fans: 0, pci_bus_id: "00000000:01:00.0".into() }];
    raw.system.amd_gpus = vec![AmdGpu { pci_slot: "0000:65:00.0".into(), name: "Radeon 890M".into(), device_path: "/x".into(), is_integrated: true }];
    let m = build(&raw);
    let shown: Vec<(&str, &str, bool, GpuPower)> = m.gpus.iter().map(|g| (g.id.as_str(), g.name.as_str(), g.integrated, g.power)).collect();
    assert_eq!(shown, vec![
        ("gpu:0000:01:00.0", "RTX 5070 Ti", false, GpuPower::Suspended),
        ("gpu:0000:65:00.0", "Radeon 890M", true, GpuPower::Active),
        ("gpu:0000:00:02.0", "Intel GPU", true, GpuPower::Active),
        ("gpu:0000:05:00.0", "Other GPU", false, GpuPower::Active),
    ]);
    raw.pci_display = vec![pci("0x1002", "weird", None)];
    assert_eq!(build(&raw).gpus[0].name, "RTX 5070 Ti", "a slot without a domain ends every bus id");
}

#[test]
fn a_dgpu_that_is_off_is_still_there() {
    let mut raw = empty();
    raw.supergfx = Some(SupergfxInfo { vendor: "NVIDIA".into(), supported: vec!["Integrated".into(), "Hybrid".into()], mode: "Integrated".into() });
    let m = build(&raw);
    assert_eq!((m.gpus[0].id.as_str(), m.gpus[0].vendor, m.gpus[0].power, &m.gpus[0].pci_slot), ("gpu:nvidia", GpuVendor::Nvidia, GpuPower::Off, &None));
    assert_eq!((m.controls.gpu_modes.len(), m.controls.gpu_mode.as_deref(), m.controls.gpu_owner), (2, Some("Integrated"), Some(Owner::Supergfxd)));
    raw.pci_display = vec![PciDevice { vendor: "0x10de".into(), slot: "0000:01:00.0".into(), runtime_status: None }];
    assert_eq!(build(&raw).gpus.len(), 1);
}

#[test]
fn asusd_lights_are_devices() {
    let mut raw = empty();
    raw.asusd = Some(AsusdInfo {
        aura: vec![AuraInfo { path: "/xyz/ljones/aura/19b6_3_4".into(), label: "Keyboard".into(), supported_basic_modes: vec![0, 10], supported_brightness: vec![0, 1] }],
        slash: Some(SlashInfo { path: "/xyz/ljones/slash".into(), leds: Some(LedsFact { count: 7, source: Source::Verified("GA403".into()) }), modes: vec![6, 16] }),
        ..asusd()
    });
    let m = build(&raw);
    assert_eq!((m.lighting[0].id.as_str(), &m.lighting[0].modes, &m.lighting[0].brightness_levels), ("asusd:aura:19b6_3_4", &vec![0, 10], &vec![0, 1]));
    assert_eq!((m.lighting[1].id.as_str(), m.lighting[1].leds, m.lighting[1].brightness_levels.len()), ("asusd:slash", Some(7), 0));
    assert_eq!(m.lighting[1].backend, LightingBackend::AsusdSlash { path: "/xyz/ljones/slash".into() });
    assert_eq!(m.notes[0].what, "asusd:slash: 7 LEDs");
}

fn file(value: &str) -> FileRead {
    FileRead { value: Some(value.into()), mode: 0o644 }
}

#[test]
fn power_modes_have_one_owner() {
    let mut raw = empty();
    raw.sysfs = StrMap::new()
        .insert("/sys/firmware/acpi/platform_profile".into(), file("quiet"))
        .insert("/sys/class/power_supply/BAT1/charge_control_end_threshold".into(), file("60"))
        .insert("/sys/class/power_supply/BAT0/charge_control_end_threshold".into(), file("80"))
        .insert("/sys/class/power_supply/BAT0/charge_control_start_threshold".into(), file("1"));
    raw.system.platform_profile_choices = vec!["quiet".into(), "balanced".into()];
    let c = build(&raw).controls;
    assert_eq!((c.power_owner, c.power_mode.as_deref(), c.power_modes.len(), c.charge_limit), (Some(Owner::Sysfs), Some("quiet"), 2, Some(80)));
    raw.ppd = Some(PpdInfo { profiles: vec!["power-saver".into()], active: "power-saver".into() });
    let c = build(&raw).controls;
    assert_eq!((c.power_owner, c.power_mode.as_deref()), (Some(Owner::PowerProfilesDaemon), Some("power-saver")));
    raw.asusd = Some(AsusdInfo { platform: Some(PlatformInfo { choices: vec!["Quiet".into()], profile: None, charge_limit: Some(55) }), ..asusd() });
    let c = build(&raw).controls;
    assert_eq!((c.power_owner, c.power_mode, c.charge_limit), (Some(Owner::Asusd), None, Some(55)));
    raw.asusd = Some(AsusdInfo { platform: Some(PlatformInfo { choices: vec![], profile: None, charge_limit: Some(55) }), ..asusd() });
    let c = build(&raw).controls;
    assert_eq!((c.power_owner, c.charge_limit), (Some(Owner::PowerProfilesDaemon), Some(80)), "no choices, no owner");
}

#[test]
fn firmware_attributes_are_controls() {
    let dir = "/sys/class/firmware-attributes/asus-armoury/attributes";
    let mut raw = empty();
    raw.sysfs = StrMap::new()
        .insert(format!("{dir}/ppt/current_value"), file("35"))
        .insert(format!("{dir}/ppt/max_value"), file("80"))
        .insert(format!("{dir}/ppt/min_value"), file("15"))
        .insert(format!("{dir}/gpu_mux_mode/current_value"), file("1"))
        .insert(format!("{dir}/gpu_mux_mode/possible_values"), file("0;1"));
    let name = |s: &str, gpu_switch: bool| AttrName { name: s.into(), gpu_switch };
    raw.system.asus_armoury_attrs = vec![name("ppt", false), name("gone", false), name("gpu_mux_mode", true)];
    let m = build(&raw);
    assert_eq!(m.controls.attributes.len(), 2);
    let ppt = m.attribute("ppt").unwrap();
    assert_eq!((ppt.current, ppt.min, ppt.max, ppt.writable), (Some(35), Some(15), Some(80), true));
    assert_eq!(m.attribute("gpu_mux_mode").unwrap().owned_by, None);
    raw.supergfx = Some(SupergfxInfo { vendor: "AMD".into(), supported: vec![], mode: "Hybrid".into() });
    assert_eq!(build(&raw).attribute("gpu_mux_mode").unwrap().owned_by, Some(Owner::Supergfxd));
    assert!(m.attribute("gone").is_none());
}

#[test]
fn the_user_has_the_last_word() {
    let mut raw = empty();
    raw.system.coolercontrold = true;
    let mut io = hwmon("nct6799");
    io.super_io = true;
    io.temps = vec![temp("SYSTIN")];
    io.pwms = vec![pwm(1), pwm(2), pwm(3)];
    raw.system.hwmon = vec![io];
    let duty = |v: f64| DutyOverride { value: d(v), text: format!("{v:.0}") };
    let o = Overrides {
        min_duty: StrMap::new().insert("superio:pwm1".into(), duty(30.0)).insert("superio:pwm2".into(), duty(140.0)).insert("superio:pwm3".into(), duty(-4.0)),
        hide: vec!["superio:pwm2".into(), "hwmon:nct6799:SYSTIN".into()],
    };
    let m = HardwareModel::build(&raw, &o);
    assert_eq!(m.fans.iter().map(|f| (f.id.as_str(), f.caps.min_duty)).collect::<Vec<_>>(), vec![("superio:pwm1", d(30.0)), ("superio:pwm3", d(0.0))]);
    assert!(m.sensors.is_empty());
    assert_eq!(m.notes.iter().map(|n| n.what.as_str()).collect::<Vec<_>>(), ["superio:pwm1: minimum duty 30 %", "superio:pwm2: minimum duty 140 %", "superio:pwm3: minimum duty -4 %"]);
    assert_eq!(m.notes[0].source, Source::User);
    assert_eq!(m.fan_owner, Owner::CoolerControl);
}

#[test]
fn hiding_only_removes() {
    let mut raw = empty();
    let mut io = hwmon("nct6799");
    io.super_io = true;
    io.temps = vec![temp("SYSTIN"), temp("CPUTIN")];
    io.pwms = vec![pwm(1), pwm(2), pwm(3)];
    raw.system.hwmon = vec![io];
    let min_duty = || StrMap::new().insert("superio:pwm1".to_string(), DutyOverride { value: d(30.0), text: "30".into() });
    let hide = ["superio:pwm1", "hwmon:nct6799:CPUTIN", "not:there"];
    let all = HardwareModel::build(&raw, &Overrides { min_duty: min_duty(), hide: vec![] });
    let some = HardwareModel::build(&raw, &Overrides { min_duty: min_duty(), hide: hide.iter().map(|h| h.to_string()).collect() });
    assert_eq!((all.fans.len(), some.fans.len(), all.sensors.len() - some.sensors.len()), (3, 2, 1));
    let shown = HardwareModel {
        fans: all.fans.iter().filter(|f| !hide.contains(&f.id.as_str())).cloned().collect(),
        sensors: all.sensors.iter().filter(|s| !hide.contains(&s.id.as_str())).cloned().collect(),
        ..all.clone()
    };
    assert_eq!(some, shown);
}

#[test]
fn notes_name_how_an_output_is_released() {
    let note = |release: Release, duty: &str| {
        let mut raw = empty();
        let mut dev = hwmon("rog_ryujin");
        let quirk = OutputQuirk {
            id: "ryujin:pump".into(),
            label: "Pump".into(),
            min_duty: d(20.0),
            min_duty_text: "20".into(),
            release,
            release_duty_text: duty.into(),
            curve_input: CurveInput::Coolant,
            source: Source::Verified("desktop".into()),
        };
        dev.pwms = vec![PwmChannel { quirk: Some(quirk), ..pwm(1) }];
        raw.system.hwmon = vec![dev];
        build(&raw).notes[0].what.clone()
    };
    assert_eq!(note(Release::RestoreMode, ""), "ryujin:pump: minimum 20 %, released to RestoreMode");
    assert_eq!(note(Release::Auto, ""), "ryujin:pump: minimum 20 %, released to Auto");
    assert_eq!(note(Release::SafeFixed(d(100.0)), "100.0"), "ryujin:pump: minimum 20 %, released to SafeFixed(100.0)");
}

#[test]
fn duties_are_kept_in_percent_as_doubles_are() {
    for v in [0.0, -0.0, 12.5, 100.0, 100.00001, -1e-300, 1e300, f64::INFINITY, f64::NEG_INFINITY, f64::NAN] {
        assert_eq!(omaasus::double::to_percent(d(v)).bits, v.clamp(0.0, 100.0).to_bits(), "{v}");
    }
}
