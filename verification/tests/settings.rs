use omaasus::config::Config;
use omaasus::cpu::CpuInfo;
use omaasus::model::{
    DeviceId, Gpu, GpuPower, GpuVendor, HardwareModel, Identity, LightingBackend, LightingDevice, Note, Owner, PlatformControls, Sensor, SensorKind, SensorRole, Source,
};
use omaasus::settings::{gpu_name, owner_name, role_name, source_name, view, Features, Hardware, SourceHealth, State, Tone};

fn features() -> Features {
    Features {
        cpu_epp: true,
        cpu_boost: false,
        cpu_smt: true,
        asusd: true,
        supergfxd: false,
        coolercontrol: false,
        openrgb: true,
        liquidctl: false,
        livedash_oled: false,
        coolercontrold: false,
        power_profiles_daemon: false,
        gamemode: true,
        kernel: "6.18".into(),
    }
}

fn sensor(role: SensorRole) -> Sensor {
    Sensor { id: DeviceId("s".into()), label: "s".into(), role, kind: SensorKind::Temperature, driver: "d".into(), input: "/i".into() }
}

fn model() -> HardwareModel {
    HardwareModel {
        identity: Identity { product: "GA403WR".into(), board: "GA403".into(), bios: "301".into() },
        platform: "Laptop".into(),
        cpu: CpuInfo { model: "Ryzen AI 9".into(), available_governors: vec![], available_epp: vec![], rest: String::new() },
        fans: vec![],
        sensors: vec![sensor(SensorRole::FanSpeed), sensor(SensorRole::Other), sensor(SensorRole::CpuTemp)],
        gpus: vec![Gpu { id: DeviceId("g".into()), vendor: GpuVendor::Amd, name: "Strix [Radeon 880M / 890M] (rev c1)".into(), integrated: true, power: GpuPower::Suspended, pci_slot: None }],
        lighting: vec![LightingDevice { id: DeviceId("l".into()), label: "Slash".into(), backend: LightingBackend::AsusdSlash { path: "/s".into() }, modes: vec![], brightness_levels: vec![], leds: None }],
        controls: PlatformControls { power_modes: vec!["Quiet".into(), "Balanced".into()], power_owner: Some(Owner::Asusd), charge_limit: Some(80), gpu_mode: Some("Hybrid".into()), gpu_owner: Some(Owner::Supergfxd), ..Default::default() },
        fan_owner: Owner::Firmware,
        notes: vec![Note { what: "x: y".into(), source: Source::Verified("GA403".into()) }],
    }
}

fn state() -> State {
    State {
        helper_ready: true,
        cc_connected: false,
        tray_registered: false,
        config: Config::empty(),
        config_path: "/home/u/config.toml".into(),
        features: Some(features()),
        model: Some(model()),
        openrgb: 2,
        sources: Some(vec![
            SourceHealth { name: "hwmon".into(), healthy: true, stalled_s: None },
            SourceHealth { name: "nvml".into(), healthy: false, stalled_s: Some(12) },
            SourceHealth { name: "cc".into(), healthy: false, stalled_s: None },
        ]),
    }
}

#[test]
fn the_hardware_is_summed_up() {
    let page = view(&state());
    match page.hardware {
        Hardware::Found { lines, services, knowledge, footer } => {
            let shown: Vec<(&str, &str)> = lines.iter().map(|l| (l.what.as_str(), l.value.as_str())).collect();
            assert_eq!(shown, vec![
                ("Machine", "GA403WR · board GA403 · BIOS 301"),
                ("CPU", "Ryzen AI 9 · EPP, SMT"),
                ("GPUs", "Radeon 880M / 890M (integrated, suspended)"),
                ("Fans", "none controllable"),
                ("Sensors", "3 · CPU, fan speed"),
                ("Sources", "hwmon, nvml (silent 12s), cc (silent 0s)"),
                ("Lighting", "Slash, 2 through OpenRGB"),
                ("Power modes", "Quiet / Balanced · through asusd"),
                ("Graphics", "Hybrid · through supergfxd"),
                ("Battery", "charge limit 80%"),
            ]);
            let flags: Vec<(&str, bool)> = services.iter().map(|f| (f.name, f.on)).collect();
            assert_eq!(flags, vec![("asusd", true), ("supergfxd", false), ("power-profiles-daemon", false), ("CoolerControl", false), ("OpenRGB", true), ("liquidctl", false), ("GameMode", true)]);
            assert_eq!(knowledge, ["x: y · verified: GA403"]);
            assert_eq!(footer, "kernel 6.18 · config /home/u/config.toml");
        }
        other => panic!("{other:?}"),
    }
}

#[test]
fn a_bare_machine_says_so() {
    let mut s = state();
    let mut m = model();
    m.gpus = vec![];
    m.lighting = vec![];
    m.controls = PlatformControls::default();
    s.model = Some(m);
    s.openrgb = 0;
    s.sources = None;
    s.features = Some(Features { cpu_epp: false, cpu_smt: false, ..features() });
    match view(&s).hardware {
        Hardware::Found { lines, .. } => {
            assert_eq!(lines.len(), 7);
            assert_eq!((lines[1].value.as_str(), lines[2].value.as_str(), lines[6].value.as_str()), ("Ryzen AI 9", "none found", "none found"));
            assert_eq!(lines[5].value, "waiting for the first frame");
        }
        other => panic!("{other:?}"),
    }
    s.sources = Some(vec![]);
    match view(&s).hardware {
        Hardware::Found { lines, .. } => assert_eq!(lines[5].value, "none sampled yet"),
        other => panic!("{other:?}"),
    }
    s.model = None;
    assert_eq!(view(&s).hardware, Hardware::Detecting);
}

#[test]
fn the_page_shows_the_state() {
    let mut s = state();
    let p = view(&s);
    assert_eq!((p.helper.text, p.helper.tone, p.helper_button), ("installed & running", Tone::Good, "Reinstall helper"));
    assert_eq!((p.coolercontrol.text, p.coolercontrol.tone, p.shows_coolercontrol, p.shows_oled), ("not installed", Tone::Dim, false, false));
    assert_eq!((p.anchored_right, p.anchored_left, p.anchored_center), (true, false, false));
    assert_eq!((p.width.as_str(), p.height.as_str(), p.margin.as_str(), p.telemetry.as_str()), ("560 px", "1040 px", "16 px", "2 Hz"));
    assert!(p.tray.starts_with("Tray: waiting"));
    s.helper_ready = false;
    s.config.overlay.height = 0;
    s.config.overlay.anchor = "center".into();
    s.config.tray_enabled = false;
    s.config.coolercontrol.password = Some("SECRET-REDACTED".into());
    let p = view(&s);
    assert_eq!((p.helper.text, p.helper_button, p.height.as_str(), p.anchored_center, p.shows_coolercontrol), ("not running", "Install helper (pkexec)", "screen", true, true));
    assert!(p.tray.starts_with("Tray: off."));
    s.tray_registered = true;
    s.features = Some(Features { coolercontrold: true, livedash_oled: true, ..features() });
    let p = view(&s);
    assert_eq!((p.coolercontrol.text, p.coolercontrol.tone, p.shows_oled), ("detected — sign in", Tone::Warning, true));
    assert!(p.tray.starts_with("Tray: registered"));
    s.cc_connected = true;
    assert_eq!(view(&s).coolercontrol.text, "connected");
}

#[test]
fn names_for_the_summary() {
    assert_eq!(owner_name(Owner::Sysfs), "the kernel");
    assert_eq!(role_name(SensorRole::PackagePower), Some("package power"));
    assert_eq!(role_name(SensorRole::Wireless), None);
    assert_eq!(source_name(&Source::Reference("the manual".into())), "from the manual");
    assert_eq!(source_name(&Source::User), "your quirks.toml");
    assert_eq!(gpu_name("AMD [x] Strix [Radeon 880M / 890M] (rev c1)"), "Radeon 880M / 890M");
    assert_eq!(gpu_name("RTX 5070"), "RTX 5070");
    assert_eq!(gpu_name("a] b [c"), "a] b [c");
}
