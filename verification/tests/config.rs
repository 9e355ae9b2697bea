use omaasus::config::{Config, CoolerControlAuth, FanOwner, Mode, OverlaySettings, Trigger, SCHEMA};
use omaasus::cpu::CpuInfo;
use omaasus::ids::Uuid;
use omaasus::model::{DeviceId, HardwareModel, Identity, Owner, PlatformControls};
use omaasus::power::{display_name, match_power_mode, power_kind};
use omaasus::profile::{CoolingSettings, FanMode, LightingMode, Profile, ProfileRole, Rgb, TempSource};
use omaasus::double::Double;

fn machine(modes: &[&str], current: Option<&str>) -> HardwareModel {
    HardwareModel {
        identity: Identity { product: "P".into(), board: "B".into(), bios: "1".into() },
        platform: "Laptop".into(),
        cpu: CpuInfo { model: "C".into(), available_governors: vec![], available_epp: vec![], rest: String::new() },
        fans: vec![],
        sensors: vec![],
        gpus: vec![],
        lighting: vec![],
        controls: PlatformControls { power_modes: modes.iter().map(|m| m.to_string()).collect(), power_mode: current.map(str::to_string), ..Default::default() },
        fan_owner: Owner::Firmware,
        notes: vec![],
    }
}

#[test]
fn random_ids_carry_their_version() {
    let a = Uuid::new_v4();
    let b = Uuid::new_v4();
    assert_ne!(a, b);
    assert_eq!((a.bits >> 76) & 0xF, 4);
    assert_eq!((a.bits >> 62) & 0x3, 2);
    assert_eq!(uuid::Uuid::from_u128(a.bits).get_version_num(), 4);
    assert_eq!(Uuid::nil().bits, 0);
    assert_ne!(Profile::new("a").id, Uuid::nil());
}

#[test]
fn a_fresh_config_has_a_profile_for_each_mode() {
    let c = Config::generated(&machine(&["power-saver", "balanced", "performance"], Some("performance")));
    assert_eq!(c.profiles.iter().map(|p| p.name.as_str()).collect::<Vec<_>>(), ["Power saver", "Balanced", "Performance"]);
    assert_eq!(c.profiles.iter().map(|p| p.icon.as_str()).collect::<Vec<_>>(), ["moon", "scale", "gamepad"]);
    assert_eq!(c.profiles[0].accent, Rgb::new(96, 140, 255));
    assert!(c.profiles.iter().all(|p| p.builtin));
    assert_eq!(c.default_profile, c.profiles[1].id);
    assert_eq!(c.active_profile, c.profiles[2].id);
    assert_eq!(c.rules.len(), 2);
    assert_eq!((c.rules[0].name.as_str(), &c.rules[0].trigger, c.rules[0].profile, c.rules[0].priority), ("GameMode active", &Trigger::GameMode, c.profiles[2].id, 100));
    assert_eq!((c.rules[1].name.as_str(), c.rules[1].hold_s), ("Fullscreen game", 20));
    assert_eq!(c.schema_version, SCHEMA);
    assert!(c.profile(c.active_profile).is_some());
    assert_eq!(c.profile_by_role(ProfileRole::Quiet).unwrap().name, "Power saver");
}

#[test]
fn a_machine_without_modes_gets_one_profile() {
    let c = Config::generated(&machine(&[], None));
    assert_eq!((c.profiles.len(), c.profiles[0].name.as_str(), c.profiles[0].role), (1, "Default", Some(ProfileRole::Balanced)));
    assert_eq!((c.default_profile, c.active_profile, c.rules.len()), (c.profiles[0].id, c.profiles[0].id, 0));
}

#[test]
fn an_empty_config_has_the_first_settings() {
    let c = Config::empty();
    assert_eq!((c.schema_version, c.mode, c.fan_owner, c.telemetry_hz, c.tray_enabled), (2, Mode::Manual, FanOwner::Auto, 2, true));
    assert_eq!(c.coolercontrol, CoolerControlAuth { enabled: false, url: "http://localhost:11987".into(), password: None });
    assert_eq!(c.overlay, OverlaySettings::default());
    assert_eq!(f32::from_bits(c.overlay.opacity.bits), 0.97);
    assert_eq!((c.overlay.anchor.as_str(), c.overlay.width, c.overlay.height, c.overlay.margin, c.overlay.hud_enabled), ("right", 560, 1040, 16, true));
}

#[test]
fn an_old_config_is_brought_up_to_date() {
    let mut c = Config::empty();
    c.schema_version = 1;
    let mut p = Profile::with_id(Uuid { bits: 1 }, "SILENT");
    p.builtin = true;
    p.cpu.ppd_profile = Some("power-saver".into());
    p.cpu.platform_profile = Some("quiet".into());
    p.lighting.zones = p.lighting.zones.insert("DIMM".into(), LightingMode::Off).insert("asusd:slash".into(), LightingMode::Rainbow);
    let mut q = Profile::with_id(Uuid { bits: 2 }, "gaming");
    q.cpu.power_mode = Some("Turbo".into());
    q.cpu.platform_profile = Some("quiet".into());
    c.profiles = vec![p, q];
    assert!(c.migrate());
    let p = &c.profiles[0];
    assert_eq!((p.cpu.power_mode.as_deref(), &p.cpu.ppd_profile, p.role), (Some("power-saver"), &None, Some(ProfileRole::Quiet)));
    assert_eq!((p.lighting.zones.key(0), p.lighting.zones.key(1)), ("asusd:slash", "openrgb:DIMM"));
    assert_eq!((c.profiles[1].cpu.power_mode.as_deref(), c.profiles[1].role), (Some("Turbo"), None), "not built in");
    let now = c.clone();
    assert!(!c.migrate(), "once is enough");
    assert_eq!(c, now);
}

#[test]
fn a_mode_set_outside_selects_the_profile_that_carries_it() {
    let mut c = Config::generated(&machine(&["power-saver", "balanced"], None));
    let choices = vec!["Quiet".to_string(), "Balanced".to_string()];
    assert_eq!(c.profile_for_power_mode("quiet", &choices).unwrap().id, c.profiles[0].id);
    c.profiles[1].cpu.power_mode = Some("Silent".into());
    assert_eq!(c.profile_for_power_mode("Quiet", &choices).unwrap().id, c.profiles[1].id, "the default one first");
    assert!(c.profile_for_power_mode("Balanced", &choices).is_none());
    assert!(c.profiles[0].carries_power_mode("QUIET", &choices));
}

#[test]
fn power_modes_match_by_name_then_by_kind() {
    let choices = vec!["Performance".to_string(), "Balanced".to_string(), "Quiet".to_string()];
    assert_eq!(match_power_mode("QUIET", &choices), Some("Quiet"));
    assert_eq!(match_power_mode("power_saver", &choices), Some("Quiet"));
    assert_eq!(match_power_mode("max power", &choices), Some("Performance"));
    assert_eq!(match_power_mode("custom", &choices), None);
    assert_eq!(power_kind("Balanced Performance"), Some(ProfileRole::Balanced));
    assert_eq!(power_kind(""), None);
}

#[test]
fn mode_names_are_shown_capitalised() {
    assert_eq!(display_name("power-saver"), "Power saver");
    assert_eq!(display_name("quiet"), "Quiet");
    assert_eq!(display_name("ßx"), "SSx");
    assert_eq!(display_name("éco_mode"), "Éco mode");
    assert_eq!(display_name(""), "");
}

#[test]
fn fans_are_assigned_by_their_targets() {
    let mut s = CoolingSettings { fans: vec![], gpu_zero_rpm: false };
    let a = DeviceId("a".into());
    let b = DeviceId("b".into());
    s.set(a.clone(), FanMode::Auto);
    s.set(b.clone(), FanMode::Fixed(Double { bits: 40.0f64.to_bits() }));
    s.set(a.clone(), FanMode::Fixed(Double { bits: 50.0f64.to_bits() }));
    assert_eq!(s.fans.len(), 2);
    assert_eq!(s.get(&a), Some(&FanMode::Fixed(Double { bits: 50.0f64.to_bits() })));
    s.remove(&a);
    assert_eq!((s.get(&a), s.fans.len()), (None, 1));
}

#[test]
fn brightness_is_the_devices_own_first() {
    let mut p = Profile::with_id(Uuid { bits: 1 }, "x");
    assert_eq!(p.lighting.brightness_for("asusd:slash"), None);
    p.lighting.brightness = 60;
    p.lighting.device_brightness = p.lighting.device_brightness.insert("asusd:slash".into(), 0);
    assert_eq!((p.lighting.brightness_for("asusd:slash"), p.lighting.brightness_for("y")), (Some(0), Some(60)));
}

#[test]
fn labels_and_codes() {
    assert_eq!(Rgb::new(0, 171, 255).hex(), "#00ABFF");
    assert_eq!(TempSource::CpuGpuMax.label(), "CPU / GPU max");
    assert_eq!(TempSource::Hwmon { driver: "nct".into(), label: "T1".into() }.label(), "nct: T1");
}
