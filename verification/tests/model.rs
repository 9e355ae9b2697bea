use omaasus::model::{AttrFiles, DeviceId, FanName, FileRead, FirmwareAttr, Owner};

fn read(toml_text: &str) -> String {
    let table: toml::Table = toml_text.parse().expect(toml_text);
    let name = match &table["target"] {
        toml::Value::String(s) => FanName::Id(s.clone()),
        toml::Value::Table(t) => {
            if let Some(n) = t.get("SuperIo") {
                FanName::SuperIo(n.as_integer().expect(toml_text) as u32)
            } else if let Some(c) = t.get("LianLiChannel") {
                FanName::LianLiChannel(c.as_integer().expect(toml_text) as u8)
            } else {
                let cc = t["CoolerControl"].as_table().expect(toml_text);
                FanName::CoolerControl {
                    device_uid: cc["device_uid"].as_str().expect(toml_text).to_string(),
                    channel: cc["channel"].as_str().expect(toml_text).to_string(),
                }
            }
        }
        other => panic!("{other:?}"),
    };
    DeviceId::read(name).0
}

#[test]
fn firmware_attributes_accept_only_what_they_can_take() {
    let ppt = FirmwareAttr { name: "ppt_pl1_spl".into(), current: Some(35), min: Some(15), max: Some(35), choices: vec![], writable: true, owned_by: None };
    assert_eq!(ppt.accept(80), Ok(35), "clamped to the range in force (battery here)");
    assert_eq!(ppt.accept(20), Ok(20));
    let od = FirmwareAttr { name: "panel_overdrive".into(), current: Some(1), min: None, max: None, choices: vec![0, 1], writable: true, owned_by: None };
    assert_eq!(od.accept(0), Ok(0));
    assert!(od.accept(2).is_err());
    let ro = FirmwareAttr { writable: false, ..od.clone() };
    assert!(ro.accept(0).is_err());
    let mux = FirmwareAttr { name: "gpu_mux_mode".into(), owned_by: Some(Owner::Supergfxd), ..od };
    assert!(mux.accept(0).unwrap_err().contains("Supergfxd"));
}

#[test]
fn v1_fan_names_read_as_model_ids() {
    assert_eq!(read(r#"target = "asusd:fan:CPU""#), "asusd:fan:CPU");
    assert_eq!(read(r#"target = "RyujinPump""#), "ryujin:pump");
    assert_eq!(read(r#"target = "RyujinExternalFans""#), "ryujin:radiator");
    assert_eq!(read(r#"target = "NvidiaFans""#), "nvidia:0:fans");
    assert_eq!(read("[target]\nSuperIo = 3"), "superio:pwm3");
    assert_eq!(read("[target]\nLianLiChannel = 2"), "lianli:0:ch2");
    assert_eq!(read("[target.CoolerControl]\ndevice_uid = \"abc\"\nchannel = \"fan1\""), "cc:abc:fan1");
}

#[test]
fn the_internal_fan_has_a_v1_name_too() {
    assert_eq!(read(r#"target = "RyujinInternalFan""#), "ryujin:block-fan");
    assert_eq!(DeviceId::new("x".into()).as_str(), "x");
}

#[test]
fn ids_read_as_themselves() {
    let names = [
        FanName::Id("RyujinPump".into()),
        FanName::Id("RyujinInternalFan".into()),
        FanName::Id("RyujinExternalFans".into()),
        FanName::Id("NvidiaFans".into()),
        FanName::Id("asusd:fan:CPU".into()),
        FanName::Id(String::new()),
        FanName::SuperIo(7),
        FanName::LianLiChannel(0),
        FanName::CoolerControl { device_uid: "RyujinPump".into(), channel: String::new() },
    ];
    for name in names {
        let id = DeviceId::read(name).0;
        assert_eq!(DeviceId::read(FanName::Id(id.clone())).0, id);
    }
    assert_eq!(DeviceId::read(FanName::Id("ryujinpump".into())).0, "ryujinpump");
}

#[test]
fn refusals_say_why() {
    let od = FirmwareAttr { name: "od".into(), current: None, min: None, max: None, choices: vec![0, -1], writable: true, owned_by: None };
    assert_eq!(od.accept(2), Err("od (takes [0, -1], not 2)".into()));
    assert_eq!(FirmwareAttr { writable: false, ..od.clone() }.accept(0), Err("od (read-only)".into()));
    assert_eq!(FirmwareAttr { owned_by: Some(Owner::Asusd), ..od.clone() }.accept(0), Err("od (managed by Asusd)".into()));
    let odd = FirmwareAttr { choices: vec![], min: Some(9), max: Some(1), ..od };
    assert_eq!(odd.accept(50), Ok(50), "a range that is none");
    assert_eq!(FirmwareAttr { min: Some(i64::MIN), max: Some(-3), ..odd }.accept(50), Ok(-3));
}

fn file(value: Option<&str>, mode: u32) -> Option<FileRead> {
    Some(FileRead { value: value.map(str::to_string), mode })
}

#[test]
fn attributes_come_from_their_files() {
    let files = AttrFiles { current_value: file(Some("35\n"), 0o644), min_value: file(Some(" +15 "), 0o444), max_value: file(Some("x"), 0o444), possible_values: None };
    let a = FirmwareAttr::from_files("ppt", Some(Owner::Supergfxd), &files).unwrap();
    assert_eq!(a, FirmwareAttr { name: "ppt".into(), current: Some(35), min: Some(15), max: None, choices: vec![], writable: true, owned_by: Some(Owner::Supergfxd) });
    let files = AttrFiles { current_value: file(None, 0o444), min_value: None, max_value: None, possible_values: file(Some("0; 1;two;-3"), 0o444) };
    let a = FirmwareAttr::from_files("od", None, &files).unwrap();
    assert_eq!((a.current, a.choices, a.writable), (None, vec![0, 1, -3], false));
    let none = AttrFiles { current_value: None, min_value: file(Some("1"), 0o644), max_value: None, possible_values: None };
    assert_eq!(FirmwareAttr::from_files("gone", None, &none), None);
}
