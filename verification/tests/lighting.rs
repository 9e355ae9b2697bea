use omaasus::lighting::{
    apply, apply_openrgb, apply_openrgb_one, aura_plan, describe, describe_on, lit_mode, mode_name, mode_of,
    openrgb_outcome, percent_of, read, read_all, set_brightness, set_slash_option, AuraAction, LightCall,
    LightReply, LightState, ModeName, ModeNames, ReadReply, ReadStep, Reading, RgbCall, RgbDevice, RgbMode, Show, ShowState, ShowStep, SlashOption,
};
use omaasus::model::{DeviceId, LightingBackend, LightingDevice};
use omaasus::profile::{LightingMode, Rgb, TempSource};
use omaasus::double::Double;

/// The GA403WR's keyboard as asusd 6.4 reports it.
fn keyboard() -> LightingDevice {
    LightingDevice {
        id: DeviceId::new("asusd:aura:19b6_3_4".into()),
        label: "Keyboard".into(),
        backend: LightingBackend::AsusdAura { path: "/xyz/ljones/aura/19b6_3_4".into() },
        modes: vec![0, 1, 2, 3, 10],
        brightness_levels: vec![0, 1, 2, 3],
        leds: None,
    }
}

fn slash() -> LightingDevice {
    LightingDevice {
        id: DeviceId::new("asusd:slash".into()),
        label: "Slash".into(),
        backend: LightingBackend::AsusdSlash { path: "/xyz/ljones/slash".into() },
        modes: vec![6, 16, 300],
        brightness_levels: vec![],
        leds: Some(7),
    }
}

fn names() -> ModeNames {
    ModeNames {
        aura: vec![ModeName { mode: 0, name: "Static".into() }, ModeName { mode: 10, name: "Pulse".into() }],
        aura_other: "Effect".into(),
        slash: vec![ModeName { mode: 16, name: "Bounce".into() }],
        slash_static: 6,
    }
}

fn thermal() -> LightingMode {
    LightingMode::Thermal {
        source: TempSource::Gpu,
        cool: Rgb::new(0, 0, 255),
        hot: Rgb::new(255, 0, 0),
        min_c: Double { bits: 40.0f64.to_bits() },
        max_c: Double { bits: 80.0f64.to_bits() },
    }
}

#[test]
fn lighting_maps_onto_the_modes_a_keyboard_lists() {
    let kb = keyboard();
    let names = names();
    let green = Rgb::new(130, 251, 156);
    let accent = Rgb::new(255, 61, 104);
    match aura_plan(&kb, &LightingMode::Static(green), accent, &names) {
        Ok(AuraAction::Effect(e)) => assert_eq!((e.mode, e.colour1), (0, (130, 251, 156))),
        other => panic!("{other:?}"),
    }
    match aura_plan(&kb, &LightingMode::Rainbow, accent, &names) {
        Ok(AuraAction::Effect(e)) => assert_eq!(e.mode, 2),
        other => panic!("{other:?}"),
    }
    // Pulse is written as listed (10; asusd refuses 9 as "incorrect type"), in the accent.
    match aura_plan(&kb, &LightingMode::Firmware(10), accent, &names) {
        Ok(AuraAction::Effect(e)) => assert_eq!((e.mode, e.colour1), (10, (255, 61, 104))),
        other => panic!("{other:?}"),
    }
    assert_eq!(describe_on(&kb, &LightingMode::Firmware(10), &names), "Pulse");
    assert!(aura_plan(&kb, &LightingMode::Firmware(4), accent, &names).is_err(), "Star isn't listed");
    assert_eq!(aura_plan(&kb, &LightingMode::Off, accent, &names), Ok(AuraAction::Off));
}

#[test]
fn a_devices_state_reads_back_as_profile_lighting() {
    let blue = Rgb::new(46, 138, 230);
    assert_eq!(mode_of(&LightState::Aura { listed: 0, colour: blue, level: 3 }), LightingMode::Static(blue));
    assert_eq!(mode_of(&LightState::Aura { listed: 10, colour: blue, level: 3 }), LightingMode::Firmware(10));
    assert_eq!(mode_of(&LightState::Aura { listed: 0, colour: blue, level: 0 }), LightingMode::Off);
    assert_eq!(mode_of(&LightState::Slash { enabled: true, mode: 16, brightness: 255, options: Vec::new() }), LightingMode::Firmware(16));
    assert_eq!(mode_of(&LightState::Slash { enabled: false, mode: 16, brightness: 255, options: Vec::new() }), LightingMode::Off);
}

#[test]
fn a_dark_device_still_has_its_effect() {
    let blue = Rgb::new(46, 138, 230);
    assert_eq!(lit_mode(&LightState::Aura { listed: 1, colour: blue, level: 0 }), LightingMode::Breathing(blue));
    assert_eq!(lit_mode(&LightState::Slash { enabled: false, mode: 16, brightness: 1, options: Vec::new() }), LightingMode::Firmware(16));
}

#[test]
fn modes_are_described() {
    let c = Rgb::new(130, 251, 156);
    assert_eq!(describe(&LightingMode::Off), "off");
    assert_eq!(describe(&LightingMode::Static(c)), "static #82FB9C");
    assert_eq!(describe(&LightingMode::Breathing(c)), "breathing #82FB9C");
    assert_eq!(describe(&LightingMode::Rainbow), "rainbow");
    assert_eq!(describe(&thermal()), "thermal glow");
    assert_eq!(describe(&LightingMode::Direct(vec![c])), "per-LED colours");
    assert_eq!(describe(&LightingMode::Firmware(16)), "effect 16");
    assert_eq!(describe_on(&slash(), &LightingMode::Static(c), &names()), "Static");
    assert_eq!(describe_on(&keyboard(), &LightingMode::Static(c), &names()), "static #82FB9C");
    assert_eq!(mode_name(&slash(), 16, &names()), "Bounce");
    assert_eq!(mode_name(&slash(), 99, &names()), "Animation 99");
    assert_eq!(mode_name(&keyboard(), 99, &names()), "Effect");
}

#[test]
fn what_a_keyboard_cannot_show_is_said() {
    let kb = keyboard();
    let accent = Rgb::new(1, 2, 3);
    assert_eq!(aura_plan(&kb, &LightingMode::Firmware(4), accent, &names()), Err("Keyboard can't show Effect".into()));
    assert_eq!(aura_plan(&kb, &thermal(), accent, &names()), Err("Keyboard can't show thermal glow".into()));
    let wave_only = LightingDevice { modes: vec![3], ..keyboard() };
    match aura_plan(&wave_only, &LightingMode::Rainbow, accent, &names()) {
        Ok(AuraAction::Effect(e)) => {
            assert_eq!((e.mode, e.zone, e.colour1, e.colour2), (3, 0, (0, 0, 0), (0, 0, 0)));
            assert_eq!((e.speed.as_str(), e.direction.as_str()), ("Med", "Right"));
        }
        other => panic!("{other:?}"),
    }
}

#[test]
fn brightness_of_a_state_is_in_percent() {
    let blue = Rgb::new(46, 138, 230);
    assert_eq!(percent_of(&keyboard(), &LightState::Aura { listed: 0, colour: blue, level: 2 }), 67);
    assert_eq!(percent_of(&slash(), &LightState::Slash { enabled: true, mode: 16, brightness: 127, options: Vec::new() }), 50);
}

#[test]
fn slash_options_have_labels() {
    let labels: Vec<&str> = SlashOption::ALL.iter().map(|o| o.label()).collect();
    assert_eq!(labels, ["On boot", "On shutdown", "While asleep", "On battery", "Lid closed", "Low-battery warning"]);
}

fn read_with(device: &LightingDevice, replies: Vec<ReadReply>) -> Result<LightState, String> {
    let mut reading = Reading::start();
    for reply in replies {
        match read(device, reading, reply) {
            ReadStep::Ask(next) => reading = next,
            ReadStep::End(r) => return r,
        }
    }
    panic!("not at an end: {reading:?}");
}

#[test]
fn states_are_read_from_answers() {
    let effect = || ReadReply::Effect { listed: 1, colour: Rgb::new(1, 2, 3) };
    let aura = LightState::Aura { listed: 1, colour: Rgb::new(1, 2, 3), level: 2 };
    assert_eq!(read_with(&keyboard(), vec![ReadReply::Open, effect(), ReadReply::Level(2)]), Ok(aura.clone()));
    assert_eq!(read_with(&keyboard(), vec![ReadReply::Open, effect(), ReadReply::Flag(true), ReadReply::Level(2)]), Ok(aura.clone()), "no answer to the question");
    assert_eq!(read_with(&keyboard(), vec![ReadReply::Failed("no bus".into())]), Err("no bus".into()));
    assert_eq!(read_with(&keyboard(), vec![ReadReply::Open, ReadReply::Failed("gone".into())]), Err("gone".into()));
    let fail = || ReadReply::Failed("unknown".into());
    let mut replies = vec![ReadReply::Open, ReadReply::Flag(true), fail(), ReadReply::Flag(false), fail(), fail(), ReadReply::Flag(true)];
    replies.extend([ReadReply::Flag(true), ReadReply::Byte(16), ReadReply::Byte(200)]);
    assert_eq!(
        read_with(&slash(), replies.clone()),
        Ok(LightState::Slash {
            enabled: true,
            mode: 16,
            brightness: 200,
            options: vec![(SlashOption::Boot, true), (SlashOption::Sleep, false), (SlashOption::BatteryWarning, true)],
        })
    );
    replies[8] = fail();
    assert_eq!(read_with(&slash(), replies), Err("unknown".into()));
    let all = read_all(&vec![keyboard(), slash()], vec![Err("gone".into()), Ok(aura.clone())]);
    assert_eq!(all, vec![("asusd:slash".to_string(), aura)]);
}

fn show(device: LightingDevice, mode: LightingMode, brightness: Option<u8>) -> Show {
    Show { device, mode, brightness, accent: Rgb::new(255, 61, 104) }
}

#[test]
fn an_effect_on_a_dark_keyboard_is_seen() {
    let s = show(keyboard(), LightingMode::Static(Rgb::new(1, 2, 3)), None);
    let n = names();
    let (state, call) = s.start();
    assert_eq!((state, call), (ShowState::Connecting, LightCall::Connect));
    let (state, step) = apply(&s, &n, state, LightReply::Done);
    match step {
        ShowStep::Call(LightCall::SetEffect(e)) => assert_eq!(e.colour1, (1, 2, 3)),
        other => panic!("{other:?}"),
    }
    let (state, step) = apply(&s, &n, state, LightReply::Done);
    assert_eq!(step, ShowStep::Call(LightCall::ReadLevel));
    assert_eq!(apply(&s, &n, state, LightReply::Level(2)).1, ShowStep::End(Ok(())));
    assert_eq!(apply(&s, &n, state, LightReply::Failed("no answer".into())).1, ShowStep::End(Ok(())));
    let (state, step) = apply(&s, &n, state, LightReply::Level(0));
    assert_eq!(step, ShowStep::Call(LightCall::SetLevel(3)));
    assert_eq!(apply(&s, &n, state, LightReply::Done), (ShowState::Finished, ShowStep::End(Ok(()))));
    assert_eq!(apply(&s, &n, state, LightReply::Failed("denied".into())).1, ShowStep::End(Err("denied".into())));
}

#[test]
fn a_profile_sets_the_level_with_the_effect() {
    let n = names();
    let s = show(keyboard(), LightingMode::Rainbow, Some(50));
    let (_, step) = apply(&s, &n, ShowState::SettingEffect, LightReply::Done);
    assert_eq!(step, ShowStep::Call(LightCall::SetLevel(2)));
    let dark = show(keyboard(), LightingMode::Rainbow, Some(0));
    assert_eq!(apply(&dark, &n, ShowState::SettingEffect, LightReply::Done).1, ShowStep::Call(LightCall::ReadLevel));
    let off = show(keyboard(), LightingMode::Off, Some(50));
    assert_eq!(apply(&off, &n, ShowState::Connecting, LightReply::Done), (ShowState::Finishing, ShowStep::Call(LightCall::SetLevel(0))));
    assert_eq!(apply(&off, &n, ShowState::Connecting, LightReply::Failed("no bus".into())).1, ShowStep::End(Err("no bus".into())));
}

#[test]
fn a_slash_bar_takes_animation_brightness_and_power() {
    let n = names();
    let s = show(slash(), LightingMode::Firmware(16), Some(50));
    let (state, step) = apply(&s, &n, ShowState::Connecting, LightReply::Done);
    assert_eq!(step, ShowStep::Call(LightCall::SetAnimation(16)));
    let (state, step) = apply(&s, &n, state, LightReply::Done);
    assert_eq!(step, ShowStep::Call(LightCall::SetBrightness(127)));
    let (state, step) = apply(&s, &n, state, LightReply::Done);
    assert_eq!((state, step), (ShowState::Finishing, ShowStep::Call(LightCall::SetEnabled(true))));
    let plain = show(slash(), LightingMode::Static(Rgb::new(9, 9, 9)), None);
    let (state, step) = apply(&plain, &n, ShowState::Connecting, LightReply::Done);
    assert_eq!(step, ShowStep::Call(LightCall::SetAnimation(6)));
    assert_eq!(apply(&plain, &n, state, LightReply::Done).1, ShowStep::Call(LightCall::SetEnabled(true)));
    let off = show(slash(), LightingMode::Off, None);
    assert_eq!(apply(&off, &n, ShowState::Connecting, LightReply::Done).1, ShowStep::Call(LightCall::SetEnabled(false)));
}

#[test]
fn a_slash_bar_refuses_what_it_does_not_have() {
    let n = names();
    let fail = |mode: LightingMode| apply(&show(slash(), mode, None), &n, ShowState::Connecting, LightReply::Done).1;
    assert_eq!(fail(LightingMode::Firmware(17)), ShowStep::End(Err("Slash has no animation 17".into())));
    assert_eq!(fail(LightingMode::Firmware(300)), ShowStep::End(Err("Slash has no animation 300".into())), "listed, but no byte");
    assert_eq!(fail(LightingMode::Rainbow), ShowStep::End(Err("Slash can't show rainbow".into())));
}

#[test]
fn brightness_alone_is_set() {
    assert_eq!(set_brightness(&keyboard(), 100), Ok(LightCall::SetLevel(3)));
    assert_eq!(set_brightness(&slash(), 100), Ok(LightCall::SetBrightness(255)));
    let none = LightingDevice { brightness_levels: vec![], ..keyboard() };
    assert_eq!(set_brightness(&none, 100), Err("Keyboard has no brightness levels".into()));
    assert_eq!(set_slash_option(&slash()), Ok("/xyz/ljones/slash"));
    assert_eq!(set_slash_option(&keyboard()), Err("Keyboard isn't a Slash bar".into()));
}

fn dimm(index: usize) -> RgbDevice {
    RgbDevice {
        index,
        name: "DIMM".into(),
        modes: vec![
            RgbMode { index: 0, name: "Direct".into() },
            RgbMode { index: 4, name: "Spectrum Cycle".into() },
            RgbMode { index: 5, name: "BREATHING".into() },
        ],
    }
}

#[test]
fn every_part_of_a_name_takes_the_mode() {
    let board = RgbDevice { index: 9, name: "Board".into(), modes: vec![] };
    let devices = vec![dimm(1), board, dimm(2)];
    assert_eq!(apply_openrgb(&devices, "DIMM", &LightingMode::Rainbow), Ok(vec![Ok(RgbCall::SetMode(1, 4)), Ok(RgbCall::SetMode(2, 4))]));
    assert_eq!(apply_openrgb(&devices, "Case", &LightingMode::Off), Err("Case (not connected)".into()));
    let c = Rgb::new(1, 2, 3);
    assert_eq!(apply_openrgb_one(&devices[0], "DIMM", &LightingMode::Off), Ok(RgbCall::TurnOff(1)));
    assert_eq!(apply_openrgb_one(&devices[0], "DIMM", &LightingMode::Static(c)), Ok(RgbCall::SetStatic(1, c)));
    assert_eq!(apply_openrgb_one(&devices[0], "DIMM", &LightingMode::Breathing(c)), Ok(RgbCall::SetMode(1, 5)));
    assert_eq!(apply_openrgb_one(&devices[0], "DIMM", &LightingMode::Firmware(7)), Ok(RgbCall::SetMode(1, 7)));
    assert_eq!(apply_openrgb_one(&devices[0], "DIMM", &LightingMode::Direct(vec![c, c])), Ok(RgbCall::SetLeds(1, vec![c, c])));
    assert_eq!(apply_openrgb_one(&devices[1], "Board", &LightingMode::Rainbow), Err("Board has no rainbow effect".into()));
    assert_eq!(apply_openrgb_one(&devices[1], "Board", &LightingMode::Breathing(c)), Err("Board has no breathing effect".into()));
    assert_eq!(apply_openrgb_one(&devices[1], "Board", &thermal()), Err("thermal glow runs from the Lighting page".into()));
}

#[test]
fn repeated_failures_are_said_once() {
    let e = |s: &str| Err::<(), String>(s.to_string());
    assert_eq!(openrgb_outcome(vec![Ok(()), Ok(())]), Ok(()));
    assert_eq!(openrgb_outcome(vec![e("a"), Ok(()), e("a"), e("b"), e("a")]), Err("a; b; a".into()));
}
