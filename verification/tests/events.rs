use omaasus::events::{changes_only, helper_says, on_ac, Event, HelperWords, Signal, Sources, Supply, Watch};
use omaasus::model::Owner;

fn supply(kind: &str, online: Option<&str>) -> Supply {
    Supply { kind: Some(kind.into()), online: online.map(str::to_string) }
}

fn words() -> HelperWords {
    HelperWords { handed_back: "fans".into(), recovery_abandoned: "abandoned".into() }
}

#[test]
fn mains_power_is_seen() {
    assert_eq!(on_ac(&vec![]), None);
    assert_eq!(on_ac(&vec![supply("Battery", Some("1"))]), None);
    assert_eq!(on_ac(&vec![supply("Battery", None), supply("Mains", Some("0"))]), Some(false));
    assert_eq!(on_ac(&vec![supply("Mains", Some("0")), supply("Mains", Some("1"))]), Some(true));
    assert_eq!(on_ac(&vec![Supply { kind: None, online: Some("1".into()) }, supply("Mains", None)]), Some(false));
}

#[test]
fn only_changes_count() {
    assert_eq!(changes_only(None, "a".into()), (Some("a".into()), None), "where things were");
    assert_eq!(changes_only(Some("a".into()), "a".into()), (Some("a".into()), None));
    assert_eq!(changes_only(Some("a".into()), "b".into()), (Some("b".into()), Some("b".into())));
}

fn hear(signals: Vec<Signal>) -> Vec<Event> {
    let mut w = Watch::new(Some(true), None);
    let mut out = Vec::new();
    for s in signals {
        let (next, event) = w.hear(&words(), s);
        w = next;
        out.extend(event);
    }
    out
}

#[test]
fn the_charger_counts_when_it_changes() {
    assert_eq!(
        hear(vec![Signal::Ac(Some(true)), Signal::Ac(Some(false)), Signal::Ac(Some(false)), Signal::Ac(None), Signal::Ac(Some(false))]),
        vec![Event::Power(false), Event::Power(false)]
    );
}

#[test]
fn waking_up_counts_and_going_to_sleep_does_not() {
    assert_eq!(hear(vec![Signal::Sleep(Some(true)), Signal::Sleep(None), Signal::Sleep(Some(false))]), vec![Event::Resumed]);
}

#[test]
fn graphics_switches_and_arrivals_count() {
    assert_eq!(hear(vec![Signal::GraphicsAction(Some(false)), Signal::GraphicsAction(Some(true)), Signal::GraphicsAction(None)]), vec![Event::GraphicsSwitch]);
    let mut w = Watch::new(None, Some(3));
    assert_eq!(w.graphics, Some(3));
    let (next, event) = w.hear(&words(), Signal::GraphicsStatus { status: None, arrived: true });
    assert_eq!((next.graphics, event), (Some(3), None));
    w = next;
    let (next, event) = w.hear(&words(), Signal::GraphicsStatus { status: Some(1), arrived: true });
    assert_eq!((next.graphics, event), (Some(1), Some(Event::DgpuArrived)));
    let (next, event) = next.hear(&words(), Signal::GraphicsStatus { status: Some(2), arrived: false });
    assert_eq!((next.graphics, event), (Some(2), None));
}

#[test]
fn the_helper_says_what_it_did() {
    assert_eq!(helper_says("fans", &words()), Some(Event::FansHandedBack));
    assert_eq!(helper_says("abandoned:: pwm1, pwm2 ", &words()), Some(Event::RecoveryAbandoned("pwm1, pwm2".into())));
    assert_eq!(helper_says("abandoned", &words()), Some(Event::RecoveryAbandoned(String::new())));
    assert_eq!(helper_says("else", &words()), None);
    assert_eq!(hear(vec![Signal::Helper(None), Signal::Helper(Some("fans".into()))]), vec![Event::FansHandedBack]);
}

#[test]
fn power_modes_count_when_they_change() {
    let m = |s: &str| Some(s.to_string());
    assert_eq!(
        hear(vec![
            Signal::AsusdMode(m("Quiet")),
            Signal::DaemonMode(m("balanced")),
            Signal::AsusdMode(None),
            Signal::AsusdMode(m("Quiet")),
            Signal::AsusdMode(m("Balanced")),
            Signal::DaemonMode(m("power-saver")),
        ]),
        vec![
            Event::PowerMode { owner: Owner::Asusd, mode: "Balanced".into() },
            Event::PowerMode { owner: Owner::PowerProfilesDaemon, mode: "power-saver".into() },
        ]
    );
}

#[test]
fn coolercontrol_counts_when_it_starts_or_stops() {
    let s = |t: &str| Signal::CoolerControlUnit(Some(t.to_string()));
    assert_eq!(
        hear(vec![s("inactive"), s("activating"), s("active"), s("reloading"), Signal::CoolerControlUnit(None), s("failed")]),
        vec![Event::CoolerControl(true), Event::CoolerControl(false)]
    );
}

#[test]
fn what_is_watched_is_said() {
    let all = Sources { mains: true, bus: true, resume: true, graphics_switches: true, dgpu_arrivals: true, hand_backs: true, coolercontrol: true };
    assert_eq!(all.watching(), "charger, resume, graphics switches, dGPU arrivals, helper hand-backs, power modes, CoolerControl");
    let few = Sources { mains: false, bus: true, resume: false, graphics_switches: false, dgpu_arrivals: false, hand_backs: false, coolercontrol: false };
    assert_eq!(few.watching(), "no charger (no mains supply), power modes");
    assert_eq!(Sources { bus: false, ..all }.watching(), "charger");
}
