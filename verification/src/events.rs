//! System events: resume from sleep (logind) and the charger connecting or
//! disconnecting (limits differ on battery) call for re-applying the active
//! profile; a graphics switch starting and the dGPU coming back on the bus
//! (supergfxd) call for staying off the dGPU first; the helper handing back
//! the fans it guarded as it stops calls for sending them again; the power
//! mode changing on asusd or power-profiles-daemon calls for the profile
//! that carries it to follow; CoolerControl's daemon starting or stopping
//! changes who drives the fans.

use crate::model::Owner;
use crate::{model, text};
use vstd::prelude::*;
use vstd::string::*;

verus! {

#[derive(Debug, Clone, PartialEq)]
pub enum Event {
    Resumed,
    /// Mains power connected (`true`) or disconnected.
    Power(bool),
    /// supergfxd has started a switch: anything but a refusal (a switch that
    /// waits for a logout has started too, and runs at once without a display
    /// manager). It kills whatever holds the dGPU meanwhile.
    GraphicsSwitch,
    /// The dGPU came back on the bus.
    DgpuArrived,
    /// The helper stopped (a package upgrade, Settings → Reinstall helper,
    /// `systemctl stop`) and handed back the fans it guarded.
    FansHandedBack,
    /// The helper ran out of attempts to hand these outputs back: nothing
    /// drives them now.
    RecoveryAbandoned(String),
    /// The power mode changed on the daemon `owner` names: asusd's platform
    /// profile (its label) or power-profiles-daemon's active profile. Sent
    /// for a change made anywhere, this app's own writes included.
    PowerMode { owner: Owner, mode: String },
    /// CoolerControl's daemon started (`true`) or stopped, as its systemd
    /// unit reports. While it runs it drives every fan it knows.
    CoolerControl(bool),
}

pub enum EventView {
    Resumed,
    Power(bool),
    GraphicsSwitch,
    DgpuArrived,
    FansHandedBack,
    RecoveryAbandoned(Seq<char>),
    PowerMode { owner: Owner, mode: Seq<char> },
    CoolerControl(bool),
}

impl View for Event {
    type V = EventView;

    open spec fn view(&self) -> EventView {
        match self {
            Event::Resumed => EventView::Resumed,
            Event::Power(on) => EventView::Power(*on),
            Event::GraphicsSwitch => EventView::GraphicsSwitch,
            Event::DgpuArrived => EventView::DgpuArrived,
            Event::FansHandedBack => EventView::FansHandedBack,
            Event::RecoveryAbandoned(s) => EventView::RecoveryAbandoned(s@),
            Event::PowerMode { owner, mode } => EventView::PowerMode { owner: *owner, mode: mode@ },
            Event::CoolerControl(on) => EventView::CoolerControl(*on),
        }
    }
}

/// How often the charger is looked at, in seconds.
pub const AC_POLL: u64 = 2;

/// A power supply: its type and whether it is online, as far as they could be
/// read.
#[derive(Debug, Clone, PartialEq)]
pub struct Supply {
    pub kind: Option<String>,
    pub online: Option<String>,
}

impl Supply {
    pub open spec fn is_mains(&self) -> bool {
        model::opt_text(self.kind) == Some("Mains"@)
    }

    pub open spec fn is_online(&self) -> bool {
        model::opt_text(self.online) == Some("1"@)
    }
}

/// Whether mains power is connected; `None` without a mains supply (desktops).
pub open spec fn mains_power(supplies: Seq<Supply>) -> Option<bool> {
    if exists|i: int| 0 <= i < supplies.len() && (#[trigger] supplies[i]).is_mains() {
        Some(
            exists|i: int|
                0 <= i < supplies.len() && (#[trigger] supplies[i]).is_mains()
                    && supplies[i].is_online(),
        )
    } else {
        None
    }
}

fn says(s: &Option<String>, what: &str) -> (r: bool)
    ensures
        r == (model::opt_text(*s) == Some(what@)),
{
    match s {
        Some(t) => text::same(t.as_str(), what),
        None => false,
    }
}

/// Whether mains power is connected; `None` without a mains supply (desktops).
pub fn on_ac(supplies: &Vec<Supply>) -> (r: Option<bool>)
    ensures
        r == mains_power(supplies@),
{
    let mut any = false;
    let mut online = false;
    let mut i: usize = 0;
    while i < supplies.len()
        invariant
            i <= supplies@.len(),
            any == exists|k: int| 0 <= k < i && (#[trigger] supplies@[k]).is_mains(),
            online == exists|k: int|
                0 <= k < i && (#[trigger] supplies@[k]).is_mains() && supplies@[k].is_online(),
        decreases supplies@.len() - i,
    {
        if says(&supplies[i].kind, "Mains") {
            assert(supplies@[i as int].is_mains());
            any = true;
            if says(&supplies[i].online, "1") {
                online = true;
            }
        }
        i += 1;
    }
    if any {
        Some(online)
    } else {
        None
    }
}

/// Whether a value is a change: the first one is where things were.
pub open spec fn is_change<T>(last: Option<T>, now: T) -> bool {
    last is Some && last->0 != now
}

/// The changes among values: those that differ from the one before.
pub open spec fn changes<T>(values: Seq<T>) -> Seq<T>
    decreases values.len(),
{
    if values.len() < 2 {
        seq![]
    } else {
        let rest = values.drop_last();
        if rest.last() != values.last() {
            changes(rest).push(values.last())
        } else {
            changes(rest)
        }
    }
}

/// Changes only. A property stream opens with the value as it is, which is
/// where things were, not a change. Takes the last value and gives it back
/// with the new one in its place, and the new one if it is a change.
pub fn changes_only(last: Option<String>, now: String) -> (r: (Option<String>, Option<String>))
    ensures
        model::opt_text(r.0) == Some(now@),
        model::opt_text(r.1) == if is_change(model::opt_text(last), now@) {
            Some(now@)
        } else {
            None
        },
{
    let changed = match &last {
        Some(l) => !text::same(l.as_str(), now.as_str()),
        None => false,
    };
    if changed {
        (Some(now.clone()), Some(now))
    } else {
        (Some(now), None)
    }
}

/// What a source said: nothing where it could not be read.
#[derive(Debug, Clone, PartialEq)]
pub enum Signal {
    /// Whether mains power is connected, looked at again.
    Ac(Option<bool>),
    /// logind: going to sleep (`true`), or waking up.
    Sleep(Option<bool>),
    /// supergfxd: whether the switch it announces runs.
    GraphicsAction(Option<bool>),
    /// supergfxd: the dGPU's power status, and whether that is an arrival
    /// after the last one.
    GraphicsStatus { status: Option<u32>, arrived: bool },
    /// The helper: what changed.
    Helper(Option<String>),
    /// asusd: the platform profile's label.
    AsusdMode(Option<String>),
    /// power-profiles-daemon: the active profile.
    DaemonMode(Option<String>),
    /// systemd: the state of CoolerControl's unit.
    CoolerControlUnit(Option<String>),
}

/// The helper's words.
#[derive(Debug, Clone, PartialEq)]
pub struct HelperWords {
    /// It handed the fans back.
    pub handed_back: String,
    /// It gave some outputs up; they follow.
    pub recovery_abandoned: String,
}

/// What the sources said last.
#[derive(Debug, Clone, PartialEq)]
pub struct Watch {
    pub ac: Option<bool>,
    pub graphics: Option<u32>,
    pub asusd_mode: Option<String>,
    pub daemon_mode: Option<String>,
    pub coolercontrol: Option<bool>,
}

pub struct WatchView {
    pub ac: Option<bool>,
    pub graphics: Option<u32>,
    pub asusd_mode: Option<Seq<char>>,
    pub daemon_mode: Option<Seq<char>>,
    pub coolercontrol: Option<bool>,
}

impl View for Watch {
    type V = WatchView;

    open spec fn view(&self) -> WatchView {
        WatchView {
            ac: self.ac,
            graphics: self.graphics,
            asusd_mode: model::opt_text(self.asusd_mode),
            daemon_mode: model::opt_text(self.daemon_mode),
            coolercontrol: self.coolercontrol,
        }
    }
}

/// What the helper's words mean: the fans it guarded are handed back, or the
/// outputs it names are given up.
pub open spec fn helper_event(what: Seq<char>, words: HelperWords) -> Option<EventView> {
    if what == words.handed_back@ {
        Some(EventView::FansHandedBack)
    } else {
        match text::without_start(what, words.recovery_abandoned@) {
            Some(rest) => Some(
                EventView::RecoveryAbandoned(text::trimmed(text::without_leading(rest, ':'))),
            ),
            None => None,
        }
    }
}

/// Whether CoolerControl's unit runs in a state.
pub open spec fn unit_runs(state: Seq<char>) -> bool {
    state == "active"@ || state == "reloading"@
}

/// A change, as an event.
pub open spec fn change_event<T>(last: Option<T>, now: T, event: EventView) -> Option<EventView> {
    if is_change(last, now) {
        Some(event)
    } else {
        None
    }
}

/// What a signal means, after what the sources said last.
pub open spec fn heard(w: WatchView, words: HelperWords, signal: Signal) -> (
    WatchView,
    Option<EventView>,
) {
    match signal {
        Signal::Ac(now) => (
            WatchView { ac: now, ..w },
            match now {
                Some(on) => if now != w.ac {
                    Some(EventView::Power(on))
                } else {
                    None
                },
                None => None,
            },
        ),
        Signal::Sleep(start) => (
            w,
            if start == Some(false) {
                Some(EventView::Resumed)
            } else {
                None
            },
        ),
        Signal::GraphicsAction(runs) => (
            w,
            if runs == Some(true) {
                Some(EventView::GraphicsSwitch)
            } else {
                None
            },
        ),
        Signal::GraphicsStatus { status, arrived } => match status {
            Some(_) => (
                WatchView { graphics: status, ..w },
                if arrived {
                    Some(EventView::DgpuArrived)
                } else {
                    None
                },
            ),
            None => (w, None),
        },
        Signal::Helper(what) => (
            w,
            match what {
                Some(s) => helper_event(s@, words),
                None => None,
            },
        ),
        Signal::AsusdMode(mode) => match mode {
            Some(m) => (
                WatchView { asusd_mode: Some(m@), ..w },
                change_event(
                    w.asusd_mode,
                    m@,
                    EventView::PowerMode { owner: Owner::Asusd, mode: m@ },
                ),
            ),
            None => (w, None),
        },
        Signal::DaemonMode(mode) => match mode {
            Some(m) => (
                WatchView { daemon_mode: Some(m@), ..w },
                change_event(
                    w.daemon_mode,
                    m@,
                    EventView::PowerMode { owner: Owner::PowerProfilesDaemon, mode: m@ },
                ),
            ),
            None => (w, None),
        },
        Signal::CoolerControlUnit(state) => match state {
            Some(s) => (
                WatchView { coolercontrol: Some(unit_runs(s@)), ..w },
                change_event(
                    w.coolercontrol,
                    unit_runs(s@),
                    EventView::CoolerControl(unit_runs(s@)),
                ),
            ),
            None => (w, None),
        },
    }
}

/// An event that may be missing.
pub open spec fn event_view(e: Option<Event>) -> Option<EventView> {
    match e {
        Some(e) => Some(e@),
        None => None,
    }
}

/// What the helper's words mean.
pub fn helper_says(what: &str, words: &HelperWords) -> (r: Option<Event>)
    ensures
        event_view(r) == helper_event(what@, *words),
{
    if text::same(what, words.handed_back.as_str()) {
        return Some(Event::FansHandedBack);
    }
    match text::strip_start(what, words.recovery_abandoned.as_str()) {
        Some(rest) => Some(
            Event::RecoveryAbandoned(
                text::trim(text::strip_leading(rest.as_str(), ':').as_str()),
            ),
        ),
        None => None,
    }
}

impl Watch {
    /// Nothing heard yet, but for the charger and the dGPU's power status as
    /// they are: supergfxd sends changes only, so its first one counts.
    pub fn new(ac: Option<bool>, graphics: Option<u32>) -> (r: Self)
        ensures
            r@ == (WatchView {
                ac,
                graphics,
                asusd_mode: None,
                daemon_mode: None,
                coolercontrol: None,
            }),
    {
        Watch { ac, graphics, asusd_mode: None, daemon_mode: None, coolercontrol: None }
    }

    /// Takes a signal in, and gives the event that it is, if any.
    pub fn hear(self, words: &HelperWords, signal: Signal) -> (r: (Self, Option<Event>))
        ensures
            (r.0@, event_view(r.1)) == heard(self@, *words, signal),
    {
        let mut w = self;
        match signal {
            Signal::Ac(now) => {
                let event = match now {
                    Some(on) => match w.ac {
                        Some(was) => if on != was {
                            Some(Event::Power(on))
                        } else {
                            None
                        },
                        None => Some(Event::Power(on)),
                    },
                    None => None,
                };
                w.ac = now;
                (w, event)
            },
            Signal::Sleep(start) => {
                let event = match start {
                    Some(false) => Some(Event::Resumed),
                    _ => None,
                };
                (w, event)
            },
            Signal::GraphicsAction(runs) => {
                let event = match runs {
                    Some(true) => Some(Event::GraphicsSwitch),
                    _ => None,
                };
                (w, event)
            },
            Signal::GraphicsStatus { status, arrived } => {
                if status.is_none() {
                    return (w, None);
                }
                w.graphics = status;
                let event = if arrived {
                    Some(Event::DgpuArrived)
                } else {
                    None
                };
                (w, event)
            },
            Signal::Helper(what) => {
                let event = match what {
                    Some(s) => helper_says(s.as_str(), words),
                    None => None,
                };
                (w, event)
            },
            Signal::AsusdMode(mode) => match mode {
                Some(m) => {
                    let mut last: Option<String> = None;
                    std::mem::swap(&mut last, &mut w.asusd_mode);
                    let (now, change) = changes_only(last, m);
                    w.asusd_mode = now;
                    let event = match change {
                        Some(mode) => Some(Event::PowerMode { owner: Owner::Asusd, mode }),
                        None => None,
                    };
                    (w, event)
                },
                None => (w, None),
            },
            Signal::DaemonMode(mode) => match mode {
                Some(m) => {
                    let mut last: Option<String> = None;
                    std::mem::swap(&mut last, &mut w.daemon_mode);
                    let (now, change) = changes_only(last, m);
                    w.daemon_mode = now;
                    let event = match change {
                        Some(mode) => Some(
                            Event::PowerMode { owner: Owner::PowerProfilesDaemon, mode },
                        ),
                        None => None,
                    };
                    (w, event)
                },
                None => (w, None),
            },
            Signal::CoolerControlUnit(state) => match state {
                Some(s) => {
                    let runs = text::same(s.as_str(), "active") || text::same(
                        s.as_str(),
                        "reloading",
                    );
                    let event = match w.coolercontrol {
                        Some(was) => if was != runs {
                            Some(Event::CoolerControl(runs))
                        } else {
                            None
                        },
                        None => None,
                    };
                    w.coolercontrol = Some(runs);
                    (w, event)
                },
                None => (w, None),
            },
        }
    }
}

/// Which sources are there.
#[derive(Debug, Clone, Copy, PartialEq, Eq, Structural)]
pub struct Sources {
    /// There is a mains supply.
    pub mains: bool,
    /// The system bus, without which there is none of the others.
    pub bus: bool,
    pub resume: bool,
    pub graphics_switches: bool,
    pub dgpu_arrivals: bool,
    pub hand_backs: bool,
    pub coolercontrol: bool,
}

/// What is watched, in words.
pub open spec fn watched(s: Sources) -> Seq<Seq<char>> {
    let charger = seq![
        if s.mains {
            "charger"@
        } else {
            "no charger (no mains supply)"@
        },
    ];
    if s.bus {
        charger + text::word_if(s.resume, "resume"@) + text::word_if(s.graphics_switches, "graphics switches"@)
            + text::word_if(s.dgpu_arrivals, "dGPU arrivals"@) + text::word_if(
            s.hand_backs,
            "helper hand-backs"@,
        ) + seq!["power modes"@] + text::word_if(s.coolercontrol, "CoolerControl"@)
    } else {
        charger
    }
}

impl Sources {
    /// What is watched, in one line.
    pub fn watching(&self) -> (r: String)
        ensures
            r@ == text::joined(watched(*self), ", "@),
    {
        let mut list: Vec<String> = Vec::new();
        assert(text::texts(list@) =~= seq![]);
        text::push_if(&mut list, self.mains, "charger");
        text::push_if(&mut list, !self.mains, "no charger (no mains supply)");
        if self.bus {
            text::push_if(&mut list, self.resume, "resume");
            text::push_if(&mut list, self.graphics_switches, "graphics switches");
            text::push_if(&mut list, self.dgpu_arrivals, "dGPU arrivals");
            text::push_if(&mut list, self.hand_backs, "helper hand-backs");
            text::push_if(&mut list, true, "power modes");
            text::push_if(&mut list, self.coolercontrol, "CoolerControl");
        }
        assert(text::texts(list@) =~= watched(*self));
        text::join(list.as_slice(), ", ")
    }
}

/// A change differs from the change before it: none repeats what is known.
pub proof fn changes_alternate<T>(values: Seq<T>)
    ensures
        forall|i: int|
            0 <= i < changes(values).len() - 1 ==> #[trigger] changes(values)[i] != changes(
                values,
            )[i + 1],
        changes(values).len() > 0 ==> changes(values).last() == values.last(),
        changes(values).len() == 0 ==> forall|i: int|
            0 <= i < values.len() ==> #[trigger] values[i] == values[0],
    decreases values.len(),
{
    if values.len() >= 2 {
        let rest = values.drop_last();
        changes_alternate(rest);
        if rest.last() != values.last() {
            let c = changes(values);
            assert forall|i: int| 0 <= i < c.len() - 1 implies #[trigger] c[i] != c[i + 1] by {
                if i < c.len() - 2 {
                    assert(changes(rest)[i] != changes(rest)[i + 1]);
                } else {
                    assert(c[i] == changes(rest).last());
                }
            }
        } else if changes(values).len() == 0 {
            assert forall|i: int| 0 <= i < values.len() implies #[trigger] values[i]
                == values[0] by {
                if i < rest.len() {
                    assert(rest[i] == values[i]);
                } else {
                    assert(rest[rest.len() - 1] == rest[0]);
                }
            }
        }
    }
}

/// The power modes that signals report of a daemon, of those that could be
/// read.
pub open spec fn reported_modes(signals: Seq<Signal>, owner: Owner) -> Seq<Seq<char>>
    decreases signals.len(),
{
    if signals.len() == 0 {
        seq![]
    } else {
        let rest = reported_modes(signals.drop_last(), owner);
        match signals.last() {
            Signal::AsusdMode(Some(m)) => if owner == Owner::Asusd {
                rest.push(m@)
            } else {
                rest
            },
            Signal::DaemonMode(Some(m)) => if owner == Owner::PowerProfilesDaemon {
                rest.push(m@)
            } else {
                rest
            },
            _ => rest,
        }
    }
}

/// What signals report of CoolerControl's unit, of what could be read.
pub open spec fn reported_runs(signals: Seq<Signal>) -> Seq<bool>
    decreases signals.len(),
{
    if signals.len() == 0 {
        seq![]
    } else {
        let rest = reported_runs(signals.drop_last());
        match signals.last() {
            Signal::CoolerControlUnit(Some(s)) => rest.push(unit_runs(s@)),
            _ => rest,
        }
    }
}

/// What is known after signals.
pub open spec fn after_signals(
    w: WatchView,
    words: HelperWords,
    signals: Seq<Signal>,
) -> WatchView
    decreases signals.len(),
{
    if signals.len() == 0 {
        w
    } else {
        heard(after_signals(w, words, signals.drop_last()), words, signals.last()).0
    }
}

/// The power modes of a daemon that signals are events of.
pub open spec fn mode_events(
    w: WatchView,
    words: HelperWords,
    signals: Seq<Signal>,
    owner: Owner,
) -> Seq<Seq<char>>
    decreases signals.len(),
{
    if signals.len() == 0 {
        seq![]
    } else {
        let rest = mode_events(w, words, signals.drop_last(), owner);
        match heard(after_signals(w, words, signals.drop_last()), words, signals.last()).1 {
            Some(EventView::PowerMode { owner: o, mode }) => if o == owner {
                rest.push(mode)
            } else {
                rest
            },
            _ => rest,
        }
    }
}

/// The starts and stops of CoolerControl that signals are events of.
pub open spec fn coolercontrol_events(
    w: WatchView,
    words: HelperWords,
    signals: Seq<Signal>,
) -> Seq<bool>
    decreases signals.len(),
{
    if signals.len() == 0 {
        seq![]
    } else {
        let rest = coolercontrol_events(w, words, signals.drop_last());
        match heard(after_signals(w, words, signals.drop_last()), words, signals.last()).1 {
            Some(EventView::CoolerControl(on)) => rest.push(on),
            _ => rest,
        }
    }
}

/// The value that was seen last, if any was.
pub open spec fn last_of<T>(values: Seq<T>) -> Option<T> {
    if values.len() > 0 {
        Some(values.last())
    } else {
        None
    }
}

/// However signals mix, a daemon's power mode is an event exactly where it
/// changes, and so is CoolerControl's unit: the first value is where things
/// were.
pub proof fn events_are_changes(w: WatchView, words: HelperWords, signals: Seq<Signal>)
    requires
        w.asusd_mode is None,
        w.daemon_mode is None,
        w.coolercontrol is None,
    ensures
        mode_events(w, words, signals, Owner::Asusd) == changes(
            reported_modes(signals, Owner::Asusd),
        ),
        mode_events(w, words, signals, Owner::PowerProfilesDaemon) == changes(
            reported_modes(signals, Owner::PowerProfilesDaemon),
        ),
        coolercontrol_events(w, words, signals) == changes(reported_runs(signals)),
        after_signals(w, words, signals).asusd_mode == last_of(
            reported_modes(signals, Owner::Asusd),
        ),
        after_signals(w, words, signals).daemon_mode == last_of(
            reported_modes(signals, Owner::PowerProfilesDaemon),
        ),
        after_signals(w, words, signals).coolercontrol == last_of(reported_runs(signals)),
    decreases signals.len(),
{
    if signals.len() > 0 {
        let rest = signals.drop_last();
        events_are_changes(w, words, rest);
        let before = after_signals(w, words, rest);
        match signals.last() {
            Signal::AsusdMode(Some(m)) => {
                assert(reported_modes(signals, Owner::Asusd).drop_last() =~= reported_modes(
                    rest,
                    Owner::Asusd,
                ));
            },
            Signal::DaemonMode(Some(m)) => {
                assert(reported_modes(signals, Owner::PowerProfilesDaemon).drop_last()
                    =~= reported_modes(rest, Owner::PowerProfilesDaemon));
            },
            Signal::CoolerControlUnit(Some(s)) => {
                assert(reported_runs(signals).drop_last() =~= reported_runs(rest));
            },
            _ => {},
        }
    }
}

/// The charger is an event exactly where it is seen in another state than
/// last; without a mains supply there is none.
pub proof fn charger_events_are_changes(w: WatchView, words: HelperWords, now: Option<bool>)
    ensures
        heard(w, words, Signal::Ac(now)).1 is Some <==> now is Some && now != w.ac,
        heard(w, words, Signal::Ac(now)).0.ac == now,
{
}

} // verus!
