//! What signals and answers of daemons lead to: which event, which power mode
//! and which way a limit goes.

use crate::events::{EventView, HelperWords, Signal, Sources, Supply, WatchView};
use crate::model::Owner;
use crate::routes::{
    AttrRouteView, ModesAnswer, ModesQuestion, ModesStepView, PowerCall, PowerReply, PowerRequest,
    PowerStepView,
};
use crate::{events, number, routes, text};
use vstd::prelude::*;
use vstd::string::*;

verus! {

/// When the charger is seen in another state than last, the event says the
/// state it is in now; when it is seen in the same state, or in none, there
/// is no event. Nothing else that was seen changes.
pub proof fn charger_events_say_the_state(w: WatchView, words: HelperWords, on: bool)
    ensures
        w.ac != Some(on) ==> events::heard(w, words, Signal::Ac(Some(on))).1 == Some(
            EventView::Power(on),
        ),
        w.ac == Some(on) ==> events::heard(w, words, Signal::Ac(Some(on))).1 is None,
        events::heard(w, words, Signal::Ac(None)).1 is None,
        events::heard(w, words, Signal::Ac(Some(on))).0 == (WatchView { ac: Some(on), ..w }),
        events::heard(w, words, Signal::Ac(None)).0 == (WatchView { ac: None, ..w }),
{
}

/// Plugging in and out again are two events, one for each state.
pub proof fn plugging_in_and_out_are_two_events(w: WatchView, words: HelperWords, on: bool)
    requires
        w.ac == Some(!on),
    ensures
        ({
            let (then_w, first) = events::heard(w, words, Signal::Ac(Some(on)));
            let (_, second) = events::heard(then_w, words, Signal::Ac(Some(!on)));
            &&& first == Some(EventView::Power(on))
            &&& second == Some(EventView::Power(!on))
        }),
{
}

/// Waking up is an event, going to sleep is none; a graphics switch that runs
/// is one, a refusal is none. Neither changes what was seen.
pub proof fn waking_and_switching_are_events(w: WatchView, words: HelperWords, yes: bool)
    ensures
        events::heard(w, words, Signal::Sleep(Some(yes))).1 == (if yes {
            None
        } else {
            Some(EventView::Resumed)
        }),
        events::heard(w, words, Signal::GraphicsAction(Some(yes))).1 == (if yes {
            Some(EventView::GraphicsSwitch)
        } else {
            None
        }),
        events::heard(w, words, Signal::Sleep(None)).1 is None,
        events::heard(w, words, Signal::GraphicsAction(None)).1 is None,
        events::heard(w, words, Signal::Sleep(Some(yes))).0 == w,
        events::heard(w, words, Signal::GraphicsAction(Some(yes))).0 == w,
{
}

/// The dGPU coming back on the bus is an event; every status that is said is
/// remembered, and one that can't be read changes nothing.
pub proof fn dgpu_arrivals_are_events(
    w: WatchView,
    words: HelperWords,
    status: u32,
    arrived: bool,
)
    ensures
        events::heard(w, words, Signal::GraphicsStatus { status: Some(status), arrived }).1 == (
        if arrived {
            Some(EventView::DgpuArrived)
        } else {
            None
        }),
        events::heard(w, words, Signal::GraphicsStatus { status: Some(status), arrived }).0 == (
        WatchView { graphics: Some(status), ..w }),
        events::heard(w, words, Signal::GraphicsStatus { status: None, arrived }) == (
            w,
            None::<EventView>,
        ),
{
}

/// A mode that a daemon reports is an event where it is another than that
/// daemon reported last: the event names the daemon and the mode. The first
/// report is where things were, and each daemon is watched for itself.
pub proof fn mode_events_name_daemon_and_mode(w: WatchView, words: HelperWords, m: String)
    ensures
        w.asusd_mode is Some && w.asusd_mode->0 != m@ ==> events::heard(
            w,
            words,
            Signal::AsusdMode(Some(m)),
        ).1 == Some(EventView::PowerMode { owner: Owner::Asusd, mode: m@ }),
        w.asusd_mode is None || w.asusd_mode->0 == m@ ==> events::heard(
            w,
            words,
            Signal::AsusdMode(Some(m)),
        ).1 is None,
        events::heard(w, words, Signal::AsusdMode(Some(m))).0 == (WatchView {
            asusd_mode: Some(m@),
            ..w
        }),
        w.daemon_mode is Some && w.daemon_mode->0 != m@ ==> events::heard(
            w,
            words,
            Signal::DaemonMode(Some(m)),
        ).1 == Some(EventView::PowerMode { owner: Owner::PowerProfilesDaemon, mode: m@ }),
        w.daemon_mode is None || w.daemon_mode->0 == m@ ==> events::heard(
            w,
            words,
            Signal::DaemonMode(Some(m)),
        ).1 is None,
        events::heard(w, words, Signal::DaemonMode(Some(m))).0 == (WatchView {
            daemon_mode: Some(m@),
            ..w
        }),
        events::heard(w, words, Signal::AsusdMode(None)) == (w, None::<EventView>),
        events::heard(w, words, Signal::DaemonMode(None)) == (w, None::<EventView>),
{
}

/// CoolerControl runs while its unit is active or reloads, and not otherwise;
/// where that changes, the event says how it is now.
pub proof fn coolercontrol_events_say_whether_it_runs(
    w: WatchView,
    words: HelperWords,
    state: String,
)
    ensures
        ({
            let runs = state@ == "active"@ || state@ == "reloading"@;
            let (now, event) = events::heard(
                w,
                words,
                Signal::CoolerControlUnit(Some(state)),
            );
            &&& now == (WatchView { coolercontrol: Some(runs), ..w })
            &&& w.coolercontrol == Some(!runs) ==> event == Some(EventView::CoolerControl(runs))
            &&& w.coolercontrol != Some(!runs) ==> event is None
        }),
        events::heard(w, words, Signal::CoolerControlUnit(None)) == (w, None::<EventView>),
{
}

/// The helper's word that it handed the fans back is that event; its word that
/// it gave outputs up names them, without the colons and white space around
/// them; any other word is none.
pub proof fn helper_words_are_events(
    w: WatchView,
    words: HelperWords,
    what: String,
    outputs: Seq<char>,
)
    ensures
        what@ == words.handed_back@ ==> events::heard(w, words, Signal::Helper(Some(what))).1
            == Some(EventView::FansHandedBack),
        what@ != words.handed_back@ && what@ == words.recovery_abandoned@ + outputs
            ==> events::heard(w, words, Signal::Helper(Some(what))).1 == Some(
            EventView::RecoveryAbandoned(text::trimmed(text::without_leading(outputs, ':'))),
        ),
        what@ != words.handed_back@ && !text::begins(what@, words.recovery_abandoned@)
            ==> events::heard(w, words, Signal::Helper(Some(what))).1 is None,
        events::heard(w, words, Signal::Helper(Some(what))).0 == w,
        events::heard(w, words, Signal::Helper(None)) == (w, None::<EventView>),
{
    crate::text_laws::parts_make_the_whole(seq![], words.recovery_abandoned@, outputs);
}

/// Mains power is known where there is a mains supply, and is on where one of
/// them is online; batteries say nothing of it.
pub proof fn mains_supplies_decide(supplies: Seq<Supply>, i: int)
    ensures
        (forall|j: int|
            0 <= j < supplies.len() ==> !((#[trigger] supplies[j]).kind is Some
                && supplies[j].kind->0@ == "Mains"@)) ==> events::mains_power(supplies) is None,
        0 <= i < supplies.len() && supplies[i].kind is Some && supplies[i].kind->0@ == "Mains"@
            ==> events::mains_power(supplies) is Some,
        0 <= i < supplies.len() && supplies[i].kind is Some && supplies[i].kind->0@ == "Mains"@
            && supplies[i].online is Some && supplies[i].online->0@ == "1"@
            ==> events::mains_power(supplies) == Some(true),
        0 <= i < supplies.len() && supplies[i].kind is Some && supplies[i].kind->0@ == "Mains"@ && (
        forall|j: int|
            0 <= j < supplies.len() ==> !((#[trigger] supplies[j]).kind is Some
                && supplies[j].kind->0@ == "Mains"@ && supplies[j].online is Some
                && supplies[j].online->0@ == "1"@)) ==> events::mains_power(supplies) == Some(
            false,
        ),
{
    if 0 <= i < supplies.len() {
        assert(supplies[i].is_mains() <==> supplies[i].kind is Some && supplies[i].kind->0@
            == "Mains"@);
    }
}

/// A state is a change where another was there before.
pub proof fn changes_need_another_before<T>(last: Option<T>, now: T)
    ensures
        last is None ==> !events::is_change(last, now),
        last is Some ==> (events::is_change(last, now) <==> last->0 != now),
{
}

/// What is watched is said: the charger or that there is none, and over the
/// bus each source that is there, and power modes.
pub proof fn watched_sources_are_said(s: Sources)
    ensures
        ({
            let all = events::watched(s);
            let one = |there: bool|
                if there {
                    1int
                } else {
                    0int
                };
            &&& all.len() >= 1
            &&& s.mains ==> all[0] == "charger"@
            &&& !s.mains ==> all[0] == "no charger (no mains supply)"@
            &&& !s.bus ==> all.len() == 1
            &&& s.bus ==> {
                &&& all.len() == 2 + one(s.resume) + one(s.graphics_switches) + one(
                    s.dgpu_arrivals,
                ) + one(s.hand_backs) + one(s.coolercontrol)
                &&& s.resume ==> all[1] == "resume"@
                &&& s.graphics_switches ==> all[1 + one(s.resume)] == "graphics switches"@
                &&& s.dgpu_arrivals ==> all[1 + one(s.resume) + one(s.graphics_switches)]
                    == "dGPU arrivals"@
                &&& s.hand_backs ==> all[1 + one(s.resume) + one(s.graphics_switches) + one(
                    s.dgpu_arrivals,
                )] == "helper hand-backs"@
                &&& all[1 + one(s.resume) + one(s.graphics_switches) + one(s.dgpu_arrivals) + one(
                    s.hand_backs,
                )] == "power modes"@
                &&& s.coolercontrol ==> all.last() == "CoolerControl"@
            }
        }),
{
}

/// Without a model power modes are asked for in the model's order: asusd, then
/// power-profiles-daemon, then the kernel. The first that names some owns
/// them; one that names none, or does not answer, is passed over; and where
/// the bus is not there the kernel is asked at once.
pub proof fn first_to_name_modes_owns_them(names: Vec<String>, list: String)
    ensures
        routes::fallback_step(ModesQuestion::Bus, ModesAnswer::Bus) == ModesStepView::Ask(
            ModesQuestion::Asusd,
        ),
        routes::fallback_step(ModesQuestion::Bus, ModesAnswer::Nothing) == ModesStepView::Ask(
            ModesQuestion::Sysfs,
        ),
        routes::fallback_step(ModesQuestion::Asusd, ModesAnswer::Nothing) == ModesStepView::Ask(
            ModesQuestion::PowerProfilesDaemon,
        ),
        routes::fallback_step(ModesQuestion::PowerProfilesDaemon, ModesAnswer::Nothing)
            == ModesStepView::Ask(ModesQuestion::Sysfs),
        names@.len() > 0 ==> {
            &&& routes::fallback_step(ModesQuestion::Asusd, ModesAnswer::Names(names)) == (
            ModesStepView::Known { owner: Some(Owner::Asusd), modes: text::texts(names@) })
            &&& routes::fallback_step(
                ModesQuestion::PowerProfilesDaemon,
                ModesAnswer::Names(names),
            ) == (ModesStepView::Known {
                owner: Some(Owner::PowerProfilesDaemon),
                modes: text::texts(names@),
            })
        },
        names@.len() == 0 ==> {
            &&& routes::fallback_step(ModesQuestion::Asusd, ModesAnswer::Names(names))
                == ModesStepView::Ask(ModesQuestion::PowerProfilesDaemon)
            &&& routes::fallback_step(
                ModesQuestion::PowerProfilesDaemon,
                ModesAnswer::Names(names),
            ) == ModesStepView::Ask(ModesQuestion::Sysfs)
        },
        text::words(list@).len() > 0 ==> routes::fallback_step(
            ModesQuestion::Sysfs,
            ModesAnswer::Text(list),
        ) == (ModesStepView::Known { owner: Some(Owner::Sysfs), modes: text::words(list@) }),
        text::words(list@).len() == 0 ==> routes::fallback_step(
            ModesQuestion::Sysfs,
            ModesAnswer::Text(list),
        ) == (ModesStepView::Known { owner: None, modes: seq![] }),
        routes::fallback_step(ModesQuestion::Sysfs, ModesAnswer::Nothing) == (
        ModesStepView::Known { owner: None, modes: seq![] }),
{
}

/// A mode goes through its owner: asusd and power-profiles-daemon are opened
/// first, the kernel's file is read at once; asusd must know the mode by a
/// number, and without one of the three nothing is done.
pub proof fn modes_go_through_their_owner(request: PowerRequest, reply: PowerReply)
    ensures
        ({
            let first = routes::power_step(request, None, reply);
            &&& request.owner == Some(Owner::Asusd) && request.asusd_number is Some ==> first
                == PowerStepView::Call(PowerCall::Connect)
            &&& request.owner == Some(Owner::Asusd) && request.asusd_number is None ==> first
                == PowerStepView::End(
                Err::<bool, Seq<char>>("asusd has no "@ + request.mode@ + " mode"@),
            )
            &&& request.owner == Some(Owner::PowerProfilesDaemon) ==> first == PowerStepView::Call(
                PowerCall::Connect,
            )
            &&& request.owner == Some(Owner::Sysfs) ==> first == PowerStepView::Call(
                PowerCall::Read,
            )
            &&& request.owner != Some(Owner::Asusd) && request.owner != Some(
                Owner::PowerProfilesDaemon,
            ) && request.owner != Some(Owner::Sysfs) ==> first == PowerStepView::End(
                Err::<bool, Seq<char>>("nothing controls power modes here"@),
            )
        }),
{
}

/// A mode that is selected already is left alone: asusd's by its number, the
/// others' by the very name. Any other answer, a failure too, has it
/// selected.
pub proof fn selected_modes_are_recognised(
    request: PowerRequest,
    n: u32,
    name: String,
    why: String,
)
    ensures
        ({
            let same = PowerStepView::End(Ok::<bool, Seq<char>>(false));
            let write = PowerStepView::Call(PowerCall::Write);
            let read = Some(PowerCall::Read);
            &&& request.owner == Some(Owner::Asusd) ==> routes::power_step(
                request,
                read,
                PowerReply::Number(n),
            ) == if request.asusd_number == Some(n) {
                same
            } else {
                write
            }
            &&& request.owner == Some(Owner::PowerProfilesDaemon) || request.owner == Some(
                Owner::Sysfs,
            ) ==> routes::power_step(request, read, PowerReply::Name(name)) == if name@
                == request.mode@ {
                same
            } else {
                write
            }
            &&& routes::power_step(request, read, PowerReply::Failed(why)) == write
        }),
{
}

/// What opening or selecting fails with is the outcome; a mode that was
/// selected has changed.
pub proof fn selecting_says_how_it_went(request: PowerRequest, why: String)
    ensures
        routes::power_step(request, Some(PowerCall::Connect), PowerReply::Failed(why))
            == PowerStepView::End(Err::<bool, Seq<char>>(why@)),
        routes::power_step(request, Some(PowerCall::Connect), PowerReply::Done)
            == PowerStepView::Call(PowerCall::Read),
        routes::power_step(request, Some(PowerCall::Write), PowerReply::Failed(why))
            == PowerStepView::End(Err::<bool, Seq<char>>(why@)),
        routes::power_step(request, Some(PowerCall::Write), PowerReply::Done)
            == PowerStepView::End(Ok::<bool, Seq<char>>(true)),
{
}

/// A limit goes through asusd as the number it is, where that takes it; and
/// else to the attribute's own file, as a text that reads as the number.
pub proof fn limits_go_the_owners_way(name: Seq<char>, value: i64)
    ensures
        -0x8000_0000 <= value <= 0x7fff_ffff ==> (routes::attr_route(name, value, true)
            matches AttrRouteView::Asusd(Ok(n)) && n == value),
        !(-0x8000_0000 <= value <= 0x7fff_ffff) ==> routes::attr_route(name, value, true)
            == AttrRouteView::Asusd(
            Err::<i32, Seq<char>>("out of range integral type conversion attempted"@),
        ),
        routes::attr_route(name, value, false) matches AttrRouteView::File { path, text } && path
            == crate::control_laws::armoury_file(name, "current_value"@) && number::i64_in(text)
            == Some(value),
{
    crate::text_laws::numbers_read_back(value, 0);
}

} // verus!
