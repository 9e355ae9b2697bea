//! What showing, reading and describing lights comes to.

use crate::lighting::{
    AuraActionView, AuraEffectView, LightCallView, LightReply, LightState, LightStateView,
    ModeNames, ReadCall, ReadReply, ReadStepView, ReadingView, RgbCallView, RgbDevice, Show,
    ShowState, ShowStepView, SlashOption,
};
use crate::model::LightingDevice;
use crate::profile::{LightingMode, Rgb};
use crate::{levels, lighting, number, seqs, text};
use vstd::prelude::*;
use vstd::string::*;

verus! {

/// Whether an effect shows a mode in one colour, over black.
pub open spec fn shows(e: AuraEffectView, mode: u32, c: Rgb) -> bool {
    &&& e.mode == mode
    &&& e.zone == 0
    &&& e.colour1.0 == c.r
    &&& e.colour1.1 == c.g
    &&& e.colour1.2 == c.b
    &&& e.colour2.0 == 0 && e.colour2.1 == 0 && e.colour2.2 == 0
    &&& e.speed == "Med"@
    &&& e.direction == "Right"@
}

/// A keyboard that lists mode 0 shows a static colour in it, channel by
/// channel; one that does not can't show it.
pub proof fn static_shows_its_colour(modes: Seq<u32>, c: Rgb, accent: Rgb)
    ensures
        lighting::planned(modes, LightingMode::Static(c), accent) is Some <==> modes.contains(0),
        modes.contains(0) ==> (lighting::planned(modes, LightingMode::Static(c), accent)
            matches Some(AuraActionView::Effect(e)) && shows(e, 0, c)),
{
}

/// A keyboard that lists mode 1 breathes in the colour it is given.
pub proof fn breathing_shows_its_colour(modes: Seq<u32>, c: Rgb, accent: Rgb)
    ensures
        lighting::planned(modes, LightingMode::Breathing(c), accent) is Some <==> modes.contains(
            1,
        ),
        modes.contains(1) ==> (lighting::planned(modes, LightingMode::Breathing(c), accent)
            matches Some(AuraActionView::Effect(e)) && shows(e, 1, c)),
{
}

/// A rainbow is mode 2 where it is listed, else mode 3 where that is; an
/// effect of the keyboard's own is the mode of its number, where it is
/// listed, in the accent.
pub proof fn own_effects_show_the_accent(modes: Seq<u32>, m: u32, accent: Rgb)
    ensures
        ({
            let black = Rgb { r: 0, g: 0, b: 0 };
            let rainbow = lighting::planned(modes, LightingMode::Rainbow, accent);
            let own = lighting::planned(modes, LightingMode::Firmware(m), accent);
            &&& rainbow is Some <==> modes.contains(2) || modes.contains(3)
            &&& modes.contains(2) ==> (rainbow matches Some(AuraActionView::Effect(e)) && shows(
                e,
                2,
                black,
            ))
            &&& !modes.contains(2) && modes.contains(3) ==> (rainbow matches Some(
                AuraActionView::Effect(e),
            ) && shows(e, 3, black))
            &&& own is Some <==> modes.contains(m)
            &&& modes.contains(m) ==> (own matches Some(AuraActionView::Effect(e)) && shows(
                e,
                m,
                accent,
            ))
        }),
{
}

/// Off is darkness on every keyboard; what follows a temperature and single
/// LEDs are beyond one.
pub proof fn off_is_dark_everywhere(modes: Seq<u32>, mode: LightingMode, accent: Rgb)
    ensures
        lighting::planned(modes, mode, accent) == Some(AuraActionView::Off) <==> mode is Off,
        mode is Thermal || mode is Direct ==> lighting::planned(modes, mode, accent) is None,
{
}

/// Two colours are planned as two effects: nothing of a colour is lost.
pub proof fn planned_colours_differ(modes: Seq<u32>, a: Rgb, b: Rgb, accent: Rgb)
    requires
        a != b,
    ensures
        modes.contains(0) ==> lighting::planned(modes, LightingMode::Static(a), accent)
            != lighting::planned(modes, LightingMode::Static(b), accent),
        modes.contains(1) ==> lighting::planned(modes, LightingMode::Breathing(a), accent)
            != lighting::planned(modes, LightingMode::Breathing(b), accent),
{
}

/// A colour is written as a hash and its three channels in hexadecimal.
pub proof fn colours_are_written_by_channels(c: Rgb)
    ensures
        c.code().len() == 7,
        c.code()[0] == '#',
        c.code().subrange(1, 3) == number::hex_byte(c.r),
        c.code().subrange(3, 5) == number::hex_byte(c.g),
        c.code().subrange(5, 7) == number::hex_byte(c.b),
{
    assert(c.code().subrange(1, 3) =~= number::hex_byte(c.r));
    assert(c.code().subrange(3, 5) =~= number::hex_byte(c.g));
    assert(c.code().subrange(5, 7) =~= number::hex_byte(c.b));
}

/// What reports call a mode.
pub proof fn modes_are_described(c: Rgb, m: u32, mode: LightingMode)
    ensures
        lighting::described(LightingMode::Off) == "off"@,
        lighting::described(LightingMode::Static(c)) == "static "@ + c.code(),
        lighting::described(LightingMode::Breathing(c)) == "breathing "@ + c.code(),
        lighting::described(LightingMode::Rainbow) == "rainbow"@,
        lighting::described(LightingMode::Firmware(m)) == "effect "@ + number::decimal(m as nat),
        mode is Thermal ==> lighting::described(mode) == "thermal glow"@,
        mode is Direct ==> lighting::described(mode) == "per-LED colours"@,
{
}

/// A device's own effect is called by its name: the first of its number among
/// the keyboards' or the Slash bar's. One without a name is a keyboard's
/// other effect, or the animation of its number.
pub proof fn own_effects_are_named(device: LightingDevice, m: u32, names: ModeNames, i: int)
    ensures
        lighting::described_on(device, LightingMode::Firmware(m), names) == lighting::name_of(
            device,
            m,
            names,
        ),
        device.backend is AsusdAura && 0 <= i < names.aura@.len() && names.aura@[i].mode == m && (
        forall|j: int| 0 <= j < i ==> (#[trigger] names.aura@[j]).mode != m)
            ==> lighting::name_of(device, m, names) == names.aura@[i].name@,
        device.backend is AsusdAura && (forall|j: int|
            0 <= j < names.aura@.len() ==> (#[trigger] names.aura@[j]).mode != m)
            ==> lighting::name_of(device, m, names) == names.aura_other@,
        device.backend is AsusdSlash && 0 <= i < names.slash@.len() && names.slash@[i].mode == m
            && (forall|j: int| 0 <= j < i ==> (#[trigger] names.slash@[j]).mode != m)
            ==> lighting::name_of(device, m, names) == names.slash@[i].name@,
        device.backend is AsusdSlash && (forall|j: int|
            0 <= j < names.slash@.len() ==> (#[trigger] names.slash@[j]).mode != m)
            ==> lighting::name_of(device, m, names) == "Animation "@ + number::decimal(m as nat),
{
    let f = lighting::names_mode(m);
    if 0 <= i < names.aura@.len() && names.aura@[i].mode == m && (forall|j: int|
        0 <= j < i ==> (#[trigger] names.aura@[j]).mode != m) {
        seqs::first_where_is(names.aura@, f, i);
    }
    if forall|j: int| 0 <= j < names.aura@.len() ==> (#[trigger] names.aura@[j]).mode != m {
        seqs::first_where_none(names.aura@, f);
    }
    if 0 <= i < names.slash@.len() && names.slash@[i].mode == m && (forall|j: int|
        0 <= j < i ==> (#[trigger] names.slash@[j]).mode != m) {
        seqs::first_where_is(names.slash@, f, i);
    }
    if forall|j: int| 0 <= j < names.slash@.len() ==> (#[trigger] names.slash@[j]).mode != m {
        seqs::first_where_none(names.slash@, f);
    }
}

/// On a Slash bar a static colour is its static animation; every other mode
/// is called the same on any device.
pub proof fn other_modes_are_called_the_same(
    device: LightingDevice,
    mode: LightingMode,
    names: ModeNames,
)
    requires
        !(mode is Firmware),
    ensures
        mode is Static && device.backend is AsusdSlash ==> lighting::described_on(
            device,
            mode,
            names,
        ) == "Static"@,
        !(mode is Static && device.backend is AsusdSlash) ==> lighting::described_on(
            device,
            mode,
            names,
        ) == lighting::described(mode),
{
}

/// What a lit device shows: a keyboard's modes 0 and 1 in their colour, any
/// other by its number, and a Slash bar's animation.
pub proof fn lit_devices_show_their_mode(state: LightState)
    ensures
        state matches LightState::Aura { listed, colour, level } ==> {
            &&& listed == 0 ==> lighting::lit(state) == LightingMode::Static(colour)
            &&& listed == 1 ==> lighting::lit(state) == LightingMode::Breathing(colour)
            &&& listed > 1 ==> lighting::lit(state) == LightingMode::Firmware(listed)
            &&& lighting::is_dark(state) <==> level == 0
        },
        state matches LightState::Slash { enabled, mode, .. } ==> {
            &&& lighting::lit(state) == LightingMode::Firmware(mode as u32)
            &&& lighting::is_dark(state) <==> !enabled
        },
{
}

/// A keyboard that was opened is told the effect that is planned; the dark
/// one its lowest level; and one that can't show the mode is told nothing.
pub proof fn opened_keyboards_take_the_plan(show: Show, names: ModeNames)
    requires
        show.device.backend is AsusdAura,
    ensures
        ({
            let plan = lighting::planned(show.device.modes@, show.mode, show.accent);
            let (state, step) = lighting::shown(
                show,
                names,
                ShowState::Connecting,
                LightReply::Done,
            );
            &&& plan matches Some(AuraActionView::Effect(e)) ==> state == ShowState::SettingEffect
                && step == ShowStepView::Call(LightCallView::SetEffect(e))
            &&& plan == Some(AuraActionView::Off) ==> state == ShowState::Finishing && step
                == ShowStepView::Call(LightCallView::SetLevel(0))
            &&& plan is None ==> step == ShowStepView::End(
                Err::<(), Seq<char>>(
                    show.device.label@ + " can't show "@ + lighting::described_on(
                        show.device,
                        show.mode,
                        names,
                    ),
                ),
            )
        }),
{
}

/// Behind the effect comes the level of the profile's brightness, where it is
/// not dark; else the level is asked for, and a dark keyboard is set to its
/// brightest level.
pub proof fn effects_are_lit(show: Show, names: ModeNames, level: u32)
    ensures
        ({
            let all = show.device.brightness_levels@;
            let wanted = show.brightness is Some && levels::level_for(all, show.brightness->0)
                is Some && levels::level_for(all, show.brightness->0)->0 > 0;
            let next = lighting::shown(show, names, ShowState::SettingEffect, LightReply::Done);
            let last = lighting::shown(
                show,
                names,
                ShowState::ReadingLevel,
                LightReply::Level(level),
            );
            &&& wanted ==> next.0 == ShowState::Finishing && next.1 == ShowStepView::Call(
                LightCallView::SetLevel(levels::level_for(all, show.brightness->0)->0),
            )
            &&& !wanted ==> next.0 == ShowState::ReadingLevel && next.1 == ShowStepView::Call(
                LightCallView::ReadLevel,
            )
            &&& level > 0 || all.len() == 0 ==> last.1 == ShowStepView::End(
                Ok::<(), Seq<char>>(()),
            )
            &&& level == 0 && all.len() > 0 ==> (last.1 matches ShowStepView::Call(
                LightCallView::SetLevel(top),
            ) && all.contains(top) && (forall|i: int|
                0 <= i < all.len() ==> #[trigger] all[i] <= top) && last.0
                == ShowState::Finishing)
        }),
{
    let all = show.device.brightness_levels@;
    if all.len() > 0 {
        lighting::some_level_is_brightest(all);
    }
}

/// A Slash bar is switched off for Off. For its own animation, or its static
/// one for a colour, the animation is set where it lists it; anything else
/// it can't show.
pub proof fn opened_slash_bars_take_their_animation(show: Show, names: ModeNames)
    requires
        show.device.backend is AsusdSlash,
    ensures
        ({
            let (state, step) = lighting::shown(
                show,
                names,
                ShowState::Connecting,
                LightReply::Done,
            );
            let asked = show.mode is Firmware || show.mode is Static;
            let a = if show.mode is Firmware {
                show.mode->Firmware_0
            } else {
                names.slash_static
            };
            let there = a <= 255 && show.device.modes@.contains(a);
            &&& show.mode is Off ==> state == ShowState::Finishing && step == ShowStepView::Call(
                LightCallView::SetEnabled(false),
            )
            &&& asked && there ==> state == ShowState::SettingAnimation && step
                == ShowStepView::Call(LightCallView::SetAnimation(a as u8))
            &&& asked && !there ==> step == ShowStepView::End(
                Err::<(), Seq<char>>(
                    show.device.label@ + " has no animation "@ + number::decimal(a as nat),
                ),
            )
            &&& !asked && !(show.mode is Off) ==> step == ShowStepView::End(
                Err::<(), Seq<char>>(
                    show.device.label@ + " can't show "@ + lighting::described(show.mode),
                ),
            )
        }),
{
}

/// Behind a Slash bar's animation comes its brightness, where the profile sets
/// one, and at last the bar is switched on.
pub proof fn slash_bars_are_switched_on(show: Show, names: ModeNames)
    ensures
        show.brightness matches Some(percent) ==> lighting::shown(
            show,
            names,
            ShowState::SettingAnimation,
            LightReply::Done,
        ) == (
            ShowState::SettingBrightness,
            ShowStepView::Call(LightCallView::SetBrightness(levels::byte_for(percent))),
        ),
        show.brightness is None ==> lighting::shown(
            show,
            names,
            ShowState::SettingAnimation,
            LightReply::Done,
        ) == (ShowState::Finishing, ShowStepView::Call(LightCallView::SetEnabled(true))),
        lighting::shown(show, names, ShowState::SettingBrightness, LightReply::Done) == (
            ShowState::Finishing,
            ShowStepView::Call(LightCallView::SetEnabled(true)),
        ),
        lighting::shown(show, names, ShowState::Finishing, LightReply::Done).1
            == ShowStepView::End(Ok::<(), Seq<char>>(())),
{
}

/// A show ends exactly where it comes to its last state, whatever was answered,
/// and where it has ended nothing more is called.
pub proof fn shows_end_in_their_last_state(
    show: Show,
    names: ModeNames,
    state: ShowState,
    reply: LightReply,
)
    ensures
        lighting::shown(show, names, state, reply).1 is End <==> lighting::shown(
            show,
            names,
            state,
            reply,
        ).0 == ShowState::Finished,
        state == ShowState::Finished ==> lighting::shown(show, names, state, reply).1 is End,
{
}

/// A device's brightness is set by its backend's measure: a keyboard's by the
/// level of the percentage, a Slash bar's by the byte of it.
pub proof fn brightness_is_set_by_the_backend(device: LightingDevice, percent: u8)
    ensures
        device.backend is AsusdAura ==> match levels::level_for(
            device.brightness_levels@,
            percent,
        ) {
            Some(l) => lighting::brightness_of(device, percent) == Ok::<LightCallView, Seq<char>>(
                LightCallView::SetLevel(l),
            ),
            None => lighting::brightness_of(device, percent) == Err::<LightCallView, Seq<char>>(
                device.label@ + " has no brightness levels"@,
            ),
        },
        device.backend is AsusdSlash ==> lighting::brightness_of(device, percent) == Ok::<
            LightCallView,
            Seq<char>,
        >(LightCallView::SetBrightness(levels::byte_for(percent))),
{
}

/// A keyboard that answers its questions is read as the mode, the colour and
/// the level it says.
pub proof fn keyboards_are_read_as_they_answer(
    device: LightingDevice,
    r: ReadingView,
    listed: u32,
    colour: Rgb,
    level: u32,
)
    requires
        device.backend is AsusdAura,
        r.at is Connect,
    ensures
        ({
            let first = lighting::read_step(device, r, ReadReply::Open);
            &&& first is Ask
            &&& first->Ask_0.at is Effect
            &&& ({
                let second = lighting::read_step(
                    device,
                    first->Ask_0,
                    ReadReply::Effect { listed, colour },
                );
                &&& second is Ask
                &&& second->Ask_0.at is Level
                &&& lighting::read_step(device, second->Ask_0, ReadReply::Level(level))
                    == ReadStepView::End(
                    Ok::<LightStateView, Seq<char>>(
                        LightStateView::Aura { listed, colour, level },
                    ),
                )
            })
        }),
{
}

/// A Slash bar is asked for its options first, one after the other; one that
/// it does not answer is left out.
pub proof fn slash_options_are_read_in_turn(
    device: LightingDevice,
    r: ReadingView,
    on: bool,
    why: String,
)
    ensures
        device.backend is AsusdSlash && r.at is Connect ==> (lighting::read_step(
            device,
            r,
            ReadReply::Open,
        ) matches ReadStepView::Ask(next) && next.at == ReadCall::Option(0) && next.options
            == r.options),
        r.at matches ReadCall::Option(i) ==> i < 6 ==> {
            let told = lighting::read_step(device, r, ReadReply::Flag(on));
            let silent = lighting::read_step(device, r, ReadReply::Failed(why));
            &&& told is Ask
            &&& silent is Ask
            &&& silent->Ask_0.options == r.options
            &&& told->Ask_0.options.len() == r.options.len() + 1
            &&& told->Ask_0.options.drop_last() == r.options
            &&& told->Ask_0.options.last().1 == on
            &&& told->Ask_0.options.last().0 == option_at(i as int)
            &&& told->Ask_0.at == silent->Ask_0.at
            &&& i < 5 ==> told->Ask_0.at == ReadCall::Option((i + 1) as usize)
            &&& i == 5 ==> told->Ask_0.at is Enabled
        },
        r.at matches ReadCall::Option(i) ==> i >= 6 ==> lighting::read_step(
            device,
            r,
            ReadReply::Flag(on),
        ) == ReadStepView::Ask(r) && lighting::read_step(device, r, ReadReply::Failed(why))
            == ReadStepView::Ask(r),
{
    assert(forall|i: int| 0 <= i < 6 ==> #[trigger] SlashOption::ALL@[i] == option_at(i));
    if let ReadCall::Option(i) = r.at {
        if i < 6 {
            let told = lighting::read_step(device, r, ReadReply::Flag(on));
            assert(told->Ask_0.options.drop_last() =~= r.options);
        }
    }
}

/// The options of a Slash bar, in the order they are shown.
pub open spec fn option_at(i: int) -> SlashOption {
    if i == 0 {
        SlashOption::Boot
    } else if i == 1 {
        SlashOption::Shutdown
    } else if i == 2 {
        SlashOption::Sleep
    } else if i == 3 {
        SlashOption::Battery
    } else if i == 4 {
        SlashOption::LidClosed
    } else {
        SlashOption::BatteryWarning
    }
}

/// Behind its options a Slash bar is read as it answers: whether it is on,
/// which animation it shows and how bright it is.
pub proof fn slash_bars_are_read_as_they_answer(
    device: LightingDevice,
    r: ReadingView,
    enabled: bool,
    mode: u8,
    brightness: u8,
)
    requires
        r.at is Enabled,
    ensures
        ({
            let first = lighting::read_step(device, r, ReadReply::Flag(enabled));
            &&& first is Ask
            &&& first->Ask_0.at is Animation
            &&& ({
                let second = lighting::read_step(device, first->Ask_0, ReadReply::Byte(mode));
                &&& second is Ask
                &&& second->Ask_0.at is Brightness
                &&& lighting::read_step(device, second->Ask_0, ReadReply::Byte(brightness))
                    == ReadStepView::End(
                    Ok::<LightStateView, Seq<char>>(
                        LightStateView::Slash { enabled, mode, brightness, options: r.options },
                    ),
                )
            })
        }),
{
}

/// What a question other than one for an option fails with is what reading
/// ends with.
pub proof fn failed_questions_end_reading(device: LightingDevice, r: ReadingView, why: String)
    requires
        !(r.at is Option),
    ensures
        lighting::read_step(device, r, ReadReply::Failed(why)) == ReadStepView::End(
            Err::<LightStateView, Seq<char>>(why@),
        ),
{
}

/// Each device that answered is there with what it shows, in the order of the
/// devices, and no other.
pub proof fn answering_devices_are_listed(
    devices: Seq<LightingDevice>,
    replies: Seq<Result<LightState, String>>,
    i: int,
)
    requires
        0 <= i < replies.len() <= devices.len(),
    ensures
        ({
            let before = lighting::states_of(devices, replies.take(i)).len() as int;
            let all = lighting::states_of(devices, replies);
            &&& replies[i] matches Ok(s) ==> before < all.len() && all[before].0
                == devices[i].id.0@ && all[before].1 == s && lighting::states_of(
                devices,
                replies.take(i + 1),
            ).len() == before + 1
            &&& replies[i] is Err ==> lighting::states_of(devices, replies.take(i + 1)).len()
                == before
            &&& lighting::states_of(devices, replies.take(0)).len() == 0
        }),
    decreases replies.len(),
{
    let rest = replies.drop_last();
    assert(replies.take(i + 1).drop_last() =~= replies.take(i));
    assert(replies.take(0).len() == 0);
    if i < replies.len() - 1 {
        answering_devices_are_listed(devices, rest, i);
        assert(rest.take(i) =~= replies.take(i));
        assert(rest.take(i + 1) =~= replies.take(i + 1));
    } else {
        assert(replies.take(i) =~= rest);
        assert(replies.take(i + 1) =~= replies);
    }
}

/// An OpenRGB device is told what its mode is: off, a colour, a mode of its
/// number, or a colour for each LED.
pub proof fn openrgb_devices_take_the_mode(d: RgbDevice, name: Seq<char>, mode: LightingMode)
    ensures
        mode is Off ==> lighting::openrgb_call(d, name, mode) == Ok::<RgbCallView, Seq<char>>(
            RgbCallView::TurnOff(d.index),
        ),
        mode matches LightingMode::Static(c) ==> lighting::openrgb_call(d, name, mode) == Ok::<
            RgbCallView,
            Seq<char>,
        >(RgbCallView::SetStatic(d.index, c)),
        mode matches LightingMode::Firmware(m) ==> lighting::openrgb_call(d, name, mode) == Ok::<
            RgbCallView,
            Seq<char>,
        >(RgbCallView::SetMode(d.index, m as usize)),
        mode matches LightingMode::Direct(colours) ==> lighting::openrgb_call(d, name, mode)
            == Ok::<RgbCallView, Seq<char>>(RgbCallView::SetLeds(d.index, colours@)),
        mode is Thermal ==> lighting::openrgb_call(d, name, mode) == Err::<RgbCallView, Seq<char>>(
            "thermal glow runs from the Lighting page"@,
        ),
{
}

/// Whether an OpenRGB mode's name holds a word, in any case of letters.
pub open spec fn has_word(d: RgbDevice, i: int, word: Seq<char>) -> bool {
    text::includes(text::lower(d.modes@[i].name@), word)
}

/// A rainbow is the first mode that is called one, or a spectrum; breathing
/// the first that is called breath. A device without one says so.
pub proof fn openrgb_effects_are_found_by_name(
    d: RgbDevice,
    name: Seq<char>,
    c: Rgb,
    i: int,
)
    requires
        0 <= i <= d.modes@.len(),
    ensures
        (forall|j: int|
            0 <= j < i ==> !has_word(d, j, "rainbow"@) && !has_word(d, j, "spectrum"@)) ==> {
            let call = lighting::openrgb_call(d, name, LightingMode::Rainbow);
            &&& i == d.modes@.len() ==> call == Err::<RgbCallView, Seq<char>>(
                name + " has no rainbow effect"@,
            )
            &&& i < d.modes@.len() && (has_word(d, i, "rainbow"@) || has_word(d, i, "spectrum"@))
                ==> call == Ok::<RgbCallView, Seq<char>>(
                RgbCallView::SetMode(d.index, d.modes@[i].index),
            )
        },
        (forall|j: int| 0 <= j < i ==> !has_word(d, j, "breath"@)) ==> {
            let call = lighting::openrgb_call(d, name, LightingMode::Breathing(c));
            &&& i == d.modes@.len() ==> call == Err::<RgbCallView, Seq<char>>(
                name + " has no breathing effect"@,
            )
            &&& i < d.modes@.len() && has_word(d, i, "breath"@) ==> call == Ok::<
                RgbCallView,
                Seq<char>,
            >(RgbCallView::SetMode(d.index, d.modes@[i].index))
        },
{
    let rainbow = lighting::worded("rainbow"@, "spectrum"@);
    let breath = lighting::worded("breath"@, "breath"@);
    if forall|j: int|
        0 <= j < i ==> !has_word(d, j, "rainbow"@) && !has_word(d, j, "spectrum"@) {
        assert forall|j: int| 0 <= j < i implies !rainbow(#[trigger] d.modes@[j]) by {
            assert(!has_word(d, j, "rainbow"@) && !has_word(d, j, "spectrum"@));
        }
        if i == d.modes@.len() {
            seqs::first_where_none(d.modes@, rainbow);
        } else if rainbow(d.modes@[i]) {
            seqs::first_where_is(d.modes@, rainbow, i);
        }
    }
    if forall|j: int| 0 <= j < i ==> !has_word(d, j, "breath"@) {
        assert forall|j: int| 0 <= j < i implies !breath(#[trigger] d.modes@[j]) by {
            assert(!has_word(d, j, "breath"@));
        }
        if i == d.modes@.len() {
            seqs::first_where_none(d.modes@, breath);
        } else if breath(d.modes@[i]) {
            seqs::first_where_is(d.modes@, breath, i);
        }
    }
}

/// The failures are those of the replies, in their order, each said once where
/// several follow one another.
pub proof fn failures_are_said_once(replies: Seq<Result<(), String>>, next: Result<(), String>)
    ensures
        ({
            let was = lighting::failures(replies);
            let now = lighting::failures(replies.push(next));
            &&& next is Ok ==> now == was
            &&& next matches Err(e) ==> now.len() > 0 && now.last() == e@ && (was.len() > 0
                && was.last() == e@ ==> now == was) && (!(was.len() > 0 && was.last() == e@)
                ==> now.drop_last() == was)
        }),
        lighting::failures(seq![]).len() == 0,
{
    assert(replies.push(next).drop_last() =~= replies);
    let was = lighting::failures(replies);
    let now = lighting::failures(replies.push(next));
    if next is Err && !(was.len() > 0 && was.last() == next->Err_0@) {
        assert(now.drop_last() =~= was);
    }
}

/// What the Slash bar's options are called.
pub proof fn slash_options_have_names()
    ensures
        SlashOption::Boot.name() == "On boot"@,
        SlashOption::Shutdown.name() == "On shutdown"@,
        SlashOption::Sleep.name() == "While asleep"@,
        SlashOption::Battery.name() == "On battery"@,
        SlashOption::LidClosed.name() == "Lid closed"@,
        SlashOption::BatteryWarning.name() == "Low-battery warning"@,
{
}

/// The brightness of a device is the profile's own for it, even where that is
/// zero; else the profile's for all, where it is not zero.
pub proof fn own_brightness_comes_first(
    s: crate::profile::LightingSettings,
    key: Seq<char>,
)
    ensures
        ({
            let own = crate::strmap::map_of(s.device_brightness.items());
            &&& own.contains_key(key) ==> s.brightness_of(key) == Some(own[key])
            &&& !own.contains_key(key) && s.brightness > 0 ==> s.brightness_of(key) == Some(
                s.brightness,
            )
            &&& !own.contains_key(key) && s.brightness == 0 ==> s.brightness_of(key) is None
        }),
{
}

/// Four levels are called Off, Low, Med and High from the lowest on; others by
/// their numbers.
pub proof fn four_levels_have_names(all: Seq<u32>, level: u32, i: int)
    requires
        0 <= i < all.len(),
        levels::ascending(all)[i] == level,
        forall|j: int| 0 <= j < i ==> #[trigger] levels::ascending(all)[j] != level,
    ensures
        ({
            let name = levels::level_name(levels::ascending(all), level);
            &&& all.len() == 4 && i == 0 ==> name == "Off"@
            &&& all.len() == 4 && i == 1 ==> name == "Low"@
            &&& all.len() == 4 && i == 2 ==> name == "Med"@
            &&& all.len() == 4 && i == 3 ==> name == "High"@
            &&& all.len() != 4 ==> name == number::decimal(level as nat)
        }),
{
    levels::ascending_sorts(all);
    let sorted = levels::ascending(all);
    levels::place_first(sorted, level);
    assert(sorted.contains(level));
}

} // verus!
