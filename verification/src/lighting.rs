//! Showing a profile's lighting on the devices the model found: asusd's Aura
//! keyboard and Slash bar, and OpenRGB devices by name.

use crate::levels::{aura_level, aura_percent, slash_byte, slash_percent};
use crate::model::{LightingBackend, LightingDevice};
use crate::profile::{LightingMode, Rgb};
use crate::{levels, number, seqs, text};
use vstd::prelude::*;
use vstd::string::*;

verus! {

/// An effect as asusd takes it.
#[derive(Debug, PartialEq)]
pub struct AuraEffect {
    pub mode: u32,
    pub zone: u32,
    pub colour1: (u8, u8, u8),
    pub colour2: (u8, u8, u8),
    pub speed: String,
    pub direction: String,
}

pub struct AuraEffectView {
    pub mode: u32,
    pub zone: u32,
    pub colour1: (u8, u8, u8),
    pub colour2: (u8, u8, u8),
    pub speed: Seq<char>,
    pub direction: Seq<char>,
}

impl View for AuraEffect {
    type V = AuraEffectView;

    open spec fn view(&self) -> AuraEffectView {
        AuraEffectView {
            mode: self.mode,
            zone: self.zone,
            colour1: self.colour1,
            colour2: self.colour2,
            speed: self.speed@,
            direction: self.direction@,
        }
    }
}

impl Clone for AuraEffect {
    fn clone(&self) -> (r: Self)
        ensures
            r@ == self@,
    {
        AuraEffect {
            mode: self.mode,
            zone: self.zone,
            colour1: (self.colour1.0, self.colour1.1, self.colour1.2),
            colour2: (self.colour2.0, self.colour2.1, self.colour2.2),
            speed: self.speed.clone(),
            direction: self.direction.clone(),
        }
    }
}

/// What an Aura device should do for a profile's lighting.
#[derive(Debug, Clone, PartialEq)]
pub enum AuraAction {
    /// Show this effect (and the profile's brightness).
    Effect(AuraEffect),
    /// Brightness to zero.
    Off,
}

pub enum AuraActionView {
    Effect(AuraEffectView),
    Off,
}

impl View for AuraAction {
    type V = AuraActionView;

    open spec fn view(&self) -> AuraActionView {
        match self {
            AuraAction::Effect(e) => AuraActionView::Effect(e@),
            AuraAction::Off => AuraActionView::Off,
        }
    }
}

/// When the Slash bar shows (device settings, not part of a profile).
#[derive(Debug, Clone, Copy, PartialEq, Eq, Structural)]
pub enum SlashOption {
    Boot,
    Shutdown,
    Sleep,
    Battery,
    LidClosed,
    BatteryWarning,
}

impl SlashOption {
    /// In the order they are asked for.
    pub const ALL: [SlashOption; 6] = [
        SlashOption::Boot,
        SlashOption::Shutdown,
        SlashOption::Sleep,
        SlashOption::Battery,
        SlashOption::LidClosed,
        SlashOption::BatteryWarning,
    ];

    pub open spec fn name(&self) -> Seq<char> {
        match self {
            SlashOption::Boot => "On boot"@,
            SlashOption::Shutdown => "On shutdown"@,
            SlashOption::Sleep => "While asleep"@,
            SlashOption::Battery => "On battery"@,
            SlashOption::LidClosed => "Lid closed"@,
            SlashOption::BatteryWarning => "Low-battery warning"@,
        }
    }

    pub fn label(self) -> (r: &'static str)
        ensures
            r@ == self.name(),
    {
        match self {
            SlashOption::Boot => "On boot",
            SlashOption::Shutdown => "On shutdown",
            SlashOption::Sleep => "While asleep",
            SlashOption::Battery => "On battery",
            SlashOption::LidClosed => "Lid closed",
            SlashOption::BatteryWarning => "Low-battery warning",
        }
    }
}

/// What a device is showing now.
#[derive(Debug, Clone, PartialEq)]
pub enum LightState {
    /// `listed` is the mode as the device lists it; `level` one of its brightness levels.
    Aura { listed: u32, colour: Rgb, level: u32 },
    Slash { enabled: bool, mode: u8, brightness: u8, options: Vec<(SlashOption, bool)> },
}

/// What a mode or animation is called.
#[derive(Debug, Clone, PartialEq)]
pub struct ModeName {
    pub mode: u32,
    pub name: String,
}

/// The names of the modes that devices list, and the animation that stands
/// for a steady light.
#[derive(Debug, Clone, PartialEq)]
pub struct ModeNames {
    pub aura: Vec<ModeName>,
    /// What an Aura mode without a name is called.
    pub aura_other: String,
    pub slash: Vec<ModeName>,
    pub slash_static: u32,
}

pub open spec fn names_mode(m: u32) -> spec_fn(ModeName) -> bool {
    |n: ModeName| n.mode == m
}

fn find_name<'a>(names: &'a Vec<ModeName>, m: u32) -> (r: Option<&'a String>)
    ensures
        match seqs::first_where(names@, names_mode(m)) {
            Some(i) => r == Some(&names@[i].name),
            None => r is None,
        },
{
    let mut i: usize = 0;
    while i < names.len()
        invariant
            i <= names@.len(),
            forall|k: int| 0 <= k < i ==> !names_mode(m)(#[trigger] names@[k]),
        decreases names@.len() - i,
    {
        if names[i].mode == m {
            proof {
                seqs::first_where_is(names@, names_mode(m), i as int);
            }
            return Some(&names[i].name);
        }
        i += 1;
    }
    proof {
        seqs::first_where_none(names@, names_mode(m));
    }
    None
}

/// An Aura effect in a mode the device lists: one zone, medium speed.
pub open spec fn effect_in(listed: u32, c1: Rgb, c2: Rgb) -> AuraEffectView {
    AuraEffectView {
        mode: listed,
        zone: 0,
        colour1: (c1.r, c1.g, c1.b),
        colour2: (c2.r, c2.g, c2.b),
        speed: "Med"@,
        direction: "Right"@,
    }
}

/// An Aura effect in a mode the device lists. `LedModeData` takes the listed
/// number (Pulse is 10); only `AllModeData` numbers modes by position.
pub fn effect(listed: u32, c1: Rgb, c2: Rgb) -> (r: AuraEffect)
    ensures
        r@ == effect_in(listed, c1, c2),
{
    AuraEffect {
        mode: listed,
        zone: 0,
        colour1: (c1.r, c1.g, c1.b),
        colour2: (c2.r, c2.g, c2.b),
        speed: "Med".to_string(),
        direction: "Right".to_string(),
    }
}

/// The name of a device's own mode or animation.
pub open spec fn name_of(device: LightingDevice, m: u32, names: ModeNames) -> Seq<char> {
    match device.backend {
        LightingBackend::AsusdAura { .. } => match seqs::first_where(names.aura@, names_mode(m)) {
            Some(i) => names.aura@[i].name@,
            None => names.aura_other@,
        },
        LightingBackend::AsusdSlash { .. } => match seqs::first_where(
            names.slash@,
            names_mode(m),
        ) {
            Some(i) => names.slash@[i].name@,
            None => "Animation "@ + number::decimal(m as nat),
        },
    }
}

/// Name of a device's own mode or animation.
pub fn mode_name(device: &LightingDevice, m: u32, names: &ModeNames) -> (r: String)
    ensures
        r@ == name_of(*device, m, *names),
{
    match &device.backend {
        LightingBackend::AsusdAura { .. } => match find_name(&names.aura, m) {
            Some(n) => n.clone(),
            None => names.aura_other.clone(),
        },
        LightingBackend::AsusdSlash { .. } => match find_name(&names.slash, m) {
            Some(n) => n.clone(),
            None => text::cat2("Animation ", number::print(m as u128).as_str()),
        },
    }
}

/// A short description of a mode.
pub open spec fn described(mode: LightingMode) -> Seq<char> {
    match mode {
        LightingMode::Off => "off"@,
        LightingMode::Static(c) => "static "@ + c.code(),
        LightingMode::Breathing(c) => "breathing "@ + c.code(),
        LightingMode::Rainbow => "rainbow"@,
        LightingMode::Thermal { .. } => "thermal glow"@,
        LightingMode::Direct(_) => "per-LED colours"@,
        LightingMode::Firmware(m) => "effect "@ + number::decimal(m as nat),
    }
}

/// A short description for reports: "static #82FB9C", "effect 16".
pub fn describe(mode: &LightingMode) -> (r: String)
    ensures
        r@ == described(*mode),
{
    match mode {
        LightingMode::Off => "off".to_string(),
        LightingMode::Static(c) => text::cat2("static ", c.hex().as_str()),
        LightingMode::Breathing(c) => text::cat2("breathing ", c.hex().as_str()),
        LightingMode::Rainbow => "rainbow".to_string(),
        LightingMode::Thermal { .. } => "thermal glow".to_string(),
        LightingMode::Direct(_) => "per-LED colours".to_string(),
        LightingMode::Firmware(m) => text::cat2("effect ", number::print(*m as u128).as_str()),
    }
}

/// The description of a mode on a device, which names its own effects.
pub open spec fn described_on(
    device: LightingDevice,
    mode: LightingMode,
    names: ModeNames,
) -> Seq<char> {
    match mode {
        LightingMode::Firmware(m) => name_of(device, m, names),
        LightingMode::Static(_) => if device.backend is AsusdSlash {
            "Static"@
        } else {
            described(mode)
        },
        _ => described(mode),
    }
}

/// [`describe`], naming the device's own effects: "Bounce", "Pulse".
pub fn describe_on(device: &LightingDevice, mode: &LightingMode, names: &ModeNames) -> (r: String)
    ensures
        r@ == described_on(*device, *mode, *names),
{
    match mode {
        LightingMode::Firmware(m) => mode_name(device, *m, names),
        LightingMode::Static(_) => match &device.backend {
            LightingBackend::AsusdSlash { .. } => "Static".to_string(),
            LightingBackend::AsusdAura { .. } => describe(mode),
        },
        _ => describe(mode),
    }
}

fn lists(modes: &Vec<u32>, m: u32) -> (r: bool)
    ensures
        r == modes@.contains(m),
{
    let mut i: usize = 0;
    while i < modes.len()
        invariant
            i <= modes@.len(),
            forall|k: int| 0 <= k < i ==> modes@[k] != m,
        decreases modes@.len() - i,
    {
        if modes[i] == m {
            return true;
        }
        i += 1;
    }
    false
}

/// The effect that shows a lighting mode among the firmware modes a device
/// lists: its number and colour. Black stands for no colour.
pub open spec fn planned(modes: Seq<u32>, mode: LightingMode, accent: Rgb) -> Option<
    AuraActionView,
> {
    let black = Rgb { r: 0, g: 0, b: 0 };
    match mode {
        LightingMode::Off => Some(AuraActionView::Off),
        LightingMode::Static(c) => if modes.contains(0) {
            Some(AuraActionView::Effect(effect_in(0, c, black)))
        } else {
            None
        },
        LightingMode::Breathing(c) => if modes.contains(1) {
            Some(AuraActionView::Effect(effect_in(1, c, black)))
        } else {
            None
        },
        LightingMode::Rainbow => if modes.contains(2) {
            Some(AuraActionView::Effect(effect_in(2, black, black)))
        } else if modes.contains(3) {
            Some(AuraActionView::Effect(effect_in(3, black, black)))
        } else {
            None
        },
        LightingMode::Firmware(m) => if modes.contains(m) {
            Some(AuraActionView::Effect(effect_in(m, accent, black)))
        } else {
            None
        },
        _ => None,
    }
}

/// Why a device does not show a mode.
pub open spec fn cannot_show(device: LightingDevice, what: Seq<char>) -> Seq<char> {
    device.label@ + " can't show "@ + what
}

/// Map a lighting mode onto the firmware modes this Aura device lists.
/// Effects with no colour of their own (Pulse, Comet…) use `accent`.
pub fn aura_plan(
    device: &LightingDevice,
    mode: &LightingMode,
    accent: Rgb,
    names: &ModeNames,
) -> (r: Result<AuraAction, String>)
    ensures
        match planned(device.modes@, *mode, accent) {
            Some(a) => r is Ok && r->Ok_0@ == a,
            None => r is Err && r->Err_0@ == cannot_show(
                *device,
                described_on(*device, *mode, *names),
            ),
        },
{
    let black = Rgb::new(0, 0, 0);
    let has = &device.modes;
    match mode {
        LightingMode::Off => {
            return Ok(AuraAction::Off);
        },
        LightingMode::Static(c) => if lists(has, 0) {
            return Ok(AuraAction::Effect(effect(0, *c, black)));
        },
        LightingMode::Breathing(c) => if lists(has, 1) {
            return Ok(AuraAction::Effect(effect(1, *c, black)));
        },
        LightingMode::Rainbow => if lists(has, 2) {
            return Ok(AuraAction::Effect(effect(2, black, black)));
        } else if lists(has, 3) {
            return Ok(AuraAction::Effect(effect(3, black, black)));
        },
        LightingMode::Firmware(m) => if lists(has, *m) {
            return Ok(AuraAction::Effect(effect(*m, accent, black)));
        },
        _ => {},
    }
    Err(
        text::cat3(
            device.label.as_str(),
            " can't show ",
            describe_on(device, mode, names).as_str(),
        ),
    )
}

/// What a device shows when lit.
pub open spec fn lit(state: LightState) -> LightingMode {
    match state {
        LightState::Aura { listed, colour, .. } => if listed == 0 {
            LightingMode::Static(colour)
        } else if listed == 1 {
            LightingMode::Breathing(colour)
        } else {
            LightingMode::Firmware(listed)
        },
        LightState::Slash { mode, .. } => LightingMode::Firmware(mode as u32),
    }
}

/// What a device shows when lit: its effect, whatever its brightness.
pub fn lit_mode(state: &LightState) -> (r: LightingMode)
    ensures
        r == lit(*state),
{
    match state {
        LightState::Aura { listed, colour, .. } => if *listed == 0 {
            LightingMode::Static(*colour)
        } else if *listed == 1 {
            LightingMode::Breathing(*colour)
        } else {
            LightingMode::Firmware(*listed)
        },
        LightState::Slash { mode, .. } => LightingMode::Firmware(*mode as u32),
    }
}

/// Whether a device is dark.
pub open spec fn is_dark(state: LightState) -> bool {
    match state {
        LightState::Aura { level, .. } => level == 0,
        LightState::Slash { enabled, .. } => !enabled,
    }
}

/// What a device shows now, as the profile lighting that would show it.
pub fn mode_of(state: &LightState) -> (r: LightingMode)
    ensures
        r == if is_dark(*state) {
            LightingMode::Off
        } else {
            lit(*state)
        },
{
    let dark = match state {
        LightState::Aura { level, .. } => *level == 0,
        LightState::Slash { enabled, .. } => !*enabled,
    };
    if dark {
        LightingMode::Off
    } else {
        lit_mode(state)
    }
}

/// Brightness of a state in percent.
pub fn percent_of(device: &LightingDevice, state: &LightState) -> (r: u8)
    ensures
        r == match *state {
            LightState::Aura { level, .. } => levels::percent_for(
                device.brightness_levels@,
                level,
            ),
            LightState::Slash { brightness, .. } => levels::byte_percent(brightness),
        },
{
    match state {
        LightState::Aura { level, .. } => aura_percent(
            device.brightness_levels.as_slice(),
            *level,
        ),
        LightState::Slash { brightness, .. } => slash_percent(*brightness),
    }
}

/// A call on a device's interface.
#[derive(Debug, Clone, PartialEq)]
pub enum LightCall {
    /// Opens the interface at the device's path.
    Connect,
    /// Aura: shows an effect.
    SetEffect(AuraEffect),
    /// Aura: asks for the brightness level.
    ReadLevel,
    /// Aura: sets the brightness level.
    SetLevel(u32),
    /// Slash: sets the animation.
    SetAnimation(u8),
    /// Slash: sets the brightness.
    SetBrightness(u8),
    /// Slash: switches the bar on or off.
    SetEnabled(bool),
}

pub enum LightCallView {
    Connect,
    SetEffect(AuraEffectView),
    ReadLevel,
    SetLevel(u32),
    SetAnimation(u8),
    SetBrightness(u8),
    SetEnabled(bool),
}

impl View for LightCall {
    type V = LightCallView;

    open spec fn view(&self) -> LightCallView {
        match self {
            LightCall::Connect => LightCallView::Connect,
            LightCall::SetEffect(e) => LightCallView::SetEffect(e@),
            LightCall::ReadLevel => LightCallView::ReadLevel,
            LightCall::SetLevel(l) => LightCallView::SetLevel(*l),
            LightCall::SetAnimation(a) => LightCallView::SetAnimation(*a),
            LightCall::SetBrightness(b) => LightCallView::SetBrightness(*b),
            LightCall::SetEnabled(on) => LightCallView::SetEnabled(*on),
        }
    }
}

/// How a call went.
#[derive(Debug, Clone, PartialEq)]
pub enum LightReply {
    Done,
    /// The brightness level that was asked for.
    Level(u32),
    Failed(String),
}

/// How far showing a mode has come: which call was made last.
#[derive(Debug, Clone, Copy, PartialEq, Eq, Structural)]
pub enum ShowState {
    Connecting,
    SettingEffect,
    ReadingLevel,
    SettingAnimation,
    SettingBrightness,
    /// With the last call, whose reply is the outcome.
    Finishing,
    Finished,
}

/// What to do next: a call, or nothing more.
#[derive(Debug, PartialEq)]
pub enum ShowStep {
    Call(LightCall),
    End(Result<(), String>),
}

pub enum ShowStepView {
    Call(LightCallView),
    End(Result<(), Seq<char>>),
}

impl View for ShowStep {
    type V = ShowStepView;

    open spec fn view(&self) -> ShowStepView {
        match self {
            ShowStep::Call(c) => ShowStepView::Call(c@),
            ShowStep::End(r) => ShowStepView::End(
                match r {
                    Ok(_) => Ok(()),
                    Err(e) => Err(e@),
                },
            ),
        }
    }
}

/// What is to be shown on a device: the brightness in percent, `None` to leave
/// it; `accent` colours effects that have no colour of their own.
#[derive(Debug, Clone, PartialEq)]
pub struct Show {
    pub device: LightingDevice,
    pub mode: LightingMode,
    pub brightness: Option<u8>,
    pub accent: Rgb,
}

/// A failed end.
pub open spec fn failed(why: Seq<char>) -> (ShowState, ShowStepView) {
    (ShowState::Finished, ShowStepView::End(Err(why)))
}

/// A call, after which another follows or the outcome is known.
pub open spec fn then_call(state: ShowState, call: LightCallView) -> (ShowState, ShowStepView) {
    (state, ShowStepView::Call(call))
}

/// The brightness level that the profile sets with an effect: none where that
/// would be dark.
pub open spec fn wanted_level(show: Show) -> Option<u32> {
    match show.brightness {
        Some(percent) => match levels::level_for(show.device.brightness_levels@, percent) {
            Some(l) => if l > 0 {
                Some(l)
            } else {
                None
            },
            None => None,
        },
        None => None,
    }
}

/// Whether a level is the brightest of a list.
pub open spec fn is_brightest(levels: Seq<u32>, level: u32) -> bool {
    levels.contains(level) && forall|i: int| 0 <= i < levels.len() ==> levels[i] <= level
}

/// The brightest level, if there is one.
pub open spec fn brightest(levels: Seq<u32>) -> Option<u32> {
    if levels.len() == 0 {
        None
    } else {
        Some(choose|l: u32| is_brightest(levels, l))
    }
}

fn find_brightest(levels: &Vec<u32>) -> (r: Option<u32>)
    ensures
        r == brightest(levels@),
        r is Some ==> is_brightest(levels@, r->0),
{
    if levels.len() == 0 {
        return None;
    }
    let mut best = levels[0];
    let mut i: usize = 1;
    while i < levels.len()
        invariant
            1 <= i <= levels@.len(),
            levels@.contains(best),
            forall|k: int| 0 <= k < i ==> levels@[k] <= best,
        decreases levels@.len() - i,
    {
        if levels[i] > best {
            best = levels[i];
        }
        i += 1;
    }
    proof {
        assert(is_brightest(levels@, best));
        let l = choose|l: u32| is_brightest(levels@, l);
        assert(is_brightest(levels@, l));
    }
    Some(best)
}

/// The animation that shows a mode on a Slash bar.
pub open spec fn animation_of(mode: LightingMode, names: ModeNames) -> Option<u32> {
    match mode {
        LightingMode::Firmware(m) => Some(m),
        LightingMode::Static(_) => Some(names.slash_static),
        _ => None,
    }
}

/// What showing a mode does after a reply.
///
/// A failed call ends it, but for the question for the level. An Aura device
/// takes the effect first, then its level: the profile's, or where the
/// keyboard is dark the brightest, so that the effect is seen. A Slash bar
/// takes the animation, then the profile's brightness, and is switched on.
pub open spec fn shown(
    show: Show,
    names: ModeNames,
    state: ShowState,
    reply: LightReply,
) -> (ShowState, ShowStepView) {
    let device = show.device;
    let over = (ShowState::Finished, ShowStepView::End(Ok::<(), Seq<char>>(())));
    match (state, reply) {
        (ShowState::ReadingLevel, LightReply::Level(0)) => match brightest(
            device.brightness_levels@,
        ) {
            Some(l) => then_call(ShowState::Finishing, LightCallView::SetLevel(l)),
            None => over,
        },
        (ShowState::ReadingLevel, _) => over,
        (_, LightReply::Failed(why)) => failed(why@),
        (ShowState::Connecting, _) => match device.backend {
            LightingBackend::AsusdAura { .. } => match planned(
                device.modes@,
                show.mode,
                show.accent,
            ) {
                None => failed(cannot_show(device, described_on(device, show.mode, names))),
                Some(AuraActionView::Off) => then_call(
                    ShowState::Finishing,
                    LightCallView::SetLevel(0),
                ),
                Some(AuraActionView::Effect(e)) => then_call(
                    ShowState::SettingEffect,
                    LightCallView::SetEffect(e),
                ),
            },
            LightingBackend::AsusdSlash { .. } => if show.mode is Off {
                then_call(ShowState::Finishing, LightCallView::SetEnabled(false))
            } else {
                match animation_of(show.mode, names) {
                    None => failed(cannot_show(device, described(show.mode))),
                    Some(a) => if a <= 255 && device.modes@.contains(a) {
                        then_call(
                            ShowState::SettingAnimation,
                            LightCallView::SetAnimation(a as u8),
                        )
                    } else {
                        failed(
                            device.label@ + " has no animation "@ + number::decimal(a as nat),
                        )
                    },
                }
            },
        },
        (ShowState::SettingEffect, _) => match wanted_level(show) {
            Some(l) => then_call(ShowState::Finishing, LightCallView::SetLevel(l)),
            None => then_call(ShowState::ReadingLevel, LightCallView::ReadLevel),
        },
        (ShowState::SettingAnimation, _) => match show.brightness {
            Some(percent) => then_call(
                ShowState::SettingBrightness,
                LightCallView::SetBrightness(levels::byte_for(percent)),
            ),
            None => then_call(ShowState::Finishing, LightCallView::SetEnabled(true)),
        },
        (ShowState::SettingBrightness, _) => then_call(
            ShowState::Finishing,
            LightCallView::SetEnabled(true),
        ),
        (ShowState::Finishing, _) => over,
        (ShowState::Finished, _) => over,
    }
}

impl Show {
    /// Showing a mode starts by opening the device's interface.
    pub fn start(&self) -> (r: (ShowState, LightCall))
        ensures
            r.0 == ShowState::Connecting,
            r.1@ == LightCallView::Connect,
    {
        (ShowState::Connecting, LightCall::Connect)
    }

    fn after_connect(&self, names: &ModeNames) -> (r: (ShowState, ShowStep))
        ensures
            (r.0, r.1@) == shown(*self, *names, ShowState::Connecting, LightReply::Done),
    {
        let device = &self.device;
        match &device.backend {
            LightingBackend::AsusdAura { .. } => match aura_plan(
                device,
                &self.mode,
                self.accent,
                names,
            ) {
                Err(why) => (ShowState::Finished, ShowStep::End(Err(why))),
                Ok(AuraAction::Off) => (
                    ShowState::Finishing,
                    ShowStep::Call(LightCall::SetLevel(0)),
                ),
                Ok(AuraAction::Effect(e)) => (
                    ShowState::SettingEffect,
                    ShowStep::Call(LightCall::SetEffect(e)),
                ),
            },
            LightingBackend::AsusdSlash { .. } => {
                let animation = match &self.mode {
                    LightingMode::Off => {
                        return (
                            ShowState::Finishing,
                            ShowStep::Call(LightCall::SetEnabled(false)),
                        );
                    },
                    LightingMode::Firmware(m) => *m,
                    LightingMode::Static(_) => names.slash_static,
                    other => {
                        return (
                            ShowState::Finished,
                            ShowStep::End(
                                Err(
                                    text::cat3(
                                        device.label.as_str(),
                                        " can't show ",
                                        describe(other).as_str(),
                                    ),
                                ),
                            ),
                        );
                    },
                };
                if animation <= 255 && lists(&device.modes, animation) {
                    (
                        ShowState::SettingAnimation,
                        ShowStep::Call(LightCall::SetAnimation(animation as u8)),
                    )
                } else {
                    (
                        ShowState::Finished,
                        ShowStep::End(
                            Err(
                                text::cat3(
                                    device.label.as_str(),
                                    " has no animation ",
                                    number::print(animation as u128).as_str(),
                                ),
                            ),
                        ),
                    )
                }
            },
        }
    }
}

/// Show a mode on a device the model found: goes on after a reply.
pub fn apply(show: &Show, names: &ModeNames, state: ShowState, reply: LightReply) -> (r: (
    ShowState,
    ShowStep,
))
    ensures
        (r.0, r.1@) == shown(*show, *names, state, reply),
{
    let device = &show.device;
    if state == ShowState::ReadingLevel {
        return match reply {
            LightReply::Level(0) => match find_brightest(&device.brightness_levels) {
                Some(l) => (ShowState::Finishing, ShowStep::Call(LightCall::SetLevel(l))),
                None => (ShowState::Finished, ShowStep::End(Ok(()))),
            },
            _ => (ShowState::Finished, ShowStep::End(Ok(()))),
        };
    }
    match reply {
        LightReply::Failed(why) => {
            return (ShowState::Finished, ShowStep::End(Err(why)));
        },
        _ => {},
    }
    match state {
        ShowState::Connecting => show.after_connect(names),
        ShowState::SettingEffect => {
            let level = match show.brightness {
                Some(percent) => match aura_level(
                    device.brightness_levels.as_slice(),
                    percent,
                ) {
                    Some(l) => if l > 0 {
                        Some(l)
                    } else {
                        None
                    },
                    None => None,
                },
                None => None,
            };
            match level {
                Some(l) => (ShowState::Finishing, ShowStep::Call(LightCall::SetLevel(l))),
                None => (ShowState::ReadingLevel, ShowStep::Call(LightCall::ReadLevel)),
            }
        },
        ShowState::SettingAnimation => match show.brightness {
            Some(percent) => (
                ShowState::SettingBrightness,
                ShowStep::Call(LightCall::SetBrightness(slash_byte(percent))),
            ),
            None => (ShowState::Finishing, ShowStep::Call(LightCall::SetEnabled(true))),
        },
        ShowState::SettingBrightness => (
            ShowState::Finishing,
            ShowStep::Call(LightCall::SetEnabled(true)),
        ),
        _ => (ShowState::Finished, ShowStep::End(Ok(()))),
    }
}

/// What shows a device's brightness in percent, leaving what it shows: a
/// level or a byte; nothing where it has no levels.
pub open spec fn brightness_of(device: LightingDevice, percent: u8) -> Result<
    LightCallView,
    Seq<char>,
> {
    match device.backend {
        LightingBackend::AsusdAura { .. } => match levels::level_for(
            device.brightness_levels@,
            percent,
        ) {
            Some(l) => Ok(LightCallView::SetLevel(l)),
            None => Err(device.label@ + " has no brightness levels"@),
        },
        LightingBackend::AsusdSlash { .. } => Ok(
            LightCallView::SetBrightness(levels::byte_for(percent)),
        ),
    }
}

/// The call that sets a device's brightness in percent, leaving what it shows.
pub fn set_brightness(device: &LightingDevice, percent: u8) -> (r: Result<LightCall, String>)
    ensures
        match brightness_of(*device, percent) {
            Ok(c) => r is Ok && r->Ok_0@ == c,
            Err(why) => r is Err && r->Err_0@ == why,
        },
{
    match &device.backend {
        LightingBackend::AsusdAura { .. } => match aura_level(
            device.brightness_levels.as_slice(),
            percent,
        ) {
            Some(l) => Ok(LightCall::SetLevel(l)),
            None => Err(text::cat2(device.label.as_str(), " has no brightness levels")),
        },
        LightingBackend::AsusdSlash { .. } => Ok(LightCall::SetBrightness(slash_byte(percent))),
    }
}

/// Where a Slash device's options are set: nowhere on another device.
pub fn set_slash_option(device: &LightingDevice) -> (r: Result<&str, String>)
    ensures
        match device.backend {
            LightingBackend::AsusdSlash { path } => r is Ok && r->Ok_0@ == path@,
            LightingBackend::AsusdAura { .. } => r is Err && r->Err_0@ == device.label@
                + " isn't a Slash bar"@,
        },
{
    match &device.backend {
        LightingBackend::AsusdSlash { path } => Ok(path.as_str()),
        LightingBackend::AsusdAura { .. } => Err(
            text::cat2(device.label.as_str(), " isn't a Slash bar"),
        ),
    }
}

/// A question on a device's interface.
#[derive(Debug, Clone, Copy, PartialEq, Eq, Structural)]
pub enum ReadCall {
    /// Opens the interface at the device's path.
    Connect,
    /// Aura: which effect, in which colour?
    Effect,
    /// Aura: which brightness level?
    Level,
    /// Slash: is the option at this place of [`SlashOption::ALL`] set?
    Option(usize),
    /// Slash: is the bar on?
    Enabled,
    /// Slash: which animation?
    Animation,
    /// Slash: how bright?
    Brightness,
}

/// The answer to a question.
#[derive(Debug, Clone, PartialEq)]
pub enum ReadReply {
    /// The interface is open.
    Open,
    Effect { listed: u32, colour: Rgb },
    Level(u32),
    Flag(bool),
    Byte(u8),
    Failed(String),
}

/// How far reading a device has come.
#[derive(Debug, Clone, PartialEq)]
pub struct Reading {
    /// The question that waits for its answer.
    pub at: ReadCall,
    pub listed: u32,
    pub colour: Rgb,
    pub options: Vec<(SlashOption, bool)>,
    pub enabled: bool,
    pub animation: u8,
}

pub struct ReadingView {
    pub at: ReadCall,
    pub listed: u32,
    pub colour: Rgb,
    pub options: Seq<(SlashOption, bool)>,
    pub enabled: bool,
    pub animation: u8,
}

impl View for Reading {
    type V = ReadingView;

    open spec fn view(&self) -> ReadingView {
        ReadingView {
            at: self.at,
            listed: self.listed,
            colour: self.colour,
            options: self.options@,
            enabled: self.enabled,
            animation: self.animation,
        }
    }
}

impl ReadingView {
    pub open spec fn go(self, at: ReadCall) -> Self {
        ReadingView { at, ..self }
    }
}

/// What follows an answer: another question, or what the device shows.
#[derive(Debug, PartialEq)]
pub enum ReadStep {
    Ask(Reading),
    End(Result<LightState, String>),
}

pub enum LightStateView {
    Aura { listed: u32, colour: Rgb, level: u32 },
    Slash { enabled: bool, mode: u8, brightness: u8, options: Seq<(SlashOption, bool)> },
}

impl View for LightState {
    type V = LightStateView;

    open spec fn view(&self) -> LightStateView {
        match self {
            LightState::Aura { listed, colour, level } => LightStateView::Aura {
                listed: *listed,
                colour: *colour,
                level: *level,
            },
            LightState::Slash { enabled, mode, brightness, options } => LightStateView::Slash {
                enabled: *enabled,
                mode: *mode,
                brightness: *brightness,
                options: options@,
            },
        }
    }
}

pub enum ReadStepView {
    Ask(ReadingView),
    End(Result<LightStateView, Seq<char>>),
}

impl View for ReadStep {
    type V = ReadStepView;

    open spec fn view(&self) -> ReadStepView {
        match self {
            ReadStep::Ask(r) => ReadStepView::Ask(r@),
            ReadStep::End(r) => ReadStepView::End(
                match r {
                    Ok(s) => Ok(s@),
                    Err(e) => Err(e@),
                },
            ),
        }
    }
}

/// The question after the option at a place.
pub open spec fn after_option(i: usize) -> ReadCall {
    if i < 5 {
        ReadCall::Option((i + 1) as usize)
    } else {
        ReadCall::Enabled
    }
}

/// What follows an answer on what a device shows. A failed answer ends it, but
/// for an option, which is left out. One that does not answer the question
/// changes nothing.
pub open spec fn read_step(device: LightingDevice, r: ReadingView, reply: ReadReply) -> ReadStepView {
    match (r.at, reply) {
        (ReadCall::Option(i), ReadReply::Flag(on)) => if i < 6 {
            ReadStepView::Ask(
                ReadingView {
                    options: r.options.push((SlashOption::ALL@[i as int], on)),
                    ..r
                }.go(after_option(i)),
            )
        } else {
            ReadStepView::Ask(r)
        },
        (ReadCall::Option(i), ReadReply::Failed(_)) => if i < 6 {
            ReadStepView::Ask(r.go(after_option(i)))
        } else {
            ReadStepView::Ask(r)
        },
        (_, ReadReply::Failed(e)) => ReadStepView::End(Err(e@)),
        (ReadCall::Connect, ReadReply::Open) => ReadStepView::Ask(
            r.go(
                match device.backend {
                    LightingBackend::AsusdAura { .. } => ReadCall::Effect,
                    LightingBackend::AsusdSlash { .. } => ReadCall::Option(0),
                },
            ),
        ),
        (ReadCall::Effect, ReadReply::Effect { listed, colour }) => ReadStepView::Ask(
            ReadingView { listed, colour, ..r }.go(ReadCall::Level),
        ),
        (ReadCall::Level, ReadReply::Level(level)) => ReadStepView::End(
            Ok(LightStateView::Aura { listed: r.listed, colour: r.colour, level }),
        ),
        (ReadCall::Enabled, ReadReply::Flag(on)) => ReadStepView::Ask(
            ReadingView { enabled: on, ..r }.go(ReadCall::Animation),
        ),
        (ReadCall::Animation, ReadReply::Byte(a)) => ReadStepView::Ask(
            ReadingView { animation: a, ..r }.go(ReadCall::Brightness),
        ),
        (ReadCall::Brightness, ReadReply::Byte(brightness)) => ReadStepView::End(
            Ok(
                LightStateView::Slash {
                    enabled: r.enabled,
                    mode: r.animation,
                    brightness,
                    options: r.options,
                },
            ),
        ),
        _ => ReadStepView::Ask(r),
    }
}

impl Reading {
    /// Reading a device starts by opening its interface.
    pub fn start() -> (r: Self)
        ensures
            r@ == (ReadingView {
                at: ReadCall::Connect,
                listed: 0,
                colour: Rgb { r: 0, g: 0, b: 0 },
                options: seq![],
                enabled: false,
                animation: 0,
            }),
    {
        let r = Reading {
            at: ReadCall::Connect,
            listed: 0,
            colour: Rgb::new(0, 0, 0),
            options: Vec::new(),
            enabled: false,
            animation: 0,
        };
        assert(r.options@ =~= seq![]);
        r
    }
}

/// Read what a device the model found is showing: goes on with an answer.
pub fn read(device: &LightingDevice, reading: Reading, reply: ReadReply) -> (r: ReadStep)
    ensures
        r@ == read_step(*device, reading@, reply),
{
    let mut reading = reading;
    match reading.at {
        ReadCall::Option(i) => {
            if i < 6 {
                let next = if i < 5 {
                    ReadCall::Option(i + 1)
                } else {
                    ReadCall::Enabled
                };
                match reply {
                    ReadReply::Flag(on) => {
                        let all = SlashOption::ALL;
                        reading.options.push((all[i], on));
                        reading.at = next;
                    },
                    ReadReply::Failed(_) => {
                        reading.at = next;
                    },
                    _ => {},
                }
            }
            return ReadStep::Ask(reading);
        },
        _ => {},
    }
    match (reading.at, reply) {
        (_, ReadReply::Failed(e)) => ReadStep::End(Err(e)),
        (ReadCall::Connect, ReadReply::Open) => {
            reading.at =
            match &device.backend {
                LightingBackend::AsusdAura { .. } => ReadCall::Effect,
                LightingBackend::AsusdSlash { .. } => ReadCall::Option(0),
            };
            ReadStep::Ask(reading)
        },
        (ReadCall::Effect, ReadReply::Effect { listed, colour }) => {
            reading.listed = listed;
            reading.colour = colour;
            reading.at = ReadCall::Level;
            ReadStep::Ask(reading)
        },
        (ReadCall::Level, ReadReply::Level(level)) => ReadStep::End(
            Ok(LightState::Aura { listed: reading.listed, colour: reading.colour, level }),
        ),
        (ReadCall::Enabled, ReadReply::Flag(on)) => {
            reading.enabled = on;
            reading.at = ReadCall::Animation;
            ReadStep::Ask(reading)
        },
        (ReadCall::Animation, ReadReply::Byte(a)) => {
            reading.animation = a;
            reading.at = ReadCall::Brightness;
            ReadStep::Ask(reading)
        },
        (ReadCall::Brightness, ReadReply::Byte(brightness)) => ReadStep::End(
            Ok(
                LightState::Slash {
                    enabled: reading.enabled,
                    mode: reading.animation,
                    brightness,
                    options: reading.options,
                },
            ),
        ),
        _ => ReadStep::Ask(reading),
    }
}

/// The states of the devices that answered, by their ids.
pub open spec fn states_of(
    devices: Seq<LightingDevice>,
    replies: Seq<Result<LightState, String>>,
) -> Seq<(Seq<char>, LightState)>
    decreases replies.len(),
{
    if replies.len() == 0 {
        seq![]
    } else {
        let rest = states_of(devices, replies.drop_last());
        match replies.last() {
            Ok(s) => rest.push((devices[replies.len() - 1].id.0@, s)),
            Err(_) => rest,
        }
    }
}

/// What every device shows; devices that don't answer are left out.
pub fn read_all(devices: &Vec<LightingDevice>, replies: Vec<Result<LightState, String>>) -> (r: Vec<
    (String, LightState),
>)
    requires
        replies@.len() == devices@.len(),
    ensures
        r@.map_values(|e: (String, LightState)| (e.0@, e.1)) == states_of(devices@, replies@),
{
    let ghost f = |e: (String, LightState)| (e.0@, e.1);
    let ghost all = replies@;
    let mut left = replies;
    let mut out: Vec<(String, LightState)> = Vec::new();
    let mut i: usize = 0;
    assert(left@ =~= all.skip(0));
    assert(out@.map_values(f) =~= states_of(devices@, all.take(0)));
    while i < devices.len()
        invariant
            i <= all.len(),
            all.len() == devices@.len(),
            left@ == all.skip(i as int),
            f == (|e: (String, LightState)| (e.0@, e.1)),
            out@.map_values(f) == states_of(devices@, all.take(i as int)),
        decreases devices@.len() - i,
    {
        let reply = left.remove(0);
        assert(reply == all[i as int]);
        assert(all.take(i + 1).drop_last() =~= all.take(i as int));
        assert(left@ =~= all.skip(i + 1));
        match reply {
            Ok(s) => {
                let ghost was = out@;
                let e = (devices[i].id.0.clone(), s);
                out.push(e);
                assert(out@.map_values(f) =~= was.map_values(f).push(f(e)));
            },
            Err(_) => {},
        }
        i += 1;
    }
    assert(all.take(all.len() as int) =~= all);
    out
}

/// A mode of an OpenRGB device.
#[derive(Debug, Clone, PartialEq)]
pub struct RgbMode {
    pub index: usize,
    pub name: String,
}

/// A device as OpenRGB lists it.
#[derive(Debug, Clone, PartialEq)]
pub struct RgbDevice {
    pub index: usize,
    pub name: String,
    pub modes: Vec<RgbMode>,
}

/// A call on an OpenRGB device, by its index.
#[derive(Debug, Clone, PartialEq)]
pub enum RgbCall {
    TurnOff(usize),
    SetStatic(usize, Rgb),
    SetMode(usize, usize),
    SetLeds(usize, Vec<Rgb>),
}

pub enum RgbCallView {
    TurnOff(usize),
    SetStatic(usize, Rgb),
    SetMode(usize, usize),
    SetLeds(usize, Seq<Rgb>),
}

impl View for RgbCall {
    type V = RgbCallView;

    open spec fn view(&self) -> RgbCallView {
        match self {
            RgbCall::TurnOff(d) => RgbCallView::TurnOff(*d),
            RgbCall::SetStatic(d, c) => RgbCallView::SetStatic(*d, *c),
            RgbCall::SetMode(d, m) => RgbCallView::SetMode(*d, *m),
            RgbCall::SetLeds(d, c) => RgbCallView::SetLeds(*d, c@),
        }
    }
}

/// The modes with one of two words in their names, in whatever case.
pub open spec fn worded(a: Seq<char>, b: Seq<char>) -> spec_fn(RgbMode) -> bool {
    |m: RgbMode| text::includes(text::lower(m.name@), a) || text::includes(text::lower(m.name@), b)
}

fn find_worded(modes: &Vec<RgbMode>, a: &str, b: &str) -> (r: Option<usize>)
    ensures
        match seqs::first_where(modes@, worded(a@, b@)) {
            Some(i) => r == Some(modes@[i].index),
            None => r is None,
        },
{
    let mut i: usize = 0;
    while i < modes.len()
        invariant
            i <= modes@.len(),
            forall|k: int| 0 <= k < i ==> !worded(a@, b@)(#[trigger] modes@[k]),
        decreases modes@.len() - i,
    {
        let name = text::to_lower(modes[i].name.as_str());
        if text::has_text(name.as_str(), a) || text::has_text(name.as_str(), b) {
            proof {
                seqs::first_where_is(modes@, worded(a@, b@), i as int);
            }
            return Some(modes[i].index);
        }
        i += 1;
    }
    proof {
        seqs::first_where_none(modes@, worded(a@, b@));
    }
    None
}

/// The call that shows a mode on an OpenRGB device, or why there is none.
pub open spec fn openrgb_call(d: RgbDevice, name: Seq<char>, mode: LightingMode) -> Result<
    RgbCallView,
    Seq<char>,
> {
    match mode {
        LightingMode::Off => Ok(RgbCallView::TurnOff(d.index)),
        LightingMode::Static(c) => Ok(RgbCallView::SetStatic(d.index, c)),
        LightingMode::Rainbow => match seqs::first_where(
            d.modes@,
            worded("rainbow"@, "spectrum"@),
        ) {
            Some(i) => Ok(RgbCallView::SetMode(d.index, d.modes@[i].index)),
            None => Err(name + " has no rainbow effect"@),
        },
        LightingMode::Breathing(_) => match seqs::first_where(
            d.modes@,
            worded("breath"@, "breath"@),
        ) {
            Some(i) => Ok(RgbCallView::SetMode(d.index, d.modes@[i].index)),
            None => Err(name + " has no breathing effect"@),
        },
        LightingMode::Firmware(m) => Ok(RgbCallView::SetMode(d.index, m as usize)),
        LightingMode::Direct(colours) => Ok(RgbCallView::SetLeds(d.index, colours@)),
        LightingMode::Thermal { .. } => Err("thermal glow runs from the Lighting page"@),
    }
}

/// The outcome of planning a call.
pub open spec fn call_text(r: Result<RgbCall, String>) -> Result<RgbCallView, Seq<char>> {
    match r {
        Ok(c) => Ok(c@),
        Err(e) => Err(e@),
    }
}

fn copy_colours(v: &Vec<Rgb>) -> (r: Vec<Rgb>)
    ensures
        r@ == v@,
{
    let mut r: Vec<Rgb> = Vec::new();
    let mut i: usize = 0;
    while i < v.len()
        invariant
            i <= v@.len(),
            r@ == v@.take(i as int),
        decreases v@.len() - i,
    {
        r.push(v[i]);
        assert(r@ =~= v@.take(i + 1));
        i += 1;
    }
    assert(v@.take(v@.len() as int) =~= v@);
    r
}

/// Plans the call that shows a mode on an OpenRGB device.
pub fn apply_openrgb_one(d: &RgbDevice, name: &str, mode: &LightingMode) -> (r: Result<
    RgbCall,
    String,
>)
    ensures
        call_text(r) == openrgb_call(*d, name@, *mode),
{
    match mode {
        LightingMode::Off => Ok(RgbCall::TurnOff(d.index)),
        LightingMode::Static(c) => Ok(RgbCall::SetStatic(d.index, *c)),
        LightingMode::Rainbow => match find_worded(&d.modes, "rainbow", "spectrum") {
            Some(m) => Ok(RgbCall::SetMode(d.index, m)),
            None => Err(text::cat2(name, " has no rainbow effect")),
        },
        LightingMode::Breathing(_) => match find_worded(&d.modes, "breath", "breath") {
            Some(m) => Ok(RgbCall::SetMode(d.index, m)),
            None => Err(text::cat2(name, " has no breathing effect")),
        },
        LightingMode::Firmware(m) => Ok(RgbCall::SetMode(d.index, *m as usize)),
        LightingMode::Direct(colours) => Ok(RgbCall::SetLeds(d.index, copy_colours(colours))),
        LightingMode::Thermal { .. } => Err(
            "thermal glow runs from the Lighting page".to_string(),
        ),
    }
}

/// The plans for the devices of a name.
pub open spec fn openrgb_plan(
    devices: Seq<RgbDevice>,
    name: Seq<char>,
    mode: LightingMode,
) -> Seq<Result<RgbCallView, Seq<char>>>
    decreases devices.len(),
{
    if devices.len() == 0 {
        seq![]
    } else {
        let rest = openrgb_plan(devices.drop_last(), name, mode);
        if devices.last().name@ == name {
            rest.push(openrgb_call(devices.last(), name, mode))
        } else {
            rest
        }
    }
}

/// Plans showing `mode` on every OpenRGB device called `name`. Profiles key
/// lighting by name, and identical parts share one (a kit of DIMMs lists each
/// stick under the same name), so all of them take it, not only the first
/// listed.
pub fn apply_openrgb(devices: &Vec<RgbDevice>, name: &str, mode: &LightingMode) -> (r: Result<
    Vec<Result<RgbCall, String>>,
    String,
>)
    ensures
        match r {
            Ok(v) => v@.len() > 0 && v@.map_values(
                |p: Result<RgbCall, String>| call_text(p),
            ) == openrgb_plan(devices@, name@, *mode),
            Err(why) => openrgb_plan(devices@, name@, *mode).len() == 0 && why@ == name@
                + " (not connected)"@,
        },
{
    let ghost f = |p: Result<RgbCall, String>| call_text(p);
    let mut out: Vec<Result<RgbCall, String>> = Vec::new();
    let mut i: usize = 0;
    assert(out@.map_values(f) =~= openrgb_plan(devices@.take(0), name@, *mode));
    while i < devices.len()
        invariant
            i <= devices@.len(),
            f == (|p: Result<RgbCall, String>| call_text(p)),
            out@.map_values(f) == openrgb_plan(devices@.take(i as int), name@, *mode),
        decreases devices@.len() - i,
    {
        assert(devices@.take(i + 1).drop_last() =~= devices@.take(i as int));
        if text::same(devices[i].name.as_str(), name) {
            let ghost was = out@;
            let call = apply_openrgb_one(&devices[i], name, mode);
            out.push(call);
            assert(out@.map_values(f) =~= was.map_values(f).push(f(call)));
        }
        i += 1;
    }
    assert(devices@.take(devices@.len() as int) =~= devices@);
    if out.len() == 0 {
        assert(out@.map_values(f).len() == 0);
        Err(text::cat2(name, " (not connected)"))
    } else {
        Ok(out)
    }
}

/// The failures among replies, one of several that repeat in a row.
pub open spec fn failures(replies: Seq<Result<(), String>>) -> Seq<Seq<char>>
    decreases replies.len(),
{
    if replies.len() == 0 {
        seq![]
    } else {
        let rest = failures(replies.drop_last());
        match replies.last() {
            Ok(_) => rest,
            Err(e) => if rest.len() > 0 && rest.last() == e@ {
                rest
            } else {
                rest.push(e@)
            },
        }
    }
}

/// How showing a mode on several devices went: well where none failed.
pub fn openrgb_outcome(replies: Vec<Result<(), String>>) -> (r: Result<(), String>)
    ensures
        match r {
            Ok(_) => failures(replies@).len() == 0,
            Err(why) => failures(replies@).len() > 0 && why@ == text::joined(
                failures(replies@),
                "; "@,
            ),
        },
{
    let ghost all = replies@;
    let mut left = replies;
    let mut failed: Vec<String> = Vec::new();
    let ghost mut n: int = 0;
    assert(left@ =~= all.skip(0));
    assert(text::texts(failed@) =~= failures(all.take(0)));
    while left.len() > 0
        invariant
            0 <= n <= all.len(),
            left@ == all.skip(n),
            text::texts(failed@) == failures(all.take(n)),
        decreases left@.len(),
    {
        let reply = left.remove(0);
        proof {
            assert(reply == all[n]);
            assert(all.take(n + 1).drop_last() =~= all.take(n));
            assert(left@ =~= all.skip(n + 1));
            n = n + 1;
        }
        match reply {
            Ok(_) => {},
            Err(e) => {
                let k = failed.len();
                assert(text::texts(failed@).len() == k);
                let again = k > 0 && text::same(failed[k - 1].as_str(), e.as_str());
                assert(k > 0 ==> text::texts(failed@).last() == failed@[k - 1]@);
                if !again {
                    proof {
                        text::texts_push(failed@, e);
                    }
                    failed.push(e);
                }
            },
        }
    }
    assert(all.take(all.len() as int) =~= all);
    assert(text::texts(failed@).len() == failed@.len());
    if failed.len() == 0 {
        Ok(())
    } else {
        Err(text::join(failed.as_slice(), "; "))
    }
}

/// An Aura device is only asked for modes it lists.
pub proof fn planned_effect_is_listed(modes: Seq<u32>, mode: LightingMode, accent: Rgb)
    ensures
        planned(modes, mode, accent) matches Some(AuraActionView::Effect(e)) ==> modes.contains(
            e.mode,
        ),
{
}

/// What a lit Aura device shows, read back as profile lighting, is planned as
/// the same effect: in its own colour where the mode carries one, else in the
/// accent.
pub proof fn aura_state_shows_again(
    modes: Seq<u32>,
    listed: u32,
    colour: Rgb,
    level: u32,
    accent: Rgb,
)
    requires
        modes.contains(listed),
    ensures
        planned(modes, lit(LightState::Aura { listed, colour, level }), accent) == Some(
            AuraActionView::Effect(
                effect_in(
                    listed,
                    if listed <= 1 {
                        colour
                    } else {
                        accent
                    },
                    Rgb { r: 0, g: 0, b: 0 },
                ),
            ),
        ),
{
}

/// What a lit Slash bar shows, read back as profile lighting, sets the same
/// animation.
pub proof fn slash_state_shows_again(show: Show, names: ModeNames, state: LightState)
    requires
        show.device.backend is AsusdSlash,
        state is Slash,
        show.mode == lit(state),
        show.device.modes@.contains(state->mode as u32),
    ensures
        shown(show, names, ShowState::Connecting, LightReply::Done) == then_call(
            ShowState::SettingAnimation,
            LightCallView::SetAnimation(state->mode),
        ),
{
}

/// How many calls can still follow.
pub open spec fn calls_left(state: ShowState) -> nat {
    match state {
        ShowState::Connecting => 4,
        ShowState::SettingEffect => 3,
        ShowState::SettingAnimation => 3,
        ShowState::ReadingLevel => 2,
        ShowState::SettingBrightness => 2,
        ShowState::Finishing => 1,
        ShowState::Finished => 0,
    }
}

/// Showing a mode comes to an end: each call leaves fewer to follow, and
/// nothing follows an end.
pub proof fn showing_ends(show: Show, names: ModeNames, state: ShowState, reply: LightReply)
    ensures
        shown(show, names, state, reply).1 is Call ==> calls_left(
            shown(show, names, state, reply).0,
        ) < calls_left(state),
        shown(show, names, state, reply).1 is End <==> shown(show, names, state, reply).0
            == ShowState::Finished,
{
}

/// A failed call is what showing a mode ends with, but for the question for
/// the level, whose failure is passed over.
pub proof fn failed_call_is_reported(show: Show, names: ModeNames, state: ShowState, why: String)
    ensures
        shown(show, names, state, LightReply::Failed(why)) == if state == ShowState::ReadingLevel {
            (ShowState::Finished, ShowStepView::End(Ok::<(), Seq<char>>(())))
        } else {
            failed(why@)
        },
{
}

/// An effect is never followed by a dark level, unless the device has no
/// other.
pub proof fn effect_is_seen(show: Show, names: ModeNames, state: ShowState, reply: LightReply)
    requires
        state == ShowState::SettingEffect || state == ShowState::ReadingLevel,
        exists|i: int|
            0 <= i < show.device.brightness_levels@.len()
                && #[trigger] show.device.brightness_levels@[i] > 0,
    ensures
        shown(show, names, state, reply).1 matches ShowStepView::Call(LightCallView::SetLevel(l))
            ==> l > 0,
{
    let levels = show.device.brightness_levels@;
    let i = choose|i: int| 0 <= i < levels.len() && #[trigger] levels[i] > 0;
    some_level_is_brightest(levels);
    let best = choose|l: u32| is_brightest(levels, l);
    assert(levels[i] <= best);
}

/// Some level of a device is its brightest.
pub proof fn some_level_is_brightest(levels: Seq<u32>)
    requires
        levels.len() > 0,
    ensures
        exists|l: u32| is_brightest(levels, l),
    decreases levels.len(),
{
    let last = levels.last();
    if levels.len() == 1 {
        assert(is_brightest(levels, last));
    } else {
        let rest = levels.drop_last();
        some_level_is_brightest(rest);
        let l = choose|l: u32| is_brightest(rest, l);
        assert(is_brightest(rest, l));
        let best = if last > l {
            last
        } else {
            l
        };
        assert(levels.contains(best)) by {
            if best == l {
                let k = choose|k: int| 0 <= k < rest.len() && rest[k] == l;
                assert(levels[k] == l);
            } else {
                assert(levels[levels.len() - 1] == last);
            }
        }
        assert forall|k: int| 0 <= k < levels.len() implies levels[k] <= best by {
            if k < rest.len() {
                assert(rest[k] == levels[k]);
            }
        }
        assert(is_brightest(levels, best));
    }
}

/// Nothing failed exactly where every reply is good.
pub proof fn no_failure_means_all_good(replies: Seq<Result<(), String>>)
    ensures
        failures(replies).len() == 0 <==> forall|i: int|
            0 <= i < replies.len() ==> (#[trigger] replies[i]) is Ok,
    decreases replies.len(),
{
    if replies.len() > 0 {
        let rest = replies.drop_last();
        no_failure_means_all_good(rest);
        if failures(replies).len() == 0 {
            assert forall|i: int| 0 <= i < replies.len() implies (#[trigger] replies[i]) is Ok by {
                if i < rest.len() {
                    assert(rest[i] == replies[i]);
                }
            }
        } else {
            if forall|i: int| 0 <= i < replies.len() ==> (#[trigger] replies[i]) is Ok {
                assert forall|i: int| 0 <= i < rest.len() implies (#[trigger] rest[i]) is Ok by {
                    assert(rest[i] == replies[i]);
                }
                assert(replies[replies.len() - 1] is Ok);
            }
        }
    }
}

/// The OpenRGB devices of a name.
pub open spec fn called(name: Seq<char>) -> spec_fn(RgbDevice) -> bool {
    |d: RgbDevice| d.name@ == name
}

/// Every OpenRGB device of a name takes the mode, in the order they are
/// listed, and no other does.
pub proof fn every_device_of_a_name_takes_it(
    devices: Seq<RgbDevice>,
    name: Seq<char>,
    mode: LightingMode,
)
    ensures
        openrgb_plan(devices, name, mode) == devices.filter(called(name)).map_values(
            |d: RgbDevice| openrgb_call(d, name, mode),
        ),
    decreases devices.len(),
{
    let f = |d: RgbDevice| openrgb_call(d, name, mode);
    reveal(Seq::filter);
    if devices.len() > 0 {
        let rest = devices.drop_last();
        every_device_of_a_name_takes_it(rest, name, mode);
        if called(name)(devices.last()) {
            assert(rest.filter(called(name)).push(devices.last()).map_values(f) =~= rest.filter(
                called(name),
            ).map_values(f).push(f(devices.last())));
        }
    } else {
        assert(devices.filter(called(name)).map_values(f) =~= seq![]);
    }
}

/// Whether an answer is to a question.
pub open spec fn replies_to(at: ReadCall, reply: ReadReply) -> bool {
    match (at, reply) {
        (_, ReadReply::Failed(_)) => true,
        (ReadCall::Connect, ReadReply::Open) => true,
        (ReadCall::Effect, ReadReply::Effect { .. }) => true,
        (ReadCall::Level, ReadReply::Level(_)) => true,
        (ReadCall::Option(_), ReadReply::Flag(_)) => true,
        (ReadCall::Enabled, ReadReply::Flag(_)) => true,
        (ReadCall::Animation, ReadReply::Byte(_)) => true,
        (ReadCall::Brightness, ReadReply::Byte(_)) => true,
        _ => false,
    }
}

/// How many questions can still follow.
pub open spec fn reads_left(at: ReadCall) -> int {
    match at {
        ReadCall::Connect => 20,
        ReadCall::Effect => 2,
        ReadCall::Level => 1,
        ReadCall::Option(i) => 10 - i,
        ReadCall::Enabled => 3,
        ReadCall::Animation => 2,
        ReadCall::Brightness => 1,
    }
}

/// Reading a device comes to an end: each answer leaves fewer questions.
pub proof fn reading_ends(device: LightingDevice, r: ReadingView, reply: ReadReply)
    requires
        r.at matches ReadCall::Option(i) ==> i < 6,
        replies_to(r.at, reply),
    ensures
        read_step(device, r, reply) matches ReadStepView::Ask(next) ==> {
            &&& 0 <= reads_left(next.at) < reads_left(r.at)
            &&& next.at matches ReadCall::Option(i) ==> i < 6
        },
{
}

} // verus!
