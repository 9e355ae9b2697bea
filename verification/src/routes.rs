//! Which way a setting goes: through asusd, power-profiles-daemon or sysfs.

use crate::model::{Owner, ARMOURY};
use crate::{controls, number, text};
use vstd::prelude::*;
use vstd::string::*;

verus! {

/// How long a daemon has to answer a question, in seconds.
pub const PATIENCE: u64 = 2;

/// The kernel's power mode switch.
pub const PLATFORM_PROFILE: &'static str = "/sys/firmware/acpi/platform_profile";

/// A question for the power modes of a machine without a model.
#[derive(Debug, Clone, Copy, PartialEq, Eq, Structural)]
pub enum ModesQuestion {
    /// Is the system bus there?
    Bus,
    /// Which platform profiles does asusd offer?
    Asusd,
    /// Which profiles does power-profiles-daemon offer?
    PowerProfilesDaemon,
    /// What does the kernel list?
    Sysfs,
}

/// The answer: nothing where there is none in time.
#[derive(Debug, Clone, PartialEq)]
pub enum ModesAnswer {
    Nothing,
    /// The bus is there.
    Bus,
    /// The names of the modes.
    Names(Vec<String>),
    /// The kernel's list.
    Text(String),
}

/// The next question, or who owns power modes and which there are.
#[derive(Debug, Clone, PartialEq)]
pub enum ModesStep {
    Ask(ModesQuestion),
    Known { owner: Option<Owner>, modes: Vec<String> },
}

pub enum ModesStepView {
    Ask(ModesQuestion),
    Known { owner: Option<Owner>, modes: Seq<Seq<char>> },
}

impl View for ModesStep {
    type V = ModesStepView;

    open spec fn view(&self) -> ModesStepView {
        match self {
            ModesStep::Ask(q) => ModesStepView::Ask(*q),
            ModesStep::Known { owner, modes } => ModesStepView::Known {
                owner: *owner,
                modes: text::texts(modes@),
            },
        }
    }
}

/// Power modes without a model, in the order the model gives power modes an
/// owner: asusd if it answers, then power-profiles-daemon, then the kernel,
/// else nothing. The first that names a mode ends it.
pub open spec fn fallback_step(question: ModesQuestion, answer: ModesAnswer) -> ModesStepView {
    match (question, answer) {
        (ModesQuestion::Bus, ModesAnswer::Bus) => ModesStepView::Ask(ModesQuestion::Asusd),
        (ModesQuestion::Bus, _) => ModesStepView::Ask(ModesQuestion::Sysfs),
        (ModesQuestion::Asusd, ModesAnswer::Names(modes)) => if modes@.len() > 0 {
            ModesStepView::Known { owner: Some(Owner::Asusd), modes: text::texts(modes@) }
        } else {
            ModesStepView::Ask(ModesQuestion::PowerProfilesDaemon)
        },
        (ModesQuestion::Asusd, _) => ModesStepView::Ask(ModesQuestion::PowerProfilesDaemon),
        (ModesQuestion::PowerProfilesDaemon, ModesAnswer::Names(modes)) => if modes@.len() > 0 {
            ModesStepView::Known {
                owner: Some(Owner::PowerProfilesDaemon),
                modes: text::texts(modes@),
            }
        } else {
            ModesStepView::Ask(ModesQuestion::Sysfs)
        },
        (ModesQuestion::PowerProfilesDaemon, _) => ModesStepView::Ask(ModesQuestion::Sysfs),
        (ModesQuestion::Sysfs, ModesAnswer::Text(s)) => if text::words(s@).len() > 0 {
            ModesStepView::Known { owner: Some(Owner::Sysfs), modes: text::words(s@) }
        } else {
            ModesStepView::Known { owner: None, modes: seq![] }
        },
        (ModesQuestion::Sysfs, _) => ModesStepView::Known { owner: None, modes: seq![] },
    }
}

/// Goes on with an answer on power modes; [`ModesQuestion::Bus`] comes first.
pub fn fallback_power_modes(question: ModesQuestion, answer: ModesAnswer) -> (r: ModesStep)
    ensures
        r@ == fallback_step(question, answer),
{
    match (question, answer) {
        (ModesQuestion::Bus, ModesAnswer::Bus) => ModesStep::Ask(ModesQuestion::Asusd),
        (ModesQuestion::Bus, _) => ModesStep::Ask(ModesQuestion::Sysfs),
        (ModesQuestion::Asusd, ModesAnswer::Names(modes)) => if modes.len() > 0 {
            ModesStep::Known { owner: Some(Owner::Asusd), modes }
        } else {
            ModesStep::Ask(ModesQuestion::PowerProfilesDaemon)
        },
        (ModesQuestion::Asusd, _) => ModesStep::Ask(ModesQuestion::PowerProfilesDaemon),
        (ModesQuestion::PowerProfilesDaemon, ModesAnswer::Names(modes)) => if modes.len() > 0 {
            ModesStep::Known { owner: Some(Owner::PowerProfilesDaemon), modes }
        } else {
            ModesStep::Ask(ModesQuestion::Sysfs)
        },
        (ModesQuestion::PowerProfilesDaemon, _) => ModesStep::Ask(ModesQuestion::Sysfs),
        (ModesQuestion::Sysfs, ModesAnswer::Text(s)) => {
            let modes = text::split_words(s.as_str());
            assert(text::texts(modes@).len() == modes@.len());
            if modes.len() > 0 {
                ModesStep::Known { owner: Some(Owner::Sysfs), modes }
            } else {
                assert(text::texts(modes@) =~= seq![]);
                ModesStep::Known { owner: None, modes }
            }
        },
        (ModesQuestion::Sysfs, _) => {
            let modes: Vec<String> = Vec::new();
            assert(text::texts(modes@) =~= seq![]);
            ModesStep::Known { owner: None, modes }
        },
    }
}

/// A call on the owner of power modes.
#[derive(Debug, Clone, Copy, PartialEq, Eq, Structural)]
pub enum PowerCall {
    /// Opens the owner's interface.
    Connect,
    /// Asks for the mode that is selected.
    Read,
    /// Selects the mode.
    Write,
}

/// How a call went.
#[derive(Debug, Clone, PartialEq)]
pub enum PowerReply {
    Done,
    /// The mode that is selected, by its number (asusd).
    Number(u32),
    /// The mode that is selected, by its name.
    Name(String),
    Failed(String),
}

/// What to do next: a call, or nothing more.
#[derive(Debug, PartialEq)]
pub enum PowerStep {
    Call(PowerCall),
    /// Whether the mode changed.
    End(Result<bool, String>),
}

pub enum PowerStepView {
    Call(PowerCall),
    End(Result<bool, Seq<char>>),
}

impl View for PowerStep {
    type V = PowerStepView;

    open spec fn view(&self) -> PowerStepView {
        match self {
            PowerStep::Call(c) => PowerStepView::Call(*c),
            PowerStep::End(r) => PowerStepView::End(
                match r {
                    Ok(b) => Ok(*b),
                    Err(e) => Err(e@),
                },
            ),
        }
    }
}

/// A power mode to select: through its owner, by its name, and for asusd by
/// its number, if it has one.
#[derive(Debug, Clone, PartialEq)]
pub struct PowerRequest {
    pub owner: Option<Owner>,
    pub mode: String,
    pub asusd_number: Option<u32>,
}

/// Whether the mode is selected already.
pub open spec fn selected(request: PowerRequest, reply: PowerReply) -> bool {
    match (request.owner, reply) {
        (Some(Owner::Asusd), PowerReply::Number(n)) => request.asusd_number == Some(n),
        (Some(Owner::PowerProfilesDaemon), PowerReply::Name(s)) => s@ == request.mode@,
        (Some(Owner::Sysfs), PowerReply::Name(s)) => s@ == request.mode@,
        _ => false,
    }
}

/// How selecting a mode starts: the kernel's switch needs no connection.
pub open spec fn first_call(request: PowerRequest) -> PowerStepView {
    match request.owner {
        Some(Owner::Asusd) => if request.asusd_number is Some {
            PowerStepView::Call(PowerCall::Connect)
        } else {
            PowerStepView::End(Err("asusd has no "@ + request.mode@ + " mode"@))
        },
        Some(Owner::PowerProfilesDaemon) => PowerStepView::Call(PowerCall::Connect),
        Some(Owner::Sysfs) => PowerStepView::Call(PowerCall::Read),
        _ => PowerStepView::End(Err("nothing controls power modes here"@)),
    }
}

/// How selecting a mode goes on after a call: a mode that is selected already
/// is left alone, whatever cannot be read is written.
pub open spec fn power_step(
    request: PowerRequest,
    last: Option<PowerCall>,
    reply: PowerReply,
) -> PowerStepView {
    match last {
        None => first_call(request),
        Some(PowerCall::Connect) => match reply {
            PowerReply::Failed(e) => PowerStepView::End(Err(e@)),
            _ => PowerStepView::Call(PowerCall::Read),
        },
        Some(PowerCall::Read) => if selected(request, reply) {
            PowerStepView::End(Ok(false))
        } else {
            PowerStepView::Call(PowerCall::Write)
        },
        Some(PowerCall::Write) => match reply {
            PowerReply::Failed(e) => PowerStepView::End(Err(e@)),
            _ => PowerStepView::End(Ok(true)),
        },
    }
}

/// Select a mode through its owner: goes on after the last call, if there was
/// one. Ends with `Ok(false)` when it was already selected.
pub fn set_power_mode(request: &PowerRequest, last: Option<PowerCall>, reply: PowerReply) -> (r:
    PowerStep)
    ensures
        r@ == power_step(*request, last, reply),
{
    match last {
        None => match request.owner {
            Some(Owner::Asusd) => if request.asusd_number.is_some() {
                PowerStep::Call(PowerCall::Connect)
            } else {
                PowerStep::End(
                    Err(text::cat3("asusd has no ", request.mode.as_str(), " mode")),
                )
            },
            Some(Owner::PowerProfilesDaemon) => PowerStep::Call(PowerCall::Connect),
            Some(Owner::Sysfs) => PowerStep::Call(PowerCall::Read),
            _ => PowerStep::End(Err("nothing controls power modes here".to_string())),
        },
        Some(PowerCall::Connect) => match reply {
            PowerReply::Failed(e) => PowerStep::End(Err(e)),
            _ => PowerStep::Call(PowerCall::Read),
        },
        Some(PowerCall::Read) => {
            let same = match (request.owner, &reply) {
                (Some(Owner::Asusd), PowerReply::Number(n)) => match request.asusd_number {
                    Some(k) => k == *n,
                    None => false,
                },
                (Some(Owner::PowerProfilesDaemon), PowerReply::Name(s)) => text::same(
                    s.as_str(),
                    request.mode.as_str(),
                ),
                (Some(Owner::Sysfs), PowerReply::Name(s)) => text::same(
                    s.as_str(),
                    request.mode.as_str(),
                ),
                _ => false,
            };
            if same {
                PowerStep::End(Ok(false))
            } else {
                PowerStep::Call(PowerCall::Write)
            }
        },
        Some(PowerCall::Write) => match reply {
            PowerReply::Failed(e) => PowerStep::End(Err(e)),
            _ => PowerStep::End(Ok(true)),
        },
    }
}

/// How a firmware attribute is written.
#[derive(Debug, PartialEq)]
pub enum AttrRoute {
    /// asusd takes the number, if it fits; else this is why not.
    Asusd(Result<i32, String>),
    /// The text goes to the file.
    File { path: String, text: String },
}

pub enum AttrRouteView {
    Asusd(Result<i32, Seq<char>>),
    File { path: Seq<char>, text: Seq<char> },
}

impl View for AttrRoute {
    type V = AttrRouteView;

    open spec fn view(&self) -> AttrRouteView {
        match self {
            AttrRoute::Asusd(r) => AttrRouteView::Asusd(
                match r {
                    Ok(n) => Ok(*n),
                    Err(e) => Err(e@),
                },
            ),
            AttrRoute::File { path, text } => AttrRouteView::File { path: path@, text: text@ },
        }
    }
}

/// The way of a firmware attribute: through asusd when it runs, so its stored
/// copy stays in step; else straight to sysfs.
pub open spec fn attr_route(name: Seq<char>, value: i64, via_asusd: bool) -> AttrRouteView {
    if !via_asusd {
        AttrRouteView::File {
            path: controls::attr_path(name, "current_value"@),
            text: number::signed(value as int),
        }
    } else if i32::MIN <= value <= i32::MAX {
        AttrRouteView::Asusd(Ok(value as i32))
    } else {
        AttrRouteView::Asusd(Err("out of range integral type conversion attempted"@))
    }
}

/// How to write a firmware attribute.
pub fn write_attr(name: &str, value: i64, via_asusd: bool) -> (r: AttrRoute)
    ensures
        r@ == attr_route(name@, value, via_asusd),
{
    if !via_asusd {
        AttrRoute::File {
            path: text::cat5(ARMOURY, "/", name, "/", "current_value"),
            text: number::print_signed(value),
        }
    } else if i32::MIN as i64 <= value && value <= i32::MAX as i64 {
        AttrRoute::Asusd(Ok(value as i32))
    } else {
        AttrRoute::Asusd(Err("out of range integral type conversion attempted".to_string()))
    }
}

/// How many questions can still follow.
pub open spec fn questions_left(q: ModesQuestion) -> nat {
    match q {
        ModesQuestion::Bus => 3,
        ModesQuestion::Asusd => 2,
        ModesQuestion::PowerProfilesDaemon => 1,
        ModesQuestion::Sysfs => 0,
    }
}

/// Asking for power modes ends, and an owner always has a mode.
pub proof fn fallback_ends(question: ModesQuestion, answer: ModesAnswer)
    ensures
        match fallback_step(question, answer) {
            ModesStepView::Ask(q) => questions_left(q) < questions_left(question),
            ModesStepView::Known { owner, modes } => owner is Some <==> modes.len() > 0,
        },
{
    match (question, answer) {
        (ModesQuestion::Asusd, ModesAnswer::Names(modes)) => {
            assert(text::texts(modes@).len() == modes@.len());
        },
        (ModesQuestion::PowerProfilesDaemon, ModesAnswer::Names(modes)) => {
            assert(text::texts(modes@).len() == modes@.len());
        },
        _ => {},
    }
}

/// A mode is written only where it was not seen to be selected, and only a
/// write that went well changes it.
pub proof fn selected_mode_is_left_alone(
    request: PowerRequest,
    last: Option<PowerCall>,
    reply: PowerReply,
)
    ensures
        power_step(request, last, reply) == PowerStepView::Call(PowerCall::Write) ==> last == Some(
            PowerCall::Read,
        ) && !selected(request, reply),
        power_step(request, last, reply) == PowerStepView::End(Ok::<bool, Seq<char>>(true))
            ==> last == Some(PowerCall::Write) && !(reply is Failed),
        power_step(request, last, reply) == PowerStepView::End(Ok::<bool, Seq<char>>(false))
            ==> last == Some(PowerCall::Read) && selected(request, reply),
{
}

} // verus!
