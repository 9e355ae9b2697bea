//! What each step of an apply asks for, writes and reports.

use crate::apply::{
    ActionView, Answer, Checkpoint, Context, Gate, NvidiaState, RunView, Stage, WriteError,
};
use crate::cpu::CpuInfo;
use crate::model::{CpuInfoView, FirmwareAttr, FirmwareAttrView, GpuVendor, GpuView, Owner};
use crate::profile::Profile;
use crate::report::{CpuControlView, ReportView};
use crate::{
    apply, apply_laws, lighting, model, number, power, report, seqs, summary_laws, text, text_laws,
};
use vstd::prelude::*;
use vstd::string::*;

verus! {

/// Whether what is written to a processor is what a profile asks for, as far
/// as the processor offers it: its governor where that is there, else the
/// first, else none; its EPP unless the processor offers a choice without
/// it; and its boost and all else as they are.
pub open spec fn is_asked_for(
    wanted: CpuControlView,
    info: CpuInfoView,
    target: CpuControlView,
) -> bool {
    &&& info.available_governors.contains(wanted.governor) ==> target.governor == wanted.governor
    &&& !info.available_governors.contains(wanted.governor) && info.available_governors.len() > 0
        ==> target.governor == info.available_governors[0]
    &&& info.available_governors.len() == 0 ==> target.governor.len() == 0
    &&& wanted.epp is None ==> target.epp is None
    &&& wanted.epp matches Some(e) ==> {
        &&& info.available_epp.contains(e) || info.available_epp.len() <= 1 ==> target.epp == Some(
            e,
        )
        &&& !info.available_epp.contains(e) && info.available_epp.len() > 1 ==> target.epp is None
    }
    &&& target.boost == wanted.boost
    &&& target.rest == wanted.rest
}

/// Whenever a run comes to write the processor's state, it is what the profile
/// asks for, as far as the processor offers it.
pub proof fn processor_gets_what_was_asked_for(
    p: Profile,
    cx: Context,
    run: RunView,
    answer: Answer,
)
    requires
        apply_laws::sized(p, cx),
        apply::fits(p, cx, run),
        !(run.at is WritingCpu),
    ensures
        apply::action_of(p, cx, apply::after(p, cx, run, answer)) matches ActionView::WriteCpu {
            info,
            target,
        } ==> p.cpu.control is Some && is_asked_for(p.cpu.control->0@, info, target),
{
    apply_laws::cpu_settings_arrive(p, cx, run, answer);
}

/// At its turn a profile's processor state is written to the processor that
/// the model knows, or the inventory; where neither does, the kernel is
/// asked; and a profile without one goes on, with nothing said.
pub proof fn processor_is_written_in_its_turn(p: Profile, cx: Context, run: RunView)
    requires
        run.at == Stage::Checking(Checkpoint::BeforeCpu),
    ensures
        ({
            let now = apply::after(p, cx, run, Answer::Latest(cx.this));
            &&& p.cpu.control is None ==> now == run.go(Stage::Checking(Checkpoint::BeforeGpu))
            &&& p.cpu.control is Some ==> {
                &&& cx.model matches Some(m) ==> (apply::action_of(p, cx, now)
                    matches ActionView::WriteCpu { info, target } && info == m.cpu@
                    && is_asked_for(p.cpu.control->0@, info, target))
                &&& cx.model is None && cx.cpu is Some ==> (apply::action_of(p, cx, now)
                    matches ActionView::WriteCpu { info, target } && info == cx.cpu->0@
                    && is_asked_for(p.cpu.control->0@, info, target))
                &&& cx.model is None && cx.cpu is None ==> apply::action_of(p, cx, now) is AskCpu
                    && now.report == run.report
            }
        }),
{
}

/// A processor that the kernel names is written what was asked for.
pub proof fn named_processor_is_written(p: Profile, cx: Context, run: RunView, found: CpuInfo)
    requires
        run.at is AskingCpu,
        p.cpu.control is Some,
    ensures
        apply::action_of(p, cx, apply::after(p, cx, run, Answer::Cpu(found)))
            matches ActionView::WriteCpu { info, target } && info == found@ && is_asked_for(
            p.cpu.control->0@,
            info,
            target,
        ),
{
}

/// An EPP that is left out is said, with what the processor offers; where it
/// is not left out nothing is said yet.
pub proof fn left_out_epp_is_said(p: Profile, cx: Context, run: RunView, found: CpuInfo)
    requires
        run.at is AskingCpu,
        p.cpu.control is Some,
    ensures
        ({
            let now = apply::after(p, cx, run, Answer::Cpu(found));
            let offered = text::texts(found.available_epp@);
            match p.cpu.control->0.epp {
                Some(e) => {
                    let left_out = !offered.contains(e@) && offered.len() > 1;
                    &&& left_out ==> now.report == (ReportView {
                        skipped: run.report.skipped.push(
                            "EPP "@ + e@ + " (this CPU offers "@ + text::joined(offered, " "@)
                                + ")"@,
                        ),
                        ..run.report
                    })
                    &&& !left_out ==> now.report == run.report
                },
                None => now.report == run.report,
            }
        }),
{
}

/// A processor state that was written is read back; a write that failed is
/// said with the first reason, and what could not be sent with why.
pub proof fn processor_writes_are_followed_up(
    p: Profile,
    cx: Context,
    run: RunView,
    errs: Vec<WriteError>,
    why: String,
)
    requires
        run.at is WritingCpu,
    ensures
        ({
            let done = apply::after(p, cx, run, Answer::CpuWritten(Ok(errs)));
            let lost = apply::after(p, cx, run, Answer::CpuWritten(Err(why)));
            &&& errs@.len() == 0 ==> done == run.go(Stage::ReadingCpu)
            &&& errs@.len() > 0 ==> done.at == Stage::Checking(Checkpoint::BeforeGpu)
                && done.report == (ReportView {
                failed: run.report.failed.push("CPU: "@ + errs@[0].why@),
                ..run.report
            })
            &&& lost.at == Stage::Checking(Checkpoint::BeforeGpu)
            &&& lost.report == (ReportView {
                failed: run.report.failed.push("CPU: "@ + why@),
                ..run.report
            })
        }),
{
}

/// What the kernel reports afterwards decides: with nothing different, or
/// nothing readable, the state was applied; else it failed, and how is said.
pub proof fn kernel_has_the_last_word(
    p: Profile,
    cx: Context,
    run: RunView,
    live: Option<crate::cpu::CpuControlState>,
)
    requires
        run.at is ReadingCpu,
    ensures
        ({
            let now = apply::after(p, cx, run, Answer::CpuState(live));
            let good = live is None || report::mismatch(run.target, live->0@) is None;
            let shown = if run.target.epp is Some {
                "CPU "@ + run.target.governor + "/"@ + run.target.epp->0
            } else {
                "CPU "@ + run.target.governor
            };
            &&& now.at == Stage::Checking(Checkpoint::BeforeGpu)
            &&& good ==> now.report == (ReportView {
                applied: run.report.applied.push(shown),
                ..run.report
            })
            &&& !good ==> now.report == (ReportView {
                failed: run.report.failed.push(
                    "CPU: written, but the kernel reports "@ + report::mismatch(
                        run.target,
                        live->0@,
                    )->0,
                ),
                ..run.report
            })
        }),
{
}

/// The limits are the settings that are numbers, between white space, by their
/// names and in their order; the others are none.
pub proof fn limits_are_the_numbers(
    settings: Seq<(Seq<char>, String)>,
    next: (Seq<char>, String),
)
    ensures
        apply::limits_in(seq![]).len() == 0,
        match number::i64_in(text::trimmed(next.1@)) {
            Some(n) => apply::limits_in(settings.push(next)) == apply::limits_in(settings).push(
                (next.0, n),
            ),
            None => apply::limits_in(settings.push(next)) == apply::limits_in(settings),
        },
{
    assert(settings.push(next).drop_last() =~= settings);
}

/// A limit is read first, under its name.
pub proof fn limits_are_read_by_name(p: Profile, cx: Context, run: RunView, i: usize)
    requires
        run.at == Stage::ReadingLimit(i),
        i < apply::limits_of(p).len(),
    ensures
        apply::action_of(p, cx, run) == ActionView::ReadAttr(apply::limits_of(p)[i as int].0),
{
}

/// A limit whose attribute is not there, or does not take it, is skipped and
/// said; one that is in place is passed over; any other is written, as the
/// attribute takes it, through asusd exactly where that owns power modes.
pub proof fn limits_are_written_as_taken(
    p: Profile,
    cx: Context,
    run: RunView,
    i: usize,
    a: FirmwareAttr,
)
    requires
        apply_laws::sized(p, cx),
        run.at == Stage::ReadingLimit(i),
        i < apply::limits_of(p).len(),
    ensures
        ({
            let name = apply::limits_of(p)[i as int].0;
            let taken = model::accepted(
                apply::owned_attr(cx, name, a@),
                apply::limits_of(p)[i as int].1,
            );
            let gone = apply::after(p, cx, run, Answer::Attr(None));
            let now = apply::after(p, cx, run, Answer::Attr(Some(a)));
            let next = if i + 1 < apply::limits_of(p).len() {
                Stage::ReadingLimit((i + 1) as usize)
            } else {
                Stage::Checking(Checkpoint::BeforeCpu)
            };
            &&& gone.at == next
            &&& gone.report == (ReportView {
                skipped: run.report.skipped.push(name + " (not on this machine)"@),
                ..run.report
            })
            &&& taken matches Err(why) ==> now.at == next && now.report == (ReportView {
                skipped: run.report.skipped.push(why),
                ..run.report
            })
            &&& taken matches Ok(v) ==> {
                &&& now.report == run.report
                &&& a.current == Some(v) ==> now.at == next
                &&& a.current != Some(v) ==> apply::action_of(p, cx, now) == (
                ActionView::WriteAttr {
                    name,
                    value: v,
                    via_asusd: run.owner == Some(Owner::Asusd),
                })
            }
        }),
{
}

/// A live attribute belongs to whom the model says, by the first of its name;
/// nothing else of it changes.
pub proof fn live_attributes_have_the_models_owner(
    cx: Context,
    name: Seq<char>,
    a: FirmwareAttrView,
    k: int,
)
    ensures
        cx.model is None ==> apply::owned_attr(cx, name, a) == (FirmwareAttrView {
            owned_by: None,
            ..a
        }),
        cx.model matches Some(m) ==> {
            &&& 0 <= k < m.controls.attributes@.len() && m.controls.attributes@[k].name@ == name
                && (forall|j: int|
                0 <= j < k ==> (#[trigger] m.controls.attributes@[j]).name@ != name)
                ==> apply::owned_attr(cx, name, a) == (FirmwareAttrView {
                owned_by: m.controls.attributes@[k].owned_by,
                ..a
            })
            &&& (forall|j: int|
                0 <= j < m.controls.attributes@.len() ==> (
                #[trigger] m.controls.attributes@[j]).name@ != name) ==> apply::owned_attr(
                cx,
                name,
                a,
            ) == (FirmwareAttrView { owned_by: None, ..a })
        },
{
    if let Some(m) = cx.model {
        let all = m.controls.attributes@;
        let f = model::attr_has(name);
        if 0 <= k < all.len() && all[k].name@ == name && (forall|j: int|
            0 <= j < k ==> (#[trigger] all[j]).name@ != name) {
            seqs::first_where_is(all, f, k);
        }
        if forall|j: int| 0 <= j < all.len() ==> (#[trigger] all[j]).name@ != name {
            seqs::first_where_none(all, f);
        }
    }
}

/// A limit that was written is said by its label and value, and one that was
/// not by its name and why; then comes the next.
pub proof fn written_limits_are_said(
    p: Profile,
    cx: Context,
    run: RunView,
    i: usize,
    v: i64,
    label: String,
    why: String,
)
    requires
        apply_laws::sized(p, cx),
        run.at == Stage::WritingLimit(i, v),
        i < apply::limits_of(p).len(),
    ensures
        ({
            let done = apply::after(p, cx, run, Answer::AttrWritten(Ok(label)));
            let lost = apply::after(p, cx, run, Answer::AttrWritten(Err(why)));
            let next = if i + 1 < apply::limits_of(p).len() {
                Stage::ReadingLimit((i + 1) as usize)
            } else {
                Stage::Checking(Checkpoint::BeforeCpu)
            };
            &&& done.at == next && lost.at == next
            &&& done.report == (ReportView {
                applied: run.report.applied.push(label@ + " "@ + number::signed(v as int)),
                ..run.report
            })
            &&& lost.report == (ReportView {
                failed: run.report.failed.push(apply::limits_of(p)[i as int].0 + ": "@ + why@),
                ..run.report
            })
        }),
{
}

/// A run starts with who owns power modes: the model says so; without one the
/// daemons are asked where the profile has a power mode or a limit, and else
/// nobody owns any.
pub proof fn owners_come_from_the_model(p: Profile, cx: Context, run: RunView)
    requires
        run.at == Stage::Checking(Checkpoint::Start),
    ensures
        ({
            let now = apply::after(p, cx, run, Answer::Latest(cx.this));
            &&& cx.model matches Some(m) ==> now.owner == m.controls.power_owner && now.modes
                == text::texts(m.controls.power_modes@)
            &&& cx.model is None && (p.cpu.power_mode is Some || p.asusd.items().len() > 0)
                ==> now == run.go(Stage::AskingModes)
            &&& cx.model is None && p.cpu.power_mode is None && p.asusd.items().len() == 0
                ==> now.owner is None && now.modes.len() == 0
        }),
{
}

/// What the daemons answer is used as it is.
pub proof fn asked_modes_are_used(
    p: Profile,
    cx: Context,
    run: RunView,
    owner: Option<Owner>,
    modes: Vec<String>,
)
    requires
        run.at is AskingModes,
    ensures
        apply::after(p, cx, run, Answer::Modes { owner, modes }).owner == owner,
        apply::after(p, cx, run, Answer::Modes { owner, modes }).modes == text::texts(modes@),
{
}

/// A profile's power mode is selected through its owner, as the mode that
/// matches it best; where none does, it is skipped and said why.
pub proof fn power_modes_are_selected_or_skipped(
    p: Profile,
    cx: Context,
    run: RunView,
    owner: Option<Owner>,
    modes: Vec<String>,
)
    requires
        run.at is AskingModes,
        p.cpu.power_mode is Some,
    ensures
        ({
            let now = apply::after(p, cx, run, Answer::Modes { owner, modes });
            let wanted = p.cpu.power_mode->0@;
            match power::best_match(wanted, text::texts(modes@)) {
                Some(k) => apply::action_of(p, cx, now) == (ActionView::SetPower {
                    owner,
                    mode: text::texts(modes@)[k],
                }) && now.report == run.report,
                None => {
                    &&& modes@.len() == 0 ==> now.report == (ReportView {
                        skipped: run.report.skipped.push(
                            "power mode "@ + wanted
                                + " (nothing controls power modes here)"@,
                        ),
                        ..run.report
                    })
                    &&& modes@.len() > 0 ==> now.report == (ReportView {
                        skipped: run.report.skipped.push(
                            "power mode "@ + wanted + " (not on this machine)"@,
                        ),
                        ..run.report
                    })
                    &&& !(now.at is SettingPower)
                },
            }
        }),
{
    assert(text::texts(modes@).len() == modes@.len());
}

/// With a model the power mode is selected the same way, straight from its
/// first checkpoint.
pub proof fn models_modes_are_selected_or_skipped(p: Profile, cx: Context, run: RunView)
    requires
        run.at == Stage::Checking(Checkpoint::Start),
        cx.model is Some,
        p.cpu.power_mode is Some,
    ensures
        ({
            let now = apply::after(p, cx, run, Answer::Latest(cx.this));
            let modes = text::texts(cx.model->0.controls.power_modes@);
            let wanted = p.cpu.power_mode->0@;
            match power::best_match(wanted, modes) {
                Some(k) => apply::action_of(p, cx, now) == (ActionView::SetPower {
                    owner: cx.model->0.controls.power_owner,
                    mode: modes[k],
                }) && now.report == run.report,
                None => {
                    let why = if modes.len() == 0 {
                        " (nothing controls power modes here)"@
                    } else {
                        " (not on this machine)"@
                    };
                    now.report == (ReportView {
                        skipped: run.report.skipped.push("power mode "@ + wanted + why),
                        ..run.report
                    }) && !(now.at is SettingPower)
                },
            }
        }),
{
}

/// A profile without a power mode, or with one that is skipped, goes on with
/// its limits at once, and without limits with the processor.
pub proof fn limits_follow_the_power_mode(
    p: Profile,
    cx: Context,
    run: RunView,
    owner: Option<Owner>,
    modes: Vec<String>,
)
    requires
        run.at is AskingModes,
        !run.mode_changed,
        p.cpu.power_mode is None || power::best_match(
            p.cpu.power_mode->0@,
            text::texts(modes@),
        ) is None,
    ensures
        ({
            let now = apply::after(p, cx, run, Answer::Modes { owner, modes });
            &&& apply::limits_of(p).len() > 0 ==> now.at == Stage::ReadingLimit(0)
            &&& apply::limits_of(p).len() == 0 ==> now.at == Stage::Checking(
                Checkpoint::BeforeCpu,
            )
            &&& p.cpu.power_mode is None ==> now.report == run.report
        }),
{
}

/// A power mode that changed is said, one that was selected already is not,
/// and one that could not be selected is said with why. Only a change has
/// the limits wait.
pub proof fn power_changes_are_said(
    p: Profile,
    cx: Context,
    run: RunView,
    changed: bool,
    why: String,
)
    requires
        run.at is SettingPower,
        apply::fits(p, cx, run),
        !run.mode_changed,
    ensures
        ({
            let done = apply::after(p, cx, run, Answer::Power(Ok(changed)));
            let lost = apply::after(p, cx, run, Answer::Power(Err(why)));
            let limits = apply::limits_of(p).len() > 0;
            let mode = match apply::action_of(p, cx, run) {
                ActionView::SetPower { owner, mode } => mode,
                _ => seq![],
            };
            let on = if limits {
                Stage::ReadingLimit(0)
            } else {
                Stage::Checking(Checkpoint::BeforeCpu)
            };
            &&& done.mode_changed == changed
            &&& changed ==> done.report == (ReportView {
                applied: run.report.applied.push("power mode "@ + mode),
                ..run.report
            })
            &&& !changed ==> done.report == run.report
            &&& changed && limits ==> apply::action_of(p, cx, done) == ActionView::Wait(1000)
            &&& !(changed && limits) ==> done.at == on
            &&& lost.report == (ReportView {
                failed: run.report.failed.push("power mode: "@ + why@),
                ..run.report
            })
            &&& lost.at == on
        }),
{
}

/// Behind the wait a newer apply is looked for, and then the limits come; the
/// other checkpoints lead to the processor, to the GPUs and to the lights.
pub proof fn checkpoints_lead_on(p: Profile, cx: Context, run: RunView)
    ensures
        run.at is Settling ==> apply::after(p, cx, run, Answer::Waited) == run.go(
            Stage::Checking(Checkpoint::Settled),
        ),
        run.at == Stage::Checking(Checkpoint::Settled) ==> apply::after(
            p,
            cx,
            run,
            Answer::Latest(cx.this),
        ) == run.go(
            if apply::limits_of(p).len() > 0 {
                Stage::ReadingLimit(0)
            } else {
                Stage::Checking(Checkpoint::BeforeCpu)
            },
        ),
        run.at == Stage::Checking(Checkpoint::BeforeGpu) && p.gpu.nvidia is Some ==> apply::after(
            p,
            cx,
            run,
            Answer::Latest(cx.this),
        ) == run.go(Stage::AskingNvidia),
        run.at == Stage::Checking(Checkpoint::BeforeLights) && p.lighting.zones.items().len() > 0
            ==> apply::after(p, cx, run, Answer::Latest(cx.this)) == run.go(Stage::OpeningBus),
        run.at is Checking ==> apply::action_of(p, cx, run) is Check,
{
}

/// A dGPU that is not awake is asleep, whatever the graphics say; an awake one
/// is as they say, and settles where nobody can say.
pub proof fn sleeping_dgpus_are_asleep(gate: Gate)
    ensures
        apply::state_of(false, gate) == NvidiaState::Asleep,
        apply::state_of(true, Gate::Open) == NvidiaState::Ready,
        apply::state_of(true, Gate::ModeOff) == NvidiaState::ModeOff,
        apply::state_of(true, Gate::Settling) == NvidiaState::Settling,
        apply::state_of(true, Gate::Unknown) == NvidiaState::Settling,
{
}

/// NVIDIA settings that a dGPU can't take now are skipped, and why is said;
/// only while the graphics settle are they kept for later.
pub proof fn skipped_dgpus_are_said(p: Profile, cx: Context, run: RunView, state: NvidiaState)
    requires
        run.at is AskingNvidia,
        !run.report.nvidia_deferred,
        run.nvidia_only,
    ensures
        ({
            let now = apply::after(p, cx, run, Answer::Nvidia(state));
            let said = |what: Seq<char>|
                ReportView { skipped: run.report.skipped.push(what), ..run.report };
            &&& state == NvidiaState::Asleep ==> now.report == said("NVIDIA (asleep or off)"@)
                && now.at is Finished
            &&& state == NvidiaState::ModeOff ==> now.report == said(
                "NVIDIA (the graphics mode doesn't use it)"@,
            ) && now.at is Finished
            &&& state == NvidiaState::Settling ==> now.report == (ReportView {
                nvidia_deferred: true,
                ..said("NVIDIA (graphics settling; applied once it has)"@)
            }) && now.at is Finished
            &&& state == NvidiaState::Ready ==> now == run.go(Stage::ApplyingNvidia)
        }),
{
}

/// What goes to the dGPU is what the profile says; where it names no power
/// limit, with the stock limit put back.
pub proof fn dgpu_gets_the_profiles_settings(p: Profile, cx: Context, run: RunView)
    requires
        run.at is ApplyingNvidia,
        p.gpu.nvidia is Some,
    ensures
        apply::action_of(p, cx, run) matches ActionView::ApplyNvidia(nv) && {
            let asked = p.gpu.nvidia->0;
            &&& nv.power_limit_w == asked.power_limit_w
            &&& nv.rest == asked.rest@
            &&& asked.power_limit_w is None ==> nv.reset_power_limit
            &&& asked.power_limit_w is Some ==> nv.reset_power_limit == asked.reset_power_limit
        },
{
    summary_laws::no_limit_means_the_stock_limit(p.gpu.nvidia->0@);
}

/// Settings that the dGPU took are applied; those that failed are each said
/// with why, and so is why nothing could be sent.
pub proof fn dgpu_settings_are_said(
    p: Profile,
    cx: Context,
    run: RunView,
    errs: Vec<WriteError>,
    why: String,
)
    requires
        run.at is ApplyingNvidia,
        run.nvidia_only,
    ensures
        ({
            let done = apply::after(p, cx, run, Answer::NvidiaApplied(Ok(errs)));
            let lost = apply::after(p, cx, run, Answer::NvidiaApplied(Err(why)));
            &&& done.at is Finished && lost.at is Finished
            &&& errs@.len() == 0 ==> done.report == (ReportView {
                applied: run.report.applied.push("NVIDIA"@),
                ..run.report
            })
            &&& errs@.len() > 0 ==> done.report == (ReportView {
                failed: run.report.failed.push(
                    "NVIDIA: "@ + text::joined(
                        errs@.map_values(|e: WriteError| e.what@ + " ("@ + e.why@ + ")"@),
                        ", "@,
                    ),
                ),
                ..run.report
            })
            &&& lost.report == (ReportView {
                failed: run.report.failed.push("NVIDIA: "@ + why@),
                ..run.report
            })
        }),
{
}

/// Behind NVIDIA's, a whole apply goes on with AMD's GPUs, where the profile
/// sets a level for them: to the first of them, or saying that there is none;
/// and else with the lights.
pub proof fn amd_gpus_follow(p: Profile, cx: Context, run: RunView)
    requires
        run.at == Stage::Checking(Checkpoint::BeforeGpu),
        p.gpu.nvidia is None,
        !run.nvidia_only,
    ensures
        ({
            let now = apply::after(p, cx, run, Answer::Latest(cx.this));
            &&& p.gpu.amd_perf_level is None ==> now == run.go(
                Stage::Checking(Checkpoint::BeforeLights),
            )
            &&& p.gpu.amd_perf_level is Some && apply::slots_of(cx).len() > 0 ==> now == run.go(
                Stage::WritingAmd(0),
            )
            &&& p.gpu.amd_perf_level is Some && apply::slots_of(cx).len() == 0 ==> now.at
                == Stage::Checking(Checkpoint::BeforeLights) && now.report == (ReportView {
                skipped: run.report.skipped.push("AMD GPU (none here)"@),
                ..run.report
            })
        }),
{
}

/// Whether a run goes on with AMD's GPUs as its profile says: not at all where
/// it is for NVIDIA's settings alone, to the first of them where there is one
/// and the profile sets a level, and else to the lights, saying so where
/// there is none.
pub open spec fn goes_on_with_amd(
    p: Profile,
    cx: Context,
    run: RunView,
    said: ReportView,
    now: RunView,
) -> bool {
    if run.nvidia_only {
        now.at is Finished && now.report == said
    } else if p.gpu.amd_perf_level is None {
        now.at == Stage::Checking(Checkpoint::BeforeLights) && now.report == said
    } else if apply::slots_of(cx).len() > 0 {
        now.at == Stage::WritingAmd(0) && now.report == said
    } else {
        now.at == Stage::Checking(Checkpoint::BeforeLights) && now.report == (ReportView {
            skipped: said.skipped.push("AMD GPU (none here)"@),
            ..said
        })
    }
}

/// A dGPU that can't take its settings, and one that was given them, both lead
/// on to AMD's GPUs.
pub proof fn amd_gpus_follow_nvidias(
    p: Profile,
    cx: Context,
    run: RunView,
    state: NvidiaState,
    errs: Vec<WriteError>,
    why: String,
)
    ensures
        run.at is AskingNvidia && state != NvidiaState::Ready ==> {
            let now = apply::after(p, cx, run, Answer::Nvidia(state));
            let told = ReportView {
                skipped: run.report.skipped.push(
                    match state {
                        NvidiaState::Asleep => "NVIDIA (asleep or off)"@,
                        NvidiaState::ModeOff => "NVIDIA (the graphics mode doesn't use it)"@,
                        _ => "NVIDIA (graphics settling; applied once it has)"@,
                    },
                ),
                nvidia_deferred: run.report.nvidia_deferred || state == NvidiaState::Settling,
                ..run.report
            };
            goes_on_with_amd(p, cx, run, told, now)
        },
        run.at is ApplyingNvidia && errs@.len() == 0 ==> goes_on_with_amd(
            p,
            cx,
            run,
            ReportView { applied: run.report.applied.push("NVIDIA"@), ..run.report },
            apply::after(p, cx, run, Answer::NvidiaApplied(Ok(errs))),
        ),
        run.at is ApplyingNvidia ==> goes_on_with_amd(
            p,
            cx,
            run,
            ReportView { failed: run.report.failed.push("NVIDIA: "@ + why@), ..run.report },
            apply::after(p, cx, run, Answer::NvidiaApplied(Err(why))),
        ),
{
}

/// AMD's GPUs are those of the model that AMD made and that have a slot, in
/// their order.
pub proof fn amd_gpus_are_the_models(gpus: Seq<GpuView>, next: GpuView)
    ensures
        apply::amd_slots(seq![]).len() == 0,
        next.vendor == GpuVendor::Amd && next.pci_slot is Some ==> apply::amd_slots(gpus.push(next))
            == apply::amd_slots(gpus).push(next.pci_slot->0),
        !(next.vendor == GpuVendor::Amd && next.pci_slot is Some) ==> apply::amd_slots(
            gpus.push(next),
        ) == apply::amd_slots(gpus),
{
    assert(gpus.push(next).drop_last() =~= gpus);
}

/// Without a model none is known.
pub proof fn slots_are_the_models(cx: Context)
    ensures
        cx.model is None ==> apply::slots_of(cx).len() == 0,
        cx.model matches Some(m) ==> apply::slots_of(cx) == apply::amd_slots(m@.gpus),
{
}

/// Each of AMD's GPUs is written the profile's level, in the file of its slot,
/// and how that went is said.
pub proof fn amd_levels_are_written(p: Profile, cx: Context, run: RunView, i: usize, why: String)
    requires
        apply_laws::sized(p, cx),
        run.at == Stage::WritingAmd(i),
        i < apply::slots_of(cx).len(),
        p.gpu.amd_perf_level is Some,
    ensures
        ({
            let level = p.gpu.amd_perf_level->0@;
            let done = apply::after(p, cx, run, Answer::AmdWritten(Ok(())));
            let lost = apply::after(p, cx, run, Answer::AmdWritten(Err(why)));
            let next = if i + 1 < apply::slots_of(cx).len() {
                Stage::WritingAmd((i + 1) as usize)
            } else {
                Stage::Checking(Checkpoint::BeforeLights)
            };
            &&& apply::action_of(p, cx, run) == (ActionView::WriteAmd {
                path: "/sys/bus/pci/devices/"@ + apply::slots_of(cx)[i as int]
                    + "/power_dpm_force_performance_level"@,
                level,
            })
            &&& done.at == next && lost.at == next
            &&& done.report == (ReportView {
                applied: run.report.applied.push("AMD GPU "@ + level),
                ..run.report
            })
            &&& lost.report == (ReportView {
                failed: run.report.failed.push("AMD GPU: "@ + why@),
                ..run.report
            })
        }),
{
}

/// A zone of OpenRGB's waits for its devices to be listed, once for all such
/// zones; where OpenRGB does not run, each is skipped and said.
pub proof fn openrgb_zones_need_openrgb(
    p: Profile,
    cx: Context,
    run: RunView,
    i: int,
    name: Seq<char>,
)
    requires
        0 <= i < p.lighting.zones.items().len() <= usize::MAX,
        p.lighting.zones.items()[i].0 == "openrgb:"@ + name,
    ensures
        ({
            let now = apply::to_zone(p, cx, run, i);
            &&& run.openrgb is None ==> now == run.go(Stage::ListingOpenRgb(i as usize))
            &&& run.openrgb == Some(true) ==> now == run.go(Stage::ShowingOpenRgb(i as usize))
                && apply::action_of(p, cx, now) == (ActionView::ShowOpenRgb {
                zone: i as usize,
                name,
            })
            &&& run.openrgb == Some(false) ==> now == apply::to_zone(
                p,
                cx,
                RunView {
                    report: ReportView {
                        skipped: run.report.skipped.push(name + " (OpenRGB isn't running)"@),
                        ..run.report
                    },
                    ..run
                },
                i + 1,
            )
        }),
{
    text_laws::parts_make_the_whole(seq![], "openrgb:"@, name);
}

/// Any other zone is shown on the model's first light of its id, at the
/// brightness that the profile has for it; without the bus that fails, and a
/// zone without a light is skipped.
pub proof fn other_zones_need_their_light(
    p: Profile,
    cx: Context,
    run: RunView,
    i: int,
    k: int,
)
    requires
        0 <= i < p.lighting.zones.items().len() <= usize::MAX,
        !text::begins(p.lighting.zones.items()[i].0, "openrgb:"@),
    ensures
        ({
            let key = p.lighting.zones.items()[i].0;
            let now = apply::to_zone(p, cx, run, i);
            let found = cx.model is Some && 0 <= k < cx.model->0.lighting@.len() <= usize::MAX
                && cx.model->0.lighting@[k].id.0@ == key && (forall|j: int|
                0 <= j < k ==> (#[trigger] cx.model->0.lighting@[j]).id.0@ != key);
            let none = cx.model is None || (forall|j: int|
                0 <= j < cx.model->0.lighting@.len() ==> (
                #[trigger] cx.model->0.lighting@[j]).id.0@ != key);
            &&& found && run.bus ==> now == run.go(Stage::ShowingLight(i as usize))
                && apply::action_of(p, cx, now) == (ActionView::ShowLight {
                zone: i as usize,
                device: k as usize,
                brightness: p.lighting.brightness_of(key),
            })
            &&& found && !run.bus ==> now == apply::to_zone(
                p,
                cx,
                RunView {
                    report: ReportView {
                        failed: run.report.failed.push(
                            cx.model->0.lighting@[k].label@ + ": no system bus"@,
                        ),
                        ..run.report
                    },
                    ..run
                },
                i + 1,
            )
            &&& none ==> now == apply::to_zone(
                p,
                cx,
                RunView {
                    report: ReportView {
                        skipped: run.report.skipped.push(key + " (not on this machine)"@),
                        ..run.report
                    },
                    ..run
                },
                i + 1,
            )
        }),
{
    let key = p.lighting.zones.items()[i].0;
    if let Some(m) = cx.model {
        let all = m.lighting@;
        let f = apply::light_has(key);
        if 0 <= k < all.len() && all[k].id.0@ == key && (forall|j: int|
            0 <= j < k ==> (#[trigger] all[j]).id.0@ != key) {
            seqs::first_where_is(all, f, k);
        }
        if forall|j: int| 0 <= j < all.len() ==> (#[trigger] all[j]).id.0@ != key {
            seqs::first_where_none(all, f);
        }
    }
}

/// The zones come one after the other, from the first once the bus was tried;
/// and behind the last only what is left to the user is said.
pub proof fn zones_come_in_turn(
    p: Profile,
    cx: Context,
    run: RunView,
    i: usize,
    yes: bool,
    why: String,
)
    requires
        apply_laws::sized(p, cx),
        i < p.lighting.zones.items().len(),
    ensures
        run.at is OpeningBus ==> apply::after(p, cx, run, Answer::Bus(yes)) == apply::to_zone(
            p,
            cx,
            RunView { bus: yes, ..run },
            0,
        ),
        run.at == Stage::ListingOpenRgb(i) ==> apply::after(p, cx, run, Answer::OpenRgb(yes))
            == apply::to_zone(p, cx, RunView { openrgb: Some(yes), ..run }, i as int),
        run.at == Stage::ShowingOpenRgb(i) ==> apply::after(
            p,
            cx,
            run,
            Answer::Shown(Err(why)),
        ) == apply::to_zone(
            p,
            cx,
            RunView {
                report: ReportView {
                    skipped: run.report.skipped.push(why@),
                    ..run.report
                },
                ..run
            },
            i + 1,
        ),
        run.at == Stage::ShowingLight(i) ==> apply::after(p, cx, run, Answer::Shown(Err(why)))
            == apply::to_zone(
            p,
            cx,
            RunView {
                report: ReportView { failed: run.report.failed.push(why@), ..run.report },
                ..run
            },
            i + 1,
        ),
        ({
            let end = apply::to_zone(p, cx, run, p.lighting.zones.items().len() as int);
            &&& end.at is Finished
            &&& p.gfx_mode is None ==> end.report == run.report
            &&& p.gfx_mode matches Some(mode) ==> end.report == (ReportView {
                skipped: run.report.skipped.push(
                    "graphics mode "@ + mode@ + " (switch it on the ASUS page)"@,
                ),
                ..run.report
            })
        }),
{
}

/// What a zone shows is said with its device: OpenRGB's by its name, a light
/// of the model by its label.
pub proof fn shown_zones_are_said(
    p: Profile,
    cx: Context,
    run: RunView,
    i: usize,
    k: int,
    name: Seq<char>,
)
    requires
        apply_laws::sized(p, cx),
        i < p.lighting.zones.items().len(),
    ensures
        run.at == Stage::ShowingOpenRgb(i) && p.lighting.zones.items()[i as int].0 == "openrgb:"@
            + name ==> apply::after(p, cx, run, Answer::Shown(Ok(()))) == apply::to_zone(
            p,
            cx,
            RunView {
                report: ReportView {
                    applied: run.report.applied.push(
                        name + " "@ + lighting::described(
                            p.lighting.zones.items()[i as int].1,
                        ),
                    ),
                    ..run.report
                },
                ..run
            },
            i + 1,
        ),
        run.at == Stage::ShowingLight(i) && cx.model is Some && 0 <= k
            < cx.model->0.lighting@.len() && cx.model->0.lighting@[k].id.0@
            == p.lighting.zones.items()[i as int].0 && (forall|j: int|
            0 <= j < k ==> (#[trigger] cx.model->0.lighting@[j]).id.0@
                != p.lighting.zones.items()[i as int].0) ==> apply::after(
            p,
            cx,
            run,
            Answer::Shown(Ok(())),
        ) == apply::to_zone(
            p,
            cx,
            RunView {
                report: ReportView {
                    applied: run.report.applied.push(
                        cx.model->0.lighting@[k].label@ + " "@ + lighting::described_on(
                            cx.model->0.lighting@[k],
                            p.lighting.zones.items()[i as int].1,
                            cx.names,
                        ),
                    ),
                    ..run.report
                },
                ..run
            },
            i + 1,
        ),
{
    text_laws::parts_make_the_whole(seq![], "openrgb:"@, name);
    let key = p.lighting.zones.items()[i as int].0;
    if let Some(m) = cx.model {
        let all = m.lighting@;
        if 0 <= k < all.len() && all[k].id.0@ == key && (forall|j: int|
            0 <= j < k ==> (#[trigger] all[j]).id.0@ != key) {
            seqs::first_where_is(all, apply::light_has(key), k);
        }
    }
}

/// A profile without lights goes from the last checkpoint to its end.
pub proof fn no_zones_end_the_run(p: Profile, cx: Context, run: RunView)
    requires
        run.at == Stage::Checking(Checkpoint::BeforeLights),
        p.lighting.zones.items().len() == 0,
    ensures
        apply::after(p, cx, run, Answer::Latest(cx.this)).at is Finished,
        p.gfx_mode is None ==> apply::after(p, cx, run, Answer::Latest(cx.this)).report
            == run.report,
{
}

/// Each stage asks for what it is named for.
pub proof fn stages_ask_for_their_own(p: Profile, cx: Context, run: RunView)
    ensures
        run.at is AskingModes ==> apply::action_of(p, cx, run) is AskModes,
        run.at is AskingCpu ==> apply::action_of(p, cx, run) is AskCpu,
        run.at is ReadingCpu ==> apply::action_of(p, cx, run) is ReadCpu,
        run.at is AskingNvidia ==> apply::action_of(p, cx, run) is AskNvidia,
        run.at is OpeningBus ==> apply::action_of(p, cx, run) is OpenBus,
        run.at is ListingOpenRgb ==> apply::action_of(p, cx, run) is ListOpenRgb,
        run.at is WritingCpu ==> apply::action_of(p, cx, run) == (ActionView::WriteCpu {
            info: run.info,
            target: run.target,
        }),
{
}

/// The limits of a profile are those of its asusd settings.
pub proof fn limits_are_the_profiles(p: Profile)
    ensures
        apply::limits_of(p) == apply::limits_in(p.asusd.items()),
{
}

/// A run begins at its first checkpoint, with nothing known and nothing said.
pub proof fn runs_begin_with_nothing()
    ensures
        RunView::first().at == Stage::Checking(Checkpoint::Start),
        RunView::first().owner is None,
        RunView::first().modes.len() == 0,
        !RunView::first().mode_changed,
        RunView::first().openrgb is None,
        !RunView::first().bus,
        !RunView::first().nvidia_only,
        RunView::first().report.applied.len() == 0,
        RunView::first().report.skipped.len() == 0,
        RunView::first().report.failed.len() == 0,
        !RunView::first().report.superseded,
        !RunView::first().report.nvidia_deferred,
{
}

} // verus!
