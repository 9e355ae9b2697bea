//! What holds of every apply, however its steps are answered.

use crate::apply::{ActionView, Answer, Checkpoint, Context, Gate, NvidiaState, RunView, Stage};
use crate::profile::Profile;
use crate::report::ReportView;
use crate::{apply, model, power, text};
use vstd::prelude::*;
use vstd::string::*;

verus! {

/// The part of the pipeline that a stage belongs to: the power mode, firmware
/// limits, the processor, GPUs, lighting, the end.
pub open spec fn phase(at: Stage) -> nat {
    match at {
        Stage::Checking(Checkpoint::Start) | Stage::AskingModes => 0,
        Stage::SettingPower => 1,
        Stage::Settling | Stage::Checking(Checkpoint::Settled) => 2,
        Stage::ReadingLimit(_) | Stage::WritingLimit(_, _) => 2,
        Stage::Checking(Checkpoint::BeforeCpu) => 3,
        Stage::AskingCpu | Stage::WritingCpu | Stage::ReadingCpu => 3,
        Stage::Checking(Checkpoint::BeforeGpu) => 4,
        Stage::AskingNvidia | Stage::ApplyingNvidia | Stage::WritingAmd(_) => 4,
        Stage::Checking(Checkpoint::BeforeLights) | Stage::OpeningBus => 5,
        Stage::ListingOpenRgb(_) | Stage::ShowingOpenRgb(_) | Stage::ShowingLight(_) => 5,
        Stage::Finished => 6,
    }
}

/// How many answers a part can still take.
pub open spec fn answers_left(p: Profile, cx: Context, at: Stage) -> int {
    let limits = apply::limits_of(p).len() as int;
    let slots = apply::slots_of(cx).len() as int;
    let zones = apply::zones_of(p).len() as int;
    match at {
        Stage::Checking(Checkpoint::Start) => 1,
        Stage::AskingModes => 0,
        Stage::SettingPower => 0,
        Stage::Settling => 2 * limits + 3,
        Stage::Checking(Checkpoint::Settled) => 2 * limits + 2,
        Stage::ReadingLimit(i) => 2 * (limits - i) + 1,
        Stage::WritingLimit(i, _) => 2 * (limits - i),
        Stage::Checking(Checkpoint::BeforeCpu) => 3,
        Stage::AskingCpu => 2,
        Stage::WritingCpu => 1,
        Stage::ReadingCpu => 0,
        Stage::Checking(Checkpoint::BeforeGpu) => slots + 3,
        Stage::AskingNvidia => slots + 2,
        Stage::ApplyingNvidia => slots + 1,
        Stage::WritingAmd(i) => slots - i,
        Stage::Checking(Checkpoint::BeforeLights) => 2 * zones + 3,
        Stage::OpeningBus => 2 * zones + 2,
        Stage::ListingOpenRgb(i) => 2 * (zones - i) + 1,
        Stage::ShowingOpenRgb(i) => 2 * (zones - i),
        Stage::ShowingLight(i) => 2 * (zones - i),
        Stage::Finished => 0,
    }
}

/// Whether an answer is to what a stage waits for.
pub open spec fn answers(at: Stage, answer: Answer) -> bool {
    match at {
        Stage::Checking(_) => answer is Latest,
        Stage::AskingModes => answer is Modes,
        Stage::SettingPower => answer is Power,
        Stage::Settling => answer is Waited,
        Stage::ReadingLimit(_) => answer is Attr,
        Stage::WritingLimit(_, _) => answer is AttrWritten,
        Stage::AskingCpu => answer is Cpu,
        Stage::WritingCpu => answer is CpuWritten,
        Stage::ReadingCpu => answer is CpuState,
        Stage::AskingNvidia => answer is Nvidia,
        Stage::ApplyingNvidia => answer is NvidiaApplied,
        Stage::WritingAmd(_) => answer is AmdWritten,
        Stage::OpeningBus => answer is Bus,
        Stage::ListingOpenRgb(_) => answer is OpenRgb,
        Stage::ShowingOpenRgb(_) => answer is Shown,
        Stage::ShowingLight(_) => answer is Shown,
        Stage::Finished => false,
    }
}

/// Whether a run is at a zone from a place on, or at its end.
pub open spec fn at_zone_from(at: Stage, i: int) -> bool {
    match at {
        Stage::ListingOpenRgb(k) => i <= k,
        Stage::ShowingOpenRgb(k) => i <= k,
        Stage::ShowingLight(k) => i <= k,
        Stage::Finished => true,
        _ => false,
    }
}

/// How many things a report says.
pub open spec fn entries(r: ReportView) -> nat {
    r.applied.len() + r.skipped.len() + r.failed.len()
}

/// What the report says of a graphics mode.
pub open spec fn graphics_note(mode: Seq<char>) -> Seq<char> {
    "graphics mode "@ + mode + " (switch it on the ASUS page)"@
}

proof fn follows_transitively(a: ReportView, b: ReportView, c: ReportView)
    requires
        b.follows(a),
        c.follows(b),
    ensures
        c.follows(a),
{
    assert(a.applied =~= c.applied.subrange(0, a.applied.len() as int)) by {
        assert(a.applied =~= b.applied.subrange(0, a.applied.len() as int));
        assert(b.applied =~= c.applied.subrange(0, b.applied.len() as int));
    }
    assert(a.skipped =~= c.skipped.subrange(0, a.skipped.len() as int)) by {
        assert(a.skipped =~= b.skipped.subrange(0, a.skipped.len() as int));
        assert(b.skipped =~= c.skipped.subrange(0, b.skipped.len() as int));
    }
    assert(a.failed =~= c.failed.subrange(0, a.failed.len() as int)) by {
        assert(a.failed =~= b.failed.subrange(0, a.failed.len() as int));
        assert(b.failed =~= c.failed.subrange(0, b.failed.len() as int));
    }
}

/// What the zones from a place on do to a run.
proof fn zones_from(p: Profile, cx: Context, run: RunView, i: int)
    requires
        0 <= i <= apply::zones_of(p).len() <= usize::MAX,
    ensures
        at_zone_from(apply::to_zone(p, cx, run, i).at, i),
        apply::fits(p, cx, apply::to_zone(p, cx, run, i)),
        apply::to_zone(p, cx, run, i).report.follows(run.report),
        apply::to_zone(p, cx, run, i).report.superseded == run.report.superseded,
        apply::to_zone(p, cx, run, i).report.nvidia_deferred == run.report.nvidia_deferred,
        apply::to_zone(p, cx, run, i).at is Finished && p.gfx_mode is Some ==> {
            let skipped = apply::to_zone(p, cx, run, i).report.skipped;
            skipped.len() > 0 && skipped.last() == graphics_note(p.gfx_mode->0@)
        },
        run.openrgb is Some ==> !(apply::to_zone(p, cx, run, i).at is ListingOpenRgb),
    decreases apply::zones_of(p).len() - i,
{
    let zones = apply::zones_of(p);
    if i < zones.len() {
        let key = zones[i].0;
        match apply::openrgb_name(key) {
            Some(name) => {
                if run.openrgb == Some(false) {
                    let told = run.skip(name + " (OpenRGB isn't running)"@);
                    zones_from(p, cx, told, i + 1);
                    follows_transitively(
                        run.report,
                        told.report,
                        apply::to_zone(p, cx, told, i + 1).report,
                    );
                }
            },
            None => match apply::light_at(cx, key) {
                Some(k) => if !run.bus {
                    let told = run.fail(cx.model->0.lighting@[k].label@ + ": no system bus"@);
                    zones_from(p, cx, told, i + 1);
                    follows_transitively(
                        run.report,
                        told.report,
                        apply::to_zone(p, cx, told, i + 1).report,
                    );
                },
                None => {
                    let told = run.skip(key + " (not on this machine)"@);
                    zones_from(p, cx, told, i + 1);
                    follows_transitively(
                        run.report,
                        told.report,
                        apply::to_zone(p, cx, told, i + 1).report,
                    );
                },
            },
        }
    }
}

/// The lists of a profile and a machine fit in memory.
pub open spec fn sized(p: Profile, cx: Context) -> bool {
    &&& apply::limits_of(p).len() <= usize::MAX
    &&& apply::slots_of(cx).len() <= usize::MAX
    &&& apply::zones_of(p).len() <= usize::MAX
}

/// The zones that can follow an answer.
proof fn zones_after(p: Profile, cx: Context, run: RunView, answer: Answer)
    requires
        sized(p, cx),
        apply::fits(p, cx, run),
        phase(run.at) == 5,
        !(run.at is Checking),
        answers(run.at, answer),
    ensures
        ({
            let now = apply::after(p, cx, run, answer);
            &&& match run.at {
                Stage::OpeningBus => at_zone_from(now.at, 0),
                Stage::ListingOpenRgb(i) => at_zone_from(now.at, i as int) && !(
                now.at is ListingOpenRgb),
                Stage::ShowingOpenRgb(i) => at_zone_from(now.at, i + 1),
                Stage::ShowingLight(i) => at_zone_from(now.at, i + 1),
                _ => false,
            }
            &&& apply::fits(p, cx, now)
            &&& now.report.follows(run.report)
            &&& now.report.superseded == run.report.superseded
            &&& now.report.nvidia_deferred == run.report.nvidia_deferred
            &&& now.at is Finished && p.gfx_mode is Some ==> now.report.skipped.len() > 0
                && now.report.skipped.last() == graphics_note(p.gfx_mode->0@)
            &&& run.at is ShowingOpenRgb || run.at is ShowingLight ==> entries(now.report)
                > entries(run.report)
        }),
{
    match (run.at, answer) {
        (Stage::OpeningBus, Answer::Bus(there)) => {
            zones_from(p, cx, RunView { bus: there, ..run }, 0);
        },
        (Stage::ListingOpenRgb(i), Answer::OpenRgb(runs)) => {
            zones_from(p, cx, RunView { openrgb: Some(runs), ..run }, i as int);
        },
        (Stage::ShowingOpenRgb(i), Answer::Shown(r)) => {
            let told = match r {
                Ok(_) => run.apply(
                    apply::openrgb_name(apply::zones_of(p)[i as int].0)->0 + " "@
                        + crate::lighting::described(apply::zones_of(p)[i as int].1),
                ),
                Err(e) => run.skip(e@),
            };
            zones_from(p, cx, told, i + 1);
            follows_transitively(
                run.report,
                told.report,
                apply::to_zone(p, cx, told, i + 1).report,
            );
        },
        (Stage::ShowingLight(i), Answer::Shown(r)) => {
            let told = match r {
                Ok(_) => {
                    let d = cx.model->0.lighting@[apply::light_at(
                        cx,
                        apply::zones_of(p)[i as int].0,
                    )->0];
                    run.apply(
                        d.label@ + " "@ + crate::lighting::described_on(
                            d,
                            apply::zones_of(p)[i as int].1,
                            cx.names,
                        ),
                    )
                },
                Err(e) => run.fail(e@),
            };
            zones_from(p, cx, told, i + 1);
            follows_transitively(
                run.report,
                told.report,
                apply::to_zone(p, cx, told, i + 1).report,
            );
        },
        _ => {},
    }
}

/// Power mode first, then firmware limits, then the processor, then GPUs,
/// then lighting: no answer takes a run back, and each answer to what it
/// waits for takes it on, so that every run comes to its end.
pub proof fn runs_keep_their_order_and_end(p: Profile, cx: Context, run: RunView, answer: Answer)
    requires
        sized(p, cx),
        apply::fits(p, cx, run),
    ensures
        phase(apply::after(p, cx, run, answer).at) >= phase(run.at),
        answers_left(p, cx, run.at) >= 0,
        answers(run.at, answer) ==> phase(apply::after(p, cx, run, answer).at) > phase(run.at)
            || answers_left(p, cx, apply::after(p, cx, run, answer).at) < answers_left(
            p,
            cx,
            run.at,
        ),
        !answers(run.at, answer) ==> apply::after(p, cx, run, answer) == run,
{
    if phase(run.at) == 5 && !(run.at is Checking) && answers(run.at, answer) {
        zones_after(p, cx, run, answer);
    }
}

/// What a run waits for is always there in the profile and on the machine.
pub proof fn runs_fit(p: Profile, cx: Context, run: RunView, answer: Answer)
    requires
        sized(p, cx),
        apply::fits(p, cx, run),
    ensures
        apply::fits(p, cx, apply::after(p, cx, run, answer)),
{
    if phase(run.at) == 5 && !(run.at is Checking) && answers(run.at, answer) {
        zones_after(p, cx, run, answer);
    }
}

/// A report never takes anything back.
pub proof fn reports_only_grow(p: Profile, cx: Context, run: RunView, answer: Answer)
    requires
        sized(p, cx),
        apply::fits(p, cx, run),
    ensures
        apply::after(p, cx, run, answer).report.follows(run.report),
{
    if phase(run.at) == 5 && !(run.at is Checking) && answers(run.at, answer) {
        zones_after(p, cx, run, answer);
    }
}

/// A newer apply stops a run at its next checkpoint: it does nothing more and
/// says why. Nothing else marks a report so.
pub proof fn newer_apply_supersedes(p: Profile, cx: Context, run: RunView, answer: Answer)
    requires
        sized(p, cx),
        apply::fits(p, cx, run),
    ensures
        run.at is Checking && answer is Latest && answer->Latest_0 != cx.this ==> {
            let now = apply::after(p, cx, run, answer);
            &&& now.at is Finished
            &&& now.report == (ReportView { superseded: true, ..run.report })
        },
        apply::after(p, cx, run, answer).report.superseded && !run.report.superseded
            ==> run.at is Checking && answer is Latest && answer->Latest_0 != cx.this,
{
    if phase(run.at) == 5 && !(run.at is Checking) && answers(run.at, answer) {
        zones_after(p, cx, run, answer);
    }
}

/// A finished run stays as it is, and waits for nothing.
pub proof fn finished_runs_stay(p: Profile, cx: Context, run: RunView, answer: Answer)
    requires
        run.at is Finished,
    ensures
        apply::after(p, cx, run, answer) == run,
        apply::action_of(p, cx, run) is Nothing,
{
}

/// Only a finished run waits for nothing.
pub proof fn unfinished_runs_wait(p: Profile, cx: Context, run: RunView)
    requires
        !(run.at is Finished),
    ensures
        !(apply::action_of(p, cx, run) is Nothing),
{
}

/// Every step that wrote something says how that went; a power mode that was
/// selected already needs no word.
pub proof fn writes_are_reported(p: Profile, cx: Context, run: RunView, answer: Answer)
    requires
        sized(p, cx),
        apply::fits(p, cx, run),
        answers(run.at, answer),
        match run.at {
            Stage::SettingPower => answer != Answer::Power(Ok(false)),
            Stage::WritingLimit(_, _) => true,
            Stage::WritingCpu => !(answer matches Answer::CpuWritten(Ok(errs)) && errs@.len() == 0),
            Stage::ReadingCpu => true,
            Stage::ApplyingNvidia => true,
            Stage::WritingAmd(_) => true,
            Stage::ShowingOpenRgb(_) => true,
            Stage::ShowingLight(_) => true,
            _ => false,
        },
    ensures
        entries(apply::after(p, cx, run, answer).report) > entries(run.report),
{
    if phase(run.at) == 5 && !(run.at is Checking) && answers(run.at, answer) {
        zones_after(p, cx, run, answer);
    }
}

/// A run only selects power modes that are there: the one the profile names,
/// or one of its kind.
pub proof fn selected_mode_is_offered(p: Profile, cx: Context, run: RunView)
    requires
        apply::fits(p, cx, run),
    ensures
        apply::action_of(p, cx, run) matches ActionView::SetPower { owner, mode } ==> {
            &&& p.cpu.power_mode is Some
            &&& run.modes.contains(mode)
            &&& text::lower(mode) == text::lower(p.cpu.power_mode->0@) || (power::kind_of(
                mode,
            ) is Some && power::kind_of(mode) == power::kind_of(p.cpu.power_mode->0@))
        },
{
    if run.at is SettingPower {
        power::match_is_offered(p.cpu.power_mode->0@, run.modes);
        let i = power::best_match(p.cpu.power_mode->0@, run.modes)->0;
        assert(run.modes[i] == run.modes[i]);
    }
}

/// A run only writes limits that the firmware takes, and none that is in
/// place.
pub proof fn written_limit_is_accepted(p: Profile, cx: Context, run: RunView, answer: Answer)
    requires
        apply::fits(p, cx, run),
        run.at is ReadingLimit,
    ensures
        apply::after(p, cx, run, answer).at matches Stage::WritingLimit(i, v) ==> {
            &&& Stage::ReadingLimit(i) == run.at
            &&& answer matches Answer::Attr(Some(a)) && a.current != Some(v) && model::accepted(
                apply::owned_attr(cx, apply::limits_of(p)[i as int].0, a@),
                apply::limits_of(p)[i as int].1,
            ) == Ok::<i64, Seq<char>>(v)
        },
{
}

/// A whole apply that runs to its end says that the graphics mode is left to
/// the user.
pub proof fn graphics_mode_is_left_to_the_user(
    p: Profile,
    cx: Context,
    run: RunView,
    answer: Answer,
)
    requires
        sized(p, cx),
        apply::fits(p, cx, run),
        p.gfx_mode is Some,
        !(run.at is Finished),
        !run.nvidia_only,
        !run.report.superseded,
    ensures
        ({
            let now = apply::after(p, cx, run, answer);
            now.at is Finished && !now.report.superseded ==> now.report.skipped.len() > 0
                && now.report.skipped.last() == graphics_note(p.gfx_mode->0@)
        }),
{
    if phase(run.at) == 5 && !(run.at is Checking) && answers(run.at, answer) {
        zones_after(p, cx, run, answer);
    }
}

/// The dGPU is only touched when it is awake and free: settings go to it
/// straight after it was found ready, and never otherwise.
pub proof fn dgpu_is_only_touched_when_ready(p: Profile, cx: Context, run: RunView, answer: Answer)
    requires
        sized(p, cx),
        apply::fits(p, cx, run),
        apply::action_of(p, cx, apply::after(p, cx, run, answer)) is ApplyNvidia,
    ensures
        run.at is ApplyingNvidia || (run.at is AskingNvidia && answer == Answer::Nvidia(
            NvidiaState::Ready,
        )),
{
    if phase(run.at) == 5 && !(run.at is Checking) && answers(run.at, answer) {
        zones_after(p, cx, run, answer);
    }
}

/// A sleeping dGPU is left asleep, and one whose graphics settle is not held:
/// settings go to it where it is awake and its gate is open, and are deferred
/// where it is awake and the graphics settle or nobody can say.
pub proof fn gate_decides(p: Profile, cx: Context, run: RunView, awake: bool, gate: Gate)
    requires
        sized(p, cx),
        apply::fits(p, cx, run),
        run.at is AskingNvidia,
    ensures
        ({
            let now = apply::after(p, cx, run, Answer::Nvidia(apply::state_of(awake, gate)));
            &&& now.at is ApplyingNvidia <==> awake && gate is Open
            &&& now.report.nvidia_deferred <==> run.report.nvidia_deferred || (awake && (
            gate is Settling || gate is Unknown))
        }),
{
}

/// A profile is a complete GPU state: what goes to the dGPU names a power
/// limit, or puts the stock one back.
pub proof fn gpu_state_is_complete(p: Profile, cx: Context, run: RunView)
    ensures
        apply::action_of(p, cx, run) matches ActionView::ApplyNvidia(nv) ==> nv.power_limit_w is Some
            || nv.reset_power_limit,
{
}

/// No NVIDIA setting of a profile is lost on its way to the dGPU: what the
/// library does not read of them arrives as the profile has it.
pub proof fn nvidia_settings_arrive(p: Profile, cx: Context, run: RunView)
    requires
        apply::fits(p, cx, run),
    ensures
        apply::action_of(p, cx, run) matches ActionView::ApplyNvidia(nv) ==> {
            &&& p.gpu.nvidia is Some
            &&& nv.rest == p.gpu.nvidia->0.rest@
            &&& nv.power_limit_w == p.gpu.nvidia->0.power_limit_w
            &&& p.gpu.nvidia->0.reset_power_limit ==> nv.reset_power_limit
        },
{
}

/// No processor setting of a profile is lost either. What is written is what
/// the profile asks for, as far as the processor offers it, and goes to the
/// processor that was found.
pub proof fn cpu_settings_arrive(p: Profile, cx: Context, run: RunView, answer: Answer)
    requires
        sized(p, cx),
        apply::fits(p, cx, run),
        !(run.at is WritingCpu),
    ensures
        apply::action_of(p, cx, apply::after(p, cx, run, answer)) matches ActionView::WriteCpu {
            info,
            target,
        } ==> {
            &&& p.cpu.control is Some
            &&& target == apply::target_of(p.cpu.control->0@, info)
            &&& target.rest == p.cpu.control->0.rest@
            &&& if run.at is AskingCpu {
                answer matches Answer::Cpu(found) && info == found@
            } else {
                apply::known_cpu(cx) == Some(info)
            }
        },
{
    if phase(run.at) == 5 && !(run.at is Checking) && answers(run.at, answer) {
        zones_after(p, cx, run, answer);
    }
}

/// NVIDIA settings are deferred only while the graphics settle.
pub proof fn only_settling_defers(p: Profile, cx: Context, run: RunView, answer: Answer)
    requires
        sized(p, cx),
        apply::fits(p, cx, run),
        !run.report.nvidia_deferred,
        apply::after(p, cx, run, answer).report.nvidia_deferred,
    ensures
        run.at is AskingNvidia,
        answer == Answer::Nvidia(NvidiaState::Settling),
{
    if phase(run.at) == 5 && !(run.at is Checking) && answers(run.at, answer) {
        zones_after(p, cx, run, answer);
    }
}

} // verus!
