//! What reports and the settings page say.

use crate::model::{GpuPower, GpuView, HardwareModel, NoteView, Owner, SensorRole, SourceView};
use crate::nvidia::NvidiaControlView;
use crate::report::{CpuControlView, ReportView};
use crate::settings::{Features, Hardware, Page, SourceHealth, State, Tone};
use crate::{model, number, report, seqs, settings, text, text_laws};
use vstd::prelude::*;
use vstd::string::*;

verus! {

/// What is applied, skipped or failed is added to its own list, behind what
/// was there, and to no other.
pub proof fn reports_add_to_their_lists(r: ReportView, what: Seq<char>)
    ensures
        r.apply(what) == (ReportView { applied: r.applied.push(what), ..r }),
        r.skip(what) == (ReportView { skipped: r.skipped.push(what), ..r }),
        r.fail(what) == (ReportView { failed: r.failed.push(what), ..r }),
{
}

/// A summary names the profile, what was applied and what failed, and at last
/// what was skipped; where nothing was to do it says so.
pub proof fn summaries_say_what_happened(r: ReportView, profile: Seq<char>)
    ensures
        ({
            let said = summary_text(report::summarized(r, profile));
            let applied = text::joined(r.applied, ", "@);
            let failed = text::joined(r.failed, "; "@);
            let head = if r.applied.len() == 0 && r.failed.len() == 0 {
                profile + ": already in place"@
            } else if r.failed.len() == 0 {
                profile + " applied: "@ + applied
            } else if r.applied.len() == 0 {
                profile + " failed: "@ + failed
            } else {
                profile + " partly applied ("@ + applied + "); failed: "@ + failed
            };
            &&& r.skipped.len() == 0 ==> said == head
            &&& r.skipped.len() > 0 ==> said == head + " · skipped "@ + text::joined(
                r.skipped,
                ", "@,
            )
            &&& report::summarized(r, profile) is Ok <==> r.failed.len() == 0
        }),
{
    reveal_strlit("");
    let said = summary_text(report::summarized(r, profile));
    let applied = text::joined(r.applied, ", "@);
    let failed = text::joined(r.failed, "; "@);
    let head = if r.applied.len() == 0 && r.failed.len() == 0 {
        profile + ": already in place"@
    } else if r.failed.len() == 0 {
        profile + " applied: "@ + applied
    } else if r.applied.len() == 0 {
        profile + " failed: "@ + failed
    } else {
        profile + " partly applied ("@ + applied + "); failed: "@ + failed
    };
    if r.skipped.len() == 0 {
        assert(head + ""@ =~= head);
    } else {
        let tail = text::joined(r.skipped, ", "@);
        assert(head + (" · skipped "@ + tail) =~= head + " · skipped "@ + tail);
    }
}

/// The text of a summary, however it went.
pub open spec fn summary_text(s: Result<Seq<char>, Seq<char>>) -> Seq<char> {
    match s {
        Ok(t) => t,
        Err(t) => t,
    }
}

/// A processor that reports another governor than the one asked for differs in
/// that, whatever else it reports.
pub proof fn other_governors_are_said(wanted: CpuControlView, live: CpuControlView)
    requires
        wanted.governor.len() > 0,
        live.governor != wanted.governor,
    ensures
        report::mismatch(wanted, live) == Some("governor "@ + live.governor),
{
}

/// With the governor in place it differs in its EPP, and with that in its
/// boost, where one was asked for and is reported; else in nothing.
pub proof fn other_settings_are_said_next(wanted: CpuControlView, live: CpuControlView)
    requires
        wanted.governor.len() == 0 || live.governor == wanted.governor,
    ensures
        ({
            let epp = wanted.epp is Some && live.epp is Some && wanted.epp->0 != live.epp->0;
            let boost = wanted.boost is Some && live.boost is Some && wanted.boost->0
                != live.boost->0;
            &&& epp ==> report::mismatch(wanted, live) == Some("EPP "@ + live.epp->0)
            &&& !epp && boost && live.boost->0 ==> report::mismatch(wanted, live) == Some(
                "boost on"@,
            )
            &&& !epp && boost && !live.boost->0 ==> report::mismatch(wanted, live) == Some(
                "boost off"@,
            )
            &&& !epp && !boost ==> report::mismatch(wanted, live) is None
        }),
{
}

/// NVIDIA settings that name a power limit stay as they are; those that name
/// none put the stock limit back, and nothing else of them changes.
pub proof fn no_limit_means_the_stock_limit(nv: NvidiaControlView)
    ensures
        nv.power_limit_w is Some ==> report::complete(nv) == nv,
        nv.power_limit_w is None ==> report::complete(nv) == (NvidiaControlView {
            reset_power_limit: true,
            ..nv
        }),
{
}

/// What the components are called in the summary.
pub proof fn components_have_names()
    ensures
        settings::owner_text(Owner::Asusd) == "asusd"@,
        settings::owner_text(Owner::PowerProfilesDaemon) == "power-profiles-daemon"@,
        settings::owner_text(Owner::Sysfs) == "the kernel"@,
        settings::owner_text(Owner::Supergfxd) == "supergfxd"@,
        settings::owner_text(Owner::CoolerControl) == "CoolerControl"@,
        settings::owner_text(Owner::OmaAsus) == "OmaAsus"@,
        settings::owner_text(Owner::Firmware) == "firmware"@,
{
}

/// Which measurements are worth naming, and as what.
pub proof fn measurements_have_names()
    ensures
        settings::role_text(SensorRole::CpuTemp) == Some("CPU"@),
        settings::role_text(SensorRole::IgpuTemp) == Some("iGPU"@),
        settings::role_text(SensorRole::DgpuTemp) == Some("dGPU"@),
        settings::role_text(SensorRole::Coolant) == Some("coolant"@),
        settings::role_text(SensorRole::Vrm) == Some("VRM"@),
        settings::role_text(SensorRole::Board) == Some("board"@),
        settings::role_text(SensorRole::Storage) == Some("storage"@),
        settings::role_text(SensorRole::Memory) == Some("memory"@),
        settings::role_text(SensorRole::PackagePower) == Some("package power"@),
        settings::role_text(SensorRole::GpuPower) == Some("GPU power"@),
        settings::role_text(SensorRole::FanSpeed) == Some("fan speed"@),
        settings::role_text(SensorRole::CpuCore) is None,
        settings::role_text(SensorRole::GpuHotspot) is None,
        settings::role_text(SensorRole::Wireless) is None,
        settings::role_text(SensorRole::Other) is None,
{
}

/// A fact is said with where it is known from.
pub proof fn facts_are_said_with_their_source(n: NoteView)
    ensures
        n.source matches SourceView::Verified(w) ==> settings::note_text()(n) == n.what + " · "@ + (
        "verified: "@ + w),
        n.source matches SourceView::Reference(w) ==> settings::note_text()(n) == n.what + " · "@
            + ("from "@ + w),
        n.source is User ==> settings::note_text()(n) == n.what + " · "@ + "your quirks.toml"@,
{
}

/// A GPU is called by what stands in the last brackets of its description.
pub proof fn names_stand_in_brackets(before: Seq<char>, name: Seq<char>, after: Seq<char>)
    requires
        !name.contains('['),
        !after.contains('['),
        !name.contains(']'),
    ensures
        settings::marketing_name(before + seq!['['] + name + seq![']'] + after) == name,
{
    let tail = name + seq![']'] + after;
    let all = before + seq!['['] + name + seq![']'] + after;
    assert(all[before.len() as int] == '[');
    assert(all.contains('['));
    text_laws::tail_follows_the_last_separator(all, '[');
    let i = choose|i: int|
        0 <= i < all.len() && #[trigger] all[i] == '[' && text::after_last(all, '[') == all.skip(
            i + 1,
        );
    if i < before.len() {
        let at = before.len() - i - 1;
        assert(text::after_last(all, '[')[at] == '[');
        assert(text::after_last(all, '[').contains('['));
    } else if i > before.len() {
        assert(tail[i - before.len() - 1] == '[');
        if i - before.len() - 1 < name.len() {
            assert(name[i - before.len() - 1] == '[');
            assert(name.contains('['));
        } else if i - before.len() - 1 > name.len() {
            assert(after[i - before.len() - 2 - name.len()] == '[');
            assert(after.contains('['));
        }
    }
    assert(i == before.len());
    assert(all.skip(before.len() as int + 1) =~= tail);
    assert(tail[name.len() as int] == ']');
    assert(tail.contains(']'));
    first_piece(name, after);
}

/// A description without them is the name.
pub proof fn bare_descriptions_are_names(name: Seq<char>)
    requires
        !name.contains('[') || !name.contains(']'),
    ensures
        settings::marketing_name(name) == name,
{
    text_laws::tail_follows_the_last_separator(name, '[');
    if name.contains('[') {
        let i = choose|i: int|
            0 <= i < name.len() && #[trigger] name[i] == '[' && text::after_last(name, '[')
                == name.skip(i + 1);
        let tail = name.skip(i + 1);
        if tail.contains(']') {
            let k = choose|k: int| 0 <= k < tail.len() && tail[k] == ']';
            assert(name[i + 1 + k] == ']');
        }
    }
}

proof fn first_piece(name: Seq<char>, after: Seq<char>)
    requires
        !name.contains(']'),
    ensures
        text::pieces(name + seq![']'] + after, ']').len() > 1,
        text::pieces(name + seq![']'] + after, ']')[0] == name,
    decreases after.len(),
{
    let all = name + seq![']'] + after;
    if after.len() == 0 {
        assert(all.drop_last() =~= name);
        one_piece(name);
    } else {
        let rest = after.drop_last();
        assert(all.drop_last() =~= name + seq![']'] + rest);
        first_piece(name, rest);
    }
}

proof fn one_piece(name: Seq<char>)
    requires
        !name.contains(']'),
    ensures
        text::pieces(name, ']') == seq![name],
    decreases name.len(),
{
    if name.len() > 0 {
        let rest = name.drop_last();
        assert(!rest.contains(']')) by {
            if rest.contains(']') {
                let k = choose|k: int| 0 <= k < rest.len() && rest[k] == ']';
                assert(name[k] == ']');
            }
        }
        one_piece(rest);
        assert(name[name.len() - 1] != ']') by {
            assert(name.contains(name[name.len() - 1]));
        }
        assert(rest.push(name.last()) =~= name);
        assert(text::pieces(name, ']') =~= seq![name]);
    } else {
        assert(name =~= seq![]);
        assert(text::pieces(name, ']') =~= seq![name]);
    }
}

/// A GPU's line says whether it is integrated or discrete, and whether it is
/// active, suspended or off.
pub proof fn gpus_are_said_as_they_are(g: GpuView)
    ensures
        settings::gpu_text()(g) == settings::marketing_name(g.name) + " ("@ + (
        match g.integrated {
            true => "integrated"@,
            false => "discrete"@,
        }) + ", "@ + (match g.power {
            GpuPower::Active => "active"@,
            GpuPower::Suspended => "suspended"@,
            GpuPower::Off => "off"@,
        }) + ")"@,
{
}

/// What the processor can do is said behind its model, in one order.
pub proof fn processors_are_said_with_what_they_can(m: HardwareModel, f: Features)
    ensures
        !f.cpu_epp && !f.cpu_boost && !f.cpu_smt ==> settings::cpu_text(m, f) == m.cpu.model@,
        f.cpu_epp && !f.cpu_boost && !f.cpu_smt ==> settings::cpu_text(m, f) == m.cpu.model@
            + " · "@ + "EPP"@,
        !f.cpu_epp && f.cpu_boost && !f.cpu_smt ==> settings::cpu_text(m, f) == m.cpu.model@
            + " · "@ + "boost control"@,
        !f.cpu_epp && !f.cpu_boost && f.cpu_smt ==> settings::cpu_text(m, f) == m.cpu.model@
            + " · "@ + "SMT"@,
        f.cpu_epp && f.cpu_boost && f.cpu_smt ==> settings::cpu_caps(f) == seq![
            "EPP"@,
            "boost control"@,
            "SMT"@,
        ],
        settings::cpu_caps(f).len() == (if f.cpu_epp {
            1int
        } else {
            0int
        }) + (if f.cpu_boost {
            1int
        } else {
            0int
        }) + (if f.cpu_smt {
            1int
        } else {
            0int
        }),
        settings::cpu_caps(f).len() > 0 ==> settings::cpu_text(m, f) == m.cpu.model@ + " · "@
            + text::joined(settings::cpu_caps(f), ", "@),
{
    let caps = settings::cpu_caps(f);
    if caps.len() == 1 {
        assert(caps =~= seq![caps[0]]);
    }
    if f.cpu_epp && f.cpu_boost && f.cpu_smt {
        assert(caps =~= seq!["EPP"@, "boost control"@, "SMT"@]);
    }
}

/// The fans are said by their labels and with who drives them now.
pub proof fn fans_are_said_with_their_driver(m: HardwareModel, coolercontrold: bool)
    ensures
        m.fans@.len() == 0 ==> settings::fans_text(m, coolercontrold) == "none controllable"@,
        m.fans@.len() > 0 ==> settings::fans_text(m, coolercontrold) == text::joined(
            m.fans@.map_values(|f: model::FanOutput| f.label@),
            ", "@,
        ) + " · through "@ + settings::owner_text(model::owner_of(m@.fans, coolercontrold)),
{
    assert(m@.fans.map_values(settings::fan_label()) =~= m.fans@.map_values(
        |f: model::FanOutput| f.label@,
    ));
}

/// The measurements that sensors make are named in one order, the most telling
/// first, each once.
pub proof fn measurements_are_named_in_order(m: HardwareModel, n: int)
    requires
        0 <= n < 11,
    ensures
        ({
            let order = seq![
                SensorRole::CpuTemp,
                SensorRole::IgpuTemp,
                SensorRole::DgpuTemp,
                SensorRole::Coolant,
                SensorRole::Vrm,
                SensorRole::Board,
                SensorRole::Memory,
                SensorRole::Storage,
                SensorRole::PackagePower,
                SensorRole::GpuPower,
                SensorRole::FanSpeed,
            ];
            let there = exists|i: int|
                0 <= i < m.sensors@.len() && (#[trigger] m.sensors@[i]).role == order[n];
            &&& there ==> settings::roles_of(m@.sensors, n + 1) == settings::roles_of(
                m@.sensors,
                n,
            ).push(settings::role_text(order[n])->0)
            &&& !there ==> settings::roles_of(m@.sensors, n + 1) == settings::roles_of(
                m@.sensors,
                n,
            )
            &&& settings::roles_of(m@.sensors, 0).len() == 0
            &&& settings::sensors_text(m) == number::decimal(m.sensors@.len()) + " · "@
                + text::joined(settings::roles_of(m@.sensors, 11), ", "@)
        }),
{
    let order = seq![
        SensorRole::CpuTemp,
        SensorRole::IgpuTemp,
        SensorRole::DgpuTemp,
        SensorRole::Coolant,
        SensorRole::Vrm,
        SensorRole::Board,
        SensorRole::Memory,
        SensorRole::Storage,
        SensorRole::PackagePower,
        SensorRole::GpuPower,
        SensorRole::FanSpeed,
    ];
    assert(settings::ORDER@[n] == order[n]);
    if exists|i: int| 0 <= i < m.sensors@.len() && (#[trigger] m.sensors@[i]).role == order[n] {
        let i = choose|i: int|
            0 <= i < m.sensors@.len() && (#[trigger] m.sensors@[i]).role == order[n];
        assert(m@.sensors[i].role == order[n]);
    }
    if settings::has_role(m@.sensors, order[n]) {
        let i = choose|i: int|
            0 <= i < m@.sensors.len() && (#[trigger] m@.sensors[i]).role == order[n];
        assert(m.sensors@[i].role == order[n]);
    }
}

/// A telemetry source that is well is said by its name, a silent one with how
/// long it has been.
pub proof fn silent_sources_are_said(h: SourceHealth)
    ensures
        h.healthy ==> settings::health_text()(h) == h.name@,
        !h.healthy && h.stalled_s is Some ==> settings::health_text()(h) == h.name@ + " (silent "@
            + number::decimal(h.stalled_s->0 as nat) + "s)"@,
        !h.healthy && h.stalled_s is None ==> settings::health_text()(h) == h.name@ + " (silent "@
            + number::decimal(0) + "s)"@,
{
}

/// The summary's lines, from the machine to its lights, and what each says.
pub proof fn summaries_have_their_lines(
    m: HardwareModel,
    f: Features,
    sources: Option<Vec<SourceHealth>>,
    openrgb: nat,
)
    ensures
        ({
            let all = settings::summary_of(m, f, sources, openrgb);
            let names = m.lighting@.map_values(|d: model::LightingDevice| d.label@);
            let gpus = m@.gpus.map_values(settings::gpu_text());
            &&& all.len() >= 7
            &&& all[0].what == "Machine"@
            &&& all[0].value == m.identity.product@ + " · board "@ + m.identity.board@
                + " · BIOS "@ + m.identity.bios@
            &&& all[1].what == "CPU"@ && all[1].value == settings::cpu_text(m, f)
            &&& all[2].what == "GPUs"@
            &&& m.gpus@.len() == 0 ==> all[2].value == "none found"@
            &&& m.gpus@.len() > 0 ==> all[2].value == text::joined(gpus, ", "@)
            &&& all[3].what == "Fans"@ && all[3].value == settings::fans_text(m, f.coolercontrold)
            &&& all[4].what == "Sensors"@ && all[4].value == settings::sensors_text(m)
            &&& all[5].what == "Sources"@
            &&& sources is None ==> all[5].value == "waiting for the first frame"@
            &&& sources matches Some(v) ==> {
                &&& v@.len() == 0 ==> all[5].value == "none sampled yet"@
                &&& v@.len() > 0 ==> all[5].value == text::joined(
                    v@.map_values(settings::health_text()),
                    ", "@,
                )
            }
            &&& all[6].what == "Lighting"@
            &&& openrgb == 0 && names.len() == 0 ==> all[6].value == "none found"@
            &&& openrgb == 0 && names.len() > 0 ==> all[6].value == text::joined(names, ", "@)
            &&& openrgb > 0 ==> all[6].value == text::joined(
                names.push(number::decimal(openrgb) + " through OpenRGB"@),
                ", "@,
            )
        }),
{
    let names = m.lighting@.map_values(|d: model::LightingDevice| d.label@);
    assert(m@.lighting.map_values(settings::light_label()) =~= names);
}

/// Power modes, graphics and the battery have lines where there is something
/// to say, in this order and behind the others.
pub proof fn controls_have_lines_where_they_are(
    m: HardwareModel,
    f: Features,
    sources: Option<Vec<SourceHealth>>,
    openrgb: nat,
)
    ensures
        ({
            let all = settings::summary_of(m, f, sources, openrgb);
            let c = m.controls;
            let power: int = if c.power_owner is Some {
                1
            } else {
                0
            };
            let graphics: int = if c.gpu_owner is Some && c.gpu_mode is Some {
                1
            } else {
                0
            };
            let battery: int = if c.charge_limit is Some {
                1
            } else {
                0
            };
            &&& all.len() == 7 + power + graphics + battery
            &&& power == 1 ==> all[7].what == "Power modes"@ && all[7].value == text::joined(
                text::texts(c.power_modes@),
                " / "@,
            ) + " · through "@ + settings::owner_text(c.power_owner->0)
            &&& graphics == 1 ==> all[7 + power].what == "Graphics"@ && all[7 + power].value
                == c.gpu_mode->0@ + " · through "@ + settings::owner_text(c.gpu_owner->0)
            &&& battery == 1 ==> all.last().what == "Battery"@ && all.last().value
                == "charge limit "@ + number::decimal(c.charge_limit->0 as nat) + "%"@
        }),
{
}

/// The services are shown with whether they are there.
pub proof fn services_are_shown_as_they_are(f: Features)
    ensures
        ({
            let all = settings::services_of(f);
            &&& all.len() == 7
            &&& all[0].name == "asusd"@ && all[0].on == f.asusd
            &&& all[1].name == "supergfxd"@ && all[1].on == f.supergfxd
            &&& all[2].name == "power-profiles-daemon"@ && all[2].on == f.power_profiles_daemon
            &&& all[3].name == "CoolerControl"@ && all[3].on == f.coolercontrol
            &&& all[4].name == "OpenRGB"@ && all[4].on == f.openrgb
            &&& all[5].name == "liquidctl"@ && all[5].on == f.liquidctl
            &&& all[6].name == "GameMode"@ && all[6].on == f.gamemode
        }),
{
}

/// The page says how the helper is, and offers to install it where it is not
/// there.
pub proof fn pages_say_how_the_helper_is(s: State, p: Page)
    requires
        settings::is_page(s, p),
    ensures
        s.helper_ready ==> p.helper.text@ == "installed & running"@ && p.helper.tone == Tone::Good
            && p.helper_button@ == "Reinstall helper"@,
        !s.helper_ready ==> p.helper.text@ == "not running"@ && p.helper.tone == Tone::Warning
            && p.helper_button@ == "Install helper (pkexec)"@,
{
}

/// CoolerControl's card is there where its daemon runs, where it is connected
/// or where a password was stored, and says which; the OLED's where the board
/// has one.
pub proof fn pages_show_what_is_there(s: State, p: Page)
    requires
        settings::is_page(s, p),
    ensures
        ({
            let runs = s.features is Some && s.features->0.coolercontrold;
            &&& p.shows_coolercontrol <==> runs || s.cc_connected
                || s.config.coolercontrol.password is Some
            &&& s.cc_connected ==> p.coolercontrol.text@ == "connected"@ && p.coolercontrol.tone
                == Tone::Good
            &&& !s.cc_connected && runs ==> p.coolercontrol.text@ == "detected — sign in"@
                && p.coolercontrol.tone == Tone::Warning
            &&& !s.cc_connected && !runs ==> p.coolercontrol.text@ == "not installed"@
                && p.coolercontrol.tone == Tone::Dim
            &&& p.shows_oled <==> s.features is Some && s.features->0.livedash_oled
        }),
{
}

/// The overlay's settings are shown as the config has them.
pub proof fn pages_show_the_overlay(s: State, p: Page)
    requires
        settings::is_page(s, p),
    ensures
        p.anchored_right <==> s.config.overlay.anchor@ == "right"@,
        p.anchored_left <==> s.config.overlay.anchor@ == "left"@,
        p.anchored_center <==> s.config.overlay.anchor@ == "center"@,
        p.width@ == number::decimal(s.config.overlay.width as nat) + " px"@,
        s.config.overlay.height == 0 ==> p.height@ == "screen"@,
        s.config.overlay.height > 0 ==> p.height@ == number::decimal(
            s.config.overlay.height as nat,
        ) + " px"@,
        p.margin@ == number::decimal(s.config.overlay.margin as nat) + " px"@,
        p.telemetry@ == number::decimal(s.config.telemetry_hz as nat) + " Hz"@,
        s.tray_registered ==> p.tray@
            == "Tray: registered with the bar. Click it for the panel, middle-click for the window, right-click for profiles."@,
        !s.tray_registered && s.config.tray_enabled ==> p.tray@
            == "Tray: waiting for a StatusNotifier host (Omarchy's bar provides one)."@,
        !s.tray_registered && !s.config.tray_enabled ==> p.tray@
            == "Tray: off. Closing the window exits OmaAsus unless the overlay is open."@,
{
}

/// The hardware is shown once both the inventory and the model are there.
pub proof fn pages_show_the_hardware(s: State, p: Page)
    requires
        settings::is_page(s, p),
    ensures
        p.hardware is Detecting <==> s.features is None || s.model is None,
        s.features is Some && s.model is Some ==> (p.hardware matches Hardware::Found {
            lines,
            services,
            knowledge,
            footer,
        } && {
            let f = s.features->0;
            let m = s.model->0;
            &&& seqs::views(lines@) == settings::summary_of(m, f, s.sources, s.openrgb as nat)
            &&& seqs::views(services@) == settings::services_of(f)
            &&& knowledge@.len() == m.notes@.len()
            &&& forall|i: int|
                0 <= i < knowledge@.len() ==> (#[trigger] knowledge@[i])@ == settings::note_text()(
                    m.notes@[i]@,
                )
            &&& footer@ == "kernel "@ + f.kernel@ + " · config "@ + s.config_path@
        }),
{
    if s.features is Some && s.model is Some {
        let m = s.model->0;
        if let Hardware::Found { lines, services, knowledge, footer } = p.hardware {
            let said = m@.notes.map_values(settings::note_text());
            assert(text::texts(knowledge@) == said);
            assert(text::texts(knowledge@).len() == knowledge@.len());
            assert forall|i: int| 0 <= i < knowledge@.len() implies (#[trigger] knowledge@[i])@
                == settings::note_text()(m.notes@[i]@) by {
                assert(text::texts(knowledge@)[i] == said[i]);
            }
        }
    }
}

} // verus!
