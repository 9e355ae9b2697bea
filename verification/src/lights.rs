//! The lighting devices of the model.

use crate::inventory::{AuraInfo, RawInventory, SlashInfo};
use crate::model::{
    DeviceId, LightingBackend, LightingBackendView, LightingDevice, LightingDeviceView, Note,
    NoteView,
};
use crate::{model, number, seqs, text};
use vstd::prelude::*;
use vstd::string::*;

verus! {

fn copy_numbers(v: &Vec<u32>) -> (r: Vec<u32>)
    ensures
        r@ == v@,
{
    let mut r: Vec<u32> = Vec::new();
    let mut i: usize = 0;
    while i < v.len()
        invariant
            i <= v@.len(),
            r@ == v@.take(i as int),
        decreases v@.len() - i,
    {
        r.push(v[i]);
        assert(r@ =~= v@.take(i + 1));
        i += 1;
    }
    assert(v@.take(v@.len() as int) =~= v@);
    r
}

/// A light that asusd drives, named by the last part of its path.
pub open spec fn aura_light() -> spec_fn(AuraInfo) -> LightingDeviceView {
    |a: AuraInfo|
        LightingDeviceView {
            id: "asusd:aura:"@ + text::after_last(a.path@, '/'),
            label: a.label@,
            backend: LightingBackendView::AsusdAura { path: a.path@ },
            modes: a.supported_basic_modes@,
            brightness_levels: a.supported_brightness@,
            leds: None,
        }
}

/// The light bar: its brightness is continuous, so it has no levels.
pub open spec fn slash_light(s: SlashInfo) -> LightingDeviceView {
    LightingDeviceView {
        id: "asusd:slash"@,
        label: "Slash"@,
        backend: LightingBackendView::AsusdSlash { path: s.path@ },
        modes: s.modes@,
        brightness_levels: seq![],
        leds: match s.leds {
            Some(l) => Some(l.count),
            None => None,
        },
    }
}

/// The lighting devices of everything found.
pub open spec fn lights_of(raw: RawInventory) -> Seq<LightingDeviceView> {
    match raw.asusd {
        Some(a) => match a.slash {
            Some(s) => a.aura@.map_values(aura_light()).push(slash_light(s)),
            None => a.aura@.map_values(aura_light()),
        },
        None => seq![],
    }
}

/// What the model notes of the lighting devices.
pub open spec fn light_notes(raw: RawInventory) -> Seq<NoteView> {
    match raw.asusd {
        Some(a) => match a.slash {
            Some(s) => match s.leds {
                Some(l) => seq![
                    NoteView {
                        what: "asusd:slash: "@ + number::decimal(l.count as nat) + " LEDs"@,
                        source: l.source@,
                    },
                ],
                None => seq![],
            },
            None => seq![],
        },
        None => seq![],
    }
}

/// The lighting devices of the model; what is known of them is noted.
pub fn lighting(raw: &RawInventory, notes: &mut Vec<Note>) -> (r: Vec<LightingDevice>)
    ensures
        seqs::views(r@) == lights_of(*raw),
        seqs::views(final(notes)@) == seqs::views(old(notes)@) + light_notes(*raw),
{
    let ghost was = seqs::views(notes@);
    let mut out: Vec<LightingDevice> = Vec::new();
    let a = match &raw.asusd {
        Some(a) => a,
        None => {
            assert(seqs::views(out@) =~= seq![]);
            assert(seqs::views(notes@) =~= was + light_notes(*raw));
            return out;
        },
    };
    let ghost f = aura_light();
    let ghost all = a.aura@.map_values(f);
    let mut i: usize = 0;
    assert(seqs::views(out@) =~= all.take(0));
    while i < a.aura.len()
        invariant
            i <= a.aura@.len(),
            f == aura_light(),
            all == a.aura@.map_values(f),
            seqs::views(out@) == all.take(i as int),
        decreases a.aura@.len() - i,
    {
        let aura = &a.aura[i];
        let tail = text::tail_after(aura.path.as_str(), '/');
        let d = LightingDevice {
            id: DeviceId(text::cat2("asusd:aura:", tail.as_str())),
            label: aura.label.clone(),
            backend: LightingBackend::AsusdAura { path: aura.path.clone() },
            modes: copy_numbers(&aura.supported_basic_modes),
            brightness_levels: copy_numbers(&aura.supported_brightness),
            leds: None,
        };
        proof {
            assert(d@ == all[i as int]);
            seqs::views_push(out@, d);
            assert(all.take(i + 1) =~= all.take(i as int).push(all[i as int]));
        }
        out.push(d);
        i += 1;
    }
    assert(all.take(all.len() as int) =~= all);
    match &a.slash {
        Some(s) => {
            let leds = match &s.leds {
                Some(l) => {
                    let note = Note {
                        what: text::cat3(
                            "asusd:slash: ",
                            number::print(l.count as u128).as_str(),
                            " LEDs",
                        ),
                        source: model::copy_source(&l.source),
                    };
                    proof {
                        seqs::views_push(notes@, note);
                    }
                    notes.push(note);
                    Some(l.count)
                },
                None => None,
            };
            let d = LightingDevice {
                id: DeviceId("asusd:slash".to_string()),
                label: "Slash".to_string(),
                backend: LightingBackend::AsusdSlash { path: s.path.clone() },
                modes: copy_numbers(&s.modes),
                brightness_levels: Vec::new(),
                leds,
            };
            proof {
                assert(d@.brightness_levels =~= seq![]);
                seqs::views_push(out@, d);
            }
            out.push(d);
        },
        None => {},
    }
    assert(seqs::views(notes@) =~= was + light_notes(*raw));
    out
}

} // verus!
