//! What the model says of GPUs and lights, by what the inventory lists.

use crate::inventory::RawInventory;
use crate::model::{GpuPower, GpuVendor, LightingBackendView};
use crate::{gpus, lights, number, seqs, text};
use vstd::prelude::*;
use vstd::string::*;

verus! {

proof fn vendor_ids_differ()
    ensures
        "0x1002"@ != "0x10de"@,
        "0x1002"@ != "0x8086"@,
        "0x10de"@ != "0x8086"@,
{
    reveal_strlit("0x1002");
    reveal_strlit("0x10de");
    reveal_strlit("0x8086");
    assert("0x1002"@[4] != "0x10de"@[4]);
    assert("0x1002"@[2] != "0x8086"@[2]);
    assert("0x10de"@[2] != "0x8086"@[2]);
}

/// Every display device on the bus has its GPU at its place: under its slot,
/// by the vendor that its id names, and suspended exactly where the kernel
/// says so.
pub proof fn every_display_device_has_a_gpu(raw: RawInventory, i: int)
    requires
        0 <= i < raw.pci_display@.len(),
    ensures
        gpus::gpus_of(raw).len() >= raw.pci_display@.len(),
        ({
            let p = raw.pci_display@[i];
            let g = gpus::gpus_of(raw)[i];
            &&& g.id == "gpu:"@ + p.slot@
            &&& g.pci_slot == Some(p.slot@)
            &&& g.vendor == GpuVendor::Amd <==> p.vendor@ == "0x1002"@
            &&& g.vendor == GpuVendor::Nvidia <==> p.vendor@ == "0x10de"@
            &&& g.vendor == GpuVendor::Intel <==> p.vendor@ == "0x8086"@
            &&& g.power == GpuPower::Suspended <==> p.runtime_status is Some
                && p.runtime_status->0@ == "suspended"@
            &&& g.power != GpuPower::Off
        }),
{
    vendor_ids_differ();
}

/// A GPU at the slot of one of AMD's in the inventory is integrated exactly
/// where the inventory says so of that one, and has its name.
pub proof fn amd_gpu_is_as_the_inventory_says(raw: RawInventory, i: int, k: int)
    requires
        0 <= i < raw.pci_display@.len(),
        0 <= k < raw.system.amd_gpus@.len(),
        raw.system.amd_gpus@[k].pci_slot@ == raw.pci_display@[i].slot@,
        forall|j: int|
            0 <= j < k ==> (#[trigger] raw.system.amd_gpus@[j]).pci_slot@
                != raw.pci_display@[i].slot@,
    ensures
        gpus::gpus_of(raw)[i].integrated == raw.system.amd_gpus@[k].is_integrated,
        gpus::gpus_of(raw)[i].name == raw.system.amd_gpus@[k].name@,
{
    seqs::first_where_is(raw.system.amd_gpus@, gpus::at_slot(raw.pci_display@[i].slot@), k);
}

/// Any other GPU is integrated exactly where Intel made it.
pub proof fn other_gpus_are_integrated_by_intel(raw: RawInventory, i: int)
    requires
        0 <= i < raw.pci_display@.len(),
        forall|j: int|
            0 <= j < raw.system.amd_gpus@.len() ==> (#[trigger] raw.system.amd_gpus@[j]).pci_slot@
                != raw.pci_display@[i].slot@,
    ensures
        gpus::gpus_of(raw)[i].integrated <==> raw.pci_display@[i].vendor@ == "0x8086"@,
{
    vendor_ids_differ();
    seqs::first_where_none(raw.system.amd_gpus@, gpus::at_slot(raw.pci_display@[i].slot@));
}

/// A GPU that is not one of AMD's has the name of NVIDIA's on its bus: the
/// first whose bus id ends in the slot without its domain, in any case of
/// letters. Where there is none it is called by its vendor.
pub proof fn other_gpus_are_named_by_their_bus(
    raw: RawInventory,
    i: int,
    domain: Seq<char>,
    bus: Seq<char>,
    k: int,
)
    requires
        0 <= i < raw.pci_display@.len(),
        forall|j: int|
            0 <= j < raw.system.amd_gpus@.len() ==> (#[trigger] raw.system.amd_gpus@[j]).pci_slot@
                != raw.pci_display@[i].slot@,
        raw.pci_display@[i].slot@ == domain + seq![':'] + bus,
        !domain.contains(':'),
        0 <= k <= raw.nvidia@.len(),
        forall|j: int|
            0 <= j < k ==> !text::ends(
                text::lower((#[trigger] raw.nvidia@[j]).pci_bus_id@),
                text::lower(bus),
            ),
    ensures
        k < raw.nvidia@.len() && text::ends(
            text::lower(raw.nvidia@[k].pci_bus_id@),
            text::lower(bus),
        ) ==> gpus::gpus_of(raw)[i].name == raw.nvidia@[k].name@,
        k == raw.nvidia@.len() ==> gpus::gpus_of(raw)[i].name == (
        match gpus::gpus_of(raw)[i].vendor {
            GpuVendor::Amd => "Amd GPU"@,
            GpuVendor::Nvidia => "Nvidia GPU"@,
            GpuVendor::Intel => "Intel GPU"@,
            GpuVendor::Other => "Other GPU"@,
        }),
{
    let slot = raw.pci_display@[i].slot@;
    seqs::first_where_none(raw.system.amd_gpus@, gpus::at_slot(slot));
    assert(slot[domain.len() as int] == ':');
    assert forall|j: int| 0 <= j < domain.len() implies !gpus::is_colon()(#[trigger] slot[j]) by {
        assert(slot[j] == domain[j]);
        assert(domain.contains(domain[j]));
    }
    seqs::first_where_is(slot, gpus::is_colon(), domain.len() as int);
    assert(slot.skip(domain.len() as int + 1) =~= bus);
    assert(gpus::bus_of(slot) == text::lower(bus));
    if k < raw.nvidia@.len() {
        if text::ends(text::lower(raw.nvidia@[k].pci_bus_id@), text::lower(bus)) {
            seqs::first_where_is(raw.nvidia@, gpus::on_bus(text::lower(bus)), k);
        }
    } else {
        seqs::first_where_none(raw.nvidia@, gpus::on_bus(text::lower(bus)));
    }
}

/// A slot without a domain ends every bus id.
pub proof fn bare_slots_end_every_bus(raw: RawInventory, i: int)
    requires
        0 <= i < raw.pci_display@.len(),
        forall|j: int|
            0 <= j < raw.system.amd_gpus@.len() ==> (#[trigger] raw.system.amd_gpus@[j]).pci_slot@
                != raw.pci_display@[i].slot@,
        !raw.pci_display@[i].slot@.contains(':'),
        raw.nvidia@.len() > 0,
    ensures
        gpus::gpus_of(raw)[i].name == raw.nvidia@[0].name@,
{
    let slot = raw.pci_display@[i].slot@;
    seqs::first_where_none(raw.system.amd_gpus@, gpus::at_slot(slot));
    assert forall|j: int| 0 <= j < slot.len() implies !gpus::is_colon()(#[trigger] slot[j]) by {
        assert(slot.contains(slot[j]));
    }
    seqs::first_where_none(slot, gpus::is_colon());
    let id = text::lower(raw.nvidia@[0].pci_bus_id@);
    assert(id.subrange(id.len() as int, id.len() as int) =~= seq![]);
    seqs::first_where_is(raw.nvidia@, gpus::on_bus(seq![]), 0);
}

/// A dGPU that supergfxd powered off is gone from the bus but still there, as
/// one GPU more; there is no other.
pub proof fn powered_off_dgpu_is_listed(raw: RawInventory)
    ensures
        ({
            let all = gpus::gpus_of(raw);
            let off = raw.supergfx is Some && text::lower(raw.supergfx->0.vendor@) == "nvidia"@ && (
            forall|i: int|
                0 <= i < raw.pci_display@.len() ==> (#[trigger] raw.pci_display@[i]).vendor@
                    != "0x10de"@);
            &&& !off ==> all.len() == raw.pci_display@.len()
            &&& off ==> {
                &&& all.len() == raw.pci_display@.len() + 1
                &&& all.last().id == "gpu:nvidia"@
                &&& all.last().vendor == GpuVendor::Nvidia
                &&& all.last().name == "NVIDIA GPU"@
                &&& !all.last().integrated
                &&& all.last().power == GpuPower::Off
                &&& all.last().pci_slot is None
            }
        }),
{
    vendor_ids_differ();
    reveal_strlit("nvidia");
    assert(text::lower("nvidia"@) =~= "nvidia"@);
    let on_bus = raw.pci_display@.map_values(gpus::gpu_of(raw.system.amd_gpus@, raw.nvidia@));
    assert forall|i: int| 0 <= i < on_bus.len() implies (#[trigger] on_bus[i]).vendor
        == GpuVendor::Nvidia <==> raw.pci_display@[i].vendor@ == "0x10de"@ by {}
    if exists|i: int|
        0 <= i < raw.pci_display@.len() && (#[trigger] raw.pci_display@[i]).vendor@
            == "0x10de"@ {
        let i = choose|i: int|
            0 <= i < raw.pci_display@.len() && (#[trigger] raw.pci_display@[i]).vendor@
                == "0x10de"@;
        assert(on_bus[i].vendor == GpuVendor::Nvidia);
    }
}

/// asusd's keyboards come first, each with what asusd says of it and under the
/// last part of its path, then the Slash bar; without asusd there is none.
pub proof fn lights_are_as_asusd_says(raw: RawInventory, i: int)
    ensures
        raw.asusd is None ==> lights::lights_of(raw).len() == 0,
        raw.asusd matches Some(a) ==> {
            let all = lights::lights_of(raw);
            &&& all.len() == a.aura@.len() + (if a.slash is Some {
                1int
            } else {
                0int
            })
            &&& 0 <= i < a.aura@.len() ==> {
                &&& all[i].id == "asusd:aura:"@ + text::after_last(a.aura@[i].path@, '/')
                &&& all[i].label == a.aura@[i].label@
                &&& all[i].backend == (LightingBackendView::AsusdAura { path: a.aura@[i].path@ })
                &&& all[i].modes == a.aura@[i].supported_basic_modes@
                &&& all[i].brightness_levels == a.aura@[i].supported_brightness@
                &&& all[i].leds is None
            }
            &&& a.slash matches Some(s) ==> {
                &&& all.last().id == "asusd:slash"@
                &&& all.last().label == "Slash"@
                &&& all.last().backend == (LightingBackendView::AsusdSlash { path: s.path@ })
                &&& all.last().modes == s.modes@
                &&& all.last().brightness_levels.len() == 0
                &&& all.last().leds is Some <==> s.leds is Some
                &&& s.leds matches Some(l) ==> all.last().leds == Some(l.count)
            }
        },
{
}

/// How many LEDs a Slash bar has is noted where it is known, with where that
/// is known from.
pub proof fn known_leds_are_noted(raw: RawInventory)
    ensures
        ({
            let known = raw.asusd is Some && raw.asusd->0.slash is Some
                && raw.asusd->0.slash->0.leds is Some;
            &&& !known ==> lights::light_notes(raw).len() == 0
            &&& known ==> {
                let l = raw.asusd->0.slash->0.leds->0;
                &&& lights::light_notes(raw).len() == 1
                &&& lights::light_notes(raw)[0].what == "asusd:slash: "@ + number::decimal(
                    l.count as nat,
                ) + " LEDs"@
                &&& lights::light_notes(raw)[0].source == l.source@
            }
        }),
{
}

} // verus!
