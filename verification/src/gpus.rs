//! The GPUs of the model.

use crate::inventory::{AmdGpu, NvidiaGpu, PciDevice, RawInventory, SupergfxInfo};
use crate::model::{DeviceId, Gpu, GpuPower, GpuVendor, GpuView};
use crate::{seqs, text};
use vstd::prelude::*;
use vstd::string::*;

verus! {

/// A vendor by its PCI number.
pub open spec fn vendor_of(id: Seq<char>) -> GpuVendor {
    if id == "0x1002"@ {
        GpuVendor::Amd
    } else if id == "0x10de"@ {
        GpuVendor::Nvidia
    } else if id == "0x8086"@ {
        GpuVendor::Intel
    } else {
        GpuVendor::Other
    }
}

fn find_vendor(id: &str) -> (r: GpuVendor)
    ensures
        r == vendor_of(id@),
{
    if text::same(id, "0x1002") {
        GpuVendor::Amd
    } else if text::same(id, "0x10de") {
        GpuVendor::Nvidia
    } else if text::same(id, "0x8086") {
        GpuVendor::Intel
    } else {
        GpuVendor::Other
    }
}

/// The name of a GPU that only its vendor is known of.
pub open spec fn vendor_gpu(v: GpuVendor) -> Seq<char> {
    match v {
        GpuVendor::Amd => "Amd GPU"@,
        GpuVendor::Nvidia => "Nvidia GPU"@,
        GpuVendor::Intel => "Intel GPU"@,
        GpuVendor::Other => "Other GPU"@,
    }
}

fn print_vendor_gpu(v: GpuVendor) -> (r: String)
    ensures
        r@ == vendor_gpu(v),
{
    match v {
        GpuVendor::Amd => "Amd GPU".to_string(),
        GpuVendor::Nvidia => "Nvidia GPU".to_string(),
        GpuVendor::Intel => "Intel GPU".to_string(),
        GpuVendor::Other => "Other GPU".to_string(),
    }
}

/// Whether a device sleeps.
pub open spec fn power_of(p: PciDevice) -> GpuPower {
    match p.runtime_status {
        Some(s) => if s@ == "suspended"@ {
            GpuPower::Suspended
        } else {
            GpuPower::Active
        },
        None => GpuPower::Active,
    }
}

pub fn pci_power(p: &PciDevice) -> (r: GpuPower)
    ensures
        r == power_of(*p),
{
    match &p.runtime_status {
        Some(s) => if text::same(s.as_str(), "suspended") {
            GpuPower::Suspended
        } else {
            GpuPower::Active
        },
        None => GpuPower::Active,
    }
}

pub open spec fn is_colon() -> spec_fn(char) -> bool {
    |c: char| c == ':'
}

/// A PCI slot without its domain, which ends at the first colon, in lower
/// case. Nothing is left of a slot without one.
pub open spec fn bus_of(slot: Seq<char>) -> Seq<char> {
    match seqs::first_where(slot, is_colon()) {
        Some(i) => text::lower(slot.skip(i + 1)),
        None => seq![],
    }
}

fn find_bus(slot: &str) -> (r: String)
    ensures
        r@ == bus_of(slot@),
{
    let v = text::chars_of(slot);
    let mut i: usize = 0;
    while i < v.len()
        invariant
            i <= v@.len(),
            v@ == slot@,
            forall|k: int| 0 <= k < i ==> !is_colon()(#[trigger] v@[k]),
        decreases v@.len() - i,
    {
        if v[i] == ':' {
            proof {
                seqs::first_where_is(slot@, is_colon(), i as int);
                assert(slot@.subrange(i + 1, slot@.len() as int) =~= slot@.skip(i + 1));
            }
            return text::to_lower(text::text_of(&v, i + 1, v.len()).as_str());
        }
        i += 1;
    }
    proof {
        seqs::first_where_none(slot@, is_colon());
    }
    let r = "".to_string();
    proof {
        reveal_strlit("");
        assert(r@ =~= seq![]);
    }
    r
}

pub open spec fn at_slot(slot: Seq<char>) -> spec_fn(AmdGpu) -> bool {
    |g: AmdGpu| g.pci_slot@ == slot
}

pub open spec fn on_bus(bus: Seq<char>) -> spec_fn(NvidiaGpu) -> bool {
    |g: NvidiaGpu| text::ends(text::lower(g.pci_bus_id@), bus)
}

fn find_amd<'a>(gpus: &'a Vec<AmdGpu>, slot: &str) -> (r: Option<&'a AmdGpu>)
    ensures
        match seqs::first_where(gpus@, at_slot(slot@)) {
            Some(i) => r == Some(&gpus@[i]),
            None => r is None,
        },
{
    let mut i: usize = 0;
    while i < gpus.len()
        invariant
            i <= gpus@.len(),
            forall|k: int| 0 <= k < i ==> !at_slot(slot@)(#[trigger] gpus@[k]),
        decreases gpus@.len() - i,
    {
        if text::same(gpus[i].pci_slot.as_str(), slot) {
            proof {
                seqs::first_where_is(gpus@, at_slot(slot@), i as int);
            }
            return Some(&gpus[i]);
        }
        i += 1;
    }
    proof {
        seqs::first_where_none(gpus@, at_slot(slot@));
    }
    None
}

fn find_nvidia<'a>(gpus: &'a Vec<NvidiaGpu>, bus: &str) -> (r: Option<&'a NvidiaGpu>)
    ensures
        match seqs::first_where(gpus@, on_bus(bus@)) {
            Some(i) => r == Some(&gpus@[i]),
            None => r is None,
        },
{
    let mut i: usize = 0;
    while i < gpus.len()
        invariant
            i <= gpus@.len(),
            forall|k: int| 0 <= k < i ==> !on_bus(bus@)(#[trigger] gpus@[k]),
        decreases gpus@.len() - i,
    {
        if text::has_end(text::to_lower(gpus[i].pci_bus_id.as_str()).as_str(), bus) {
            proof {
                seqs::first_where_is(gpus@, on_bus(bus@), i as int);
            }
            return Some(&gpus[i]);
        }
        i += 1;
    }
    proof {
        seqs::first_where_none(gpus@, on_bus(bus@));
    }
    None
}

/// A GPU on the bus: named by AMD's driver, else by NVIDIA's, else by its
/// vendor. Intel's are integrated, AMD's as their driver says.
pub open spec fn gpu_of(amd: Seq<AmdGpu>, nvidia: Seq<NvidiaGpu>) -> spec_fn(PciDevice) -> GpuView {
    |p: PciDevice|
        {
            let vendor = vendor_of(p.vendor@);
            let a = seqs::first_where(amd, at_slot(p.slot@));
            let n = seqs::first_where(nvidia, on_bus(bus_of(p.slot@)));
            GpuView {
                id: "gpu:"@ + p.slot@,
                vendor,
                name: match a {
                    Some(i) => amd[i].name@,
                    None => match n {
                        Some(i) => nvidia[i].name@,
                        None => vendor_gpu(vendor),
                    },
                },
                integrated: match a {
                    Some(i) => amd[i].is_integrated,
                    None => vendor == GpuVendor::Intel,
                },
                power: power_of(p),
                pci_slot: Some(p.slot@),
            }
        }
}

/// A dGPU that supergfxd powered off: gone from the bus but still there.
pub open spec fn powered_off() -> GpuView {
    GpuView {
        id: "gpu:nvidia"@,
        vendor: GpuVendor::Nvidia,
        name: "NVIDIA GPU"@,
        integrated: false,
        power: GpuPower::Off,
        pci_slot: None,
    }
}

/// Whether supergfxd drives an NVIDIA GPU.
pub open spec fn drives_nvidia(gfx: Option<SupergfxInfo>) -> bool {
    match gfx {
        Some(g) => text::lower(g.vendor@) == text::lower("nvidia"@),
        None => false,
    }
}

/// The GPUs of everything found.
pub open spec fn gpus_of(raw: RawInventory) -> Seq<GpuView> {
    let on_bus = raw.pci_display@.map_values(gpu_of(raw.system.amd_gpus@, raw.nvidia@));
    if drives_nvidia(raw.supergfx) && !(exists|i: int|
        0 <= i < on_bus.len() && (#[trigger] on_bus[i]).vendor == GpuVendor::Nvidia) {
        on_bus.push(powered_off())
    } else {
        on_bus
    }
}

/// The GPUs of the model.
pub fn gpus(raw: &RawInventory) -> (r: Vec<Gpu>)
    ensures
        seqs::views(r@) == gpus_of(*raw),
{
    let ghost f = gpu_of(raw.system.amd_gpus@, raw.nvidia@);
    let ghost all = raw.pci_display@.map_values(f);
    let mut out: Vec<Gpu> = Vec::new();
    let mut any = false;
    let mut i: usize = 0;
    assert(seqs::views(out@) =~= all.take(0));
    while i < raw.pci_display.len()
        invariant
            i <= raw.pci_display@.len(),
            f == gpu_of(raw.system.amd_gpus@, raw.nvidia@),
            all == raw.pci_display@.map_values(f),
            seqs::views(out@) == all.take(i as int),
            any == exists|k: int| 0 <= k < i && (#[trigger] all[k]).vendor == GpuVendor::Nvidia,
        decreases raw.pci_display@.len() - i,
    {
        let p = &raw.pci_display[i];
        let vendor = find_vendor(p.vendor.as_str());
        let amd = find_amd(&raw.system.amd_gpus, p.slot.as_str());
        let nvidia = find_nvidia(&raw.nvidia, find_bus(p.slot.as_str()).as_str());
        let name = match amd {
            Some(g) => g.name.clone(),
            None => match nvidia {
                Some(g) => g.name.clone(),
                None => print_vendor_gpu(vendor),
            },
        };
        let integrated = match amd {
            Some(g) => g.is_integrated,
            None => vendor == GpuVendor::Intel,
        };
        let gpu = Gpu {
            id: DeviceId(text::cat2("gpu:", p.slot.as_str())),
            vendor,
            name,
            integrated,
            power: pci_power(p),
            pci_slot: Some(p.slot.clone()),
        };
        proof {
            assert(gpu@ == all[i as int]);
            seqs::views_push(out@, gpu);
            assert(all.take(i + 1) =~= all.take(i as int).push(all[i as int]));
        }
        if vendor == GpuVendor::Nvidia {
            assert(all[i as int].vendor == GpuVendor::Nvidia);
            any = true;
        }
        out.push(gpu);
        i += 1;
    }
    assert(all.take(all.len() as int) =~= all);
    let driven = match &raw.supergfx {
        Some(g) => text::same_ignoring_case(g.vendor.as_str(), "nvidia"),
        None => false,
    };
    if driven && !any {
        let gpu = Gpu {
            id: DeviceId("gpu:nvidia".to_string()),
            vendor: GpuVendor::Nvidia,
            name: "NVIDIA GPU".to_string(),
            integrated: false,
            power: GpuPower::Off,
            pci_slot: None,
        };
        proof {
            seqs::views_push(out@, gpu);
        }
        out.push(gpu);
    }
    out
}

/// Where supergfxd drives an NVIDIA GPU the model has one, on the bus or off.
pub proof fn driven_gpu_is_listed(raw: RawInventory)
    requires
        drives_nvidia(raw.supergfx),
    ensures
        exists|i: int|
            0 <= i < gpus_of(raw).len() && (#[trigger] gpus_of(raw)[i]).vendor
                == GpuVendor::Nvidia,
{
    let all = gpus_of(raw);
    let on_bus = raw.pci_display@.map_values(gpu_of(raw.system.amd_gpus@, raw.nvidia@));
    if all != on_bus {
        assert(all[all.len() - 1].vendor == GpuVendor::Nvidia);
    }
}

} // verus!
