//! Physical-device selection: queue-family discovery, extension support,
//! eligibility, and ranking by device category.

use crate::utils::Vulkan_error;
use vstd::prelude::*;

verus! {

/// Device category codes as the driver reports them.
pub const DEVICE_TYPE_OTHER: u32 = 0;

pub const DEVICE_TYPE_INTEGRATED_GPU: u32 = 1;

pub const DEVICE_TYPE_DISCRETE_GPU: u32 = 2;

pub const DEVICE_TYPE_VIRTUAL_GPU: u32 = 3;

pub const DEVICE_TYPE_CPU: u32 = 4;

/// What one queue family of a device offers: graphics operations, and
/// presentation to the bound surface.
#[derive(Debug, Clone, Copy, PartialEq, Eq, Structural)]
pub struct Queue_family_support {
    pub graphics: bool,
    pub present: bool,
}

/// The queue families chosen for a device: one supporting graphics and
/// one supporting presentation. They may be equal.
#[derive(Debug, Clone, PartialEq, Eq)]
pub struct Queue_family_indices {
    pub graphics_family: Option<u32>,
    pub present_family: Option<u32>,
}

/// One step per family, front to back: remember the latest family seen
/// that supports graphics and the latest that supports presentation,
/// stopping as soon as both are known.
pub open spec fn scan_families(
    families: Seq<Queue_family_support>,
    i: int,
    graphics: Option<u32>,
    present: Option<u32>,
) -> (Option<u32>, Option<u32>)
    decreases families.len() - i,
{
    if i < 0 || i >= families.len() || (graphics is Some && present is Some) {
        (graphics, present)
    } else {
        let graphics2 = if families[i].graphics {
            Some(i as u32)
        } else {
            graphics
        };
        let present2 = if families[i].present {
            Some(i as u32)
        } else {
            present
        };
        scan_families(families, i + 1, graphics2, present2)
    }
}

/// The indices that queue-family discovery settles on.
pub open spec fn spec_scan_result(families: Seq<Queue_family_support>) -> (Option<u32>, Option<u32>) {
    scan_families(families, 0, None::<u32>, None::<u32>)
}

/// Whether discovery finds both a graphics and a present family.
pub open spec fn spec_families_complete(families: Seq<Queue_family_support>) -> bool {
    spec_scan_result(families).0 is Some && spec_scan_result(families).1 is Some
}

/// Discovery finds a graphics family exactly when one exists, and a
/// present family exactly when one exists, whatever was known already.
pub proof fn lemma_scan_finds_existing(
    families: Seq<Queue_family_support>,
    i: int,
    graphics: Option<u32>,
    present: Option<u32>,
)
    requires
        0 <= i <= families.len(),
    ensures
        ({
            let (g, p) = scan_families(families, i, graphics, present);
            &&& (g is Some <==> graphics is Some || exists|j: int|
                i <= j < families.len() && #[trigger] families[j].graphics)
            &&& (p is Some <==> present is Some || exists|j: int|
                i <= j < families.len() && #[trigger] families[j].present)
        }),
    decreases families.len() - i,
{
    if i < families.len() && !(graphics is Some && present is Some) {
        let graphics2 = if families[i].graphics {
            Some(i as u32)
        } else {
            graphics
        };
        let present2 = if families[i].present {
            Some(i as u32)
        } else {
            present
        };
        lemma_scan_finds_existing(families, i + 1, graphics2, present2);
    }
}

/// A settled index always points into the family list, at a family that
/// supports what the index was chosen for, provided what was already
/// known did.
pub proof fn lemma_scan_indices_support(
    families: Seq<Queue_family_support>,
    i: int,
    graphics: Option<u32>,
    present: Option<u32>,
)
    requires
        0 <= i <= families.len() <= u32::MAX,
        graphics matches Some(k) ==> 0 <= k < families.len() && families[k as int].graphics,
        present matches Some(k) ==> 0 <= k < families.len() && families[k as int].present,
    ensures
        ({
            let (g, p) = scan_families(families, i, graphics, present);
            &&& (g matches Some(k) ==> 0 <= k < families.len() && families[k as int].graphics)
            &&& (p matches Some(k) ==> 0 <= k < families.len() && families[k as int].present)
        }),
    decreases families.len() - i,
{
    if i < families.len() && !(graphics is Some && present is Some) {
        let graphics2 = if families[i].graphics {
            Some(i as u32)
        } else {
            graphics
        };
        let present2 = if families[i].present {
            Some(i as u32)
        } else {
            present
        };
        lemma_scan_indices_support(families, i + 1, graphics2, present2);
    }
}

/// Law: the queue families that discovery settles on do support what
/// they were chosen for — the graphics index names a graphics-capable
/// family and the present index a presentation-capable one.
pub proof fn lemma_chosen_families_support(families: Seq<Queue_family_support>)
    requires
        families.len() <= u32::MAX,
    ensures
        ({
            let (g, p) = spec_scan_result(families);
            &&& (g matches Some(k) ==> 0 <= k < families.len() && families[k as int].graphics)
            &&& (p matches Some(k) ==> 0 <= k < families.len() && families[k as int].present)
        }),
{
    lemma_scan_indices_support(families, 0, None::<u32>, None::<u32>);
}

impl Queue_family_indices {
    /// Scan the device's queue families for one supporting graphics and
    /// one supporting presentation; a device offering both is usable.
    pub fn new(families: &Vec<Queue_family_support>) -> (r: Result<Self, Vulkan_error>)
        requires
            families@.len() <= u32::MAX,
        ensures
            ({
                let (g, p) = spec_scan_result(families@);
                match r {
                    Ok(ind) => ind.graphics_family == g && ind.present_family == p,
                    Err(e) => e is No_suitable_device,
                }
            }),
            r is Ok <==> spec_families_complete(families@),
    {
        let ghost f = families@;
        let mut graphics_family: Option<u32> = None;
        let mut present_family: Option<u32> = None;
        let mut i: usize = 0;
        while i < families.len() && !(graphics_family.is_some() && present_family.is_some())
            invariant
                i <= f.len(),
                f.len() <= u32::MAX,
                families@ == f,
                scan_families(f, 0, None::<u32>, None::<u32>) == scan_families(
                    f,
                    i as int,
                    graphics_family,
                    present_family,
                ),
            decreases f.len() - i,
        {
            let fam = families[i];
            if fam.graphics {
                graphics_family = Some(i as u32);
            }
            if fam.present {
                present_family = Some(i as u32);
            }
            i = i + 1;
        }
        proof {
            assert(scan_families(f, i as int, graphics_family, present_family) == (
                graphics_family,
                present_family,
            ));
        }
        let complete = graphics_family.is_some() && present_family.is_some();
        if complete {
            Ok(Queue_family_indices { graphics_family, present_family })
        } else {
            Err(Vulkan_error::No_suitable_device)
        }
    }

    /// Whether both a graphics and a present family are known.
    pub fn is_complete(&self) -> (r: bool)
        ensures
            r == (self.graphics_family is Some && self.present_family is Some),
    {
        self.graphics_family.is_some() && self.present_family.is_some()
    }

    /// The distinct family indices, graphics first: the list of queues
    /// to create, and the families a concurrently shared swapchain
    /// image is handed between.
    pub fn distinct_indices(&self) -> (r: Vec<u32>)
        requires
            self.graphics_family is Some,
            self.present_family is Some,
        ensures
            ({
                let g = self.graphics_family->0;
                let p = self.present_family->0;
                if g == p {
                    r@ == seq![g]
                } else {
                    r@ == seq![g, p]
                }
            }),
    {
        let g = self.graphics_family.unwrap();
        let p = self.present_family.unwrap();
        let mut r: Vec<u32> = Vec::new();
        r.push(g);
        if p != g {
            r.push(p);
            proof {
                assert(r@ =~= seq![g, p]);
            }
        } else {
            proof {
                assert(r@ =~= seq![g]);
            }
        }
        r
    }
}

/// Byte-for-byte equality of two names.
pub fn bytes_equal(a: &Vec<u8>, b: &Vec<u8>) -> (r: bool)
    ensures
        r == (a@ == b@),
{
    if a.len() != b.len() {
        return false;
    }
    let mut i: usize = 0;
    while i < a.len()
        invariant
            i <= a@.len(),
            a@.len() == b@.len(),
            forall|j: int| 0 <= j < i ==> a@[j] == b@[j],
        decreases a@.len() - i,
    {
        if a[i] != b[i] {
            return false;
        }
        i = i + 1;
    }
    proof {
        assert(a@ =~= b@);
    }
    true
}

/// Whether `name` occurs in `list`.
pub open spec fn contains_name(list: Seq<Vec<u8>>, name: Seq<u8>) -> bool {
    exists|j: int| 0 <= j < list.len() && #[trigger] list[j]@ == name
}

/// Whether every required name occurs among the available ones.
pub open spec fn supports_all_names(available: Seq<Vec<u8>>, required: Seq<Vec<u8>>) -> bool {
    forall|i: int| 0 <= i < required.len() ==> contains_name(available, #[trigger] required[i]@)
}

/// Whether `name` occurs in `list`.
pub fn contains_bytes(list: &Vec<Vec<u8>>, name: &Vec<u8>) -> (r: bool)
    ensures
        r == contains_name(list@, name@),
{
    let mut j: usize = 0;
    while j < list.len()
        invariant
            j <= list@.len(),
            forall|k: int| 0 <= k < j ==> #[trigger] list@[k]@ != name@,
        decreases list@.len() - j,
    {
        if bytes_equal(&list[j], name) {
            return true;
        }
        j = j + 1;
    }
    false
}

/// Whether the device reports every required extension.
pub fn supports_all_extensions(available: &Vec<Vec<u8>>, required: &Vec<Vec<u8>>) -> (r: bool)
    ensures
        r == supports_all_names(available@, required@),
{
    let mut i: usize = 0;
    while i < required.len()
        invariant
            i <= required@.len(),
            forall|k: int| 0 <= k < i ==> contains_name(available@, #[trigger] required@[k]@),
        decreases required@.len() - i,
    {
        if !contains_bytes(available, &required[i]) {
            return false;
        }
        i = i + 1;
    }
    true
}

/// What eligibility and ranking read of one candidate device: its
/// category, the extension names it reports, whether its surface
/// queries returned at least one format and one present mode, and what
/// each of its queue families supports.
#[derive(Debug, Clone, PartialEq, Eq)]
pub struct Physical_device_info {
    pub device_type: u32,
    pub extensions: Vec<Vec<u8>>,
    pub has_surface_formats: bool,
    pub has_present_modes: bool,
    pub queue_families: Vec<Queue_family_support>,
}

/// Category precedence: discrete before integrated before virtual
/// before software before anything else.
pub open spec fn spec_device_type_rank(device_type: u32) -> u32 {
    if device_type == DEVICE_TYPE_DISCRETE_GPU {
        0
    } else if device_type == DEVICE_TYPE_INTEGRATED_GPU {
        1
    } else if device_type == DEVICE_TYPE_VIRTUAL_GPU {
        2
    } else if device_type == DEVICE_TYPE_CPU {
        3
    } else {
        4
    }
}

/// Category precedence: discrete before integrated before virtual
/// before software before anything else.
pub fn device_type_rank(device_type: u32) -> (r: u32)
    ensures
        r == spec_device_type_rank(device_type),
{
    if device_type == DEVICE_TYPE_DISCRETE_GPU {
        0
    } else if device_type == DEVICE_TYPE_INTEGRATED_GPU {
        1
    } else if device_type == DEVICE_TYPE_VIRTUAL_GPU {
        2
    } else if device_type == DEVICE_TYPE_CPU {
        3
    } else {
        4
    }
}

/// A device is eligible when it reports every required extension, its
/// surface queries returned at least one format and one present mode,
/// and it has a queue family supporting graphics and one supporting
/// presentation to the surface.
pub open spec fn spec_eligible(device: Physical_device_info, required: Seq<Vec<u8>>) -> bool {
    &&& supports_all_names(device.extensions@, required)
    &&& device.has_surface_formats
    &&& device.has_present_modes
    &&& spec_families_complete(device.queue_families@)
}

/// Check one candidate, yielding its queue-family indices when eligible.
pub fn is_device_eligible(device: &Physical_device_info, required: &Vec<Vec<u8>>) -> (r: Option<
    Queue_family_indices,
>)
    requires
        device.queue_families@.len() <= u32::MAX,
    ensures
        r is Some <==> spec_eligible(*device, required@),
        r matches Some(ind) ==> ({
            let (g, p) = spec_scan_result(device.queue_families@);
            ind.graphics_family == g && ind.present_family == p
        }),
{
    if !supports_all_extensions(&device.extensions, required) {
        return None;
    }
    if !device.has_surface_formats || !device.has_present_modes {
        return None;
    }
    match Queue_family_indices::new(&device.queue_families) {
        Ok(ind) => Some(ind),
        Err(_) => None,
    }
}

/// One step per candidate, front to back: keep the earliest device seen
/// whose category rank no later eligible device beats strictly.
pub open spec fn spec_select_loop(
    devices: Seq<Physical_device_info>,
    required: Seq<Vec<u8>>,
    i: int,
    best: Option<int>,
) -> Option<int>
    decreases devices.len() - i,
{
    if i < 0 || i >= devices.len() {
        best
    } else {
        let better = spec_eligible(devices[i], required) && (match best {
            Option::None => true,
            Option::Some(b) => spec_device_type_rank(devices[i].device_type)
                < spec_device_type_rank(devices[b].device_type),
        });
        spec_select_loop(
            devices,
            required,
            i + 1,
            if better {
                Some(i)
            } else {
                best
            },
        )
    }
}

/// The index of the device that selection settles on, if any device is
/// eligible.
pub open spec fn spec_select(devices: Seq<Physical_device_info>, required: Seq<Vec<u8>>) -> Option<
    int,
> {
    spec_select_loop(devices, required, 0, None::<int>)
}

/// Selection yields an index exactly when an eligible device exists,
/// that index is eligible, its category rank is minimal among the
/// eligible devices, and no earlier eligible device shares that rank.
pub proof fn lemma_select_loop_props(
    devices: Seq<Physical_device_info>,
    required: Seq<Vec<u8>>,
    i: int,
    best: Option<int>,
)
    requires
        0 <= i <= devices.len(),
        best matches Some(b) ==> 0 <= b < i && spec_eligible(devices[b], required) && (forall|
            j: int,
        |
            0 <= j < i && #[trigger] spec_eligible(devices[j], required)
                ==> spec_device_type_rank(devices[b].device_type) <= spec_device_type_rank(
                devices[j].device_type,
            )) && (forall|j: int|
            0 <= j < b && #[trigger] spec_eligible(devices[j], required)
                ==> spec_device_type_rank(devices[j].device_type) > spec_device_type_rank(
                devices[b].device_type,
            )),
        best is None ==> forall|j: int| 0 <= j < i ==> !spec_eligible(devices[j], required),
    ensures
        ({
            let r = spec_select_loop(devices, required, i, best);
            &&& (r is Some <==> best is Some || exists|j: int|
                i <= j < devices.len() && #[trigger] spec_eligible(devices[j], required))
            &&& (r matches Some(k) ==> 0 <= k < devices.len() && spec_eligible(devices[k], required)
                && (forall|j: int|
                0 <= j < devices.len() && #[trigger] spec_eligible(devices[j], required)
                    ==> spec_device_type_rank(devices[k].device_type) <= spec_device_type_rank(
                    devices[j].device_type,
                )) && (forall|j: int|
                0 <= j < k && #[trigger] spec_eligible(devices[j], required)
                    ==> spec_device_type_rank(devices[j].device_type) > spec_device_type_rank(
                    devices[k].device_type,
                )))
        }),
    decreases devices.len() - i,
{
    if 0 <= i < devices.len() {
        let better = spec_eligible(devices[i], required) && (match best {
            Option::None => true,
            Option::Some(b) => spec_device_type_rank(devices[i].device_type)
                < spec_device_type_rank(devices[b].device_type),
        });
        let best2 = if better {
            Some(i)
        } else {
            best
        };
        lemma_select_loop_props(devices, required, i + 1, best2);
    }
}

/// Enumerate the candidates and pick one: the first eligible device of
/// the best category present, together with its queue-family indices.
/// Fails with `No_suitable_device` exactly when no candidate is
/// eligible.
pub fn select_physical_device(devices: &Vec<Physical_device_info>, required: &Vec<Vec<u8>>) -> (r:
    Result<(usize, Queue_family_indices), Vulkan_error>)
    requires
        forall|i: int|
            0 <= i < devices@.len() ==> (#[trigger] devices@[i].queue_families)@.len() <= u32::MAX,
    ensures
        r is Ok <==> spec_select(devices@, required@) is Some,
        r is Ok <==> exists|i: int|
            0 <= i < devices@.len() && #[trigger] spec_eligible(devices@[i], required@),
        r matches Err(e) ==> e is No_suitable_device,
        r matches Ok((k, ind)) ==> ({
            let (g, p) = spec_scan_result(devices@[k as int].queue_families@);
            &&& Some(k as int) == spec_select(devices@, required@)
            &&& k < devices@.len()
            &&& spec_eligible(devices@[k as int], required@)
            &&& ind.graphics_family == g
            &&& ind.present_family == p
            &&& forall|j: int|
                0 <= j < devices@.len() && #[trigger] spec_eligible(devices@[j], required@)
                    ==> spec_device_type_rank(devices@[k as int].device_type)
                    <= spec_device_type_rank(devices@[j].device_type)
            &&& forall|j: int|
                0 <= j < k && #[trigger] spec_eligible(devices@[j], required@)
                    ==> spec_device_type_rank(devices@[j].device_type) > spec_device_type_rank(
                    devices@[k as int].device_type,
                )
        }),
{
    let ghost ds = devices@;
    let mut best: Option<(usize, Queue_family_indices, u32)> = None;
    let mut i: usize = 0;
    while i < devices.len()
        invariant
            i <= ds.len(),
            devices@ == ds,
            forall|j: int|
                0 <= j < ds.len() ==> (#[trigger] ds[j].queue_families)@.len() <= u32::MAX,
            spec_select(ds, required@) == spec_select_loop(
                ds,
                required@,
                i as int,
                match best {
                    Option::None => None::<int>,
                    Option::Some((b, _, _)) => Some(b as int),
                },
            ),
            best matches Some((b, ind, rank)) ==> ({
                let (g, p) = spec_scan_result(ds[b as int].queue_families@);
                &&& b < i
                &&& spec_eligible(ds[b as int], required@)
                &&& rank == spec_device_type_rank(ds[b as int].device_type)
                &&& ind.graphics_family == g
                &&& ind.present_family == p
                &&& forall|j: int|
                    0 <= j < i && #[trigger] spec_eligible(ds[j], required@)
                        ==> spec_device_type_rank(ds[b as int].device_type)
                        <= spec_device_type_rank(ds[j].device_type)
                &&& forall|j: int|
                    0 <= j < b && #[trigger] spec_eligible(ds[j], required@)
                        ==> spec_device_type_rank(ds[j].device_type) > spec_device_type_rank(
                        ds[b as int].device_type,
                    )
            }),
            best is None ==> forall|j: int| 0 <= j < i ==> !spec_eligible(ds[j], required@),
        decreases ds.len() - i,
    {
        let candidate = is_device_eligible(&devices[i], required);
        match candidate {
            Some(ind) => {
                let rank = device_type_rank(devices[i].device_type);
                let better = match &best {
                    Option::None => true,
                    Option::Some((_, _, best_rank)) => rank < *best_rank,
                };
                if better {
                    best = Some((i, ind, rank));
                }
            },
            None => {},
        }
        i = i + 1;
    }
    match best {
        Some((k, ind, _)) => {
            proof {
                lemma_select_loop_props(ds, required@, ds.len() as int, Some(k as int));
            }
            Ok((k, ind))
        },
        None => {
            proof {
                lemma_select_loop_props(ds, required@, ds.len() as int, None::<int>);
            }
            Err(Vulkan_error::No_suitable_device)
        },
    }
}

/// Law: selection respects category precedence. If any eligible
/// discrete-category device is among the candidates, the selected
/// device is of the discrete category.
pub proof fn lemma_selection_prefers_discrete(
    devices: Seq<Physical_device_info>,
    required: Seq<Vec<u8>>,
    d: int,
)
    requires
        0 <= d < devices.len(),
        spec_eligible(devices[d], required),
        devices[d].device_type == DEVICE_TYPE_DISCRETE_GPU,
    ensures
        spec_select(devices, required) matches Some(k) && devices[k].device_type
            == DEVICE_TYPE_DISCRETE_GPU,
{
    lemma_select_loop_props(devices, required, 0, None::<int>);
    let k = spec_select(devices, required)->0;
    assert(spec_device_type_rank(devices[k].device_type) <= spec_device_type_rank(
        devices[d].device_type,
    ));
}

/// Law: a device lacking a graphics-capable queue family, or lacking a
/// family able to present to the surface, is never the selected device.
pub proof fn lemma_incomplete_device_never_selected(
    devices: Seq<Physical_device_info>,
    required: Seq<Vec<u8>>,
    d: int,
)
    requires
        0 <= d < devices.len(),
        !(exists|j: int|
            0 <= j < devices[d].queue_families@.len()
                && #[trigger] devices[d].queue_families@[j].graphics) || !(exists|j: int|
            0 <= j < devices[d].queue_families@.len()
                && #[trigger] devices[d].queue_families@[j].present),
    ensures
        spec_select(devices, required) != Some(d),
{
    lemma_scan_finds_existing(devices[d].queue_families@, 0, None::<u32>, None::<u32>);
    assert(!spec_families_complete(devices[d].queue_families@));
    lemma_select_loop_props(devices, required, 0, None::<int>);
}

} // verus!
