//! Physical-device selection and logical-device planning.
use vstd::prelude::*;
use crate::swapchain::SwapchainSupport;
use crate::instance::{validation_layers, validation_layer_names};

verus! {

/// Name of the device extension that presentation needs.
pub const SWAPCHAIN_EXTENSION: &'static str = "VK_KHR_swapchain";

/// Raw value of `VK_QUEUE_GRAPHICS_BIT`.
pub const QUEUE_GRAPHICS: u32 = 1;

/// Kind of a physical device, as the driver reports it.
#[derive(Clone, Copy, Debug, PartialEq, Eq, Structural)]
pub enum DeviceType {
    Other,
    IntegratedGpu,
    DiscreteGpu,
    VirtualGpu,
    Cpu,
}

/// Preference of a device kind: discrete, integrated, virtual, CPU, other.
pub open spec fn type_rank(t: DeviceType) -> u64 {
    match t {
        DeviceType::DiscreteGpu => 4,
        DeviceType::IntegratedGpu => 3,
        DeviceType::VirtualGpu => 2,
        DeviceType::Cpu => 1,
        DeviceType::Other => 0,
    }
}

/// One queue family of a device, with whether it can present to the surface.
#[derive(Clone, Copy, Debug, PartialEq, Eq, Structural)]
pub struct QueueFamilyInfo {
    pub queue_count: u32,
    pub queue_flags: u32,
    pub present_support: bool,
}

impl QueueFamilyInfo {
    pub open spec fn draws(self) -> bool {
        self.queue_count > 0 && self.queue_flags & QUEUE_GRAPHICS == QUEUE_GRAPHICS
    }

    pub open spec fn presents(self) -> bool {
        self.queue_count > 0 && self.present_support
    }
}

/// What selection reads of one enumerated physical device.
pub struct DeviceCandidate {
    pub device_type: DeviceType,
    pub max_image_dimension_2d: u32,
    /// Names of the device extensions it offers.
    pub extensions: Vec<String>,
    pub queue_families: Vec<QueueFamilyInfo>,
    pub swapchain_support: SwapchainSupport,
}

/// Queue families that can draw and present, once found.
pub struct QueueFamilyIndices {
    pub graphics_family: Option<u32>,
    pub present_family: Option<u32>,
}

impl QueueFamilyIndices {
    pub fn new() -> (r: QueueFamilyIndices)
        ensures
            r.graphics_family is None,
            r.present_family is None,
    {
        QueueFamilyIndices { graphics_family: None, present_family: None }
    }

    pub open spec fn complete(&self) -> bool {
        self.graphics_family is Some && self.present_family is Some
    }

    pub fn is_complete(&self) -> (r: bool)
        ensures
            r == self.complete(),
    {
        self.graphics_family.is_some() && self.present_family.is_some()
    }
}

impl Default for QueueFamilyIndices {
    fn default() -> (r: QueueFamilyIndices)
        ensures
            r.graphics_family is None,
            r.present_family is None,
    {
        QueueFamilyIndices::new()
    }
}

/// The pair (graphics, present) after looking at the first `n` families: each
/// family that can draw (present) becomes the graphics (present) family, and
/// the scan stops as soon as both are known.
pub open spec fn scan_families(fams: Seq<QueueFamilyInfo>, n: nat) -> (Option<u32>, Option<u32>)
    decreases n,
{
    if n == 0 {
        (None, None)
    } else {
        let prev = scan_families(fams, (n - 1) as nat);
        if prev.0 is Some && prev.1 is Some {
            prev
        } else {
            let i = n - 1;
            (
                if fams[i].draws() { Some(i as u32) } else { prev.0 },
                if fams[i].presents() { Some(i as u32) } else { prev.1 },
            )
        }
    }
}

pub open spec fn found_families(fams: Seq<QueueFamilyInfo>) -> (Option<u32>, Option<u32>) {
    scan_families(fams, fams.len())
}

/// Finds a queue family that draws and one that presents.
pub fn find_queue_families(fams: &Vec<QueueFamilyInfo>) -> (r: QueueFamilyIndices)
    requires
        fams@.len() <= u32::MAX,
    ensures
        (r.graphics_family, r.present_family) == found_families(fams@),
{
    let mut res = QueueFamilyIndices::new();
    let mut i: usize = 0;
    while i < fams.len()
        invariant
            i <= fams@.len() <= u32::MAX,
            (res.graphics_family, res.present_family) == scan_families(fams@, i as nat),
            res.complete() ==> forall|k: nat|
                i <= k <= fams@.len() ==> #[trigger] scan_families(fams@, k) == scan_families(
                    fams@,
                    i as nat,
                ),
        decreases fams@.len() - i,
    {
        if res.is_complete() {
            return res;
        }
        let f = fams[i];
        if f.queue_count > 0 && f.queue_flags & QUEUE_GRAPHICS == QUEUE_GRAPHICS {
            res.graphics_family = Some(i as u32);
        }
        if f.queue_count > 0 && f.present_support {
            res.present_family = Some(i as u32);
        }
        i = i + 1;
        proof {
            if res.complete() {
                assert forall|k: nat| i <= k <= fams@.len() implies #[trigger] scan_families(
                    fams@,
                    k,
                ) == scan_families(fams@, i as nat) by {
                    lemma_scan_stays(fams@, i as nat, k);
                }
            }
        }
    }
    res
}

proof fn lemma_scan_stays(fams: Seq<QueueFamilyInfo>, i: nat, k: nat)
    requires
        i <= k,
        scan_families(fams, i).0 is Some,
        scan_families(fams, i).1 is Some,
    ensures
        scan_families(fams, k) == scan_families(fams, i),
    decreases k - i,
{
    if k > i {
        lemma_scan_stays(fams, i, (k - 1) as nat);
    }
}

/// `name` is among the available names.
pub open spec fn offered(available: Seq<String>, name: Seq<char>) -> bool {
    exists|a: int| 0 <= a < available.len() && (#[trigger] available[a])@ == name
}

/// Every one of `names` is among the available names.
pub open spec fn all_offered(available: Seq<String>, names: Seq<Seq<char>>) -> bool {
    forall|r: int| 0 <= r < names.len() ==> offered(available, #[trigger] names[r])
}

/// Every required name is among the available names.
pub open spec fn supports_extensions(available: Seq<String>, required: Seq<String>) -> bool {
    all_offered(available, required.map_values(|s: String| s@))
}

fn offers(available: &Vec<String>, name: &String) -> (r: bool)
    ensures
        r == offered(available@, name@),
{
    let mut i: usize = 0;
    while i < available.len()
        invariant
            i <= available@.len(),
            forall|a: int| 0 <= a < i ==> (#[trigger] available@[a])@ != name@,
        decreases available@.len() - i,
    {
        if available[i] == *name {
            return true;
        }
        i = i + 1;
    }
    false
}

/// Whether a device offers every required extension.
pub fn check_device_extension_support(available: &Vec<String>, required: &Vec<String>) -> (r:
    bool)
    ensures
        r == supports_extensions(available@, required@),
{
    let mut i: usize = 0;
    while i < required.len()
        invariant
            i <= required@.len(),
            forall|r: int| 0 <= r < i ==> offered(available@, (#[trigger] required@[r])@),
        decreases required@.len() - i,
    {
        if !offers(available, &required[i]) {
            assert(required@.map_values(|s: String| s@)[i as int] == required@[i as int]@);
            return false;
        }
        i = i + 1;
    }
    let ghost names = required@.map_values(|s: String| s@);
    assert forall|r: int| 0 <= r < names.len() implies offered(available@, #[trigger] names[r]) by {
        assert(offered(available@, required@[r]@));
    }
    true
}

/// A device that offers the required extensions, a family that draws and one
/// that presents, and at least one surface format and present mode.
pub open spec fn is_suitable(c: DeviceCandidate, required: Seq<String>) -> bool {
    &&& supports_extensions(c.extensions@, required)
    &&& found_families(c.queue_families@).0 is Some
    &&& found_families(c.queue_families@).1 is Some
    &&& c.swapchain_support.adequate()
}

/// Whether the device can run the renderer at all.
pub fn is_device_suitable(c: &DeviceCandidate, required: &Vec<String>) -> (r: bool)
    requires
        c.queue_families@.len() <= u32::MAX,
    ensures
        r == is_suitable(*c, required@),
{
    if !check_device_extension_support(&c.extensions, required) {
        return false;
    }
    let families = find_queue_families(&c.queue_families);
    families.is_complete() && c.swapchain_support.formats.len() > 0
        && c.swapchain_support.present_modes.len() > 0
}

/// Ranks by device kind first, then by the largest 2D image it supports.
pub open spec fn score(c: DeviceCandidate) -> u64 {
    (type_rank(c.device_type) * 0x1_0000_0000 + c.max_image_dimension_2d) as u64
}

/// The score of a device: its kind above all, its image limit within a kind.
pub fn rate_device_suitability(c: &DeviceCandidate) -> (r: u64)
    ensures
        r == score(*c),
{
    let rank: u64 = match c.device_type {
        DeviceType::DiscreteGpu => 4,
        DeviceType::IntegratedGpu => 3,
        DeviceType::VirtualGpu => 2,
        DeviceType::Cpu => 1,
        DeviceType::Other => 0,
    };
    rank * 0x1_0000_0000 + c.max_image_dimension_2d as u64
}

/// Why no physical device could be used.
#[derive(Clone, Copy, Debug, PartialEq, Eq, Structural)]
pub enum DeviceError {
    NoSuitableDevice,
}

pub open spec fn families_fit(cands: Seq<DeviceCandidate>) -> bool {
    forall|i: int| 0 <= i < cands.len() ==> (#[trigger] cands[i]).queue_families@.len() <= u32::MAX
}

/// `i` is the device that selection picks: suitable, of the highest score
/// among the suitable ones, and the last of that score.
pub open spec fn is_selected(cands: Seq<DeviceCandidate>, required: Seq<String>, i: int) -> bool {
    &&& 0 <= i < cands.len()
    &&& is_suitable(cands[i], required)
    &&& forall|j: int|
        0 <= j < cands.len() && is_suitable(#[trigger] cands[j], required) ==> score(cands[j])
            <= score(cands[i])
    &&& forall|j: int|
        i < j < cands.len() && is_suitable(#[trigger] cands[j], required) ==> score(cands[j])
            < score(cands[i])
}

/// Picks the best suitable device by score, or fails when none is suitable.
pub fn select_physical_device(cands: &Vec<DeviceCandidate>, required: &Vec<String>) -> (r: Result<
    usize,
    DeviceError,
>)
    requires
        families_fit(cands@),
    ensures
        r matches Ok(i) ==> is_selected(cands@, required@, i as int),
        r is Err <==> forall|j: int| 0 <= j < cands@.len() ==> !is_suitable(#[trigger] cands@[j], required@),
{
    let mut best: Option<usize> = None;
    let mut best_score: u64 = 0;
    let mut j: usize = 0;
    while j < cands.len()
        invariant
            j <= cands@.len(),
            families_fit(cands@),
            best is None ==> forall|k: int| 0 <= k < j ==> !is_suitable(#[trigger] cands@[k], required@),
            best matches Some(b) ==> {
                &&& b < j
                &&& is_suitable(cands@[b as int], required@)
                &&& best_score == score(cands@[b as int])
                &&& forall|k: int|
                    0 <= k < j && is_suitable(#[trigger] cands@[k], required@) ==> score(cands@[k])
                        <= best_score
                &&& forall|k: int|
                    b < k < j && is_suitable(#[trigger] cands@[k], required@) ==> score(cands@[k])
                        < best_score
            },
        decreases cands@.len() - j,
    {
        let c = &cands[j];
        assert(c.queue_families@.len() <= u32::MAX) by {
            assert(cands@[j as int] == *c);
        }
        if is_device_suitable(c, required) {
            let s = rate_device_suitability(c);
            if best.is_none() || s >= best_score {
                best = Some(j);
                best_score = s;
            }
        }
        j = j + 1;
    }
    match best {
        Some(b) => Ok(b),
        None => Err(DeviceError::NoSuitableDevice),
    }
}

/// Selection prefers a suitable discrete GPU whatever the order of
/// enumeration; with none, a suitable integrated GPU; and within the kind it
/// picks, no suitable device has a larger 2D image limit.
pub proof fn lemma_selection_prefers_discrete(
    cands: Seq<DeviceCandidate>,
    required: Seq<String>,
    i: int,
)
    requires
        is_selected(cands, required, i),
    ensures
        (exists|j: int|
            0 <= j < cands.len() && is_suitable(#[trigger] cands[j], required)
                && cands[j].device_type == DeviceType::DiscreteGpu) ==> cands[i].device_type
            == DeviceType::DiscreteGpu,
        (forall|j: int|
            0 <= j < cands.len() && is_suitable(#[trigger] cands[j], required) ==> cands[j].device_type
                != DeviceType::DiscreteGpu) && (exists|j: int|
            0 <= j < cands.len() && is_suitable(#[trigger] cands[j], required)
                && cands[j].device_type == DeviceType::IntegratedGpu) ==> cands[i].device_type
            == DeviceType::IntegratedGpu,
        forall|j: int|
            0 <= j < cands.len() && is_suitable(#[trigger] cands[j], required)
                && cands[j].device_type == cands[i].device_type ==> cands[j].max_image_dimension_2d
                <= cands[i].max_image_dimension_2d,
{
    assert forall|j: int|
        0 <= j < cands.len() && is_suitable(#[trigger] cands[j], required) implies type_rank(
        cands[j].device_type,
    ) <= type_rank(cands[i].device_type) && (cands[j].device_type == cands[i].device_type
        ==> cands[j].max_image_dimension_2d <= cands[i].max_image_dimension_2d) by {
        assert(score(cands[j]) <= score(cands[i]));
    }
    if exists|j: int|
        0 <= j < cands.len() && is_suitable(#[trigger] cands[j], required)
            && cands[j].device_type == DeviceType::DiscreteGpu {
        let j = choose|j: int|
            0 <= j < cands.len() && is_suitable(#[trigger] cands[j], required)
                && cands[j].device_type == DeviceType::DiscreteGpu;
        assert(type_rank(cands[j].device_type) <= type_rank(cands[i].device_type));
    }
    if (forall|j: int|
        0 <= j < cands.len() && is_suitable(#[trigger] cands[j], required) ==> cands[j].device_type
            != DeviceType::DiscreteGpu) && (exists|j: int|
        0 <= j < cands.len() && is_suitable(#[trigger] cands[j], required)
            && cands[j].device_type == DeviceType::IntegratedGpu) {
        let j = choose|j: int|
            0 <= j < cands.len() && is_suitable(#[trigger] cands[j], required)
                && cands[j].device_type == DeviceType::IntegratedGpu;
        assert(type_rank(cands[j].device_type) <= type_rank(cands[i].device_type));
        assert(cands[i].device_type != DeviceType::DiscreteGpu);
    }
}

/// The device extensions that a device must offer to be chosen.
pub fn get_swap_required_extensions() -> (r: Vec<String>)
    ensures
        r@.len() == 1,
        r@[0]@ == "VK_KHR_swapchain"@,
{
    let mut r: Vec<String> = Vec::new();
    r.push(SWAPCHAIN_EXTENSION.to_owned());
    r
}

/// The queue families to ask one queue each of: both, or one when they are
/// the same family.
pub open spec fn unique_families(graphics_family: u32, present_family: u32) -> Seq<u32> {
    if graphics_family == present_family {
        seq![graphics_family]
    } else {
        seq![graphics_family, present_family]
    }
}

/// What the logical device is created with.
pub struct LogicalDevicePlan {
    /// One queue is asked of each of these families, with no family twice.
    pub queue_families: Vec<u32>,
    pub extensions: Vec<String>,
    pub layers: Vec<String>,
}

/// Plans the logical device: one queue per distinct family, the swapchain
/// extension, and the validation layers when they are used.
pub fn create_logical_device(indices: &QueueFamilyIndices, use_validation_layers: bool) -> (r:
    LogicalDevicePlan)
    requires
        indices.complete(),
    ensures
        r.queue_families@ == unique_families(
            indices.graphics_family->0,
            indices.present_family->0,
        ),
        r.extensions@.len() == 1,
        r.extensions@[0]@ == "VK_KHR_swapchain"@,
        use_validation_layers ==> r.layers@.map_values(|s: String| s@)
            == validation_layer_names(),
        !use_validation_layers ==> r.layers@.len() == 0,
{
    let g = indices.graphics_family.unwrap();
    let p = indices.present_family.unwrap();
    let mut queue_families: Vec<u32> = Vec::new();
    queue_families.push(g);
    if p != g {
        queue_families.push(p);
    }
    assert(queue_families@ =~= unique_families(g, p));
    let layers = if use_validation_layers {
        validation_layers()
    } else {
        Vec::new()
    };
    LogicalDevicePlan { queue_families, extensions: get_swap_required_extensions(), layers }
}

} // verus!
