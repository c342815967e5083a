//! Physical-device selection.
//!
//! Every enumerated device is reduced to a plain profile: its class, the
//! capabilities of its queue families, its memory heaps, and whether it
//! advertises each member of the required extension set (swapchain,
//! acceleration structure, ray-tracing pipeline, deferred host
//! operations, buffer device address). A device qualifies when it has a
//! queue family with combined graphics+compute dispatch and presentation
//! support and every required extension. Qualifying devices are scored
//! (discrete far above integrated, plus one point per GiB of
//! device-local heap) and the earliest device with the highest score is
//! selected, so the choice is deterministic for a given enumeration
//! order.

use vstd::prelude::*;
use crate::error::RenderError;

verus! {

/// The driver-reported hardware class of a physical device.
#[derive(Clone, Copy, PartialEq, Eq, Structural, Debug)]
pub enum DeviceClass {
    DiscreteGpu,
    IntegratedGpu,
    VirtualGpu,
    Cpu,
    Other,
}

/// What one queue family can do.
#[derive(Clone, Copy, PartialEq, Eq, Structural, Debug)]
pub struct QueueFamilyCaps {
    /// The family supports both graphics and compute dispatch.
    pub graphics_and_compute: bool,
    /// The family can present to the target surface.
    pub present: bool,
}

/// One memory heap of a device.
#[derive(Clone, Copy, PartialEq, Eq, Structural, Debug)]
pub struct MemoryHeap {
    /// Heap size in bytes.
    pub size: u64,
    /// Whether the heap is device-local (video memory).
    pub device_local: bool,
}

/// Everything selection needs to know about one physical device.
pub struct DeviceProfile {
    pub class: DeviceClass,
    pub queue_families: Vec<QueueFamilyCaps>,
    pub heaps: Vec<MemoryHeap>,
    pub has_swapchain: bool,
    pub has_acceleration_structure: bool,
    pub has_ray_tracing_pipeline: bool,
    pub has_deferred_host_operations: bool,
    pub has_buffer_device_address: bool,
}

/// The outcome of selection: which device, which queue family, and the
/// score it won with.
#[derive(Clone, Copy, PartialEq, Eq, Structural, Debug)]
pub struct SelectedDevice {
    pub index: usize,
    pub queue_family: usize,
    pub score: u64,
}

/// Bytes per scoring point of device-local memory: one GiB.
pub const BYTES_PER_GIB: u64 = 0x4000_0000;

/// A queue family is suitable when it offers combined graphics+compute
/// dispatch and can present to the surface.
pub open spec fn family_suitable(c: QueueFamilyCaps) -> bool {
    c.graphics_and_compute && c.present
}

/// The device advertises the whole required extension set.
pub open spec fn spec_has_required_extensions(p: DeviceProfile) -> bool {
    &&& p.has_swapchain
    &&& p.has_acceleration_structure
    &&& p.has_ray_tracing_pipeline
    &&& p.has_deferred_host_operations
    &&& p.has_buffer_device_address
}

/// A device qualifies when it has a suitable queue family and every
/// required extension.
pub open spec fn spec_qualifies(p: DeviceProfile) -> bool {
    &&& spec_has_required_extensions(p)
    &&& exists|i: int| 0 <= i < p.queue_families@.len() && family_suitable(p.queue_families@[i])
}

/// Base score of a device class: discrete GPUs far above integrated,
/// everything else far below.
pub open spec fn spec_class_score(c: DeviceClass) -> int {
    match c {
        DeviceClass::DiscreteGpu => 1000,
        DeviceClass::IntegratedGpu => 500,
        _ => 100,
    }
}

/// Whole GiB of device-local memory in the first `n` heaps.
pub open spec fn spec_local_gib(heaps: Seq<MemoryHeap>, n: int) -> int
    decreases n,
{
    if n <= 0 {
        0
    } else {
        spec_local_gib(heaps, n - 1) + if heaps[n - 1].device_local {
            heaps[n - 1].size as int / BYTES_PER_GIB as int
        } else {
            0
        }
    }
}

/// The score of a device: its class base plus one point per whole GiB of
/// device-local heap memory.
pub open spec fn spec_score(p: DeviceProfile) -> int {
    spec_class_score(p.class) + spec_local_gib(p.heaps@, p.heaps@.len() as int)
}

/// Each heap contributes a non-negative amount, so the GiB count only
/// grows with the number of heaps considered.
proof fn lemma_local_gib_monotonic(heaps: Seq<MemoryHeap>, m: int, n: int)
    requires
        0 <= m <= n,
    ensures
        0 <= spec_local_gib(heaps, m) <= spec_local_gib(heaps, n),
    decreases n,
{
    if n > 0 {
        if m == n {
            lemma_local_gib_monotonic(heaps, m - 1, n - 1);
        } else {
            lemma_local_gib_monotonic(heaps, m, n - 1);
        }
    }
}

/// Compute a device's selection score.
pub fn device_score(p: &DeviceProfile) -> (score: u64)
    requires
        spec_score(*p) <= u64::MAX,
    ensures
        score == spec_score(*p),
{
    let base: u64 = match p.class {
        DeviceClass::DiscreteGpu => 1000,
        DeviceClass::IntegratedGpu => 500,
        _ => 100,
    };
    let n = p.heaps.len();
    let mut gib: u64 = 0;
    let mut i: usize = 0;
    proof {
        lemma_local_gib_monotonic(p.heaps@, 0, n as int);
    }
    while i < n
        invariant
            n == p.heaps@.len(),
            i <= n,
            gib == spec_local_gib(p.heaps@, i as int),
            base == spec_class_score(p.class),
            spec_class_score(p.class) + spec_local_gib(p.heaps@, n as int) <= u64::MAX,
        decreases n - i,
    {
        proof {
            lemma_local_gib_monotonic(p.heaps@, i + 1, n as int);
        }
        let h = p.heaps[i];
        if h.device_local {
            gib = gib + h.size / BYTES_PER_GIB;
        }
        i = i + 1;
    }
    proof {
        lemma_local_gib_monotonic(p.heaps@, 0, n as int);
    }
    base + gib
}

/// Index of the first queue family with graphics+compute and present
/// support, if any.
pub fn find_queue_family(families: &Vec<QueueFamilyCaps>) -> (r: Option<usize>)
    ensures
        match r {
            Some(i) => {
                &&& i < families@.len()
                &&& family_suitable(families@[i as int])
                &&& forall|j: int| 0 <= j < i ==> !family_suitable(families@[j])
            },
            None => forall|j: int| 0 <= j < families@.len() ==> !family_suitable(families@[j]),
        },
{
    let n = families.len();
    let mut i: usize = 0;
    while i < n
        invariant
            n == families@.len(),
            i <= n,
            forall|j: int| 0 <= j < i ==> !family_suitable(families@[j]),
        decreases n - i,
    {
        let f = families[i];
        if f.graphics_and_compute && f.present {
            return Some(i);
        }
        i = i + 1;
    }
    None
}

/// Whether the device advertises the whole required extension set.
pub fn has_required_extensions(p: &DeviceProfile) -> (r: bool)
    ensures
        r == spec_has_required_extensions(*p),
{
    p.has_swapchain && p.has_acceleration_structure && p.has_ray_tracing_pipeline
        && p.has_deferred_host_operations && p.has_buffer_device_address
}

/// What `select_device` promises of a successful selection: the device
/// qualifies, the queue family is the first suitable one, the score is
/// its true score, no qualifying device scores higher, and no earlier
/// device ties it.
pub open spec fn spec_selected(devices: Seq<DeviceProfile>, s: SelectedDevice) -> bool {
    &&& 0 <= (s.index as int) < devices.len()
    &&& spec_qualifies(devices[s.index as int])
    &&& (s.queue_family as int) < devices[s.index as int].queue_families@.len()
    &&& family_suitable(devices[s.index as int].queue_families@[s.queue_family as int])
    &&& forall|j: int|
        0 <= j < s.queue_family ==> !family_suitable(devices[s.index as int].queue_families@[j])
    &&& s.score == spec_score(devices[s.index as int])
    &&& forall|k: int|
        0 <= k < devices.len() && spec_qualifies(devices[k]) ==> spec_score(devices[k])
            <= s.score
    &&& forall|k: int|
        0 <= k < s.index && spec_qualifies(devices[k]) ==> spec_score(devices[k]) < s.score
}

/// Pick the physical device to render with: the earliest qualifying
/// device of maximal score, or `NoSuitableDevice` when none qualifies.
pub fn select_device(devices: &Vec<DeviceProfile>) -> (r: Result<SelectedDevice, RenderError>)
    requires
        forall|k: int| 0 <= k < devices@.len() ==> spec_score(devices@[k]) <= u64::MAX,
    ensures
        match r {
            Ok(s) => spec_selected(devices@, s),
            Err(e) => {
                &&& e == RenderError::NoSuitableDevice
                &&& forall|k: int| 0 <= k < devices@.len() ==> !spec_qualifies(devices@[k])
            },
        },
        (exists|k: int| 0 <= k < devices@.len() && spec_qualifies(devices@[k])) ==> r is Ok,
{
    let n = devices.len();
    let mut best: Option<SelectedDevice> = None;
    let mut k: usize = 0;
    while k < n
        invariant
            n == devices@.len(),
            k <= n,
            forall|j: int| 0 <= j < devices@.len() ==> spec_score(devices@[j]) <= u64::MAX,
            match best {
                Some(b) => {
                    &&& 0 <= (b.index as int) < k
                    &&& spec_qualifies(devices@[b.index as int])
                    &&& (b.queue_family as int) < devices@[b.index as int].queue_families@.len()
                    &&& family_suitable(
                        devices@[b.index as int].queue_families@[b.queue_family as int],
                    )
                    &&& forall|j: int|
                        0 <= j < b.queue_family ==> !family_suitable(
                            devices@[b.index as int].queue_families@[j],
                        )
                    &&& b.score == spec_score(devices@[b.index as int])
                    &&& forall|j: int|
                        0 <= j < k && spec_qualifies(devices@[j]) ==> spec_score(devices@[j])
                            <= b.score
                    &&& forall|j: int|
                        0 <= j < b.index && spec_qualifies(devices@[j]) ==> spec_score(devices@[j])
                            < b.score
                },
                None => forall|j: int| 0 <= j < k ==> !spec_qualifies(devices@[j]),
            },
        decreases n - k,
    {
        let d = &devices[k];
        if has_required_extensions(d) {
            if let Some(q) = find_queue_family(&d.queue_families) {
                let score = device_score(d);
                let better = match best {
                    Some(b) => score > b.score,
                    None => true,
                };
                if better {
                    best = Some(SelectedDevice { index: k, queue_family: q, score });
                }
            }
        }
        k = k + 1;
    }
    match best {
        Some(b) => Ok(b),
        None => Err(RenderError::NoSuitableDevice),
    }
}

/// Determinism law: the selection contract admits exactly one outcome
/// for a given device list, so selection is a function of the
/// enumeration order alone.
pub proof fn lemma_selection_deterministic(
    devices: Seq<DeviceProfile>,
    s1: SelectedDevice,
    s2: SelectedDevice,
)
    requires
        spec_selected(devices, s1),
        spec_selected(devices, s2),
    ensures
        s1 == s2,
{
    if s1.index < s2.index {
        assert(spec_score(devices[s1.index as int]) < s2.score);
        assert(spec_score(devices[s2.index as int]) <= s1.score);
    } else if s2.index < s1.index {
        assert(spec_score(devices[s2.index as int]) < s1.score);
        assert(spec_score(devices[s1.index as int]) <= s2.score);
    }
    assert(s1.index == s2.index);
    if s1.queue_family < s2.queue_family {
        assert(!family_suitable(devices[s2.index as int].queue_families@[s1.queue_family as int]));
    } else if s2.queue_family < s1.queue_family {
        assert(!family_suitable(devices[s1.index as int].queue_families@[s2.queue_family as int]));
    }
}

/// Device-preference law: as long as no non-discrete device carries
/// 500 GiB of device-local memory (enough to out-score the discrete
/// base weight), a qualifying discrete GPU always wins, and among
/// qualifying discrete GPUs the winner has the most device-local
/// memory.
pub proof fn lemma_discrete_preferred(devices: Seq<DeviceProfile>, s: SelectedDevice, d: int)
    requires
        spec_selected(devices, s),
        0 <= d < devices.len(),
        spec_qualifies(devices[d]),
        devices[d].class == DeviceClass::DiscreteGpu,
        forall|k: int|
            0 <= k < devices.len() && devices[k].class != DeviceClass::DiscreteGpu
                ==> spec_local_gib(devices[k].heaps@, devices[k].heaps@.len() as int) < 500,
    ensures
        devices[s.index as int].class == DeviceClass::DiscreteGpu,
        forall|k: int|
            0 <= k < devices.len() && spec_qualifies(devices[k]) && devices[k].class
                == DeviceClass::DiscreteGpu ==> spec_local_gib(
                devices[k].heaps@,
                devices[k].heaps@.len() as int,
            ) <= spec_local_gib(
                devices[s.index as int].heaps@,
                devices[s.index as int].heaps@.len() as int,
            ),
{
    let w = s.index as int;
    lemma_local_gib_monotonic(devices[d].heaps@, 0, devices[d].heaps@.len() as int);
    assert(spec_score(devices[d]) >= 1000);
    assert(spec_score(devices[w]) >= spec_score(devices[d]));
    if devices[w].class != DeviceClass::DiscreteGpu {
        assert(spec_class_score(devices[w].class) <= 500);
        assert(spec_score(devices[w]) < 1000);
    }
    assert forall|k: int|
        0 <= k < devices.len() && spec_qualifies(devices[k]) && devices[k].class
            == DeviceClass::DiscreteGpu implies spec_local_gib(
        devices[k].heaps@,
        devices[k].heaps@.len() as int,
    ) <= spec_local_gib(
        devices[w].heaps@,
        devices[w].heaps@.len() as int,
    ) by {
        assert(spec_score(devices[k]) <= spec_score(devices[w]));
    }
}

} // verus!
