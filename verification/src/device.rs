//! Adapter selection and the teardown order of the device context.
//!
//! The context selects, among the adapters that support the required
//! extensions and offer a queue family doing both graphics and
//! presentation, the one with the most preferred device type: discrete
//! before integrated before virtual before CPU before anything else, the
//! earliest listed winning ties.  No qualifying adapter is a fatal
//! startup condition, reported as `None`.  On shutdown, teardown follows
//! a strict order after a device-idle wait.

use vstd::prelude::*;

verus! {

/// The kind of adapter, in decreasing order of preference.
#[derive(Debug, Clone, Copy, PartialEq, Eq, Structural)]
pub enum DeviceType {
    DiscreteGpu,
    IntegratedGpu,
    VirtualGpu,
    Cpu,
    Other,
}

/// What one queue family of an adapter supports.
#[derive(Debug, Clone, Copy, PartialEq, Eq, Structural)]
pub struct QueueFamilyInfo {
    pub supports_graphics: bool,
    pub supports_surface: bool,
}

/// What the selection needs to know of one adapter.
#[derive(Debug)]
pub struct AdapterInfo {
    pub device_type: DeviceType,
    pub supports_required_extensions: bool,
    pub queue_families: Vec<QueueFamilyInfo>,
}

/// The preference rank of a device type; lower is better.
pub open spec fn device_type_score(t: DeviceType) -> int {
    match t {
        DeviceType::DiscreteGpu => 0,
        DeviceType::IntegratedGpu => 1,
        DeviceType::VirtualGpu => 2,
        DeviceType::Cpu => 3,
        DeviceType::Other => 4,
    }
}

/// A family usable as the single graphics-and-present queue.
pub open spec fn family_suitable(f: QueueFamilyInfo) -> bool {
    f.supports_graphics && f.supports_surface
}

/// An adapter qualifies when it has the required extensions and some
/// suitable queue family.
pub open spec fn adapter_qualifies(a: AdapterInfo) -> bool {
    &&& a.supports_required_extensions
    &&& exists|i: int| 0 <= i < a.queue_families@.len() && family_suitable(a.queue_families@[i])
}

/// The first queue family supporting both graphics and presentation.
pub fn find_queue_family(families: &Vec<QueueFamilyInfo>) -> (r: Option<usize>)
    ensures
        match r {
            Some(i) => {
                &&& i < families@.len()
                &&& family_suitable(families@[i as int])
                &&& forall|j: int| 0 <= j < i ==> !family_suitable(families@[j])
            },
            None => forall|j: int| 0 <= j < families@.len() ==> !family_suitable(families@[j]),
        },
{
    let n = families.len();
    let mut i: usize = 0;
    while i < n
        invariant
            n == families@.len(),
            i <= n,
            forall|j: int| 0 <= j < i ==> !family_suitable(families@[j]),
        decreases n - i,
    {
        let f = &families[i];
        if f.supports_graphics && f.supports_surface {
            return Some(i);
        }
        i = i + 1;
    }
    None
}

/// Select the adapter and queue family to create the device on: the
/// earliest adapter with the best preference rank among those that
/// qualify, together with its first suitable queue family.  `None` means
/// no adapter qualifies, which is fatal to the caller.
pub fn select_physical_device(adapters: &Vec<AdapterInfo>) -> (r: Option<(usize, usize)>)
    ensures
        match r {
            Some((a, f)) => {
                &&& a < adapters@.len()
                &&& adapter_qualifies(adapters@[a as int])
                &&& f < adapters@[a as int].queue_families@.len()
                &&& family_suitable(adapters@[a as int].queue_families@[f as int])
                &&& forall|g: int|
                    0 <= g < f ==> !family_suitable(adapters@[a as int].queue_families@[g])
                &&& forall|j: int|
                    0 <= j < adapters@.len() && adapter_qualifies(#[trigger] adapters@[j])
                        ==> device_type_score(adapters@[a as int].device_type) <= device_type_score(
                        adapters@[j].device_type,
                    )
                &&& forall|j: int|
                    0 <= j < a && adapter_qualifies(#[trigger] adapters@[j]) ==> device_type_score(
                        adapters@[j].device_type,
                    ) > device_type_score(adapters@[a as int].device_type)
            },
            None => forall|j: int|
                0 <= j < adapters@.len() ==> !adapter_qualifies(#[trigger] adapters@[j]),
        },
{
    let n = adapters.len();
    let mut best: Option<(usize, usize)> = None;
    let mut best_score: u32 = 0;
    let mut i: usize = 0;
    while i < n
        invariant
            n == adapters@.len(),
            i <= n,
            match best {
                Some((a, f)) => {
                    &&& a < i
                    &&& adapter_qualifies(adapters@[a as int])
                    &&& f < adapters@[a as int].queue_families@.len()
                    &&& family_suitable(adapters@[a as int].queue_families@[f as int])
                    &&& forall|g: int|
                        0 <= g < f ==> !family_suitable(adapters@[a as int].queue_families@[g])
                    &&& best_score == device_type_score(adapters@[a as int].device_type)
                    &&& forall|j: int|
                        0 <= j < i && adapter_qualifies(#[trigger] adapters@[j]) ==> best_score
                            <= device_type_score(adapters@[j].device_type)
                    &&& forall|j: int|
                        0 <= j < a && adapter_qualifies(#[trigger] adapters@[j])
                            ==> device_type_score(adapters@[j].device_type) > best_score
                },
                None => forall|j: int|
                    0 <= j < i ==> !adapter_qualifies(#[trigger] adapters@[j]),
            },
        decreases n - i,
    {
        let adapter = &adapters[i];
        if adapter.supports_required_extensions {
            match find_queue_family(&adapter.queue_families) {
                Some(family) => {
                    let score: u32 = match adapter.device_type {
                        DeviceType::DiscreteGpu => 0,
                        DeviceType::IntegratedGpu => 1,
                        DeviceType::VirtualGpu => 2,
                        DeviceType::Cpu => 3,
                        DeviceType::Other => 4,
                    };
                    let replace = match best {
                        Some(_) => score < best_score,
                        None => true,
                    };
                    if replace {
                        best = Some((i, family));
                        best_score = score;
                    }
                },
                None => {},
            }
        }
        i = i + 1;
    }
    best
}

/// One step of the context's shutdown sequence.
#[derive(Debug, Clone, Copy, PartialEq, Eq, Structural)]
pub enum TeardownStep {
    WaitIdle,
    DestroySemaphores,
    DestroyFences,
    DestroyImageViews,
    DestroyCommandPool,
    DestroyDevice,
    DestroyInstance,
}

/// The only safe shutdown order: wait for the device to go idle, then
/// destroy in strict reverse-creation order — semaphores and fences, the
/// image views, the command pool, the device, and last the instance.
pub open spec fn teardown_order() -> Seq<TeardownStep> {
    seq![
        TeardownStep::WaitIdle,
        TeardownStep::DestroySemaphores,
        TeardownStep::DestroyFences,
        TeardownStep::DestroyImageViews,
        TeardownStep::DestroyCommandPool,
        TeardownStep::DestroyDevice,
        TeardownStep::DestroyInstance,
    ]
}

/// The shutdown sequence the caller must execute, in order.
pub fn teardown_plan() -> (r: Vec<TeardownStep>)
    ensures
        r@ == teardown_order(),
{
    let mut r: Vec<TeardownStep> = Vec::new();
    r.push(TeardownStep::WaitIdle);
    r.push(TeardownStep::DestroySemaphores);
    r.push(TeardownStep::DestroyFences);
    r.push(TeardownStep::DestroyImageViews);
    r.push(TeardownStep::DestroyCommandPool);
    r.push(TeardownStep::DestroyDevice);
    r.push(TeardownStep::DestroyInstance);
    proof {
        assert(r@ =~= teardown_order());
    }
    r
}

} // verus!
