//! Queue-family and physical-device selection over the properties the
//! driver reports.

use vstd::prelude::*;

use crate::swapchain::SwapChainSupportDetails;

verus! {

/// What one queue family supports for this renderer.
#[derive(Clone, Copy, PartialEq, Eq, Structural, Debug)]
pub struct QueueFamilyProps {
    pub supports_graphics: bool,
    pub supports_present: bool,
}

/// A family that can both draw and present.
pub open spec fn family_suitable(f: QueueFamilyProps) -> bool {
    f.supports_graphics && f.supports_present
}

/// The chosen queue families and, once the device exists, their queue
/// handles (raw 64-bit handles, 0 until filled in).
pub struct QueueFamilyIndices {
    pub graphics_family: Option<u32>,
    pub graphics_queue: u64,
    pub present_family: Option<u32>,
    pub present_queue: u64,
}

impl QueueFamilyIndices {
    /// Both families have been found.
    pub open spec fn spec_complete(&self) -> bool {
        self.graphics_family is Some && self.present_family is Some
    }

    /// Runtime test of the same condition.
    pub fn is_complete(&self) -> (r: bool)
        ensures
            r == self.spec_complete(),
    {
        self.graphics_family.is_some() && self.present_family.is_some()
    }

    /// The distinct queue families in use: one entry where graphics and
    /// present share a family, two otherwise.
    pub fn get_unique_queues(&self) -> (r: Vec<u32>)
        requires
            self.spec_complete(),
        ensures
            self.graphics_family == self.present_family ==> r@ == seq![
                self.graphics_family->0,
            ],
            self.graphics_family != self.present_family ==> r@ == seq![
                self.graphics_family->0,
                self.present_family->0,
            ],
    {
        let g = match self.graphics_family {
            Some(v) => v,
            None => 0,
        };
        let p = match self.present_family {
            Some(v) => v,
            None => 0,
        };
        let mut set: Vec<u32> = Vec::new();
        set.push(g);
        if p != g {
            set.push(p);
            assert(set@ =~= seq![g, p]);
        } else {
            assert(set@ =~= seq![g]);
        }
        set
    }
}

/// Finds the first queue family that supports both graphics and
/// presentation and selects it for both roles.  The caller must know one
/// exists; a device without one is unsuitable and never reaches here.
pub fn find_queue_families(families: &Vec<QueueFamilyProps>) -> (r: QueueFamilyIndices)
    requires
        families@.len() <= u32::MAX,
        exists|i: int| 0 <= i < families@.len() && family_suitable(#[trigger] families@[i]),
    ensures
        r.spec_complete(),
        r.graphics_family == r.present_family,
        exists|i: int|
            {
                &&& 0 <= i < families@.len()
                &&& family_suitable(#[trigger] families@[i])
                &&& r.graphics_family == Some(i as u32)
                &&& forall|j: int| 0 <= j < i ==> !family_suitable(#[trigger] families@[j])
            },
        r.graphics_queue == 0 && r.present_queue == 0,
{
    let n = families.len();
    let mut i: usize = 0;
    while i < n
        invariant
            n == families@.len(),
            i <= n,
            n <= u32::MAX,
            exists|k: int| 0 <= k < n && family_suitable(#[trigger] families@[k]),
            forall|j: int| 0 <= j < i ==> !family_suitable(#[trigger] families@[j]),
        decreases n - i,
    {
        let f = families[i];
        if f.supports_graphics && f.supports_present {
            return QueueFamilyIndices {
                graphics_family: Some(i as u32),
                graphics_queue: 0,
                present_family: Some(i as u32),
                present_queue: 0,
            };
        }
        i = i + 1;
    }
    proof {
        assert(false);
    }
    QueueFamilyIndices {
        graphics_family: None,
        graphics_queue: 0,
        present_family: None,
        present_queue: 0,
    }
}

/// Everything queried from one physical device before choosing it.
pub struct DeviceInfo {
    pub families: Vec<QueueFamilyProps>,
    pub extensions_supported: bool,
    pub swapchain_support: SwapChainSupportDetails,
}

impl DeviceInfo {
    /// The device can draw and present, has the required extensions, and
    /// offers at least one surface format and present mode.
    pub open spec fn spec_suitable(&self) -> bool {
        &&& exists|i: int| 0 <= i < self.families@.len() && family_suitable(
            #[trigger] self.families@[i],
        )
        &&& self.extensions_supported
        &&& self.swapchain_support.spec_complete()
    }
}

/// Whether a device is usable by this renderer.
pub fn is_device_suitable(info: &DeviceInfo) -> (r: bool)
    ensures
        r == info.spec_suitable(),
{
    let n = info.families.len();
    let mut i: usize = 0;
    let mut has_family = false;
    while i < n
        invariant
            n == info.families@.len(),
            i <= n,
            has_family == exists|k: int| 0 <= k < i && family_suitable(
                #[trigger] info.families@[k],
            ),
        decreases n - i,
    {
        let f = info.families[i];
        if f.supports_graphics && f.supports_present {
            assert(family_suitable(info.families@[i as int]));
            has_family = true;
        }
        i = i + 1;
    }
    has_family && info.extensions_supported && info.swapchain_support.is_complete()
}

/// Picks the first suitable device, if any.
pub fn init_physical_device_and_queue_families(devices: &Vec<DeviceInfo>) -> (r: Option<usize>)
    ensures
        r matches Some(d) ==> {
            &&& 0 <= d < devices@.len()
            &&& devices@[d as int].spec_suitable()
            &&& forall|j: int| 0 <= j < d ==> !(#[trigger] devices@[j]).spec_suitable()
        },
        r is None ==> forall|j: int|
            0 <= j < devices@.len() ==> !(#[trigger] devices@[j]).spec_suitable(),
{
    let n = devices.len();
    let mut i: usize = 0;
    while i < n
        invariant
            n == devices@.len(),
            i <= n,
            forall|j: int| 0 <= j < i ==> !(#[trigger] devices@[j]).spec_suitable(),
        decreases n - i,
    {
        if is_device_suitable(&devices[i]) {
            return Some(i);
        }
        i = i + 1;
    }
    None
}

} // verus!
