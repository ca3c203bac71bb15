//! Choosing a device, and describing devices and failures.

use crate::bytes::{before_zero, decode_lossy, take_before_zero, utf8_lossy};
use crate::renderer::surface::Error;
use vstd::prelude::*;
use vstd::string::StringExecFns;

verus! {

/// Work on graphics (`VkQueueFlagBits`).
pub const QUEUE_GRAPHICS: u32 = 0x1;

/// Work on computation (`VkQueueFlagBits`).
pub const QUEUE_COMPUTE: u32 = 0x2;

/// A device that shares the host's memory (`VkPhysicalDeviceType`).
pub const TYPE_INTEGRATED_GPU: i32 = 1;

/// A device of its own (`VkPhysicalDeviceType`).
pub const TYPE_DISCRETE_GPU: i32 = 2;

/// A device inside a virtual machine (`VkPhysicalDeviceType`).
pub const TYPE_VIRTUAL_GPU: i32 = 3;

/// The host's processor (`VkPhysicalDeviceType`).
pub const TYPE_CPU: i32 = 4;

/// What kind of device runs the renderer.
#[derive(Clone, Copy, PartialEq, Eq, Structural, Debug)]
pub enum DeviceKind {
    IntegratedGpu,
    DiscreteGpu,
    VirtualGpu,
    /// A software implementation, useful where there is no real device.
    Cpu,
    Other,
}

/// A device that could be used.
#[derive(Clone, Debug)]
pub struct PhysicalDeviceInfo {
    pub name: String,
    pub kind: DeviceKind,
}

/// A queue family of a device, each by its place in the order reported.
#[derive(Clone, Copy, PartialEq, Eq, Structural, Debug)]
pub struct QueueChoice {
    pub device: usize,
    pub family: u32,
}

/// The kind of a device of a reported type.
pub open spec fn kind_of(device_type: i32) -> DeviceKind {
    if device_type == TYPE_INTEGRATED_GPU {
        DeviceKind::IntegratedGpu
    } else if device_type == TYPE_DISCRETE_GPU {
        DeviceKind::DiscreteGpu
    } else if device_type == TYPE_VIRTUAL_GPU {
        DeviceKind::VirtualGpu
    } else if device_type == TYPE_CPU {
        DeviceKind::Cpu
    } else {
        DeviceKind::Other
    }
}

impl DeviceKind {
    /// The kind of a device of a reported type.
    pub fn from_device_type(device_type: i32) -> (kind: DeviceKind)
        ensures
            kind == kind_of(device_type),
    {
        if device_type == TYPE_INTEGRATED_GPU {
            DeviceKind::IntegratedGpu
        } else if device_type == TYPE_DISCRETE_GPU {
            DeviceKind::DiscreteGpu
        } else if device_type == TYPE_VIRTUAL_GPU {
            DeviceKind::VirtualGpu
        } else if device_type == TYPE_CPU {
            DeviceKind::Cpu
        } else {
            DeviceKind::Other
        }
    }
}

impl PhysicalDeviceInfo {
    /// Describes a device. Its name fills `name_field` up to a zero byte.
    pub fn describe(name_field: &[u8], device_type: i32) -> (info: PhysicalDeviceInfo)
        ensures
            info.name@ == utf8_lossy(before_zero(name_field@)),
            info.kind == kind_of(device_type),
    {
        let name = take_before_zero(name_field);
        PhysicalDeviceInfo {
            name: decode_lossy(name.as_slice()),
            kind: DeviceKind::from_device_type(device_type),
        }
    }
}

/// `ash::vk::QueueFlags::contains`, on the flags' raw values: whether every
/// bit of `wanted` is set in `flags`.
#[verifier::external_body]
fn queue_flags_contain(flags: u32, wanted: u32) -> (yes: bool)
    ensures
        yes == (flags & wanted == wanted),
{
    ash::vk::QueueFlags::from_raw(flags).contains(ash::vk::QueueFlags::from_raw(wanted))
}

/// Whether a queue family with these flags does both graphics and compute.
pub open spec fn does_both(flags: u32) -> bool {
    flags & QUEUE_GRAPHICS == QUEUE_GRAPHICS && flags & QUEUE_COMPUTE == QUEUE_COMPUTE
}

/// The first family that does both, at or after `from`.
pub open spec fn first_family(families: Seq<u32>, from: int) -> Option<int>
    decreases families.len() - from,
{
    if from >= families.len() {
        None
    } else if does_both(families[from]) {
        Some(from)
    } else {
        first_family(families, from + 1)
    }
}

/// The first device with such a family, at or after `from`, and the first
/// such family it has.
pub open spec fn first_choice(devices: Seq<Vec<u32>>, from: int) -> Option<(int, int)>
    decreases devices.len() - from,
{
    if from >= devices.len() {
        None
    } else if first_family(devices[from]@, 0) is Some {
        Some((from, first_family(devices[from]@, 0)->0))
    } else {
        first_choice(devices, from + 1)
    }
}

proof fn lemma_both_flags(flags: u32)
    ensures
        (flags & 3u32 == 3u32) == does_both(flags),
{
    assert((flags & 3u32 == 3u32) == (flags & 0x1u32 == 0x1u32 && flags & 0x2u32 == 0x2u32))
        by (bit_vector);
}

fn find_family(families: &Vec<u32>) -> (index: Option<usize>)
    ensures
        match index {
            Some(i) => i < families@.len() && first_family(families@, 0) == Some(i as int),
            None => first_family(families@, 0) is None,
        },
{
    let wanted: u32 = QUEUE_GRAPHICS | QUEUE_COMPUTE;
    assert(0x1u32 | 0x2u32 == 3u32) by (bit_vector);
    let mut i: usize = 0;
    while i < families.len()
        invariant
            i <= families.len(),
            wanted == 3,
            first_family(families@, 0) == first_family(families@, i as int),
        decreases families.len() - i,
    {
        proof {
            lemma_both_flags(families@[i as int]);
        }
        if queue_flags_contain(families[i], wanted) {
            return Some(i);
        }
        i += 1;
    }
    None
}

/// Chooses the first device with a queue family for both graphics and
/// compute, given the flags of each device's families.
pub fn choose_queue(devices: &Vec<Vec<u32>>) -> (choice: Result<QueueChoice, Error>)
    requires
        forall|i: int| 0 <= i < devices@.len() ==> (#[trigger] devices@[i])@.len() <= u32::MAX,
    ensures
        match choice {
            Ok(c) => first_choice(devices@, 0) == Some((c.device as int, c.family as int)),
            Err(e) => first_choice(devices@, 0) is None && e is NoSuitableDevice,
        },
{
    let mut i: usize = 0;
    while i < devices.len()
        invariant
            i <= devices.len(),
            forall|j: int| 0 <= j < devices@.len() ==> (#[trigger] devices@[j])@.len() <= u32::MAX,
            first_choice(devices@, 0) == first_choice(devices@, i as int),
        decreases devices.len() - i,
    {
        assert(devices@[i as int]@.len() <= u32::MAX);
        if let Some(family) = find_family(&devices[i]) {
            return Ok(QueueChoice { device: i, family: family as u32 });
        }
        i += 1;
    }
    Err(Error::NoSuitableDevice)
}

proof fn lemma_first_family(families: Seq<u32>, from: int)
    requires
        0 <= from,
    ensures
        match first_family(families, from) {
            Some(f) => from <= f < families.len() && does_both(families[f]) && forall|i: int|
                from <= i < f ==> !does_both(#[trigger] families[i]),
            None => forall|i: int| from <= i < families.len() ==> !does_both(#[trigger] families[i]),
        },
    decreases families.len() - from,
{
    if from < families.len() && !does_both(families[from]) {
        lemma_first_family(families, from + 1);
    }
}

proof fn lemma_first_choice(devices: Seq<Vec<u32>>, from: int)
    requires
        0 <= from,
    ensures
        match first_choice(devices, from) {
            Some((d, f)) => from <= d < devices.len() && first_family(devices[d]@, 0) == Some(f)
                && forall|i: int|
                from <= i < d ==> first_family((#[trigger] devices[i])@, 0) is None,
            None => forall|i: int|
                from <= i < devices.len() ==> first_family((#[trigger] devices[i])@, 0) is None,
        },
    decreases devices.len() - from,
{
    if from < devices.len() && first_family(devices[from]@, 0) is None {
        lemma_first_choice(devices, from + 1);
    }
}

/// The choice does both, no earlier family of that device does, and neither
/// does any family of an earlier device. Only where no family of any device
/// does both is there no choice.
pub proof fn the_first_suitable_device_is_chosen(devices: Seq<Vec<u32>>)
    ensures
        match first_choice(devices, 0) {
            Some((d, f)) => {
                &&& 0 <= d < devices.len()
                &&& 0 <= f < devices[d]@.len()
                &&& does_both(devices[d]@[f])
                &&& forall|i: int| 0 <= i < f ==> !does_both(#[trigger] devices[d]@[i])
                &&& forall|i: int, j: int|
                    0 <= i < d && 0 <= j < devices[i]@.len() ==> !does_both(
                        #[trigger] devices[i]@[j],
                    )
            },
            None => forall|i: int, j: int|
                0 <= i < devices.len() && 0 <= j < devices[i]@.len() ==> !does_both(
                    #[trigger] devices[i]@[j],
                ),
        },
{
    lemma_first_choice(devices, 0);
    assert forall|i: int, j: int|
        0 <= i < devices.len() && first_family(devices[i]@, 0) is None && 0 <= j
            < devices[i]@.len() implies !does_both(#[trigger] devices[i]@[j]) by {
        lemma_first_family(devices[i]@, 0);
    }
    if let Some((d, f)) = first_choice(devices, 0) {
        lemma_first_family(devices[d]@, 0);
    }
}

/// Whether memory of this kind can be used: it is among the kinds that are
/// allowed, and has every property that is wanted.
pub open spec fn memory_fits(properties: u32, kind: int, allowed: u32, wanted: u32) -> bool {
    (allowed >> kind as u32) & 1 == 1 && properties & wanted == wanted
}

/// Whether a kind of memory is the first that can be used, or there is none.
pub open spec fn is_first_fit(kinds: Seq<u32>, allowed: u32, wanted: u32, kind: Option<u32>) -> bool {
    match kind {
        Some(k) => {
            &&& k < kinds.len()
            &&& memory_fits(kinds[k as int], k as int, allowed, wanted)
            &&& forall|i: int| 0 <= i < k ==> !memory_fits(#[trigger] kinds[i], i, allowed, wanted)
        },
        None => forall|i: int|
            0 <= i < kinds.len() ==> !memory_fits(#[trigger] kinds[i], i, allowed, wanted),
    }
}

/// The first kind of memory that can be used, given the properties of each.
pub fn choose_memory_kind(kinds: &Vec<u32>, allowed: u32, wanted: u32) -> (kind: Option<u32>)
    requires
        kinds@.len() <= 32,
    ensures
        is_first_fit(kinds@, allowed, wanted, kind),
{
    let mut i: usize = 0;
    while i < kinds.len()
        invariant
            i <= kinds@.len() <= 32,
            forall|j: int| 0 <= j < i ==> !memory_fits(#[trigger] kinds@[j], j, allowed, wanted),
        decreases kinds.len() - i,
    {
        if (allowed >> (i as u32)) & 1 == 1 && kinds[i] & wanted == wanted {
            return Some(i as u32);
        }
        i += 1;
    }
    None
}

/// What `ash` says of a result code.
pub uninterp spec fn vulkan_result_text(code: i32) -> Seq<char>;

/// The `Display` of `ash::vk::Result`: a sentence about the codes it knows,
/// and otherwise the code's name or number.
#[verifier::external_body]
fn describe_result(code: i32) -> (s: String)
    ensures
        s@ == vulkan_result_text(code),
{
    format!("{}", ash::vk::Result::from_raw(code))
}

impl Error {
    /// The sentence for this error, given what is said of its result code.
    pub open spec fn sentence(self, code_text: Seq<char>) -> Seq<char> {
        match self {
            Error::Loading(reason) => "failed to load the Vulkan library: "@ + reason@,
            Error::Vulkan(_) => "Vulkan call failed: "@ + code_text,
            Error::NoSuitableDevice =>
                "no physical device with a graphics+compute queue family was found"@,
        }
    }

    /// The sentence for this error, given what is said of its result code.
    pub fn message_with(&self, code_text: &str) -> (s: String)
        ensures
            s@ == self.sentence(code_text@),
    {
        match self {
            Error::Loading(reason) => {
                let mut s = "failed to load the Vulkan library: ".to_string();
                s.append(reason.as_str());
                s
            },
            Error::Vulkan(_) => {
                let mut s = "Vulkan call failed: ".to_string();
                s.append(code_text);
                s
            },
            Error::NoSuitableDevice => "no physical device with a graphics+compute queue family was found".to_string(),
        }
    }

    /// The sentence for this error.
    pub fn message(&self) -> (s: String)
        ensures
            s@ == self.sentence(
                match *self {
                    Error::Vulkan(code) => vulkan_result_text(code),
                    _ => Seq::empty(),
                },
            ),
    {
        match self {
            Error::Vulkan(code) => {
                let text = describe_result(*code);
                self.message_with(text.as_str())
            },
            _ => {
                let text = String::new();
                self.message_with(text.as_str())
            },
        }
    }
}

} // verus!
