//! The choice of the physical device and of its queue family, from what the
//! backend reports of each device.

use vstd::prelude::*;
use crate::error::SuitabilityError;
use crate::vulkan::{
    bit_set, supports_compute, supports_graphics, supports_sparse_binding, supports_transfer,
    unpack_version, unpacked_version, ApiVersion,
};

verus! {

/// A family of queues of a physical device.
#[derive(Clone, Copy, Debug, PartialEq, Eq, Structural)]
pub struct QueueFamily {
    /// The capability bits of the family.
    pub flags: u32,
    /// The number of queues in the family.
    pub queue_count: u32,
    /// Whether the family can present to the surface.
    pub presents: bool,
}

/// What the backend reports of a physical device.
pub struct PhysicalDevice {
    /// The backend's number for the kind of device.
    pub device_type: i32,
    /// The packed version of the API that the device speaks.
    pub api_version: u32,
    /// The names of the extensions that the device has.
    pub extensions: Vec<Vec<u8>>,
    pub queue_families: Vec<QueueFamily>,
    /// How many formats the surface offers on this device.
    pub format_count: usize,
    /// How many present modes the surface offers on this device.
    pub present_mode_count: usize,
}

/// A line of the table of queue families: the queues and, for each
/// capability, `+` where the family has it and `-` where not.
#[derive(Clone, Copy, Debug, PartialEq, Eq, Structural)]
pub struct QueueFamilyRow {
    pub queue_count: u32,
    pub graphics: char,
    pub compute: char,
    pub transfer: char,
    pub sparse_binding: char,
}

/// What is told of the device that was chosen.
pub struct DeviceReport {
    pub device_type: &'static str,
    pub api_version: ApiVersion,
    pub queue_families: Vec<QueueFamilyRow>,
    pub graphics_queue: u32,
    pub format_count: usize,
    pub present_mode_count: usize,
}

/// The name of the swapchain extension, which every device must have.
pub open spec fn swapchain_extension() -> Seq<u8> {
    seq![
        0x56u8, 0x4B, 0x5F, 0x4B, 0x48, 0x52, 0x5F, 0x73, 0x77, 0x61, 0x70, 0x63, 0x68, 0x61,
        0x69, 0x6E,
    ]
}

/// Whether the family renders and presents.
pub open spec fn renders_and_presents(family: QueueFamily) -> bool {
    bit_set(family.flags, 0) && family.presents
}

/// Whether `index` is a family of `families` that renders and presents, at
/// an index that a `u32` can hold.
pub open spec fn is_graphics_queue(families: Seq<QueueFamily>, index: int) -> bool {
    &&& 0 <= index < families.len()
    &&& index <= u32::MAX
    &&& renders_and_presents(families[index])
}

/// Whether `names` holds `name`.
pub open spec fn has_extension(names: Seq<Vec<u8>>, name: Seq<u8>) -> bool {
    exists|i: int| 0 <= i < names.len() && (#[trigger] names[i])@ == name
}

/// Whether `available` holds every name of `required`.
pub open spec fn has_extensions(available: Seq<Vec<u8>>, required: Seq<Vec<u8>>) -> bool {
    forall|i: int| 0 <= i < required.len() ==> has_extension(available, (#[trigger] required[i])@)
}

/// Whether a device can be rendered with: it has the extensions asked for,
/// the surface offers a format and a present mode on it, and one of its
/// queue families renders and presents.
pub open spec fn suitable(device: PhysicalDevice, required: Seq<Vec<u8>>) -> bool {
    &&& has_extensions(device.extensions@, required)
    &&& device.format_count > 0
    &&& device.present_mode_count > 0
    &&& exists|index: int| is_graphics_queue(device.queue_families@, index)
}

/// The words for the backend's number of a kind of device, where it is one
/// of the five kinds.
pub open spec fn device_type_words(device_type: i32) -> Option<Seq<char>> {
    if device_type == 0 {
        Some("Unknown"@)
    } else if device_type == 1 {
        Some("Integrated GPU"@)
    } else if device_type == 2 {
        Some("Discrete GPU"@)
    } else if device_type == 3 {
        Some("Virtual GPU"@)
    } else if device_type == 4 {
        Some("CPU"@)
    } else {
        None
    }
}

/// `+` for a capability that is there and `-` for one that is not.
pub open spec fn mark(present: bool) -> char {
    if present {
        '+'
    } else {
        '-'
    }
}

/// The line of the table for `family`.
pub open spec fn row_of(family: QueueFamily) -> QueueFamilyRow {
    QueueFamilyRow {
        queue_count: family.queue_count,
        graphics: mark(bit_set(family.flags, 0)),
        compute: mark(bit_set(family.flags, 1)),
        transfer: mark(bit_set(family.flags, 2)),
        sparse_binding: mark(bit_set(family.flags, 3)),
    }
}

fn mark_of(present: bool) -> (c: char)
    ensures
        c == mark(present),
{
    if present {
        '+'
    } else {
        '-'
    }
}

/// Whether two names are the same bytes.
pub fn same_name(a: &Vec<u8>, b: &Vec<u8>) -> (same: bool)
    ensures
        same == (a@ == b@),
{
    if a.len() != b.len() {
        return false;
    }
    let mut i: usize = 0;
    while i < a.len()
        invariant
            i <= a@.len(),
            a@.len() == b@.len(),
            forall|j: int| 0 <= j < i ==> a@[j] == b@[j],
        decreases a@.len() - i,
    {
        if a[i] != b[i] {
            return false;
        }
        i += 1;
    }
    proof {
        assert(a@ =~= b@);
    }
    true
}

/// Whether the device has the extension `name`.
pub fn has_extension_named(available: &Vec<Vec<u8>>, name: &Vec<u8>) -> (found: bool)
    ensures
        found == has_extension(available@, name@),
{
    let mut i: usize = 0;
    while i < available.len()
        invariant
            i <= available@.len(),
            forall|j: int| 0 <= j < i ==> (#[trigger] available@[j])@ != name@,
        decreases available@.len() - i,
    {
        if same_name(&available[i], name) {
            return true;
        }
        i += 1;
    }
    false
}

/// Whether the device has every extension that is asked for.
pub fn check_physical_device_extensions(available: &Vec<Vec<u8>>, required: &Vec<Vec<u8>>) -> (ok:
    bool)
    ensures
        ok == has_extensions(available@, required@),
{
    let mut i: usize = 0;
    while i < required.len()
        invariant
            i <= required@.len(),
            forall|j: int| 0 <= j < i ==> has_extension(available@, (#[trigger] required@[j])@),
        decreases required@.len() - i,
    {
        if !has_extension_named(available, &required[i]) {
            return false;
        }
        i += 1;
    }
    true
}

/// Finds the queue family to render and present with: of the families that
/// do both, the last. A device without one is not suitable.
pub fn find_graphics_queue(families: &Vec<QueueFamily>) -> (result: Result<u32, SuitabilityError>)
    ensures
        match result {
            Ok(index) => {
                &&& is_graphics_queue(families@, index as int)
                &&& forall|later: int| index < later ==> !is_graphics_queue(families@, later)
            },
            Err(error) => {
                &&& error == SuitabilityError::NoGraphicsQueue
                &&& forall|index: int| !is_graphics_queue(families@, index)
            },
        },
{
    let mut graphics: Option<u32> = None;
    let mut i: usize = 0;
    while i < families.len() && i <= 0xFFFF_FFFF
        invariant
            i <= families@.len(),
            i <= 0x1_0000_0000,
            match graphics {
                Some(index) => {
                    &&& index < i
                    &&& is_graphics_queue(families@, index as int)
                    &&& forall|later: int|
                        index < later < i ==> !is_graphics_queue(families@, later)
                },
                None => forall|index: int| 0 <= index < i ==> !is_graphics_queue(families@, index),
            },
        decreases families@.len() - i,
    {
        let family = families[i];
        if supports_graphics(family.flags) && family.presents {
            graphics = Some(i as u32);
        }
        i += 1;
    }
    match graphics {
        Some(index) => Ok(index),
        None => Err(SuitabilityError::NoGraphicsQueue),
    }
}

/// Whether the device can be rendered with.
pub fn is_physical_device_suitable(device: &PhysicalDevice, required: &Vec<Vec<u8>>) -> (ok: bool)
    ensures
        ok == suitable(*device, required@),
{
    if !check_physical_device_extensions(&device.extensions, required) {
        return false;
    }
    if device.format_count == 0 || device.present_mode_count == 0 {
        return false;
    }
    find_graphics_queue(&device.queue_families).is_ok()
}

/// Picks the device to render with: the first that is suitable. Where none
/// is, rendering cannot start.
pub fn pick_physical_device(devices: &Vec<PhysicalDevice>, required: &Vec<Vec<u8>>) -> (result:
    Result<usize, SuitabilityError>)
    ensures
        match result {
            Ok(index) => {
                &&& index < devices@.len()
                &&& suitable(devices@[index as int], required@)
                &&& forall|earlier: int|
                    0 <= earlier < index ==> !suitable(#[trigger] devices@[earlier], required@)
            },
            Err(error) => {
                &&& error == SuitabilityError::NoSuitableDevice
                &&& forall|index: int|
                    0 <= index < devices@.len() ==> !suitable(
                        #[trigger] devices@[index],
                        required@,
                    )
            },
        },
{
    let mut i: usize = 0;
    while i < devices.len()
        invariant
            i <= devices@.len(),
            forall|earlier: int|
                0 <= earlier < i ==> !suitable(#[trigger] devices@[earlier], required@),
        decreases devices@.len() - i,
    {
        if is_physical_device_suitable(&devices[i], required) {
            return Ok(i);
        }
        i += 1;
    }
    Err(SuitabilityError::NoSuitableDevice)
}

/// The words for the backend's number of a kind of device, or nothing for
/// a number that is none of the five kinds.
pub fn device_type_name(device_type: i32) -> (name: Option<&'static str>)
    ensures
        match name {
            Some(words) => device_type_words(device_type) == Some(words@),
            None => device_type_words(device_type) is None,
        },
{
    match device_type {
        0 => Some("Unknown"),
        1 => Some("Integrated GPU"),
        2 => Some("Discrete GPU"),
        3 => Some("Virtual GPU"),
        4 => Some("CPU"),
        _ => None,
    }
}

/// The line of the table of queue families for `family`.
pub fn describe_queue_family(family: &QueueFamily) -> (row: QueueFamilyRow)
    ensures
        row == row_of(*family),
{
    QueueFamilyRow {
        queue_count: family.queue_count,
        graphics: mark_of(supports_graphics(family.flags)),
        compute: mark_of(supports_compute(family.flags)),
        transfer: mark_of(supports_transfer(family.flags)),
        sparse_binding: mark_of(supports_sparse_binding(family.flags)),
    }
}

/// What is told of a device: its kind in words, its API version unpacked,
/// a line for each queue family, the queue family that renders and
/// presents, and how many formats and present modes the surface offers.
/// There is nothing to tell of a device of no known kind or without such a
/// queue family.
pub fn print_device_information(device: &PhysicalDevice) -> (report: Option<DeviceReport>)
    ensures
        report is Some <==> device_type_words(device.device_type) is Some && exists|index: int|
            is_graphics_queue(device.queue_families@, index),
        report matches Some(told) ==> {
            &&& Some(told.device_type@) == device_type_words(device.device_type)
            &&& told.api_version == unpacked_version(device.api_version)
            &&& told.queue_families@ == device.queue_families@.map_values(
                |family: QueueFamily| row_of(family),
            )
            &&& is_graphics_queue(device.queue_families@, told.graphics_queue as int)
            &&& forall|later: int|
                told.graphics_queue < later ==> !is_graphics_queue(device.queue_families@, later)
            &&& told.format_count == device.format_count
            &&& told.present_mode_count == device.present_mode_count
        },
{
    let device_type = match device_type_name(device.device_type) {
        Some(words) => words,
        None => {
            return None;
        },
    };
    let graphics_queue = match find_graphics_queue(&device.queue_families) {
        Ok(index) => index,
        Err(_) => {
            return None;
        },
    };
    let mut rows: Vec<QueueFamilyRow> = Vec::new();
    let mut i: usize = 0;
    while i < device.queue_families.len()
        invariant
            i <= device.queue_families@.len(),
            rows@.len() == i,
            forall|j: int| 0 <= j < i ==> rows@[j] == row_of(device.queue_families@[j]),
        decreases device.queue_families@.len() - i,
    {
        rows.push(describe_queue_family(&device.queue_families[i]));
        i += 1;
    }
    proof {
        assert(rows@ =~= device.queue_families@.map_values(|family: QueueFamily| row_of(family)));
    }
    Some(
        DeviceReport {
            device_type,
            api_version: unpack_version(device.api_version),
            queue_families: rows,
            graphics_queue,
            format_count: device.format_count,
            present_mode_count: device.present_mode_count,
        },
    )
}

/// The device that rendering starts with, and its queue family.
#[derive(Clone, Copy, Debug, PartialEq, Eq, Structural)]
pub struct DeviceChoice {
    /// The index of the device among those reported.
    pub device: usize,
    /// The queue family that renders and presents.
    pub graphics_queue: u32,
}

/// The extensions that every device must have: the swapchain extension.
pub fn device_extensions() -> (names: Vec<Vec<u8>>)
    ensures
        names@.len() == 1,
        names@[0]@ == swapchain_extension(),
{
    let mut name: Vec<u8> = Vec::new();
    name.push(0x56);
    name.push(0x4B);
    name.push(0x5F);
    name.push(0x4B);
    name.push(0x48);
    name.push(0x52);
    name.push(0x5F);
    name.push(0x73);
    name.push(0x77);
    name.push(0x61);
    name.push(0x70);
    name.push(0x63);
    name.push(0x68);
    name.push(0x61);
    name.push(0x69);
    name.push(0x6E);
    proof {
        assert(name@ =~= swapchain_extension());
    }
    let mut names: Vec<Vec<u8>> = Vec::new();
    names.push(name);
    names
}

/// Chooses the device to render with and the queue family to render and
/// present with: the first suitable device, and of its families that do
/// both, the last.
pub fn choose_device(devices: &Vec<PhysicalDevice>, required: &Vec<Vec<u8>>) -> (result: Result<
    DeviceChoice,
    SuitabilityError,
>)
    ensures
        match result {
            Ok(choice) => {
                &&& choice.device < devices@.len()
                &&& suitable(devices@[choice.device as int], required@)
                &&& forall|earlier: int|
                    0 <= earlier < choice.device ==> !suitable(
                        #[trigger] devices@[earlier],
                        required@,
                    )
                &&& is_graphics_queue(
                    devices@[choice.device as int].queue_families@,
                    choice.graphics_queue as int,
                )
                &&& forall|later: int|
                    choice.graphics_queue < later ==> !is_graphics_queue(
                        devices@[choice.device as int].queue_families@,
                        later,
                    )
            },
            Err(error) => {
                &&& error == SuitabilityError::NoSuitableDevice
                &&& forall|index: int|
                    0 <= index < devices@.len() ==> !suitable(
                        #[trigger] devices@[index],
                        required@,
                    )
            },
        },
{
    let device = match pick_physical_device(devices, required) {
        Ok(index) => index,
        Err(error) => {
            return Err(error);
        },
    };
    match find_graphics_queue(&devices[device].queue_families) {
        Ok(graphics_queue) => Ok(DeviceChoice { device, graphics_queue }),
        Err(_) => {
            proof {
                assert(false);
            }
            Err(SuitabilityError::NoGraphicsQueue)
        },
    }
}

/// The queue families that the logical device is created with: each family
/// once.
pub fn unique_queue_families(graphics_family: u32, present_family: u32) -> (families: Vec<u32>)
    ensures
        families@ == if graphics_family == present_family {
            seq![graphics_family]
        } else {
            seq![graphics_family, present_family]
        },
{
    let mut families: Vec<u32> = Vec::new();
    families.push(graphics_family);
    if present_family != graphics_family {
        families.push(present_family);
    }
    proof {
        if graphics_family == present_family {
            assert(families@ =~= seq![graphics_family]);
        } else {
            assert(families@ =~= seq![graphics_family, present_family]);
        }
    }
    families
}

} // verus!
