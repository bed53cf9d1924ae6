use vstd::prelude::*;

verus! {

/// `VkPhysicalDeviceType` of a discrete GPU.
pub const DISCRETE_GPU: i32 = 2;

/// `VkFormat` of 8-bit BGRA sRGB images.
pub const FORMAT_B8G8R8A8_SRGB: i32 = 50;

/// `VkColorSpaceKHR` of non-linear sRGB.
pub const COLOR_SPACE_SRGB_NONLINEAR: i32 = 0;

/// `VkPresentModeKHR` of the low-latency mailbox mode.
pub const PRESENT_MODE_MAILBOX: i32 = 1;

/// The graphics bit of `VkQueueFlags`.
pub const QUEUE_GRAPHICS_BIT: u32 = 1;

/// One queue family of a physical device, as the selection reads it.
#[derive(Clone, Copy, Debug, PartialEq, Eq, Structural)]
pub struct QueueFamily {
    pub queue_flags: u32,
    /// Whether the family can present to the window's surface.
    pub present_support: bool,
}

#[derive(Clone, Copy, Debug, PartialEq, Eq, Structural)]
pub struct SurfaceFormat {
    pub format: i32,
    pub color_space: i32,
}

/// What the device selection reads of one physical device.
#[derive(Clone, Debug)]
pub struct DeviceCandidate {
    pub device_type: i32,
    pub extension_names: Vec<Vec<u8>>,
    pub surface_formats: Vec<SurfaceFormat>,
    pub present_modes: Vec<i32>,
    pub queue_families: Vec<QueueFamily>,
}

/// The selected device (its position in the enumeration) and its queue families.
#[derive(Clone, Copy, Debug, PartialEq, Eq, Structural)]
pub struct DeviceChoice {
    pub device_index: usize,
    pub graphics_queue_index: u32,
    pub present_queue_index: u32,
}

#[derive(Clone, Copy, Debug, PartialEq, Eq, Structural)]
pub enum DeviceError {
    NoSuitableDevice,
}

pub open spec fn has_name(names: Seq<Vec<u8>>, name: Seq<u8>) -> bool {
    exists|i: int| 0 <= i < names.len() && (#[trigger] names[i])@ == name
}

pub open spec fn supports_extensions(c: DeviceCandidate, required: Seq<Vec<u8>>) -> bool {
    forall|j: int| 0 <= j < required.len() ==> has_name(c.extension_names@, (#[trigger] required[j])@)
}

pub open spec fn is_wanted_format(f: SurfaceFormat) -> bool {
    f.format == FORMAT_B8G8R8A8_SRGB && f.color_space == COLOR_SPACE_SRGB_NONLINEAR
}

pub open spec fn has_format(c: DeviceCandidate) -> bool {
    exists|i: int| 0 <= i < c.surface_formats@.len() && is_wanted_format(#[trigger] c.surface_formats@[i])
}

pub open spec fn has_mailbox(c: DeviceCandidate) -> bool {
    exists|i: int| 0 <= i < c.present_modes@.len() && #[trigger] c.present_modes@[i] == PRESENT_MODE_MAILBOX
}

pub open spec fn is_graphics(f: QueueFamily) -> bool {
    f.queue_flags & QUEUE_GRAPHICS_BIT != 0
}

/// The graphics family (the first with the graphics bit) and the present
/// family (the first one after the graphics family was found that can
/// present and differs from it), scanning the families in order.
pub open spec fn queue_scan(fams: Seq<QueueFamily>) -> (Option<u32>, Option<u32>)
    decreases fams.len(),
{
    if fams.len() == 0 {
        (None, None)
    } else {
        let prev = queue_scan(fams.drop_last());
        let i = (fams.len() - 1) as u32;
        let f = fams.last();
        let g = if prev.0.is_none() && is_graphics(f) {
            Some(i)
        } else {
            prev.0
        };
        let p = if prev.1.is_none() && f.present_support && g is Some && g.unwrap() != i {
            Some(i)
        } else {
            prev.1
        };
        (g, p)
    }
}

pub open spec fn suitable(c: DeviceCandidate, required: Seq<Vec<u8>>) -> bool {
    &&& c.device_type == DISCRETE_GPU
    &&& supports_extensions(c, required)
    &&& has_format(c)
    &&& has_mailbox(c)
    &&& queue_scan(c.queue_families@).0 is Some
    &&& queue_scan(c.queue_families@).1 is Some
}

fn bytes_equal(a: &Vec<u8>, b: &Vec<u8>) -> (r: bool)
    ensures
        r == (a@ == b@),
{
    if a.len() != b.len() {
        return false;
    }
    let mut i: usize = 0;
    while i < a.len()
        invariant
            a@.len() == b@.len(),
            i <= a@.len(),
            forall|j: int| 0 <= j < i ==> a@[j] == b@[j],
        decreases a@.len() - i,
    {
        if a[i] != b[i] {
            return false;
        }
        i = i + 1;
    }
    assert(a@ =~= b@);
    true
}

fn contains_name(names: &Vec<Vec<u8>>, name: &Vec<u8>) -> (r: bool)
    ensures
        r == has_name(names@, name@),
{
    let mut i: usize = 0;
    while i < names.len()
        invariant
            i <= names@.len(),
            forall|j: int| 0 <= j < i ==> (#[trigger] names@[j])@ != name@,
        decreases names@.len() - i,
    {
        if bytes_equal(&names[i], name) {
            return true;
        }
        i = i + 1;
    }
    false
}

/// Whether the device lists every required extension.
pub fn has_required_extensions(c: &DeviceCandidate, required: &Vec<Vec<u8>>) -> (r: bool)
    ensures
        r == supports_extensions(*c, required@),
{
    let mut j: usize = 0;
    while j < required.len()
        invariant
            j <= required@.len(),
            forall|k: int| 0 <= k < j ==> has_name(c.extension_names@, (#[trigger] required@[k])@),
        decreases required@.len() - j,
    {
        if !contains_name(&c.extension_names, &required[j]) {
            return false;
        }
        j = j + 1;
    }
    true
}

/// Whether the device offers 8-bit BGRA sRGB surfaces.
pub fn offers_wanted_format(c: &DeviceCandidate) -> (r: bool)
    ensures
        r == has_format(*c),
{
    let mut i: usize = 0;
    while i < c.surface_formats.len()
        invariant
            i <= c.surface_formats@.len(),
            forall|j: int| 0 <= j < i ==> !is_wanted_format(#[trigger] c.surface_formats@[j]),
        decreases c.surface_formats@.len() - i,
    {
        let f = c.surface_formats[i];
        if f.format == FORMAT_B8G8R8A8_SRGB && f.color_space == COLOR_SPACE_SRGB_NONLINEAR {
            return true;
        }
        i = i + 1;
    }
    false
}

/// Whether the device offers mailbox presentation.
pub fn offers_mailbox(c: &DeviceCandidate) -> (r: bool)
    ensures
        r == has_mailbox(*c),
{
    let mut i: usize = 0;
    while i < c.present_modes.len()
        invariant
            i <= c.present_modes@.len(),
            forall|j: int| 0 <= j < i ==> #[trigger] c.present_modes@[j] != PRESENT_MODE_MAILBOX,
        decreases c.present_modes@.len() - i,
    {
        if c.present_modes[i] == PRESENT_MODE_MAILBOX {
            return true;
        }
        i = i + 1;
    }
    false
}

/// Whether the device type is a discrete GPU.
pub fn is_discrete_gpu(device_type: i32) -> (r: bool)
    ensures
        r == (device_type == DISCRETE_GPU),
{
    device_type == DISCRETE_GPU
}

/// Whether one device meets every condition of the selection.
pub fn device_suitable(c: &DeviceCandidate, required_extensions: &Vec<Vec<u8>>) -> (r: bool)
    requires
        c.queue_families@.len() <= u32::MAX,
    ensures
        r == suitable(*c, required_extensions@),
{
    if is_discrete_gpu(c.device_type) && has_required_extensions(c, required_extensions)
        && offers_wanted_format(c) && offers_mailbox(c) {
        let (g, p) = find_queue_families(&c.queue_families);
        g.is_some() && p.is_some()
    } else {
        false
    }
}

/// Finds the graphics and present queue families of one device.
pub fn find_queue_families(fams: &Vec<QueueFamily>) -> (r: (Option<u32>, Option<u32>))
    requires
        fams@.len() <= u32::MAX,
    ensures
        r == queue_scan(fams@),
{
    let mut graphics: Option<u32> = None;
    let mut present: Option<u32> = None;
    let mut i: usize = 0;
    while i < fams.len()
        invariant
            fams@.len() <= u32::MAX,
            i <= fams@.len(),
            (graphics, present) == queue_scan(fams@.take(i as int)),
        decreases fams@.len() - i,
    {
        assert(fams@.take(i as int + 1).drop_last() =~= fams@.take(i as int));
        let f = fams[i];
        let index = i as u32;
        if graphics.is_none() && f.queue_flags & QUEUE_GRAPHICS_BIT != 0 {
            graphics = Some(index);
        }
        if present.is_none() && f.present_support {
            if let Some(g) = graphics {
                if g != index {
                    present = Some(index);
                }
            }
        }
        i = i + 1;
    }
    assert(fams@.take(fams@.len() as int) =~= fams@);
    (graphics, present)
}

/// Picks the first device that is a discrete GPU, has every required
/// extension, offers 8-bit BGRA sRGB surfaces and mailbox presentation, and
/// has a graphics family and a distinct present family.
pub fn select_device(devices: &Vec<DeviceCandidate>, required_extensions: &Vec<Vec<u8>>) -> (r:
    Result<DeviceChoice, DeviceError>)
    requires
        forall|i: int| 0 <= i < devices@.len() ==> (#[trigger] devices@[i]).queue_families@.len() <= u32::MAX,
    ensures
        r is Err <==> forall|i: int|
            0 <= i < devices@.len() ==> !suitable(#[trigger] devices@[i], required_extensions@),
        r matches Err(e) ==> e == DeviceError::NoSuitableDevice,
        r matches Ok(choice) ==> {
            let d = devices@[choice.device_index as int];
            &&& choice.device_index < devices@.len()
            &&& suitable(d, required_extensions@)
            &&& forall|i: int|
                0 <= i < choice.device_index ==> !suitable(#[trigger] devices@[i], required_extensions@)
            &&& Some(choice.graphics_queue_index) == queue_scan(d.queue_families@).0
            &&& Some(choice.present_queue_index) == queue_scan(d.queue_families@).1
        },
{
    let mut i: usize = 0;
    while i < devices.len()
        invariant
            i <= devices@.len(),
            forall|j: int| 0 <= j < devices@.len() ==> (#[trigger] devices@[j]).queue_families@.len() <= u32::MAX,
            forall|j: int| 0 <= j < i ==> !suitable(#[trigger] devices@[j], required_extensions@),
        decreases devices@.len() - i,
    {
        let d = &devices[i];
        if device_suitable(d, required_extensions) {
            let (g, p) = find_queue_families(&d.queue_families);
            if let (Some(graphics_queue_index), Some(present_queue_index)) = (g, p) {
                return Ok(DeviceChoice { device_index: i, graphics_queue_index, present_queue_index });
            }
        }
        i = i + 1;
    }
    Err(DeviceError::NoSuitableDevice)
}

} // verus!
