use crate::error::{outcome, ApiCall, Error, ErrorView};
use vstd::prelude::*;

verus! {

/// Queue capability bit: graphics operations.
pub const QUEUE_GRAPHICS: u32 = 0x1;

/// Queue capability bit: compute operations.
pub const QUEUE_COMPUTE: u32 = 0x2;

/// Queue capability bit: transfer operations.
pub const QUEUE_TRANSFER: u32 = 0x4;

/// Device type: a GPU built into the host's processor.
pub const DEVICE_TYPE_INTEGRATED_GPU: i32 = 1;

/// Device type: a GPU of its own, on its own memory.
pub const DEVICE_TYPE_DISCRETE_GPU: i32 = 2;

/// Present mode: the newest image replaces the waiting one; low latency, no tearing.
pub const PRESENT_MODE_MAILBOX: i32 = 1;

/// Present mode: images queue up and are shown in order. Every surface supports it.
pub const PRESENT_MODE_FIFO: i32 = 2;

/// The preferred surface color format: 8-bit BGRA, sRGB encoded.
pub const COLOR_FORMAT: i32 = 50;

/// The preferred surface color space: non-linear sRGB.
pub const COLOR_SPACE: i32 = 0;

/// The names in `requested` that `supported` lacks, in the order of the request.
pub open spec fn missing_extensions(
    supported: Seq<Seq<char>>,
    requested: Seq<Seq<char>>,
) -> Seq<Seq<char>> {
    requested.filter(|name: Seq<char>| !supported.contains(name))
}

/// Nothing is missing exactly when every requested name is supported.
pub proof fn lemma_nothing_missing_iff_all_supported(
    supported: Seq<Seq<char>>,
    requested: Seq<Seq<char>>,
)
    ensures
        missing_extensions(supported, requested).len() == 0 <==> forall|i: int|
            0 <= i < requested.len() ==> supported.contains(#[trigger] requested[i]),
{
    let absent = |name: Seq<char>| !supported.contains(name);
    let missing = requested.filter(absent);
    if missing.len() == 0 {
        assert forall|i: int| 0 <= i < requested.len() implies supported.contains(
            #[trigger] requested[i],
        ) by {
            if !supported.contains(requested[i]) {
                requested.lemma_filter_contains(absent, i);
                let k = choose|k: int| 0 <= k < missing.len() && missing[k] == requested[i];
                assert(0 <= k < missing.len());
            }
        }
    } else {
        requested.lemma_filter_pred(absent, 0);
        assert(missing.contains(missing[0]));
        requested.lemma_filter_contains_rev(absent, missing[0]);
        let k = choose|k: int| 0 <= k < requested.len() && requested[k] == missing[0];
        assert(!supported.contains(requested[k]));
    }
}

/// Whether `name` is one of `supported`.
fn is_supported(supported: &Vec<String>, name: &String) -> (found: bool)
    ensures
        found == supported.deep_view().contains(name@),
{
    let mut i: usize = 0;
    while i < supported.len()
        invariant
            i <= supported.len(),
            forall|j: int| 0 <= j < i ==> supported.deep_view()[j] != name@,
        decreases supported.len() - i,
    {
        if supported[i] == *name {
            assert(supported.deep_view()[i as int] == name@);
            return true;
        }
        i += 1;
    }
    false
}

/// The requested extensions that the device lacks, in the order of the request.
pub fn unsupported_extensions(supported: &Vec<String>, requested: &Vec<String>) -> (missing: Vec<
    String,
>)
    ensures
        missing.deep_view() == missing_extensions(supported.deep_view(), requested.deep_view()),
{
    let ghost absent = |name: Seq<char>| !supported.deep_view().contains(name);
    let mut missing: Vec<String> = Vec::new();
    let mut i: usize = 0;
    proof {
        reveal(Seq::filter);
        assert(requested.deep_view().take(0).filter(absent) == Seq::<Seq<char>>::empty());
    }
    while i < requested.len()
        invariant
            i <= requested.len(),
            absent == |name: Seq<char>| !supported.deep_view().contains(name),
            missing.deep_view() == requested.deep_view().take(i as int).filter(absent),
        decreases requested.len() - i,
    {
        let ghost before = missing.deep_view();
        let found = is_supported(supported, &requested[i]);
        proof {
            reveal(Seq::filter);
            let prefix = requested.deep_view().take(i as int + 1);
            assert(prefix.drop_last() == requested.deep_view().take(i as int));
            assert(prefix.last() == requested[i as int]@);
        }
        if !found {
            missing.push(requested[i].clone());
            assert(missing.deep_view() == before.push(requested[i as int]@));
        }
        i += 1;
    }
    proof {
        assert(requested.deep_view().take(i as int) == requested.deep_view());
    }
    missing
}

/// Checks that the device supports every requested extension.
///
/// Succeeds with the device's own list exactly when no requested name is
/// missing from it; otherwise fails with the missing names, in the order of
/// the request.
pub fn check_supported_extensions(supported: Vec<String>, requested: &Vec<String>) -> (result:
    Result<Vec<String>, Error>)
    ensures
        result is Ok <==> forall|i: int|
            0 <= i < requested.len() ==> supported.deep_view().contains(#[trigger] requested[i]@),
        match result {
            Ok(list) => list == supported,
            Err(Error::UnsupportedExtension(names)) => names.deep_view() == missing_extensions(
                supported.deep_view(),
                requested.deep_view(),
            ),
            Err(_) => false,
        },
{
    let missing = unsupported_extensions(&supported, requested);
    proof {
        let have = supported.deep_view();
        let want = requested.deep_view();
        lemma_nothing_missing_iff_all_supported(have, want);
        assert(missing.deep_view().len() == missing.len());
        if missing.len() == 0 {
            assert forall|i: int| 0 <= i < requested.len() implies have.contains(
                #[trigger] requested[i]@,
            ) by {
                assert(have.contains(want[i]));
            }
        } else if forall|i: int| 0 <= i < requested.len() ==> have.contains(#[trigger] requested[i]@) {
            assert forall|i: int| 0 <= i < want.len() implies have.contains(#[trigger] want[i]) by {
                assert(have.contains(requested[i]@));
            }
        }
    }
    if missing.len() == 0 {
        Ok(supported)
    } else {
        Err(Error::UnsupportedExtension(missing))
    }
}

/// Whether every bit of `wanted` is set in `flags`.
pub open spec fn has_flags(flags: u32, wanted: u32) -> bool {
    flags & wanted == wanted
}

/// Tests whether every bit of `wanted` is set in `flags`.
pub fn contains_flags(flags: u32, wanted: u32) -> (all: bool)
    ensures
        all == has_flags(flags, wanted),
{
    flags & wanted == wanted
}

/// What a device reports of one queue family, and what the surface reports of it.
#[derive(Clone, Copy, Debug, PartialEq, Eq)]
pub struct QueueFamily {
    /// The capability bits of the family's queues.
    pub queue_flags: u32,
    /// How many queues the family has.
    pub queue_count: u32,
    /// Whether the family can present to the target surface, or the status
    /// code with which the question failed.
    pub surface_support: Result<bool, i32>,
}

impl QueueFamily {
    /// The family does graphics and can present to the surface.
    pub open spec fn presents_graphics(self) -> bool {
        has_flags(self.queue_flags, QUEUE_GRAPHICS) && self.surface_support == Ok::<bool, i32>(
            true,
        )
    }

    /// The search for a graphics family ends here: with this family, or with
    /// the failure of its surface query.
    pub open spec fn ends_surface_search(self) -> bool {
        self.surface_support is Err || self.presents_graphics()
    }

    /// The family does compute and transfer.
    pub open spec fn is_utility(self) -> bool {
        has_flags(self.queue_flags, QUEUE_COMPUTE) && has_flags(self.queue_flags, QUEUE_TRANSFER)
    }
}

/// `index` is the first family at which the search for a graphics family ends.
pub open spec fn surface_search_ends_at(families: Seq<QueueFamily>, index: int) -> bool {
    &&& 0 <= index < families.len()
    &&& families[index].ends_surface_search()
    &&& forall|j: int| 0 <= j < index ==> !(#[trigger] families[j]).ends_surface_search()
}

/// The graphics queue family of a device: the first family, in the order of
/// the report, that does graphics and can present to the surface. A surface
/// query that failed before such a family was found is the result instead.
/// The index is given in 32 bits, as the device counts its families.
pub open spec fn surface_queue_family(families: Seq<QueueFamily>) -> Result<u32, ErrorView> {
    if exists|i: int| surface_search_ends_at(families, i) {
        let i = choose|i: int| surface_search_ends_at(families, i);
        match families[i].surface_support {
            Err(code) => Err(ErrorView::NativeApiError(ApiCall::SurfaceSupport, code)),
            Ok(_) => Ok(i as u32),
        }
    } else {
        Err(ErrorView::NoSuitableHardware)
    }
}

/// `index` is the first family that does compute and transfer.
pub open spec fn is_first_utility(families: Seq<QueueFamily>, index: int) -> bool {
    &&& 0 <= index < families.len()
    &&& families[index].is_utility()
    &&& forall|j: int| 0 <= j < index ==> !(#[trigger] families[j]).is_utility()
}

/// The utility queue family of a device: the first family, in the order of
/// the report, that does compute and transfer.
pub open spec fn utility_queue_family(families: Seq<QueueFamily>) -> Result<u32, ErrorView> {
    if exists|i: int| is_first_utility(families, i) {
        Ok((choose|i: int| is_first_utility(families, i)) as u32)
    } else {
        Err(ErrorView::NoSuitableHardware)
    }
}

/// Finds the queue family for graphics and presentation.
pub fn find_surface_queue_family(families: &Vec<QueueFamily>) -> (result: Result<u32, Error>)
    ensures
        outcome(result) == surface_queue_family(families@),
{
    let mut i: usize = 0;
    while i < families.len()
        invariant
            i <= families.len(),
            forall|j: int| 0 <= j < i ==> !(#[trigger] families@[j]).ends_surface_search(),
        decreases families.len() - i,
    {
        let family = families[i];
        let has_graphics = contains_flags(family.queue_flags, QUEUE_GRAPHICS);
        match family.surface_support {
            Err(code) => {
                proof {
                    lemma_surface_search_end(families@, i as int);
                }
                return Err(Error::NativeApiError(ApiCall::SurfaceSupport, code));
            },
            Ok(supports_surface) => {
                if has_graphics && supports_surface {
                    proof {
                        lemma_surface_search_end(families@, i as int);
                    }
                    return Ok(#[verifier::truncate] (i as u32));
                }
            },
        }
        i += 1;
    }
    Err(Error::NoSuitableHardware)
}

/// The search for a graphics family ends at one index only.
proof fn lemma_surface_search_end(families: Seq<QueueFamily>, index: int)
    requires
        surface_search_ends_at(families, index),
    ensures
        (choose|i: int| surface_search_ends_at(families, i)) == index,
{
    let chosen = choose|i: int| surface_search_ends_at(families, i);
    assert(surface_search_ends_at(families, chosen));
    if chosen < index {
        assert(!families[chosen].ends_surface_search());
    } else if index < chosen {
        assert(!families[index].ends_surface_search());
    }
}

/// Finds the queue family for compute and transfer.
pub fn find_utility_queue_family(families: &Vec<QueueFamily>) -> (result: Result<u32, Error>)
    ensures
        outcome(result) == utility_queue_family(families@),
{
    let mut i: usize = 0;
    while i < families.len()
        invariant
            i <= families.len(),
            forall|j: int| 0 <= j < i ==> !(#[trigger] families@[j]).is_utility(),
        decreases families.len() - i,
    {
        let flags = families[i].queue_flags;
        if contains_flags(flags, QUEUE_COMPUTE) && contains_flags(flags, QUEUE_TRANSFER) {
            proof {
                lemma_first_utility(families@, i as int);
            }
            return Ok(#[verifier::truncate] (i as u32));
        }
        i += 1;
    }
    Err(Error::NoSuitableHardware)
}

/// Only one family is the first that does compute and transfer.
proof fn lemma_first_utility(families: Seq<QueueFamily>, index: int)
    requires
        is_first_utility(families, index),
    ensures
        (choose|i: int| is_first_utility(families, i)) == index,
{
    let chosen = choose|i: int| is_first_utility(families, i);
    assert(is_first_utility(families, chosen));
    if chosen < index {
        assert(!families[chosen].is_utility());
    } else if index < chosen {
        assert(!families[index].is_utility());
    }
}

/// A color format and color space that a surface can show.
#[derive(Clone, Copy, Debug, PartialEq, Eq, Structural)]
pub struct SurfaceFormat {
    /// The color format.
    pub format: i32,
    /// The color space.
    pub color_space: i32,
}

/// The surface properties chosen for a device.
#[derive(Clone, Copy, Debug, PartialEq, Eq, Structural)]
pub struct SurfaceInfo {
    /// The surface format to render to.
    pub format: SurfaceFormat,
    /// How images are handed to the display.
    pub present_mode: i32,
}

/// The preferred pair of color format and color space.
pub open spec fn preferred_format() -> SurfaceFormat {
    SurfaceFormat { format: COLOR_FORMAT, color_space: COLOR_SPACE }
}

/// The surface format for a device: the preferred pair where the surface
/// reports it, else the first format reported.
pub open spec fn surface_format(formats: Seq<SurfaceFormat>) -> Result<SurfaceFormat, ErrorView> {
    if formats.contains(preferred_format()) {
        Ok(preferred_format())
    } else if formats.len() > 0 {
        Ok(formats[0])
    } else {
        Err(ErrorView::NoSuitableSurfaceFormat)
    }
}

/// The present mode for a device: mailbox where the surface reports it, else FIFO.
pub open spec fn present_mode(modes: Seq<i32>) -> i32 {
    if modes.contains(PRESENT_MODE_MAILBOX) {
        PRESENT_MODE_MAILBOX
    } else {
        PRESENT_MODE_FIFO
    }
}

/// The surface properties for a device, from what its surface reports.
pub open spec fn surface_info(formats: Seq<SurfaceFormat>, modes: Seq<i32>) -> Result<
    SurfaceInfo,
    ErrorView,
> {
    match surface_format(formats) {
        Ok(format) => Ok(SurfaceInfo { format, present_mode: present_mode(modes) }),
        Err(error) => Err(error),
    }
}

/// Picks the surface format among those that the surface reports.
pub fn select_surface_format(formats: &Vec<SurfaceFormat>) -> (result: Result<
    SurfaceFormat,
    Error,
>)
    ensures
        outcome(result) == surface_format(formats@),
{
    let mut i: usize = 0;
    while i < formats.len()
        invariant
            i <= formats.len(),
            forall|j: int| 0 <= j < i ==> formats@[j] != preferred_format(),
        decreases formats.len() - i,
    {
        let candidate = formats[i];
        if candidate.format == COLOR_FORMAT && candidate.color_space == COLOR_SPACE {
            assert(formats@[i as int] == preferred_format());
            return Ok(candidate);
        }
        i += 1;
    }
    if formats.len() > 0 {
        Ok(formats[0])
    } else {
        Err(Error::NoSuitableSurfaceFormat)
    }
}

/// Picks the present mode among those that the surface reports.
pub fn select_present_mode(modes: &Vec<i32>) -> (mode: i32)
    ensures
        mode == present_mode(modes@),
{
    let mut i: usize = 0;
    while i < modes.len()
        invariant
            i <= modes.len(),
            forall|j: int| 0 <= j < i ==> modes@[j] != PRESENT_MODE_MAILBOX,
        decreases modes.len() - i,
    {
        if modes[i] == PRESENT_MODE_MAILBOX {
            assert(modes@[i as int] == PRESENT_MODE_MAILBOX);
            return PRESENT_MODE_MAILBOX;
        }
        i += 1;
    }
    PRESENT_MODE_FIFO
}

/// Picks surface format and present mode among those that the surface reports.
pub fn select_surface_info(formats: &Vec<SurfaceFormat>, modes: &Vec<i32>) -> (result: Result<
    SurfaceInfo,
    Error,
>)
    ensures
        outcome(result) == surface_info(formats@, modes@),
{
    match select_surface_format(formats) {
        Ok(format) => Ok(SurfaceInfo { format, present_mode: select_present_mode(modes) }),
        Err(error) => Err(error),
    }
}

/// The static properties that a physical device reports of itself.
#[derive(Clone, Debug, PartialEq, Eq)]
pub struct PhysicalDeviceProperties {
    /// The newest API version the device supports.
    pub api_version: u32,
    /// The version of the device's driver.
    pub driver_version: u32,
    /// Who made the device.
    pub vendor_id: u32,
    /// Which of the vendor's devices it is.
    pub device_id: u32,
    /// The kind of device: discrete, integrated, or something else.
    pub device_type: i32,
    /// The device's name.
    pub device_name: String,
}

impl PhysicalDeviceProperties {
    /// A copy of the properties.
    pub fn duplicate(&self) -> (copy: Self)
        ensures
            copy == *self,
    {
        PhysicalDeviceProperties {
            api_version: self.api_version,
            driver_version: self.driver_version,
            vendor_id: self.vendor_id,
            device_id: self.device_id,
            device_type: self.device_type,
            device_name: self.device_name.clone(),
        }
    }
}

/// The hardware chosen for a session. A value, never changed once chosen.
#[derive(Clone, Debug, PartialEq, Eq)]
pub struct HardwareSelection {
    /// The handle of the physical device.
    pub physical_device: u64,
    /// What the device reports of itself.
    pub physical_device_properties: PhysicalDeviceProperties,
    /// The queue family for graphics and presentation.
    pub graphics_queue_family: u32,
    /// The queue family for compute and transfer.
    pub utility_queue_family: u32,
    /// The surface format to render to.
    pub format: SurfaceFormat,
    /// How images are handed to the display.
    pub present_mode: i32,
}

/// Everything that was asked of one physical device and of the target surface
/// on it. A query that failed is kept with its status code.
#[derive(Debug, PartialEq, Eq)]
pub struct PhysicalDeviceInfo {
    /// The handle of the physical device.
    pub physical_device: u64,
    /// What the device reports of itself.
    pub properties: PhysicalDeviceProperties,
    /// The device's queue families, in the order of their indices.
    pub queue_families: Vec<QueueFamily>,
    /// The formats of the surface on this device.
    pub surface_formats: Result<Vec<SurfaceFormat>, i32>,
    /// The present modes of the surface on this device.
    pub present_modes: Result<Vec<i32>, i32>,
    /// The names of the extensions the device supports.
    pub extensions: Result<Vec<String>, i32>,
}

impl PhysicalDeviceInfo {
    /// Whether the device supports every name in `required`.
    pub open spec fn extension_check(self, required: Seq<Seq<char>>) -> Result<(), ErrorView> {
        match self.extensions {
            Err(code) => Err(ErrorView::NativeApiError(ApiCall::DeviceExtensions, code)),
            Ok(supported) => {
                let missing = missing_extensions(supported.deep_view(), required);
                if missing.len() == 0 {
                    Ok(())
                } else {
                    Err(ErrorView::UnsupportedExtension(missing))
                }
            },
        }
    }

    /// The surface properties on this device.
    pub open spec fn surface(self) -> Result<SurfaceInfo, ErrorView> {
        match self.surface_formats {
            Err(code) => Err(ErrorView::NativeApiError(ApiCall::SurfaceFormats, code)),
            Ok(formats) => match surface_format(formats@) {
                Err(error) => Err(error),
                Ok(format) => match self.present_modes {
                    Err(code) => Err(ErrorView::NativeApiError(ApiCall::PresentModes, code)),
                    Ok(modes) => Ok(SurfaceInfo { format, present_mode: present_mode(modes@) }),
                },
            },
        }
    }

    /// The selection that this device stands for, or why it cannot be used:
    /// the queue families are looked for first, then the extensions, then the
    /// surface properties.
    pub open spec fn selection(self, required: Seq<Seq<char>>) -> Result<
        HardwareSelection,
        ErrorView,
    > {
        match surface_queue_family(self.queue_families@) {
            Err(error) => Err(error),
            Ok(graphics) => match utility_queue_family(self.queue_families@) {
                Err(error) => Err(error),
                Ok(utility) => match self.extension_check(required) {
                    Err(error) => Err(error),
                    Ok(_) => match self.surface() {
                        Err(error) => Err(error),
                        Ok(info) => Ok(
                            HardwareSelection {
                                physical_device: self.physical_device,
                                physical_device_properties: self.properties,
                                graphics_queue_family: graphics,
                                utility_queue_family: utility,
                                format: info.format,
                                present_mode: info.present_mode,
                            },
                        ),
                    },
                },
            },
        }
    }

    /// The device can be used with the extensions in `required`.
    pub open spec fn qualifies(self, required: Seq<Seq<char>>) -> bool {
        self.selection(required) is Ok
    }

    /// The score of the device.
    pub open spec fn score(self) -> int {
        hardware_score(self.properties.device_type)
    }
}

/// The score of a device type: 2 for a discrete GPU, 1 for an integrated one,
/// 0 for anything else.
pub open spec fn hardware_score(device_type: i32) -> int {
    if device_type == DEVICE_TYPE_DISCRETE_GPU {
        2
    } else if device_type == DEVICE_TYPE_INTEGRATED_GPU {
        1
    } else {
        0
    }
}

/// Scores a selection by the type of its device.
pub fn score_hardware_config(hardware: &HardwareSelection) -> (score: i32)
    ensures
        score == hardware_score(hardware.physical_device_properties.device_type),
{
    let device_type = hardware.physical_device_properties.device_type;
    if device_type == DEVICE_TYPE_DISCRETE_GPU {
        2
    } else if device_type == DEVICE_TYPE_INTEGRATED_GPU {
        1
    } else {
        0
    }
}

/// Tests one physical device against the requirements and, where it meets
/// them, resolves its queue families and surface properties.
pub fn select_hardware_physical_device(
    device: &PhysicalDeviceInfo,
    required: &Vec<String>,
) -> (result: Result<HardwareSelection, Error>)
    ensures
        outcome(result) == device.selection(required.deep_view()),
{
    let graphics = match find_surface_queue_family(&device.queue_families) {
        Ok(index) => index,
        Err(error) => {
            return Err(error);
        },
    };
    let utility = match find_utility_queue_family(&device.queue_families) {
        Ok(index) => index,
        Err(error) => {
            return Err(error);
        },
    };
    match &device.extensions {
        Err(code) => {
            return Err(Error::NativeApiError(ApiCall::DeviceExtensions, *code));
        },
        Ok(supported) => {
            let missing = unsupported_extensions(supported, required);
            if missing.len() > 0 {
                assert(missing.deep_view().len() == missing.len());
                return Err(Error::UnsupportedExtension(missing));
            }
            assert(missing.deep_view().len() == missing.len());
        },
    }
    let formats = match &device.surface_formats {
        Ok(formats) => formats,
        Err(code) => {
            return Err(Error::NativeApiError(ApiCall::SurfaceFormats, *code));
        },
    };
    let format = match select_surface_format(formats) {
        Ok(format) => format,
        Err(error) => {
            return Err(error);
        },
    };
    let modes = match &device.present_modes {
        Ok(modes) => modes,
        Err(code) => {
            return Err(Error::NativeApiError(ApiCall::PresentModes, *code));
        },
    };
    Ok(
        HardwareSelection {
            physical_device: device.physical_device,
            physical_device_properties: device.properties.duplicate(),
            graphics_queue_family: graphics,
            utility_queue_family: utility,
            format,
            present_mode: select_present_mode(modes),
        },
    )
}

/// Among the first `upto` devices, the one at `index` qualifies, no
/// qualifying one scores higher, and every qualifying one before it scores
/// lower.
pub open spec fn is_best_among(
    devices: Seq<PhysicalDeviceInfo>,
    required: Seq<Seq<char>>,
    index: int,
    upto: int,
) -> bool {
    &&& 0 <= index < upto <= devices.len()
    &&& devices[index].qualifies(required)
    &&& forall|j: int|
        0 <= j < upto && (#[trigger] devices[j]).qualifies(required) ==> devices[j].score()
            <= devices[index].score()
    &&& forall|j: int|
        0 <= j < index && (#[trigger] devices[j]).qualifies(required) ==> devices[j].score()
            < devices[index].score()
}

/// The device at `index` is the one to select: it qualifies with the highest
/// score, and it is the first to do so in the order of enumeration.
pub open spec fn is_best(
    devices: Seq<PhysicalDeviceInfo>,
    required: Seq<Seq<char>>,
    index: int,
) -> bool {
    is_best_among(devices, required, index, devices.len() as int)
}

/// The device has the hardware asked for, but its surface reports no format.
pub open spec fn lacks_surface_format(device: PhysicalDeviceInfo, required: Seq<Seq<char>>) -> bool {
    device.selection(required) == Err::<HardwareSelection, ErrorView>(
        ErrorView::NoSuitableSurfaceFormat,
    )
}

/// The hardware for a session: the selection of the best device. Where no
/// device qualifies, the error says whether one of them failed only for want
/// of a surface format.
pub open spec fn selected_hardware(
    devices: Seq<PhysicalDeviceInfo>,
    required: Seq<Seq<char>>,
) -> Result<HardwareSelection, ErrorView> {
    if exists|i: int| is_best(devices, required, i) {
        devices[choose|i: int| is_best(devices, required, i)].selection(required)
    } else if exists|i: int|
        0 <= i < devices.len() && lacks_surface_format(#[trigger] devices[i], required) {
        Err(ErrorView::NoSuitableSurfaceFormat)
    } else {
        Err(ErrorView::NoSuitableHardware)
    }
}

/// At most one device is the one to select.
pub proof fn lemma_best_is_unique(
    devices: Seq<PhysicalDeviceInfo>,
    required: Seq<Seq<char>>,
    first: int,
    second: int,
)
    requires
        is_best(devices, required, first),
        is_best(devices, required, second),
    ensures
        first == second,
{
    if first < second {
        assert(devices[first].qualifies(required));
    } else if second < first {
        assert(devices[second].qualifies(required));
    }
}

/// Where one of the first `upto` devices qualifies, one of them is the best
/// among them.
pub proof fn lemma_best_exists(
    devices: Seq<PhysicalDeviceInfo>,
    required: Seq<Seq<char>>,
    upto: int,
)
    requires
        0 <= upto <= devices.len(),
        exists|j: int| 0 <= j < upto && (#[trigger] devices[j]).qualifies(required),
    ensures
        exists|b: int| is_best_among(devices, required, b, upto),
    decreases upto,
{
    let last = upto - 1;
    if exists|j: int| 0 <= j < last && (#[trigger] devices[j]).qualifies(required) {
        lemma_best_exists(devices, required, last);
        let b = choose|b: int| is_best_among(devices, required, b, last);
        if devices[last].qualifies(required) && devices[last].score() > devices[b].score() {
            assert(is_best_among(devices, required, last, upto));
        } else {
            assert(is_best_among(devices, required, b, upto));
        }
    } else {
        assert(devices[last].qualifies(required));
        assert(is_best_among(devices, required, last, upto));
    }
}

/// Selection succeeds exactly when a device qualifies.
pub proof fn lemma_selection_succeeds_iff_a_device_qualifies(
    devices: Seq<PhysicalDeviceInfo>,
    required: Seq<Seq<char>>,
)
    ensures
        selected_hardware(devices, required) is Ok <==> exists|i: int|
            0 <= i < devices.len() && (#[trigger] devices[i]).qualifies(required),
{
    if exists|i: int| 0 <= i < devices.len() && (#[trigger] devices[i]).qualifies(required) {
        lemma_best_exists(devices, required, devices.len() as int);
        let found = choose|b: int| is_best_among(devices, required, b, devices.len() as int);
        assert(is_best(devices, required, found));
    }
    if exists|i: int| is_best(devices, required, i) {
        let best = choose|i: int| is_best(devices, required, i);
        assert(devices[best].qualifies(required));
    }
}

/// Selection prefers discrete GPUs: where a discrete GPU qualifies, at
/// whatever place in the enumeration, the device selected is a discrete GPU.
pub proof fn lemma_discrete_device_wins(
    devices: Seq<PhysicalDeviceInfo>,
    required: Seq<Seq<char>>,
    index: int,
)
    requires
        0 <= index < devices.len(),
        devices[index].qualifies(required),
        devices[index].properties.device_type == DEVICE_TYPE_DISCRETE_GPU,
    ensures
        selected_hardware(devices, required) is Ok,
        selected_hardware(devices, required)->Ok_0.physical_device_properties.device_type
            == DEVICE_TYPE_DISCRETE_GPU,
{
    lemma_best_exists(devices, required, devices.len() as int);
    let found = choose|b: int| is_best_among(devices, required, b, devices.len() as int);
    assert(is_best(devices, required, found));
    let best = choose|b: int| is_best(devices, required, b);
    assert(devices[index].score() <= devices[best].score());
}

/// Selects the hardware for a session among the physical devices found.
///
/// The devices that have a graphics family that can present, a utility
/// family and every required extension, and whose surface properties could
/// be resolved, are scored by their type. The highest score wins; among
/// equals, the one enumerated first.
pub fn query(devices: &Vec<PhysicalDeviceInfo>, required: &Vec<String>) -> (result: Result<
    HardwareSelection,
    Error,
>)
    ensures
        outcome(result) == selected_hardware(devices@, required.deep_view()),
{
    let ghost names = required.deep_view();
    let mut best: Option<HardwareSelection> = None;
    let ghost mut best_index: int = 0;
    let mut formatless = false;
    let mut i: usize = 0;
    while i < devices.len()
        invariant
            i <= devices.len(),
            names == required.deep_view(),
            match best {
                None => forall|j: int| 0 <= j < i ==> !(#[trigger] devices[j]).qualifies(names),
                Some(selection) => is_best_among(devices@, names, best_index, i as int)
                    && devices[best_index].selection(names) == Ok::<HardwareSelection, ErrorView>(
                    selection,
                ),
            },
            formatless <==> exists|j: int|
                0 <= j < i && lacks_surface_format(#[trigger] devices[j], names),
        decreases devices.len() - i,
    {
        match select_hardware_physical_device(&devices[i], required) {
            Ok(candidate) => {
                let better = match &best {
                    None => true,
                    Some(current) => score_hardware_config(&candidate) > score_hardware_config(
                        current,
                    ),
                };
                if better {
                    best = Some(candidate);
                    proof {
                        best_index = i as int;
                    }
                }
            },
            Err(error) => {
                match error {
                    Error::NoSuitableSurfaceFormat => {
                        formatless = true;
                        assert(lacks_surface_format(devices[i as int], names));
                    },
                    _ => {
                        assert(!lacks_surface_format(devices[i as int], names));
                    },
                }
            },
        }
        i += 1;
    }
    match best {
        Some(selection) => {
            proof {
                assert(is_best(devices@, names, best_index));
                lemma_best_is_unique(
                    devices@,
                    names,
                    best_index,
                    choose|b: int| is_best(devices@, names, b),
                );
            }
            Ok(selection)
        },
        None => {
            if formatless {
                Err(Error::NoSuitableSurfaceFormat)
            } else {
                Err(Error::NoSuitableHardware)
            }
        },
    }
}

} // verus!
