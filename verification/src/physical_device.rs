//! Physical device selection: the first device that can draw to the surface.

use vstd::prelude::*;
use crate::constants::{
    DeviceExtension, PHYSICAL_DEVICE_TYPE_CPU, PHYSICAL_DEVICE_TYPE_DISCRETE_GPU,
    PHYSICAL_DEVICE_TYPE_INTEGRATED_GPU, PHYSICAL_DEVICE_TYPE_VIRTUAL_GPU,
};
use crate::queue_family::{find_graphical_queue_family, QueueFamilyProperties};
use crate::swapchain::SurfaceFormat;
use crate::utilities::{contains_all_names, names_offered};

verus! {

/// What one physical device reports about itself and about presenting to the
/// surface in question.
pub struct PhysicalDeviceReport {
    pub handle: u64,
    pub queue_families: Vec<QueueFamilyProperties>,
    pub extension_names: Vec<String>,
    pub formats: Vec<SurfaceFormat>,
    pub present_modes: Vec<i32>,
}

/// Why no device can be set up.
#[derive(Clone, Copy, Debug, PartialEq, Eq, Structural)]
pub enum DeviceError {
    /// No enumerated device meets every requirement.
    NoCompatibleDevice,
    /// No graphics queue family was selected.
    NoGraphicsQueue,
    /// The index of the queue family does not fit in 32 bits.
    QueueIndexOutOfRange,
}

/// The properties of a device that are worth reporting.
pub struct DeviceDescription {
    pub device_name: String,
    pub device_id: u32,
    pub device_type: &'static str,
    pub api_major: u32,
    pub api_minor: u32,
    pub api_patch: u32,
}

/// Some family of the device has a queue, draws, and presents.
pub open spec fn queue_family_supported(families: Seq<QueueFamilyProperties>) -> bool {
    exists|j: int| 0 <= j < families.len() && (#[trigger] families[j]).suitable()
}

/// The surface can be presented to once the device has the extensions and
/// offers at least one format and one present mode.
pub open spec fn swapchain_supported(
    device_extension_support: bool,
    formats: Seq<SurfaceFormat>,
    present_modes: Seq<i32>,
) -> bool {
    device_extension_support && formats.len() > 0 && present_modes.len() > 0
}

impl PhysicalDeviceReport {
    /// The device meets every requirement: a family that draws and presents,
    /// the required extensions, and a presentable surface.
    pub open spec fn compatible(&self, required: Seq<&'static str>) -> bool {
        &&& queue_family_supported(self.queue_families@)
        &&& names_offered(required, self.extension_names@)
        &&& swapchain_supported(
            names_offered(required, self.extension_names@),
            self.formats@,
            self.present_modes@,
        )
    }
}

/// The major part of a packed API version.
pub open spec fn api_version_major_spec(version: u32) -> u32 {
    (version >> 22) & 0x7f
}

/// The minor part of a packed API version.
pub open spec fn api_version_minor_spec(version: u32) -> u32 {
    (version >> 12) & 0x3ff
}

/// The patch part of a packed API version.
pub open spec fn api_version_patch_spec(version: u32) -> u32 {
    version & 0xfff
}

/// `ash::vk::api_version_major` extracts bits 22 to 28 of a packed version.
pub assume_specification[ ash::vk::api_version_major ](version: u32) -> (major: u32)
    ensures
        major == api_version_major_spec(version),
;

/// `ash::vk::api_version_minor` extracts bits 12 to 21 of a packed version.
pub assume_specification[ ash::vk::api_version_minor ](version: u32) -> (minor: u32)
    ensures
        minor == api_version_minor_spec(version),
;

/// `ash::vk::api_version_patch` extracts the lowest 12 bits of a packed version.
pub assume_specification[ ash::vk::api_version_patch ](version: u32) -> (patch: u32)
    ensures
        patch == api_version_patch_spec(version),
;

/// Whether some queue family of the device draws and presents.
pub fn is_queue_family_supported(families: &[QueueFamilyProperties]) -> (supported: bool)
    ensures
        supported == queue_family_supported(families@),
{
    let queue_family = find_graphical_queue_family(families);
    proof {
        if let Some(index) = queue_family.graphics_family {
            assert(families@[index as int].suitable());
        }
    }
    queue_family.is_complete()
}

/// Whether the device offers every required extension.
pub fn is_device_extension_supported(
    extensions: &DeviceExtension,
    available_extensions: &[String],
) -> (supported: bool)
    ensures
        supported == names_offered(extensions.names@, available_extensions@),
{
    contains_all_names(available_extensions, extensions.names.as_slice())
}

/// Whether the device can present to the surface.
pub fn is_swapchain_supported(
    device_extension_support: bool,
    formats: &[SurfaceFormat],
    present_modes: &[i32],
) -> (supported: bool)
    ensures
        supported == swapchain_supported(device_extension_support, formats@, present_modes@),
{
    if device_extension_support {
        formats.len() > 0 && present_modes.len() > 0
    } else {
        false
    }
}

/// Whether the device meets every requirement.
pub fn check_device_compatability(
    report: &PhysicalDeviceReport,
    extensions: &DeviceExtension,
) -> (compatible: bool)
    ensures
        compatible == report.compatible(extensions.names@),
{
    let queue_family_support = is_queue_family_supported(report.queue_families.as_slice());
    let device_extension_support = is_device_extension_supported(
        extensions,
        report.extension_names.as_slice(),
    );
    let swapchain_support = is_swapchain_supported(
        device_extension_support,
        report.formats.as_slice(),
        report.present_modes.as_slice(),
    );
    queue_family_support && device_extension_support && swapchain_support
}

/// Selects the first compatible device, in the order the platform enumerated
/// them, and answers with its position.
pub fn select_physical_device(
    reports: &[PhysicalDeviceReport],
    extensions: &DeviceExtension,
) -> (selected: Result<usize, DeviceError>)
    ensures
        match selected {
            Ok(index) => {
                &&& index < reports@.len()
                &&& reports@[index as int].compatible(extensions.names@)
                &&& forall|j: int|
                    0 <= j < index ==> !(#[trigger] reports@[j]).compatible(extensions.names@)
            },
            Err(error) => {
                &&& error == DeviceError::NoCompatibleDevice
                &&& forall|j: int|
                    0 <= j < reports@.len() ==> !(#[trigger] reports@[j]).compatible(
                        extensions.names@,
                    )
            },
        },
{
    let mut i: usize = 0;
    while i < reports.len()
        invariant
            i <= reports@.len(),
            forall|j: int| 0 <= j < i ==> !(#[trigger] reports@[j]).compatible(extensions.names@),
        decreases reports@.len() - i,
    {
        if check_device_compatability(&reports[i], extensions) {
            return Ok(i);
        }
        i += 1;
    }
    Err(DeviceError::NoCompatibleDevice)
}

/// The name of a device type, for the types a renderer can run on.
pub fn find_device_type(device_type: i32) -> (name: Option<&'static str>)
    ensures
        device_type == PHYSICAL_DEVICE_TYPE_CPU ==> name is Some && name->Some_0@ == "CPU"@,
        device_type == PHYSICAL_DEVICE_TYPE_INTEGRATED_GPU ==> name is Some && name->Some_0@
            == "Integrated GPU"@,
        device_type == PHYSICAL_DEVICE_TYPE_DISCRETE_GPU ==> name is Some && name->Some_0@
            == "Discrete GPU"@,
        device_type == PHYSICAL_DEVICE_TYPE_VIRTUAL_GPU ==> name is Some && name->Some_0@
            == "Virtual GPU"@,
        device_type != PHYSICAL_DEVICE_TYPE_CPU && device_type
            != PHYSICAL_DEVICE_TYPE_INTEGRATED_GPU && device_type
            != PHYSICAL_DEVICE_TYPE_DISCRETE_GPU && device_type
            != PHYSICAL_DEVICE_TYPE_VIRTUAL_GPU ==> name is None,
{
    if device_type == PHYSICAL_DEVICE_TYPE_CPU {
        Some("CPU")
    } else if device_type == PHYSICAL_DEVICE_TYPE_INTEGRATED_GPU {
        Some("Integrated GPU")
    } else if device_type == PHYSICAL_DEVICE_TYPE_DISCRETE_GPU {
        Some("Discrete GPU")
    } else if device_type == PHYSICAL_DEVICE_TYPE_VIRTUAL_GPU {
        Some("Virtual GPU")
    } else {
        None
    }
}

/// Puts together what is reported about a device: its name, id and type, and
/// the parts of the API version it supports. There is no description of a
/// device whose type has no name.
pub fn describe_device(
    device_name: String,
    device_id: u32,
    device_type: i32,
    api_version: u32,
) -> (description: Option<DeviceDescription>)
    ensures
        description is Some <==> (device_type == PHYSICAL_DEVICE_TYPE_CPU || device_type
            == PHYSICAL_DEVICE_TYPE_INTEGRATED_GPU || device_type
            == PHYSICAL_DEVICE_TYPE_DISCRETE_GPU || device_type
            == PHYSICAL_DEVICE_TYPE_VIRTUAL_GPU),
        description matches Some(described) ==> {
            &&& described.device_name == device_name
            &&& described.device_id == device_id
            &&& described.api_major == api_version_major_spec(api_version)
            &&& described.api_minor == api_version_minor_spec(api_version)
            &&& described.api_patch == api_version_patch_spec(api_version)
            &&& device_type == PHYSICAL_DEVICE_TYPE_CPU ==> described.device_type@ == "CPU"@
            &&& device_type == PHYSICAL_DEVICE_TYPE_INTEGRATED_GPU ==> described.device_type@
                == "Integrated GPU"@
            &&& device_type == PHYSICAL_DEVICE_TYPE_DISCRETE_GPU ==> described.device_type@
                == "Discrete GPU"@
            &&& device_type == PHYSICAL_DEVICE_TYPE_VIRTUAL_GPU ==> described.device_type@
                == "Virtual GPU"@
        },
{
    match find_device_type(device_type) {
        Some(kind_label) => Some(
            DeviceDescription {
                device_name,
                device_id,
                device_type: kind_label,
                api_major: ash::vk::api_version_major(api_version),
                api_minor: ash::vk::api_version_minor(api_version),
                api_patch: ash::vk::api_version_patch(api_version),
            },
        ),
        None => None,
    }
}

/// Among the devices enumerated, exactly one position is selected.
pub proof fn lemma_first_compatible_unique(
    reports: Seq<PhysicalDeviceReport>,
    required: Seq<&'static str>,
    first: int,
    second: int,
)
    requires
        0 <= first < reports.len(),
        0 <= second < reports.len(),
        reports[first].compatible(required),
        reports[second].compatible(required),
        forall|j: int| 0 <= j < first ==> !(#[trigger] reports[j]).compatible(required),
        forall|j: int| 0 <= j < second ==> !(#[trigger] reports[j]).compatible(required),
    ensures
        first == second,
{
    if first < second {
        assert(!reports[first].compatible(required));
    }
    if second < first {
        assert(!reports[second].compatible(required));
    }
}

} // verus!
