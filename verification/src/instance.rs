//! Instance creation: the validation layers and extensions the instance is
//! created with.

use vstd::prelude::*;
use crate::constants::ValidationInfo;
use crate::surface::SurfacePlatform;
use crate::utilities::{contains_all_names, names_offered};
use crate::vulk_validation_layers::{
    debug_messenger_spec, setup_debug_utils, DebugMessengerCreateInfo,
};

verus! {

/// Why no instance can be created.
#[derive(Clone, Copy, Debug, PartialEq, Eq, Structural)]
pub enum InstanceError {
    /// Validation is asked for and a required layer is not installed.
    ValidationUnsupported,
}

/// How the application introduces itself to the driver.
#[derive(Clone, Copy, Debug)]
pub struct ApplicationInfo {
    pub application_name: &'static str,
    pub application_version: u32,
    pub engine_name: &'static str,
    pub engine_version: u32,
    pub api_version: u32,
}

/// The parameters an instance is created with.
pub struct InstanceCreateInfo {
    pub application_info: ApplicationInfo,
    pub enabled_layer_names: Vec<&'static str>,
    pub enabled_extension_names: Vec<&'static str>,
    /// The messenger that watches instance creation itself.
    pub debug_messenger: Option<DebugMessengerCreateInfo>,
}

/// A version packed into 32 bits: three bits of variant, seven of major, ten
/// of minor and twelve of patch version.
pub open spec fn make_api_version_spec(variant: u32, major: u32, minor: u32, patch: u32) -> u32 {
    (variant << 29) | (major << 22) | (minor << 12) | patch
}

/// `ash::vk::make_api_version` shifts variant, major and minor version into
/// place and combines them with the patch version.
pub assume_specification[ ash::vk::make_api_version ](
    variant: u32,
    major: u32,
    minor: u32,
    patch: u32,
) -> (version: u32)
    ensures
        version == make_api_version_spec(variant, major, minor, patch),
;

/// The views of a list of names.
pub open spec fn name_views(names: Seq<&'static str>) -> Seq<Seq<char>> {
    Seq::new(names.len(), |i: int| names[i]@)
}

/// The instance extensions the renderer needs on `platform`.
pub open spec fn extension_names_spec(platform: SurfacePlatform) -> Seq<Seq<char>> {
    match platform {
        SurfacePlatform::Wayland => seq![
            "VK_KHR_surface"@,
            "VK_EXT_debug_utils"@,
            "VK_KHR_wayland_surface"@,
        ],
        SurfacePlatform::Xlib => seq![
            "VK_KHR_surface"@,
            "VK_KHR_xlib_surface"@,
            "VK_EXT_debug_utils"@,
        ],
    }
}

/// The layers the instance and the device are created with.
pub open spec fn enabled_layers_spec(validation: ValidationInfo) -> Seq<Seq<char>> {
    if validation.is_enable {
        name_views(validation.required_validation_layers@)
    } else {
        Seq::empty()
    }
}

impl ApplicationInfo {
    /// The renderer's name and versions.
    pub open spec fn is_potato(self) -> bool {
        &&& self.application_name@ == "Potato"@
        &&& self.engine_name@ == "Vulkan API"@
        &&& self.application_version == make_api_version_spec(0, 0, 0, 1)
        &&& self.engine_version == make_api_version_spec(0, 0, 0, 1)
        &&& self.api_version == make_api_version_spec(0, 1, 2, 148)
    }
}

/// Whether every required validation layer is installed.
pub fn check_validation_layer_support(
    validation: &ValidationInfo,
    available_layers: &[String],
) -> (supported: bool)
    ensures
        supported == names_offered(validation.required_validation_layers@, available_layers@),
{
    contains_all_names(available_layers, validation.required_validation_layers.as_slice())
}

/// The number of layers the instance is created with: the required layers
/// with validation, none without.
pub fn get_enabled_layers_len(validation: &ValidationInfo) -> (count: u32)
    ensures
        count == enabled_layers_spec(*validation).len(),
        validation.is_enable ==> count == 1,
        !validation.is_enable ==> count == 0,
{
    if validation.is_enable {
        validation.required_validation_layers.as_slice().len() as u32
    } else {
        0
    }
}

/// The layers the instance and the device are created with.
pub fn enabled_layer_names(validation: &ValidationInfo) -> (names: Vec<&'static str>)
    ensures
        name_views(names@) == enabled_layers_spec(*validation),
{
    let mut names: Vec<&'static str> = Vec::new();
    if validation.is_enable {
        names.push(validation.required_validation_layers[0]);
    }
    assert(name_views(names@) =~= enabled_layers_spec(*validation));
    names
}

/// The instance extensions the renderer needs on `platform`: the surface
/// extension, that of the windowing system, and the debug extension.
pub fn create_extention_names(platform: SurfacePlatform) -> (names: Vec<&'static str>)
    ensures
        name_views(names@) == extension_names_spec(platform),
{
    let mut names: Vec<&'static str> = Vec::new();
    match platform {
        SurfacePlatform::Wayland => {
            names.push("VK_KHR_surface");
            names.push("VK_EXT_debug_utils");
            names.push("VK_KHR_wayland_surface");
        },
        SurfacePlatform::Xlib => {
            names.push("VK_KHR_surface");
            names.push("VK_KHR_xlib_surface");
            names.push("VK_EXT_debug_utils");
        },
    }
    assert(name_views(names@) =~= extension_names_spec(platform));
    names
}

/// Derives the parameters the instance is created with. Refused when
/// validation is asked for and a required layer is not installed.
pub fn create_instance(
    validation: &ValidationInfo,
    available_layers: &[String],
    platform: SurfacePlatform,
) -> (info: Result<InstanceCreateInfo, InstanceError>)
    ensures
        info is Err <==> validation.is_enable && !names_offered(
            validation.required_validation_layers@,
            available_layers@,
        ),
        info matches Err(error) ==> error == InstanceError::ValidationUnsupported,
        info matches Ok(created) ==> {
            &&& created.application_info.is_potato()
            &&& created.application_info.application_version == 1
            &&& created.application_info.engine_version == 1
            &&& created.application_info.api_version == 4202644
            &&& name_views(created.enabled_layer_names@) == enabled_layers_spec(*validation)
            &&& name_views(created.enabled_extension_names@) == extension_names_spec(platform)
            &&& validation.is_enable ==> created.debug_messenger == Some(debug_messenger_spec())
            &&& !validation.is_enable ==> created.debug_messenger is None
        },
{
    if validation.is_enable && !check_validation_layer_support(validation, available_layers) {
        return Err(InstanceError::ValidationUnsupported);
    }
    proof {
        lemma_packed_versions();
    }
    let application_info = ApplicationInfo {
        application_name: "Potato",
        application_version: ash::vk::make_api_version(0, 0, 0, 1),
        engine_name: "Vulkan API",
        engine_version: ash::vk::make_api_version(0, 0, 0, 1),
        api_version: ash::vk::make_api_version(0, 1, 2, 148),
    };
    Ok(
        InstanceCreateInfo {
            application_info,
            enabled_layer_names: enabled_layer_names(validation),
            enabled_extension_names: create_extention_names(platform),
            debug_messenger: setup_debug_utils(validation),
        },
    )
}

/// The API version the renderer asks for is 1.2.148, which packs to 4202644;
/// its own version, 0.0.1, packs to 1.
pub proof fn lemma_packed_versions()
    ensures
        make_api_version_spec(0, 1, 2, 148) == 4202644,
        make_api_version_spec(0, 0, 0, 1) == 1,
{
    assert(((0u32 << 29) | (1u32 << 22) | (2u32 << 12) | 148u32) == 4202644u32) by (bit_vector);
    assert(((0u32 << 29) | (0u32 << 22) | (0u32 << 12) | 1u32) == 1u32) by (bit_vector);
}

} // verus!
