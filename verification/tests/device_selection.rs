use ash::vk::DebugUtilsMessageSeverityFlagsEXT as Severity;
use ash::vk::DebugUtilsMessageTypeFlagsEXT as Kind;
use potato::constants::{
    default_device_extensions, default_validation, DeviceExtension, ValidationInfo,
    PHYSICAL_DEVICE_TYPE_CPU, PHYSICAL_DEVICE_TYPE_DISCRETE_GPU,
    PHYSICAL_DEVICE_TYPE_INTEGRATED_GPU, PHYSICAL_DEVICE_TYPE_VIRTUAL_GPU, QUEUE_GRAPHICS,
};
use potato::device::create_logical_device;
use potato::instance::{
    check_validation_layer_support, create_extention_names, create_instance,
    enabled_layer_names, get_enabled_layers_len, InstanceError,
};
use potato::physical_device::{
    check_device_compatability, describe_device, find_device_type, is_device_extension_supported,
    is_queue_family_supported, is_swapchain_supported, select_physical_device, DeviceError,
    PhysicalDeviceReport,
};
use potato::queue_family::{
    find_graphical_queue_family, is_suitable, QueueFamily, QueueFamilyProperties,
};
use potato::surface::{create_platform_surface, create_surface, PotatoSurface, SurfaceError, SurfacePlatform};
use potato::swapchain::SurfaceFormat;
use potato::vulk_validation_layers::{
    message_type_label, populate_debug_messenger_create_info, setup_debug_utils, severity_label,
    vulkan_debug_utils_callback,
};

const COMPUTE: u32 = 0x2;
const TRANSFER: u32 = 0x4;

fn family(queue_count: u32, queue_flags: u32, present_support: bool) -> QueueFamilyProperties {
    QueueFamilyProperties { queue_count, queue_flags, present_support }
}

fn names(list: &[&str]) -> Vec<String> {
    list.iter().map(|name| name.to_string()).collect()
}

fn report(
    handle: u64,
    queue_families: Vec<QueueFamilyProperties>,
    extensions: &[&str],
    formats: usize,
    present_modes: usize,
) -> PhysicalDeviceReport {
    PhysicalDeviceReport {
        handle,
        queue_families,
        extension_names: names(extensions),
        formats: vec![SurfaceFormat { format: 50, color_space: 0 }; formats],
        present_modes: vec![2; present_modes],
    }
}

fn good_report(handle: u64) -> PhysicalDeviceReport {
    report(handle, vec![family(1, QUEUE_GRAPHICS, true)], &["VK_KHR_swapchain"], 1, 1)
}

#[test]
fn a_selection_is_complete_with_a_graphics_family() {
    assert!(QueueFamily { graphics_family: Some(0), present_family: None }.is_complete());
    assert!(QueueFamily { graphics_family: Some(3), present_family: Some(3) }.is_complete());
    assert!(!QueueFamily { graphics_family: None, present_family: Some(1) }.is_complete());
    assert!(!QueueFamily { graphics_family: None, present_family: None }.is_complete());
}

#[test]
fn graphics_bit_agrees_with_ash() {
    assert_eq!(QUEUE_GRAPHICS, ash::vk::QueueFlags::GRAPHICS.as_raw());
    assert_eq!(COMPUTE, ash::vk::QueueFlags::COMPUTE.as_raw());
}

#[test]
fn a_family_suits_when_it_draws_presents_and_has_a_queue() {
    assert!(is_suitable(&family(1, QUEUE_GRAPHICS, true)));
    assert!(is_suitable(&family(4, QUEUE_GRAPHICS | COMPUTE | TRANSFER, true)));
    assert!(!is_suitable(&family(0, QUEUE_GRAPHICS, true)));
    assert!(!is_suitable(&family(1, COMPUTE | TRANSFER, true)));
    assert!(!is_suitable(&family(1, 0, true)));
    assert!(!is_suitable(&family(1, QUEUE_GRAPHICS, false)));
}

#[test]
fn the_first_suitable_family_gets_both_roles() {
    let families = [
        family(2, COMPUTE, true),
        family(0, QUEUE_GRAPHICS, true),
        family(1, QUEUE_GRAPHICS, false),
        family(1, QUEUE_GRAPHICS | COMPUTE, true),
        family(1, QUEUE_GRAPHICS, true),
    ];
    let selection = find_graphical_queue_family(&families);
    assert_eq!(selection, QueueFamily { graphics_family: Some(3), present_family: Some(3) });
    let none = find_graphical_queue_family(&families[..3]);
    assert_eq!(none, QueueFamily { graphics_family: None, present_family: None });
    assert!(!find_graphical_queue_family(&[]).is_complete());
    assert!(is_queue_family_supported(&families));
    assert!(!is_queue_family_supported(&families[..3]));
}

#[test]
fn required_extensions_have_to_be_offered() {
    let extensions = default_device_extensions();
    assert_eq!(extensions.names, ["VK_KHR_swapchain"]);
    assert!(is_device_extension_supported(&extensions, &names(&["VK_KHR_maintenance1", "VK_KHR_swapchain"])));
    assert!(!is_device_extension_supported(&extensions, &names(&["VK_KHR_swapchain_mutable_format"])));
    assert!(!is_device_extension_supported(&extensions, &[]));
    let other = DeviceExtension { names: ["VK_KHR_maintenance1"] };
    assert!(!is_device_extension_supported(&other, &names(&["VK_KHR_swapchain"])));
}

#[test]
fn a_surface_is_presentable_with_a_format_and_a_mode() {
    let format = [SurfaceFormat { format: 50, color_space: 0 }];
    assert!(is_swapchain_supported(true, &format, &[2]));
    assert!(!is_swapchain_supported(false, &format, &[2]));
    assert!(!is_swapchain_supported(true, &[], &[2]));
    assert!(!is_swapchain_supported(true, &format, &[]));
}

#[test]
fn the_first_compatible_device_is_selected() {
    let extensions = default_device_extensions();
    let reports = vec![
        report(10, vec![family(1, COMPUTE, true)], &["VK_KHR_swapchain"], 1, 1),
        report(11, vec![family(1, QUEUE_GRAPHICS, true)], &[], 1, 1),
        report(12, vec![family(1, QUEUE_GRAPHICS, true)], &["VK_KHR_swapchain"], 0, 1),
        report(13, vec![family(1, QUEUE_GRAPHICS, true)], &["VK_KHR_swapchain"], 1, 0),
        good_report(14),
        good_report(15),
    ];
    for (at, expected) in [false, false, false, false, true, true].iter().enumerate() {
        assert_eq!(check_device_compatability(&reports[at], &extensions), *expected);
    }
    assert_eq!(select_physical_device(&reports, &extensions), Ok(4));
    assert_eq!(reports[4].handle, 14);
    assert_eq!(select_physical_device(&reports[5..], &extensions), Ok(0));
}

#[test]
fn no_compatible_device_is_an_error() {
    let extensions = default_device_extensions();
    let reports = vec![
        report(10, vec![family(1, COMPUTE, true)], &["VK_KHR_swapchain"], 1, 1),
        report(11, vec![family(1, QUEUE_GRAPHICS, true)], &[], 1, 1),
    ];
    assert_eq!(select_physical_device(&reports, &extensions), Err(DeviceError::NoCompatibleDevice));
    assert_eq!(select_physical_device(&[], &extensions), Err(DeviceError::NoCompatibleDevice));
}

#[test]
fn device_types_have_names() {
    assert_eq!(PHYSICAL_DEVICE_TYPE_CPU, ash::vk::PhysicalDeviceType::CPU.as_raw());
    assert_eq!(PHYSICAL_DEVICE_TYPE_INTEGRATED_GPU, ash::vk::PhysicalDeviceType::INTEGRATED_GPU.as_raw());
    assert_eq!(PHYSICAL_DEVICE_TYPE_DISCRETE_GPU, ash::vk::PhysicalDeviceType::DISCRETE_GPU.as_raw());
    assert_eq!(PHYSICAL_DEVICE_TYPE_VIRTUAL_GPU, ash::vk::PhysicalDeviceType::VIRTUAL_GPU.as_raw());
    assert_eq!(find_device_type(PHYSICAL_DEVICE_TYPE_CPU), Some("CPU"));
    assert_eq!(find_device_type(PHYSICAL_DEVICE_TYPE_INTEGRATED_GPU), Some("Integrated GPU"));
    assert_eq!(find_device_type(PHYSICAL_DEVICE_TYPE_DISCRETE_GPU), Some("Discrete GPU"));
    assert_eq!(find_device_type(PHYSICAL_DEVICE_TYPE_VIRTUAL_GPU), Some("Virtual GPU"));
    assert_eq!(find_device_type(ash::vk::PhysicalDeviceType::OTHER.as_raw()), None);
    assert_eq!(find_device_type(99), None);
}

#[test]
fn a_device_is_described_with_its_version_parts() {
    let version = ash::vk::make_api_version(0, 1, 3, 251);
    let described =
        describe_device("Potato GPU".to_string(), 0x1234, PHYSICAL_DEVICE_TYPE_DISCRETE_GPU, version)
            .unwrap();
    assert_eq!(described.device_name, "Potato GPU");
    assert_eq!(described.device_id, 0x1234);
    assert_eq!(described.device_type, "Discrete GPU");
    assert_eq!(
        (described.api_major, described.api_minor, described.api_patch),
        (1, 3, 251)
    );
    let packed = describe_device(String::new(), 0, PHYSICAL_DEVICE_TYPE_CPU, 4202644).unwrap();
    assert_eq!((packed.api_major, packed.api_minor, packed.api_patch), (1, 2, 148));
    assert!(describe_device("x".to_string(), 1, 0, version).is_none());
}

#[test]
fn validation_layers_have_to_be_installed() {
    let validation = default_validation();
    assert!(validation.is_enable);
    assert_eq!(validation.required_validation_layers, ["VK_LAYER_KHRONOS_validation"]);
    assert!(check_validation_layer_support(
        &validation,
        &names(&["VK_LAYER_MESA_overlay", "VK_LAYER_KHRONOS_validation"])
    ));
    assert!(!check_validation_layer_support(&validation, &names(&["VK_LAYER_MESA_overlay"])));
    assert!(!check_validation_layer_support(&validation, &[]));
}

#[test]
fn layers_are_enabled_only_with_validation() {
    let enabled = default_validation();
    let disabled = ValidationInfo { is_enable: false, ..default_validation() };
    assert_eq!(get_enabled_layers_len(&enabled), 1);
    assert_eq!(get_enabled_layers_len(&disabled), 0);
    assert_eq!(enabled_layer_names(&enabled), vec!["VK_LAYER_KHRONOS_validation"]);
    assert!(enabled_layer_names(&disabled).is_empty());
}

#[test]
fn instance_extensions_depend_on_the_platform() {
    assert_eq!(
        create_extention_names(SurfacePlatform::Wayland),
        vec!["VK_KHR_surface", "VK_EXT_debug_utils", "VK_KHR_wayland_surface"]
    );
    assert_eq!(
        create_extention_names(SurfacePlatform::Xlib),
        vec!["VK_KHR_surface", "VK_KHR_xlib_surface", "VK_EXT_debug_utils"]
    );
    assert_eq!(ash::extensions::khr::Surface::name().to_str().unwrap(), "VK_KHR_surface");
    assert_eq!(ash::extensions::ext::DebugUtils::name().to_str().unwrap(), "VK_EXT_debug_utils");
    assert_eq!(
        ash::extensions::khr::WaylandSurface::name().to_str().unwrap(),
        "VK_KHR_wayland_surface"
    );
    assert_eq!(ash::extensions::khr::XlibSurface::name().to_str().unwrap(), "VK_KHR_xlib_surface");
    assert_eq!(ash::extensions::khr::Swapchain::name().to_str().unwrap(), "VK_KHR_swapchain");
}

#[test]
fn instance_is_created_with_layers_extensions_and_versions() {
    let validation = default_validation();
    let info = create_instance(
        &validation,
        &names(&["VK_LAYER_KHRONOS_validation"]),
        SurfacePlatform::Wayland,
    )
    .ok()
    .unwrap();
    assert_eq!(info.application_info.application_name, "Potato");
    assert_eq!(info.application_info.engine_name, "Vulkan API");
    assert_eq!(info.application_info.application_version, 1);
    assert_eq!(info.application_info.engine_version, 1);
    assert_eq!(info.application_info.api_version, 4202644);
    assert_eq!(info.application_info.api_version, (1 << 22) | (2 << 12) | 148);
    assert_eq!(info.enabled_layer_names, vec!["VK_LAYER_KHRONOS_validation"]);
    assert_eq!(info.enabled_extension_names, create_extention_names(SurfacePlatform::Wayland));
    assert_eq!(info.debug_messenger, Some(populate_debug_messenger_create_info()));
}

#[test]
fn instance_is_refused_without_the_validation_layer() {
    let validation = default_validation();
    let refused = create_instance(&validation, &names(&["VK_LAYER_other"]), SurfacePlatform::Xlib);
    assert!(matches!(refused, Err(InstanceError::ValidationUnsupported)));
    let disabled = ValidationInfo { is_enable: false, ..default_validation() };
    let info = create_instance(&disabled, &[], SurfacePlatform::Xlib).ok().unwrap();
    assert!(info.enabled_layer_names.is_empty());
    assert_eq!(info.debug_messenger, None);
    assert_eq!(info.enabled_extension_names.len(), 3);
}

#[test]
fn debug_messenger_listens_to_warnings_and_errors() {
    let info = populate_debug_messenger_create_info();
    assert_eq!(info.message_severity, (Severity::WARNING | Severity::ERROR).as_raw());
    assert_eq!(
        info.message_type,
        (Kind::GENERAL | Kind::PERFORMANCE | Kind::VALIDATION).as_raw()
    );
    assert_eq!(setup_debug_utils(&default_validation()), Some(info));
    let disabled = ValidationInfo { is_enable: false, ..default_validation() };
    assert_eq!(setup_debug_utils(&disabled), None);
}

#[test]
fn debug_messages_are_labelled() {
    assert_eq!(severity_label(Severity::VERBOSE.as_raw()), "[Verbose]");
    assert_eq!(severity_label(Severity::WARNING.as_raw()), "[Warning]");
    assert_eq!(severity_label(Severity::ERROR.as_raw()), "[Error]");
    assert_eq!(severity_label(Severity::INFO.as_raw()), "[Info]");
    assert_eq!(severity_label((Severity::INFO | Severity::ERROR).as_raw()), "[Unknown]");
    assert_eq!(severity_label(0), "[Unknown]");
    assert_eq!(message_type_label(Kind::GENERAL.as_raw()), "[General]");
    assert_eq!(message_type_label(Kind::PERFORMANCE.as_raw()), "[Performance]");
    assert_eq!(message_type_label(Kind::VALIDATION.as_raw()), "[Validation]");
    assert_eq!(message_type_label(0x8), "[Unknown]");
    assert_eq!(
        vulkan_debug_utils_callback(Severity::ERROR.as_raw(), Kind::VALIDATION.as_raw()),
        ("[Error]", "[Validation]", false)
    );
}

#[test]
fn logical_device_takes_one_queue_of_the_graphics_family() {
    let validation = default_validation();
    let extensions = default_device_extensions();
    let selected = QueueFamily { graphics_family: Some(2), present_family: Some(2) };
    let info = create_logical_device(&selected, &validation, &extensions).ok().unwrap();
    assert_eq!(info.queue_family_index, 2);
    assert_eq!(info.queue_count, 1);
    assert_eq!(info.queue_priority, 1);
    assert_eq!(info.enabled_layer_names, vec!["VK_LAYER_KHRONOS_validation"]);
    assert_eq!(info.enabled_extension_names, vec!["VK_KHR_swapchain"]);
    let disabled = ValidationInfo { is_enable: false, ..default_validation() };
    let info = create_logical_device(&selected, &disabled, &extensions).ok().unwrap();
    assert!(info.enabled_layer_names.is_empty());
    let none = QueueFamily { graphics_family: None, present_family: None };
    assert!(matches!(
        create_logical_device(&none, &validation, &extensions),
        Err(DeviceError::NoGraphicsQueue)
    ));
}

#[test]
fn logical_device_refuses_an_index_beyond_32_bits() {
    let validation = default_validation();
    let extensions = default_device_extensions();
    let far = QueueFamily { graphics_family: Some(usize::MAX), present_family: None };
    if usize::MAX as u128 > u32::MAX as u128 {
        assert!(matches!(
            create_logical_device(&far, &validation, &extensions),
            Err(DeviceError::QueueIndexOutOfRange)
        ));
    }
}

#[test]
fn surface_platform_follows_the_window() {
    assert_eq!(create_platform_surface(true, true), Ok(SurfacePlatform::Wayland));
    assert_eq!(create_platform_surface(true, false), Ok(SurfacePlatform::Wayland));
    assert_eq!(create_platform_surface(false, true), Ok(SurfacePlatform::Xlib));
    assert_eq!(create_platform_surface(false, false), Err(SurfaceError::UnsupportedPlatform));
}

#[test]
fn surface_is_taken_only_on_success() {
    assert_eq!(
        create_surface(SurfacePlatform::Xlib, 0, 5),
        Ok(PotatoSurface { surface: 5, platform: SurfacePlatform::Xlib })
    );
    assert_eq!(create_surface(SurfacePlatform::Xlib, -3, 5), Err(SurfaceError::CreationFailed(-3)));
    assert_eq!(
        create_surface(SurfacePlatform::Wayland, 0, 0),
        Ok(PotatoSurface { surface: 0, platform: SurfacePlatform::Wayland })
    );
    assert_eq!(
        create_surface(SurfacePlatform::Wayland, 1000001003, 7),
        Err(SurfaceError::CreationFailed(1000001003))
    );
}
