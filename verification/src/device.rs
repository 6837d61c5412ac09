//! Logical device creation: one queue of the selected family at the highest
//! priority, the swapchain extension, and the validation layers of the instance.

use vstd::prelude::*;
use crate::constants::{DeviceExtension, ValidationInfo};
use crate::instance::{enabled_layer_names, enabled_layers_spec, name_views};
use crate::physical_device::DeviceError;
use crate::queue_family::QueueFamily;

verus! {

/// The parameters a logical device is created with.
pub struct DeviceCreateInfo {
    pub queue_family_index: u32,
    pub queue_count: u32,
    /// The priority of each queue, between 0, the lowest, and 1, the highest.
    pub queue_priority: u32,
    pub enabled_layer_names: Vec<&'static str>,
    pub enabled_extension_names: Vec<&'static str>,
}

/// Derives the parameters the logical device is created with. Refused when no
/// graphics family was selected or its index does not fit in 32 bits.
pub fn create_logical_device(
    queue_family: &QueueFamily,
    validation: &ValidationInfo,
    extensions: &DeviceExtension,
) -> (info: Result<DeviceCreateInfo, DeviceError>)
    ensures
        queue_family.graphics_family is None ==> info is Err && info->Err_0
            == DeviceError::NoGraphicsQueue,
        queue_family.graphics_family is Some && queue_family.graphics_family->Some_0 > u32::MAX
            ==> info is Err && info->Err_0 == DeviceError::QueueIndexOutOfRange,
        queue_family.graphics_family is Some && queue_family.graphics_family->Some_0 <= u32::MAX
            ==> {
            &&& info is Ok
            &&& info->Ok_0.queue_family_index == queue_family.graphics_family->Some_0
            &&& info->Ok_0.queue_count == 1
            &&& info->Ok_0.queue_priority == 1
            &&& name_views(info->Ok_0.enabled_layer_names@) == enabled_layers_spec(*validation)
            &&& name_views(info->Ok_0.enabled_extension_names@) == name_views(extensions.names@)
        },
{
    match queue_family.graphics_family {
        None => Err(DeviceError::NoGraphicsQueue),
        Some(index) => {
            if index > u32::MAX as usize {
                Err(DeviceError::QueueIndexOutOfRange)
            } else {
                let mut enabled_extension_names: Vec<&'static str> = Vec::new();
                enabled_extension_names.push(extensions.names[0]);
                assert(name_views(enabled_extension_names@) =~= name_views(extensions.names@));
                Ok(
                    DeviceCreateInfo {
                        queue_family_index: index as u32,
                        queue_count: 1,
                        queue_priority: 1,
                        enabled_layer_names: enabled_layer_names(validation),
                        enabled_extension_names,
                    },
                )
            }
        },
    }
}

} // verus!
