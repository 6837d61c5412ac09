//! The uniform buffers of the extended pipeline: one buffer and one
//! descriptor set per swapchain image, read by the vertex stage.

use vstd::prelude::*;
use crate::buffer::BufferCreateInfo;
use crate::constants::{
    BUFFER_USAGE_UNIFORM_BUFFER, DESCRIPTOR_TYPE_UNIFORM_BUFFER, MEMORY_PROPERTY_HOST_COHERENT,
    MEMORY_PROPERTY_HOST_VISIBLE, SHADER_STAGE_VERTEX, SHARING_MODE_EXCLUSIVE,
};

verus! {

/// The size in bytes of the record a uniform buffer holds: the model, view and
/// projection matrices, each four by four single-precision numbers.
pub const UNIFORM_BUFFER_OBJECT_SIZE: u64 = 192;

/// One binding of a descriptor set layout.
#[derive(Clone, Copy, Debug, PartialEq, Eq, Structural)]
pub struct DescriptorSetLayoutBinding {
    pub binding: u32,
    pub descriptor_type: i32,
    pub descriptor_count: u32,
    pub stage_flags: u32,
}

/// A uniform buffer and the properties of the memory behind it.
#[derive(Clone, Copy, Debug, PartialEq, Eq, Structural)]
pub struct UniformBufferCreateInfo {
    pub buffer: BufferCreateInfo,
    pub properties: u32,
}

/// The parameters a descriptor pool is created with.
#[derive(Clone, Copy, Debug, PartialEq, Eq, Structural)]
pub struct DescriptorPoolCreateInfo {
    pub max_sets: u32,
    pub descriptor_type: i32,
    pub descriptor_count: u32,
}

/// The parameters descriptor sets are allocated with: the same layout for
/// each of `descriptor_set_count` sets.
#[derive(Clone, Copy, Debug, PartialEq, Eq, Structural)]
pub struct DescriptorSetAllocateInfo {
    pub descriptor_pool: u64,
    pub descriptor_set_layout: u64,
    pub descriptor_set_count: u32,
}

/// Points binding 0 of a descriptor set at a whole uniform buffer.
#[derive(Clone, Copy, Debug, PartialEq, Eq, Structural)]
pub struct WriteDescriptorSet {
    pub dst_set: u64,
    pub dst_binding: u32,
    pub dst_array_element: u32,
    pub descriptor_count: u32,
    pub descriptor_type: i32,
    pub buffer: u64,
    pub offset: u64,
    pub range: u64,
}

/// Why the descriptors cannot be set up.
#[derive(Clone, Copy, Debug, PartialEq, Eq, Structural)]
pub enum DescriptorError {
    /// The number of swapchain images does not fit in 32 bits.
    TooManyImages,
    /// There are fewer uniform buffers than descriptor sets.
    MissingUniformBuffer,
}

/// One uniform buffer at binding 0, visible to the vertex stage.
pub open spec fn layout_binding_spec() -> DescriptorSetLayoutBinding {
    DescriptorSetLayoutBinding {
        binding: 0,
        descriptor_type: DESCRIPTOR_TYPE_UNIFORM_BUFFER,
        descriptor_count: 1,
        stage_flags: SHADER_STAGE_VERTEX,
    }
}

/// A buffer for one record, in memory the host can write without flushing.
pub open spec fn uniform_buffer_spec() -> UniformBufferCreateInfo {
    UniformBufferCreateInfo {
        buffer: BufferCreateInfo {
            size: UNIFORM_BUFFER_OBJECT_SIZE,
            usage: BUFFER_USAGE_UNIFORM_BUFFER,
            sharing_mode: SHARING_MODE_EXCLUSIVE,
        },
        properties: MEMORY_PROPERTY_HOST_VISIBLE | MEMORY_PROPERTY_HOST_COHERENT,
    }
}

/// The write that points `descriptor_set` at `buffer`.
pub open spec fn descriptor_write_spec(descriptor_set: u64, buffer: u64) -> WriteDescriptorSet {
    WriteDescriptorSet {
        dst_set: descriptor_set,
        dst_binding: 0,
        dst_array_element: 0,
        descriptor_count: 1,
        descriptor_type: DESCRIPTOR_TYPE_UNIFORM_BUFFER,
        buffer,
        offset: 0,
        range: UNIFORM_BUFFER_OBJECT_SIZE,
    }
}

/// Describes the descriptor set layout: one uniform buffer for the vertex stage.
pub fn create_descriptor_set_layout() -> (binding: DescriptorSetLayoutBinding)
    ensures
        binding == layout_binding_spec(),
{
    DescriptorSetLayoutBinding {
        binding: 0,
        descriptor_type: DESCRIPTOR_TYPE_UNIFORM_BUFFER,
        descriptor_count: 1,
        stage_flags: SHADER_STAGE_VERTEX,
    }
}

/// Describes one uniform buffer per swapchain image.
pub fn create_uniform_buffers(swapchain_image_count: usize) -> (infos: Vec<UniformBufferCreateInfo>)
    ensures
        infos@.len() == swapchain_image_count,
        forall|i: int| 0 <= i < swapchain_image_count ==> #[trigger] infos@[i]
            == uniform_buffer_spec(),
{
    let mut infos: Vec<UniformBufferCreateInfo> = Vec::new();
    let mut i: usize = 0;
    while i < swapchain_image_count
        invariant
            i <= swapchain_image_count,
            infos@.len() == i,
            forall|j: int| 0 <= j < i ==> #[trigger] infos@[j] == uniform_buffer_spec(),
        decreases swapchain_image_count - i,
    {
        infos.push(
            UniformBufferCreateInfo {
                buffer: BufferCreateInfo {
                    size: UNIFORM_BUFFER_OBJECT_SIZE,
                    usage: BUFFER_USAGE_UNIFORM_BUFFER,
                    sharing_mode: SHARING_MODE_EXCLUSIVE,
                },
                properties: MEMORY_PROPERTY_HOST_VISIBLE | MEMORY_PROPERTY_HOST_COHERENT,
            },
        );
        i += 1;
    }
    infos
}

/// Describes a descriptor pool with room for one uniform buffer descriptor set
/// per swapchain image. Refused when the images are too many to count in 32 bits.
pub fn create_descriptor_pool(swapchain_images_size: usize) -> (info: Result<
    DescriptorPoolCreateInfo,
    DescriptorError,
>)
    ensures
        swapchain_images_size > u32::MAX ==> info == Err::<
            DescriptorPoolCreateInfo,
            DescriptorError,
        >(DescriptorError::TooManyImages),
        swapchain_images_size <= u32::MAX ==> info == Ok::<
            DescriptorPoolCreateInfo,
            DescriptorError,
        >(
            DescriptorPoolCreateInfo {
                max_sets: swapchain_images_size as u32,
                descriptor_type: DESCRIPTOR_TYPE_UNIFORM_BUFFER,
                descriptor_count: swapchain_images_size as u32,
            },
        ),
{
    if swapchain_images_size > u32::MAX as usize {
        Err(DescriptorError::TooManyImages)
    } else {
        Ok(
            DescriptorPoolCreateInfo {
                max_sets: swapchain_images_size as u32,
                descriptor_type: DESCRIPTOR_TYPE_UNIFORM_BUFFER,
                descriptor_count: swapchain_images_size as u32,
            },
        )
    }
}

/// Describes the allocation of one descriptor set per swapchain image, all of
/// the same layout. Refused when the images are too many to count in 32 bits.
pub fn create_descriptor_sets(
    descriptor_pool: u64,
    descriptor_set_layout: u64,
    swapchain_images_size: usize,
) -> (info: Result<DescriptorSetAllocateInfo, DescriptorError>)
    ensures
        swapchain_images_size > u32::MAX ==> info == Err::<
            DescriptorSetAllocateInfo,
            DescriptorError,
        >(DescriptorError::TooManyImages),
        swapchain_images_size <= u32::MAX ==> info == Ok::<
            DescriptorSetAllocateInfo,
            DescriptorError,
        >(
            DescriptorSetAllocateInfo {
                descriptor_pool,
                descriptor_set_layout,
                descriptor_set_count: swapchain_images_size as u32,
            },
        ),
{
    if swapchain_images_size > u32::MAX as usize {
        Err(DescriptorError::TooManyImages)
    } else {
        Ok(
            DescriptorSetAllocateInfo {
                descriptor_pool,
                descriptor_set_layout,
                descriptor_set_count: swapchain_images_size as u32,
            },
        )
    }
}

/// Describes the writes that point each descriptor set at the uniform buffer
/// of the same position. Refused when there are fewer buffers than sets.
pub fn write_descriptor_sets(descriptor_sets: &[u64], uniform_buffers: &[u64]) -> (writes: Result<
    Vec<WriteDescriptorSet>,
    DescriptorError,
>)
    ensures
        uniform_buffers@.len() < descriptor_sets@.len() ==> writes is Err && writes->Err_0
            == DescriptorError::MissingUniformBuffer,
        uniform_buffers@.len() >= descriptor_sets@.len() ==> {
            &&& writes is Ok
            &&& writes->Ok_0@.len() == descriptor_sets@.len()
            &&& forall|i: int|
                0 <= i < descriptor_sets@.len() ==> #[trigger] writes->Ok_0@[i]
                    == descriptor_write_spec(descriptor_sets@[i], uniform_buffers@[i])
        },
{
    if uniform_buffers.len() < descriptor_sets.len() {
        return Err(DescriptorError::MissingUniformBuffer);
    }
    let mut writes: Vec<WriteDescriptorSet> = Vec::new();
    let mut i: usize = 0;
    while i < descriptor_sets.len()
        invariant
            i <= descriptor_sets@.len(),
            descriptor_sets@.len() <= uniform_buffers@.len(),
            writes@.len() == i,
            forall|j: int|
                0 <= j < i ==> #[trigger] writes@[j] == descriptor_write_spec(
                    descriptor_sets@[j],
                    uniform_buffers@[j],
                ),
        decreases descriptor_sets@.len() - i,
    {
        writes.push(
            WriteDescriptorSet {
                dst_set: descriptor_sets[i],
                dst_binding: 0,
                dst_array_element: 0,
                descriptor_count: 1,
                descriptor_type: DESCRIPTOR_TYPE_UNIFORM_BUFFER,
                buffer: uniform_buffers[i],
                offset: 0,
                range: UNIFORM_BUFFER_OBJECT_SIZE,
            },
        );
        i += 1;
    }
    Ok(writes)
}

} // verus!
