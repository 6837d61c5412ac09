//! The vertex record, how the pipeline reads it, and how vertex and index
//! data reach device-local memory.

use vstd::prelude::*;
use crate::buffer::{BufferCreateInfo, BufferError};
use crate::constants::{
    BUFFER_USAGE_TRANSFER_SRC, FORMAT_R32G32B32_SFLOAT, FORMAT_R32G32_SFLOAT,
    MEMORY_PROPERTY_DEVICE_LOCAL, MEMORY_PROPERTY_HOST_COHERENT, MEMORY_PROPERTY_HOST_VISIBLE,
    SHARING_MODE_EXCLUSIVE, VERTEX_INPUT_RATE_VERTEX,
};

verus! {

/// The size of a vertex record in bytes.
pub const VERTEX_STRIDE: u32 = 20;

/// The byte offset of the position within a vertex record.
pub const VERTEX_POSITION_OFFSET: u32 = 0;

/// The byte offset of the color within a vertex record.
pub const VERTEX_COLOR_OFFSET: u32 = 8;

/// The size of an index in bytes.
pub const INDEX_SIZE: u64 = 4;

/// A vertex as it lies in the vertex buffer: a position of two and a color of
/// three single-precision numbers, tightly packed. Each number is held as its
/// IEEE 754 bit pattern.
#[derive(Clone, Copy, Debug, PartialEq, Eq)]
pub struct Vertex {
    pub pos: [u32; 2],
    pub color: [u32; 3],
}

/// How a vertex buffer is stepped through.
#[derive(Clone, Copy, Debug, PartialEq, Eq, Structural)]
pub struct VertexInputBindingDescription {
    pub binding: u32,
    pub stride: u32,
    pub input_rate: i32,
}

/// Where one shader input is found within a vertex record.
#[derive(Clone, Copy, Debug, PartialEq, Eq, Structural)]
pub struct VertexInputAttributeDescription {
    pub location: u32,
    pub binding: u32,
    pub format: i32,
    pub offset: u32,
}

/// An upload through a staging buffer: the data is written to a host-visible
/// buffer, copied into a device-local one, and the staging buffer is released.
#[derive(Clone, Copy, Debug, PartialEq, Eq, Structural)]
pub struct StagedUpload {
    pub size: u64,
    pub staging_buffer: BufferCreateInfo,
    pub staging_properties: u32,
    pub buffer: BufferCreateInfo,
    pub properties: u32,
}

/// The one binding: whole vertex records, one per vertex.
pub open spec fn binding_description_spec() -> VertexInputBindingDescription {
    VertexInputBindingDescription {
        binding: 0,
        stride: VERTEX_STRIDE,
        input_rate: VERTEX_INPUT_RATE_VERTEX,
    }
}

/// The position: two numbers at the start of the record, read at location 0.
pub open spec fn position_attribute_spec() -> VertexInputAttributeDescription {
    VertexInputAttributeDescription {
        location: 0,
        binding: 0,
        format: FORMAT_R32G32_SFLOAT,
        offset: VERTEX_POSITION_OFFSET,
    }
}

/// The color: three numbers behind the position, read at location 1.
pub open spec fn color_attribute_spec() -> VertexInputAttributeDescription {
    VertexInputAttributeDescription {
        location: 1,
        binding: 0,
        format: FORMAT_R32G32B32_SFLOAT,
        offset: VERTEX_COLOR_OFFSET,
    }
}

/// The upload of `size` bytes into a buffer used as `usage` says.
pub open spec fn staged_upload_spec(size: u64, usage: u32) -> StagedUpload {
    StagedUpload {
        size,
        staging_buffer: BufferCreateInfo {
            size,
            usage: BUFFER_USAGE_TRANSFER_SRC,
            sharing_mode: SHARING_MODE_EXCLUSIVE,
        },
        staging_properties: MEMORY_PROPERTY_HOST_VISIBLE | MEMORY_PROPERTY_HOST_COHERENT,
        buffer: BufferCreateInfo { size, usage, sharing_mode: SHARING_MODE_EXCLUSIVE },
        properties: MEMORY_PROPERTY_DEVICE_LOCAL,
    }
}

impl Vertex {
    /// How the vertex buffer is stepped through.
    pub fn get_binding_descriptions() -> (bindings: [VertexInputBindingDescription; 1])
        ensures
            bindings@[0] == binding_description_spec(),
    {
        [
            VertexInputBindingDescription {
                binding: 0,
                stride: VERTEX_STRIDE,
                input_rate: VERTEX_INPUT_RATE_VERTEX,
            },
        ]
    }

    /// Where position and color are found within a vertex record.
    pub fn get_attribute_descriptions() -> (attributes: [VertexInputAttributeDescription; 2])
        ensures
            attributes@[0] == position_attribute_spec(),
            attributes@[1] == color_attribute_spec(),
    {
        [
            VertexInputAttributeDescription {
                location: 0,
                binding: 0,
                format: FORMAT_R32G32_SFLOAT,
                offset: VERTEX_POSITION_OFFSET,
            },
            VertexInputAttributeDescription {
                location: 1,
                binding: 0,
                format: FORMAT_R32G32B32_SFLOAT,
                offset: VERTEX_COLOR_OFFSET,
            },
        ]
    }
}

/// Describes the upload of `size` bytes through a staging buffer.
pub fn create_staged_buffer(size: u64, buffer_usage_flags: u32) -> (upload: StagedUpload)
    ensures
        upload == staged_upload_spec(size, buffer_usage_flags),
{
    StagedUpload {
        size,
        staging_buffer: BufferCreateInfo {
            size,
            usage: BUFFER_USAGE_TRANSFER_SRC,
            sharing_mode: SHARING_MODE_EXCLUSIVE,
        },
        staging_properties: MEMORY_PROPERTY_HOST_VISIBLE | MEMORY_PROPERTY_HOST_COHERENT,
        buffer: BufferCreateInfo {
            size,
            usage: buffer_usage_flags,
            sharing_mode: SHARING_MODE_EXCLUSIVE,
        },
        properties: MEMORY_PROPERTY_DEVICE_LOCAL,
    }
}

/// Describes the upload of `vertex_count` vertices. Refused when their size
/// does not fit in 64 bits.
pub fn create_vertex_buffer(vertex_count: u64, buffer_usage_flags: u32) -> (upload: Result<
    StagedUpload,
    BufferError,
>)
    ensures
        vertex_count * VERTEX_STRIDE > u64::MAX ==> upload == Err::<StagedUpload, BufferError>(
            BufferError::SizeOverflow,
        ),
        vertex_count * VERTEX_STRIDE <= u64::MAX ==> upload == Ok::<StagedUpload, BufferError>(
            staged_upload_spec((vertex_count * VERTEX_STRIDE) as u64, buffer_usage_flags),
        ),
{
    if vertex_count > u64::MAX / 20 {
        Err(BufferError::SizeOverflow)
    } else {
        Ok(create_staged_buffer(vertex_count * 20, buffer_usage_flags))
    }
}

/// Describes the upload of `index_count` 32-bit indices. Refused when their
/// size does not fit in 64 bits.
pub fn create_index_buffer(index_count: u64, buffer_usage_flags: u32) -> (upload: Result<
    StagedUpload,
    BufferError,
>)
    ensures
        index_count * INDEX_SIZE > u64::MAX ==> upload == Err::<StagedUpload, BufferError>(
            BufferError::SizeOverflow,
        ),
        index_count * INDEX_SIZE <= u64::MAX ==> upload == Ok::<StagedUpload, BufferError>(
            staged_upload_spec((index_count * INDEX_SIZE) as u64, buffer_usage_flags),
        ),
{
    if index_count > u64::MAX / 4 {
        Err(BufferError::SizeOverflow)
    } else {
        Ok(create_staged_buffer(index_count * 4, buffer_usage_flags))
    }
}

} // verus!
