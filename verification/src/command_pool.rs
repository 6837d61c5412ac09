//! The command pool and the command buffers: one pre-recorded buffer per
//! framebuffer, each with the same fixed sequence of draw commands.

use vstd::prelude::*;
use crate::constants::{
    COMMAND_BUFFER_LEVEL_PRIMARY, COMMAND_BUFFER_USAGE_SIMULTANEOUS_USE, INDEX_TYPE_UINT32,
    PIPELINE_BIND_POINT_GRAPHICS, SUBPASS_CONTENTS_INLINE,
};
use crate::physical_device::DeviceError;
use crate::queue_family::QueueFamily;
use crate::swapchain::Extent2D;

verus! {

/// The parameters a command pool is created with.
#[derive(Clone, Copy, Debug, PartialEq, Eq, Structural)]
pub struct CommandPoolCreateInfo {
    pub flags: u32,
    pub queue_family_index: u32,
}

/// The parameters command buffers are allocated with.
#[derive(Clone, Copy, Debug, PartialEq, Eq, Structural)]
pub struct CommandBufferAllocateInfo {
    pub command_pool: u64,
    pub level: i32,
    pub command_buffer_count: u32,
}

/// A color with eight bits per channel; 255 is full intensity.
#[derive(Clone, Copy, Debug, PartialEq, Eq, Structural)]
pub struct ClearColor {
    pub red: u8,
    pub green: u8,
    pub blue: u8,
    pub alpha: u8,
}

/// One command recorded into a command buffer.
#[derive(Clone, Copy, Debug, PartialEq, Eq, Structural)]
pub enum Command {
    Begin { flags: u32 },
    BeginRenderPass {
        render_pass: u64,
        framebuffer: u64,
        offset_x: i32,
        offset_y: i32,
        extent: Extent2D,
        clear_color: ClearColor,
        contents: i32,
    },
    BindPipeline { bind_point: i32, pipeline: u64 },
    BindVertexBuffers { first_binding: u32, buffer: u64, offset: u64 },
    BindIndexBuffer { buffer: u64, offset: u64, index_type: i32 },
    BindDescriptorSets { bind_point: i32, layout: u64, first_set: u32, descriptor_set: u64 },
    Draw { vertex_count: u32, instance_count: u32, first_vertex: u32, first_instance: u32 },
    DrawIndexed {
        index_count: u32,
        instance_count: u32,
        first_index: u32,
        vertex_offset: i32,
        first_instance: u32,
    },
    CopyBuffer { src_buffer: u64, dst_buffer: u64, src_offset: u64, dst_offset: u64, size: u64 },
    EndRenderPass,
    End,
}

/// What every recorded command buffer draws with.
#[derive(Clone, Copy, Debug, PartialEq, Eq, Structural)]
pub struct DrawResources {
    pub graphics_pipeline: u64,
    pub pipeline_layout: u64,
    pub render_pass: u64,
    pub surface_extent: Extent2D,
    /// The vertex buffer to bind, if the vertices do not come from the shader.
    pub vertex_buffer: Option<u64>,
    /// The index buffer to draw from, if the draw is indexed.
    pub index_buffer: Option<u64>,
    /// The number of indices in the index buffer.
    pub index_count: u32,
}

/// The allocation and the recordings of all command buffers.
pub struct CommandBufferPlan {
    pub allocate_info: CommandBufferAllocateInfo,
    pub recordings: Vec<Vec<Command>>,
}

/// Why the command buffers cannot be recorded.
#[derive(Clone, Copy, Debug, PartialEq, Eq, Structural)]
pub enum RecordError {
    /// The number of framebuffers does not fit in 32 bits.
    TooManyFramebuffers,
    /// There are fewer descriptor sets than framebuffers.
    MissingDescriptorSet,
}

/// Opaque black.
pub open spec fn opaque_black() -> ClearColor {
    ClearColor { red: 0, green: 0, blue: 0, alpha: 255 }
}

/// The single draw call: indexed over the whole index buffer where there is
/// one, three vertices otherwise.
pub open spec fn draw_command(resources: DrawResources) -> Command {
    if resources.index_buffer is Some {
        Command::DrawIndexed {
            index_count: resources.index_count,
            instance_count: 1,
            first_index: 0,
            vertex_offset: 0,
            first_instance: 0,
        }
    } else {
        Command::Draw { vertex_count: 3, instance_count: 1, first_vertex: 0, first_instance: 0 }
    }
}

/// The buffers and the descriptor set bound before the draw, as far as present.
pub open spec fn bind_commands(resources: DrawResources, descriptor_set: Option<u64>) -> Seq<Command> {
    let vertex = match resources.vertex_buffer {
        Some(buffer) => seq![Command::BindVertexBuffers { first_binding: 0, buffer, offset: 0 }],
        None => Seq::empty(),
    };
    let index = match resources.index_buffer {
        Some(buffer) => seq![
            Command::BindIndexBuffer { buffer, offset: 0, index_type: INDEX_TYPE_UINT32 },
        ],
        None => Seq::empty(),
    };
    let descriptor = match descriptor_set {
        Some(set) => seq![
            Command::BindDescriptorSets {
                bind_point: PIPELINE_BIND_POINT_GRAPHICS,
                layout: resources.pipeline_layout,
                first_set: 0,
                descriptor_set: set,
            },
        ],
        None => Seq::empty(),
    };
    vertex + index + descriptor
}

/// The commands recorded for `framebuffer`: begin, begin the render pass over
/// the whole surface with a clear to opaque black, bind the pipeline and what
/// else there is to bind, draw once, end the render pass, end.
pub open spec fn recorded_commands(
    framebuffer: u64,
    resources: DrawResources,
    descriptor_set: Option<u64>,
) -> Seq<Command> {
    seq![
        Command::Begin { flags: COMMAND_BUFFER_USAGE_SIMULTANEOUS_USE },
        Command::BeginRenderPass {
            render_pass: resources.render_pass,
            framebuffer,
            offset_x: 0,
            offset_y: 0,
            extent: resources.surface_extent,
            clear_color: opaque_black(),
            contents: SUBPASS_CONTENTS_INLINE,
        },
        Command::BindPipeline {
            bind_point: PIPELINE_BIND_POINT_GRAPHICS,
            pipeline: resources.graphics_pipeline,
        },
    ] + bind_commands(resources, descriptor_set) + seq![
        draw_command(resources),
        Command::EndRenderPass,
        Command::End,
    ]
}

/// Describes the command pool for the selected graphics family. Refused when
/// no graphics family was selected or its index does not fit in 32 bits.
pub fn create_command_pool(queue_familes: &QueueFamily) -> (info: Result<
    CommandPoolCreateInfo,
    DeviceError,
>)
    ensures
        queue_familes.graphics_family is None ==> info == Err::<CommandPoolCreateInfo, DeviceError>(
            DeviceError::NoGraphicsQueue,
        ),
        queue_familes.graphics_family is Some && queue_familes.graphics_family->Some_0 > u32::MAX
            ==> info == Err::<CommandPoolCreateInfo, DeviceError>(
            DeviceError::QueueIndexOutOfRange,
        ),
        queue_familes.graphics_family is Some && queue_familes.graphics_family->Some_0 <= u32::MAX
            ==> info == Ok::<CommandPoolCreateInfo, DeviceError>(
            CommandPoolCreateInfo {
                flags: 0,
                queue_family_index: queue_familes.graphics_family->Some_0 as u32,
            },
        ),
{
    match queue_familes.graphics_family {
        None => Err(DeviceError::NoGraphicsQueue),
        Some(index) => {
            if index > u32::MAX as usize {
                Err(DeviceError::QueueIndexOutOfRange)
            } else {
                Ok(CommandPoolCreateInfo { flags: 0, queue_family_index: index as u32 })
            }
        },
    }
}

/// Records the commands of the command buffer that draws to
/// `framebuffers[index]`.
pub fn process_command_buffer(
    index: usize,
    framebuffers: &[u64],
    resources: &DrawResources,
    descriptor_set: Option<u64>,
) -> (commands: Vec<Command>)
    requires
        index < framebuffers@.len(),
    ensures
        commands@ == recorded_commands(framebuffers@[index as int], *resources, descriptor_set),
{
    let mut commands: Vec<Command> = Vec::new();
    commands.push(Command::Begin { flags: COMMAND_BUFFER_USAGE_SIMULTANEOUS_USE });
    commands.push(
        Command::BeginRenderPass {
            render_pass: resources.render_pass,
            framebuffer: framebuffers[index],
            offset_x: 0,
            offset_y: 0,
            extent: resources.surface_extent,
            clear_color: ClearColor { red: 0, green: 0, blue: 0, alpha: 255 },
            contents: SUBPASS_CONTENTS_INLINE,
        },
    );
    commands.push(
        Command::BindPipeline {
            bind_point: PIPELINE_BIND_POINT_GRAPHICS,
            pipeline: resources.graphics_pipeline,
        },
    );
    if let Some(buffer) = resources.vertex_buffer {
        commands.push(Command::BindVertexBuffers { first_binding: 0, buffer, offset: 0 });
    }
    if let Some(buffer) = resources.index_buffer {
        commands.push(Command::BindIndexBuffer { buffer, offset: 0, index_type: INDEX_TYPE_UINT32 });
    }
    if let Some(set) = descriptor_set {
        commands.push(
            Command::BindDescriptorSets {
                bind_point: PIPELINE_BIND_POINT_GRAPHICS,
                layout: resources.pipeline_layout,
                first_set: 0,
                descriptor_set: set,
            },
        );
    }
    if resources.index_buffer.is_some() {
        commands.push(
            Command::DrawIndexed {
                index_count: resources.index_count,
                instance_count: 1,
                first_index: 0,
                vertex_offset: 0,
                first_instance: 0,
            },
        );
    } else {
        commands.push(
            Command::Draw { vertex_count: 3, instance_count: 1, first_vertex: 0, first_instance: 0 },
        );
    }
    commands.push(Command::EndRenderPass);
    commands.push(Command::End);
    assert(commands@ =~= recorded_commands(
        framebuffers@[index as int],
        *resources,
        descriptor_set,
    ));
    commands
}

/// Describes the allocation of one primary command buffer per framebuffer and
/// records each of them. Refused when the framebuffers are too many to count in
/// 32 bits, or when descriptor sets are in use and there are fewer of them than
/// framebuffers.
pub fn create_command_buffers(
    command_pool: u64,
    framebuffers: &[u64],
    resources: &DrawResources,
    descriptor_sets: Option<&Vec<u64>>,
) -> (plan: Result<CommandBufferPlan, RecordError>)
    ensures
        framebuffers@.len() > u32::MAX ==> plan is Err && plan->Err_0
            == RecordError::TooManyFramebuffers,
        framebuffers@.len() <= u32::MAX && descriptor_sets is Some
            && descriptor_sets->Some_0@.len() < framebuffers@.len() ==> plan is Err && plan->Err_0
            == RecordError::MissingDescriptorSet,
        framebuffers@.len() <= u32::MAX && (descriptor_sets is Some
            ==> descriptor_sets->Some_0@.len() >= framebuffers@.len()) ==> {
            &&& plan is Ok
            &&& plan->Ok_0.allocate_info == CommandBufferAllocateInfo {
                command_pool,
                level: COMMAND_BUFFER_LEVEL_PRIMARY,
                command_buffer_count: framebuffers@.len() as u32,
            }
            &&& plan->Ok_0.recordings@.len() == framebuffers@.len()
            &&& forall|i: int|
                0 <= i < framebuffers@.len() ==> (#[trigger] plan->Ok_0.recordings@[i])@
                    == recorded_commands(
                    framebuffers@[i],
                    *resources,
                    if descriptor_sets is Some {
                        Some(descriptor_sets->Some_0@[i])
                    } else {
                        None
                    },
                )
        },
{
    let count = framebuffers.len();
    if count > u32::MAX as usize {
        return Err(RecordError::TooManyFramebuffers);
    }
    if let Some(sets) = descriptor_sets {
        if sets.len() < count {
            return Err(RecordError::MissingDescriptorSet);
        }
    }
    let mut recordings: Vec<Vec<Command>> = Vec::new();
    let mut i: usize = 0;
    while i < count
        invariant
            count == framebuffers@.len(),
            i <= count,
            descriptor_sets is Some ==> descriptor_sets->Some_0@.len() >= count,
            recordings@.len() == i,
            forall|j: int|
                0 <= j < i ==> (#[trigger] recordings@[j])@ == recorded_commands(
                    framebuffers@[j],
                    *resources,
                    if descriptor_sets is Some {
                        Some(descriptor_sets->Some_0@[j])
                    } else {
                        None
                    },
                ),
        decreases count - i,
    {
        let descriptor_set = match descriptor_sets {
            Some(sets) => Some(sets[i]),
            None => None,
        };
        recordings.push(process_command_buffer(i, framebuffers, resources, descriptor_set));
        i += 1;
    }
    Ok(
        CommandBufferPlan {
            allocate_info: CommandBufferAllocateInfo {
                command_pool,
                level: COMMAND_BUFFER_LEVEL_PRIMARY,
                command_buffer_count: count as u32,
            },
            recordings,
        },
    )
}

} // verus!
