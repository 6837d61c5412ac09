use potato::buffer::{
    allocate_memory, copy_buffer, create_buffer, find_mem_type, BufferError, MemoryRequirements,
};
use potato::command_pool::{
    create_command_buffers, create_command_pool, process_command_buffer, ClearColor, Command,
    DrawResources, RecordError,
};
use potato::constants::{
    BUFFER_USAGE_INDEX_BUFFER, BUFFER_USAGE_TRANSFER_DST, BUFFER_USAGE_TRANSFER_SRC,
    BUFFER_USAGE_UNIFORM_BUFFER, BUFFER_USAGE_VERTEX_BUFFER, FENCE_CREATE_SIGNALED,
    MAX_FRAMES_IN_FLIGHT, MEMORY_PROPERTY_DEVICE_LOCAL, MEMORY_PROPERTY_HOST_COHERENT,
    MEMORY_PROPERTY_HOST_VISIBLE, SPIRV_MAGIC,
};
use potato::framebuffers::create_framebuffers;
use potato::graphics_pipeline::{
    create_graphics_pipeline, create_scissors, create_shader_module, create_viewport,
    pipeline_build_order, PipelineBuildStep, PipelineError,
};
use potato::physical_device::DeviceError;
use potato::queue_family::QueueFamily;
use potato::render_pass::create_render_pass;
use potato::swapchain::Extent2D;
use potato::sync_objects::{create_sync_objects, SyncError, SyncObjects};
use potato::uniform_buffer_object::{
    create_descriptor_pool, create_descriptor_set_layout, create_descriptor_sets,
    create_uniform_buffers, write_descriptor_sets, DescriptorError, UNIFORM_BUFFER_OBJECT_SIZE,
};
use potato::vertex::{
    create_index_buffer, create_vertex_buffer, Vertex, INDEX_SIZE, VERTEX_COLOR_OFFSET,
    VERTEX_POSITION_OFFSET, VERTEX_STRIDE,
};

const HOST: u32 = MEMORY_PROPERTY_HOST_VISIBLE | MEMORY_PROPERTY_HOST_COHERENT;

fn extent() -> Extent2D {
    Extent2D { width: 800, height: 600 }
}

fn resources() -> DrawResources {
    DrawResources {
        graphics_pipeline: 30,
        pipeline_layout: 31,
        render_pass: 32,
        surface_extent: extent(),
        vertex_buffer: None,
        index_buffer: None,
        index_count: 0,
    }
}

fn spirv(words: &[u32]) -> Vec<u8> {
    words.iter().flat_map(|word| word.to_le_bytes()).collect()
}

#[test]
fn sync_objects_come_once_per_slot_with_signaled_fences() {
    assert_eq!(MAX_FRAMES_IN_FLIGHT, 2);
    let infos = create_sync_objects(MAX_FRAMES_IN_FLIGHT);
    assert_eq!(infos.len(), 2);
    for info in &infos {
        assert_eq!(info.image_available.flags, 0);
        assert_eq!(info.render_finished.flags, 0);
        assert_eq!(info.in_flight.flags, ash::vk::FenceCreateFlags::SIGNALED.as_raw());
        assert_eq!(info.in_flight.flags, FENCE_CREATE_SIGNALED);
    }
    assert!(create_sync_objects(0).is_empty());
    assert_eq!(create_sync_objects(5).len(), 5);
}

#[test]
fn sync_objects_are_bound_slot_by_slot() {
    let assembled = SyncObjects::assemble(2, vec![1, 2], vec![3, 4], vec![5, 6]).ok().unwrap();
    assert_eq!(assembled.image_available_semaphores, vec![1, 2]);
    assert_eq!(assembled.render_finished_semaphores, vec![3, 4]);
    assert_eq!(assembled.inflight_fences, vec![5, 6]);
    assert!(matches!(
        SyncObjects::assemble(0, vec![], vec![], vec![]),
        Err(SyncError::NoFrameSlot)
    ));
    assert!(matches!(
        SyncObjects::assemble(2, vec![1, 2], vec![3], vec![5, 6]),
        Err(SyncError::SlotCountMismatch)
    ));
    assert!(matches!(
        SyncObjects::assemble(2, vec![1, 2, 3], vec![3, 4], vec![5, 6]),
        Err(SyncError::SlotCountMismatch)
    ));
    assert!(matches!(
        SyncObjects::assemble(2, vec![1, 2], vec![3, 4], vec![5]),
        Err(SyncError::SlotCountMismatch)
    ));
}

#[test]
fn framebuffers_come_once_per_image_view() {
    let infos = create_framebuffers(9, &[21, 22, 23], &extent());
    assert_eq!(infos.len(), 3);
    for (at, info) in infos.iter().enumerate() {
        assert_eq!(info.render_pass, 9);
        assert_eq!(info.attachment, 21 + at as u64);
        assert_eq!((info.width, info.height, info.layers), (800, 600, 1));
    }
    assert!(create_framebuffers(9, &[], &extent()).is_empty());
}

#[test]
fn render_pass_clears_draws_and_hands_over_to_presentation() {
    let info = create_render_pass(50);
    let attachment = info.color_attachment;
    assert_eq!(attachment.format, 50);
    assert_eq!(attachment.samples, ash::vk::SampleCountFlags::TYPE_1.as_raw());
    assert_eq!(attachment.load_op, ash::vk::AttachmentLoadOp::CLEAR.as_raw());
    assert_eq!(attachment.store_op, ash::vk::AttachmentStoreOp::STORE.as_raw());
    assert_eq!(attachment.stencil_load_op, ash::vk::AttachmentLoadOp::DONT_CARE.as_raw());
    assert_eq!(attachment.stencil_store_op, ash::vk::AttachmentStoreOp::DONT_CARE.as_raw());
    assert_eq!(attachment.initial_layout, ash::vk::ImageLayout::UNDEFINED.as_raw());
    assert_eq!(attachment.final_layout, ash::vk::ImageLayout::PRESENT_SRC_KHR.as_raw());
    assert_eq!(info.subpass.pipeline_bind_point, ash::vk::PipelineBindPoint::GRAPHICS.as_raw());
    assert_eq!(info.subpass.color_attachment.attachment, 0);
    assert_eq!(
        info.subpass.color_attachment.layout,
        ash::vk::ImageLayout::COLOR_ATTACHMENT_OPTIMAL.as_raw()
    );
    assert_eq!(info.subpass.input_attachment_count, 0);
    assert_eq!(info.subpass.preserve_attachment_count, 0);
    let stage = ash::vk::PipelineStageFlags::COLOR_ATTACHMENT_OUTPUT.as_raw();
    assert_eq!(info.dependency.src_subpass, ash::vk::SUBPASS_EXTERNAL);
    assert_eq!(info.dependency.dst_subpass, 0);
    assert_eq!((info.dependency.src_stage_mask, info.dependency.dst_stage_mask), (stage, stage));
    assert_eq!(info.dependency.src_access_mask, 0);
    assert_eq!(
        info.dependency.dst_access_mask,
        ash::vk::AccessFlags::COLOR_ATTACHMENT_WRITE.as_raw()
    );
    assert_eq!(create_render_pass(37).color_attachment.format, 37);
}

#[test]
fn command_pool_belongs_to_the_graphics_family() {
    let selected = QueueFamily { graphics_family: Some(1), present_family: Some(1) };
    let info = create_command_pool(&selected).unwrap();
    assert_eq!((info.flags, info.queue_family_index), (0, 1));
    let none = QueueFamily { graphics_family: None, present_family: None };
    assert_eq!(create_command_pool(&none), Err(DeviceError::NoGraphicsQueue));
}

#[test]
fn a_bare_command_buffer_draws_three_vertices() {
    let commands = process_command_buffer(1, &[40, 41], &resources(), None);
    assert_eq!(
        commands,
        vec![
            Command::Begin { flags: ash::vk::CommandBufferUsageFlags::SIMULTANEOUS_USE.as_raw() },
            Command::BeginRenderPass {
                render_pass: 32,
                framebuffer: 41,
                offset_x: 0,
                offset_y: 0,
                extent: extent(),
                clear_color: ClearColor { red: 0, green: 0, blue: 0, alpha: 255 },
                contents: ash::vk::SubpassContents::INLINE.as_raw(),
            },
            Command::BindPipeline {
                bind_point: ash::vk::PipelineBindPoint::GRAPHICS.as_raw(),
                pipeline: 30,
            },
            Command::Draw { vertex_count: 3, instance_count: 1, first_vertex: 0, first_instance: 0 },
            Command::EndRenderPass,
            Command::End,
        ]
    );
}

#[test]
fn buffers_and_descriptors_are_bound_before_an_indexed_draw() {
    let full = DrawResources {
        vertex_buffer: Some(50),
        index_buffer: Some(51),
        index_count: 6,
        ..resources()
    };
    let commands = process_command_buffer(0, &[40], &full, Some(60));
    assert_eq!(commands.len(), 9);
    assert_eq!(commands[3], Command::BindVertexBuffers { first_binding: 0, buffer: 50, offset: 0 });
    assert_eq!(
        commands[4],
        Command::BindIndexBuffer {
            buffer: 51,
            offset: 0,
            index_type: ash::vk::IndexType::UINT32.as_raw()
        }
    );
    assert_eq!(
        commands[5],
        Command::BindDescriptorSets { bind_point: 0, layout: 31, first_set: 0, descriptor_set: 60 }
    );
    assert_eq!(
        commands[6],
        Command::DrawIndexed {
            index_count: 6,
            instance_count: 1,
            first_index: 0,
            vertex_offset: 0,
            first_instance: 0
        }
    );
    assert_eq!(&commands[7..], &[Command::EndRenderPass, Command::End]);
    let vertices_only = DrawResources { vertex_buffer: Some(50), ..resources() };
    let commands = process_command_buffer(0, &[40], &vertices_only, None);
    assert_eq!(commands.len(), 7);
    assert_eq!(
        commands[4],
        Command::Draw { vertex_count: 3, instance_count: 1, first_vertex: 0, first_instance: 0 }
    );
}

#[test]
fn command_buffers_come_once_per_framebuffer() {
    let plan = create_command_buffers(70, &[40, 41, 42], &resources(), None).ok().unwrap();
    assert_eq!(plan.allocate_info.command_pool, 70);
    assert_eq!(plan.allocate_info.level, ash::vk::CommandBufferLevel::PRIMARY.as_raw());
    assert_eq!(plan.allocate_info.command_buffer_count, 3);
    assert_eq!(plan.recordings.len(), 3);
    for (at, recording) in plan.recordings.iter().enumerate() {
        assert_eq!(*recording, process_command_buffer(at, &[40, 41, 42], &resources(), None));
    }
    let sets = vec![60, 61, 62, 63];
    let plan = create_command_buffers(70, &[40, 41, 42], &resources(), Some(&sets)).ok().unwrap();
    assert_eq!(
        plan.recordings[2],
        process_command_buffer(2, &[40, 41, 42], &resources(), Some(62))
    );
    let too_few = vec![60, 61];
    assert!(matches!(
        create_command_buffers(70, &[40, 41, 42], &resources(), Some(&too_few)),
        Err(RecordError::MissingDescriptorSet)
    ));
    let empty = create_command_buffers(70, &[], &resources(), None).ok().unwrap();
    assert_eq!(empty.allocate_info.command_buffer_count, 0);
    assert!(empty.recordings.is_empty());
}

#[test]
fn memory_flags_agree_with_ash() {
    assert_eq!(MEMORY_PROPERTY_DEVICE_LOCAL, ash::vk::MemoryPropertyFlags::DEVICE_LOCAL.as_raw());
    assert_eq!(MEMORY_PROPERTY_HOST_VISIBLE, ash::vk::MemoryPropertyFlags::HOST_VISIBLE.as_raw());
    assert_eq!(MEMORY_PROPERTY_HOST_COHERENT, ash::vk::MemoryPropertyFlags::HOST_COHERENT.as_raw());
    assert_eq!(BUFFER_USAGE_TRANSFER_SRC, ash::vk::BufferUsageFlags::TRANSFER_SRC.as_raw());
    assert_eq!(BUFFER_USAGE_TRANSFER_DST, ash::vk::BufferUsageFlags::TRANSFER_DST.as_raw());
    assert_eq!(BUFFER_USAGE_UNIFORM_BUFFER, ash::vk::BufferUsageFlags::UNIFORM_BUFFER.as_raw());
    assert_eq!(BUFFER_USAGE_INDEX_BUFFER, ash::vk::BufferUsageFlags::INDEX_BUFFER.as_raw());
    assert_eq!(BUFFER_USAGE_VERTEX_BUFFER, ash::vk::BufferUsageFlags::VERTEX_BUFFER.as_raw());
}

#[test]
fn first_allowed_memory_type_with_the_properties_is_found() {
    let types = [MEMORY_PROPERTY_DEVICE_LOCAL, HOST, HOST | MEMORY_PROPERTY_DEVICE_LOCAL, HOST];
    assert_eq!(find_mem_type(0b1111, HOST, &types), Some(1));
    assert_eq!(find_mem_type(0b1100, HOST, &types), Some(2));
    assert_eq!(find_mem_type(0b1000, HOST, &types), Some(3));
    assert_eq!(find_mem_type(0b1111, MEMORY_PROPERTY_DEVICE_LOCAL, &types), Some(0));
    assert_eq!(find_mem_type(0b1010, MEMORY_PROPERTY_DEVICE_LOCAL, &types), None);
    assert_eq!(find_mem_type(0b0001, MEMORY_PROPERTY_HOST_VISIBLE, &types), None);
    assert_eq!(find_mem_type(0, HOST, &types), None);
    assert_eq!(find_mem_type(u32::MAX, HOST, &[]), None);
    assert_eq!(find_mem_type(0b1, 0, &types), Some(0));
}

#[test]
fn memory_types_beyond_the_thirty_second_are_never_found() {
    let mut types = vec![0u32; 40];
    types[31] = HOST;
    types[35] = MEMORY_PROPERTY_DEVICE_LOCAL;
    assert_eq!(find_mem_type(u32::MAX, HOST, &types), Some(31));
    assert_eq!(find_mem_type(1 << 31, HOST, &types), Some(31));
    assert_eq!(find_mem_type(u32::MAX, MEMORY_PROPERTY_DEVICE_LOCAL, &types), None);
}

#[test]
fn allocation_takes_the_required_size_and_the_found_type() {
    let requirements = MemoryRequirements { size: 4096, alignment: 256, memory_type_bits: 0b110 };
    let types = [HOST, MEMORY_PROPERTY_DEVICE_LOCAL, HOST];
    let info = allocate_memory(&requirements, HOST, &types).unwrap();
    assert_eq!((info.allocation_size, info.memory_type_index), (4096, 2));
    assert_eq!(
        allocate_memory(&requirements, HOST, &types[..2]),
        Err(BufferError::NoSuitableMemoryType)
    );
}

#[test]
fn buffers_are_owned_exclusively() {
    let info = create_buffer(60, BUFFER_USAGE_VERTEX_BUFFER);
    assert_eq!((info.size, info.usage), (60, BUFFER_USAGE_VERTEX_BUFFER));
    assert_eq!(info.sharing_mode, ash::vk::SharingMode::EXCLUSIVE.as_raw());
}

#[test]
fn a_copy_records_one_region_for_one_submission() {
    let plan = copy_buffer(70, 80, 81, 60);
    assert_eq!(plan.allocate_info.command_pool, 70);
    assert_eq!(plan.allocate_info.command_buffer_count, 1);
    assert_eq!(plan.allocate_info.level, ash::vk::CommandBufferLevel::PRIMARY.as_raw());
    assert_eq!(
        plan.commands,
        vec![
            Command::Begin { flags: ash::vk::CommandBufferUsageFlags::ONE_TIME_SUBMIT.as_raw() },
            Command::CopyBuffer { src_buffer: 80, dst_buffer: 81, src_offset: 0, dst_offset: 0, size: 60 },
            Command::End,
        ]
    );
}

#[test]
fn vertex_record_is_tightly_packed() {
    assert_eq!(std::mem::size_of::<Vertex>(), VERTEX_STRIDE as usize);
    assert_eq!(std::mem::size_of::<[f32; 2]>(), VERTEX_COLOR_OFFSET as usize);
    assert_eq!(VERTEX_POSITION_OFFSET, 0);
    let vertex = Vertex { pos: [1.0f32.to_bits(), 0], color: [0, 0, 0.5f32.to_bits()] };
    assert_eq!(f32::from_bits(vertex.pos[0]), 1.0);
    assert_eq!(f32::from_bits(vertex.color[2]), 0.5);
    let bindings = Vertex::get_binding_descriptions();
    assert_eq!(bindings.len(), 1);
    assert_eq!((bindings[0].binding, bindings[0].stride), (0, 20));
    assert_eq!(bindings[0].input_rate, ash::vk::VertexInputRate::VERTEX.as_raw());
    let attributes = Vertex::get_attribute_descriptions();
    assert_eq!(attributes.len(), 2);
    assert_eq!((attributes[0].location, attributes[0].binding, attributes[0].offset), (0, 0, 0));
    assert_eq!(attributes[0].format, ash::vk::Format::R32G32_SFLOAT.as_raw());
    assert_eq!((attributes[1].location, attributes[1].binding, attributes[1].offset), (1, 0, 8));
    assert_eq!(attributes[1].format, ash::vk::Format::R32G32B32_SFLOAT.as_raw());
}

#[test]
fn vertex_and_index_data_go_through_a_staging_buffer() {
    let upload = create_vertex_buffer(3, BUFFER_USAGE_TRANSFER_DST | BUFFER_USAGE_VERTEX_BUFFER).unwrap();
    assert_eq!(upload.size, 60);
    assert_eq!(upload.staging_buffer.size, 60);
    assert_eq!(upload.staging_buffer.usage, BUFFER_USAGE_TRANSFER_SRC);
    assert_eq!(upload.staging_properties, HOST);
    assert_eq!(upload.buffer.size, 60);
    assert_eq!(upload.buffer.usage, BUFFER_USAGE_TRANSFER_DST | BUFFER_USAGE_VERTEX_BUFFER);
    assert_eq!(upload.properties, MEMORY_PROPERTY_DEVICE_LOCAL);
    let indices = create_index_buffer(6, BUFFER_USAGE_INDEX_BUFFER).unwrap();
    assert_eq!(indices.size, 6 * INDEX_SIZE);
    assert_eq!(indices.buffer.usage, BUFFER_USAGE_INDEX_BUFFER);
    assert_eq!(create_vertex_buffer(0, 0).unwrap().size, 0);
    assert_eq!(create_vertex_buffer(u64::MAX / 20, 0).unwrap().size, u64::MAX / 20 * 20);
    assert_eq!(create_vertex_buffer(u64::MAX / 20 + 1, 0), Err(BufferError::SizeOverflow));
    assert_eq!(create_index_buffer(u64::MAX / 4 + 1, 0), Err(BufferError::SizeOverflow));
    assert_eq!(create_index_buffer(u64::MAX / 4, 0).unwrap().size, u64::MAX - 3);
}

#[test]
fn shader_code_is_read_as_little_endian_words() {
    let code = spirv(&[SPIRV_MAGIC, 0x0001_0000, 0xdead_beef]);
    assert_eq!(&code[..4], &[0x03, 0x02, 0x23, 0x07]);
    let module = create_shader_module(&code).ok().unwrap();
    assert_eq!(module.code_size, 12);
    assert_eq!(module.code, vec![SPIRV_MAGIC, 0x0001_0000, 0xdead_beef]);
}

#[test]
fn malformed_shader_code_is_refused() {
    assert!(matches!(create_shader_module(&[]), Err(PipelineError::EmptyShader)));
    let mut code = spirv(&[SPIRV_MAGIC, 1]);
    code.pop();
    assert!(matches!(create_shader_module(&code), Err(PipelineError::TruncatedShader)));
    assert!(matches!(create_shader_module(&[3, 2]), Err(PipelineError::TruncatedShader)));
    assert!(matches!(
        create_shader_module(&spirv(&[SPIRV_MAGIC.swap_bytes(), 1])),
        Err(PipelineError::NotSpirv)
    ));
    assert!(matches!(create_shader_module(&spirv(&[0, 1])), Err(PipelineError::NotSpirv)));
}

#[test]
fn pipeline_state_is_fixed_but_for_the_extent() {
    let vertex = spirv(&[SPIRV_MAGIC, 1, 2]);
    let fragment = spirv(&[SPIRV_MAGIC, 3]);
    let info = create_graphics_pipeline(&vertex, &fragment, 32, extent()).ok().unwrap();
    assert_eq!(info.vertex_module.code, vec![SPIRV_MAGIC, 1, 2]);
    assert_eq!(info.fragment_module.code, vec![SPIRV_MAGIC, 3]);
    assert_eq!(info.vertex_stage.stage, ash::vk::ShaderStageFlags::VERTEX.as_raw());
    assert_eq!(info.fragment_stage.stage, ash::vk::ShaderStageFlags::FRAGMENT.as_raw());
    assert_eq!(info.vertex_stage.entry_point, "main");
    assert_eq!(info.fragment_stage.entry_point, "main");
    assert_eq!((info.render_pass, info.subpass), (32, 0));
    let fixed = info.fixed;
    assert_eq!(fixed.vertex_input.binding, Vertex::get_binding_descriptions()[0]);
    assert_eq!(fixed.vertex_input.position, Vertex::get_attribute_descriptions()[0]);
    assert_eq!(fixed.vertex_input.color, Vertex::get_attribute_descriptions()[1]);
    assert_eq!(fixed.input_assembly.topology, ash::vk::PrimitiveTopology::TRIANGLE_LIST.as_raw());
    assert!(!fixed.input_assembly.primitive_restart_enable);
    assert_eq!((fixed.viewport.viewport_count, fixed.viewport.scissor_count), (1, 1));
    assert_eq!(fixed.viewport.viewport, create_viewport(&extent()));
    assert_eq!((fixed.viewport.viewport.width, fixed.viewport.viewport.height), (800, 600));
    assert_eq!((fixed.viewport.viewport.min_depth, fixed.viewport.viewport.max_depth), (0, 1));
    assert_eq!(fixed.viewport.scissor, create_scissors(&extent()));
    assert_eq!(fixed.viewport.scissor.extent, extent());
    assert_eq!(fixed.rasterization.polygon_mode, ash::vk::PolygonMode::FILL.as_raw());
    assert_eq!(fixed.rasterization.cull_mode, ash::vk::CullModeFlags::BACK.as_raw());
    assert_eq!(fixed.rasterization.front_face, ash::vk::FrontFace::CLOCKWISE.as_raw());
    assert!(!fixed.rasterization.depth_bias_enable);
    assert_eq!(fixed.rasterization.line_width, 1);
    assert_eq!(fixed.multisample.rasterization_samples, ash::vk::SampleCountFlags::TYPE_1.as_raw());
    assert!(!fixed.multisample.sample_shading_enable);
    assert!(!fixed.depth_stencil.depth_test_enable && !fixed.depth_stencil.stencil_test_enable);
    assert_eq!(fixed.depth_stencil.depth_compare_op, ash::vk::CompareOp::LESS_OR_EQUAL.as_raw());
    assert_eq!(fixed.depth_stencil.front.compare_op, ash::vk::CompareOp::ALWAYS.as_raw());
    assert_eq!(fixed.depth_stencil.front.fail_op, ash::vk::StencilOp::KEEP.as_raw());
    assert_eq!(fixed.depth_stencil.front, fixed.depth_stencil.back);
    assert_eq!(fixed.color_blend.attachment_count, 1);
    assert!(!fixed.color_blend.logic_op_enable);
    assert_eq!(fixed.color_blend.logic_op, ash::vk::LogicOp::COPY.as_raw());
    assert!(!fixed.color_blend.attachment.blend_enable);
    assert_eq!(
        fixed.color_blend.attachment.color_write_mask,
        ash::vk::ColorComponentFlags::RGBA.as_raw()
    );
    assert_eq!(fixed.color_blend.attachment.src_color_blend_factor, ash::vk::BlendFactor::ONE.as_raw());
    assert_eq!(fixed.color_blend.attachment.dst_color_blend_factor, ash::vk::BlendFactor::ZERO.as_raw());
    assert_eq!(fixed.color_blend.attachment.color_blend_op, ash::vk::BlendOp::ADD.as_raw());
    assert_eq!((fixed.layout.set_layout_count, fixed.layout.push_constant_range_count), (0, 0));
    let resized = create_graphics_pipeline(&vertex, &fragment, 32, Extent2D { width: 1, height: 2 })
        .ok()
        .unwrap();
    assert_eq!(resized.fixed.viewport.scissor.extent, Extent2D { width: 1, height: 2 });
    assert_eq!(resized.fixed.rasterization, fixed.rasterization);
}

#[test]
fn pipeline_is_refused_with_a_malformed_shader() {
    let good = spirv(&[SPIRV_MAGIC]);
    assert!(matches!(
        create_graphics_pipeline(&[], &good, 1, extent()),
        Err(PipelineError::EmptyShader)
    ));
    assert!(matches!(
        create_graphics_pipeline(&good, &[1, 2, 3], 1, extent()),
        Err(PipelineError::TruncatedShader)
    ));
    assert!(matches!(
        create_graphics_pipeline(&[1, 2, 3, 4], &[], 1, extent()),
        Err(PipelineError::NotSpirv)
    ));
}

#[test]
fn uniform_buffers_and_descriptors_come_once_per_image() {
    let binding = create_descriptor_set_layout();
    assert_eq!(binding.binding, 0);
    assert_eq!(binding.descriptor_type, ash::vk::DescriptorType::UNIFORM_BUFFER.as_raw());
    assert_eq!(binding.descriptor_count, 1);
    assert_eq!(binding.stage_flags, ash::vk::ShaderStageFlags::VERTEX.as_raw());
    assert_eq!(UNIFORM_BUFFER_OBJECT_SIZE as usize, 3 * std::mem::size_of::<[[f32; 4]; 4]>());
    let buffers = create_uniform_buffers(3);
    assert_eq!(buffers.len(), 3);
    for info in &buffers {
        assert_eq!(info.buffer.size, 192);
        assert_eq!(info.buffer.usage, BUFFER_USAGE_UNIFORM_BUFFER);
        assert_eq!(info.properties, HOST);
    }
    let pool = create_descriptor_pool(3).unwrap();
    assert_eq!((pool.max_sets, pool.descriptor_count), (3, 3));
    assert_eq!(pool.descriptor_type, ash::vk::DescriptorType::UNIFORM_BUFFER.as_raw());
    let sets = create_descriptor_sets(90, 91, 3).unwrap();
    assert_eq!(
        (sets.descriptor_pool, sets.descriptor_set_layout, sets.descriptor_set_count),
        (90, 91, 3)
    );
    let writes = write_descriptor_sets(&[60, 61], &[80, 81, 82]).ok().unwrap();
    assert_eq!(writes.len(), 2);
    assert_eq!((writes[1].dst_set, writes[1].buffer), (61, 81));
    assert_eq!((writes[1].dst_binding, writes[1].dst_array_element, writes[1].descriptor_count), (0, 0, 1));
    assert_eq!((writes[1].offset, writes[1].range), (0, 192));
    assert!(matches!(
        write_descriptor_sets(&[60, 61], &[80]),
        Err(DescriptorError::MissingUniformBuffer)
    ));
    if usize::MAX as u128 > u32::MAX as u128 {
        assert_eq!(create_descriptor_pool(usize::MAX), Err(DescriptorError::TooManyImages));
        assert_eq!(create_descriptor_sets(1, 2, usize::MAX), Err(DescriptorError::TooManyImages));
    }
}

#[test]
fn shader_modules_live_only_around_pipeline_creation() {
    assert_eq!(
        pipeline_build_order(),
        vec![
            PipelineBuildStep::CreateVertexModule,
            PipelineBuildStep::CreateFragmentModule,
            PipelineBuildStep::CreatePipeline,
            PipelineBuildStep::DestroyVertexModule,
            PipelineBuildStep::DestroyFragmentModule,
        ]
    );
}
