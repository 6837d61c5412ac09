//! The graphics pipeline: the shader code it is built from and its fixed
//! function state.

use vstd::prelude::*;
use crate::constants::{
    BLEND_FACTOR_ONE, BLEND_FACTOR_ZERO, BLEND_OP_ADD, COLOR_COMPONENT_ALL, COMPARE_OP_ALWAYS,
    COMPARE_OP_LESS_OR_EQUAL, CULL_MODE_BACK, FRONT_FACE_CLOCKWISE, LOGIC_OP_COPY,
    POLYGON_MODE_FILL, PRIMITIVE_TOPOLOGY_TRIANGLE_LIST, SAMPLE_COUNT_1, SHADER_STAGE_FRAGMENT,
    SHADER_STAGE_VERTEX, SPIRV_MAGIC, STENCIL_OP_KEEP,
};
use crate::swapchain::Extent2D;
use crate::vertex::{
    binding_description_spec, color_attribute_spec, position_attribute_spec, Vertex,
    VertexInputAttributeDescription, VertexInputBindingDescription,
};

verus! {

/// Why no pipeline can be built.
#[derive(Clone, Copy, Debug, PartialEq, Eq, Structural)]
pub enum PipelineError {
    /// The shader code is empty.
    EmptyShader,
    /// The shader code is not a whole number of 32-bit words.
    TruncatedShader,
    /// The shader code does not start with the SPIR-V magic number.
    NotSpirv,
}

/// The parameters a shader module is created with: its code as 32-bit words.
pub struct ShaderModuleCreateInfo {
    /// The size of the code in bytes.
    pub code_size: usize,
    pub code: Vec<u32>,
}

/// One programmable stage of the pipeline. The entry point is `main`.
#[derive(Clone, Copy, Debug)]
pub struct PipelineShaderStageCreateInfo {
    pub stage: u32,
    pub entry_point: &'static str,
}

/// How vertices are read from the vertex buffer.
#[derive(Clone, Copy, Debug, PartialEq, Eq, Structural)]
pub struct PipelineVertexInputStateCreateInfo {
    pub binding: VertexInputBindingDescription,
    pub position: VertexInputAttributeDescription,
    pub color: VertexInputAttributeDescription,
}

/// How vertices are assembled into primitives.
#[derive(Clone, Copy, Debug, PartialEq, Eq, Structural)]
pub struct PipelineInputAssemblyStateCreateInfo {
    pub topology: i32,
    pub primitive_restart_enable: bool,
}

/// The part of the framebuffer the output is mapped to. Depth runs from
/// `min_depth` to `max_depth`.
#[derive(Clone, Copy, Debug, PartialEq, Eq, Structural)]
pub struct Viewport {
    pub x: u32,
    pub y: u32,
    pub width: u32,
    pub height: u32,
    pub min_depth: u32,
    pub max_depth: u32,
}

/// A rectangle of pixels.
#[derive(Clone, Copy, Debug, PartialEq, Eq, Structural)]
pub struct Rect2D {
    pub offset_x: i32,
    pub offset_y: i32,
    pub extent: Extent2D,
}

/// The single viewport and the single scissor rectangle.
#[derive(Clone, Copy, Debug, PartialEq, Eq, Structural)]
pub struct PipelineViewportStateCreateInfo {
    pub viewport_count: u32,
    pub viewport: Viewport,
    pub scissor_count: u32,
    pub scissor: Rect2D,
}

/// How primitives are turned into fragments.
#[derive(Clone, Copy, Debug, PartialEq, Eq, Structural)]
pub struct PipelineRasterizationStateCreateInfo {
    pub depth_clamp_enable: bool,
    pub rasterizer_discard_enable: bool,
    pub polygon_mode: i32,
    pub cull_mode: u32,
    pub front_face: i32,
    pub depth_bias_enable: bool,
    /// The width of lines in pixels.
    pub line_width: u32,
}

/// How often each pixel is sampled.
#[derive(Clone, Copy, Debug, PartialEq, Eq, Structural)]
pub struct PipelineMultisampleStateCreateInfo {
    pub rasterization_samples: u32,
    pub sample_shading_enable: bool,
    pub alpha_to_coverage_enable: bool,
    pub alpha_to_one_enable: bool,
}

/// What the stencil test does on each outcome.
#[derive(Clone, Copy, Debug, PartialEq, Eq, Structural)]
pub struct StencilOpState {
    pub fail_op: i32,
    pub pass_op: i32,
    pub depth_fail_op: i32,
    pub compare_op: i32,
    pub compare_mask: u32,
    pub write_mask: u32,
    pub reference: u32,
}

/// The depth and stencil tests.
#[derive(Clone, Copy, Debug, PartialEq, Eq, Structural)]
pub struct PipelineDepthStencilStateCreateInfo {
    pub depth_test_enable: bool,
    pub depth_write_enable: bool,
    pub depth_compare_op: i32,
    pub depth_bounds_test_enable: bool,
    pub stencil_test_enable: bool,
    pub front: StencilOpState,
    pub back: StencilOpState,
    pub min_depth_bounds: u32,
    pub max_depth_bounds: u32,
}

/// How a fragment is combined with what the attachment holds.
#[derive(Clone, Copy, Debug, PartialEq, Eq, Structural)]
pub struct PipelineColorBlendAttachmentState {
    pub blend_enable: bool,
    pub color_write_mask: u32,
    pub src_color_blend_factor: i32,
    pub dst_color_blend_factor: i32,
    pub color_blend_op: i32,
    pub src_alpha_blend_factor: i32,
    pub dst_alpha_blend_factor: i32,
    pub alpha_blend_op: i32,
}

/// Blending for the single color attachment. The blend constants are zero.
#[derive(Clone, Copy, Debug, PartialEq, Eq, Structural)]
pub struct PipelineColorBlendStateCreateInfo {
    pub logic_op_enable: bool,
    pub logic_op: i32,
    pub attachment_count: u32,
    pub attachment: PipelineColorBlendAttachmentState,
}

/// The parameters a pipeline layout is created with.
#[derive(Clone, Copy, Debug, PartialEq, Eq, Structural)]
pub struct PipelineLayoutCreateInfo {
    pub set_layout_count: u32,
    pub push_constant_range_count: u32,
}

/// The fixed function state of the pipeline.
#[derive(Clone, Copy, Debug, PartialEq, Eq, Structural)]
pub struct FixedFunctionState {
    pub vertex_input: PipelineVertexInputStateCreateInfo,
    pub input_assembly: PipelineInputAssemblyStateCreateInfo,
    pub viewport: PipelineViewportStateCreateInfo,
    pub rasterization: PipelineRasterizationStateCreateInfo,
    pub multisample: PipelineMultisampleStateCreateInfo,
    pub depth_stencil: PipelineDepthStencilStateCreateInfo,
    pub color_blend: PipelineColorBlendStateCreateInfo,
    pub layout: PipelineLayoutCreateInfo,
}

/// Everything a graphics pipeline is created from. The layout is created
/// before the pipeline and lives as long as it; the shader modules are
/// destroyed as soon as the pipeline exists.
pub struct GraphicsPipelineCreateInfo {
    pub vertex_module: ShaderModuleCreateInfo,
    pub fragment_module: ShaderModuleCreateInfo,
    pub vertex_stage: PipelineShaderStageCreateInfo,
    pub fragment_stage: PipelineShaderStageCreateInfo,
    pub fixed: FixedFunctionState,
    pub render_pass: u64,
    pub subpass: u32,
}

/// One call in the construction of the pipeline on top of its layout.
#[derive(Clone, Copy, Debug, PartialEq, Eq, Structural)]
pub enum PipelineBuildStep {
    CreateVertexModule,
    CreateFragmentModule,
    CreatePipeline,
    DestroyVertexModule,
    DestroyFragmentModule,
}

/// The order of construction: the shader modules exist only from before the
/// pipeline is created until right after.
pub open spec fn build_order_spec() -> Seq<PipelineBuildStep> {
    seq![
        PipelineBuildStep::CreateVertexModule,
        PipelineBuildStep::CreateFragmentModule,
        PipelineBuildStep::CreatePipeline,
        PipelineBuildStep::DestroyVertexModule,
        PipelineBuildStep::DestroyFragmentModule,
    ]
}

/// The 32-bit word that starts at byte `4 * index` of `code`, lowest byte first.
pub open spec fn word_at(code: Seq<u8>, index: int) -> u32 {
    (code[4 * index] as u32) | ((code[4 * index + 1] as u32) << 8) | ((code[4 * index + 2] as u32)
        << 16) | ((code[4 * index + 3] as u32) << 24)
}

/// The words of `code`.
pub open spec fn code_words(code: Seq<u8>) -> Seq<u32> {
    Seq::new((code.len() / 4) as nat, |i: int| word_at(code, i))
}

/// What `create_shader_module` answers for `code`.
pub open spec fn shader_module_spec(code: Seq<u8>) -> Result<Seq<u32>, PipelineError> {
    if code.len() == 0 {
        Err(PipelineError::EmptyShader)
    } else if code.len() % 4 != 0 {
        Err(PipelineError::TruncatedShader)
    } else if word_at(code, 0) != SPIRV_MAGIC {
        Err(PipelineError::NotSpirv)
    } else {
        Ok(code_words(code))
    }
}

pub open spec fn viewport_spec(extent: Extent2D) -> Viewport {
    Viewport { x: 0, y: 0, width: extent.width, height: extent.height, min_depth: 0, max_depth: 1 }
}

pub open spec fn scissor_spec(extent: Extent2D) -> Rect2D {
    Rect2D { offset_x: 0, offset_y: 0, extent }
}

pub open spec fn stencil_spec() -> StencilOpState {
    StencilOpState {
        fail_op: STENCIL_OP_KEEP,
        pass_op: STENCIL_OP_KEEP,
        depth_fail_op: STENCIL_OP_KEEP,
        compare_op: COMPARE_OP_ALWAYS,
        compare_mask: 0,
        write_mask: 0,
        reference: 0,
    }
}

pub open spec fn color_blend_attachment_spec() -> PipelineColorBlendAttachmentState {
    PipelineColorBlendAttachmentState {
        blend_enable: false,
        color_write_mask: COLOR_COMPONENT_ALL,
        src_color_blend_factor: BLEND_FACTOR_ONE,
        dst_color_blend_factor: BLEND_FACTOR_ZERO,
        color_blend_op: BLEND_OP_ADD,
        src_alpha_blend_factor: BLEND_FACTOR_ONE,
        dst_alpha_blend_factor: BLEND_FACTOR_ZERO,
        alpha_blend_op: BLEND_OP_ADD,
    }
}

/// The fixed function state for a swapchain of `extent`: tightly packed
/// vertices, triangle lists, one viewport and one scissor over the whole
/// surface, filled back-face culled triangles with clockwise front faces, one
/// sample per pixel, no depth or stencil test, no blending, and an empty
/// pipeline layout.
pub open spec fn fixed_function_spec(extent: Extent2D) -> FixedFunctionState {
    FixedFunctionState {
        vertex_input: PipelineVertexInputStateCreateInfo {
            binding: binding_description_spec(),
            position: position_attribute_spec(),
            color: color_attribute_spec(),
        },
        input_assembly: PipelineInputAssemblyStateCreateInfo {
            topology: PRIMITIVE_TOPOLOGY_TRIANGLE_LIST,
            primitive_restart_enable: false,
        },
        viewport: PipelineViewportStateCreateInfo {
            viewport_count: 1,
            viewport: viewport_spec(extent),
            scissor_count: 1,
            scissor: scissor_spec(extent),
        },
        rasterization: PipelineRasterizationStateCreateInfo {
            depth_clamp_enable: false,
            rasterizer_discard_enable: false,
            polygon_mode: POLYGON_MODE_FILL,
            cull_mode: CULL_MODE_BACK,
            front_face: FRONT_FACE_CLOCKWISE,
            depth_bias_enable: false,
            line_width: 1,
        },
        multisample: PipelineMultisampleStateCreateInfo {
            rasterization_samples: SAMPLE_COUNT_1,
            sample_shading_enable: false,
            alpha_to_coverage_enable: false,
            alpha_to_one_enable: false,
        },
        depth_stencil: PipelineDepthStencilStateCreateInfo {
            depth_test_enable: false,
            depth_write_enable: false,
            depth_compare_op: COMPARE_OP_LESS_OR_EQUAL,
            depth_bounds_test_enable: false,
            stencil_test_enable: false,
            front: stencil_spec(),
            back: stencil_spec(),
            min_depth_bounds: 0,
            max_depth_bounds: 1,
        },
        color_blend: PipelineColorBlendStateCreateInfo {
            logic_op_enable: false,
            logic_op: LOGIC_OP_COPY,
            attachment_count: 1,
            attachment: color_blend_attachment_spec(),
        },
        layout: PipelineLayoutCreateInfo { set_layout_count: 0, push_constant_range_count: 0 },
    }
}

/// Turns shader byte code into the words a shader module is created from.
/// Refused when the code is empty, is not a whole number of words, or does not
/// start with the SPIR-V magic number.
pub fn create_shader_module(code: &[u8]) -> (info: Result<ShaderModuleCreateInfo, PipelineError>)
    ensures
        match shader_module_spec(code@) {
            Ok(words) => info is Ok && info->Ok_0.code@ == words && info->Ok_0.code_size
                == code@.len(),
            Err(error) => info is Err && info->Err_0 == error,
        },
{
    let length = code.len();
    if length == 0 {
        return Err(PipelineError::EmptyShader);
    }
    if length % 4 != 0 {
        return Err(PipelineError::TruncatedShader);
    }
    let count = length / 4;
    let mut words: Vec<u32> = Vec::new();
    let mut i: usize = 0;
    while i < count
        invariant
            length == code@.len(),
            length == 4 * count,
            i <= count,
            words@.len() == i,
            forall|j: int| 0 <= j < i ==> #[trigger] words@[j] == word_at(code@, j),
        decreases count - i,
    {
        let word = (code[4 * i] as u32) | ((code[4 * i + 1] as u32) << 8) | ((code[4 * i
            + 2] as u32) << 16) | ((code[4 * i + 3] as u32) << 24);
        words.push(word);
        i += 1;
    }
    assert(words@ =~= code_words(code@));
    if words[0] != SPIRV_MAGIC {
        return Err(PipelineError::NotSpirv);
    }
    Ok(ShaderModuleCreateInfo { code_size: length, code: words })
}

/// Describes how vertices are read: one binding, position and color.
pub fn create_vertex_input_state_create_info(
    attribute_descriptions: &[VertexInputAttributeDescription; 2],
    binding_description: &[VertexInputBindingDescription; 1],
) -> (info: PipelineVertexInputStateCreateInfo)
    ensures
        info == (PipelineVertexInputStateCreateInfo {
            binding: binding_description@[0],
            position: attribute_descriptions@[0],
            color: attribute_descriptions@[1],
        }),
{
    PipelineVertexInputStateCreateInfo {
        binding: binding_description[0],
        position: attribute_descriptions[0],
        color: attribute_descriptions[1],
    }
}

/// Describes primitive assembly: triangle lists without restart.
pub fn create_vertex_input_assembly_state_info() -> (info: PipelineInputAssemblyStateCreateInfo)
    ensures
        info == fixed_function_spec(Extent2D { width: 0, height: 0 }).input_assembly,
{
    PipelineInputAssemblyStateCreateInfo {
        topology: PRIMITIVE_TOPOLOGY_TRIANGLE_LIST,
        primitive_restart_enable: false,
    }
}

/// Describes the viewport: the whole surface, depth from 0 to 1.
pub fn create_viewport(swapchain_extent: &Extent2D) -> (viewport: Viewport)
    ensures
        viewport == viewport_spec(*swapchain_extent),
{
    Viewport {
        x: 0,
        y: 0,
        width: swapchain_extent.width,
        height: swapchain_extent.height,
        min_depth: 0,
        max_depth: 1,
    }
}

/// Describes the scissor rectangle: the whole surface.
pub fn create_scissors(swapchain_extent: &Extent2D) -> (scissor: Rect2D)
    ensures
        scissor == scissor_spec(*swapchain_extent),
{
    Rect2D { offset_x: 0, offset_y: 0, extent: *swapchain_extent }
}

/// Describes the viewport state: exactly one viewport and one scissor.
pub fn create_viewport_state_create_info(viewport: Viewport, scissor: Rect2D) -> (info:
    PipelineViewportStateCreateInfo)
    ensures
        info == (PipelineViewportStateCreateInfo {
            viewport_count: 1,
            viewport,
            scissor_count: 1,
            scissor,
        }),
{
    PipelineViewportStateCreateInfo { viewport_count: 1, viewport, scissor_count: 1, scissor }
}

/// Describes rasterization: filled triangles, back faces culled, clockwise
/// front faces, no depth bias.
pub fn create_rasterization_state_create_info() -> (info: PipelineRasterizationStateCreateInfo)
    ensures
        info == fixed_function_spec(Extent2D { width: 0, height: 0 }).rasterization,
{
    PipelineRasterizationStateCreateInfo {
        depth_clamp_enable: false,
        rasterizer_discard_enable: false,
        polygon_mode: POLYGON_MODE_FILL,
        cull_mode: CULL_MODE_BACK,
        front_face: FRONT_FACE_CLOCKWISE,
        depth_bias_enable: false,
        line_width: 1,
    }
}

/// Describes multisampling: off, one sample per pixel.
pub fn create_multisample_state_create_info() -> (info: PipelineMultisampleStateCreateInfo)
    ensures
        info == fixed_function_spec(Extent2D { width: 0, height: 0 }).multisample,
{
    PipelineMultisampleStateCreateInfo {
        rasterization_samples: SAMPLE_COUNT_1,
        sample_shading_enable: false,
        alpha_to_coverage_enable: false,
        alpha_to_one_enable: false,
    }
}

/// Describes a stencil operation that keeps everything.
pub fn create_stencil_state() -> (state: StencilOpState)
    ensures
        state == stencil_spec(),
{
    StencilOpState {
        fail_op: STENCIL_OP_KEEP,
        pass_op: STENCIL_OP_KEEP,
        depth_fail_op: STENCIL_OP_KEEP,
        compare_op: COMPARE_OP_ALWAYS,
        compare_mask: 0,
        write_mask: 0,
        reference: 0,
    }
}

/// Describes the depth and stencil tests: both off.
pub fn create_depth_state_create_info(stencil_state: &StencilOpState) -> (info:
    PipelineDepthStencilStateCreateInfo)
    ensures
        info == (PipelineDepthStencilStateCreateInfo {
            front: *stencil_state,
            back: *stencil_state,
            ..fixed_function_spec(Extent2D { width: 0, height: 0 }).depth_stencil
        }),
{
    PipelineDepthStencilStateCreateInfo {
        depth_test_enable: false,
        depth_write_enable: false,
        depth_compare_op: COMPARE_OP_LESS_OR_EQUAL,
        depth_bounds_test_enable: false,
        stencil_test_enable: false,
        front: *stencil_state,
        back: *stencil_state,
        min_depth_bounds: 0,
        max_depth_bounds: 1,
    }
}

/// Describes the color attachment's blending: off, all channels written.
pub fn create_color_blend_attachment_states() -> (state: PipelineColorBlendAttachmentState)
    ensures
        state == color_blend_attachment_spec(),
{
    PipelineColorBlendAttachmentState {
        blend_enable: false,
        color_write_mask: COLOR_COMPONENT_ALL,
        src_color_blend_factor: BLEND_FACTOR_ONE,
        dst_color_blend_factor: BLEND_FACTOR_ZERO,
        color_blend_op: BLEND_OP_ADD,
        src_alpha_blend_factor: BLEND_FACTOR_ONE,
        dst_alpha_blend_factor: BLEND_FACTOR_ZERO,
        alpha_blend_op: BLEND_OP_ADD,
    }
}

/// Describes blending: one attachment, a straight copy.
pub fn create_color_blend_state(
    color_blend_attachment_state: &PipelineColorBlendAttachmentState,
) -> (info: PipelineColorBlendStateCreateInfo)
    ensures
        info == (PipelineColorBlendStateCreateInfo {
            logic_op_enable: false,
            logic_op: LOGIC_OP_COPY,
            attachment_count: 1,
            attachment: *color_blend_attachment_state,
        }),
{
    PipelineColorBlendStateCreateInfo {
        logic_op_enable: false,
        logic_op: LOGIC_OP_COPY,
        attachment_count: 1,
        attachment: *color_blend_attachment_state,
    }
}

/// Describes the pipeline layout: no descriptor sets, no push constants.
pub fn create_pipeline_layout_create_info() -> (info: PipelineLayoutCreateInfo)
    ensures
        info == (PipelineLayoutCreateInfo { set_layout_count: 0, push_constant_range_count: 0 }),
{
    PipelineLayoutCreateInfo { set_layout_count: 0, push_constant_range_count: 0 }
}

/// The calls that construct the pipeline once its layout exists, in order:
/// both shader modules, the pipeline, and at once the destruction of both
/// shader modules.
pub fn pipeline_build_order() -> (steps: Vec<PipelineBuildStep>)
    ensures
        steps@ == build_order_spec(),
{
    let steps = vec![
        PipelineBuildStep::CreateVertexModule,
        PipelineBuildStep::CreateFragmentModule,
        PipelineBuildStep::CreatePipeline,
        PipelineBuildStep::DestroyVertexModule,
        PipelineBuildStep::DestroyFragmentModule,
    ];
    assert(steps@ =~= build_order_spec());
    steps
}

/// Derives everything the graphics pipeline for `render_pass` is created from.
/// Refused when either shader is refused; the vertex shader is looked at first.
pub fn create_graphics_pipeline(
    vert_shader: &[u8],
    frag_shader: &[u8],
    render_pass: u64,
    swapchain_extent: Extent2D,
) -> (info: Result<GraphicsPipelineCreateInfo, PipelineError>)
    ensures
        shader_module_spec(vert_shader@) matches Err(error) ==> info is Err && info->Err_0
            == error,
        shader_module_spec(vert_shader@) is Ok ==> (shader_module_spec(frag_shader@) matches Err(
            error,
        ) ==> info is Err && info->Err_0 == error),
        shader_module_spec(vert_shader@) is Ok && shader_module_spec(frag_shader@) is Ok ==> {
            &&& info is Ok
            &&& info->Ok_0.vertex_module.code@ == code_words(vert_shader@)
            &&& info->Ok_0.vertex_module.code_size == vert_shader@.len()
            &&& info->Ok_0.fragment_module.code@ == code_words(frag_shader@)
            &&& info->Ok_0.fragment_module.code_size == frag_shader@.len()
            &&& info->Ok_0.vertex_stage.stage == SHADER_STAGE_VERTEX
            &&& info->Ok_0.vertex_stage.entry_point@ == "main"@
            &&& info->Ok_0.fragment_stage.stage == SHADER_STAGE_FRAGMENT
            &&& info->Ok_0.fragment_stage.entry_point@ == "main"@
            &&& info->Ok_0.fixed == fixed_function_spec(swapchain_extent)
            &&& info->Ok_0.render_pass == render_pass
            &&& info->Ok_0.subpass == 0
        },
{
    let vertex_module = match create_shader_module(vert_shader) {
        Ok(module) => module,
        Err(error) => {
            return Err(error);
        },
    };
    let fragment_module = match create_shader_module(frag_shader) {
        Ok(module) => module,
        Err(error) => {
            return Err(error);
        },
    };
    let binding_description = Vertex::get_binding_descriptions();
    let attribute_description = Vertex::get_attribute_descriptions();
    let vertex_input = create_vertex_input_state_create_info(
        &attribute_description,
        &binding_description,
    );
    let input_assembly = create_vertex_input_assembly_state_info();
    let viewport = create_viewport(&swapchain_extent);
    let scissor = create_scissors(&swapchain_extent);
    let viewport_state = create_viewport_state_create_info(viewport, scissor);
    let rasterization = create_rasterization_state_create_info();
    let multisample = create_multisample_state_create_info();
    let stencil_state = create_stencil_state();
    let depth_stencil = create_depth_state_create_info(&stencil_state);
    let color_blend_attachment_state = create_color_blend_attachment_states();
    let color_blend = create_color_blend_state(&color_blend_attachment_state);
    let layout = create_pipeline_layout_create_info();
    Ok(
        GraphicsPipelineCreateInfo {
            vertex_module,
            fragment_module,
            vertex_stage: PipelineShaderStageCreateInfo {
                stage: SHADER_STAGE_VERTEX,
                entry_point: "main",
            },
            fragment_stage: PipelineShaderStageCreateInfo {
                stage: SHADER_STAGE_FRAGMENT,
                entry_point: "main",
            },
            fixed: FixedFunctionState {
                vertex_input,
                input_assembly,
                viewport: viewport_state,
                rasterization,
                multisample,
                depth_stencil,
                color_blend,
                layout,
            },
            render_pass,
            subpass: 0,
        },
    )
}

} // verus!
