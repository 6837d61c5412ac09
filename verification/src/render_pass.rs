//! The render pass: one color attachment that is cleared, drawn to and handed
//! to presentation.

use vstd::prelude::*;
use crate::constants::{
    ACCESS_COLOR_ATTACHMENT_WRITE, ATTACHMENT_LOAD_OP_CLEAR, ATTACHMENT_LOAD_OP_DONT_CARE,
    ATTACHMENT_STORE_OP_DONT_CARE, ATTACHMENT_STORE_OP_STORE, IMAGE_LAYOUT_COLOR_ATTACHMENT_OPTIMAL,
    IMAGE_LAYOUT_PRESENT_SRC, IMAGE_LAYOUT_UNDEFINED, PIPELINE_BIND_POINT_GRAPHICS,
    PIPELINE_STAGE_COLOR_ATTACHMENT_OUTPUT, SAMPLE_COUNT_1, SUBPASS_EXTERNAL,
};

verus! {

/// How an attachment is loaded, stored and laid out around the render pass.
#[derive(Clone, Copy, Debug, PartialEq, Eq, Structural)]
pub struct AttachmentDescription {
    pub format: i32,
    pub samples: u32,
    pub load_op: i32,
    pub store_op: i32,
    pub stencil_load_op: i32,
    pub stencil_store_op: i32,
    pub initial_layout: i32,
    pub final_layout: i32,
}

/// The attachment a subpass draws to and the layout it has meanwhile.
#[derive(Clone, Copy, Debug, PartialEq, Eq, Structural)]
pub struct AttachmentReference {
    pub attachment: u32,
    pub layout: i32,
}

/// A subpass with one color attachment and nothing else.
#[derive(Clone, Copy, Debug, PartialEq, Eq, Structural)]
pub struct SubpassDescription {
    pub pipeline_bind_point: i32,
    pub input_attachment_count: u32,
    pub color_attachment: AttachmentReference,
    pub preserve_attachment_count: u32,
}

/// What the subpass waits for before it writes.
#[derive(Clone, Copy, Debug, PartialEq, Eq, Structural)]
pub struct SubpassDependency {
    pub src_subpass: u32,
    pub dst_subpass: u32,
    pub src_stage_mask: u32,
    pub dst_stage_mask: u32,
    pub src_access_mask: u32,
    pub dst_access_mask: u32,
}

/// The parameters a render pass is created with.
#[derive(Clone, Copy, Debug, PartialEq, Eq, Structural)]
pub struct RenderPassCreateInfo {
    pub color_attachment: AttachmentDescription,
    pub subpass: SubpassDescription,
    pub dependency: SubpassDependency,
}

/// The render pass for swapchain images of `surface_format`: the color
/// attachment is cleared on load, stored, and left ready for presentation; the
/// single subpass writes it once the color attachment output stage is reached.
pub open spec fn render_pass_spec(surface_format: i32) -> RenderPassCreateInfo {
    RenderPassCreateInfo {
        color_attachment: AttachmentDescription {
            format: surface_format,
            samples: SAMPLE_COUNT_1,
            load_op: ATTACHMENT_LOAD_OP_CLEAR,
            store_op: ATTACHMENT_STORE_OP_STORE,
            stencil_load_op: ATTACHMENT_LOAD_OP_DONT_CARE,
            stencil_store_op: ATTACHMENT_STORE_OP_DONT_CARE,
            initial_layout: IMAGE_LAYOUT_UNDEFINED,
            final_layout: IMAGE_LAYOUT_PRESENT_SRC,
        },
        subpass: SubpassDescription {
            pipeline_bind_point: PIPELINE_BIND_POINT_GRAPHICS,
            input_attachment_count: 0,
            color_attachment: AttachmentReference {
                attachment: 0,
                layout: IMAGE_LAYOUT_COLOR_ATTACHMENT_OPTIMAL,
            },
            preserve_attachment_count: 0,
        },
        dependency: SubpassDependency {
            src_subpass: SUBPASS_EXTERNAL,
            dst_subpass: 0,
            src_stage_mask: PIPELINE_STAGE_COLOR_ATTACHMENT_OUTPUT,
            dst_stage_mask: PIPELINE_STAGE_COLOR_ATTACHMENT_OUTPUT,
            src_access_mask: 0,
            dst_access_mask: ACCESS_COLOR_ATTACHMENT_WRITE,
        },
    }
}

/// Describes the render pass for swapchain images of `surface_format`.
pub fn create_render_pass(surface_format: i32) -> (info: RenderPassCreateInfo)
    ensures
        info == render_pass_spec(surface_format),
{
    let color_attachment = AttachmentDescription {
        format: surface_format,
        samples: SAMPLE_COUNT_1,
        load_op: ATTACHMENT_LOAD_OP_CLEAR,
        store_op: ATTACHMENT_STORE_OP_STORE,
        stencil_load_op: ATTACHMENT_LOAD_OP_DONT_CARE,
        stencil_store_op: ATTACHMENT_STORE_OP_DONT_CARE,
        initial_layout: IMAGE_LAYOUT_UNDEFINED,
        final_layout: IMAGE_LAYOUT_PRESENT_SRC,
    };
    let color_attachment_ref = AttachmentReference {
        attachment: 0,
        layout: IMAGE_LAYOUT_COLOR_ATTACHMENT_OPTIMAL,
    };
    let subpass = SubpassDescription {
        pipeline_bind_point: PIPELINE_BIND_POINT_GRAPHICS,
        input_attachment_count: 0,
        color_attachment: color_attachment_ref,
        preserve_attachment_count: 0,
    };
    let dependency = SubpassDependency {
        src_subpass: SUBPASS_EXTERNAL,
        dst_subpass: 0,
        src_stage_mask: PIPELINE_STAGE_COLOR_ATTACHMENT_OUTPUT,
        dst_stage_mask: PIPELINE_STAGE_COLOR_ATTACHMENT_OUTPUT,
        src_access_mask: 0,
        dst_access_mask: ACCESS_COLOR_ATTACHMENT_WRITE,
    };
    RenderPassCreateInfo { color_attachment, subpass, dependency }
}

} // verus!
