//! Framebuffers: one per swapchain image view.

use vstd::prelude::*;
use crate::swapchain::Extent2D;

verus! {

/// The parameters a framebuffer is created with. Its only attachment is one
/// swapchain image view.
#[derive(Clone, Copy, Debug, PartialEq, Eq, Structural)]
pub struct FramebufferCreateInfo {
    pub render_pass: u64,
    pub attachment: u64,
    pub width: u32,
    pub height: u32,
    pub layers: u32,
}

/// The framebuffer over `image_view`: as large as the swapchain, one layer.
pub open spec fn framebuffer_spec(
    render_pass: u64,
    image_view: u64,
    extent: Extent2D,
) -> FramebufferCreateInfo {
    FramebufferCreateInfo {
        render_pass,
        attachment: image_view,
        width: extent.width,
        height: extent.height,
        layers: 1,
    }
}

/// Describes one framebuffer per image view, in view order.
pub fn create_framebuffers(
    render_pass: u64,
    image_views: &[u64],
    swapchain_extent: &Extent2D,
) -> (infos: Vec<FramebufferCreateInfo>)
    ensures
        infos@.len() == image_views@.len(),
        forall|i: int|
            0 <= i < image_views@.len() ==> #[trigger] infos@[i] == framebuffer_spec(
                render_pass,
                image_views@[i],
                *swapchain_extent,
            ),
{
    let mut infos: Vec<FramebufferCreateInfo> = Vec::new();
    let mut i: usize = 0;
    while i < image_views.len()
        invariant
            i <= image_views@.len(),
            infos@.len() == i,
            forall|j: int|
                0 <= j < i ==> #[trigger] infos@[j] == framebuffer_spec(
                    render_pass,
                    image_views@[j],
                    *swapchain_extent,
                ),
        decreases image_views@.len() - i,
    {
        infos.push(
            FramebufferCreateInfo {
                render_pass,
                attachment: image_views[i],
                width: swapchain_extent.width,
                height: swapchain_extent.height,
                layers: 1,
            },
        );
        i += 1;
    }
    infos
}

} // verus!
