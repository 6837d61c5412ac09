//! Swapchain negotiation: which surface format, present mode, extent and image
//! count the swapchain is created with, and how its image views are described.

use vstd::prelude::*;
use crate::constants::{
    COLOR_SPACE_SRGB_NONLINEAR, COMPONENT_SWIZZLE_IDENTITY, COMPOSITE_ALPHA_OPAQUE,
    FORMAT_B8G8R8A8_SRGB, IMAGE_ASPECT_COLOR, IMAGE_USAGE_COLOR_ATTACHMENT, IMAGE_VIEW_TYPE_2D,
    NULL_HANDLE, PRESENT_MODE_FIFO, PRESENT_MODE_MAILBOX, SHARING_MODE_EXCLUSIVE,
};

verus! {

/// A width and a height in pixels.
#[derive(Clone, Copy, Debug, PartialEq, Eq, Structural)]
pub struct Extent2D {
    pub width: u32,
    pub height: u32,
}

/// A pixel format together with the color space it is presented in.
#[derive(Clone, Copy, Debug, PartialEq, Eq, Structural)]
pub struct SurfaceFormat {
    pub format: i32,
    pub color_space: i32,
}

/// What a surface reports about the swapchains it can back.
#[derive(Clone, Copy, Debug, PartialEq, Eq, Structural)]
pub struct SurfaceCapabilities {
    pub min_image_count: u32,
    pub max_image_count: u32,
    pub current_extent: Extent2D,
    pub min_image_extent: Extent2D,
    pub max_image_extent: Extent2D,
    pub current_transform: u32,
}

/// Everything a device reports about presenting to one surface.
pub struct SwapChainSupportDetail {
    pub capabilities: SurfaceCapabilities,
    pub formats: Vec<SurfaceFormat>,
    pub present_modes: Vec<i32>,
}

/// The format the renderer asks for when the surface offers it.
pub open spec fn preferred_format() -> SurfaceFormat {
    SurfaceFormat { format: FORMAT_B8G8R8A8_SRGB, color_space: COLOR_SPACE_SRGB_NONLINEAR }
}

/// `input` limited to the closed range from `min` to `max`.
pub open spec fn clamp_spec(input: int, min: int, max: int) -> int {
    if input < min {
        min
    } else if input > max {
        max
    } else {
        input
    }
}

impl Extent2D {
    /// Both axes lie between those of `min` and `max`.
    pub open spec fn within(self, min: Extent2D, max: Extent2D) -> bool {
        &&& min.width <= self.width <= max.width
        &&& min.height <= self.height <= max.height
    }
}

impl SurfaceCapabilities {
    /// The surface dictates the extent; otherwise the swapchain picks one. An
    /// extent is left open by reporting the largest number on both axes.
    pub open spec fn has_current_extent(self) -> bool {
        !(self.current_extent.width == u32::MAX && self.current_extent.height == u32::MAX)
    }

    /// The smallest allowed extent does not exceed the largest on either axis.
    pub open spec fn bounds_ordered(self) -> bool {
        &&& self.min_image_extent.width <= self.max_image_extent.width
        &&& self.min_image_extent.height <= self.max_image_extent.height
    }

    /// A report as the platform promises it: ordered bounds, and a dictated
    /// extent that lies inside them.
    pub open spec fn supported(self) -> bool {
        &&& self.bounds_ordered()
        &&& self.has_current_extent() ==> self.current_extent.within(
            self.min_image_extent,
            self.max_image_extent,
        )
    }

    /// An image count can be derived without leaving `u32`.
    pub open spec fn image_count_representable(self) -> bool {
        self.max_image_count > 0 || self.min_image_count < u32::MAX
    }
}

/// The format chosen from `available`: the preferred one where offered, else the first.
pub open spec fn choose_format_spec(available: Seq<SurfaceFormat>) -> SurfaceFormat {
    if available.contains(preferred_format()) {
        preferred_format()
    } else {
        available[0]
    }
}

/// The present mode chosen from `available`: mailbox where offered, else FIFO.
pub open spec fn choose_present_mode_spec(available: Seq<i32>) -> i32 {
    if available.contains(PRESENT_MODE_MAILBOX) {
        PRESENT_MODE_MAILBOX
    } else {
        PRESENT_MODE_FIFO
    }
}

/// The extent chosen for `capabilities` when the window measures `window`.
pub open spec fn choose_extent_spec(capabilities: SurfaceCapabilities, window: Extent2D) -> Extent2D {
    if capabilities.has_current_extent() {
        capabilities.current_extent
    } else {
        Extent2D {
            width: clamp_spec(
                window.width as int,
                capabilities.min_image_extent.width as int,
                capabilities.max_image_extent.width as int,
            ) as u32,
            height: clamp_spec(
                window.height as int,
                capabilities.min_image_extent.height as int,
                capabilities.max_image_extent.height as int,
            ) as u32,
        }
    }
}

/// The number of images asked for: the maximum where one is reported, else one
/// more than the minimum.
pub open spec fn choose_image_count_spec(capabilities: SurfaceCapabilities) -> int {
    if capabilities.max_image_count > 0 {
        capabilities.max_image_count as int
    } else {
        capabilities.min_image_count + 1
    }
}

/// Calls `num::clamp` on `u32` values. The call returns `min` for an input
/// below `min`, `max` for one above `max`, and the input otherwise; it panics
/// in debug builds when `min` exceeds `max`, which the precondition rules out.
#[verifier::external_body]
fn clamp_u32(input: u32, min: u32, max: u32) -> (clamped: u32)
    requires
        min <= max,
    ensures
        clamped == clamp_spec(input as int, min as int, max as int),
{
    num::clamp(input, min, max)
}

/// Picks the surface format: the preferred one if the surface offers it, the
/// first offered one otherwise.
pub fn choose_swapchain_format(available_formats: &[SurfaceFormat]) -> (chosen: SurfaceFormat)
    requires
        available_formats@.len() > 0,
    ensures
        chosen == choose_format_spec(available_formats@),
{
    let mut i: usize = 0;
    while i < available_formats.len()
        invariant
            i <= available_formats@.len(),
            forall|j: int| 0 <= j < i ==> available_formats@[j] != preferred_format(),
        decreases available_formats@.len() - i,
    {
        let candidate = available_formats[i];
        if candidate.format == FORMAT_B8G8R8A8_SRGB && candidate.color_space
            == COLOR_SPACE_SRGB_NONLINEAR {
            assert(available_formats@[i as int] == preferred_format());
            return candidate;
        }
        i += 1;
    }
    available_formats[0]
}

/// Picks the present mode: mailbox if the surface offers it, FIFO otherwise.
pub fn choose_swapchain_present_mode(available_present_modes: &[i32]) -> (chosen: i32)
    ensures
        chosen == choose_present_mode_spec(available_present_modes@),
{
    let mut i: usize = 0;
    while i < available_present_modes.len()
        invariant
            i <= available_present_modes@.len(),
            forall|j: int| 0 <= j < i ==> available_present_modes@[j] != PRESENT_MODE_MAILBOX,
        decreases available_present_modes@.len() - i,
    {
        if available_present_modes[i] == PRESENT_MODE_MAILBOX {
            return PRESENT_MODE_MAILBOX;
        }
        i += 1;
    }
    PRESENT_MODE_FIFO
}

/// Picks the swapchain extent: the one the surface dictates, or the window size
/// clamped into the allowed range.
pub fn choose_swapchain_extent(capabilities: &SurfaceCapabilities, window: Extent2D) -> (chosen:
    Extent2D)
    requires
        !capabilities.has_current_extent() ==> capabilities.bounds_ordered(),
    ensures
        chosen == choose_extent_spec(*capabilities, window),
{
    if !(capabilities.current_extent.width == u32::MAX && capabilities.current_extent.height
        == u32::MAX) {
        capabilities.current_extent
    } else {
        Extent2D {
            width: clamp_u32(
                window.width,
                capabilities.min_image_extent.width,
                capabilities.max_image_extent.width,
            ),
            height: clamp_u32(
                window.height,
                capabilities.min_image_extent.height,
                capabilities.max_image_extent.height,
            ),
        }
    }
}

/// Picks the number of swapchain images to ask for.
pub fn choose_swapchain_image_count(capabilities: &SurfaceCapabilities) -> (count: u32)
    requires
        capabilities.image_count_representable(),
    ensures
        count == choose_image_count_spec(*capabilities),
{
    if capabilities.max_image_count > 0 {
        capabilities.max_image_count
    } else {
        capabilities.min_image_count + 1
    }
}

/// Why a swapchain cannot be set up.
#[derive(Clone, Copy, Debug, PartialEq, Eq, Structural)]
pub enum SwapchainError {
    /// The surface offers no format.
    NoSurfaceFormats,
    /// The surface offers no present mode.
    NoPresentModes,
    /// The surface leaves the extent open and reports a smallest extent above the largest.
    InvalidExtentBounds,
    /// One image more than the reported minimum does not fit in `u32`.
    ImageCountOverflow,
    /// The number of image views differs from the number of images.
    ViewCountMismatch,
}

/// The parameters a swapchain is created with.
#[derive(Clone, Copy, Debug, PartialEq, Eq, Structural)]
pub struct SwapchainCreateInfo {
    pub surface: u64,
    pub min_image_count: u32,
    pub image_format: i32,
    pub image_color_space: i32,
    pub image_extent: Extent2D,
    pub image_array_layers: u32,
    pub image_usage: u32,
    pub image_sharing_mode: i32,
    pub queue_family_index_count: u32,
    pub pre_transform: u32,
    pub composite_alpha: u32,
    pub present_mode: i32,
    pub clipped: bool,
    pub old_swapchain: u64,
}

/// The parameters an image view onto one swapchain image is created with.
#[derive(Clone, Copy, Debug, PartialEq, Eq, Structural)]
pub struct ImageViewCreateInfo {
    pub image: u64,
    pub view_type: i32,
    pub format: i32,
    pub swizzle_r: i32,
    pub swizzle_g: i32,
    pub swizzle_b: i32,
    pub swizzle_a: i32,
    pub aspect_mask: u32,
    pub base_mip_level: u32,
    pub level_count: u32,
    pub base_array_layer: u32,
    pub layer_count: u32,
}

/// A live swapchain with its images and one view per image.
pub struct PotatoSwapChain {
    pub swapchain: u64,
    pub swapchain_images: Vec<u64>,
    pub swapchain_format: i32,
    pub swapchain_extent: Extent2D,
    pub swapchain_image_views: Vec<u64>,
}

impl SwapChainSupportDetail {
    /// The report offers at least one format and one present mode.
    pub open spec fn usable(&self) -> bool {
        self.formats@.len() > 0 && self.present_modes@.len() > 0
    }
}

impl PotatoSwapChain {
    /// Every image has exactly one view.
    pub open spec fn well_formed(&self) -> bool {
        self.swapchain_images@.len() == self.swapchain_image_views@.len()
    }

    /// The swapchain was created with `info`: it has the format and the extent
    /// asked for, and one view per image.
    pub open spec fn built_from(&self, info: SwapchainCreateInfo) -> bool {
        &&& self.well_formed()
        &&& self.swapchain_format == info.image_format
        &&& self.swapchain_extent == info.image_extent
    }
}

/// The creation parameters derived from a usable report on which neither the
/// extent nor the image count fails.
pub open spec fn swapchain_info_spec(
    capabilities: SurfaceCapabilities,
    formats: Seq<SurfaceFormat>,
    present_modes: Seq<i32>,
    surface: u64,
    window: Extent2D,
) -> SwapchainCreateInfo {
    SwapchainCreateInfo {
        surface,
        min_image_count: choose_image_count_spec(capabilities) as u32,
        image_format: choose_format_spec(formats).format,
        image_color_space: choose_format_spec(formats).color_space,
        image_extent: choose_extent_spec(capabilities, window),
        image_array_layers: 1,
        image_usage: IMAGE_USAGE_COLOR_ATTACHMENT,
        image_sharing_mode: SHARING_MODE_EXCLUSIVE,
        queue_family_index_count: 0,
        pre_transform: capabilities.current_transform,
        composite_alpha: COMPOSITE_ALPHA_OPAQUE,
        present_mode: choose_present_mode_spec(present_modes),
        clipped: true,
        old_swapchain: NULL_HANDLE,
    }
}

/// What `create_swapchain` answers for a report: the first failing check, or
/// the creation parameters.
pub open spec fn create_swapchain_spec(
    capabilities: SurfaceCapabilities,
    formats: Seq<SurfaceFormat>,
    present_modes: Seq<i32>,
    surface: u64,
    window: Extent2D,
) -> Result<SwapchainCreateInfo, SwapchainError> {
    if formats.len() == 0 {
        Err(SwapchainError::NoSurfaceFormats)
    } else if present_modes.len() == 0 {
        Err(SwapchainError::NoPresentModes)
    } else if !capabilities.has_current_extent() && !capabilities.bounds_ordered() {
        Err(SwapchainError::InvalidExtentBounds)
    } else if !capabilities.image_count_representable() {
        Err(SwapchainError::ImageCountOverflow)
    } else {
        Ok(swapchain_info_spec(capabilities, formats, present_modes, surface, window))
    }
}

/// The view parameters for one swapchain image: a 2D color view with identity
/// swizzles over the single mip level and array layer.
pub open spec fn image_view_spec(surface_format: i32, image: u64) -> ImageViewCreateInfo {
    ImageViewCreateInfo {
        image,
        view_type: IMAGE_VIEW_TYPE_2D,
        format: surface_format,
        swizzle_r: COMPONENT_SWIZZLE_IDENTITY,
        swizzle_g: COMPONENT_SWIZZLE_IDENTITY,
        swizzle_b: COMPONENT_SWIZZLE_IDENTITY,
        swizzle_a: COMPONENT_SWIZZLE_IDENTITY,
        aspect_mask: IMAGE_ASPECT_COLOR,
        base_mip_level: 0,
        level_count: 1,
        base_array_layer: 0,
        layer_count: 1,
    }
}

/// Collects what a device reports for a surface, refusing a report without
/// formats or without present modes.
pub fn determine_swapchain_support(
    capabilities: SurfaceCapabilities,
    formats: Vec<SurfaceFormat>,
    present_modes: Vec<i32>,
) -> (support: Result<SwapChainSupportDetail, SwapchainError>)
    ensures
        formats@.len() == 0 ==> support == Err::<SwapChainSupportDetail, SwapchainError>(
            SwapchainError::NoSurfaceFormats,
        ),
        formats@.len() > 0 && present_modes@.len() == 0 ==> support == Err::<
            SwapChainSupportDetail,
            SwapchainError,
        >(SwapchainError::NoPresentModes),
        formats@.len() > 0 && present_modes@.len() > 0 ==> support == Ok::<
            SwapChainSupportDetail,
            SwapchainError,
        >(SwapChainSupportDetail { capabilities, formats, present_modes }),
        support is Ok ==> support->Ok_0.usable(),
{
    if formats.len() == 0 {
        Err(SwapchainError::NoSurfaceFormats)
    } else if present_modes.len() == 0 {
        Err(SwapchainError::NoPresentModes)
    } else {
        Ok(SwapChainSupportDetail { capabilities, formats, present_modes })
    }
}

/// Derives the parameters the swapchain for `surface` is created with, or says
/// which part of the report rules a swapchain out.
pub fn create_swapchain(
    swapchain_support: &SwapChainSupportDetail,
    surface: u64,
    window: Extent2D,
) -> (info: Result<SwapchainCreateInfo, SwapchainError>)
    ensures
        info == create_swapchain_spec(
            swapchain_support.capabilities,
            swapchain_support.formats@,
            swapchain_support.present_modes@,
            surface,
            window,
        ),
{
    let capabilities = &swapchain_support.capabilities;
    if swapchain_support.formats.len() == 0 {
        return Err(SwapchainError::NoSurfaceFormats);
    }
    if swapchain_support.present_modes.len() == 0 {
        return Err(SwapchainError::NoPresentModes);
    }
    let undefined_extent = capabilities.current_extent.width == u32::MAX
        && capabilities.current_extent.height == u32::MAX;
    let ordered = capabilities.min_image_extent.width <= capabilities.max_image_extent.width
        && capabilities.min_image_extent.height <= capabilities.max_image_extent.height;
    if undefined_extent && !ordered {
        return Err(SwapchainError::InvalidExtentBounds);
    }
    if capabilities.max_image_count == 0 && capabilities.min_image_count == u32::MAX {
        return Err(SwapchainError::ImageCountOverflow);
    }
    let surface_format = choose_swapchain_format(swapchain_support.formats.as_slice());
    let present_mode = choose_swapchain_present_mode(swapchain_support.present_modes.as_slice());
    let extent = choose_swapchain_extent(capabilities, window);
    let image_count = choose_swapchain_image_count(capabilities);
    Ok(
        SwapchainCreateInfo {
            surface,
            min_image_count: image_count,
            image_format: surface_format.format,
            image_color_space: surface_format.color_space,
            image_extent: extent,
            image_array_layers: 1,
            image_usage: IMAGE_USAGE_COLOR_ATTACHMENT,
            image_sharing_mode: SHARING_MODE_EXCLUSIVE,
            queue_family_index_count: 0,
            pre_transform: capabilities.current_transform,
            composite_alpha: COMPOSITE_ALPHA_OPAQUE,
            present_mode,
            clipped: true,
            old_swapchain: NULL_HANDLE,
        },
    )
}

/// Describes the view onto one swapchain image.
pub fn create_image_view(surface_format: i32, image: u64) -> (info: ImageViewCreateInfo)
    ensures
        info == image_view_spec(surface_format, image),
{
    ImageViewCreateInfo {
        image,
        view_type: IMAGE_VIEW_TYPE_2D,
        format: surface_format,
        swizzle_r: COMPONENT_SWIZZLE_IDENTITY,
        swizzle_g: COMPONENT_SWIZZLE_IDENTITY,
        swizzle_b: COMPONENT_SWIZZLE_IDENTITY,
        swizzle_a: COMPONENT_SWIZZLE_IDENTITY,
        aspect_mask: IMAGE_ASPECT_COLOR,
        base_mip_level: 0,
        level_count: 1,
        base_array_layer: 0,
        layer_count: 1,
    }
}

/// Describes one view per swapchain image, in image order.
pub fn create_image_views(surface_format: i32, images: &[u64]) -> (infos: Vec<ImageViewCreateInfo>)
    ensures
        infos@.len() == images@.len(),
        forall|i: int|
            0 <= i < images@.len() ==> #[trigger] infos@[i] == image_view_spec(
                surface_format,
                images@[i],
            ),
{
    let mut infos: Vec<ImageViewCreateInfo> = Vec::new();
    let mut i: usize = 0;
    while i < images.len()
        invariant
            i <= images@.len(),
            infos@.len() == i,
            forall|j: int|
                0 <= j < i ==> #[trigger] infos@[j] == image_view_spec(surface_format, images@[j]),
        decreases images@.len() - i,
    {
        infos.push(create_image_view(surface_format, images[i]));
        i += 1;
    }
    infos
}

impl PotatoSwapChain {
    /// Binds the handles the device returned to the parameters they were
    /// created with: the swapchain holds exactly the images handed out, however
    /// many they are. Refused when the views do not match the images one to one.
    pub fn assemble(
        info: &SwapchainCreateInfo,
        swapchain: u64,
        swapchain_images: Vec<u64>,
        swapchain_image_views: Vec<u64>,
    ) -> (assembled: Result<PotatoSwapChain, SwapchainError>)
        ensures
            swapchain_images@.len() != swapchain_image_views@.len() ==> assembled == Err::<
                PotatoSwapChain,
                SwapchainError,
            >(SwapchainError::ViewCountMismatch),
            swapchain_images@.len() == swapchain_image_views@.len() ==> assembled == Ok::<
                PotatoSwapChain,
                SwapchainError,
            >(
                PotatoSwapChain {
                    swapchain,
                    swapchain_images,
                    swapchain_format: info.image_format,
                    swapchain_extent: info.image_extent,
                    swapchain_image_views,
                },
            ),
            assembled is Ok ==> assembled->Ok_0.built_from(*info),
    {
        if swapchain_images.len() != swapchain_image_views.len() {
            Err(SwapchainError::ViewCountMismatch)
        } else {
            Ok(
                PotatoSwapChain {
                    swapchain,
                    swapchain_images,
                    swapchain_format: info.image_format,
                    swapchain_extent: info.image_extent,
                    swapchain_image_views,
                },
            )
        }
    }
}

/// On every supported report the chosen extent lies within the reported
/// bounds, and it is the extent the surface dictates whenever there is one.
pub proof fn lemma_chosen_extent_within_bounds(capabilities: SurfaceCapabilities, window: Extent2D)
    requires
        capabilities.supported(),
    ensures
        choose_extent_spec(capabilities, window).within(
            capabilities.min_image_extent,
            capabilities.max_image_extent,
        ),
        capabilities.has_current_extent() ==> choose_extent_spec(capabilities, window)
            == capabilities.current_extent,
{
}

/// A list that offers the preferred format yields exactly it; any other
/// non-empty list yields its first element.
pub proof fn lemma_chosen_format(available: Seq<SurfaceFormat>)
    requires
        available.len() > 0,
    ensures
        available.contains(preferred_format()) ==> choose_format_spec(available)
            == preferred_format(),
        !available.contains(preferred_format()) ==> choose_format_spec(available) == available[0],
        available.contains(choose_format_spec(available)),
{
    if !available.contains(preferred_format()) {
        assert(available[0] == choose_format_spec(available));
    }
}

/// The chosen present mode is mailbox exactly when the list offers mailbox and
/// FIFO otherwise, whatever else the list holds and in whatever order.
pub proof fn lemma_chosen_present_mode(available: Seq<i32>)
    ensures
        available.contains(PRESENT_MODE_MAILBOX) ==> choose_present_mode_spec(available)
            == PRESENT_MODE_MAILBOX,
        !available.contains(PRESENT_MODE_MAILBOX) ==> choose_present_mode_spec(available)
            == PRESENT_MODE_FIFO,
        choose_present_mode_spec(available) == PRESENT_MODE_MAILBOX || choose_present_mode_spec(
            available,
        ) == PRESENT_MODE_FIFO,
        available.contains(choose_present_mode_spec(available)) || choose_present_mode_spec(
            available,
        ) == PRESENT_MODE_FIFO,
{
}

/// Reordering the offered present modes does not change the choice.
pub proof fn lemma_present_mode_ignores_order(first: Seq<i32>, second: Seq<i32>)
    requires
        first.to_multiset() == second.to_multiset(),
    ensures
        choose_present_mode_spec(first) == choose_present_mode_spec(second),
{
    first.to_multiset_ensures();
    second.to_multiset_ensures();
    assert(first.contains(PRESENT_MODE_MAILBOX) == (first.to_multiset().count(
        PRESENT_MODE_MAILBOX,
    ) > 0));
    assert(second.contains(PRESENT_MODE_MAILBOX) == (second.to_multiset().count(
        PRESENT_MODE_MAILBOX,
    ) > 0));
}

/// A swapchain is owed on every report that offers a format and a present
/// mode, is supported, and leaves room for one image more than its minimum.
pub proof fn lemma_supported_report_yields_swapchain(
    support: SwapChainSupportDetail,
    surface: u64,
    window: Extent2D,
)
    requires
        support.usable(),
        support.capabilities.supported(),
        support.capabilities.image_count_representable(),
    ensures
        create_swapchain_spec(
            support.capabilities,
            support.formats@,
            support.present_modes@,
            surface,
            window,
        ) == Ok::<SwapchainCreateInfo, SwapchainError>(
            swapchain_info_spec(
                support.capabilities,
                support.formats@,
                support.present_modes@,
                surface,
                window,
            ),
        ),
        swapchain_info_spec(
            support.capabilities,
            support.formats@,
            support.present_modes@,
            surface,
            window,
        ).image_extent.within(
            support.capabilities.min_image_extent,
            support.capabilities.max_image_extent,
        ),
        support.formats@.contains(
            SurfaceFormat {
                format: swapchain_info_spec(
                    support.capabilities,
                    support.formats@,
                    support.present_modes@,
                    surface,
                    window,
                ).image_format,
                color_space: swapchain_info_spec(
                    support.capabilities,
                    support.formats@,
                    support.present_modes@,
                    surface,
                    window,
                ).image_color_space,
            },
        ),
{
    lemma_chosen_format(support.formats@);
    lemma_chosen_extent_within_bounds(support.capabilities, window);
}

/// Building the swapchain again from the same report repeats the choice:
/// format, color space, present mode and image count do not depend on the
/// window, and with an unchanged window nothing differs at all.
pub proof fn lemma_rebuild_repeats_choice(
    capabilities: SurfaceCapabilities,
    formats: Seq<SurfaceFormat>,
    present_modes: Seq<i32>,
    surface: u64,
    before: Extent2D,
    after: Extent2D,
)
    requires
        create_swapchain_spec(capabilities, formats, present_modes, surface, before) is Ok,
    ensures
        create_swapchain_spec(capabilities, formats, present_modes, surface, after) is Ok,
        create_swapchain_spec(
            capabilities,
            formats,
            present_modes,
            surface,
            after,
        )->Ok_0.image_format == create_swapchain_spec(
            capabilities,
            formats,
            present_modes,
            surface,
            before,
        )->Ok_0.image_format,
        create_swapchain_spec(
            capabilities,
            formats,
            present_modes,
            surface,
            after,
        )->Ok_0.image_color_space == create_swapchain_spec(
            capabilities,
            formats,
            present_modes,
            surface,
            before,
        )->Ok_0.image_color_space,
        create_swapchain_spec(
            capabilities,
            formats,
            present_modes,
            surface,
            after,
        )->Ok_0.present_mode == create_swapchain_spec(
            capabilities,
            formats,
            present_modes,
            surface,
            before,
        )->Ok_0.present_mode,
        create_swapchain_spec(
            capabilities,
            formats,
            present_modes,
            surface,
            after,
        )->Ok_0.min_image_count == create_swapchain_spec(
            capabilities,
            formats,
            present_modes,
            surface,
            before,
        )->Ok_0.min_image_count,
        (before == after || capabilities.has_current_extent()) ==> create_swapchain_spec(
            capabilities,
            formats,
            present_modes,
            surface,
            after,
        ) == create_swapchain_spec(capabilities, formats, present_modes, surface, before),
{
}

} // verus!
