//! The presentable surface of a window.

use vstd::prelude::*;
use crate::constants::RESULT_SUCCESS;

verus! {

/// The windowing system a surface is created through.
#[derive(Clone, Copy, Debug, PartialEq, Eq, Structural)]
pub enum SurfacePlatform {
    Wayland,
    Xlib,
}

/// The surface bound to one window.
#[derive(Clone, Copy, Debug, PartialEq, Eq, Structural)]
pub struct PotatoSurface {
    pub surface: u64,
    pub platform: SurfacePlatform,
}

/// Why there is no surface.
#[derive(Clone, Copy, Debug, PartialEq, Eq, Structural)]
pub enum SurfaceError {
    /// The window belongs to neither supported windowing system.
    UnsupportedPlatform,
    /// The platform refused to create the surface, with this result code.
    CreationFailed(i32),
}

/// The windowing system to create the surface through: Wayland where the
/// window has a Wayland surface, else Xlib where it has an Xlib window.
pub fn create_platform_surface(has_wayland_surface: bool, has_xlib_window: bool) -> (platform:
    Result<SurfacePlatform, SurfaceError>)
    ensures
        has_wayland_surface ==> platform == Ok::<SurfacePlatform, SurfaceError>(
            SurfacePlatform::Wayland,
        ),
        !has_wayland_surface && has_xlib_window ==> platform == Ok::<SurfacePlatform, SurfaceError>(
            SurfacePlatform::Xlib,
        ),
        !has_wayland_surface && !has_xlib_window ==> platform == Err::<
            SurfacePlatform,
            SurfaceError,
        >(SurfaceError::UnsupportedPlatform),
{
    if has_wayland_surface {
        Ok(SurfacePlatform::Wayland)
    } else if has_xlib_window {
        Ok(SurfacePlatform::Xlib)
    } else {
        Err(SurfaceError::UnsupportedPlatform)
    }
}

/// Takes in what the platform returned when asked for a surface.
pub fn create_surface(platform: SurfacePlatform, result: i32, surface: u64) -> (created: Result<
    PotatoSurface,
    SurfaceError,
>)
    ensures
        result != RESULT_SUCCESS ==> created == Err::<PotatoSurface, SurfaceError>(
            SurfaceError::CreationFailed(result),
        ),
        result == RESULT_SUCCESS ==> created == Ok::<PotatoSurface, SurfaceError>(
            PotatoSurface { surface, platform },
        ),
{
    if result != RESULT_SUCCESS {
        Err(SurfaceError::CreationFailed(result))
    } else {
        Ok(PotatoSurface { surface, platform })
    }
}

} // verus!
