//! Swapchain sizing decisions.
//!
//! The surface reports its current extent, its extent bounds and a
//! minimum image count; the window reports its framebuffer size. The
//! functions here make the choices the swapchain is created with.

use vstd::prelude::*;

verus! {

/// A two-dimensional pixel extent.
#[derive(Clone, Copy, PartialEq, Eq, Structural, Debug)]
pub struct Extent {
    pub width: u32,
    pub height: u32,
}

/// Width by which a surface reports that its extent is undefined and
/// the window size decides.
pub const EXTENT_UNDEFINED: u32 = 0xFFFF_FFFF;

/// Fixed width of the trace dispatch and the off-screen render target.
/// The dispatch deliberately matches the initial window size: resizing
/// is a deferred capability — a resize request is acknowledged but the
/// swapchain and storage image are not yet recreated.
pub const RENDER_WIDTH: u32 = 1280;

/// Fixed height of the trace dispatch and the off-screen render target.
pub const RENDER_HEIGHT: u32 = 720;

/// `v` clamped into `[lo, hi]`.
pub open spec fn spec_clamp(v: u32, lo: u32, hi: u32) -> u32 {
    if v < lo {
        lo
    } else if v > hi {
        hi
    } else {
        v
    }
}

/// Executable counterpart of [`spec_clamp`].
fn clamp_u32(v: u32, lo: u32, hi: u32) -> (r: u32)
    requires
        lo <= hi,
    ensures
        r == spec_clamp(v, lo, hi),
{
    if v < lo {
        lo
    } else if v > hi {
        hi
    } else {
        v
    }
}

/// The extent the swapchain is created with: the surface's current
/// extent where defined, else the window's framebuffer size clamped to
/// the surface's bounds.
pub fn choose_extent(current: Extent, window: Extent, min: Extent, max: Extent) -> (e: Extent)
    requires
        min.width <= max.width,
        min.height <= max.height,
    ensures
        current.width != EXTENT_UNDEFINED ==> e == current,
        current.width == EXTENT_UNDEFINED ==> {
            &&& e.width == spec_clamp(window.width, min.width, max.width)
            &&& e.height == spec_clamp(window.height, min.height, max.height)
        },
{
    if current.width == EXTENT_UNDEFINED {
        Extent {
            width: clamp_u32(window.width, min.width, max.width),
            height: clamp_u32(window.height, min.height, max.height),
        }
    } else {
        current
    }
}

/// A zero-area extent (a minimized window) cannot be rendered to.
pub fn extent_is_renderable(e: Extent) -> (r: bool)
    ensures
        r == (e.width > 0 && e.height > 0),
{
    e.width > 0 && e.height > 0
}

/// Number of swapchain images requested: at least three, and never
/// fewer than the surface's own minimum.
pub fn swapchain_min_image_count(surface_min: u32) -> (n: u32)
    ensures
        n == if surface_min > 3 {
            surface_min
        } else {
            3u32
        },
        n >= 3,
        n >= surface_min,
{
    if surface_min > 3 {
        surface_min
    } else {
        3
    }
}

} // verus!
