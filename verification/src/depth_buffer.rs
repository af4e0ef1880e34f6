//! The depth attachment model: one depth image and view, fixed format,
//! sized exactly to the swapchain's extent.
//!
//! There is no resize path: if the swapchain extent ever changed, the caller
//! would have to construct a new depth buffer alongside the new swapchain.

use vstd::prelude::*;
use crate::format::FORMAT_D32_SFLOAT;
use crate::swapchain::Swapchain;
use crate::Extent2D;

verus! {

/// The renderer-private depth attachment: its extent always equals the
/// extent of the swapchain it was built against.
#[derive(Clone, Copy, Debug, PartialEq, Eq, Structural)]
pub struct DepthBuffer {
    pub extent: Extent2D,
    pub format: u32,
}

impl DepthBuffer {
    /// Sizes the depth attachment exactly to the swapchain's extent, with
    /// the fixed depth format.  The shell allocates the image and view from
    /// these values.
    pub fn new(swapchain: &Swapchain) -> (d: DepthBuffer)
        ensures
            d.extent == swapchain.extent,
            d.format == FORMAT_D32_SFLOAT,
    {
        DepthBuffer { extent: swapchain.extent, format: FORMAT_D32_SFLOAT }
    }
}

} // verus!
