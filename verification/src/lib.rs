//! Verified core of a minimal real-time renderer.
//!
//! The library models the GPU-resource and frame-synchronization subsystem of
//! a renderer as plain data: surface-format selection, swapchain image
//! bookkeeping, depth-buffer sizing, pipeline and push-constant layout, and
//! the per-frame synchronization protocol (fence wait, command-buffer
//! recording, image-layout barriers, submission, presentation).  Every
//! decision the renderer makes is a verified function from state and event to
//! next state and a list of [`commands::Action`] values; an unverified shell
//! executes those actions against the graphics API and feeds results (such as
//! the acquired image index) back in.

use vstd::prelude::*;

pub mod commands;
pub mod context;
pub mod depth_buffer;
pub mod format;
pub mod pipeline;
pub mod renderer;
pub mod swapchain;

verus! {

/// A pixel extent: the width and height of a surface or image.
#[derive(Clone, Copy, Debug, PartialEq, Eq, Structural)]
pub struct Extent2D {
    pub width: u32,
    pub height: u32,
}

/// Identifies a semaphore created by the shell; the model tracks only which
/// semaphore is attached where, never the GPU object itself.
pub type SemaphoreId = u64;

/// The failures the renderer core can detect and report.
///
/// Setup failures are fatal for the caller (there is no fallback path);
/// per-frame failures are reported where the driver hands back a value the
/// protocol does not allow.
#[derive(Clone, Copy, Debug, PartialEq, Eq, Structural)]
pub enum RenderError {
    /// No physical graphics device was enumerated.
    NoPhysicalDevice,
    /// The surface supports none of the preferred pixel formats.
    FormatUnavailable,
    /// The driver created fewer swapchain images than were requested.
    ImageRingTooSmall,
    /// An acquired image index lies outside the swapchain's image ring.
    ImageIndexOutOfRange,
}

} // verus!
