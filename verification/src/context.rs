//! The device-context model: the opened graphics device, its single queue,
//! and the one reusable primary command buffer.
//!
//! The shell enumerates physical devices and queue families and opens the
//! logical device, the command pool and the buffer from exactly the values
//! this model fixes: first enumerated device, queue family zero and queue
//! zero within it, the presentation (swapchain) extension, the
//! dynamic-rendering and synchronization features, a pool flagged for
//! buffer reset and reuse, and exactly one primary command buffer.  The
//! model also tracks that buffer's recording state for the frame protocol.

use vstd::prelude::*;
use crate::RenderError;

verus! {

/// The lifecycle of the single reusable command buffer.
#[derive(Clone, Copy, Debug, PartialEq, Eq, Structural)]
pub enum CommandBufferState {
    /// Not recording and not owned by the GPU: may begin recording.
    Ready,
    /// Recording commands for the current frame.
    Recording,
    /// Submitted to the queue; the GPU may still be executing it.
    Submitted,
}

/// The device context: which physical device, queue family and queue were
/// chosen, what the logical device is opened with, how the command pool is
/// flagged, and the state of the one command buffer allocated from it.  No
/// other component allocates command buffers in this design.
#[derive(Clone, Copy, Debug, PartialEq, Eq, Structural)]
pub struct Context {
    pub physical_device_index: u32,
    pub queue_family_index: u32,
    /// The queue's index within its family.
    pub queue_index: u32,
    /// The logical device enables the presentation (swapchain) extension.
    pub swapchain_extension_enabled: bool,
    /// The logical device enables the dynamic-rendering feature, so no
    /// render-pass objects are needed.
    pub dynamic_rendering_enabled: bool,
    /// The logical device enables the extended synchronization feature the
    /// frame barriers and submission are written against.
    pub synchronization2_enabled: bool,
    /// The command pool is flagged so its buffers may be reset and reused.
    pub command_pool_allows_reset: bool,
    /// Exactly one primary command buffer is allocated from the pool.
    pub command_buffer_count: u32,
    pub command_buffer: CommandBufferState,
}

/// The one device context this renderer ever opens: the first enumerated
/// physical device, queue zero of family zero, presentation extension and
/// dynamic-rendering and synchronization features on, a reset-friendly
/// pool holding the single ready command buffer.
pub open spec fn spec_opened_context() -> Context {
    Context {
        physical_device_index: 0,
        queue_family_index: 0,
        queue_index: 0,
        swapchain_extension_enabled: true,
        dynamic_rendering_enabled: true,
        synchronization2_enabled: true,
        command_pool_allows_reset: true,
        command_buffer_count: 1,
        command_buffer: CommandBufferState::Ready,
    }
}

impl Context {
    /// Decides everything the device context is opened with — see
    /// [`spec_opened_context`].  Fails fatally when no physical device or
    /// no queue family exists; there is no fallback.
    ///
    /// The shell passes how many physical devices and queue families its
    /// enumeration calls reported, and opens the logical device, pool and
    /// buffer from the returned value.
    pub fn new(physical_device_count: usize, queue_family_count: usize) -> (r: Result<
        Context,
        RenderError,
    >)
        ensures
            match r {
                Ok(c) => {
                    &&& physical_device_count > 0
                    &&& queue_family_count > 0
                    &&& c == spec_opened_context()
                },
                Err(e) => {
                    &&& e == RenderError::NoPhysicalDevice
                    &&& (physical_device_count == 0 || queue_family_count == 0)
                },
            },
    {
        if physical_device_count == 0 || queue_family_count == 0 {
            Err(RenderError::NoPhysicalDevice)
        } else {
            Ok(Context {
                physical_device_index: 0,
                queue_family_index: 0,
                queue_index: 0,
                swapchain_extension_enabled: true,
                dynamic_rendering_enabled: true,
                synchronization2_enabled: true,
                command_pool_allows_reset: true,
                command_buffer_count: 1,
                command_buffer: CommandBufferState::Ready,
            })
        }
    }
}

} // verus!
