//! The presentation surface model: a ring of presentable images, a chosen
//! pixel format, a fixed extent, and one long-lived acquisition semaphore.
//!
//! The shell creates the real swapchain from exactly these values and
//! performs the acquire and present calls; the model fixes what the
//! swapchain is built with, learns how many images the driver actually
//! created, validates every acquired index against that count, and pins the
//! acquisition semaphore that every drawable carries.

use vstd::prelude::*;
use crate::commands::Action;
use crate::format::spec_choose_format;
use crate::format::choose_format;
use crate::format::spec_format_preferences;
use crate::Extent2D;
use crate::RenderError;
use crate::SemaphoreId;

verus! {

/// How the swapchain's images are shared between queue families.
#[derive(Clone, Copy, Debug, PartialEq, Eq, Structural)]
pub enum SharingMode {
    /// One queue family owns the images at a time.
    Exclusive,
    /// Several queue families may access the images concurrently.
    Concurrent,
}

/// When a queued present request reaches the screen.
#[derive(Clone, Copy, Debug, PartialEq, Eq, Structural)]
pub enum PresentMode {
    /// Immediately, tearing allowed.
    Immediate,
    /// At the next vertical blank, replacing any still-queued image.
    Mailbox,
    /// At the next vertical blank, in queue order: vsync-gated, no tearing,
    /// bounded-latency queuing.
    Fifo,
    /// As FIFO, but tearing allowed when the queue ran empty.
    FifoRelaxed,
}

/// The swapchain: a ring of `image_count` presentable images of format
/// `format` and extent `extent`, and the one acquisition semaphore that is
/// bound to every acquired image (it is not per-image).
///
/// `min_image_count` is what creation asked for — one more than the
/// capability minimum; `image_count` is how many images the driver actually
/// put in the ring, which may be more.
#[derive(Clone, Copy, Debug, PartialEq, Eq, Structural)]
pub struct Swapchain {
    pub format: u32,
    pub extent: Extent2D,
    pub min_image_count: u32,
    pub image_count: u32,
    pub sharing_mode: SharingMode,
    pub present_mode: PresentMode,
    /// The surface transform creation passed through: the capability's
    /// current transform, as its numeric flag value.
    pub pre_transform: u32,
    pub image_available: SemaphoreId,
}

/// A transient handle to an acquired image, valid for one frame: its ring
/// index, the surface extent, and the semaphore the acquisition signals.
#[derive(Clone, Copy, Debug, PartialEq, Eq, Structural)]
pub struct Drawable {
    pub index: u32,
    pub extent: Extent2D,
    pub ready: SemaphoreId,
}

impl Swapchain {
    /// A swapchain is well formed when its format came from the preference
    /// list, it asked for at least one image, and it owns at least as many
    /// images as it asked for.
    pub open spec fn wf(self) -> bool {
        &&& spec_format_preferences().contains(self.format)
        &&& self.min_image_count >= 1
        &&& self.image_count >= self.min_image_count
    }

    /// Fixes everything the swapchain is created with: the first supported
    /// format from the preference list (no match is a fatal setup failure),
    /// the surface's current extent and transform, one image more than the
    /// capability minimum, exclusive sharing, and FIFO (vsync-gated)
    /// presentation.  `old_swapchain` is the handle being replaced on
    /// recreation; the chosen values do not depend on it.
    ///
    /// The shell passes the surface's reported formats, capability minimum
    /// and current transform, creates the real swapchain from the returned
    /// fields, creates the acquisition semaphore identified by
    /// `image_available`, and then reports the size of the created ring to
    /// [`Swapchain::adopt_image_count`].
    pub fn new(
        supported_formats: &Vec<u32>,
        capability_min_image_count: u32,
        current_transform: u32,
        extent: Extent2D,
        image_available: SemaphoreId,
        old_swapchain: Option<&Swapchain>,
    ) -> (r: Result<Swapchain, RenderError>)
        requires
            capability_min_image_count < u32::MAX,
        ensures
            match r {
                Ok(sc) => {
                    &&& spec_choose_format(supported_formats@) == Some(sc.format)
                    &&& sc.extent == extent
                    &&& sc.min_image_count == capability_min_image_count + 1
                    &&& sc.image_count == sc.min_image_count
                    &&& sc.sharing_mode is Exclusive
                    &&& sc.present_mode is Fifo
                    &&& sc.pre_transform == current_transform
                    &&& sc.image_available == image_available
                    &&& sc.wf()
                },
                Err(e) => {
                    &&& e == RenderError::FormatUnavailable
                    &&& spec_choose_format(supported_formats@) is None
                },
            },
    {
        match choose_format(supported_formats) {
            Some(format) => Ok(Swapchain {
                format,
                extent,
                min_image_count: capability_min_image_count + 1,
                image_count: capability_min_image_count + 1,
                sharing_mode: SharingMode::Exclusive,
                present_mode: PresentMode::Fifo,
                pre_transform: current_transform,
                image_available,
            }),
            None => Err(RenderError::FormatUnavailable),
        }
    }

    /// Adopts the number of images the driver actually created: a driver
    /// may put more images in the ring than creation asked for, and every
    /// acquired index is validated against the true count.  A ring smaller
    /// than the request is a driver fault and is rejected.
    pub fn adopt_image_count(&mut self, count: u32) -> (r: Result<(), RenderError>)
        requires
            old(self).wf(),
        ensures
            final(self).wf(),
            match r {
                Ok(()) => {
                    &&& count >= old(self).min_image_count
                    &&& *final(self) == (Swapchain { image_count: count, ..*old(self) })
                },
                Err(e) => {
                    &&& e == RenderError::ImageRingTooSmall
                    &&& count < old(self).min_image_count
                    &&& *final(self) == *old(self)
                },
            },
    {
        if count >= self.min_image_count {
            self.image_count = count;
            Ok(())
        } else {
            Err(RenderError::ImageRingTooSmall)
        }
    }

    /// Validates an acquisition result and wraps it as a [`Drawable`]: the
    /// index must lie in `[0, image_count)` — the count of images the ring
    /// actually owns — and the drawable always carries this swapchain's one
    /// acquisition semaphore and extent.
    ///
    /// The shell performs the blocking acquire call and passes the index the
    /// driver returned.
    pub fn get_drawable(&self, acquired_index: u32) -> (r: Result<Drawable, RenderError>)
        ensures
            match r {
                Ok(d) => {
                    &&& acquired_index < self.image_count
                    &&& d.index == acquired_index
                    &&& d.extent == self.extent
                    &&& d.ready == self.image_available
                },
                Err(e) => {
                    &&& e == RenderError::ImageIndexOutOfRange
                    &&& acquired_index >= self.image_count
                },
            },
    {
        if acquired_index < self.image_count {
            Ok(Drawable {
                index: acquired_index,
                extent: self.extent,
                ready: self.image_available,
            })
        } else {
            Err(RenderError::ImageIndexOutOfRange)
        }
    }

    /// The present request for an acquired drawable, gated on the
    /// rendering-complete semaphore.
    pub fn present(&self, drawable: &Drawable, rendering_complete: SemaphoreId) -> (a: Action)
        requires
            drawable.index < self.image_count,
        ensures
            a == (Action::PresentImage { index: drawable.index, wait: rendering_complete }),
    {
        Action::PresentImage { index: drawable.index, wait: rendering_complete }
    }
}

/// Recreating the swapchain against the same surface — the same supported
/// format list — with the previous swapchain passed as `old_swapchain`
/// preserves the chosen format: the choice is a function of the supported
/// list alone.
pub proof fn lemma_recreation_preserves_format(
    supported: Seq<u32>,
    first: Swapchain,
    second: Swapchain,
)
    requires
        spec_choose_format(supported) == Some(first.format),
        spec_choose_format(supported) == Some(second.format),
    ensures
        second.format == first.format,
{
}

} // verus!
