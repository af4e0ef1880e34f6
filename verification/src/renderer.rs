//! The per-frame choreography: the one stateful component.
//!
//! A tick is a strict linear sequence — fence wait and reset, command-buffer
//! begin, depth transition, acquisition, colour transition, draw recording,
//! present transition, submission, presentation — because only one frame is
//! ever in flight.  The renderer owns every image-layout transition; the
//! pipeline component only binds program state and records draws.
//!
//! The fence is the sole CPU-blocking primitive: the renderer may not reuse
//! the command buffer until the previous submission's fence has been waited
//! on and reset.  Semaphores order GPU-side work only: the acquisition
//! semaphore gates the colour-output stage, the rendering-complete semaphore
//! gates presentation.

use vstd::prelude::*;
use crate::commands::AccessKind;
use crate::commands::Action;
use crate::commands::BarrierImage;
use crate::commands::ImageBarrier;
use crate::commands::ImageLayout;
use crate::commands::PipelineStage;
use crate::context::CommandBufferState;
use crate::context::Context;
use crate::depth_buffer::DepthBuffer;
use crate::format::FORMAT_D32_SFLOAT;
use crate::pipeline::DrawObject;
use crate::pipeline::Pipeline;
use crate::pipeline::spec_draw_trace;
use crate::swapchain::Drawable;
use crate::swapchain::Swapchain;
use crate::RenderError;
use crate::SemaphoreId;

verus! {

/// The CPU-visible state of the frame fence.
#[derive(Clone, Copy, Debug, PartialEq, Eq, Structural)]
pub enum FenceState {
    /// The fence is signaled: a wait returns at once.
    Signaled,
    /// The fence has been reset and not yet observed signaled.
    Unsignaled,
}

/// Where in the per-frame sequence the renderer stands.
#[derive(Clone, Copy, Debug, PartialEq, Eq, Structural)]
pub enum FrameStage {
    /// Between frames: ready to begin a tick.
    Idle,
    /// The frame has begun; an image acquisition is outstanding.
    Acquiring,
    /// An image is acquired; draws may be recorded.
    Drawing,
    /// Draws are recorded; the frame may be submitted.
    Submitting,
    /// The frame is submitted; the image may be presented.
    Presenting,
}

/// The frame orchestrator: owns the pipeline, the swapchain, the depth
/// buffer matching it, the frame fence, and the rendering-complete
/// semaphore.
#[derive(Clone, Copy, Debug, PartialEq, Eq, Structural)]
pub struct Renderer {
    pub pipeline: Pipeline,
    pub context: Context,
    pub swapchain: Swapchain,
    pub depth_buffer: DepthBuffer,
    pub fence: FenceState,
    /// Whether a submission of the command buffer is still owned by the GPU
    /// (its fence not yet waited on).
    pub in_flight: bool,
    pub rendering_complete: SemaphoreId,
    pub frame_index: u64,
    pub stage: FrameStage,
}

/// The transition of the renderer-private depth image at the head of each
/// frame: undefined to depth-attachment-optimal, gating the early depth
/// test.  It can precede acquisition because the depth image has no
/// cross-frame external dependency.
pub open spec fn spec_depth_barrier() -> ImageBarrier {
    ImageBarrier {
        image: BarrierImage::Depth,
        old_layout: ImageLayout::Undefined,
        new_layout: ImageLayout::DepthAttachmentOptimal,
        src_stage: PipelineStage::NoStage,
        src_access: AccessKind::NoAccess,
        dst_stage: PipelineStage::EarlyFragmentTests,
        dst_access: AccessKind::DepthAttachmentReadWrite,
    }
}

/// The transition of the acquired colour image before drawing: undefined to
/// colour-attachment-optimal, synchronized with the colour-output stage.
pub open spec fn spec_color_barrier(index: u32) -> ImageBarrier {
    ImageBarrier {
        image: BarrierImage::Swapchain { index },
        old_layout: ImageLayout::Undefined,
        new_layout: ImageLayout::ColorAttachmentOptimal,
        src_stage: PipelineStage::NoStage,
        src_access: AccessKind::NoAccess,
        dst_stage: PipelineStage::ColorAttachmentOutput,
        dst_access: AccessKind::ColorAttachmentWrite,
    }
}

/// The transition of the colour image after drawing: colour-attachment-
/// optimal to present-source, so the present engine may read it.
pub open spec fn spec_present_barrier(index: u32) -> ImageBarrier {
    ImageBarrier {
        image: BarrierImage::Swapchain { index },
        old_layout: ImageLayout::ColorAttachmentOptimal,
        new_layout: ImageLayout::PresentSrc,
        src_stage: PipelineStage::ColorAttachmentOutput,
        src_access: AccessKind::ColorAttachmentWrite,
        dst_stage: PipelineStage::BottomOfPipe,
        dst_access: AccessKind::NoAccess,
    }
}

/// The actions a frame opens with: wait on and reset the fence, begin the
/// command buffer, transition the depth image, then acquire an image
/// signaling the swapchain's one acquisition semaphore.
pub open spec fn spec_begin_trace(sc: Swapchain) -> Seq<Action> {
    seq![
        Action::WaitFence,
        Action::ResetFence,
        Action::BeginCommandBuffer,
        Action::PipelineBarrier { barrier: spec_depth_barrier() },
        Action::AcquireImage { signal: sc.image_available },
    ]
}

/// The actions a frame closes its recording with: the present transition,
/// end of the command buffer, and the one submission — waiting on the
/// drawable's acquisition semaphore at the colour-output stage, signaling
/// the rendering-complete semaphore at the all-commands stage and the frame
/// fence on completion.
pub open spec fn spec_end_trace(d: Drawable, rendering_complete: SemaphoreId) -> Seq<Action> {
    seq![
        Action::PipelineBarrier { barrier: spec_present_barrier(d.index) },
        Action::EndCommandBuffer,
        Action::SubmitCommandBuffer {
            wait: d.ready,
            wait_stage: PipelineStage::ColorAttachmentOutput,
            signal: rendering_complete,
            signal_stage: PipelineStage::AllCommands,
        },
    ]
}

/// Every action of one full tick, in order.
pub open spec fn spec_frame_trace(
    sc: Swapchain,
    d: Drawable,
    scene: Seq<DrawObject>,
    rendering_complete: SemaphoreId,
) -> Seq<Action> {
    spec_begin_trace(sc) + seq![Action::PipelineBarrier { barrier: spec_color_barrier(d.index) }]
        + spec_draw_trace(d.index, d.extent, scene) + spec_end_trace(d, rendering_complete)
        + seq![Action::PresentImage { index: d.index, wait: rendering_complete }]
}

impl Renderer {
    /// The renderer's invariant: the depth buffer always matches the
    /// swapchain's extent, the pipeline is exactly the fixed state built
    /// for the swapchain's format, and the fence, in-flight flag and
    /// command-buffer state agree with the frame stage.
    pub open spec fn wf(self) -> bool {
        &&& self.swapchain.wf()
        &&& self.depth_buffer.extent == self.swapchain.extent
        &&& self.depth_buffer.format == FORMAT_D32_SFLOAT
        &&& self.pipeline == crate::pipeline::spec_pipeline(self.swapchain.format)
        &&& match self.stage {
            FrameStage::Idle => {
                ||| (self.fence is Signaled && !self.in_flight
                    && self.context.command_buffer is Ready)
                ||| (self.fence is Unsignaled && self.in_flight
                    && self.context.command_buffer is Submitted)
            },
            FrameStage::Acquiring | FrameStage::Drawing | FrameStage::Submitting => {
                &&& self.fence is Unsignaled
                &&& !self.in_flight
                &&& self.context.command_buffer is Recording
            },
            FrameStage::Presenting => {
                &&& self.fence is Unsignaled
                &&& self.in_flight
                &&& self.context.command_buffer is Submitted
            },
        }
    }

    /// Whether the fence wait at the head of a tick would block the CPU:
    /// only when the fence is not already signaled.
    pub open spec fn spec_wait_blocks(self) -> bool {
        self.fence is Unsignaled
    }

    /// Builds the renderer over an opened context and a created swapchain:
    /// a pipeline for the swapchain's format, a depth buffer sized to the
    /// swapchain's extent, the frame fence created pre-signaled — so the
    /// very first frame's wait does not block — and the rendering-complete
    /// semaphore identified by `rendering_complete`.
    pub fn new(context: Context, swapchain: Swapchain, rendering_complete: SemaphoreId) -> (r:
        Renderer)
        requires
            context.command_buffer is Ready,
            swapchain.wf(),
        ensures
            r.wf(),
            r.context == context,
            r.swapchain == swapchain,
            r.pipeline == crate::pipeline::spec_pipeline(swapchain.format),
            r.depth_buffer.extent == swapchain.extent,
            r.fence is Signaled,
            !r.spec_wait_blocks(),
            !r.in_flight,
            r.rendering_complete == rendering_complete,
            r.frame_index == 0,
            r.stage is Idle,
    {
        let pipeline = Pipeline::new(swapchain.format);
        let depth_buffer = DepthBuffer::new(&swapchain);
        Renderer {
            pipeline,
            context,
            swapchain,
            depth_buffer,
            fence: FenceState::Signaled,
            in_flight: false,
            rendering_complete,
            frame_index: 0,
            stage: FrameStage::Idle,
        }
    }

    /// Opens a tick: blocks on the frame fence until the previous
    /// submission is done with the command buffer (the wait returns at once
    /// when the fence is already signaled, as on the first frame), resets
    /// the fence, begins the command buffer, transitions the depth image,
    /// and asks the shell to acquire the next image.  The acquired index
    /// goes to [`Renderer::acquire_drawable`].
    pub fn begin_rendering(&mut self) -> (trace: Vec<Action>)
        requires
            old(self).wf(),
            old(self).stage is Idle,
        ensures
            final(self).wf(),
            trace@ == spec_begin_trace(old(self).swapchain),
            *final(self) == (Renderer {
                fence: FenceState::Unsignaled,
                in_flight: false,
                context: (Context {
                    command_buffer: CommandBufferState::Recording,
                    ..old(self).context
                }),
                stage: FrameStage::Acquiring,
                ..*old(self)
            }),
    {
        let mut trace: Vec<Action> = Vec::new();
        trace.push(Action::WaitFence);
        self.fence = FenceState::Signaled;
        self.in_flight = false;
        self.context.command_buffer = CommandBufferState::Ready;
        trace.push(Action::ResetFence);
        self.fence = FenceState::Unsignaled;
        trace.push(Action::BeginCommandBuffer);
        self.context.command_buffer = CommandBufferState::Recording;
        trace.push(
            Action::PipelineBarrier {
                barrier: ImageBarrier {
                    image: BarrierImage::Depth,
                    old_layout: ImageLayout::Undefined,
                    new_layout: ImageLayout::DepthAttachmentOptimal,
                    src_stage: PipelineStage::NoStage,
                    src_access: AccessKind::NoAccess,
                    dst_stage: PipelineStage::EarlyFragmentTests,
                    dst_access: AccessKind::DepthAttachmentReadWrite,
                },
            },
        );
        trace.push(Action::AcquireImage { signal: self.swapchain.image_available });
        self.stage = FrameStage::Acquiring;
        proof {
            assert(trace@ =~= spec_begin_trace(old(self).swapchain));
        }
        trace
    }

    /// Takes the image index the driver's acquisition returned, validates
    /// it against the image ring, and hands back the frame's drawable
    /// together with the colour transition to record before drawing.  The
    /// drawable always carries the swapchain's one acquisition semaphore.
    pub fn acquire_drawable(&mut self, acquired_index: u32) -> (r: Result<
        (Drawable, Action),
        RenderError,
    >)
        requires
            old(self).wf(),
            old(self).stage is Acquiring,
        ensures
            final(self).wf(),
            match r {
                Ok((d, a)) => {
                    &&& acquired_index < old(self).swapchain.image_count
                    &&& d.index == acquired_index
                    &&& d.extent == old(self).swapchain.extent
                    &&& d.ready == old(self).swapchain.image_available
                    &&& a == (Action::PipelineBarrier { barrier: spec_color_barrier(d.index) })
                    &&& *final(self) == (Renderer { stage: FrameStage::Drawing, ..*old(self) })
                },
                Err(e) => {
                    &&& e == RenderError::ImageIndexOutOfRange
                    &&& acquired_index >= old(self).swapchain.image_count
                    &&& *final(self) == *old(self)
                },
            },
    {
        match self.swapchain.get_drawable(acquired_index) {
            Ok(d) => {
                self.stage = FrameStage::Drawing;
                Ok(
                    (
                        d,
                        Action::PipelineBarrier {
                            barrier: ImageBarrier {
                                image: BarrierImage::Swapchain { index: d.index },
                                old_layout: ImageLayout::Undefined,
                                new_layout: ImageLayout::ColorAttachmentOptimal,
                                src_stage: PipelineStage::NoStage,
                                src_access: AccessKind::NoAccess,
                                dst_stage: PipelineStage::ColorAttachmentOutput,
                                dst_access: AccessKind::ColorAttachmentWrite,
                            },
                        },
                    ),
                )
            },
            Err(e) => Err(e),
        }
    }

    /// Records the frame's draws by delegating to the pipeline.  The
    /// invariant that the depth buffer's extent equals the swapchain's —
    /// and so the drawable's — holds at every draw call: it is what lets
    /// the depth attachment be used with the acquired image.
    pub fn record_draws(&mut self, drawable: &Drawable, scene: &Vec<DrawObject>) -> (trace: Vec<
        Action,
    >)
        requires
            old(self).wf(),
            old(self).stage is Drawing,
            drawable.extent == old(self).swapchain.extent,
        ensures
            final(self).wf(),
            trace@ == spec_draw_trace(drawable.index, drawable.extent, scene@),
            *final(self) == (Renderer { stage: FrameStage::Submitting, ..*old(self) }),
    {
        let trace = self.pipeline.draw(drawable, &self.depth_buffer, scene);
        self.stage = FrameStage::Submitting;
        trace
    }

    /// Closes the frame's recording: transitions the colour image for
    /// presentation, ends the command buffer, and submits it — waiting on
    /// the drawable's acquisition semaphore at the colour-output stage,
    /// signaling the rendering-complete semaphore and the frame fence.
    /// After this the command buffer is owned by the GPU until the next
    /// fence wait.
    pub fn end_rendering(&mut self, drawable: &Drawable) -> (trace: Vec<Action>)
        requires
            old(self).wf(),
            old(self).stage is Submitting,
        ensures
            final(self).wf(),
            trace@ == spec_end_trace(*drawable, old(self).rendering_complete),
            *final(self) == (Renderer {
                in_flight: true,
                context: (Context {
                    command_buffer: CommandBufferState::Submitted,
                    ..old(self).context
                }),
                stage: FrameStage::Presenting,
                ..*old(self)
            }),
    {
        let mut trace: Vec<Action> = Vec::new();
        trace.push(
            Action::PipelineBarrier {
                barrier: ImageBarrier {
                    image: BarrierImage::Swapchain { index: drawable.index },
                    old_layout: ImageLayout::ColorAttachmentOptimal,
                    new_layout: ImageLayout::PresentSrc,
                    src_stage: PipelineStage::ColorAttachmentOutput,
                    src_access: AccessKind::ColorAttachmentWrite,
                    dst_stage: PipelineStage::BottomOfPipe,
                    dst_access: AccessKind::NoAccess,
                },
            },
        );
        trace.push(Action::EndCommandBuffer);
        self.context.command_buffer = CommandBufferState::Submitted;
        trace.push(
            Action::SubmitCommandBuffer {
                wait: drawable.ready,
                wait_stage: PipelineStage::ColorAttachmentOutput,
                signal: self.rendering_complete,
                signal_stage: PipelineStage::AllCommands,
            },
        );
        self.in_flight = true;
        self.stage = FrameStage::Presenting;
        proof {
            assert(trace@ =~= spec_end_trace(*drawable, old(self).rendering_complete));
        }
        trace
    }

    /// One whole tick's decisions, composed from the stepwise methods in
    /// the order of the protocol, given the index the acquisition returns:
    /// the returned trace is exactly [`spec_frame_trace`].  A shell that
    /// interleaves the real calls walks the stepwise methods instead,
    /// feeding the acquired index in when the acquisition action has been
    /// performed; the decisions and their order are the same.
    ///
    /// Fails — leaving the frame unsubmitted — exactly when the reported
    /// index lies outside the image ring.
    pub fn draw(&mut self, acquired_index: u32, scene: &Vec<DrawObject>) -> (r: Result<
        Vec<Action>,
        RenderError,
    >)
        requires
            old(self).wf(),
            old(self).stage is Idle,
        ensures
            final(self).wf(),
            match r {
                Ok(trace) => {
                    &&& acquired_index < old(self).swapchain.image_count
                    &&& trace@ == spec_frame_trace(
                        old(self).swapchain,
                        Drawable {
                            index: acquired_index,
                            extent: old(self).swapchain.extent,
                            ready: old(self).swapchain.image_available,
                        },
                        scene@,
                        old(self).rendering_complete,
                    )
                    &&& final(self).stage is Idle
                    &&& final(self).in_flight
                    &&& final(self).swapchain == old(self).swapchain
                    &&& final(self).rendering_complete == old(self).rendering_complete
                    &&& final(self).frame_index == (if old(self).frame_index < u64::MAX {
                        (old(self).frame_index + 1) as u64
                    } else {
                        old(self).frame_index
                    })
                },
                Err(e) => {
                    &&& e == RenderError::ImageIndexOutOfRange
                    &&& acquired_index >= old(self).swapchain.image_count
                    &&& final(self).stage is Acquiring
                },
            },
    {
        let mut trace = self.begin_rendering();
        let (drawable, color_barrier) = match self.acquire_drawable(acquired_index) {
            Ok(ok) => ok,
            Err(e) => {
                return Err(e);
            },
        };
        trace.push(color_barrier);
        let mut draws = self.record_draws(&drawable, scene);
        trace.append(&mut draws);
        let mut end = self.end_rendering(&drawable);
        trace.append(&mut end);
        let present_action = self.present(&drawable);
        trace.push(present_action);
        proof {
            assert(trace@ =~= spec_frame_trace(
                old(self).swapchain,
                Drawable {
                    index: acquired_index,
                    extent: old(self).swapchain.extent,
                    ready: old(self).swapchain.image_available,
                },
                scene@,
                old(self).rendering_complete,
            ));
        }
        Ok(trace)
    }

    /// Queues the present request for the frame's drawable, gated on the
    /// rendering-complete semaphore, and closes the tick.  The frame index
    /// is diagnostic only; it stops counting at its maximum rather than
    /// wrap.
    pub fn present(&mut self, drawable: &Drawable) -> (a: Action)
        requires
            old(self).wf(),
            old(self).stage is Presenting,
            drawable.index < old(self).swapchain.image_count,
        ensures
            final(self).wf(),
            a == (Action::PresentImage {
                index: drawable.index,
                wait: old(self).rendering_complete,
            }),
            *final(self) == (Renderer {
                frame_index: if old(self).frame_index < u64::MAX {
                    (old(self).frame_index + 1) as u64
                } else {
                    old(self).frame_index
                },
                stage: FrameStage::Idle,
                ..*old(self)
            }),
    {
        let a = self.swapchain.present(drawable, self.rendering_complete);
        if self.frame_index < u64::MAX {
            self.frame_index = self.frame_index + 1;
        }
        self.stage = FrameStage::Idle;
        a
    }
}

/// The very first frame's fence wait does not block: the renderer is
/// constructed with the fence pre-signaled.
pub proof fn lemma_first_wait_does_not_block(r: Renderer)
    requires
        r.fence is Signaled,
    ensures
        !r.spec_wait_blocks(),
{
}

/// At every draw call the depth buffer's extent equals the swapchain's:
/// the equality is established when the renderer is constructed and
/// preserved by every frame method, and [`Renderer::record_draws`] demands
/// the invariant — it could only be violated by changing the extent without
/// reconstructing both.
pub proof fn lemma_depth_extent_matches_swapchain(r: Renderer)
    requires
        r.wf(),
    ensures
        r.depth_buffer.extent == r.swapchain.extent,
{
}

/// The synchronization protocol of one tick, read off its action trace:
/// the fence is waited on first and reset second, the command buffer
/// begins recording third — after the wait, never before — and the frame
/// carries exactly one submission, just before its presentation at the
/// end.  Nothing else in the frame waits, resets, begins the buffer,
/// submits or presents.
pub proof fn lemma_frame_protocol(
    sc: Swapchain,
    d: Drawable,
    scene: Seq<DrawObject>,
    rendering_complete: SemaphoreId,
)
    ensures
        spec_frame_trace(sc, d, scene, rendering_complete).len() >= 10,
        forall|i: int|
            0 <= i < spec_frame_trace(sc, d, scene, rendering_complete).len() ==> ((#[trigger]
            spec_frame_trace(sc, d, scene, rendering_complete)[i] is WaitFence) <==> i == 0),
        forall|i: int|
            0 <= i < spec_frame_trace(sc, d, scene, rendering_complete).len() ==> ((#[trigger]
            spec_frame_trace(sc, d, scene, rendering_complete)[i] is ResetFence) <==> i == 1),
        forall|i: int|
            0 <= i < spec_frame_trace(sc, d, scene, rendering_complete).len() ==> ((#[trigger]
            spec_frame_trace(sc, d, scene, rendering_complete)[i] is BeginCommandBuffer) <==> i
                == 2),
        forall|i: int|
            0 <= i < spec_frame_trace(sc, d, scene, rendering_complete).len() ==> ((#[trigger]
            spec_frame_trace(sc, d, scene, rendering_complete)[i] is SubmitCommandBuffer) <==> i
                == spec_frame_trace(sc, d, scene, rendering_complete).len() - 2),
        forall|i: int|
            0 <= i < spec_frame_trace(sc, d, scene, rendering_complete).len() ==> ((#[trigger]
            spec_frame_trace(sc, d, scene, rendering_complete)[i] is PresentImage) <==> i
                == spec_frame_trace(sc, d, scene, rendering_complete).len() - 1),
{
    let t = spec_frame_trace(sc, d, scene, rendering_complete);
    let b = spec_begin_trace(sc);
    let c = seq![Action::PipelineBarrier { barrier: spec_color_barrier(d.index) }];
    let dr = spec_draw_trace(d.index, d.extent, scene);
    let e = spec_end_trace(d, rendering_complete);
    let p = seq![Action::PresentImage { index: d.index, wait: rendering_complete }];
    crate::pipeline::lemma_draw_trace_records_only(d.index, d.extent, scene);
    assert forall|i: int| 0 <= i < t.len() implies {
        &&& ((#[trigger] t[i] is WaitFence) <==> i == 0)
        &&& ((t[i] is ResetFence) <==> i == 1)
        &&& ((t[i] is BeginCommandBuffer) <==> i == 2)
        &&& ((t[i] is SubmitCommandBuffer) <==> i == t.len() - 2)
        &&& ((t[i] is PresentImage) <==> i == t.len() - 1)
    } by {
        if i < 5 {
            assert(t[i] == b[i]);
        } else if i < 6 {
            assert(t[i] == c[0]);
        } else if i < 6 + dr.len() {
            assert(t[i] == dr[i - 6]);
            assert(crate::pipeline::spec_is_recording_action(dr[i - 6]));
        } else if i < 9 + dr.len() {
            assert(t[i] == e[i - 6 - dr.len()]);
        } else {
            assert(t[i] == p[i - 9 - dr.len()]);
        }
    }
}

/// No two in-flight submissions ever touch the one command buffer: in the
/// actions of two consecutive ticks, a fence wait always stands between
/// the two submissions — the second tick waits for the first tick's fence
/// before it reuses the buffer.
pub proof fn lemma_wait_between_submissions(
    sc: Swapchain,
    d1: Drawable,
    scene1: Seq<DrawObject>,
    d2: Drawable,
    scene2: Seq<DrawObject>,
    rendering_complete: SemaphoreId,
)
    ensures
        forall|i: int, j: int|
            (0 <= i < j < (spec_frame_trace(sc, d1, scene1, rendering_complete)
                + spec_frame_trace(sc, d2, scene2, rendering_complete)).len()
                && (#[trigger] (spec_frame_trace(sc, d1, scene1, rendering_complete)
                + spec_frame_trace(sc, d2, scene2, rendering_complete))[i] is SubmitCommandBuffer)
                && (#[trigger] (spec_frame_trace(sc, d1, scene1, rendering_complete)
                + spec_frame_trace(sc, d2, scene2, rendering_complete))[j] is SubmitCommandBuffer))
                ==> exists|m: int|
                i < m < j && (#[trigger] (spec_frame_trace(sc, d1, scene1, rendering_complete)
                    + spec_frame_trace(sc, d2, scene2, rendering_complete))[m] is WaitFence),
{
    let t1 = spec_frame_trace(sc, d1, scene1, rendering_complete);
    let t2 = spec_frame_trace(sc, d2, scene2, rendering_complete);
    let tt = t1 + t2;
    lemma_frame_protocol(sc, d1, scene1, rendering_complete);
    lemma_frame_protocol(sc, d2, scene2, rendering_complete);
    assert forall|i: int, j: int|
        (0 <= i < j < tt.len() && (#[trigger] tt[i] is SubmitCommandBuffer) && (#[trigger] tt[j]
            is SubmitCommandBuffer)) implies exists|m: int|
        i < m < j && (#[trigger] tt[m] is WaitFence) by {
        assert(tt[i] == if i < t1.len() {
            t1[i]
        } else {
            t2[i - t1.len()]
        });
        assert(tt[j] == if j < t1.len() {
            t1[j]
        } else {
            t2[j - t1.len()]
        });
        assert(i == t1.len() - 2 && j == t1.len() + t2.len() - 2);
        let m = t1.len() as int;
        assert(tt[m] == t2[0]);
        assert(tt[m] is WaitFence);
        assert(i < m < j);
    }
}

} // verus!
