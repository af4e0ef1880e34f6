//! The vocabulary of graphics-API steps the renderer decides on.
//!
//! The verified core never calls the graphics API itself.  Each per-frame
//! decision is returned as a list of [`Action`] values; the unverified shell
//! performs them in order against the real device.  Barriers are spelled out
//! in full because the underlying API gives no implicit guarantee about image
//! layout or memory visibility: every transition must be stated.

use vstd::prelude::*;
use crate::Extent2D;
use crate::SemaphoreId;

verus! {

/// The image an image-layout barrier applies to.
#[derive(Clone, Copy, Debug, PartialEq, Eq, Structural)]
pub enum BarrierImage {
    /// The renderer-private depth attachment.
    Depth,
    /// The presentable colour image at the given ring index.
    Swapchain { index: u32 },
}

/// An image layout named by a barrier.
#[derive(Clone, Copy, Debug, PartialEq, Eq, Structural)]
pub enum ImageLayout {
    Undefined,
    DepthAttachmentOptimal,
    ColorAttachmentOptimal,
    PresentSrc,
}

/// A pipeline stage a barrier or a semaphore synchronizes against.
#[derive(Clone, Copy, Debug, PartialEq, Eq, Structural)]
pub enum PipelineStage {
    NoStage,
    EarlyFragmentTests,
    ColorAttachmentOutput,
    BottomOfPipe,
    AllCommands,
}

/// The memory accesses a barrier makes visible or available.
#[derive(Clone, Copy, Debug, PartialEq, Eq, Structural)]
pub enum AccessKind {
    NoAccess,
    DepthAttachmentReadWrite,
    ColorAttachmentWrite,
}

/// One explicit image layout transition with its stage and access scopes.
#[derive(Clone, Copy, Debug, PartialEq, Eq, Structural)]
pub struct ImageBarrier {
    pub image: BarrierImage,
    pub old_layout: ImageLayout,
    pub new_layout: ImageLayout,
    pub src_stage: PipelineStage,
    pub src_access: AccessKind,
    pub dst_stage: PipelineStage,
    pub dst_access: AccessKind,
}

/// An RGBA colour carried as the bit patterns of its four components.
#[derive(Clone, Copy, Debug, PartialEq, Eq, Structural)]
pub struct ColorBits {
    pub r: u32,
    pub g: u32,
    pub b: u32,
    pub a: u32,
}

/// The push-constant block handed to both shader stages at each draw:
/// a 4x4 matrix taking face-local positions to clip space, then the
/// object's colour.  Matrix entries are carried as bit patterns.
#[derive(Clone, Copy, Debug, PartialEq, Eq)]
pub struct Registers {
    pub ndc_from_local: [u32; 16],
    pub colour: ColorBits,
}

/// One step the shell performs against the graphics API, in the order the
/// renderer hands the steps out.
#[derive(Clone, Copy, Debug, PartialEq, Eq)]
pub enum Action {
    /// Block the CPU until the frame fence is signaled.
    WaitFence,
    /// Reset the frame fence to unsignaled.
    ResetFence,
    /// Begin recording the single reusable command buffer.
    BeginCommandBuffer,
    /// Record an image layout transition.
    PipelineBarrier { barrier: ImageBarrier },
    /// Acquire the next presentable image, signaling the given semaphore;
    /// the driver answers with an image index.
    AcquireImage { signal: SemaphoreId },
    /// Bind the one graphics pipeline.
    BindPipeline,
    /// Set the dynamic scissor rectangle to the drawable extent.
    SetScissor { extent: Extent2D },
    /// Set the dynamic viewport to the drawable extent.
    SetViewport { extent: Extent2D },
    /// Begin the dynamic-rendering scope: colour attachment is the acquired
    /// image, depth attachment is the renderer's depth buffer, both cleared.
    /// `clear_depth` is the bit pattern of the depth clear value (zero: the
    /// far plane under the reversed-depth convention).
    BeginRendering {
        color_index: u32,
        extent: Extent2D,
        clear_color: ColorBits,
        clear_depth: u32,
    },
    /// Push one constant block, visible to both shader stages at offset 0.
    PushConstants { offset: u32, registers: Registers },
    /// Record one non-indexed draw.
    Draw {
        vertex_count: u32,
        instance_count: u32,
        first_vertex: u32,
        first_instance: u32,
    },
    /// End the dynamic-rendering scope.
    EndRendering,
    /// End recording the command buffer.
    EndCommandBuffer,
    /// Submit the command buffer on the graphics queue, waiting on `wait`
    /// at `wait_stage`, signaling `signal` at `signal_stage` and the frame
    /// fence on completion.
    SubmitCommandBuffer {
        wait: SemaphoreId,
        wait_stage: PipelineStage,
        signal: SemaphoreId,
        signal_stage: PipelineStage,
    },
    /// Queue a present request for the image at `index`, gated on `wait`.
    PresentImage { index: u32, wait: SemaphoreId },
}

/// The bit pattern of the red component of the fixed background colour.
pub const CLEAR_COLOR_R_BITS: u32 = 0x3DCCCCCD;

/// The bit pattern of the green component of the fixed background colour.
pub const CLEAR_COLOR_G_BITS: u32 = 0x3E4CCCCD;

/// The bit pattern of the blue component of the fixed background colour.
pub const CLEAR_COLOR_B_BITS: u32 = 0x3F800000;

/// The bit pattern of the alpha component of the fixed background colour.
pub const CLEAR_COLOR_A_BITS: u32 = 0x3F800000;

/// The bit pattern of the depth clear value: zero, the far plane under the
/// reversed-depth convention.
pub const CLEAR_DEPTH_BITS: u32 = 0;

/// The fixed background colour the colour attachment is cleared to.
pub open spec fn spec_clear_color() -> ColorBits {
    ColorBits {
        r: CLEAR_COLOR_R_BITS,
        g: CLEAR_COLOR_G_BITS,
        b: CLEAR_COLOR_B_BITS,
        a: CLEAR_COLOR_A_BITS,
    }
}

/// The number of vertices one action asks the GPU to draw.
pub open spec fn spec_action_vertices(a: Action) -> int {
    match a {
        Action::Draw { vertex_count, .. } => vertex_count as int,
        _ => 0,
    }
}

/// The number of vertices the draws of a trace ask for, in sum.
pub open spec fn spec_vertex_total(trace: Seq<Action>) -> int
    decreases trace.len(),
{
    if trace.len() == 0 {
        0
    } else {
        spec_vertex_total(trace.drop_last()) + spec_action_vertices(trace.last())
    }
}

/// An empty trace draws nothing.
pub proof fn lemma_vertex_total_empty()
    ensures
        spec_vertex_total(Seq::<Action>::empty()) == 0,
{
}

/// Appending one action adds exactly that action's vertices.
pub proof fn lemma_vertex_total_push(s: Seq<Action>, a: Action)
    ensures
        spec_vertex_total(s.push(a)) == spec_vertex_total(s) + spec_action_vertices(a),
{
    assert(s.push(a).drop_last() =~= s);
    assert(s.push(a).last() == a);
}

/// A trace never draws a negative number of vertices.
pub proof fn lemma_vertex_total_nonneg(s: Seq<Action>)
    ensures
        spec_vertex_total(s) >= 0,
    decreases s.len(),
{
    if s.len() > 0 {
        lemma_vertex_total_nonneg(s.drop_last());
    }
}

/// A prefix of a trace draws at most as many vertices as the whole trace.
pub proof fn lemma_vertex_total_prefix_bound(s: Seq<Action>, k: int)
    requires
        0 <= k <= s.len(),
    ensures
        spec_vertex_total(s.take(k)) <= spec_vertex_total(s),
{
    assert(s =~= s.take(k) + s.skip(k));
    lemma_vertex_total_add(s.take(k), s.skip(k));
    lemma_vertex_total_nonneg(s.skip(k));
}

/// Counts the vertices the draws of a trace ask for, in sum.
pub fn count_draw_vertices(trace: &Vec<Action>) -> (n: u64)
    requires
        spec_vertex_total(trace@) <= u64::MAX,
    ensures
        n == spec_vertex_total(trace@),
{
    proof {
        lemma_vertex_total_nonneg(trace@);
    }
    let mut n: u64 = 0;
    let mut i: usize = 0;
    while i < trace.len()
        invariant
            i <= trace@.len(),
            spec_vertex_total(trace@) <= u64::MAX,
            n == spec_vertex_total(trace@.take(i as int)),
        decreases trace@.len() - i,
    {
        let added: u32 = match trace[i] {
            Action::Draw { vertex_count, .. } => vertex_count,
            _ => 0,
        };
        proof {
            assert(trace@.take(i as int + 1).drop_last() =~= trace@.take(i as int));
            assert(trace@.take(i as int + 1).last() == trace@[i as int]);
            lemma_vertex_total_nonneg(trace@.take(i as int));
            lemma_vertex_total_prefix_bound(trace@, i as int + 1);
        }
        n = n + added as u64;
        i += 1;
    }
    proof {
        assert(trace@.take(trace@.len() as int) =~= trace@);
    }
    n
}

/// A trace without draw actions draws nothing.
pub proof fn lemma_vertex_total_no_draws(s: Seq<Action>)
    requires
        forall|i: int| 0 <= i < s.len() ==> !(#[trigger] s[i] is Draw),
    ensures
        spec_vertex_total(s) == 0,
    decreases s.len(),
{
    if s.len() > 0 {
        assert(s.last() == s[s.len() - 1]);
        lemma_vertex_total_no_draws(s.drop_last());
    }
}

/// Summing draw vertices distributes over trace concatenation.
pub proof fn lemma_vertex_total_add(a: Seq<Action>, b: Seq<Action>)
    ensures
        spec_vertex_total(a + b) == spec_vertex_total(a) + spec_vertex_total(b),
    decreases b.len(),
{
    if b.len() == 0 {
        assert(a + b =~= a);
    } else {
        lemma_vertex_total_add(a, b.drop_last());
        assert((a + b).drop_last() =~= a + b.drop_last());
        assert((a + b).last() == b.last());
    }
}

} // verus!
