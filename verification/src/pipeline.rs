//! The graphics-pipeline model: the fixed-function and programmable state
//! the one pipeline object is built with, the push-constant block layout,
//! and the recording of the per-object draw commands.
//!
//! The pipeline is immutable after construction and shared read-only by all
//! draws of a frame.  The scene is an explicit input to [`Pipeline::draw`]:
//! a sequence of objects, each a cube of six quad faces, each face drawn
//! with six vertices and its own push-constant block.

use vstd::prelude::*;
use crate::commands::Action;
use crate::commands::ColorBits;
use crate::commands::Registers;
use crate::commands::spec_clear_color;
use crate::commands::spec_vertex_total;
use crate::commands::lemma_vertex_total_add;
use crate::commands::lemma_vertex_total_empty;
use crate::commands::lemma_vertex_total_push;
use crate::commands::lemma_vertex_total_no_draws;
use crate::commands::CLEAR_COLOR_R_BITS;
use crate::commands::CLEAR_COLOR_G_BITS;
use crate::commands::CLEAR_COLOR_B_BITS;
use crate::commands::CLEAR_COLOR_A_BITS;
use crate::commands::CLEAR_DEPTH_BITS;
use crate::depth_buffer::DepthBuffer;
use crate::format::FORMAT_D32_SFLOAT;
use crate::swapchain::Drawable;
use crate::Extent2D;

verus! {

/// The size in bytes of the push-constant block: a 4x4 matrix of 32-bit
/// entries followed by a four-component colour, 80 bytes in all.
pub const PUSH_CONSTANT_SIZE: u32 = 80;

/// A cube is drawn as six quad faces.
pub const CUBE_FACE_COUNT: u32 = 6;

/// Each quad face is drawn as two triangles: six vertices.
pub const FACE_VERTEX_COUNT: u32 = 6;

/// The depth comparison a fragment must pass.
#[derive(Clone, Copy, Debug, PartialEq, Eq, Structural)]
pub enum CompareOp {
    Never,
    Less,
    Equal,
    LessOrEqual,
    Greater,
    NotEqual,
    GreaterOrEqual,
    Always,
}

/// Which triangle faces are culled.
#[derive(Clone, Copy, Debug, PartialEq, Eq, Structural)]
pub enum CullMode {
    NoCull,
    Front,
    Back,
}

/// The winding that counts as front-facing.
#[derive(Clone, Copy, Debug, PartialEq, Eq, Structural)]
pub enum FrontFace {
    CounterClockwise,
    Clockwise,
}

/// How the vertex stream is assembled into primitives.
#[derive(Clone, Copy, Debug, PartialEq, Eq, Structural)]
pub enum PrimitiveTopology {
    PointList,
    LineList,
    TriangleList,
}

/// The state the one graphics pipeline object is built with.  The shell
/// compiles the two shader binaries and creates the real pipeline object
/// from exactly these values; dynamic-rendering attachment formats replace
/// a separate render-pass object.
#[derive(Clone, Copy, Debug, PartialEq, Eq, Structural)]
pub struct Pipeline {
    pub color_format: u32,
    pub depth_format: u32,
    pub push_constant_size: u32,
    pub topology: PrimitiveTopology,
    pub cull_mode: CullMode,
    pub front_face: FrontFace,
    pub depth_test: bool,
    pub depth_write: bool,
    pub depth_compare: CompareOp,
    pub blend_enable: bool,
    pub dynamic_viewport_scissor: bool,
    pub sample_count: u32,
}

/// One scene object: a cube, given as the six clip-from-face-local matrices
/// the shell computed for this frame (camera transform times object
/// transform times face-local transform, entries as bit patterns), and one
/// colour shared by its faces.
#[derive(Clone, Copy, Debug, PartialEq, Eq)]
pub struct DrawObject {
    pub ndc_from_faces: [[u32; 16]; 6],
    pub colour: ColorBits,
}

/// The little-endian bytes of one 32-bit word.
pub open spec fn spec_u32_le_bytes(x: u32) -> Seq<u8> {
    seq![
        (x & 0xff) as u8,
        ((x >> 8) & 0xff) as u8,
        ((x >> 16) & 0xff) as u8,
        ((x >> 24) & 0xff) as u8,
    ]
}

/// The little-endian bytes of a sequence of 32-bit words, in order.
pub open spec fn spec_words_le_bytes(words: Seq<u32>) -> Seq<u8>
    decreases words.len(),
{
    if words.len() == 0 {
        Seq::empty()
    } else {
        spec_words_le_bytes(words.drop_last()) + spec_u32_le_bytes(words.last())
    }
}

/// Serializing words gives four bytes per word.
pub proof fn lemma_words_le_bytes_len(words: Seq<u32>)
    ensures
        spec_words_le_bytes(words).len() == 4 * words.len(),
    decreases words.len(),
{
    if words.len() != 0 {
        lemma_words_le_bytes_len(words.drop_last());
    }
}

/// The 20 words of a push-constant block: the 16 matrix entries, then the
/// four colour components.
pub open spec fn spec_registers_words(r: Registers) -> Seq<u32> {
    r.ndc_from_local@ + seq![r.colour.r, r.colour.g, r.colour.b, r.colour.a]
}

/// The wire form of a push-constant block: its words, little endian.
pub open spec fn spec_registers_bytes(r: Registers) -> Seq<u8> {
    spec_words_le_bytes(spec_registers_words(r))
}

/// Every push-constant block serializes to exactly
/// [`PUSH_CONSTANT_SIZE`] bytes, whatever its contents.
pub proof fn lemma_push_constant_block_size(r: Registers)
    ensures
        spec_registers_bytes(r).len() == PUSH_CONSTANT_SIZE,
{
    lemma_words_le_bytes_len(spec_registers_words(r));
}

/// Serializes a push-constant block for the shell to hand to the push call:
/// the matrix entries then the colour components, each word little endian,
/// exactly [`PUSH_CONSTANT_SIZE`] bytes.
pub fn registers_bytes(r: &Registers) -> (bytes: Vec<u8>)
    ensures
        bytes@ == spec_registers_bytes(*r),
        bytes@.len() == PUSH_CONSTANT_SIZE,
{
    let mut words: Vec<u32> = Vec::new();
    let mut i: usize = 0;
    while i < 16
        invariant
            i <= 16,
            words@ == r.ndc_from_local@.take(i as int),
        decreases 16 - i,
    {
        words.push(r.ndc_from_local[i]);
        proof {
            assert(words@ =~= r.ndc_from_local@.take(i as int + 1));
        }
        i += 1;
    }
    words.push(r.colour.r);
    words.push(r.colour.g);
    words.push(r.colour.b);
    words.push(r.colour.a);
    proof {
        assert(r.ndc_from_local@.take(16) =~= r.ndc_from_local@);
        assert(words@ =~= spec_registers_words(*r));
    }
    let ghost all_words = words@;
    let mut bytes: Vec<u8> = Vec::new();
    let mut j: usize = 0;
    while j < words.len()
        invariant
            j <= all_words.len(),
            words@ == all_words,
            bytes@ == spec_words_le_bytes(all_words.take(j as int)),
        decreases all_words.len() - j,
    {
        let w = words[j];
        assert((w & 0xff) < 256 && ((w >> 8) & 0xff) < 256 && ((w >> 16) & 0xff) < 256 && ((w
            >> 24) & 0xff) < 256) by (bit_vector);
        bytes.push((w & 0xff) as u8);
        bytes.push(((w >> 8) & 0xff) as u8);
        bytes.push(((w >> 16) & 0xff) as u8);
        bytes.push(((w >> 24) & 0xff) as u8);
        proof {
            assert(all_words.take(j as int + 1).drop_last() =~= all_words.take(j as int));
            assert(all_words.take(j as int + 1).last() == all_words[j as int]);
            assert(bytes@ =~= spec_words_le_bytes(all_words.take(j as int + 1)));
        }
        j += 1;
    }
    proof {
        assert(all_words.take(all_words.len() as int) =~= all_words);
        lemma_push_constant_block_size(*r);
    }
    bytes
}

/// The push-constant action for face `i` of an object.
pub open spec fn spec_push_action(obj: DrawObject, i: int) -> Action {
    Action::PushConstants {
        offset: 0,
        registers: Registers { ndc_from_local: obj.ndc_from_faces@[i], colour: obj.colour },
    }
}

/// The one draw action every face is recorded with: six vertices, one
/// instance, non-indexed.
pub open spec fn spec_face_draw_action() -> Action {
    Action::Draw {
        vertex_count: FACE_VERTEX_COUNT,
        instance_count: 1,
        first_vertex: 0,
        first_instance: 0,
    }
}

/// The commands for the first `k` faces of an object: one push and one draw
/// per face, in face order.
pub open spec fn spec_cube_prefix(obj: DrawObject, k: int) -> Seq<Action>
    decreases k,
{
    if k <= 0 {
        Seq::empty()
    } else {
        spec_cube_prefix(obj, k - 1) + seq![spec_push_action(obj, k - 1), spec_face_draw_action()]
    }
}

/// The commands one cube expands into: six face draws, each preceded by its
/// own push-constant block.
pub open spec fn spec_cube_trace(obj: DrawObject) -> Seq<Action> {
    spec_cube_prefix(obj, CUBE_FACE_COUNT as int)
}

/// The commands for the first `k` objects of the scene, in scene order.
pub open spec fn spec_scene_prefix(scene: Seq<DrawObject>, k: int) -> Seq<Action>
    decreases k,
{
    if k <= 0 {
        Seq::empty()
    } else {
        spec_scene_prefix(scene, k - 1) + spec_cube_trace(scene[k - 1])
    }
}

/// The commands for the whole scene.
pub open spec fn spec_scene_trace(scene: Seq<DrawObject>) -> Seq<Action> {
    spec_scene_prefix(scene, scene.len() as int)
}

/// The state-binding commands a frame's draws open with: bind the pipeline,
/// set the dynamic scissor and viewport from the drawable extent, and begin
/// the rendering scope with both attachments cleared.
pub open spec fn spec_draw_setup(color_index: u32, extent: Extent2D) -> Seq<Action> {
    seq![
        Action::BindPipeline,
        Action::SetScissor { extent },
        Action::SetViewport { extent },
        Action::BeginRendering {
            color_index,
            extent,
            clear_color: spec_clear_color(),
            clear_depth: CLEAR_DEPTH_BITS,
        },
    ]
}

/// Everything [`Pipeline::draw`] records for one frame.
pub open spec fn spec_draw_trace(color_index: u32, extent: Extent2D, scene: Seq<DrawObject>) -> Seq<
    Action,
> {
    spec_draw_setup(color_index, extent) + spec_scene_trace(scene) + seq![Action::EndRendering]
}

/// The one pipeline state this renderer ever builds for a colour format:
/// a push-constant block of exactly [`PUSH_CONSTANT_SIZE`] bytes visible to
/// both stages, triangle-list topology, dynamic viewport and scissor,
/// back-face culling with counter-clockwise front face, depth test and
/// write with greater-or-equal comparison (the reversed-depth,
/// infinite-far-plane convention), no blending, single-sample
/// rasterization, and the given colour format next to the fixed depth
/// format.
pub open spec fn spec_pipeline(color_format: u32) -> Pipeline {
    Pipeline {
        color_format,
        depth_format: FORMAT_D32_SFLOAT,
        push_constant_size: PUSH_CONSTANT_SIZE,
        topology: PrimitiveTopology::TriangleList,
        cull_mode: CullMode::Back,
        front_face: FrontFace::CounterClockwise,
        depth_test: true,
        depth_write: true,
        depth_compare: CompareOp::GreaterOrEqual,
        blend_enable: false,
        dynamic_viewport_scissor: true,
        sample_count: 1,
    }
}

impl Pipeline {
    /// Fixes the whole state the one pipeline object is built with: exactly
    /// [`spec_pipeline`] for the given colour format.
    pub fn new(color_format: u32) -> (p: Pipeline)
        ensures
            p == spec_pipeline(color_format),
    {
        Pipeline {
            color_format,
            depth_format: FORMAT_D32_SFLOAT,
            push_constant_size: PUSH_CONSTANT_SIZE,
            topology: PrimitiveTopology::TriangleList,
            cull_mode: CullMode::Back,
            front_face: FrontFace::CounterClockwise,
            depth_test: true,
            depth_write: true,
            depth_compare: CompareOp::GreaterOrEqual,
            blend_enable: false,
            dynamic_viewport_scissor: true,
            sample_count: 1,
        }
    }

    /// The commands one cube expands into: for each of its six faces, one
    /// push of the face's constant block and one six-vertex draw.
    pub fn draw_cube(&self, obj: &DrawObject) -> (trace: Vec<Action>)
        ensures
            trace@ == spec_cube_trace(*obj),
    {
        let mut trace: Vec<Action> = Vec::new();
        let mut k: usize = 0;
        while k < 6
            invariant
                k <= 6,
                trace@ == spec_cube_prefix(*obj, k as int),
            decreases 6 - k,
        {
            trace.push(
                Action::PushConstants {
                    offset: 0,
                    registers: Registers {
                        ndc_from_local: obj.ndc_from_faces[k],
                        colour: obj.colour,
                    },
                },
            );
            trace.push(
                Action::Draw {
                    vertex_count: FACE_VERTEX_COUNT,
                    instance_count: 1,
                    first_vertex: 0,
                    first_instance: 0,
                },
            );
            proof {
                assert(trace@ =~= spec_cube_prefix(*obj, k as int + 1));
            }
            k += 1;
        }
        trace
    }

    /// Records the draw commands of one frame: binds the pipeline, sets the
    /// dynamic state from the drawable's extent, begins the rendering scope
    /// with the depth attachment cleared to the reversed-depth far plane and
    /// the colour attachment cleared to the background colour, then records
    /// each scene object's cube, then ends the scope.
    ///
    /// The depth attachment must match the drawable's extent.
    pub fn draw(&self, drawable: &Drawable, depth_buffer: &DepthBuffer, scene: &Vec<DrawObject>) -> (trace: Vec<
        Action,
    >)
        requires
            depth_buffer.extent == drawable.extent,
        ensures
            trace@ == spec_draw_trace(drawable.index, drawable.extent, scene@),
    {
        let mut trace: Vec<Action> = Vec::new();
        trace.push(Action::BindPipeline);
        trace.push(Action::SetScissor { extent: drawable.extent });
        trace.push(Action::SetViewport { extent: drawable.extent });
        trace.push(
            Action::BeginRendering {
                color_index: drawable.index,
                extent: drawable.extent,
                clear_color: ColorBits {
                    r: CLEAR_COLOR_R_BITS,
                    g: CLEAR_COLOR_G_BITS,
                    b: CLEAR_COLOR_B_BITS,
                    a: CLEAR_COLOR_A_BITS,
                },
                clear_depth: CLEAR_DEPTH_BITS,
            },
        );
        proof {
            assert(trace@ =~= spec_draw_setup(drawable.index, drawable.extent));
        }
        let ghost setup = trace@;
        let mut i: usize = 0;
        while i < scene.len()
            invariant
                i <= scene@.len(),
                setup == spec_draw_setup(drawable.index, drawable.extent),
                trace@ == setup + spec_scene_prefix(scene@, i as int),
            decreases scene@.len() - i,
        {
            let mut cube = self.draw_cube(&scene[i]);
            trace.append(&mut cube);
            proof {
                assert(trace@ =~= setup + spec_scene_prefix(scene@, i as int + 1));
            }
            i += 1;
        }
        trace.push(Action::EndRendering);
        proof {
            assert(trace@ =~= spec_draw_trace(drawable.index, drawable.extent, scene@));
        }
        trace
    }
}

/// Each face contributes six vertices, so the first `k` faces of a cube ask
/// for `6 * k` vertices.
proof fn lemma_cube_prefix_vertices(obj: DrawObject, k: int)
    requires
        0 <= k,
    ensures
        spec_vertex_total(spec_cube_prefix(obj, k)) == 6 * k,
    decreases k,
{
    if k > 0 {
        lemma_cube_prefix_vertices(obj, k - 1);
        let face = seq![spec_push_action(obj, k - 1), spec_face_draw_action()];
        lemma_vertex_total_add(spec_cube_prefix(obj, k - 1), face);
        assert(spec_vertex_total(face) == 6) by {
            lemma_vertex_total_empty();
            lemma_vertex_total_push(Seq::<Action>::empty(), spec_push_action(obj, k - 1));
            lemma_vertex_total_push(
                Seq::<Action>::empty().push(spec_push_action(obj, k - 1)),
                spec_face_draw_action(),
            );
            assert(face =~= Seq::<Action>::empty().push(spec_push_action(obj, k - 1)).push(
                spec_face_draw_action(),
            ));
        }
    }
}

/// One cube expands into exactly six face draws of six vertices:
/// 36 vertices' worth of draw calls.
pub proof fn lemma_cube_trace_vertices(obj: DrawObject)
    ensures
        spec_vertex_total(spec_cube_trace(obj)) == 36,
{
    lemma_cube_prefix_vertices(obj, CUBE_FACE_COUNT as int);
}

proof fn lemma_scene_prefix_vertices(scene: Seq<DrawObject>, k: int)
    requires
        0 <= k <= scene.len(),
    ensures
        spec_vertex_total(spec_scene_prefix(scene, k)) == 36 * k,
    decreases k,
{
    if k > 0 {
        lemma_scene_prefix_vertices(scene, k - 1);
        lemma_vertex_total_add(spec_scene_prefix(scene, k - 1), spec_cube_trace(scene[k - 1]));
        lemma_cube_trace_vertices(scene[k - 1]);
    }
}

/// The draws of a frame ask for exactly 36 vertices per scene object,
/// whatever the objects' transforms and colours: the fixed commands around
/// them draw nothing.
pub proof fn lemma_draw_trace_vertices(color_index: u32, extent: Extent2D, scene: Seq<DrawObject>)
    ensures
        spec_vertex_total(spec_draw_trace(color_index, extent, scene)) == 36 * scene.len(),
{
    let setup = spec_draw_setup(color_index, extent);
    let end = seq![Action::EndRendering];
    lemma_vertex_total_add(setup + spec_scene_trace(scene), end);
    lemma_vertex_total_add(setup, spec_scene_trace(scene));
    lemma_scene_prefix_vertices(scene, scene.len() as int);
    assert(spec_vertex_total(end) == 0) by {
        lemma_vertex_total_no_draws(end);
    }
    assert(spec_vertex_total(setup) == 0) by {
        lemma_vertex_total_no_draws(setup);
    }
}

/// The shape of a cube's commands: two actions per face — face `j`'s
/// push-constant block at position `2j`, immediately followed by its one
/// six-vertex draw.  Push constants are never accumulated across faces or
/// objects: each draw gets exactly one fresh block at offset 0.
pub proof fn lemma_one_push_per_draw(obj: DrawObject)
    ensures
        spec_cube_trace(obj).len() == 2 * CUBE_FACE_COUNT,
        forall|j: int|
            0 <= j < CUBE_FACE_COUNT ==> #[trigger] spec_cube_trace(obj)[2 * j]
                == spec_push_action(obj, j),
        forall|j: int|
            0 <= j < CUBE_FACE_COUNT ==> #[trigger] spec_cube_trace(obj)[2 * j + 1]
                == spec_face_draw_action(),
{
    lemma_cube_prefix_shape(obj, CUBE_FACE_COUNT as int);
}

/// However many objects the scene holds, no recorded push ever exceeds the
/// one push-constant block: every push action of a frame's draw trace
/// stands at offset 0 and serializes to exactly [`PUSH_CONSTANT_SIZE`]
/// bytes.
pub proof fn lemma_push_blocks_bounded(color_index: u32, extent: Extent2D, scene: Seq<DrawObject>)
    ensures
        forall|i: int|
            0 <= i < spec_draw_trace(color_index, extent, scene).len() && (#[trigger]
            spec_draw_trace(color_index, extent, scene)[i] is PushConstants) ==> {
                &&& spec_draw_trace(color_index, extent, scene)[i]->offset == 0
                &&& spec_registers_bytes(
                    spec_draw_trace(color_index, extent, scene)[i]->registers,
                ).len() == PUSH_CONSTANT_SIZE
            },
{
    let t = spec_draw_trace(color_index, extent, scene);
    lemma_draw_trace_push_offsets(color_index, extent, scene);
    assert forall|i: int|
        0 <= i < t.len() && (#[trigger] t[i] is PushConstants) implies {
        &&& t[i]->offset == 0
        &&& spec_registers_bytes(t[i]->registers).len() == PUSH_CONSTANT_SIZE
    } by {
        lemma_push_constant_block_size(t[i]->registers);
    }
}

proof fn lemma_cube_prefix_push_offsets(obj: DrawObject, k: int)
    requires
        0 <= k,
    ensures
        forall|i: int|
            0 <= i < spec_cube_prefix(obj, k).len() && (#[trigger] spec_cube_prefix(obj, k)[i]
                is PushConstants) ==> spec_cube_prefix(obj, k)[i]->offset == 0,
    decreases k,
{
    if k > 0 {
        lemma_cube_prefix_push_offsets(obj, k - 1);
        let prev = spec_cube_prefix(obj, k - 1);
        let face = seq![spec_push_action(obj, k - 1), spec_face_draw_action()];
        assert forall|i: int|
            0 <= i < spec_cube_prefix(obj, k).len() && (#[trigger] spec_cube_prefix(obj, k)[i]
                is PushConstants) implies spec_cube_prefix(obj, k)[i]->offset == 0 by {
            if i < prev.len() {
                assert(spec_cube_prefix(obj, k)[i] == prev[i]);
            } else {
                assert(spec_cube_prefix(obj, k)[i] == face[i - prev.len()]);
            }
        }
    }
}

proof fn lemma_scene_prefix_push_offsets(scene: Seq<DrawObject>, k: int)
    requires
        0 <= k,
    ensures
        forall|i: int|
            0 <= i < spec_scene_prefix(scene, k).len() && (#[trigger] spec_scene_prefix(scene, k)[i]
                is PushConstants) ==> spec_scene_prefix(scene, k)[i]->offset == 0,
    decreases k,
{
    if k > 0 {
        lemma_scene_prefix_push_offsets(scene, k - 1);
        lemma_cube_prefix_push_offsets(scene[k - 1], CUBE_FACE_COUNT as int);
        let prev = spec_scene_prefix(scene, k - 1);
        let cube = spec_cube_trace(scene[k - 1]);
        assert forall|i: int|
            0 <= i < spec_scene_prefix(scene, k).len() && (#[trigger] spec_scene_prefix(scene, k)[i]
                is PushConstants) implies spec_scene_prefix(scene, k)[i]->offset == 0 by {
            if i < prev.len() {
                assert(spec_scene_prefix(scene, k)[i] == prev[i]);
            } else {
                assert(spec_scene_prefix(scene, k)[i] == cube[i - prev.len()]);
            }
        }
    }
}

proof fn lemma_draw_trace_push_offsets(color_index: u32, extent: Extent2D, scene: Seq<DrawObject>)
    ensures
        forall|i: int|
            0 <= i < spec_draw_trace(color_index, extent, scene).len() && (#[trigger]
            spec_draw_trace(color_index, extent, scene)[i] is PushConstants)
                ==> spec_draw_trace(color_index, extent, scene)[i]->offset == 0,
{
    let setup = spec_draw_setup(color_index, extent);
    let mid = spec_scene_trace(scene);
    let end = seq![Action::EndRendering];
    lemma_scene_prefix_push_offsets(scene, scene.len() as int);
    assert forall|i: int|
        0 <= i < spec_draw_trace(color_index, extent, scene).len() && (#[trigger] spec_draw_trace(
            color_index,
            extent,
            scene,
        )[i] is PushConstants) implies spec_draw_trace(color_index, extent, scene)[i]->offset
        == 0 by {
        if i < setup.len() {
            assert(spec_draw_trace(color_index, extent, scene)[i] == setup[i]);
        } else if i < setup.len() + mid.len() {
            assert(spec_draw_trace(color_index, extent, scene)[i] == mid[i - setup.len()]);
        } else {
            assert(spec_draw_trace(color_index, extent, scene)[i] == end[i - setup.len()
                - mid.len()]);
        }
    }
}

/// Whether an action belongs to the drawing scope of a frame: everything
/// [`Pipeline::draw`] records, and nothing that touches the fence, the
/// command-buffer lifecycle, the queue, or the acquisition.
pub open spec fn spec_is_recording_action(a: Action) -> bool {
    ||| a is BindPipeline
    ||| a is SetScissor
    ||| a is SetViewport
    ||| a is BeginRendering
    ||| a is PushConstants
    ||| a is Draw
    ||| a is EndRendering
}

proof fn lemma_cube_prefix_recording_only(obj: DrawObject, k: int)
    requires
        0 <= k,
    ensures
        forall|i: int|
            0 <= i < spec_cube_prefix(obj, k).len() ==> spec_is_recording_action(
                #[trigger] spec_cube_prefix(obj, k)[i],
            ),
    decreases k,
{
    if k > 0 {
        lemma_cube_prefix_recording_only(obj, k - 1);
        let prev = spec_cube_prefix(obj, k - 1);
        let face = seq![spec_push_action(obj, k - 1), spec_face_draw_action()];
        assert forall|i: int| 0 <= i < spec_cube_prefix(obj, k).len() implies
            spec_is_recording_action(#[trigger] spec_cube_prefix(obj, k)[i]) by {
            if i < prev.len() {
                assert(spec_cube_prefix(obj, k)[i] == prev[i]);
            } else {
                assert(spec_cube_prefix(obj, k)[i] == face[i - prev.len()]);
            }
        }
    }
}

proof fn lemma_scene_prefix_recording_only(scene: Seq<DrawObject>, k: int)
    requires
        0 <= k,
    ensures
        forall|i: int|
            0 <= i < spec_scene_prefix(scene, k).len() ==> spec_is_recording_action(
                #[trigger] spec_scene_prefix(scene, k)[i],
            ),
    decreases k,
{
    if k > 0 {
        lemma_scene_prefix_recording_only(scene, k - 1);
        lemma_cube_prefix_recording_only(scene[k - 1], CUBE_FACE_COUNT as int);
        let prev = spec_scene_prefix(scene, k - 1);
        let cube = spec_cube_trace(scene[k - 1]);
        assert forall|i: int| 0 <= i < spec_scene_prefix(scene, k).len() implies
            spec_is_recording_action(#[trigger] spec_scene_prefix(scene, k)[i]) by {
            if i < prev.len() {
                assert(spec_scene_prefix(scene, k)[i] == prev[i]);
            } else {
                assert(spec_scene_prefix(scene, k)[i] == cube[i - prev.len()]);
            }
        }
    }
}

/// Everything the pipeline records stays inside the drawing scope: a
/// frame's draw trace holds no fence, command-buffer, submission,
/// acquisition or presentation action, whatever the scene.
pub proof fn lemma_draw_trace_records_only(color_index: u32, extent: Extent2D, scene: Seq<
    DrawObject,
>)
    ensures
        spec_draw_trace(color_index, extent, scene).len() >= 5,
        forall|i: int|
            0 <= i < spec_draw_trace(color_index, extent, scene).len()
                ==> spec_is_recording_action(
                #[trigger] spec_draw_trace(color_index, extent, scene)[i],
            ),
{
    let setup = spec_draw_setup(color_index, extent);
    let mid = spec_scene_trace(scene);
    let end = seq![Action::EndRendering];
    lemma_scene_prefix_recording_only(scene, scene.len() as int);
    assert forall|i: int| 0 <= i < spec_draw_trace(color_index, extent, scene).len() implies
        spec_is_recording_action(#[trigger] spec_draw_trace(color_index, extent, scene)[i]) by {
        if i < setup.len() {
            assert(spec_draw_trace(color_index, extent, scene)[i] == setup[i]);
        } else if i < setup.len() + mid.len() {
            assert(spec_draw_trace(color_index, extent, scene)[i] == mid[i - setup.len()]);
        } else {
            assert(spec_draw_trace(color_index, extent, scene)[i] == end[i - setup.len()
                - mid.len()]);
        }
    }
}

proof fn lemma_cube_prefix_shape(obj: DrawObject, k: int)
    requires
        0 <= k,
    ensures
        spec_cube_prefix(obj, k).len() == 2 * k,
        forall|j: int|
            0 <= j < k ==> #[trigger] spec_cube_prefix(obj, k)[2 * j] == spec_push_action(obj, j),
        forall|j: int|
            0 <= j < k ==> #[trigger] spec_cube_prefix(obj, k)[2 * j + 1]
                == spec_face_draw_action(),
    decreases k,
{
    if k > 0 {
        lemma_cube_prefix_shape(obj, k - 1);
    }
}

} // verus!
