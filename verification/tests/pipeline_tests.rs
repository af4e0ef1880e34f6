use renderer_core::commands::count_draw_vertices;
use renderer_core::commands::Action;
use renderer_core::commands::ColorBits;
use renderer_core::commands::Registers;
use renderer_core::format::FORMAT_B8G8R8A8_SRGB;
use renderer_core::format::FORMAT_D32_SFLOAT;
use renderer_core::pipeline::registers_bytes;
use renderer_core::pipeline::CompareOp;
use renderer_core::pipeline::CullMode;
use renderer_core::pipeline::DrawObject;
use renderer_core::pipeline::FrontFace;
use renderer_core::pipeline::Pipeline;
use renderer_core::pipeline::PrimitiveTopology;
use renderer_core::pipeline::PUSH_CONSTANT_SIZE;
use renderer_core::swapchain::Drawable;
use renderer_core::depth_buffer::DepthBuffer;
use renderer_core::Extent2D;

const EXTENT: Extent2D = Extent2D { width: 800, height: 600 };

fn colour(r: f32, g: f32, b: f32, a: f32) -> ColorBits {
    ColorBits { r: r.to_bits(), g: g.to_bits(), b: b.to_bits(), a: a.to_bits() }
}

/// A row-major matrix of a uniform scale followed by a translation, as bit
/// patterns.
fn scale_translate(scale: f32, t: [f32; 3]) -> [u32; 16] {
    let m: [f32; 16] = [
        scale, 0.0, 0.0, t[0],
        0.0, scale, 0.0, t[1],
        0.0, 0.0, scale, t[2],
        0.0, 0.0, 0.0, 1.0,
    ];
    let mut bits = [0u32; 16];
    let mut i = 0;
    while i < 16 {
        bits[i] = m[i].to_bits();
        i += 1;
    }
    bits
}

fn cube(scale: f32, t: [f32; 3]) -> DrawObject {
    DrawObject {
        ndc_from_faces: [scale_translate(scale, t); 6],
        colour: colour(0.1, 1.0, 0.1, 1.0),
    }
}

fn drawable() -> Drawable {
    Drawable { index: 1, extent: EXTENT, ready: 11 }
}

fn depth() -> DepthBuffer {
    DepthBuffer { extent: EXTENT, format: FORMAT_D32_SFLOAT }
}

#[test]
fn pipeline_state_is_fixed() {
    let p = Pipeline::new(FORMAT_B8G8R8A8_SRGB);
    assert_eq!(p.color_format, FORMAT_B8G8R8A8_SRGB);
    assert_eq!(p.depth_format, FORMAT_D32_SFLOAT);
    assert_eq!(p.push_constant_size, PUSH_CONSTANT_SIZE);
    assert_eq!(p.push_constant_size, 80);
    assert_eq!(p.topology, PrimitiveTopology::TriangleList);
    assert_eq!(p.cull_mode, CullMode::Back);
    assert_eq!(p.front_face, FrontFace::CounterClockwise);
    assert!(p.depth_test);
    assert!(p.depth_write);
    assert_eq!(p.depth_compare, CompareOp::GreaterOrEqual);
    assert!(!p.blend_enable);
    assert!(p.dynamic_viewport_scissor);
    assert_eq!(p.sample_count, 1);
}

#[test]
fn registers_serialize_to_exactly_80_bytes() {
    let r = Registers {
        ndc_from_local: scale_translate(10.0, [0.0, 0.0, 0.0]),
        colour: colour(0.1, 1.0, 0.1, 1.0),
    };
    let bytes = registers_bytes(&r);
    assert_eq!(bytes.len(), 80);
}

#[test]
fn registers_bytes_are_little_endian_words() {
    let mut mat = [0u32; 16];
    mat[0] = 0x11223344;
    mat[15] = 0xAABBCCDD;
    let r = Registers {
        ndc_from_local: mat,
        colour: ColorBits { r: 0x01020304, g: 0, b: 0, a: 0xF0E0D0C0 },
    };
    let bytes = registers_bytes(&r);
    assert_eq!(&bytes[0..4], &[0x44, 0x33, 0x22, 0x11]);
    assert_eq!(&bytes[60..64], &[0xDD, 0xCC, 0xBB, 0xAA]);
    assert_eq!(&bytes[64..68], &[0x04, 0x03, 0x02, 0x01]);
    assert_eq!(&bytes[76..80], &[0xC0, 0xD0, 0xE0, 0xF0]);
}

#[test]
fn two_cubes_expand_to_72_vertices() {
    let p = Pipeline::new(FORMAT_B8G8R8A8_SRGB);
    let scene = vec![cube(10.0, [0.0, 0.0, 0.0]), cube(3.0, [15.0, 0.0, 0.0])];
    let trace = p.draw(&drawable(), &depth(), &scene);
    assert_eq!(count_draw_vertices(&trace), 72);

    let mut draws = 0;
    let mut pushes = 0;
    for a in trace.iter() {
        match a {
            Action::Draw { vertex_count, instance_count, .. } => {
                assert_eq!(*vertex_count, 6);
                assert_eq!(*instance_count, 1);
                draws += 1;
            }
            Action::PushConstants { offset, .. } => {
                assert_eq!(*offset, 0);
                pushes += 1;
            }
            _ => {}
        }
    }
    assert_eq!(draws, 12);
    assert_eq!(pushes, 12);
}

#[test]
fn one_cube_is_six_face_draws_of_six_vertices() {
    let p = Pipeline::new(FORMAT_B8G8R8A8_SRGB);
    let trace = p.draw_cube(&cube(10.0, [0.0, 0.0, 0.0]));
    assert_eq!(trace.len(), 12);
    for (i, a) in trace.iter().enumerate() {
        if i % 2 == 0 {
            assert!(matches!(a, Action::PushConstants { offset: 0, .. }));
        } else {
            assert!(matches!(
                a,
                Action::Draw { vertex_count: 6, instance_count: 1, first_vertex: 0, first_instance: 0 }
            ));
        }
    }
}

#[test]
fn every_push_precedes_its_draw() {
    let p = Pipeline::new(FORMAT_B8G8R8A8_SRGB);
    let scene = vec![cube(10.0, [0.0, 0.0, 0.0]), cube(3.0, [15.0, 0.0, 0.0])];
    let trace = p.draw(&drawable(), &depth(), &scene);
    for (i, a) in trace.iter().enumerate() {
        if matches!(a, Action::Draw { .. }) {
            assert!(matches!(trace[i - 1], Action::PushConstants { .. }));
        }
    }
}

#[test]
fn empty_scene_draws_nothing() {
    let p = Pipeline::new(FORMAT_B8G8R8A8_SRGB);
    let scene: Vec<DrawObject> = vec![];
    let trace = p.draw(&drawable(), &depth(), &scene);
    assert_eq!(count_draw_vertices(&trace), 0);
    assert_eq!(trace.len(), 5);
    assert!(matches!(trace[0], Action::BindPipeline));
    assert!(matches!(trace[4], Action::EndRendering));
}

#[test]
fn draw_sets_dynamic_state_from_drawable_extent() {
    let p = Pipeline::new(FORMAT_B8G8R8A8_SRGB);
    let scene: Vec<DrawObject> = vec![];
    let trace = p.draw(&drawable(), &depth(), &scene);
    assert_eq!(trace[1], Action::SetScissor { extent: EXTENT });
    assert_eq!(trace[2], Action::SetViewport { extent: EXTENT });
    match trace[3] {
        Action::BeginRendering { color_index, extent, clear_depth, .. } => {
            assert_eq!(color_index, 1);
            assert_eq!(extent, EXTENT);
            assert_eq!(clear_depth, 0.0f32.to_bits());
        }
        _ => panic!("expected the rendering scope to begin after the dynamic state"),
    }
}
