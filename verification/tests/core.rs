use quad_render::application::Application;
use quad_render::bits::{F32_HUNDRED_BITS, F32_ONE_BITS, F32_TEN_BITS, F32_ZERO_BITS};
use quad_render::context::{Context, PresentMode, TextureFormat, TextureUsage};
use quad_render::events::{
    handle_window_event, ElementState, KeyCode, LoopDirective, WindowEvent,
};
use quad_render::geometry::{
    encode_indices, encode_vertices, interface_vertex_layout, InputStepMode, InterfaceVertex,
    Vertex, VertexFormat,
};
use quad_render::pass::{InterfacePass, LoadOp, StoreOp};

fn test_context() -> Context {
    Context::new(640, 480)
}

fn le_bytes(words: &[u32]) -> Vec<u8> {
    let mut out = Vec::new();
    for w in words {
        out.extend_from_slice(&w.to_le_bytes());
    }
    out
}

#[test]
fn float_bit_constants_match_ieee754() {
    assert_eq!(F32_ZERO_BITS, 0.0f32.to_bits());
    assert_eq!(F32_ONE_BITS, 1.0f32.to_bits());
    assert_eq!(F32_TEN_BITS, 10.0f32.to_bits());
    assert_eq!(F32_HUNDRED_BITS, 100.0f32.to_bits());
}

#[test]
fn new_context_descriptor_matches_size() {
    let ctx = test_context();
    assert_eq!(ctx.sc_desc.width, 640);
    assert_eq!(ctx.sc_desc.height, 480);
    assert_eq!(ctx.sc_desc.usage, TextureUsage::OutputAttachment);
    assert_eq!(ctx.sc_desc.format, TextureFormat::Bgra8UnormSrgb);
    assert_eq!(ctx.sc_desc.present_mode, PresentMode::Fifo);
    assert_eq!(ctx.swap_chain.width, 640);
    assert_eq!(ctx.swap_chain.height, 480);
}

#[test]
fn resize_sets_descriptor_dimensions() {
    let mut ctx = test_context();
    ctx.resize(1024, 768);
    assert_eq!(ctx.sc_desc.width, 1024);
    assert_eq!(ctx.sc_desc.height, 768);
    assert_eq!(ctx.swap_chain.width, 1024);
    assert_eq!(ctx.swap_chain.height, 768);
    assert_eq!(ctx.width, 1024);
    assert_eq!(ctx.height, 768);
    // Only the dimensions move; the rest of the descriptor stays.
    assert_eq!(ctx.sc_desc.usage, TextureUsage::OutputAttachment);
    assert_eq!(ctx.sc_desc.format, TextureFormat::Bgra8UnormSrgb);
    assert_eq!(ctx.sc_desc.present_mode, PresentMode::Fifo);
}

#[test]
fn construct_and_resize_scenario() {
    let mut ctx = test_context();
    let app = Application::new(&ctx);
    ctx.resize(800, 600);
    assert_eq!(ctx.sc_desc.width, 800);
    assert_eq!(ctx.sc_desc.height, 600);
    // The seeded application is untouched by the resize.
    assert_eq!(app.interface_pass().vertices.len(), 4);
}

#[test]
fn seeded_quad_has_four_vertices_six_indices() {
    let ctx = test_context();
    let app = Application::new(&ctx);
    let pass = app.interface_pass();
    assert_eq!(pass.vertices.len(), 4);
    assert_eq!(pass.indices, vec![0, 1, 3, 1, 2, 3]);
    for &i in pass.indices.iter() {
        assert!(i < 4);
    }
}

#[test]
fn seeded_quad_corners_are_unit_square() {
    let ctx = test_context();
    let app = Application::new(&ctx);
    let vs = &app.interface_pass().vertices;
    let corner = |v: &InterfaceVertex| (f32::from_bits(v.pos_x), f32::from_bits(v.pos_y));
    assert_eq!(corner(&vs[0]), (0.0, 0.0));
    assert_eq!(corner(&vs[1]), (1.0, 0.0));
    assert_eq!(corner(&vs[2]), (1.0, 1.0));
    assert_eq!(corner(&vs[3]), (0.0, 1.0));
    for v in vs.iter() {
        for c in [v.color_r, v.color_g, v.color_b, v.color_a] {
            assert_eq!(f32::from_bits(c), 1.0);
        }
        assert_eq!(f32::from_bits(v.uv_u), 0.0);
        assert_eq!(f32::from_bits(v.uv_v), 0.0);
        assert_eq!(v.index, 0);
    }
}

#[test]
fn vertex_layout_stride_and_offsets() {
    let layout = interface_vertex_layout();
    assert_eq!(layout.stride, 36);
    assert_eq!(layout.step_mode, InputStepMode::Vertex);
    let offsets: Vec<u64> = layout.attributes.iter().map(|a| a.offset).collect();
    assert_eq!(offsets, vec![0, 8, 24, 32]);
    let locations: Vec<u32> = layout.attributes.iter().map(|a| a.shader_location).collect();
    assert_eq!(locations, vec![0, 1, 2, 3]);
    let formats: Vec<VertexFormat> = layout.attributes.iter().map(|a| a.format).collect();
    assert_eq!(
        formats,
        vec![VertexFormat::Float2, VertexFormat::Float4, VertexFormat::Float2, VertexFormat::Uint]
    );
    // The trait hands out the same layout.
    assert_eq!(InterfaceVertex::desc(), layout);
}

#[test]
fn vertex_encoding_fields_sit_at_their_offsets() {
    let v = InterfaceVertex {
        pos_x: 2.0f32.to_bits(),
        pos_y: 3.0f32.to_bits(),
        color_r: 0.25f32.to_bits(),
        color_g: 0.5f32.to_bits(),
        color_b: 0.75f32.to_bits(),
        color_a: 1.0f32.to_bits(),
        uv_u: 4.0f32.to_bits(),
        uv_v: 5.0f32.to_bits(),
        index: 7,
    };
    let bytes = encode_vertices(&vec![v]);
    assert_eq!(bytes.len(), 36);
    assert_eq!(bytes[0..8], le_bytes(&[2.0f32.to_bits(), 3.0f32.to_bits()])[..]);
    assert_eq!(
        bytes[8..24],
        le_bytes(&[
            0.25f32.to_bits(),
            0.5f32.to_bits(),
            0.75f32.to_bits(),
            1.0f32.to_bits(),
        ])[..]
    );
    assert_eq!(bytes[24..32], le_bytes(&[4.0f32.to_bits(), 5.0f32.to_bits()])[..]);
    assert_eq!(bytes[32..36], le_bytes(&[7])[..]);
}

#[test]
fn vertex_encoding_stride_is_36_per_record() {
    let ctx = test_context();
    let app = Application::new(&ctx);
    let bytes = encode_vertices(&app.interface_pass().vertices);
    assert_eq!(bytes.len(), 4 * 36);
    assert_eq!(encode_vertices(&Vec::new()).len(), 0);
}

#[test]
fn index_encoding_is_little_endian_u32() {
    assert_eq!(encode_indices(&vec![0, 1, 3, 1, 2, 3]), le_bytes(&[0, 1, 3, 1, 2, 3]));
    assert_eq!(encode_indices(&Vec::new()).len(), 0);
    assert_eq!(encode_indices(&vec![0x0102_0304]), vec![0x04, 0x03, 0x02, 0x01]);
}

#[test]
fn camera_is_fixed_orthographic_bounds() {
    let ctx = test_context();
    let app = Application::new(&ctx);
    let cam = app.interface_pass().camera;
    assert_eq!(f32::from_bits(cam.left), 0.0);
    assert_eq!(f32::from_bits(cam.right), 1.0);
    assert_eq!(f32::from_bits(cam.bottom), 0.0);
    assert_eq!(f32::from_bits(cam.top), 1.0);
    assert_eq!(f32::from_bits(cam.znear), 10.0);
    assert_eq!(f32::from_bits(cam.zfar), 100.0);
}

#[test]
fn camera_unaffected_by_resize_and_update() {
    let mut ctx = test_context();
    let mut app = Application::new(&ctx);
    let before = app.interface_pass().camera;
    ctx.resize(1920, 1080);
    app.update(&ctx);
    app.input(&WindowEvent::Resized { width: 1920, height: 1080 });
    assert_eq!(app.interface_pass().camera, before);
}

#[test]
fn input_returns_true_for_every_variant() {
    let ctx = test_context();
    let mut app = Application::new(&ctx);
    let events = [
        WindowEvent::CloseRequested,
        WindowEvent::KeyboardInput { state: ElementState::Pressed, key: Some(KeyCode::Escape) },
        WindowEvent::KeyboardInput { state: ElementState::Released, key: None },
        WindowEvent::Resized { width: 1, height: 1 },
        WindowEvent::ScaleFactorChanged { width: 2, height: 2 },
        WindowEvent::Other,
    ];
    for event in events {
        assert!(app.input(&event));
    }
}

#[test]
fn close_request_sets_exit() {
    assert_eq!(handle_window_event(&WindowEvent::CloseRequested), LoopDirective::Exit);
}

#[test]
fn escape_press_sets_exit() {
    let pressed = WindowEvent::KeyboardInput {
        state: ElementState::Pressed,
        key: Some(KeyCode::Escape),
    };
    assert_eq!(handle_window_event(&pressed), LoopDirective::Exit);
}

#[test]
fn other_keyboard_input_continues() {
    let released = WindowEvent::KeyboardInput {
        state: ElementState::Released,
        key: Some(KeyCode::Escape),
    };
    assert_eq!(handle_window_event(&released), LoopDirective::Continue);
    let other_key = WindowEvent::KeyboardInput {
        state: ElementState::Pressed,
        key: Some(KeyCode::Other),
    };
    assert_eq!(handle_window_event(&other_key), LoopDirective::Continue);
    let no_key = WindowEvent::KeyboardInput { state: ElementState::Pressed, key: None };
    assert_eq!(handle_window_event(&no_key), LoopDirective::Continue);
    assert_eq!(handle_window_event(&WindowEvent::Other), LoopDirective::Continue);
}

#[test]
fn size_events_direct_a_resize() {
    assert_eq!(
        handle_window_event(&WindowEvent::Resized { width: 800, height: 600 }),
        LoopDirective::Resize { width: 800, height: 600 }
    );
    assert_eq!(
        handle_window_event(&WindowEvent::ScaleFactorChanged { width: 400, height: 300 }),
        LoopDirective::Resize { width: 400, height: 300 }
    );
}

#[test]
fn render_issues_one_draw_spanning_the_quad() {
    let ctx = test_context();
    let app = Application::new(&ctx);
    let frame = app.render(&ctx);
    assert_eq!(frame.draws.len(), 1);
    let draw = frame.draws[0];
    assert_eq!(draw.first_index, 0);
    assert_eq!(draw.index_count, 6);
    assert_eq!(draw.base_vertex, 0);
    assert_eq!(draw.first_instance, 0);
    assert_eq!(draw.instance_count, 1);
    assert_eq!(frame.load_op, LoadOp::Load);
    assert_eq!(frame.store_op, StoreOp::Store);
    assert_eq!(frame.uniforms_slot, 0);
    assert_eq!(frame.vertex_data.len(), 4 * 36);
    assert_eq!(frame.index_data, le_bytes(&[0, 1, 3, 1, 2, 3]));
}

#[test]
fn render_with_empty_geometry_draws_zero_indices() {
    let ctx = test_context();
    let pass = InterfacePass::new(&ctx);
    let frame = pass.render(&ctx);
    assert_eq!(frame.draws.len(), 1);
    assert_eq!(frame.draws[0].index_count, 0);
    assert_eq!(frame.vertex_data.len(), 0);
    assert_eq!(frame.index_data.len(), 0);
}
