use window_demo::render::{
    encode_frame, fragment_function_name, pipeline_attachment_config, prepare_render_pass_config,
    vertex_function_name, BlendFactor, BlendOperation, Command, LoadAction, PipelineKind,
    PixelFormat, PrimitiveType, ScissorRect, StoreAction, VertexBuffer,
};
use window_demo::setup::{layer_config, window_config};

#[test]
fn attachment_blends_source_over() {
    let c = pipeline_attachment_config();
    assert_eq!(c.pixel_format, PixelFormat::Bgra8Unorm);
    assert!(c.blending_enabled);
    assert_eq!(c.rgb_blend_operation, BlendOperation::Add);
    assert_eq!(c.alpha_blend_operation, BlendOperation::Add);
    assert_eq!(c.source_rgb_blend_factor, BlendFactor::SourceAlpha);
    assert_eq!(c.source_alpha_blend_factor, BlendFactor::SourceAlpha);
    assert_eq!(c.destination_rgb_blend_factor, BlendFactor::OneMinusSourceAlpha);
    assert_eq!(c.destination_alpha_blend_factor, BlendFactor::OneMinusSourceAlpha);
}

#[test]
fn shader_function_names() {
    assert_eq!(vertex_function_name(&PipelineKind::Triangle), "triangle_vertex");
    assert_eq!(fragment_function_name(&PipelineKind::Triangle), "triangle_fragment");
    assert_eq!(vertex_function_name(&PipelineKind::ClearRect), "clear_rect_vertex");
    assert_eq!(fragment_function_name(&PipelineKind::ClearRect), "clear_rect_fragment");
}

#[test]
fn render_pass_clears_to_opaque_black_and_stores() {
    let c = prepare_render_pass_config();
    assert_eq!(c.load_action, LoadAction::Clear);
    assert_eq!(c.clear_color.r, 0);
    assert_eq!(c.clear_color.g, 0);
    assert_eq!(c.clear_color.b, 0);
    assert_eq!(c.clear_color.a, 255);
    assert_eq!(c.store_action, StoreAction::Store);
}

#[test]
fn frame_recipe_on_the_default_drawable() {
    let cmds = encode_frame(512, 512);
    assert_eq!(cmds.len(), 8);
    assert_eq!(
        cmds[0],
        Command::SetScissorRect(ScissorRect { x: 20, y: 20, width: 100, height: 100 })
    );
    assert_eq!(cmds[1], Command::SetRenderPipelineState(PipelineKind::ClearRect));
    assert_eq!(
        cmds[2],
        Command::SetVertexBuffer { index: 0, buffer: VertexBuffer::ClearRectQuad, offset: 0 }
    );
    assert_eq!(
        cmds[3],
        Command::DrawPrimitivesInstanced {
            primitive: PrimitiveType::TriangleStrip,
            vertex_start: 0,
            vertex_count: 4,
            instance_count: 1,
        }
    );
    assert_eq!(
        cmds[4],
        Command::SetScissorRect(ScissorRect { x: 0, y: 0, width: 512, height: 512 })
    );
    assert_eq!(cmds[5], Command::SetRenderPipelineState(PipelineKind::Triangle));
    assert_eq!(
        cmds[6],
        Command::SetVertexBuffer { index: 0, buffer: VertexBuffer::TriangleVertices, offset: 0 }
    );
    assert_eq!(
        cmds[7],
        Command::DrawPrimitives {
            primitive: PrimitiveType::Triangle,
            vertex_start: 0,
            vertex_count: 3,
        }
    );
}

#[test]
fn frame_recipe_follows_the_drawable_size() {
    let cmds = encode_frame(1024, 768);
    assert_eq!(
        cmds[4],
        Command::SetScissorRect(ScissorRect { x: 0, y: 0, width: 1024, height: 768 })
    );
    assert_eq!(
        cmds[0],
        Command::SetScissorRect(ScissorRect { x: 20, y: 20, width: 100, height: 100 })
    );
}

#[test]
fn window_is_fixed_512_square() {
    let c = window_config();
    assert_eq!(c.logical_width, 512);
    assert_eq!(c.logical_height, 512);
    assert!(!c.resizable);
}

#[test]
fn layer_presents_writable_bgra8() {
    let c = layer_config();
    assert_eq!(c.pixel_format, PixelFormat::Bgra8Unorm);
    assert!(!c.presents_with_transaction);
    assert!(!c.framebuffer_only);
}
