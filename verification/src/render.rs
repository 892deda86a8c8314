//! The demo's fixed rendering recipe: how each pipeline is configured, how
//! the per-frame render pass treats the drawable, and the eight encoder calls
//! that every frame issues.

use vstd::prelude::*;

verus! {

/// The one pixel format the demo uses, for the layer and for every pipeline's
/// color attachment.
#[derive(Clone, Copy, Debug, PartialEq, Eq, Structural)]
pub enum PixelFormat {
    Bgra8Unorm,
}

/// The one blend operation the demo uses.
#[derive(Clone, Copy, Debug, PartialEq, Eq, Structural)]
pub enum BlendOperation {
    Add,
}

/// The blend factors the demo uses.
#[derive(Clone, Copy, Debug, PartialEq, Eq, Structural)]
pub enum BlendFactor {
    SourceAlpha,
    OneMinusSourceAlpha,
}

/// Settings of a pipeline's single color attachment.
#[derive(Clone, Copy, Debug, PartialEq, Eq, Structural)]
pub struct AttachmentConfig {
    pub pixel_format: PixelFormat,
    pub blending_enabled: bool,
    pub rgb_blend_operation: BlendOperation,
    pub alpha_blend_operation: BlendOperation,
    pub source_rgb_blend_factor: BlendFactor,
    pub source_alpha_blend_factor: BlendFactor,
    pub destination_rgb_blend_factor: BlendFactor,
    pub destination_alpha_blend_factor: BlendFactor,
}

/// The demo's two pipelines: one draws the animated triangle, one clears a
/// rectangle by drawing over it.
#[derive(Clone, Copy, Debug, PartialEq, Eq, Structural)]
pub enum PipelineKind {
    Triangle,
    ClearRect,
}

/// The attachment settings every pipeline of the demo is built with:
/// a BGRA8Unorm target with conventional source-over alpha blending.
pub open spec fn demo_attachment_config() -> AttachmentConfig {
    AttachmentConfig {
        pixel_format: PixelFormat::Bgra8Unorm,
        blending_enabled: true,
        rgb_blend_operation: BlendOperation::Add,
        alpha_blend_operation: BlendOperation::Add,
        source_rgb_blend_factor: BlendFactor::SourceAlpha,
        source_alpha_blend_factor: BlendFactor::SourceAlpha,
        destination_rgb_blend_factor: BlendFactor::OneMinusSourceAlpha,
        destination_alpha_blend_factor: BlendFactor::OneMinusSourceAlpha,
    }
}

/// Both pipelines blend the same way over the same pixel format; only their
/// shader functions differ.
pub fn pipeline_attachment_config() -> (c: AttachmentConfig)
    ensures
        c == demo_attachment_config(),
{
    AttachmentConfig {
        pixel_format: PixelFormat::Bgra8Unorm,
        blending_enabled: true,
        rgb_blend_operation: BlendOperation::Add,
        alpha_blend_operation: BlendOperation::Add,
        source_rgb_blend_factor: BlendFactor::SourceAlpha,
        source_alpha_blend_factor: BlendFactor::SourceAlpha,
        destination_rgb_blend_factor: BlendFactor::OneMinusSourceAlpha,
        destination_alpha_blend_factor: BlendFactor::OneMinusSourceAlpha,
    }
}

/// The vertex shader function each pipeline binds.
pub open spec fn vertex_function_of(p: PipelineKind) -> Seq<char> {
    match p {
        PipelineKind::Triangle => "triangle_vertex"@,
        PipelineKind::ClearRect => "clear_rect_vertex"@,
    }
}

/// The fragment shader function each pipeline binds.
pub open spec fn fragment_function_of(p: PipelineKind) -> Seq<char> {
    match p {
        PipelineKind::Triangle => "triangle_fragment"@,
        PipelineKind::ClearRect => "clear_rect_fragment"@,
    }
}

/// The name under which a pipeline's vertex function is looked up in the
/// compiled shader library.
pub fn vertex_function_name(p: &PipelineKind) -> (r: &'static str)
    ensures
        r@ == vertex_function_of(*p),
{
    match *p {
        PipelineKind::Triangle => "triangle_vertex",
        PipelineKind::ClearRect => "clear_rect_vertex",
    }
}

/// The name under which a pipeline's fragment function is looked up in the
/// compiled shader library.
pub fn fragment_function_name(p: &PipelineKind) -> (r: &'static str)
    ensures
        r@ == fragment_function_of(*p),
{
    match *p {
        PipelineKind::Triangle => "triangle_fragment",
        PipelineKind::ClearRect => "clear_rect_fragment",
    }
}

/// What a render pass does with the target before drawing.
#[derive(Clone, Copy, Debug, PartialEq, Eq, Structural)]
pub enum LoadAction {
    Clear,
}

/// What a render pass does with the target after drawing.
#[derive(Clone, Copy, Debug, PartialEq, Eq, Structural)]
pub enum StoreAction {
    Store,
}

/// A clear color, each channel on the 8-bit scale of the BGRA8Unorm drawable
/// (255 is full intensity).
#[derive(Clone, Copy, Debug, PartialEq, Eq, Structural)]
pub struct ClearColor {
    pub r: u8,
    pub g: u8,
    pub b: u8,
    pub a: u8,
}

/// How a frame's render pass treats the drawable's texture.
#[derive(Clone, Copy, Debug, PartialEq, Eq, Structural)]
pub struct RenderPassConfig {
    pub load_action: LoadAction,
    pub clear_color: ClearColor,
    pub store_action: StoreAction,
}

/// The pass every frame runs: clear to opaque black, draw, store the result.
pub open spec fn demo_render_pass_config() -> RenderPassConfig {
    RenderPassConfig {
        load_action: LoadAction::Clear,
        clear_color: ClearColor { r: 0, g: 0, b: 0, a: 255 },
        store_action: StoreAction::Store,
    }
}

/// Settings of the color attachment of the per-frame render pass.
pub fn prepare_render_pass_config() -> (c: RenderPassConfig)
    ensures
        c == demo_render_pass_config(),
{
    RenderPassConfig {
        load_action: LoadAction::Clear,
        clear_color: ClearColor { r: 0, g: 0, b: 0, a: 255 },
        store_action: StoreAction::Store,
    }
}

/// A scissor rectangle in pixels of the drawable.
#[derive(Clone, Copy, Debug, PartialEq, Eq, Structural)]
pub struct ScissorRect {
    pub x: u64,
    pub y: u64,
    pub width: u64,
    pub height: u64,
}

/// The demo's two vertex buffers: the quad the clear rectangle is drawn from,
/// and the triangle's animated vertices.
#[derive(Clone, Copy, Debug, PartialEq, Eq, Structural)]
pub enum VertexBuffer {
    ClearRectQuad,
    TriangleVertices,
}

/// The primitive types the demo draws.
#[derive(Clone, Copy, Debug, PartialEq, Eq, Structural)]
pub enum PrimitiveType {
    Triangle,
    TriangleStrip,
}

/// One call on the frame's render command encoder.
#[derive(Clone, Copy, Debug, PartialEq, Eq, Structural)]
pub enum Command {
    SetScissorRect(ScissorRect),
    SetRenderPipelineState(PipelineKind),
    SetVertexBuffer { index: u64, buffer: VertexBuffer, offset: u64 },
    DrawPrimitivesInstanced {
        primitive: PrimitiveType,
        vertex_start: u64,
        vertex_count: u64,
        instance_count: u64,
    },
    DrawPrimitives { primitive: PrimitiveType, vertex_start: u64, vertex_count: u64 },
}

/// The eight encoder calls of one frame, in order, on a drawable of the given
/// size in pixels.
pub open spec fn frame_commands(width: u64, height: u64) -> Seq<Command> {
    seq![
        Command::SetScissorRect(ScissorRect { x: 20, y: 20, width: 100, height: 100 }),
        Command::SetRenderPipelineState(PipelineKind::ClearRect),
        Command::SetVertexBuffer { index: 0, buffer: VertexBuffer::ClearRectQuad, offset: 0 },
        Command::DrawPrimitivesInstanced {
            primitive: PrimitiveType::TriangleStrip,
            vertex_start: 0,
            vertex_count: 4,
            instance_count: 1,
        },
        Command::SetScissorRect(ScissorRect { x: 0, y: 0, width, height }),
        Command::SetRenderPipelineState(PipelineKind::Triangle),
        Command::SetVertexBuffer { index: 0, buffer: VertexBuffer::TriangleVertices, offset: 0 },
        Command::DrawPrimitives {
            primitive: PrimitiveType::Triangle,
            vertex_start: 0,
            vertex_count: 3,
        },
    ]
}

/// Every frame issues the same recipe: clip to the fixed 100 by 100 rectangle
/// at (20, 20) and draw the clear quad over it as an instanced strip, then
/// open the scissor to the whole drawable and draw the triangle.
pub fn encode_frame(width: u64, height: u64) -> (cmds: Vec<Command>)
    ensures
        cmds@ == frame_commands(width, height),
{
    let mut cmds: Vec<Command> = Vec::new();
    cmds.push(Command::SetScissorRect(ScissorRect { x: 20, y: 20, width: 100, height: 100 }));
    cmds.push(Command::SetRenderPipelineState(PipelineKind::ClearRect));
    cmds.push(Command::SetVertexBuffer { index: 0, buffer: VertexBuffer::ClearRectQuad, offset: 0 });
    cmds.push(Command::DrawPrimitivesInstanced {
        primitive: PrimitiveType::TriangleStrip,
        vertex_start: 0,
        vertex_count: 4,
        instance_count: 1,
    });
    cmds.push(Command::SetScissorRect(ScissorRect { x: 0, y: 0, width, height }));
    cmds.push(Command::SetRenderPipelineState(PipelineKind::Triangle));
    cmds.push(Command::SetVertexBuffer {
        index: 0,
        buffer: VertexBuffer::TriangleVertices,
        offset: 0,
    });
    cmds.push(Command::DrawPrimitives {
        primitive: PrimitiveType::Triangle,
        vertex_start: 0,
        vertex_count: 3,
    });
    proof {
        assert(cmds@ =~= frame_commands(width, height));
    }
    cmds
}

} // verus!
