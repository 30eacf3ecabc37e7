//! The interface render pass: the fixed orthographic camera, the
//! pipeline and bind-group descriptors built once at construction, the
//! per-frame vertex and index lists, and the command plan of one frame.
//!
//! The pass owns the geometry and decides everything about a frame:
//! which bytes the transient vertex and index buffers hold, that the
//! target's prior contents are loaded rather than cleared, and that
//! exactly one indexed draw spanning the whole index list goes into the
//! single submission. The surrounding application replays that plan
//! against the GPU driver verbatim.

use vstd::prelude::*;
use crate::bits::{F32_ZERO_BITS, F32_ONE_BITS, F32_TEN_BITS, F32_HUNDRED_BITS};
use crate::context::{Context, TextureFormat};
use crate::geometry::{
    InterfaceVertex, VertexBufferLayout, interface_vertex_layout, interface_vertex_attributes,
    InputStepMode, vertex_list_bytes, index_list_bytes, encode_vertices, encode_indices,
};

verus! {

/// An orthographic projection, carried by its six clipping bounds as
/// `f32` bit patterns. The projection matrix is a fixed function of
/// these bounds, so a pass whose bounds never change has a constant
/// projection matrix.
#[derive(Clone, Copy, Debug, PartialEq, Eq, Structural)]
pub struct OrthographicCamera {
    /// Left clipping bound, as `f32` bits.
    pub left: u32,
    /// Right clipping bound, as `f32` bits.
    pub right: u32,
    /// Bottom clipping bound, as `f32` bits.
    pub bottom: u32,
    /// Top clipping bound, as `f32` bits.
    pub top: u32,
    /// Near clipping bound, as `f32` bits.
    pub znear: u32,
    /// Far clipping bound, as `f32` bits.
    pub zfar: u32,
}

/// The camera of the interface pass: left 0, right 1, bottom 0, top 1,
/// near 10, far 100 — a normalized-device mapping independent of the
/// window's dimensions.
pub open spec fn interface_camera() -> OrthographicCamera {
    OrthographicCamera {
        left: F32_ZERO_BITS,
        right: F32_ONE_BITS,
        bottom: F32_ZERO_BITS,
        top: F32_ONE_BITS,
        znear: F32_TEN_BITS,
        zfar: F32_HUNDRED_BITS,
    }
}

/// Shader stages a binding may be visible to.
#[derive(Clone, Copy, Debug, PartialEq, Eq, Structural)]
pub enum ShaderStage {
    /// The vertex stage only.
    Vertex,
    /// The fragment stage only.
    Fragment,
}

/// One entry of a bind-group layout.
#[derive(Clone, Copy, Debug, PartialEq, Eq, Structural)]
pub struct BindGroupLayoutEntry {
    /// Binding slot.
    pub binding: u32,
    /// Stage the binding is visible to.
    pub visibility: ShaderStage,
    /// Whether the bound uniform buffer has a dynamic offset.
    pub dynamic: bool,
}

/// Builds the single layout entry of the uniform bind group: binding
/// 0, visible to the vertex stage only, no dynamic offset.
pub fn uniforms_layout_entry() -> (r: BindGroupLayoutEntry)
    ensures
        r.binding == 0,
        r.visibility == ShaderStage::Vertex,
        !r.dynamic,
{
    BindGroupLayoutEntry { binding: 0, visibility: ShaderStage::Vertex, dynamic: false }
}

/// Primitive assembly of the pipeline.
#[derive(Clone, Copy, Debug, PartialEq, Eq, Structural)]
pub enum PrimitiveTopology {
    /// Independent triangles, three indices each.
    TriangleList,
    /// A strip of triangles.
    TriangleStrip,
}

/// Which winding counts as front-facing.
#[derive(Clone, Copy, Debug, PartialEq, Eq, Structural)]
pub enum FrontFace {
    /// Counter-clockwise.
    Ccw,
    /// Clockwise.
    Cw,
}

/// Which faces the rasterizer culls.
#[derive(Clone, Copy, Debug, PartialEq, Eq, Structural)]
pub enum CullMode {
    /// Cull nothing.
    Disabled,
    /// Cull front faces.
    Front,
    /// Cull back faces.
    Back,
}

/// Width of one index in the index buffer.
#[derive(Clone, Copy, Debug, PartialEq, Eq, Structural)]
pub enum IndexFormat {
    /// 16-bit indices.
    Uint16,
    /// 32-bit indices.
    Uint32,
}

/// Blending applied to a color target.
#[derive(Clone, Copy, Debug, PartialEq, Eq, Structural)]
pub enum BlendMode {
    /// Source replaces destination.
    Replace,
    /// Source blended over destination by alpha.
    AlphaOver,
}

/// The fixed configuration the render pipeline is built from.
#[derive(Debug, PartialEq, Eq)]
pub struct RenderPipelineDescriptor {
    /// Primitive assembly.
    pub topology: PrimitiveTopology,
    /// Front-face winding.
    pub front_face: FrontFace,
    /// Face culling.
    pub cull_mode: CullMode,
    /// Index width of indexed draws.
    pub index_format: IndexFormat,
    /// Format of the single color target.
    pub color_format: TextureFormat,
    /// Blending of the color channels.
    pub color_blend: BlendMode,
    /// Blending of the alpha channel.
    pub alpha_blend: BlendMode,
    /// Samples per pixel.
    pub sample_count: u32,
    /// Whether a depth/stencil attachment is used.
    pub has_depth_stencil: bool,
    /// Layout of the single vertex buffer.
    pub vertex_layout: VertexBufferLayout,
}

/// Whether `r` is the pipeline configuration of the interface pass for
/// color target format `format`: triangle-list assembly,
/// counter-clockwise front faces with back-face culling, 32-bit
/// indices, replace-mode blending on one color target of that format,
/// no depth/stencil, a single sample, and the fixed vertex layout.
pub open spec fn is_interface_pipeline(r: RenderPipelineDescriptor, format: TextureFormat) -> bool {
    &&& r.topology == PrimitiveTopology::TriangleList
    &&& r.front_face == FrontFace::Ccw
    &&& r.cull_mode == CullMode::Back
    &&& r.index_format == IndexFormat::Uint32
    &&& r.color_format == format
    &&& r.color_blend == BlendMode::Replace
    &&& r.alpha_blend == BlendMode::Replace
    &&& r.sample_count == 1
    &&& !r.has_depth_stencil
    &&& r.vertex_layout.stride == 36
    &&& r.vertex_layout.step_mode == InputStepMode::Vertex
    &&& r.vertex_layout.attributes@ == interface_vertex_attributes()
}

/// Builds the pipeline configuration of the interface pass for the
/// given color target format.
pub fn pipeline_descriptor(format: TextureFormat) -> (r: RenderPipelineDescriptor)
    ensures
        is_interface_pipeline(r, format),
{
    RenderPipelineDescriptor {
        topology: PrimitiveTopology::TriangleList,
        front_face: FrontFace::Ccw,
        cull_mode: CullMode::Back,
        index_format: IndexFormat::Uint32,
        color_format: format,
        color_blend: BlendMode::Replace,
        alpha_blend: BlendMode::Replace,
        sample_count: 1,
        has_depth_stencil: false,
        vertex_layout: interface_vertex_layout(),
    }
}

/// What happens to the color target's prior contents when a pass
/// begins.
#[derive(Clone, Copy, Debug, PartialEq, Eq, Structural)]
pub enum LoadOp {
    /// Clear to a constant first.
    Clear,
    /// Keep the prior contents.
    Load,
}

/// What happens to the color target's contents when a pass ends.
#[derive(Clone, Copy, Debug, PartialEq, Eq, Structural)]
pub enum StoreOp {
    /// Write the results out.
    Store,
    /// Discard the results.
    Clear,
}

/// One indexed draw call.
#[derive(Clone, Copy, Debug, PartialEq, Eq, Structural)]
pub struct DrawCall {
    /// First index of the span drawn.
    pub first_index: u32,
    /// Number of indices drawn.
    pub index_count: u32,
    /// Value added to each index before vertex lookup.
    pub base_vertex: u32,
    /// First instance drawn.
    pub first_instance: u32,
    /// Number of instances drawn.
    pub instance_count: u32,
}

/// The complete plan of one frame: the bytes of the two transient
/// buffers, the pass's load/store behaviour, the bind-group slot of the
/// uniforms, and the draw list. One `FrameCommands` value is recorded
/// into one command encoder and handed to the queue as one submission.
#[derive(Debug, PartialEq, Eq)]
pub struct FrameCommands {
    /// Contents of the transient vertex buffer.
    pub vertex_data: Vec<u8>,
    /// Contents of the transient index buffer.
    pub index_data: Vec<u8>,
    /// Treatment of the target's prior contents.
    pub load_op: LoadOp,
    /// Treatment of the target's contents at pass end.
    pub store_op: StoreOp,
    /// Bind-group slot the uniforms are bound to.
    pub uniforms_slot: u32,
    /// The draw calls of the pass, in order.
    pub draws: Vec<DrawCall>,
}

/// The interface pass: fixed camera and pipeline configuration, and
/// the current frame's geometry.
pub struct InterfacePass {
    /// The fixed pipeline configuration, immutable after construction.
    pub pipeline: RenderPipelineDescriptor,
    /// The fixed orthographic camera, constant for the process
    /// lifetime.
    pub camera: OrthographicCamera,
    /// The current frame's vertices.
    pub vertices: Vec<InterfaceVertex>,
    /// The current frame's indices, a triangle list over `vertices`.
    pub indices: Vec<u32>,
}

impl InterfacePass {
    /// The geometry invariant: the index list encodes whole triangles
    /// and every index points into the vertex list.
    pub open spec fn well_formed(self) -> bool {
        &&& self.indices@.len() % 3 == 0
        &&& forall|i: int| 0 <= i < self.indices@.len() ==> self.indices@[i] < self.vertices@.len()
    }

    /// Builds the pass for the context's color format: the fixed
    /// camera and pipeline configuration, and empty geometry.
    pub fn new(ctx: &Context) -> (r: InterfacePass)
        ensures
            r.camera == interface_camera(),
            is_interface_pipeline(r.pipeline, ctx.sc_desc.format),
            r.vertices@ == Seq::<InterfaceVertex>::empty(),
            r.indices@ == Seq::<u32>::empty(),
            r.well_formed(),
    {
        let camera = OrthographicCamera {
            left: F32_ZERO_BITS,
            right: F32_ONE_BITS,
            bottom: F32_ZERO_BITS,
            top: F32_ONE_BITS,
            znear: F32_TEN_BITS,
            zfar: F32_HUNDRED_BITS,
        };
        InterfacePass {
            pipeline: pipeline_descriptor(ctx.sc_desc.format),
            camera,
            vertices: Vec::new(),
            indices: Vec::new(),
        }
    }

    /// Per-frame update hook. Reserved: it changes nothing today, the
    /// camera and pipeline in particular.
    pub fn update(&mut self)
        ensures
            *final(self) == *old(self),
    {
    }

    /// Plans one frame: encodes the geometry into the two transient
    /// buffer contents and issues exactly one indexed draw spanning the
    /// whole index list, loading (not clearing) the target's prior
    /// contents, with the uniforms at bind-group slot 0. The returned
    /// plan is one submission.
    pub fn render(&self, _ctx: &Context) -> (r: FrameCommands)
        requires
            self.well_formed(),
            self.vertices@.len() * 36 <= usize::MAX,
            self.indices@.len() * 4 <= usize::MAX,
            self.indices@.len() <= u32::MAX,
        ensures
            r.vertex_data@ == vertex_list_bytes(self.vertices@),
            r.index_data@ == index_list_bytes(self.indices@),
            r.load_op == LoadOp::Load,
            r.store_op == StoreOp::Store,
            r.uniforms_slot == 0,
            r.draws@.len() == 1,
            r.draws@[0] == (DrawCall {
                first_index: 0,
                index_count: self.indices@.len() as u32,
                base_vertex: 0,
                first_instance: 0,
                instance_count: 1,
            }),
    {
        let vertex_data = encode_vertices(&self.vertices);
        let index_data = encode_indices(&self.indices);
        let mut draws: Vec<DrawCall> = Vec::new();
        draws.push(DrawCall {
            first_index: 0,
            index_count: self.indices.len() as u32,
            base_vertex: 0,
            first_instance: 0,
            instance_count: 1,
        });
        FrameCommands {
            vertex_data,
            index_data,
            load_op: LoadOp::Load,
            store_op: StoreOp::Store,
            uniforms_slot: 0,
            draws,
        }
    }
}

} // verus!
