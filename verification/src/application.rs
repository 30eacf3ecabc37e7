//! The application: one interface pass, seeded with a unit quad, and
//! the per-frame update/render/input entry points the event loop calls.

use vstd::prelude::*;
use crate::bits::{F32_ZERO_BITS, F32_ONE_BITS};
use crate::context::Context;
use crate::events::WindowEvent;
use crate::geometry::InterfaceVertex;
use crate::pass::{InterfacePass, FrameCommands, interface_camera, is_interface_pipeline};

verus! {

/// A vertex of the seeded quad at position `(x, y)` (given as `f32`
/// bits): uniform white color, zero UV, index tag 0.
pub open spec fn quad_vertex(x: u32, y: u32) -> InterfaceVertex {
    InterfaceVertex {
        pos_x: x,
        pos_y: y,
        color_r: F32_ONE_BITS,
        color_g: F32_ONE_BITS,
        color_b: F32_ONE_BITS,
        color_a: F32_ONE_BITS,
        uv_u: F32_ZERO_BITS,
        uv_v: F32_ZERO_BITS,
        index: 0,
    }
}

/// The four corners of the seeded axis-aligned unit quad, in order
/// (0,0), (1,0), (1,1), (0,1).
pub open spec fn unit_quad_vertices() -> Seq<InterfaceVertex> {
    seq![
        quad_vertex(F32_ZERO_BITS, F32_ZERO_BITS),
        quad_vertex(F32_ONE_BITS, F32_ZERO_BITS),
        quad_vertex(F32_ONE_BITS, F32_ONE_BITS),
        quad_vertex(F32_ZERO_BITS, F32_ONE_BITS),
    ]
}

/// The six indices of the seeded quad: two triangles sharing the
/// diagonal from vertex 0 to vertex 3.
pub open spec fn unit_quad_indices() -> Seq<u32> {
    seq![0u32, 1u32, 3u32, 1u32, 2u32, 3u32]
}

/// The seeded quad is valid geometry: exactly 4 vertices and 6
/// indices, a whole number of triangles, and every index within
/// `[0, 4)`.
pub proof fn lemma_unit_quad_well_formed()
    ensures
        unit_quad_vertices().len() == 4,
        unit_quad_indices().len() == 6,
        unit_quad_indices().len() % 3 == 0,
        forall|i: int| 0 <= i < unit_quad_indices().len() ==> unit_quad_indices()[i] < 4,
{
}

/// The application: owns the interface pass and forwards the event
/// loop's calls to it.
pub struct Application {
    interface_pass: InterfacePass,
}

impl Application {
    /// The pass the application owns.
    pub closed spec fn spec_interface_pass(self) -> InterfacePass {
        self.interface_pass
    }

    /// Builds the application: one interface pass for the context's
    /// color format, seeded with the unit quad. The seeded geometry is
    /// well formed.
    pub fn new(ctx: &Context) -> (r: Application)
        ensures
            r.spec_interface_pass().camera == interface_camera(),
            is_interface_pipeline(r.spec_interface_pass().pipeline, ctx.sc_desc.format),
            r.spec_interface_pass().vertices@ == unit_quad_vertices(),
            r.spec_interface_pass().indices@ == unit_quad_indices(),
            r.spec_interface_pass().well_formed(),
    {
        let mut interface_pass = InterfacePass::new(ctx);

        let mut vertices: Vec<InterfaceVertex> = Vec::new();
        vertices.push(InterfaceVertex {
            pos_x: F32_ZERO_BITS,
            pos_y: F32_ZERO_BITS,
            color_r: F32_ONE_BITS,
            color_g: F32_ONE_BITS,
            color_b: F32_ONE_BITS,
            color_a: F32_ONE_BITS,
            uv_u: F32_ZERO_BITS,
            uv_v: F32_ZERO_BITS,
            index: 0,
        });
        vertices.push(InterfaceVertex {
            pos_x: F32_ONE_BITS,
            pos_y: F32_ZERO_BITS,
            color_r: F32_ONE_BITS,
            color_g: F32_ONE_BITS,
            color_b: F32_ONE_BITS,
            color_a: F32_ONE_BITS,
            uv_u: F32_ZERO_BITS,
            uv_v: F32_ZERO_BITS,
            index: 0,
        });
        vertices.push(InterfaceVertex {
            pos_x: F32_ONE_BITS,
            pos_y: F32_ONE_BITS,
            color_r: F32_ONE_BITS,
            color_g: F32_ONE_BITS,
            color_b: F32_ONE_BITS,
            color_a: F32_ONE_BITS,
            uv_u: F32_ZERO_BITS,
            uv_v: F32_ZERO_BITS,
            index: 0,
        });
        vertices.push(InterfaceVertex {
            pos_x: F32_ZERO_BITS,
            pos_y: F32_ONE_BITS,
            color_r: F32_ONE_BITS,
            color_g: F32_ONE_BITS,
            color_b: F32_ONE_BITS,
            color_a: F32_ONE_BITS,
            uv_u: F32_ZERO_BITS,
            uv_v: F32_ZERO_BITS,
            index: 0,
        });
        interface_pass.vertices = vertices;

        let mut indices: Vec<u32> = Vec::new();
        indices.push(0);
        indices.push(1);
        indices.push(3);
        indices.push(1);
        indices.push(2);
        indices.push(3);
        interface_pass.indices = indices;

        proof {
            assert(interface_pass.vertices@ =~= unit_quad_vertices());
            assert(interface_pass.indices@ =~= unit_quad_indices());
        }

        Application { interface_pass }
    }

    /// The pass, for callers outside the crate.
    pub fn interface_pass(&self) -> (r: &InterfacePass)
        ensures
            r == self.spec_interface_pass(),
    {
        &self.interface_pass
    }

    /// Per-frame update: forwards to the pass's reserved hook. The
    /// application, its camera included, is unchanged.
    pub fn update(&mut self, _ctx: &Context)
        ensures
            *final(self) == *old(self),
    {
        self.interface_pass.update();
    }

    /// Plans one frame by forwarding to the pass. See
    /// [`InterfacePass::render`] for what the plan holds.
    pub fn render(&self, ctx: &Context) -> (r: FrameCommands)
        requires
            self.spec_interface_pass().well_formed(),
            self.spec_interface_pass().vertices@.len() * 36 <= usize::MAX,
            self.spec_interface_pass().indices@.len() * 4 <= usize::MAX,
            self.spec_interface_pass().indices@.len() <= u32::MAX,
        ensures
            r.vertex_data@ == crate::geometry::vertex_list_bytes(self.spec_interface_pass().vertices@),
            r.index_data@ == crate::geometry::index_list_bytes(self.spec_interface_pass().indices@),
            r.load_op == crate::pass::LoadOp::Load,
            r.store_op == crate::pass::StoreOp::Store,
            r.uniforms_slot == 0,
            r.draws@.len() == 1,
            r.draws@[0] == (crate::pass::DrawCall {
                first_index: 0,
                index_count: self.spec_interface_pass().indices@.len() as u32,
                base_vertex: 0,
                first_instance: 0,
                instance_count: 1,
            }),
    {
        self.interface_pass.render(ctx)
    }

    /// Reports whether the event was left for the loop's own dispatch.
    /// Every event is, in the current scope: the result is always
    /// true, and the application is unchanged.
    pub fn input(&mut self, _event: &WindowEvent) -> (r: bool)
        ensures
            r,
            *final(self) == *old(self),
    {
        true
    }
}

} // verus!
