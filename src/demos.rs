use vstd::prelude::*;

use crate::frame::{DrawCommand, IndexFormat, RenderPass, RenderPassDresser, Span};

verus! {

/// The pipeline every demo binds, in its pipeline slot.
pub const PIPELINE: usize = 0;

/// The vertex buffer, in the demos' buffer slots.
pub const VERTEX_BUFFER: usize = 0;

/// The index buffer, in the demos' buffer slots.
pub const INDEX_BUFFER: usize = 1;

/// The bind group holding a texture view and its sampler.
pub const TEXTURE_BIND_GROUP: usize = 0;

/// The vertices of the triangle demo.
pub const TRIANGLE_VERTEX_COUNT: u32 = 3;

/// The vertices of the pentagon demo.
pub const PENTAGON_VERTEX_COUNT: usize = 5;

/// The vertices of the full-screen triangle the fractal demo's vertex stage
/// makes up.
pub const FULL_SCREEN_VERTEX_COUNT: u32 = 3;

/// The triangles of the pentagon demo, as indices into its vertices: a fan
/// around the last vertex.
pub open spec fn pentagon_index_list() -> Seq<u16> {
    seq![0, 1, 4, 1, 2, 4, 2, 3, 4]
}

/// Every index names one of `vertex_count` vertices.
pub open spec fn indices_in_range(indices: Seq<u16>, vertex_count: nat) -> bool {
    forall|i: int| 0 <= i < indices.len() ==> (#[trigger] indices[i] as nat) < vertex_count
}

pub fn pentagon_indices() -> (r: Vec<u16>)
    ensures
        r@ == pentagon_index_list(),
        indices_in_range(r@, PENTAGON_VERTEX_COUNT as nat),
{
    let r: Vec<u16> = vec![0, 1, 4, 1, 2, 4, 2, 3, 4];
    assert(r@ =~= pentagon_index_list());
    r
}

/// Tells whether every index names one of `vertex_count` vertices.
pub fn check_indices(indices: &Vec<u16>, vertex_count: usize) -> (r: bool)
    ensures
        r == indices_in_range(indices@, vertex_count as nat),
{
    let mut i: usize = 0;
    while i < indices.len()
        invariant
            0 <= i <= indices.len(),
            indices_in_range(indices@.take(i as int), vertex_count as nat),
        decreases indices.len() - i,
    {
        if indices[i] as usize >= vertex_count {
            assert(indices@[i as int] == indices@.take(i + 1)[i as int]);
            assert(!indices_in_range(indices@, vertex_count as nat));
            return false;
        }
        assert forall|j: int| 0 <= j < i + 1 implies (#[trigger] indices@.take(i + 1)[j] as nat)
            < vertex_count by {
            if j < i {
                assert(indices@.take(i + 1)[j] == indices@.take(i as int)[j]);
            }
        }
        i = i + 1;
    }
    assert(indices@.take(indices.len() as int) =~= indices@);
    true
}

/// The one instance every demo draws.
pub open spec fn single_instance() -> Span {
    Span { start: 0, end: 1 }
}

/// Draws a non-indexed triangle list of `vertex_count` colored vertices.
pub struct TriangleDresser {
    vertex_count: u32,
}

impl TriangleDresser {
    pub closed spec fn vertices(&self) -> u32 {
        self.vertex_count
    }

    pub fn new(vertex_count: u32) -> (r: TriangleDresser)
        ensures
            r.vertices() == vertex_count,
    {
        TriangleDresser { vertex_count }
    }
}

impl RenderPassDresser for TriangleDresser {
    /// Binds the pipeline and the vertex buffer, then draws every vertex once.
    open spec fn issues(&self) -> Seq<DrawCommand> {
        seq![
            DrawCommand::SetPipeline { pipeline: PIPELINE },
            DrawCommand::SetVertexBuffer { slot: 0, buffer: VERTEX_BUFFER },
            DrawCommand::Draw {
                vertices: Span { start: 0, end: self.vertices() },
                instances: single_instance(),
            },
        ]
    }

    fn dress(&self, render_pass: &mut RenderPass) {
        render_pass.set_pipeline(PIPELINE);
        render_pass.set_vertex_buffer(0, VERTEX_BUFFER);
        render_pass.draw(Span { start: 0, end: self.vertex_count }, Span { start: 0, end: 1 });
        assert(final(render_pass).recorded() =~= old(render_pass).recorded() + self.issues());
    }
}

/// Draws an indexed, textured triangle list of `index_count` indices.
pub struct PentagonDresser {
    index_count: u32,
}

impl PentagonDresser {
    pub closed spec fn indices(&self) -> u32 {
        self.index_count
    }

    pub fn new(index_count: u32) -> (r: PentagonDresser)
        ensures
            r.indices() == index_count,
    {
        PentagonDresser { index_count }
    }
}

impl RenderPassDresser for PentagonDresser {
    /// Binds the pipeline, the texture's bind group, the vertex buffer and the
    /// 16-bit index buffer, then draws every index once from base vertex 0.
    open spec fn issues(&self) -> Seq<DrawCommand> {
        seq![
            DrawCommand::SetPipeline { pipeline: PIPELINE },
            DrawCommand::SetBindGroup { index: 0, group: TEXTURE_BIND_GROUP },
            DrawCommand::SetVertexBuffer { slot: 0, buffer: VERTEX_BUFFER },
            DrawCommand::SetIndexBuffer { buffer: INDEX_BUFFER, format: IndexFormat::Uint16 },
            DrawCommand::DrawIndexed {
                indices: Span { start: 0, end: self.indices() },
                base_vertex: 0,
                instances: single_instance(),
            },
        ]
    }

    fn dress(&self, render_pass: &mut RenderPass) {
        render_pass.set_pipeline(PIPELINE);
        render_pass.set_bind_group(0, TEXTURE_BIND_GROUP);
        render_pass.set_vertex_buffer(0, VERTEX_BUFFER);
        render_pass.set_index_buffer(INDEX_BUFFER, IndexFormat::Uint16);
        render_pass.draw_indexed(Span { start: 0, end: self.index_count }, 0, Span { start: 0, end: 1 });
        assert(final(render_pass).recorded() =~= old(render_pass).recorded() + self.issues());
    }
}

/// Draws the fractal over a full-screen triangle that the vertex stage makes
/// up from the vertex index alone: no buffers.
pub struct MandelbrotDresser {}

impl MandelbrotDresser {
    pub fn new() -> (r: MandelbrotDresser) {
        MandelbrotDresser {  }
    }
}

impl RenderPassDresser for MandelbrotDresser {
    /// Binds the pipeline and draws the three vertices once.
    open spec fn issues(&self) -> Seq<DrawCommand> {
        seq![
            DrawCommand::SetPipeline { pipeline: PIPELINE },
            DrawCommand::Draw {
                vertices: Span { start: 0, end: FULL_SCREEN_VERTEX_COUNT },
                instances: single_instance(),
            },
        ]
    }

    fn dress(&self, render_pass: &mut RenderPass) {
        render_pass.set_pipeline(PIPELINE);
        render_pass.draw(
            Span { start: 0, end: FULL_SCREEN_VERTEX_COUNT },
            Span { start: 0, end: 1 },
        );
        assert(final(render_pass).recorded() =~= old(render_pass).recorded() + self.issues());
    }
}

} // verus!
