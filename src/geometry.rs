//! Geometry uploaded once: vertex and index buffers with their counts, the
//! quad's index data, and the indexed draw call issued for them.
use vstd::prelude::*;

verus! {

/// Number of vertices of the quad.
pub const QUAD_VERTEX_COUNT: u32 = 4;

/// The quad's indices: two triangles sharing the diagonal from vertex 0 to 2.
pub open spec fn quad_index_seq() -> Seq<u16> {
    seq![0, 1, 2, 0, 2, 3]
}

/// The quad's index data.
pub fn quad_indices() -> (r: Vec<u16>)
    ensures
        r@ == quad_index_seq(),
        r@.len() == 6,
{
    let r: Vec<u16> = vec![0, 1, 2, 0, 2, 3];
    assert(r@ =~= quad_index_seq());
    r
}

/// Indices that can be drawn as a triangle list over `vertex_count` vertices:
/// whole triangles only, each index naming an existing vertex.
pub open spec fn valid_triangle_list(indices: Seq<u16>, vertex_count: nat) -> bool {
    &&& indices.len() % 3 == 0
    &&& forall|i: int| 0 <= i < indices.len() ==> (#[trigger] indices[i]) < vertex_count
}

/// GPU-resident geometry: a vertex buffer and an index buffer with the number
/// of records each holds. `B` is the handle type of a GPU buffer.
pub struct Buffers<B> {
    pub vertex_buffer: B,
    pub vertex_count: u32,
    pub index_buffer: B,
    pub index_count: u32,
}

/// One indexed draw call: indices `first_index..index_end`, each offset by
/// `base_vertex`, for instances `first_instance..instance_end`.
#[derive(Clone, Copy, Debug, PartialEq, Eq, Structural)]
pub struct DrawIndexed {
    pub first_index: u32,
    pub index_end: u32,
    pub base_vertex: i32,
    pub first_instance: u32,
    pub instance_end: u32,
}

/// Number of indexed vertices a draw call issues.
pub open spec fn drawn_indices(d: DrawIndexed) -> int {
    d.index_end - d.first_index
}

/// Number of instances a draw call issues.
pub open spec fn drawn_instances(d: DrawIndexed) -> int {
    d.instance_end - d.first_instance
}

impl<B> Buffers<B> {
    /// Geometry for `indices` drawn over `vertex_count` vertices, with the
    /// buffers that hold them; `None` unless both counts fit in `u32` and the
    /// indices form a valid triangle list.
    pub fn new(vertex_buffer: B, vertex_count: usize, index_buffer: B, indices: &Vec<u16>) -> (r:
        Option<Self>)
        ensures
            r is Some <==> (vertex_count <= u32::MAX && indices@.len() <= u32::MAX
                && valid_triangle_list(indices@, vertex_count as nat)),
            r matches Some(b) ==> {
                &&& b.vertex_buffer == vertex_buffer
                &&& b.vertex_count == vertex_count
                &&& b.index_buffer == index_buffer
                &&& b.index_count == indices@.len()
            },
    {
        if vertex_count > u32::MAX as usize || indices.len() > u32::MAX as usize || indices.len()
            % 3 != 0 {
            return None;
        }
        let mut i: usize = 0;
        while i < indices.len()
            invariant
                i <= indices@.len(),
                forall|j: int| 0 <= j < i ==> (#[trigger] indices@[j]) < vertex_count,
            decreases indices@.len() - i,
        {
            if indices[i] as usize >= vertex_count {
                return None;
            }
            i = i + 1;
        }
        Some(
            Buffers {
                vertex_buffer,
                vertex_count: vertex_count as u32,
                index_buffer,
                index_count: indices.len() as u32,
            },
        )
    }

    /// The draw call for the whole geometry: every index once, one instance.
    pub fn draw_call(&self) -> (r: DrawIndexed)
        ensures
            r == (DrawIndexed {
                first_index: 0,
                index_end: self.index_count,
                base_vertex: 0,
                first_instance: 0,
                instance_end: 1,
            }),
            drawn_indices(r) == self.index_count,
            drawn_instances(r) == 1,
    {
        DrawIndexed {
            first_index: 0,
            index_end: self.index_count,
            base_vertex: 0,
            first_instance: 0,
            instance_end: 1,
        }
    }

    /// Number of triangles the geometry's draw call produces.
    pub fn triangle_count(&self) -> (r: u32)
        ensures
            r == self.index_count / 3,
    {
        self.index_count / 3
    }
}

/// The quad's indices form two whole triangles over its four vertices.
pub proof fn lemma_quad_is_two_triangles()
    ensures
        valid_triangle_list(quad_index_seq(), QUAD_VERTEX_COUNT as nat),
        quad_index_seq().len() == 6,
        quad_index_seq().len() / 3 == 2,
{
}

} // verus!
