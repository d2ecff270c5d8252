//! The quad's geometry as the GPU is told about it: how one vertex is laid
//! out in the vertex buffer, and in which order the vertices are drawn.
//!
//! A vertex is four 32-bit components, interleaved: a 2D position followed by
//! a 2D texture coordinate. The component values themselves are the
//! application's business; this module fixes where they are.

use vstd::prelude::*;

verus! {

/// Bytes of one vertex component.
pub const COMPONENT_BYTES: usize = 4;

/// Components of a position, and of a texture coordinate.
pub const COMPONENTS_PER_ATTRIB: usize = 2;

/// Components of one whole vertex.
pub const VERTEX_COMPONENTS: usize = 4;

/// Vertices of the quad.
pub const VERTEX_COUNT: usize = 4;

/// Where one attribute of a vertex is found in an interleaved vertex buffer.
#[derive(Clone, Copy, Debug, PartialEq, Eq, Structural)]
pub struct VertexAttrib {
    /// The attribute's location in the vertex shader.
    pub index: u32,
    /// Components of the attribute.
    pub size: i32,
    /// Byte offset of the attribute within a vertex.
    pub offset: usize,
    /// Bytes from one vertex to the next.
    pub stride: usize,
    /// Instances per step of the attribute; 0 steps it per vertex.
    pub divisor: u32,
}

impl VertexAttrib {
    /// The first byte past this attribute within vertex number `vertex`,
    /// counted from the start of the buffer.
    pub open spec fn end_in(self, vertex: int) -> int {
        vertex * self.stride + self.offset + self.size * COMPONENT_BYTES
    }
}

/// The position: shader location 0, at the start of the vertex.
pub open spec fn position_layout() -> VertexAttrib {
    VertexAttrib { index: 0, size: 2, offset: 0, stride: 16, divisor: 0 }
}

/// The texture coordinate: shader location 1, right behind the position.
pub open spec fn tex_coord_layout() -> VertexAttrib {
    VertexAttrib { index: 1, size: 2, offset: 8, stride: 16, divisor: 0 }
}

/// The draw order: the four corners once each, as a triangle strip.
pub open spec fn quad_index_seq() -> Seq<u32> {
    seq![0u32, 1u32, 2u32, 3u32]
}

/// Layout of the position attribute.
pub fn position_attrib() -> (attrib: VertexAttrib)
    ensures
        attrib == position_layout(),
{
    VertexAttrib {
        index: 0,
        size: 2,
        offset: 0,
        stride: VERTEX_COMPONENTS * COMPONENT_BYTES,
        divisor: 0,
    }
}

/// Layout of the texture-coordinate attribute.
pub fn tex_coord_attrib() -> (attrib: VertexAttrib)
    ensures
        attrib == tex_coord_layout(),
{
    VertexAttrib {
        index: 1,
        size: 2,
        offset: COMPONENTS_PER_ATTRIB * COMPONENT_BYTES,
        stride: VERTEX_COMPONENTS * COMPONENT_BYTES,
        divisor: 0,
    }
}

/// The contents of the index buffer.
pub fn quad_indices() -> (indices: [u32; 4])
    ensures
        indices@ == quad_index_seq(),
{
    let indices: [u32; 4] = [0, 1, 2, 3];
    assert(indices@ =~= quad_index_seq());
    indices
}

/// The two attributes tile a vertex: the texture coordinate starts where the
/// position ends, and ends where the next vertex starts.
pub proof fn lemma_attribs_tile_vertex()
    ensures
        position_layout().offset == 0,
        position_layout().end_in(0) == tex_coord_layout().offset,
        tex_coord_layout().end_in(0) == tex_coord_layout().stride,
        position_layout().stride == tex_coord_layout().stride,
        position_layout().stride == VERTEX_COMPONENTS * COMPONENT_BYTES,
{
}

/// Every vertex that the index buffer names exists, and both of its
/// attributes lie inside a buffer of `VERTEX_COUNT` vertices.
pub proof fn lemma_draw_stays_in_buffer(i: int)
    requires
        0 <= i < quad_index_seq().len(),
    ensures
        quad_index_seq()[i] < VERTEX_COUNT,
        position_layout().end_in(quad_index_seq()[i] as int) <= VERTEX_COUNT * VERTEX_COMPONENTS
            * COMPONENT_BYTES,
        tex_coord_layout().end_in(quad_index_seq()[i] as int) <= VERTEX_COUNT * VERTEX_COMPONENTS
            * COMPONENT_BYTES,
{
}

} // verus!
