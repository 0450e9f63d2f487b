//! The layout of the vertex buffer: which attributes a vertex carries, where
//! each starts, and how far apart consecutive vertices sit. The stride ties
//! the layout to the byte encoder: a draw call covers exactly the vertices
//! the buffer holds.

use vstd::prelude::*;
use crate::vertex::VERTEX_STRIDE;

verus! {

/// The component format of one vertex attribute.
#[derive(Clone, Copy, Debug, PartialEq, Eq, Structural)]
pub enum VertexFormat {
    /// Three single-precision floats, tightly packed.
    Float32x3,
}

/// Bytes one attribute of the given format takes inside a vertex.
pub open spec fn format_size(f: VertexFormat) -> int {
    match f {
        VertexFormat::Float32x3 => 12,
    }
}

/// One vertex attribute: where it starts inside a vertex, which shader
/// input slot it feeds, and its format.
#[derive(Clone, Copy, Debug, PartialEq, Eq, Structural)]
pub struct VertexAttribute {
    pub offset: u64,
    pub shader_location: u32,
    pub format: VertexFormat,
}

/// The layout of one vertex buffer.
#[derive(Debug)]
pub struct VertexBufferLayoutDesc {
    pub array_stride: u64,
    pub attributes: Vec<VertexAttribute>,
}

/// Bytes the first `i` attributes take together.
pub open spec fn size_up_to(attrs: Seq<VertexAttribute>, i: int) -> int
    decreases i,
{
    if i <= 0 {
        0
    } else {
        size_up_to(attrs, i - 1) + format_size(attrs[i - 1].format)
    }
}

/// A well-formed layout packs its attributes end to end from the start of
/// each vertex, numbers the shader input slots consecutively from zero, and
/// strides by the total size of its attributes.
pub open spec fn layout_well_formed(l: VertexBufferLayoutDesc) -> bool {
    &&& forall|i: int|
        0 <= i < l.attributes@.len() ==> (#[trigger] l.attributes@[i]).offset == size_up_to(
            l.attributes@,
            i,
        )
    &&& forall|i: int|
        0 <= i < l.attributes@.len() ==> (#[trigger] l.attributes@[i]).shader_location == i
    &&& l.array_stride == size_up_to(l.attributes@, l.attributes@.len() as int)
}

/// The layout of the vertex buffer drawn here: the position in shader input
/// slot 0 at the start of the vertex, the color in slot 1 right after it,
/// and a stride of 24 bytes — the same 24 bytes the encoder writes per
/// vertex.
pub fn vertex_layout() -> (l: VertexBufferLayoutDesc)
    ensures
        layout_well_formed(l),
        l.array_stride == 24,
        l.attributes@.len() == 2,
        l.attributes@[0] == (VertexAttribute {
            offset: 0,
            shader_location: 0,
            format: VertexFormat::Float32x3,
        }),
        l.attributes@[1] == (VertexAttribute {
            offset: 12,
            shader_location: 1,
            format: VertexFormat::Float32x3,
        }),
{
    let mut attributes: Vec<VertexAttribute> = Vec::new();
    attributes.push(
        VertexAttribute { offset: 0, shader_location: 0, format: VertexFormat::Float32x3 },
    );
    attributes.push(
        VertexAttribute { offset: 12, shader_location: 1, format: VertexFormat::Float32x3 },
    );
    let l = VertexBufferLayoutDesc { array_stride: 24, attributes };
    proof {
        reveal_with_fuel(size_up_to, 3);
        assert(size_up_to(l.attributes@, 1) == 12);
        assert(size_up_to(l.attributes@, 2) == 24);
    }
    l
}

/// The number of vertices a buffer of `buffer_len` bytes holds. A length
/// that is not a whole number of vertices has no vertex count, and the draw
/// call built from the count covers the buffer exactly.
pub fn vertex_count(buffer_len: usize) -> (r: Option<usize>)
    ensures
        r matches Some(n) ==> n * 24 == buffer_len,
        r is None <==> buffer_len % 24 != 0,
{
    if buffer_len % VERTEX_STRIDE == 0 {
        Some(buffer_len / VERTEX_STRIDE)
    } else {
        None
    }
}

} // verus!
