//! The vertex record and its byte encoding. A vertex is a 3-component
//! position and a 3-component color. Each component is a single-precision
//! float, carried here as its IEEE-754 bit pattern in a `u32` so that the
//! encoding into vertex buffer bytes is plain integer arithmetic: each
//! component becomes its four bytes, least significant first, exactly as the
//! GPU expects a tightly packed `Float32x3` pair.

use vstd::prelude::*;

verus! {

/// Bytes per encoded vertex: six components of four bytes each.
pub const VERTEX_STRIDE: usize = 24;

/// Three single-precision components, each as its IEEE-754 bit pattern.
#[derive(Clone, Copy, Debug, PartialEq, Eq, Structural)]
pub struct Float3 {
    pub x: u32,
    pub y: u32,
    pub z: u32,
}

/// One vertex: a position and a color, three components each.
#[derive(Clone, Copy, Debug, PartialEq, Eq, Structural)]
pub struct Vertex {
    pub position: Float3,
    pub color: Float3,
}

/// The four bytes of a 32-bit word, least significant first.
pub open spec fn le_bytes_u32(w: u32) -> Seq<u8> {
    seq![
        (w % 256) as u8,
        ((w / 256) % 256) as u8,
        ((w / 65536) % 256) as u8,
        ((w / 16777216) % 256) as u8,
    ]
}

/// The 24 bytes of one vertex: position components then color components,
/// each in little-endian order.
pub open spec fn vertex_bytes(v: Vertex) -> Seq<u8> {
    le_bytes_u32(v.position.x) + le_bytes_u32(v.position.y) + le_bytes_u32(v.position.z)
        + le_bytes_u32(v.color.x) + le_bytes_u32(v.color.y) + le_bytes_u32(v.color.z)
}

/// The bytes of a whole vertex sequence, one vertex after the other.
pub open spec fn vertices_bytes(vs: Seq<Vertex>) -> Seq<u8>
    decreases vs.len(),
{
    if vs.len() == 0 {
        Seq::empty()
    } else {
        vertices_bytes(vs.drop_last()) + vertex_bytes(vs.last())
    }
}

/// An encoded vertex sequence takes exactly `VERTEX_STRIDE` bytes per vertex.
pub proof fn lemma_vertices_bytes_len(vs: Seq<Vertex>)
    ensures
        vertices_bytes(vs).len() == 24 * vs.len(),
    decreases vs.len(),
{
    if vs.len() > 0 {
        lemma_vertices_bytes_len(vs.drop_last());
    }
}

/// Append the four bytes of `w`, least significant first.
fn push_le_u32(out: &mut Vec<u8>, w: u32)
    ensures
        final(out)@ == old(out)@ + le_bytes_u32(w),
{
    out.push((w % 256) as u8);
    out.push(((w / 256) % 256) as u8);
    out.push(((w / 65536) % 256) as u8);
    out.push(((w / 16777216) % 256) as u8);
    proof {
        assert(out@ =~= old(out)@ + le_bytes_u32(w));
    }
}

/// Encode the vertices into the bytes the vertex buffer holds. The result
/// is `VERTEX_STRIDE` bytes per vertex, so the buffer length always matches
/// the vertex count of the draw call computed from it.
pub fn encode_vertices(vs: &Vec<Vertex>) -> (out: Vec<u8>)
    ensures
        out@ == vertices_bytes(vs@),
        out@.len() == 24 * vs@.len(),
{
    let mut out: Vec<u8> = Vec::new();
    let mut i: usize = 0;
    while i < vs.len()
        invariant
            i <= vs@.len(),
            out@ == vertices_bytes(vs@.take(i as int)),
        decreases vs@.len() - i,
    {
        let v = vs[i];
        push_le_u32(&mut out, v.position.x);
        push_le_u32(&mut out, v.position.y);
        push_le_u32(&mut out, v.position.z);
        push_le_u32(&mut out, v.color.x);
        push_le_u32(&mut out, v.color.y);
        push_le_u32(&mut out, v.color.z);
        i = i + 1;
        proof {
            assert(vs@.take(i as int).drop_last() =~= vs@.take(i - 1));
            assert(vs@.take(i as int).last() == vs@[i - 1]);
            assert(out@ =~= vertices_bytes(vs@.take(i as int)));
        }
    }
    proof {
        assert(vs@.take(vs@.len() as int) =~= vs@);
        lemma_vertices_bytes_len(vs@);
    }
    out
}

} // verus!
