//! Vertex data and its byte-exact GPU layout.
//!
//! Vertex attributes are 32-bit IEEE-754 bit patterns; the engine never
//! computes with them, it only lays them out for upload. The spec functions
//! here define the exact little-endian byte image of vertex and index data,
//! and the upload contracts are stated against them.
use vstd::prelude::*;

verus! {

/// How a pipeline assembles vertices into primitives.
#[derive(Clone, Copy, PartialEq, Eq, Structural, Debug)]
pub enum PrimitiveType {
    Points,
    Lines,
    LineStrip,
    Triangles,
    TriangleStrip,
}

/// One vertex: position, texture coordinates and color, each a triple of
/// 32-bit IEEE-754 bit patterns.
#[derive(Clone, Copy, PartialEq, Eq, Debug)]
pub struct Vertex {
    pub pos: [u32; 3],
    pub uv: [u32; 3],
    pub color: [u32; 3],
}

/// The four little-endian bytes of a 32-bit value.
pub open spec fn u32_le_bytes(x: u32) -> Seq<u8> {
    seq![
        (x & 0xff) as u8,
        ((x >> 8) & 0xff) as u8,
        ((x >> 16) & 0xff) as u8,
        ((x >> 24) & 0xff) as u8,
    ]
}

/// The two little-endian bytes of a 16-bit value.
pub open spec fn u16_le_bytes(x: u16) -> Seq<u8> {
    seq![(x & 0xff) as u8, ((x >> 8) & 0xff) as u8]
}

/// The 36-byte GPU image of one vertex: position, then texture
/// coordinates, then color, each component little-endian.
pub open spec fn vertex_bytes(v: Vertex) -> Seq<u8> {
    u32_le_bytes(v.pos@[0]) + u32_le_bytes(v.pos@[1]) + u32_le_bytes(v.pos@[2])
        + u32_le_bytes(v.uv@[0]) + u32_le_bytes(v.uv@[1]) + u32_le_bytes(v.uv@[2])
        + u32_le_bytes(v.color@[0]) + u32_le_bytes(v.color@[1]) + u32_le_bytes(v.color@[2])
}

/// The byte image of a whole vertex buffer, in order.
pub open spec fn vertex_data_bytes(vs: Seq<Vertex>) -> Seq<u8>
    decreases vs.len(),
{
    if vs.len() == 0 {
        Seq::empty()
    } else {
        vertex_bytes(vs[0]) + vertex_data_bytes(vs.skip(1))
    }
}

/// The byte image of an index buffer: each 16-bit index little-endian.
pub open spec fn index_data_bytes(is: Seq<u16>) -> Seq<u8>
    decreases is.len(),
{
    if is.len() == 0 {
        Seq::empty()
    } else {
        u16_le_bytes(is[0]) + index_data_bytes(is.skip(1))
    }
}

impl Vertex {
    /// The all-zero vertex.
    pub fn zeroed() -> (r: Vertex)
        ensures
            r.pos@ == seq![0u32, 0u32, 0u32],
            r.uv@ == seq![0u32, 0u32, 0u32],
            r.color@ == seq![0u32, 0u32, 0u32],
    {
        let r = Vertex { pos: [0, 0, 0], uv: [0, 0, 0], color: [0, 0, 0] };
        proof {
            assert(r.pos@ =~= seq![0u32, 0u32, 0u32]);
            assert(r.uv@ =~= seq![0u32, 0u32, 0u32]);
            assert(r.color@ =~= seq![0u32, 0u32, 0u32]);
        }
        r
    }
}

/// Appends the four little-endian bytes of `x` to `out`.
fn push_u32_le(out: &mut Vec<u8>, x: u32)
    ensures
        final(out)@ == old(out)@ + u32_le_bytes(x),
{
    out.push((x & 0xff) as u8);
    out.push(((x >> 8) & 0xff) as u8);
    out.push(((x >> 16) & 0xff) as u8);
    out.push(((x >> 24) & 0xff) as u8);
    proof {
        assert(out@ =~= old(out)@ + u32_le_bytes(x));
    }
}

/// Appends the two little-endian bytes of `x` to `out`.
fn push_u16_le(out: &mut Vec<u8>, x: u16)
    ensures
        final(out)@ == old(out)@ + u16_le_bytes(x),
{
    out.push((x & 0xff) as u8);
    out.push(((x >> 8) & 0xff) as u8);
    proof {
        assert(out@ =~= old(out)@ + u16_le_bytes(x));
    }
}

/// The little-endian byte image of a vertex buffer.
pub fn vertices_to_bytes(vs: &Vec<Vertex>) -> (r: Vec<u8>)
    ensures
        r@ == vertex_data_bytes(vs@),
{
    let mut out: Vec<u8> = Vec::new();
    let mut i: usize = 0;
    proof {
        lemma_vertex_data_bytes_take(vs@, 0);
    }
    while i < vs.len()
        invariant
            0 <= i <= vs@.len(),
            out@ == vertex_data_bytes(vs@.take(i as int)),
        decreases vs@.len() - i,
    {
        let v = vs[i];
        push_u32_le(&mut out, v.pos[0]);
        push_u32_le(&mut out, v.pos[1]);
        push_u32_le(&mut out, v.pos[2]);
        push_u32_le(&mut out, v.uv[0]);
        push_u32_le(&mut out, v.uv[1]);
        push_u32_le(&mut out, v.uv[2]);
        push_u32_le(&mut out, v.color[0]);
        push_u32_le(&mut out, v.color[1]);
        push_u32_le(&mut out, v.color[2]);
        proof {
            lemma_vertex_data_bytes_snoc(vs@, i as int);
        }
        i += 1;
    }
    proof {
        assert(vs@.take(vs@.len() as int) =~= vs@);
    }
    out
}

/// The little-endian byte image of the index range `[start, end)`.
pub fn indices_to_bytes(is: &Vec<u16>, start: usize, end: usize) -> (r: Vec<u8>)
    requires
        start <= end <= is@.len(),
    ensures
        r@ == index_data_bytes(is@.subrange(start as int, end as int)),
{
    let mut out: Vec<u8> = Vec::new();
    let mut i: usize = start;
    proof {
        lemma_index_data_bytes_take(is@.subrange(start as int, end as int), 0);
    }
    while i < end
        invariant
            start <= i <= end <= is@.len(),
            out@ == index_data_bytes(is@.subrange(start as int, i as int)),
        decreases end - i,
    {
        push_u16_le(&mut out, is[i]);
        proof {
            lemma_index_data_bytes_snoc(is@, start as int, i as int);
        }
        i += 1;
    }
    out
}

/// `vertex_data_bytes` of an empty prefix is empty.
proof fn lemma_vertex_data_bytes_take(vs: Seq<Vertex>, n: int)
    requires
        n == 0,
    ensures
        vertex_data_bytes(vs.take(n)) == Seq::<u8>::empty(),
{
    assert(vs.take(0).len() == 0);
}

/// Extending the prefix by one vertex appends that vertex's bytes.
proof fn lemma_vertex_data_bytes_snoc(vs: Seq<Vertex>, i: int)
    requires
        0 <= i < vs.len(),
    ensures
        vertex_data_bytes(vs.take(i + 1)) == vertex_data_bytes(vs.take(i)) + vertex_bytes(vs[i]),
{
    lemma_vertex_data_bytes_app(vs.take(i), vs[i]);
    assert(vs.take(i + 1) =~= vs.take(i).push(vs[i]));
}

/// Appending one vertex to any sequence appends its bytes.
proof fn lemma_vertex_data_bytes_app(vs: Seq<Vertex>, v: Vertex)
    ensures
        vertex_data_bytes(vs.push(v)) == vertex_data_bytes(vs) + vertex_bytes(v),
    decreases vs.len(),
{
    let ps = vs.push(v);
    if vs.len() == 0 {
        assert(ps[0] == v);
        assert(ps.skip(1) =~= Seq::<Vertex>::empty());
        assert(vertex_data_bytes(ps) == vertex_bytes(v) + vertex_data_bytes(
            Seq::<Vertex>::empty(),
        ));
        assert(vertex_bytes(v) + Seq::<u8>::empty() =~= Seq::<u8>::empty() + vertex_bytes(v));
    } else {
        assert(ps[0] == vs[0]);
        assert(ps.skip(1) =~= vs.skip(1).push(v));
        lemma_vertex_data_bytes_app(vs.skip(1), v);
        assert(vertex_data_bytes(ps) == vertex_bytes(vs[0]) + (vertex_data_bytes(vs.skip(1))
            + vertex_bytes(v)));
        assert(vertex_bytes(vs[0]) + (vertex_data_bytes(vs.skip(1)) + vertex_bytes(v)) =~= (
        vertex_bytes(vs[0]) + vertex_data_bytes(vs.skip(1))) + vertex_bytes(v));
    }
}

/// `index_data_bytes` of an empty prefix is empty.
proof fn lemma_index_data_bytes_take(is: Seq<u16>, n: int)
    requires
        n == 0,
    ensures
        index_data_bytes(is.take(n)) == Seq::<u8>::empty(),
{
    assert(is.take(0).len() == 0);
}

/// Extending the range by one index appends that index's bytes.
proof fn lemma_index_data_bytes_snoc(is: Seq<u16>, start: int, i: int)
    requires
        0 <= start <= i < is.len(),
    ensures
        index_data_bytes(is.subrange(start, i + 1)) == index_data_bytes(is.subrange(start, i))
            + u16_le_bytes(is[i]),
{
    lemma_index_data_bytes_app(is.subrange(start, i), is[i]);
    assert(is.subrange(start, i + 1) =~= is.subrange(start, i).push(is[i]));
}

/// Appending one index to any sequence appends its bytes.
proof fn lemma_index_data_bytes_app(is: Seq<u16>, x: u16)
    ensures
        index_data_bytes(is.push(x)) == index_data_bytes(is) + u16_le_bytes(x),
    decreases is.len(),
{
    let ps = is.push(x);
    if is.len() == 0 {
        assert(ps[0] == x);
        assert(ps.skip(1) =~= Seq::<u16>::empty());
        assert(index_data_bytes(ps) == u16_le_bytes(x) + index_data_bytes(Seq::<u16>::empty()));
        assert(u16_le_bytes(x) + Seq::<u8>::empty() =~= Seq::<u8>::empty() + u16_le_bytes(x));
    } else {
        assert(ps[0] == is[0]);
        assert(ps.skip(1) =~= is.skip(1).push(x));
        lemma_index_data_bytes_app(is.skip(1), x);
        assert(index_data_bytes(ps) == u16_le_bytes(is[0]) + (index_data_bytes(is.skip(1))
            + u16_le_bytes(x)));
        assert(u16_le_bytes(is[0]) + (index_data_bytes(is.skip(1)) + u16_le_bytes(x)) =~= (
        u16_le_bytes(is[0]) + index_data_bytes(is.skip(1))) + u16_le_bytes(x));
    }
}

} // verus!
