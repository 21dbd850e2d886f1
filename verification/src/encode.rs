use vstd::prelude::*;
use crate::vertex::Vertex;

verus! {

/// The little-endian byte image of one 32-bit word: least significant
/// byte first.
pub open spec fn u32_le_bytes(x: u32) -> Seq<u8> {
    seq![
        (x & 0xff) as u8,
        ((x >> 8) & 0xff) as u8,
        ((x >> 16) & 0xff) as u8,
        ((x >> 24) & 0xff) as u8,
    ]
}

/// The byte image of one vertex: position then colour, each scalar in
/// little-endian order, 20 bytes in all.
pub open spec fn vertex_le_bytes(v: Vertex) -> Seq<u8> {
    u32_le_bytes(v.x) + u32_le_bytes(v.y) + u32_le_bytes(v.r) + u32_le_bytes(v.g)
        + u32_le_bytes(v.b)
}

/// The byte image of a vertex array: each vertex's bytes in order.
pub open spec fn vertices_le_bytes(vs: Seq<Vertex>) -> Seq<u8>
    decreases vs.len(),
{
    if vs.len() == 0 {
        Seq::<u8>::empty()
    } else {
        vertices_le_bytes(vs.drop_last()) + vertex_le_bytes(vs.last())
    }
}

/// The byte image of an index array: each index in little-endian order.
pub open spec fn indices_le_bytes(is: Seq<u32>) -> Seq<u8>
    decreases is.len(),
{
    if is.len() == 0 {
        Seq::<u8>::empty()
    } else {
        indices_le_bytes(is.drop_last()) + u32_le_bytes(is.last())
    }
}

/// A vertex array serialises to twenty bytes — five scalars of four
/// bytes — per vertex.
pub proof fn lemma_vertices_le_bytes_len(vs: Seq<Vertex>)
    ensures
        vertices_le_bytes(vs).len() == 20 * vs.len(),
    decreases vs.len(),
{
    if vs.len() > 0 {
        lemma_vertices_le_bytes_len(vs.drop_last());
    }
}

/// An index array serialises to four bytes per index.
pub proof fn lemma_indices_le_bytes_len(is: Seq<u32>)
    ensures
        indices_le_bytes(is).len() == 4 * is.len(),
    decreases is.len(),
{
    if is.len() > 0 {
        lemma_indices_le_bytes_len(is.drop_last());
    }
}

/// Append the little-endian bytes of `x` to `out`.
pub(crate) fn push_u32_le(out: &mut Vec<u8>, x: u32)
    ensures
        final(out)@ == old(out)@ + u32_le_bytes(x),
{
    out.push((x & 0xff) as u8);
    out.push(((x >> 8) & 0xff) as u8);
    out.push(((x >> 16) & 0xff) as u8);
    out.push(((x >> 24) & 0xff) as u8);
    proof {
        assert(out@ =~= old(out)@ + u32_le_bytes(x));
    }
}

/// Serialise a vertex array into the contiguous byte form a vertex buffer
/// holds.
pub fn vertex_bytes(vs: &Vec<Vertex>) -> (out: Vec<u8>)
    ensures
        out@ == vertices_le_bytes(vs@),
{
    let mut out: Vec<u8> = Vec::new();
    let mut i: usize = 0;
    while i < vs.len()
        invariant
            i <= vs@.len(),
            out@ == vertices_le_bytes(vs@.take(i as int)),
        decreases vs@.len() - i,
    {
        let v = vs[i];
        push_u32_le(&mut out, v.x);
        push_u32_le(&mut out, v.y);
        push_u32_le(&mut out, v.r);
        push_u32_le(&mut out, v.g);
        push_u32_le(&mut out, v.b);
        proof {
            assert(vs@.take(i + 1).drop_last() =~= vs@.take(i as int));
            assert(vs@.take(i + 1).last() == vs@[i as int]);
            assert(out@ =~= vertices_le_bytes(vs@.take(i as int)) + vertex_le_bytes(vs@[i as int]));
        }
        i = i + 1;
    }
    proof {
        assert(vs@.take(vs@.len() as int) =~= vs@);
    }
    out
}

/// Serialise an index array into the contiguous byte form an index buffer
/// holds.
pub fn index_bytes(is: &Vec<u32>) -> (out: Vec<u8>)
    ensures
        out@ == indices_le_bytes(is@),
{
    let mut out: Vec<u8> = Vec::new();
    let mut i: usize = 0;
    while i < is.len()
        invariant
            i <= is@.len(),
            out@ == indices_le_bytes(is@.take(i as int)),
        decreases is@.len() - i,
    {
        push_u32_le(&mut out, is[i]);
        proof {
            assert(is@.take(i + 1).drop_last() =~= is@.take(i as int));
            assert(is@.take(i + 1).last() == is@[i as int]);
        }
        i = i + 1;
    }
    proof {
        assert(is@.take(is@.len() as int) =~= is@);
    }
    out
}

} // verus!
