use vstd::prelude::*;
use crate::encode::index_bytes;
use crate::encode::indices_le_bytes;
use crate::encode::vertex_bytes;
use crate::encode::vertices_le_bytes;
use crate::quad::batched_index_pattern;
use crate::quad::batched_index_pattern_from;
use crate::quad::quads_vertices;
use crate::quad::shifted_index_pattern;
use crate::quad::Quad;
use crate::vertex::Color;
use crate::vertex::Vertex;

verus! {

/// Accumulates quad geometry into a vertex array and a triangle-list
/// index array. A batch is begun with [`Renderer::start`], filled with
/// [`Renderer::add_quad`] and [`Renderer::add_quads`], and turned into
/// the raw bytes of a vertex buffer and an index buffer, together with
/// the index count for the draw call, by [`Renderer::finish`]. Each quad
/// contributes four vertices and six indices, the six being the fixed
/// single-quad pattern shifted by the quad's base vertex.
pub struct Renderer {
    vertices: Vec<Vertex>,
    indices: Vec<u32>,
}

impl Renderer {
    /// The vertices accumulated so far.
    pub closed spec fn verts(self) -> Seq<Vertex> {
        self.vertices@
    }

    /// The indices accumulated so far.
    pub closed spec fn idxs(self) -> Seq<u32> {
        self.indices@
    }

    /// A batch is well formed when its vertices come in whole groups of
    /// four, every vertex is addressable by a 32-bit index, and its index
    /// array is exactly the single-quad pattern shifted by each group's
    /// base vertex in turn. `start` establishes this and the two `add`
    /// methods preserve it.
    pub open spec fn wf(self) -> bool {
        &&& self.verts().len() <= u32::MAX
        &&& self.verts().len() % 4 == 0
        &&& self.idxs() == batched_index_pattern(self.verts().len() / 4)
    }

    /// Begin an empty batch.
    pub fn start() -> (r: Renderer)
        ensures
            r.verts() == Seq::<Vertex>::empty(),
            r.idxs() == Seq::<u32>::empty(),
            r.wf(),
    {
        let r = Renderer { vertices: Vec::new(), indices: Vec::new() };
        proof {
            assert(batched_index_pattern(0) == Seq::<u32>::empty());
        }
        r
    }

    /// How many vertices the batch holds so far.
    pub fn num_vertices(&self) -> (n: usize)
        ensures
            n == self.verts().len(),
    {
        self.vertices.len()
    }

    /// How many indices the batch holds so far.
    pub fn num_indices(&self) -> (n: usize)
        ensures
            n == self.idxs().len(),
    {
        self.indices.len()
    }

    /// Append one quad in `color`: four vertices, and one copy of the
    /// index pattern shifted by the quad's base vertex — the number of
    /// vertices the batch held before the call.
    pub fn add_quad(&mut self, quad: &Quad, color: Color)
        requires
            old(self).verts().len() + 4 <= u32::MAX,
        ensures
            final(self).verts() == old(self).verts() + quad.spec_vertices(color),
            final(self).idxs() == old(self).idxs() + shifted_index_pattern(
                old(self).verts().len(),
            ),
            old(self).wf() ==> final(self).wf(),
    {
        let base = self.vertices.len() as u32;
        self.indices.push(base);
        self.indices.push(base + 1);
        self.indices.push(base + 2);
        self.indices.push(base + 2);
        self.indices.push(base + 1);
        self.indices.push(base + 3);
        quad.push_with_color(color, &mut self.vertices);
        proof {
            assert(self.indices@ =~= old(self).idxs() + shifted_index_pattern(
                old(self).verts().len(),
            ));
            if old(self).wf() {
                let k = old(self).verts().len() / 4;
                assert(old(self).verts().len() == 4 * k);
                assert(self.verts().len() == 4 * k + 4);
                assert(self.verts().len() / 4 == k + 1);
                assert(batched_index_pattern((k + 1) as nat) == batched_index_pattern(k)
                    + shifted_index_pattern(4 * k));
            }
        }
    }

    /// Append every quad of `quads` in `color`, in order, each with the
    /// index pattern shifted by its own base vertex.
    pub fn add_quads(&mut self, quads: &[Quad], color: Color)
        requires
            old(self).verts().len() + 4 * quads@.len() <= u32::MAX,
        ensures
            final(self).verts() == old(self).verts() + quads_vertices(quads@, color),
            final(self).idxs() == old(self).idxs() + batched_index_pattern_from(
                old(self).verts().len(),
                quads@.len(),
            ),
            old(self).wf() ==> final(self).wf(),
    {
        let n = quads.len();
        let mut i: usize = 0;
        while i < n
            invariant
                n == quads@.len(),
                i <= n,
                old(self).verts().len() + 4 * n <= u32::MAX,
                self.verts() == old(self).verts() + quads_vertices(quads@.take(i as int), color),
                self.idxs() == old(self).idxs() + batched_index_pattern_from(
                    old(self).verts().len(),
                    i as nat,
                ),
            decreases n - i,
        {
            proof {
                lemma_quads_vertices_len(quads@.take(i as int), color);
                assert(self.verts().len() == old(self).verts().len() + 4 * i);
            }
            let q = quads[i];
            self.add_quad(&q, color);
            proof {
                assert(quads@.take(i + 1).drop_last() =~= quads@.take(i as int));
                assert(quads@.take(i + 1).last() == quads@[i as int]);
                assert(quads_vertices(quads@.take(i + 1), color) == quads_vertices(
                    quads@.take(i as int),
                    color,
                ) + quads@[i as int].spec_vertices(color));
                assert(self.verts() =~= old(self).verts() + quads_vertices(
                    quads@.take(i + 1),
                    color,
                ));
                assert(batched_index_pattern_from(old(self).verts().len(), (i + 1) as nat)
                    == batched_index_pattern_from(old(self).verts().len(), i as nat)
                        + shifted_index_pattern(old(self).verts().len() + 4 * (i as nat)));
                assert(self.idxs() =~= old(self).idxs() + batched_index_pattern_from(
                    old(self).verts().len(),
                    (i + 1) as nat,
                ));
            }
            i = i + 1;
        }
        proof {
            assert(quads@.take(n as int) =~= quads@);
            if old(self).wf() {
                let k = old(self).verts().len() / 4;
                assert(old(self).verts().len() == 4 * k);
                lemma_quads_vertices_len(quads@, color);
                lemma_batched_index_pattern_append(0, k, quads@.len());
                assert(self.verts().len() == 4 * k + 4 * quads@.len());
                assert(self.verts().len() / 4 == k + quads@.len());
            }
        }
    }

    /// End the batch: the vertex-buffer bytes, the index-buffer bytes,
    /// and the number of indices to draw.
    pub fn finish(self) -> (r: (Vec<u8>, Vec<u8>, u32))
        requires
            self.idxs().len() <= u32::MAX,
        ensures
            r.0@ == vertices_le_bytes(self.verts()),
            r.1@ == indices_le_bytes(self.idxs()),
            r.2 == self.idxs().len(),
    {
        let vb = vertex_bytes(&self.vertices);
        let ib = index_bytes(&self.indices);
        let n = self.indices.len() as u32;
        (vb, ib, n)
    }
}

/// A sequence of quads contributes exactly four vertices per quad.
pub proof fn lemma_quads_vertices_len(qs: Seq<Quad>, color: Color)
    ensures
        quads_vertices(qs, color).len() == 4 * qs.len(),
    decreases qs.len(),
{
    if qs.len() > 0 {
        lemma_quads_vertices_len(qs.drop_last(), color);
    }
}

/// The batched index patterns contribute exactly six indices per quad.
pub proof fn lemma_batched_index_pattern_len(base: nat, quads: nat)
    ensures
        batched_index_pattern_from(base, quads).len() == 6 * quads,
    decreases quads,
{
    if quads > 0 {
        lemma_batched_index_pattern_len(base, (quads - 1) as nat);
    }
}

/// Batched index patterns concatenate: the patterns of `a + b` quads
/// based at `base` are those of the first `a`, followed by those of the
/// next `b`, whose bases begin after the first `4 a` vertices.
pub proof fn lemma_batched_index_pattern_append(base: nat, a: nat, b: nat)
    ensures
        batched_index_pattern_from(base, a) + batched_index_pattern_from(base + 4 * a, b)
            == batched_index_pattern_from(base, a + b),
    decreases b,
{
    if b == 0 {
        assert(batched_index_pattern_from(base, a) + batched_index_pattern_from(base + 4 * a, 0)
            =~= batched_index_pattern_from(base, a));
    } else {
        lemma_batched_index_pattern_append(base, a, (b - 1) as nat);
        assert(base + 4 * a + 4 * ((b - 1) as nat) == base + 4 * (((a + b) - 1) as nat));
        assert(batched_index_pattern_from(base, a) + batched_index_pattern_from(base + 4 * a, b)
            =~= batched_index_pattern_from(base, a + b));
    }
}

/// Every index in the batched patterns of `quads` quads based at `base`
/// addresses one of the `4 quads` vertices those quads own.
pub proof fn lemma_batched_index_pattern_bounded(base: nat, quads: nat)
    requires
        base + 4 * quads <= u32::MAX,
    ensures
        forall|i: int|
            0 <= i < batched_index_pattern_from(base, quads).len() ==> base <= #[trigger] batched_index_pattern_from(
                base,
                quads,
            )[i] < base + 4 * quads,
    decreases quads,
{
    if quads > 0 {
        lemma_batched_index_pattern_bounded(base, (quads - 1) as nat);
        let prev = batched_index_pattern_from(base, (quads - 1) as nat);
        let last = shifted_index_pattern(base + 4 * ((quads - 1) as nat));
        let whole = batched_index_pattern_from(base, quads);
        assert(whole == prev + last);
        assert forall|i: int|
            0 <= i < whole.len() implies base <= #[trigger] whole[i] < base + 4 * quads by {
            if i < prev.len() {
                assert(whole[i] == prev[i]);
            } else {
                assert(whole[i] == last[i - prev.len()]);
            }
        }
    }
}

/// In a well-formed batch the vertex and index counts keep the
/// four-vertices-to-six-indices ratio of a quad.
pub proof fn lemma_counts(r: Renderer)
    requires
        r.wf(),
    ensures
        3 * r.verts().len() == 2 * r.idxs().len(),
{
    lemma_batched_index_pattern_len(0, r.verts().len() / 4);
}

/// Every index a well-formed batch emits refers to a vertex the batch
/// holds.
pub proof fn lemma_indices_in_bounds(r: Renderer)
    requires
        r.wf(),
    ensures
        forall|i: int| 0 <= i < r.idxs().len() ==> r.idxs()[i] < r.verts().len(),
{
    let k = r.verts().len() / 4;
    assert(r.verts().len() == 4 * k);
    lemma_batched_index_pattern_bounded(0, k);
}

} // verus!
