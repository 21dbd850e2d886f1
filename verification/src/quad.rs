use vstd::prelude::*;
use crate::vertex::Color;
use crate::vertex::Vertex;

verus! {

/// An axis-aligned rectangle, given by two opposite corners: `(x0, y0)` is
/// the corner the quad is positioned at, `(x1, y1)` the corner offset from
/// it by the quad's size. As everywhere in this library the coordinates
/// are opaque 32-bit words; whoever builds a quad supplies both corners in
/// the number format the GPU will read.
#[derive(Clone, Copy, Debug, PartialEq, Eq, Structural)]
pub struct Quad {
    pub x0: u32,
    pub y0: u32,
    pub x1: u32,
    pub y1: u32,
}

/// The triangle-list connectivity of a single quad: two triangles sharing
/// the diagonal from vertex 1 to vertex 2.
pub open spec fn index_pattern() -> Seq<u32> {
    seq![0u32, 1u32, 2u32, 2u32, 1u32, 3u32]
}

/// The index pattern of a quad whose four vertices begin at vertex
/// `base` of a batch: the single-quad pattern shifted by `base`.
pub open spec fn shifted_index_pattern(base: nat) -> Seq<u32> {
    seq![
        base as u32,
        (base + 1) as u32,
        (base + 2) as u32,
        (base + 2) as u32,
        (base + 1) as u32,
        (base + 3) as u32,
    ]
}

/// The index patterns of `quads` consecutive quads whose first vertex
/// sits at vertex `base` of a batch: copy `j` is the single-quad pattern
/// shifted by `base + 4 j`, the base vertex of quad `j`.
pub open spec fn batched_index_pattern_from(base: nat, quads: nat) -> Seq<u32>
    decreases quads,
{
    if quads == 0 {
        Seq::<u32>::empty()
    } else {
        batched_index_pattern_from(base, (quads - 1) as nat) + shifted_index_pattern(
            base + 4 * ((quads - 1) as nat),
        )
    }
}

/// The index patterns of a whole batch of `quads` quads, starting at
/// vertex zero.
pub open spec fn batched_index_pattern(quads: nat) -> Seq<u32> {
    batched_index_pattern_from(0, quads)
}

/// A quad based at vertex zero uses the unshifted pattern.
pub proof fn lemma_shifted_index_pattern_zero()
    ensures
        shifted_index_pattern(0) == index_pattern(),
{
    assert(shifted_index_pattern(0) =~= index_pattern());
}

/// The vertices of a whole sequence of quads, all in `color`, in order.
pub open spec fn quads_vertices(qs: Seq<Quad>, color: Color) -> Seq<Vertex>
    decreases qs.len(),
{
    if qs.len() == 0 {
        Seq::<Vertex>::empty()
    } else {
        quads_vertices(qs.drop_last(), color) + qs.last().spec_vertices(color)
    }
}

impl Quad {
    /// The four vertices of this quad in `color`, in the order a batch
    /// stores them: the positioned corner, then its horizontal neighbour,
    /// then its vertical neighbour, then the opposite corner.
    pub open spec fn spec_vertices(self, color: Color) -> Seq<Vertex> {
        seq![
            Vertex { x: self.x0, y: self.y0, r: color.r, g: color.g, b: color.b },
            Vertex { x: self.x1, y: self.y0, r: color.r, g: color.g, b: color.b },
            Vertex { x: self.x0, y: self.y1, r: color.r, g: color.g, b: color.b },
            Vertex { x: self.x1, y: self.y1, r: color.r, g: color.g, b: color.b },
        ]
    }

    pub fn new(x0: u32, y0: u32, x1: u32, y1: u32) -> (q: Quad)
        ensures
            q == (Quad { x0, y0, x1, y1 }),
    {
        Quad { x0, y0, x1, y1 }
    }

    /// How many indices a single quad contributes to a batch.
    pub fn num_indices() -> (n: u32)
        ensures
            n == index_pattern().len(),
    {
        6
    }

    /// How many vertices a single quad contributes to a batch.
    pub fn num_vertices() -> (n: u32)
        ensures
            forall|q: Quad, c: Color| n == #[trigger] q.spec_vertices(c).len(),
    {
        4
    }

    /// The index pattern of a single quad, in 16-bit form.
    pub fn indices_u16() -> (r: [u16; 6])
        ensures
            r@ == seq![0u16, 1u16, 2u16, 2u16, 1u16, 3u16],
    {
        let r: [u16; 6] = [0, 1, 2, 2, 1, 3];
        proof {
            assert(r@ =~= seq![0u16, 1u16, 2u16, 2u16, 1u16, 3u16]);
        }
        r
    }

    /// The index pattern of a single quad, in 32-bit form.
    pub fn indices_u32() -> (r: [u32; 6])
        ensures
            r@ == index_pattern(),
    {
        let r: [u32; 6] = [0, 1, 2, 2, 1, 3];
        proof {
            assert(r@ =~= index_pattern());
        }
        r
    }

    /// Append this quad's four vertices in `color` to `out`.
    pub fn push_with_color(&self, color: Color, out: &mut Vec<Vertex>)
        ensures
            final(out)@ == old(out)@ + self.spec_vertices(color),
    {
        out.push(Vertex { x: self.x0, y: self.y0, r: color.r, g: color.g, b: color.b });
        out.push(Vertex { x: self.x1, y: self.y0, r: color.r, g: color.g, b: color.b });
        out.push(Vertex { x: self.x0, y: self.y1, r: color.r, g: color.g, b: color.b });
        out.push(Vertex { x: self.x1, y: self.y1, r: color.r, g: color.g, b: color.b });
        proof {
            assert(out@ =~= old(out)@ + self.spec_vertices(color));
        }
    }
}

} // verus!
