//! Mesh descriptions, before they are uploaded to the graphics device.

use vstd::prelude::*;
use crate::draw::PrimitiveKind;

verus! {

/// Which vertices a mesh draws.
#[derive(Clone, Debug)]
pub enum Indexing {
    /// Through an index list.
    Inds(Vec<u32>),
    /// The vertices from the first bound up to the second.
    Range(u32, u32),
    /// All of them, in order.
    All,
}

/// The vertices of a mesh (of type `V`), which of them to draw, and how they
/// form geometry.
#[derive(Clone, Debug)]
pub struct MeshSource<V> {
    pub verts: Vec<V>,
    pub inds: Indexing,
    pub prim: PrimitiveKind,
}

/// The vertex indices that an indexing walks, for a mesh of `n` vertices.
pub open spec fn index_seq(ind: Indexing, n: usize) -> Seq<usize> {
    match ind {
        Indexing::All => Seq::new(n as nat, |i: int| i as usize),
        Indexing::Range(a, b) => if a <= b {
            Seq::new((b - a) as nat, |i: int| (a + i) as usize)
        } else {
            Seq::empty()
        },
        Indexing::Inds(v) => Seq::new(v@.len(), |i: int| v@[i] as usize),
    }
}

impl Indexing {
    /// The vertex indices this indexing walks, in order, for a mesh of
    /// `vertex_count` vertices.
    pub fn index_list(&self, vertex_count: usize) -> (r: Vec<usize>)
        ensures
            r@ == index_seq(*self, vertex_count),
    {
        let mut r: Vec<usize> = Vec::new();
        match self {
            Indexing::All => {
                let mut i: usize = 0;
                while i < vertex_count
                    invariant
                        i <= vertex_count,
                        r@ == Seq::new(i as nat, |k: int| k as usize),
                    decreases vertex_count - i,
                {
                    r.push(i);
                    i = i + 1;
                    assert(r@ =~= Seq::new(i as nat, |k: int| k as usize));
                }
            },
            Indexing::Range(a, b) => {
                if *a <= *b {
                    let mut i: u32 = *a;
                    while i < *b
                        invariant
                            *a <= i <= *b,
                            r@ == Seq::new((i - *a) as nat, |k: int| (*a + k) as usize),
                        decreases *b - i,
                    {
                        r.push(i as usize);
                        i = i + 1;
                        assert(r@ =~= Seq::new((i - *a) as nat, |k: int| (*a + k) as usize));
                    }
                }
            },
            Indexing::Inds(v) => {
                let mut i: usize = 0;
                while i < v.len()
                    invariant
                        i <= v@.len(),
                        r@ == Seq::new(i as nat, |k: int| v@[k] as usize),
                    decreases v.len() - i,
                {
                    r.push(v[i] as usize);
                    i = i + 1;
                    assert(r@ =~= Seq::new(i as nat, |k: int| v@[k] as usize));
                }
            },
        }
        r
    }
}

/// Three vertex indices.
pub type Triangle = (usize, usize, usize);

/// The triangles that a walk of vertex indices forms: consecutive triples
/// for a triangle list (a trailing incomplete triple is dropped), each
/// window of three for a triangle strip, and none for other primitives.
pub open spec fn triangles_of(s: Seq<usize>, prim: PrimitiveKind) -> Seq<Triangle> {
    match prim {
        PrimitiveKind::TriangleList => Seq::new(s.len() / 3, |k: int| (s[3 * k], s[3 * k + 1], s[3 * k + 2])),
        PrimitiveKind::TriangleStrip => if s.len() >= 3 {
            Seq::new((s.len() - 2) as nat, |k: int| (s[k], s[k + 1], s[k + 2]))
        } else {
            Seq::empty()
        },
        _ => Seq::empty(),
    }
}

/// Do the three corners differ?
pub open spec fn proper(t: Triangle) -> bool {
    t.0 != t.1 && t.1 != t.2 && t.0 != t.2
}

/// A triangle of the walk repeats a vertex.
#[derive(Clone, Copy, Debug, PartialEq, Eq, Structural)]
pub struct DegenerateTriangle {
    /// The position of the first such triangle among the walk's triangles.
    pub position: usize,
}

/// The triangles that `indices` forms under `prim`; the position of the
/// first triangle that repeats a vertex, if there is one.
pub fn triangles(indices: &Vec<usize>, prim: PrimitiveKind) -> (r: Result<Vec<Triangle>, DegenerateTriangle>)
    ensures
        match r {
            Ok(ts) => ts@ == triangles_of(indices@, prim) && forall|k: int|
                0 <= k < ts@.len() ==> proper(#[trigger] ts@[k]),
            Err(e) => e.position < triangles_of(indices@, prim).len() && !proper(
                triangles_of(indices@, prim)[e.position as int],
            ) && forall|k: int| 0 <= k < e.position ==> proper(#[trigger] triangles_of(indices@, prim)[k]),
        },
{
    let n = indices.len();
    let ghost all = triangles_of(indices@, prim);
    let mut ts: Vec<Triangle> = Vec::new();
    let count: usize = match prim {
        PrimitiveKind::TriangleList => n / 3,
        PrimitiveKind::TriangleStrip => if n >= 3 {
            n - 2
        } else {
            0
        },
        _ => 0,
    };
    assert(count == all.len());
    let mut k: usize = 0;
    while k < count
        invariant
            k <= count == all.len(),
            n == indices@.len(),
            all == triangles_of(indices@, prim),
            ts@ == all.take(k as int),
            forall|j: int| 0 <= j < k ==> proper(#[trigger] all[j]),
        decreases count - k,
    {
        let t: Triangle = match prim {
            PrimitiveKind::TriangleList => (indices[3 * k], indices[3 * k + 1], indices[3 * k + 2]),
            _ => (indices[k], indices[k + 1], indices[k + 2]),
        };
        assert(t == all[k as int]);
        if t.0 == t.1 || t.1 == t.2 || t.0 == t.2 {
            return Err(DegenerateTriangle { position: k });
        }
        ts.push(t);
        k = k + 1;
        assert(ts@ =~= all.take(k as int));
    }
    assert(all.take(k as int) =~= all);
    Ok(ts)
}

} // verus!
