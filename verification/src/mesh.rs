//! Triangulation results and their index arithmetic.
//!
//! The Delaunay triangulation itself is an external collaborator; what
//! arrives here is its index output: a flat list of point indices, three
//! per triangle, with half-edge and hull indices beside it.
//! [`triangle_triples`] regroups the flat list into per-triangle index
//! triples, leaving any trailing fragment of fewer than three indices out.

use vstd::prelude::*;

verus! {

/// The index output of a Delaunay triangulation over a point set: point
/// indices of each triangle's corners, three per triangle, with half-edge
/// and hull indices.
#[derive(Debug)]
pub struct Triangulation {
    /// Point indices, three consecutive entries per triangle.
    pub triangles: Vec<usize>,
    /// Half-edge indices, one per triangle edge.
    pub halfedges: Vec<usize>,
    /// Indices of the points on the convex hull.
    pub hull: Vec<usize>,
}

/// Groups a flat triangle index list into one `(corner, corner, corner)`
/// triple per triangle, in order; a trailing fragment shorter than a
/// triangle is dropped.
pub fn triangle_triples(triangles: &Vec<usize>) -> (out: Vec<(usize, usize, usize)>)
    ensures
        out@.len() == triangles@.len() / 3,
        forall|k: int|
            0 <= k < out@.len() ==> #[trigger] out@[k] == (
                triangles@[3 * k],
                triangles@[3 * k + 1],
                triangles@[3 * k + 2],
            ),
{
    let mut out: Vec<(usize, usize, usize)> = Vec::new();
    let n = triangles.len();
    let m = n / 3;
    for k in 0..m
        invariant
            n == triangles@.len(),
            m == n / 3,
            out@.len() == k,
            forall|j: int|
                0 <= j < out@.len() ==> #[trigger] out@[j] == (
                    triangles@[3 * j],
                    triangles@[3 * j + 1],
                    triangles@[3 * j + 2],
                ),
    {
        proof {
            assert(3 * k + 2 < n) by {
                assert(n == 3 * (n / 3) + n % 3);
                assert(k + 1 <= n / 3);
                assert(3 * (k + 1) <= 3 * (n / 3)) by (nonlinear_arith)
                    requires
                        k + 1 <= n / 3,
                ;
            }
        }
        let base = 3 * k;
        out.push((triangles[base], triangles[base + 1], triangles[base + 2]));
    }
    out
}

} // verus!
