//! Index lists for the renderer.
//!
//! A mesh hands its faces out as triangles, three vertex indices each. A
//! graphics buffer wants one flat run of indices, three per triangle, in the
//! same order. This module turns the one into the other.

use vstd::prelude::*;

verus! {

/// The flat index list of `triangles`: entry `3 * t + c` is corner `c` of
/// triangle `t`.
pub open spec fn flattened(triangles: Seq<[u32; 3]>) -> Seq<u32> {
    Seq::new(3 * triangles.len(), |i: int| triangles[i / 3][i % 3])
}

/// Lays the corners of `triangles` out one after the other, triangle by
/// triangle, ready for upload as an element buffer.
pub fn flatten_triangles(triangles: &[[u32; 3]]) -> (indices: Vec<u32>)
    ensures
        indices@ == flattened(triangles@),
        indices@.len() == 3 * triangles@.len(),
{
    let mut indices: Vec<u32> = Vec::new();
    let mut t: usize = 0;
    while t < triangles.len()
        invariant
            t <= triangles.len(),
            indices@ == flattened(triangles@.take(t as int)),
        decreases triangles.len() - t,
    {
        let triangle = triangles[t];
        indices.push(triangle[0]);
        indices.push(triangle[1]);
        indices.push(triangle[2]);
        t += 1;
        proof {
            assert(indices@ =~= flattened(triangles@.take(t as int)));
        }
    }
    proof {
        assert(triangles@.take(t as int) =~= triangles@);
    }
    indices
}

} // verus!
