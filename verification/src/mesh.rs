//! The fixed cube mesh: eight corners, one unit from the origin on each axis,
//! and twelve triangles, two per face, wound consistently so every face looks
//! outward. The data is constant; the one invariant worth stating — every
//! triangle index names one of the eight vertices — is proved below.

use vstd::prelude::*;

verus! {

/// Components per vertex position.
pub const COMPONENTS_PER_VERTEX: usize = 3;

/// Number of vertices of the cube.
pub const VERTEX_COUNT: usize = 8;

/// Number of triangle indices of the cube.
pub const INDEX_COUNT: usize = 36;

/// The vertex positions, three components per vertex, front face first.
pub open spec fn vertex_seq() -> Seq<i32> {
    seq![
        -1i32, -1i32, 1i32,
        1i32, -1i32, 1i32,
        1i32, 1i32, 1i32,
        -1i32, 1i32, 1i32,
        -1i32, -1i32, -1i32,
        1i32, -1i32, -1i32,
        1i32, 1i32, -1i32,
        -1i32, 1i32, -1i32,
    ]
}

/// The triangle indices: front, right, back, left, bottom, top.
pub open spec fn index_seq() -> Seq<u16> {
    seq![
        0u16, 1u16, 2u16, 2u16, 3u16, 0u16,
        1u16, 5u16, 6u16, 6u16, 2u16, 1u16,
        7u16, 6u16, 5u16, 5u16, 4u16, 7u16,
        4u16, 0u16, 3u16, 3u16, 7u16, 4u16,
        4u16, 5u16, 1u16, 1u16, 0u16, 4u16,
        3u16, 2u16, 6u16, 6u16, 7u16, 3u16,
    ]
}

/// Every triangle index names one of the cube's vertices.
pub proof fn lemma_indices_in_range()
    ensures
        index_seq().len() == INDEX_COUNT as int,
        vertex_seq().len() == (VERTEX_COUNT * COMPONENTS_PER_VERTEX) as int,
        forall|i: int|
            0 <= i < index_seq().len() ==> (#[trigger] index_seq()[i]) < VERTEX_COUNT as u16,
{
    assert forall|i: int|
        0 <= i < index_seq().len() implies (#[trigger] index_seq()[i]) < VERTEX_COUNT as u16 by {
        assert(index_seq().len() == 36);
    }
}

/// The vertex positions as a value, ready to upload.
pub fn vertex_components() -> (v: Vec<i32>)
    ensures
        v@ == vertex_seq(),
        v@.len() == VERTEX_COUNT * COMPONENTS_PER_VERTEX,
{
    let v: Vec<i32> = vec![
        -1, -1, 1,
        1, -1, 1,
        1, 1, 1,
        -1, 1, 1,
        -1, -1, -1,
        1, -1, -1,
        1, 1, -1,
        -1, 1, -1,
    ];
    proof {
        assert(v@ =~= vertex_seq());
    }
    v
}

/// The triangle indices as a value, ready to upload.
pub fn cube_indices() -> (v: Vec<u16>)
    ensures
        v@ == index_seq(),
        v@.len() == INDEX_COUNT,
        forall|i: int| 0 <= i < v@.len() ==> (#[trigger] v@[i]) < VERTEX_COUNT as u16,
{
    let v: Vec<u16> = vec![
        0, 1, 2, 2, 3, 0,
        1, 5, 6, 6, 2, 1,
        7, 6, 5, 5, 4, 7,
        4, 0, 3, 3, 7, 4,
        4, 5, 1, 1, 0, 4,
        3, 2, 6, 6, 7, 3,
    ];
    proof {
        assert(v@ =~= index_seq());
        lemma_indices_in_range();
    }
    v
}

} // verus!
