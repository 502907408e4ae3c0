//! The index lists of the built-in demo meshes.

use vstd::prelude::*;

use crate::engine_assets::gltf_mesh::{mesh_check, first_out_of_range};

verus! {

/// The demo cube has four vertices per face, six faces.
pub const DEMO_CUBE_VERTEX_COUNT: usize = 24;

/// The demo ground plane has four quads of four vertices.
pub const DEMO_GROUND_PLANE_VERTEX_COUNT: usize = 16;

/// The corners of a cube face's quad, as two counter-clockwise triangles.
pub open spec fn cube_face_corner(r: int) -> int {
    if r == 0 {
        0
    } else if r == 1 {
        1
    } else if r == 2 {
        2
    } else if r == 3 {
        2
    } else if r == 4 {
        3
    } else {
        0
    }
}

/// The corners of a ground quad: its two triangles, then the same two
/// wound the other way so that the quad is seen from both sides.
pub open spec fn ground_quad_corner(r: int) -> int {
    if r < 6 {
        cube_face_corner(r)
    } else if r == 6 {
        2
    } else if r == 7 {
        1
    } else if r == 8 {
        0
    } else if r == 9 {
        0
    } else if r == 10 {
        3
    } else {
        2
    }
}

/// The demo cube's indices: face after face, each quad's triangles.
pub open spec fn demo_cube_index_seq() -> Seq<u16> {
    Seq::new(36, |k: int| (4 * (k / 6) + cube_face_corner(k % 6)) as u16)
}

/// The demo ground plane's indices: quad after quad, double-sided.
pub open spec fn demo_ground_plane_index_seq() -> Seq<u16> {
    Seq::new(48, |k: int| (4 * (k / 12) + ground_quad_corner(k % 12)) as u16)
}

fn push_corners(indices: &mut Vec<u16>, base: u16, corners: &[u16])
    requires
        base <= 60,
        forall|r: int| 0 <= r < corners@.len() ==> corners@[r] <= 3,
    ensures
        final(indices)@ == old(indices)@ + corners@.map_values(|c: u16| (base + c) as u16),
{
    let mut r: usize = 0;
    while r < corners.len()
        invariant
            base <= 60,
            forall|q: int| 0 <= q < corners@.len() ==> corners@[q] <= 3,
            r <= corners@.len(),
            indices@ == old(indices)@ + corners@.take(r as int).map_values(|c: u16| (base + c) as u16),
        decreases corners@.len() - r,
    {
        indices.push(base + corners[r]);
        proof {
            assert(corners@.take(r + 1).map_values(|c: u16| (base + c) as u16) == corners@.take(
                r as int,
            ).map_values(|c: u16| (base + c) as u16).push((base + corners@[r as int]) as u16));
        }
        r = r + 1;
    }
    proof {
        assert(corners@.take(corners@.len() as int) == corners@);
    }
}

/// The demo cube's triangle indices.
pub fn demo_cube_indices() -> (indices: Vec<u16>)
    ensures
        indices@ == demo_cube_index_seq(),
{
    let corners: [u16; 6] = [0, 1, 2, 2, 3, 0];
    let mut indices: Vec<u16> = Vec::new();
    let mut face: u16 = 0;
    while face < 6
        invariant
            face <= 6,
            corners@ == seq![0u16, 1, 2, 2, 3, 0],
            indices@ == demo_cube_index_seq().take(6 * face as int),
        decreases 6 - face,
    {
        let ghost before = indices@;
        push_corners(&mut indices, 4 * face, corners.as_slice());
        proof {
            assert forall|k: int| 0 <= k < 6 implies #[trigger] corners@[k] <= 3 by {}
            assert(indices@ == demo_cube_index_seq().take(6 * (face + 1))) by {
                assert forall|k: int| 0 <= k < 6 * (face + 1) implies indices@[k]
                    == demo_cube_index_seq()[k] by {
                    if k >= 6 * face {
                        let r = k - 6 * face;
                        assert(k / 6 == face as int);
                        assert(k % 6 == r);
                    }
                }
            }
        }
        face = face + 1;
    }
    proof {
        assert(demo_cube_index_seq().take(36) == demo_cube_index_seq());
    }
    indices
}

/// The demo ground plane's triangle indices.
pub fn demo_ground_plane_indices() -> (indices: Vec<u16>)
    ensures
        indices@ == demo_ground_plane_index_seq(),
{
    let corners: [u16; 12] = [0, 1, 2, 2, 3, 0, 2, 1, 0, 0, 3, 2];
    let mut indices: Vec<u16> = Vec::new();
    let mut quad: u16 = 0;
    while quad < 4
        invariant
            quad <= 4,
            corners@ == seq![0u16, 1, 2, 2, 3, 0, 2, 1, 0, 0, 3, 2],
            indices@ == demo_ground_plane_index_seq().take(12 * quad as int),
        decreases 4 - quad,
    {
        push_corners(&mut indices, 4 * quad, corners.as_slice());
        proof {
            assert(indices@ == demo_ground_plane_index_seq().take(12 * (quad + 1))) by {
                assert forall|k: int| 0 <= k < 12 * (quad + 1) implies indices@[k]
                    == demo_ground_plane_index_seq()[k] by {
                    if k >= 12 * quad {
                        let r = k - 12 * quad;
                        assert(k / 12 == quad as int);
                        assert(k % 12 == r);
                    }
                }
            }
        }
        quad = quad + 1;
    }
    proof {
        assert(demo_ground_plane_index_seq().take(48) == demo_ground_plane_index_seq());
    }
    indices
}

/// The demo meshes are well formed: whole triangles whose indices all name
/// existing vertices.
pub proof fn law_demo_meshes_are_valid()
    ensures
        mesh_check(DEMO_CUBE_VERTEX_COUNT as nat, demo_cube_index_seq()) is None,
        mesh_check(DEMO_GROUND_PLANE_VERTEX_COUNT as nat, demo_ground_plane_index_seq()) is None,
{
    let cube = demo_cube_index_seq();
    assert forall|i: int| 0 <= i < cube.len() implies cube[i] < 24 by {
        assert(i / 6 <= 5);
    }
    assert(first_out_of_range(cube, 24) is None);
    let ground = demo_ground_plane_index_seq();
    assert forall|i: int| 0 <= i < ground.len() implies ground[i] < 16 by {
        assert(i / 12 <= 3);
    }
    assert(first_out_of_range(ground, 16) is None);
}

} // verus!
