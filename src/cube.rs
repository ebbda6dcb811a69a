//! The unit cube that a cube-face effect draws: twelve triangles, two per
//! face, listed as 36 positions with no shared vertices.
use vstd::prelude::*;
use crate::math::Vec3;

verus! {

/// The number of positions in the cube's vertex buffer.
pub const CUBE_VERTEX_COUNT: u32 = 36;

/// The cube's positions, three per triangle, two triangles per face. Faces
/// come in the order +Y, -Y, -Z, +Z, +X, -X.
pub open spec fn unit_cube_positions() -> Seq<Vec3> {
    seq![
        Vec3 { x: 1i64, y: 1i64, z: -1i64 },
        Vec3 { x: -1i64, y: 1i64, z: -1i64 },
        Vec3 { x: 1i64, y: 1i64, z: 1i64 },
        Vec3 { x: -1i64, y: 1i64, z: 1i64 },
        Vec3 { x: 1i64, y: 1i64, z: 1i64 },
        Vec3 { x: -1i64, y: 1i64, z: -1i64 },
        Vec3 { x: -1i64, y: -1i64, z: -1i64 },
        Vec3 { x: 1i64, y: -1i64, z: -1i64 },
        Vec3 { x: 1i64, y: -1i64, z: 1i64 },
        Vec3 { x: 1i64, y: -1i64, z: 1i64 },
        Vec3 { x: -1i64, y: -1i64, z: 1i64 },
        Vec3 { x: -1i64, y: -1i64, z: -1i64 },
        Vec3 { x: 1i64, y: -1i64, z: -1i64 },
        Vec3 { x: -1i64, y: -1i64, z: -1i64 },
        Vec3 { x: 1i64, y: 1i64, z: -1i64 },
        Vec3 { x: -1i64, y: 1i64, z: -1i64 },
        Vec3 { x: 1i64, y: 1i64, z: -1i64 },
        Vec3 { x: -1i64, y: -1i64, z: -1i64 },
        Vec3 { x: -1i64, y: -1i64, z: 1i64 },
        Vec3 { x: 1i64, y: -1i64, z: 1i64 },
        Vec3 { x: 1i64, y: 1i64, z: 1i64 },
        Vec3 { x: 1i64, y: 1i64, z: 1i64 },
        Vec3 { x: -1i64, y: 1i64, z: 1i64 },
        Vec3 { x: -1i64, y: -1i64, z: 1i64 },
        Vec3 { x: 1i64, y: -1i64, z: -1i64 },
        Vec3 { x: 1i64, y: 1i64, z: -1i64 },
        Vec3 { x: 1i64, y: 1i64, z: 1i64 },
        Vec3 { x: 1i64, y: 1i64, z: 1i64 },
        Vec3 { x: 1i64, y: -1i64, z: 1i64 },
        Vec3 { x: 1i64, y: -1i64, z: -1i64 },
        Vec3 { x: -1i64, y: 1i64, z: -1i64 },
        Vec3 { x: -1i64, y: -1i64, z: -1i64 },
        Vec3 { x: -1i64, y: 1i64, z: 1i64 },
        Vec3 { x: -1i64, y: -1i64, z: 1i64 },
        Vec3 { x: -1i64, y: 1i64, z: 1i64 },
        Vec3 { x: -1i64, y: -1i64, z: -1i64 },
    ]
}

/// Coordinate `axis` (0 for x, 1 for y, 2 for z) of `p`.
pub open spec fn coordinate(p: Vec3, axis: int) -> int {
    if axis == 0 { p.x as int } else if axis == 1 { p.y as int } else { p.z as int }
}

/// The axis that is constant on face `k` of the cube.
pub open spec fn face_axis(k: int) -> int {
    if k == 0 || k == 1 { 1 } else if k == 2 || k == 3 { 2 } else { 0 }
}

/// The value of that axis on face `k`: 1 or -1.
pub open spec fn face_sign(k: int) -> int {
    if k == 0 || k == 3 || k == 4 { 1 } else { -1 }
}

/// A corner of the cube `[-1, 1]^3`.
pub open spec fn is_corner(p: Vec3) -> bool {
    &&& (p.x == 1 || p.x == -1)
    &&& (p.y == 1 || p.y == -1)
    &&& (p.z == 1 || p.z == -1)
}

/// A corner that lies on face `k`.
pub open spec fn is_face_corner(p: Vec3, k: int) -> bool {
    is_corner(p) && coordinate(p, face_axis(k)) == face_sign(k)
}

/// Triangle `t` of `p` consists of three distinct corners of face `t / 2`.
pub open spec fn is_cube_triangle(p: Seq<Vec3>, t: int) -> bool {
    &&& is_face_corner(p[3 * t], t / 2)
    &&& is_face_corner(p[3 * t + 1], t / 2)
    &&& is_face_corner(p[3 * t + 2], t / 2)
    &&& p[3 * t] != p[3 * t + 1] && p[3 * t] != p[3 * t + 2] && p[3 * t + 1] != p[3 * t + 2]
}

/// The positions of the cube, in the order the vertex buffer holds them.
pub fn cube_positions() -> (r: Vec<Vec3>)
    ensures
        r@ == unit_cube_positions(),
{
    let r = vec![
        Vec3 { x: 1, y: 1, z: -1 },
        Vec3 { x: -1, y: 1, z: -1 },
        Vec3 { x: 1, y: 1, z: 1 },
        Vec3 { x: -1, y: 1, z: 1 },
        Vec3 { x: 1, y: 1, z: 1 },
        Vec3 { x: -1, y: 1, z: -1 },
        Vec3 { x: -1, y: -1, z: -1 },
        Vec3 { x: 1, y: -1, z: -1 },
        Vec3 { x: 1, y: -1, z: 1 },
        Vec3 { x: 1, y: -1, z: 1 },
        Vec3 { x: -1, y: -1, z: 1 },
        Vec3 { x: -1, y: -1, z: -1 },
        Vec3 { x: 1, y: -1, z: -1 },
        Vec3 { x: -1, y: -1, z: -1 },
        Vec3 { x: 1, y: 1, z: -1 },
        Vec3 { x: -1, y: 1, z: -1 },
        Vec3 { x: 1, y: 1, z: -1 },
        Vec3 { x: -1, y: -1, z: -1 },
        Vec3 { x: -1, y: -1, z: 1 },
        Vec3 { x: 1, y: -1, z: 1 },
        Vec3 { x: 1, y: 1, z: 1 },
        Vec3 { x: 1, y: 1, z: 1 },
        Vec3 { x: -1, y: 1, z: 1 },
        Vec3 { x: -1, y: -1, z: 1 },
        Vec3 { x: 1, y: -1, z: -1 },
        Vec3 { x: 1, y: 1, z: -1 },
        Vec3 { x: 1, y: 1, z: 1 },
        Vec3 { x: 1, y: 1, z: 1 },
        Vec3 { x: 1, y: -1, z: 1 },
        Vec3 { x: 1, y: -1, z: -1 },
        Vec3 { x: -1, y: 1, z: -1 },
        Vec3 { x: -1, y: -1, z: -1 },
        Vec3 { x: -1, y: 1, z: 1 },
        Vec3 { x: -1, y: -1, z: 1 },
        Vec3 { x: -1, y: 1, z: 1 },
        Vec3 { x: -1, y: -1, z: -1 },
    ];
    assert(r@ =~= unit_cube_positions());
    r
}

/// The 36 positions describe the unit cube `[-1, 1]^3`: every position is a
/// corner; the three positions of each triangle are distinct corners of one
/// face; the two triangles of a face together reach all four of its corners;
/// and the six faces are the six different sides of the cube.
pub proof fn lemma_unit_cube()
    ensures
        unit_cube_positions().len() == CUBE_VERTEX_COUNT,
        forall|i: int| 0 <= i < 36 ==> is_corner(#[trigger] unit_cube_positions()[i]),
        forall|t: int| 0 <= t < 12 ==> #[trigger] is_cube_triangle(unit_cube_positions(), t),
        forall|k: int, c: Vec3| 0 <= k < 6 && #[trigger] is_face_corner(c, k)
            ==> exists|i: int| 6 * k <= i < 6 * k + 6 && unit_cube_positions()[i] == c,
        forall|k: int, l: int| 0 <= k < l < 6 ==> face_axis(k) != face_axis(l) || face_sign(k) != face_sign(l),
{
    let p = unit_cube_positions();
    assert(p[0] == Vec3 { x: 1i64, y: 1i64, z: -1i64 });
    assert(p[1] == Vec3 { x: -1i64, y: 1i64, z: -1i64 });
    assert(p[2] == Vec3 { x: 1i64, y: 1i64, z: 1i64 });
    assert(p[3] == Vec3 { x: -1i64, y: 1i64, z: 1i64 });
    assert(p[4] == Vec3 { x: 1i64, y: 1i64, z: 1i64 });
    assert(p[5] == Vec3 { x: -1i64, y: 1i64, z: -1i64 });
    assert(p[6] == Vec3 { x: -1i64, y: -1i64, z: -1i64 });
    assert(p[7] == Vec3 { x: 1i64, y: -1i64, z: -1i64 });
    assert(p[8] == Vec3 { x: 1i64, y: -1i64, z: 1i64 });
    assert(p[9] == Vec3 { x: 1i64, y: -1i64, z: 1i64 });
    assert(p[10] == Vec3 { x: -1i64, y: -1i64, z: 1i64 });
    assert(p[11] == Vec3 { x: -1i64, y: -1i64, z: -1i64 });
    assert(p[12] == Vec3 { x: 1i64, y: -1i64, z: -1i64 });
    assert(p[13] == Vec3 { x: -1i64, y: -1i64, z: -1i64 });
    assert(p[14] == Vec3 { x: 1i64, y: 1i64, z: -1i64 });
    assert(p[15] == Vec3 { x: -1i64, y: 1i64, z: -1i64 });
    assert(p[16] == Vec3 { x: 1i64, y: 1i64, z: -1i64 });
    assert(p[17] == Vec3 { x: -1i64, y: -1i64, z: -1i64 });
    assert(p[18] == Vec3 { x: -1i64, y: -1i64, z: 1i64 });
    assert(p[19] == Vec3 { x: 1i64, y: -1i64, z: 1i64 });
    assert(p[20] == Vec3 { x: 1i64, y: 1i64, z: 1i64 });
    assert(p[21] == Vec3 { x: 1i64, y: 1i64, z: 1i64 });
    assert(p[22] == Vec3 { x: -1i64, y: 1i64, z: 1i64 });
    assert(p[23] == Vec3 { x: -1i64, y: -1i64, z: 1i64 });
    assert(p[24] == Vec3 { x: 1i64, y: -1i64, z: -1i64 });
    assert(p[25] == Vec3 { x: 1i64, y: 1i64, z: -1i64 });
    assert(p[26] == Vec3 { x: 1i64, y: 1i64, z: 1i64 });
    assert(p[27] == Vec3 { x: 1i64, y: 1i64, z: 1i64 });
    assert(p[28] == Vec3 { x: 1i64, y: -1i64, z: 1i64 });
    assert(p[29] == Vec3 { x: 1i64, y: -1i64, z: -1i64 });
    assert(p[30] == Vec3 { x: -1i64, y: 1i64, z: -1i64 });
    assert(p[31] == Vec3 { x: -1i64, y: -1i64, z: -1i64 });
    assert(p[32] == Vec3 { x: -1i64, y: 1i64, z: 1i64 });
    assert(p[33] == Vec3 { x: -1i64, y: -1i64, z: 1i64 });
    assert(p[34] == Vec3 { x: -1i64, y: 1i64, z: 1i64 });
    assert(p[35] == Vec3 { x: -1i64, y: -1i64, z: -1i64 });
    assert forall|k: int, c: Vec3| 0 <= k < 6 && #[trigger] is_face_corner(c, k)
        implies exists|i: int| 6 * k <= i < 6 * k + 6 && p[i] == c by {
        let base = 6 * k;
        if c == p[base] {
        } else if c == p[base + 1] {
        } else if c == p[base + 2] {
        } else if c == p[base + 3] {
        } else if c == p[base + 4] {
        } else {
            assert(c == p[base + 5]);
        }
    }
}

} // verus!
