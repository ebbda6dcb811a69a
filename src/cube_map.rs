//! The six faces of a cube map, and the view and projection used to render
//! into each of them.
//!
//! Face convention (the one cube-map sampling uses): each face looks along
//! one axis from the origin, with a fixed up vector.
//!
//! | face   | looks toward | up         |
//! |--------|--------------|------------|
//! | Right  | (1, 0, 0)    | (0, -1, 0) |
//! | Left   | (-1, 0, 0)   | (0, -1, 0) |
//! | Top    | (0, 1, 0)    | (0, 0, 1)  |
//! | Bottom | (0, -1, 0)   | (0, 0, -1) |
//! | Front  | (0, 0, 1)    | (0, -1, 0) |
//! | Back   | (0, 0, -1)   | (0, -1, 0) |
use vstd::prelude::*;
use crate::gpu::Viewport;
use crate::math::{
    apply, at, cross, cross3, entry, is_bounded, is_sign_matrix, mul_sign, product_entry, vec3, vec4, Mat4, Vec3, Vec4,
    ENTRY_LIMIT,
};

verus! {

/// One face of a cube map.
#[derive(Clone, Copy, Debug, PartialEq, Eq, Structural)]
pub enum CubeMapSide {
    Right,
    Left,
    Top,
    Bottom,
    Front,
    Back,
}

/// The direction a face looks toward.
pub open spec fn look_direction(side: CubeMapSide) -> Vec3 {
    match side {
        CubeMapSide::Right => vec3(1, 0, 0),
        CubeMapSide::Left => vec3(-1, 0, 0),
        CubeMapSide::Top => vec3(0, 1, 0),
        CubeMapSide::Bottom => vec3(0, -1, 0),
        CubeMapSide::Front => vec3(0, 0, 1),
        CubeMapSide::Back => vec3(0, 0, -1),
    }
}

/// The up vector of a face.
pub open spec fn up_direction(side: CubeMapSide) -> Vec3 {
    match side {
        CubeMapSide::Top => vec3(0, 0, 1),
        CubeMapSide::Bottom => vec3(0, 0, -1),
        _ => vec3(0, -1, 0),
    }
}

/// The direction `v` as a homogeneous vector.
pub open spec fn direction4(v: Vec3) -> Vec4 {
    Vec4 { x: v.x, y: v.y, z: v.z, w: 0 }
}

/// The right-handed view matrix of a camera at the origin looking along `f`
/// with up vector `up`: its rows are `s = f x up`, `u = s x f` and `-f`.
pub open spec fn look_at(f: Vec3, up: Vec3) -> Mat4 {
    let s = cross(f, up);
    let u = cross(s, f);
    Mat4 {
        r0: Vec4 { x: s.x, y: s.y, z: s.z, w: 0 },
        r1: Vec4 { x: u.x, y: u.y, z: u.z, w: 0 },
        r2: vec4(-f.x, -f.y, -f.z, 0),
        r3: Vec4 { x: 0, y: 0, z: 0, w: 1 },
    }
}

/// The view matrix of a face.
pub open spec fn face_view(side: CubeMapSide) -> Mat4 {
    look_at(look_direction(side), up_direction(side))
}

/// The numerators of the 90 degree perspective projection for `viewport`,
/// near plane 1/10 and far plane 10, over the denominator `projection_denom`.
///
/// With aspect ratio `a = width / height` the projection is
/// `[1/a, 0, 0, 0; 0, 1, 0, 0; 0, 0, -101/99, -20/99; 0, 0, -1, 0]`,
/// which is the matrix below divided by `99 * width`.
pub open spec fn projection(viewport: Viewport) -> Mat4 {
    let w = viewport.width as int;
    let h = viewport.height as int;
    Mat4 {
        r0: vec4(99 * h, 0, 0, 0),
        r1: vec4(0, 99 * w, 0, 0),
        r2: vec4(0, 0, -101 * w, -20 * w),
        r3: vec4(0, 0, -99 * w, 0),
    }
}

/// The common denominator of the projection's entries. A viewport without
/// width has no aspect ratio, and then this is zero.
pub open spec fn projection_denom(viewport: Viewport) -> int {
    99 * viewport.width
}

/// A rational matrix: every entry of `numer` divided by `denom`.
#[derive(Clone, Copy, Debug, PartialEq, Eq, Structural)]
pub struct ViewProjection {
    pub numer: Mat4,
    pub denom: i64,
}

/// `viewProjection = projection * view` for a face seen through `viewport`.
pub open spec fn is_view_projection(m: ViewProjection, side: CubeMapSide, viewport: Viewport) -> bool {
    &&& m.denom == projection_denom(viewport)
    &&& forall|i: int, j: int| 0 <= i < 4 && 0 <= j < 4
        ==> #[trigger] entry(m.numer, i, j) == product_entry(projection(viewport), face_view(side), i, j)
}

proof fn lemma_entries(m: Mat4)
    ensures
        forall|i: int, j: int| 0 <= i < 4 && 0 <= j < 4 ==> #[trigger] entry(m, i, j) == (
            if i == 0 { at(m.r0, j) } else if i == 1 { at(m.r1, j) } else if i == 2 { at(m.r2, j) } else { at(m.r3, j) }),
{
}

/// The right-hand direction of a face: `look x up`.
pub open spec fn right_direction(side: CubeMapSide) -> Vec3 {
    match side {
        CubeMapSide::Right => vec3(0, 0, -1),
        CubeMapSide::Left => vec3(0, 0, 1),
        CubeMapSide::Back => vec3(-1, 0, 0),
        _ => vec3(1, 0, 0),
    }
}

/// Each face's look, up and right directions form a right-handed frame.
proof fn lemma_face_frame(side: CubeMapSide)
    ensures
        cross(look_direction(side), up_direction(side)) == right_direction(side),
        cross(right_direction(side), look_direction(side)) == up_direction(side),
{
    match side {
        CubeMapSide::Right => {
            assert(cross(look_direction(side), up_direction(side)) == right_direction(side)
                && cross(right_direction(side), look_direction(side)) == up_direction(side)) by (nonlinear_arith)
                requires side == CubeMapSide::Right;
        },
        CubeMapSide::Left => {
            assert(cross(look_direction(side), up_direction(side)) == right_direction(side)
                && cross(right_direction(side), look_direction(side)) == up_direction(side)) by (nonlinear_arith)
                requires side == CubeMapSide::Left;
        },
        CubeMapSide::Top => {
            assert(cross(look_direction(side), up_direction(side)) == right_direction(side)
                && cross(right_direction(side), look_direction(side)) == up_direction(side)) by (nonlinear_arith)
                requires side == CubeMapSide::Top;
        },
        CubeMapSide::Bottom => {
            assert(cross(look_direction(side), up_direction(side)) == right_direction(side)
                && cross(right_direction(side), look_direction(side)) == up_direction(side)) by (nonlinear_arith)
                requires side == CubeMapSide::Bottom;
        },
        CubeMapSide::Front => {
            assert(cross(look_direction(side), up_direction(side)) == right_direction(side)
                && cross(right_direction(side), look_direction(side)) == up_direction(side)) by (nonlinear_arith)
                requires side == CubeMapSide::Front;
        },
        CubeMapSide::Back => {
            assert(cross(look_direction(side), up_direction(side)) == right_direction(side)
                && cross(right_direction(side), look_direction(side)) == up_direction(side)) by (nonlinear_arith)
                requires side == CubeMapSide::Back;
        },
    }
}

proof fn lemma_sign_matrix(m: Mat4)
    requires
        -1 <= m.r0.x <= 1, -1 <= m.r0.y <= 1, -1 <= m.r0.z <= 1, -1 <= m.r0.w <= 1,
        -1 <= m.r1.x <= 1, -1 <= m.r1.y <= 1, -1 <= m.r1.z <= 1, -1 <= m.r1.w <= 1,
        -1 <= m.r2.x <= 1, -1 <= m.r2.y <= 1, -1 <= m.r2.z <= 1, -1 <= m.r2.w <= 1,
        -1 <= m.r3.x <= 1, -1 <= m.r3.y <= 1, -1 <= m.r3.z <= 1, -1 <= m.r3.w <= 1,
    ensures
        is_sign_matrix(m),
{
    lemma_entries(m);
}

impl CubeMapSide {
    /// The direction this face looks toward.
    pub fn direction(self) -> (r: Vec3)
        ensures
            r == look_direction(self),
    {
        match self {
            CubeMapSide::Right => Vec3 { x: 1, y: 0, z: 0 },
            CubeMapSide::Left => Vec3 { x: -1, y: 0, z: 0 },
            CubeMapSide::Top => Vec3 { x: 0, y: 1, z: 0 },
            CubeMapSide::Bottom => Vec3 { x: 0, y: -1, z: 0 },
            CubeMapSide::Front => Vec3 { x: 0, y: 0, z: 1 },
            CubeMapSide::Back => Vec3 { x: 0, y: 0, z: -1 },
        }
    }

    /// The up vector of this face.
    pub fn up(self) -> (r: Vec3)
        ensures
            r == up_direction(self),
    {
        match self {
            CubeMapSide::Top => Vec3 { x: 0, y: 0, z: 1 },
            CubeMapSide::Bottom => Vec3 { x: 0, y: 0, z: -1 },
            _ => Vec3 { x: 0, y: -1, z: 0 },
        }
    }

    /// The view matrix of this face.
    pub fn view(self) -> (r: Mat4)
        ensures
            r == face_view(self),
            is_sign_matrix(r),
    {
        let f = self.direction();
        let up = self.up();
        proof {
            lemma_face_frame(self);
        }
        let s = cross3(f, up);
        let u = cross3(s, f);
        let r = Mat4 {
            r0: Vec4 { x: s.x, y: s.y, z: s.z, w: 0 },
            r1: Vec4 { x: u.x, y: u.y, z: u.z, w: 0 },
            r2: Vec4 { x: -f.x, y: -f.y, z: -f.z, w: 0 },
            r3: Vec4 { x: 0, y: 0, z: 0, w: 1 },
        };
        proof {
            lemma_sign_matrix(r);
        }
        r
    }
}

/// The numerators of the projection for `viewport`.
pub fn perspective(viewport: Viewport) -> (r: Mat4)
    ensures
        r == projection(viewport),
        is_bounded(r, ENTRY_LIMIT as int),
{
    let w = viewport.width as i64;
    let h = viewport.height as i64;
    assert(0 <= w <= 0xffff_ffff && 0 <= h <= 0xffff_ffff);
    let r = Mat4 {
        r0: Vec4 { x: 99 * h, y: 0, z: 0, w: 0 },
        r1: Vec4 { x: 0, y: 99 * w, z: 0, w: 0 },
        r2: Vec4 { x: 0, y: 0, z: -(101 * w), w: -(20 * w) },
        r3: Vec4 { x: 0, y: 0, z: -(99 * w), w: 0 },
    };
    proof {
        lemma_entries(r);
    }
    r
}

/// `projection * view` for a face seen through `viewport`.
pub fn view_projection(side: CubeMapSide, viewport: Viewport) -> (r: ViewProjection)
    ensures
        is_view_projection(r, side, viewport),
{
    let p = perspective(viewport);
    let v = side.view();
    let numer = mul_sign(p, v);
    ViewProjection { numer, denom: 99 * (viewport.width as i64) }
}

/// Every face looks the way its convention says: the face's view matrix takes
/// its look direction to the camera's forward axis `(0, 0, -1)`, its up vector
/// to `(0, 1, 0)` and its right direction to `(1, 0, 0)`; and through the
/// projection the look direction lands in the centre of the face (clip-space
/// `x` and `y` are zero, `w` is positive for any viewport with width).
pub proof fn lemma_face_orientation(side: CubeMapSide, viewport: Viewport, m: ViewProjection)
    requires
        is_view_projection(m, side, viewport),
    ensures
        apply(face_view(side), direction4(look_direction(side))) == seq![0int, 0, -1, 0],
        apply(face_view(side), direction4(up_direction(side))) == seq![0int, 1, 0, 0],
        apply(face_view(side), direction4(right_direction(side))) == seq![1int, 0, 0, 0],
        apply(m.numer, direction4(look_direction(side)))
            == seq![0int, 0, 101 * viewport.width, 99 * viewport.width],
{
    lemma_face_frame(side);
    let l = direction4(look_direction(side));
    assert forall|i: int, j: int| 0 <= i < 4 && 0 <= j < 4 implies #[trigger] entry(m.numer, i, j)
        == product_entry(projection(viewport), face_view(side), i, j) by {}
    match side {
        CubeMapSide::Right => {
            assert(apply(face_view(side), l) =~= seq![0int, 0, -1, 0]
                && apply(face_view(side), direction4(up_direction(side))) =~= seq![0int, 1, 0, 0]
                && apply(face_view(side), direction4(right_direction(side))) =~= seq![1int, 0, 0, 0]
                && apply(m.numer, l) =~= seq![0int, 0, 101 * viewport.width, 99 * viewport.width])
                by (nonlinear_arith)
                requires
                    side == CubeMapSide::Right,
                    l == direction4(look_direction(side)),
                    entry(m.numer, 0, 0) == product_entry(projection(viewport), face_view(side), 0, 0),
                    entry(m.numer, 0, 1) == product_entry(projection(viewport), face_view(side), 0, 1),
                    entry(m.numer, 0, 2) == product_entry(projection(viewport), face_view(side), 0, 2),
                    entry(m.numer, 1, 0) == product_entry(projection(viewport), face_view(side), 1, 0),
                    entry(m.numer, 1, 1) == product_entry(projection(viewport), face_view(side), 1, 1),
                    entry(m.numer, 1, 2) == product_entry(projection(viewport), face_view(side), 1, 2),
                    entry(m.numer, 2, 0) == product_entry(projection(viewport), face_view(side), 2, 0),
                    entry(m.numer, 2, 1) == product_entry(projection(viewport), face_view(side), 2, 1),
                    entry(m.numer, 2, 2) == product_entry(projection(viewport), face_view(side), 2, 2),
                    entry(m.numer, 3, 0) == product_entry(projection(viewport), face_view(side), 3, 0),
                    entry(m.numer, 3, 1) == product_entry(projection(viewport), face_view(side), 3, 1),
                    entry(m.numer, 3, 2) == product_entry(projection(viewport), face_view(side), 3, 2),
            ;
        },
        CubeMapSide::Left => {
            assert(apply(face_view(side), l) =~= seq![0int, 0, -1, 0]
                && apply(face_view(side), direction4(up_direction(side))) =~= seq![0int, 1, 0, 0]
                && apply(face_view(side), direction4(right_direction(side))) =~= seq![1int, 0, 0, 0]
                && apply(m.numer, l) =~= seq![0int, 0, 101 * viewport.width, 99 * viewport.width])
                by (nonlinear_arith)
                requires
                    side == CubeMapSide::Left,
                    l == direction4(look_direction(side)),
                    entry(m.numer, 0, 0) == product_entry(projection(viewport), face_view(side), 0, 0),
                    entry(m.numer, 0, 1) == product_entry(projection(viewport), face_view(side), 0, 1),
                    entry(m.numer, 0, 2) == product_entry(projection(viewport), face_view(side), 0, 2),
                    entry(m.numer, 1, 0) == product_entry(projection(viewport), face_view(side), 1, 0),
                    entry(m.numer, 1, 1) == product_entry(projection(viewport), face_view(side), 1, 1),
                    entry(m.numer, 1, 2) == product_entry(projection(viewport), face_view(side), 1, 2),
                    entry(m.numer, 2, 0) == product_entry(projection(viewport), face_view(side), 2, 0),
                    entry(m.numer, 2, 1) == product_entry(projection(viewport), face_view(side), 2, 1),
                    entry(m.numer, 2, 2) == product_entry(projection(viewport), face_view(side), 2, 2),
                    entry(m.numer, 3, 0) == product_entry(projection(viewport), face_view(side), 3, 0),
                    entry(m.numer, 3, 1) == product_entry(projection(viewport), face_view(side), 3, 1),
                    entry(m.numer, 3, 2) == product_entry(projection(viewport), face_view(side), 3, 2),
            ;
        },
        CubeMapSide::Top => {
            assert(apply(face_view(side), l) =~= seq![0int, 0, -1, 0]
                && apply(face_view(side), direction4(up_direction(side))) =~= seq![0int, 1, 0, 0]
                && apply(face_view(side), direction4(right_direction(side))) =~= seq![1int, 0, 0, 0]
                && apply(m.numer, l) =~= seq![0int, 0, 101 * viewport.width, 99 * viewport.width])
                by (nonlinear_arith)
                requires
                    side == CubeMapSide::Top,
                    l == direction4(look_direction(side)),
                    entry(m.numer, 0, 0) == product_entry(projection(viewport), face_view(side), 0, 0),
                    entry(m.numer, 0, 1) == product_entry(projection(viewport), face_view(side), 0, 1),
                    entry(m.numer, 0, 2) == product_entry(projection(viewport), face_view(side), 0, 2),
                    entry(m.numer, 1, 0) == product_entry(projection(viewport), face_view(side), 1, 0),
                    entry(m.numer, 1, 1) == product_entry(projection(viewport), face_view(side), 1, 1),
                    entry(m.numer, 1, 2) == product_entry(projection(viewport), face_view(side), 1, 2),
                    entry(m.numer, 2, 0) == product_entry(projection(viewport), face_view(side), 2, 0),
                    entry(m.numer, 2, 1) == product_entry(projection(viewport), face_view(side), 2, 1),
                    entry(m.numer, 2, 2) == product_entry(projection(viewport), face_view(side), 2, 2),
                    entry(m.numer, 3, 0) == product_entry(projection(viewport), face_view(side), 3, 0),
                    entry(m.numer, 3, 1) == product_entry(projection(viewport), face_view(side), 3, 1),
                    entry(m.numer, 3, 2) == product_entry(projection(viewport), face_view(side), 3, 2),
            ;
        },
        CubeMapSide::Bottom => {
            assert(apply(face_view(side), l) =~= seq![0int, 0, -1, 0]
                && apply(face_view(side), direction4(up_direction(side))) =~= seq![0int, 1, 0, 0]
                && apply(face_view(side), direction4(right_direction(side))) =~= seq![1int, 0, 0, 0]
                && apply(m.numer, l) =~= seq![0int, 0, 101 * viewport.width, 99 * viewport.width])
                by (nonlinear_arith)
                requires
                    side == CubeMapSide::Bottom,
                    l == direction4(look_direction(side)),
                    entry(m.numer, 0, 0) == product_entry(projection(viewport), face_view(side), 0, 0),
                    entry(m.numer, 0, 1) == product_entry(projection(viewport), face_view(side), 0, 1),
                    entry(m.numer, 0, 2) == product_entry(projection(viewport), face_view(side), 0, 2),
                    entry(m.numer, 1, 0) == product_entry(projection(viewport), face_view(side), 1, 0),
                    entry(m.numer, 1, 1) == product_entry(projection(viewport), face_view(side), 1, 1),
                    entry(m.numer, 1, 2) == product_entry(projection(viewport), face_view(side), 1, 2),
                    entry(m.numer, 2, 0) == product_entry(projection(viewport), face_view(side), 2, 0),
                    entry(m.numer, 2, 1) == product_entry(projection(viewport), face_view(side), 2, 1),
                    entry(m.numer, 2, 2) == product_entry(projection(viewport), face_view(side), 2, 2),
                    entry(m.numer, 3, 0) == product_entry(projection(viewport), face_view(side), 3, 0),
                    entry(m.numer, 3, 1) == product_entry(projection(viewport), face_view(side), 3, 1),
                    entry(m.numer, 3, 2) == product_entry(projection(viewport), face_view(side), 3, 2),
            ;
        },
        CubeMapSide::Front => {
            assert(apply(face_view(side), l) =~= seq![0int, 0, -1, 0]
                && apply(face_view(side), direction4(up_direction(side))) =~= seq![0int, 1, 0, 0]
                && apply(face_view(side), direction4(right_direction(side))) =~= seq![1int, 0, 0, 0]
                && apply(m.numer, l) =~= seq![0int, 0, 101 * viewport.width, 99 * viewport.width])
                by (nonlinear_arith)
                requires
                    side == CubeMapSide::Front,
                    l == direction4(look_direction(side)),
                    entry(m.numer, 0, 0) == product_entry(projection(viewport), face_view(side), 0, 0),
                    entry(m.numer, 0, 1) == product_entry(projection(viewport), face_view(side), 0, 1),
                    entry(m.numer, 0, 2) == product_entry(projection(viewport), face_view(side), 0, 2),
                    entry(m.numer, 1, 0) == product_entry(projection(viewport), face_view(side), 1, 0),
                    entry(m.numer, 1, 1) == product_entry(projection(viewport), face_view(side), 1, 1),
                    entry(m.numer, 1, 2) == product_entry(projection(viewport), face_view(side), 1, 2),
                    entry(m.numer, 2, 0) == product_entry(projection(viewport), face_view(side), 2, 0),
                    entry(m.numer, 2, 1) == product_entry(projection(viewport), face_view(side), 2, 1),
                    entry(m.numer, 2, 2) == product_entry(projection(viewport), face_view(side), 2, 2),
                    entry(m.numer, 3, 0) == product_entry(projection(viewport), face_view(side), 3, 0),
                    entry(m.numer, 3, 1) == product_entry(projection(viewport), face_view(side), 3, 1),
                    entry(m.numer, 3, 2) == product_entry(projection(viewport), face_view(side), 3, 2),
            ;
        },
        CubeMapSide::Back => {
            assert(apply(face_view(side), l) =~= seq![0int, 0, -1, 0]
                && apply(face_view(side), direction4(up_direction(side))) =~= seq![0int, 1, 0, 0]
                && apply(face_view(side), direction4(right_direction(side))) =~= seq![1int, 0, 0, 0]
                && apply(m.numer, l) =~= seq![0int, 0, 101 * viewport.width, 99 * viewport.width])
                by (nonlinear_arith)
                requires
                    side == CubeMapSide::Back,
                    l == direction4(look_direction(side)),
                    entry(m.numer, 0, 0) == product_entry(projection(viewport), face_view(side), 0, 0),
                    entry(m.numer, 0, 1) == product_entry(projection(viewport), face_view(side), 0, 1),
                    entry(m.numer, 0, 2) == product_entry(projection(viewport), face_view(side), 0, 2),
                    entry(m.numer, 1, 0) == product_entry(projection(viewport), face_view(side), 1, 0),
                    entry(m.numer, 1, 1) == product_entry(projection(viewport), face_view(side), 1, 1),
                    entry(m.numer, 1, 2) == product_entry(projection(viewport), face_view(side), 1, 2),
                    entry(m.numer, 2, 0) == product_entry(projection(viewport), face_view(side), 2, 0),
                    entry(m.numer, 2, 1) == product_entry(projection(viewport), face_view(side), 2, 1),
                    entry(m.numer, 2, 2) == product_entry(projection(viewport), face_view(side), 2, 2),
                    entry(m.numer, 3, 0) == product_entry(projection(viewport), face_view(side), 3, 0),
                    entry(m.numer, 3, 1) == product_entry(projection(viewport), face_view(side), 3, 1),
                    entry(m.numer, 3, 2) == product_entry(projection(viewport), face_view(side), 3, 2),
            ;
        },
    }
}

/// The view-projection of a face and viewport is one matrix: two values that
/// both meet `is_view_projection` are equal.
pub proof fn lemma_view_projection_unique(a: ViewProjection, b: ViewProjection, side: CubeMapSide, viewport: Viewport)
    requires
        is_view_projection(a, side, viewport),
        is_view_projection(b, side, viewport),
    ensures
        a == b,
{
    assert(entry(a.numer, 0, 0) == entry(b.numer, 0, 0) && entry(a.numer, 0, 1) == entry(b.numer, 0, 1) && entry(a.numer, 0, 2) == entry(b.numer, 0, 2) && entry(a.numer, 0, 3) == entry(b.numer, 0, 3));
    assert(entry(a.numer, 1, 0) == entry(b.numer, 1, 0) && entry(a.numer, 1, 1) == entry(b.numer, 1, 1) && entry(a.numer, 1, 2) == entry(b.numer, 1, 2) && entry(a.numer, 1, 3) == entry(b.numer, 1, 3));
    assert(entry(a.numer, 2, 0) == entry(b.numer, 2, 0) && entry(a.numer, 2, 1) == entry(b.numer, 2, 1) && entry(a.numer, 2, 2) == entry(b.numer, 2, 2) && entry(a.numer, 2, 3) == entry(b.numer, 2, 3));
    assert(entry(a.numer, 3, 0) == entry(b.numer, 3, 0) && entry(a.numer, 3, 1) == entry(b.numer, 3, 1) && entry(a.numer, 3, 2) == entry(b.numer, 3, 2) && entry(a.numer, 3, 3) == entry(b.numer, 3, 3));
    assert(entry(a.numer, 0, 0) == a.numer.r0.x && entry(b.numer, 0, 0) == b.numer.r0.x && entry(a.numer, 0, 1) == a.numer.r0.y && entry(b.numer, 0, 1) == b.numer.r0.y && entry(a.numer, 0, 2) == a.numer.r0.z && entry(b.numer, 0, 2) == b.numer.r0.z && entry(a.numer, 0, 3) == a.numer.r0.w && entry(b.numer, 0, 3) == b.numer.r0.w);
    assert(entry(a.numer, 1, 0) == a.numer.r1.x && entry(b.numer, 1, 0) == b.numer.r1.x && entry(a.numer, 1, 1) == a.numer.r1.y && entry(b.numer, 1, 1) == b.numer.r1.y && entry(a.numer, 1, 2) == a.numer.r1.z && entry(b.numer, 1, 2) == b.numer.r1.z && entry(a.numer, 1, 3) == a.numer.r1.w && entry(b.numer, 1, 3) == b.numer.r1.w);
    assert(entry(a.numer, 2, 0) == a.numer.r2.x && entry(b.numer, 2, 0) == b.numer.r2.x && entry(a.numer, 2, 1) == a.numer.r2.y && entry(b.numer, 2, 1) == b.numer.r2.y && entry(a.numer, 2, 2) == a.numer.r2.z && entry(b.numer, 2, 2) == b.numer.r2.z && entry(a.numer, 2, 3) == a.numer.r2.w && entry(b.numer, 2, 3) == b.numer.r2.w);
    assert(entry(a.numer, 3, 0) == a.numer.r3.x && entry(b.numer, 3, 0) == b.numer.r3.x && entry(a.numer, 3, 1) == a.numer.r3.y && entry(b.numer, 3, 1) == b.numer.r3.y && entry(a.numer, 3, 2) == a.numer.r3.z && entry(b.numer, 3, 2) == b.numer.r3.z && entry(a.numer, 3, 3) == a.numer.r3.w && entry(b.numer, 3, 3) == b.numer.r3.w);
}

} // verus!
