//! Exact integer and rational linear algebra for the cube-face projection.
use vstd::prelude::*;

verus! {

/// A three-component integer vector.
#[derive(Clone, Copy, Debug, PartialEq, Eq, Structural)]
pub struct Vec3 {
    pub x: i64,
    pub y: i64,
    pub z: i64,
}

/// A four-component integer vector (homogeneous coordinates).
#[derive(Clone, Copy, Debug, PartialEq, Eq, Structural)]
pub struct Vec4 {
    pub x: i64,
    pub y: i64,
    pub z: i64,
    pub w: i64,
}

/// A 4x4 integer matrix, stored row by row.
#[derive(Clone, Copy, Debug, PartialEq, Eq, Structural)]
pub struct Mat4 {
    pub r0: Vec4,
    pub r1: Vec4,
    pub r2: Vec4,
    pub r3: Vec4,
}

/// The vector `(x, y, z)`.
pub open spec fn vec3(x: int, y: int, z: int) -> Vec3 {
    Vec3 { x: x as i64, y: y as i64, z: z as i64 }
}

/// The vector `(x, y, z, w)`.
pub open spec fn vec4(x: int, y: int, z: int, w: int) -> Vec4 {
    Vec4 { x: x as i64, y: y as i64, z: z as i64, w: w as i64 }
}

/// The cross product `a x b`.
pub open spec fn cross(a: Vec3, b: Vec3) -> Vec3 {
    vec3(a.y * b.z - a.z * b.y, a.z * b.x - a.x * b.z, a.x * b.y - a.y * b.x)
}

/// The dot product of two 4-vectors.
pub open spec fn dot4(a: Vec4, b: Vec4) -> int {
    a.x * b.x + a.y * b.y + a.z * b.z + a.w * b.w
}

/// Row `i` of `m`.
pub open spec fn row(m: Mat4, i: int) -> Vec4 {
    if i == 0 { m.r0 } else if i == 1 { m.r1 } else if i == 2 { m.r2 } else { m.r3 }
}

/// Column `j` of `m`.
pub open spec fn col(m: Mat4, j: int) -> Vec4 {
    Vec4 { x: at(m.r0, j), y: at(m.r1, j), z: at(m.r2, j), w: at(m.r3, j) }
}

/// Component `j` of `v`.
pub open spec fn at(v: Vec4, j: int) -> i64 {
    if j == 0 { v.x } else if j == 1 { v.y } else if j == 2 { v.z } else { v.w }
}

/// Entry `(i, j)` of `m`.
pub open spec fn entry(m: Mat4, i: int, j: int) -> i64 {
    at(row(m, i), j)
}

/// Entry `(i, j)` of the product `a * b`, as an unbounded integer.
pub open spec fn product_entry(a: Mat4, b: Mat4, i: int, j: int) -> int {
    dot4(row(a, i), col(b, j))
}

/// `m * v` for a homogeneous vector `v`.
pub open spec fn apply(m: Mat4, v: Vec4) -> Seq<int> {
    seq![dot4(m.r0, v), dot4(m.r1, v), dot4(m.r2, v), dot4(m.r3, v)]
}

/// Every entry of `m` is -1, 0 or 1.
pub open spec fn is_sign_matrix(m: Mat4) -> bool {
    forall|i: int, j: int| 0 <= i < 4 && 0 <= j < 4 ==> -1 <= #[trigger] entry(m, i, j) <= 1
}

/// Every entry of `m` is at most `bound` in absolute value.
pub open spec fn is_bounded(m: Mat4, bound: int) -> bool {
    forall|i: int, j: int| 0 <= i < 4 && 0 <= j < 4 ==> -bound <= #[trigger] entry(m, i, j) <= bound
}

/// The largest entry size that `mul_sign` accepts on its left.
pub const ENTRY_LIMIT: i64 = 0x1000_0000_0000_0000;

/// The cross product of two integer vectors with coordinates in [-1, 1].
pub fn cross3(a: Vec3, b: Vec3) -> (r: Vec3)
    requires
        -1 <= a.x <= 1, -1 <= a.y <= 1, -1 <= a.z <= 1,
        -1 <= b.x <= 1, -1 <= b.y <= 1, -1 <= b.z <= 1,
    ensures
        r == cross(a, b),
{
    assert(-1 <= a.y * b.z <= 1 && -1 <= a.z * b.y <= 1) by (nonlinear_arith)
        requires -1 <= a.y <= 1, -1 <= a.z <= 1, -1 <= b.y <= 1, -1 <= b.z <= 1;
    assert(-1 <= a.z * b.x <= 1 && -1 <= a.x * b.z <= 1) by (nonlinear_arith)
        requires -1 <= a.x <= 1, -1 <= a.z <= 1, -1 <= b.x <= 1, -1 <= b.z <= 1;
    assert(-1 <= a.x * b.y <= 1 && -1 <= a.y * b.x <= 1) by (nonlinear_arith)
        requires -1 <= a.x <= 1, -1 <= a.y <= 1, -1 <= b.x <= 1, -1 <= b.y <= 1;
    Vec3 { x: a.y * b.z - a.z * b.y, y: a.z * b.x - a.x * b.z, z: a.x * b.y - a.y * b.x }
}

proof fn lemma_sign_product(a: int, s: int, bound: int)
    requires
        -bound <= a <= bound,
        -1 <= s <= 1,
    ensures
        -bound <= a * s <= bound,
        s == 0 ==> a * s == 0,
        s == 1 ==> a * s == a,
        s == -1 ==> a * s == -a,
{
    if s == 0 {
    } else if s == 1 {
    } else {
        assert(s == -1);
    }
}

/// Dot product of a bounded row with a column of signs.
fn dot_sign(a: Vec4, s: Vec4) -> (r: i64)
    requires
        -ENTRY_LIMIT <= a.x <= ENTRY_LIMIT, -ENTRY_LIMIT <= a.y <= ENTRY_LIMIT,
        -ENTRY_LIMIT <= a.z <= ENTRY_LIMIT, -ENTRY_LIMIT <= a.w <= ENTRY_LIMIT,
        -1 <= s.x <= 1, -1 <= s.y <= 1, -1 <= s.z <= 1, -1 <= s.w <= 1,
    ensures
        r == dot4(a, s),
{
    proof {
        lemma_sign_product(a.x as int, s.x as int, ENTRY_LIMIT as int);
        lemma_sign_product(a.y as int, s.y as int, ENTRY_LIMIT as int);
        lemma_sign_product(a.z as int, s.z as int, ENTRY_LIMIT as int);
        lemma_sign_product(a.w as int, s.w as int, ENTRY_LIMIT as int);
    }
    a.x * s.x + a.y * s.y + a.z * s.z + a.w * s.w
}

fn column(m: Mat4, j: usize) -> (r: Vec4)
    requires
        j < 4,
    ensures
        r == col(m, j as int),
{
    if j == 0 {
        Vec4 { x: m.r0.x, y: m.r1.x, z: m.r2.x, w: m.r3.x }
    } else if j == 1 {
        Vec4 { x: m.r0.y, y: m.r1.y, z: m.r2.y, w: m.r3.y }
    } else if j == 2 {
        Vec4 { x: m.r0.z, y: m.r1.z, z: m.r2.z, w: m.r3.z }
    } else {
        Vec4 { x: m.r0.w, y: m.r1.w, z: m.r2.w, w: m.r3.w }
    }
}

/// The product `a * s` where every entry of `s` is -1, 0 or 1.
pub fn mul_sign(a: Mat4, s: Mat4) -> (r: Mat4)
    requires
        is_bounded(a, ENTRY_LIMIT as int),
        is_sign_matrix(s),
    ensures
        forall|i: int, j: int| 0 <= i < 4 && 0 <= j < 4 ==> #[trigger] entry(r, i, j) == product_entry(a, s, i, j),
{
    assert(entry(a, 0, 0) == a.r0.x && entry(a, 0, 1) == a.r0.y && entry(a, 0, 2) == a.r0.z && entry(a, 0, 3) == a.r0.w);
    assert(entry(a, 1, 0) == a.r1.x && entry(a, 1, 1) == a.r1.y && entry(a, 1, 2) == a.r1.z && entry(a, 1, 3) == a.r1.w);
    assert(entry(a, 2, 0) == a.r2.x && entry(a, 2, 1) == a.r2.y && entry(a, 2, 2) == a.r2.z && entry(a, 2, 3) == a.r2.w);
    assert(entry(a, 3, 0) == a.r3.x && entry(a, 3, 1) == a.r3.y && entry(a, 3, 2) == a.r3.z && entry(a, 3, 3) == a.r3.w);
    assert(entry(s, 0, 0) == s.r0.x && entry(s, 0, 1) == s.r0.y && entry(s, 0, 2) == s.r0.z && entry(s, 0, 3) == s.r0.w);
    assert(entry(s, 1, 0) == s.r1.x && entry(s, 1, 1) == s.r1.y && entry(s, 1, 2) == s.r1.z && entry(s, 1, 3) == s.r1.w);
    assert(entry(s, 2, 0) == s.r2.x && entry(s, 2, 1) == s.r2.y && entry(s, 2, 2) == s.r2.z && entry(s, 2, 3) == s.r2.w);
    assert(entry(s, 3, 0) == s.r3.x && entry(s, 3, 1) == s.r3.y && entry(s, 3, 2) == s.r3.z && entry(s, 3, 3) == s.r3.w);
    let c0 = column(s, 0);
    let c1 = column(s, 1);
    let c2 = column(s, 2);
    let c3 = column(s, 3);
    assert(row(a, 0) == a.r0 && row(a, 1) == a.r1 && row(a, 2) == a.r2 && row(a, 3) == a.r3);
    let r = Mat4 {
        r0: Vec4 { x: dot_sign(a.r0, c0), y: dot_sign(a.r0, c1), z: dot_sign(a.r0, c2), w: dot_sign(a.r0, c3) },
        r1: Vec4 { x: dot_sign(a.r1, c0), y: dot_sign(a.r1, c1), z: dot_sign(a.r1, c2), w: dot_sign(a.r1, c3) },
        r2: Vec4 { x: dot_sign(a.r2, c0), y: dot_sign(a.r2, c1), z: dot_sign(a.r2, c2), w: dot_sign(a.r2, c3) },
        r3: Vec4 { x: dot_sign(a.r3, c0), y: dot_sign(a.r3, c1), z: dot_sign(a.r3, c2), w: dot_sign(a.r3, c3) },
    };
    r
}

} // verus!
