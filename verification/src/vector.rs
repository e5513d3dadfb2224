//! Points and directions on the grid.

use vstd::prelude::*;

verus! {

/// Grid steps in one unit of length.
pub const UNIT: i64 = 1000;

/// Largest magnitude that a coordinate handed to the library may have.
pub const COORD_LIMIT: i64 = 100_000_000;

/// A point or a direction with whole-number coordinates of any size.
pub struct Point {
    pub x: int,
    pub y: int,
    pub z: int,
}

/// A point or a direction on the grid.
#[derive(Clone, Copy, Debug, PartialEq, Eq, Structural)]
pub struct Vector3 {
    pub x: i64,
    pub y: i64,
    pub z: i64,
}

/// A point of the grid with a fourth coordinate, the scale: a point in
/// space has scale `UNIT`.
#[derive(Clone, Copy, Debug, PartialEq, Eq, Structural)]
pub struct Vector4 {
    pub x: i64,
    pub y: i64,
    pub z: i64,
    pub w: i64,
}

impl Vector4 {
    /// The vector with the given coordinates.
    pub fn new(x: i64, y: i64, z: i64, w: i64) -> (v: Vector4)
        ensures
            v == (Vector4 { x, y, z, w }),
    {
        Vector4 { x, y, z, w }
    }
}

impl View for Vector3 {
    type V = Point;

    open spec fn view(&self) -> Point {
        Point { x: self.x as int, y: self.y as int, z: self.z as int }
    }
}

/// Whether `v` fits the 64-bit coordinates of a [`Vector3`].
pub open spec fn representable(v: Point) -> bool {
    &&& i64::MIN <= v.x <= i64::MAX
    &&& i64::MIN <= v.y <= i64::MAX
    &&& i64::MIN <= v.z <= i64::MAX
}

/// Whether every coordinate of `v` has magnitude at most `limit`.
pub open spec fn within(v: Point, limit: int) -> bool {
    &&& -limit <= v.x <= limit
    &&& -limit <= v.y <= limit
    &&& -limit <= v.z <= limit
}

/// The direction from `b` to `a`.
pub open spec fn difference(a: Point, b: Point) -> Point {
    Point { x: a.x - b.x, y: a.y - b.y, z: a.z - b.z }
}

/// The cross product `a` x `b`.
pub open spec fn cross_product(a: Point, b: Point) -> Point {
    Point {
        x: a.y * b.z - a.z * b.y,
        y: a.z * b.x - a.x * b.z,
        z: a.x * b.y - a.y * b.x,
    }
}

/// The dot product of `a` and `b`.
pub open spec fn dot_product(a: Point, b: Point) -> int {
    a.x * b.x + a.y * b.y + a.z * b.z
}

/// Whether the six products of a cross product of `a` and `b`, and the three
/// differences between them, fit 64 bits.
pub open spec fn cross_fits(a: Point, b: Point) -> bool {
    &&& fits(a.y * b.z) && fits(a.z * b.y) && fits(a.y * b.z - a.z * b.y)
    &&& fits(a.z * b.x) && fits(a.x * b.z) && fits(a.z * b.x - a.x * b.z)
    &&& fits(a.x * b.y) && fits(a.y * b.x) && fits(a.x * b.y - a.y * b.x)
}

/// Whether `n` is a 64-bit signed number.
pub open spec fn fits(n: int) -> bool {
    i64::MIN <= n <= i64::MAX
}

impl Vector3 {
    /// The vector with the given coordinates.
    pub fn new(x: i64, y: i64, z: i64) -> (v: Vector3)
        ensures
            v == (Vector3 { x, y, z }),
    {
        Vector3 { x, y, z }
    }
}

/// Whether `a + d` is a 64-bit signed number.
pub fn sum_fits(a: i64, d: i64) -> (ok: bool)
    ensures
        ok == fits(a + d),
{
    let sum: i128 = a as i128 + d as i128;
    i64::MIN as i128 <= sum && sum <= i64::MAX as i128
}

/// Whether `a - b` fits the coordinates of a [`Vector3`].
pub fn difference_fits(a: &Vector3, b: &Vector3) -> (ok: bool)
    ensures
        ok == representable(difference(a@, b@)),
{
    let dx: i128 = a.x as i128 - b.x as i128;
    let dy: i128 = a.y as i128 - b.y as i128;
    let dz: i128 = a.z as i128 - b.z as i128;
    i64::MIN as i128 <= dx && dx <= i64::MAX as i128 && i64::MIN as i128 <= dy && dy
        <= i64::MAX as i128 && i64::MIN as i128 <= dz && dz <= i64::MAX as i128
}

/// `a - b`, computed by `cgmath`'s `Sub` for `Vector3`: the difference of
/// each pair of coordinates.  Differences that leave 64 bits are excluded.
#[verifier::external_body]
pub(crate) fn sub_v(a: Vector3, b: Vector3) -> (r: Vector3)
    requires
        representable(difference(a@, b@)),
    ensures
        r@ == difference(a@, b@),
{
    let d = cgmath::Vector3::new(a.x, a.y, a.z) - cgmath::Vector3::new(b.x, b.y, b.z);
    Vector3 { x: d.x, y: d.y, z: d.z }
}

/// `a` x `b`, computed by `cgmath::Vector3::cross`: each coordinate is the
/// difference of two products of coordinates, as `cross_product` writes them.
/// Products and differences that leave 64 bits are excluded.
#[verifier::external_body]
pub(crate) fn cross(a: Vector3, b: Vector3) -> (r: Vector3)
    requires
        cross_fits(a@, b@),
    ensures
        r@ == cross_product(a@, b@),
{
    let c = cgmath::Vector3::new(a.x, a.y, a.z).cross(cgmath::Vector3::new(b.x, b.y, b.z));
    Vector3 { x: c.x, y: c.y, z: c.z }
}

} // verus!
