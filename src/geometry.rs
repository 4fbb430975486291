use vstd::prelude::*;

verus! {

/// Tenths of a world unit in one world unit.
pub const TENTHS_PER_UNIT: i64 = 10;

/// A vector of three integer coordinates.
#[derive(Clone, Copy, Debug, PartialEq, Eq, Structural)]
pub struct Vec3 {
    pub x: i64,
    pub y: i64,
    pub z: i64,
}

/// The product of a vector and a factor, coordinate by coordinate.
pub open spec fn scaled(v: Vec3, k: int) -> (int, int, int) {
    (v.x * k, v.y * k, v.z * k)
}

/// Whether every coordinate of `v` times `k` fits in an `i64`.
pub open spec fn scale_fits(v: Vec3, k: int) -> bool {
    i64::MIN <= v.x * k <= i64::MAX
        && i64::MIN <= v.y * k <= i64::MAX
        && i64::MIN <= v.z * k <= i64::MAX
}

impl Vec3 {
    pub fn new(x: i64, y: i64, z: i64) -> (r: Vec3)
        ensures
            r == (Vec3 { x, y, z }),
    {
        Vec3 { x, y, z }
    }

    pub fn zero() -> (r: Vec3)
        ensures
            r == (Vec3 { x: 0, y: 0, z: 0 }),
    {
        Vec3 { x: 0, y: 0, z: 0 }
    }

    /// Multiplies every coordinate by `k`.
    pub fn scale(&self, k: i64) -> (r: Vec3)
        requires
            scale_fits(*self, k as int),
        ensures
            (r.x as int, r.y as int, r.z as int) == scaled(*self, k as int),
    {
        Vec3 { x: self.x * k, y: self.y * k, z: self.z * k }
    }
}

/// The shape of a collider.
#[derive(Clone, Copy, Debug, PartialEq, Eq, Structural)]
pub enum Shape {
    /// A box, given by its half-extents along each axis.
    Cuboid { half_extents: Vec3 },
    /// A capsule along the vertical axis: a cylinder of height
    /// `2 * half_height` capped by two half-spheres of `radius`.
    CapsuleY { half_height: i64, radius: i64 },
}

/// The shape of a visible mesh.
#[derive(Clone, Copy, Debug, PartialEq, Eq, Structural)]
pub enum MeshShape {
    /// A box, given by its full size along each axis.
    Cuboid { size: Vec3 },
    /// A vertical capsule, given by its radius and the full length of its
    /// cylindrical part.
    Capsule { radius: i64, length: i64 },
}

/// The distance from the centre of a shape to its lowest point.
pub open spec fn depth_below_center(s: Shape) -> int {
    match s {
        Shape::Cuboid { half_extents } => half_extents.y as int,
        Shape::CapsuleY { half_height, radius } => half_height + radius,
    }
}

/// Whether a collider covers exactly the volume of a mesh: the collider's
/// half-extents (or half-height) are half of the mesh's full dimensions.
pub open spec fn collider_matches_mesh(c: Shape, m: MeshShape) -> bool {
    match (c, m) {
        (Shape::Cuboid { half_extents: h }, MeshShape::Cuboid { size: s }) =>
            2 * h.x == s.x && 2 * h.y == s.y && 2 * h.z == s.z,
        (Shape::CapsuleY { half_height, radius: r1 }, MeshShape::Capsule { radius: r2, length }) =>
            r1 == r2 && 2 * half_height == length,
        _ => false,
    }
}

} // verus!
