//! Integer vectors in two and three dimensions.
use vstd::prelude::*;

verus! {

/// Whether `v` is a value of `i64`.
pub open spec fn fits_i64(v: int) -> bool {
    i64::MIN <= v <= i64::MAX
}

/// A point or offset on the horizontal plane.
#[derive(Clone, Copy, PartialEq, Eq, Structural, Debug)]
pub struct Vec2 {
    pub x: i64,
    pub y: i64,
}

/// A point or offset in space.
#[derive(Clone, Copy, PartialEq, Eq, Structural, Debug)]
pub struct Vec3 {
    pub x: i64,
    pub y: i64,
    pub z: i64,
}

impl Vec2 {
    pub fn new(x: i64, y: i64) -> (r: Self)
        ensures
            r.x == x,
            r.y == y,
    {
        Vec2 { x, y }
    }

    /// Component-wise sum, when it fits in `i64`.
    pub fn add(self, o: Self) -> (r: Self)
        requires
            fits_i64(self.x + o.x),
            fits_i64(self.y + o.y),
        ensures
            r.x == self.x + o.x,
            r.y == self.y + o.y,
    {
        Vec2 { x: self.x + o.x, y: self.y + o.y }
    }

    /// Component-wise difference, when it fits in `i64`.
    pub fn sub(self, o: Self) -> (r: Self)
        requires
            fits_i64(self.x - o.x),
            fits_i64(self.y - o.y),
        ensures
            r.x == self.x - o.x,
            r.y == self.y - o.y,
    {
        Vec2 { x: self.x - o.x, y: self.y - o.y }
    }
}

impl Vec3 {
    pub fn new(x: i64, y: i64, z: i64) -> (r: Self)
        ensures
            r.x == x,
            r.y == y,
            r.z == z,
    {
        Vec3 { x, y, z }
    }

    /// The horizontal part of this vector.
    pub fn xy(self) -> (r: Vec2)
        ensures
            r.x == self.x,
            r.y == self.y,
    {
        Vec2 { x: self.x, y: self.y }
    }
}

} // verus!
