use vstd::prelude::*;
use crate::engine::graphics::vec3::Vec3;

verus! {

/// A point in space together with its shade.
pub struct Point<T> {
    x: T,
    y: T,
    z: T,
    shading: u8,
}

impl<T> Point<T> {
    /// Where the point lies.
    pub closed spec fn position(self) -> Vec3<T> {
        Vec3 { x: self.x, y: self.y, z: self.z }
    }

    /// How bright the point is.
    pub closed spec fn shade(self) -> u8 {
        self.shading
    }

    /// Builds the point at `(x, y, z)` with the given shade.
    pub fn new(x: T, y: T, z: T, shading: u8) -> (p: Self)
        ensures
            p.position() == (Vec3 { x, y, z }),
            p.shade() == shading,
    {
        Self { x, y, z, shading }
    }
}

} // verus!
