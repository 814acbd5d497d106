use vstd::prelude::*;

verus! {

/// Euler angles in radians, one for each axis.
#[derive(Debug, Clone, PartialEq)]
pub struct Rotation<T> {
    /// Angle about the X axis.
    pub x: T,
    /// Angle about the Y axis.
    pub y: T,
    /// Angle about the Z axis.
    pub z: T,
}

impl<T> Rotation<T> {
    /// Builds a rotation from its three angles.
    pub fn new(x: T, y: T, z: T) -> (r: Self)
        ensures
            r == (Rotation { x, y, z }),
    {
        Self { x, y, z }
    }
}

} // verus!
