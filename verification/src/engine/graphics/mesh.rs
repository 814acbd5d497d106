use vstd::prelude::*;
use crate::engine::graphics::rotation::Rotation;
use crate::engine::graphics::triangle::Triangle;
use crate::engine::graphics::vec3::Vec3;
use crate::engine::math::scalar::constant;
use crate::engine::math::scalar::is_constant;
use crate::engine::math::scalar::Scalar;

verus! {

/// An object of the scene: its triangles and where it stands.
#[derive(Debug, Clone, PartialEq)]
pub struct Mesh<T> {
    /// The triangles that the object is made of, in drawing order.
    pub triangles: Vec<Triangle<T>>,
    /// Where the object stands.
    pub position: Vec3<T>,
    /// How the object is turned.
    pub rotation: Rotation<T>,
    /// How the object is stretched along each axis.
    pub scale: Vec3<T>,
}

impl<T> Mesh<T> {
    /// Starts building a mesh: no triangle yet, nothing chosen.
    pub fn new() -> (builder: MeshBuilder<T>)
        ensures
            builder.triangles@ == Seq::<Triangle<T>>::empty(),
            builder.position.is_none(),
            builder.rotation.is_none(),
    {
        MeshBuilder { triangles: Vec::new(), position: None, rotation: None }
    }
}

/// What has been chosen so far for a mesh under construction.
#[derive(Debug, Clone, PartialEq)]
pub struct MeshBuilder<T> {
    /// The triangles given so far.
    pub triangles: Vec<Triangle<T>>,
    /// The position, once one is chosen.
    pub position: Option<Vec3<T>>,
    /// The rotation, once one is chosen.
    pub rotation: Option<Rotation<T>>,
}

impl<T: Scalar> MeshBuilder<T> {
    /// The rotation that results from setting the angle about X to
    /// `angle`: the other two angles stay, or are zero if none was set.
    pub open spec fn with_rotation_x(before: Option<Rotation<T>>, angle: T, after: Rotation<T>) -> bool {
        &&& after.x == angle
        &&& match before {
            Some(r) => after.y == r.y && after.z == r.z,
            None => is_constant(after.y, 0) && is_constant(after.z, 0),
        }
    }

    /// As `with_rotation_x`, for the angle about Y.
    pub open spec fn with_rotation_y(before: Option<Rotation<T>>, angle: T, after: Rotation<T>) -> bool {
        &&& after.y == angle
        &&& match before {
            Some(r) => after.x == r.x && after.z == r.z,
            None => is_constant(after.x, 0) && is_constant(after.z, 0),
        }
    }

    /// As `with_rotation_x`, for the angle about Z.
    pub open spec fn with_rotation_z(before: Option<Rotation<T>>, angle: T, after: Rotation<T>) -> bool {
        &&& after.z == angle
        &&& match before {
            Some(r) => after.x == r.x && after.y == r.y,
            None => is_constant(after.x, 0) && is_constant(after.y, 0),
        }
    }

    /// The position that results from setting the X coordinate to `x`:
    /// the other two coordinates stay, or are zero if none was set.
    pub open spec fn with_position_x(before: Option<Vec3<T>>, x: T, after: Vec3<T>) -> bool {
        &&& after.x == x
        &&& match before {
            Some(p) => after.y == p.y && after.z == p.z,
            None => is_constant(after.y, 0) && is_constant(after.z, 0),
        }
    }

    /// As `with_position_x`, for the Y coordinate.
    pub open spec fn with_position_y(before: Option<Vec3<T>>, y: T, after: Vec3<T>) -> bool {
        &&& after.y == y
        &&& match before {
            Some(p) => after.x == p.x && after.z == p.z,
            None => is_constant(after.x, 0) && is_constant(after.z, 0),
        }
    }

    /// As `with_position_x`, for the Z coordinate.
    pub open spec fn with_position_z(before: Option<Vec3<T>>, z: T, after: Vec3<T>) -> bool {
        &&& after.z == z
        &&& match before {
            Some(p) => after.x == p.x && after.y == p.y,
            None => is_constant(after.x, 0) && is_constant(after.y, 0),
        }
    }

    /// Finishes the mesh. A position that was not chosen is the origin, a
    /// rotation that was not chosen is no rotation, and the scale is one
    /// along every axis.
    pub fn build(self) -> (mesh: Mesh<T>)
        ensures
            mesh.triangles == self.triangles,
            match self.position {
                Some(p) => mesh.position == p,
                None => mesh.position.is_uniform(0),
            },
            match self.rotation {
                Some(r) => mesh.rotation == r,
                None => is_constant(mesh.rotation.x, 0) && is_constant(mesh.rotation.y, 0)
                    && is_constant(mesh.rotation.z, 0),
            },
            mesh.scale.is_uniform(1),
    {
        let triangles = self.triangles;
        let position = match self.position {
            Some(p) => p,
            None => Vec3::uniform(0),
        };
        let rotation = match self.rotation {
            Some(r) => r,
            None => Rotation::new(constant(0), constant(0), constant(0)),
        };

        Mesh { triangles, position, rotation, scale: Vec3::uniform(1) }
    }

    /// Replaces the triangles given so far.
    pub fn set_triangles(self, triangles: Vec<Triangle<T>>) -> (next: Self)
        ensures
            next.triangles == triangles,
            next.position == self.position,
            next.rotation == self.rotation,
    {
        MeshBuilder { triangles, position: self.position, rotation: self.rotation }
    }

    /// Adds one triangle after those given so far.
    pub fn add_triangle(self, triangle: Triangle<T>) -> (next: Self)
        ensures
            next.triangles@ == self.triangles@.push(triangle),
            next.position == self.position,
            next.rotation == self.rotation,
    {
        let mut triangles = self.triangles;
        triangles.push(triangle);

        MeshBuilder { triangles, position: self.position, rotation: self.rotation }
    }

    /// Sets the three angles of the rotation, in radians.
    pub fn set_rotation(self, x: T, y: T, z: T) -> (next: Self)
        ensures
            next.rotation == Some(Rotation { x, y, z }),
            next.triangles == self.triangles,
            next.position == self.position,
    {
        MeshBuilder {
            triangles: self.triangles,
            position: self.position,
            rotation: Some(Rotation::new(x, y, z)),
        }
    }

    /// Sets the angle about the X axis, in radians.
    pub fn set_rotation_x(self, angle: T) -> (next: Self)
        ensures
            next.rotation.is_some(),
            Self::with_rotation_x(self.rotation, angle, next.rotation.unwrap()),
            next.triangles == self.triangles,
            next.position == self.position,
    {
        let rotation = match self.rotation {
            Some(r) => Rotation::new(angle, r.y, r.z),
            None => Rotation::new(angle, constant(0), constant(0)),
        };

        MeshBuilder { triangles: self.triangles, position: self.position, rotation: Some(rotation) }
    }

    /// Sets the angle about the Y axis, in radians.
    pub fn set_rotation_y(self, angle: T) -> (next: Self)
        ensures
            next.rotation.is_some(),
            Self::with_rotation_y(self.rotation, angle, next.rotation.unwrap()),
            next.triangles == self.triangles,
            next.position == self.position,
    {
        let rotation = match self.rotation {
            Some(r) => Rotation::new(r.x, angle, r.z),
            None => Rotation::new(constant(0), angle, constant(0)),
        };

        MeshBuilder { triangles: self.triangles, position: self.position, rotation: Some(rotation) }
    }

    /// Sets the angle about the Z axis, in radians.
    pub fn set_rotation_z(self, angle: T) -> (next: Self)
        ensures
            next.rotation.is_some(),
            Self::with_rotation_z(self.rotation, angle, next.rotation.unwrap()),
            next.triangles == self.triangles,
            next.position == self.position,
    {
        let rotation = match self.rotation {
            Some(r) => Rotation::new(r.x, r.y, angle),
            None => Rotation::new(constant(0), constant(0), angle),
        };

        MeshBuilder { triangles: self.triangles, position: self.position, rotation: Some(rotation) }
    }

    /// Sets where the mesh stands.
    pub fn set_position(self, position: Vec3<T>) -> (next: Self)
        ensures
            next.position == Some(position),
            next.triangles == self.triangles,
            next.rotation == self.rotation,
    {
        MeshBuilder {
            triangles: self.triangles,
            position: Some(position),
            rotation: self.rotation,
        }
    }

    /// Sets the X coordinate of the position.
    pub fn set_position_x(self, x: T) -> (next: Self)
        ensures
            next.position.is_some(),
            Self::with_position_x(self.position, x, next.position.unwrap()),
            next.triangles == self.triangles,
            next.rotation == self.rotation,
    {
        let position = match self.position {
            Some(p) => Vec3::new(x, p.y, p.z),
            None => Vec3::new(x, constant(0), constant(0)),
        };

        MeshBuilder { triangles: self.triangles, position: Some(position), rotation: self.rotation }
    }

    /// Sets the Y coordinate of the position.
    pub fn set_position_y(self, y: T) -> (next: Self)
        ensures
            next.position.is_some(),
            Self::with_position_y(self.position, y, next.position.unwrap()),
            next.triangles == self.triangles,
            next.rotation == self.rotation,
    {
        let position = match self.position {
            Some(p) => Vec3::new(p.x, y, p.z),
            None => Vec3::new(constant(0), y, constant(0)),
        };

        MeshBuilder { triangles: self.triangles, position: Some(position), rotation: self.rotation }
    }

    /// Sets the Z coordinate of the position.
    pub fn set_position_z(self, z: T) -> (next: Self)
        ensures
            next.position.is_some(),
            Self::with_position_z(self.position, z, next.position.unwrap()),
            next.triangles == self.triangles,
            next.rotation == self.rotation,
    {
        let position = match self.position {
            Some(p) => Vec3::new(p.x, p.y, z),
            None => Vec3::new(constant(0), constant(0), z),
        };

        MeshBuilder { triangles: self.triangles, position: Some(position), rotation: self.rotation }
    }
}

} // verus!
