use vstd::prelude::*;
use crate::engine::graphics::rotation::Rotation;
use crate::engine::graphics::vec3::Vec3;
use crate::engine::math::scalar::constant;
use crate::engine::math::scalar::is_constant;
use crate::engine::math::scalar::Scalar;

verus! {

/// The eye through which the scene is seen.
#[derive(Debug, Clone, PartialEq)]
pub struct Camera<T> {
    /// Where the camera stands.
    pub location: Vec3<T>,
    /// Width of the view, in cells.
    pub width: usize,
    /// Height of the view, in cells.
    pub height: usize,
    /// How the camera is turned, in radians about each axis.
    pub rotation: Rotation<T>,
    /// The field of view.
    pub fov: T,
}

impl<T> Camera<T> {
    /// Starts building a camera with nothing chosen.
    pub fn new() -> (builder: CameraBuilder<T>)
        ensures
            builder.location.is_none(),
            builder.width.is_none(),
            builder.height.is_none(),
            builder.fov.is_none(),
    {
        CameraBuilder { location: None, width: None, height: None, fov: None }
    }
}

/// What has been chosen so far for a camera under construction.
#[derive(Debug, Clone, PartialEq)]
pub struct CameraBuilder<T> {
    /// The location, once one is chosen.
    pub location: Option<Vec3<T>>,
    /// The width of the view, once one is chosen.
    pub width: Option<usize>,
    /// The height of the view, once one is chosen.
    pub height: Option<usize>,
    /// The field of view, once one is chosen.
    pub fov: Option<T>,
}

impl<T: Scalar> CameraBuilder<T> {
    /// Finishes the camera. What was not chosen takes its default: the
    /// origin as location, a view of 100 by 60 cells, and a field of view
    /// of 90. The camera is not turned.
    pub fn build(self) -> (camera: Camera<T>)
        ensures
            match self.location {
                Some(l) => camera.location == l,
                None => camera.location.is_uniform(0),
            },
            camera.width == (match self.width {
                Some(w) => w,
                None => 100,
            }),
            camera.height == (match self.height {
                Some(h) => h,
                None => 60,
            }),
            match self.fov {
                Some(f) => camera.fov == f,
                None => is_constant(camera.fov, 90),
            },
            is_constant(camera.rotation.x, 0),
            is_constant(camera.rotation.y, 0),
            is_constant(camera.rotation.z, 0),
    {
        let location = match self.location {
            Some(l) => l,
            None => Vec3::uniform(0),
        };
        let width = match self.width {
            Some(w) => w,
            None => 100,
        };
        let height = match self.height {
            Some(h) => h,
            None => 60,
        };
        let fov = match self.fov {
            Some(f) => f,
            None => constant(90),
        };

        Camera {
            location,
            width,
            height,
            rotation: Rotation::new(constant(0), constant(0), constant(0)),
            fov,
        }
    }

    /// Sets where the camera stands.
    pub fn location(self, location: Vec3<T>) -> (next: Self)
        ensures
            next == (CameraBuilder { location: Some(location), ..self }),
    {
        CameraBuilder {
            location: Some(location),
            width: self.width,
            height: self.height,
            fov: self.fov,
        }
    }

    /// Sets the width of the view, in cells.
    pub fn width(self, width: usize) -> (next: Self)
        ensures
            next == (CameraBuilder { width: Some(width), ..self }),
    {
        CameraBuilder {
            location: self.location,
            width: Some(width),
            height: self.height,
            fov: self.fov,
        }
    }

    /// Sets the height of the view, in cells.
    pub fn height(self, height: usize) -> (next: Self)
        ensures
            next == (CameraBuilder { height: Some(height), ..self }),
    {
        CameraBuilder {
            location: self.location,
            width: self.width,
            height: Some(height),
            fov: self.fov,
        }
    }

    /// Sets the field of view.
    pub fn fov(self, fov: T) -> (next: Self)
        ensures
            next == (CameraBuilder { fov: Some(fov), ..self }),
    {
        CameraBuilder {
            location: self.location,
            width: self.width,
            height: self.height,
            fov: Some(fov),
        }
    }
}

} // verus!
