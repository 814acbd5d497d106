use vstd::prelude::*;
use vstd::std_specs::convert::FromSpec;
use vstd::std_specs::ops::DivSpec;
use vstd::std_specs::ops::NegSpec;
use crate::engine::graphics::mesh::Mesh;
use crate::engine::graphics::rotation::Rotation;
use crate::engine::graphics::triangle::Triangle;
use crate::engine::graphics::vec3::Vec3;
use crate::engine::math::scalar::constant;
use crate::engine::math::scalar::exact;
use crate::engine::math::scalar::is_constant;
use crate::engine::math::scalar::is_negation;
use crate::engine::math::scalar::is_quotient;
use crate::engine::math::scalar::unfailing;
use crate::engine::math::scalar::Scalar;

verus! {

/// Ready-made meshes.
pub struct MESHES;

impl MESHES {
    /// The eight corners of the cube that reaches from `low` to `high`
    /// along every axis.
    pub open spec fn cube_corners<T>(low: T, high: T) -> Seq<Vec3<T>> {
        seq![
            Vec3 { x: low, y: low, z: low },
            Vec3 { x: high, y: low, z: low },
            Vec3 { x: high, y: high, z: low },
            Vec3 { x: low, y: high, z: low },
            Vec3 { x: low, y: low, z: high },
            Vec3 { x: high, y: low, z: high },
            Vec3 { x: high, y: high, z: high },
            Vec3 { x: low, y: high, z: high },
        ]
    }

    /// The twelve triangles, two for each face, of the cube with corners
    /// `v`.
    pub open spec fn cube_faces<T>(v: Seq<Vec3<T>>) -> Seq<Triangle<T>> {
        seq![
            Triangle { vertices: [v[0], v[1], v[2]] },
            Triangle { vertices: [v[0], v[2], v[3]] },
            Triangle { vertices: [v[5], v[4], v[7]] },
            Triangle { vertices: [v[5], v[7], v[6]] },
            Triangle { vertices: [v[4], v[0], v[3]] },
            Triangle { vertices: [v[4], v[3], v[7]] },
            Triangle { vertices: [v[1], v[5], v[6]] },
            Triangle { vertices: [v[1], v[6], v[2]] },
            Triangle { vertices: [v[4], v[5], v[1]] },
            Triangle { vertices: [v[4], v[1], v[0]] },
            Triangle { vertices: [v[3], v[2], v[6]] },
            Triangle { vertices: [v[3], v[6], v[7]] },
        ]
    }

    /// A cube with edges of length `size`, centred on its own origin and
    /// standing ten units down the Z axis, not turned and not stretched.
    /// Its corners lie half of `size` from the centre along every axis.
    pub fn cube<T: Scalar>(size: T) -> (mesh: Mesh<T>)
        requires
            unfailing::<T>() || (exact::<T>() && size.div_req(T::from_spec(2i8)) && size.div_spec(
                T::from_spec(2i8),
            ).neg_req()),
        ensures
            exists|two: T, low: T, high: T|
                #![trigger is_quotient(size, two, high), is_negation(low, high)]
                {
                    &&& is_constant(two, 2)
                    &&& is_quotient(size, two, high)
                    &&& is_negation(low, high)
                    &&& mesh.triangles@ == Self::cube_faces(Self::cube_corners(low, high))
                },
            is_constant(mesh.position.x, 0),
            is_constant(mesh.position.y, 0),
            is_constant(mesh.position.z, 10),
            is_constant(mesh.rotation.x, 0),
            is_constant(mesh.rotation.y, 0),
            is_constant(mesh.rotation.z, 0),
            mesh.scale.is_uniform(1),
    {
        let two: T = constant(2);
        let h = size / two;
        let l = h.neg();

        let v = [
            Vec3::new(l, l, l),
            Vec3::new(h, l, l),
            Vec3::new(h, h, l),
            Vec3::new(l, h, l),
            Vec3::new(l, l, h),
            Vec3::new(h, l, h),
            Vec3::new(h, h, h),
            Vec3::new(l, h, h),
        ];

        let triangles = vec![
            Triangle::new([v[0], v[1], v[2]]),
            Triangle::new([v[0], v[2], v[3]]),
            Triangle::new([v[5], v[4], v[7]]),
            Triangle::new([v[5], v[7], v[6]]),
            Triangle::new([v[4], v[0], v[3]]),
            Triangle::new([v[4], v[3], v[7]]),
            Triangle::new([v[1], v[5], v[6]]),
            Triangle::new([v[1], v[6], v[2]]),
            Triangle::new([v[4], v[5], v[1]]),
            Triangle::new([v[4], v[1], v[0]]),
            Triangle::new([v[3], v[2], v[6]]),
            Triangle::new([v[3], v[6], v[7]]),
        ];
        proof {
            assert(triangles@ =~= Self::cube_faces(Self::cube_corners(l, h)));
            assert(is_constant(two, 2) && is_quotient(size, two, h) && is_negation(l, h));
        }

        Mesh {
            triangles,
            position: Vec3::new(constant(0), constant(0), constant(10)),
            rotation: Rotation::new(constant(0), constant(0), constant(0)),
            scale: Vec3::uniform(1),
        }
    }
}

} // verus!
