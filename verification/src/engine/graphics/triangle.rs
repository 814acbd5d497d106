use vstd::prelude::*;
use vstd::std_specs::ops::SubSpec;
use crate::engine::graphics::gdi::line_cells;
use crate::engine::graphics::gdi::GDI;
use crate::engine::graphics::vec3::Vec3;
use crate::engine::math::scalar::exact;
use crate::engine::math::scalar::unfailing;
use crate::engine::math::scalar::Scalar;

verus! {

/// Three corner points; their order fixes the side that the face looks to.
#[derive(Debug, Clone, PartialEq)]
pub struct Triangle<T> {
    /// The three corners.
    pub vertices: [Vec3<T>; 3],
}

impl<T> Triangle<T> {
    /// Builds the triangle with the given corners.
    pub fn new(vertices: [Vec3<T>; 3]) -> (t: Self)
        ensures
            t.vertices == vertices,
    {
        Self { vertices }
    }
}

impl<T: Scalar> Triangle<T> {
    /// `vector` is what the operators of `T` gave for the cross product of
    /// the edge from the first corner to the second with the edge from
    /// the first corner to the third.
    pub open spec fn is_face_vector(self, vector: Vec3<T>) -> bool {
        exists|first: Vec3<T>, second: Vec3<T>|
            #![trigger first.is_cross(second, vector)]
            {
                &&& first.is_difference_of(self.vertices[1], self.vertices[0])
                &&& second.is_difference_of(self.vertices[2], self.vertices[0])
                &&& first.is_cross(second, vector)
            }
    }

    /// The face vector as the operators of `T` specify it.
    pub open spec fn face_vector_spec(self) -> Vec3<T> {
        self.vertices[1].sub_spec(self.vertices[0]).cross_spec(
            self.vertices[2].sub_spec(self.vertices[0]),
        )
    }

    /// Every operation of the face vector accepts its operands.
    pub open spec fn face_vector_req(self) -> bool {
        &&& self.vertices[1].sub_req(self.vertices[0])
        &&& self.vertices[2].sub_req(self.vertices[0])
        &&& self.vertices[1].sub_spec(self.vertices[0]).cross_req(
            self.vertices[2].sub_spec(self.vertices[0]),
        )
    }

    /// A vector that stands upright on the face, on the side from which
    /// the corners are seen in counter-clockwise order: the cross product
    /// of the two edges that leave the first corner.
    ///
    /// The scalar type must either accept all operands, or be exact and
    /// accept those of this product.
    pub fn face_vector(&self) -> (vector: Vec3<T>)
        requires
            unfailing::<T>() || (exact::<T>() && self.face_vector_req()),
        ensures
            self.is_face_vector(vector),
            exact::<T>() ==> vector == self.face_vector_spec(),
    {
        let line1 = self.vertices[1] - self.vertices[0];
        let line2 = self.vertices[2] - self.vertices[0];

        let vector = line1.cross(line2);
        assert(line1.is_cross(line2, vector));
        vector
    }
}

impl Triangle<i64> {
    /// The cells of the three edges, one edge after the other: from the
    /// first corner to the second, from the second to the third, and from
    /// the third back to the first.
    pub open spec fn outline(self) -> Seq<Vec3<i64>> {
        line_cells(self.vertices[0], self.vertices[1]) + line_cells(
            self.vertices[1],
            self.vertices[2],
        ) + line_cells(self.vertices[2], self.vertices[0])
    }

    /// Rasterizes the three edges of the triangle on the character grid.
    /// The face itself is not filled.
    pub fn rasterize(&self) -> (res: Vec<Vec3<i64>>)
        ensures
            res@ == self.outline(),
    {
        let mut res = Vec::new();

        let mut a = GDI::line(self.vertices[0], self.vertices[1]);
        let mut b = GDI::line(self.vertices[1], self.vertices[2]);
        let mut c = GDI::line(self.vertices[2], self.vertices[0]);

        res.append(&mut a);
        res.append(&mut b);
        res.append(&mut c);

        assert(res@ =~= self.outline());
        res
    }
}

impl<T> vstd::std_specs::convert::FromSpecImpl<[Vec3<T>; 3]> for Triangle<T> {
    open spec fn obeys_from_spec() -> bool {
        true
    }

    open spec fn from_spec(value: [Vec3<T>; 3]) -> Self {
        Triangle { vertices: value }
    }
}

impl<T> From<[Vec3<T>; 3]> for Triangle<T> {
    /// The triangle with the given corners.
    fn from(value: [Vec3<T>; 3]) -> (t: Self)
        ensures
            t.vertices == value,
    {
        Triangle::new(value)
    }
}

impl<T: Copy> Triangle<T> {
    /// The triangle whose corners are the rows of `value`, each row giving
    /// `x`, `y` and `z`.
    pub open spec fn from_rows(value: [[T; 3]; 3]) -> Self {
        Triangle {
            vertices: [
                Vec3 { x: value[0][0], y: value[0][1], z: value[0][2] },
                Vec3 { x: value[1][0], y: value[1][1], z: value[1][2] },
                Vec3 { x: value[2][0], y: value[2][1], z: value[2][2] },
            ],
        }
    }
}

impl<T: Copy> vstd::std_specs::convert::FromSpecImpl<[[T; 3]; 3]> for Triangle<T> {
    open spec fn obeys_from_spec() -> bool {
        true
    }

    open spec fn from_spec(value: [[T; 3]; 3]) -> Self {
        Triangle::from_rows(value)
    }
}

impl<T: Copy> From<[[T; 3]; 3]> for Triangle<T> {
    /// The triangle whose corners are the rows of `value`.
    fn from(value: [[T; 3]; 3]) -> (t: Self)
        ensures
            t == Triangle::from_rows(value),
    {
        Triangle::new(
            [
                Vec3::new(value[0][0], value[0][1], value[0][2]),
                Vec3::new(value[1][0], value[1][1], value[1][2]),
                Vec3::new(value[2][0], value[2][1], value[2][2]),
            ],
        )
    }
}

} // verus!
