use vstd::prelude::*;
use vstd::std_specs::ops::AddSpec;
use vstd::std_specs::ops::DivSpec;
use vstd::std_specs::ops::MulSpec;
use vstd::std_specs::ops::SubSpec;
use crate::engine::graphics::vec2::Vec2;
use crate::engine::math::scalar::constant;
use crate::engine::math::scalar::exact;
use crate::engine::math::scalar::is_constant;
use crate::engine::math::scalar::is_difference;
use crate::engine::math::scalar::is_product;
use crate::engine::math::scalar::is_quotient;
use crate::engine::math::scalar::is_sum;
use crate::engine::math::scalar::unfailing;
use crate::engine::math::scalar::Scalar;

verus! {

/// A vector with three components of the scalar type `T`.
#[derive(Debug, Copy, Clone, PartialEq)]
pub struct Vec3<T> {
    /// Component along the X axis.
    pub x: T,
    /// Component along the Y axis.
    pub y: T,
    /// Component along the Z axis.
    pub z: T,
}

impl<T> Vec3<T> {
    /// Builds a vector from its three components.
    pub fn new(x: T, y: T, z: T) -> (v: Self)
        ensures
            v == (Vec3 { x, y, z }),
    {
        Self { x, y, z }
    }
}

impl<T: Scalar> Vec3<T> {
    /// Every component is the constant `n`.
    pub open spec fn is_uniform(self, n: i8) -> bool {
        is_constant(self.x, n) && is_constant(self.y, n) && is_constant(self.z, n)
    }

    /// Every component is what adding the matching components of `a` and
    /// `b` gave.
    pub open spec fn is_sum_of(self, a: Self, b: Self) -> bool {
        is_sum(a.x, b.x, self.x) && is_sum(a.y, b.y, self.y) && is_sum(a.z, b.z, self.z)
    }

    /// Every component is what taking the matching component of `b` away
    /// from that of `a` gave.
    pub open spec fn is_difference_of(self, a: Self, b: Self) -> bool {
        is_difference(a.x, b.x, self.x) && is_difference(a.y, b.y, self.y) && is_difference(
            a.z,
            b.z,
            self.z,
        )
    }

    /// `image` is what the operators of `T` gave for `a * focal_length /
    /// depth`.
    pub open spec fn is_scaled(a: T, focal_length: T, depth: T, image: T) -> bool {
        exists|scaled: T|
            #![trigger is_quotient(scaled, depth, image)]
            is_product(a, focal_length, scaled) && is_quotient(scaled, depth, image)
    }

    /// `image` is what the operators of `T` gave for the perspective
    /// projection: `x` and `y`, each times the focal length and over the
    /// depth `z`.
    pub open spec fn is_projected(self, focal_length: T, image: Vec2<T>) -> bool {
        &&& Self::is_scaled(self.x, focal_length, self.z, image.x)
        &&& Self::is_scaled(self.y, focal_length, self.z, image.y)
    }

    /// The perspective projection as the operators of `T` specify it.
    pub open spec fn projected_spec(self, focal_length: T) -> Vec2<T> {
        Vec2 {
            x: self.x.mul_spec(focal_length).div_spec(self.z),
            y: self.y.mul_spec(focal_length).div_spec(self.z),
        }
    }

    /// Every operation of the perspective projection accepts its operands.
    pub open spec fn projected_req(self, focal_length: T) -> bool {
        &&& self.x.mul_req(focal_length)
        &&& self.y.mul_req(focal_length)
        &&& self.x.mul_spec(focal_length).div_req(self.z)
        &&& self.y.mul_spec(focal_length).div_req(self.z)
    }

    /// `product` is what the operators of `T` gave for the dot product:
    /// the three products of matching components, added up from the
    /// left.
    pub open spec fn is_dot(self, rhs: Self, product: T) -> bool {
        exists|xx: T, yy: T, zz: T, xy: T|
            #![trigger is_sum(xx, yy, xy), is_product(self.z, rhs.z, zz)]
            {
                &&& is_product(self.x, rhs.x, xx)
                &&& is_product(self.y, rhs.y, yy)
                &&& is_product(self.z, rhs.z, zz)
                &&& is_sum(xx, yy, xy)
                &&& is_sum(xy, zz, product)
            }
    }

    /// The dot product as the operators of `T` specify it.
    pub open spec fn dot_spec(self, rhs: Self) -> T {
        self.x.mul_spec(rhs.x).add_spec(self.y.mul_spec(rhs.y)).add_spec(self.z.mul_spec(rhs.z))
    }

    /// Every operation of the dot product accepts its operands.
    pub open spec fn dot_req(self, rhs: Self) -> bool {
        &&& self.x.mul_req(rhs.x)
        &&& self.y.mul_req(rhs.y)
        &&& self.z.mul_req(rhs.z)
        &&& self.x.mul_spec(rhs.x).add_req(self.y.mul_spec(rhs.y))
        &&& self.x.mul_spec(rhs.x).add_spec(self.y.mul_spec(rhs.y)).add_req(
            self.z.mul_spec(rhs.z),
        )
    }

    /// `component` is what the operators of `T` gave for `a * b - c * d`.
    pub open spec fn is_minor(a: T, b: T, c: T, d: T, component: T) -> bool {
        exists|ab: T, cd: T|
            #![trigger is_difference(ab, cd, component)]
            is_product(a, b, ab) && is_product(c, d, cd) && is_difference(ab, cd, component)
    }

    /// `product` is what the operators of `T` gave for the cross product.
    pub open spec fn is_cross(self, rhs: Self, product: Self) -> bool {
        &&& Self::is_minor(self.y, rhs.z, self.z, rhs.y, product.x)
        &&& Self::is_minor(self.z, rhs.x, self.x, rhs.z, product.y)
        &&& Self::is_minor(self.x, rhs.y, self.y, rhs.x, product.z)
    }

    /// The cross product as the operators of `T` specify it.
    pub open spec fn cross_spec(self, rhs: Self) -> Self {
        Vec3 {
            x: self.y.mul_spec(rhs.z).sub_spec(self.z.mul_spec(rhs.y)),
            y: self.z.mul_spec(rhs.x).sub_spec(self.x.mul_spec(rhs.z)),
            z: self.x.mul_spec(rhs.y).sub_spec(self.y.mul_spec(rhs.x)),
        }
    }

    /// Every operation of the cross product accepts its operands.
    pub open spec fn cross_req(self, rhs: Self) -> bool {
        &&& self.y.mul_req(rhs.z) && self.z.mul_req(rhs.y)
        &&& self.z.mul_req(rhs.x) && self.x.mul_req(rhs.z)
        &&& self.x.mul_req(rhs.y) && self.y.mul_req(rhs.x)
        &&& self.y.mul_spec(rhs.z).sub_req(self.z.mul_spec(rhs.y))
        &&& self.z.mul_spec(rhs.x).sub_req(self.x.mul_spec(rhs.z))
        &&& self.x.mul_spec(rhs.y).sub_req(self.y.mul_spec(rhs.x))
    }

    /// The vector whose three components are the constant `n`.
    pub fn uniform(n: i8) -> (v: Self)
        ensures
            v.is_uniform(n),
    {
        Vec3::new(constant(n), constant(n), constant(n))
    }

    /// Projects the point onto the image plane at distance `focal_length`:
    /// both of `x` and `y` are scaled by `focal_length` and divided by the
    /// depth `z`.
    ///
    /// The scalar type must either accept all operands, or be exact and
    /// accept those of this projection: integers then rule out a depth of
    /// zero and overflow.
    pub fn get_projected_2d(&self, focal_length: T) -> (image: Vec2<T>)
        requires
            unfailing::<T>() || (exact::<T>() && self.projected_req(focal_length)),
        ensures
            self.is_projected(focal_length, image),
            exact::<T>() ==> image == self.projected_spec(focal_length),
    {
        let x_scaled = self.x * focal_length;
        let y_scaled = self.y * focal_length;
        let image = Vec2::new(x_scaled / self.z, y_scaled / self.z);
        assert(is_quotient(x_scaled, self.z, image.x));
        assert(is_quotient(y_scaled, self.z, image.y));
        image
    }

    /// The dot product with `rhs`.
    ///
    /// The scalar type must either accept all operands, or be exact and
    /// accept those of this product.
    pub fn dot(self, rhs: Vec3<T>) -> (product: T)
        requires
            unfailing::<T>() || (exact::<T>() && self.dot_req(rhs)),
        ensures
            self.is_dot(rhs, product),
            exact::<T>() ==> product == self.dot_spec(rhs),
    {
        let xx = self.x * rhs.x;
        let yy = self.y * rhs.y;
        let zz = self.z * rhs.z;
        let xy = xx + yy;
        let product = xy + zz;
        assert(is_sum(xx, yy, xy) && is_product(self.z, rhs.z, zz));
        product
    }

    /// The cross product with `rhs`.
    ///
    /// The scalar type must either accept all operands, or be exact and
    /// accept those of this product.
    pub fn cross(self, rhs: Vec3<T>) -> (product: Vec3<T>)
        requires
            unfailing::<T>() || (exact::<T>() && self.cross_req(rhs)),
        ensures
            self.is_cross(rhs, product),
            exact::<T>() ==> product == self.cross_spec(rhs),
    {
        let yz = self.y * rhs.z;
        let zy = self.z * rhs.y;
        let zx = self.z * rhs.x;
        let xz = self.x * rhs.z;
        let xy = self.x * rhs.y;
        let yx = self.y * rhs.x;
        let product = Vec3::new(yz - zy, zx - xz, xy - yx);
        assert(is_difference(yz, zy, product.x));
        assert(is_difference(zx, xz, product.y));
        assert(is_difference(xy, yx, product.z));
        product
    }
}

impl<T: Copy> vstd::std_specs::convert::FromSpecImpl<[T; 3]> for Vec3<T> {
    open spec fn obeys_from_spec() -> bool {
        true
    }

    open spec fn from_spec(value: [T; 3]) -> Self {
        Vec3 { x: value[0], y: value[1], z: value[2] }
    }
}

impl<T: Copy> From<[T; 3]> for Vec3<T> {
    /// The vector whose components are the three entries of `value`, in
    /// order.
    fn from(value: [T; 3]) -> (v: Self)
        ensures
            v == (Vec3 { x: value[0], y: value[1], z: value[2] }),
    {
        Self { x: value[0], y: value[1], z: value[2] }
    }
}

impl<T: Scalar> vstd::std_specs::ops::AddSpecImpl for Vec3<T> {
    open spec fn obeys_add_spec() -> bool {
        T::obeys_add_spec()
    }

    open spec fn add_req(self, rhs: Self) -> bool {
        self.x.add_req(rhs.x) && self.y.add_req(rhs.y) && self.z.add_req(rhs.z)
    }

    open spec fn add_spec(self, rhs: Self) -> Self {
        Vec3 { x: self.x.add_spec(rhs.x), y: self.y.add_spec(rhs.y), z: self.z.add_spec(rhs.z) }
    }
}

impl<T: Scalar> core::ops::Add for Vec3<T> {
    type Output = Vec3<T>;

    /// The sum, component by component. Each pair of components must be
    /// one that `T` can add.
    fn add(self, rhs: Vec3<T>) -> (sum: Vec3<T>)
        ensures
            sum.is_sum_of(self, rhs),
    {
        Vec3::new(self.x + rhs.x, self.y + rhs.y, self.z + rhs.z)
    }
}

impl<T: Scalar> vstd::std_specs::ops::SubSpecImpl for Vec3<T> {
    open spec fn obeys_sub_spec() -> bool {
        T::obeys_sub_spec()
    }

    open spec fn sub_req(self, rhs: Self) -> bool {
        self.x.sub_req(rhs.x) && self.y.sub_req(rhs.y) && self.z.sub_req(rhs.z)
    }

    open spec fn sub_spec(self, rhs: Self) -> Self {
        Vec3 { x: self.x.sub_spec(rhs.x), y: self.y.sub_spec(rhs.y), z: self.z.sub_spec(rhs.z) }
    }
}

impl<T: Scalar> core::ops::Sub for Vec3<T> {
    type Output = Vec3<T>;

    /// The difference, component by component. Each pair of components
    /// must be one that `T` can subtract.
    fn sub(self, rhs: Vec3<T>) -> (difference: Vec3<T>)
        ensures
            difference.is_difference_of(self, rhs),
    {
        Vec3::new(self.x - rhs.x, self.y - rhs.y, self.z - rhs.z)
    }
}

/// Taking `b` away from the sum of `a` and `b` gives `a` back, where the
/// sum does not overflow: the difference can then always be computed.
pub proof fn lemma_sum_less_addend(
    a: Vec3<i64>,
    b: Vec3<i64>,
    sum: Vec3<i64>,
    difference: Vec3<i64>,
)
    requires
        a.add_req(b),
        sum.is_sum_of(a, b),
        difference.is_difference_of(sum, b),
    ensures
        sum.sub_req(b),
        difference == a,
{
}

/// Swapping the operands of the cross product negates every component,
/// where neither product overflows.
pub proof fn lemma_cross_is_antisymmetric(
    a: Vec3<i64>,
    b: Vec3<i64>,
    ab: Vec3<i64>,
    ba: Vec3<i64>,
)
    requires
        a.cross_req(b),
        b.cross_req(a),
        a.is_cross(b, ab),
        b.is_cross(a, ba),
    ensures
        ab.x == -ba.x,
        ab.y == -ba.y,
        ab.z == -ba.z,
{
    assert(a.y * b.z == b.z * a.y && a.z * b.y == b.y * a.z && a.z * b.x == b.x * a.z && a.x
        * b.z == b.z * a.x && a.x * b.y == b.y * a.x && a.y * b.x == b.x * a.y)
        by (nonlinear_arith);
}

} // verus!
