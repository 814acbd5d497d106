use vstd::prelude::*;
use vstd::std_specs::ops::AddSpec;
use vstd::std_specs::ops::SubSpec;
use crate::engine::math::scalar::is_difference;
use crate::engine::math::scalar::is_sum;
use crate::engine::math::scalar::Scalar;

verus! {

/// A vector with two components of the scalar type `T`.
#[derive(Debug, Copy, Clone, PartialEq)]
pub struct Vec2<T> {
    /// Component along the X axis.
    pub x: T,
    /// Component along the Y axis.
    pub y: T,
}

impl<T> Vec2<T> {
    /// Builds a vector from its two components.
    pub fn new(x: T, y: T) -> (v: Self)
        ensures
            v == (Vec2 { x, y }),
    {
        Self { x, y }
    }
}

impl<T: Scalar> Vec2<T> {
    /// Every component is what adding the matching components of `a` and
    /// `b` gave.
    pub open spec fn is_sum_of(self, a: Self, b: Self) -> bool {
        is_sum(a.x, b.x, self.x) && is_sum(a.y, b.y, self.y)
    }

    /// Every component is what taking the matching component of `b` away
    /// from that of `a` gave.
    pub open spec fn is_difference_of(self, a: Self, b: Self) -> bool {
        is_difference(a.x, b.x, self.x) && is_difference(a.y, b.y, self.y)
    }
}

impl<T: Scalar> vstd::std_specs::ops::AddSpecImpl for Vec2<T> {
    open spec fn obeys_add_spec() -> bool {
        T::obeys_add_spec()
    }

    open spec fn add_req(self, rhs: Self) -> bool {
        self.x.add_req(rhs.x) && self.y.add_req(rhs.y)
    }

    open spec fn add_spec(self, rhs: Self) -> Self {
        Vec2 { x: self.x.add_spec(rhs.x), y: self.y.add_spec(rhs.y) }
    }
}

impl<T: Scalar> core::ops::Add for Vec2<T> {
    type Output = Vec2<T>;

    /// The sum, component by component.
    fn add(self, rhs: Self) -> (sum: Self)
        ensures
            sum.is_sum_of(self, rhs),
    {
        Self { x: self.x + rhs.x, y: self.y + rhs.y }
    }
}

impl<T: Scalar> vstd::std_specs::ops::SubSpecImpl for Vec2<T> {
    open spec fn obeys_sub_spec() -> bool {
        T::obeys_sub_spec()
    }

    open spec fn sub_req(self, rhs: Self) -> bool {
        self.x.sub_req(rhs.x) && self.y.sub_req(rhs.y)
    }

    open spec fn sub_spec(self, rhs: Self) -> Self {
        Vec2 { x: self.x.sub_spec(rhs.x), y: self.y.sub_spec(rhs.y) }
    }
}

impl<T: Scalar> core::ops::Sub for Vec2<T> {
    type Output = Vec2<T>;

    /// The difference, component by component.
    fn sub(self, rhs: Self) -> (difference: Self)
        ensures
            difference.is_difference_of(self, rhs),
    {
        Self { x: self.x - rhs.x, y: self.y - rhs.y }
    }
}

} // verus!
