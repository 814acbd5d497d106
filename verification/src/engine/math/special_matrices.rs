use vstd::prelude::*;
use vstd::std_specs::ops::NegSpec;
use crate::engine::math::matrices::Matrix;
use crate::engine::math::scalar::constant;
use crate::engine::math::scalar::is_constant;
use crate::engine::math::scalar::is_negation;
use crate::engine::math::scalar::Scalar;

verus! {

/// `m` is laid out as the rotation about the X axis by the angle whose
/// cosine is `cos` and whose sine is `sin`.
pub open spec fn is_rotation_x_3d<T: Scalar>(m: Matrix<T, 3, 3>, cos: T, sin: T) -> bool {
    exists|one: T, zero: T, minus_sin: T|
        is_constant(one, 1) && is_constant(zero, 0) && is_negation(minus_sin, sin) && m.0 == [
            [one, zero, zero],
            [zero, cos, minus_sin],
            [zero, sin, cos],
        ]
}

/// `m` is laid out as the rotation about the Y axis by the angle whose
/// cosine is `cos` and whose sine is `sin`.
pub open spec fn is_rotation_y_3d<T: Scalar>(m: Matrix<T, 3, 3>, cos: T, sin: T) -> bool {
    exists|one: T, zero: T, minus_sin: T|
        is_constant(one, 1) && is_constant(zero, 0) && is_negation(minus_sin, sin) && m.0 == [
            [cos, zero, sin],
            [zero, one, zero],
            [minus_sin, zero, cos],
        ]
}

/// `m` is laid out as the rotation about the Z axis by the angle whose
/// cosine is `cos` and whose sine is `sin`.
pub open spec fn is_rotation_z_3d<T: Scalar>(m: Matrix<T, 3, 3>, cos: T, sin: T) -> bool {
    exists|one: T, zero: T, minus_sin: T|
        is_constant(one, 1) && is_constant(zero, 0) && is_negation(minus_sin, sin) && m.0 == [
            [cos, minus_sin, zero],
            [sin, cos, zero],
            [zero, zero, one],
        ]
}

/// `m` is laid out as the rotation of the plane by the angle whose
/// cosine is `cos` and whose sine is `sin`.
pub open spec fn is_rotation_2d<T: Scalar>(m: Matrix<T, 2, 2>, cos: T, sin: T) -> bool {
    exists|minus_sin: T| is_negation(minus_sin, sin) && m.0 == [[cos, sin], [minus_sin, cos]]
}

/// The matrix that turns points about the X axis, from the cosine and the
/// sine of the angle.
pub fn rotation_matrix_x_3d<T: Scalar>(cos: T, sin: T) -> (m: Matrix<T, 3, 3>)
    requires
        sin.neg_req(),
    ensures
        is_rotation_x_3d(m, cos, sin),
{
    let one: T = constant(1);
    let zero: T = constant(0);
    let minus_sin = sin.neg();
    Matrix([[one, zero, zero], [zero, cos, minus_sin], [zero, sin, cos]])
}

/// The matrix that turns points about the Y axis, from the cosine and the
/// sine of the angle.
pub fn rotation_matrix_y_3d<T: Scalar>(cos: T, sin: T) -> (m: Matrix<T, 3, 3>)
    requires
        sin.neg_req(),
    ensures
        is_rotation_y_3d(m, cos, sin),
{
    let one: T = constant(1);
    let zero: T = constant(0);
    let minus_sin = sin.neg();
    Matrix([[cos, zero, sin], [zero, one, zero], [minus_sin, zero, cos]])
}

/// The matrix that turns points about the Z axis, from the cosine and the
/// sine of the angle.
pub fn rotation_matrix_z_3d<T: Scalar>(cos: T, sin: T) -> (m: Matrix<T, 3, 3>)
    requires
        sin.neg_req(),
    ensures
        is_rotation_z_3d(m, cos, sin),
{
    let one: T = constant(1);
    let zero: T = constant(0);
    let minus_sin = sin.neg();
    Matrix([[cos, minus_sin, zero], [sin, cos, zero], [zero, zero, one]])
}

/// The matrix that turns points of the plane, from the cosine and the sine
/// of the angle.
pub fn rotation_matrix_2d<T: Scalar>(cos: T, sin: T) -> (m: Matrix<T, 2, 2>)
    requires
        sin.neg_req(),
    ensures
        is_rotation_2d(m, cos, sin),
{
    let minus_sin = sin.neg();
    let m = Matrix([[cos, sin], [minus_sin, cos]]);
    assert(is_negation(minus_sin, sin) && m.0 == [[cos, sin], [minus_sin, cos]]);
    m
}

} // verus!
