use rustender::engine::math::matrices::Matrix;
use rustender::engine::math::special_matrices::rotation_matrix_2d;
use rustender::engine::math::special_matrices::rotation_matrix_x_3d;
use rustender::engine::math::special_matrices::rotation_matrix_y_3d;
use rustender::engine::math::special_matrices::rotation_matrix_z_3d;
use rustender::prelude::Triangle;
use rustender::prelude::Vec2;
use rustender::prelude::Vec3;

#[test]
fn vec2_new_add_sub() {
    let a = Vec2::new(1.5, -2.0);
    let b = Vec2::new(0.5, 4.0);
    assert_eq!(a + b, Vec2::new(2.0, 2.0));
    assert_eq!(a - b, Vec2::new(1.0, -6.0));
    assert_eq!(Vec2::new(3, 4) + Vec2::new(-3, 1), Vec2::new(0, 5));
}

#[test]
fn vec3_add_then_sub_restores() {
    let a = Vec3::new(1.25, -2.5, 3.0);
    let b = Vec3::new(0.5, 4.0, -8.0);
    assert_eq!(a + b - b, a);
    let a = Vec3::new(7i64, -2, 3);
    let b = Vec3::new(i64::MAX - 7, 4, i64::MIN + 3);
    assert_eq!(a + b - b, a);
}

#[test]
fn vec3_dot_product() {
    assert_eq!(Vec3::new(1.0, 2.0, 3.0).dot(Vec3::new(4.0, -5.0, 6.0)), 12.0);
    assert_eq!(Vec3::new(1, 0, 0).dot(Vec3::new(0, 1, 0)), 0);
}

#[test]
fn vec3_cross_product() {
    assert_eq!(Vec3::new(1.0, 0.0, 0.0).cross(Vec3::new(0.0, 1.0, 0.0)), Vec3::new(0.0, 0.0, 1.0));
    assert_eq!(Vec3::new(2, 3, 4).cross(Vec3::new(5, 6, 7)), Vec3::new(-3, 6, -3));
}

#[test]
fn vec3_cross_is_antisymmetric() {
    let a = Vec3::new(2i64, -3, 4);
    let b = Vec3::new(5i64, 6, -7);
    let ab = a.cross(b);
    let ba = b.cross(a);
    assert_eq!(ab, Vec3::new(-ba.x, -ba.y, -ba.z));
    let a = Vec3::new(1.5, -3.0, 0.25);
    let b = Vec3::new(5.0, 6.5, -7.0);
    let ab = a.cross(b);
    let ba = b.cross(a);
    assert_eq!(ab, Vec3::new(-ba.x, -ba.y, -ba.z));
}

#[test]
fn triangle_face_vector_follows_the_winding() {
    let triangle = Triangle::from([[0.0, 0.0, 0.0], [1.0, 0.0, 0.0], [0.0, 1.0, 0.0]]);
    assert_eq!(triangle.face_vector(), Vec3::new(0.0, 0.0, 1.0));
    let turned = Triangle::from([[0.0, 0.0, 0.0], [0.0, 1.0, 0.0], [1.0, 0.0, 0.0]]);
    assert_eq!(turned.face_vector(), Vec3::new(0.0, 0.0, -1.0));
    let tilted = Triangle::from([[1, 2, 3], [4, 2, 3], [1, 2, 8]]);
    assert_eq!(tilted.face_vector(), Vec3::new(0, -15, 0));
}

#[test]
fn vec3_projection_divides_by_depth() {
    assert_eq!(Vec3::new(10.0, 20.0, 5.0).get_projected_2d(3.0), Vec2::new(6.0, 12.0));
    assert_eq!(Vec3::new(1.0, -1.0, 4.0).get_projected_2d(30.0), Vec2::new(7.5, -7.5));
    assert_eq!(Vec3::new(10, 21, 5).get_projected_2d(3), Vec2::new(6, 12));
}

#[test]
fn vec3_uniform_constant() {
    assert_eq!(Vec3::<f64>::uniform(1), Vec3::new(1.0, 1.0, 1.0));
    assert_eq!(Vec3::<i32>::uniform(-4), Vec3::new(-4, -4, -4));
}

#[test]
fn matrix_from_and_index() {
    let m: Matrix<i32, 2, 3> = [[1, 2, 3], [4, 5, 6]].into();
    assert_eq!(m, Matrix([[1, 2, 3], [4, 5, 6]]));
    assert_eq!(m[(0, 2)], 3);
    assert_eq!(m[(1, 0)], 4);
    assert_eq!(Matrix::from([[1.5]])[(0, 0)], 1.5);
}

#[test]
fn matrix_sum_less_addend_is_the_matrix() {
    let a = Matrix([[1i64, -2, 3], [4, 5, -6]]);
    let b = Matrix([[10i64, 20, -30], [i64::MAX - 4, -5, 6]]);
    assert_eq!((a + b) - b, a);
}

#[test]
fn matrix_times_identity_is_the_matrix() {
    let a = Matrix([[1i64, -2, 3], [4, i64::MAX, -6], [7, 8, i64::MIN]]);
    let identity = Matrix([[1i64, 0, 0], [0, 1, 0], [0, 0, 1]]);
    assert_eq!(a * identity, a);
    assert_eq!(identity * a, a);
}

#[test]
fn matrix_mul_row_by_column() {
    let row = Matrix([[1, 2, 3]]);
    let column = Matrix([[1], [2], [3]]);
    assert_eq!(row * column, Matrix([[14]]));
    assert_eq!(column * row, Matrix([[1, 2, 3], [2, 4, 6], [3, 6, 9]]));
}

#[test]
fn matrix_of_floats() {
    let a = Matrix([[0.5, 1.5], [2.0, -1.0]]);
    let b = Matrix([[2.0, 0.0], [1.0, 4.0]]);
    assert_eq!(a + b, Matrix([[2.5, 1.5], [3.0, 3.0]]));
    assert_eq!(a - b, Matrix([[-1.5, 1.5], [1.0, -5.0]]));
    assert_eq!(a * b, Matrix([[2.5, 6.0], [3.0, -4.0]]));
}

#[test]
fn rotation_matrices_place_cosine_and_sine() {
    let (c, s) = (0.6, 0.8);
    assert_eq!(rotation_matrix_x_3d(c, s), Matrix([[1.0, 0.0, 0.0], [0.0, c, -s], [0.0, s, c]]));
    assert_eq!(rotation_matrix_y_3d(c, s), Matrix([[c, 0.0, s], [0.0, 1.0, 0.0], [-s, 0.0, c]]));
    assert_eq!(rotation_matrix_z_3d(c, s), Matrix([[c, -s, 0.0], [s, c, 0.0], [0.0, 0.0, 1.0]]));
    assert_eq!(rotation_matrix_2d(c, s), Matrix([[c, s], [-s, c]]));
}

#[test]
fn rotation_by_quarter_turn_over_integers() {
    let turn = rotation_matrix_z_3d(0i64, 1i64);
    let point = Matrix([[1i64], [0], [5]]);
    assert_eq!(turn * point, Matrix([[0], [1], [5]]));
    assert_eq!(rotation_matrix_2d(0i64, 1i64), Matrix([[0, 1], [-1, 0]]));
}
