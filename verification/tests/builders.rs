use rustender::prelude::Camera;
use rustender::prelude::Mesh;
use rustender::prelude::Rotation;
use rustender::prelude::Triangle;
use rustender::prelude::Vec3;
use rustender::prelude::MESHES;

#[test]
fn camera_defaults() {
    let camera = Camera::<f64>::new().build();
    assert_eq!(camera.location, Vec3::new(0.0, 0.0, 0.0));
    assert_eq!(camera.width, 100);
    assert_eq!(camera.height, 60);
    assert_eq!(camera.fov, 90.0);
    assert_eq!(camera.rotation, Rotation::new(0.0, 0.0, 0.0));
}

#[test]
fn camera_keeps_choices() {
    let camera = Camera::new().location([1.0, 0.0, 0.0].into()).width(80).height(50).fov(1.5).build();
    assert_eq!(camera.location, Vec3::new(1.0, 0.0, 0.0));
    assert_eq!(camera.width, 80);
    assert_eq!(camera.height, 50);
    assert_eq!(camera.fov, 1.5);
}

#[test]
fn camera_last_write_wins_in_any_order() {
    let one = Camera::<f64>::new().width(10).height(20).width(30).build();
    let other = Camera::<f64>::new().height(5).width(30).height(20).build();
    assert_eq!(one, other);
    assert_eq!(one.width, 30);
    assert_eq!(one.height, 20);
}

#[test]
fn camera_over_integers() {
    let camera = Camera::<i32>::new().build();
    assert_eq!(camera.fov, 90);
    assert_eq!(camera.location, Vec3::new(0, 0, 0));
}

#[test]
fn mesh_defaults() {
    let mesh = Mesh::<f64>::new().build();
    assert!(mesh.triangles.is_empty());
    assert_eq!(mesh.position, Vec3::new(0.0, 0.0, 0.0));
    assert_eq!(mesh.rotation, Rotation::new(0.0, 0.0, 0.0));
    assert_eq!(mesh.scale, Vec3::new(1.0, 1.0, 1.0));
}

#[test]
fn mesh_triangles_set_and_added() {
    let a: Triangle<f64> = [[0.0, 0.0, 0.0], [1.0, 0.0, 0.0], [0.0, 1.0, 0.0]].into();
    let b: Triangle<f64> = [[0.0, 0.0, 1.0], [1.0, 0.0, 1.0], [0.0, 1.0, 1.0]].into();
    let mesh = Mesh::new().add_triangle(a.clone()).add_triangle(b.clone()).build();
    assert_eq!(mesh.triangles, vec![a.clone(), b.clone()]);
    let mesh = Mesh::new().add_triangle(a.clone()).set_triangles(vec![b.clone()]).add_triangle(a.clone()).build();
    assert_eq!(mesh.triangles, vec![b, a]);
}

#[test]
fn mesh_single_axis_setters_start_from_zero() {
    assert_eq!(Mesh::<f64>::new().set_rotation_x(2.0).build().rotation, Rotation::new(2.0, 0.0, 0.0));
    assert_eq!(Mesh::<f64>::new().set_rotation_y(2.0).build().rotation, Rotation::new(0.0, 2.0, 0.0));
    assert_eq!(Mesh::<f64>::new().set_rotation_z(2.0).build().rotation, Rotation::new(0.0, 0.0, 2.0));
    assert_eq!(Mesh::<f64>::new().set_position_x(3.0).build().position, Vec3::new(3.0, 0.0, 0.0));
    assert_eq!(Mesh::<f64>::new().set_position_y(3.0).build().position, Vec3::new(0.0, 3.0, 0.0));
    assert_eq!(Mesh::<f64>::new().set_position_z(3.0).build().position, Vec3::new(0.0, 0.0, 3.0));
}

#[test]
fn mesh_single_axis_setters_keep_other_axes() {
    let mesh = Mesh::<f64>::new()
        .set_rotation(1.0, 2.0, 3.0)
        .set_rotation_y(5.0)
        .set_position(Vec3::new(4.0, 5.0, 6.0))
        .set_position_z(9.0)
        .set_position_x(7.0)
        .build();
    assert_eq!(mesh.rotation, Rotation::new(1.0, 5.0, 3.0));
    assert_eq!(mesh.position, Vec3::new(7.0, 5.0, 9.0));
}

#[test]
fn mesh_last_write_wins_in_any_order() {
    let one = Mesh::<f64>::new().set_rotation_x(1.0).set_position_y(2.0).set_rotation_x(3.0).build();
    let other = Mesh::<f64>::new().set_position_y(2.0).set_rotation_x(3.0).build();
    assert_eq!(one, other);
}

#[test]
fn cube_has_twelve_triangles_around_its_centre() {
    let mesh = MESHES::cube(3.0f64);
    assert_eq!(mesh.triangles.len(), 12);
    for triangle in &mesh.triangles {
        for v in &triangle.vertices {
            assert!(v.x.abs() == 1.5 && v.y.abs() == 1.5 && v.z.abs() == 1.5);
        }
    }
    assert_eq!(
        mesh.triangles[0],
        Triangle::from([[-1.5, -1.5, -1.5], [1.5, -1.5, -1.5], [1.5, 1.5, -1.5]])
    );
    assert_eq!(
        mesh.triangles[11],
        Triangle::from([[-1.5, 1.5, -1.5], [1.5, 1.5, 1.5], [-1.5, 1.5, 1.5]])
    );
    assert_eq!(mesh.position, Vec3::new(0.0, 0.0, 10.0));
    assert_eq!(mesh.rotation, Rotation::new(0.0, 0.0, 0.0));
    assert_eq!(mesh.scale, Vec3::new(1.0, 1.0, 1.0));
}

#[test]
fn cube_over_integers() {
    let mesh = MESHES::cube(4i64);
    assert_eq!(mesh.triangles[2], Triangle::from([[2, -2, 2], [-2, -2, 2], [-2, 2, 2]]));
    assert_eq!(mesh.position, Vec3::new(0, 0, 10));
}
