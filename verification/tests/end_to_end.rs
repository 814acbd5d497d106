use rustender::prelude::ascii_from_level;
use rustender::prelude::Camera;
use rustender::prelude::Mesh;
use rustender::prelude::Outline;
use rustender::prelude::Renderer;
use rustender::prelude::Size;
use rustender::prelude::Triangle;
use rustender::prelude::Vec2;
use rustender::prelude::Vec3;
use rustender::prelude::ASCII_BRIGHTNESS;

fn normalize(v: Vec3<f64>) -> Vec3<f64> {
    let len = v.dot(v).sqrt();
    Vec3::new(v.x / len, v.y / len, v.z / len)
}

fn focal_length(camera: &Camera<f64>) -> f64 {
    (camera.height / 2) as f64 / (camera.fov / 2.0).tan()
}

fn on_grid(v: Vec3<f64>) -> Vec3<i64> {
    Vec3::new(v.x as i64, v.y as i64, v.z.to_bits() as i64)
}

/// Shades and projects one triangle the way a scene in `f64` is drawn.
fn outline(triangle: &Triangle<f64>, camera: &Camera<f64>, light: Vec3<f64>) -> Outline {
    let v = triangle.vertices;
    let normal = normalize(triangle.face_vector());
    let intensity = normal.dot(normalize(light)).max(0.0);
    let level = (intensity * (ASCII_BRIGHTNESS.len() as f64 - 1.0)).round() as usize;
    let cells = Triangle::new([on_grid(v[0]), on_grid(v[1]), on_grid(v[2])])
        .rasterize()
        .iter()
        .map(|p| Vec3::new(p.x as f64, p.y as f64, f64::from_bits(p.z as u64)))
        .map(|p| p.get_projected_2d(focal_length(camera)))
        .map(|p| Vec2::new(p.x as i64, p.y as i64))
        .collect();
    Outline { glyph: ascii_from_level(level), cells }
}

fn shown(renderer: &Renderer<f64>) -> Vec<String> {
    let frame = renderer.front_buffer();
    frame.buffer.chunks(frame.chunk_width as usize).map(|row| row.iter().collect()).collect()
}

fn quarter_turn_camera() -> Camera<f64> {
    Camera::new().width(12).height(60).fov(2.0 * 1.0f64.atan()).build()
}

#[test]
fn triangle_facing_the_light_shows_densest_glyph_on_its_edges() {
    let camera = quarter_turn_camera();
    let mut renderer = Renderer::new().size(Size::new(12, 10)).light_direction(Vec3::new(0.0, 0.0, 1.0)).build();
    renderer.add_mesh(
        Mesh::new().add_triangle([[0.0, 0.0, 30.0], [10.0, 0.0, 30.0], [0.0, 8.0, 30.0]].into()).build(),
    );
    let light = *renderer.light_direction();
    renderer.transfer(|triangle| outline(triangle, &camera, light));
    assert_eq!(
        shown(&renderer),
        vec![
            "@@@@@@@@@@@ ",
            "@        @  ",
            "@      @@   ",
            "@     @     ",
            "@    @      ",
            "@   @       ",
            "@ @@        ",
            "@@          ",
            "@           ",
            "            ",
        ]
    );
}

#[test]
fn triangle_facing_away_from_the_light_shows_sparsest_glyph() {
    let camera = quarter_turn_camera();
    let mut renderer = Renderer::new().size(Size::new(12, 10)).light_direction(Vec3::new(0.0, 0.0, -1.0)).build();
    renderer.add_mesh(
        Mesh::new().add_triangle([[0.0, 0.0, 30.0], [10.0, 0.0, 30.0], [0.0, 8.0, 30.0]].into()).build(),
    );
    let light = *renderer.light_direction();
    renderer.transfer(|triangle| outline(triangle, &camera, light));
    assert!(renderer.front_buffer().buffer.iter().all(|c| *c == ' '));
}

#[test]
fn triangle_lit_at_an_angle_shows_a_glyph_in_between() {
    let camera = quarter_turn_camera();
    let mut renderer = Renderer::new().size(Size::new(4, 4)).light_direction(Vec3::new(0.0, 4.0, 3.0)).build();
    renderer.add_mesh(Mesh::new().add_triangle([[0.0, 0.0, 30.0], [2.0, 0.0, 30.0], [0.0, 2.0, 30.0]].into()).build());
    let light = *renderer.light_direction();
    renderer.transfer(|triangle| outline(triangle, &camera, light));
    assert_eq!(shown(&renderer), vec!["+++ ", "++  ", "+   ", "    "]);
}

#[test]
fn triangle_out_of_view_leaves_the_frame_blank() {
    let camera = quarter_turn_camera();
    let mut renderer = Renderer::new().size(Size::new(12, 10)).light_direction(Vec3::new(0.0, 0.0, 1.0)).build();
    renderer.add_mesh(
        Mesh::new()
            .add_triangle([[-9.0, -1.0, 30.0], [-2.0, -1.0, 30.0], [-2.0, -7.0, 30.0]].into())
            .add_triangle([[20.0, 20.0, 30.0], [30.0, 20.0, 30.0], [20.0, 28.0, 30.0]].into())
            .build(),
    );
    let light = *renderer.light_direction();
    renderer.transfer(|triangle| outline(triangle, &camera, light));
    assert!(renderer.front_buffer().buffer.iter().all(|c| *c == ' '));
}

#[test]
fn nearer_triangle_projects_larger() {
    let camera = quarter_turn_camera();
    let mut renderer = Renderer::new().size(Size::new(8, 5)).light_direction(Vec3::new(0.0, 0.0, 1.0)).build();
    renderer.add_mesh(Mesh::new().add_triangle([[0.0, 1.0, 15.0], [3.0, 1.0, 15.0], [0.0, 2.0, 15.0]].into()).build());
    let light = *renderer.light_direction();
    renderer.transfer(|triangle| outline(triangle, &camera, light));
    assert_eq!(shown(&renderer), vec!["        ", "        ", "@ @ @ @ ", "        ", "@ @     "]);
}

#[test]
fn triangle_without_area_shows_sparsest_glyph() {
    let camera = quarter_turn_camera();
    let mut renderer = Renderer::new().size(Size::new(4, 2)).light_direction(Vec3::new(0.0, 0.0, 1.0)).build();
    renderer.transfer(|_| Outline { glyph: '#', cells: Vec::new() });
    renderer.add_mesh(Mesh::new().add_triangle([[0.0, 1.0, 30.0], [3.0, 1.0, 30.0], [0.0, 1.0, 30.0]].into()).build());
    for _ in 0..2 {
        renderer.transfer(|triangle| Outline { glyph: '#', cells: outline(triangle, &camera, Vec3::new(0.0, 0.0, 1.0)).cells });
    }
    assert_eq!(shown(&renderer), vec!["    ", "####"]);
    let light = *renderer.light_direction();
    renderer.transfer(|triangle| outline(triangle, &camera, light));
    assert_eq!(shown(&renderer), vec!["    ", "    "]);
}
