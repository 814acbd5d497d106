use rustender::prelude::Triangle;
use rustender::prelude::Vec3;
use rustender::prelude::GDI;

fn cells(points: &[Vec3<i64>]) -> Vec<(i64, i64)> {
    points.iter().map(|p| (p.x, p.y)).collect()
}

/// The incremental error-accumulating walk, written out step by step.
fn stepwise(x0: i64, y0: i64, x1: i64, y1: i64) -> Vec<(i64, i64)> {
    let mut out = Vec::new();
    let dx = (x1 - x0).abs();
    let dy = -(y1 - y0).abs();
    let sx = if x0 < x1 { 1 } else { -1 };
    let sy = if y0 < y1 { 1 } else { -1 };
    let mut err = dx + dy;
    let (mut x, mut y) = (x0, y0);
    loop {
        out.push((x, y));
        if x == x1 && y == y1 {
            break;
        }
        let e2 = 2 * err;
        if e2 >= dy {
            err += dy;
            x += sx;
        }
        if e2 <= dx {
            err += dx;
            y += sy;
        }
    }
    out
}

#[test]
fn line_between_equal_points_is_one_point() {
    let points = GDI::line(Vec3::new(0, 0, 0), Vec3::new(0, 0, 0));
    assert_eq!(points, vec![Vec3::new(0, 0, 0)]);
}

#[test]
fn line_along_x_has_four_points_in_order() {
    let points = GDI::line(Vec3::new(0, 0, 0), Vec3::new(3, 0, 0));
    assert_eq!(cells(&points), vec![(0, 0), (1, 0), (2, 0), (3, 0)]);
}

#[test]
fn line_along_y_downwards() {
    let points = GDI::line(Vec3::new(2, 1, 0), Vec3::new(2, -2, 0));
    assert_eq!(cells(&points), vec![(2, 1), (2, 0), (2, -1), (2, -2)]);
}

#[test]
fn line_on_the_diagonal() {
    let points = GDI::line(Vec3::new(-1, -1, 0), Vec3::new(2, 2, 0));
    assert_eq!(cells(&points), vec![(-1, -1), (0, 0), (1, 1), (2, 2)]);
}

#[test]
fn line_shallow_rounds_to_nearest_row() {
    let points = GDI::line(Vec3::new(0, 0, 0), Vec3::new(5, 2, 0));
    assert_eq!(cells(&points), vec![(0, 0), (1, 0), (2, 1), (3, 1), (4, 2), (5, 2)]);
}

#[test]
fn line_tie_goes_away_from_start() {
    let points = GDI::line(Vec3::new(0, 0, 0), Vec3::new(2, 1, 0));
    assert_eq!(cells(&points), vec![(0, 0), (1, 1), (2, 1)]);
    let back = GDI::line(Vec3::new(2, 1, 0), Vec3::new(0, 0, 0));
    assert_eq!(cells(&back), vec![(2, 1), (1, 0), (0, 0)]);
}

#[test]
fn line_steep_rounds_to_nearest_column() {
    let points = GDI::line(Vec3::new(0, 0, 0), Vec3::new(-1, 4, 0));
    assert_eq!(cells(&points), vec![(0, 0), (0, 1), (-1, 2), (-1, 3), (-1, 4)]);
}

#[test]
fn line_carries_depth_of_start() {
    let points = GDI::line(Vec3::new(0, 0, 7), Vec3::new(3, 1, 9));
    assert_eq!(points.len(), 4);
    assert!(points.iter().all(|p| p.z == 7));
}

#[test]
fn line_length_is_longer_distance_plus_one() {
    assert_eq!(GDI::line(Vec3::new(3, -4, 0), Vec3::new(-7, 2, 0)).len(), 11);
    assert_eq!(GDI::line(Vec3::new(3, -4, 0), Vec3::new(5, 9, 0)).len(), 14);
}

#[test]
fn line_agrees_with_stepwise_walk() {
    for x0 in -3..=3 {
        for y0 in -3..=3 {
            for x1 in -7..=7 {
                for y1 in -7..=7 {
                    let points = GDI::line(Vec3::new(x0, y0, 1), Vec3::new(x1, y1, 1));
                    assert_eq!(cells(&points), stepwise(x0, y0, x1, y1));
                }
            }
        }
    }
}

#[test]
fn line_neighbours_touch() {
    let points = GDI::line(Vec3::new(-9, 4, 0), Vec3::new(13, -6, 0));
    for pair in points.windows(2) {
        let (dx, dy) = (pair[1].x - pair[0].x, pair[1].y - pair[0].y);
        assert!(dx.abs() <= 1 && dy.abs() <= 1 && (dx, dy) != (0, 0));
    }
    assert_eq!(cells(&points)[0], (-9, 4));
    assert_eq!(cells(&points)[points.len() - 1], (13, -6));
}

#[test]
fn line_spans_far_apart_coordinates() {
    let points = GDI::line(Vec3::new(i64::MAX - 2, i64::MIN, 0), Vec3::new(i64::MAX, i64::MIN + 1, 0));
    assert_eq!(
        cells(&points),
        vec![(i64::MAX - 2, i64::MIN), (i64::MAX - 1, i64::MIN + 1), (i64::MAX, i64::MIN + 1)]
    );
}

#[test]
fn triangle_rasterize_joins_three_edges() {
    let a = Vec3::new(0, 0, 1);
    let b = Vec3::new(3, 0, 2);
    let c = Vec3::new(0, 2, 3);
    let triangle = Triangle::new([a, b, c]);
    let mut expected = GDI::line(a, b);
    expected.extend(GDI::line(b, c));
    expected.extend(GDI::line(c, a));
    let outline = triangle.rasterize();
    assert_eq!(outline, expected);
    assert_eq!(outline.len(), 4 + 4 + 3);
    assert_eq!(
        cells(&outline),
        vec![(0, 0), (1, 0), (2, 0), (3, 0), (3, 0), (2, 1), (1, 1), (0, 2), (0, 2), (0, 1), (0, 0)]
    );
    assert_eq!(outline.iter().map(|p| p.z).collect::<Vec<i64>>(), vec![1, 1, 1, 1, 2, 2, 2, 2, 3, 3, 3]);
}

#[test]
fn triangle_rasterize_of_a_point() {
    let p = Vec3::new(4, 4, 0);
    let outline = Triangle::new([p, p, p]).rasterize();
    assert_eq!(outline, vec![p, p, p]);
}
