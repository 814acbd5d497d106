use vstd::prelude::*;
use vstd::arithmetic::div_mod::lemma_fundamental_div_mod_converse;
use crate::engine::graphics::vec3::Vec3;

verus! {

/// The line rasterizer of the character grid.
pub struct GDI;

/// Distance between two grid coordinates.
pub open spec fn span(a: int, b: int) -> int {
    if a <= b {
        b - a
    } else {
        a - b
    }
}

/// The coordinate `k` cells away from `a` in the direction of `b`.
pub open spec fn toward(a: int, b: int, k: int) -> int {
    if a < b {
        a + k
    } else {
        a - k
    }
}

/// The quotient `n / d` rounded to the nearest integer, a tie going up.
pub open spec fn round_div(n: int, d: int) -> int
    recommends
        d > 0,
{
    (2 * n + d) / (2 * d)
}

/// Number of steps on the line from `start` to `end`: the larger of the
/// two coordinate distances.
pub open spec fn line_steps(start: Vec3<i64>, end: Vec3<i64>) -> int {
    let dx = span(start.x as int, end.x as int);
    let dy = span(start.y as int, end.y as int);
    if dx >= dy {
        dx
    } else {
        dy
    }
}

/// The `k`-th cell of the line from `start` to `end`.
///
/// The line advances one cell per step along the axis with the larger
/// distance; along the other axis it has moved by the ideal line's offset at
/// that step, rounded to the nearest cell. The depth is that of `start`.
pub open spec fn line_cell(start: Vec3<i64>, end: Vec3<i64>, k: int) -> Vec3<i64> {
    let dx = span(start.x as int, end.x as int);
    let dy = span(start.y as int, end.y as int);
    if dx == 0 && dy == 0 {
        start
    } else if dx >= dy {
        Vec3 {
            x: toward(start.x as int, end.x as int, k) as i64,
            y: toward(start.y as int, end.y as int, round_div(k * dy, dx)) as i64,
            z: start.z,
        }
    } else {
        Vec3 {
            x: toward(start.x as int, end.x as int, round_div(k * dx, dy)) as i64,
            y: toward(start.y as int, end.y as int, k) as i64,
            z: start.z,
        }
    }
}

/// The cells of the line from `start` to `end`, in drawing order.
pub open spec fn line_cells(start: Vec3<i64>, end: Vec3<i64>) -> Seq<Vec3<i64>> {
    Seq::new((line_steps(start, end) + 1) as nat, |k: int| line_cell(start, end, k))
}

/// `q` is `round_div(n, d)` as soon as `q * d` lies within half of `d` of
/// `n`, the upper half included.
pub proof fn lemma_round_div_is(n: int, d: int, q: int)
    requires
        d > 0,
        -d < 2 * (q * d - n) <= d,
    ensures
        round_div(n, d) == q,
{
    let r = d - 2 * (q * d - n);
    assert(2 * n + d == q * (2 * d) + r) by (nonlinear_arith)
        requires
            r == d - 2 * (q * d - n),
    ;
    lemma_fundamental_div_mod_converse(2 * n + d, 2 * d, q, r);
}

/// `round_div(n, d) * d` lies within half of `d` of `n`, the upper half
/// included: no multiple of `d` is nearer to `n`.
pub proof fn lemma_round_div_is_nearest(n: int, d: int)
    requires
        d > 0,
    ensures
        -d < 2 * (round_div(n, d) * d - n) <= d,
{
    let x = 2 * n + d;
    let q = x / (2 * d);
    let r = x % (2 * d);
    vstd::arithmetic::div_mod::lemma_fundamental_div_mod(x, 2 * d);
    vstd::arithmetic::div_mod::lemma_mod_bound(x, 2 * d);
    assert(2 * (q * d) == (2 * d) * q) by (nonlinear_arith);
}

/// The line starts on `start` and ends on the column and row of `end`.
pub proof fn lemma_line_ends(start: Vec3<i64>, end: Vec3<i64>)
    ensures
        line_cells(start, end).first() == start,
        line_cells(start, end).last() == (Vec3 { x: end.x, y: end.y, z: start.z }),
{
    let dx = span(start.x as int, end.x as int);
    let dy = span(start.y as int, end.y as int);
    let n = line_steps(start, end);
    if dx == 0 && dy == 0 {
    } else if dx >= dy {
        assert(0 * dy == 0);
        lemma_round_div_is(0 * dy, dx, 0);
        assert(dy * dx == dx * dy) by (nonlinear_arith);
        lemma_round_div_is(dx * dy, dx, dy);
    } else {
        assert(0 * dx == 0);
        lemma_round_div_is(0 * dx, dy, 0);
        assert(dx * dy == dy * dx) by (nonlinear_arith);
        lemma_round_div_is(dy * dx, dy, dx);
    }
    assert(line_cells(start, end).first() == line_cell(start, end, 0));
    assert(line_cells(start, end).last() == line_cell(start, end, n));
}

/// Every cell of a line lies within half a cell of the ideal line: it is
/// `k` steps from `start` along the longer axis, and along the other axis
/// its distance from `start`, times the longer distance, differs from `k`
/// times the shorter distance by half the longer distance at most.
pub proof fn lemma_line_follows_ideal(start: Vec3<i64>, end: Vec3<i64>, k: int)
    requires
        0 <= k <= line_steps(start, end),
    ensures
        ({
            let dx = span(start.x as int, end.x as int);
            let dy = span(start.y as int, end.y as int);
            let cell = line_cell(start, end, k);
            let moved_x = span(start.x as int, cell.x as int);
            let moved_y = span(start.y as int, cell.y as int);
            if dx >= dy {
                moved_x == k && -dx <= 2 * (moved_y * dx - k * dy) <= dx
            } else {
                moved_y == k && -dy <= 2 * (moved_x * dy - k * dx) <= dy
            }
        }),
{
    let dx = span(start.x as int, end.x as int);
    let dy = span(start.y as int, end.y as int);
    if dx == 0 && dy == 0 {
        assert(0 * dx == 0 && k * dy == 0) by (nonlinear_arith)
            requires
                dy == 0,
        ;
    } else if dx >= dy {
        assert(0 <= k * dy <= dx * dy) by (nonlinear_arith)
            requires
                0 <= k <= dx,
                0 <= dy,
        ;
        lemma_round_div_is_nearest(k * dy, dx);
        lemma_round_div_bounds(k * dy, dx, dy);
    } else {
        assert(0 <= k * dx <= dy * dx) by (nonlinear_arith)
            requires
                0 <= k <= dy,
                0 <= dx,
        ;
        lemma_round_div_is_nearest(k * dx, dy);
        lemma_round_div_bounds(k * dx, dy, dx);
    }
}

/// Rounded quotients of numerators that lie at most one divisor apart lie
/// at most one apart.
proof fn lemma_round_div_step(n: int, m: int, d: int)
    requires
        d > 0,
        n <= m <= n + d,
    ensures
        round_div(n, d) <= round_div(m, d) <= round_div(n, d) + 1,
{
    vstd::arithmetic::div_mod::lemma_div_is_ordered(2 * n + d, 2 * m + d, 2 * d);
    vstd::arithmetic::div_mod::lemma_div_is_ordered(2 * m + d, 2 * d + (2 * n + d), 2 * d);
    vstd::arithmetic::div_mod::lemma_div_plus_one(2 * n + d, 2 * d);
}

/// Neighbouring cells of a line touch: from one cell to the next the
/// column and the row change by one at most, one of them does change, and
/// the depth stays.
pub proof fn lemma_line_is_connected(start: Vec3<i64>, end: Vec3<i64>, k: int)
    requires
        0 <= k < line_steps(start, end),
    ensures
        -1 <= line_cell(start, end, k + 1).x - line_cell(start, end, k).x <= 1,
        -1 <= line_cell(start, end, k + 1).y - line_cell(start, end, k).y <= 1,
        line_cell(start, end, k + 1).x != line_cell(start, end, k).x || line_cell(
            start,
            end,
            k + 1,
        ).y != line_cell(start, end, k).y,
        line_cell(start, end, k + 1).z == line_cell(start, end, k).z,
{
    let dx = span(start.x as int, end.x as int);
    let dy = span(start.y as int, end.y as int);
    if dx >= dy {
        assert(k * dy <= (k + 1) * dy == k * dy + dy && 0 <= k * dy && (k + 1) * dy <= dx * dy)
            by (nonlinear_arith)
            requires
                0 <= k < dx,
                0 <= dy,
        ;
        lemma_round_div_step(k * dy, (k + 1) * dy, dx);
        lemma_round_div_bounds(k * dy, dx, dy);
        lemma_round_div_bounds((k + 1) * dy, dx, dy);
    } else {
        assert(k * dx <= (k + 1) * dx == k * dx + dx && 0 <= k * dx && (k + 1) * dx <= dy * dx)
            by (nonlinear_arith)
            requires
                0 <= k < dy,
                0 <= dx,
        ;
        lemma_round_div_step(k * dx, (k + 1) * dx, dy);
        lemma_round_div_bounds(k * dx, dy, dx);
        lemma_round_div_bounds((k + 1) * dx, dy, dx);
    }
}

/// A numerator between 0 and `d * top` has its rounded quotient between
/// 0 and `top`.
proof fn lemma_round_div_bounds(n: int, d: int, top: int)
    requires
        d > 0,
        top >= 0,
        0 <= n <= d * top,
    ensures
        0 <= round_div(n, d) <= top,
{
    lemma_round_div_is_nearest(n, d);
    let q = round_div(n, d);
    assert(0 <= q <= top) by (nonlinear_arith)
        requires
            d > 0,
            top >= 0,
            0 <= n <= d * top,
            -d < 2 * (q * d - n) <= d,
    ;
}

/// With `i` steps taken along an axis of length `len`, an offset `d` of
/// `j * len - i * other` that stays within half of `len` leaves `j` no
/// choice once `i` has reached `len`.
proof fn lemma_end_reached(len: int, other: int, i: int, j: int, d: int)
    by (nonlinear_arith)
    requires
        len > 0,
        0 <= other <= len,
        i == len,
        0 <= j <= other,
        d == j * len - i * other,
        -len <= 2 * d <= len,
    ensures
        j == other,
{
}

impl GDI {
    /// Rasterizes the segment from `start` to `end` on the character grid.
    ///
    /// The cells come out in order from `start` to `end`, both included, one
    /// per step along the longer axis, and each carries the depth of
    /// `start`.
    pub fn line(start: Vec3<i64>, end: Vec3<i64>) -> (points: Vec<Vec3<i64>>)
        ensures
            points@ == line_cells(start, end),
    {
        let mut points: Vec<Vec3<i64>> = Vec::new();

        let dx: i128 = if start.x <= end.x {
            end.x as i128 - start.x as i128
        } else {
            start.x as i128 - end.x as i128
        };
        let ady: i128 = if start.y <= end.y {
            end.y as i128 - start.y as i128
        } else {
            start.y as i128 - end.y as i128
        };
        let dy: i128 = -ady;
        let sx: i64 = if start.x < end.x { 1 } else { -1 };
        let sy: i64 = if start.y < end.y { 1 } else { -1 };
        let mut err: i128 = dx + dy;

        let mut x: i64 = start.x;
        let mut y: i64 = start.y;
        let z: i64 = start.z;

        let ghost mut i: int = 0;
        let ghost mut j: int = 0;
        let ghost mut d: int = 0;

        loop
            invariant_except_break
                points@.len() == (if dx >= ady { i } else { j }),
            invariant
                dx == span(start.x as int, end.x as int),
                ady == span(start.y as int, end.y as int),
                dy == -ady,
                sx == (if start.x < end.x { 1i64 } else { -1i64 }),
                sy == (if start.y < end.y { 1i64 } else { -1i64 }),
                z == start.z,
                0 <= i <= dx,
                0 <= j <= ady,
                x == toward(start.x as int, end.x as int, i),
                y == toward(start.y as int, end.y as int, j),
                d == j * dx - i * ady,
                err == d + dx - ady,
                dx >= ady ==> 2 * d <= dx && (dx > 0 ==> -dx < 2 * d),
                dx < ady ==> -ady <= 2 * d < ady,
                forall|m: int| 0 <= m < points@.len() ==> points@[m] == line_cell(start, end, m),
            ensures
                points@.len() == line_steps(start, end) + 1,
            decreases (dx - i) + (ady - j),
        {
            proof {
                if dx == 0 && ady == 0 {
                } else if dx >= ady {
                    lemma_round_div_is(i * ady, dx as int, j);
                } else {
                    lemma_round_div_is(j * dx, ady as int, i);
                }
            }
            points.push(Vec3::new(x, y, z));
            if x == end.x && y == end.y {
                break;
            }
            proof {
                if dx >= ady {
                    if i == dx {
                        lemma_end_reached(dx as int, ady as int, i, j, d);
                    }
                } else {
                    if j == ady {
                        lemma_end_reached(ady as int, dx as int, j, i, -d);
                    }
                }
            }

            let e2: i128 = 2 * err;
            if e2 >= dy {
                proof {
                    assert(i < dx) by (nonlinear_arith)
                        requires
                            0 <= i <= dx,
                            0 <= j <= ady,
                            d == j * dx - i * ady,
                            2 * (d + dx - ady) >= -ady,
                            dx >= ady ==> i < dx,
                            dx < ady ==> j < ady,
                    ;
                    assert(j * dx - (i + 1) * ady == d - ady) by (nonlinear_arith)
                        requires
                            d == j * dx - i * ady,
                    ;
                    i = i + 1;
                    d = d - ady;
                }
                err += dy;
                x += sx;
            }
            if e2 <= dx {
                proof {
                    assert(j < ady) by (nonlinear_arith)
                        requires
                            0 <= i <= dx,
                            0 <= j <= ady,
                            d == j * dx - i * ady,
                            e2 <= dx,
                            e2 >= -ady ==> e2 == 2 * (d + ady + dx - ady),
                            e2 < -ady ==> e2 == 2 * (d + dx - ady),
                            dx < ady ==> j < ady,
                            dx >= ady ==> dx > 0,
                    ;
                    assert((j + 1) * dx - i * ady == d + dx) by (nonlinear_arith)
                        requires
                            d == j * dx - i * ady,
                    ;
                    j = j + 1;
                    d = d + dx;
                }
                err += dx;
                y += sy;
            }
        }
        proof {
            assert(points@ =~= line_cells(start, end));
        }
        points
    }
}

} // verus!
