use vstd::prelude::*;
use crate::engine::graphics::mesh::Mesh;
use crate::engine::graphics::triangle::Triangle;
use crate::engine::graphics::vec2::Vec2;
use crate::engine::rendering::ascii_buffer::AsciiBuffer;

verus! {

/// The projected outline of one triangle and the glyph it is drawn with.
#[derive(Debug, Clone, PartialEq)]
pub struct Outline {
    /// The glyph that shades the triangle.
    pub glyph: char,
    /// The projected cells of the outline, in drawing order.
    pub cells: Vec<Vec2<i64>>,
}

/// The transfer stage: it writes the triangles of a scene, in order, into
/// a frame.
pub struct Transferer<'a, T>(pub &'a Vec<Mesh<T>>);

/// The triangles of `meshes` in drawing order: mesh after mesh, and
/// within a mesh in the order in which it lists them.
pub open spec fn scene_triangles<T>(meshes: Seq<Mesh<T>>) -> Seq<Triangle<T>>
    decreases meshes.len(),
{
    if meshes.len() == 0 {
        Seq::empty()
    } else {
        scene_triangles(meshes.drop_last()) + meshes.last().triangles@
    }
}

/// `outlines` holds, for each of `triangles` in order, an outline that
/// `shade` gives for it.
pub open spec fn shaded_by<T, F: Fn(&Triangle<T>) -> Outline>(
    shade: F,
    triangles: Seq<Triangle<T>>,
    outlines: Seq<Outline>,
) -> bool {
    &&& outlines.len() == triangles.len()
    &&& forall|k: int|
        0 <= k < triangles.len() ==> call_ensures(shade, (&triangles[k],), #[trigger] outlines[k])
}

/// `cell` lies inside a frame of `len` glyphs in rows of `width`: its
/// column is one of the row and its row is one of the whole rows.
pub open spec fn visible(len: int, width: int, cell: Vec2<i64>) -> bool {
    &&& 0 <= cell.x < width
    &&& 0 <= cell.y < len / width
}

/// The glyphs of a frame after `glyph` is plotted at `cell`: a visible
/// cell takes the glyph, any other cell is dropped.
pub open spec fn plotted(glyphs: Seq<char>, width: int, cell: Vec2<i64>, glyph: char) -> Seq<
    char,
> {
    if visible(glyphs.len() as int, width, cell) {
        glyphs.update(cell.x + cell.y * width, glyph)
    } else {
        glyphs
    }
}

/// The glyphs of a frame after `glyph` is plotted at each of `cells`, in
/// order.
pub open spec fn drawn(glyphs: Seq<char>, width: int, cells: Seq<Vec2<i64>>, glyph: char) -> Seq<
    char,
>
    decreases cells.len(),
{
    if cells.len() == 0 {
        glyphs
    } else {
        plotted(drawn(glyphs, width, cells.drop_last(), glyph), width, cells.last(), glyph)
    }
}

/// The glyphs of a frame after each of `outlines` is drawn, in order: a
/// later outline overwrites an earlier one where they meet.
pub open spec fn transferred(glyphs: Seq<char>, width: int, outlines: Seq<Outline>) -> Seq<char>
    decreases outlines.len(),
{
    if outlines.len() == 0 {
        glyphs
    } else {
        drawn(
            transferred(glyphs, width, outlines.drop_last()),
            width,
            outlines.last().cells@,
            outlines.last().glyph,
        )
    }
}

/// A visible cell addresses a glyph of the frame.
pub proof fn lemma_visible_is_held(len: int, width: int, cell: Vec2<i64>)
    requires
        width > 0,
        len >= 0,
        visible(len, width, cell),
    ensures
        0 <= cell.x + cell.y * width < len,
{
    let rows = len / width;
    assert(cell.y * width >= 0 && cell.y * width + width <= rows * width) by (nonlinear_arith)
        requires
            0 <= cell.y < rows,
            width > 0,
    ;
    assert(rows * width <= len) by {
        vstd::arithmetic::div_mod::lemma_fundamental_div_mod(len, width);
        vstd::arithmetic::mul::lemma_mul_is_commutative(rows, width);
        vstd::arithmetic::div_mod::lemma_mod_pos_bound(len, width);
    }
}

/// Drawing keeps the number of glyphs.
pub proof fn lemma_drawn_keeps_length(
    glyphs: Seq<char>,
    width: int,
    cells: Seq<Vec2<i64>>,
    glyph: char,
)
    requires
        width > 0,
    ensures
        drawn(glyphs, width, cells, glyph).len() == glyphs.len(),
    decreases cells.len(),
{
    if cells.len() > 0 {
        lemma_drawn_keeps_length(glyphs, width, cells.drop_last(), glyph);
        let before = drawn(glyphs, width, cells.drop_last(), glyph);
        if visible(before.len() as int, width, cells.last()) {
            lemma_visible_is_held(before.len() as int, width, cells.last());
        }
    }
}

/// Transferring keeps the number of glyphs.
pub proof fn lemma_transferred_keeps_length(glyphs: Seq<char>, width: int, outlines: Seq<Outline>)
    requires
        width > 0,
    ensures
        transferred(glyphs, width, outlines).len() == glyphs.len(),
    decreases outlines.len(),
{
    if outlines.len() > 0 {
        lemma_transferred_keeps_length(glyphs, width, outlines.drop_last());
        lemma_drawn_keeps_length(
            transferred(glyphs, width, outlines.drop_last()),
            width,
            outlines.last().cells@,
            outlines.last().glyph,
        );
    }
}

/// An outline with no visible cell leaves the frame as it was.
pub proof fn lemma_hidden_outline_draws_nothing(
    glyphs: Seq<char>,
    width: int,
    cells: Seq<Vec2<i64>>,
    glyph: char,
)
    requires
        width > 0,
        forall|k: int| 0 <= k < cells.len() ==> !visible(glyphs.len() as int, width, cells[k]),
    ensures
        drawn(glyphs, width, cells, glyph) == glyphs,
    decreases cells.len(),
{
    if cells.len() > 0 {
        lemma_hidden_outline_draws_nothing(glyphs, width, cells.drop_last(), glyph);
        assert(!visible(glyphs.len() as int, width, cells[cells.len() - 1]));
    }
}

/// After an outline is drawn, a position of the frame holds the outline's
/// glyph if one of its visible cells lies there, and its former glyph if
/// none does.
pub proof fn lemma_drawn_glyph_at(
    glyphs: Seq<char>,
    width: int,
    cells: Seq<Vec2<i64>>,
    glyph: char,
    at: int,
)
    requires
        width > 0,
        0 <= at < glyphs.len(),
    ensures
        drawn(glyphs, width, cells, glyph)[at] == (if exists|k: int|
            0 <= k < cells.len() && visible(glyphs.len() as int, width, cells[k]) && cells[k].x
                + cells[k].y * width == at {
            glyph
        } else {
            glyphs[at]
        }),
    decreases cells.len(),
{
    if cells.len() > 0 {
        let rest = cells.drop_last();
        let cell = cells.last();
        let before = drawn(glyphs, width, rest, glyph);
        lemma_drawn_glyph_at(glyphs, width, rest, glyph, at);
        lemma_drawn_keeps_length(glyphs, width, rest, glyph);
        let hit_rest = exists|k: int|
            0 <= k < rest.len() && visible(glyphs.len() as int, width, rest[k]) && rest[k].x
                + rest[k].y * width == at;
        let hit = exists|k: int|
            0 <= k < cells.len() && visible(glyphs.len() as int, width, cells[k]) && cells[k].x
                + cells[k].y * width == at;
        let here = visible(glyphs.len() as int, width, cell) && cell.x + cell.y * width == at;
        if hit_rest {
            let k = choose|k: int|
                0 <= k < rest.len() && visible(glyphs.len() as int, width, rest[k]) && rest[k].x
                    + rest[k].y * width == at;
            assert(cells[k] == rest[k]);
            assert(hit);
        }
        if here {
            assert(cells[cells.len() - 1] == cell);
            assert(hit);
        }
        if hit {
            let k = choose|k: int|
                0 <= k < cells.len() && visible(glyphs.len() as int, width, cells[k]) && cells[k].x
                    + cells[k].y * width == at;
            if k < rest.len() {
                assert(rest[k] == cells[k]);
                assert(hit_rest);
            } else {
                assert(here);
            }
        }
        if visible(before.len() as int, width, cell) {
            lemma_visible_is_held(before.len() as int, width, cell);
        }
    }
}

/// Plots `glyph` at `cell` if the cell lies inside the frame, and drops
/// it otherwise.
pub fn plot(buffer: &mut AsciiBuffer, cell: Vec2<i64>, glyph: char)
    requires
        old(buffer).chunk_width > 0,
    ensures
        final(buffer).chunk_width == old(buffer).chunk_width,
        final(buffer).buffer@ == plotted(
            old(buffer).buffer@,
            old(buffer).chunk_width as int,
            cell,
            glyph,
        ),
{
    let width = buffer.chunk_width;
    let rows = buffer.len() / (width as usize);
    if 0 <= cell.x && cell.x < width as i64 && 0 <= cell.y && (cell.y as u64) < (rows as u64) {
        proof {
            lemma_visible_is_held(buffer.buffer@.len() as int, width as int, cell);
        }
        let _ = buffer.update_at(cell.x as usize, cell.y as usize, glyph);
    }
}

impl Outline {
    /// Draws the outline into `buffer`: its glyph is plotted at each of
    /// its cells, in order.
    pub fn draw(&self, buffer: &mut AsciiBuffer)
        requires
            old(buffer).chunk_width > 0,
        ensures
            final(buffer).chunk_width == old(buffer).chunk_width,
            final(buffer).buffer@ == drawn(
                old(buffer).buffer@,
                old(buffer).chunk_width as int,
                self.cells@,
                self.glyph,
            ),
    {
        let ghost before = buffer.buffer@;
        let ghost width = buffer.chunk_width as int;
        let mut k: usize = 0;
        while k < self.cells.len()
            invariant
                k <= self.cells@.len(),
                width > 0,
                buffer.chunk_width == width,
                buffer.buffer@ == drawn(before, width, self.cells@.take(k as int), self.glyph),
            decreases self.cells@.len() - k,
        {
            proof {
                assert(self.cells@.take(k + 1).drop_last() =~= self.cells@.take(k as int));
            }
            plot(buffer, self.cells[k], self.glyph);
            k += 1;
        }
        proof {
            assert(self.cells@.take(k as int) =~= self.cells@);
        }
    }
}

/// Draws each of `outlines` into `buffer`, in order. Cells outside the
/// frame are dropped, and where outlines meet the later one shows.
pub fn draw_all(buffer: &mut AsciiBuffer, outlines: &Vec<Outline>)
    requires
        old(buffer).chunk_width > 0,
    ensures
        final(buffer).chunk_width == old(buffer).chunk_width,
        final(buffer).buffer@ == transferred(
            old(buffer).buffer@,
            old(buffer).chunk_width as int,
            outlines@,
        ),
{
    let ghost before = buffer.buffer@;
    let ghost width = buffer.chunk_width as int;
    let mut k: usize = 0;
    while k < outlines.len()
        invariant
            k <= outlines@.len(),
            width > 0,
            buffer.chunk_width == width,
            buffer.buffer@ == transferred(before, width, outlines@.take(k as int)),
        decreases outlines@.len() - k,
    {
        proof {
            assert(outlines@.take(k + 1).drop_last() =~= outlines@.take(k as int));
        }
        outlines[k].draw(buffer);
        k += 1;
    }
    proof {
        assert(outlines@.take(k as int) =~= outlines@);
    }
}

impl<'a, T> Transferer<'a, T> {
    /// Writes the scene into `buffer`: each triangle, in drawing order, is
    /// handed to `shade`, and the outline that comes back is drawn before
    /// the next triangle is looked at.
    pub fn start_transfering<F: Fn(&Triangle<T>) -> Outline>(
        &self,
        buffer: &mut AsciiBuffer,
        shade: F,
    )
        requires
            old(buffer).chunk_width > 0,
            forall|k: int|
                0 <= k < scene_triangles(self.0@).len() ==> call_requires(
                    shade,
                    (&#[trigger] scene_triangles(self.0@)[k],),
                ),
        ensures
            final(buffer).chunk_width == old(buffer).chunk_width,
            exists|outlines: Seq<Outline>|
                {
                    &&& shaded_by(shade, scene_triangles(self.0@), outlines)
                    &&& final(buffer).buffer@ == #[trigger] transferred(
                        old(buffer).buffer@,
                        old(buffer).chunk_width as int,
                        outlines,
                    )
                },
    {
        let ghost before = buffer.buffer@;
        let ghost width = buffer.chunk_width as int;
        let ghost mut outlines: Seq<Outline> = Seq::empty();
        let meshes = self.0;
        let mut m: usize = 0;
        while m < meshes.len()
            invariant
                m <= meshes@.len(),
                width > 0,
                buffer.chunk_width == width,
                forall|k: int|
                    0 <= k < scene_triangles(meshes@).len() ==> call_requires(
                        shade,
                        (&#[trigger] scene_triangles(meshes@)[k],),
                    ),
                shaded_by(shade, scene_triangles(meshes@.take(m as int)), outlines),
                buffer.buffer@ == transferred(before, width, outlines),
            decreases meshes@.len() - m,
        {
            let triangles = &meshes[m].triangles;
            let ghost done = scene_triangles(meshes@.take(m as int));
            proof {
                assert(meshes@.take(m + 1).drop_last() =~= meshes@.take(m as int));
                lemma_scene_holds_mesh(meshes@, m as int);
            }
            let mut t: usize = 0;
            while t < triangles.len()
                invariant
                    t <= triangles@.len(),
                    m < meshes@.len(),
                    triangles@ == meshes@[m as int].triangles@,
                    done == scene_triangles(meshes@.take(m as int)),
                    width > 0,
                    buffer.chunk_width == width,
                    forall|k: int|
                        0 <= k < triangles@.len() ==> call_requires(
                            shade,
                            (&#[trigger] triangles@[k],),
                        ),
                    shaded_by(shade, done + triangles@.take(t as int), outlines),
                    buffer.buffer@ == transferred(before, width, outlines),
                decreases triangles@.len() - t,
            {
                let outline = shade(&triangles[t]);
                outline.draw(buffer);
                proof {
                    let longer = outlines.push(outline);
                    assert(longer.drop_last() =~= outlines);
                    assert(done + triangles@.take(t + 1) =~= (done + triangles@.take(
                        t as int,
                    )).push(triangles@[t as int]));
                    outlines = longer;
                }
                t += 1;
            }
            proof {
                assert(triangles@.take(t as int) =~= triangles@);
            }
            m += 1;
        }
        proof {
            assert(meshes@.take(m as int) =~= meshes@);
        }
    }
}

/// The triangles of the `m`-th mesh stand in the scene right after those
/// of the meshes before it.
proof fn lemma_scene_holds_mesh<T>(meshes: Seq<Mesh<T>>, m: int)
    requires
        0 <= m < meshes.len(),
    ensures
        scene_triangles(meshes.take(m + 1)) == scene_triangles(meshes.take(m))
            + meshes[m].triangles@,
        scene_triangles(meshes.take(m + 1)).len() <= scene_triangles(meshes).len(),
        forall|k: int|
            0 <= k < meshes[m].triangles@.len() ==> #[trigger] meshes[m].triangles@[k]
                == scene_triangles(meshes)[scene_triangles(meshes.take(m)).len() + k],
    decreases meshes.len() - m,
{
    assert(meshes.take(m + 1).drop_last() =~= meshes.take(m));
    assert(meshes.take(m + 1).last() == meshes[m]);
    if m + 1 == meshes.len() {
        assert(meshes.take(m + 1) =~= meshes);
    } else {
        lemma_scene_holds_mesh(meshes, m + 1);
        let head = scene_triangles(meshes.take(m));
        let upto = scene_triangles(meshes.take(m + 1));
        assert forall|k: int| 0 <= k < meshes[m].triangles@.len() implies #[trigger] meshes[m].triangles@[k]
            == scene_triangles(meshes)[head.len() + k] by {
            lemma_scene_prefix(meshes, m + 1, head.len() + k);
        }
    }
}

/// The scene of the first `m` meshes is the beginning of the whole scene.
proof fn lemma_scene_prefix<T>(meshes: Seq<Mesh<T>>, m: int, k: int)
    requires
        0 <= m <= meshes.len(),
        0 <= k < scene_triangles(meshes.take(m)).len(),
    ensures
        k < scene_triangles(meshes).len(),
        scene_triangles(meshes)[k] == scene_triangles(meshes.take(m))[k],
    decreases meshes.len() - m,
{
    if m == meshes.len() {
        assert(meshes.take(m) =~= meshes);
    } else {
        assert(meshes.take(m + 1).drop_last() =~= meshes.take(m));
        lemma_scene_prefix(meshes, m + 1, k);
    }
}

} // verus!
