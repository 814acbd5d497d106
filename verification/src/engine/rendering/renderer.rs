use vstd::prelude::*;
use crate::engine::graphics::mesh::Mesh;
use crate::engine::graphics::size::Size;
use crate::engine::graphics::triangle::Triangle;
use crate::engine::graphics::vec3::Vec3;
use crate::engine::math::scalar::constant;
use crate::engine::math::scalar::is_constant;
use crate::engine::math::scalar::Scalar;
use crate::engine::rendering::ascii_buffer::AsciiBuffer;
use crate::engine::rendering::render_quality::RenderQuality;
use crate::engine::rendering::transferer::lemma_transferred_keeps_length;
use crate::engine::rendering::transferer::scene_triangles;
use crate::engine::rendering::transferer::shaded_by;
use crate::engine::rendering::transferer::transferred;
use crate::engine::rendering::transferer::Outline;
use crate::engine::rendering::transferer::Transferer;

verus! {

/// A run of whole rows of a frame, handed to one worker for presentation.
#[derive(Debug, Clone, PartialEq)]
pub struct Band {
    /// Position in the frame of the band's first glyph.
    pub start: usize,
    /// The glyphs of the band, in rows of the frame's width.
    pub glyphs: AsciiBuffer,
}

impl Band {
    /// Column and row of the frame at which the band's `k`-th glyph is
    /// shown.
    pub fn location(&self, k: usize) -> (cell: (usize, usize))
        requires
            self.glyphs.chunk_width > 0,
            self.start + k <= usize::MAX,
        ensures
            cell.0 == (self.start + k) % (self.glyphs.chunk_width as int),
            cell.1 == (self.start + k) / (self.glyphs.chunk_width as int),
    {
        self.glyphs.location(self.start + k)
    }
}

/// Position at which band `b` starts when a frame of `len` glyphs in rows
/// of `width` is split among `workers`: every band but the last holds the
/// same number of whole rows, and the last one runs to the end of the
/// frame.
pub open spec fn band_start(len: int, width: int, workers: int, b: int) -> int {
    if b >= workers {
        len
    } else {
        b * ((len / width) / workers) * width
    }
}

/// The glyphs of `bands`, one band after the other.
pub open spec fn joined(bands: Seq<Band>) -> Seq<char>
    decreases bands.len(),
{
    if bands.len() == 0 {
        Seq::empty()
    } else {
        joined(bands.drop_last()) + bands.last().glyphs.buffer@
    }
}

/// Length in milliseconds of one frame at `fps` frames per second.
pub open spec fn frame_millis(fps: i16) -> int {
    if fps > 0 {
        1000int / (fps as int)
    } else {
        0
    }
}

/// The band boundaries rise from 0 to the end of the frame, and each
/// lies at the start of a row or at the end of the frame.
pub proof fn lemma_band_starts_rise(len: int, width: int, workers: int, b: int)
    requires
        len >= 0,
        width > 0,
        workers > 0,
        0 <= b < workers,
    ensures
        band_start(len, width, workers, 0) == 0,
        0 <= band_start(len, width, workers, b) <= band_start(len, width, workers, b + 1) <= len,
        band_start(len, width, workers, b) % width == 0,
        band_start(len, width, workers, b + 1) % width == 0 || band_start(
            len,
            width,
            workers,
            b + 1,
        ) == len,
{
    let rows = len / width;
    let per = rows / workers;
    vstd::arithmetic::div_mod::lemma_mod_multiples_basic(b * per, width);
    vstd::arithmetic::div_mod::lemma_mod_multiples_basic((b + 1) * per, width);
    assert(rows * width <= len) by {
        vstd::arithmetic::div_mod::lemma_fundamental_div_mod(len, width);
        vstd::arithmetic::mul::lemma_mul_is_commutative(rows, width);
        vstd::arithmetic::div_mod::lemma_mod_pos_bound(len, width);
    }
    assert(rows >= 0) by {
        vstd::arithmetic::div_mod::lemma_div_pos_is_pos(len, width);
    }
    assert(per * workers <= rows && per >= 0) by {
        vstd::arithmetic::div_mod::lemma_fundamental_div_mod(rows, workers);
        vstd::arithmetic::mul::lemma_mul_is_commutative(per, workers);
        vstd::arithmetic::div_mod::lemma_mod_pos_bound(rows, workers);
        vstd::arithmetic::div_mod::lemma_div_pos_is_pos(rows, workers);
    }
    assert(0 <= b * per * width <= (b + 1) * per * width && (b + 1) * per * width <= rows * width
        && 0 * per * width == 0) by (nonlinear_arith)
        requires
            0 <= b < workers,
            per >= 0,
            per * workers <= rows,
            width > 0,
    ;
}

/// The scene, the two frames and the settings of the render loop.
pub struct Renderer<T> {
    front_buffer: AsciiBuffer,
    back_buffer: AsciiBuffer,
    buffer_size: Size<u32>,
    fps: i16,
    quality: RenderQuality,
    light_direction: Vec3<T>,
    meshes: Vec<Mesh<T>>,
}

impl<T> Renderer<T> {
    /// The frame that is presented.
    pub closed spec fn front(&self) -> AsciiBuffer {
        self.front_buffer
    }

    /// The frame that is drawn into.
    pub closed spec fn back(&self) -> AsciiBuffer {
        self.back_buffer
    }

    /// Width and height of both frames, in cells.
    pub closed spec fn size(&self) -> Size<u32> {
        self.buffer_size
    }

    /// The frame rate aimed at, in frames per second.
    pub closed spec fn rate(&self) -> i16 {
        self.fps
    }

    /// The quality of presentation.
    pub closed spec fn grade(&self) -> RenderQuality {
        self.quality
    }

    /// The direction that the light comes from.
    pub closed spec fn light(&self) -> Vec3<T> {
        self.light_direction
    }

    /// The meshes of the scene, in drawing order.
    pub closed spec fn scene(&self) -> Seq<Mesh<T>> {
        self.meshes@
    }

    /// Both frames are well formed and have the width and the number of
    /// glyphs that the size asks for.
    pub open spec fn well_formed(&self) -> bool {
        &&& self.front().well_formed()
        &&& self.back().well_formed()
        &&& self.front().chunk_width == self.size().width
        &&& self.back().chunk_width == self.size().width
        &&& self.front().buffer@.len() == self.size().width * self.size().height
        &&& self.back().buffer@.len() == self.size().width * self.size().height
    }

    /// Position in the presented frame at which band `b` starts; for the
    /// number of bands and beyond, the end of the frame.
    pub open spec fn cut(&self, b: int) -> int {
        band_start(
            self.front().buffer@.len() as int,
            self.front().chunk_width as int,
            self.grade().workers() as int,
            b,
        )
    }

    /// Starts building a renderer: 60 frames per second, nothing else
    /// chosen.
    pub fn new() -> (builder: RendererBuilder<T>)
        ensures
            builder.buffer_size.is_none(),
            builder.fps == 60,
            builder.quality.is_none(),
            builder.light_direction.is_none(),
    {
        RendererBuilder { buffer_size: None, fps: 60, quality: None, light_direction: None }
    }

    /// The frame that is presented.
    pub fn front_buffer(&self) -> (frame: &AsciiBuffer)
        ensures
            *frame == self.front(),
    {
        &self.front_buffer
    }

    /// Width and height of both frames, in cells.
    pub fn buffer_size(&self) -> (size: &Size<u32>)
        ensures
            *size == self.size(),
    {
        &self.buffer_size
    }

    /// The frame rate aimed at, in frames per second.
    pub fn fps(&self) -> (fps: i16)
        ensures
            fps == self.rate(),
    {
        self.fps
    }

    /// The quality of presentation.
    pub fn quality(&self) -> (quality: RenderQuality)
        ensures
            quality == self.grade(),
    {
        self.quality
    }

    /// The direction that the light comes from.
    pub fn light_direction(&self) -> (direction: &Vec3<T>)
        ensures
            *direction == self.light(),
    {
        &self.light_direction
    }

    /// The meshes of the scene, in drawing order.
    pub fn meshes(&self) -> (meshes: &Vec<Mesh<T>>)
        ensures
            meshes@ == self.scene(),
    {
        &self.meshes
    }

    /// Adds `mesh` to the scene, after the meshes that are there.
    pub fn add_mesh(&mut self, mesh: Mesh<T>)
        ensures
            final(self).scene() == old(self).scene().push(mesh),
            final(self).front() == old(self).front(),
            final(self).back() == old(self).back(),
            final(self).size() == old(self).size(),
            final(self).rate() == old(self).rate(),
            final(self).grade() == old(self).grade(),
            final(self).light() == old(self).light(),
    {
        self.meshes.push(mesh);
    }

    /// Exchanges the two frames: what was drawn is now presented.
    pub fn sync_buffers(&mut self)
        ensures
            final(self).front() == old(self).back(),
            final(self).back() == old(self).front(),
            final(self).scene() == old(self).scene(),
            final(self).size() == old(self).size(),
            final(self).rate() == old(self).rate(),
            final(self).grade() == old(self).grade(),
            final(self).light() == old(self).light(),
    {
        core::mem::swap(&mut self.front_buffer, &mut self.back_buffer);
    }

    /// Draws the scene into the back frame and then exchanges the two
    /// frames. Each triangle, in drawing order, is handed to `shade`, and
    /// the outline that comes back is drawn over what the back frame held.
    /// The frame presented before becomes the one that the next call
    /// draws over.
    pub fn transfer<F: Fn(&Triangle<T>) -> Outline>(&mut self, shade: F)
        requires
            old(self).well_formed(),
            forall|k: int|
                0 <= k < scene_triangles(old(self).scene()).len() ==> call_requires(
                    shade,
                    (&#[trigger] scene_triangles(old(self).scene())[k],),
                ),
        ensures
            final(self).well_formed(),
            final(self).front().chunk_width == old(self).back().chunk_width,
            exists|outlines: Seq<Outline>|
                {
                    &&& shaded_by(shade, scene_triangles(old(self).scene()), outlines)
                    &&& final(self).front().buffer@ == #[trigger] transferred(
                        old(self).back().buffer@,
                        old(self).back().chunk_width as int,
                        outlines,
                    )
                },
            final(self).back() == old(self).front(),
            final(self).scene() == old(self).scene(),
            final(self).size() == old(self).size(),
            final(self).rate() == old(self).rate(),
            final(self).grade() == old(self).grade(),
            final(self).light() == old(self).light(),
    {
        let ghost before = self.back_buffer.buffer@;
        let ghost width = self.back_buffer.chunk_width as int;
        let transferer = Transferer(&self.meshes);
        assert(transferer.0@ == self.scene());
        transferer.start_transfering(&mut self.back_buffer, shade);
        proof {
            let outlines = choose|outlines: Seq<Outline>|
                {
                    &&& shaded_by(shade, scene_triangles(self.meshes@), outlines)
                    &&& self.back_buffer.buffer@ == #[trigger] transferred(before, width, outlines)
                };
            lemma_transferred_keeps_length(before, width, outlines);
        }
        self.sync_buffers();
    }

    /// Splits the presented frame into one band of whole rows for each
    /// worker of the quality. The bands follow one another without gap or
    /// overlap and together hold the whole frame.
    pub fn render(&self) -> (bands: Vec<Band>)
        requires
            self.well_formed(),
        ensures
            bands@.len() == self.grade().workers(),
            forall|b: int|
                0 <= b < bands@.len() ==> {
                    &&& (#[trigger] bands@[b]).start == self.cut(b)
                    &&& bands@[b].glyphs.chunk_width == self.front().chunk_width
                    &&& bands@[b].glyphs.well_formed()
                    &&& bands@[b].glyphs.buffer@ == self.front().buffer@.subrange(
                        self.cut(b),
                        self.cut(b + 1),
                    )
                },
            joined(bands@) == self.front().buffer@,
    {
        let workers = self.quality.threads();
        let len = self.front_buffer.len();
        let width = self.front_buffer.chunk_width as usize;
        let per = (len / width) / workers;
        let mut bands: Vec<Band> = Vec::new();
        let mut b: usize = 0;
        proof {
            lemma_band_starts_rise(len as int, width as int, workers as int, 0);
            assert(joined(bands@) =~= self.front_buffer.buffer@.subrange(0, 0));
        }
        while b < workers
            invariant
                b <= workers,
                workers == self.quality.workers(),
                len == self.front_buffer.buffer@.len(),
                width == self.front_buffer.chunk_width,
                width > 0,
                len as int % width as int == 0,
                per == (len as int / width as int) / workers as int,
                bands@.len() == b,
                forall|c: int|
                    0 <= c < b ==> {
                        &&& (#[trigger] bands@[c]).start == band_start(
                            len as int,
                            width as int,
                            workers as int,
                            c,
                        )
                        &&& bands@[c].glyphs.chunk_width == self.front_buffer.chunk_width
                        &&& bands@[c].glyphs.well_formed()
                        &&& bands@[c].glyphs.buffer@ == self.front_buffer.buffer@.subrange(
                            band_start(len as int, width as int, workers as int, c),
                            band_start(len as int, width as int, workers as int, c + 1),
                        )
                    },
                joined(bands@) == self.front_buffer.buffer@.subrange(
                    0,
                    band_start(len as int, width as int, workers as int, b as int),
                ),
            decreases workers - b,
        {
            proof {
                lemma_band_starts_rise(len as int, width as int, workers as int, b as int);
                assert(0 <= b * per <= b * per * width && 0 <= (b + 1) * per <= (b + 1) * per
                    * width) by (nonlinear_arith)
                    requires
                        b >= 0,
                        per >= 0,
                        width >= 1,
                ;
                if b + 1 < workers {
                    lemma_band_starts_rise(len as int, width as int, workers as int, b + 1);
                }
            }
            let start = b * per * width;
            let end = if b + 1 == workers {
                len
            } else {
                (b + 1) * per * width
            };
            let band = Band { start, glyphs: self.front_buffer.chunk(start, end) };
            proof {
                assert(bands@.push(band).drop_last() =~= bands@);
                assert(joined(bands@.push(band)) =~= self.front_buffer.buffer@.subrange(
                    0,
                    end as int,
                ));
            }
            bands.push(band);
            b += 1;
        }
        proof {
            assert(self.front_buffer.buffer@.subrange(0, len as int) =~= self.front_buffer.buffer@);
        }
        bands
    }

    /// Length of one frame in milliseconds: a second divided by the frame
    /// rate.
    pub fn frame_time(&self) -> (millis: u64)
        requires
            self.rate() != 0,
        ensures
            millis == frame_millis(self.rate()),
    {
        if self.fps > 0 {
            1000 / (self.fps as u64)
        } else {
            0
        }
    }

    /// How many nanoseconds the loop rests once a frame has taken
    /// `elapsed` nanoseconds: what is left of the frame's time, and
    /// nothing when the frame came late.
    pub fn rest_after(&self, elapsed: u128) -> (rest: Option<u64>)
        requires
            self.rate() != 0,
        ensures
            match rest {
                Some(nanos) => nanos > 0 && elapsed + nanos == frame_millis(self.rate())
                    * 1_000_000,
                None => elapsed >= frame_millis(self.rate()) * 1_000_000,
            },
    {
        let frame: u64 = self.frame_time() * 1_000_000;
        if elapsed < frame as u128 {
            Some(frame - (elapsed as u64))
        } else {
            None
        }
    }
}

/// What has been chosen so far for a renderer under construction.
pub struct RendererBuilder<T> {
    /// Width and height of the frames in cells, once chosen.
    pub buffer_size: Option<Size<u32>>,
    /// The frame rate aimed at, in frames per second.
    pub fps: i16,
    /// The quality of presentation, once chosen.
    pub quality: Option<RenderQuality>,
    /// The direction that the light comes from, once chosen.
    pub light_direction: Option<Vec3<T>>,
}

impl<T: Scalar> RendererBuilder<T> {
    /// The size that `build` gives the frames: the chosen one, or 100 by
    /// 50 cells.
    pub open spec fn frame_size(self) -> Size<u32> {
        match self.buffer_size {
            Some(size) => size,
            None => Size { width: 100, height: 50 },
        }
    }

    /// Finishes the renderer. Both frames are filled with spaces. What
    /// was not chosen takes its default: frames of 100 by 50 cells, the
    /// lowest quality, and light along the negative Z axis. The scene is
    /// empty.
    pub fn build(self) -> (renderer: Renderer<T>)
        requires
            self.frame_size().width * self.frame_size().height <= usize::MAX,
        ensures
            renderer.size() == self.frame_size(),
            renderer.front().chunk_width == self.frame_size().width,
            renderer.front().buffer@ == Seq::new(
                (self.frame_size().width * self.frame_size().height) as nat,
                |i: int| ' ',
            ),
            renderer.back().chunk_width == renderer.front().chunk_width,
            renderer.back().buffer@ == renderer.front().buffer@,
            renderer.well_formed() <==> self.frame_size().width > 0,
            renderer.rate() == self.fps,
            renderer.grade() == (match self.quality {
                Some(q) => q,
                None => RenderQuality::Low,
            }),
            match self.light_direction {
                Some(l) => renderer.light() == l,
                None => is_constant(renderer.light().x, 0) && is_constant(renderer.light().y, 0)
                    && is_constant(renderer.light().z, -1i8),
            },
            renderer.scene() == Seq::<Mesh<T>>::empty(),
    {
        let buffer_size = match self.buffer_size {
            Some(size) => size,
            None => Size::new(100, 50),
        };
        let count = (buffer_size.width as usize) * (buffer_size.height as usize);
        let glyphs = vec![' '; count];
        let front_buffer = AsciiBuffer::new(buffer_size.width, glyphs);
        let back_buffer = AsciiBuffer::new(buffer_size.width, vec![' '; count]);
        proof {
            assert(front_buffer.buffer@ =~= Seq::new(count as nat, |i: int| ' '));
            assert(back_buffer.buffer@ =~= Seq::new(count as nat, |i: int| ' '));
            if buffer_size.width > 0 {
                vstd::arithmetic::div_mod::lemma_mod_multiples_basic(
                    buffer_size.height as int,
                    buffer_size.width as int,
                );
                vstd::arithmetic::mul::lemma_mul_is_commutative(
                    buffer_size.height as int,
                    buffer_size.width as int,
                );
            }
        }
        Renderer {
            buffer_size,
            front_buffer,
            back_buffer,
            fps: self.fps,
            quality: match self.quality {
                Some(q) => q,
                None => RenderQuality::Low,
            },
            light_direction: match self.light_direction {
                Some(l) => l,
                None => Vec3::new(constant(0), constant(0), constant(-1)),
            },
            meshes: Vec::new(),
        }
    }

    /// Sets the frame rate aimed at, in frames per second.
    pub fn fps(self, fps: i16) -> (next: Self)
        ensures
            next == (RendererBuilder { fps, ..self }),
    {
        RendererBuilder {
            buffer_size: self.buffer_size,
            fps,
            quality: self.quality,
            light_direction: self.light_direction,
        }
    }

    /// Sets the quality of presentation.
    pub fn quality(self, quality: RenderQuality) -> (next: Self)
        ensures
            next == (RendererBuilder { quality: Some(quality), ..self }),
    {
        RendererBuilder {
            buffer_size: self.buffer_size,
            fps: self.fps,
            quality: Some(quality),
            light_direction: self.light_direction,
        }
    }

    /// Sets width and height of the frames, in cells.
    pub fn size(self, size: Size<u32>) -> (next: Self)
        ensures
            next == (RendererBuilder { buffer_size: Some(size), ..self }),
    {
        RendererBuilder {
            buffer_size: Some(size),
            fps: self.fps,
            quality: self.quality,
            light_direction: self.light_direction,
        }
    }

    /// Sets the width of the frames, in cells. The height stays, or is 0
    /// if no size was chosen.
    pub fn width(self, width: u32) -> (next: Self)
        ensures
            next == (RendererBuilder {
                buffer_size: Some(
                    Size {
                        width,
                        height: match self.buffer_size {
                            Some(size) => size.height,
                            None => 0,
                        },
                    },
                ),
                ..self
            }),
    {
        let height = match self.buffer_size {
            Some(size) => size.height,
            None => 0,
        };
        RendererBuilder {
            buffer_size: Some(Size::new(width, height)),
            fps: self.fps,
            quality: self.quality,
            light_direction: self.light_direction,
        }
    }

    /// Sets the height of the frames, in cells. The width stays, or is 0
    /// if no size was chosen.
    pub fn height(self, height: u32) -> (next: Self)
        ensures
            next == (RendererBuilder {
                buffer_size: Some(
                    Size {
                        width: match self.buffer_size {
                            Some(size) => size.width,
                            None => 0,
                        },
                        height,
                    },
                ),
                ..self
            }),
    {
        let width = match self.buffer_size {
            Some(size) => size.width,
            None => 0,
        };
        RendererBuilder {
            buffer_size: Some(Size::new(width, height)),
            fps: self.fps,
            quality: self.quality,
            light_direction: self.light_direction,
        }
    }

    /// Sets the direction that the light comes from.
    pub fn light_direction(self, direction: Vec3<T>) -> (next: Self)
        ensures
            next == (RendererBuilder { light_direction: Some(direction), ..self }),
    {
        RendererBuilder {
            buffer_size: self.buffer_size,
            fps: self.fps,
            quality: self.quality,
            light_direction: Some(direction),
        }
    }
}

} // verus!
