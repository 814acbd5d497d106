use vstd::prelude::*;
use vstd::slice::slice_subrange;
use vstd::slice::slice_to_vec;

verus! {

/// The brightness ramp, from the sparsest glyph to the densest.
pub const ASCII_BRIGHTNESS: [char; 10] = [' ', '.', ':', '-', '=', '+', '*', '#', '%', '@'];

/// The glyph that stands for brightness `level` of the ramp.
pub fn ascii_from_level(level: usize) -> (glyph: char)
    requires
        level < ASCII_BRIGHTNESS@.len(),
    ensures
        glyph == ASCII_BRIGHTNESS@[level as int],
{
    ASCII_BRIGHTNESS[level]
}

/// Why an access to a frame buffer was refused.
#[derive(Debug, Clone, Copy, PartialEq, Eq, Structural)]
pub enum BufferError {
    /// The addressed cell lies beyond the end of the buffer.
    IndexOutOfRange,
}

/// A frame of glyphs stored row after row.
#[derive(Debug, Clone, PartialEq)]
pub struct AsciiBuffer {
    /// The glyphs, row-major.
    pub buffer: Vec<char>,
    /// Number of glyphs in one row.
    pub chunk_width: u32,
}

impl AsciiBuffer {
    /// The buffer holds whole rows of a positive width.
    pub open spec fn well_formed(&self) -> bool {
        &&& self.chunk_width > 0
        &&& self.buffer@.len() % (self.chunk_width as nat) == 0
    }

    /// Position in the flat storage of column `i` of row `j`.
    pub open spec fn offset(&self, i: int, j: int) -> int {
        i + j * self.chunk_width
    }

    /// Column `i` of row `j` addresses a glyph of the buffer.
    pub open spec fn holds(&self, i: int, j: int) -> bool {
        0 <= self.offset(i, j) < self.buffer@.len()
    }

    /// Wraps `buff` as a frame whose rows are `chunk_width` glyphs long.
    /// The frame is well formed if the width is positive and `buff` holds
    /// whole rows.
    pub fn new(chunk_width: u32, buff: Vec<char>) -> (frame: Self)
        ensures
            frame.buffer == buff,
            frame.chunk_width == chunk_width,
            frame.well_formed() <==> chunk_width > 0 && buff@.len() % (chunk_width as nat) == 0,
    {
        Self { buffer: buff, chunk_width }
    }

    /// Replaces the glyphs and keeps the row width.
    pub fn set(&mut self, buff: Vec<char>)
        ensures
            final(self).buffer == buff,
            final(self).chunk_width == old(self).chunk_width,
    {
        self.buffer = buff;
    }

    /// Whether the buffer holds no glyph.
    pub fn is_empty(&self) -> (empty: bool)
        ensures
            empty <==> self.buffer@.len() == 0,
    {
        self.buffer.is_empty()
    }

    /// Number of glyphs in the buffer.
    pub fn len(&self) -> (count: usize)
        ensures
            count == self.buffer@.len(),
    {
        self.buffer.len()
    }

    /// The glyphs from position `start` up to, not including, `end`, as a
    /// frame of the same row width. A part cut at row boundaries is well
    /// formed.
    pub fn chunk(&self, start: usize, end: usize) -> (part: Self)
        requires
            start <= end <= self.buffer@.len(),
        ensures
            part.buffer@ == self.buffer@.subrange(start as int, end as int),
            part.buffer@.len() == end - start,
            part.chunk_width == self.chunk_width,
            self.chunk_width > 0 && start as int % (self.chunk_width as int) == 0 && end as int % (
            self.chunk_width as int) == 0 ==> part.well_formed(),
    {
        let glyphs = slice_to_vec(slice_subrange(self.buffer.as_slice(), start, end));
        proof {
            if self.chunk_width > 0 && start as int % (self.chunk_width as int) == 0 && end as int
                % (self.chunk_width as int) == 0 {
                let width = self.chunk_width as int;
                vstd::arithmetic::div_mod::lemma_sub_mod_noop(end as int, start as int, width);
                vstd::arithmetic::div_mod::lemma_small_mod(0, width as nat);
                assert((end - start) % width == 0);
                assert(glyphs@.len() == end - start);
                assert(glyphs@.len() % (self.chunk_width as nat) == 0);
            }
        }
        Self::new(self.chunk_width, glyphs)
    }

    /// Flat position of column `i` of row `j`, when it addresses a glyph.
    fn locate(&self, i: usize, j: usize) -> (at: Option<usize>)
        ensures
            match at {
                Some(index) => self.holds(i as int, j as int) && index == self.offset(
                    i as int,
                    j as int,
                ),
                None => !self.holds(i as int, j as int),
            },
    {
        let width = self.chunk_width as usize;
        let len = self.buffer.len();
        assert(j * width >= 0) by (nonlinear_arith);
        match j.checked_mul(width) {
            Some(row_start) => match i.checked_add(row_start) {
                Some(index) => if index < len {
                    Some(index)
                } else {
                    None
                },
                None => None,
            },
            None => None,
        }
    }

    /// Writes `value` at column `i` of row `j`.
    ///
    /// A cell beyond the end of the buffer is refused and the buffer is
    /// left as it was.
    pub fn update_at(&mut self, i: usize, j: usize, value: char) -> (done: Result<(), BufferError>)
        ensures
            final(self).chunk_width == old(self).chunk_width,
            old(self).holds(i as int, j as int) ==> done.is_ok() && final(self).buffer@
                == old(self).buffer@.update(old(self).offset(i as int, j as int), value),
            !old(self).holds(i as int, j as int) ==> done == Err::<(), BufferError>(
                BufferError::IndexOutOfRange,
            ) && final(self).buffer@ == old(self).buffer@,
    {
        match self.locate(i, j) {
            Some(index) => {
                self.buffer[index] = value;
                Ok(())
            },
            None => Err(BufferError::IndexOutOfRange),
        }
    }

    /// The glyph at column `i` of row `j`.
    pub fn read(&self, i: usize, j: usize) -> (glyph: Result<char, BufferError>)
        ensures
            self.holds(i as int, j as int) ==> glyph == Ok::<char, BufferError>(
                self.buffer@[self.offset(i as int, j as int)],
            ),
            !self.holds(i as int, j as int) ==> glyph == Err::<char, BufferError>(
                BufferError::IndexOutOfRange,
            ),
    {
        match self.locate(i, j) {
            Some(index) => Ok(self.buffer[index]),
            None => Err(BufferError::IndexOutOfRange),
        }
    }

    /// Column and row at which the glyph at flat position `index` is shown.
    pub fn location(&self, index: usize) -> (cell: (usize, usize))
        requires
            self.chunk_width > 0,
        ensures
            cell.0 == index as int % self.chunk_width as int,
            cell.1 == index as int / self.chunk_width as int,
            self.offset(cell.0 as int, cell.1 as int) == index,
    {
        let width = self.chunk_width as usize;
        proof {
            vstd::arithmetic::div_mod::lemma_fundamental_div_mod(index as int, width as int);
            vstd::arithmetic::mul::lemma_mul_is_commutative(width as int, index as int / width as int);
        }
        (index % width, index / width)
    }
}

impl vstd::std_specs::core::IndexSpecImpl<(usize, usize)> for AsciiBuffer {
    open spec fn index_req(&self, index: &(usize, usize)) -> bool {
        self.holds(index.0 as int, index.1 as int)
    }
}

impl core::ops::Index<(usize, usize)> for AsciiBuffer {
    type Output = char;

    /// The glyph at column `index.0` of row `index.1`, which must lie in
    /// the buffer.
    fn index(&self, index: (usize, usize)) -> (glyph: &char)
        ensures
            *glyph == self.buffer@[self.offset(index.0 as int, index.1 as int)],
    {
        let width = self.chunk_width as usize;
        let len = self.buffer.len();
        assert(index.1 * width >= 0) by (nonlinear_arith);
        &self.buffer[index.0 + index.1 * width]
    }
}

/// A glyph written at a cell is the glyph read there afterwards.
pub proof fn lemma_read_sees_update(
    before: AsciiBuffer,
    after: AsciiBuffer,
    i: int,
    j: int,
    value: char,
)
    requires
        before.holds(i, j),
        after.chunk_width == before.chunk_width,
        after.buffer@ == before.buffer@.update(before.offset(i, j), value),
    ensures
        after.holds(i, j),
        after.buffer@[after.offset(i, j)] == value,
{
}

/// Within a row, a cell's flat position leads back to its column and row.
pub proof fn lemma_offset_leads_back(frame: AsciiBuffer, i: int, j: int)
    requires
        0 <= i < frame.chunk_width,
        0 <= j,
    ensures
        frame.offset(i, j) % (frame.chunk_width as int) == i,
        frame.offset(i, j) / (frame.chunk_width as int) == j,
{
    vstd::arithmetic::div_mod::lemma_fundamental_div_mod_converse(
        frame.offset(i, j),
        frame.chunk_width as int,
        j,
        i,
    );
}

} // verus!
