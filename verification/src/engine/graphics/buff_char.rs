use vstd::prelude::*;
use crate::engine::graphics::vec2::Vec2;

verus! {

/// A glyph together with the place where it is shown.
pub struct BuffChar<T> {
    char: char,
    location: Vec2<T>,
}

impl<T> BuffChar<T> {
    /// The glyph.
    pub closed spec fn glyph(self) -> char {
        self.char
    }

    /// Where the glyph is shown.
    pub closed spec fn place(self) -> Vec2<T> {
        self.location
    }

    /// Builds the glyph `char` shown at `location`.
    pub fn new(location: Vec2<T>, char: char) -> (b: Self)
        ensures
            b.glyph() == char,
            b.place() == location,
    {
        Self { char, location }
    }
}

} // verus!
