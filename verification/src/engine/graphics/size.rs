use vstd::prelude::*;

verus! {

/// The extent of a rectangle.
#[derive(Debug, Clone)]
pub struct Size<T> {
    /// Extent along the X axis.
    pub width: T,
    /// Extent along the Y axis.
    pub height: T,
}

impl<T> Size<T> {
    /// Builds a size from its two extents.
    pub fn new(width: T, height: T) -> (s: Self)
        ensures
            s == (Size { width, height }),
    {
        Self { width, height }
    }
}

} // verus!
