use vstd::prelude::*;

verus! {

/// A solid whose measures are numbers of type `T`.
pub trait Shape<T> {
    /// The volume that the solid encloses.
    fn volume(&self) -> T;

    /// The area of the solid's surface.
    fn area(&self) -> T;
}

} // verus!
