use vstd::prelude::*;

verus! {

/// A coordinate on the complex plane, or any pair of two values.
#[derive(Clone, Copy, Debug, PartialEq)]
pub struct Point<T> {
    pub x: T,
    pub y: T,
}

impl<T> Point<T> {
    /// Creates a new `Point` with the given x and y coordinates.
    #[inline]
    pub fn new(x: T, y: T) -> (p: Self)
        ensures
            p == (Point { x, y }),
    {
        Self { x, y }
    }
}

} // verus!
