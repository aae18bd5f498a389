use vstd::prelude::*;

verus! {

/// A two-dimensional vector with integer components, used for the offset
/// and the size of the content rectangle within a window.
#[derive(Copy, Clone, Debug, PartialEq, Eq, Structural)]
pub struct Vector {
    pub x: i32,
    pub y: i32,
}

impl View for Vector {
    type V = (int, int);

    open spec fn view(&self) -> (int, int) {
        (self.x as int, self.y as int)
    }
}

impl Vector {
    /// Build a vector from two integer components.
    pub fn newi(x: i32, y: i32) -> (r: Vector)
        ensures
            r@ == (x as int, y as int),
    {
        Vector { x, y }
    }

    /// The zero vector.
    pub fn zero() -> (r: Vector)
        ensures
            r@ == (0int, 0int),
    {
        Vector { x: 0, y: 0 }
    }
}

/// A target aspect ratio `width / height`, held exactly as a pair of
/// strictly positive integers so that the fitting computation loses no
/// precision.
#[derive(Copy, Clone, Debug, PartialEq, Eq, Structural)]
pub struct AspectRatio {
    pub width: u32,
    pub height: u32,
}

impl AspectRatio {
    /// Both components of a meaningful ratio are strictly positive.
    pub open spec fn valid(self) -> bool {
        self.width >= 1 && self.height >= 1
    }

    /// Build a ratio from a strictly positive width and height.
    pub fn new(width: u32, height: u32) -> (r: AspectRatio)
        requires
            width >= 1,
            height >= 1,
        ensures
            r.width == width,
            r.height == height,
            r.valid(),
    {
        AspectRatio { width, height }
    }
}

} // verus!
