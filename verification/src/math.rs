//! Points and axis-aligned rectangles.

use vstd::prelude::*;

verus! {

/// A point of the plane, or a displacement in it: the mathematical value of
/// a [`Vec2`].
pub ghost struct Point {
    pub x: int,
    pub y: int,
}

impl Point {
    /// The sum of two displacements.
    pub open spec fn plus(self, other: Point) -> Point {
        Point { x: self.x + other.x, y: self.y + other.y }
    }

    /// The displacement taken `factor` times.
    pub open spec fn times(self, factor: int) -> Point {
        Point { x: self.x * factor, y: self.y * factor }
    }

    /// Both coordinates lie between `-bound` and `bound`.
    pub open spec fn within(self, bound: int) -> bool {
        -bound <= self.x <= bound && -bound <= self.y <= bound
    }
}

/// A pair of coordinates. The origin is the top-left corner of the window;
/// `x` grows to the right and `y` grows downward.
#[derive(Clone, Copy, Debug, PartialEq, Eq, Structural)]
pub struct Vec2 {
    pub x: i128,
    pub y: i128,
}

impl View for Vec2 {
    type V = Point;

    open spec fn view(&self) -> Point {
        Point { x: self.x as int, y: self.y as int }
    }
}

impl Vec2 {
    /// The vector with the given coordinates.
    pub fn new(x: i128, y: i128) -> (v: Vec2)
        ensures
            v == (Vec2 { x, y }),
    {
        Vec2 { x, y }
    }

    /// The vector whose coordinates are both zero.
    pub fn zero() -> (v: Vec2)
        ensures
            v == (Vec2 { x: 0, y: 0 }),
    {
        Vec2 { x: 0, y: 0 }
    }
}

/// The mathematical value of a [`Rectangle`]: the points from `(x, y)` up to
/// `(x + width, y + height)`.
pub ghost struct Region {
    pub x: int,
    pub y: int,
    pub width: int,
    pub height: int,
}

impl Region {
    /// The two regions overlap in more than an edge: each begins before the
    /// other ends, on both axes.
    pub open spec fn intersects(self, other: Region) -> bool {
        &&& self.x < other.x + other.width
        &&& self.x + self.width > other.x
        &&& self.y < other.y + other.height
        &&& self.y + self.height > other.y
    }
}

/// An axis-aligned rectangle, given by its top-left corner, its width and its
/// height.
#[derive(Clone, Copy, Debug, PartialEq, Eq, Structural)]
pub struct Rectangle {
    pub x: i128,
    pub y: i128,
    pub width: i128,
    pub height: i128,
}

impl View for Rectangle {
    type V = Region;

    open spec fn view(&self) -> Region {
        Region {
            x: self.x as int,
            y: self.y as int,
            width: self.width as int,
            height: self.height as int,
        }
    }
}

impl Rectangle {
    /// The far corner is within machine integers.
    pub open spec fn fits(&self) -> bool {
        &&& i128::MIN <= self.x + self.width <= i128::MAX
        &&& i128::MIN <= self.y + self.height <= i128::MAX
    }

    /// The rectangle with the given corner and size.
    pub fn new(x: i128, y: i128, width: i128, height: i128) -> (r: Rectangle)
        ensures
            r == (Rectangle { x, y, width, height }),
    {
        Rectangle { x, y, width, height }
    }

    /// Whether the two rectangles overlap. Rectangles that only share an edge
    /// or a corner do not.
    pub fn intersects(&self, other: &Rectangle) -> (hit: bool)
        requires
            self.fits(),
            other.fits(),
        ensures
            hit == self@.intersects(other@),
    {
        self.x < other.x + other.width && self.x + self.width > other.x && self.y < other.y
            + other.height && self.y + self.height > other.y
    }
}

} // verus!
