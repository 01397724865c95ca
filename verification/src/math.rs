use vstd::prelude::*;

verus! {

/// A two-dimensional integer vector.
///
/// The unit depends on context: texture regions use whole pixels, glyph
/// metrics use 26.6 fixed-point subpixels.
#[derive(Clone, Copy, Debug, PartialEq, Eq, Structural)]
pub struct Vector2I {
    pub x: i32,
    pub y: i32,
}

impl Vector2I {
    pub fn new(x: i32, y: i32) -> (v: Vector2I)
        ensures
            v == (Vector2I { x, y }),
    {
        Vector2I { x, y }
    }
}

/// An axis-aligned integer rectangle, spanning `[min.x, max.x) x [min.y, max.y)`.
#[derive(Clone, Copy, Debug, PartialEq, Eq, Structural)]
pub struct RectangleI {
    pub min: Vector2I,
    pub max: Vector2I,
}

impl RectangleI {
    /// Whether the rectangle's corners are ordered.
    pub open spec fn spec_ordered(self) -> bool {
        self.min.x <= self.max.x && self.min.y <= self.max.y
    }

    pub fn new(min: Vector2I, width: i32, height: i32) -> (r: RectangleI)
        requires
            i32::MIN <= min.x + width <= i32::MAX,
            i32::MIN <= min.y + height <= i32::MAX,
        ensures
            r.min == min,
            r.max.x == min.x + width,
            r.max.y == min.y + height,
    {
        RectangleI { min, max: Vector2I { x: min.x + width, y: min.y + height } }
    }

    pub fn width(&self) -> (w: i32)
        requires
            self.max.x - self.min.x <= i32::MAX,
            i32::MIN <= self.max.x - self.min.x,
        ensures
            w == self.max.x - self.min.x,
    {
        self.max.x - self.min.x
    }

    pub fn height(&self) -> (h: i32)
        requires
            self.max.y - self.min.y <= i32::MAX,
            i32::MIN <= self.max.y - self.min.y,
        ensures
            h == self.max.y - self.min.y,
    {
        self.max.y - self.min.y
    }
}

/// Whether two rectangles have no point in common.
pub open spec fn spec_disjoint(a: RectangleI, b: RectangleI) -> bool {
    a.max.x <= b.min.x || b.max.x <= a.min.x || a.max.y <= b.min.y || b.max.y <= a.min.y
}

} // verus!
