//! 2D points in thousandths of an SVG user unit.

use vstd::prelude::*;

verus! {

/// A point or displacement on the SVG canvas. Coordinates are fixed-point:
/// one unit of `x` or `y` is a thousandth of an SVG user unit, so the value
/// `50_000` stands for the coordinate `50`.
#[derive(Debug, Copy, Clone, PartialEq, Eq, Structural)]
pub struct Vec2 {
    pub x: i64,
    pub y: i64,
}

impl Vec2 {
    /// The point whose two coordinates both equal `value`.
    pub fn repeat(value: i64) -> (r: Self)
        ensures
            r.x == value,
            r.y == value,
    {
        Self { x: value, y: value }
    }

    /// Componentwise sum.
    pub fn add(self, rhs: Self) -> (r: Self)
        requires
            i64::MIN <= self.x + rhs.x <= i64::MAX,
            i64::MIN <= self.y + rhs.y <= i64::MAX,
        ensures
            r.x == self.x + rhs.x,
            r.y == self.y + rhs.y,
    {
        Self { x: self.x + rhs.x, y: self.y + rhs.y }
    }

    /// Componentwise difference.
    pub fn sub(self, rhs: Self) -> (r: Self)
        requires
            i64::MIN <= self.x - rhs.x <= i64::MAX,
            i64::MIN <= self.y - rhs.y <= i64::MAX,
        ensures
            r.x == self.x - rhs.x,
            r.y == self.y - rhs.y,
    {
        Self { x: self.x - rhs.x, y: self.y - rhs.y }
    }
}

} // verus!
