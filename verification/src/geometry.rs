//! Points and sizes on the screen.

use crate::single::Single;
use vstd::prelude::*;

verus! {

/// A width and a height in pixels.
#[derive(Clone, Copy, Debug, PartialEq, Eq, Structural)]
pub struct Size {
    pub width: u32,
    pub height: u32,
}

/// A position in whole device pixels.
#[derive(Clone, Copy, Debug, PartialEq, Eq, Structural)]
pub struct Point {
    pub x: i32,
    pub y: i32,
}

/// A position between pixels.
#[derive(Clone, Copy, Debug, PartialEq, Eq, Structural)]
pub struct FinePoint {
    pub x: Single,
    pub y: Single,
}

/// A distance to scroll by.
#[derive(Clone, Copy, Debug, PartialEq, Eq, Structural)]
pub struct Vector {
    pub x: Single,
    pub y: Single,
}

/// A rectangle, by its upper left corner and its size.
#[derive(Clone, Copy, Debug, PartialEq, Eq, Structural)]
pub struct Rect {
    pub x: u32,
    pub y: u32,
    pub size: Size,
}

impl Point {
    pub open spec fn spec_zero() -> Point {
        Point { x: 0, y: 0 }
    }

    /// The upper left corner.
    #[verifier::when_used_as_spec(spec_zero)]
    pub fn zero() -> (point: Point)
        ensures
            point == Point::zero(),
    {
        Point { x: 0, y: 0 }
    }

    /// The square of the distance between two points.
    pub open spec fn distance_squared(self, other: Point) -> int {
        (self.x - other.x) * (self.x - other.x) + (self.y - other.y) * (self.y - other.y)
    }

    /// Whether the square of the distance to `other` is below `limit`.
    pub fn is_within(self, other: Point, limit: u64) -> (yes: bool)
        ensures
            yes == (self.distance_squared(other) < limit),
    {
        let dx: i128 = self.x as i128 - other.x as i128;
        let dy: i128 = self.y as i128 - other.y as i128;
        proof {
            lemma_square_fits(dx);
            lemma_square_fits(dy);
        }
        dx * dx + dy * dy < limit as i128
    }
}

proof fn lemma_square_fits(d: i128)
    requires
        -0x1_0000_0000 <= d <= 0x1_0000_0000,
    ensures
        0 <= d * d <= 0x1_0000_0000 * 0x1_0000_0000,
{
    assert(0 <= d * d <= 0x1_0000_0000 * 0x1_0000_0000) by (nonlinear_arith)
        requires
            -0x1_0000_0000 <= d <= 0x1_0000_0000,
    ;
}

} // verus!
