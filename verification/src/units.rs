//! Units of measure and plane geometry on integers.

use vstd::prelude::*;

verus! {

/// Nanoseconds in one second.
pub const SECOND: u64 = 1_000_000_000;

/// Nanoseconds in one millisecond.
pub const MILLISECOND: u64 = 1_000_000;

/// Units in one point of heat, health, damage or damping.
pub const POINT: u64 = 1_000_000_000;

/// Length units in one pixel.
pub const PIXEL: u32 = 1_000;

/// A place in the plane, in length units.
#[derive(Clone, Copy, Debug, PartialEq, Eq, Structural)]
pub struct Position {
    pub x: i32,
    pub y: i32,
}

/// The square of the distance between two places.
pub open spec fn distance_squared(a: Position, b: Position) -> int {
    (a.x - b.x) * (a.x - b.x) + (a.y - b.y) * (a.y - b.y)
}

/// Whether `a` lies no further than `radius` from `b`.
pub open spec fn within(a: Position, b: Position, radius: u32) -> bool {
    distance_squared(a, b) <= radius * radius
}

/// Tells whether `a` lies no further than `radius` from `b`. The border of the
/// disc counts as inside.
pub fn is_within(a: Position, b: Position, radius: u32) -> (inside: bool)
    ensures
        inside == within(a, b, radius),
{
    let dx: i128 = a.x as i128 - b.x as i128;
    let dy: i128 = a.y as i128 - b.y as i128;
    let r: i128 = radius as i128;
    assert(0 <= dx * dx <= 0x1_0000_0000_0000_0000) by (nonlinear_arith)
        requires
            -0x1_0000_0000 <= dx <= 0x1_0000_0000,
    ;
    assert(0 <= dy * dy <= 0x1_0000_0000_0000_0000) by (nonlinear_arith)
        requires
            -0x1_0000_0000 <= dy <= 0x1_0000_0000,
    ;
    assert(0 <= r * r <= 0x1_0000_0000_0000_0000) by (nonlinear_arith)
        requires
            0 <= r <= 0x1_0000_0000,
    ;
    dx * dx + dy * dy <= r * r
}

} // verus!
