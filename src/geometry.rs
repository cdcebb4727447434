use vstd::prelude::*;

verus! {

/// Sub-units per logical viewport unit; also the target frame rate, so a
/// speed of `n` sub-units per frame is `n / 60` units per frame.
pub const SUBUNITS_PER_UNIT: i64 = 60;

/// Width of the logical viewport, in units.
pub const PROJECTION_WIDTH: i64 = 1600;

/// Height of the logical viewport, in units.
pub const PROJECTION_HEIGHT: i64 = 900;

/// Offset, in units, that the upper vertical reflection test subtracts so
/// that sprites turn before they disappear under the status bar.
pub const HUD_REFLECT_MARGIN: i64 = 40;

/// Height, in units, of the status bar drawn across the top.
pub const HUD_BAR_HEIGHT: i64 = 30;

/// A point or a vector in sub-units.
#[derive(Clone, Copy, Debug, PartialEq, Eq, Structural)]
pub struct Point {
    pub x: i64,
    pub y: i64,
}

/// An RGBA colour, one byte per channel.
#[derive(Clone, Copy, Debug, PartialEq, Eq, Structural)]
pub struct Tint {
    pub r: u8,
    pub g: u8,
    pub b: u8,
    pub a: u8,
}

/// Viewport width in sub-units.
pub open spec fn viewport_width() -> int {
    PROJECTION_WIDTH * SUBUNITS_PER_UNIT
}

/// Viewport height in sub-units.
pub open spec fn viewport_height() -> int {
    PROJECTION_HEIGHT * SUBUNITS_PER_UNIT
}

/// The upper reflection offset in sub-units.
pub open spec fn reflect_margin() -> int {
    HUD_REFLECT_MARGIN * SUBUNITS_PER_UNIT
}

/// Half of a sprite extent given in whole units, in sub-units.
pub open spec fn half_extent(size: u16) -> int {
    size * SUBUNITS_PER_UNIT / 2
}

/// Whether a coordinate is one a pointer can report: it fits an `i32`.
pub open spec fn pointer_coordinate(c: int) -> bool {
    i32::MIN <= c <= i32::MAX
}

impl Point {
    /// Whether both coordinates are pointer coordinates.
    pub open spec fn is_pointer(self) -> bool {
        pointer_coordinate(self.x as int) && pointer_coordinate(self.y as int)
    }

    /// A pointer position from sub-unit coordinates that fit an `i32`.
    pub fn from_pointer(x: i32, y: i32) -> (r: Point)
        ensures
            r.x == x,
            r.y == y,
            r.is_pointer(),
    {
        Point { x: x as i64, y: y as i64 }
    }
}

} // verus!
