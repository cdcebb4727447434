use vstd::prelude::*;
use crate::geometry::{
    Point, Tint, SUBUNITS_PER_UNIT, PROJECTION_WIDTH, PROJECTION_HEIGHT, HUD_REFLECT_MARGIN,
    viewport_width, viewport_height, reflect_margin, half_extent,
};

verus! {

/// Bound on the magnitude of every coordinate a live sprite reaches.
pub const COORD_LIMIT: i64 = 0x100_0000_0000;

/// Bound on the magnitude of each speed component, in sub-units per frame.
pub const MAX_SPEED: i64 = 0x10_0000;

/// One simulated sprite: where it is, how far it moves per frame, and its tint.
#[derive(Clone, Copy, Debug, PartialEq, Eq, Structural)]
pub struct Bunny {
    pub position: Point,
    pub speed: Point,
    pub color: Tint,
}

/// Whether a sprite whose reference coordinate is `pos` and whose half size
/// is `half` turns back on the horizontal axis.
pub open spec fn reflects_horizontally(pos: int, half: int) -> bool {
    pos + half > viewport_width() || pos + half < 0
}

/// Whether a sprite whose reference coordinate is `pos` and whose half size
/// is `half` turns back on the vertical axis. The upper test is shifted by
/// the status bar margin.
pub open spec fn reflects_vertically(pos: int, half: int) -> bool {
    pos + half > viewport_height() || pos + half - reflect_margin() < 0
}

/// `c` and `c + v` both lie within the coordinate bound.
pub open spec fn axis_in_bounds(c: int, v: int) -> bool {
    &&& -COORD_LIMIT <= c <= COORD_LIMIT
    &&& -COORD_LIMIT <= c + v <= COORD_LIMIT
    &&& -MAX_SPEED <= v <= MAX_SPEED
}

impl Bunny {
    /// The sprite's position and its next position stay within the
    /// coordinate bound, and its speed within the speed bound. Stepping
    /// keeps this, so the arithmetic of a frame never overflows.
    pub open spec fn in_bounds(self) -> bool {
        &&& axis_in_bounds(self.position.x as int, self.speed.x as int)
        &&& axis_in_bounds(self.position.y as int, self.speed.y as int)
    }

    /// The sprite one frame later: moved by its speed, then each speed
    /// component negated where the moved sprite crosses an edge.
    pub open spec fn stepped(self, width: u16, height: u16) -> Bunny {
        let x = self.position.x + self.speed.x;
        let y = self.position.y + self.speed.y;
        let vx = if reflects_horizontally(x, half_extent(width)) {
            -self.speed.x
        } else {
            self.speed.x as int
        };
        let vy = if reflects_vertically(y, half_extent(height)) {
            -self.speed.y
        } else {
            self.speed.y as int
        };
        Bunny {
            position: Point { x: x as i64, y: y as i64 },
            speed: Point { x: vx as i64, y: vy as i64 },
            color: self.color,
        }
    }

    /// Advances the sprite by one frame for a sprite image of
    /// `width` by `height` units.
    pub fn step(&self, width: u16, height: u16) -> (r: Bunny)
        requires
            self.in_bounds(),
        ensures
            r == self.stepped(width, height),
            r.in_bounds(),
    {
        let x = self.position.x + self.speed.x;
        let y = self.position.y + self.speed.y;
        let half_w = width as i64 * SUBUNITS_PER_UNIT / 2;
        let half_h = height as i64 * SUBUNITS_PER_UNIT / 2;
        let vx = if x + half_w > PROJECTION_WIDTH * SUBUNITS_PER_UNIT || x + half_w < 0 {
            -self.speed.x
        } else {
            self.speed.x
        };
        let vy = if y + half_h > PROJECTION_HEIGHT * SUBUNITS_PER_UNIT || y + half_h
            - HUD_REFLECT_MARGIN * SUBUNITS_PER_UNIT < 0 {
            -self.speed.y
        } else {
            self.speed.y
        };
        Bunny { position: Point { x, y }, speed: Point { x: vx, y: vy }, color: self.color }
    }
}

/// One frame moves a sprite by exactly its speed, and negates a speed
/// component exactly when the moved sprite's reference point plus half its
/// size lies beyond the viewport on that axis (past the width or below zero
/// horizontally; past the height, or above the status bar margin,
/// vertically). Otherwise the component is kept; the tint never changes.
pub proof fn lemma_reflection(b: Bunny, width: u16, height: u16)
    requires
        b.in_bounds(),
    ensures
        ({
            let r = b.stepped(width, height);
            let x = b.position.x + b.speed.x;
            let y = b.position.y + b.speed.y;
            &&& r.position.x == x
            &&& r.position.y == y
            &&& (x + half_extent(width) > viewport_width() || x + half_extent(width) < 0)
                ==> r.speed.x == -b.speed.x
            &&& !(x + half_extent(width) > viewport_width() || x + half_extent(width) < 0)
                ==> r.speed.x == b.speed.x
            &&& (y + half_extent(height) > viewport_height() || y + half_extent(height)
                - reflect_margin() < 0) ==> r.speed.y == -b.speed.y
            &&& !(y + half_extent(height) > viewport_height() || y + half_extent(height)
                - reflect_margin() < 0) ==> r.speed.y == b.speed.y
            &&& r.color == b.color
        }),
{
}

/// A sprite whose box, once moved, lies strictly inside the viewport keeps
/// its speed. Vertically the box must also not reach so high that its middle
/// is above the status bar margin, where the upper test turns it.
pub proof fn lemma_inside_keeps_speed(b: Bunny, width: u16, height: u16)
    requires
        b.in_bounds(),
        0 < b.position.x + b.speed.x,
        b.position.x + b.speed.x + width * SUBUNITS_PER_UNIT < viewport_width(),
        0 < b.position.y + b.speed.y,
        b.position.y + b.speed.y + height * SUBUNITS_PER_UNIT < viewport_height(),
        b.position.y + b.speed.y + half_extent(height) >= reflect_margin(),
    ensures
        b.stepped(width, height).speed == b.speed,
{
}

} // verus!
