use vstd::prelude::*;
use crate::geometry::{Point, Tint};

verus! {

/// Sprites admitted per frame while the spawn trigger is held.
pub const BURST_SIZE: usize = 100;

/// Least raw speed component drawn, in sub-units per frame.
pub const SPEED_LOW: i32 = -250;

/// Greatest raw speed component drawn, in sub-units per frame.
pub const SPEED_HIGH: i32 = 250;

pub const RED_LOW: i32 = 50;
pub const RED_HIGH: i32 = 240;
pub const GREEN_LOW: i32 = 80;
pub const GREEN_HIGH: i32 = 240;
pub const BLUE_LOW: i32 = 100;
pub const BLUE_HIGH: i32 = 240;

/// Alpha of every spawned tint: fully opaque.
pub const OPAQUE: u8 = 255;

/// Relies on quad_rand::gen_range on `i32`: it scales a uniform fraction in
/// [0, 1) onto `high - low`, adds `low` and truncates, so for `low <= high`
/// the result lies between the two bounds inclusive.
#[verifier::external_body]
fn random_between(low: i32, high: i32) -> (r: i32)
    requires
        low <= high,
    ensures
        low <= r <= high,
{
    quad_rand::gen_range(low, high)
}

/// A speed component lies in the range new speeds are drawn from.
pub open spec fn spawn_speed(v: i64) -> bool {
    SPEED_LOW <= v <= SPEED_HIGH
}

/// A tint lies in the ranges new tints are drawn from, and is opaque.
pub open spec fn spawn_tint(t: Tint) -> bool {
    &&& RED_LOW <= t.r <= RED_HIGH
    &&& GREEN_LOW <= t.g <= GREEN_HIGH
    &&& BLUE_LOW <= t.b <= BLUE_HIGH
    &&& t.a == OPAQUE
}

/// Draws the speed and the tint of a new sprite. Each speed component is a
/// random integer in the speed range, in sub-units per frame; each colour
/// channel a random integer in its own range, and alpha is opaque.
pub fn draw_speed_and_tint() -> (r: (Point, Tint))
    ensures
        spawn_speed(r.0.x),
        spawn_speed(r.0.y),
        spawn_tint(r.1),
{
    let vx = random_between(SPEED_LOW, SPEED_HIGH);
    let vy = random_between(SPEED_LOW, SPEED_HIGH);
    let red = random_between(RED_LOW, RED_HIGH);
    let green = random_between(GREEN_LOW, GREEN_HIGH);
    let blue = random_between(BLUE_LOW, BLUE_HIGH);
    (
        Point { x: vx as i64, y: vy as i64 },
        Tint { r: red as u8, g: green as u8, b: blue as u8, a: OPAQUE },
    )
}

} // verus!
