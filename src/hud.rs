use vstd::prelude::*;
use crate::geometry::{Point, SUBUNITS_PER_UNIT, PROJECTION_WIDTH, PROJECTION_HEIGHT};

verus! {

/// Sprites that one batched draw call can hold.
pub const MAX_BATCH_ELEMENTS: usize = 8192;

/// Number of images the loading screen cycles through.
pub const LOADING_SCREEN_COUNT: u8 = 3;

/// The estimated number of batched draw calls for `count` sprites, as the
/// status bar shows it: one more than the number of full batches.
pub fn batched_draw_calls(count: usize) -> (r: usize)
    ensures
        r == 1 + count / MAX_BATCH_ELEMENTS,
{
    1 + count / MAX_BATCH_ELEMENTS
}

/// The loading-screen image shown after image `current`; images are
/// numbered from 1 and the cycle wraps after the last.
pub fn next_loading_screen(current: u8) -> (r: u8)
    ensures
        r == current % LOADING_SCREEN_COUNT + 1,
        1 <= r <= LOADING_SCREEN_COUNT,
{
    current % LOADING_SCREEN_COUNT + 1
}

/// Where, in sub-units, the top-left corner of a loading-screen image of
/// `width` by `height` units goes so that the image is centred in the
/// viewport.
pub fn centred_origin(width: u16, height: u16) -> (r: Point)
    ensures
        2 * r.x == (PROJECTION_WIDTH - width) * SUBUNITS_PER_UNIT,
        2 * r.y == (PROJECTION_HEIGHT - height) * SUBUNITS_PER_UNIT,
{
    let half = SUBUNITS_PER_UNIT / 2;
    Point {
        x: (PROJECTION_WIDTH - width as i64) * half,
        y: (PROJECTION_HEIGHT - height as i64) * half,
    }
}

} // verus!
