//! A sprite-throughput benchmark core: a fixed-capacity pool of bouncing
//! sprites, the rule that admits new ones in bursts, the per-frame motion
//! and edge reflection, and the figures shown on the status bar.
//!
//! All coordinates are integers in sub-units: one logical viewport unit is
//! `SUBUNITS_PER_UNIT` sub-units, so a speed drawn as an integer and divided
//! by the target frame rate is held exactly.

pub mod geometry;
pub mod bunny;
pub mod spawn;
pub mod pool;
pub mod hud;
pub mod dispenser;
