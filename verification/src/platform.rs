//! Static platform decoration drawn from the texture atlas.

use vstd::prelude::*;

use crate::units::{spec_scale_milli, Position, MAX_COORD};

verus! {

/// Draw-order depth of the platform sprite, per-mille.
pub const PLATFORM_Z: i64 = 1600;

/// Fraction of the viewport width the platform anchor lies left of
/// the origin, per-mille.
pub const PLATFORM_ANCHOR_FRACTION: i64 = 350;

/// Tuning for periodically drawn platforms.
#[derive(Clone, Copy, Debug, PartialEq, Eq, Structural)]
pub struct PlatformData {
    /// Interval between platform spawns, milliseconds.
    pub interval_ms: u64,
}

/// Where the atlas platform sprite is drawn: anchored a fixed fraction
/// of the viewport width left of the origin, level with it.
pub fn draw_atlas(viewport_width: i64) -> (r: Position)
    requires
        0 <= viewport_width <= MAX_COORD,
    ensures
        r.x == -spec_scale_milli(viewport_width as int, PLATFORM_ANCHOR_FRACTION as int),
        r.y == 0,
{
    let offset = crate::units::scale_milli(viewport_width, PLATFORM_ANCHOR_FRACTION);
    Position { x: -offset, y: 0 }
}

} // verus!
