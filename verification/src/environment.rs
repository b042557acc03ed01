//! The concrete background environment: the layered forest scene and
//! its static floor.
//!
//! The layer table fixes the depth illusion: layers closer to the
//! camera scroll with larger ratio magnitudes, all share one source
//! tile size, and all recycle inside the default transition band. The
//! floor is the one piece of static collision geometry, sized to the
//! current viewport.

use vstd::prelude::*;
use vstd::string::StringExecFns;

use crate::config::GameConfigAsset;
use crate::parallax::{LayerData, ParallaxResource};
use crate::player::PLAYER_SPEED;
use crate::units::{spec_scale_milli, MAX_COORD};

verus! {

/// Source tile width of every background layer, milli-units.
pub const ENVIRONMENT_WIDTH: i64 = 928000;

/// Source tile height of every background layer, milli-units.
pub const ENVIRONMENT_HEIGHT: i64 = 793000;

/// Tile instances pre-spawned per layer.
pub const ENVIRONMENT_TILE_COUNT: u32 = 4;

/// Draw-order depth of the floor sprite, per-mille.
pub const FLOOR_Z: i64 = 5000;

/// Collider half-height of the floor, milli-units.
pub const FLOOR_HALF_HEIGHT: i64 = 50000;

/// The background scene: five layers from the far backdrop to the
/// leafy floor, four tiles each, scrolled by the player's forward
/// speed. Layer depths grow toward the camera while the scroll ratio
/// magnitude shrinks from the backdrop inward, each layer keeping its
/// own ratio.
pub fn environment_layers() -> (r: ParallaxResource)
    ensures
        r.count == ENVIRONMENT_TILE_COUNT,
        r.initial_speed == PLAYER_SPEED,
        r.layers@.len() == 5,
        forall|j: int| 0 <= j < 5 ==> (#[trigger] r.layers@[j]).valid(),
        forall|j: int| 0 <= j < 5 ==> (#[trigger] r.layers@[j]).tile_size_x == ENVIRONMENT_WIDTH,
        forall|j: int| 0 <= j < 5 ==> (#[trigger] r.layers@[j]).tile_size_y == ENVIRONMENT_HEIGHT,
        forall|j: int| 0 <= j < 5 ==> (#[trigger] r.layers@[j]).position_x == -ENVIRONMENT_WIDTH,
        forall|j: int| 0 <= j < 5 ==> (#[trigger] r.layers@[j]).transition_factor == 1200,
        r.layers@[0].speed_x == -1000 && r.layers@[0].scale == 1200 && r.layers@[0].z == 500,
        r.layers@[0].position_y == ENVIRONMENT_HEIGHT * 10 / 42,
        r.layers@[1].speed_x == 800 && r.layers@[1].scale == 1200 && r.layers@[1].z == 1000,
        r.layers@[1].position_y == ENVIRONMENT_HEIGHT / 4,
        r.layers@[2].speed_x == 700 && r.layers@[2].scale == 1200 && r.layers@[2].z == 1100,
        r.layers@[2].position_y == ENVIRONMENT_HEIGHT / 4,
        r.layers@[3].speed_x == 600 && r.layers@[3].scale == 1200 && r.layers@[3].z == 1100,
        r.layers@[3].position_y == ENVIRONMENT_HEIGHT * 10 / 45,
        r.layers@[4].speed_x == 500 && r.layers@[4].scale == 1000 && r.layers@[4].z == 2000,
        r.layers@[4].position_y == -370000,
{
    let far_y: i64 = ((ENVIRONMENT_HEIGHT as u64 * 10) / 42) as i64;
    let tree_y: i64 = ((ENVIRONMENT_HEIGHT as u64) / 4) as i64;
    let leaf_y: i64 = ((ENVIRONMENT_HEIGHT as u64 * 10) / 45) as i64;
    let mut layers: Vec<LayerData> = Vec::new();
    // Far backdrop.
    layers.push(
        LayerData {
            speed_x: -1000,
            speed_y: 0,
            path: String::from_str("enviroment/Layer_0009_2.png"),
            tile_size_x: ENVIRONMENT_WIDTH,
            tile_size_y: ENVIRONMENT_HEIGHT,
            scale: 1200,
            z: 500,
            position_x: -ENVIRONMENT_WIDTH,
            position_y: far_y,
            transition_factor: 1200,
        },
    );
    // Gray trees.
    layers.push(
        LayerData {
            speed_x: 800,
            speed_y: 0,
            path: String::from_str("enviroment/Layer_0005_5.png"),
            tile_size_x: ENVIRONMENT_WIDTH,
            tile_size_y: ENVIRONMENT_HEIGHT,
            scale: 1200,
            z: 1000,
            position_x: -ENVIRONMENT_WIDTH,
            position_y: tree_y,
            transition_factor: 1200,
        },
    );
    // Nearer trees.
    layers.push(
        LayerData {
            speed_x: 700,
            speed_y: 0,
            path: String::from_str("enviroment/Layer_0003_6.png"),
            tile_size_x: ENVIRONMENT_WIDTH,
            tile_size_y: ENVIRONMENT_HEIGHT,
            scale: 1200,
            z: 1100,
            position_x: -ENVIRONMENT_WIDTH,
            position_y: tree_y,
            transition_factor: 1200,
        },
    );
    // Top leaf canopy.
    layers.push(
        LayerData {
            speed_x: 600,
            speed_y: 0,
            path: String::from_str("enviroment/Layer_0002_7.png"),
            tile_size_x: ENVIRONMENT_WIDTH,
            tile_size_y: ENVIRONMENT_HEIGHT,
            scale: 1200,
            z: 1100,
            position_x: -ENVIRONMENT_WIDTH,
            position_y: leaf_y,
            transition_factor: 1200,
        },
    );
    // Leafy floor strip.
    layers.push(
        LayerData {
            speed_x: 500,
            speed_y: 0,
            path: String::from_str("enviroment/Layer_0002_7.png"),
            tile_size_x: ENVIRONMENT_WIDTH,
            tile_size_y: ENVIRONMENT_HEIGHT,
            scale: 1000,
            z: 2000,
            position_x: -ENVIRONMENT_WIDTH,
            position_y: -370000,
            transition_factor: 1200,
        },
    );
    ParallaxResource { layers, count: ENVIRONMENT_TILE_COUNT, initial_speed: PLAYER_SPEED }
}

/// The static floor body derived from the configuration: a fixed
/// collider centred under the origin, the configured fraction of the
/// viewport height below it, spanning the viewport width.
#[derive(Clone, Copy, Debug, PartialEq, Eq, Structural)]
pub struct FloorSpawn {
    /// Horizontal centre, milli-units.
    pub x: i64,
    /// Vertical centre, milli-units; negative lies below the origin.
    pub y: i64,
    /// Draw-order depth, per-mille.
    pub z: i64,
    /// Collider half-width, milli-units.
    pub collider_half_x: i64,
    /// Collider half-height, milli-units.
    pub collider_half_y: i64,
}

/// Places the floor for the current viewport. The body is immovable:
/// the host spawns it once with a fixed physics body and never mutates
/// it afterward.
pub fn floor_spawn(cfg: &GameConfigAsset, viewport_width: i64, viewport_height: i64) -> (r:
    FloorSpawn)
    requires
        cfg.valid(),
        0 <= viewport_width <= MAX_COORD,
        0 <= viewport_height <= MAX_COORD,
    ensures
        r.x == 0,
        r.y == -spec_scale_milli(viewport_height as int, cfg.floor_multiplier as int),
        r.z == FLOOR_Z,
        r.collider_half_x == viewport_width,
        r.collider_half_y == FLOOR_HALF_HEIGHT,
{
    FloorSpawn {
        x: 0,
        y: cfg.floor_y(viewport_height),
        z: FLOOR_Z,
        collider_half_x: viewport_width,
        collider_half_y: FLOOR_HALF_HEIGHT,
    }
}

} // verus!
