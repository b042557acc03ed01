//! Camera rig and the camera-follow policy.
//!
//! The rig keeps a fixed offset from the tracked player. Whether the
//! offset is actually applied is a configurable policy, since both
//! behaviours are wanted in practice: the static policy, the default,
//! leaves the camera where it is; the follow policy pins the camera
//! to the player plus the offset every tick.

use vstd::prelude::*;

use crate::units::{position_in_range, Position, MAX_COORD};

verus! {

/// Fixed offset of the camera from the tracked player, milli-units.
#[derive(Clone, Copy, Debug, PartialEq, Eq, Structural)]
pub struct PlayerCamera {
    /// Horizontal part of the offset.
    pub offset_x: i64,
    /// Vertical part of the offset.
    pub offset_y: i64,
}

/// The rig the environment setup creates: a quarter viewport to the
/// left of the player, level with it.
pub fn default_camera_rig() -> (r: PlayerCamera)
    ensures
        r.offset_x == -250000,
        r.offset_y == 0,
{
    PlayerCamera { offset_x: -250000, offset_y: 0 }
}

/// Whether the camera tracks the player.
#[derive(Clone, Copy, Debug, PartialEq, Eq, Structural)]
pub enum CameraPolicy {
    /// The camera stays where it is every tick.
    Static,
    /// The camera is pinned to the player plus the rig offset.
    Follow,
}

impl Default for CameraPolicy {
    /// The static camera.
    fn default() -> (r: Self)
        ensures
            r == CameraPolicy::Static,
    {
        CameraPolicy::Static
    }
}

/// One camera tick: under the static policy the camera is untouched;
/// under the follow policy it lands exactly on the player plus the
/// rig's fixed offset.
pub fn camera_follow(
    policy: CameraPolicy,
    camera: Position,
    player: Position,
    rig: &PlayerCamera,
) -> (r: Position)
    requires
        position_in_range(player),
        -MAX_COORD <= rig.offset_x <= MAX_COORD,
        -MAX_COORD <= rig.offset_y <= MAX_COORD,
    ensures
        policy == CameraPolicy::Static ==> r == camera,
        policy == CameraPolicy::Follow ==> r.x == player.x + rig.offset_x && r.y == player.y
            + rig.offset_y,
{
    match policy {
        CameraPolicy::Static => camera,
        CameraPolicy::Follow => Position { x: player.x + rig.offset_x, y: player.y + rig.offset_y },
    }
}

} // verus!
