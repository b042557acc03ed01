//! Tuning configuration and its startup validation.
//!
//! The host loads one configuration record at startup, converts its
//! fields to fixed-point, and validates it here before any dependent
//! subsystem is allowed to run. A malformed record is a startup-fatal
//! condition: validation reports the first offending field instead of
//! letting a degenerate value (such as a non-positive collider box)
//! reach the physics engine.

use vstd::prelude::*;

use crate::units::{factor_in_range, scale_milli, spec_scale_milli, MAX_COORD, MAX_FACTOR};

verus! {

/// Standard gravity in milli-units per second squared, negated and
/// scaled by the configured multiplier to give the world gravity.
pub const STANDARD_GRAVITY: i64 = 9810;

/// The tuning record, in fixed-point form. Lengths are milli-units,
/// fractions and multipliers per-mille.
#[derive(Clone, Copy, Debug, PartialEq, Eq, Structural)]
pub struct GameConfigAsset {
    /// Multiplier on standard gravity, per-mille.
    pub gravity_multiplier: i64,
    /// Player start offset as a fraction of the viewport width,
    /// per-mille; the spawn point lies that far left of the origin.
    pub player_initial_pos_x: i64,
    /// Rendered player sprite width, milli-units.
    pub player_size_x: i64,
    /// Rendered player sprite height, milli-units.
    pub player_size_y: i64,
    /// Player collider box half-width, milli-units.
    pub player_box_size_x: i64,
    /// Player collider box half-height, milli-units.
    pub player_box_size_y: i64,
    /// Ambient music volume, per-mille of full volume.
    pub audio_volume: i64,
    /// Floor depth as a fraction of the viewport height, per-mille;
    /// the floor lies that far below the origin.
    pub floor_multiplier: i64,
}

/// The field a validation failure names.
#[derive(Clone, Copy, Debug, PartialEq, Eq, Structural)]
pub enum ConfigError {
    /// `player_size_x` is not strictly positive or out of range.
    PlayerWidth,
    /// `player_size_y` is not strictly positive or out of range.
    PlayerHeight,
    /// `player_box_size_x` is not strictly positive or out of range.
    BoxWidth,
    /// `player_box_size_y` is not strictly positive or out of range.
    BoxHeight,
    /// `gravity_multiplier` is out of range.
    GravityMultiplier,
    /// `player_initial_pos_x` is out of range.
    InitialPosFraction,
    /// `audio_volume` is negative or out of range.
    AudioVolume,
    /// `floor_multiplier` is out of range.
    FloorMultiplier,
}

impl GameConfigAsset {
    /// A well-formed record: sprite and collider dimensions strictly
    /// positive, the volume non-negative, and every factor within the
    /// fixed-point range.
    pub open spec fn valid(&self) -> bool {
        &&& 0 < self.player_size_x <= MAX_COORD
        &&& 0 < self.player_size_y <= MAX_COORD
        &&& 0 < self.player_box_size_x <= MAX_COORD
        &&& 0 < self.player_box_size_y <= MAX_COORD
        &&& factor_in_range(self.gravity_multiplier as int)
        &&& factor_in_range(self.player_initial_pos_x as int)
        &&& 0 <= self.audio_volume <= MAX_FACTOR
        &&& factor_in_range(self.floor_multiplier as int)
    }

    /// What validation answers: the first offending field in the
    /// declaration order of the checks, or success on a valid record.
    pub open spec fn spec_validation(&self) -> Result<(), ConfigError> {
        if !(0 < self.player_size_x <= MAX_COORD) {
            Err(ConfigError::PlayerWidth)
        } else if !(0 < self.player_size_y <= MAX_COORD) {
            Err(ConfigError::PlayerHeight)
        } else if !(0 < self.player_box_size_x <= MAX_COORD) {
            Err(ConfigError::BoxWidth)
        } else if !(0 < self.player_box_size_y <= MAX_COORD) {
            Err(ConfigError::BoxHeight)
        } else if !factor_in_range(self.gravity_multiplier as int) {
            Err(ConfigError::GravityMultiplier)
        } else if !factor_in_range(self.player_initial_pos_x as int) {
            Err(ConfigError::InitialPosFraction)
        } else if !(0 <= self.audio_volume <= MAX_FACTOR) {
            Err(ConfigError::AudioVolume)
        } else if !factor_in_range(self.floor_multiplier as int) {
            Err(ConfigError::FloorMultiplier)
        } else {
            Ok(())
        }
    }

    /// Startup validation gate. Returns the first offending field in
    /// declaration order of the checks; succeeds exactly on valid
    /// records.
    pub fn validate(&self) -> (r: Result<(), ConfigError>)
        ensures
            r == self.spec_validation(),
            r is Ok <==> self.valid(),
    {
        if !(0 < self.player_size_x && self.player_size_x <= MAX_COORD) {
            Err(ConfigError::PlayerWidth)
        } else if !(0 < self.player_size_y && self.player_size_y <= MAX_COORD) {
            Err(ConfigError::PlayerHeight)
        } else if !(0 < self.player_box_size_x && self.player_box_size_x <= MAX_COORD) {
            Err(ConfigError::BoxWidth)
        } else if !(0 < self.player_box_size_y && self.player_box_size_y <= MAX_COORD) {
            Err(ConfigError::BoxHeight)
        } else if !(-MAX_FACTOR <= self.gravity_multiplier && self.gravity_multiplier
            <= MAX_FACTOR) {
            Err(ConfigError::GravityMultiplier)
        } else if !(-MAX_FACTOR <= self.player_initial_pos_x && self.player_initial_pos_x
            <= MAX_FACTOR) {
            Err(ConfigError::InitialPosFraction)
        } else if !(0 <= self.audio_volume && self.audio_volume <= MAX_FACTOR) {
            Err(ConfigError::AudioVolume)
        } else if !(-MAX_FACTOR <= self.floor_multiplier && self.floor_multiplier <= MAX_FACTOR) {
            Err(ConfigError::FloorMultiplier)
        } else {
            Ok(())
        }
    }

    /// The player's spawn abscissa: the configured fraction of the
    /// viewport width, to the left of the origin.
    pub fn initial_player_x(&self, viewport_width: i64) -> (r: i64)
        requires
            self.valid(),
            0 <= viewport_width <= MAX_COORD,
        ensures
            r == -spec_scale_milli(viewport_width as int, self.player_initial_pos_x as int),
    {
        let offset = scale_milli(viewport_width, self.player_initial_pos_x);
        -offset
    }

    /// World gravity along the vertical axis: standard gravity scaled
    /// by the configured multiplier, pointing down.
    pub fn gravity_y(&self) -> (r: i64)
        requires
            self.valid(),
        ensures
            r == spec_scale_milli(-STANDARD_GRAVITY as int, self.gravity_multiplier as int),
    {
        scale_milli(-STANDARD_GRAVITY, self.gravity_multiplier)
    }

    /// The floor's ordinate: the configured fraction of the viewport
    /// height, below the origin.
    pub fn floor_y(&self, viewport_height: i64) -> (r: i64)
        requires
            self.valid(),
            0 <= viewport_height <= MAX_COORD,
        ensures
            r == -spec_scale_milli(viewport_height as int, self.floor_multiplier as int),
    {
        let offset = scale_milli(viewport_height, self.floor_multiplier);
        -offset
    }
}

/// Process-wide presentation settings with their defaults: both
/// volumes at half, windowed mode.
#[derive(Clone, Copy, Debug, PartialEq, Eq, Structural)]
pub struct GameSettings {
    /// Music volume, per-mille of full volume.
    pub music_volume: i64,
    /// Sound-effect volume, per-mille of full volume.
    pub vfx_volume: i64,
    /// Borderless-fullscreen window mode.
    pub fullscreen: bool,
}

impl Default for GameSettings {
    /// Half volume on both channels, fullscreen off.
    fn default() -> (r: Self)
        ensures
            r.music_volume == 500,
            r.vfx_volume == 500,
            !r.fullscreen,
    {
        GameSettings { music_volume: 500, vfx_volume: 500, fullscreen: false }
    }
}

} // verus!
