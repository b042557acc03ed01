//! Player controller: logical input to movement and state requests.
//!
//! The controller reads a per-tick snapshot of the four logical
//! actions. Pause is edge-triggered and wins over everything else in
//! its tick: it requests the menu state and applies no movement.
//! Otherwise, while the game is in the `InGame` state, the horizontal
//! position auto-advances by the forward speed, the held movement
//! actions nudge it left or right by the same constant, and a jump
//! edge lifts the vertical position by the jump impulse. Outside
//! `InGame` no movement is applied. Collision response stays with the
//! external physics engine, which only ever sees the nudged position.

use vstd::prelude::*;

use crate::config::{ConfigError, GameConfigAsset, STANDARD_GRAVITY};
use crate::state::{
    spec_apply_command, spec_next_state, spec_no_effects, GameState, GameTrigger, StateController,
    TransitionEffects,
};
use crate::units::{position_in_range, spec_scale_milli, Position, MAX_COORD};

verus! {

/// Horizontal step per tick, milli-units: both the auto-runner forward
/// speed and the left/right nudge.
pub const PLAYER_SPEED: i64 = 3000;

/// Vertical lift applied on a jump edge, milli-units.
pub const PLAYER_JUMP_FORCE: i64 = 30000;

/// Draw-order depth of the player sprite, per-mille.
pub const PLAYER_Z: i64 = 1700;

/// The four logical actions, decoupled from physical keys and buttons
/// by the host's input-mapping layer.
#[derive(Clone, Copy, Debug, PartialEq, Eq, Structural)]
pub enum PlayerAction {
    Pause,
    Jump,
    MoveLeft,
    MoveRight,
}

/// One tick's view of the logical actions: edge ("just pressed")
/// queries for the edge-triggered actions, level ("pressed") queries
/// for the held ones.
#[derive(Clone, Copy, Debug, PartialEq, Eq, Structural)]
pub struct ActionInput {
    /// Pause fired its rising edge this tick.
    pub pause_just_pressed: bool,
    /// Jump fired its rising edge this tick.
    pub jump_just_pressed: bool,
    /// MoveLeft is held this tick.
    pub move_left_pressed: bool,
    /// MoveRight is held this tick.
    pub move_right_pressed: bool,
}

/// What one controller tick produced.
#[derive(Clone, Copy, Debug, PartialEq, Eq, Structural)]
pub struct PlayerStep {
    /// The player position after this tick's nudges.
    pub position: Position,
    /// The controller asks for the menu state (pause edge fired).
    pub request_menu: bool,
}

/// Net horizontal movement of one in-game tick: forward speed, plus
/// the right nudge, minus the left nudge.
pub open spec fn spec_step_dx(input: ActionInput) -> int {
    PLAYER_SPEED as int + (if input.move_right_pressed {
        PLAYER_SPEED as int
    } else {
        0
    }) - (if input.move_left_pressed {
        PLAYER_SPEED as int
    } else {
        0
    })
}

/// Net vertical movement of one in-game tick: the jump impulse on a
/// jump edge, nothing otherwise.
pub open spec fn spec_step_dy(input: ActionInput) -> int {
    if input.jump_just_pressed {
        PLAYER_JUMP_FORCE as int
    } else {
        0
    }
}

impl ActionInput {
    /// The query the controller makes for one logical action this
    /// tick: the rising edge for the edge-triggered actions (Pause,
    /// Jump), the held level for MoveLeft and MoveRight.
    pub fn action_fires(&self, action: PlayerAction) -> (r: bool)
        ensures
            action == PlayerAction::Pause ==> r == self.pause_just_pressed,
            action == PlayerAction::Jump ==> r == self.jump_just_pressed,
            action == PlayerAction::MoveLeft ==> r == self.move_left_pressed,
            action == PlayerAction::MoveRight ==> r == self.move_right_pressed,
    {
        match action {
            PlayerAction::Pause => self.pause_just_pressed,
            PlayerAction::Jump => self.jump_just_pressed,
            PlayerAction::MoveLeft => self.move_left_pressed,
            PlayerAction::MoveRight => self.move_right_pressed,
        }
    }
}

/// The outcome of one controller tick as a single value: the pause
/// edge wins and freezes the position, movement applies only in
/// `InGame`, and the two axes move by their independent increments.
pub open spec fn spec_player_step(state: GameState, input: ActionInput, pos: Position) -> PlayerStep {
    if input.pause_just_pressed {
        PlayerStep { position: pos, request_menu: true }
    } else if state == GameState::InGame {
        PlayerStep {
            position: Position {
                x: (pos.x + spec_step_dx(input)) as i64,
                y: (pos.y + spec_step_dy(input)) as i64,
            },
            request_menu: false,
        }
    } else {
        PlayerStep { position: pos, request_menu: false }
    }
}

/// One controller tick. A pause edge suppresses all movement of this
/// tick and requests the menu; otherwise movement applies exactly when
/// the game is in `InGame`.
pub fn player_movement(state: GameState, input: ActionInput, pos: Position) -> (r: PlayerStep)
    requires
        position_in_range(pos),
    ensures
        r == spec_player_step(state, input, pos),
        input.pause_just_pressed ==> r == (PlayerStep { position: pos, request_menu: true }),
        !input.pause_just_pressed ==> !r.request_menu,
        !input.pause_just_pressed && state == GameState::InGame ==> r.position.x == pos.x
            + spec_step_dx(input) && r.position.y == pos.y + spec_step_dy(input),
        !input.pause_just_pressed && state != GameState::InGame ==> r.position == pos,
{
    if input.action_fires(PlayerAction::Pause) {
        return PlayerStep { position: pos, request_menu: true };
    }
    if state == GameState::InGame {
        let mut x = pos.x;
        let mut y = pos.y;
        x = x + PLAYER_SPEED;
        if input.action_fires(PlayerAction::MoveLeft) {
            x = x - PLAYER_SPEED;
        }
        if input.action_fires(PlayerAction::MoveRight) {
            x = x + PLAYER_SPEED;
        }
        if input.action_fires(PlayerAction::Jump) {
            y = y + PLAYER_JUMP_FORCE;
        }
        PlayerStep { position: Position { x, y }, request_menu: false }
    } else {
        PlayerStep { position: pos, request_menu: false }
    }
}

/// One whole player tick against the state controller: movement is
/// computed against the state the tick began in, and a pause edge
/// feeds the pause trigger to the controller within the same tick, so
/// that `InGame` leaves for `MainMenu` with all movement of that tick
/// suppressed.
pub fn player_tick(ctrl: &mut StateController, input: ActionInput, pos: Position) -> (r: (
    PlayerStep,
    TransitionEffects,
))
    requires
        position_in_range(pos),
    ensures
        r.0 == spec_player_step(old(ctrl).state, input, pos),
        input.pause_just_pressed ==> final(ctrl).state == spec_apply_command(
            old(ctrl).state,
            spec_next_state(old(ctrl).state, GameTrigger::PauseEdge),
        ),
        input.pause_just_pressed && old(ctrl).state == GameState::InGame ==> final(ctrl).state
            == GameState::MainMenu && r.0.position == pos,
        !input.pause_just_pressed ==> *final(ctrl) == *old(ctrl) && r.1 == spec_no_effects(),
{
    let step = player_movement(ctrl.state, input, pos);
    if step.request_menu {
        let fx = ctrl.handle(GameTrigger::PauseEdge);
        (step, fx)
    } else {
        (
            step,
            TransitionEffects {
                build_menu: false,
                start_music: false,
                fire_show: false,
                teardown_menu: false,
                fire_hide: false,
                setup_player: false,
                terminate: false,
            },
        )
    }
}

/// A jump edge and the horizontal advance do not disturb one another:
/// in the same tick, jumping leaves the horizontal increment exactly
/// what it would be without the jump, and moving leaves the vertical
/// lift exactly the jump impulse.
pub proof fn lemma_jump_and_advance_commute(input: ActionInput)
    ensures
        spec_step_dx(input) == spec_step_dx(ActionInput { jump_just_pressed: false, ..input }),
        spec_step_dx(input) == spec_step_dx(ActionInput { jump_just_pressed: true, ..input }),
        input.jump_just_pressed ==> spec_step_dy(input) == PLAYER_JUMP_FORCE as int,
        spec_step_dy(input) == spec_step_dy(
            ActionInput { move_left_pressed: false, move_right_pressed: false, ..input },
        ),
{
}

/// Everything the host needs to spawn the player and its physics
/// bodies, derived from a validated configuration.
#[derive(Clone, Copy, Debug, PartialEq, Eq, Structural)]
pub struct PlayerSpawn {
    /// Player start position: the configured fraction of the viewport
    /// width left of the origin, at height zero.
    pub position: Position,
    /// Rendered sprite width, milli-units.
    pub sprite_size_x: i64,
    /// Rendered sprite height, milli-units.
    pub sprite_size_y: i64,
    /// Dynamic collider box half-width, milli-units.
    pub collider_half_x: i64,
    /// Dynamic collider box half-height, milli-units.
    pub collider_half_y: i64,
    /// World gravity along the vertical axis, milli-units per second
    /// squared; negative points down.
    pub gravity_y: i64,
}

/// Gates player setup on a well-formed configuration, then derives the
/// spawn values. Succeeds exactly on valid configurations; a malformed
/// one (such as a non-positive collider box) is rejected before any
/// degenerate collider could be built.
pub fn startup_player(cfg: &GameConfigAsset, viewport_width: i64) -> (r: Result<
    PlayerSpawn,
    ConfigError,
>)
    requires
        0 <= viewport_width <= MAX_COORD,
    ensures
        r is Ok <==> cfg.valid(),
        r matches Err(e) ==> cfg.spec_validation() == Err::<(), ConfigError>(e),
        r matches Ok(s) ==> {
            &&& s.position.x == -spec_scale_milli(
                viewport_width as int,
                cfg.player_initial_pos_x as int,
            )
            &&& s.position.y == 0
            &&& s.sprite_size_x == cfg.player_size_x
            &&& s.sprite_size_y == cfg.player_size_y
            &&& s.collider_half_x == cfg.player_box_size_x
            &&& s.collider_half_y == cfg.player_box_size_y
            &&& s.collider_half_x > 0
            &&& s.collider_half_y > 0
            &&& s.gravity_y == spec_scale_milli(
                -STANDARD_GRAVITY as int,
                cfg.gravity_multiplier as int,
            )
        },
{
    match cfg.validate() {
        Ok(()) => Ok(
            PlayerSpawn {
                position: Position { x: cfg.initial_player_x(viewport_width), y: 0 },
                sprite_size_x: cfg.player_size_x,
                sprite_size_y: cfg.player_size_y,
                collider_half_x: cfg.player_box_size_x,
                collider_half_y: cfg.player_box_size_y,
                gravity_y: cfg.gravity_y(),
            },
        ),
        Err(e) => Err(e),
    }
}

} // verus!
