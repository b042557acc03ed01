use runner_core::config::{ConfigError, GameConfigAsset};
use runner_core::player::{
    player_movement, player_tick, startup_player, ActionInput, PLAYER_JUMP_FORCE, PLAYER_SPEED,
};
use runner_core::state::{GameState, GameTrigger, StateController};
use runner_core::units::Position;

fn idle_input() -> ActionInput {
    ActionInput {
        pause_just_pressed: false,
        jump_just_pressed: false,
        move_left_pressed: false,
        move_right_pressed: false,
    }
}

fn valid_config() -> GameConfigAsset {
    GameConfigAsset {
        gravity_multiplier: 2000,
        player_initial_pos_x: 350,
        player_size_x: 150000,
        player_size_y: 150000,
        player_box_size_x: 50000,
        player_box_size_y: 70000,
        audio_volume: 500,
        floor_multiplier: 500,
    }
}

#[test]
fn forward_speed_applies_every_in_game_tick() {
    let r = player_movement(GameState::InGame, idle_input(), Position { x: 1000, y: 2000 });
    assert_eq!(r.position.x, 1000 + PLAYER_SPEED);
    assert_eq!(r.position.y, 2000);
    assert!(!r.request_menu);
}

#[test]
fn move_right_doubles_forward_speed() {
    let input = ActionInput { move_right_pressed: true, ..idle_input() };
    let r = player_movement(GameState::InGame, input, Position { x: 0, y: 0 });
    assert_eq!(r.position.x, 2 * PLAYER_SPEED);
}

#[test]
fn move_left_cancels_forward_speed() {
    let input = ActionInput { move_left_pressed: true, ..idle_input() };
    let r = player_movement(GameState::InGame, input, Position { x: 500, y: 0 });
    assert_eq!(r.position.x, 500);
}

#[test]
fn jump_lifts_by_jump_force() {
    let input = ActionInput { jump_just_pressed: true, ..idle_input() };
    let r = player_movement(GameState::InGame, input, Position { x: 0, y: -100 });
    assert_eq!(r.position.y, -100 + PLAYER_JUMP_FORCE);
    assert_eq!(r.position.x, PLAYER_SPEED);
}

#[test]
fn jump_while_moving_keeps_horizontal_increment() {
    let moving = ActionInput { move_right_pressed: true, ..idle_input() };
    let jumping = ActionInput { jump_just_pressed: true, ..moving };
    let without_jump = player_movement(GameState::InGame, moving, Position { x: 0, y: 0 });
    let with_jump = player_movement(GameState::InGame, jumping, Position { x: 0, y: 0 });
    assert_eq!(with_jump.position.x, without_jump.position.x);
    assert_eq!(with_jump.position.y, PLAYER_JUMP_FORCE);
}

#[test]
fn no_movement_outside_in_game() {
    let input = ActionInput {
        jump_just_pressed: true,
        move_right_pressed: true,
        ..idle_input()
    };
    let r = player_movement(GameState::MainMenu, input, Position { x: 7, y: 8 });
    assert_eq!(r.position, Position { x: 7, y: 8 });
    assert!(!r.request_menu);
}

#[test]
fn pause_edge_in_game_switches_and_suppresses_movement() {
    let mut ctrl = StateController::new();
    ctrl.handle(GameTrigger::SplashComplete);
    ctrl.handle(GameTrigger::PlayActivated);
    assert_eq!(ctrl.state, GameState::InGame);
    let input = ActionInput {
        pause_just_pressed: true,
        jump_just_pressed: true,
        move_right_pressed: true,
        ..idle_input()
    };
    let (step, fx) = player_tick(&mut ctrl, input, Position { x: 123, y: 456 });
    assert_eq!(ctrl.state, GameState::MainMenu);
    assert_eq!(step.position, Position { x: 123, y: 456 });
    assert!(step.request_menu);
    assert!(fx.build_menu);
}

#[test]
fn tick_without_pause_leaves_controller_alone() {
    let mut ctrl = StateController::new();
    ctrl.handle(GameTrigger::SplashComplete);
    ctrl.handle(GameTrigger::PlayActivated);
    let (step, fx) = player_tick(&mut ctrl, idle_input(), Position { x: 0, y: 0 });
    assert_eq!(ctrl.state, GameState::InGame);
    assert_eq!(step.position.x, PLAYER_SPEED);
    assert!(!fx.build_menu && !fx.terminate);
}

#[test]
fn startup_player_derives_spawn_values() {
    let cfg = valid_config();
    let spawn = startup_player(&cfg, 1000000).expect("valid config must spawn");
    assert_eq!(spawn.position, Position { x: -350000, y: 0 });
    assert_eq!(spawn.sprite_size_x, 150000);
    assert_eq!(spawn.sprite_size_y, 150000);
    assert_eq!(spawn.collider_half_x, 50000);
    assert_eq!(spawn.collider_half_y, 70000);
    assert_eq!(spawn.gravity_y, -19620);
}

#[test]
fn negative_box_width_fails_setup() {
    let cfg = GameConfigAsset { player_box_size_x: -5000, ..valid_config() };
    assert_eq!(startup_player(&cfg, 1000000), Err(ConfigError::BoxWidth));
}

#[test]
fn config_validation_reports_each_field() {
    let cfg = valid_config();
    assert_eq!(cfg.validate(), Ok(()));
    let bad_width = GameConfigAsset { player_size_x: 0, ..valid_config() };
    assert_eq!(bad_width.validate(), Err(ConfigError::PlayerWidth));
    let bad_height = GameConfigAsset { player_size_y: -1, ..valid_config() };
    assert_eq!(bad_height.validate(), Err(ConfigError::PlayerHeight));
    let bad_box_h = GameConfigAsset { player_box_size_y: 0, ..valid_config() };
    assert_eq!(bad_box_h.validate(), Err(ConfigError::BoxHeight));
    let bad_gravity = GameConfigAsset { gravity_multiplier: 2000000, ..valid_config() };
    assert_eq!(bad_gravity.validate(), Err(ConfigError::GravityMultiplier));
    let bad_fraction = GameConfigAsset { player_initial_pos_x: -2000000, ..valid_config() };
    assert_eq!(bad_fraction.validate(), Err(ConfigError::InitialPosFraction));
    let bad_volume = GameConfigAsset { audio_volume: -1, ..valid_config() };
    assert_eq!(bad_volume.validate(), Err(ConfigError::AudioVolume));
    let bad_floor = GameConfigAsset { floor_multiplier: 2000000, ..valid_config() };
    assert_eq!(bad_floor.validate(), Err(ConfigError::FloorMultiplier));
}

#[test]
fn config_derives_floor_and_start() {
    let cfg = valid_config();
    assert_eq!(cfg.initial_player_x(1000000), -350000);
    assert_eq!(cfg.floor_y(800000), -400000);
    assert_eq!(cfg.gravity_y(), -19620);
}
