use runner_core::camera::{camera_follow, default_camera_rig, CameraPolicy};
use runner_core::config::GameSettings;
use runner_core::environment::floor_spawn;
use runner_core::mainmenu::{
    button_system, main_menu_buttons, ButtonInteraction, MainMenuButton, MainMenuState,
};
use runner_core::state::{GameState, StateCommand};
use runner_core::transition::Visibility;
use runner_core::units::{scale_milli, Position};

#[test]
fn play_click_requests_in_game() {
    let btn = MainMenuButton { action: MainMenuState::Play };
    let r = button_system(ButtonInteraction::Clicked, &btn);
    assert_eq!(r.command, StateCommand::Switch(GameState::InGame));
    assert_eq!(r.pointer, None);
}

#[test]
fn quit_click_terminates() {
    let btn = MainMenuButton { action: MainMenuState::Quit };
    let r = button_system(ButtonInteraction::Clicked, &btn);
    assert_eq!(r.command, StateCommand::Terminate);
}

#[test]
fn other_clicks_stay_in_menu() {
    for action in [MainMenuState::Main, MainMenuState::Options, MainMenuState::Credits] {
        let r = button_system(ButtonInteraction::Clicked, &MainMenuButton { action });
        assert_eq!(r.command, StateCommand::Ignore);
    }
}

#[test]
fn hover_toggles_the_pointer_glyph() {
    let btn = MainMenuButton { action: MainMenuState::Play };
    let hovered = button_system(ButtonInteraction::Hovered, &btn);
    assert_eq!(hovered.pointer, Some(Visibility::Visible));
    assert_eq!(hovered.command, StateCommand::Ignore);
    let idle = button_system(ButtonInteraction::Inactive, &btn);
    assert_eq!(idle.pointer, Some(Visibility::Hidden));
}

#[test]
fn menu_lists_its_four_buttons_in_order() {
    let buttons = main_menu_buttons();
    let labels: Vec<&str> = buttons.iter().map(|(s, _)| s.as_str()).collect();
    assert_eq!(labels, vec!["Play", "Options", "Credits", "Quit"]);
    assert_eq!(buttons[0].1.action, MainMenuState::Play);
    assert_eq!(buttons[3].1.action, MainMenuState::Quit);
    assert_eq!(MainMenuState::default(), MainMenuState::Main);
}

#[test]
fn credits_name_every_role() {
    let credits = runner_core::mainmenu::credits_entries();
    let roles: Vec<&str> = credits.iter().map(|(r, _)| r.as_str()).collect();
    assert_eq!(roles, vec!["Programmer", "Artist", "Music", "Sound Effects"]);
    assert!(credits.iter().all(|(_, p)| p == "Sergio Ribera"));
}

#[test]
fn splash_sequence_completes_after_both_cards() {
    assert_eq!(runner_core::splash::splash_total_ms(), 10000);
    assert!(!runner_core::splash::splash_complete(9999));
    assert!(runner_core::splash::splash_complete(10000));
    assert!(runner_core::splash::splash_complete(25000));
}

#[test]
fn static_camera_stays_put() {
    let rig = default_camera_rig();
    assert_eq!(rig.offset_x, -250000);
    assert_eq!(rig.offset_y, 0);
    assert_eq!(CameraPolicy::default(), CameraPolicy::Static);
    let camera = Position { x: 11, y: 22 };
    let player = Position { x: 500000, y: 60000 };
    assert_eq!(camera_follow(CameraPolicy::Static, camera, player, &rig), camera);
}

#[test]
fn follow_camera_tracks_player_plus_offset() {
    let rig = default_camera_rig();
    let camera = Position { x: 11, y: 22 };
    let player = Position { x: 500000, y: 60000 };
    let r = camera_follow(CameraPolicy::Follow, camera, player, &rig);
    assert_eq!(r, Position { x: 250000, y: 60000 });
}

#[test]
fn floor_spans_the_viewport_below_the_origin() {
    let cfg = runner_core::config::GameConfigAsset {
        gravity_multiplier: 1000,
        player_initial_pos_x: 350,
        player_size_x: 150000,
        player_size_y: 150000,
        player_box_size_x: 50000,
        player_box_size_y: 70000,
        audio_volume: 500,
        floor_multiplier: 250,
    };
    let floor = floor_spawn(&cfg, 1920000, 1080000);
    assert_eq!(floor.x, 0);
    assert_eq!(floor.y, -270000);
    assert_eq!(floor.z, 5000);
    assert_eq!(floor.collider_half_x, 1920000);
    assert_eq!(floor.collider_half_y, 50000);
}

#[test]
fn atlas_platform_anchors_left_of_the_origin() {
    let r = runner_core::platform::draw_atlas(1000000);
    assert_eq!(r, Position { x: -350000, y: 0 });
}

#[test]
fn settings_default_to_half_volume_windowed() {
    let s = GameSettings::default();
    assert_eq!(s.music_volume, 500);
    assert_eq!(s.vfx_volume, 500);
    assert!(!s.fullscreen);
}

#[test]
fn fixed_point_scaling_truncates_toward_zero() {
    assert_eq!(scale_milli(1000000, 1200), 1200000);
    assert_eq!(scale_milli(-9810, 2000), -19620);
    assert_eq!(scale_milli(7, 500), 3);
    assert_eq!(scale_milli(-7, 500), -3);
    assert_eq!(scale_milli(0, 999), 0);
}
