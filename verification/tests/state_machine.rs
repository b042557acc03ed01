use runner_core::state::{GameState, GameTrigger, StateCommand, StateController};

#[test]
fn splash_complete_reaches_main_menu() {
    assert_eq!(
        runner_core::state::next_state(GameState::Splash, GameTrigger::SplashComplete),
        StateCommand::Switch(GameState::MainMenu)
    );
}

#[test]
fn play_reaches_in_game() {
    assert_eq!(
        runner_core::state::next_state(GameState::MainMenu, GameTrigger::PlayActivated),
        StateCommand::Switch(GameState::InGame)
    );
}

#[test]
fn pause_edge_returns_to_main_menu() {
    assert_eq!(
        runner_core::state::next_state(GameState::InGame, GameTrigger::PauseEdge),
        StateCommand::Switch(GameState::MainMenu)
    );
}

#[test]
fn quit_terminates_from_every_state() {
    let states = [
        GameState::Splash,
        GameState::SplashEnd,
        GameState::MainMenu,
        GameState::GameLoading,
        GameState::InGame,
        GameState::Paused,
        GameState::GameOver,
    ];
    for s in states {
        assert_eq!(
            runner_core::state::next_state(s, GameTrigger::QuitActivated),
            StateCommand::Terminate
        );
    }
}

#[test]
fn undefined_trigger_rows_are_ignored() {
    assert_eq!(
        runner_core::state::next_state(GameState::MainMenu, GameTrigger::SplashComplete),
        StateCommand::Ignore
    );
    assert_eq!(
        runner_core::state::next_state(GameState::InGame, GameTrigger::PlayActivated),
        StateCommand::Ignore
    );
    assert_eq!(
        runner_core::state::next_state(GameState::MainMenu, GameTrigger::PauseEdge),
        StateCommand::Ignore
    );
    assert_eq!(
        runner_core::state::next_state(GameState::Paused, GameTrigger::PauseEdge),
        StateCommand::Ignore
    );
}

#[test]
fn initial_state_is_splash() {
    let c = StateController::new();
    assert_eq!(c.state, GameState::Splash);
    assert!(!c.ingame_setup_done);
    assert_eq!(GameState::default(), GameState::Splash);
}

#[test]
fn entering_main_menu_fires_menu_effects() {
    let mut c = StateController::new();
    let fx = c.handle(GameTrigger::SplashComplete);
    assert_eq!(c.state, GameState::MainMenu);
    assert!(fx.build_menu);
    assert!(fx.start_music);
    assert!(fx.fire_show);
    assert!(!fx.teardown_menu);
    assert!(!fx.fire_hide);
    assert!(!fx.setup_player);
    assert!(!fx.terminate);
}

#[test]
fn leaving_main_menu_fires_hide_effects() {
    let mut c = StateController::new();
    c.handle(GameTrigger::SplashComplete);
    let fx = c.handle(GameTrigger::PlayActivated);
    assert_eq!(c.state, GameState::InGame);
    assert!(fx.teardown_menu);
    assert!(fx.fire_hide);
    assert!(!fx.build_menu);
    assert!(fx.setup_player);
}

#[test]
fn player_setup_runs_at_most_once() {
    let mut c = StateController::new();
    c.handle(GameTrigger::SplashComplete);
    let first = c.handle(GameTrigger::PlayActivated);
    assert!(first.setup_player);
    let back = c.handle(GameTrigger::PauseEdge);
    assert_eq!(c.state, GameState::MainMenu);
    assert!(back.fire_show);
    let second = c.handle(GameTrigger::PlayActivated);
    assert_eq!(c.state, GameState::InGame);
    assert!(!second.setup_player);
}

#[test]
fn ignored_trigger_keeps_state() {
    let mut c = StateController::new();
    let fx = c.handle(GameTrigger::PauseEdge);
    assert_eq!(c.state, GameState::Splash);
    assert!(!fx.terminate);
    assert!(!fx.build_menu);
}

#[test]
fn quit_reports_terminate_and_keeps_state() {
    let mut c = StateController::new();
    c.handle(GameTrigger::SplashComplete);
    let fx = c.handle(GameTrigger::QuitActivated);
    assert!(fx.terminate);
    assert_eq!(c.state, GameState::MainMenu);
}

#[test]
fn paused_and_game_over_reachable_only_by_request() {
    let mut c = StateController::new();
    c.request(GameState::Paused);
    assert_eq!(c.state, GameState::Paused);
    c.request(GameState::GameOver);
    assert_eq!(c.state, GameState::GameOver);
}
