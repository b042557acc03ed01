//! Top-level game-state machine.
//!
//! Exactly one [`GameState`] is active at a time. Transitions happen
//! only through explicit trigger evaluation: a trigger either names a
//! new state, terminates the process, or is ignored when the current
//! state defines no target for it. `Paused` and `GameOver` are declared
//! but no trigger reaches them; a host may still request them through
//! the generic [`StateController::request`] entry point.

use vstd::prelude::*;

verus! {

/// The top-level states of the game.
#[derive(Clone, Copy, Debug, PartialEq, Eq, Structural)]
pub enum GameState {
    Splash,
    SplashEnd,
    MainMenu,
    GameLoading,
    InGame,
    Paused,
    GameOver,
}

impl Default for GameState {
    /// The machine starts on the splash screen.
    fn default() -> (r: Self)
        ensures
            r == GameState::Splash,
    {
        GameState::Splash
    }
}

/// The external triggers the machine reacts to.
#[derive(Clone, Copy, Debug, PartialEq, Eq, Structural)]
pub enum GameTrigger {
    /// The splash sequence has played to completion.
    SplashComplete,
    /// The "Play" menu button was activated.
    PlayActivated,
    /// The "Quit" menu button was activated.
    QuitActivated,
    /// The pause action fired its rising edge.
    PauseEdge,
}

/// What a trigger evaluation asks the host to do.
#[derive(Clone, Copy, Debug, PartialEq, Eq, Structural)]
pub enum StateCommand {
    /// Switch to the named state.
    Switch(GameState),
    /// Terminate the process cleanly (exit code 0).
    Terminate,
    /// The current state defines no target for the trigger: report and
    /// stay put.
    Ignore,
}

/// The transition table. Quit terminates regardless of the current
/// state; the three switching rows are Splash to MainMenu on splash
/// completion, MainMenu to InGame on Play, and InGame to MainMenu on a
/// pause edge. Every other pair is ignored.
pub open spec fn spec_next_state(current: GameState, trigger: GameTrigger) -> StateCommand {
    match trigger {
        GameTrigger::QuitActivated => StateCommand::Terminate,
        GameTrigger::SplashComplete => if current == GameState::Splash {
            StateCommand::Switch(GameState::MainMenu)
        } else {
            StateCommand::Ignore
        },
        GameTrigger::PlayActivated => if current == GameState::MainMenu {
            StateCommand::Switch(GameState::InGame)
        } else {
            StateCommand::Ignore
        },
        GameTrigger::PauseEdge => if current == GameState::InGame {
            StateCommand::Switch(GameState::MainMenu)
        } else {
            StateCommand::Ignore
        },
    }
}

/// Evaluates one trigger against the current state.
pub fn next_state(current: GameState, trigger: GameTrigger) -> (cmd: StateCommand)
    ensures
        cmd == spec_next_state(current, trigger),
{
    match trigger {
        GameTrigger::QuitActivated => StateCommand::Terminate,
        GameTrigger::SplashComplete => {
            if current == GameState::Splash {
                StateCommand::Switch(GameState::MainMenu)
            } else {
                StateCommand::Ignore
            }
        },
        GameTrigger::PlayActivated => {
            if current == GameState::MainMenu {
                StateCommand::Switch(GameState::InGame)
            } else {
                StateCommand::Ignore
            }
        },
        GameTrigger::PauseEdge => {
            if current == GameState::InGame {
                StateCommand::Switch(GameState::MainMenu)
            } else {
                StateCommand::Ignore
            }
        },
    }
}

/// The transition table is total over the defined triggers, and its
/// switching rows are exactly the three documented ones: splash
/// completion leaves Splash for MainMenu, Play leaves MainMenu for
/// InGame, a pause edge leaves InGame for MainMenu, and Quit terminates
/// regardless of the current state.
pub proof fn lemma_transition_table_total()
    ensures
        forall|s: GameState, t: GameTrigger|
            spec_next_state(s, t) is Switch || spec_next_state(s, t) is Terminate
                || spec_next_state(s, t) is Ignore,
        forall|s: GameState| spec_next_state(s, GameTrigger::QuitActivated) == StateCommand::Terminate,
        spec_next_state(GameState::Splash, GameTrigger::SplashComplete)
            == StateCommand::Switch(GameState::MainMenu),
        spec_next_state(GameState::MainMenu, GameTrigger::PlayActivated)
            == StateCommand::Switch(GameState::InGame),
        spec_next_state(GameState::InGame, GameTrigger::PauseEdge)
            == StateCommand::Switch(GameState::MainMenu),
        forall|s: GameState, t: GameTrigger|
            #[trigger] spec_next_state(s, t) matches StateCommand::Switch(n) ==> n != s,
{
}

/// No trigger reaches `Paused` or `GameOver`: they stay externally
/// requestable only.
pub proof fn lemma_paused_game_over_unreached()
    ensures
        forall|s: GameState, t: GameTrigger|
            spec_next_state(s, t) != StateCommand::Switch(GameState::Paused)
                && spec_next_state(s, t) != StateCommand::Switch(GameState::GameOver),
{
}

/// Side effects the host must perform after one trigger evaluation.
#[derive(Clone, Copy, Debug, PartialEq, Eq, Structural)]
pub struct TransitionEffects {
    /// Entering MainMenu: (re)build the menu UI.
    pub build_menu: bool,
    /// Entering MainMenu: (re)start the ambient music.
    pub start_music: bool,
    /// Entering MainMenu: fire the show-transition animation.
    pub fire_show: bool,
    /// Leaving MainMenu: tear the menu UI down.
    pub teardown_menu: bool,
    /// Leaving MainMenu: fire the hide-transition animation.
    pub fire_hide: bool,
    /// Entering InGame for the first time: run player/physics setup.
    pub setup_player: bool,
    /// Quit: terminate the process with exit code 0.
    pub terminate: bool,
}

/// No side effect requested.
pub open spec fn spec_no_effects() -> TransitionEffects {
    TransitionEffects {
        build_menu: false,
        start_music: false,
        fire_show: false,
        teardown_menu: false,
        fire_hide: false,
        setup_player: false,
        terminate: false,
    }
}

/// Owns the active state and the once-only guard for in-game setup.
#[derive(Clone, Copy, Debug, PartialEq, Eq, Structural)]
pub struct StateController {
    /// The single active state.
    pub state: GameState,
    /// Player/physics setup already ran once in this process.
    pub ingame_setup_done: bool,
}

/// The state the controller ends in after a command: a switch adopts
/// the named state, everything else stays put.
pub open spec fn spec_apply_command(current: GameState, cmd: StateCommand) -> GameState {
    match cmd {
        StateCommand::Switch(next) => next,
        StateCommand::Terminate => current,
        StateCommand::Ignore => current,
    }
}

impl StateController {
    /// A fresh controller: splash screen, setup not yet run.
    pub fn new() -> (r: Self)
        ensures
            r.state == GameState::Splash,
            !r.ingame_setup_done,
    {
        StateController { state: GameState::Splash, ingame_setup_done: false }
    }

    /// Evaluates one trigger, adopts the resulting state, and reports
    /// the side effects the host owes for this transition. Entering
    /// InGame requests player setup at most once across the whole
    /// process lifetime.
    pub fn handle(&mut self, trigger: GameTrigger) -> (fx: TransitionEffects)
        ensures
            final(self).state == spec_apply_command(
                old(self).state,
                spec_next_state(old(self).state, trigger),
            ),
            fx.terminate == (spec_next_state(old(self).state, trigger) is Terminate),
            fx.build_menu == entered(old(self).state, final(self).state, GameState::MainMenu),
            fx.start_music == fx.build_menu,
            fx.fire_show == fx.build_menu,
            fx.teardown_menu == left(old(self).state, final(self).state, GameState::MainMenu),
            fx.fire_hide == fx.teardown_menu,
            fx.setup_player == (entered(old(self).state, final(self).state, GameState::InGame)
                && !old(self).ingame_setup_done),
            final(self).ingame_setup_done == (old(self).ingame_setup_done
                || entered(old(self).state, final(self).state, GameState::InGame)),
    {
        let cmd = next_state(self.state, trigger);
        let before = self.state;
        let after = match cmd {
            StateCommand::Switch(next) => next,
            StateCommand::Terminate => before,
            StateCommand::Ignore => before,
        };
        self.state = after;
        let entered_menu = before != GameState::MainMenu && after == GameState::MainMenu;
        let left_menu = before == GameState::MainMenu && after != GameState::MainMenu;
        let entered_ingame = before != GameState::InGame && after == GameState::InGame;
        let setup_player = entered_ingame && !self.ingame_setup_done;
        if entered_ingame {
            self.ingame_setup_done = true;
        }
        TransitionEffects {
            build_menu: entered_menu,
            start_music: entered_menu,
            fire_show: entered_menu,
            teardown_menu: left_menu,
            fire_hide: left_menu,
            setup_player,
            terminate: matches!(cmd, StateCommand::Terminate),
        }
    }

    /// Generic transition request for states no trigger reaches
    /// (`Paused`, `GameOver`): adopts the requested state as-is and
    /// touches nothing else.
    pub fn request(&mut self, requested: GameState)
        ensures
            final(self).state == requested,
            final(self).ingame_setup_done == old(self).ingame_setup_done,
    {
        self.state = requested;
    }
}

/// The transition moved from outside `target` into `target`.
pub open spec fn entered(before: GameState, after: GameState, target: GameState) -> bool {
    before != target && after == target
}

/// The transition moved out of `target`.
pub open spec fn left(before: GameState, after: GameState, target: GameState) -> bool {
    before == target && after != target
}

} // verus!
