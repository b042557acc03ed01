//! Main-menu model: the button set and what interacting with a button
//! does.
//!
//! Widget layout and rendering belong to the host; this module owns
//! the decisions. A click on Play asks the game-state machine for
//! `InGame`, a click on Quit terminates, every other click stays in
//! the menu; hovering a button shows its pointer glyph and leaving it
//! hides it again.

use vstd::prelude::*;
use vstd::string::StringExecFns;

use crate::state::{GameState, StateCommand};
use crate::transition::Visibility;

verus! {

/// The menu's own submenu state.
#[derive(Clone, Copy, Debug, PartialEq, Eq, Structural)]
pub enum MainMenuState {
    /// The top-level button list.
    Main,
    /// The Play action.
    Play,
    /// The options submenu.
    Options,
    /// The credits submenu.
    Credits,
    /// The Quit action.
    Quit,
}

impl Default for MainMenuState {
    /// The menu opens on its top-level button list.
    fn default() -> (r: Self)
        ensures
            r == MainMenuState::Main,
    {
        MainMenuState::Main
    }
}

/// One button of the menu, tagged with the action it performs.
#[derive(Clone, Copy, Debug, PartialEq, Eq, Structural)]
pub struct MainMenuButton {
    /// What activating this button does.
    pub action: MainMenuState,
}

/// How the pointer interacts with a button this tick.
#[derive(Clone, Copy, Debug, PartialEq, Eq, Structural)]
pub enum ButtonInteraction {
    /// The button was activated.
    Clicked,
    /// The pointer rests on the button.
    Hovered,
    /// The pointer is elsewhere.
    Inactive,
}

/// What one button interaction asks for.
#[derive(Clone, Copy, Debug, PartialEq, Eq, Structural)]
pub struct ButtonOutcome {
    /// The request to the game-state machine.
    pub command: StateCommand,
    /// New visibility of the button's pointer glyph, when it changes.
    pub pointer: Option<Visibility>,
}

/// The command a click on `action` issues: Play asks for `InGame`,
/// Quit terminates, everything else is ignored.
pub open spec fn spec_click_command(action: MainMenuState) -> StateCommand {
    match action {
        MainMenuState::Play => StateCommand::Switch(GameState::InGame),
        MainMenuState::Quit => StateCommand::Terminate,
        MainMenuState::Main => StateCommand::Ignore,
        MainMenuState::Options => StateCommand::Ignore,
        MainMenuState::Credits => StateCommand::Ignore,
    }
}

/// Resolves one button interaction. A click issues the button's
/// command and leaves the pointer glyph alone; hovering shows the
/// glyph; an idle pointer hides it.
pub fn button_system(interaction: ButtonInteraction, button: &MainMenuButton) -> (r: ButtonOutcome)
    ensures
        interaction == ButtonInteraction::Clicked ==> r == (ButtonOutcome {
            command: spec_click_command(button.action),
            pointer: None,
        }),
        interaction == ButtonInteraction::Hovered ==> r == (ButtonOutcome {
            command: StateCommand::Ignore,
            pointer: Some(Visibility::Visible),
        }),
        interaction == ButtonInteraction::Inactive ==> r == (ButtonOutcome {
            command: StateCommand::Ignore,
            pointer: Some(Visibility::Hidden),
        }),
{
    match interaction {
        ButtonInteraction::Clicked => {
            let command = match button.action {
                MainMenuState::Play => StateCommand::Switch(GameState::InGame),
                MainMenuState::Quit => StateCommand::Terminate,
                MainMenuState::Main => StateCommand::Ignore,
                MainMenuState::Options => StateCommand::Ignore,
                MainMenuState::Credits => StateCommand::Ignore,
            };
            ButtonOutcome { command, pointer: None }
        },
        ButtonInteraction::Hovered => ButtonOutcome {
            command: StateCommand::Ignore,
            pointer: Some(Visibility::Visible),
        },
        ButtonInteraction::Inactive => ButtonOutcome {
            command: StateCommand::Ignore,
            pointer: Some(Visibility::Hidden),
        },
    }
}

/// The menu buttons agree with the game-state transition table: a
/// Play click issues exactly what the Play trigger does from the
/// menu, and a Quit click terminates exactly as the Quit trigger does
/// from any state.
pub proof fn lemma_buttons_follow_table()
    ensures
        spec_click_command(MainMenuState::Play) == crate::state::spec_next_state(
            GameState::MainMenu,
            crate::state::GameTrigger::PlayActivated,
        ),
        forall|s: GameState|
            spec_click_command(MainMenuState::Quit) == crate::state::spec_next_state(
                s,
                crate::state::GameTrigger::QuitActivated,
            ),
{
}

/// The top-level button list in display order: Play, Options,
/// Credits, Quit.
pub fn main_menu_buttons() -> (v: Vec<(String, MainMenuButton)>)
    ensures
        v@.len() == 4,
        v@[0].0@ == "Play"@ && v@[0].1.action == MainMenuState::Play,
        v@[1].0@ == "Options"@ && v@[1].1.action == MainMenuState::Options,
        v@[2].0@ == "Credits"@ && v@[2].1.action == MainMenuState::Credits,
        v@[3].0@ == "Quit"@ && v@[3].1.action == MainMenuState::Quit,
{
    let mut v: Vec<(String, MainMenuButton)> = Vec::new();
    v.push((String::from_str("Play"), MainMenuButton { action: MainMenuState::Play }));
    v.push((String::from_str("Options"), MainMenuButton { action: MainMenuState::Options }));
    v.push((String::from_str("Credits"), MainMenuButton { action: MainMenuState::Credits }));
    v.push((String::from_str("Quit"), MainMenuButton { action: MainMenuState::Quit }));
    v
}

/// The credits roll: each role with the people under it.
pub fn credits_entries() -> (v: Vec<(String, String)>)
    ensures
        v@.len() == 4,
        v@[0].0@ == "Programmer"@ && v@[0].1@ == "Sergio Ribera"@,
        v@[1].0@ == "Artist"@ && v@[1].1@ == "Sergio Ribera"@,
        v@[2].0@ == "Music"@ && v@[2].1@ == "Sergio Ribera"@,
        v@[3].0@ == "Sound Effects"@ && v@[3].1@ == "Sergio Ribera"@,
{
    let mut v: Vec<(String, String)> = Vec::new();
    v.push((String::from_str("Programmer"), String::from_str("Sergio Ribera")));
    v.push((String::from_str("Artist"), String::from_str("Sergio Ribera")));
    v.push((String::from_str("Music"), String::from_str("Sergio Ribera")));
    v.push((String::from_str("Sound Effects"), String::from_str("Sergio Ribera")));
    v
}

} // verus!
