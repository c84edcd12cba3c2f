//! High-level client presentation states and the menu toggle.

use vstd::prelude::*;

verus! {

/// The client's presentation state.  A session starts in game; the menu is
/// toggled by hand; the death screen is entered when an authoritative
/// snapshot shows the controlled entity dead.
#[derive(Clone, Copy, PartialEq, Eq, Structural, Debug, Hash)]
pub enum AppState {
    InGame,
    GameMenu,
    MainMenu,
    DeathScreen,
}

impl Default for AppState {
    fn default() -> (r: Self)
        ensures
            r == AppState::InGame,
    {
        AppState::InGame
    }
}

/// The menu toggle: pressing escape in game opens the menu and frees the
/// cursor; pressing it in the menu returns to the game and hides the cursor.
/// Returns the state to switch to and whether the cursor becomes visible, or
/// nothing when no switch happens.
pub fn toggle_game_menu(current: &AppState, escape_just_pressed: bool) -> (r: Option<
    (AppState, bool),
>)
    ensures
        r == if escape_just_pressed && *current == AppState::InGame {
            Some((AppState::GameMenu, true))
        } else if escape_just_pressed && *current == AppState::GameMenu {
            Some((AppState::InGame, false))
        } else {
            None::<(AppState, bool)>
        },
{
    if escape_just_pressed {
        match current {
            AppState::InGame => Some((AppState::GameMenu, true)),
            AppState::GameMenu => Some((AppState::InGame, false)),
            _ => None,
        }
    } else {
        None
    }
}

} // verus!
