//! What the first prompt offers: a rule set to play under, or to leave.

use crate::game_error::{GameError, GameErrorKind};
use crate::game_type::GameType;
use vstd::prelude::*;

verus! {

/// What the player chooses at the first prompt.
#[derive(Debug, PartialEq, Eq)]
pub enum MainAction {
    AppQuit,
    GameStart(GameType),
}

/// The text of the first prompt.
pub const MAIN_ACTIONS_MENU: &'static str =
    "\nChoose game type or quit\nN|n Rock paper scissors\nS|s Rock paper scissors Spock lizard\nF|f Rock paper scissors fire water\n\nQ|q Quit\n";

/// What a character typed at the first prompt chooses, in either case: `N`,
/// `S` and `F` start a game under their rule set, `Q` leaves, and every other
/// character chooses nothing.
pub open spec fn chosen_action(input: char) -> Option<MainAction> {
    if input == 'N' || input == 'n' {
        Some(MainAction::GameStart(GameType::Normal))
    } else if input == 'S' || input == 's' {
        Some(MainAction::GameStart(GameType::SpockLizard))
    } else if input == 'F' || input == 'f' {
        Some(MainAction::GameStart(GameType::FireWater))
    } else if input == 'Q' || input == 'q' {
        Some(MainAction::AppQuit)
    } else {
        None
    }
}

/// The text of the first prompt.
pub fn get_main_actions_menu() -> (menu: String)
    ensures
        menu@ == MAIN_ACTIONS_MENU@,
{
    MAIN_ACTIONS_MENU.to_owned()
}

/// Reads one character typed at the first prompt. An error carries the
/// message to show before asking again.
pub fn choose_action(input: char) -> (chosen: Result<MainAction, GameError>)
    ensures
        match chosen {
            Ok(action) => chosen_action(input) == Some(action),
            Err(error) => {
                &&& chosen_action(input) is None
                &&& error.kind == GameErrorKind::InvalidInputCharacter
                &&& error.message@ == GameError::unknown_character_message(input)
            },
        },
{
    match input {
        'N' | 'n' => Ok(MainAction::GameStart(GameType::Normal)),
        'S' | 's' => Ok(MainAction::GameStart(GameType::SpockLizard)),
        'F' | 'f' => Ok(MainAction::GameStart(GameType::FireWater)),
        'Q' | 'q' => Ok(MainAction::AppQuit),
        _ => Err(GameError::unknown_character(GameErrorKind::InvalidInputCharacter, input)),
    }
}

} // verus!
