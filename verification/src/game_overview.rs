//! The overview that closes a game.

use crate::common::{AppState, GameState, GameStatistics, Reaction};
use crate::keyboard::{KeyCode, KeyboardInput};
use vstd::prelude::*;

verus! {

/// `C` leaves the overview for the menu and clears the score. Without it
/// nothing happens and the score stays.
pub fn confirm_button_action(
    keyboard_input: &KeyboardInput,
    game_statistics: &mut GameStatistics,
) -> (reaction: Reaction)
    ensures
        *final(game_statistics) == if keyboard_input.pressed(KeyCode::C) {
            GameStatistics::fresh()
        } else {
            *old(game_statistics)
        },
        reaction == if keyboard_input.pressed(KeyCode::C) {
            Reaction {
                game_state: Some(GameState::NotInit),
                app_state: Some(AppState::Menu),
                ..Reaction::switch_sound()
            }
        } else {
            Reaction::nothing()
        },
{
    let mut reaction = Reaction::none();
    if keyboard_input.just_pressed(KeyCode::C) {
        game_statistics.reset_scores();
        reaction = Reaction::with_switch_sound();
        reaction.game_state = Some(GameState::NotInit);
        reaction.app_state = Some(AppState::Menu);
    }
    reaction
}

} // verus!
