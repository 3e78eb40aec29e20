//! The credits screen.

use crate::common::{AppState, Reaction};
use crate::keyboard::{KeyCode, KeyboardInput};
use vstd::prelude::*;

verus! {

/// `B` leaves the credits for the menu. Without it nothing happens.
pub fn confirm_button_action(keyboard_input: &KeyboardInput) -> (reaction: Reaction)
    ensures
        reaction == if keyboard_input.pressed(KeyCode::B) {
            Reaction { app_state: Some(AppState::Menu), ..Reaction::switch_sound() }
        } else {
            Reaction::nothing()
        },
{
    let mut reaction = Reaction::none();
    if keyboard_input.just_pressed(KeyCode::B) {
        reaction = Reaction::with_switch_sound();
        reaction.app_state = Some(AppState::Menu);
    }
    reaction
}

} // verus!
