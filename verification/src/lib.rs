//! Rock, paper, scissors and two five-move variants: the moves, the rule sets,
//! who beats whom and why, and the decisions a front-end makes around a round.

pub mod common;
pub mod credits;
pub mod game;
pub mod game_error;
pub mod game_move;
pub mod game_overview;
pub mod game_result;
pub mod game_settings;
pub mod game_type;
pub mod keyboard;
pub mod main_action;
pub mod menu;
pub mod player_options;
mod text;
