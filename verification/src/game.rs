//! The game screen: marking a move, playing the round against the computer,
//! and leaving.

use crate::common::{AppState, GameSound, GameState, GameStatistics, MenuState, Reaction, SelectedOption};
use crate::game_move::GameMove;
use crate::game_result::GameResult;
use crate::game_type::GameType;
use crate::keyboard::{KeyCode, KeyboardInput};
use rand::Rng;
use vstd::prelude::*;

verus! {

/// `Rng::gen_range` of rand, called on `rand::thread_rng()` with the range
/// `1..=last`. The call panics on an empty range, which `1 <= last` rules
/// out; whatever number comes back lies in the range.
#[verifier::external_body]
fn random_slot(last: i32) -> (slot: i32)
    requires
        1 <= last,
    ensures
        1 <= slot <= last,
{
    rand::thread_rng().gen_range(1..=last)
}

/// The move the computer plays on the number `value`: 1, 2 and 3 give rock,
/// paper and scissors, 4 the first extra move and every other number the
/// second; the extra moves are Spock and lizard under `SpockLizard`, fire and
/// water under every other rule set.
pub open spec fn computer_choice(game_type: GameType, value: int) -> GameMove {
    if value == 1 {
        GameMove::Rock
    } else if value == 2 {
        GameMove::Paper
    } else if value == 3 {
        GameMove::Scissors
    } else if value == 4 {
        if game_type == GameType::SpockLizard {
            GameMove::Spock
        } else {
            GameMove::Fire
        }
    } else {
        if game_type == GameType::SpockLizard {
            GameMove::Lizard
        } else {
            GameMove::Water
        }
    }
}

/// Whether confirming can go through: a marked move needs a chosen rule set
/// and room for one more round in every count; without a marked move there
/// must be a last round, whose sound plays again.
pub open spec fn can_confirm_game_move(
    keyboard_input: KeyboardInput,
    selected_option: SelectedOption,
    game_type: GameType,
    statistics: GameStatistics,
) -> bool {
    keyboard_input.confirmed() ==> match GameMove::at_slot(game_type, selected_option.value as int) {
        Some(_) => {
            &&& game_type != GameType::Uninitialized
            &&& statistics.wins < u32::MAX
            &&& statistics.loses < u32::MAX
            &&& statistics.draws < u32::MAX
        },
        None => statistics.last_round_result is Some,
    }
}

/// What the game screen asks for after a round that ended in `result`.
pub open spec fn round_played(result: GameResult) -> Reaction {
    Reaction {
        game_state: Some(GameState::RoundFinish),
        sound: Some(GameSound::of_result(result)),
        ..Reaction::nothing()
    }
}

/// The state a game starts in once the game screen is entered.
pub fn init_game_setup() -> (state: GameState)
    ensures
        state == GameState::PlayerMoveRender,
{
    GameState::PlayerMoveRender
}

/// The move buttons of the game screen, in the order of their slots, and the
/// state to enter once they are drawn. The first button is the marked one.
pub fn setup_game_screen(game_type: &GameType) -> (screen: (Vec<GameMove>, GameState))
    ensures
        screen.0@ == GameMove::slot_order(*game_type),
        screen.1 == GameState::PlayerMove,
{
    let mut buttons: Vec<GameMove> = Vec::new();
    buttons.push(GameMove::Rock);
    buttons.push(GameMove::Paper);
    buttons.push(GameMove::Scissors);
    match game_type {
        GameType::SpockLizard => {
            buttons.push(GameMove::Spock);
            buttons.push(GameMove::Lizard);
        },
        GameType::FireWater => {
            buttons.push(GameMove::Fire);
            buttons.push(GameMove::Water);
        },
        _ => {},
    }
    assert(buttons@ =~= GameMove::slot_order(*game_type));
    (buttons, GameState::PlayerMove)
}

/// Whether the button of `game_move` carries the mark: it does exactly if the
/// marked option is the move's slot.
pub fn setup_player_move_screen(game_move: &GameMove, selected_option: &SelectedOption) -> (marked:
    bool)
    ensures
        marked == (selected_option.value == game_move.slot()),
{
    selected_option.value == game_move.slot_number()
}

/// Moves the mark: left towards the first move, else right towards the last
/// one of the rule set. With neither key nothing happens.
pub fn switch_game_move(
    keyboard_input: &KeyboardInput,
    selected_option: &mut SelectedOption,
    game_type: &GameType,
) -> (reaction: Reaction)
    ensures
        final(selected_option).value == if keyboard_input.pressed(KeyCode::Left) {
            SelectedOption::stepped_back(old(selected_option).value as int)
        } else if keyboard_input.pressed(KeyCode::Right) {
            SelectedOption::stepped_on(old(selected_option).value as int, game_type.max_slots())
        } else {
            old(selected_option).value as int
        },
        reaction == if keyboard_input.pressed(KeyCode::Left) || keyboard_input.pressed(
            KeyCode::Right,
        ) {
            Reaction::marks_moved()
        } else {
            Reaction::nothing()
        },
{
    let mut reaction = Reaction::none();
    if keyboard_input.just_pressed(KeyCode::Left) {
        selected_option.step_back();
        reaction = Reaction::with_marks_moved();
    } else if keyboard_input.just_pressed(KeyCode::Right) {
        selected_option.step_on(game_type.max_number_of_moves());
        reaction = Reaction::with_marks_moved();
    }
    reaction
}

/// The computer's move for the number `random_value`.
pub fn computer_move_from(game_type: &GameType, random_value: i32) -> (game_move: GameMove)
    ensures
        game_move == computer_choice(*game_type, random_value as int),
        *game_type != GameType::Uninitialized && 1 <= random_value <= game_type.max_slots()
            ==> GameMove::at_slot(*game_type, random_value as int) == Some(game_move)
            && game_move.is_legal(*game_type),
{
    match random_value {
        1 => GameMove::Rock,
        2 => GameMove::Paper,
        3 => GameMove::Scissors,
        4 => {
            if *game_type == GameType::SpockLizard {
                GameMove::Spock
            } else {
                GameMove::Fire
            }
        },
        _ => {
            if *game_type == GameType::SpockLizard {
                GameMove::Lizard
            } else {
                GameMove::Water
            }
        },
    }
}

/// Draws the computer's move: the move for some number between 1 and the
/// rule set's number of slots. Which number, chance decides.
pub fn get_computer_move(game_type: &GameType) -> (game_move: GameMove)
    ensures
        exists|value: int|
            1 <= value <= game_type.max_slots() && game_move == #[trigger] computer_choice(
                *game_type,
                value,
            ),
        *game_type != GameType::Uninitialized ==> game_move.is_legal(*game_type),
{
    let random_value = random_slot(game_type.max_number_of_moves());
    computer_move_from(game_type, random_value)
}

/// Plays one round of `player_move` against `computer_move` and books it.
pub fn play_round(
    game_type: &GameType,
    player_move: GameMove,
    computer_move: GameMove,
    statistics: &mut GameStatistics,
) -> (result: GameResult)
    requires
        *game_type != GameType::Uninitialized,
        player_move.is_legal(*game_type),
        computer_move.is_legal(*game_type),
        old(statistics).count(player_move.outcome(*game_type, computer_move)) < u32::MAX,
    ensures
        result == player_move.outcome(*game_type, computer_move),
        *final(statistics) == old(statistics).after_round(player_move, computer_move, result),
{
    let result = player_move.beats_other(game_type, &computer_move);
    statistics.record_round(player_move, computer_move, result);
    result
}

/// Confirms the marked move on return or space: the computer draws its move,
/// the round is played and booked, and the round's sound is asked for. Where
/// the marked option holds no move, no round is played and the sound of the
/// last round is asked for again. Without either key nothing happens.
pub fn confirm_game_move(
    keyboard_input: &KeyboardInput,
    selected_option: &SelectedOption,
    game_type: &GameType,
    statistics: &mut GameStatistics,
) -> (reaction: Reaction)
    requires
        can_confirm_game_move(*keyboard_input, *selected_option, *game_type, *old(statistics)),
    ensures
        !keyboard_input.confirmed() ==> *final(statistics) == *old(statistics) && reaction
            == Reaction::nothing(),
        keyboard_input.confirmed() ==> match GameMove::at_slot(
            *game_type,
            selected_option.value as int,
        ) {
            Some(player_move) => {
                &&& final(statistics).last_computer_move matches Some(computer_move)
                &&& computer_move.is_legal(*game_type)
                &&& *final(statistics) == old(statistics).after_round(
                    player_move,
                    computer_move,
                    player_move.outcome(*game_type, computer_move),
                )
                &&& reaction == round_played(player_move.outcome(*game_type, computer_move))
            },
            None => {
                &&& *final(statistics) == *old(statistics)
                &&& reaction == Reaction {
                    sound: Some(GameSound::of_result(old(statistics).last_round_result->0)),
                    ..Reaction::nothing()
                }
            },
        },
{
    let mut reaction = Reaction::none();
    if keyboard_input.any_just_pressed(KeyCode::Return, KeyCode::Space) {
        match GameMove::from_i32(*game_type, selected_option.get_value()) {
            Some(player_move) => {
                proof {
                    crate::game_move::slots_hold_the_legal_moves(*game_type, player_move);
                }
                let computer_move = get_computer_move(game_type);
                let result = play_round(game_type, player_move, computer_move, statistics);
                reaction.game_state = Some(GameState::RoundFinish);
                reaction.sound = Some(GameSound::for_result(result));
            },
            None => {
                match statistics.last_round_result {
                    Some(result) => {
                        reaction.sound = Some(GameSound::for_result(result));
                    },
                    None => {},
                }
            },
        }
    }
    reaction
}

/// After a round: `C` goes on with the next round, else `F` ends the game and
/// shows the overview. Either marks the first option again.
pub fn confirm_sub_button_action(
    keyboard_input: &KeyboardInput,
    selected_option: &mut SelectedOption,
) -> (reaction: Reaction)
    ensures
        final(selected_option).value == if keyboard_input.pressed(KeyCode::C)
            || keyboard_input.pressed(KeyCode::F) {
            1
        } else {
            old(selected_option).value
        },
        reaction == if keyboard_input.pressed(KeyCode::C) {
            Reaction { game_state: Some(GameState::PlayerMove), ..Reaction::switch_sound() }
        } else if keyboard_input.pressed(KeyCode::F) {
            Reaction {
                game_state: Some(GameState::NotInit),
                app_state: Some(AppState::GameOverview),
                ..Reaction::switch_sound()
            }
        } else {
            Reaction::nothing()
        },
{
    let mut reaction = Reaction::none();
    if keyboard_input.just_pressed(KeyCode::C) {
        selected_option.set_value(1);
        reaction = Reaction::with_switch_sound();
        reaction.game_state = Some(GameState::PlayerMove);
    } else if keyboard_input.just_pressed(KeyCode::F) {
        selected_option.set_value(1);
        reaction = Reaction::with_switch_sound();
        reaction.game_state = Some(GameState::NotInit);
        reaction.app_state = Some(AppState::GameOverview);
    }
    reaction
}

/// While a move is to be chosen, `F` ends the game: back to the start menu if
/// no round was played, else on to the overview. The first option is marked
/// again.
pub fn confirm_button_action(
    keyboard_input: &KeyboardInput,
    selected_option: &mut SelectedOption,
    statistics: &GameStatistics,
) -> (reaction: Reaction)
    ensures
        final(selected_option).value == if keyboard_input.pressed(KeyCode::F) {
            1
        } else {
            old(selected_option).value
        },
        reaction == if !keyboard_input.pressed(KeyCode::F) {
            Reaction::nothing()
        } else if statistics.last_round_result is None {
            Reaction {
                game_state: Some(GameState::NotInit),
                menu_state: Some(MenuState::StartMenu),
                app_state: Some(AppState::Menu),
                ..Reaction::switch_sound()
            }
        } else {
            Reaction { app_state: Some(AppState::GameOverview), ..Reaction::switch_sound() }
        },
{
    let mut reaction = Reaction::none();
    if keyboard_input.just_pressed(KeyCode::F) {
        selected_option.set_value(1);
        reaction = Reaction::with_switch_sound();
        if statistics.last_round_result.is_none() {
            reaction.game_state = Some(GameState::NotInit);
            reaction.menu_state = Some(MenuState::StartMenu);
            reaction.app_state = Some(AppState::Menu);
        } else {
            reaction.app_state = Some(AppState::GameOverview);
        }
    }
    reaction
}

} // verus!
