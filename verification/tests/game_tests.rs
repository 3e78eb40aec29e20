use rock_paper_scissors::common::{
    play_sound, AppState, GameSound, GameState, GameStatistics, MenuState, Reaction, SelectedOption,
};
use rock_paper_scissors::game::{
    computer_move_from, confirm_button_action, confirm_game_move, confirm_sub_button_action,
    get_computer_move, init_game_setup, play_round, setup_game_screen, setup_player_move_screen,
    switch_game_move,
};
use rock_paper_scissors::game_move::GameMove;
use rock_paper_scissors::game_move::GameMove::{Fire, Lizard, Paper, Rock, Scissors, Spock, Water};
use rock_paper_scissors::game_result::GameResult;
use rock_paper_scissors::game_type::GameType;
use rock_paper_scissors::keyboard::{KeyCode, KeyboardInput};

fn keys(pressed: &[KeyCode]) -> KeyboardInput {
    KeyboardInput { keys: pressed.to_vec() }
}

fn switch_sound() -> Reaction {
    Reaction { sound: Some(GameSound::ModeSwitch), ..Reaction::none() }
}

fn legal_moves(game_type: GameType) -> Vec<GameMove> {
    match game_type {
        GameType::Normal => vec![Rock, Paper, Scissors],
        GameType::SpockLizard => vec![Rock, Paper, Scissors, Spock, Lizard],
        GameType::FireWater => vec![Rock, Paper, Scissors, Fire, Water],
        GameType::Uninitialized => vec![],
    }
}

#[test]
fn statistics_start_empty() {
    let statistics = GameStatistics::init();
    assert_eq!(statistics.last_round_result, None);
    assert_eq!(statistics.last_player_move, None);
    assert_eq!(statistics.last_computer_move, None);
    assert_eq!((statistics.wins, statistics.loses, statistics.draws), (0, 0, 0));
    assert_eq!(statistics.totals(), 0);
}

#[test]
fn statistics_count_each_result() {
    let mut statistics = GameStatistics::init();
    statistics.record_round(Rock, Scissors, GameResult::Win);
    statistics.record_round(Rock, Paper, GameResult::Lose);
    statistics.record_round(Rock, Paper, GameResult::Lose);
    statistics.record_round(Paper, Paper, GameResult::Draw);
    assert_eq!((statistics.wins, statistics.loses, statistics.draws), (1, 2, 1));
    assert_eq!(statistics.totals(), 4);
    assert_eq!(statistics.last_round_result, Some(GameResult::Draw));
    assert_eq!(statistics.last_player_move, Some(Paper));
    assert_eq!(statistics.last_computer_move, Some(Paper));
    statistics.reset_scores();
    assert_eq!(statistics, GameStatistics::init());
}

#[test]
fn totals_up_to_the_limit() {
    let statistics = GameStatistics {
        last_round_result: None,
        last_player_move: None,
        last_computer_move: None,
        wins: u32::MAX - 2,
        loses: 1,
        draws: 1,
    };
    assert_eq!(statistics.totals(), u32::MAX);
}

#[test]
fn selected_option_starts_at_one() {
    let mut selected_option = SelectedOption::init();
    assert_eq!(selected_option.get_value(), 1);
    selected_option.set_value(4);
    assert_eq!(selected_option.get_value(), 4);
    assert_eq!(selected_option.value, 4);
}

#[test]
fn selected_option_steps_within_bounds() {
    let mut selected_option = SelectedOption::init();
    selected_option.step_back();
    assert_eq!(selected_option.value, 1);
    selected_option.step_on(3);
    selected_option.step_on(3);
    assert_eq!(selected_option.value, 3);
    selected_option.step_on(3);
    assert_eq!(selected_option.value, 3);
    selected_option.step_back();
    assert_eq!(selected_option.value, 2);
    selected_option.set_value(i32::MAX);
    selected_option.step_on(i32::MAX);
    assert_eq!(selected_option.value, i32::MAX);
    selected_option.set_value(i32::MIN);
    selected_option.step_back();
    assert_eq!(selected_option.value, i32::MIN);
}

#[test]
fn states_start_where_they_should() {
    assert_eq!(AppState::default(), AppState::Menu);
    assert_eq!(MenuState::default(), MenuState::NotInit);
    assert_eq!(GameState::default(), GameState::NotInit);
    assert_eq!(init_game_setup(), GameState::PlayerMoveRender);
}

#[test]
fn sound_plays_only_while_on() {
    assert_eq!(play_sound(true, GameSound::Win), Some(GameSound::Win));
    assert_eq!(play_sound(true, GameSound::ModeSwitch), Some(GameSound::ModeSwitch));
    assert_eq!(play_sound(false, GameSound::Win), None);
    assert_eq!(GameSound::for_result(GameResult::Win), GameSound::Win);
    assert_eq!(GameSound::for_result(GameResult::Lose), GameSound::Lose);
    assert_eq!(GameSound::for_result(GameResult::Draw), GameSound::Drawn);
}

#[test]
fn keyboard_knows_what_was_pressed() {
    let input = keys(&[KeyCode::A, KeyCode::Space]);
    assert!(input.just_pressed(KeyCode::A));
    assert!(input.just_pressed(KeyCode::Space));
    assert!(!input.just_pressed(KeyCode::Return));
    assert!(input.any_just_pressed(KeyCode::Return, KeyCode::Space));
    assert!(!input.any_just_pressed(KeyCode::Return, KeyCode::B));
    assert!(!keys(&[]).just_pressed(KeyCode::A));
}

#[test]
fn game_screen_shows_the_moves_of_the_rule_set() {
    assert_eq!(
        setup_game_screen(&GameType::Normal),
        (vec![Rock, Paper, Scissors], GameState::PlayerMove)
    );
    assert_eq!(
        setup_game_screen(&GameType::SpockLizard),
        (vec![Rock, Paper, Scissors, Spock, Lizard], GameState::PlayerMove)
    );
    assert_eq!(
        setup_game_screen(&GameType::FireWater),
        (vec![Rock, Paper, Scissors, Fire, Water], GameState::PlayerMove)
    );
    assert_eq!(
        setup_game_screen(&GameType::Uninitialized),
        (vec![Rock, Paper, Scissors], GameState::PlayerMove)
    );
}

#[test]
fn the_marked_move_is_the_one_at_the_marked_slot() {
    let slots = [(Rock, 1), (Paper, 2), (Scissors, 3), (Spock, 4), (Lizard, 5), (Fire, 4), (Water, 5)];
    for (game_move, slot) in slots {
        assert_eq!(game_move.slot_number(), slot);
        for value in 0..=6 {
            let selected_option = SelectedOption { value };
            assert_eq!(setup_player_move_screen(&game_move, &selected_option), value == slot);
        }
    }
}

#[test]
fn left_and_right_move_the_mark() {
    let mut selected_option = SelectedOption::init();
    let moved = Reaction { redraw: true, ..switch_sound() };
    let right = keys(&[KeyCode::Right]);
    let left = keys(&[KeyCode::Left]);
    assert_eq!(switch_game_move(&right, &mut selected_option, &GameType::Normal), moved);
    assert_eq!(selected_option.value, 2);
    assert_eq!(switch_game_move(&right, &mut selected_option, &GameType::Normal), moved);
    assert_eq!(switch_game_move(&right, &mut selected_option, &GameType::Normal), moved);
    assert_eq!(selected_option.value, 3);
    assert_eq!(switch_game_move(&right, &mut selected_option, &GameType::FireWater), moved);
    assert_eq!(switch_game_move(&right, &mut selected_option, &GameType::FireWater), moved);
    assert_eq!(switch_game_move(&right, &mut selected_option, &GameType::FireWater), moved);
    assert_eq!(selected_option.value, 5);
    assert_eq!(switch_game_move(&left, &mut selected_option, &GameType::FireWater), moved);
    assert_eq!(selected_option.value, 4);
    selected_option.set_value(1);
    assert_eq!(switch_game_move(&left, &mut selected_option, &GameType::FireWater), moved);
    assert_eq!(selected_option.value, 1);
}

#[test]
fn left_goes_before_right_and_other_keys_do_nothing() {
    let mut selected_option = SelectedOption { value: 2 };
    let both = keys(&[KeyCode::Right, KeyCode::Left]);
    switch_game_move(&both, &mut selected_option, &GameType::Normal);
    assert_eq!(selected_option.value, 1);
    let other = keys(&[KeyCode::Up, KeyCode::A]);
    assert_eq!(
        switch_game_move(&other, &mut selected_option, &GameType::Normal),
        Reaction::none()
    );
    assert_eq!(selected_option.value, 1);
}

#[test]
fn computer_move_for_each_number() {
    assert_eq!(computer_move_from(&GameType::Normal, 1), Rock);
    assert_eq!(computer_move_from(&GameType::Normal, 2), Paper);
    assert_eq!(computer_move_from(&GameType::Normal, 3), Scissors);
    assert_eq!(computer_move_from(&GameType::SpockLizard, 4), Spock);
    assert_eq!(computer_move_from(&GameType::SpockLizard, 5), Lizard);
    assert_eq!(computer_move_from(&GameType::FireWater, 4), Fire);
    assert_eq!(computer_move_from(&GameType::FireWater, 5), Water);
    assert_eq!(computer_move_from(&GameType::Normal, 4), Fire);
    assert_eq!(computer_move_from(&GameType::SpockLizard, 0), Lizard);
    assert_eq!(computer_move_from(&GameType::FireWater, -7), Water);
    for game_type in [GameType::Normal, GameType::SpockLizard, GameType::FireWater] {
        for value in 1..=game_type.max_number_of_moves() {
            assert_eq!(Some(computer_move_from(&game_type, value)), GameMove::from_i32(game_type, value));
        }
    }
}

#[test]
fn computer_draws_every_legal_move_and_no_other() {
    for game_type in [GameType::Normal, GameType::SpockLizard, GameType::FireWater] {
        let legal = legal_moves(game_type);
        let mut seen: Vec<GameMove> = Vec::new();
        for _ in 0..2000 {
            let game_move = get_computer_move(&game_type);
            assert!(legal.contains(&game_move));
            if !seen.contains(&game_move) {
                seen.push(game_move);
            }
        }
        assert_eq!(seen.len(), legal.len());
    }
}

#[test]
fn a_round_is_decided_and_booked() {
    let mut statistics = GameStatistics::init();
    assert_eq!(play_round(&GameType::Normal, Rock, Scissors, &mut statistics), GameResult::Win);
    assert_eq!(play_round(&GameType::FireWater, Scissors, Water, &mut statistics), GameResult::Lose);
    assert_eq!(play_round(&GameType::SpockLizard, Spock, Spock, &mut statistics), GameResult::Draw);
    assert_eq!((statistics.wins, statistics.loses, statistics.draws), (1, 1, 1));
    assert_eq!(statistics.last_player_move, Some(Spock));
    assert_eq!(statistics.last_computer_move, Some(Spock));
    assert_eq!(statistics.last_round_result, Some(GameResult::Draw));
}

#[test]
fn confirming_plays_a_round() {
    for key in [KeyCode::Return, KeyCode::Space] {
        for _ in 0..50 {
            let mut statistics = GameStatistics::init();
            let selected_option = SelectedOption { value: 2 };
            let reaction =
                confirm_game_move(&keys(&[key]), &selected_option, &GameType::SpockLizard, &mut statistics);
            let computer_move = statistics.last_computer_move.unwrap();
            let result = Paper.beats_other(&GameType::SpockLizard, &computer_move);
            assert_eq!(statistics.last_player_move, Some(Paper));
            assert_eq!(statistics.last_round_result, Some(result));
            assert_eq!(statistics.totals(), 1);
            assert_eq!(
                reaction,
                Reaction {
                    game_state: Some(GameState::RoundFinish),
                    sound: Some(GameSound::for_result(result)),
                    ..Reaction::none()
                }
            );
        }
    }
}

#[test]
fn confirming_without_a_move_repeats_the_last_sound() {
    let mut statistics = GameStatistics::init();
    statistics.record_round(Rock, Paper, GameResult::Lose);
    let selected_option = SelectedOption { value: 4 };
    let reaction =
        confirm_game_move(&keys(&[KeyCode::Return]), &selected_option, &GameType::Normal, &mut statistics);
    assert_eq!(reaction, Reaction { sound: Some(GameSound::Lose), ..Reaction::none() });
    assert_eq!(statistics.totals(), 1);
}

#[test]
fn without_the_confirm_key_no_round_is_played() {
    let mut statistics = GameStatistics::init();
    let selected_option = SelectedOption { value: 1 };
    let reaction =
        confirm_game_move(&keys(&[KeyCode::Left]), &selected_option, &GameType::Normal, &mut statistics);
    assert_eq!(reaction, Reaction::none());
    assert_eq!(statistics, GameStatistics::init());
}

#[test]
fn after_a_round_go_on_or_finish() {
    let mut selected_option = SelectedOption { value: 3 };
    assert_eq!(
        confirm_sub_button_action(&keys(&[KeyCode::C]), &mut selected_option),
        Reaction { game_state: Some(GameState::PlayerMove), ..switch_sound() }
    );
    assert_eq!(selected_option.value, 1);
    selected_option.set_value(3);
    assert_eq!(
        confirm_sub_button_action(&keys(&[KeyCode::F]), &mut selected_option),
        Reaction {
            game_state: Some(GameState::NotInit),
            app_state: Some(AppState::GameOverview),
            ..switch_sound()
        }
    );
    assert_eq!(selected_option.value, 1);
    selected_option.set_value(3);
    assert_eq!(
        confirm_sub_button_action(&keys(&[KeyCode::F, KeyCode::C]), &mut selected_option),
        Reaction { game_state: Some(GameState::PlayerMove), ..switch_sound() }
    );
    selected_option.set_value(3);
    assert_eq!(confirm_sub_button_action(&keys(&[KeyCode::B]), &mut selected_option), Reaction::none());
    assert_eq!(selected_option.value, 3);
}

#[test]
fn finishing_before_and_after_the_first_round() {
    let mut selected_option = SelectedOption { value: 2 };
    let mut statistics = GameStatistics::init();
    assert_eq!(
        confirm_button_action(&keys(&[KeyCode::F]), &mut selected_option, &statistics),
        Reaction {
            game_state: Some(GameState::NotInit),
            menu_state: Some(MenuState::StartMenu),
            app_state: Some(AppState::Menu),
            ..switch_sound()
        }
    );
    assert_eq!(selected_option.value, 1);
    statistics.record_round(Rock, Rock, GameResult::Draw);
    selected_option.set_value(2);
    assert_eq!(
        confirm_button_action(&keys(&[KeyCode::F]), &mut selected_option, &statistics),
        Reaction { app_state: Some(AppState::GameOverview), ..switch_sound() }
    );
    assert_eq!(selected_option.value, 1);
    selected_option.set_value(2);
    assert_eq!(
        confirm_button_action(&keys(&[KeyCode::C]), &mut selected_option, &statistics),
        Reaction::none()
    );
    assert_eq!(selected_option.value, 2);
}
