use rock_paper_scissors::game_result::GameResult::{Draw, Lose, Win};
use rock_paper_scissors::game_type::GameType;

#[test]
fn game_result_test_get_friendly_name() {
    assert_eq!(Win.get_friendly_name(), String::from("You win !!!"));
    assert_eq!(Lose.get_friendly_name(), String::from("You lose !!!"));
    assert_eq!(Draw.get_friendly_name(), String::from("Draw !!!"));
}

#[test]
fn test_max_number_of_moves() {
    assert_eq!(GameType::Normal.max_number_of_moves(), 3);
    assert_eq!(GameType::SpockLizard.max_number_of_moves(), 5);
    assert_eq!(GameType::FireWater.max_number_of_moves(), 5);
}

#[test]
fn game_type_test_get_friendly_name() {
    assert_eq!(GameType::Normal.get_friendly_name(), "rock paper scissors");
    assert_eq!(GameType::SpockLizard.get_friendly_name(), "Spock lizard variation");
    assert_eq!(GameType::FireWater.get_friendly_name(), "fire water variation");
    assert_eq!(GameType::Uninitialized.get_friendly_name(), "None");
}

#[test]
fn test_i32_into_game_type() {
    assert_eq!(Into::<GameType>::into(1), GameType::Normal);
    assert_eq!(Into::<GameType>::into(2), GameType::SpockLizard);
    assert_eq!(Into::<GameType>::into(3), GameType::FireWater);
    assert_eq!(Into::<GameType>::into(10), GameType::Uninitialized);
}

#[test]
fn numbers_out_of_range_choose_no_rule_set() {
    for value in [0, -1, 4, 5, 6, i32::MAX, i32::MIN] {
        assert_eq!(GameType::from(value), GameType::Uninitialized);
    }
}

#[test]
fn no_rule_set_is_chosen_at_first() {
    assert_eq!(GameType::default(), GameType::Uninitialized);
    assert_eq!(GameType::Uninitialized.max_number_of_moves(), 5);
}
