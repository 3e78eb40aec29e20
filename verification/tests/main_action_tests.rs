use rock_paper_scissors::game_error::GameErrorKind;
use rock_paper_scissors::game_type::GameType::{FireWater, Normal, SpockLizard};
use rock_paper_scissors::main_action::MainAction::{AppQuit, GameStart};
use rock_paper_scissors::main_action::{choose_action, get_main_actions_menu};

#[test]
fn test_get_main_actions_menu() {
    let actual = get_main_actions_menu();
    assert_eq!(actual.lines().count(), 7);
    assert!(actual.contains("N|n"));
    assert!(actual.contains("S|s"));
    assert!(actual.contains("F|f"));
    assert!(actual.contains("Q|q"));
}

#[test]
fn test_choose_action_valid_input_char() {
    let valid_chars = ['N', 'n', 'S', 's', 'F', 'f', 'Q', 'q'];
    for c in valid_chars {
        assert!(choose_action(c).is_ok());
    }
    assert_eq!(choose_action('N'), Ok(GameStart(Normal)));
}

#[test]
fn test_choose_actoin_invalid_input_char() {
    let actual = choose_action('x');
    assert!(actual.is_err());
}

#[test]
fn main_actions_menu_reads_line_by_line() {
    let actual = get_main_actions_menu();
    let lines: Vec<&str> = actual.lines().collect();
    assert_eq!(
        lines,
        vec![
            "",
            "Choose game type or quit",
            "N|n Rock paper scissors",
            "S|s Rock paper scissors Spock lizard",
            "F|f Rock paper scissors fire water",
            "",
            "Q|q Quit",
        ]
    );
    assert!(actual.ends_with('\n'));
}

#[test]
fn each_letter_chooses_its_action() {
    assert_eq!(choose_action('n'), Ok(GameStart(Normal)));
    assert_eq!(choose_action('S'), Ok(GameStart(SpockLizard)));
    assert_eq!(choose_action('s'), Ok(GameStart(SpockLizard)));
    assert_eq!(choose_action('F'), Ok(GameStart(FireWater)));
    assert_eq!(choose_action('f'), Ok(GameStart(FireWater)));
    assert_eq!(choose_action('Q'), Ok(AppQuit));
    assert_eq!(choose_action('q'), Ok(AppQuit));
}

#[test]
fn unknown_letter_names_itself_in_the_message() {
    let error = choose_action('x').unwrap_err();
    assert_eq!(error.kind, GameErrorKind::InvalidInputCharacter);
    assert_eq!(error.message, "Unknown character: x! Please try again");
    let error = choose_action('ß').unwrap_err();
    assert_eq!(error.message, "Unknown character: ß! Please try again");
}
