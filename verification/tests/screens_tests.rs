use rock_paper_scissors::common::{AppState, GameSound, GameState, GameStatistics, Reaction};
use rock_paper_scissors::credits;
use rock_paper_scissors::game_move::GameMove::{Paper, Rock};
use rock_paper_scissors::game_overview;
use rock_paper_scissors::game_result::GameResult;
use rock_paper_scissors::game_settings::GameSettings;
use rock_paper_scissors::keyboard::{KeyCode, KeyboardInput};
use rock_paper_scissors::player_options::PlayerOptions;
use uuid::{Uuid, Variant};

fn keys(pressed: &[KeyCode]) -> KeyboardInput {
    KeyboardInput { keys: pressed.to_vec() }
}

#[test]
fn credits_are_left_with_b() {
    assert_eq!(
        credits::confirm_button_action(&keys(&[KeyCode::B])),
        Reaction {
            app_state: Some(AppState::Menu),
            sound: Some(GameSound::ModeSwitch),
            ..Reaction::none()
        }
    );
    assert_eq!(credits::confirm_button_action(&keys(&[KeyCode::C])), Reaction::none());
    assert_eq!(credits::confirm_button_action(&keys(&[])), Reaction::none());
}

#[test]
fn overview_is_left_with_c_and_the_score_is_cleared() {
    let mut statistics = GameStatistics::init();
    statistics.record_round(Rock, Paper, GameResult::Lose);
    assert_eq!(
        game_overview::confirm_button_action(&keys(&[KeyCode::B]), &mut statistics),
        Reaction::none()
    );
    assert_eq!(statistics.loses, 1);
    assert_eq!(
        game_overview::confirm_button_action(&keys(&[KeyCode::C]), &mut statistics),
        Reaction {
            game_state: Some(GameState::NotInit),
            app_state: Some(AppState::Menu),
            sound: Some(GameSound::ModeSwitch),
            ..Reaction::none()
        }
    );
    assert_eq!(statistics, GameStatistics::init());
}

#[test]
fn a_new_player_is_named_after_a_random_uuid() {
    let player_options = PlayerOptions::new();
    let uuid = Uuid::from_u128(player_options.uuid);
    assert_eq!(uuid.get_version_num(), 4);
    assert_eq!(uuid.get_variant(), Variant::RFC4122);
    assert_eq!(player_options.uuid & 0xf000_c000_0000_0000_0000, 0x4000_8000_0000_0000_0000);
    assert_eq!(player_options.name, format!("PLAYER-{}", uuid));
    assert_eq!(player_options.name.len(), 43);
    assert!(player_options.name.is_ascii());
    assert_ne!(PlayerOptions::new().uuid, player_options.uuid);
}

#[test]
fn a_player_is_named_after_the_text_given() {
    let bits = 0xa1a2a3a4b1b2c1c2d1d2d3d4d5d6d7d8u128;
    let player_options = PlayerOptions::named_after(bits, "a1a2a3a4-b1b2-c1c2-d1d2-d3d4d5d6d7d8");
    assert_eq!(player_options.uuid, bits);
    assert_eq!(player_options.name, "PLAYER-a1a2a3a4-b1b2-c1c2-d1d2-d3d4d5d6d7d8");
    assert_eq!(PlayerOptions::named_after(0, "").name, "PLAYER-");
}

#[test]
fn first_settings_have_sound_on() {
    let game_settings = GameSettings::new();
    assert!(game_settings.is_sound_on);
    let uuid = Uuid::from_u128(game_settings.player_options.uuid);
    assert_eq!(game_settings.player_options.name, format!("PLAYER-{}", uuid));
}

#[test]
fn stored_settings_are_taken_as_they_are() {
    let stored = GameSettings {
        player_options: PlayerOptions { uuid: 7, name: String::from("Ada") },
        is_sound_on: false,
    };
    let (game_settings, write_out) = GameSettings::init(Some(stored));
    assert!(!write_out);
    assert!(!game_settings.is_sound_on);
    assert_eq!(game_settings.player_options, PlayerOptions { uuid: 7, name: String::from("Ada") });
}

#[test]
fn missing_settings_are_made_and_written_out() {
    let (game_settings, write_out) = GameSettings::init(None);
    assert!(write_out);
    assert!(game_settings.is_sound_on);
    assert!(game_settings.player_options.name.starts_with("PLAYER-"));
    assert_eq!(Uuid::from_u128(game_settings.player_options.uuid).get_version_num(), 4);
}
