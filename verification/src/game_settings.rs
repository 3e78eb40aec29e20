//! The settings that outlive a game: the player and whether sound is on.

use crate::player_options::{is_random_uuid, uuid_text, PlayerOptions};
use vstd::prelude::*;
use vstd::utf8::is_ascii_chars;

verus! {

/// The player, and whether sound is on.
#[derive(Debug, PartialEq, Eq)]
pub struct GameSettings {
    pub player_options: PlayerOptions,
    pub is_sound_on: bool,
}

impl GameSettings {
    /// Whether the settings are those of a first start: sound on, and a new
    /// player under the default name.
    pub open spec fn is_first_start(self) -> bool {
        &&& self.is_sound_on
        &&& is_random_uuid(self.player_options.uuid)
        &&& self.player_options.name@ == PlayerOptions::default_name(
            uuid_text(self.player_options.uuid),
        )
        &&& is_ascii_chars(self.player_options.name@)
    }

    /// The settings of a first start.
    pub fn new() -> (game_settings: GameSettings)
        ensures
            game_settings.is_first_start(),
    {
        GameSettings { player_options: PlayerOptions::new(), is_sound_on: true }
    }

    /// The settings to start with, and whether they are to be written out.
    /// Stored settings are taken as they are. Without them, those of a first
    /// start are made and are to be written out.
    pub fn init(stored: Option<GameSettings>) -> (start: (GameSettings, bool))
        ensures
            match stored {
                Some(settings) => start.0 == settings && !start.1,
                None => start.0.is_first_start() && start.1,
            },
    {
        match stored {
            Some(settings) => (settings, false),
            None => (GameSettings::new(), true),
        }
    }
}

} // verus!
