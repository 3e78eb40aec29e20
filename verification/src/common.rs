//! What the screens share: which screen is up, the score, the marked option,
//! and what a screen asks of the front-end after a key.

use crate::game_move::GameMove;
use crate::game_result::GameResult;
use vstd::prelude::*;

verus! {

/// The screen that is up.
#[derive(Debug, Clone, Copy, PartialEq, Eq, Structural, Hash)]
pub enum AppState {
    Menu,
    Playing,
    GameOverview,
    Credits,
    Closing,
}

impl Default for AppState {
    fn default() -> (state: AppState)
        ensures
            state == AppState::Menu,
    {
        AppState::Menu
    }
}

/// Which menu is up while the menu screen is.
#[derive(Debug, Clone, Copy, PartialEq, Eq, Structural, Hash)]
pub enum MenuState {
    NotInit,
    StartMenu,
    SettingsMenu,
    ChangeName,
}

impl Default for MenuState {
    fn default() -> (state: MenuState)
        ensures
            state == MenuState::NotInit,
    {
        MenuState::NotInit
    }
}

/// Where a game stands while the game screen is up.
#[derive(Debug, Clone, Copy, PartialEq, Eq, Structural, Hash)]
pub enum GameState {
    NotInit,
    PlayerMoveRender,
    PlayerMove,
    RoundFinish,
}

impl Default for GameState {
    fn default() -> (state: GameState)
        ensures
            state == GameState::NotInit,
    {
        GameState::NotInit
    }
}

/// The sounds of the game.
#[derive(Debug, Clone, Copy, PartialEq, Eq, Structural, Hash)]
pub enum GameSound {
    ModeSwitch,
    Win,
    Lose,
    Drawn,
}

impl GameSound {
    /// The sound that goes with the end of a round.
    pub open spec fn of_result(result: GameResult) -> GameSound {
        match result {
            GameResult::Win => GameSound::Win,
            GameResult::Lose => GameSound::Lose,
            GameResult::Draw => GameSound::Drawn,
        }
    }

    /// The sound that goes with the end of a round.
    pub fn for_result(result: GameResult) -> (sound: GameSound)
        ensures
            sound == Self::of_result(result),
    {
        match result {
            GameResult::Win => GameSound::Win,
            GameResult::Lose => GameSound::Lose,
            GameResult::Draw => GameSound::Drawn,
        }
    }
}

/// The sound to hand to the audio device: `sound` while sound is on, nothing
/// while it is off.
pub fn play_sound(is_sound_on: bool, sound: GameSound) -> (played: Option<GameSound>)
    ensures
        played == if is_sound_on {
            Some(sound)
        } else {
            None::<GameSound>
        },
{
    if is_sound_on {
        Some(sound)
    } else {
        None
    }
}

/// What a screen asks of the front-end after it has looked at the keys: the
/// states to enter, the sound to play, whether the marks on the screen are to
/// be drawn again, and whether the settings are to be written out. A state
/// that is `None` stays as it is.
#[derive(Debug, Clone, Copy, PartialEq, Eq, Structural)]
pub struct Reaction {
    pub app_state: Option<AppState>,
    pub menu_state: Option<MenuState>,
    pub game_state: Option<GameState>,
    pub sound: Option<GameSound>,
    pub redraw: bool,
    pub save_settings: bool,
}

impl Reaction {
    /// Nothing is asked for.
    pub open spec fn nothing() -> Reaction {
        Reaction {
            app_state: None,
            menu_state: None,
            game_state: None,
            sound: None,
            redraw: false,
            save_settings: false,
        }
    }

    /// Only the switch sound is asked for.
    pub open spec fn switch_sound() -> Reaction {
        Reaction { sound: Some(GameSound::ModeSwitch), ..Self::nothing() }
    }

    /// The marks on the screen are to be drawn again, to the switch sound.
    pub open spec fn marks_moved() -> Reaction {
        Reaction { redraw: true, ..Self::switch_sound() }
    }

    /// The reaction that asks for nothing.
    pub fn none() -> (reaction: Reaction)
        ensures
            reaction == Self::nothing(),
    {
        Reaction {
            app_state: None,
            menu_state: None,
            game_state: None,
            sound: None,
            redraw: false,
            save_settings: false,
        }
    }

    /// The reaction that asks for the switch sound only.
    pub fn with_switch_sound() -> (reaction: Reaction)
        ensures
            reaction == Self::switch_sound(),
    {
        let mut reaction = Self::none();
        reaction.sound = Some(GameSound::ModeSwitch);
        reaction
    }

    /// The reaction that asks for the marks to be drawn again, to the switch
    /// sound.
    pub fn with_marks_moved() -> (reaction: Reaction)
        ensures
            reaction == Self::marks_moved(),
    {
        let mut reaction = Self::with_switch_sound();
        reaction.redraw = true;
        reaction
    }
}

/// The score of a game and how its last round went.
#[derive(Debug, PartialEq, Eq)]
pub struct GameStatistics {
    pub last_round_result: Option<GameResult>,
    pub last_player_move: Option<GameMove>,
    pub last_computer_move: Option<GameMove>,
    pub wins: u32,
    pub loses: u32,
    pub draws: u32,
}

impl GameStatistics {
    /// The statistics before the first round.
    pub open spec fn fresh() -> GameStatistics {
        GameStatistics {
            last_round_result: None,
            last_player_move: None,
            last_computer_move: None,
            wins: 0,
            loses: 0,
            draws: 0,
        }
    }

    /// The number of rounds played.
    pub open spec fn rounds(self) -> int {
        self.wins + self.loses + self.draws
    }

    /// How often rounds have ended in `result`.
    pub open spec fn count(self, result: GameResult) -> int {
        match result {
            GameResult::Win => self.wins as int,
            GameResult::Lose => self.loses as int,
            GameResult::Draw => self.draws as int,
        }
    }

    /// The statistics after one more round, which ended in `result`: its
    /// count is one higher, the other two stay, and the round is the last.
    pub open spec fn after_round(
        self,
        player_move: GameMove,
        computer_move: GameMove,
        result: GameResult,
    ) -> GameStatistics {
        GameStatistics {
            last_round_result: Some(result),
            last_player_move: Some(player_move),
            last_computer_move: Some(computer_move),
            wins: if result == GameResult::Win {
                (self.wins + 1) as u32
            } else {
                self.wins
            },
            loses: if result == GameResult::Lose {
                (self.loses + 1) as u32
            } else {
                self.loses
            },
            draws: if result == GameResult::Draw {
                (self.draws + 1) as u32
            } else {
                self.draws
            },
        }
    }

    /// The statistics before the first round.
    pub fn init() -> (statistics: GameStatistics)
        ensures
            statistics == Self::fresh(),
            statistics.rounds() == 0,
    {
        GameStatistics {
            last_round_result: None,
            last_player_move: None,
            last_computer_move: None,
            wins: 0,
            loses: 0,
            draws: 0,
        }
    }

    /// Forgets every round: the statistics are those before the first round.
    pub fn reset_scores(&mut self)
        ensures
            *final(self) == Self::fresh(),
    {
        self.last_round_result = None;
        self.last_player_move = None;
        self.last_computer_move = None;
        self.wins = 0;
        self.loses = 0;
        self.draws = 0;
    }

    /// The number of rounds played. It must fit the counter's type.
    pub fn totals(&self) -> (total: u32)
        requires
            self.rounds() <= u32::MAX,
        ensures
            total == self.rounds(),
    {
        self.wins + self.loses + self.draws
    }

    /// Books a round that ended in `result`. The count of `result` must have
    /// room for one more.
    pub fn record_round(
        &mut self,
        player_move: GameMove,
        computer_move: GameMove,
        result: GameResult,
    )
        requires
            old(self).count(result) < u32::MAX,
        ensures
            *final(self) == old(self).after_round(player_move, computer_move, result),
            final(self).rounds() == old(self).rounds() + 1,
            final(self).count(result) == old(self).count(result) + 1,
    {
        match result {
            GameResult::Win => {
                self.wins += 1;
            },
            GameResult::Lose => {
                self.loses += 1;
            },
            GameResult::Draw => {
                self.draws += 1;
            },
        }
        self.last_round_result = Some(result);
        self.last_computer_move = Some(computer_move);
        self.last_player_move = Some(player_move);
    }
}

/// The option that is marked on the screen, counted from 1.
#[derive(Debug, PartialEq, Eq)]
pub struct SelectedOption {
    pub value: i32,
}

impl SelectedOption {
    /// The value one step towards the first option, which is 1: a value
    /// above 1 goes down by one, any other stays.
    pub open spec fn stepped_back(value: int) -> int {
        if value > 1 {
            value - 1
        } else {
            value
        }
    }

    /// The value one step towards the last option: a value below `last` goes
    /// up by one, any other stays.
    pub open spec fn stepped_on(value: int, last: int) -> int {
        if value < last {
            value + 1
        } else {
            value
        }
    }

    /// A mark that is on one of the options 1 to `last` stays on one of them,
    /// whichever way it steps.
    pub proof fn steps_stay_among_the_options(value: int, last: int)
        requires
            1 <= value <= last,
        ensures
            1 <= Self::stepped_back(value) <= last,
            1 <= Self::stepped_on(value, last) <= last,
    {
    }

    /// The mark on the first option.
    pub fn init() -> (selected_option: SelectedOption)
        ensures
            selected_option.value == 1,
    {
        SelectedOption { value: 1 }
    }

    /// Puts the mark on the option `v`.
    pub fn set_value(&mut self, v: i32)
        ensures
            final(self).value == v,
    {
        self.value = v;
    }

    /// The option that carries the mark.
    pub fn get_value(&self) -> (v: i32)
        ensures
            v == self.value,
    {
        self.value
    }

    /// Marks the option before the marked one, unless the first is marked.
    pub fn step_back(&mut self)
        ensures
            final(self).value == Self::stepped_back(old(self).value as int),
            1 <= old(self).value ==> 1 <= final(self).value <= old(self).value,
    {
        if self.value > 1 {
            self.value -= 1;
        }
    }

    /// Marks the option after the marked one, unless the last is marked.
    pub fn step_on(&mut self, last: i32)
        ensures
            final(self).value == Self::stepped_on(old(self).value as int, last as int),
            old(self).value <= last ==> old(self).value <= final(self).value <= last,
    {
        if self.value < last {
            self.value += 1;
        }
    }
}

} // verus!
