//! The rule sets a game can be played under.

use vstd::prelude::*;

verus! {

/// Which rule set is in play. `Uninitialized` stands for "not chosen yet" and
/// is never a rule set to resolve a round under.
#[derive(Debug, PartialEq, Eq, Structural, Hash, Copy, Clone)]
pub enum GameType {
    Uninitialized,
    Normal,
    SpockLizard,
    FireWater,
}

impl GameType {
    /// The number of selection slots: three under `Normal`, five otherwise.
    pub open spec fn max_slots(self) -> int {
        if self == GameType::Normal {
            3
        } else {
            5
        }
    }

    /// The display name, as a sequence of characters.
    pub open spec fn friendly_name(self) -> Seq<char> {
        match self {
            GameType::Normal => "rock paper scissors"@,
            GameType::SpockLizard => "Spock lizard variation"@,
            GameType::FireWater => "fire water variation"@,
            GameType::Uninitialized => "None"@,
        }
    }

    /// The rule set that a menu position selects: 1, 2 and 3 select the three
    /// playable rule sets, every other number selects none.
    pub open spec fn of_position(value: int) -> GameType {
        if value == 1 {
            GameType::Normal
        } else if value == 2 {
            GameType::SpockLizard
        } else if value == 3 {
            GameType::FireWater
        } else {
            GameType::Uninitialized
        }
    }

    /// The number of selection slots: three under `Normal`, five otherwise.
    pub fn max_number_of_moves(&self) -> (n: i32)
        ensures
            n == self.max_slots(),
    {
        match self {
            GameType::Normal => 3,
            _ => 5,
        }
    }

    /// The display name.
    pub fn get_friendly_name(&self) -> (name: &str)
        ensures
            name@ == self.friendly_name(),
    {
        match self {
            GameType::Normal => "rock paper scissors",
            GameType::SpockLizard => "Spock lizard variation",
            GameType::FireWater => "fire water variation",
            _ => "None",
        }
    }
}

impl Default for GameType {
    fn default() -> (game_type: GameType)
        ensures
            game_type == GameType::Uninitialized,
    {
        GameType::Uninitialized
    }
}

impl From<i32> for GameType {
    fn from(value: i32) -> (game_type: GameType) {
        match value {
            1 => GameType::Normal,
            2 => GameType::SpockLizard,
            3 => GameType::FireWater,
            _ => GameType::Uninitialized,
        }
    }
}

impl vstd::std_specs::convert::FromSpecImpl<i32> for GameType {
    open spec fn obeys_from_spec() -> bool {
        true
    }

    open spec fn from_spec(value: i32) -> GameType {
        GameType::of_position(value as int)
    }
}

} // verus!
