//! How a round ended, seen from the player who moved.

use vstd::prelude::*;

verus! {

/// How a round ends for the player whose move is judged.
#[derive(Clone, Debug, Copy, PartialEq, Eq, Structural, Hash)]
pub enum GameResult {
    Win,
    Lose,
    Draw,
}

impl GameResult {
    /// The line shown to the player for this result.
    pub open spec fn friendly_name(self) -> Seq<char> {
        match self {
            GameResult::Win => "You win !!!"@,
            GameResult::Lose => "You lose !!!"@,
            GameResult::Draw => "Draw !!!"@,
        }
    }

    /// The line shown to the player for this result.
    pub fn get_friendly_name(&self) -> (name: String)
        ensures
            name@ == self.friendly_name(),
    {
        match self {
            GameResult::Win => "You win !!!".to_owned(),
            GameResult::Lose => "You lose !!!".to_owned(),
            GameResult::Draw => "Draw !!!".to_owned(),
        }
    }
}

} // verus!
