//! The moves, which of them each rule set admits, which beats which, and why.

use crate::game_error::{GameError, GameErrorKind};
use crate::game_move::GameMove::{Fire, Lizard, Paper, Rock, Scissors, Spock, Water};
use crate::game_result::GameResult;
use crate::game_type::GameType;
use vstd::prelude::*;

verus! {

/// What a player can play. Which of the moves a round admits depends on the
/// rule set.
#[derive(Debug, PartialEq, Eq, Structural, Hash, Copy, Clone)]
pub enum GameMove {
    Rock,
    Paper,
    Scissors,
    Spock,
    Lizard,
    Fire,
    Water,
}

/// What a character typed at the move prompt asks for: a move, or to leave.
/// Leaving is no move: the rules never see it.
#[derive(Debug, PartialEq, Eq, Structural, Hash, Copy, Clone)]
pub enum MoveInput {
    Play(GameMove),
    Quit,
}

impl GameMove {
    /// The moves that may be played under `game_type`.
    pub open spec fn legal_moves(game_type: GameType) -> Set<GameMove> {
        match game_type {
            GameType::Normal => set![Rock, Paper, Scissors],
            GameType::SpockLizard => set![Rock, Paper, Scissors, Spock, Lizard],
            GameType::FireWater => set![Rock, Paper, Scissors, Fire, Water],
            GameType::Uninitialized => Set::empty(),
        }
    }

    /// Whether the move may be played under `game_type`.
    pub open spec fn is_legal(self, game_type: GameType) -> bool {
        Self::legal_moves(game_type).contains(self)
    }

    /// The moves that `self` wins against under `game_type`. A move that the
    /// rule set lacks wins against nothing.
    pub open spec fn defeats(self, game_type: GameType) -> Set<GameMove> {
        match (game_type, self) {
            (GameType::Normal, Rock) => set![Scissors],
            (GameType::Normal, Paper) => set![Rock],
            (GameType::Normal, Scissors) => set![Paper],
            (GameType::SpockLizard, Rock) => set![Scissors, Lizard],
            (GameType::SpockLizard, Paper) => set![Rock, Spock],
            (GameType::SpockLizard, Scissors) => set![Paper, Lizard],
            (GameType::SpockLizard, Spock) => set![Rock, Scissors],
            (GameType::SpockLizard, Lizard) => set![Paper, Spock],
            (GameType::FireWater, Rock) => set![Scissors, Fire],
            (GameType::FireWater, Paper) => set![Rock, Water],
            (GameType::FireWater, Scissors) => set![Paper],
            (GameType::FireWater, Fire) => set![Paper, Scissors],
            (GameType::FireWater, Water) => set![Rock, Scissors, Fire],
            _ => Set::empty(),
        }
    }

    /// How a round ends for the player of `self` against `other`: a draw on
    /// equal moves, else a win exactly if `other` is among those `self` defeats.
    pub open spec fn outcome(self, game_type: GameType, other: GameMove) -> GameResult {
        if self == other {
            GameResult::Draw
        } else if self.defeats(game_type).contains(other) {
            GameResult::Win
        } else {
            GameResult::Lose
        }
    }

    /// The moves in the order of their selection slots, the first at slot 1.
    /// The two extra moves of a variant follow the three common ones.
    pub open spec fn slot_order(game_type: GameType) -> Seq<GameMove> {
        match game_type {
            GameType::SpockLizard => seq![Rock, Paper, Scissors, Spock, Lizard],
            GameType::FireWater => seq![Rock, Paper, Scissors, Fire, Water],
            _ => seq![Rock, Paper, Scissors],
        }
    }

    /// The move at a 1-based slot, if the slot holds one.
    pub open spec fn at_slot(game_type: GameType, slot: int) -> Option<GameMove> {
        if 1 <= slot <= Self::slot_order(game_type).len() {
            Some(Self::slot_order(game_type)[slot - 1])
        } else {
            None
        }
    }

    /// The slot at which the move stands under every rule set that has it.
    pub open spec fn slot(self) -> int {
        match self {
            Rock => 1,
            Paper => 2,
            Scissors => 3,
            Spock | Fire => 4,
            Lizard | Water => 5,
        }
    }

    /// The sentence that explains who wins between two moves. It is the same
    /// in both orders, and empty where the two never meet in a round.
    pub open spec fn phrase(first: GameMove, second: GameMove) -> Seq<char> {
        match (first, second) {
            (Rock, Paper) | (Paper, Rock) => "Paper covers Rock."@,
            (Rock, Scissors) | (Scissors, Rock) => "Rock crushes Scissors."@,
            (Rock, Lizard) | (Lizard, Rock) => "Rock crushes Lizard."@,
            (Rock, Spock) | (Spock, Rock) => "Spock vaporizes Rock."@,
            (Rock, Fire) | (Fire, Rock) => "Rock pounds out Fire."@,
            (Rock, Water) | (Water, Rock) => "Water erodes Rock"@,
            (Paper, Scissors) | (Scissors, Paper) => "Scissors cuts Paper."@,
            (Paper, Lizard) | (Lizard, Paper) => "Lizard eats Paper."@,
            (Paper, Spock) | (Spock, Paper) => "Paper disproves Spock."@,
            (Paper, Fire) | (Fire, Paper) => "Fire burns Paper."@,
            (Paper, Water) | (Water, Paper) => "Paper floats on Water."@,
            (Scissors, Lizard) | (Lizard, Scissors) => "Scissors decapitates Lizard."@,
            (Scissors, Spock) | (Spock, Scissors) => "Spock smashes Scissors."@,
            (Scissors, Fire) | (Fire, Scissors) => "Fire melts Scissors."@,
            (Scissors, Water) | (Water, Scissors) => "Water rusts Scissors."@,
            (Lizard, Spock) | (Spock, Lizard) => "Lizard poisons Spock."@,
            (Fire, Water) | (Water, Fire) => "Water puts out Fire."@,
            _ => Seq::empty(),
        }
    }

    /// Whether some rule set admits both moves.
    pub open spec fn can_meet(first: GameMove, second: GameMove) -> bool {
        exists|game_type: GameType| #[trigger]
            first.is_legal(game_type) && second.is_legal(game_type)
    }

    /// The move at the 1-based slot `value`, if the slot holds one. Under a
    /// rule set that is chosen, the slots from 1 to the rule set's number of
    /// slots hold a move, and no others.
    pub fn from_i32(game_type: GameType, value: i32) -> (game_move: Option<GameMove>)
        ensures
            game_move == Self::at_slot(game_type, value as int),
            game_type != GameType::Uninitialized ==> (game_move is Some <==> 1 <= value
                <= game_type.max_slots()),
    {
        match value {
            1 => Some(Rock),
            2 => Some(Paper),
            3 => Some(Scissors),
            4 => match game_type {
                GameType::SpockLizard => Some(Spock),
                GameType::FireWater => Some(Fire),
                _ => None,
            },
            5 => match game_type {
                GameType::SpockLizard => Some(Lizard),
                GameType::FireWater => Some(Water),
                _ => None,
            },
            _ => None,
        }
    }

    /// The slot at which the move stands.
    pub fn slot_number(&self) -> (slot: i32)
        ensures
            slot == self.slot(),
    {
        match self {
            Rock => 1,
            Paper => 2,
            Scissors => 3,
            Spock | Fire => 4,
            Lizard | Water => 5,
        }
    }

    /// Decides a round for the player of `self`. Both moves must be legal
    /// under `game_type`, which rules out the rule set that is not chosen yet.
    pub fn beats_other(&self, game_type: &GameType, other: &GameMove) -> (result: GameResult)
        requires
            *game_type != GameType::Uninitialized,
            self.is_legal(*game_type),
            other.is_legal(*game_type),
        ensures
            result == self.outcome(*game_type, *other),
            result == GameResult::Draw <==> *self == *other,
            result == GameResult::Win <==> other.outcome(*game_type, *self) == GameResult::Lose,
    {
        if *self == *other {
            GameResult::Draw
        } else {
            let wins = match (game_type, self) {
                (GameType::Normal, Rock) => matches!(other, Scissors),
                (GameType::Normal, Paper) => matches!(other, Rock),
                (GameType::Normal, Scissors) => matches!(other, Paper),
                (GameType::SpockLizard, Rock) => matches!(other, Scissors | Lizard),
                (GameType::SpockLizard, Paper) => matches!(other, Rock | Spock),
                (GameType::SpockLizard, Scissors) => matches!(other, Paper | Lizard),
                (GameType::SpockLizard, Spock) => matches!(other, Rock | Scissors),
                (GameType::SpockLizard, Lizard) => matches!(other, Paper | Spock),
                (GameType::FireWater, Rock) => matches!(other, Scissors | Fire),
                (GameType::FireWater, Paper) => matches!(other, Rock | Water),
                (GameType::FireWater, Scissors) => matches!(other, Paper),
                (GameType::FireWater, Fire) => matches!(other, Paper | Scissors),
                (GameType::FireWater, Water) => matches!(other, Rock | Scissors | Fire),
                _ => false,
            };
            if wins {
                GameResult::Win
            } else {
                GameResult::Lose
            }
        }
    }

    /// The sentence that explains who wins between the two moves, the same in
    /// both orders. It is empty for equal moves and for two moves that no rule
    /// set admits together.
    pub fn get_phrase(first: &GameMove, second: &GameMove) -> (phrase: String)
        ensures
            phrase@ == Self::phrase(*first, *second),
            phrase@ == Self::phrase(*second, *first),
            *first == *second ==> phrase@.len() == 0,
    {
        let text = match (first, second) {
            (Rock, Paper) | (Paper, Rock) => "Paper covers Rock.",
            (Rock, Scissors) | (Scissors, Rock) => "Rock crushes Scissors.",
            (Rock, Lizard) | (Lizard, Rock) => "Rock crushes Lizard.",
            (Rock, Spock) | (Spock, Rock) => "Spock vaporizes Rock.",
            (Rock, Fire) | (Fire, Rock) => "Rock pounds out Fire.",
            (Rock, Water) | (Water, Rock) => "Water erodes Rock",
            (Paper, Scissors) | (Scissors, Paper) => "Scissors cuts Paper.",
            (Paper, Lizard) | (Lizard, Paper) => "Lizard eats Paper.",
            (Paper, Spock) | (Spock, Paper) => "Paper disproves Spock.",
            (Paper, Fire) | (Fire, Paper) => "Fire burns Paper.",
            (Paper, Water) | (Water, Paper) => "Paper floats on Water.",
            (Scissors, Lizard) | (Lizard, Scissors) => "Scissors decapitates Lizard.",
            (Scissors, Spock) | (Spock, Scissors) => "Spock smashes Scissors.",
            (Scissors, Fire) | (Fire, Scissors) => "Fire melts Scissors.",
            (Scissors, Water) | (Water, Scissors) => "Water rusts Scissors.",
            (Lizard, Spock) | (Spock, Lizard) => "Lizard poisons Spock.",
            (Fire, Water) | (Water, Fire) => "Water puts out Fire.",
            _ => "",
        };
        proof {
            reveal_strlit("");
        }
        text.to_owned()
    }
}

/// The move that a letter stands for, in either case.
pub open spec fn letter_move(ch: char) -> Option<GameMove> {
    if ch == 'R' || ch == 'r' {
        Some(Rock)
    } else if ch == 'P' || ch == 'p' {
        Some(Paper)
    } else if ch == 'S' || ch == 's' {
        Some(Scissors)
    } else if ch == 'O' || ch == 'o' {
        Some(Spock)
    } else if ch == 'L' || ch == 'l' {
        Some(Lizard)
    } else if ch == 'F' || ch == 'f' {
        Some(Fire)
    } else if ch == 'W' || ch == 'w' {
        Some(Water)
    } else {
        None
    }
}

/// What a character typed at the move prompt means under `game_type`, or why
/// it is turned down. Rock, paper and scissors are taken under every rule set;
/// the other moves only under the rule set that has them.
pub open spec fn parsed_character(game_type: GameType, ch: char) -> Result<
    MoveInput,
    GameErrorKind,
> {
    if ch == 'Q' || ch == 'q' {
        Ok(MoveInput::Quit)
    } else {
        match letter_move(ch) {
            Some(game_move) => if game_move.is_legal(GameType::Normal) || game_move.is_legal(
                game_type,
            ) {
                Ok(MoveInput::Play(game_move))
            } else {
                Err(GameErrorKind::VariantIncompatibleCharacter)
            },
            None => Err(GameErrorKind::InvalidInputCharacter),
        }
    }
}

/// Reads one character typed at the move prompt. An error carries the message
/// to show before asking again.
pub fn parse_move_from_character(game_type: GameType, ch: char) -> (parsed: Result<
    MoveInput,
    GameError,
>)
    ensures
        match parsed {
            Ok(input) => parsed_character(game_type, ch) == Ok::<MoveInput, GameErrorKind>(input),
            Err(error) => parsed_character(game_type, ch) == Err::<MoveInput, GameErrorKind>(
                error.kind,
            ) && error.message@ == GameError::unknown_character_message(ch),
        },
{
    let found = match ch {
        'R' | 'r' => Some(Rock),
        'P' | 'p' => Some(Paper),
        'S' | 's' => Some(Scissors),
        'O' | 'o' => Some(Spock),
        'L' | 'l' => Some(Lizard),
        'F' | 'f' => Some(Fire),
        'W' | 'w' => Some(Water),
        _ => None,
    };
    match found {
        Some(game_move) => {
            let taken = match game_move {
                Rock | Paper | Scissors => true,
                Spock | Lizard => matches!(game_type, GameType::SpockLizard),
                Fire | Water => matches!(game_type, GameType::FireWater),
            };
            if taken {
                Ok(MoveInput::Play(game_move))
            } else {
                Err(
                    GameError::unknown_character(GameErrorKind::VariantIncompatibleCharacter, ch),
                )
            }
        },
        None => if ch == 'Q' || ch == 'q' {
            Ok(MoveInput::Quit)
        } else {
            Err(GameError::unknown_character(GameErrorKind::InvalidInputCharacter, ch))
        },
    }
}

/// Between two different moves of a rule set exactly one beats the other: the
/// two players of a round never both win and never both lose, and only equal
/// moves draw.
pub proof fn exactly_one_side_wins(game_type: GameType, first: GameMove, second: GameMove)
    requires
        first.is_legal(game_type),
        second.is_legal(game_type),
        first != second,
    ensures
        first.defeats(game_type).contains(second) != second.defeats(game_type).contains(first),
        (first.outcome(game_type, second) == GameResult::Win) != (second.outcome(game_type, first)
            == GameResult::Win),
        first.outcome(game_type, second) == GameResult::Win <==> second.outcome(game_type, first)
            == GameResult::Lose,
        first.outcome(game_type, second) == GameResult::Lose <==> second.outcome(game_type, first)
            == GameResult::Win,
        first.outcome(game_type, second) != GameResult::Draw,
{
}

/// Equal moves draw, under every rule set.
pub proof fn equal_moves_draw(game_type: GameType, game_move: GameMove)
    ensures
        game_move.outcome(game_type, game_move) == GameResult::Draw,
{
}

/// A move defeats only moves of its own rule set, and never itself; a move
/// that the rule set lacks defeats nothing.
pub proof fn defeated_moves_are_legal(game_type: GameType, first: GameMove, second: GameMove)
    requires
        first.defeats(game_type).contains(second),
    ensures
        first.is_legal(game_type),
        second.is_legal(game_type),
        first != second,
{
}

/// Under a rule set that is chosen, a slot holds a move exactly if it lies
/// between 1 and the rule set's number of slots.
pub proof fn slot_is_taken_iff_in_range(game_type: GameType, slot: int)
    requires
        game_type != GameType::Uninitialized,
    ensures
        GameMove::at_slot(game_type, slot) is Some <==> 1 <= slot <= game_type.max_slots(),
{
}

/// The slots of a rule set hold its legal moves and no others: a move is
/// legal exactly if it stands at its slot, and it stands at no other.
pub proof fn slots_hold_the_legal_moves(game_type: GameType, game_move: GameMove)
    requires
        game_type != GameType::Uninitialized,
    ensures
        game_move.is_legal(game_type) <==> GameMove::at_slot(game_type, game_move.slot()) == Some(
            game_move,
        ),
        forall|slot: int|
            GameMove::at_slot(game_type, slot) == Some(game_move) ==> slot == game_move.slot(),
{
}

/// The sentence for two moves does not depend on their order.
pub proof fn phrase_is_symmetric(first: GameMove, second: GameMove)
    ensures
        GameMove::phrase(first, second) == GameMove::phrase(second, first),
{
}

/// A move against itself has no sentence.
pub proof fn phrase_of_equal_moves_is_empty(game_move: GameMove)
    ensures
        GameMove::phrase(game_move, game_move) == Seq::<char>::empty(),
        GameMove::phrase(game_move, game_move) == ""@,
{
    reveal_strlit("");
    assert(""@ =~= Seq::<char>::empty());
}

/// Two moves have a sentence exactly if they differ and some rule set admits
/// both.
pub proof fn phrase_exists_iff_moves_can_meet(first: GameMove, second: GameMove)
    ensures
        GameMove::phrase(first, second).len() > 0 <==> first != second && GameMove::can_meet(
            first,
            second,
        ),
{
    reveal_strlit("Paper covers Rock.");
    reveal_strlit("Rock crushes Scissors.");
    reveal_strlit("Rock crushes Lizard.");
    reveal_strlit("Spock vaporizes Rock.");
    reveal_strlit("Rock pounds out Fire.");
    reveal_strlit("Water erodes Rock");
    reveal_strlit("Scissors cuts Paper.");
    reveal_strlit("Lizard eats Paper.");
    reveal_strlit("Paper disproves Spock.");
    reveal_strlit("Fire burns Paper.");
    reveal_strlit("Paper floats on Water.");
    reveal_strlit("Scissors decapitates Lizard.");
    reveal_strlit("Spock smashes Scissors.");
    reveal_strlit("Fire melts Scissors.");
    reveal_strlit("Water rusts Scissors.");
    reveal_strlit("Lizard poisons Spock.");
    reveal_strlit("Water puts out Fire.");
    if first.is_legal(GameType::SpockLizard) && second.is_legal(GameType::SpockLizard) {
    } else if first.is_legal(GameType::FireWater) && second.is_legal(GameType::FireWater) {
    } else {
        assert forall|game_type: GameType|
            !(#[trigger] first.is_legal(game_type) && second.is_legal(game_type)) by {}
    }
}

} // verus!
