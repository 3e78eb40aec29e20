//! The error a player's input can end in.

use crate::text::push_char;
use vstd::prelude::*;

verus! {

/// Why an input character was turned down.
#[derive(Clone, Debug, Copy, PartialEq, Eq, Structural, Hash)]
pub enum GameErrorKind {
    /// The character stands for nothing at all.
    InvalidInputCharacter,
    /// The character stands for a move that the rule set in play lacks.
    VariantIncompatibleCharacter,
}

/// A recoverable input error: the caller shows `message` and asks again.
#[derive(Debug, PartialEq, Eq)]
pub struct GameError {
    pub kind: GameErrorKind,
    pub message: String,
}

impl GameError {
    /// The text shown for a character that was turned down.
    pub open spec fn unknown_character_message(input: char) -> Seq<char> {
        "Unknown character: "@.push(input) + "! Please try again"@
    }

    /// The error for `input`, of the given kind.
    pub fn unknown_character(kind: GameErrorKind, input: char) -> (error: GameError)
        ensures
            error.kind == kind,
            error.message@ == Self::unknown_character_message(input),
    {
        let mut message = "Unknown character: ".to_owned();
        push_char(&mut message, input);
        message.append("! Please try again");
        GameError { kind, message }
    }

    /// The message to show.
    pub fn get_message(&self) -> (message: String)
        ensures
            message@ == self.message@,
    {
        self.message.clone()
    }
}

} // verus!
