//! Who plays: an identity drawn once, and a name that can be changed.

use uuid::Uuid;
use vstd::prelude::*;
use vstd::utf8::is_ascii_chars;

verus! {

/// The text that uuid's `Display` gives for the UUID of the 128 bits `bits`.
pub uninterp spec fn uuid_text(bits: u128) -> Seq<char>;

/// Whether the 128 bits are those of a version 4 UUID in the RFC's layout:
/// the version digit is 4 and the variant's two top bits are 1 and 0.
pub open spec fn is_random_uuid(bits: u128) -> bool {
    bits & 0x0000_0000_0000_f000_c000_0000_0000_0000 == 0x0000_0000_0000_4000_8000_0000_0000_0000
}

/// `Uuid::new_v4` of uuid, handed on as its 128 bits (`Uuid::as_u128`). The
/// bits are random but for the version and the variant, which the call sets.
#[verifier::external_body]
fn random_uuid() -> (bits: u128)
    ensures
        is_random_uuid(bits),
{
    Uuid::new_v4().as_u128()
}

/// `to_string` of uuid's `Uuid`, by its `Display`, on `Uuid::from_u128(bits)`:
/// the 32 hexadecimal digits in lower case, in groups of 8, 4, 4, 4 and 12
/// with a hyphen between two groups, so 36 ASCII characters.
#[verifier::external_body]
fn uuid_to_text(bits: u128) -> (text: String)
    ensures
        text@ == uuid_text(bits),
        text@.len() == 36,
        is_ascii_chars(text@),
{
    Uuid::from_u128(bits).to_string()
}

/// A player: the 128 bits of the player's UUID, and the player's name.
#[derive(Debug, PartialEq, Eq)]
pub struct PlayerOptions {
    pub uuid: u128,
    pub name: String,
}

impl PlayerOptions {
    /// The name a player has until another is chosen, from the text of the
    /// player's UUID.
    pub open spec fn default_name(uuid_text: Seq<char>) -> Seq<char> {
        "PLAYER-"@ + uuid_text
    }

    /// The player with the given UUID, named after its text.
    pub fn named_after(uuid: u128, uuid_text: &str) -> (player_options: PlayerOptions)
        ensures
            player_options.uuid == uuid,
            player_options.name@ == Self::default_name(uuid_text@),
    {
        let mut name = "PLAYER-".to_owned();
        name.append(uuid_text);
        PlayerOptions { uuid, name }
    }

    /// A new player: a random UUID, and the name that goes with it.
    pub fn new() -> (player_options: PlayerOptions)
        ensures
            is_random_uuid(player_options.uuid),
            player_options.name@ == Self::default_name(uuid_text(player_options.uuid)),
            player_options.name@.len() == 43,
            is_ascii_chars(player_options.name@),
    {
        let uuid = random_uuid();
        let text = uuid_to_text(uuid);
        proof {
            reveal_strlit("PLAYER-");
        }
        Self::named_after(uuid, text.as_str())
    }
}

} // verus!
