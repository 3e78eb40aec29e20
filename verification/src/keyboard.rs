//! The keys a front-end reports, and which of them were pressed in a frame.

use vstd::prelude::*;

verus! {

/// A key of the keyboard. `Other` stands for every key that nothing here
/// tells apart.
#[derive(Debug, PartialEq, Eq, Structural, Hash, Copy, Clone)]
pub enum KeyCode {
    Key1,
    Key2,
    Key3,
    Key4,
    Key5,
    Key6,
    Key7,
    Key8,
    Key9,
    Key0,
    Numpad0,
    Numpad1,
    Numpad2,
    Numpad3,
    Numpad4,
    Numpad5,
    Numpad6,
    Numpad7,
    Numpad8,
    Numpad9,
    A,
    B,
    C,
    D,
    E,
    F,
    G,
    H,
    I,
    J,
    K,
    L,
    M,
    N,
    O,
    P,
    Q,
    R,
    S,
    T,
    U,
    V,
    W,
    X,
    Y,
    Z,
    Mail,
    Apostrophe,
    Colon,
    Minus,
    NumpadSubtract,
    Plus,
    NumpadAdd,
    Semicolon,
    Underline,
    Equals,
    NumpadEquals,
    Comma,
    Period,
    Back,
    Left,
    Right,
    Up,
    Down,
    Space,
    Return,
    Other,
}

impl KeyCode {
    /// The character that the key types into a text field, if it types one.
    /// A digit types the same from the top row and from the number pad.
    pub open spec fn typed(self) -> Option<char> {
        match self {
            KeyCode::Key1 | KeyCode::Numpad1 => Some('1'),
            KeyCode::Key2 | KeyCode::Numpad2 => Some('2'),
            KeyCode::Key3 | KeyCode::Numpad3 => Some('3'),
            KeyCode::Key4 | KeyCode::Numpad4 => Some('4'),
            KeyCode::Key5 | KeyCode::Numpad5 => Some('5'),
            KeyCode::Key6 | KeyCode::Numpad6 => Some('6'),
            KeyCode::Key7 | KeyCode::Numpad7 => Some('7'),
            KeyCode::Key8 | KeyCode::Numpad8 => Some('8'),
            KeyCode::Key9 | KeyCode::Numpad9 => Some('9'),
            KeyCode::Key0 | KeyCode::Numpad0 => Some('0'),
            KeyCode::A => Some('A'),
            KeyCode::B => Some('B'),
            KeyCode::C => Some('C'),
            KeyCode::D => Some('D'),
            KeyCode::E => Some('E'),
            KeyCode::F => Some('F'),
            KeyCode::G => Some('G'),
            KeyCode::H => Some('H'),
            KeyCode::I => Some('I'),
            KeyCode::J => Some('J'),
            KeyCode::K => Some('K'),
            KeyCode::L => Some('L'),
            KeyCode::M => Some('M'),
            KeyCode::N => Some('N'),
            KeyCode::O => Some('O'),
            KeyCode::P => Some('P'),
            KeyCode::Q => Some('Q'),
            KeyCode::R => Some('R'),
            KeyCode::S => Some('S'),
            KeyCode::T => Some('T'),
            KeyCode::U => Some('U'),
            KeyCode::V => Some('V'),
            KeyCode::W => Some('W'),
            KeyCode::X => Some('X'),
            KeyCode::Y => Some('Y'),
            KeyCode::Z => Some('Z'),
            KeyCode::Mail => Some('@'),
            KeyCode::Apostrophe => Some('\''),
            KeyCode::Colon => Some(':'),
            KeyCode::Minus | KeyCode::NumpadSubtract => Some('-'),
            KeyCode::Plus | KeyCode::NumpadAdd => Some('+'),
            KeyCode::Semicolon => Some(';'),
            KeyCode::Underline => Some('_'),
            KeyCode::Equals | KeyCode::NumpadEquals => Some('='),
            KeyCode::Comma => Some(','),
            KeyCode::Period => Some('.'),
            _ => None,
        }
    }

    /// The character that the key types, if it types one. It is an ASCII
    /// character and never the cursor of a text field.
    pub fn typed_char(&self) -> (typed: Option<char>)
        ensures
            typed == self.typed(),
            typed matches Some(ch) ==> ch != '|' && '\0' <= ch <= '\u{7f}',
    {
        match self {
            KeyCode::Key1 | KeyCode::Numpad1 => Some('1'),
            KeyCode::Key2 | KeyCode::Numpad2 => Some('2'),
            KeyCode::Key3 | KeyCode::Numpad3 => Some('3'),
            KeyCode::Key4 | KeyCode::Numpad4 => Some('4'),
            KeyCode::Key5 | KeyCode::Numpad5 => Some('5'),
            KeyCode::Key6 | KeyCode::Numpad6 => Some('6'),
            KeyCode::Key7 | KeyCode::Numpad7 => Some('7'),
            KeyCode::Key8 | KeyCode::Numpad8 => Some('8'),
            KeyCode::Key9 | KeyCode::Numpad9 => Some('9'),
            KeyCode::Key0 | KeyCode::Numpad0 => Some('0'),
            KeyCode::A => Some('A'),
            KeyCode::B => Some('B'),
            KeyCode::C => Some('C'),
            KeyCode::D => Some('D'),
            KeyCode::E => Some('E'),
            KeyCode::F => Some('F'),
            KeyCode::G => Some('G'),
            KeyCode::H => Some('H'),
            KeyCode::I => Some('I'),
            KeyCode::J => Some('J'),
            KeyCode::K => Some('K'),
            KeyCode::L => Some('L'),
            KeyCode::M => Some('M'),
            KeyCode::N => Some('N'),
            KeyCode::O => Some('O'),
            KeyCode::P => Some('P'),
            KeyCode::Q => Some('Q'),
            KeyCode::R => Some('R'),
            KeyCode::S => Some('S'),
            KeyCode::T => Some('T'),
            KeyCode::U => Some('U'),
            KeyCode::V => Some('V'),
            KeyCode::W => Some('W'),
            KeyCode::X => Some('X'),
            KeyCode::Y => Some('Y'),
            KeyCode::Z => Some('Z'),
            KeyCode::Mail => Some('@'),
            KeyCode::Apostrophe => Some('\''),
            KeyCode::Colon => Some(':'),
            KeyCode::Minus | KeyCode::NumpadSubtract => Some('-'),
            KeyCode::Plus | KeyCode::NumpadAdd => Some('+'),
            KeyCode::Semicolon => Some(';'),
            KeyCode::Underline => Some('_'),
            KeyCode::Equals | KeyCode::NumpadEquals => Some('='),
            KeyCode::Comma => Some(','),
            KeyCode::Period => Some('.'),
            _ => None,
        }
    }
}

/// The keys that went down since the last frame.
#[derive(Debug)]
pub struct KeyboardInput {
    pub keys: Vec<KeyCode>,
}

impl KeyboardInput {
    /// Whether `key` went down since the last frame.
    pub open spec fn pressed(&self, key: KeyCode) -> bool {
        self.keys@.contains(key)
    }

    /// Whether return or space went down: either confirms a choice.
    pub open spec fn confirmed(&self) -> bool {
        self.pressed(KeyCode::Return) || self.pressed(KeyCode::Space)
    }

    /// Whether `key` went down since the last frame.
    pub fn just_pressed(&self, key: KeyCode) -> (pressed: bool)
        ensures
            pressed == self.pressed(key),
    {
        let mut index: usize = 0;
        while index < self.keys.len()
            invariant
                index <= self.keys.len(),
                forall|i: int| 0 <= i < index ==> self.keys@[i] != key,
            decreases self.keys.len() - index,
        {
            if self.keys[index] == key {
                return true;
            }
            index += 1;
        }
        false
    }

    /// Whether one of the two keys went down since the last frame.
    pub fn any_just_pressed(&self, first: KeyCode, second: KeyCode) -> (pressed: bool)
        ensures
            pressed == (self.pressed(first) || self.pressed(second)),
    {
        self.just_pressed(first) || self.just_pressed(second)
    }
}

} // verus!
