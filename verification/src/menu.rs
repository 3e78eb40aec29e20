//! The menus: the start menu, the settings, and the screen on which the
//! player's name is changed.

use crate::common::{AppState, MenuState, Reaction, SelectedOption};
use crate::game_settings::GameSettings;
use crate::game_type::GameType;
use crate::keyboard::{KeyCode, KeyboardInput};
use crate::text::push_char;
use vstd::prelude::*;
use vstd::utf8::is_ascii_chars;

verus! {

/// The entries of the start menu, from the first to the last.
#[derive(Debug, Clone, Copy, PartialEq, Eq, Structural, Hash)]
pub enum MenuAction {
    Normal,
    SpockLizard,
    FireWater,
    Settings,
    Credits,
    Exit,
}

/// The entries of the settings menu, from the first to the last.
#[derive(Debug, Clone, Copy, PartialEq, Eq, Structural, Hash)]
pub enum SettingAction {
    Sound,
    ChangeName,
    Back,
}

/// The two buttons under the name field.
#[derive(Debug, Clone, Copy, PartialEq, Eq, Structural, Hash)]
pub enum SaveCancelAction {
    Save,
    Cancel,
}

/// One of the buttons under the name field, and whether it carries the mark.
#[derive(Debug, Clone, Copy, PartialEq, Eq, Structural, Hash)]
pub struct SaveCancelButton {
    pub action: SaveCancelAction,
    pub marked: bool,
}

/// The number of entries of the start menu.
pub const START_MENU_ENTRIES: i32 = 6;

/// The number of entries of the settings menu.
pub const SETTINGS_MENU_ENTRIES: i32 = 3;

/// The most characters a name can have.
pub const NAME_LIMIT: usize = 50;

impl MenuAction {
    /// Whether the entry carries the mark. An entry that starts a game does
    /// while its rule set is the chosen one; each of the others while the
    /// marked option is its place in the menu.
    pub open spec fn marked(self, game_type: GameType, value: int) -> bool {
        match self {
            MenuAction::Normal => game_type == GameType::Normal,
            MenuAction::SpockLizard => game_type == GameType::SpockLizard,
            MenuAction::FireWater => game_type == GameType::FireWater,
            MenuAction::Settings => value == 4,
            MenuAction::Credits => value == 5,
            MenuAction::Exit => value == 6,
        }
    }

    /// Whether the entry carries the mark.
    pub fn is_marked(&self, game_type: &GameType, selected_option: &SelectedOption) -> (marked:
        bool)
        ensures
            marked == self.marked(*game_type, selected_option.value as int),
    {
        match self {
            MenuAction::Normal => *game_type == GameType::Normal,
            MenuAction::SpockLizard => *game_type == GameType::SpockLizard,
            MenuAction::FireWater => *game_type == GameType::FireWater,
            MenuAction::Settings => selected_option.value == 4,
            MenuAction::Credits => selected_option.value == 5,
            MenuAction::Exit => selected_option.value == 6,
        }
    }
}

impl SettingAction {
    /// The entry's place in the settings menu.
    pub open spec fn place(self) -> int {
        match self {
            SettingAction::Sound => 1,
            SettingAction::ChangeName => 2,
            SettingAction::Back => 3,
        }
    }

    /// Whether the entry carries the mark: the marked option is its place.
    pub fn is_marked(&self, selected_option: &SelectedOption) -> (marked: bool)
        ensures
            marked == (selected_option.value == self.place()),
    {
        match self {
            SettingAction::Sound => selected_option.value == 1,
            SettingAction::ChangeName => selected_option.value == 2,
            SettingAction::Back => selected_option.value == 3,
        }
    }
}

/// The test that every character but the cursor passes.
pub open spec fn not_cursor() -> spec_fn(char) -> bool {
    |ch: char| ch != '|'
}

/// The text without the cursor, wherever it stands and however often.
pub open spec fn without_cursor(text: Seq<char>) -> Seq<char> {
    text.filter(not_cursor())
}

/// The text cut down to the most characters a name can have.
pub open spec fn limited(text: Seq<char>) -> Seq<char> {
    if text.len() > NAME_LIMIT {
        text.take(NAME_LIMIT as int)
    } else {
        text
    }
}

/// The text after the cursor has blinked: a text that shows the cursor loses
/// its last character, any other gains the cursor at its end.
pub open spec fn blinked(text: Seq<char>) -> Seq<char> {
    if text.contains('|') {
        text.drop_last()
    } else {
        text.push('|')
    }
}

/// The name field's text after a key that is none of the button keys. The
/// backspace key takes the cursor and the last character off a text that is
/// not empty. A key that types a character puts it at the end and takes the
/// cursor off. Either way the text is then cut to the limit. Every other key
/// leaves the text as it is, cursor included.
pub open spec fn edited_text(text: Seq<char>, pressed: KeyCode) -> Seq<char> {
    if pressed == KeyCode::Back {
        if text.len() == 0 {
            text
        } else {
            limited(without_cursor(text).drop_last())
        }
    } else {
        match pressed.typed() {
            Some(ch) => limited(without_cursor(text.push(ch))),
            None => text,
        }
    }
}

/// Whether the key is answered with the switch sound: the backspace key on a
/// text that is not empty, and every key that types a character.
pub open spec fn edit_is_heard(text: Seq<char>, pressed: KeyCode) -> bool {
    if pressed == KeyCode::Back {
        text.len() > 0
    } else {
        pressed.typed() is Some
    }
}

/// Whether the name field can take the key: its text is ASCII, and there is
/// a character beside the cursor for the backspace key to take off.
pub open spec fn can_edit(text: Seq<char>, pressed: KeyCode) -> bool {
    &&& is_ascii_chars(text)
    &&& pressed == KeyCode::Back && text.len() > 0 ==> without_cursor(text).len() > 0
}

/// Whether the key acts on the buttons under the name field.
pub open spec fn is_button_key(pressed: KeyCode) -> bool {
    pressed == KeyCode::Left || pressed == KeyCode::Right || pressed == KeyCode::Space || pressed
        == KeyCode::Return
}

/// The buttons with the mark of each turned over.
pub open spec fn marks_turned(buttons: Seq<SaveCancelButton>) -> Seq<SaveCancelButton> {
    Seq::new(
        buttons.len(),
        |i: int| SaveCancelButton { action: buttons[i].action, marked: !buttons[i].marked },
    )
}

/// Whether the save button carries the mark.
pub open spec fn save_is_marked(buttons: Seq<SaveCancelButton>) -> bool {
    buttons.contains(SaveCancelButton { action: SaveCancelAction::Save, marked: true })
}

/// The label of the sound entry.
pub open spec fn sound_label_text(is_sound_on: bool) -> Seq<char> {
    "Sound ("@ + if is_sound_on {
        "On"@
    } else {
        "Off"@
    } + ")"@
}

/// What is left of an ASCII text without its cursor is ASCII, and so is what
/// is left of it after the cut to the limit.
pub proof fn cleared_text_is_ascii(text: Seq<char>)
    requires
        is_ascii_chars(text),
    ensures
        is_ascii_chars(without_cursor(text)),
        is_ascii_chars(limited(text)),
{
    let cleared = without_cursor(text);
    assert forall|i: int| 0 <= i < cleared.len() implies '\0' <= #[trigger] cleared[i]
        <= '\u{7f}' by {
        assert(cleared.contains(cleared[i]));
        text.lemma_filter_contains_rev(not_cursor(), cleared[i]);
    }
}

/// A text without its cursor holds no cursor, so taking the cursor off
/// again changes nothing.
pub proof fn cleared_text_has_no_cursor(text: Seq<char>)
    ensures
        !without_cursor(text).contains('|'),
        without_cursor(without_cursor(text)) == without_cursor(text),
    decreases text.len(),
{
    reveal(Seq::filter);
    if text.len() > 0 {
        let rest = text.drop_last();
        cleared_text_has_no_cursor(rest);
        let cleared = without_cursor(rest);
        if text.last() != '|' {
            cleared.lemma_filter_push(text.last(), not_cursor());
            assert forall|i: int| 0 <= i < cleared.push(text.last()).len() implies cleared.push(
                text.last(),
            )[i] != '|' by {
                if i < cleared.len() {
                    assert(cleared.contains(cleared[i]));
                }
            }
        }
    }
}

/// A key that is answered leaves a name in the field: a text without the
/// cursor, and no longer than a name can be.
pub proof fn answered_key_leaves_a_name(text: Seq<char>, pressed: KeyCode)
    requires
        edit_is_heard(text, pressed),
        pressed == KeyCode::Back ==> without_cursor(text).len() > 0,
    ensures
        !edited_text(text, pressed).contains('|'),
        edited_text(text, pressed).len() <= NAME_LIMIT,
{
    let cleared = if pressed == KeyCode::Back {
        without_cursor(text)
    } else {
        without_cursor(text.push(pressed.typed()->0))
    };
    let uncut = if pressed == KeyCode::Back {
        cleared.drop_last()
    } else {
        cleared
    };
    cleared_text_has_no_cursor(text);
    cleared_text_has_no_cursor(text.push(pressed.typed()->0));
    let edited = edited_text(text, pressed);
    assert(edited == limited(uncut));
    assert forall|i: int| 0 <= i < edited.len() implies edited[i] != '|' by {
        assert(edited[i] == cleared[i]);
        assert(cleared.contains(cleared[i]));
    }
}

/// The state the menu screen starts in.
pub fn init_setup_menu() -> (state: MenuState)
    ensures
        state == MenuState::StartMenu,
{
    MenuState::StartMenu
}

/// Moves the mark of the start menu: up towards the first entry, else down
/// towards the last. The rule set follows the mark: the first three entries
/// choose one, the others none. With neither key nothing happens.
pub fn switch_start_menu_action(
    keyboard_input: &KeyboardInput,
    game_type: &mut GameType,
    selected_option: &mut SelectedOption,
) -> (reaction: Reaction)
    ensures
        final(selected_option).value == if keyboard_input.pressed(KeyCode::Up) {
            SelectedOption::stepped_back(old(selected_option).value as int)
        } else if keyboard_input.pressed(KeyCode::Down) {
            SelectedOption::stepped_on(
                old(selected_option).value as int,
                START_MENU_ENTRIES as int,
            )
        } else {
            old(selected_option).value as int
        },
        *final(game_type) == if keyboard_input.pressed(KeyCode::Up) || keyboard_input.pressed(
            KeyCode::Down,
        ) {
            GameType::of_position(final(selected_option).value as int)
        } else {
            *old(game_type)
        },
        reaction == if keyboard_input.pressed(KeyCode::Up) || keyboard_input.pressed(
            KeyCode::Down,
        ) {
            Reaction::marks_moved()
        } else {
            Reaction::nothing()
        },
{
    let mut reaction = Reaction::none();
    if keyboard_input.just_pressed(KeyCode::Up) {
        selected_option.step_back();
        *game_type = GameType::from(selected_option.value);
        reaction = Reaction::with_marks_moved();
    } else if keyboard_input.just_pressed(KeyCode::Down) {
        selected_option.step_on(START_MENU_ENTRIES);
        *game_type = GameType::from(selected_option.value);
        reaction = Reaction::with_marks_moved();
    }
    reaction
}

/// Moves the mark of the settings menu: up towards the first entry, else
/// down towards the last. With neither key nothing happens.
pub fn switch_settings_menu_action(
    keyboard_input: &KeyboardInput,
    selected_option: &mut SelectedOption,
) -> (reaction: Reaction)
    ensures
        final(selected_option).value == if keyboard_input.pressed(KeyCode::Up) {
            SelectedOption::stepped_back(old(selected_option).value as int)
        } else if keyboard_input.pressed(KeyCode::Down) {
            SelectedOption::stepped_on(
                old(selected_option).value as int,
                SETTINGS_MENU_ENTRIES as int,
            )
        } else {
            old(selected_option).value as int
        },
        reaction == if keyboard_input.pressed(KeyCode::Up) || keyboard_input.pressed(
            KeyCode::Down,
        ) {
            Reaction::marks_moved()
        } else {
            Reaction::nothing()
        },
{
    let mut reaction = Reaction::none();
    if keyboard_input.just_pressed(KeyCode::Up) {
        selected_option.step_back();
        reaction = Reaction::with_marks_moved();
    } else if keyboard_input.just_pressed(KeyCode::Down) {
        selected_option.step_on(SETTINGS_MENU_ENTRIES);
        reaction = Reaction::with_marks_moved();
    }
    reaction
}

/// The label of the sound entry: `Sound (On)` or `Sound (Off)`.
pub fn sound_label(is_sound_on: bool) -> (label: String)
    ensures
        label@ == sound_label_text(is_sound_on),
{
    let mut label = "Sound (".to_owned();
    label.append(
        if is_sound_on {
            "On"
        } else {
            "Off"
        },
    );
    label.append(")");
    label
}

/// Confirms the marked entry of the settings menu on return or space. The
/// first entry turns the sound on or off: the settings are to be written out
/// and the entry's label drawn again. The second opens the name screen, the
/// third goes back to the start menu; both mark the first option again.
/// Without either key nothing happens.
pub fn confirm_settings_menu_action(
    keyboard_input: &KeyboardInput,
    selected_option: &mut SelectedOption,
    game_settings: &mut GameSettings,
) -> (reaction: Reaction)
    ensures
        final(game_settings).player_options == old(game_settings).player_options,
        final(game_settings).is_sound_on == if keyboard_input.confirmed() && old(
            selected_option,
        ).value == 1 {
            !old(game_settings).is_sound_on
        } else {
            old(game_settings).is_sound_on
        },
        final(selected_option).value == if keyboard_input.confirmed() && (old(
            selected_option,
        ).value == 2 || old(selected_option).value == 3) {
            1
        } else {
            old(selected_option).value
        },
        reaction == if !keyboard_input.confirmed() {
            Reaction::nothing()
        } else if old(selected_option).value == 1 {
            Reaction { redraw: true, save_settings: true, ..Reaction::switch_sound() }
        } else if old(selected_option).value == 2 {
            Reaction { menu_state: Some(MenuState::ChangeName), ..Reaction::switch_sound() }
        } else if old(selected_option).value == 3 {
            Reaction { menu_state: Some(MenuState::StartMenu), ..Reaction::switch_sound() }
        } else {
            Reaction::switch_sound()
        },
{
    let mut reaction = Reaction::none();
    if keyboard_input.any_just_pressed(KeyCode::Return, KeyCode::Space) {
        reaction = Reaction::with_switch_sound();
        if selected_option.value == 1 {
            game_settings.is_sound_on = !game_settings.is_sound_on;
            reaction.redraw = true;
            reaction.save_settings = true;
        } else if selected_option.value == 2 {
            selected_option.set_value(1);
            reaction.menu_state = Some(MenuState::ChangeName);
        } else if selected_option.value == 3 {
            selected_option.set_value(1);
            reaction.menu_state = Some(MenuState::StartMenu);
        }
    }
    reaction
}

/// Confirms the marked entry of the start menu on return or space. The first
/// three entries choose their rule set and start a game, the fourth opens the
/// settings, the fifth the credits, the sixth closes the game. All but the
/// sixth mark the first option again. Without either key nothing happens.
pub fn confirm_start_menu_action(
    keyboard_input: &KeyboardInput,
    selected_option: &mut SelectedOption,
    game_type: &mut GameType,
) -> (reaction: Reaction)
    ensures
        final(selected_option).value == if keyboard_input.confirmed() && 1 <= old(
            selected_option,
        ).value <= 5 {
            1
        } else {
            old(selected_option).value
        },
        *final(game_type) == if keyboard_input.confirmed() && 1 <= old(selected_option).value
            <= 3 {
            GameType::of_position(old(selected_option).value as int)
        } else {
            *old(game_type)
        },
        reaction == if !keyboard_input.confirmed() {
            Reaction::nothing()
        } else if 1 <= old(selected_option).value <= 3 {
            Reaction {
                menu_state: Some(MenuState::NotInit),
                app_state: Some(AppState::Playing),
                ..Reaction::switch_sound()
            }
        } else if old(selected_option).value == 4 {
            Reaction { menu_state: Some(MenuState::SettingsMenu), ..Reaction::switch_sound() }
        } else if old(selected_option).value == 5 {
            Reaction {
                menu_state: Some(MenuState::NotInit),
                app_state: Some(AppState::Credits),
                ..Reaction::switch_sound()
            }
        } else if old(selected_option).value == 6 {
            Reaction {
                menu_state: Some(MenuState::NotInit),
                app_state: Some(AppState::Closing),
                ..Reaction::switch_sound()
            }
        } else {
            Reaction::switch_sound()
        },
{
    let mut reaction = Reaction::none();
    if keyboard_input.any_just_pressed(KeyCode::Return, KeyCode::Space) {
        reaction = Reaction::with_switch_sound();
        let value = selected_option.value;
        if 1 <= value && value <= 3 {
            selected_option.set_value(1);
            *game_type = GameType::from(value);
            reaction.menu_state = Some(MenuState::NotInit);
            reaction.app_state = Some(AppState::Playing);
        } else if value == 4 {
            selected_option.set_value(1);
            reaction.menu_state = Some(MenuState::SettingsMenu);
        } else if value == 5 {
            selected_option.set_value(1);
            reaction.menu_state = Some(MenuState::NotInit);
            reaction.app_state = Some(AppState::Credits);
        } else if value == 6 {
            reaction.menu_state = Some(MenuState::NotInit);
            reaction.app_state = Some(AppState::Closing);
        }
    }
    reaction
}

/// Whether the text shows the cursor.
pub fn has_cursor(text: &str) -> (found: bool)
    ensures
        found == text@.contains('|'),
{
    let length = text.unicode_len();
    let mut index: usize = 0;
    while index < length
        invariant
            index <= length,
            length == text@.len(),
            forall|i: int| 0 <= i < index ==> text@[i] != '|',
        decreases length - index,
    {
        if text.get_char(index) == '|' {
            return true;
        }
        index += 1;
    }
    false
}

/// The text without the cursor.
pub fn remove_cursor(text: &str) -> (cleared: String)
    ensures
        cleared@ == without_cursor(text@),
{
    let length = text.unicode_len();
    let mut cleared = String::new();
    let mut index: usize = 0;
    proof {
        reveal(Seq::filter);
        assert(text@.take(0) =~= Seq::<char>::empty());
    }
    while index < length
        invariant
            index <= length,
            length == text@.len(),
            cleared@ == without_cursor(text@.take(index as int)),
        decreases length - index,
    {
        let ch = text.get_char(index);
        proof {
            text@.take(index as int).lemma_filter_push(ch, not_cursor());
            assert(text@.take(index + 1) =~= text@.take(index as int).push(ch));
        }
        if ch != '|' {
            push_char(&mut cleared, ch);
        }
        index += 1;
    }
    proof {
        assert(text@.take(length as int) =~= text@);
    }
    cleared
}

/// The text cut down to the most characters a name can have.
pub fn limit_text(text: &str) -> (cut: String)
    requires
        is_ascii_chars(text@),
    ensures
        cut@ == limited(text@),
{
    if text.unicode_len() > NAME_LIMIT {
        text.substring_ascii(0, NAME_LIMIT).to_owned()
    } else {
        text.to_owned()
    }
}

/// Lets the cursor of the name field blink once.
pub fn on_blinking_text_indicator(text: &str) -> (shown: String)
    ensures
        shown@ == blinked(text@),
{
    if has_cursor(text) {
        let length = text.unicode_len();
        text.substring_char(0, length - 1).to_owned()
    } else {
        let mut shown = text.to_owned();
        shown.append("|");
        proof {
            reveal_strlit("|");
            assert(text@ + "|"@ =~= text@.push('|'));
        }
        shown
    }
}

/// The name field's text after a key that is none of the button keys, and
/// whether the key is answered with the switch sound.
pub fn get_new_text_value(text: String, pressed: &KeyCode) -> (edited: (String, bool))
    requires
        can_edit(text@, *pressed),
    ensures
        edited.0@ == edited_text(text@, *pressed),
        edited.1 == edit_is_heard(text@, *pressed),
        is_ascii_chars(edited.0@),
        edited.1 ==> !edited.0@.contains('|') && edited.0@.len() <= NAME_LIMIT,
{
    proof {
        if edit_is_heard(text@, *pressed) {
            answered_key_leaves_a_name(text@, *pressed);
        }
    }
    if *pressed == KeyCode::Back {
        if text.as_str().is_empty() {
            (text, false)
        } else {
            let cleared = remove_cursor(text.as_str());
            proof {
                cleared_text_is_ascii(text@);
            }
            let length = cleared.as_str().unicode_len();
            let shortened = cleared.as_str().substring_ascii(0, length - 1);
            proof {
                cleared_text_is_ascii(shortened@);
            }
            (limit_text(shortened), true)
        }
    } else {
        match pressed.typed_char() {
            Some(ch) => {
                let mut appended = text;
                push_char(&mut appended, ch);
                let cleared = remove_cursor(appended.as_str());
                proof {
                    cleared_text_is_ascii(appended@);
                    cleared_text_is_ascii(cleared@);
                }
                (limit_text(cleared.as_str()), true)
            },
            None => (text, false),
        }
    }
}

/// Handles one key on the name screen. Left and right turn the marks of the
/// buttons over. Space and return leave for the settings menu; where the save
/// button carries the mark, the field's text without the cursor becomes the
/// player's name first, and the settings are to be written out. Every other
/// key goes to the name field.
pub fn on_key_press_event_listener(
    pressed: KeyCode,
    text: &mut String,
    buttons: &mut Vec<SaveCancelButton>,
    game_settings: &mut GameSettings,
) -> (reaction: Reaction)
    requires
        !is_button_key(pressed) ==> can_edit(old(text)@, pressed),
    ensures
        final(game_settings).is_sound_on == old(game_settings).is_sound_on,
        final(game_settings).player_options.uuid == old(game_settings).player_options.uuid,
        pressed == KeyCode::Left || pressed == KeyCode::Right ==> {
            &&& final(buttons)@ == marks_turned(old(buttons)@)
            &&& final(text)@ == old(text)@
            &&& final(game_settings).player_options.name@ == old(game_settings).player_options.name@
            &&& reaction == Reaction::marks_moved()
        },
        pressed == KeyCode::Space || pressed == KeyCode::Return ==> {
            &&& final(buttons)@ == old(buttons)@
            &&& final(text)@ == old(text)@
            &&& final(game_settings).player_options.name@ == if save_is_marked(old(buttons)@) {
                without_cursor(old(text)@)
            } else {
                old(game_settings).player_options.name@
            }
            &&& reaction == Reaction {
                menu_state: if old(buttons)@.len() > 0 {
                    Some(MenuState::SettingsMenu)
                } else {
                    None
                },
                save_settings: save_is_marked(old(buttons)@),
                ..Reaction::switch_sound()
            }
        },
        !is_button_key(pressed) ==> {
            &&& final(buttons)@ == old(buttons)@
            &&& final(text)@ == edited_text(old(text)@, pressed)
            &&& final(game_settings).player_options.name@ == old(game_settings).player_options.name@
            &&& reaction == if edit_is_heard(old(text)@, pressed) {
                Reaction::switch_sound()
            } else {
                Reaction::nothing()
            }
        },
{
    let mut reaction = Reaction::none();
    if pressed == KeyCode::Left || pressed == KeyCode::Right {
        let ghost before = buttons@;
        let mut index: usize = 0;
        while index < buttons.len()
            invariant
                index <= buttons.len(),
                buttons.len() == before.len(),
                forall|i: int| 0 <= i < index ==> buttons@[i] == marks_turned(before)[i],
                forall|i: int| index <= i < before.len() ==> buttons@[i] == before[i],
            decreases buttons.len() - index,
        {
            let button = buttons[index];
            buttons.set(index, SaveCancelButton { action: button.action, marked: !button.marked });
            index += 1;
        }
        assert(buttons@ =~= marks_turned(before));
        reaction = Reaction::with_marks_moved();
    } else if pressed == KeyCode::Space || pressed == KeyCode::Return {
        let mut save = false;
        let mut index: usize = 0;
        while index < buttons.len()
            invariant
                index <= buttons.len(),
                save == save_is_marked(buttons@.take(index as int)),
            decreases buttons.len() - index,
        {
            let button = buttons[index];
            proof {
                let wanted = SaveCancelButton { action: SaveCancelAction::Save, marked: true };
                let seen = buttons@.take(index as int);
                let next = buttons@.take(index + 1);
                assert(next =~= seen.push(button));
                if seen.contains(wanted) {
                    let at = choose|i: int| 0 <= i < seen.len() && seen[i] == wanted;
                    assert(next[at] == wanted);
                }
                if button == wanted {
                    assert(next[index as int] == wanted);
                }
            }
            if button.action == SaveCancelAction::Save && button.marked {
                save = true;
            }
            index += 1;
        }
        assert(buttons@.take(index as int) =~= buttons@);
        reaction = Reaction::with_switch_sound();
        if save {
            game_settings.player_options.name = remove_cursor(text.as_str());
            reaction.save_settings = true;
        }
        if buttons.len() > 0 {
            reaction.menu_state = Some(MenuState::SettingsMenu);
        }
    } else {
        let mut taken = String::new();
        std::mem::swap(text, &mut taken);
        let edited = get_new_text_value(taken, &pressed);
        *text = edited.0;
        if edited.1 {
            reaction = Reaction::with_switch_sound();
        }
    }
    reaction
}

} // verus!
