use vstd::prelude::*;

use vstd::string::StringSliceAdditionalSpecFns;

use crate::app::input::{KeyCode, KeyEvent, KeyEventKind};
use crate::services::answers;
use crate::utils::{chars_of, string_from_chars};

verus! {

/// The state of a one-line text field.
pub struct TextFieldState {
    pub is_focused: bool,
    pub label: String,
    pub chars: Vec<char>,
    pub cursor_index: usize,
    pub is_valid: bool,
}

/// A key that edits a text field.
#[derive(Clone, Copy, PartialEq, Eq, Structural, Debug)]
pub enum TextEdit {
    /// Types the character at the cursor and moves past it.
    Insert(char),
    /// Moves the cursor one character back.
    Left,
    /// Moves the cursor one character forward.
    Right,
    /// Deletes the character before the cursor.
    Backspace,
}

/// The cursor one character forward, but not past the end of a text of `len` characters.
pub open spec fn next_cursor(cursor: usize, len: nat) -> usize {
    if cursor + 1 >= len {
        len as usize
    } else {
        (cursor + 1) as usize
    }
}

/// The cursor one character back, but not before the start.
pub open spec fn previous_cursor(cursor: usize) -> usize {
    if cursor == 0 {
        0
    } else {
        (cursor - 1) as usize
    }
}

/// The text without the character at `cursor`, when there is one.
pub open spec fn delete_at(chars: Seq<char>, cursor: usize) -> Seq<char> {
    if cursor >= chars.len() {
        chars
    } else {
        chars.remove(cursor as int)
    }
}

/// The text and cursor after one editing key.
pub open spec fn apply_text_edit(chars: Seq<char>, cursor: usize, edit: TextEdit) -> (Seq<char>, usize) {
    match edit {
        TextEdit::Insert(c) => {
            let t = chars.insert(cursor as int, c);
            (t, next_cursor(cursor, t.len()))
        },
        TextEdit::Left => (chars, previous_cursor(cursor)),
        TextEdit::Right => (chars, next_cursor(cursor, chars.len())),
        TextEdit::Backspace => {
            let c = previous_cursor(cursor);
            (delete_at(chars, c), c)
        },
    }
}

/// An editing key can be applied: typing needs the cursor within the text.
pub open spec fn edit_allowed(chars: Seq<char>, cursor: usize, edit: TextEdit) -> bool {
    edit is Insert ==> cursor <= chars.len() && chars.len() < usize::MAX
}

/// Typing a character and then deleting backwards gives back the text and the cursor.
pub proof fn law_insert_then_backspace(chars: Seq<char>, cursor: usize, c: char)
    requires
        cursor <= chars.len(),
        chars.len() < usize::MAX,
    ensures
        ({
            let (t, k) = apply_text_edit(chars, cursor, TextEdit::Insert(c));
            apply_text_edit(t, k, TextEdit::Backspace) == (chars, cursor)
        }),
{
    let t = chars.insert(cursor as int, c);
    assert(t.remove(cursor as int) =~= chars);
}

/// The editing key that a key stands for in a text field, if any.
pub open spec fn text_edit_of(key: KeyEvent) -> Option<TextEdit> {
    match key.code {
        KeyCode::Char(c) => Some(TextEdit::Insert(c)),
        KeyCode::Left => Some(TextEdit::Left),
        KeyCode::Right => Some(TextEdit::Right),
        KeyCode::Backspace => Some(TextEdit::Backspace),
        _ => None,
    }
}

/// The editing key of a key event, if any.
pub fn key_to_text_edit(key: &KeyEvent) -> (r: Option<TextEdit>)
    ensures
        r == text_edit_of(*key),
{
    match key.code {
        KeyCode::Char(c) => Some(TextEdit::Insert(c)),
        KeyCode::Left => Some(TextEdit::Left),
        KeyCode::Right => Some(TextEdit::Right),
        KeyCode::Backspace => Some(TextEdit::Backspace),
        _ => None,
    }
}

/// What a key does to the focus, text and cursor of a field, and whether it
/// asks to leave the field: the first key only takes the focus; then a press
/// of Esc gives it up and leaves, and the editing keys edit.
pub open spec fn field_outcome(
    focused: bool,
    chars: Seq<char>,
    cursor: usize,
    key: KeyEvent,
    edit: spec_fn(Seq<char>, usize, TextEdit) -> (Seq<char>, usize),
) -> (bool, Seq<char>, usize, bool) {
    if !focused {
        (true, chars, cursor, false)
    } else if !key.is_press() {
        (true, chars, cursor, false)
    } else if key.code == KeyCode::Esc {
        (false, chars, cursor, true)
    } else {
        match text_edit_of(key) {
            Some(e) => {
                let (t, k) = edit(chars, cursor, e);
                (true, t, k, false)
            },
            None => (true, chars, cursor, false),
        }
    }
}

/// A one-line text field.
pub struct TextField {
    pub state: TextFieldState,
}

impl TextField {
    /// A valid field without the focus, holding `default`, with the cursor
    /// at the byte length of `default`.
    pub fn new(label: &str, default: &str) -> (r: Self)
        ensures
            !r.state.is_focused,
            r.state.label@ == label@,
            r.state.chars@ == default@,
            r.state.cursor_index == default.spec_bytes().len() as usize,
            r.state.is_valid,
    {
        broadcast use vstd::string::group_string_axioms;

        TextField {
            state: TextFieldState {
                is_focused: false,
                label: label.to_string(),
                chars: chars_of(default),
                cursor_index: default.len(),
                is_valid: true,
            },
        }
    }

    /// Replaces the text by `content` and puts the cursor at its end.
    pub fn replace(&mut self, content: String)
        ensures
            final(self).state.chars@ == content@,
            final(self).state.cursor_index == content@.len(),
            final(self).state.is_focused == old(self).state.is_focused,
            final(self).state.label == old(self).state.label,
            final(self).state.is_valid == old(self).state.is_valid,
    {
        self.state.chars = chars_of(content.as_str());
        self.state.cursor_index = self.state.chars.len();
    }

    pub fn move_to_next_char(&mut self)
        ensures
            final(self).state.cursor_index == next_cursor(old(self).state.cursor_index, old(self).state.chars@.len()),
            final(self).state.chars == old(self).state.chars,
            final(self).state.is_focused == old(self).state.is_focused,
            final(self).state.label == old(self).state.label,
            final(self).state.is_valid == old(self).state.is_valid,
    {
        self.state.cursor_index = self.state.cursor_index.saturating_add(1);
        if self.state.cursor_index >= self.state.chars.len() {
            self.state.cursor_index = self.state.chars.len();
        }
    }

    pub fn move_to_previous_char(&mut self)
        ensures
            final(self).state.cursor_index == previous_cursor(old(self).state.cursor_index),
            final(self).state.chars == old(self).state.chars,
            final(self).state.is_focused == old(self).state.is_focused,
            final(self).state.label == old(self).state.label,
            final(self).state.is_valid == old(self).state.is_valid,
    {
        self.state.cursor_index = self.state.cursor_index.saturating_sub(1);
    }

    /// Inserts `char` at the cursor; the cursor stays.
    pub fn insert_char(&mut self, char: char)
        requires
            old(self).state.cursor_index <= old(self).state.chars@.len(),
        ensures
            final(self).state.chars@ == old(self).state.chars@.insert(old(self).state.cursor_index as int, char),
            final(self).state.cursor_index == old(self).state.cursor_index,
            final(self).state.is_focused == old(self).state.is_focused,
            final(self).state.label == old(self).state.label,
            final(self).state.is_valid == old(self).state.is_valid,
    {
        self.state.chars.insert(self.state.cursor_index, char);
    }

    /// Deletes the character at the cursor, when there is one.
    pub fn delete_char(&mut self)
        ensures
            final(self).state.chars@ == delete_at(old(self).state.chars@, old(self).state.cursor_index),
            final(self).state.cursor_index == old(self).state.cursor_index,
            final(self).state.is_focused == old(self).state.is_focused,
            final(self).state.label == old(self).state.label,
            final(self).state.is_valid == old(self).state.is_valid,
    {
        if self.state.cursor_index >= self.state.chars.len() {
            return;
        }
        self.state.chars.remove(self.state.cursor_index);
    }

    /// Applies one editing key.
    pub fn apply_edit(&mut self, edit: TextEdit)
        requires
            edit_allowed(old(self).state.chars@, old(self).state.cursor_index, edit),
        ensures
            (final(self).state.chars@, final(self).state.cursor_index) == apply_text_edit(
                old(self).state.chars@,
                old(self).state.cursor_index,
                edit,
            ),
            final(self).state.is_focused == old(self).state.is_focused,
            final(self).state.label == old(self).state.label,
            final(self).state.is_valid == old(self).state.is_valid,
    {
        match edit {
            TextEdit::Insert(c) => {
                self.insert_char(c);
                self.move_to_next_char();
            },
            TextEdit::Left => self.move_to_previous_char(),
            TextEdit::Right => self.move_to_next_char(),
            TextEdit::Backspace => {
                self.move_to_previous_char();
                self.delete_char();
            },
        }
    }

    /// The text of the field.
    pub fn text(&self) -> (r: String)
        ensures
            r@ == self.state.chars@,
    {
        string_from_chars(&self.state.chars)
    }

    /// Acts on a key: the first key takes the focus; then a press of Esc
    /// gives it up and says to leave, and an editing key edits the text,
    /// after which `validate` decides whether the text is valid.
    pub fn handle<F: Fn(&str) -> bool>(&mut self, key: &KeyEvent, validate: &F) -> (exit: bool)
        requires
            forall|s: &str| call_requires(*validate, (s,)),
            old(self).state.is_focused && key.is_press() ==> match text_edit_of(*key) {
                Some(e) => edit_allowed(old(self).state.chars@, old(self).state.cursor_index, e),
                None => true,
            },
        ensures
            ({
                let (f, t, k, x) = field_outcome(
                    old(self).state.is_focused,
                    old(self).state.chars@,
                    old(self).state.cursor_index,
                    *key,
                    |c: Seq<char>, i: usize, e: TextEdit| apply_text_edit(c, i, e),
                );
                &&& final(self).state.is_focused == f
                &&& final(self).state.chars@ == t
                &&& final(self).state.cursor_index == k
                &&& exit == x
            }),
            final(self).state.label == old(self).state.label,
            old(self).state.is_focused && key.is_press() && key.code != KeyCode::Esc ==> answers(
                *validate,
                final(self).state.chars@,
                final(self).state.is_valid,
            ),
            !(old(self).state.is_focused && key.is_press() && key.code != KeyCode::Esc)
                ==> final(self).state.is_valid == old(self).state.is_valid,
    {
        if !self.state.is_focused {
            self.state.is_focused = true;
            return false;
        }
        if key.kind != KeyEventKind::Press {
            return false;
        }
        if key.code == KeyCode::Esc {
            self.state.is_focused = false;
            return true;
        }
        match key_to_text_edit(key) {
            Some(e) => self.apply_edit(e),
            None => {},
        }
        let text = string_from_chars(&self.state.chars);
        let valid = validate(text.as_str());
        self.state.is_valid = valid;
        false
    }

}

} // verus!
