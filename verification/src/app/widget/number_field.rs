use vstd::prelude::*;

use crate::app::input::{KeyCode, KeyEvent, KeyEventKind};
use crate::app::widget::text_field::{
    TextEdit, apply_text_edit, delete_at, edit_allowed, field_outcome, key_to_text_edit,
    next_cursor, previous_cursor, text_edit_of,
};
use crate::services::answers;
use crate::utils::{chars_of, i16_to_chars, is_numeric, signed_decimal, spec_is_numeric, string_from_chars};

verus! {

/// The state of a field that holds a number.
pub struct NumberFieldState {
    pub is_focused: bool,
    pub label: String,
    pub chars: Vec<char>,
    pub cursor_index: usize,
    pub is_valid: bool,
}

/// The text and cursor of a number field after one editing key: typing
/// accepts numeric characters only.
pub open spec fn apply_number_edit(chars: Seq<char>, cursor: usize, edit: TextEdit) -> (Seq<char>, usize) {
    match edit {
        TextEdit::Insert(c) => if spec_is_numeric(c) {
            apply_text_edit(chars, cursor, edit)
        } else {
            (chars, cursor)
        },
        _ => apply_text_edit(chars, cursor, edit),
    }
}

/// An editing key can be applied to a number field: typing a numeric
/// character needs the cursor within the text.
pub open spec fn number_edit_allowed(chars: Seq<char>, cursor: usize, edit: TextEdit) -> bool {
    match edit {
        TextEdit::Insert(c) => spec_is_numeric(c) ==> edit_allowed(chars, cursor, edit),
        _ => true,
    }
}

/// A field that holds a number.
pub struct NumberField {
    pub state: NumberFieldState,
}

impl NumberField {
    /// A valid field without the focus, holding the decimal form of `default`,
    /// with the cursor at its end.
    pub fn new(label: &str, default: i16) -> (r: Self)
        ensures
            !r.state.is_focused,
            r.state.label@ == label@,
            r.state.chars@ == signed_decimal(default as int),
            r.state.cursor_index == r.state.chars@.len(),
            r.state.is_valid,
    {
        broadcast use vstd::string::group_string_axioms;

        let chars = i16_to_chars(default);
        let cursor_index = chars.len();
        NumberField {
            state: NumberFieldState {
                is_focused: false,
                label: label.to_string(),
                chars,
                cursor_index,
                is_valid: true,
            },
        }
    }

    /// Replaces the text by the decimal form of `content` and puts the cursor at its end.
    pub fn replace(&mut self, content: i16)
        ensures
            final(self).state.chars@ == signed_decimal(content as int),
            final(self).state.cursor_index == final(self).state.chars@.len(),
            final(self).state.is_focused == old(self).state.is_focused,
            final(self).state.label == old(self).state.label,
            final(self).state.is_valid == old(self).state.is_valid,
    {
        self.state.chars = i16_to_chars(content);
        self.state.cursor_index = self.state.chars.len();
    }

    pub fn move_to_next_char(&mut self)
        ensures
            final(self).state.cursor_index == next_cursor(old(self).state.cursor_index, old(self).state.chars@.len()),
            final(self).state.chars == old(self).state.chars,
            final(self).state.is_focused == old(self).state.is_focused,
            final(self).state.label == old(self).state.label,
            final(self).state.is_valid == old(self).state.is_valid,
    {
        self.state.cursor_index = self.state.cursor_index.saturating_add(1);
        if self.state.cursor_index >= self.state.chars.len() {
            self.state.cursor_index = self.state.chars.len();
        }
    }

    pub fn move_to_previous_char(&mut self)
        ensures
            final(self).state.cursor_index == previous_cursor(old(self).state.cursor_index),
            final(self).state.chars == old(self).state.chars,
            final(self).state.is_focused == old(self).state.is_focused,
            final(self).state.label == old(self).state.label,
            final(self).state.is_valid == old(self).state.is_valid,
    {
        self.state.cursor_index = self.state.cursor_index.saturating_sub(1);
    }

    /// Inserts `char` at the cursor; the cursor stays.
    pub fn insert_char(&mut self, char: char)
        requires
            old(self).state.cursor_index <= old(self).state.chars@.len(),
        ensures
            final(self).state.chars@ == old(self).state.chars@.insert(old(self).state.cursor_index as int, char),
            final(self).state.cursor_index == old(self).state.cursor_index,
            final(self).state.is_focused == old(self).state.is_focused,
            final(self).state.label == old(self).state.label,
            final(self).state.is_valid == old(self).state.is_valid,
    {
        self.state.chars.insert(self.state.cursor_index, char);
    }

    /// Deletes the character at the cursor, when there is one.
    pub fn delete_char(&mut self)
        ensures
            final(self).state.chars@ == delete_at(old(self).state.chars@, old(self).state.cursor_index),
            final(self).state.cursor_index == old(self).state.cursor_index,
            final(self).state.is_focused == old(self).state.is_focused,
            final(self).state.label == old(self).state.label,
            final(self).state.is_valid == old(self).state.is_valid,
    {
        if self.state.cursor_index >= self.state.chars.len() {
            return;
        }
        self.state.chars.remove(self.state.cursor_index);
    }

    /// Applies one editing key; typed characters that are not numeric are ignored.
    pub fn apply_edit(&mut self, edit: TextEdit)
        requires
            number_edit_allowed(old(self).state.chars@, old(self).state.cursor_index, edit),
        ensures
            (final(self).state.chars@, final(self).state.cursor_index) == apply_number_edit(
                old(self).state.chars@,
                old(self).state.cursor_index,
                edit,
            ),
            final(self).state.is_focused == old(self).state.is_focused,
            final(self).state.label == old(self).state.label,
            final(self).state.is_valid == old(self).state.is_valid,
    {
        match edit {
            TextEdit::Insert(c) => {
                if is_numeric(c) {
                    self.insert_char(c);
                    self.move_to_next_char();
                }
            },
            TextEdit::Left => self.move_to_previous_char(),
            TextEdit::Right => self.move_to_next_char(),
            TextEdit::Backspace => {
                self.move_to_previous_char();
                self.delete_char();
            },
        }
    }

    /// The text of the field.
    pub fn text(&self) -> (r: String)
        ensures
            r@ == self.state.chars@,
    {
        string_from_chars(&self.state.chars)
    }

    /// Acts on a key as a text field does, typing numeric characters only;
    /// after an edit `validate` decides whether the text is valid.
    pub fn handle<F: Fn(&str) -> bool>(&mut self, key: &KeyEvent, validate: &F) -> (exit: bool)
        requires
            forall|s: &str| call_requires(*validate, (s,)),
            old(self).state.is_focused && key.is_press() ==> match text_edit_of(*key) {
                Some(e) => number_edit_allowed(old(self).state.chars@, old(self).state.cursor_index, e),
                None => true,
            },
        ensures
            ({
                let (f, t, k, x) = field_outcome(
                    old(self).state.is_focused,
                    old(self).state.chars@,
                    old(self).state.cursor_index,
                    *key,
                    |c: Seq<char>, i: usize, e: TextEdit| apply_number_edit(c, i, e),
                );
                &&& final(self).state.is_focused == f
                &&& final(self).state.chars@ == t
                &&& final(self).state.cursor_index == k
                &&& exit == x
            }),
            final(self).state.label == old(self).state.label,
            old(self).state.is_focused && key.is_press() && key.code != KeyCode::Esc ==> answers(
                *validate,
                final(self).state.chars@,
                final(self).state.is_valid,
            ),
            !(old(self).state.is_focused && key.is_press() && key.code != KeyCode::Esc)
                ==> final(self).state.is_valid == old(self).state.is_valid,
    {
        if !self.state.is_focused {
            self.state.is_focused = true;
            return false;
        }
        if key.kind != KeyEventKind::Press {
            return false;
        }
        if key.code == KeyCode::Esc {
            self.state.is_focused = false;
            return true;
        }
        match key_to_text_edit(key) {
            Some(e) => self.apply_edit(e),
            None => {},
        }
        let text = string_from_chars(&self.state.chars);
        let valid = validate(text.as_str());
        self.state.is_valid = valid;
        false
    }

}

} // verus!
