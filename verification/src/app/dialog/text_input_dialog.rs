use vstd::prelude::*;

use vstd::string::StringSliceAdditionalSpecFns;

use crate::app::dialog::confirm_dialog::{DialogAction, button_hover_after};
use crate::utils::{chars_of, cycle_hover, spec_cycle_hover};
use crate::app::input::{
    KeyCode, KeyEvent, KeyEventKind, is_cycle_backward_hover_key, is_cycle_forward_hover_key,
};
use crate::app::widget::text_field::{
    TextEdit, TextField, TextFieldState, apply_text_edit, edit_allowed, field_outcome, text_edit_of,
};
use crate::services::answers;

verus! {

/// What a text dialog accepts.
#[derive(Clone, Copy, PartialEq, Eq, Structural, Debug)]
pub enum TextCheck {
    /// Any text.
    Any,
    /// Any text but the empty one.
    NonEmpty,
    /// Any text that does not end in `/`, which would name a directory.
    NotEndingInSlash,
}

/// Whether `check` accepts `text`.
pub open spec fn spec_text_accepted(check: TextCheck, text: Seq<char>) -> bool {
    match check {
        TextCheck::Any => true,
        TextCheck::NonEmpty => text.len() > 0,
        TextCheck::NotEndingInSlash => !(text.len() > 0 && text.last() == '/'),
    }
}

/// Whether `check` accepts `text`.
pub fn text_accepted(check: TextCheck, text: &str) -> (r: bool)
    ensures
        r == spec_text_accepted(check, text@),
{
    let chars = chars_of(text);
    match check {
        TextCheck::Any => true,
        TextCheck::NonEmpty => chars.len() > 0,
        TextCheck::NotEndingInSlash => !(chars.len() > 0 && chars[chars.len() - 1] == '/'),
    }
}

/// The state of a dialog that asks for a text: its hovered part (the field,
/// Back, Confirm) and the text given so far.
pub struct TextInputDialogState {
    pub is_focused: bool,
    pub hovered_index: Option<usize>,
    pub text_input: String,
}

/// A dialog with a text field, a Back and a Confirm button.
pub struct TextInputDialog {
    pub state: TextInputDialogState,
    pub field: TextField,
    /// An action waits for the confirmation and has not run yet.
    pub submit_pending: bool,
}

impl TextInputDialog {
    /// A dialog whose field is titled `field_title` and holds `default`,
    /// with `default` as the text given, nothing hovered and no action waiting.
    pub fn new(field_title: &str, default: &str) -> (r: Self)
        ensures
            !r.state.is_focused,
            r.state.hovered_index is None,
            r.state.text_input@ == default@,
            r.field.state.label@ == field_title@,
            r.field.state.chars@ == default@,
            r.field.state.cursor_index == default.spec_bytes().len() as usize,
            !r.field.state.is_focused,
            r.field.state.is_valid,
            !r.submit_pending,
    {
        broadcast use vstd::string::group_string_axioms;

        TextInputDialog {
            state: TextInputDialogState { is_focused: false, hovered_index: None, text_input: default.to_string() },
            field: TextField::new(field_title, default),
            submit_pending: false,
        }
    }

    /// The dialog with an action waiting for the confirmation.
    pub fn on_submit(self) -> (r: Self)
        ensures
            r.state == self.state,
            r.field == self.field,
            r.submit_pending,
    {
        TextInputDialog { submit_pending: true, ..self }
    }

    /// The text in the field is valid.
    pub fn is_valid_input(&self) -> (r: bool)
        ensures
            r == self.field.state.is_valid,
    {
        self.field.state.is_valid
    }

    /// Moves the hover among the field and the two buttons.
    pub fn cycle_hover(&mut self, offset: i16)
        ensures
            final(self).state.hovered_index == spec_cycle_hover(
                old(self).state.hovered_index,
                offset,
                3,
            ),
            final(self).state.is_focused == old(self).state.is_focused,
            final(self).state.text_input == old(self).state.text_input,
            final(self).field == old(self).field,
            final(self).submit_pending == old(self).submit_pending,
    {
        self.state.hovered_index = cycle_hover(self.state.hovered_index, offset, 3);
    }

    /// Acts on a key. While the field has the focus the key goes to it, and
    /// when it leaves the field its text becomes the text given. Otherwise
    /// the hover keys move the hover; Esc closes; Enter on the field focuses
    /// it, on Back closes, and on Confirm runs the waiting action once when
    /// the text is valid.
    pub fn handle<F: Fn(&str) -> bool>(&mut self, key: &KeyEvent, validate: &F) -> (r: DialogAction)
        requires
            forall|s: &str| call_requires(*validate, (s,)),
            old(self).field.state.is_focused && key.is_press() ==> match text_edit_of(*key) {
                Some(e) => edit_allowed(old(self).field.state.chars@, old(self).field.state.cursor_index, e),
                None => true,
            },
        ensures
            !old(self).field.state.is_focused ==> {
                let h = button_hover_after(old(self).state.hovered_index, *key, 3);
                let submits = key.is_press() && key.code == KeyCode::Enter && h == Some(2usize)
                    && old(self).field.state.is_valid;
                &&& final(self).state.hovered_index == h
                &&& final(self).state.text_input == old(self).state.text_input
                &&& final(self).field.state == (TextFieldState {
                    is_focused: key.is_press() && key.code == KeyCode::Enter && h == Some(0usize),
                    ..old(self).field.state
                })
                &&& final(self).submit_pending == (old(self).submit_pending && !submits)
                &&& r == if !key.is_press() {
                    DialogAction::Nothing
                } else if key.code == KeyCode::Esc {
                    DialogAction::Close
                } else if key.code == KeyCode::Enter && h == Some(1usize) {
                    DialogAction::Close
                } else if submits {
                    if old(self).submit_pending {
                        DialogAction::Submit
                    } else {
                        DialogAction::AlreadySubmitted
                    }
                } else {
                    DialogAction::Nothing
                }
            },
            old(self).field.state.is_focused ==> {
                let (f, t, k, x) = field_outcome(
                    true,
                    old(self).field.state.chars@,
                    old(self).field.state.cursor_index,
                    *key,
                    |c: Seq<char>, i: usize, e: TextEdit| apply_text_edit(c, i, e),
                );
                &&& final(self).field.state.is_focused == f
                &&& final(self).field.state.chars@ == t
                &&& final(self).field.state.cursor_index == k
                &&& final(self).field.state.label == old(self).field.state.label
                &&& x ==> final(self).state.text_input@ == t
                &&& !x ==> final(self).state.text_input == old(self).state.text_input
                &&& final(self).state.hovered_index == old(self).state.hovered_index
                &&& final(self).submit_pending == old(self).submit_pending
                &&& key.is_press() && key.code != KeyCode::Esc ==> answers(
                    *validate,
                    final(self).field.state.chars@,
                    final(self).field.state.is_valid,
                )
                &&& r == DialogAction::Nothing
            },
    {
        if !self.field.state.is_focused {
            if is_cycle_forward_hover_key(key) {
                self.cycle_hover(1);
            } else if is_cycle_backward_hover_key(key) {
                self.cycle_hover(-1);
            }
            if key.kind != KeyEventKind::Press {
                return DialogAction::Nothing;
            }
            if key.code == KeyCode::Esc {
                return DialogAction::Close;
            }
            if key.code == KeyCode::Enter {
                if let Some(index) = self.state.hovered_index {
                    if index == 0 {
                        self.field.state.is_focused = true;
                        return DialogAction::Nothing;
                    } else if index == 1 {
                        return DialogAction::Close;
                    } else if index == 2 {
                        if !self.is_valid_input() {
                            return DialogAction::Nothing;
                        }
                        if self.submit_pending {
                            self.submit_pending = false;
                            return DialogAction::Submit;
                        } else {
                            return DialogAction::AlreadySubmitted;
                        }
                    }
                }
            }
            DialogAction::Nothing
        } else {
            let exit = self.field.handle(key, validate);
            if exit {
                self.state.text_input = self.field.text();
            }
            DialogAction::Nothing
        }
    }
}

} // verus!
