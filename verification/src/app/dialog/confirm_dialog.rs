use vstd::prelude::*;

use crate::app::input::{
    KeyCode, KeyEvent, KeyEventKind, is_cycle_backward_hover_key, is_cycle_forward_hover_key,
    spec_is_cycle_backward_hover_key, spec_is_cycle_forward_hover_key,
};
use crate::utils::{cycle_hover, spec_cycle_hover};

verus! {

/// The hovered button of a dialog.
pub struct ConfirmDialogState {
    pub is_focused: bool,
    pub hovered_index: Option<usize>,
}

/// A dialog that asks to confirm, with a Back and a Confirm button.
pub struct ConfirmDialog {
    pub state: ConfirmDialogState,
    pub message: String,
    /// An action waits for the confirmation and has not run yet.
    pub submit_pending: bool,
}

/// What the application does after a key in a dialog.
#[derive(Clone, Copy, PartialEq, Eq, Structural, Debug)]
pub enum DialogAction {
    Nothing,
    /// Close the dialog.
    Close,
    /// Run the action that waits for the confirmation, then close the dialog.
    Submit,
    /// Report that the action already ran.
    AlreadySubmitted,
}

/// The hover after a key among `max` buttons: moved by the hover keys only.
pub open spec fn button_hover_after(h: Option<usize>, key: KeyEvent, max: u16) -> Option<usize> {
    if spec_is_cycle_forward_hover_key(key) {
        spec_cycle_hover(h, 1i16, max)
    } else if spec_is_cycle_backward_hover_key(key) {
        spec_cycle_hover(h, -1i16, max)
    } else {
        h
    }
}

impl ConfirmDialog {
    /// A dialog showing `message`, without the focus or a hovered button, and
    /// with no action waiting.
    pub fn new(message: &str) -> (r: Self)
        ensures
            !r.state.is_focused,
            r.state.hovered_index is None,
            r.message@ == message@,
            !r.submit_pending,
    {
        broadcast use vstd::string::group_string_axioms;

        ConfirmDialog {
            state: ConfirmDialogState { is_focused: false, hovered_index: None },
            message: message.to_string(),
            submit_pending: false,
        }
    }

    /// The dialog with an action waiting for the confirmation.
    pub fn on_submit(self) -> (r: Self)
        ensures
            r.state == self.state,
            r.message == self.message,
            r.submit_pending,
    {
        ConfirmDialog { submit_pending: true, ..self }
    }

    /// Moves the hover between the two buttons.
    pub fn cycle_hover(&mut self, offset: i16)
        ensures
            final(self).state.hovered_index == spec_cycle_hover(old(self).state.hovered_index, offset, 2),
            final(self).state.is_focused == old(self).state.is_focused,
            final(self).submit_pending == old(self).submit_pending,
            final(self).message == old(self).message,
    {
        self.state.hovered_index = cycle_hover(self.state.hovered_index, offset, 2);
    }

    /// Acts on a key: Esc closes; the hover keys move the hover; Enter on
    /// Back closes, and on Confirm runs the waiting action once.
    pub fn handle(&mut self, key: &KeyEvent) -> (r: DialogAction)
        ensures
            ({
                let h = if key.is_press() && key.code != KeyCode::Esc {
                    button_hover_after(old(self).state.hovered_index, *key, 2)
                } else {
                    old(self).state.hovered_index
                };
                let submits = key.is_press() && key.code == KeyCode::Enter && h == Some(1usize);
                &&& final(self).state.hovered_index == h
                &&& final(self).state.is_focused == old(self).state.is_focused
                &&& final(self).message == old(self).message
                &&& final(self).submit_pending == (old(self).submit_pending && !submits)
                &&& r == if !key.is_press() {
                    DialogAction::Nothing
                } else if key.code == KeyCode::Esc {
                    DialogAction::Close
                } else if key.code == KeyCode::Enter && h == Some(0usize) {
                    DialogAction::Close
                } else if submits {
                    if old(self).submit_pending {
                        DialogAction::Submit
                    } else {
                        DialogAction::AlreadySubmitted
                    }
                } else {
                    DialogAction::Nothing
                }
            }),
    {
        if key.kind != KeyEventKind::Press {
            return DialogAction::Nothing;
        }
        if key.code == KeyCode::Esc {
            return DialogAction::Close;
        }
        if is_cycle_forward_hover_key(key) {
            self.cycle_hover(1);
        } else if is_cycle_backward_hover_key(key) {
            self.cycle_hover(-1);
        }
        if key.code == KeyCode::Enter {
            if let Some(index) = self.state.hovered_index {
                if index == 0 {
                    return DialogAction::Close;
                } else if index == 1 {
                    if self.submit_pending {
                        self.submit_pending = false;
                        return DialogAction::Submit;
                    } else {
                        return DialogAction::AlreadySubmitted;
                    }
                }
            }
        }
        DialogAction::Nothing
    }
}

} // verus!
