use vstd::prelude::*;

use crate::utils::{chars_of, string_from_chars};

verus! {

/// The state of a button: whether it holds the focus.
pub struct ButtonState {
    is_focused: bool,
}

impl ButtonState {
    pub closed spec fn spec_is_focused(&self) -> bool {
        self.is_focused
    }

    /// A button without the focus.
    pub fn new() -> (r: Self)
        ensures
            !r.spec_is_focused(),
    {
        ButtonState { is_focused: false }
    }

    pub fn set_focused(&mut self, is_focused: bool)
        ensures
            final(self).spec_is_focused() == is_focused,
    {
        self.is_focused = is_focused;
    }

    pub fn is_focused(&self) -> (r: bool)
        ensures
            r == self.spec_is_focused(),
    {
        self.is_focused
    }
}

/// Whether a text field reads keys as commands or as text.
#[derive(Clone, Copy, PartialEq, Eq, Structural, Debug)]
pub enum TextInputMode {
    Normal,
    Edit,
}

/// The state of a text field: its focus, its cursor, its mode and its text.
pub struct TextFieldState {
    is_focused: bool,
    char_index: u8,
    input_mode: TextInputMode,
    input_string: Vec<char>,
}

impl TextFieldState {
    pub closed spec fn spec_is_focused(&self) -> bool {
        self.is_focused
    }

    pub closed spec fn spec_char_index(&self) -> u8 {
        self.char_index
    }

    pub closed spec fn spec_input_mode(&self) -> TextInputMode {
        self.input_mode
    }

    /// The characters of the text.
    pub closed spec fn spec_text(&self) -> Seq<char> {
        self.input_string@
    }

    /// An empty field without the focus, in normal mode, with the cursor at the start.
    pub fn new() -> (r: Self)
        ensures
            !r.spec_is_focused(),
            r.spec_char_index() == 0,
            r.spec_input_mode() == TextInputMode::Normal,
            r.spec_text() == Seq::<char>::empty(),
    {
        TextFieldState {
            is_focused: false,
            char_index: 0,
            input_mode: TextInputMode::Normal,
            input_string: Vec::new(),
        }
    }

    /// A field holding `default_string`, without the focus, in normal mode,
    /// with the cursor at the start.
    pub fn from_str(default_string: &str) -> (r: Self)
        ensures
            !r.spec_is_focused(),
            r.spec_char_index() == 0,
            r.spec_input_mode() == TextInputMode::Normal,
            r.spec_text() == default_string@,
    {
        TextFieldState {
            is_focused: false,
            char_index: 0,
            input_mode: TextInputMode::Normal,
            input_string: chars_of(default_string),
        }
    }

    /// The text of the field.
    pub fn text_as_string(&self) -> (r: String)
        ensures
            r@ == self.spec_text(),
    {
        string_from_chars(&self.input_string)
    }

    pub fn set_focused(&mut self, focused: bool)
        ensures
            final(self).spec_is_focused() == focused,
            final(self).spec_char_index() == old(self).spec_char_index(),
            final(self).spec_input_mode() == old(self).spec_input_mode(),
            final(self).spec_text() == old(self).spec_text(),
    {
        self.is_focused = focused;
    }

    pub fn is_focused(&self) -> (r: bool)
        ensures
            r == self.spec_is_focused(),
    {
        self.is_focused
    }
}

} // verus!
