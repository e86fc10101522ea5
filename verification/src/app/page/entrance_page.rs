use vstd::prelude::*;

use std::path::PathBuf;

use crate::app::dialog::confirm_dialog::button_hover_after;
use crate::utils::{cycle_hover, spec_cycle_hover};
use crate::app::input::{KeyCode, KeyEvent, KeyEventKind, is_cycle_backward_hover_key, is_cycle_forward_hover_key};
use crate::utils::string_from_chars;

verus! {

/// The first page: its three buttons (Create, Open, Quit) and the hovered one.
pub struct EntrancePageState {
    pub is_focused: bool,
    pub is_hovered: bool,
    pub hovered_index: Option<usize>,
}

/// What the application does after a key on the first page.
#[derive(Clone, Copy, PartialEq, Eq, Structural, Debug)]
pub enum EntranceAction {
    Nothing,
    /// Show the page that creates a glyph.
    OpenCreatePage,
    /// Show the page that opens a glyph.
    OpenOpenPage,
    /// Ask whether to quit.
    ConfirmQuit,
}

impl EntrancePageState {
    /// The first page, with the focus and nothing hovered.
    pub fn new() -> (r: Self)
        ensures
            r == (EntrancePageState { is_focused: true, is_hovered: false, hovered_index: None }),
    {
        EntrancePageState { is_focused: true, is_hovered: false, hovered_index: None }
    }

    /// Moves the hover among the three buttons.
    pub fn cycle_hover(&mut self, offset: i16)
        ensures
            *final(self) == (EntrancePageState {
                hovered_index: spec_cycle_hover(old(self).hovered_index, offset, 3),
                ..*old(self)
            }),
    {
        self.hovered_index = cycle_hover(self.hovered_index, offset, 3);
    }

    /// Acts on a key: the hover keys move the hover; Esc asks whether to
    /// quit; Enter presses the hovered button.
    pub fn handle(&mut self, key: &KeyEvent) -> (r: EntranceAction)
        ensures
            ({
                let h = if key.is_press() {
                    button_hover_after(old(self).hovered_index, *key, 3)
                } else {
                    old(self).hovered_index
                };
                &&& *final(self) == (EntrancePageState { hovered_index: h, ..*old(self) })
                &&& r == if !key.is_press() {
                    EntranceAction::Nothing
                } else if key.code == KeyCode::Esc {
                    EntranceAction::ConfirmQuit
                } else if key.code == KeyCode::Enter && h == Some(0usize) {
                    EntranceAction::OpenCreatePage
                } else if key.code == KeyCode::Enter && h == Some(1usize) {
                    EntranceAction::OpenOpenPage
                } else if key.code == KeyCode::Enter && h == Some(2usize) {
                    EntranceAction::ConfirmQuit
                } else {
                    EntranceAction::Nothing
                }
            }),
    {
        if key.kind != KeyEventKind::Press {
            return EntranceAction::Nothing;
        }
        if is_cycle_forward_hover_key(key) {
            self.cycle_hover(1);
        } else if is_cycle_backward_hover_key(key) {
            self.cycle_hover(-1);
        }
        if key.code == KeyCode::Esc {
            return EntranceAction::ConfirmQuit;
        }
        if key.code == KeyCode::Enter {
            if let Some(index) = self.hovered_index {
                if index == 0 {
                    return EntranceAction::OpenCreatePage;
                } else if index == 1 {
                    return EntranceAction::OpenOpenPage;
                } else if index == 2 {
                    return EntranceAction::ConfirmQuit;
                }
            }
        }
        EntranceAction::Nothing
    }
}

/// A page with a list of directories and two buttons, Back and the page's
/// own: the hovered part and the path chosen in the list.
pub struct GlyphOpenPageState {
    pub is_focused: bool,
    pub is_hovered: bool,
    pub hovered_index: Option<usize>,
    pub path_to_open: PathBuf,
}

/// The same for the page that creates a glyph.
pub struct CreateGlyphPageState {
    pub is_focused: bool,
    pub is_hovered: bool,
    pub hovered_index: Option<usize>,
    pub path_to_create: PathBuf,
}

/// What the application does after a key on a page with a list of
/// directories and two buttons.
#[derive(Clone, Copy, PartialEq, Eq, Structural, Debug)]
pub enum PathPageAction {
    Nothing,
    /// Leave the page.
    PopPage,
    /// Give the focus to the list of directories.
    FocusDirectoryList,
    /// Press the page's own button (Open, or Create).
    Proceed,
}

/// The hovered part and the action after a key on such a page.
pub open spec fn path_page_step(h0: Option<usize>, key: KeyEvent) -> (Option<usize>, PathPageAction) {
    if !key.is_press() {
        (h0, PathPageAction::Nothing)
    } else {
        let h = button_hover_after(h0, key, 3);
        (
            h,
            if key.code == KeyCode::Esc {
                PathPageAction::PopPage
            } else if key.code == KeyCode::Enter && h == Some(0usize) {
                PathPageAction::FocusDirectoryList
            } else if key.code == KeyCode::Enter && h == Some(1usize) {
                PathPageAction::PopPage
            } else if key.code == KeyCode::Enter && h == Some(2usize) {
                PathPageAction::Proceed
            } else {
                PathPageAction::Nothing
            },
        )
    }
}

/// The hovered part and the action after a key on such a page.
pub fn path_page_key(h0: Option<usize>, key: &KeyEvent) -> (r: (Option<usize>, PathPageAction))
    ensures
        r == path_page_step(h0, *key),
{
    if key.kind != KeyEventKind::Press {
        return (h0, PathPageAction::Nothing);
    }
    let mut h = h0;
    if is_cycle_forward_hover_key(key) {
        h = cycle_hover(h, 1, 3);
    } else if is_cycle_backward_hover_key(key) {
        h = cycle_hover(h, -1, 3);
    }
    if key.code == KeyCode::Esc {
        return (h, PathPageAction::PopPage);
    }
    if key.code == KeyCode::Enter {
        if let Some(index) = h {
            if index == 0 {
                return (h, PathPageAction::FocusDirectoryList);
            } else if index == 1 {
                return (h, PathPageAction::PopPage);
            } else if index == 2 {
                return (h, PathPageAction::Proceed);
            }
        }
    }
    (h, PathPageAction::Nothing)
}

impl GlyphOpenPageState {
    /// The page with the focus, nothing hovered, opening from `current_path`.
    pub fn new(current_path: PathBuf) -> (r: Self)
        ensures
            r == (GlyphOpenPageState {
                is_focused: true,
                is_hovered: false,
                hovered_index: None,
                path_to_open: current_path,
            }),
    {
        GlyphOpenPageState { is_focused: true, is_hovered: false, hovered_index: None, path_to_open: current_path }
    }

    /// Acts on a key when the list of directories does not have the focus:
    /// the hover keys move the hover; Esc and Back leave; Open asks to open
    /// the glyph at the chosen path.
    pub fn handle(&mut self, key: &KeyEvent) -> (r: PathPageAction)
        ensures
            (final(self).hovered_index, r) == path_page_step(old(self).hovered_index, *key),
            final(self).path_to_open == old(self).path_to_open,
            final(self).is_focused == old(self).is_focused,
    {
        let (h, a) = path_page_key(self.hovered_index, key);
        self.hovered_index = h;
        a
    }
}

impl CreateGlyphPageState {
    /// The page with the focus, nothing hovered, creating in `current_path`.
    pub fn new(current_path: PathBuf) -> (r: Self)
        ensures
            r == (CreateGlyphPageState {
                is_focused: true,
                is_hovered: false,
                hovered_index: None,
                path_to_create: current_path,
            }),
    {
        CreateGlyphPageState { is_focused: true, is_hovered: false, hovered_index: None, path_to_create: current_path }
    }

    /// Acts on a key when the list of directories does not have the focus:
    /// the hover keys move the hover; Esc and Back leave; Create asks for the
    /// name of the glyph to create in the chosen directory.
    pub fn handle(&mut self, key: &KeyEvent) -> (r: PathPageAction)
        ensures
            (final(self).hovered_index, r) == path_page_step(old(self).hovered_index, *key),
            final(self).path_to_create == old(self).path_to_create,
            final(self).is_focused == old(self).is_focused,
    {
        let (h, a) = path_page_key(self.hovered_index, key);
        self.hovered_index = h;
        a
    }
}

/// The name of the database file of a glyph: its name with `.glyph` appended.
pub open spec fn glyph_file_name_spec(name: Seq<char>) -> Seq<char> {
    name + seq!['.', 'g', 'l', 'y', 'p', 'h']
}

/// The name of the database file of the glyph named `name`.
pub fn glyph_file_name(name: &str) -> (r: String)
    ensures
        r@ == glyph_file_name_spec(name@),
{
    let mut chars = crate::utils::chars_of(name);
    chars.push('.');
    chars.push('g');
    chars.push('l');
    chars.push('y');
    chars.push('p');
    chars.push('h');
    proof {
        assert(chars@ =~= glyph_file_name_spec(name@));
    }
    string_from_chars(&chars)
}

} // verus!
