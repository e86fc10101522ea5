use vstd::prelude::*;

use std::path::PathBuf;

pub mod commands;
pub mod dialog;
pub mod entrance;
pub mod input;
pub mod page;
pub mod states;
pub mod views;
pub mod widget;
pub mod widget_states;

verus! {

/// How a widget is drawn.
#[derive(Clone, Copy, PartialEq, Eq, Structural, Debug)]
pub enum DrawFlag {
    DEFAULT,
    HIGHLIGHTING,
    FOCUSED,
}

/// How the widget at `widget_index` is drawn: focused when it says so,
/// highlighted when it is the hovered one, plain otherwise.
pub open spec fn spec_draw_flag(
    current_hover_index: Option<usize>,
    widget_index: usize,
    focused: Option<bool>,
) -> DrawFlag {
    if focused == Some(true) {
        DrawFlag::FOCUSED
    } else if current_hover_index == Some(widget_index) {
        DrawFlag::HIGHLIGHTING
    } else {
        DrawFlag::DEFAULT
    }
}

/// How the widget at `widget_index` is drawn, given the hovered index and
/// whether the widget holds the focus.
pub fn get_draw_flag(current_hover_index: Option<usize>, widget_index: usize, focused: Option<bool>) -> (r:
    DrawFlag)
    ensures
        r == spec_draw_flag(current_hover_index, widget_index, focused),
{
    if let Some(should_focus) = focused {
        if should_focus {
            return DrawFlag::FOCUSED;
        }
    }
    if let Some(index) = current_hover_index {
        if index == widget_index {
            DrawFlag::HIGHLIGHTING
        } else {
            DrawFlag::DEFAULT
        }
    } else {
        DrawFlag::DEFAULT
    }
}

/// Requests about the open glyph that pages pass up to the application.
pub enum GlyphCommand {
    /// Open the glyph database at the path.
    OpenGlyph(PathBuf),
    /// Create a glyph database in the directory, with the name.
    CreateGlyph(PathBuf, String),
    CreateEntry(String),
    SetEntryUnsavedState(i64, bool),
    RefreshEditSectionEditor,
    RefreshLayoutEditPanel,
}

} // verus!
