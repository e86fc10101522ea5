use vstd::prelude::*;

use crate::app::input::{KeyCode, KeyEvent, KeyEventKind};
use crate::services::LocalEntryState;

verus! {

/// What the viewer of an entry shows: the entry as it reads, its layout, or
/// its sections to edit.
#[derive(Clone, Copy, PartialEq, Eq, Structural, Debug)]
pub enum GlyphMode {
    Read,
    Layout,
    Edit,
}

impl GlyphMode {
    /// The mode after the mode key: reading, then editing, then the layout,
    /// then reading again.
    pub open spec fn spec_next(self) -> GlyphMode {
        match self {
            GlyphMode::Read => GlyphMode::Edit,
            GlyphMode::Edit => GlyphMode::Layout,
            GlyphMode::Layout => GlyphMode::Read,
        }
    }

    pub fn next(self) -> (r: GlyphMode)
        ensures
            r == self.spec_next(),
    {
        match self {
            GlyphMode::Read => GlyphMode::Edit,
            GlyphMode::Edit => GlyphMode::Layout,
            GlyphMode::Layout => GlyphMode::Read,
        }
    }
}

/// Pressing the mode key three times comes back to the mode one started
/// from, having gone through the other two.
pub proof fn law_mode_cycle(m: GlyphMode)
    ensures
        m.spec_next().spec_next().spec_next() == m,
        m.spec_next() != m,
        m.spec_next().spec_next() != m,
{
}

/// The keys that move the viewer to its next mode: the backquote, and the
/// backslash.
pub open spec fn is_mode_key(code: KeyCode) -> bool {
    code == KeyCode::Char('`') || code == KeyCode::Char('\\')
}

/// The viewer of the active entry: whether it has the focus and its mode.
pub struct GlyphViewerState {
    pub is_focused: bool,
    pub mode: GlyphMode,
}

/// What the application does after a key in the viewer, before the key goes
/// on to the view of the mode.
#[derive(Clone, Copy, PartialEq, Eq, Structural, Debug)]
pub enum ViewerAction {
    /// The key took the focus and goes no further.
    TookFocus,
    /// Pass the key on.
    PassOn,
    /// The layout view opened: show the selected node in its edit panel, then pass the key on.
    RefreshLayoutEditPanel,
    /// Write the entry with this id to the database, then pass the key on.
    SaveEntry(i64),
}

impl GlyphViewerState {
    /// A viewer without the focus, reading.
    pub fn new() -> (r: Self)
        ensures
            r == (GlyphViewerState { is_focused: false, mode: GlyphMode::Read }),
    {
        GlyphViewerState { is_focused: false, mode: GlyphMode::Read }
    }

    /// Acts on a key: the first key takes the focus; then a mode key moves to
    /// the next mode, and Ctrl-s marks the active entry saved and asks to write it.
    pub fn handle(&mut self, entries: &mut LocalEntryState, key: &KeyEvent) -> (r: ViewerAction)
        requires
            old(self).is_focused && key.is_press() && key.code == KeyCode::Char('s') && key.control
                ==> old(entries).active_entry_id is Some,
        ensures
            final(entries).connection == old(entries).connection,
            !old(self).is_focused ==> *final(self) == (GlyphViewerState { is_focused: true, ..*old(self) })
                && *final(entries) == *old(entries) && r == ViewerAction::TookFocus,
            old(self).is_focused ==> {
                let switches = key.is_press() && is_mode_key(key.code);
                let saves = key.is_press() && key.code == KeyCode::Char('s') && key.control;
                &&& final(self).is_focused
                &&& final(self).mode == if switches {
                    old(self).mode.spec_next()
                } else {
                    old(self).mode
                }
                &&& final(entries).entries == old(entries).entries
                &&& final(entries).active_entry_id == old(entries).active_entry_id
                &&& final(entries).ordered_entries == old(entries).ordered_entries
                &&& final(entries).updated_entries@ == if saves {
                    old(entries).updated_entries@.remove(old(entries).active_entry_id->0)
                } else {
                    old(entries).updated_entries@
                }
                &&& r == if switches && old(self).mode == GlyphMode::Edit {
                    ViewerAction::RefreshLayoutEditPanel
                } else if saves {
                    ViewerAction::SaveEntry(old(entries).active_entry_id->0)
                } else {
                    ViewerAction::PassOn
                }
            },
    {
        if !self.is_focused {
            self.is_focused = true;
            return ViewerAction::TookFocus;
        }
        if key.kind == KeyEventKind::Press {
            if key.code == KeyCode::Char('`') || key.code == KeyCode::Char('\\') {
                let was_edit = self.mode == GlyphMode::Edit;
                self.mode = self.mode.next();
                if was_edit {
                    return ViewerAction::RefreshLayoutEditPanel;
                }
            } else if key.code == KeyCode::Char('s') && key.control {
                let eid = match entries.active_entry_id {
                    Some(id) => id,
                    None => 0,
                };
                entries.set_entry_unsaved_state(eid, false);
                return ViewerAction::SaveEntry(eid);
            }
        }
        ViewerAction::PassOn
    }
}

} // verus!
