use vstd::prelude::*;

use std::collections::HashSet;

use crate::app::input::{
    KeyCode, KeyEvent, KeyEventKind, is_cycle_backward_hover_key, is_cycle_forward_hover_key,
    spec_is_cycle_backward_hover_key, spec_is_cycle_forward_hover_key,
};
use crate::ids::lookup;
use crate::services::LocalEntryState;
use crate::utils::{cycle_offset, spec_cycle_hover};

verus! {

/// The list of the entries of a glyph, in their listing order.
pub struct GlyphNavigationBarState {
    pub is_focused: bool,
    pub line_height: usize,
    pub hovered_index: Option<usize>,
    pub offset: usize,
}

pub struct GlyphNavigationBar {
    pub state: GlyphNavigationBarState,
}

/// What the application does after a key in the list of entries.
pub enum NavigationAction {
    Nothing,
    /// Ask for the name of a new entry.
    AskNewEntryName,
    /// Ask for a text to filter the listed entries by.
    AskFilter,
    /// Ask for a new name of the active entry, showing this one.
    AskRename(String),
    /// Ask whether to delete the active entry.
    ConfirmDeleteEntry,
}

/// The list state `f`, the active entry after the key and the action `r`,
/// from the list state `s` and the entries `e`.
pub open spec fn navigation_step(
    s: GlyphNavigationBarState,
    e: LocalEntryState,
    key: KeyEvent,
    f: GlyphNavigationBarState,
    active: Option<i64>,
    r: NavigationAction,
) -> bool {
    let n = e.ordered_entries@.len() as u16;
    let h = if spec_is_cycle_forward_hover_key(key) {
        spec_cycle_hover(s.hovered_index, 1i16, n)
    } else if spec_is_cycle_backward_hover_key(key) {
        spec_cycle_hover(s.hovered_index, -1i16, n)
    } else {
        s.hovered_index
    };
    let t = GlyphNavigationBarState { hovered_index: h, ..s };
    if !s.is_focused {
        f == (GlyphNavigationBarState { is_focused: true, ..s }) && active == e.active_entry_id && r
            == NavigationAction::Nothing
    } else if !key.is_press() {
        f == s && active == e.active_entry_id && r == NavigationAction::Nothing
    } else if key.code == KeyCode::Esc {
        f == (GlyphNavigationBarState { is_focused: false, ..t }) && active == e.active_entry_id && r
            == NavigationAction::Nothing
    } else if key.code == KeyCode::Enter {
        &&& f == t
        &&& r == NavigationAction::Nothing
        &&& active == match h {
            Some(i) => {
                let id = e.ordered_entries@[i as int].0;
                if e.active_entry_id == Some(id) {
                    None
                } else {
                    Some(id)
                }
            },
            None => e.active_entry_id,
        }
    } else {
        &&& f == t
        &&& active == e.active_entry_id
        &&& if key.code == KeyCode::Char('A') {
            r == NavigationAction::AskNewEntryName
        } else if key.code == KeyCode::Char('F') {
            r == NavigationAction::AskFilter
        } else if key.code == KeyCode::Char('R') {
            r matches NavigationAction::AskRename(name) && name@ == lookup(
                e.entries@,
                e.active_entry_id->0,
            )->0.entry_name@
        } else if key.code == KeyCode::Char('x') {
            r == if e.active_entry_id is Some {
                NavigationAction::ConfirmDeleteEntry
            } else {
                NavigationAction::Nothing
            }
        } else {
            r == NavigationAction::Nothing
        }
    }
}

/// Enter on the focused list opens the hovered entry: when another entry (or
/// none) is active, the hovered one becomes the active entry; when the
/// hovered entry is the active one, it is closed and none is active. The
/// hover stays where it was.
pub proof fn law_enter_opens_the_hovered_entry(
    s: GlyphNavigationBarState,
    e: LocalEntryState,
    key: KeyEvent,
    f: GlyphNavigationBarState,
    active: Option<i64>,
    r: NavigationAction,
    i: usize,
)
    requires
        navigation_step(s, e, key, f, active, r),
        s.is_focused,
        key.is_press(),
        key.code == KeyCode::Enter,
        s.hovered_index == Some(i),
        i < e.ordered_entries@.len(),
    ensures
        e.active_entry_id != Some(e.ordered_entries@[i as int].0) ==> active == Some(
            e.ordered_entries@[i as int].0,
        ),
        e.active_entry_id == Some(e.ordered_entries@[i as int].0) ==> active is None,
        f.hovered_index == Some(i),
        f.is_focused,
{
}

impl GlyphNavigationBar {
    /// A list without the focus, nothing hovered, not scrolled, one line per entry.
    pub fn new() -> (r: Self)
        ensures
            r.state == (GlyphNavigationBarState {
                is_focused: false,
                line_height: 1,
                hovered_index: None,
                offset: 0,
            }),
    {
        GlyphNavigationBar {
            state: GlyphNavigationBarState { is_focused: false, line_height: 1, hovered_index: None, offset: 0 },
        }
    }

    /// Hovers the next listed entry, wrapping around; the first when none was hovered.
    pub fn next_entry(&mut self, entries: &LocalEntryState)
        ensures
            final(self).state == (GlyphNavigationBarState {
                hovered_index: spec_cycle_hover(
                    old(self).state.hovered_index,
                    1i16,
                    entries.ordered_entries@.len() as u16,
                ),
                ..old(self).state
            }),
    {
        let num_entries = entries.ordered_entries.len();
        if let Some(index) = self.state.hovered_index {
            self.state.hovered_index = Some(cycle_offset(index as u16, 1, num_entries as u16) as usize);
        } else {
            self.state.hovered_index = Some(0);
        }
    }

    /// Hovers the previous listed entry, wrapping around; the first when none was hovered.
    pub fn previous_entry(&mut self, entries: &LocalEntryState)
        ensures
            final(self).state == (GlyphNavigationBarState {
                hovered_index: spec_cycle_hover(
                    old(self).state.hovered_index,
                    -1i16,
                    entries.ordered_entries@.len() as u16,
                ),
                ..old(self).state
            }),
    {
        let num_entries = entries.ordered_entries.len();
        if let Some(index) = self.state.hovered_index {
            self.state.hovered_index = Some(cycle_offset(index as u16, -1, num_entries as u16) as usize);
        } else {
            self.state.hovered_index = Some(0);
        }
    }

    /// Acts on a key. The first key takes the focus. Then the hover keys move
    /// the hover; Esc gives up the focus; Enter makes the hovered entry the
    /// active one, or no entry when it already is; `A`, `F` and `R` ask for
    /// a new entry's name, a filter and a new name of the active entry; `x`
    /// asks to confirm deleting the active entry.
    pub fn handle(&mut self, entries: &mut LocalEntryState, key: &KeyEvent) -> (r: NavigationAction)
        requires
            old(self).state.is_focused && key.is_press() && key.code == KeyCode::Enter ==> (old(
                self,
            ).state.hovered_index matches Some(i) ==> i < old(entries).ordered_entries@.len()),
            old(self).state.is_focused && key.is_press() && key.code == KeyCode::Char('R') ==> (old(
                entries,
            ).active_entry_id is Some && lookup(
                old(entries).entries@,
                old(entries).active_entry_id->0,
            ) is Some),
        ensures
            final(entries).connection == old(entries).connection,
            navigation_step(
                old(self).state,
                *old(entries),
                *key,
                final(self).state,
                final(entries).active_entry_id,
                r,
            ),
            final(entries).entries == old(entries).entries,
            final(entries).ordered_entries == old(entries).ordered_entries,
            final(entries).updated_entries == old(entries).updated_entries,
    {
        if !self.state.is_focused {
            self.state.is_focused = true;
            return NavigationAction::Nothing;
        }
        if key.kind != KeyEventKind::Press {
            return NavigationAction::Nothing;
        }
        if is_cycle_forward_hover_key(key) {
            self.next_entry(entries);
        } else if is_cycle_backward_hover_key(key) {
            self.previous_entry(entries);
        }
        match key.code {
            KeyCode::Esc => {
                self.state.is_focused = false;
                NavigationAction::Nothing
            },
            KeyCode::Enter => {
                if let Some(index) = self.state.hovered_index {
                    let selected_id = entries.ordered_entries[index].0;
                    entries.toggle_active_entry_id(selected_id);
                }
                NavigationAction::Nothing
            },
            KeyCode::Char(c) => {
                if c == 'A' {
                    NavigationAction::AskNewEntryName
                } else if c == 'F' {
                    NavigationAction::AskFilter
                } else if c == 'R' {
                    match entries.get_active_entry_ref() {
                        Some(entry) => NavigationAction::AskRename(entry.entry_name.clone()),
                        None => NavigationAction::Nothing,
                    }
                } else if c == 'x' {
                    if entries.active_entry_id.is_none() {
                        NavigationAction::Nothing
                    } else {
                        NavigationAction::ConfirmDeleteEntry
                    }
                } else {
                    NavigationAction::Nothing
                }
            },
            _ => NavigationAction::Nothing,
        }
    }
}

/// Who on the page of an open glyph receives a key.
#[derive(Clone, Copy, PartialEq, Eq, Structural, Debug)]
pub enum PageKeyTarget {
    /// The dialog on top, alone.
    TopDialog,
    NavigationBar,
    Viewer,
    /// The page itself.
    Page,
}

/// Who receives a key: the top dialog while there is one, else the focused
/// part, else the page.
pub open spec fn spec_page_key_target(dialog_count: nat, navigation_focused: bool, viewer_focused: bool) -> PageKeyTarget {
    if dialog_count > 0 {
        PageKeyTarget::TopDialog
    } else if navigation_focused {
        PageKeyTarget::NavigationBar
    } else if viewer_focused {
        PageKeyTarget::Viewer
    } else {
        PageKeyTarget::Page
    }
}

/// Who receives a key, given how many dialogs are open and which part of the
/// page has the focus.
pub fn page_key_target(dialog_count: usize, navigation_focused: bool, viewer_focused: bool) -> (r: PageKeyTarget)
    ensures
        r == spec_page_key_target(dialog_count as nat, navigation_focused, viewer_focused),
{
    if dialog_count > 0 {
        PageKeyTarget::TopDialog
    } else if navigation_focused {
        PageKeyTarget::NavigationBar
    } else if viewer_focused {
        PageKeyTarget::Viewer
    } else {
        PageKeyTarget::Page
    }
}

/// The page of an open glyph: which of its two parts (the list of entries
/// and the viewer) is hovered, and which parts are hidden.
pub struct GlyphPageState {
    pub is_focused: bool,
    pub is_hovered: bool,
    pub hovered_index: Option<usize>,
    pub hidden_container_index: HashSet<u8>,
}

/// What the application does after a key on the page itself.
#[derive(Clone, Copy, PartialEq, Eq, Structural, Debug)]
pub enum GlyphPageAction {
    Nothing,
    /// Ask whether to leave the page with changes unsaved.
    ConfirmExit,
    /// Leave the page.
    PopPage,
    /// Give the focus to the list of entries.
    FocusNavigationBar,
    /// Give the focus to the viewer of the active entry.
    FocusViewer,
}

impl GlyphPageState {
    /// A page without the focus, nothing hovered or hidden.
    pub fn new() -> (r: Self)
        ensures
            !r.is_focused,
            !r.is_hovered,
            r.hovered_index is None,
            r.hidden_container_index@ == Set::<u8>::empty(),
    {
        GlyphPageState { is_focused: false, is_hovered: false, hovered_index: None, hidden_container_index: HashSet::new() }
    }

    /// Moves the hover `offset` parts among `max`, wrapping around; the first
    /// when none was hovered.
    pub fn cycle_hover(&mut self, offset: i16, max: u16)
        ensures
            final(self).hovered_index == spec_cycle_hover(old(self).hovered_index, offset, max),
            final(self).is_focused == old(self).is_focused,
            final(self).hidden_container_index@ == old(self).hidden_container_index@,
    {
        if let Some(hover_index) = self.hovered_index {
            self.hovered_index = Some(cycle_offset(hover_index as u16, offset, max) as usize);
        } else {
            self.hovered_index = Some(0);
        }
    }

    /// Acts on a key when no part of the page has the focus: the hover keys
    /// move the hover between the two parts; Esc leaves the page, asking
    /// first when some entry has unsaved changes; Enter focuses the hovered
    /// part (the viewer only when an entry is active); Ctrl-b hides or shows
    /// the list of entries.
    pub fn handle_page_key(&mut self, key: &KeyEvent, has_unsaved: bool, has_active_entry: bool) -> (r:
        GlyphPageAction)
        ensures
            ({
                let h = if !key.is_press() {
                    old(self).hovered_index
                } else if spec_is_cycle_forward_hover_key(*key) {
                    spec_cycle_hover(old(self).hovered_index, 1i16, 2u16)
                } else if spec_is_cycle_backward_hover_key(*key) {
                    spec_cycle_hover(old(self).hovered_index, -1i16, 2u16)
                } else {
                    old(self).hovered_index
                };
                let toggles = key.is_press() && key.code == KeyCode::Char('b') && key.control;
                &&& final(self).hovered_index == h
                &&& final(self).is_focused == old(self).is_focused
                &&& final(self).hidden_container_index@ == if toggles {
                    if old(self).hidden_container_index@.contains(0u8) {
                        old(self).hidden_container_index@.remove(0u8)
                    } else {
                        old(self).hidden_container_index@.insert(0u8)
                    }
                } else {
                    old(self).hidden_container_index@
                }
                &&& r == if !key.is_press() {
                    GlyphPageAction::Nothing
                } else if key.code == KeyCode::Esc {
                    if has_unsaved {
                        GlyphPageAction::ConfirmExit
                    } else {
                        GlyphPageAction::PopPage
                    }
                } else if key.code == KeyCode::Enter && h == Some(0usize) {
                    GlyphPageAction::FocusNavigationBar
                } else if key.code == KeyCode::Enter && h == Some(1usize) && has_active_entry {
                    GlyphPageAction::FocusViewer
                } else {
                    GlyphPageAction::Nothing
                }
            }),
    {
        broadcast use vstd::std_specs::hash::group_hash_axioms;

        if key.kind != KeyEventKind::Press {
            return GlyphPageAction::Nothing;
        }
        if is_cycle_forward_hover_key(key) {
            self.cycle_hover(1, 2);
        } else if is_cycle_backward_hover_key(key) {
            self.cycle_hover(-1, 2);
        }
        if key.code == KeyCode::Esc {
            if has_unsaved {
                return GlyphPageAction::ConfirmExit;
            } else {
                return GlyphPageAction::PopPage;
            }
        }
        if key.code == KeyCode::Enter {
            if let Some(index) = self.hovered_index {
                if index == 0 {
                    return GlyphPageAction::FocusNavigationBar;
                } else if index == 1 && has_active_entry {
                    return GlyphPageAction::FocusViewer;
                }
            }
        }
        if key.code == KeyCode::Char('b') && key.control {
            if self.hidden_container_index.contains(&0u8) {
                self.hidden_container_index.remove(&0u8);
            } else {
                self.hidden_container_index.insert(0u8);
            }
        }
        GlyphPageAction::Nothing
    }
}

} // verus!
