use vstd::prelude::*;

use crate::app::input::{
    KeyCode, KeyEvent, KeyEventKind, is_cycle_backward_hover_key, is_cycle_forward_hover_key,
    spec_is_cycle_backward_hover_key, spec_is_cycle_forward_hover_key,
};
use crate::ids::{first_id_index, lemma_first_id_index_bounds, lemma_lookup_after_update, lookup};
use crate::models::section::Section;
use crate::ordering::is_stable_sort_of;
use crate::services::{LocalEntryState, int_order, position_of, section_of};
use crate::app::widget::text_editor::{
    EditMode, EditorView, TextEditor, join_lines, key_allowed, key_effect, law_join_lines_injective,
    no_newlines,
};
use crate::utils::{cycle_offset, spec_cycle_hover};

verus! {

broadcast use crate::ids::group_id_index;

/// The list of the sections of the active entry, in the order of their
/// positions: the hovered one, how far the list is scrolled, and the section
/// open in the editor.
pub struct GlyphEditOrderState {
    pub hovered_index: Option<usize>,
    pub scroll_offset: usize,
    pub active_sid: Option<i64>,
}

pub struct GlyphEditOrderView {
    pub state: GlyphEditOrderState,
}

/// What the application does after a key in the list of sections.
pub enum EditOrderAction {
    Nothing,
    /// Load the section now open, or none, into the editor.
    RefreshEditSectionEditor,
    /// Give the focus back to the page.
    LeaveFocus,
    /// The sections of the entry with this id changed and are not saved.
    SetEntryUnsavedState(i64),
    /// Delete the section with this id, in the database too.
    DeleteSection(i64),
    /// Add an untitled section to the active entry, in the database too.
    CreateSection,
    /// Ask for a new title of the section with this id, showing its title.
    AskRenameSection(i64, String),
}

/// The sections of the active entry.
pub open spec fn active_sections(e: LocalEntryState) -> Seq<(i64, Section)> {
    lookup(e.entries@, e.active_entry_id->0)->0.sections@
}

/// The hover after a key: moved by the hover keys only.
pub open spec fn order_hover_after(h: Option<usize>, key: KeyEvent, len: u16) -> Option<usize> {
    if spec_is_cycle_forward_hover_key(key) {
        spec_cycle_hover(h, 1i16, len)
    } else if spec_is_cycle_backward_hover_key(key) {
        spec_cycle_hover(h, -1i16, len)
    } else {
        h
    }
}

/// `after` is `before` with the section `sid` of the entry `eid` moved by
/// `delta` positions, and the sections of that entry then sorted by
/// position, keeping the order of those that share one; nothing else changes.
pub open spec fn section_moved(before: LocalEntryState, after: LocalEntryState, eid: i64, sid: i64, delta: int) -> bool {
    let i = first_id_index(before.entries@, eid);
    let e = before.entries@[i].1;
    let j = first_id_index(e.sections@, sid);
    let s = e.sections@[j].1;
    let bumped = e.sections@.update(j, (sid, Section { position: (s.position + delta) as i64, ..s }));
    let fe = after.entries@[i].1;
    &&& after.entries@.len() == before.entries@.len()
    &&& forall|k: int|
        0 <= k < before.entries@.len() && k != i ==> #[trigger] after.entries@[k] == before.entries@[k]
    &&& after.entries@[i].0 == eid
    &&& fe.entry_name == e.entry_name
    &&& fe.layout == e.layout
    &&& is_stable_sort_of(fe.sections@, bumped, position_of(), int_order())
    &&& after.active_entry_id == before.active_entry_id
    &&& after.ordered_entries == before.ordered_entries
    &&& after.updated_entries == before.updated_entries
}

/// How many sections the active entry has: none when no entry is found.
pub open spec fn section_count(e: LocalEntryState) -> nat {
    match lookup(e.entries@, e.active_entry_id->0) {
        Some(x) => x.sections@.len(),
        None => 0,
    }
}

/// The keys the list of sections can carry out: the hover keys need an
/// active entry; Enter on a hovered section needs the active entry to be
/// found and, when it has sections, the hover to be one of them; with a
/// section open, `x` needs an active entry, `R` needs the open section to
/// be found, and `+` and `-` need it found and able to move when an entry
/// is active. The other keys need nothing.
pub open spec fn order_key_allowed(s: GlyphEditOrderState, e: LocalEntryState, key: KeyEvent) -> bool {
    let eid = e.active_entry_id->0;
    let active = e.active_entry_id is Some;
    let open = section_of(e.entries@, eid, s.active_sid->0);
    key.is_press() ==> {
        &&& spec_is_cycle_forward_hover_key(key) || spec_is_cycle_backward_hover_key(key) ==> active
        &&& key.code == KeyCode::Enter && s.hovered_index is Some ==> {
            &&& active
            &&& lookup(e.entries@, eid) is Some
            &&& section_count(e) > 0 ==> s.hovered_index->0 < section_count(e)
        }
        &&& s.active_sid is Some && key.code == KeyCode::Char('x') ==> active
        &&& s.active_sid is Some && key.code == KeyCode::Char('R') ==> active && open is Some
        &&& s.active_sid is Some && active && key.code == KeyCode::Char('+') ==> open is Some
            && open->0.position < i64::MAX
        &&& s.active_sid is Some && active && key.code == KeyCode::Char('-') ==> open is Some
            && open->0.position > i64::MIN
    }
}

/// The list state `f`, the entries `fe` and the action `r` after `key`,
/// from the list state `s` and the entries `e`.
pub open spec fn order_step(
    s: GlyphEditOrderState,
    e: LocalEntryState,
    key: KeyEvent,
    f: GlyphEditOrderState,
    fe: LocalEntryState,
    r: EditOrderAction,
) -> bool {
    let eid = e.active_entry_id->0;
    let secs = active_sections(e);
    let h = order_hover_after(s.hovered_index, key, section_count(e) as u16);
    let t = GlyphEditOrderState { hovered_index: h, ..s };
    let same = fe == e;
    if !key.is_press() {
        f == s && same && r == EditOrderAction::Nothing
    } else if key.code == KeyCode::PageUp {
        &&& f == GlyphEditOrderState {
            scroll_offset: if s.scroll_offset == 0 {
                0
            } else {
                (s.scroll_offset - 1) as usize
            },
            ..s
        }
        &&& same
        &&& r == EditOrderAction::Nothing
    } else if key.code == KeyCode::PageDown {
        &&& f == GlyphEditOrderState {
            scroll_offset: if s.scroll_offset == usize::MAX {
                usize::MAX
            } else {
                (s.scroll_offset + 1) as usize
            },
            ..s
        }
        &&& same
        &&& r == EditOrderAction::Nothing
    } else if key.code == KeyCode::Enter && h is Some {
        &&& same
        &&& if secs.len() == 0 {
            f == t && r == EditOrderAction::Nothing
        } else if s.active_sid == Some(secs[h->0 as int].0) {
            f == (GlyphEditOrderState { active_sid: None, ..t })
                && r == EditOrderAction::RefreshEditSectionEditor
        } else {
            f == (GlyphEditOrderState { active_sid: Some(secs[h->0 as int].0), ..t })
                && r == EditOrderAction::RefreshEditSectionEditor
        }
    } else if key.code == KeyCode::Esc {
        f == t && same && r == EditOrderAction::LeaveFocus
    } else if key.code == KeyCode::Char('+') || key.code == KeyCode::Char('-') {
        &&& f == t
        &&& match s.active_sid {
            Some(sid) if e.active_entry_id is Some => section_moved(
                e,
                fe,
                eid,
                sid,
                if key.code == KeyCode::Char('+') {
                    1
                } else {
                    -1
                },
            ) && r == EditOrderAction::SetEntryUnsavedState(eid),
            _ => same && r == EditOrderAction::Nothing,
        }
    } else if key.code == KeyCode::Char('x') {
        &&& same
        &&& match s.active_sid {
            Some(sid) => f == (GlyphEditOrderState { active_sid: None, ..t })
                && r == EditOrderAction::DeleteSection(sid),
            None => f == t && r == EditOrderAction::Nothing,
        }
    } else if key.code == KeyCode::Char('A') {
        f == t && same && r == EditOrderAction::CreateSection
    } else if key.code == KeyCode::Char('R') {
        &&& f == t
        &&& same
        &&& match s.active_sid {
            Some(sid) => r matches EditOrderAction::AskRenameSection(x, title) && x == sid
                && title@ == section_of(e.entries@, eid, sid)->0.title@,
            None => r == EditOrderAction::Nothing,
        }
    } else {
        f == t && same && r == EditOrderAction::Nothing
    }
            }

impl GlyphEditOrderView {
    /// A list with nothing hovered, not scrolled, and no section open.
    pub fn new() -> (r: Self)
        ensures
            r.state.hovered_index is None,
            r.state.scroll_offset == 0,
            r.state.active_sid is None,
    {
        GlyphEditOrderView { state: GlyphEditOrderState { hovered_index: None, scroll_offset: 0, active_sid: None } }
    }

    /// Moves the hover `offset` sections (1 or -1), wrapping around; the
    /// first when none was hovered.
    pub fn cycle_section_hover(&mut self, entries: &LocalEntryState, offset: i16)
        requires
            entries.active_entry_id is Some,
        ensures
            final(self).state == (GlyphEditOrderState {
                hovered_index: spec_cycle_hover(
                    old(self).state.hovered_index,
                    offset,
                    match lookup(entries.entries@, entries.active_entry_id->0) {
                        Some(e) => e.sections@.len() as u16,
                        None => 0u16,
                    },
                ),
                ..old(self).state
            }),
    {
        let eid = match entries.active_entry_id {
            Some(id) => id,
            None => 0,
        };
        let len = entries.get_num_sections(&eid);
        if let Some(hover_index) = self.state.hovered_index {
            self.state.hovered_index = Some(cycle_offset(hover_index as u16, offset, len as u16) as usize);
        } else {
            self.state.hovered_index = Some(0);
        }
    }


    /// Acts on a key. The hover keys move the hover; Page Up and Page Down
    /// scroll; Enter opens the hovered section, or closes it when it is the
    /// open one; Esc gives the focus back; `+` and `-` move the open section
    /// one position and sort the sections again; `x` closes the open section
    /// and asks to delete it; `A` asks for a new section; `R` asks for a new
    /// title of the open section.
    pub fn handle(&mut self, entries: &mut LocalEntryState, key: &KeyEvent) -> (r: EditOrderAction)
        requires
            order_key_allowed(old(self).state, *old(entries), *key),
        ensures
            final(entries).connection == old(entries).connection,
            order_step(old(self).state, *old(entries), *key, final(self).state, *final(entries), r),
    {
        if key.kind != KeyEventKind::Press {
            return EditOrderAction::Nothing;
        }
        let eid = match entries.active_entry_id {
            Some(id) => id,
            None => 0,
        };
        if is_cycle_forward_hover_key(key) {
            self.cycle_section_hover(entries, 1);
        } else if is_cycle_backward_hover_key(key) {
            self.cycle_section_hover(entries, -1);
        }
        if key.code == KeyCode::PageUp {
            self.state.scroll_offset = self.state.scroll_offset.saturating_sub(1);
            return EditOrderAction::Nothing;
        }
        if key.code == KeyCode::PageDown {
            self.state.scroll_offset = self.state.scroll_offset.saturating_add(1);
            return EditOrderAction::Nothing;
        }
        if key.code == KeyCode::Enter {
            if let Some(index) = self.state.hovered_index {
                let sections = entries.get_sections_ref(&eid);
                if sections.len() == 0 {
                    return EditOrderAction::Nothing;
                }
                let selected = sections[index].0;
                if self.state.active_sid == Some(selected) {
                    self.state.active_sid = None;
                    return EditOrderAction::RefreshEditSectionEditor;
                }
                self.state.active_sid = Some(selected);
                return EditOrderAction::RefreshEditSectionEditor;
            }
        }
        if key.code == KeyCode::Esc {
            return EditOrderAction::LeaveFocus;
        }
        match key.code {
            KeyCode::Char(c) => {
                if c == '+' || c == '-' {
                    if entries.active_entry_id.is_none() || self.state.active_sid.is_none() {
                        return EditOrderAction::Nothing;
                    }
                    let delta: i64 = if c == '+' {
                        1
                    } else {
                        -1
                    };
                    self.move_active_section(entries, delta);
                    EditOrderAction::SetEntryUnsavedState(eid)
                } else if c == 'x' {
                    match self.state.active_sid {
                        Some(sid) => {
                            self.state.active_sid = None;
                            EditOrderAction::DeleteSection(sid)
                        },
                        None => EditOrderAction::Nothing,
                    }
                } else if c == 'A' {
                    EditOrderAction::CreateSection
                } else if c == 'R' {
                    match self.state.active_sid {
                        Some(sid) => {
                            let title = match entries.get_section_ref(&eid, &sid) {
                                Some(section) => section.title.clone(),
                                None => String::new(),
                            };
                            EditOrderAction::AskRenameSection(sid, title)
                        },
                        None => EditOrderAction::Nothing,
                    }
                } else {
                    EditOrderAction::Nothing
                }
            },
            _ => EditOrderAction::Nothing,
        }
    }

    /// Whether the list can carry out `key` on `entries`.
    pub fn accepts_key(&self, entries: &LocalEntryState, key: &KeyEvent) -> (r: bool)
        ensures
            r == order_key_allowed(self.state, *entries, *key),
    {
        if key.kind != KeyEventKind::Press {
            return true;
        }
        let active = entries.active_entry_id.is_some();
        let eid = match entries.active_entry_id {
            Some(id) => id,
            None => 0,
        };
        if (is_cycle_forward_hover_key(key) || is_cycle_backward_hover_key(key)) && !active {
            return false;
        }
        if key.code == KeyCode::Enter {
            if let Some(i) = self.state.hovered_index {
                if !active {
                    return false;
                }
                match entries.get_entry_ref(&eid) {
                    Some(entry) => {
                        if entry.sections.len() > 0 && i >= entry.sections.len() {
                            return false;
                        }
                    },
                    None => {
                        return false;
                    },
                }
            }
        }
        if let Some(sid) = self.state.active_sid {
            if key.code == KeyCode::Char('x') && !active {
                return false;
            }
            let found = entries.get_section_ref(&eid, &sid);
            if key.code == KeyCode::Char('R') && (!active || found.is_none()) {
                return false;
            }
            if active && (key.code == KeyCode::Char('+') || key.code == KeyCode::Char('-')) {
                match found {
                    Some(section) => {
                        if key.code == KeyCode::Char('+') && section.position == i64::MAX {
                            return false;
                        }
                        if key.code == KeyCode::Char('-') && section.position == i64::MIN {
                            return false;
                        }
                    },
                    None => {
                        return false;
                    },
                }
            }
        }
        true
    }

    /// Moves the open section `delta` (1 or -1) positions and sorts the
    /// sections of the active entry by position again.
    fn move_active_section(&mut self, entries: &mut LocalEntryState, delta: i64)
        requires
            delta == 1 || delta == -1,
            old(entries).active_entry_id is Some,
            old(self).state.active_sid is Some,
            section_of(old(entries).entries@, old(entries).active_entry_id->0, old(self).state.active_sid->0) is Some,
            i64::MIN <= section_of(
                old(entries).entries@,
                old(entries).active_entry_id->0,
                old(self).state.active_sid->0,
            )->0.position + delta <= i64::MAX,
        ensures
            final(entries).connection == old(entries).connection,
            section_moved(
                *old(entries),
                *final(entries),
                old(entries).active_entry_id->0,
                old(self).state.active_sid->0,
                delta as int,
            ),
            final(self).state == old(self).state,
    {
        let eid = match entries.active_entry_id {
            Some(id) => id,
            None => 0,
        };
        let sid = match self.state.active_sid {
            Some(id) => id,
            None => 0,
        };
        let ghost before = *entries;
        let ghost i = first_id_index(entries.entries@, eid);
        proof {
            lemma_first_id_index_bounds(entries.entries@, eid);
        }
        match entries.get_section_mut(&eid, &sid) {
            Some(section) => {
                section.position = section.position + delta;
            },
            None => {},
        }
        let ghost mid = *entries;
        proof {
            let e1 = mid.entries@[i].1;
            lemma_lookup_after_update(before.entries@, eid, e1);
            assert(mid.entries@ =~= before.entries@.update(i, (eid, e1)));
        }
        entries.sort_sections_by_position(&eid);
    }
}

/// `after` is `before` with the content of the section `sid` of the entry
/// `eid` made `c`; nothing else changes.
pub open spec fn section_content_set(before: LocalEntryState, after: LocalEntryState, eid: i64, sid: i64, c: Seq<char>) -> bool {
    let i = first_id_index(before.entries@, eid);
    let e = before.entries@[i].1;
    let j = first_id_index(e.sections@, sid);
    let s = e.sections@[j].1;
    let fe = after.entries@[i].1;
    &&& after.entries@.len() == before.entries@.len()
    &&& forall|k: int|
        0 <= k < before.entries@.len() && k != i ==> #[trigger] after.entries@[k] == before.entries@[k]
    &&& after.entries@[i].0 == eid
    &&& fe.entry_name == e.entry_name
    &&& fe.layout == e.layout
    &&& fe.sections@.len() == e.sections@.len()
    &&& forall|k: int|
        0 <= k < e.sections@.len() && k != j ==> #[trigger] fe.sections@[k] == e.sections@[k]
    &&& fe.sections@[j].0 == sid
    &&& fe.sections@[j].1.position == s.position
    &&& fe.sections@[j].1.title == s.title
    &&& fe.sections@[j].1.content@ == c
    &&& after.active_entry_id == before.active_entry_id
    &&& after.ordered_entries == before.ordered_entries
    &&& after.updated_entries == before.updated_entries
}

/// The view that edits the sections of the active entry: the list of
/// sections and the editor of the open one.
pub struct GlyphEditState {
    /// The view has the focus (shared with the other views of an entry).
    pub is_focused: bool,
    pub hovered_index: Option<usize>,
    /// Keys go to the editor rather than to the list.
    pub is_editing: bool,
}

pub struct GlyphEditView {
    pub state: GlyphEditState,
    pub order: GlyphEditOrderView,
    pub editor: TextEditor,
}

/// The keys the edit view can carry out: while editing, those the editor
/// can carry out, and leaving the editor needs the open section to exist
/// and the editor to hold a line; otherwise those the list of sections can.
pub open spec fn edit_key_allowed(v: GlyphEditView, e: LocalEntryState, key: KeyEvent) -> bool {
    &&& v.state.is_editing ==> key_allowed(v.editor@, key)
    &&& v.state.is_editing && v.editor@.mode == EditMode::Normal && key.is_press() && key.code
        == KeyCode::Esc ==> (v.order.state.active_sid matches Some(sid) ==> (e.active_entry_id is Some
        && section_of(e.entries@, e.active_entry_id->0, sid) is Some && v.editor@.lines.len() > 0))
    &&& !v.state.is_editing ==> order_key_allowed(v.order.state, e, key)
}

/// The editor's lines once `content` is loaded into it: the pieces of
/// `content` between newlines.
pub open spec fn loaded(before: EditorView, after: EditorView, content: Seq<char>) -> bool {
    &&& after == (EditorView { lines: after.lines, ..before })
    &&& join_lines(after.lines) == content
    &&& no_newlines(after.lines)
    &&& after.lines.len() >= 1
}

/// Loading a text into the editor and joining its lines gives the text back:
/// leaving the editor right after a section is loaded finds its content
/// unchanged, so nothing is marked unsaved.
pub proof fn law_save_after_load_keeps_content(before: EditorView, after: EditorView, content: Seq<char>)
    requires
        loaded(before, after, content),
    ensures
        join_lines(after.lines) == content,
{
}

/// Joining the editor's lines and loading the result gives the lines back:
/// a section saved from the editor loads into the same lines.
pub proof fn law_load_after_save_gives_lines(lines: Seq<Seq<char>>, before: EditorView, after: EditorView)
    requires
        lines.len() >= 1,
        no_newlines(lines),
        loaded(before, after, join_lines(lines)),
    ensures
        after.lines == lines,
{
    law_join_lines_injective(after.lines, lines);
}

impl GlyphEditView {

    /// A view without the focus, not editing, with an empty list state and an
    /// editor labelled "Editor".
    pub fn new() -> (r: Self)
        ensures
            !r.state.is_focused,
            r.state.hovered_index is None,
            !r.state.is_editing,
            r.order.state == (GlyphEditOrderState { hovered_index: None, scroll_offset: 0, active_sid: None }),
            r.editor@ == (EditorView {
                is_focused: false,
                label: "Editor"@,
                mode: EditMode::Normal,
                lines: Seq::empty(),
                scroll_offset: 0,
                cursor_index: 0,
                cursor_line_index: 0,
                anchor: 0,
                anchor_line: 0,
                copy_buffer: Seq::empty(),
            }),
    {
        GlyphEditView {
            state: GlyphEditState { is_focused: false, hovered_index: None, is_editing: false },
            order: GlyphEditOrderView::new(),
            editor: TextEditor::new("Editor", ""),
        }
    }

    /// Acts on a key. While editing, the key goes to the editor, and when it
    /// leaves the editor the open section is saved. Otherwise Esc gives the
    /// focus back, `e` starts editing the open section, and the key goes on to
    /// the list of sections: its request to load the open section is carried
    /// out here, its request to give the focus back too, and the others are
    /// passed on.
    pub fn handle(&mut self, entries: &mut LocalEntryState, key: &KeyEvent) -> (r: EditOrderAction)
        requires
            edit_key_allowed(*old(self), *old(entries), *key),
        ensures
            final(entries).connection == old(entries).connection,
            old(self).state.is_editing ==> {
                let ed = key_effect(old(self).editor@, *key);
                let exit = old(self).editor@.mode == EditMode::Normal && key.is_press() && key.code
                    == KeyCode::Esc;
                &&& final(self).order.state == old(self).order.state
                &&& !exit ==> final(self).editor@ == ed && final(self).state == old(self).state
                    && *final(entries) == *old(entries) && r == EditOrderAction::Nothing
                &&& exit ==> match old(self).order.state.active_sid {
                    None => final(self).editor@ == ed && final(self).state == old(self).state
                        && *final(entries) == *old(entries) && r == EditOrderAction::Nothing,
                    Some(sid) => {
                        let eid = old(entries).active_entry_id->0;
                        let c = join_lines(old(self).editor@.lines);
                        let changed = section_of(old(entries).entries@, eid, sid)->0.content@ != c;
                        &&& !final(self).state.is_editing
                        &&& final(self).state.is_focused == old(self).state.is_focused
                        &&& final(self).state.hovered_index == old(self).state.hovered_index
                        &&& final(self).editor@ == ed
                        &&& changed ==> section_content_set(*old(entries), *final(entries), eid, sid, c)
                            && r == EditOrderAction::SetEntryUnsavedState(eid)
                        &&& !changed ==> *final(entries) == *old(entries) && r == EditOrderAction::Nothing
                    },
                }
            },
            !old(self).state.is_editing ==> {
                let starts = key.is_press() && key.code == KeyCode::Char('e')
                    && old(self).order.state.active_sid is Some;
                let ed = if starts {
                    old(self).editor@.with_focus(true)
                } else {
                    old(self).editor@
                };
                &&& final(self).state.is_editing == starts
                &&& final(self).state.hovered_index == old(self).state.hovered_index
                &&& exists|a: EditOrderAction|
                    {
                        &&& order_step(
                            old(self).order.state,
                            *old(entries),
                            *key,
                            final(self).order.state,
                            *final(entries),
                            a,
                        )
                        &&& a == EditOrderAction::RefreshEditSectionEditor ==> loaded(
                            ed,
                            final(self).editor@,
                            match final(self).order.state.active_sid {
                                Some(sid) => section_of(
                                    final(entries).entries@,
                                    final(entries).active_entry_id->0,
                                    sid,
                                )->0.content@,
                                None => Seq::<char>::empty(),
                            },
                        ) && r == EditOrderAction::Nothing
                        &&& a != EditOrderAction::RefreshEditSectionEditor ==> final(self).editor@ == ed
                        &&& (a == EditOrderAction::RefreshEditSectionEditor || a == EditOrderAction::LeaveFocus)
                            ==> r == EditOrderAction::Nothing
                        &&& !(a == EditOrderAction::RefreshEditSectionEditor || a
                            == EditOrderAction::LeaveFocus) ==> r == a
                        &&& final(self).state.is_focused == (old(self).state.is_focused && !(key.is_press()
                            && key.code == KeyCode::Esc) && a != EditOrderAction::LeaveFocus)
                    }
            },
    {
        if self.state.is_editing {
            let exit = self.editor.handle(key);
            if exit {
                match self.save_section(entries) {
                    Some(eid) => {
                        return EditOrderAction::SetEntryUnsavedState(eid);
                    },
                    None => {
                        return EditOrderAction::Nothing;
                    },
                }
            }
            return EditOrderAction::Nothing;
        }
        if key.kind == KeyEventKind::Press {
            if key.code == KeyCode::Esc {
                self.state.is_focused = false;
            }
            if key.code == KeyCode::Char('e') && self.order.state.active_sid.is_some() {
                self.state.is_editing = true;
                self.editor.set_focus(true);
            }
        }
        let ghost secs = active_sections(*entries);
        let ghost eid = entries.active_entry_id->0;
        let action = self.order.handle(entries, key);
        match action {
            EditOrderAction::RefreshEditSectionEditor => {
                proof {
                    if let Some(sid) = self.order.state.active_sid {
                        let h = old(self).order.state.hovered_index->0;
                        assert(secs[h as int].0 == sid);
                        lemma_first_id_index_bounds(secs, sid);
                        lemma_first_id_index_bounds(entries.entries@, eid);
                    }
                }
                self.refresh_section_buffer(entries);
                EditOrderAction::Nothing
            },
            EditOrderAction::LeaveFocus => {
                self.state.is_focused = false;
                EditOrderAction::Nothing
            },
            other => other,
        }
    }

    /// Whether the view can carry out `key` on `entries`.
    pub fn accepts_key(&self, entries: &LocalEntryState, key: &KeyEvent) -> (r: bool)
        ensures
            r == edit_key_allowed(*self, *entries, *key),
    {
        if !self.state.is_editing {
            return self.order.accepts_key(entries, key);
        }
        if !self.editor.accepts_key(key) {
            return false;
        }
        if self.editor.state.mode == EditMode::Normal && key.kind == KeyEventKind::Press && key.code
            == KeyCode::Esc {
            if let Some(sid) = self.order.state.active_sid {
                let eid = match entries.active_entry_id {
                    Some(id) => id,
                    None => {
                        return false;
                    },
                };
                if entries.get_section_ref(&eid, &sid).is_none() {
                    return false;
                }
                return self.editor.state.lines.len() > 0;
            }
        }
        true
    }

    /// Loads the content of the open section into the editor; an empty text
    /// when no section is open.
    pub fn refresh_section_buffer(&mut self, entries: &LocalEntryState)
        requires
            old(self).order.state.active_sid matches Some(sid) ==> (entries.active_entry_id is Some
                && section_of(entries.entries@, entries.active_entry_id->0, sid) is Some),
        ensures
            loaded(
                old(self).editor@,
                final(self).editor@,
                match old(self).order.state.active_sid {
                    Some(sid) => section_of(entries.entries@, entries.active_entry_id->0, sid)->0.content@,
                    None => Seq::<char>::empty(),
                },
            ),
            final(self).state == old(self).state,
            final(self).order.state == old(self).order.state,
    {
        match self.order.state.active_sid {
            Some(sid) => {
                let eid = match entries.active_entry_id {
                    Some(id) => id,
                    None => 0,
                };
                let content = match entries.get_section_ref(&eid, &sid) {
                    Some(section) => section.content.clone(),
                    None => String::new(),
                };
                self.editor.replace(content);
            },
            None => {
                self.editor.replace(String::new());
            },
        }
        proof {
            assert forall|i: int| 0 <= i < self.editor@.lines.len() implies !(#[trigger] self.editor@.lines[i]).contains('\n') by {}
        }
    }

    /// Leaves the editor: when a section is open, stops editing, drops the
    /// editor's focus and stores the editor's lines, joined by newlines, as
    /// the section's content; says which entry changed when the content is
    /// new.
    pub fn save_section(&mut self, entries: &mut LocalEntryState) -> (r: Option<i64>)
        requires
            old(self).order.state.active_sid matches Some(sid) ==> (old(entries).active_entry_id is Some
                && section_of(old(entries).entries@, old(entries).active_entry_id->0, sid) is Some
                && old(self).editor@.lines.len() > 0),
        ensures
            final(entries).connection == old(entries).connection,
            match old(self).order.state.active_sid {
                None => *final(self) == *old(self) && *final(entries) == *old(entries) && r is None,
                Some(sid) => {
                    let eid = old(entries).active_entry_id->0;
                    let c = join_lines(old(self).editor@.lines);
                    let changed = section_of(old(entries).entries@, eid, sid)->0.content@ != c;
                    &&& !final(self).state.is_editing
                    &&& final(self).state.is_focused == old(self).state.is_focused
                    &&& final(self).state.hovered_index == old(self).state.hovered_index
                    &&& final(self).editor@ == old(self).editor@.with_focus(false)
                    &&& final(self).order.state == old(self).order.state
                    &&& r == if changed {
                        Some(eid)
                    } else {
                        None
                    }
                    &&& changed ==> section_content_set(*old(entries), *final(entries), eid, sid, c)
                    &&& !changed ==> *final(entries) == *old(entries)
                },
            },
    {
        let sid = match self.order.state.active_sid {
            Some(id) => id,
            None => {
                return None;
            },
        };
        let eid = match entries.active_entry_id {
            Some(id) => id,
            None => 0,
        };
        let buffer_content = self.editor.to_content();
        self.state.is_editing = false;
        self.editor.set_focus(false);
        let changed = match entries.get_section_ref(&eid, &sid) {
            Some(section) => section.content != buffer_content,
            None => false,
        };
        if !changed {
            return None;
        }
        match entries.get_section_mut(&eid, &sid) {
            Some(section) => {
                section.content = buffer_content;
            },
            None => {},
        }
        Some(eid)
    }
}

} // verus!
