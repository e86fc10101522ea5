use vstd::prelude::*;

use crate::app::input::{
    KeyCode, KeyEvent, KeyEventKind, is_cycle_backward_hover_key, is_cycle_forward_hover_key,
    spec_is_cycle_backward_hover_key, spec_is_cycle_forward_hover_key,
};
use crate::ids::{first_id_index, lemma_first_id_index_bounds, lemma_lookup_after_update, lookup};
use crate::models::entry::Entry;
use crate::models::layout::{
    Layout, LayoutDetails, LayoutModel, LayoutOrientation, law_read_after_write,
    lemma_replace_twice, lemma_replace_with_self, lemma_valid_path_child, lemma_valid_path_parent,
};
use crate::app::widget::number_field::{NumberField, NumberFieldState, apply_number_edit};
use crate::app::widget::option_menu::{OptionMenu, OptionMenuState};
use crate::app::widget::text_field::{TextEdit, TextField, TextFieldState, apply_text_edit, field_outcome};
use crate::models::layout::{BorderMode, SizeMode};
use crate::services::LocalEntryState;
use crate::app::dialog::confirm_dialog::button_hover_after;
use crate::app::widget::text_field::text_edit_of;
use crate::utils::{cycle_hover, cycle_offset, is_numeric, is_positive_i64, spec_cycle_hover, parse_u16, signed_decimal, spec_cycle_offset, spec_is_positive_i64, spec_parse_u16};

verus! {

broadcast use crate::ids::group_id_index;

/// The overview of the layout tree of the active entry: the node that is
/// selected, by its coordinates, and the hovered child of that node.
pub struct GlyphLayoutOverviewState {
    /// Index of the hovered child of the selected node.
    pub hovered_index: Option<usize>,
    pub selected_coordinate: Vec<usize>,
}

pub struct GlyphLayoutOverview {
    pub state: GlyphLayoutOverviewState,
}

/// What the application does after a key in the layout overview.
#[derive(Clone, Copy, PartialEq, Eq, Structural, Debug)]
pub enum LayoutOverviewAction {
    Nothing,
    /// Show the newly selected node in the edit panel.
    RefreshLayoutEditPanel,
    /// Give the focus back to the page.
    LeaveFocus,
    /// Move to the edit panel.
    StartEditing,
    ScrollPageUp,
    ScrollPageDown,
    ScrollUp,
    ScrollDown,
    /// The layout of the entry with this id changed and is not saved.
    SetEntryUnsavedState(i64),
}

/// The layout tree of the active entry.
pub open spec fn active_layout(e: LocalEntryState) -> LayoutModel {
    lookup(e.entries@, e.active_entry_id->0)->0.layout@
}

/// The selection fits the entries: an entry is active and the selected
/// coordinates name a node of its layout.
pub open spec fn selection_valid(s: GlyphLayoutOverviewState, e: LocalEntryState) -> bool {
    &&& e.active_entry_id is Some
    &&& lookup(e.entries@, e.active_entry_id->0) is Some
    &&& active_layout(e).valid_path(s.selected_coordinate@)
}

/// The overview fits the entries: the selection does, and the hovered index
/// is one of the selected node's children.
pub open spec fn overview_consistent(s: GlyphLayoutOverviewState, e: LocalEntryState) -> bool {
    &&& selection_valid(s, e)
    &&& s.hovered_index matches Some(h) ==> h < active_layout(e).at(
        s.selected_coordinate@,
    ).children.len()
}

/// The keys the overview can carry out: moving the hover and appending a
/// child need the selection to fit the entries; `+`, `-`, `t`, and `x` off
/// the root, need it when an entry is active, and `+` needs room for one
/// more section. The other keys need nothing.
pub open spec fn overview_key_allowed(s: GlyphLayoutOverviewState, e: LocalEntryState, key: KeyEvent) -> bool {
    let c = s.selected_coordinate@;
    let active = e.active_entry_id is Some;
    key.is_press() ==> {
        &&& (spec_is_cycle_forward_hover_key(key) || spec_is_cycle_backward_hover_key(key)) && key.code
            != KeyCode::Up && key.code != KeyCode::Down ==> selection_valid(s, e)
        &&& key.code == KeyCode::Char('A') ==> selection_valid(s, e)
        &&& active && (key.code == KeyCode::Char('+') || key.code == KeyCode::Char('-') || key.code
            == KeyCode::Char('t')) ==> selection_valid(s, e)
        &&& active && key.code == KeyCode::Char('x') && c.len() > 0 ==> selection_valid(s, e)
        &&& active && key.code == KeyCode::Char('+') ==> (active_layout(e).at(c).section_index matches Some(
            i,
        ) ==> i < u16::MAX)
    }
}

/// `+` then `-` on the selected node gives its section back, and leaves the
/// selection, the hover and the rest of the tree as they were; each marks
/// the entry unsaved.
pub proof fn law_next_then_previous_section(
    c: Seq<usize>,
    h: Option<usize>,
    t: LayoutModel,
    eid: i64,
    plus: KeyEvent,
    minus: KeyEvent,
)
    requires
        t.valid_path(c),
        t.at(c).section_index matches Some(i) ==> i < u16::MAX,
        plus.is_press() && plus.code == KeyCode::Char('+'),
        minus.is_press() && minus.code == KeyCode::Char('-'),
    ensures
        ({
            let (c1, h1, t1, a1) = overview_step(c, h, t, plus, eid, true);
            let (c2, h2, t2, a2) = overview_step(c1, h1, t1, minus, eid, true);
            &&& t2 == t
            &&& c2 == c
            &&& h2 == h
            &&& a1 == LayoutOverviewAction::SetEntryUnsavedState(eid)
            &&& a2 == LayoutOverviewAction::SetEntryUnsavedState(eid)
        }),
{
    let n = t.at(c);
    law_read_after_write(t, c, next_section(n));
    assert(previous_section(next_section(n)) == n);
    lemma_replace_twice(t, c, next_section(n), n);
    lemma_replace_with_self(t, c);
}

/// `t` twice on the selected node turns its main axis back, and leaves the
/// selection, the hover and the rest of the tree as they were; each marks
/// the entry unsaved.
pub proof fn law_transpose_twice(c: Seq<usize>, h: Option<usize>, t: LayoutModel, eid: i64, key: KeyEvent)
    requires
        t.valid_path(c),
        key.is_press() && key.code == KeyCode::Char('t'),
    ensures
        ({
            let (c1, h1, t1, a1) = overview_step(c, h, t, key, eid, true);
            let (c2, h2, t2, a2) = overview_step(c1, h1, t1, key, eid, true);
            &&& t2 == t
            &&& c2 == c
            &&& h2 == h
            &&& a1 == LayoutOverviewAction::SetEntryUnsavedState(eid)
            &&& a2 == LayoutOverviewAction::SetEntryUnsavedState(eid)
        }),
{
    let n = t.at(c);
    law_read_after_write(t, c, transposed(n));
    assert(transposed(transposed(n)) == n);
    lemma_replace_twice(t, c, transposed(n), n);
    lemma_replace_with_self(t, c);
}

/// After the layout of the entry `eid` is replaced by itself, nothing has
/// changed: a list of entries is its own replacement by its entry's layout.
pub proof fn lemma_layout_replaced_self(s: Seq<(i64, Entry)>, eid: i64)
    requires
        lookup(s, eid) is Some,
    ensures
        layout_replaced(s, s, eid, lookup(s, eid)->0.layout@),
{
    lemma_first_id_index_bounds(s, eid);
}

/// `after` is `before` with the layout of the first entry with id `eid`
/// given the value `m`; its name, its sections and every other entry stay.
pub open spec fn layout_replaced(before: Seq<(i64, Entry)>, after: Seq<(i64, Entry)>, eid: i64, m: LayoutModel) -> bool {
    let i = first_id_index(before, eid);
    &&& after.len() == before.len()
    &&& forall|j: int| 0 <= j < before.len() && j != i ==> after[j] == before[j]
    &&& after[i].0 == eid
    &&& after[i].1.entry_name == before[i].1.entry_name
    &&& after[i].1.sections == before[i].1.sections
    &&& after[i].1.layout@ == m
}

/// The hovered child after a hover key, among `len` children: one forward or
/// back, wrapping around; the first when there was none and there is one.
pub open spec fn cycled_hover(h: Option<usize>, offset: i16, len: usize) -> Option<usize> {
    match h {
        Some(i) => Some(spec_cycle_offset(i as u16, offset, len as u16) as usize),
        None => if len > 0 {
            Some(0usize)
        } else {
            None
        },
    }
}

/// The node with its section one further: the first when it had none.
pub open spec fn next_section(n: LayoutModel) -> LayoutModel {
    LayoutModel {
        section_index: match n.section_index {
            Some(i) => Some((i + 1) as u16),
            None => Some(0u16),
        },
        ..n
    }
}

/// The node with its section one back: none before the first.
pub open spec fn previous_section(n: LayoutModel) -> LayoutModel {
    LayoutModel {
        section_index: match n.section_index {
            Some(i) => if i == 0 {
                None
            } else {
                Some((i - 1) as u16)
            },
            None => None,
        },
        ..n
    }
}

/// The node with its main axis turned.
pub open spec fn transposed(n: LayoutModel) -> LayoutModel {
    LayoutModel {
        details: LayoutDetails {
            orientation: match n.details.orientation {
                LayoutOrientation::Horizontal => LayoutOrientation::Vertical,
                LayoutOrientation::Vertical => LayoutOrientation::Horizontal,
            },
            ..n.details
        },
        ..n
    }
}


/// An edit of the selected node of a layout tree.
#[derive(Clone, Copy, PartialEq, Eq, Structural, Debug)]
pub enum NodeEdit {
    /// Append an empty child.
    AddChild,
    NextSection,
    PreviousSection,
    /// Turn the main axis.
    Transpose,
}

/// The node after an edit.
pub open spec fn node_edited(n: LayoutModel, op: NodeEdit) -> LayoutModel {
    match op {
        NodeEdit::AddChild => n.push_child(LayoutModel::leaf(Seq::empty())),
        NodeEdit::NextSection => next_section(n),
        NodeEdit::PreviousSection => previous_section(n),
        NodeEdit::Transpose => transposed(n),
    }
}

/// Selected coordinates, hovered child, layout tree and action after a key,
/// for the tree `t` of the entry `eid`; `active` says whether an entry is
/// active at all.
pub open spec fn overview_step(
    c: Seq<usize>,
    h: Option<usize>,
    t: LayoutModel,
    key: KeyEvent,
    eid: i64,
    active: bool,
) -> (
    Seq<usize>,
    Option<usize>,
    LayoutModel,
    LayoutOverviewAction,
) {
    if !key.is_press() {
        (c, h, t, LayoutOverviewAction::Nothing)
    } else if key.code == KeyCode::Esc {
        if c.len() > 0 {
            (c.drop_last(), Some(c.last()), t, LayoutOverviewAction::RefreshLayoutEditPanel)
        } else {
            (c, h, t, LayoutOverviewAction::LeaveFocus)
        }
    } else if key.code == KeyCode::PageUp {
        (c, h, t, LayoutOverviewAction::ScrollPageUp)
    } else if key.code == KeyCode::PageDown {
        (c, h, t, LayoutOverviewAction::ScrollPageDown)
    } else if key.code == KeyCode::Up {
        (c, h, t, LayoutOverviewAction::ScrollUp)
    } else if key.code == KeyCode::Down {
        (c, h, t, LayoutOverviewAction::ScrollDown)
    } else {
        let len = t.at(c).children.len() as usize;
        let h1 = if spec_is_cycle_forward_hover_key(key) {
            cycled_hover(h, 1i16, len)
        } else if spec_is_cycle_backward_hover_key(key) {
            cycled_hover(h, -1i16, len)
        } else {
            h
        };
        let unsaved = LayoutOverviewAction::SetEntryUnsavedState(eid);
        if key.code == KeyCode::Enter && h1 is Some {
            (c.push(h1->0), None, t, LayoutOverviewAction::RefreshLayoutEditPanel)
        } else if key.code == KeyCode::Char('e') {
            (c, h1, t, LayoutOverviewAction::StartEditing)
        } else if key.code == KeyCode::Char('A') {
            (c, h1, t.replace_at(c, t.at(c).push_child(LayoutModel::leaf(Seq::empty()))), unsaved)
        } else if !active && (key.code == KeyCode::Char('x') || key.code == KeyCode::Char('+') || key.code
            == KeyCode::Char('-') || key.code == KeyCode::Char('t')) {
            (c, h1, t, LayoutOverviewAction::Nothing)
        } else if key.code == KeyCode::Char('x') {
            if c.len() == 0 {
                (c, h1, t, LayoutOverviewAction::Nothing)
            } else {
                (c.drop_last(), None, t.remove_at(c), unsaved)
            }
        } else if key.code == KeyCode::Char('+') {
            (c, h1, t.replace_at(c, next_section(t.at(c))), unsaved)
        } else if key.code == KeyCode::Char('-') {
            (c, h1, t.replace_at(c, previous_section(t.at(c))), unsaved)
        } else if key.code == KeyCode::Char('t') {
            (c, h1, t.replace_at(c, transposed(t.at(c))), unsaved)
        } else {
            (c, h1, t, LayoutOverviewAction::Nothing)
        }
    }
}

impl GlyphLayoutOverview {
    /// An overview with the root selected and nothing hovered.
    pub fn new() -> (r: Self)
        ensures
            r.state.hovered_index is None,
            r.state.selected_coordinate@ == Seq::<usize>::empty(),
    {
        GlyphLayoutOverview {
            state: GlyphLayoutOverviewState { hovered_index: None, selected_coordinate: Vec::new() },
        }
    }

    /// The active entry's layout, changed by `f` at the selected node.
    fn edit_selected_node(&mut self, entries: &mut LocalEntryState, op: NodeEdit)
        requires
            selection_valid(old(self).state, *old(entries)),
            op == NodeEdit::NextSection ==> (active_layout(*old(entries)).at(
                old(self).state.selected_coordinate@,
            ).section_index matches Some(i) ==> i < u16::MAX),
        ensures
            final(entries).connection == old(entries).connection,
            ({
                let t = active_layout(*old(entries));
                let c = old(self).state.selected_coordinate@;
                layout_replaced(
                    old(entries).entries@,
                    final(entries).entries@,
                    old(entries).active_entry_id->0,
                    t.replace_at(c, node_edited(t.at(c), op)),
                )
            }),
            final(entries).active_entry_id == old(entries).active_entry_id,
            final(entries).ordered_entries == old(entries).ordered_entries,
            final(entries).updated_entries == old(entries).updated_entries,
            final(self).state == old(self).state,
            selection_valid(final(self).state, *final(entries)),
            overview_consistent(old(self).state, *old(entries)) ==> overview_consistent(
                final(self).state,
                *final(entries),
            ),
    {
        let ghost eid = entries.active_entry_id->0;
        let ghost t = active_layout(*entries);
        let ghost c = self.state.selected_coordinate@;
        let ghost i = first_id_index(entries.entries@, eid);
        match entries.get_active_entry_mut() {
            Some(entry) => {
                let ghost before = *entry;
                match entry.layout.get_layout_at_mut(&self.state.selected_coordinate) {
                    Some(node) => {
                        match op {
                            NodeEdit::AddChild => {
                                let ghost n0 = *node;
                                let fresh = Layout::new("");
                                proof {
                                    reveal_strlit("");
                                    assert(""@ =~= Seq::<char>::empty());
                                    assert(fresh@ == LayoutModel::leaf(Seq::empty()));
                                }
                                node.sub_layouts.push(fresh);
                                proof {
                                    assert(node@.children =~= n0@.children.push(LayoutModel::leaf(Seq::empty())));
                                    assert(node@ =~= node_edited(n0@, op));
                                }
                            },
                            NodeEdit::NextSection => {
                                let ghost n0 = *node;
                                if node.section_index.is_none() {
                                    node.section_index = Some(0);
                                } else {
                                    node.section_index = Some(node.section_index.unwrap() + 1);
                                }
                                assert(node@.children =~= n0@.children);
                            },
                            NodeEdit::PreviousSection => {
                                let ghost n0 = *node;
                                if let Some(index) = node.section_index {
                                    if index == 0 {
                                        node.section_index = None;
                                    } else {
                                        node.section_index = Some(index - 1);
                                    }
                                }
                                assert(node@.children =~= n0@.children);
                            },
                            NodeEdit::Transpose => {
                                let ghost n0 = *node;
                                match node.details.orientation {
                                    LayoutOrientation::Horizontal => {
                                        node.details.orientation = LayoutOrientation::Vertical;
                                    },
                                    LayoutOrientation::Vertical => {
                                        node.details.orientation = LayoutOrientation::Horizontal;
                                    },
                                }
                                assert(node@.children =~= n0@.children);
                            },
                        }
                    },
                    None => {},
                }
                proof {
                    assert(entry.entry_name == before.entry_name);
                }
            },
            None => {},
        }
        proof {
            let n = node_edited(t.at(c), op);
            law_read_after_write(t, c, n);
            lemma_lookup_after_update(old(entries).entries@, eid, entries.entries@[i].1);
            assert(entries.entries@ =~= old(entries).entries@.update(i, (eid, entries.entries@[i].1)));
        }
    }

    /// Takes the selected node out of the active entry's layout and selects
    /// its parent, with nothing hovered.
    fn remove_selected_node(&mut self, entries: &mut LocalEntryState)
        requires
            selection_valid(old(self).state, *old(entries)),
            old(self).state.selected_coordinate@.len() > 0,
        ensures
            final(entries).connection == old(entries).connection,
            layout_replaced(
                old(entries).entries@,
                final(entries).entries@,
                old(entries).active_entry_id->0,
                active_layout(*old(entries)).remove_at(old(self).state.selected_coordinate@),
            ),
            final(entries).active_entry_id == old(entries).active_entry_id,
            final(entries).ordered_entries == old(entries).ordered_entries,
            final(entries).updated_entries == old(entries).updated_entries,
            final(self).state.selected_coordinate@ == old(self).state.selected_coordinate@.drop_last(),
            final(self).state.hovered_index is None,
            overview_consistent(final(self).state, *final(entries)),
    {
        let ghost eid = entries.active_entry_id->0;
        let ghost t = active_layout(*entries);
        let ghost c = self.state.selected_coordinate@;
        let ghost i = first_id_index(entries.entries@, eid);
        let target = self.state.selected_coordinate.clone();
        assert(target@ =~= c);
        self.state.hovered_index = None;
        self.state.selected_coordinate.pop();
        match entries.get_active_entry_mut() {
            Some(entry) => {
                let ghost before = *entry;
                let _ = entry.layout.remove_sublayout(&target);
                proof {
                    assert(entry.entry_name == before.entry_name);
                }
            },
            None => {},
        }
        proof {
            lemma_valid_path_parent(t, c);
            law_read_after_write(t, c.drop_last(), t.at(c.drop_last()).remove_child(c.last() as int));
            lemma_lookup_after_update(old(entries).entries@, eid, entries.entries@[i].1);
            assert(entries.entries@ =~= old(entries).entries@.update(i, (eid, entries.entries@[i].1)));
        }
    }

    /// Acts on a key: Esc selects the parent node, hovering the node left, or
    /// at the root gives the focus back; the page keys and Up and Down
    /// scroll; the hover keys move the hover; Enter selects the hovered
    /// child; `e` moves to the edit panel; `A` appends an empty child to the
    /// selected node, `x` removes it, `+` and `-` move its section, `t` turns
    /// its main axis, each marking the entry unsaved.
    pub fn handle(&mut self, entries: &mut LocalEntryState, key: &KeyEvent) -> (r: LayoutOverviewAction)
        requires
            overview_key_allowed(old(self).state, *old(entries), *key),
        ensures
            final(entries).connection == old(entries).connection,
            ({
                let (c, h, t, a) = overview_step(
                    old(self).state.selected_coordinate@,
                    old(self).state.hovered_index,
                    active_layout(*old(entries)),
                    *key,
                    old(entries).active_entry_id->0,
                    old(entries).active_entry_id is Some,
                );
                &&& final(self).state.selected_coordinate@ == c
                &&& final(self).state.hovered_index == h
                &&& r == a
                &&& a is SetEntryUnsavedState ==> layout_replaced(
                    old(entries).entries@,
                    final(entries).entries@,
                    old(entries).active_entry_id->0,
                    t,
                )
                &&& !(a is SetEntryUnsavedState) ==> *final(entries) == *old(entries)
            }),
            final(entries).active_entry_id == old(entries).active_entry_id,
            final(entries).ordered_entries == old(entries).ordered_entries,
            final(entries).updated_entries == old(entries).updated_entries,
            overview_consistent(old(self).state, *old(entries)) ==> overview_consistent(
                final(self).state,
                *final(entries),
            ),
    {
        let ghost t = active_layout(*entries);
        let ghost c = self.state.selected_coordinate@;
        proof {
            let eid = entries.active_entry_id->0;
            lemma_first_id_index_bounds(entries.entries@, eid);
        }
        if key.kind != KeyEventKind::Press {
            return LayoutOverviewAction::Nothing;
        }
        match key.code {
            KeyCode::Esc => {
                if self.state.selected_coordinate.len() > 0 {
                    let index = self.state.selected_coordinate.pop();
                    self.state.hovered_index = index;
                    proof {
                        if selection_valid(old(self).state, *old(entries)) {
                            lemma_valid_path_parent(t, c);
                        }
                    }
                    return LayoutOverviewAction::RefreshLayoutEditPanel;
                } else {
                    return LayoutOverviewAction::LeaveFocus;
                }
            },
            KeyCode::PageUp => {
                return LayoutOverviewAction::ScrollPageUp;
            },
            KeyCode::PageDown => {
                return LayoutOverviewAction::ScrollPageDown;
            },
            KeyCode::Up => {
                return LayoutOverviewAction::ScrollUp;
            },
            KeyCode::Down => {
                return LayoutOverviewAction::ScrollDown;
            },
            _ => {},
        }
        if is_cycle_forward_hover_key(key) {
            self.cycle_layout_hover(entries, 1);
        } else if is_cycle_backward_hover_key(key) {
            self.cycle_layout_hover(entries, -1);
        }
        if key.code == KeyCode::Enter {
            if let Some(hovered_index) = self.state.hovered_index {
                proof {
                    if overview_consistent(old(self).state, *old(entries)) {
                        lemma_valid_path_child(t, c, hovered_index);
                    }
                }
                self.state.selected_coordinate.push(hovered_index);
                self.state.hovered_index = None;
                return LayoutOverviewAction::RefreshLayoutEditPanel;
            }
        }
        let eid = match entries.active_entry_id {
            Some(id) => id,
            None => 0,
        };
        match key.code {
            KeyCode::Char(ch) => {
                if ch == 'e' {
                    LayoutOverviewAction::StartEditing
                } else if ch == 'A' {
                    self.edit_selected_node(entries, NodeEdit::AddChild);
                    LayoutOverviewAction::SetEntryUnsavedState(eid)
                } else if entries.active_entry_id.is_none() && (ch == 'x' || ch == '+' || ch == '-' || ch
                    == 't') {
                    LayoutOverviewAction::Nothing
                } else if ch == 'x' {
                    if self.state.selected_coordinate.len() == 0 {
                        return LayoutOverviewAction::Nothing;
                    }
                    self.remove_selected_node(entries);
                    LayoutOverviewAction::SetEntryUnsavedState(eid)
                } else if ch == '+' {
                    self.edit_selected_node(entries, NodeEdit::NextSection);
                    LayoutOverviewAction::SetEntryUnsavedState(eid)
                } else if ch == '-' {
                    self.edit_selected_node(entries, NodeEdit::PreviousSection);
                    LayoutOverviewAction::SetEntryUnsavedState(eid)
                } else if ch == 't' {
                    self.edit_selected_node(entries, NodeEdit::Transpose);
                    LayoutOverviewAction::SetEntryUnsavedState(eid)
                } else {
                    LayoutOverviewAction::Nothing
                }
            },
            _ => LayoutOverviewAction::Nothing,
        }
    }

    /// Whether the overview fits `entries`: an entry is active, the selected
    /// coordinates name a node of its layout, and the hovered index is one of
    /// that node's children.
    pub fn fits(&self, entries: &LocalEntryState) -> (r: bool)
        ensures
            r == overview_consistent(self.state, *entries),
    {
        match entries.get_active_entry_ref() {
            Some(entry) => {
                if !entry.layout.has_path(&self.state.selected_coordinate) {
                    return false;
                }
                match self.state.hovered_index {
                    Some(h) => {
                        let node = entry.layout.get_layout_at_ref(&self.state.selected_coordinate).unwrap();
                        h < node.sub_layouts.len()
                    },
                    None => true,
                }
            },
            None => false,
        }
    }

    /// Moves the hover `offset` children (1 or -1) among the children of the
    /// selected node, wrapping around; the first child when none was hovered.
    pub fn cycle_layout_hover(&mut self, entries: &LocalEntryState, offset: i16)
        requires
            selection_valid(old(self).state, *entries),
        ensures
            final(self).state.hovered_index == cycled_hover(
                old(self).state.hovered_index,
                offset,
                active_layout(*entries).at(old(self).state.selected_coordinate@).children.len() as usize,
            ),
            final(self).state.selected_coordinate == old(self).state.selected_coordinate,
            overview_consistent(old(self).state, *entries) ==> overview_consistent(final(self).state, *entries),
    {
        let len = match entries.get_active_entry_ref() {
            Some(entry) => {
                match entry.layout.get_layout_at_ref(&self.state.selected_coordinate) {
                    Some(node) => node.sub_layouts.len(),
                    None => 0,
                }
            },
            None => 0,
        };
        if let Some(hover_index) = self.state.hovered_index {
            let next = cycle_offset(hover_index as u16, offset, len as u16);
            self.state.hovered_index = Some(next as usize);
        } else {
            if len > 0 {
                self.state.hovered_index = Some(0);
            }
        }
    }
}

/// The code of a size mode in the edit panel's menu.
pub open spec fn spec_size_mode_code(m: SizeMode) -> u8 {
    match m {
        SizeMode::Flex => 0,
        SizeMode::Length => 1,
    }
}

/// The size mode of a code of the edit panel's menu, if it is one.
pub open spec fn spec_size_mode_of(code: u8) -> Option<SizeMode> {
    if code == 0 {
        Some(SizeMode::Flex)
    } else if code == 1 {
        Some(SizeMode::Length)
    } else {
        None
    }
}

/// The code of a border in the edit panel's menu.
pub open spec fn spec_border_mode_code(m: BorderMode) -> u8 {
    match m {
        BorderMode::Borderless => 0,
        BorderMode::Plain => 1,
        BorderMode::Dashed => 2,
        BorderMode::Rounded => 3,
    }
}

/// The border of a code of the edit panel's menu, if it is one.
pub open spec fn spec_border_mode_of(code: u8) -> Option<BorderMode> {
    if code == 0 {
        Some(BorderMode::Borderless)
    } else if code == 1 {
        Some(BorderMode::Plain)
    } else if code == 2 {
        Some(BorderMode::Dashed)
    } else if code == 3 {
        Some(BorderMode::Rounded)
    } else {
        None
    }
}

pub fn size_mode_code(m: SizeMode) -> (r: u8)
    ensures
        r == spec_size_mode_code(m),
{
    match m {
        SizeMode::Flex => 0,
        SizeMode::Length => 1,
    }
}

pub fn size_mode_of(code: u8) -> (r: Option<SizeMode>)
    ensures
        r == spec_size_mode_of(code),
{
    if code == 0 {
        Some(SizeMode::Flex)
    } else if code == 1 {
        Some(SizeMode::Length)
    } else {
        None
    }
}

pub fn border_mode_code(m: BorderMode) -> (r: u8)
    ensures
        r == spec_border_mode_code(m),
{
    match m {
        BorderMode::Borderless => 0,
        BorderMode::Plain => 1,
        BorderMode::Dashed => 2,
        BorderMode::Rounded => 3,
    }
}

pub fn border_mode_of(code: u8) -> (r: Option<BorderMode>)
    ensures
        r == spec_border_mode_of(code),
{
    if code == 0 {
        Some(BorderMode::Borderless)
    } else if code == 1 {
        Some(BorderMode::Plain)
    } else if code == 2 {
        Some(BorderMode::Dashed)
    } else if code == 3 {
        Some(BorderMode::Rounded)
    } else {
        None
    }
}

/// A size mode shown in the menu reads back as the same size mode, and the
/// codes of the menu are exactly those of size modes.
pub proof fn law_size_mode_code_round_trip(m: SizeMode, code: u8)
    ensures
        spec_size_mode_of(spec_size_mode_code(m)) == Some(m),
        spec_size_mode_of(code) matches Some(x) ==> spec_size_mode_code(x) == code,
        spec_size_mode_of(code) is Some <==> code < 2,
{
}

/// A border shown in the menu reads back as the same border, and the codes
/// of the menu are exactly those of borders.
pub proof fn law_border_mode_code_round_trip(m: BorderMode, code: u8)
    ensures
        spec_border_mode_of(spec_border_mode_code(m)) == Some(m),
        spec_border_mode_of(code) matches Some(x) ==> spec_border_mode_code(x) == code,
        spec_border_mode_of(code) is Some <==> code < 4,
{
}

/// A change of one setting of a node of a layout.
pub enum DetailEdit {
    Label(String),
    Length(u16),
    Flex(u16),
    Size(SizeMode),
    Border(BorderMode),
}

/// The node with the setting changed.
pub open spec fn detail_edited(n: LayoutModel, e: DetailEdit) -> LayoutModel {
    match e {
        DetailEdit::Label(l) => LayoutModel { label: l@, ..n },
        DetailEdit::Length(v) => LayoutModel { details: LayoutDetails { length: v, ..n.details }, ..n },
        DetailEdit::Flex(v) => LayoutModel { details: LayoutDetails { flex: v, ..n.details }, ..n },
        DetailEdit::Size(m) => LayoutModel { details: LayoutDetails { size_mode: m, ..n.details }, ..n },
        DetailEdit::Border(m) => LayoutModel { details: LayoutDetails { border_mode: m, ..n.details }, ..n },
    }
}

/// Changes one setting of the node at `coordinate` of the active entry's
/// layout; says which entry changed when the setting is new.
pub fn set_node_detail(entries: &mut LocalEntryState, coordinate: &Vec<usize>, edit: DetailEdit) -> (r: Option<i64>)
    requires
        old(entries).active_entry_id is Some,
        lookup(old(entries).entries@, old(entries).active_entry_id->0) is Some,
        active_layout(*old(entries)).valid_path(coordinate@),
    ensures
        final(entries).connection == old(entries).connection,
        ({
            let t = active_layout(*old(entries));
            let n = t.at(coordinate@);
            let changed = detail_edited(n, edit) != n;
            let eid = old(entries).active_entry_id->0;
            &&& r == if changed {
                Some(eid)
            } else {
                None
            }
            &&& layout_replaced(
                old(entries).entries@,
                final(entries).entries@,
                eid,
                t.replace_at(coordinate@, detail_edited(n, edit)),
            )
            &&& final(entries).active_entry_id == old(entries).active_entry_id
            &&& final(entries).ordered_entries == old(entries).ordered_entries
            &&& final(entries).updated_entries == old(entries).updated_entries
            &&& lookup(final(entries).entries@, eid) is Some
            &&& keeps_shape(*old(entries), *final(entries), coordinate@)
        }),
{
    let ghost eid = entries.active_entry_id->0;
    let ghost t = active_layout(*entries);
    let ghost c = coordinate@;
    let ghost i = first_id_index(entries.entries@, eid);
    let id = match entries.active_entry_id {
        Some(id) => id,
        None => 0,
    };
    let mut changed = false;
    match entries.get_active_entry_mut() {
        Some(entry) => {
            let ghost before = *entry;
            match entry.layout.get_layout_at_mut(coordinate) {
                Some(node) => {
                    let ghost n0 = *node;
                    match edit {
                        DetailEdit::Label(l) => {
                            if !(node.label == l) {
                                node.label = l;
                                changed = true;
                            }
                        },
                        DetailEdit::Length(v) => {
                            if node.details.length != v {
                                node.details.length = v;
                                changed = true;
                            }
                        },
                        DetailEdit::Flex(v) => {
                            if node.details.flex != v {
                                node.details.flex = v;
                                changed = true;
                            }
                        },
                        DetailEdit::Size(m) => {
                            if node.details.size_mode != m {
                                node.details.size_mode = m;
                                changed = true;
                            }
                        },
                        DetailEdit::Border(m) => {
                            if node.details.border_mode != m {
                                node.details.border_mode = m;
                                changed = true;
                            }
                        },
                    }
                    proof {
                        assert(node@.children =~= n0@.children);
                        assert(node@ =~= detail_edited(n0@, edit));
                    }
                },
                None => {},
            }
            proof {
                assert(entry.entry_name == before.entry_name);
            }
        },
        None => {},
    }
    proof {
        let n = detail_edited(t.at(c), edit);
        law_read_after_write(t, c, n);
        lemma_lookup_after_update(old(entries).entries@, eid, entries.entries@[i].1);
        assert(entries.entries@ =~= old(entries).entries@.update(i, (eid, entries.entries@[i].1)));
        assert(n.children == t.at(c).children);
    }
    if changed {
        Some(id)
    } else {
        None
    }
}

/// The panel that edits the settings of the selected node: a label field,
/// a size menu, a border menu, a length field, a flex field and a Revert
/// button, in the order the hover goes through them.
pub struct GlyphLayoutEditState {
    pub hovered_index: Option<usize>,
}

pub struct GlyphLayoutEditView {
    pub state: GlyphLayoutEditState,
    pub label_field: TextField,
    pub size_menu: OptionMenu,
    pub border_menu: OptionMenu,
    pub length_field: NumberField,
    pub flex_field: NumberField,
}

/// What the application does after a key in the edit panel.
#[derive(Clone, Copy, PartialEq, Eq, Structural, Debug)]
pub enum LayoutEditAction {
    Nothing,
    /// Go back to the overview.
    StopEditing,
    /// The layout of the entry with this id changed and is not saved.
    SetEntryUnsavedState(i64),
    /// Load the selected node's settings into the panel again.
    RefreshLayoutEditPanel,
    /// A menu holds a value that names no setting.
    InvalidMenuValue,
}

/// Any label is valid.
pub fn accept_any_label(label: &str) -> (r: bool)
    ensures
        r,
{
    true
}

/// The panel's settings show those of `n`.
pub open spec fn panel_shows(v: GlyphLayoutEditView, n: LayoutModel) -> bool {
    &&& v.label_field.state.chars@ == n.label
    &&& v.size_menu.state.current_index == spec_size_mode_code(n.details.size_mode)
    &&& v.border_menu.state.current_index == spec_border_mode_code(n.details.border_mode)
    &&& v.length_field.state.chars@ == signed_decimal((n.details.length as i16) as int)
    &&& v.flex_field.state.chars@ == signed_decimal((n.details.flex as i16) as int)
}

/// A panel as it is made: nothing hovered, no field focused, every field
/// valid with its title and its cursor at its end, an empty label, 0 as
/// length and flex, the menus on their first option, with the option labels
/// of the sizes and the borders.
pub open spec fn fresh_panel(r: GlyphLayoutEditView) -> bool {
    &&& r.state.hovered_index is None
    &&& menus_well_formed(r)
    &&& !r.label_field.state.is_focused
    &&& !r.length_field.state.is_focused
    &&& !r.flex_field.state.is_focused
    &&& r.label_field.state.chars@.len() == 0
    &&& r.label_field.state.label@ == "Label"@
    &&& r.label_field.state.cursor_index == 0
    &&& r.label_field.state.is_valid
    &&& r.length_field.state.chars@ == signed_decimal(0)
    &&& r.length_field.state.label@ == "Length"@
    &&& r.length_field.state.cursor_index == r.length_field.state.chars@.len()
    &&& r.length_field.state.is_valid
    &&& r.flex_field.state.chars@ == signed_decimal(0)
    &&& r.flex_field.state.label@ == "Flex"@
    &&& r.flex_field.state.cursor_index == r.flex_field.state.chars@.len()
    &&& r.flex_field.state.is_valid
    &&& r.size_menu.state.current_index == 0
    &&& r.border_menu.state.current_index == 0
    &&& r.size_menu.state.options@[0].0@ == "Flex"@
    &&& r.size_menu.state.options@[1].0@ == "Length"@
    &&& r.border_menu.state.options@[0].0@ == "Border: None"@
    &&& r.border_menu.state.options@[1].0@ == "Border: Plain"@
    &&& r.border_menu.state.options@[2].0@ == "Border: Dashed"@
    &&& r.border_menu.state.options@[3].0@ == "Border: Rounded"@
}

/// The panel `f` has the hover of `o`, and its fields have the focus that
/// those of `o` have.
pub open spec fn panel_focus_kept(o: GlyphLayoutEditView, f: GlyphLayoutEditView) -> bool {
    &&& f.state == o.state
    &&& f.label_field.state.is_focused == o.label_field.state.is_focused
    &&& f.length_field.state.is_focused == o.length_field.state.is_focused
    &&& f.flex_field.state.is_focused == o.flex_field.state.is_focused
}

/// The menus hold their options: two sizes and four borders.
pub open spec fn menus_well_formed(v: GlyphLayoutEditView) -> bool {
    &&& v.size_menu.state.options@.len() == 2
    &&& v.border_menu.state.options@.len() == 4
    &&& v.size_menu.state.current_index < 2
    &&& v.border_menu.state.current_index < 4
    &&& forall|i: int| 0 <= i < 2 ==> (#[trigger] v.size_menu.state.options@[i]).1 == i
    &&& forall|i: int| 0 <= i < 4 ==> (#[trigger] v.border_menu.state.options@[i]).1 == i
}

/// The keys the edit panel can carry out on the node at `c`: an entry is
/// active, `c` names a node of its layout, the menus hold their options, the
/// focused field can take the key, and the flex field holds a number when
/// it is left.
pub open spec fn panel_key_allowed(o: GlyphLayoutEditView, e: LocalEntryState, c: Seq<usize>, key: KeyEvent) -> bool {
    let label = o.label_field.state;
    let length = o.length_field.state;
    let flex = o.flex_field.state;
    &&& e.active_entry_id is Some
    &&& lookup(e.entries@, e.active_entry_id->0) is Some
    &&& active_layout(e).valid_path(c)
    &&& menus_well_formed(o)
    &&& label.is_focused && key.is_press() ==> match text_edit_of(key) {
        Some(x) => crate::app::widget::text_field::edit_allowed(label.chars@, label.cursor_index, x),
        None => true,
    }
    &&& !label.is_focused && length.is_focused && key.is_press() ==> match text_edit_of(key) {
        Some(x) => crate::app::widget::number_field::number_edit_allowed(length.chars@, length.cursor_index, x),
        None => true,
    }
    &&& !label.is_focused && !length.is_focused && flex.is_focused && key.is_press() ==> match text_edit_of(
        key,
    ) {
        Some(x) => crate::app::widget::number_field::number_edit_allowed(flex.chars@, flex.cursor_index, x),
        None => true,
    }
    &&& !label.is_focused && !length.is_focused && flex.is_focused && key.is_press() && key.code
        == KeyCode::Esc ==> spec_parse_u16(flex.chars@) is Some
}

/// The active entry is still found, `c` still names a node of its layout,
/// and that node has the same children.
pub open spec fn keeps_shape(e: LocalEntryState, fe: LocalEntryState, c: Seq<usize>) -> bool {
    &&& fe.active_entry_id == e.active_entry_id
    &&& lookup(fe.entries@, fe.active_entry_id->0) is Some
    &&& active_layout(fe).valid_path(c)
    &&& active_layout(fe).at(c).children == active_layout(e).at(c).children
}

/// The panel `f`, the entries `fe` and the action `r` after `key`, from the
/// panel `o` and the entries `e`, for the node at `c`.
pub open spec fn panel_step(
    o: GlyphLayoutEditView,
    e: LocalEntryState,
    c: Seq<usize>,
    key: KeyEvent,
    f: GlyphLayoutEditView,
    fe: LocalEntryState,
    r: LayoutEditAction,
) -> bool {
    &&& menus_well_formed(f)
    &&& keeps_shape(e, fe, c)
    &&& fe.active_entry_id == e.active_entry_id
    &&& fe.ordered_entries == e.ordered_entries
    &&& fe.updated_entries == e.updated_entries
    &&& {
        let t = active_layout(e);
        let n = t.at(c);
        let eid = e.active_entry_id->0;
        let stores = |m: LayoutModel|
            layout_replaced(e.entries@, fe.entries@, eid, t.replace_at(c, m))
                && r == if m != n {
                LayoutEditAction::SetEntryUnsavedState(eid)
            } else {
                LayoutEditAction::Nothing
            };
        let keeps = fe.entries == e.entries;
        let exits = key.is_press() && key.code == KeyCode::Esc;
        if o.label_field.state.is_focused {
            let (_, t1, k1, _) = field_outcome(
                true,
                o.label_field.state.chars@,
                o.label_field.state.cursor_index,
                key,
                |x: Seq<char>, i: usize, d: TextEdit| apply_text_edit(x, i, d),
            );
            &&& exits ==> stores(LayoutModel { label: f.label_field.state.chars@, ..n })
            &&& !exits ==> keeps && r == LayoutEditAction::Nothing
            &&& f.label_field.state.is_focused == !exits
            &&& f.label_field.state.chars@ == t1
            &&& f.label_field.state.cursor_index == k1
            &&& f.label_field.state.label == o.label_field.state.label
            &&& f == (GlyphLayoutEditView { label_field: f.label_field, ..o })
        } else if o.length_field.state.is_focused {
            let (_, t1, k1, _) = field_outcome(
                true,
                o.length_field.state.chars@,
                o.length_field.state.cursor_index,
                key,
                |x: Seq<char>, i: usize, d: TextEdit| apply_number_edit(x, i, d),
            );
            &&& exits ==> stores(
                LayoutModel {
                    details: LayoutDetails {
                        length: match spec_parse_u16(o.length_field.state.chars@) {
                            Some(v) => v,
                            None => 42u16,
                        },
                        ..n.details
                    },
                    ..n
                },
            )
            &&& !exits ==> keeps && r == LayoutEditAction::Nothing
            &&& f.length_field.state.is_focused == !exits
            &&& f.length_field.state.chars@ == t1
            &&& f.length_field.state.cursor_index == k1
            &&& f.length_field.state.label == o.length_field.state.label
            &&& f == (GlyphLayoutEditView { length_field: f.length_field, ..o })
        } else if o.flex_field.state.is_focused {
            let (_, t1, k1, _) = field_outcome(
                true,
                o.flex_field.state.chars@,
                o.flex_field.state.cursor_index,
                key,
                |x: Seq<char>, i: usize, d: TextEdit| apply_number_edit(x, i, d),
            );
            &&& exits ==> stores(
                LayoutModel {
                    details: LayoutDetails {
                        flex: spec_parse_u16(o.flex_field.state.chars@)->0,
                        ..n.details
                    },
                    ..n
                },
            )
            &&& !exits ==> keeps && r == LayoutEditAction::Nothing
            &&& f.flex_field.state.is_focused == !exits
            &&& f.flex_field.state.chars@ == t1
            &&& f.flex_field.state.cursor_index == k1
            &&& f.flex_field.state.label == o.flex_field.state.label
            &&& f == (GlyphLayoutEditView { flex_field: f.flex_field, ..o })
        } else if !key.is_press() {
            keeps && f == o && r == LayoutEditAction::Nothing
        } else if key.code == KeyCode::Esc {
            keeps && f == o && r == LayoutEditAction::StopEditing
        } else if spec_is_cycle_forward_hover_key(key) || spec_is_cycle_backward_hover_key(key) {
            &&& keeps
            &&& f == (GlyphLayoutEditView {
                state: GlyphLayoutEditState { hovered_index: button_hover_after(o.state.hovered_index, key, 6) },
                ..o
            })
            &&& r == LayoutEditAction::Nothing
        } else if key.code == KeyCode::Enter && o.state.hovered_index == Some(1usize) {
            let k = ((o.size_menu.state.current_index + 1) % 2) as u8;
            &&& f == (GlyphLayoutEditView {
                size_menu: OptionMenu { state: OptionMenuState { current_index: k, ..o.size_menu.state } },
                ..o
            })
            &&& stores(
                LayoutModel {
                    details: LayoutDetails { size_mode: spec_size_mode_of(k)->0, ..n.details },
                    ..n
                },
            )
        } else if key.code == KeyCode::Enter && o.state.hovered_index == Some(2usize) {
            let k = ((o.border_menu.state.current_index + 1) % 4) as u8;
            &&& f == (GlyphLayoutEditView {
                border_menu: OptionMenu { state: OptionMenuState { current_index: k, ..o.border_menu.state } },
                ..o
            })
            &&& stores(
                LayoutModel {
                    details: LayoutDetails { border_mode: spec_border_mode_of(k)->0, ..n.details },
                    ..n
                },
            )
        } else if key.code == KeyCode::Enter && o.state.hovered_index == Some(5usize) {
            keeps && f == o && r == LayoutEditAction::RefreshLayoutEditPanel
        } else {
            let enter = key.code == KeyCode::Enter;
            &&& keeps
            &&& r == LayoutEditAction::Nothing
            &&& f == (GlyphLayoutEditView {
                label_field: TextField {
                    state: TextFieldState {
                        is_focused: enter && o.state.hovered_index == Some(0usize),
                        ..o.label_field.state
                    },
                },
                length_field: NumberField {
                    state: NumberFieldState {
                        is_focused: enter && o.state.hovered_index == Some(3usize),
                        ..o.length_field.state
                    },
                },
                flex_field: NumberField {
                    state: NumberFieldState {
                        is_focused: enter && o.state.hovered_index == Some(4usize),
                        ..o.flex_field.state
                    },
                },
                ..o
            })
        }
    }
}

impl GlyphLayoutEditView {
    /// A panel with nothing hovered, empty fields, and the menus on their
    /// first option.
    pub fn new() -> (r: Self)
        ensures
            fresh_panel(r),
    {
        let mut sizes: Vec<(String, u8)> = Vec::new();
        sizes.push((String::from_str("Flex"), 0));
        sizes.push((String::from_str("Length"), 1));
        let mut borders: Vec<(String, u8)> = Vec::new();
        borders.push((String::from_str("Border: None"), 0));
        borders.push((String::from_str("Border: Plain"), 1));
        borders.push((String::from_str("Border: Dashed"), 2));
        borders.push((String::from_str("Border: Rounded"), 3));
        proof {
            reveal_strlit("");
        }
        GlyphLayoutEditView {
            state: GlyphLayoutEditState { hovered_index: None },
            label_field: TextField::new("Label", ""),
            size_menu: OptionMenu::new(sizes, 0),
            border_menu: OptionMenu::new(borders, 0),
            length_field: NumberField::new("Length", 0),
            flex_field: NumberField::new("Flex", 0),
        }
    }

    /// Moves the hover among the six parts.
    pub fn cycle_hover(&mut self, offset: i16)
        ensures
            *final(self) == (GlyphLayoutEditView {
                state: GlyphLayoutEditState {
                    hovered_index: spec_cycle_hover(old(self).state.hovered_index, offset, 6),
                },
                ..*old(self)
            }),
    {
        self.state.hovered_index = cycle_hover(self.state.hovered_index, offset, 6);
    }

    /// Loads the settings of the node at `coordinate` of the active entry's
    /// layout into the panel.
    pub fn refresh_layout_edit_panel(&mut self, entries: &LocalEntryState, coordinate: &Vec<usize>)
        requires
            entries.active_entry_id is Some,
            lookup(entries.entries@, entries.active_entry_id->0) is Some,
            active_layout(*entries).valid_path(coordinate@),
            menus_well_formed(*old(self)),
        ensures
            panel_shows(*final(self), active_layout(*entries).at(coordinate@)),
            menus_well_formed(*final(self)),
            panel_focus_kept(*old(self), *final(self)),
    {
        match entries.get_active_entry_ref() {
            Some(entry) => {
                match entry.layout.get_layout_at_ref(coordinate) {
                    Some(node) => {
                        self.label_field.replace(node.label.clone());
                        self.size_menu.replace(size_mode_code(node.details.size_mode));
                        self.border_menu.replace(border_mode_code(node.details.border_mode));
                        self.length_field.replace(node.details.length as i16);
                        self.flex_field.replace(node.details.flex as i16);
                    },
                    None => {},
                }
            },
            None => {},
        }
    }

    /// Whether the menus hold their options: two sizes and four borders,
    /// each valued by its place.
    pub fn menus_hold_options(&self) -> (r: bool)
        ensures
            r == menus_well_formed(*self),
    {
        if self.size_menu.state.options.len() != 2 || self.border_menu.state.options.len() != 4 {
            return false;
        }
        if self.size_menu.state.current_index >= 2 || self.border_menu.state.current_index >= 4 {
            return false;
        }
        let mut i: usize = 0;
        while i < 2
            invariant
                0 <= i <= 2,
                self.size_menu.state.options@.len() == 2,
                forall|j: int| 0 <= j < i ==> (#[trigger] self.size_menu.state.options@[j]).1 == j,
            decreases 2 - i,
        {
            if self.size_menu.state.options[i].1 as usize != i {
                return false;
            }
            i = i + 1;
        }
        let mut k: usize = 0;
        while k < 4
            invariant
                0 <= k <= 4,
                self.border_menu.state.options@.len() == 4,
                forall|j: int| 0 <= j < k ==> (#[trigger] self.border_menu.state.options@[j]).1 == j,
            decreases 4 - k,
        {
            if self.border_menu.state.options[k].1 as usize != k {
                return false;
            }
            k = k + 1;
        }
        true
    }

    /// Whether the panel can carry out `key` on the node at `coordinate`.
    pub fn accepts_key(&self, entries: &LocalEntryState, coordinate: &Vec<usize>, key: &KeyEvent) -> (r: bool)
        ensures
            r == panel_key_allowed(*self, *entries, coordinate@, *key),
    {
        match entries.get_active_entry_ref() {
            Some(entry) => {
                if !entry.layout.has_path(coordinate) {
                    return false;
                }
            },
            None => {
                return false;
            },
        }
        if !self.menus_hold_options() {
            return false;
        }
        if key.kind != KeyEventKind::Press {
            return true;
        }
        let label = &self.label_field.state;
        let length = &self.length_field.state;
        let flex = &self.flex_field.state;
        let typed: Option<char> = match key.code {
            KeyCode::Char(c) => Some(c),
            _ => None,
        };
        if label.is_focused {
            return match typed {
                Some(_) => label.cursor_index <= label.chars.len() && label.chars.len() < usize::MAX,
                None => true,
            };
        }
        if length.is_focused {
            return match typed {
                Some(c) => !is_numeric(c) || (length.cursor_index <= length.chars.len()
                    && length.chars.len() < usize::MAX),
                None => true,
            };
        }
        if flex.is_focused {
            let typing_ok = match typed {
                Some(c) => !is_numeric(c) || (flex.cursor_index <= flex.chars.len() && flex.chars.len()
                    < usize::MAX),
                None => true,
            };
            if !typing_ok {
                return false;
            }
            if key.code == KeyCode::Esc {
                let text = self.flex_field.text();
                return parse_u16(text.as_str()).is_some();
            }
        }
        true
    }

    /// Stores a new setting into the node at `coordinate` and says what to do next.
    fn store_detail(entries: &mut LocalEntryState, coordinate: &Vec<usize>, edit: DetailEdit) -> (r: LayoutEditAction)
        requires
            old(entries).active_entry_id is Some,
            lookup(old(entries).entries@, old(entries).active_entry_id->0) is Some,
            active_layout(*old(entries)).valid_path(coordinate@),
        ensures
            final(entries).connection == old(entries).connection,
            ({
                let t = active_layout(*old(entries));
                let n = t.at(coordinate@);
                let eid = old(entries).active_entry_id->0;
                &&& r == if detail_edited(n, edit) != n {
                    LayoutEditAction::SetEntryUnsavedState(eid)
                } else {
                    LayoutEditAction::Nothing
                }
                &&& layout_replaced(
                    old(entries).entries@,
                    final(entries).entries@,
                    eid,
                    t.replace_at(coordinate@, detail_edited(n, edit)),
                )
                &&& final(entries).active_entry_id == old(entries).active_entry_id
                &&& final(entries).ordered_entries == old(entries).ordered_entries
                &&& final(entries).updated_entries == old(entries).updated_entries
                &&& keeps_shape(*old(entries), *final(entries), coordinate@)
            }),
    {
        match set_node_detail(entries, coordinate, edit) {
            Some(eid) => LayoutEditAction::SetEntryUnsavedState(eid),
            None => LayoutEditAction::Nothing,
        }
    }

    /// Acts on a key. While a field has the focus the key goes to it, and
    /// when it leaves the field its value becomes the node's label, length
    /// (42 when it does not read as a number) or flex. Otherwise Esc goes
    /// back to the overview; the hover keys move the hover; Enter focuses
    /// the hovered field, moves a menu to its next option and stores it into
    /// the node, or, on Revert, asks to load the node's settings again.
    pub fn handle(&mut self, entries: &mut LocalEntryState, coordinate: &Vec<usize>, key: &KeyEvent) -> (r:
        LayoutEditAction)
        requires
            panel_key_allowed(*old(self), *old(entries), coordinate@, *key),
        ensures
            final(entries).connection == old(entries).connection,
            panel_step(*old(self), *old(entries), coordinate@, *key, *final(self), *final(entries), r),
    {
        if self.label_field.state.is_focused {
            let exit = self.label_field.handle(key, &accept_any_label);
            if exit {
                let text = self.label_field.text();
                return Self::store_detail(entries, coordinate, DetailEdit::Label(text));
            }
            return LayoutEditAction::Nothing;
        }
        if self.length_field.state.is_focused {
            let exit = self.length_field.handle(
                key,
                &is_positive_i64,
            );
            if exit {
                let text = self.length_field.text();
                let v = match parse_u16(text.as_str()) {
                    Some(v) => v,
                    None => 42,
                };
                return Self::store_detail(entries, coordinate, DetailEdit::Length(v));
            }
            return LayoutEditAction::Nothing;
        }
        if self.flex_field.state.is_focused {
            let exit = self.flex_field.handle(
                key,
                &is_positive_i64,
            );
            if exit {
                let text = self.flex_field.text();
                let v = match parse_u16(text.as_str()) {
                    Some(v) => v,
                    None => 0,
                };
                return Self::store_detail(entries, coordinate, DetailEdit::Flex(v));
            }
            return LayoutEditAction::Nothing;
        }
        if key.kind != KeyEventKind::Press {
            return LayoutEditAction::Nothing;
        }
        if key.code == KeyCode::Esc {
            return LayoutEditAction::StopEditing;
        }
        if is_cycle_forward_hover_key(key) {
            self.cycle_hover(1);
            return LayoutEditAction::Nothing;
        }
        if is_cycle_backward_hover_key(key) {
            self.cycle_hover(-1);
            return LayoutEditAction::Nothing;
        }
        if key.code == KeyCode::Enter {
            if let Some(index) = self.state.hovered_index {
                if index == 0 {
                    self.label_field.state.is_focused = true;
                } else if index == 1 {
                    self.size_menu.handle();
                    let value = self.size_menu.selected_value();
                    return match size_mode_of(value) {
                        Some(m) => Self::store_detail(entries, coordinate, DetailEdit::Size(m)),
                        None => LayoutEditAction::InvalidMenuValue,
                    };
                } else if index == 2 {
                    self.border_menu.handle();
                    let value = self.border_menu.selected_value();
                    return match border_mode_of(value) {
                        Some(m) => Self::store_detail(entries, coordinate, DetailEdit::Border(m)),
                        None => LayoutEditAction::InvalidMenuValue,
                    };
                } else if index == 3 {
                    self.length_field.state.is_focused = true;
                } else if index == 4 {
                    self.flex_field.state.is_focused = true;
                } else if index == 5 {
                    return LayoutEditAction::RefreshLayoutEditPanel;
                }
            }
        }
        LayoutEditAction::Nothing
    }
}

/// After the layout of the entry `eid` is replaced, the entry is still found
/// and holds the new layout.
pub proof fn lemma_layout_replaced_lookup(before: Seq<(i64, Entry)>, after: Seq<(i64, Entry)>, eid: i64, m: LayoutModel)
    requires
        first_id_index(before, eid) >= 0,
        layout_replaced(before, after, eid, m),
    ensures
        lookup(after, eid) is Some,
        lookup(after, eid)->0.layout@ == m,
        first_id_index(after, eid) == first_id_index(before, eid),
{
    let i = first_id_index(before, eid);
    lemma_first_id_index_bounds(before, eid);
    lemma_lookup_after_update(before, eid, after[i].1);
    assert(after =~= before.update(i, (eid, after[i].1)));
}

/// The view of the layout of the active entry: the overview of the tree and
/// the panel that edits the selected node.
pub struct GlyphLayoutState {
    /// The view has the focus (shared with the other views of an entry).
    pub is_focused: bool,
    /// Keys go to the edit panel rather than to the overview.
    pub is_editing: bool,
}

pub struct GlyphLayoutView {
    pub state: GlyphLayoutState,
    pub overview: GlyphLayoutOverview,
    pub panel: GlyphLayoutEditView,
}

/// What the application does after a key in the layout view.
#[derive(Clone, Copy, PartialEq, Eq, Structural, Debug)]
pub enum LayoutViewAction {
    Nothing,
    ScrollPageUp,
    ScrollPageDown,
    ScrollUp,
    ScrollDown,
    /// The layout of the entry with this id changed and is not saved.
    SetEntryUnsavedState(i64),
    /// A menu holds a value that names no setting.
    InvalidMenuValue,
}

/// The keys the layout view can carry out: the overview fits the entries,
/// the menus hold their options, the panel can carry out the key while
/// editing, and otherwise `+` does not move the section past the last one.
pub open spec fn layout_key_allowed(v: GlyphLayoutView, e: LocalEntryState, key: KeyEvent) -> bool {
    &&& overview_consistent(v.overview.state, e)
    &&& menus_well_formed(v.panel)
    &&& v.state.is_editing ==> panel_key_allowed(v.panel, e, v.overview.state.selected_coordinate@, key)
    &&& !v.state.is_editing && key.is_press() && key.code == KeyCode::Char('+') ==> (active_layout(e).at(
        v.overview.state.selected_coordinate@,
    ).section_index matches Some(i) ==> i < u16::MAX)
}

impl GlyphLayoutView {
    /// A view without the focus, on the overview, with the root selected.
    pub fn new() -> (r: Self)
        ensures
            r.state == (GlyphLayoutState { is_focused: false, is_editing: false }),
            r.overview.state.hovered_index is None,
            r.overview.state.selected_coordinate@ == Seq::<usize>::empty(),
            fresh_panel(r.panel),
    {
        GlyphLayoutView {
            state: GlyphLayoutState { is_focused: false, is_editing: false },
            overview: GlyphLayoutOverview::new(),
            panel: GlyphLayoutEditView::new(),
        }
    }

    /// Whether the view can carry out `key` on `entries`.
    pub fn accepts_key(&self, entries: &LocalEntryState, key: &KeyEvent) -> (r: bool)
        ensures
            r == layout_key_allowed(*self, *entries, *key),
    {
        if !self.overview.fits(entries) || !self.panel.menus_hold_options() {
            return false;
        }
        if self.state.is_editing {
            return self.panel.accepts_key(entries, &self.overview.state.selected_coordinate, key);
        }
        if key.kind == KeyEventKind::Press && key.code == KeyCode::Char('+') {
            let entry = entries.get_active_entry_ref().unwrap();
            let node = entry.layout.get_layout_at_ref(&self.overview.state.selected_coordinate).unwrap();
            if let Some(i) = node.section_index {
                return i < u16::MAX;
            }
        }
        true
    }

    /// Acts on a key. While editing, the key goes to the edit panel: leaving
    /// it goes back to the overview, and Revert loads the node's settings
    /// again. Otherwise Esc at the root gives the focus back, and the key goes
    /// to the overview: a new selection is loaded into the panel, `e` starts
    /// editing, and giving the focus back does so. Either way the selection
    /// stays a node of the layout.
    pub fn handle(&mut self, entries: &mut LocalEntryState, key: &KeyEvent) -> (r: LayoutViewAction)
        requires
            layout_key_allowed(*old(self), *old(entries), *key),
        ensures
            final(entries).connection == old(entries).connection,
            overview_consistent(final(self).overview.state, *final(entries)),
            menus_well_formed(final(self).panel),
            final(entries).active_entry_id == old(entries).active_entry_id,
            final(entries).ordered_entries == old(entries).ordered_entries,
            final(entries).updated_entries == old(entries).updated_entries,
            old(self).state.is_editing ==> exists|p: GlyphLayoutEditView, a: LayoutEditAction|
                {
                    let c = old(self).overview.state.selected_coordinate@;
                    &&& #[trigger] panel_step(
                        old(self).panel,
                        *old(entries),
                        old(self).overview.state.selected_coordinate@,
                        *key,
                        p,
                        *final(entries),
                        a,
                    )
                    &&& final(self).overview.state.selected_coordinate@ == c
                    &&& final(self).overview.state.hovered_index == old(self).overview.state.hovered_index
                    &&& final(self).state.is_focused == old(self).state.is_focused
                    &&& final(self).state.is_editing == (a != LayoutEditAction::StopEditing)
                    &&& a == LayoutEditAction::RefreshLayoutEditPanel ==> panel_shows(
                        final(self).panel,
                        active_layout(*final(entries)).at(c),
                    ) && panel_focus_kept(p, final(self).panel)
                    &&& a != LayoutEditAction::RefreshLayoutEditPanel ==> final(self).panel == p
                    &&& r == match a {
                        LayoutEditAction::SetEntryUnsavedState(x) => LayoutViewAction::SetEntryUnsavedState(x),
                        LayoutEditAction::InvalidMenuValue => LayoutViewAction::InvalidMenuValue,
                        _ => LayoutViewAction::Nothing,
                    }
                },
            !old(self).state.is_editing ==> {
                let (c, h, t, a) = overview_step(
                    old(self).overview.state.selected_coordinate@,
                    old(self).overview.state.hovered_index,
                    active_layout(*old(entries)),
                    *key,
                    old(entries).active_entry_id->0,
                    true,
                );
                &&& final(self).overview.state.selected_coordinate@ == c
                &&& final(self).overview.state.hovered_index == h
                &&& layout_replaced(
                    old(entries).entries@,
                    final(entries).entries@,
                    old(entries).active_entry_id->0,
                    t,
                )
                &&& a == LayoutOverviewAction::RefreshLayoutEditPanel ==> panel_shows(final(self).panel, t.at(c))
                    && panel_focus_kept(old(self).panel, final(self).panel)
                &&& a != LayoutOverviewAction::RefreshLayoutEditPanel ==> final(self).panel == old(self).panel
                &&& final(self).state.is_editing == (a == LayoutOverviewAction::StartEditing)
                &&& final(self).state.is_focused == (old(self).state.is_focused && !(key.is_press()
                    && key.code == KeyCode::Esc && old(self).overview.state.selected_coordinate@.len()
                    == 0) && a != LayoutOverviewAction::LeaveFocus)
                &&& r == match a {
                    LayoutOverviewAction::ScrollPageUp => LayoutViewAction::ScrollPageUp,
                    LayoutOverviewAction::ScrollPageDown => LayoutViewAction::ScrollPageDown,
                    LayoutOverviewAction::ScrollUp => LayoutViewAction::ScrollUp,
                    LayoutOverviewAction::ScrollDown => LayoutViewAction::ScrollDown,
                    LayoutOverviewAction::SetEntryUnsavedState(x) => LayoutViewAction::SetEntryUnsavedState(x),
                    _ => LayoutViewAction::Nothing,
                }
            },
    {
        let ghost eid = entries.active_entry_id->0;
        let ghost t0 = active_layout(*entries);
        proof {
            lemma_first_id_index_bounds(entries.entries@, eid);
        }
        if self.state.is_editing {
            let a = self.panel.handle(entries, &self.overview.state.selected_coordinate, key);
            match a {
                LayoutEditAction::StopEditing => {
                    self.state.is_editing = false;
                    LayoutViewAction::Nothing
                },
                LayoutEditAction::RefreshLayoutEditPanel => {
                    self.panel.refresh_layout_edit_panel(entries, &self.overview.state.selected_coordinate);
                    LayoutViewAction::Nothing
                },
                LayoutEditAction::SetEntryUnsavedState(x) => LayoutViewAction::SetEntryUnsavedState(x),
                LayoutEditAction::InvalidMenuValue => LayoutViewAction::InvalidMenuValue,
                LayoutEditAction::Nothing => LayoutViewAction::Nothing,
            }
        } else {
            if key.kind == KeyEventKind::Press && key.code == KeyCode::Esc
                && self.overview.state.selected_coordinate.len() == 0 {
                self.state.is_focused = false;
            }
            let a = self.overview.handle(entries, key);
            proof {
                let (c, h, t, a1) = overview_step(
                    old(self).overview.state.selected_coordinate@,
                    old(self).overview.state.hovered_index,
                    t0,
                    *key,
                    eid,
                    true,
                );
                if !(a1 is SetEntryUnsavedState) {
                    lemma_layout_replaced_self(old(entries).entries@, eid);
                }
                lemma_layout_replaced_lookup(old(entries).entries@, entries.entries@, eid, t);
            }
            match a {
                LayoutOverviewAction::RefreshLayoutEditPanel => {
                    self.panel.refresh_layout_edit_panel(entries, &self.overview.state.selected_coordinate);
                    LayoutViewAction::Nothing
                },
                LayoutOverviewAction::LeaveFocus => {
                    self.state.is_focused = false;
                    LayoutViewAction::Nothing
                },
                LayoutOverviewAction::StartEditing => {
                    self.state.is_editing = true;
                    LayoutViewAction::Nothing
                },
                LayoutOverviewAction::ScrollPageUp => LayoutViewAction::ScrollPageUp,
                LayoutOverviewAction::ScrollPageDown => LayoutViewAction::ScrollPageDown,
                LayoutOverviewAction::ScrollUp => LayoutViewAction::ScrollUp,
                LayoutOverviewAction::ScrollDown => LayoutViewAction::ScrollDown,
                LayoutOverviewAction::SetEntryUnsavedState(x) => LayoutViewAction::SetEntryUnsavedState(x),
                LayoutOverviewAction::Nothing => LayoutViewAction::Nothing,
            }
        }
    }
}

} // verus!
