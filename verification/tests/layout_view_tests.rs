use glyph::app::input::{KeyCode, KeyEvent};
use glyph::app::page::glyph_layout_view::{
    accept_any_label, border_mode_code, border_mode_of, set_node_detail, size_mode_code, size_mode_of,
    DetailEdit, GlyphLayoutEditView, GlyphLayoutOverview, GlyphLayoutView, LayoutEditAction,
    LayoutOverviewAction, LayoutViewAction,
};
use glyph::models::entry::Entry;
use glyph::models::layout::{BorderMode, Layout, LayoutOrientation, SizeMode};
use glyph::services::LocalEntryState;

fn press(code: KeyCode) -> KeyEvent {
    KeyEvent::press(code)
}

fn ch(c: char) -> KeyEvent {
    press(KeyCode::Char(c))
}

/// One active entry (id 1) whose layout has two children, `a` and `b`.
fn active_entry() -> LocalEntryState {
    let mut root = Layout::new("root");
    root.insert_sublayout_under(Layout::new("a"), &vec![]);
    root.insert_sublayout_under(Layout::new("b"), &vec![]);
    let connection = rusqlite::Connection::open_in_memory().unwrap();
    let mut e = LocalEntryState::new(
        connection,
        vec![(1, Entry { entry_name: "e".to_string(), sections: Vec::new(), layout: root })],
    );
    e.toggle_active_entry_id(1);
    e
}

fn layout(e: &LocalEntryState) -> &Layout {
    &e.get_entry_ref(&1).unwrap().layout
}

fn labels(l: &Layout) -> Vec<String> {
    l.sub_layouts.iter().map(|x| x.label.clone()).collect()
}

#[test]
fn mode_codes_round_trip() {
    for m in [SizeMode::Flex, SizeMode::Length] {
        assert_eq!(size_mode_of(size_mode_code(m)), Some(m));
    }
    for m in [BorderMode::Borderless, BorderMode::Plain, BorderMode::Dashed, BorderMode::Rounded] {
        assert_eq!(border_mode_of(border_mode_code(m)), Some(m));
    }
    assert_eq!(size_mode_code(SizeMode::Length), 1);
    assert_eq!(border_mode_code(BorderMode::Rounded), 3);
    assert_eq!(size_mode_of(2), None);
    assert_eq!(border_mode_of(4), None);
    assert!(accept_any_label(""));
}

#[test]
fn overview_moves_selection_down_and_up() {
    let mut e = active_entry();
    let mut o = GlyphLayoutOverview::new();
    assert_eq!(o.handle(&mut e, &press(KeyCode::Enter)), LayoutOverviewAction::Nothing);
    assert_eq!(o.handle(&mut e, &press(KeyCode::Tab)), LayoutOverviewAction::Nothing);
    assert_eq!(o.state.hovered_index, Some(0));
    o.handle(&mut e, &press(KeyCode::Tab));
    assert_eq!(o.state.hovered_index, Some(1));
    o.handle(&mut e, &press(KeyCode::Tab));
    assert_eq!(o.state.hovered_index, Some(0));
    o.handle(&mut e, &press(KeyCode::BackTab));
    assert_eq!(o.state.hovered_index, Some(1));
    assert_eq!(o.handle(&mut e, &press(KeyCode::Enter)), LayoutOverviewAction::RefreshLayoutEditPanel);
    assert_eq!(o.state.selected_coordinate, vec![1]);
    assert_eq!(o.state.hovered_index, None);
    o.handle(&mut e, &press(KeyCode::Tab));
    assert_eq!(o.state.hovered_index, None);
    assert_eq!(o.handle(&mut e, &press(KeyCode::Esc)), LayoutOverviewAction::RefreshLayoutEditPanel);
    assert!(o.state.selected_coordinate.is_empty());
    assert_eq!(o.state.hovered_index, Some(1));
    assert_eq!(o.handle(&mut e, &press(KeyCode::Esc)), LayoutOverviewAction::LeaveFocus);
}

#[test]
fn overview_scroll_and_edit_keys() {
    let mut e = active_entry();
    let mut o = GlyphLayoutOverview::new();
    assert_eq!(o.handle(&mut e, &press(KeyCode::PageUp)), LayoutOverviewAction::ScrollPageUp);
    assert_eq!(o.handle(&mut e, &press(KeyCode::PageDown)), LayoutOverviewAction::ScrollPageDown);
    assert_eq!(o.handle(&mut e, &press(KeyCode::Up)), LayoutOverviewAction::ScrollUp);
    assert_eq!(o.handle(&mut e, &press(KeyCode::Down)), LayoutOverviewAction::ScrollDown);
    assert_eq!(o.handle(&mut e, &ch('e')), LayoutOverviewAction::StartEditing);
    assert_eq!(o.handle(&mut e, &ch('q')), LayoutOverviewAction::Nothing);
}

#[test]
fn overview_changes_the_selected_node() {
    let mut e = active_entry();
    let mut o = GlyphLayoutOverview::new();
    assert_eq!(o.handle(&mut e, &ch('A')), LayoutOverviewAction::SetEntryUnsavedState(1));
    assert_eq!(labels(layout(&e)), vec!["a", "b", ""]);
    o.handle(&mut e, &ch('+'));
    assert_eq!(layout(&e).section_index, Some(0));
    o.handle(&mut e, &ch('+'));
    assert_eq!(layout(&e).section_index, Some(1));
    o.handle(&mut e, &ch('-'));
    o.handle(&mut e, &ch('-'));
    assert_eq!(layout(&e).section_index, None);
    o.handle(&mut e, &ch('-'));
    assert_eq!(layout(&e).section_index, None);
    assert_eq!(layout(&e).details.orientation, LayoutOrientation::Vertical);
    o.handle(&mut e, &ch('t'));
    assert_eq!(layout(&e).details.orientation, LayoutOrientation::Horizontal);
    o.handle(&mut e, &ch('t'));
    assert_eq!(layout(&e).details.orientation, LayoutOrientation::Vertical);
    assert_eq!(e.get_entry_ref(&1).unwrap().entry_name, "e");
}

#[test]
fn overview_removes_the_selected_node_and_not_the_root() {
    let mut e = active_entry();
    let mut o = GlyphLayoutOverview::new();
    assert_eq!(o.handle(&mut e, &ch('x')), LayoutOverviewAction::Nothing);
    assert_eq!(labels(layout(&e)), vec!["a", "b"]);
    o.handle(&mut e, &ch('j'));
    o.handle(&mut e, &press(KeyCode::Enter));
    assert_eq!(o.state.selected_coordinate, vec![0]);
    assert_eq!(o.handle(&mut e, &ch('x')), LayoutOverviewAction::SetEntryUnsavedState(1));
    assert!(o.state.selected_coordinate.is_empty());
    assert_eq!(o.state.hovered_index, None);
    assert_eq!(labels(layout(&e)), vec!["b"]);
}

#[test]
fn set_node_detail_reports_only_changes() {
    let mut e = active_entry();
    assert_eq!(set_node_detail(&mut e, &vec![1], DetailEdit::Length(42)), None);
    assert_eq!(set_node_detail(&mut e, &vec![1], DetailEdit::Length(7)), Some(1));
    assert_eq!(layout(&e).sub_layouts[1].details.length, 7);
    assert_eq!(set_node_detail(&mut e, &vec![], DetailEdit::Label("top".to_string())), Some(1));
    assert_eq!(layout(&e).label, "top");
    assert_eq!(set_node_detail(&mut e, &vec![0], DetailEdit::Border(BorderMode::Dashed)), Some(1));
    assert_eq!(layout(&e).sub_layouts[0].details.border_mode, BorderMode::Dashed);
    assert_eq!(set_node_detail(&mut e, &vec![0], DetailEdit::Size(SizeMode::Flex)), None);
    assert_eq!(set_node_detail(&mut e, &vec![0], DetailEdit::Flex(5)), Some(1));
    assert_eq!(layout(&e).sub_layouts[0].details.flex, 5);
    assert_eq!(labels(layout(&e)), vec!["a", "b"]);
}

fn panel_on(e: &LocalEntryState, c: &Vec<usize>) -> GlyphLayoutEditView {
    let mut p = GlyphLayoutEditView::new();
    p.refresh_layout_edit_panel(e, c);
    p
}

#[test]
fn panel_shows_the_node() {
    let mut e = active_entry();
    set_node_detail(&mut e, &vec![0], DetailEdit::Border(BorderMode::Rounded));
    let p = panel_on(&e, &vec![0]);
    assert_eq!(p.label_field.text(), "a");
    assert_eq!(p.length_field.text(), "42");
    assert_eq!(p.flex_field.text(), "1");
    assert_eq!(p.size_menu.state.current_index, 0);
    assert_eq!(p.border_menu.state.current_index, 3);
    assert_eq!(p.state.hovered_index, None);
}

#[test]
fn panel_menus_store_the_next_option() {
    let mut e = active_entry();
    let c = vec![0];
    let mut p = panel_on(&e, &c);
    p.handle(&mut e, &c, &press(KeyCode::Tab));
    p.handle(&mut e, &c, &press(KeyCode::Tab));
    assert_eq!(p.state.hovered_index, Some(1));
    assert_eq!(p.handle(&mut e, &c, &press(KeyCode::Enter)), LayoutEditAction::SetEntryUnsavedState(1));
    assert_eq!(layout(&e).sub_layouts[0].details.size_mode, SizeMode::Length);
    p.handle(&mut e, &c, &press(KeyCode::Enter));
    assert_eq!(layout(&e).sub_layouts[0].details.size_mode, SizeMode::Flex);
    p.handle(&mut e, &c, &press(KeyCode::Tab));
    for expected in [BorderMode::Plain, BorderMode::Dashed, BorderMode::Rounded, BorderMode::Borderless] {
        p.handle(&mut e, &c, &press(KeyCode::Enter));
        assert_eq!(layout(&e).sub_layouts[0].details.border_mode, expected);
    }
}

#[test]
fn panel_fields_store_when_left() {
    let mut e = active_entry();
    let c = vec![1];
    let mut p = panel_on(&e, &c);
    p.handle(&mut e, &c, &press(KeyCode::Tab));
    p.handle(&mut e, &c, &press(KeyCode::Enter));
    assert!(p.label_field.state.is_focused);
    assert_eq!(p.handle(&mut e, &c, &ch('x')), LayoutEditAction::Nothing);
    assert_eq!(layout(&e).sub_layouts[1].label, "b");
    assert_eq!(p.handle(&mut e, &c, &press(KeyCode::Esc)), LayoutEditAction::SetEntryUnsavedState(1));
    assert_eq!(layout(&e).sub_layouts[1].label, "bx");
    assert!(!p.label_field.state.is_focused);

    p.state.hovered_index = Some(3);
    p.handle(&mut e, &c, &press(KeyCode::Enter));
    assert!(p.length_field.state.is_focused);
    p.handle(&mut e, &c, &press(KeyCode::Backspace));
    p.handle(&mut e, &c, &press(KeyCode::Backspace));
    p.handle(&mut e, &c, &ch('7'));
    assert_eq!(p.handle(&mut e, &c, &press(KeyCode::Esc)), LayoutEditAction::SetEntryUnsavedState(1));
    assert_eq!(layout(&e).sub_layouts[1].details.length, 7);

    p.handle(&mut e, &c, &press(KeyCode::Enter));
    p.handle(&mut e, &c, &press(KeyCode::Backspace));
    p.handle(&mut e, &c, &press(KeyCode::Esc));
    assert_eq!(layout(&e).sub_layouts[1].details.length, 42);

    p.state.hovered_index = Some(4);
    p.handle(&mut e, &c, &press(KeyCode::Enter));
    p.handle(&mut e, &c, &ch('3'));
    p.handle(&mut e, &c, &press(KeyCode::Esc));
    assert_eq!(layout(&e).sub_layouts[1].details.flex, 13);
}

#[test]
fn panel_revert_and_leave() {
    let mut e = active_entry();
    let c = vec![];
    let mut p = panel_on(&e, &c);
    p.state.hovered_index = Some(5);
    assert_eq!(p.handle(&mut e, &c, &press(KeyCode::Enter)), LayoutEditAction::RefreshLayoutEditPanel);
    assert_eq!(p.handle(&mut e, &c, &press(KeyCode::Esc)), LayoutEditAction::StopEditing);
}

#[test]
fn layout_view_loads_selection_and_switches_to_editing() {
    let mut e = active_entry();
    let mut v = GlyphLayoutView::new();
    v.state.is_focused = true;
    v.handle(&mut e, &press(KeyCode::Tab));
    v.handle(&mut e, &press(KeyCode::Tab));
    assert_eq!(v.handle(&mut e, &press(KeyCode::Enter)), LayoutViewAction::Nothing);
    assert_eq!(v.overview.state.selected_coordinate, vec![1]);
    assert_eq!(v.panel.label_field.text(), "b");
    assert_eq!(v.handle(&mut e, &ch('A')), LayoutViewAction::SetEntryUnsavedState(1));
    assert_eq!(labels(&layout(&e).sub_layouts[1]), vec![""]);
    assert_eq!(v.handle(&mut e, &press(KeyCode::Down)), LayoutViewAction::ScrollDown);
    v.handle(&mut e, &ch('e'));
    assert!(v.state.is_editing);
    v.handle(&mut e, &press(KeyCode::Tab));
    v.handle(&mut e, &press(KeyCode::Tab));
    assert_eq!(v.handle(&mut e, &press(KeyCode::Enter)), LayoutViewAction::SetEntryUnsavedState(1));
    assert_eq!(layout(&e).sub_layouts[1].details.size_mode, SizeMode::Length);
    v.handle(&mut e, &press(KeyCode::Esc));
    assert!(!v.state.is_editing);
    v.handle(&mut e, &press(KeyCode::Esc));
    assert!(v.overview.state.selected_coordinate.is_empty());
    assert!(v.state.is_focused);
    v.handle(&mut e, &press(KeyCode::Esc));
    assert!(!v.state.is_focused);
}

#[test]
fn accepts_key_checks_selection_menus_and_fields() {
    let mut e = active_entry();
    let mut v = GlyphLayoutView::new();
    assert!(v.accepts_key(&e, &ch('A')));
    v.overview.state.selected_coordinate = vec![5];
    assert!(!v.accepts_key(&e, &ch('A')));
    v.overview.state.selected_coordinate = vec![0];
    v.overview.state.hovered_index = Some(0);
    assert!(!v.accepts_key(&e, &ch('A')));
    v.overview.state.hovered_index = None;
    assert!(v.accepts_key(&e, &ch('A')));
    e.get_active_entry_mut().unwrap().layout.sub_layouts[0].section_index = Some(u16::MAX);
    assert!(!v.accepts_key(&e, &ch('+')));
    assert!(v.accepts_key(&e, &ch('-')));
    v.state.is_editing = true;
    v.panel.flex_field.state.is_focused = true;
    v.panel.flex_field.replace(3);
    assert!(v.accepts_key(&e, &press(KeyCode::Esc)));
    v.panel.flex_field.state.chars.clear();
    assert!(!v.accepts_key(&e, &press(KeyCode::Esc)));
    v.panel.border_menu.state.current_index = 9;
    assert!(!v.accepts_key(&e, &ch('q')));
    let p = GlyphLayoutEditView::new();
    assert!(p.menus_hold_options());
    let o = GlyphLayoutOverview::new();
    assert!(o.fits(&e));
    e.toggle_active_entry_id(1);
    assert!(!o.fits(&e));
}

#[test]
fn overview_without_an_active_entry_edits_nothing() {
    let mut e = active_entry();
    e.toggle_active_entry_id(1);
    assert_eq!(e.active_entry_id, None);
    let before = labels(layout(&e));
    let mut o = GlyphLayoutOverview::new();
    assert_eq!(o.handle(&mut e, &ch('x')), LayoutOverviewAction::Nothing);
    assert_eq!(o.handle(&mut e, &ch('+')), LayoutOverviewAction::Nothing);
    assert_eq!(o.handle(&mut e, &ch('t')), LayoutOverviewAction::Nothing);
    assert_eq!(o.handle(&mut e, &press(KeyCode::PageUp)), LayoutOverviewAction::ScrollPageUp);
    assert_eq!(o.handle(&mut e, &press(KeyCode::Esc)), LayoutOverviewAction::LeaveFocus);
    o.state.hovered_index = Some(1);
    assert_eq!(o.handle(&mut e, &press(KeyCode::Enter)), LayoutOverviewAction::RefreshLayoutEditPanel);
    assert_eq!(o.state.selected_coordinate, vec![1]);
    assert_eq!(o.state.hovered_index, None);
    assert_eq!(o.handle(&mut e, &ch('x')), LayoutOverviewAction::Nothing);
    assert_eq!(o.handle(&mut e, &press(KeyCode::Esc)), LayoutOverviewAction::RefreshLayoutEditPanel);
    assert!(o.state.selected_coordinate.is_empty());
    assert_eq!(o.state.hovered_index, Some(1));
    assert_eq!(labels(layout(&e)), before);
}

#[test]
fn plus_then_minus_and_transpose_twice_restore_the_node() {
    let mut e = active_entry();
    let mut o = GlyphLayoutOverview::new();
    o.state.hovered_index = Some(1);
    o.handle(&mut e, &press(KeyCode::Enter));
    for start in [None, Some(0u16), Some(7)] {
        e.get_entry_mut(&1).unwrap().layout.sub_layouts[1].section_index = start;
        assert_eq!(o.handle(&mut e, &ch('+')), LayoutOverviewAction::SetEntryUnsavedState(1));
        assert_eq!(o.handle(&mut e, &ch('-')), LayoutOverviewAction::SetEntryUnsavedState(1));
        assert_eq!(layout(&e).sub_layouts[1].section_index, start);
    }
    let before = layout(&e).sub_layouts[1].details.orientation;
    o.handle(&mut e, &ch('t'));
    assert_ne!(layout(&e).sub_layouts[1].details.orientation, before);
    o.handle(&mut e, &ch('t'));
    assert_eq!(layout(&e).sub_layouts[1].details.orientation, before);
    assert_eq!(o.state.selected_coordinate, vec![1]);
}
