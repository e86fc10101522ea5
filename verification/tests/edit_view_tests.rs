use glyph::app::input::{KeyCode, KeyEvent};
use glyph::app::page::glyph_edit_view::{EditOrderAction, GlyphEditOrderView, GlyphEditView};
use glyph::models::entry::Entry;
use glyph::models::layout::Layout;
use glyph::models::section::Section;
use glyph::services::LocalEntryState;

fn press(code: KeyCode) -> KeyEvent {
    KeyEvent::press(code)
}

fn ch(c: char) -> KeyEvent {
    press(KeyCode::Char(c))
}

/// One active entry (id 1) with three sections in position order.
fn active_entry() -> LocalEntryState {
    let sections = vec![
        (10, Section::new("first", "a\nb", 0)),
        (11, Section::new("second", "x", 1)),
        (12, Section::new("third", "", 2)),
    ];
    let connection = rusqlite::Connection::open_in_memory().unwrap();
    let mut e = LocalEntryState::new(
        connection,
        vec![(1, Entry { entry_name: "e".to_string(), sections, layout: Layout::new("root") })],
    );
    e.toggle_active_entry_id(1);
    e
}

fn sids(e: &LocalEntryState) -> Vec<i64> {
    e.get_sections_sid(&1)
}

fn content(e: &LocalEntryState, sid: i64) -> String {
    e.get_section_ref(&1, &sid).unwrap().content.clone()
}

fn lines(v: &GlyphEditView) -> Vec<String> {
    v.editor.state.lines.iter().map(|l| l.iter().collect()).collect()
}

#[test]
fn order_hover_open_and_close() {
    let mut e = active_entry();
    let mut o = GlyphEditOrderView::new();
    assert!(matches!(o.handle(&mut e, &press(KeyCode::Enter)), EditOrderAction::Nothing));
    o.handle(&mut e, &press(KeyCode::Up));
    assert_eq!(o.state.hovered_index, Some(0));
    o.handle(&mut e, &press(KeyCode::Up));
    assert_eq!(o.state.hovered_index, Some(2));
    assert!(matches!(o.handle(&mut e, &press(KeyCode::Enter)), EditOrderAction::RefreshEditSectionEditor));
    assert_eq!(o.state.active_sid, Some(12));
    assert!(matches!(o.handle(&mut e, &press(KeyCode::Enter)), EditOrderAction::RefreshEditSectionEditor));
    assert_eq!(o.state.active_sid, None);
    assert!(matches!(o.handle(&mut e, &press(KeyCode::Esc)), EditOrderAction::LeaveFocus));
}

#[test]
fn order_scrolls_without_going_below_zero() {
    let mut e = active_entry();
    let mut o = GlyphEditOrderView::new();
    o.handle(&mut e, &press(KeyCode::PageUp));
    assert_eq!(o.state.scroll_offset, 0);
    o.handle(&mut e, &press(KeyCode::PageDown));
    o.handle(&mut e, &press(KeyCode::PageDown));
    assert_eq!(o.state.scroll_offset, 2);
    o.handle(&mut e, &press(KeyCode::PageUp));
    assert_eq!(o.state.scroll_offset, 1);
}

#[test]
fn order_moves_the_open_section() {
    let mut e = active_entry();
    let mut o = GlyphEditOrderView::new();
    assert!(matches!(o.handle(&mut e, &ch('+')), EditOrderAction::Nothing));
    o.handle(&mut e, &ch('j'));
    o.handle(&mut e, &press(KeyCode::Enter));
    assert_eq!(o.state.active_sid, Some(10));
    assert!(matches!(o.handle(&mut e, &ch('+')), EditOrderAction::SetEntryUnsavedState(1)));
    assert_eq!(sids(&e), vec![10, 11, 12]);
    o.handle(&mut e, &ch('+'));
    assert_eq!(sids(&e), vec![11, 10, 12]);
    o.handle(&mut e, &ch('+'));
    assert_eq!(sids(&e), vec![11, 12, 10]);
    assert_eq!(e.get_section_ref(&1, &10).unwrap().position, 3);
    o.handle(&mut e, &ch('-'));
    assert_eq!(sids(&e), vec![11, 12, 10]);
    o.handle(&mut e, &ch('-'));
    assert_eq!(sids(&e), vec![11, 10, 12]);
    o.handle(&mut e, &ch('-'));
    o.handle(&mut e, &ch('-'));
    assert_eq!(sids(&e), vec![10, 11, 12]);
    assert_eq!(e.get_section_ref(&1, &10).unwrap().position, -1);
}

#[test]
fn order_requests() {
    let mut e = active_entry();
    let mut o = GlyphEditOrderView::new();
    assert!(matches!(o.handle(&mut e, &ch('A')), EditOrderAction::CreateSection));
    assert!(matches!(o.handle(&mut e, &ch('x')), EditOrderAction::Nothing));
    assert!(matches!(o.handle(&mut e, &ch('R')), EditOrderAction::Nothing));
    o.handle(&mut e, &ch('j'));
    o.handle(&mut e, &ch('j'));
    o.handle(&mut e, &press(KeyCode::Enter));
    match o.handle(&mut e, &ch('R')) {
        EditOrderAction::AskRenameSection(sid, title) => {
            assert_eq!(sid, 11);
            assert_eq!(title, "second");
        }
        _ => panic!("expected a rename request"),
    }
    assert!(matches!(o.handle(&mut e, &ch('x')), EditOrderAction::DeleteSection(11)));
    assert_eq!(o.state.active_sid, None);
    assert_eq!(sids(&e), vec![10, 11, 12]);
}

#[test]
fn edit_view_loads_edits_and_saves_a_section() {
    let mut e = active_entry();
    let mut v = GlyphEditView::new();
    v.state.is_focused = true;
    v.handle(&mut e, &ch('j'));
    assert!(matches!(v.handle(&mut e, &press(KeyCode::Enter)), EditOrderAction::Nothing));
    assert_eq!(v.order.state.active_sid, Some(10));
    assert_eq!(lines(&v), vec!["a", "b"]);
    v.handle(&mut e, &ch('e'));
    assert!(v.state.is_editing);
    assert!(v.editor.is_focused());
    v.handle(&mut e, &ch('i'));
    v.handle(&mut e, &ch('z'));
    assert_eq!(content(&e, 10), "a\nb");
    v.handle(&mut e, &press(KeyCode::Esc));
    assert!(v.state.is_editing);
    assert!(matches!(v.handle(&mut e, &press(KeyCode::Esc)), EditOrderAction::SetEntryUnsavedState(1)));
    assert!(!v.state.is_editing);
    assert!(!v.editor.is_focused());
    assert_eq!(content(&e, 10), "za\nb");
    assert_eq!(content(&e, 11), "x");
}

#[test]
fn edit_view_leaving_unchanged_saves_nothing() {
    let mut e = active_entry();
    let mut v = GlyphEditView::new();
    v.handle(&mut e, &ch('j'));
    v.handle(&mut e, &ch('j'));
    v.handle(&mut e, &press(KeyCode::Enter));
    assert_eq!(lines(&v), vec!["x"]);
    v.handle(&mut e, &ch('e'));
    assert!(matches!(v.handle(&mut e, &press(KeyCode::Esc)), EditOrderAction::Nothing));
    assert!(!v.state.is_editing);
    assert_eq!(content(&e, 11), "x");
}

#[test]
fn edit_view_needs_an_open_section_to_edit() {
    let mut e = active_entry();
    let mut v = GlyphEditView::new();
    v.state.is_focused = true;
    v.handle(&mut e, &ch('e'));
    assert!(!v.state.is_editing);
    assert!(matches!(v.handle(&mut e, &press(KeyCode::Esc)), EditOrderAction::Nothing));
    assert!(!v.state.is_focused);
}

#[test]
fn edit_view_closing_the_section_empties_the_editor() {
    let mut e = active_entry();
    let mut v = GlyphEditView::new();
    v.handle(&mut e, &ch('j'));
    v.handle(&mut e, &press(KeyCode::Enter));
    assert_eq!(lines(&v), vec!["a", "b"]);
    v.handle(&mut e, &press(KeyCode::Enter));
    assert_eq!(v.order.state.active_sid, None);
    assert_eq!(lines(&v), vec![""]);
    v.order.state.active_sid = Some(10);
    v.refresh_section_buffer(&e);
    assert_eq!(lines(&v), vec!["a", "b"]);
    assert_eq!(v.save_section(&mut e), None);
}

#[test]
fn accepts_key_checks_the_list_and_the_editor() {
    let mut e = active_entry();
    let mut v = GlyphEditView::new();
    assert!(v.accepts_key(&e, &press(KeyCode::Enter)));
    v.order.state.hovered_index = Some(7);
    assert!(!v.accepts_key(&e, &press(KeyCode::Enter)));
    v.order.state.hovered_index = Some(0);
    v.handle(&mut e, &press(KeyCode::Enter));
    assert!(v.accepts_key(&e, &ch('+')));
    v.order.state.active_sid = Some(99);
    assert!(!v.accepts_key(&e, &ch('+')));
    assert!(v.accepts_key(&e, &ch('A')));
    v.order.state.active_sid = Some(10);
    v.handle(&mut e, &ch('e'));
    assert!(v.state.is_editing);
    v.editor.state.cursor_index = 1;
    assert!(!v.accepts_key(&e, &ch('w')));
    assert!(v.accepts_key(&e, &press(KeyCode::Esc)));
    e.toggle_active_entry_id(1);
    assert!(!v.accepts_key(&e, &press(KeyCode::Esc)));
}

#[test]
fn order_without_an_active_entry_moves_nothing() {
    let mut e = active_entry();
    e.toggle_active_entry_id(1);
    assert_eq!(e.active_entry_id, None);
    let mut o = GlyphEditOrderView::new();
    o.state.active_sid = Some(11);
    for key in [ch('+'), ch('-'), press(KeyCode::Esc), ch('A'), press(KeyCode::PageDown)] {
        assert!(o.accepts_key(&e, &key));
    }
    assert!(!o.accepts_key(&e, &press(KeyCode::Tab)));
    assert!(!o.accepts_key(&e, &ch('x')));
    assert!(!o.accepts_key(&e, &ch('R')));
    assert!(matches!(o.handle(&mut e, &ch('+')), EditOrderAction::Nothing));
    assert!(matches!(o.handle(&mut e, &ch('-')), EditOrderAction::Nothing));
    assert_eq!(sids(&e), vec![10, 11, 12]);
    assert_eq!(e.get_section_ref(&1, &11).unwrap().position, 1);
    assert!(matches!(o.handle(&mut e, &press(KeyCode::Esc)), EditOrderAction::LeaveFocus));
    assert!(matches!(o.handle(&mut e, &ch('A')), EditOrderAction::CreateSection));
    assert_eq!(o.state.active_sid, Some(11));
}
