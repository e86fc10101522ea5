use std::path::PathBuf;

use glyph::app::input::{KeyCode, KeyEvent, KeyEventKind};
use glyph::app::widget::directory_list::{DirectoryAction, DirectoryList};
use glyph::app::widget::number_field::NumberField;
use glyph::app::widget::option_menu::OptionMenu;
use glyph::app::widget::text_field::{key_to_text_edit, TextEdit, TextField};

fn press(code: KeyCode) -> KeyEvent {
    KeyEvent::press(code)
}

fn ctrl(c: char) -> KeyEvent {
    KeyEvent { code: KeyCode::Char(c), control: true, shift: false, kind: KeyEventKind::Press }
}

fn accept_all(_: &str) -> bool {
    true
}

#[test]
fn key_to_text_edit_maps_editing_keys() {
    assert_eq!(key_to_text_edit(&press(KeyCode::Char('x'))), Some(TextEdit::Insert('x')));
    assert_eq!(key_to_text_edit(&press(KeyCode::Left)), Some(TextEdit::Left));
    assert_eq!(key_to_text_edit(&press(KeyCode::Right)), Some(TextEdit::Right));
    assert_eq!(key_to_text_edit(&press(KeyCode::Backspace)), Some(TextEdit::Backspace));
    assert_eq!(key_to_text_edit(&press(KeyCode::Enter)), None);
}

#[test]
fn text_field_starts_unfocused_with_default() {
    let f = TextField::new("Title", "abc");
    assert!(!f.state.is_focused);
    assert!(f.state.is_valid);
    assert_eq!(f.state.label, "Title");
    assert_eq!(f.text(), "abc");
    assert_eq!(f.state.cursor_index, 3);
}

#[test]
fn text_field_first_key_only_focuses() {
    let mut f = TextField::new("T", "ab");
    let exit = f.handle(&press(KeyCode::Char('z')), &accept_all);
    assert!(!exit);
    assert!(f.state.is_focused);
    assert_eq!(f.text(), "ab");
}

#[test]
fn text_field_types_moves_and_deletes() {
    let mut f = TextField::new("T", "ac");
    f.handle(&press(KeyCode::Char('q')), &accept_all);
    f.handle(&press(KeyCode::Left), &accept_all);
    assert_eq!(f.state.cursor_index, 1);
    f.handle(&press(KeyCode::Char('b')), &accept_all);
    assert_eq!(f.text(), "abc");
    assert_eq!(f.state.cursor_index, 2);
    f.handle(&press(KeyCode::Right), &accept_all);
    f.handle(&press(KeyCode::Right), &accept_all);
    assert_eq!(f.state.cursor_index, 3);
    f.handle(&press(KeyCode::Backspace), &accept_all);
    assert_eq!(f.text(), "ab");
    assert_eq!(f.state.cursor_index, 2);
}

#[test]
fn text_field_typing_then_backspace_restores_text() {
    let mut f = TextField::new("T", "hello");
    f.handle(&press(KeyCode::Char(' ')), &accept_all);
    f.handle(&press(KeyCode::Left), &accept_all);
    f.handle(&press(KeyCode::Left), &accept_all);
    let before = f.text();
    let cursor = f.state.cursor_index;
    f.handle(&press(KeyCode::Char('X')), &accept_all);
    assert_eq!(f.text(), "helXlo");
    f.handle(&press(KeyCode::Backspace), &accept_all);
    assert_eq!(f.text(), before);
    assert_eq!(f.state.cursor_index, cursor);
}

#[test]
fn text_field_validation_runs_after_each_edit() {
    let mut f = TextField::new("T", "");
    let not_empty = |s: &str| !s.is_empty();
    f.handle(&press(KeyCode::Char('a')), &not_empty);
    assert!(f.state.is_valid);
    f.handle(&press(KeyCode::Char('a')), &not_empty);
    assert!(f.state.is_valid);
    f.handle(&press(KeyCode::Backspace), &not_empty);
    assert_eq!(f.text(), "");
    assert!(!f.state.is_valid);
}

#[test]
fn text_field_esc_leaves_and_releases_are_ignored() {
    let mut f = TextField::new("T", "a");
    f.handle(&press(KeyCode::Enter), &accept_all);
    let release = KeyEvent { code: KeyCode::Char('b'), control: false, shift: false, kind: KeyEventKind::Release };
    assert!(!f.handle(&release, &accept_all));
    assert_eq!(f.text(), "a");
    assert!(f.handle(&press(KeyCode::Esc), &accept_all));
    assert!(!f.state.is_focused);
}

#[test]
fn text_field_replace_puts_cursor_at_end() {
    let mut f = TextField::new("T", "a");
    f.replace("xyz".to_string());
    assert_eq!(f.text(), "xyz");
    assert_eq!(f.state.cursor_index, 3);
}

#[test]
fn number_field_shows_decimal_default() {
    let f = NumberField::new("Width", -42);
    assert_eq!(f.text(), "-42");
    assert_eq!(f.state.cursor_index, 3);
    let g = NumberField::new("Width", 0);
    assert_eq!(g.text(), "0");
}

#[test]
fn number_field_ignores_non_numeric_characters() {
    let mut f = NumberField::new("N", 12);
    f.handle(&press(KeyCode::Enter), &accept_all);
    f.handle(&press(KeyCode::Char('x')), &accept_all);
    assert_eq!(f.text(), "12");
    assert_eq!(f.state.cursor_index, 2);
    f.handle(&press(KeyCode::Char('7')), &accept_all);
    assert_eq!(f.text(), "127");
    f.handle(&press(KeyCode::Backspace), &accept_all);
    f.handle(&press(KeyCode::Backspace), &accept_all);
    assert_eq!(f.text(), "1");
    f.replace(300);
    assert_eq!(f.text(), "300");
    assert!(f.handle(&press(KeyCode::Esc), &accept_all));
}

#[test]
fn option_menu_cycles_and_wraps() {
    let options = vec![("a".to_string(), 10u8), ("b".to_string(), 20u8), ("c".to_string(), 30u8)];
    let mut m = OptionMenu::new(options, 1);
    assert_eq!(m.selected_value(), 20);
    m.handle();
    assert_eq!(m.selected_value(), 30);
    m.handle();
    assert_eq!(m.state.current_index, 0);
    assert_eq!(m.selected_value(), 10);
    m.replace(2);
    assert_eq!(m.selected_value(), 30);
}

fn list(show_files: bool, select_dir: bool) -> DirectoryList {
    DirectoryList::new("Dir", show_files, select_dir, PathBuf::from("/tmp"))
}

#[test]
fn directory_list_counts_entries() {
    assert_eq!(list(true, false).get_num_entries(3, 4), 7);
    assert_eq!(list(false, false).get_num_entries(3, 4), 3);
}

#[test]
fn directory_list_hover_wraps_both_ways() {
    let mut l = list(true, false);
    assert_eq!(l.handle(&press(KeyCode::Down), 2, 1), DirectoryAction::Stay);
    assert!(l.state.is_focused);
    assert_eq!(l.state.hovered_index, None);
    l.handle(&press(KeyCode::Char('k')), 2, 1);
    assert_eq!(l.state.hovered_index, Some(2));
    l.handle(&press(KeyCode::Char('j')), 2, 1);
    assert_eq!(l.state.hovered_index, Some(0));
    l.handle(&press(KeyCode::Up), 2, 1);
    assert_eq!(l.state.hovered_index, Some(2));
}

#[test]
fn directory_list_selects_files_only_unless_dirs_allowed() {
    let mut l = list(true, false);
    l.handle(&press(KeyCode::Enter), 2, 2);
    l.handle(&press(KeyCode::Down), 2, 2);
    l.handle(&press(KeyCode::Down), 2, 2);
    assert_eq!(l.state.hovered_index, Some(1));
    l.handle(&press(KeyCode::Char(' ')), 2, 2);
    assert_eq!(l.state.selected_index, None);
    l.handle(&press(KeyCode::Down), 2, 2);
    l.handle(&press(KeyCode::Char(' ')), 2, 2);
    assert_eq!(l.state.selected_index, Some(2));
    l.handle(&press(KeyCode::Char(' ')), 2, 2);
    assert_eq!(l.state.selected_index, None);

    let mut d = list(false, true);
    d.handle(&press(KeyCode::Enter), 3, 0);
    d.handle(&press(KeyCode::Down), 3, 0);
    d.handle(&press(KeyCode::Down), 3, 0);
    d.handle(&press(KeyCode::Char(' ')), 3, 0);
    assert_eq!(d.state.selected_index, Some(1));
    assert_eq!(d.handle(&press(KeyCode::Esc), 3, 0), DirectoryAction::Exit(Some(1)));
    assert!(!d.state.is_focused);
}

#[test]
fn directory_list_enter_goes_to_parent_or_into_directory() {
    let mut l = list(true, false);
    l.handle(&press(KeyCode::Enter), 3, 1);
    assert_eq!(l.handle(&press(KeyCode::Enter), 3, 1), DirectoryAction::Stay);
    l.handle(&press(KeyCode::Down), 3, 1);
    assert_eq!(l.handle(&press(KeyCode::Enter), 3, 1), DirectoryAction::GoToParent);
    l.handle(&press(KeyCode::Down), 3, 1);
    l.handle(&press(KeyCode::Down), 3, 1);
    assert_eq!(l.handle(&press(KeyCode::Enter), 3, 1), DirectoryAction::EnterDirectory(2));
    assert_eq!(l.state.hovered_index, Some(0));
    assert_eq!(l.state.selected_index, None);
    l.handle(&press(KeyCode::Up), 3, 1);
    assert_eq!(l.state.hovered_index, Some(3));
    assert_eq!(l.handle(&press(KeyCode::Enter), 3, 1), DirectoryAction::Stay);
}

#[test]
fn directory_list_scrolls_by_four_not_past_top() {
    let mut l = list(true, false);
    l.handle(&press(KeyCode::Enter), 1, 1);
    l.handle(&ctrl('d'), 1, 1);
    l.handle(&ctrl('d'), 1, 1);
    assert_eq!(l.state.offset, 8);
    l.handle(&ctrl('u'), 1, 1);
    assert_eq!(l.state.offset, 4);
    l.handle(&ctrl('u'), 1, 1);
    l.handle(&ctrl('u'), 1, 1);
    assert_eq!(l.state.offset, 0);
    l.handle(&press(KeyCode::Char('d')), 1, 1);
    assert_eq!(l.state.offset, 0);
}
