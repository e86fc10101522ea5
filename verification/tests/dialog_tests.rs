use glyph::app::dialog::confirm_dialog::{ConfirmDialog, DialogAction};
use glyph::utils::cycle_hover;
use glyph::app::dialog::search_entry_dialog::{contains_chars, SearchEntryDialog};
use glyph::app::dialog::text_input_dialog::{text_accepted, TextCheck, TextInputDialog};
use glyph::app::input::{KeyCode, KeyEvent, KeyEventKind};
use glyph::models::entry::Entry;
use glyph::models::layout::Layout;
use glyph::services::LocalEntryState;

fn press(code: KeyCode) -> KeyEvent {
    KeyEvent::press(code)
}

fn ctrl(c: char) -> KeyEvent {
    KeyEvent { code: KeyCode::Char(c), control: true, shift: false, kind: KeyEventKind::Press }
}

fn accept_all(_: &str) -> bool {
    true
}

fn chars(s: &str) -> Vec<char> {
    s.chars().collect()
}

fn entries(names: &[(i64, &str)]) -> LocalEntryState {
    let connection = rusqlite::Connection::open_in_memory().unwrap();
    LocalEntryState::new(
        connection,
        names
            .iter()
            .map(|(id, n)| {
                (*id, Entry { entry_name: n.to_string(), sections: Vec::new(), layout: Layout::new("root") })
            })
            .collect(),
    )
}

#[test]
fn button_hover_starts_at_first_and_wraps() {
    assert_eq!(cycle_hover(None, 1, 2), Some(0));
    assert_eq!(cycle_hover(Some(0), 1, 2), Some(1));
    assert_eq!(cycle_hover(Some(1), 1, 2), Some(0));
    assert_eq!(cycle_hover(Some(0), -1, 3), Some(2));
}

#[test]
fn confirm_dialog_back_closes_and_confirm_submits_once() {
    let mut d = ConfirmDialog::new("Delete?").on_submit();
    assert_eq!(d.message, "Delete?");
    assert_eq!(d.handle(&press(KeyCode::Enter)), DialogAction::Nothing);
    assert_eq!(d.handle(&press(KeyCode::Tab)), DialogAction::Nothing);
    assert_eq!(d.state.hovered_index, Some(0));
    assert_eq!(d.handle(&press(KeyCode::Enter)), DialogAction::Close);
    d.handle(&press(KeyCode::Char('j')));
    assert_eq!(d.state.hovered_index, Some(1));
    assert_eq!(d.handle(&press(KeyCode::Enter)), DialogAction::Submit);
    assert!(!d.submit_pending);
    assert_eq!(d.handle(&press(KeyCode::Enter)), DialogAction::AlreadySubmitted);
    assert_eq!(d.handle(&press(KeyCode::Esc)), DialogAction::Close);
}

#[test]
fn confirm_dialog_ignores_releases() {
    let mut d = ConfirmDialog::new("m");
    let release = KeyEvent { code: KeyCode::Esc, control: false, shift: false, kind: KeyEventKind::Release };
    assert_eq!(d.handle(&release), DialogAction::Nothing);
    assert_eq!(d.state.hovered_index, None);
}

#[test]
fn text_input_dialog_edits_then_confirms() {
    let mut d = TextInputDialog::new("Name", "ab").on_submit();
    assert_eq!(d.state.text_input, "ab");
    assert!(d.is_valid_input());
    d.handle(&press(KeyCode::Down), &accept_all);
    assert_eq!(d.state.hovered_index, Some(0));
    d.handle(&press(KeyCode::Enter), &accept_all);
    assert!(d.field.state.is_focused);
    d.handle(&press(KeyCode::Char('x')), &accept_all);
    d.handle(&press(KeyCode::Backspace), &accept_all);
    d.handle(&press(KeyCode::Char('c')), &accept_all);
    assert_eq!(d.state.text_input, "ab");
    assert_eq!(d.handle(&press(KeyCode::Esc), &accept_all), DialogAction::Nothing);
    assert!(!d.field.state.is_focused);
    assert_eq!(d.state.text_input, "abc");
    d.handle(&press(KeyCode::Up), &accept_all);
    assert_eq!(d.state.hovered_index, Some(2));
    assert_eq!(d.handle(&press(KeyCode::Enter), &accept_all), DialogAction::Submit);
    assert_eq!(d.handle(&press(KeyCode::Enter), &accept_all), DialogAction::AlreadySubmitted);
    d.handle(&press(KeyCode::Up), &accept_all);
    assert_eq!(d.handle(&press(KeyCode::Enter), &accept_all), DialogAction::Close);
}

#[test]
fn text_input_dialog_refuses_invalid_text() {
    let mut d = TextInputDialog::new("Name", "a").on_submit();
    let not_empty = |s: &str| !s.is_empty();
    d.handle(&press(KeyCode::Down), &not_empty);
    d.handle(&press(KeyCode::Enter), &not_empty);
    d.handle(&press(KeyCode::Char('q')), &not_empty);
    assert!(d.is_valid_input());
    d.handle(&press(KeyCode::Backspace), &not_empty);
    d.handle(&press(KeyCode::Backspace), &not_empty);
    assert!(!d.is_valid_input());
    d.handle(&press(KeyCode::Esc), &not_empty);
    assert_eq!(d.state.text_input, "");
    d.handle(&press(KeyCode::BackTab), &not_empty);
    assert_eq!(d.state.hovered_index, Some(2));
    assert_eq!(d.handle(&press(KeyCode::Enter), &not_empty), DialogAction::Nothing);
    assert!(d.submit_pending);
    assert_eq!(d.handle(&press(KeyCode::Esc), &not_empty), DialogAction::Close);
}

#[test]
fn contains_chars_finds_runs() {
    assert!(contains_chars(&chars("notebook"), &chars("book")));
    assert!(contains_chars(&chars("notebook"), &chars("")));
    assert!(contains_chars(&chars("abc"), &chars("abc")));
    assert!(!contains_chars(&chars("notebook"), &chars("bk")));
    assert!(!contains_chars(&chars("ab"), &chars("abc")));
    assert!(!contains_chars(&chars(""), &chars("a")));
}

#[test]
fn search_dialog_starts_with_every_entry_matching() {
    let e = entries(&[(1, "alpha"), (2, "beta")]);
    let d = SearchEntryDialog::new(&e);
    assert!(d.state.is_focused);
    assert_eq!(d.state.hovered_index, 0);
    assert_eq!(d.available_entry_ids(), vec![1, 2]);
}

#[test]
fn search_dialog_filters_as_text_is_typed() {
    let mut e = entries(&[(1, "alpha"), (2, "beta"), (3, "gamma")]);
    let mut d = SearchEntryDialog::new(&e);
    d.handle(&mut e, &press(KeyCode::Char('m')), &accept_all);
    assert_eq!(d.available_entry_ids(), vec![1, 2, 3]);
    d.handle(&mut e, &press(KeyCode::Char('m')), &accept_all);
    assert_eq!(d.available_entry_ids(), vec![3]);
    d.handle(&mut e, &press(KeyCode::Backspace), &accept_all);
    d.handle(&mut e, &press(KeyCode::Char('a')), &accept_all);
    assert_eq!(d.available_entry_ids(), vec![1, 2, 3]);
    d.handle(&mut e, &press(KeyCode::Char('l')), &accept_all);
    assert_eq!(d.available_entry_ids(), vec![1]);
    assert_eq!(d.state.hovered_index, 0);
}

#[test]
fn search_dialog_moves_hover_and_activates_entry() {
    let mut e = entries(&[(1, "alpha"), (2, "beta"), (3, "gamma")]);
    let mut d = SearchEntryDialog::new(&e);
    assert_eq!(d.handle(&mut e, &ctrl('n'), &accept_all), DialogAction::Nothing);
    assert_eq!(d.state.hovered_index, 1);
    d.handle(&mut e, &ctrl('p'), &accept_all);
    d.handle(&mut e, &ctrl('p'), &accept_all);
    assert_eq!(d.state.hovered_index, 2);
    assert_eq!(d.handle(&mut e, &press(KeyCode::Enter), &accept_all), DialogAction::Close);
    assert_eq!(e.active_entry_id, Some(3));
    assert_eq!(d.handle(&mut e, &press(KeyCode::Esc), &accept_all), DialogAction::Close);
}

#[test]
fn search_dialog_update_moves_hover_back() {
    let e = entries(&[(1, "ab"), (2, "ab"), (3, "ab")]);
    let mut d = SearchEntryDialog::new(&e);
    d.state.hovered_index = 2;
    d.update_availability("a");
    assert_eq!(d.state.hovered_index, 1);
    d.update_availability("zz");
    assert_eq!(d.state.hovered_index, 0);
    assert!(d.available_entry_ids().is_empty());
}

#[test]
fn text_checks() {
    assert!(text_accepted(TextCheck::Any, ""));
    assert!(text_accepted(TextCheck::Any, "a/"));
    assert!(!text_accepted(TextCheck::NonEmpty, ""));
    assert!(text_accepted(TextCheck::NonEmpty, " "));
    assert!(text_accepted(TextCheck::NotEndingInSlash, ""));
    assert!(text_accepted(TextCheck::NotEndingInSlash, "/tmp/out.md"));
    assert!(!text_accepted(TextCheck::NotEndingInSlash, "/tmp/"));
    assert!(!text_accepted(TextCheck::NotEndingInSlash, "é/"));
}
