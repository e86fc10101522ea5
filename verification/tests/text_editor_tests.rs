use glyph::app::input::{KeyCode, KeyEvent, KeyEventKind};
use glyph::app::widget::text_editor::{EditMode, TextEditor};

fn editor(text: &str) -> TextEditor {
    let mut e = TextEditor::new("Editor", "");
    e.replace(text.to_string());
    e
}

fn lines(e: &TextEditor) -> Vec<String> {
    e.state.lines.iter().map(|l| l.iter().collect()).collect()
}

fn press(e: &mut TextEditor, code: KeyCode) -> bool {
    e.handle(&KeyEvent::press(code))
}

#[test]
fn new_editor_is_empty_and_in_normal_mode() {
    let e = TextEditor::new("Editor", "ignored");
    assert_eq!(e.state.label, "Editor");
    assert!(e.state.lines.is_empty());
    assert_eq!(e.state.mode, EditMode::Normal);
    assert!(!e.is_focused());
    assert_eq!(e.get_cursor_position(), (0, 0));
}

#[test]
fn replace_splits_on_newlines() {
    assert_eq!(lines(&editor("a\nbc\n\nd")), vec!["a", "bc", "", "d"]);
    assert_eq!(lines(&editor("")), vec![""]);
    assert_eq!(lines(&editor("x\n")), vec!["x", ""]);
}

#[test]
fn to_content_joins_with_newlines() {
    for text in ["a\nbc\n\nd", "", "x\n", "\n\n", "one line"] {
        assert_eq!(editor(text).to_content(), text);
    }
}

#[test]
fn to_raw_string_drops_the_newlines() {
    assert_eq!(editor("ab\ncd\n").to_raw_string(), "abcd");
}

#[test]
fn loading_the_joined_lines_gives_the_lines_back() {
    let e = editor("first\nsecond\n\nlast");
    let again = editor(&e.to_content());
    assert_eq!(lines(&again), lines(&e));
}

#[test]
fn motions_stay_within_the_text() {
    let mut e = editor("abc\nde");
    e.move_to_previous_char();
    assert_eq!(e.get_cursor_position(), (0, 0));
    e.move_to_previous_line();
    assert_eq!(e.get_cursor_position(), (0, 0));
    e.move_to_end_of_line();
    assert_eq!(e.get_cursor_position(), (3, 0));
    e.move_to_next_char();
    assert_eq!(e.get_cursor_position(), (3, 0));
    e.move_to_next_line();
    e.move_to_next_line();
    assert_eq!(e.get_cursor_position(), (3, 1));
    e.move_to_start_of_line();
    assert_eq!(e.get_cursor_position(), (0, 1));
}

#[test]
fn word_motions() {
    let mut e = editor("one two  three");
    e.move_to_next_word();
    assert_eq!(e.get_cursor_position().0, 3);
    e.move_to_next_word();
    assert_eq!(e.get_cursor_position().0, 7);
    e.move_to_previous_word();
    assert_eq!(e.get_cursor_position().0, 4);
    e.move_to_previous_word();
    assert_eq!(e.get_cursor_position().0, 4);
    e.move_to_previous_char();
    e.move_to_previous_word();
    assert_eq!(e.get_cursor_position().0, 0);
}

#[test]
fn next_word_on_the_last_word_goes_to_the_end() {
    let mut e = editor("one two");
    e.state.cursor_index = 4;
    e.move_to_next_word();
    assert_eq!(e.get_cursor_position().0, 7);
}

#[test]
fn forward_and_backward_search() {
    let mut e = editor("a,b,c");
    assert!(e.move_forward_to(','));
    assert_eq!(e.get_cursor_position().0, 0);
    e.state.cursor_index = 2;
    assert!(e.move_forward_to(','));
    assert_eq!(e.get_cursor_position().0, 2);
    e.state.cursor_index = 4;
    assert!(!e.move_forward_to(','));
    assert_eq!(e.get_cursor_position().0, 4);
    assert!(e.move_backward_to(','));
    assert_eq!(e.get_cursor_position().0, 3);
    e.state.cursor_index = 1;
    assert!(!e.move_backward_to(','));
}

#[test]
fn insert_and_delete_chars() {
    let mut e = editor("ac");
    e.state.cursor_index = 1;
    e.insert_char('b');
    assert_eq!(lines(&e), vec!["abc"]);
    assert_eq!(e.get_cursor_position().0, 2);
    e.delete_char();
    assert_eq!(lines(&e), vec!["ab"]);
    e.state.cursor_index = 10;
    e.insert_char('!');
    assert_eq!(lines(&e), vec!["ab!"]);
    assert_eq!(e.get_cursor_position().0, 3);
}

#[test]
fn delete_on_an_empty_line_does_nothing() {
    let mut e = editor("");
    e.delete_char();
    assert_eq!(lines(&e), vec![""]);
}

#[test]
fn open_lines_below_and_above() {
    let mut e = editor("a\nb");
    e.insert_new_line_below();
    assert_eq!(lines(&e), vec!["a", "", "b"]);
    e.insert_new_line_above();
    assert_eq!(lines(&e), vec!["", "a", "", "b"]);
}

#[test]
fn cut_and_merge() {
    let mut e = editor("hello world\nnext");
    e.state.cursor_index = 5;
    e.cut_into_next_newline();
    assert_eq!(lines(&e), vec!["hello", " world", "next"]);
    assert_eq!(e.get_cursor_position(), (0, 1));
    e.move_to_previous_line();
    e.merge_with_next_line();
    assert_eq!(lines(&e), vec!["hello world", "next"]);
    e.move_to_next_line();
    e.merge_with_next_line();
    assert_eq!(lines(&e), vec!["hello world", "next"]);
}

#[test]
fn scroll_stays_within_bounds() {
    let mut e = editor("x");
    e.scroll_vertical_offset(-16);
    assert_eq!(e.state.scroll_offset, 0);
    e.scroll_vertical_offset(16);
    e.scroll_vertical_offset(16);
    assert_eq!(e.state.scroll_offset, 32);
    e.scroll_vertical_offset(-20);
    assert_eq!(e.state.scroll_offset, 12);
    e.state.scroll_offset = usize::MAX - 1;
    e.scroll_vertical_offset(16);
    assert_eq!(e.state.scroll_offset, usize::MAX);
}

#[test]
fn normal_mode_keys() {
    let mut e = editor("one two\nthree");
    assert!(!press(&mut e, KeyCode::Char('l')));
    assert_eq!(e.get_cursor_position(), (1, 0));
    press(&mut e, KeyCode::Char('j'));
    assert_eq!(e.get_cursor_position(), (1, 1));
    press(&mut e, KeyCode::Char('k'));
    press(&mut e, KeyCode::Char('$'));
    assert_eq!(e.get_cursor_position(), (7, 0));
    press(&mut e, KeyCode::Char('0'));
    assert_eq!(e.get_cursor_position(), (0, 0));
    press(&mut e, KeyCode::Char('e'));
    assert_eq!(e.get_cursor_position(), (2, 0));
    press(&mut e, KeyCode::Char('x'));
    assert_eq!(lines(&e), vec!["on two", "three"]);
    press(&mut e, KeyCode::Char('J'));
    assert_eq!(lines(&e), vec!["on twothree"]);
    press(&mut e, KeyCode::Char('A'));
    assert_eq!(e.state.mode, EditMode::Insert);
    assert_eq!(e.get_cursor_position(), (11, 0));
}

#[test]
fn esc_in_normal_mode_leaves_the_editor() {
    let mut e = editor("x");
    e.set_focus(true);
    assert!(press(&mut e, KeyCode::Esc));
    assert!(!e.is_focused());
}

#[test]
fn released_keys_do_nothing() {
    let mut e = editor("abc");
    let key = KeyEvent { code: KeyCode::Char('l'), control: false, shift: false, kind: KeyEventKind::Release };
    assert!(!e.handle(&key));
    assert_eq!(e.get_cursor_position(), (0, 0));
}

#[test]
fn ctrl_d_and_ctrl_u_scroll() {
    let mut e = editor("x");
    let down = KeyEvent { code: KeyCode::Char('d'), control: true, shift: false, kind: KeyEventKind::Press };
    let up = KeyEvent { code: KeyCode::Char('u'), control: true, shift: false, kind: KeyEventKind::Press };
    e.handle(&down);
    assert_eq!(e.state.scroll_offset, 16);
    e.handle(&up);
    assert_eq!(e.state.scroll_offset, 0);
}

#[test]
fn insert_mode_typing_and_keys() {
    let mut e = editor("ac");
    press(&mut e, KeyCode::Char('l'));
    press(&mut e, KeyCode::Char('i'));
    assert_eq!(e.state.mode, EditMode::Insert);
    press(&mut e, KeyCode::Char('b'));
    assert_eq!(lines(&e), vec!["abc"]);
    press(&mut e, KeyCode::Tab);
    assert_eq!(lines(&e), vec!["ab    c"]);
    assert!(!press(&mut e, KeyCode::Esc));
    assert_eq!(e.state.mode, EditMode::Normal);
}

#[test]
fn typing_then_backspace_restores_the_line() {
    let mut e = editor("hello");
    e.switch_mode(EditMode::Insert);
    e.state.cursor_index = 2;
    press(&mut e, KeyCode::Char('X'));
    assert_eq!(lines(&e), vec!["heXllo"]);
    press(&mut e, KeyCode::Backspace);
    assert_eq!(lines(&e), vec!["hello"]);
}

#[test]
fn enter_then_backspace_restores_the_lines() {
    let mut e = editor("hello world\nnext");
    e.switch_mode(EditMode::Insert);
    e.state.cursor_index = 6;
    press(&mut e, KeyCode::Enter);
    assert_eq!(lines(&e), vec!["hello ", "world", "next"]);
    press(&mut e, KeyCode::Backspace);
    assert_eq!(lines(&e), vec!["hello world", "next"]);
}

#[test]
fn open_line_below_in_normal_mode() {
    let mut e = editor("a\nb");
    press(&mut e, KeyCode::Char('o'));
    assert_eq!(lines(&e), vec!["a", "", "b"]);
    assert_eq!(e.get_cursor_position().1, 1);
    assert_eq!(e.state.mode, EditMode::Insert);
}

#[test]
fn visual_mode_arrows_go_the_other_way() {
    let mut e = editor("abc\ndef");
    e.switch_mode(EditMode::Visual);
    press(&mut e, KeyCode::Left);
    assert_eq!(e.get_cursor_position(), (1, 0));
    press(&mut e, KeyCode::Up);
    assert_eq!(e.get_cursor_position(), (1, 1));
    press(&mut e, KeyCode::Esc);
    assert_eq!(e.state.mode, EditMode::Normal);
    e.switch_mode(EditMode::VisualLine);
    press(&mut e, KeyCode::Right);
    assert_eq!(e.get_cursor_position(), (0, 1));
}

#[test]
fn accepts_key_refuses_motions_past_the_line() {
    let mut e = editor("ab");
    assert!(e.accepts_key(&KeyEvent::press(KeyCode::Char('w'))));
    e.state.cursor_index = 2;
    assert!(!e.accepts_key(&KeyEvent::press(KeyCode::Char('w'))));
    assert!(!e.accepts_key(&KeyEvent::press(KeyCode::Char('x'))));
    assert!(!e.accepts_key(&KeyEvent::press(KeyCode::Char('e'))));
    assert!(e.accepts_key(&KeyEvent::press(KeyCode::Char('b'))));
    let release = KeyEvent { code: KeyCode::Char('w'), control: false, shift: false, kind: KeyEventKind::Release };
    assert!(e.accepts_key(&release));
    let mut empty = editor("");
    empty.switch_mode(EditMode::Insert);
    assert!(!empty.accepts_key(&KeyEvent::press(KeyCode::Enter)));
    assert!(empty.accepts_key(&KeyEvent::press(KeyCode::Char('q'))));
}
