use std::path::PathBuf;

use glyph::app::commands::{process_app_commands, route_commands, route_result, AppCommand, Command, PageCommand};
use glyph::app::entrance::Entrance;
use glyph::app::input::{
    handle_global_events, is_cycle_backward_hover_key, is_cycle_forward_hover_key, AppState, KeyCode,
    KeyEvent, KeyEventKind,
};
use glyph::app::page::entrance_page::{
    glyph_file_name, path_page_key, CreateGlyphPageState, EntranceAction, EntrancePageState,
    GlyphOpenPageState, PathPageAction,
};
use glyph::app::page::glyph_page::{
    page_key_target, GlyphNavigationBar, GlyphPageAction, GlyphPageState, NavigationAction, PageKeyTarget,
};
use glyph::app::page::glyph_viewer::{GlyphMode, GlyphViewerState, ViewerAction};
use glyph::app::states::ApplicationState;
use glyph::app::widget_states::{ButtonState, TextFieldState, TextInputMode};
use glyph::app::{get_draw_flag, DrawFlag};
use glyph::models::entry::Entry;
use glyph::models::layout::Layout;
use glyph::services::LocalEntryState;

fn press(code: KeyCode) -> KeyEvent {
    KeyEvent::press(code)
}

fn ctrl(c: char) -> KeyEvent {
    KeyEvent { code: KeyCode::Char(c), control: true, shift: false, kind: KeyEventKind::Press }
}

fn entries(names: &[(i64, &str)]) -> LocalEntryState {
    let connection = rusqlite::Connection::open_in_memory().unwrap();
    LocalEntryState::new(
        connection,
        names
            .iter()
            .map(|(id, n)| {
                (*id, Entry { entry_name: n.to_string(), sections: Vec::new(), layout: Layout::new("root") })
            })
            .collect(),
    )
}

#[test]
fn draw_flag_prefers_focus_then_hover() {
    assert_eq!(get_draw_flag(Some(1), 1, Some(true)), DrawFlag::FOCUSED);
    assert_eq!(get_draw_flag(Some(1), 1, Some(false)), DrawFlag::HIGHLIGHTING);
    assert_eq!(get_draw_flag(Some(1), 1, None), DrawFlag::HIGHLIGHTING);
    assert_eq!(get_draw_flag(Some(0), 1, None), DrawFlag::DEFAULT);
    assert_eq!(get_draw_flag(None, 0, Some(false)), DrawFlag::DEFAULT);
}

#[test]
fn hover_keys() {
    for c in [KeyCode::Char('j'), KeyCode::Down, KeyCode::Right, KeyCode::Tab] {
        assert!(is_cycle_forward_hover_key(&press(c)));
        assert!(!is_cycle_backward_hover_key(&press(c)));
    }
    for c in [KeyCode::Char('k'), KeyCode::Up, KeyCode::Left, KeyCode::BackTab] {
        assert!(is_cycle_backward_hover_key(&press(c)));
        assert!(!is_cycle_forward_hover_key(&press(c)));
    }
    assert!(!is_cycle_forward_hover_key(&press(KeyCode::Enter)));
}

#[test]
fn f1_quits() {
    let mut s = AppState { should_quit: false };
    handle_global_events(&press(KeyCode::F(2)), &mut s);
    assert!(!s.should_quit);
    let release = KeyEvent { code: KeyCode::F(1), control: false, shift: false, kind: KeyEventKind::Release };
    handle_global_events(&release, &mut s);
    assert!(!s.should_quit);
    handle_global_events(&press(KeyCode::F(1)), &mut s);
    assert!(s.should_quit);
}

#[test]
fn commands_are_routed_from_last_to_first() {
    let commands: Vec<Command<&str, u32>> = vec![
        Command::Other(1),
        Command::Page(PageCommand::PushDialog("a")),
        Command::Other(2),
        Command::Page(PageCommand::PopDialog),
        Command::Page(PageCommand::PushDialog("b")),
    ];
    let mut dialogs = vec!["base"];
    let rest = route_commands(commands, &mut dialogs);
    assert_eq!(rest, vec![1, 2]);
    assert_eq!(dialogs, vec!["base", "a"]);
    let mut none: Vec<&str> = Vec::new();
    let rest = route_commands(vec![Command::<&str, u32>::Page(PageCommand::PopDialog)], &mut none);
    assert!(rest.is_empty());
    assert!(none.is_empty());
}

#[test]
fn entrance_focus() {
    let mut e = Entrance::new();
    assert!(e.is_focused());
    e.set_focus(false);
    assert!(!e.is_focused());
}

#[test]
fn button_and_text_field_states() {
    let mut b = ButtonState::new();
    assert!(!b.is_focused());
    b.set_focused(true);
    assert!(b.is_focused());
    let mut t = TextFieldState::from_str("hi");
    assert_eq!(t.text_as_string(), "hi");
    assert!(!t.is_focused());
    t.set_focused(true);
    assert!(t.is_focused());
    assert_eq!(TextFieldState::new().text_as_string(), "");
    let _ = TextInputMode::Normal;
}

#[test]
fn application_state_messages_and_path() {
    let mut s = ApplicationState::new(PathBuf::from("/a"));
    assert_eq!(s.get_current_path(), &PathBuf::from("/a"));
    assert!(!*s.get_should_quit());
    s.set_should_quit(true);
    assert!(*s.get_should_quit());
    s.set_current_path(&PathBuf::from("/b/c"));
    assert_eq!(s.get_current_path(), &PathBuf::from("/b/c"));
    assert_eq!(s.info_message(), None);
    s.set_info_message("saved");
    s.set_warning_message("careful");
    s.set_error_message("failed");
    assert_eq!(s.info_message(), Some("saved".to_string()));
    assert_eq!(s.warning_message(), Some("careful".to_string()));
    assert_eq!(s.error_message(), Some("failed".to_string()));
    s.reset_info_message();
    s.reset_warning_message();
    s.reset_error_message();
    assert_eq!(s.info_message(), None);
    assert_eq!(s.warning_message(), None);
    assert_eq!(s.error_message(), None);
}

#[test]
fn entrance_page_buttons() {
    let mut p = EntrancePageState::new();
    assert!(p.is_focused);
    assert_eq!(p.handle(&press(KeyCode::Enter)), EntranceAction::Nothing);
    assert_eq!(p.handle(&press(KeyCode::Down)), EntranceAction::Nothing);
    assert_eq!(p.handle(&press(KeyCode::Enter)), EntranceAction::OpenCreatePage);
    p.handle(&press(KeyCode::Down));
    assert_eq!(p.handle(&press(KeyCode::Enter)), EntranceAction::OpenOpenPage);
    p.handle(&press(KeyCode::Down));
    assert_eq!(p.handle(&press(KeyCode::Enter)), EntranceAction::ConfirmQuit);
    p.handle(&press(KeyCode::Down));
    assert_eq!(p.hovered_index, Some(0));
    assert_eq!(p.handle(&press(KeyCode::Esc)), EntranceAction::ConfirmQuit);
}

#[test]
fn path_pages_share_their_keys() {
    assert_eq!(path_page_key(None, &press(KeyCode::Tab)), (Some(0), PathPageAction::Nothing));
    assert_eq!(path_page_key(Some(0), &press(KeyCode::Enter)), (Some(0), PathPageAction::FocusDirectoryList));
    assert_eq!(path_page_key(Some(0), &press(KeyCode::Up)), (Some(2), PathPageAction::Nothing));
    assert_eq!(path_page_key(Some(1), &press(KeyCode::Enter)), (Some(1), PathPageAction::PopPage));
    assert_eq!(path_page_key(Some(2), &press(KeyCode::Enter)), (Some(2), PathPageAction::Proceed));
    assert_eq!(path_page_key(None, &press(KeyCode::Esc)), (None, PathPageAction::PopPage));

    let mut open = GlyphOpenPageState::new(PathBuf::from("/x"));
    open.handle(&press(KeyCode::BackTab));
    assert_eq!(open.handle(&press(KeyCode::Enter)), PathPageAction::FocusDirectoryList);
    assert_eq!(open.path_to_open, PathBuf::from("/x"));

    let mut create = CreateGlyphPageState::new(PathBuf::from("/y"));
    create.handle(&press(KeyCode::Up));
    assert_eq!(create.hovered_index, Some(0));
    create.handle(&press(KeyCode::Up));
    assert_eq!(create.handle(&press(KeyCode::Enter)), PathPageAction::Proceed);
    assert_eq!(create.path_to_create, PathBuf::from("/y"));
}

#[test]
fn glyph_file_name_appends_extension() {
    assert_eq!(glyph_file_name("notes"), "notes.glyph");
    assert_eq!(glyph_file_name(""), ".glyph");
}

#[test]
fn viewer_modes_cycle_and_save() {
    let mut e = entries(&[(1, "a")]);
    let mut v = GlyphViewerState::new();
    assert_eq!(v.mode, GlyphMode::Read);
    assert_eq!(v.handle(&mut e, &press(KeyCode::Char('\\'))), ViewerAction::TookFocus);
    assert_eq!(v.mode, GlyphMode::Read);
    assert_eq!(v.handle(&mut e, &press(KeyCode::Char('\\'))), ViewerAction::PassOn);
    assert_eq!(v.mode, GlyphMode::Edit);
    assert_eq!(v.handle(&mut e, &press(KeyCode::Char('\\'))), ViewerAction::RefreshLayoutEditPanel);
    assert_eq!(v.mode, GlyphMode::Layout);
    assert_eq!(v.handle(&mut e, &press(KeyCode::Char('\\'))), ViewerAction::PassOn);
    assert_eq!(v.mode, GlyphMode::Read);
    assert_eq!(GlyphMode::Read.next().next().next(), GlyphMode::Read);

    e.toggle_active_entry_id(1);
    e.set_entry_unsaved_state(1, true);
    assert!(e.updated_entries.contains(&1));
    assert_eq!(v.handle(&mut e, &ctrl('s')), ViewerAction::SaveEntry(1));
    assert!(!e.updated_entries.contains(&1));
}

#[test]
fn navigation_bar_hovers_activates_and_asks() {
    let mut e = entries(&[(1, "b"), (2, "a")]);
    let mut n = GlyphNavigationBar::new();
    assert!(matches!(n.handle(&mut e, &press(KeyCode::Char('A'))), NavigationAction::Nothing));
    assert!(n.state.is_focused);
    n.handle(&mut e, &press(KeyCode::Down));
    assert_eq!(n.state.hovered_index, Some(0));
    n.handle(&mut e, &press(KeyCode::Enter));
    assert_eq!(e.active_entry_id, Some(2));
    n.handle(&mut e, &press(KeyCode::Enter));
    assert_eq!(e.active_entry_id, None);
    n.handle(&mut e, &press(KeyCode::Up));
    assert_eq!(n.state.hovered_index, Some(1));
    n.handle(&mut e, &press(KeyCode::Enter));
    assert_eq!(e.active_entry_id, Some(1));
    assert!(matches!(n.handle(&mut e, &press(KeyCode::Char('A'))), NavigationAction::AskNewEntryName));
    assert!(matches!(n.handle(&mut e, &press(KeyCode::Char('F'))), NavigationAction::AskFilter));
    match n.handle(&mut e, &press(KeyCode::Char('R'))) {
        NavigationAction::AskRename(name) => assert_eq!(name, "b"),
        _ => panic!("expected a rename request"),
    }
    assert!(matches!(n.handle(&mut e, &press(KeyCode::Char('x'))), NavigationAction::ConfirmDeleteEntry));
    n.handle(&mut e, &press(KeyCode::Esc));
    assert!(!n.state.is_focused);
}

#[test]
fn navigation_bar_delete_needs_an_active_entry() {
    let mut e = entries(&[(1, "a")]);
    let mut n = GlyphNavigationBar::new();
    n.handle(&mut e, &press(KeyCode::Enter));
    assert!(matches!(n.handle(&mut e, &press(KeyCode::Char('x'))), NavigationAction::Nothing));
}

#[test]
fn glyph_page_keys() {
    let mut p = GlyphPageState::new();
    assert_eq!(p.handle_page_key(&press(KeyCode::Enter), false, false), GlyphPageAction::Nothing);
    p.handle_page_key(&press(KeyCode::Tab), false, false);
    assert_eq!(p.handle_page_key(&press(KeyCode::Enter), false, false), GlyphPageAction::FocusNavigationBar);
    p.handle_page_key(&press(KeyCode::Tab), false, false);
    assert_eq!(p.hovered_index, Some(1));
    assert_eq!(p.handle_page_key(&press(KeyCode::Enter), false, false), GlyphPageAction::Nothing);
    assert_eq!(p.handle_page_key(&press(KeyCode::Enter), false, true), GlyphPageAction::FocusViewer);
    p.handle_page_key(&ctrl('b'), false, false);
    assert!(p.hidden_container_index.contains(&0));
    p.handle_page_key(&ctrl('b'), false, false);
    assert!(p.hidden_container_index.is_empty());
    assert_eq!(p.handle_page_key(&press(KeyCode::Esc), true, true), GlyphPageAction::ConfirmExit);
    assert_eq!(p.handle_page_key(&press(KeyCode::Esc), false, true), GlyphPageAction::PopPage);
}

#[test]
fn viewer_backquote_cycles_modes_too() {
    let mut e = entries(&[(1, "a")]);
    let mut v = GlyphViewerState::new();
    v.is_focused = true;
    v.handle(&mut e, &press(KeyCode::Char('`')));
    assert_eq!(v.mode, GlyphMode::Edit);
    assert_eq!(v.handle(&mut e, &press(KeyCode::Char('`'))), ViewerAction::RefreshLayoutEditPanel);
    assert_eq!(v.mode, GlyphMode::Layout);
    v.handle(&mut e, &press(KeyCode::Char('`')));
    assert_eq!(v.mode, GlyphMode::Read);
    v.handle(&mut e, &press(KeyCode::Char('x')));
    assert_eq!(v.mode, GlyphMode::Read);
}

#[test]
fn app_commands_run_from_the_last_to_the_first() {
    let mut pages = vec!["entrance"];
    let mut popups: Vec<u8> = vec![];
    let mut quit = false;
    let commands = vec![
        AppCommand::PushPage("glyph"),
        AppCommand::PopPage,
        AppCommand::PushPopup(7),
        AppCommand::PushPage("path"),
    ];
    process_app_commands(commands, &mut pages, &mut popups, &mut quit);
    assert_eq!(pages, vec!["entrance", "glyph"]);
    assert_eq!(popups, vec![7]);
    assert!(!quit);
    process_app_commands(vec![AppCommand::Quit, AppCommand::PopPopup, AppCommand::PopPopup], &mut pages, &mut popups, &mut quit);
    assert!(popups.is_empty());
    assert!(quit);
    let mut none: Vec<&str> = vec![];
    process_app_commands(vec![AppCommand::<&str, u8>::PopPage], &mut none, &mut popups, &mut quit);
    assert!(none.is_empty());
}

#[test]
fn a_replaced_page_keeps_those_below() {
    let mut pages = vec![1, 2];
    let mut popups: Vec<u8> = vec![];
    let mut quit = false;
    process_app_commands(vec![AppCommand::PushPage(3), AppCommand::PopPage], &mut pages, &mut popups, &mut quit);
    assert_eq!(pages, vec![1, 3]);
    process_app_commands(vec![AppCommand::PopPage, AppCommand::PushPage(4)], &mut pages, &mut popups, &mut quit);
    assert_eq!(pages, vec![1, 3]);
}

#[test]
fn a_failed_key_leaves_the_dialogs() {
    let mut dialogs = vec!["a"];
    let failed: Result<Vec<Command<&str, u8>>, &str> = Err("no");
    assert_eq!(route_result(failed, &mut dialogs), Err("no"));
    assert_eq!(dialogs, vec!["a"]);
    let handled: Result<Vec<Command<&str, u8>>, &str> =
        Ok(vec![Command::Other(5), Command::Page(PageCommand::PopDialog), Command::Page(PageCommand::PushDialog("b"))]);
    assert_eq!(route_result(handled, &mut dialogs), Ok(vec![5]));
    assert_eq!(dialogs, vec!["a"]);
    let closed: Result<Vec<Command<&str, u8>>, &str> = Ok(vec![Command::Page(PageCommand::PopDialog)]);
    assert_eq!(route_result(closed, &mut dialogs), Ok(vec![]));
    assert!(dialogs.is_empty());
}

#[test]
fn keys_go_to_the_top_dialog_first() {
    assert_eq!(page_key_target(2, true, true), PageKeyTarget::TopDialog);
    assert_eq!(page_key_target(0, true, true), PageKeyTarget::NavigationBar);
    assert_eq!(page_key_target(0, false, true), PageKeyTarget::Viewer);
    assert_eq!(page_key_target(0, false, false), PageKeyTarget::Page);
}
