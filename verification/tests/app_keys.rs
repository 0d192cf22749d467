use spotui::app::{App, Event, InputMode, KeyCode, KeyEvent, KeyEventKind, KeyModifiers, Screen};

fn make_app(username: Option<&str>) -> App {
    App::new(username.map(String::from))
}

fn press(app: &mut App, code: KeyCode) {
    app.handle_key_event(KeyEvent::new(code, KeyModifiers::none()));
}

fn type_text(app: &mut App, text: &str) {
    for c in text.chars() {
        press(app, KeyCode::Char(c));
    }
}

fn editing_app() -> App {
    let mut app = make_app(Some("Test User"));
    press(&mut app, KeyCode::Char('2'));
    press(&mut app, KeyCode::Char('i'));
    app
}

#[test]
fn pressing_q_sets_exit() {
    let mut app = make_app(Some("Test User"));
    assert!(!app.exit_requested());
    let key = KeyEvent::new(KeyCode::Char('q'), KeyModifiers::none());
    app.handle_key_event(key);
    assert!(app.exit_requested())
}

#[test]
fn pressing_ctrl_c_sets_exit() {
    let mut app = make_app(Some("Test User"));
    assert!(!app.exit_requested());
    let key = KeyEvent::new(KeyCode::Char('c'), KeyModifiers::control());
    app.handle_key_event(key);
    assert!(app.exit_requested())
}

#[test]
fn test_handle_event_ok() {
    let mut app = make_app(Some("Test User"));
    let event = Event::Key(KeyEvent::new(KeyCode::Char('q'), KeyModifiers::none()));
    let result = app.handle_events(event);
    assert_eq!(result, ());
    assert!(app.exit_requested())
}

#[test]
fn new_app_starts_on_home_in_normal_mode() {
    let app = make_app(Some("Test User"));
    assert_eq!(app.username(), Some("Test User"));
    assert_eq!(app.current_view(), Screen::Home);
    assert_eq!(app.current_input_mode(), InputMode::Normal);
    assert_eq!(app.search_query(), "");
    assert_eq!(app.character_index(), 0);
    assert!(!app.exit_requested());
    let anonymous = make_app(None);
    assert_eq!(anonymous.username(), None);
}

#[test]
fn plain_c_does_not_exit() {
    let mut app = make_app(None);
    press(&mut app, KeyCode::Char('c'));
    assert!(!app.exit_requested());
}

#[test]
fn digits_switch_pages() {
    let mut app = make_app(None);
    press(&mut app, KeyCode::Char('2'));
    assert_eq!(app.current_view(), Screen::Search);
    press(&mut app, KeyCode::Char('3'));
    assert_eq!(app.current_view(), Screen::Playlists);
    press(&mut app, KeyCode::Char('1'));
    assert_eq!(app.current_view(), Screen::Home);
    press(&mut app, KeyCode::Char('4'));
    assert_eq!(app.current_view(), Screen::Home);
}

#[test]
fn i_starts_editing_only_on_search_page() {
    let mut app = make_app(None);
    press(&mut app, KeyCode::Char('i'));
    assert_eq!(app.current_input_mode(), InputMode::Normal);
    press(&mut app, KeyCode::Char('3'));
    press(&mut app, KeyCode::Char('i'));
    assert_eq!(app.current_input_mode(), InputMode::Normal);
    press(&mut app, KeyCode::Char('2'));
    press(&mut app, KeyCode::Char('i'));
    assert_eq!(app.current_input_mode(), InputMode::Editing);
    press(&mut app, KeyCode::Esc);
    assert_eq!(app.current_input_mode(), InputMode::Normal);
}

#[test]
fn typing_q_while_editing_does_not_exit() {
    let mut app = editing_app();
    press(&mut app, KeyCode::Char('q'));
    press(&mut app, KeyCode::Char('1'));
    assert!(!app.exit_requested());
    assert_eq!(app.current_view(), Screen::Search);
    assert_eq!(app.search_query(), "q1");
    assert_eq!(app.character_index(), 2);
}

#[test]
fn typing_inserts_at_cursor_with_multibyte_chars() {
    let mut app = editing_app();
    type_text(&mut app, "hé€o");
    assert_eq!(app.search_query(), "hé€o");
    assert_eq!(app.character_index(), 4);
    press(&mut app, KeyCode::Left);
    press(&mut app, KeyCode::Left);
    assert_eq!(app.character_index(), 2);
    press(&mut app, KeyCode::Char('😀'));
    assert_eq!(app.search_query(), "hé😀€o");
    assert_eq!(app.character_index(), 3);
    press(&mut app, KeyCode::Backspace);
    assert_eq!(app.search_query(), "hé€o");
    assert_eq!(app.character_index(), 2);
    press(&mut app, KeyCode::Backspace);
    assert_eq!(app.search_query(), "h€o");
    assert_eq!(app.character_index(), 1);
}

#[test]
fn cursor_stops_at_both_ends() {
    let mut app = editing_app();
    press(&mut app, KeyCode::Left);
    assert_eq!(app.character_index(), 0);
    press(&mut app, KeyCode::Backspace);
    assert_eq!(app.search_query(), "");
    type_text(&mut app, "ab");
    press(&mut app, KeyCode::Right);
    assert_eq!(app.character_index(), 2);
    press(&mut app, KeyCode::Left);
    press(&mut app, KeyCode::Left);
    press(&mut app, KeyCode::Left);
    assert_eq!(app.character_index(), 0);
    press(&mut app, KeyCode::Backspace);
    assert_eq!(app.search_query(), "ab");
    press(&mut app, KeyCode::Right);
    assert_eq!(app.character_index(), 1);
}

#[test]
fn enter_clears_query() {
    let mut app = editing_app();
    type_text(&mut app, "queen");
    press(&mut app, KeyCode::Enter);
    assert_eq!(app.search_query(), "");
    assert_eq!(app.character_index(), 0);
    assert_eq!(app.current_input_mode(), InputMode::Editing);
}

#[test]
fn backspace_after_typing_restores_query() {
    let mut app = editing_app();
    type_text(&mut app, "añb");
    press(&mut app, KeyCode::Left);
    let before = app.search_query();
    let cursor = app.character_index();
    press(&mut app, KeyCode::Char('ü'));
    press(&mut app, KeyCode::Backspace);
    assert_eq!(app.search_query(), before);
    assert_eq!(app.character_index(), cursor);
}

#[test]
fn other_keys_are_ignored() {
    let mut app = editing_app();
    type_text(&mut app, "x");
    press(&mut app, KeyCode::Up);
    press(&mut app, KeyCode::Down);
    press(&mut app, KeyCode::Other);
    assert_eq!(app.search_query(), "x");
    assert_eq!(app.character_index(), 1);
}

#[test]
fn only_key_presses_are_handled() {
    let mut app = make_app(None);
    let release = KeyEvent {
        code: KeyCode::Char('q'),
        modifiers: KeyModifiers::none(),
        kind: KeyEventKind::Release,
    };
    app.handle_events(Event::Key(release));
    assert!(!app.exit_requested());
    app.handle_events(Event::Other);
    assert!(!app.exit_requested());
    let repeat = KeyEvent { kind: KeyEventKind::Repeat, ..release };
    app.handle_events(Event::Key(repeat));
    assert!(!app.exit_requested());
}

#[test]
fn exit_stays_requested() {
    let mut app = make_app(None);
    press(&mut app, KeyCode::Char('q'));
    press(&mut app, KeyCode::Char('2'));
    press(&mut app, KeyCode::Char('i'));
    assert!(app.exit_requested());
}

#[test]
fn screens_and_titles() {
    let all = Screen::all();
    assert_eq!(all, vec![Screen::Home, Screen::Search, Screen::Playlists]);
    for (i, s) in all.iter().enumerate() {
        assert_eq!(s.index(), i);
    }
    assert_eq!(Screen::Home.title(), "Home");
    assert_eq!(Screen::Search.title(), "Search");
    assert_eq!(Screen::Playlists.title(), "Playlists");
}

#[test]
fn normal_mode_keys_leave_query_alone() {
    let mut app = editing_app();
    type_text(&mut app, "abc");
    press(&mut app, KeyCode::Left);
    press(&mut app, KeyCode::Esc);
    for c in ['x', '1', '2'] {
        press(&mut app, KeyCode::Char(c));
    }
    press(&mut app, KeyCode::Backspace);
    press(&mut app, KeyCode::Enter);
    press(&mut app, KeyCode::Left);
    assert_eq!(app.search_query(), "abc");
    assert_eq!(app.character_index(), 2);
    press(&mut app, KeyCode::Char('i'));
    assert_eq!(app.current_input_mode(), InputMode::Editing);
}

#[test]
fn left_then_right_returns_cursor() {
    let mut app = editing_app();
    type_text(&mut app, "héllo");
    press(&mut app, KeyCode::Left);
    press(&mut app, KeyCode::Left);
    let at = app.character_index();
    press(&mut app, KeyCode::Left);
    press(&mut app, KeyCode::Right);
    assert_eq!(app.character_index(), at);
    press(&mut app, KeyCode::Right);
    press(&mut app, KeyCode::Left);
    assert_eq!(app.character_index(), at);
}
