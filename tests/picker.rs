use trust::picker::{App, KeyCode, KeyPress, Modifiers, Transition};

fn press(code: KeyCode) -> KeyPress {
    KeyPress { code, modifiers: Modifiers::Plain, is_press: true }
}

fn ctrl(c: char) -> KeyPress {
    KeyPress { code: KeyCode::Char(c), modifiers: Modifiers::Control, is_press: true }
}

fn names(ns: &[&str]) -> Vec<String> {
    ns.iter().map(|s| s.to_string()).collect()
}

fn three() -> App {
    App::new(
        "/w".to_string(),
        names(&["2024-01-01-a", "2024-03-05-c", "2024-02-10-b"]),
        None,
    )
}

#[test]
fn enter_on_empty_root_cancels() {
    let mut app = App::new("/w".to_string(), Vec::new(), None);
    assert_eq!(app.handle_key(press(KeyCode::Enter)), Transition::Cancelled);
}

#[test]
fn entries_are_newest_first_and_enter_selects_path() {
    let mut app = three();
    assert_eq!(app.len(), 3);
    assert_eq!(app.selected(), 0);
    assert_eq!(
        app.handle_key(press(KeyCode::Enter)),
        Transition::Selected("/w/2024-03-05-c".to_string())
    );
    app.handle_key(press(KeyCode::Down));
    app.handle_key(press(KeyCode::Down));
    assert_eq!(
        app.handle_key(press(KeyCode::Enter)),
        Transition::Selected("/w/2024-01-01-a".to_string())
    );
}

#[test]
fn moves_stay_within_entries() {
    let mut app = three();
    for _ in 0..5 {
        assert_eq!(app.handle_key(press(KeyCode::Down)), Transition::Continue);
        assert!(app.selected() < 3);
    }
    assert_eq!(app.selected(), 2);
    for _ in 0..5 {
        app.handle_key(press(KeyCode::Up));
        assert!(app.selected() < 3);
    }
    assert_eq!(app.selected(), 0);
    app.handle_key(ctrl('n'));
    assert_eq!(app.selected(), 1);
    app.handle_key(ctrl('p'));
    assert_eq!(app.selected(), 0);
}

#[test]
fn moves_on_empty_list_stay_at_zero() {
    let mut app = App::new("/w".to_string(), Vec::new(), None);
    app.move_down();
    app.move_up();
    assert_eq!(app.selected(), 0);
}

#[test]
fn cancel_keys() {
    let mut app = three();
    assert_eq!(app.handle_key(press(KeyCode::Esc)), Transition::Cancelled);
    assert_eq!(app.handle_key(ctrl('c')), Transition::Cancelled);
}

#[test]
fn typing_and_erasing_change_only_the_query() {
    let mut app = App::new("/w".to_string(), names(&["x"]), Some("ab".to_string()));
    assert_eq!(app.query(), "ab");
    app.handle_key(press(KeyCode::Char('c')));
    assert_eq!(app.query(), "abc");
    app.handle_key(press(KeyCode::Backspace));
    app.handle_key(press(KeyCode::Backspace));
    assert_eq!(app.query(), "a");
    app.handle_key(press(KeyCode::Backspace));
    app.handle_key(press(KeyCode::Backspace));
    assert_eq!(app.query(), "");
    assert_eq!(app.len(), 1);
    assert_eq!(app.selected(), 0);
}

#[test]
fn other_input_is_ignored() {
    let mut app = App::new("/w".to_string(), names(&["x"]), None);
    let shifted = KeyPress { code: KeyCode::Char('A'), modifiers: Modifiers::Other, is_press: true };
    assert_eq!(app.handle_key(shifted), Transition::Continue);
    assert_eq!(app.handle_key(press(KeyCode::Char('\u{7}'))), Transition::Continue);
    assert_eq!(app.handle_key(ctrl('x')), Transition::Continue);
    assert_eq!(app.handle_key(press(KeyCode::Other)), Transition::Continue);
    let release = KeyPress { code: KeyCode::Esc, modifiers: Modifiers::Plain, is_press: false };
    assert_eq!(app.handle_key(release), Transition::Continue);
    assert_eq!(app.query(), "");
}

#[test]
fn ensure_selection_visible_keeps_selection_in_window() {
    let ns: Vec<String> = (0..10).map(|i| format!("2024-01-{:02}-n", i + 1)).collect();
    let mut app = App::new("/w".to_string(), ns, None);
    for _ in 0..7 {
        app.move_down();
    }
    app.ensure_selection_visible(3);
    assert_eq!(app.selected(), 7);
    assert_eq!(app.scroll(), 5);
    for _ in 0..6 {
        app.move_up();
    }
    app.ensure_selection_visible(3);
    assert_eq!(app.scroll(), 1);
    app.ensure_selection_visible(1);
    assert_eq!(app.scroll(), 1);
}

#[test]
fn render_shows_window_and_marks_selection() {
    let mut app = three();
    app.move_down();
    let frame = app.render(2);
    assert_eq!(frame.query_line, "> ");
    assert_eq!(frame.rows.len(), 2);
    assert_eq!(frame.rows[0].text, "  📁 2024-03-05-c");
    assert!(!frame.rows[0].highlighted);
    assert_eq!(frame.rows[1].text, "→ 📁 2024-02-10-b");
    assert!(frame.rows[1].highlighted);
    let tall = app.render(10);
    assert_eq!(tall.rows.len(), 3);
}

#[test]
fn render_of_empty_list_has_no_rows() {
    let mut app = App::new("/w".to_string(), Vec::new(), Some("q".to_string()));
    let frame = app.render(5);
    assert_eq!(frame.query_line, "> q");
    assert!(frame.rows.is_empty());
}
