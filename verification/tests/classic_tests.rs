use texteditor::engine::app::Effect;
use texteditor::explorer::Explorer;
use texteditor::tui::app::{App, AppFocus, AppMode};
use texteditor::tui::events::{handle_event, Event, KeyCode, KeyEvent, MouseButton, MouseEvent, MouseEventKind};
use texteditor::tui::ui::layout_helpers::Rect;
use texteditor::tui::ui::{bar_slots, plain_cursor_position, plain_entry_text, plain_help_text, plain_status_text};

fn app_with(lines: &[&str]) -> App {
    let mut app = App::new(Explorer::with_path(".".to_string()));
    app.document.rows = lines.iter().map(|s| s.to_string()).collect();
    app.editor_area = Rect { x: 0, y: 0, width: 12, height: 6 };
    app.focus = AppFocus::Editor;
    app
}

fn rows(app: &App) -> Vec<&str> {
    app.document.rows.iter().map(|r| r.as_str()).collect()
}

fn key(code: KeyCode) -> Event {
    Event::Key(KeyEvent { code, ctrl: false })
}

fn ctrl(c: char) -> Event {
    Event::Key(KeyEvent { code: KeyCode::Char(c), ctrl: true })
}

#[test]
fn classic_new_menu() {
    let app = App::new(Explorer::with_path(".".to_string()));
    assert_eq!(app.menu_items, vec!["New File", "Save", "Settings (Soon)", "Exit"]);
    assert_eq!(app.focus, AppFocus::Explorer);
    assert_eq!(app.document.rows, vec![String::new()]);
}

#[test]
fn classic_paste_types_characters_and_breaks_lines() {
    let mut app = app_with(&["ab"]);
    app.cursor_x = 1;
    app.paste("x\r\ny");
    assert_eq!(rows(&app), vec!["ax", "yb"]);
    assert_eq!((app.cursor_x, app.cursor_y), (1, 1));
}

#[test]
fn classic_typing_scrolls_the_view() {
    let mut app = app_with(&[""]);
    for c in "0123456789abc".chars() {
        app.insert_char(c);
    }
    assert_eq!(app.cursor_x, 13);
    assert_eq!(app.scroll_x, 4);
    app.delete_char();
    assert_eq!(rows(&app), vec!["0123456789ab"]);
    assert_eq!(app.cursor_x, 12);
}

#[test]
fn classic_backspace_joins_lines() {
    let mut app = app_with(&["ab", "cd"]);
    app.cursor_y = 1;
    app.delete_char();
    assert_eq!(rows(&app), vec!["abcd"]);
    assert_eq!((app.cursor_x, app.cursor_y), (2, 0));
}

#[test]
fn classic_move_cursor_keeps_line_when_target_missing() {
    let mut app = app_with(&["abcdef", "xy"]);
    app.cursor_x = 5;
    app.move_cursor(0, 1);
    assert_eq!((app.cursor_x, app.cursor_y), (2, 1));
    app.move_cursor(0, 1);
    assert_eq!(app.cursor_y, 1);
    app.move_cursor(-5, 0);
    assert_eq!(app.cursor_x, 2);
    app.move_cursor(-1, 0);
    assert_eq!(app.cursor_x, 1);
}

#[test]
fn classic_click_clamps() {
    let mut app = app_with(&["abc", "de"]);
    app.handle_click(9, 9);
    assert_eq!((app.cursor_x, app.cursor_y), (2, 1));
}

#[test]
fn classic_menu_actions() {
    let mut app = app_with(&["keep"]);
    app.cursor_x = 2;
    app.mode = AppMode::Menu;
    app.menu_selection = 1;
    assert!(matches!(app.execute_menu_action(), Effect::Save));
    assert!(matches!(app.mode, AppMode::Editor));
    app.menu_selection = 0;
    app.execute_menu_action();
    assert_eq!(app.document.rows, vec![String::new()]);
    assert_eq!(app.cursor_x, 0);
    app.menu_selection = 3;
    app.execute_menu_action();
    assert!(app.should_quit);
    app.menu_up();
    app.menu_up();
    assert_eq!(app.menu_selection, 1);
}

#[test]
fn classic_events() {
    let mut app = app_with(&["hello", "world"]);
    handle_event(&mut app, key(KeyCode::Char('!')));
    assert_eq!(rows(&app), vec!["!hello", "world"]);
    match handle_event(&mut app, ctrl('c')) {
        Effect::Copy(t) => assert_eq!(t, "!hello"),
        _ => panic!("expected a copy"),
    }
    assert!(matches!(handle_event(&mut app, ctrl('s')), Effect::Save));
    let click = MouseEvent { kind: MouseEventKind::Down(MouseButton::Left), column: 3, row: 2 };
    handle_event(&mut app, Event::Mouse(click));
    assert_eq!((app.cursor_x, app.cursor_y), (2, 1));
    handle_event(&mut app, key(KeyCode::Tab));
    assert_eq!(app.focus, AppFocus::Explorer);
    handle_event(&mut app, key(KeyCode::Char('n')));
    handle_event(&mut app, key(KeyCode::Char('f')));
    match handle_event(&mut app, key(KeyCode::Enter)) {
        Effect::CreateFile(name) => assert_eq!(name, "f"),
        _ => panic!("expected a file to create"),
    }
    handle_event(&mut app, key(KeyCode::Esc));
    assert!(matches!(app.mode, AppMode::Menu));
    assert!(matches!(handle_event(&mut app, Event::Other), Effect::Nothing));
}

#[test]
fn first_editor_basics() {
    let doc = texteditor::document::Document::try_from("abc").ok().unwrap();
    let mut app = texteditor::app::App::new(doc);
    assert_eq!(app.menu_items, vec!["Uj fajl", "Mentes", "Beallitasok (Hamarosan)", "Kilepes"]);
    app.insert_char('X');
    assert_eq!(app.document.rows, vec!["Xabc".to_string()]);
    app.cursor_x = 9;
    app.insert_char('Y');
    assert_eq!(app.document.rows, vec!["Xabc".to_string()]);
    assert_eq!(app.cursor_x, 10);
    app.cursor_x = 1;
    app.delete_char();
    assert_eq!(app.document.rows, vec!["abc".to_string()]);
    assert_eq!(app.cursor_x, 0);
    app.cursor_x = 2;
    app.move_cursor(-3, 2);
    assert_eq!((app.cursor_x, app.cursor_y), (2, 2));
    app.editor_area = Rect { x: 2, y: 1, width: 10, height: 5 };
    app.handle_click(5, 3);
    assert_eq!((app.cursor_x, app.cursor_y), (2, 1));
    app.handle_click(11, 3);
    assert_eq!((app.cursor_x, app.cursor_y), (2, 1));
    app.toggle_menu();
    assert_eq!(app.mode, texteditor::app::AppMode::Menu);
    app.menu_selection = 3;
    app.execute_menu_action();
    assert!(app.should_quit);
}

#[test]
fn classic_status_and_help_bars() {
    let mut app = app_with(&["abc"]);
    assert_eq!(plain_status_text(&app), "EDITOR | Untitled | Ln 1, Col 1");
    assert_eq!(plain_help_text(&app), "Ctrl+S: Save | Ctrl+C: Copy Line | Ctrl+V: Paste | Tab: Focus Explorer");
    app.focus = AppFocus::Explorer;
    assert_eq!(plain_help_text(&app), "Tab: Focus Editor | Enter: Open | n: New File | d: New Dir");
    app.document.path = Some("notes.txt".to_string());
    app.cursor_x = 2;
    app.cursor_y = 10;
    app.mode = AppMode::Menu;
    assert_eq!(plain_status_text(&app), "MENU | notes.txt | Ln 11, Col 3");
    assert_eq!(plain_help_text(&app), "Enter: Select | Esc: Back | Up/Down: Navigate");
    app.mode = AppMode::PromptFile("x".to_string());
    assert_eq!(plain_status_text(&app), "INPUT | notes.txt | Ln 11, Col 3");
    assert_eq!(plain_help_text(&app), "Enter: Submit | Esc: Cancel");
}

#[test]
fn classic_cursor_cell() {
    let mut app = app_with(&["abc", "def"]);
    app.editor_area = Rect { x: 20, y: 0, width: 12, height: 6 };
    app.cursor_x = 2;
    app.cursor_y = 1;
    assert_eq!(plain_cursor_position(&app), Some((23, 2)));
    app.scroll_x = 1;
    assert_eq!(plain_cursor_position(&app), Some((22, 2)));
    app.scroll_y = 2;
    assert_eq!(plain_cursor_position(&app), None);
    app.scroll_y = 0;
    app.focus = AppFocus::Explorer;
    assert_eq!(plain_cursor_position(&app), None);
    app.focus = AppFocus::Editor;
    app.mode = AppMode::Menu;
    assert_eq!(plain_cursor_position(&app), None);
}

#[test]
fn classic_entry_names() {
    assert_eq!(plain_entry_text("/home/u/src", true), "[src]");
    assert_eq!(plain_entry_text("/home/u/a.txt", false), "a.txt");
    assert_eq!(plain_entry_text("/", true), "[]");
}

#[test]
fn bars_follow_the_panes() {
    assert_eq!(bar_slots(true, true), (Some(1), Some(2)));
    assert_eq!(bar_slots(false, true), (None, Some(1)));
    assert_eq!(bar_slots(true, false), (Some(1), None));
    assert_eq!(bar_slots(false, false), (None, None));
}

#[test]
fn classic_steps_keep_the_cursor_in_view() {
    let mut app = app_with(&["", "", "", "", "", "", "", "", "", ""]);
    let visible = |app: &App| {
        let a = app.editor_area;
        app.scroll_y <= app.cursor_y
            && app.cursor_y < app.scroll_y + a.height - 2
            && app.scroll_x <= app.cursor_x
            && app.cursor_x < app.scroll_x + a.width - 2
    };
    for _ in 0..8 {
        app.move_cursor(0, 1);
        assert!(visible(&app));
    }
    assert_eq!(app.cursor_y, 8);
    assert_eq!(app.scroll_y, 5);
    app.insert_newline();
    assert!(visible(&app));
    app.handle_click(0, 0);
    assert!(visible(&app));
    assert_eq!((app.scroll_x, app.scroll_y), (0, 0));
    app.delete_char();
    assert!(visible(&app));
}

#[test]
fn classic_paste_composes_and_ignores_carriage_returns() {
    let mut whole = app_with(&["ab"]);
    whole.cursor_x = 1;
    let mut parts = app_with(&["ab"]);
    parts.cursor_x = 1;
    let mut plain = app_with(&["ab"]);
    plain.cursor_x = 1;
    whole.paste("xy\r\nz");
    parts.paste("xy\r");
    parts.paste("\nz");
    plain.paste("xy\nz");
    assert_eq!(rows(&whole), rows(&parts));
    assert_eq!(rows(&whole), rows(&plain));
    assert_eq!(rows(&whole), vec!["axy", "zb"]);
    assert_eq!((whole.cursor_x, whole.cursor_y), (parts.cursor_x, parts.cursor_y));
    assert_eq!((whole.cursor_x, whole.cursor_y), (plain.cursor_x, plain.cursor_y));
    let mut same = app_with(&["ab"]);
    same.paste("");
    assert_eq!(rows(&same), vec!["ab"]);
}

#[test]
fn classic_backspace_undoes_typing_and_enter() {
    let mut app = app_with(&["abc"]);
    app.cursor_x = 1;
    app.insert_char('é');
    app.delete_char();
    assert_eq!(rows(&app), vec!["abc"]);
    assert_eq!((app.cursor_x, app.cursor_y), (1, 0));
    app.insert_newline();
    app.delete_char();
    assert_eq!(rows(&app), vec!["abc"]);
    assert_eq!((app.cursor_x, app.cursor_y), (1, 0));
}
