use texteditor::engine::app::{App, AppFocus, AppMode, Effect};
use texteditor::engine::document::Document;
use texteditor::explorer::Explorer;
use texteditor::tui::events::keyboard::handle_key;
use texteditor::tui::events::mouse::handle_mouse;
use texteditor::tui::events::shortcuts::handle_ctrl_shortcut;
use texteditor::tui::events::{KeyCode, MouseButton, MouseEvent, MouseEventKind};
use texteditor::tui::ui::layout_helpers::Rect;

fn app_with(lines: &[&str]) -> App {
    let mut explorer = Explorer::with_path("/home/u/proj".to_string());
    explorer.items = vec!["/home/u".to_string(), "/home/u/proj/src".to_string(), "/home/u/proj/a.txt".to_string()];
    let mut app = App::new(explorer);
    app.document = Document { rows: lines.iter().map(|s| s.to_string()).collect(), path: None };
    app
}

fn rows(app: &App) -> Vec<&str> {
    app.document.rows.iter().map(|r| r.as_str()).collect()
}

fn left_click(column: u16, row: u16) -> MouseEvent {
    MouseEvent { kind: MouseEventKind::Down(MouseButton::Left), column, row }
}

#[test]
fn tab_switches_focus_and_keys_edit() {
    let mut app = app_with(&["ab"]);
    assert!(matches!(handle_key(&mut app, KeyCode::Tab), Effect::Nothing));
    assert_eq!(app.focus, AppFocus::Editor);
    handle_key(&mut app, KeyCode::Right);
    handle_key(&mut app, KeyCode::Char('X'));
    assert_eq!(rows(&app), vec!["aXb"]);
    handle_key(&mut app, KeyCode::Enter);
    assert_eq!(rows(&app), vec!["aX", "b"]);
    handle_key(&mut app, KeyCode::Backspace);
    assert_eq!(rows(&app), vec!["aXb"]);
    handle_key(&mut app, KeyCode::Down);
    handle_key(&mut app, KeyCode::Left);
    assert_eq!((app.cursor_x, app.cursor_y), (1, 0));
    handle_key(&mut app, KeyCode::Esc);
    assert!(matches!(app.mode, AppMode::Menu));
}

#[test]
fn explorer_keys_select_and_open() {
    let mut app = app_with(&[""]);
    handle_key(&mut app, KeyCode::Down);
    handle_key(&mut app, KeyCode::Down);
    handle_key(&mut app, KeyCode::Down);
    assert_eq!(app.explorer.selected, 2);
    handle_key(&mut app, KeyCode::Up);
    assert_eq!(app.explorer.selected, 1);
    match handle_key(&mut app, KeyCode::Enter) {
        Effect::Open(p) => assert_eq!(p, "/home/u/proj/src"),
        _ => panic!("expected an entry to open"),
    }
    handle_key(&mut app, KeyCode::Char('n'));
    assert!(matches!(&app.mode, AppMode::PromptFile(s) if s.is_empty()));
}

#[test]
fn prompt_collects_a_name() {
    let mut app = app_with(&[""]);
    handle_key(&mut app, KeyCode::Char('d'));
    handle_key(&mut app, KeyCode::Char('x'));
    handle_key(&mut app, KeyCode::Char('y'));
    handle_key(&mut app, KeyCode::Backspace);
    handle_key(&mut app, KeyCode::Char('z'));
    match handle_key(&mut app, KeyCode::Enter) {
        Effect::CreateDir(name) => assert_eq!(name, "xz"),
        _ => panic!("expected a directory to create"),
    }
    assert!(matches!(app.mode, AppMode::Editor));
    app.mode = AppMode::PromptFile("n".to_string());
    handle_key(&mut app, KeyCode::Esc);
    assert!(matches!(app.mode, AppMode::Editor));
}

#[test]
fn menu_keys_and_settings() {
    let mut app = app_with(&[""]);
    app.mode = AppMode::Menu;
    handle_key(&mut app, KeyCode::Down);
    handle_key(&mut app, KeyCode::Down);
    assert!(matches!(handle_key(&mut app, KeyCode::Enter), Effect::Save));
    app.mode = AppMode::Menu;
    handle_key(&mut app, KeyCode::Down);
    handle_key(&mut app, KeyCode::Enter);
    assert!(matches!(app.mode, AppMode::Settings(0)));
    handle_key(&mut app, KeyCode::Down);
    handle_key(&mut app, KeyCode::Enter);
    assert!(!app.config.show_status_bar);
    handle_key(&mut app, KeyCode::Esc);
    assert!(matches!(app.mode, AppMode::Menu));
}

#[test]
fn ctrl_shortcuts() {
    let mut app = app_with(&["line one", "line two"]);
    assert!(matches!(handle_ctrl_shortcut(&mut app, KeyCode::Char('s')), Effect::Nothing));
    app.focus = AppFocus::Editor;
    assert!(matches!(handle_ctrl_shortcut(&mut app, KeyCode::Char('s')), Effect::Save));
    assert!(matches!(handle_ctrl_shortcut(&mut app, KeyCode::Char('v')), Effect::Paste));
    app.cursor_y = 1;
    match handle_ctrl_shortcut(&mut app, KeyCode::Char('c')) {
        Effect::Copy(t) => assert_eq!(t, "line two"),
        _ => panic!("expected a copy"),
    }
    app.selection_start = Some((5, 0));
    app.cursor_x = 4;
    match handle_ctrl_shortcut(&mut app, KeyCode::Char('c')) {
        Effect::Copy(t) => assert_eq!(t, "one\nline"),
        _ => panic!("expected a copy"),
    }
    app.selection_start = None;
    app.delete_char();
    assert_eq!(rows(&app), vec!["line one", "lin two"]);
    handle_ctrl_shortcut(&mut app, KeyCode::Char('z'));
    assert_eq!(rows(&app), vec!["line one", "line two"]);
}

#[test]
fn clicks_on_the_panes() {
    let mut app = app_with(&["hello world", "x"]);
    let explorer_area = Rect { x: 0, y: 0, width: 20, height: 10 };
    let editor_area = Rect { x: 20, y: 0, width: 60, height: 10 };
    match handle_mouse(&mut app, left_click(3, 3), explorer_area, editor_area, None) {
        Effect::Open(p) => assert_eq!(p, "/home/u/proj/a.txt"),
        _ => panic!("expected an entry to open"),
    }
    assert_eq!(app.explorer.selected, 2);
    assert_eq!(app.focus, AppFocus::Explorer);
    assert!(matches!(handle_mouse(&mut app, left_click(3, 8), explorer_area, editor_area, None), Effect::Nothing));
    handle_mouse(&mut app, left_click(30, 1), explorer_area, editor_area, None);
    assert_eq!(app.focus, AppFocus::Editor);
    assert_eq!((app.cursor_x, app.cursor_y), (4, 0));
    let drag = MouseEvent { kind: MouseEventKind::Drag(MouseButton::Left), column: 34, row: 2 };
    handle_mouse(&mut app, drag, explorer_area, editor_area, None);
    assert_eq!(app.selection_start, Some((4, 0)));
    assert_eq!((app.cursor_x, app.cursor_y), (1, 1));
    let wheel = MouseEvent { kind: MouseEventKind::ScrollDown, column: 0, row: 0 };
    handle_mouse(&mut app, wheel, explorer_area, editor_area, None);
    assert_eq!(app.scroll_y, 1);
}

#[test]
fn clicks_on_popups() {
    let mut app = app_with(&[""]);
    let area = Rect { x: 0, y: 0, width: 10, height: 10 };
    let popup = Rect { x: 30, y: 10, width: 20, height: 8 };
    app.mode = AppMode::Menu;
    handle_mouse(&mut app, left_click(35, 14), area, area, Some(popup));
    assert!(matches!(app.mode, AppMode::Settings(0)));
    handle_mouse(&mut app, left_click(35, 12), area, area, Some(popup));
    assert!(matches!(app.mode, AppMode::Settings(1)));
    assert!(!app.config.show_status_bar);
    handle_mouse(&mut app, left_click(5, 2), area, area, Some(popup));
    assert!(matches!(app.mode, AppMode::Editor));
}
