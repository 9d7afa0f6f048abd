use texteditor::engine::app::{App, AppFocus, AppMode};
use texteditor::engine::document::Document;
use texteditor::explorer::Explorer;
use texteditor::tui::ui::editor::{cursor_position, editor_title, is_highlighted, row_text};
use texteditor::tui::ui::footer::{help_text, status_mode, status_text};
use texteditor::tui::ui::layout_helpers::{centered_rect, Rect};
use texteditor::tui::ui::popup::{list_line, settings_options};
use texteditor::tui::ui::sidebar::{display_name, explorer_title};

fn app_with(lines: &[&str]) -> App {
    let mut app = App::new(Explorer::with_path(".".to_string()));
    app.document = Document { rows: lines.iter().map(|s| s.to_string()).collect(), path: None };
    app
}

#[test]
fn status_bar_text() {
    let mut app = app_with(&["a"]);
    assert_eq!(status_text(&app), "EDITOR | Untitled | Ln 1, Col 1");
    app.document.path = Some("src/main.rs".to_string());
    app.cursor_x = 9;
    app.cursor_y = 119;
    app.mode = AppMode::PromptDir(String::new());
    assert_eq!(status_text(&app), "INPUT | src/main.rs | Ln 120, Col 10");
    assert_eq!(status_mode(&AppMode::Settings(1)), "SETTINGS");
    assert_eq!(status_mode(&AppMode::Menu), "MENU");
}

#[test]
fn help_bar_text() {
    let mut app = app_with(&["a"]);
    assert_eq!(help_text(&app), "Tab: Focus Editor | Enter: Open | N: New File | D: New Dir");
    app.focus = AppFocus::Editor;
    assert_eq!(help_text(&app), "Ctrl+S: Save | Ctrl+C: Copy Line | Ctrl+V: Paste | Tab: Focus Explorer");
    app.mode = AppMode::Settings(0);
    assert_eq!(help_text(&app), "Enter: Toggle | Esc: Back | Up/Down: Navigate");
    app.mode = AppMode::PromptFile(String::new());
    assert_eq!(help_text(&app), "Enter: Submit | Esc: Cancel");
}

#[test]
fn rows_with_line_numbers() {
    assert_eq!(row_text(0, &"fn main".to_string(), true), "  1  fn main");
    assert_eq!(row_text(1233, &"x".to_string(), true), "1234  x");
    assert_eq!(row_text(4, &"plain".to_string(), false), "plain");
}

#[test]
fn terminal_cursor_position() {
    let mut app = app_with(&["abc"]);
    app.editor_area = Rect { x: 10, y: 2, width: 30, height: 12 };
    assert_eq!(cursor_position(&app), None);
    app.focus = AppFocus::Editor;
    app.cursor_x = 2;
    app.cursor_y = 3;
    assert_eq!(cursor_position(&app), Some((18, 6)));
    app.config.show_line_numbers = false;
    assert_eq!(cursor_position(&app), Some((13, 6)));
    app.scroll_y = 4;
    assert_eq!(cursor_position(&app), None);
    assert!(!is_highlighted(&app, 3));
    app.config.highlight_active_line = true;
    assert!(is_highlighted(&app, 3));
    assert!(!is_highlighted(&app, 2));
}

#[test]
fn titles() {
    assert_eq!(editor_title(AppFocus::Editor), " Editor (FOCUSED) ");
    assert_eq!(editor_title(AppFocus::Explorer), " Editor ");
    assert_eq!(explorer_title(AppFocus::Explorer), " Explorer (FOCUSED) ");
    assert_eq!(explorer_title(AppFocus::Editor), " Explorer ");
}

#[test]
fn popup_texts() {
    let mut app = app_with(&[""]);
    app.config.show_help_bar = false;
    assert_eq!(
        settings_options(&app),
        vec!["[X] Show Line Numbers", "[X] Show Status Bar", "[ ] Show Help Bar", "[ ] Highlight Active Line"]
    );
    assert_eq!(list_line("Save", true), "> Save");
    assert_eq!(list_line("Save", false), "  Save");
}

#[test]
fn explorer_display_names() {
    assert_eq!(display_name("/home/u", "/home/u/proj", true), "[..]");
    assert_eq!(display_name("/home/u/proj/src", "/home/u/proj", true), "[src]");
    assert_eq!(display_name("/home/u/proj/a.txt", "/home/u/proj", false), "a.txt");
}

#[test]
fn centered_popup_area() {
    let r = centered_rect(40, 40, Rect { x: 0, y: 0, width: 100, height: 50 });
    assert_eq!(r, Rect { x: 30, y: 15, width: 40, height: 20 });
    let r = centered_rect(100, 100, Rect { x: 3, y: 4, width: 10, height: 10 });
    assert_eq!(r, Rect { x: 3, y: 4, width: 10, height: 10 });
}

#[test]
fn centered_popup_lies_within_its_area() {
    for (w, h) in [(1u16, 1u16), (7, 3), (33, 17), (200, 61)] {
        for p in [0u16, 6, 40, 99, 100] {
            let outer = Rect { x: 5, y: 9, width: w, height: h };
            let c = centered_rect(p, p, outer);
            assert!(outer.x <= c.x && c.x + c.width <= outer.x + outer.width);
            assert!(outer.y <= c.y && c.y + c.height <= outer.y + outer.height);
        }
    }
}
