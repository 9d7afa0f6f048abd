use texteditor::engine::app::{App, AppFocus, AppMode, Effect};
use texteditor::engine::document::Document;
use texteditor::explorer::Explorer;
use texteditor::tui::ui::layout_helpers::Rect;

fn app_with(lines: &[&str]) -> App {
    let mut app = App::new(Explorer::with_path(".".to_string()));
    app.document = Document { rows: lines.iter().map(|s| s.to_string()).collect(), path: None };
    app
}

fn rows(app: &App) -> Vec<&str> {
    app.document.rows.iter().map(|r| r.as_str()).collect()
}

#[test]
fn new_app_starts_in_editor_mode_with_explorer_focused() {
    let app = App::new(Explorer::with_path(".".to_string()));
    assert_eq!(rows(&app), vec![""]);
    assert!(matches!(app.mode, AppMode::Editor));
    assert_eq!(app.focus, AppFocus::Explorer);
    assert_eq!(app.menu_items, vec!["New File", "New Directory", "Save", "Settings", "Exit"]);
    assert_eq!(app.menu_selection, 0);
    assert!(app.history.is_empty());
    assert!(app.config.show_line_numbers && app.config.show_status_bar && app.config.show_help_bar);
    assert!(!app.config.highlight_active_line);
    assert_eq!(app.editor_area, Rect::default());
}

#[test]
fn typing_then_backspace_restores_line_and_cursor() {
    let mut app = app_with(&["hello"]);
    app.cursor_x = 2;
    app.insert_char('X');
    assert_eq!(rows(&app), vec!["heXllo"]);
    assert_eq!(app.cursor_x, 3);
    app.delete_char();
    assert_eq!(rows(&app), vec!["hello"]);
    assert_eq!(app.cursor_x, 2);
}

#[test]
fn typing_a_multibyte_character_then_backspace() {
    let mut app = app_with(&["ab"]);
    app.cursor_x = 1;
    app.insert_char('é');
    assert_eq!(rows(&app), vec!["aéb"]);
    assert_eq!(app.cursor_x, 2);
    app.delete_char();
    assert_eq!(rows(&app), vec!["ab"]);
    assert_eq!(app.cursor_x, 1);
}

#[test]
fn only_a_space_saves_state_when_typing() {
    let mut app = app_with(&[""]);
    app.insert_char('a');
    assert!(app.history.is_empty());
    app.insert_char(' ');
    assert_eq!(app.history.len(), 1);
    assert_eq!(app.history[0].0, vec!["a".to_string()]);
    assert_eq!((app.history[0].1, app.history[0].2), (1, 0));
}

#[test]
fn typing_past_end_of_line_appends() {
    let mut app = app_with(&["ab"]);
    app.cursor_x = 7;
    app.insert_char('c');
    assert_eq!(rows(&app), vec!["abc"]);
    assert_eq!(app.cursor_x, 8);
}

#[test]
fn backspace_at_line_start_joins_lines() {
    let mut app = app_with(&["ab", "cd"]);
    app.cursor_y = 1;
    app.cursor_x = 0;
    app.delete_char();
    assert_eq!(rows(&app), vec!["abcd"]);
    assert_eq!((app.cursor_x, app.cursor_y), (2, 0));
}

#[test]
fn backspace_at_document_start_changes_nothing_but_history() {
    let mut app = app_with(&["ab"]);
    app.delete_char();
    assert_eq!(rows(&app), vec!["ab"]);
    assert_eq!((app.cursor_x, app.cursor_y), (0, 0));
    assert_eq!(app.history.len(), 1);
}

#[test]
fn newline_then_backspace_restores() {
    let mut app = app_with(&["hello", "x"]);
    app.cursor_x = 3;
    app.insert_newline();
    assert_eq!(rows(&app), vec!["hel", "lo", "x"]);
    assert_eq!((app.cursor_x, app.cursor_y), (0, 1));
    app.delete_char();
    assert_eq!(rows(&app), vec!["hello", "x"]);
    assert_eq!((app.cursor_x, app.cursor_y), (3, 0));
}

#[test]
fn undo_after_each_saving_step_restores() {
    let mut app = app_with(&["one", "two"]);
    app.cursor_x = 1;
    app.cursor_y = 1;
    app.insert_newline();
    app.undo();
    assert_eq!(rows(&app), vec!["one", "two"]);
    assert_eq!((app.cursor_x, app.cursor_y), (1, 1));
    app.delete_char();
    assert_eq!(rows(&app), vec!["one", "wo"]);
    app.undo();
    assert_eq!(rows(&app), vec!["one", "two"]);
    assert_eq!((app.cursor_x, app.cursor_y), (1, 1));
    app.paste("A\nB");
    app.undo();
    assert_eq!(rows(&app), vec!["one", "two"]);
    assert_eq!((app.cursor_x, app.cursor_y), (1, 1));
    assert!(app.history.is_empty());
}

#[test]
fn undo_with_empty_history_does_nothing() {
    let mut app = app_with(&["abc"]);
    app.cursor_x = 2;
    app.undo();
    assert_eq!(rows(&app), vec!["abc"]);
    assert_eq!(app.cursor_x, 2);
}

#[test]
fn history_keeps_fifty_newest_states() {
    let mut app = app_with(&["a"]);
    for i in 0..60u16 {
        app.cursor_x = i;
        app.save_state();
    }
    assert_eq!(app.history.len(), 50);
    assert_eq!(app.history[0].1, 10);
    assert_eq!(app.history[49].1, 59);
}

#[test]
fn paste_single_line_inserts_at_cursor() {
    let mut app = app_with(&["abcd"]);
    app.cursor_x = 2;
    app.paste("XY\r\r");
    assert_eq!(rows(&app), vec!["abXYcd"]);
    assert_eq!((app.cursor_x, app.cursor_y), (4, 0));
    assert_eq!(app.history.len(), 1);
}

#[test]
fn paste_multiple_lines_splits_line() {
    let mut app = app_with(&["start", "end"]);
    app.cursor_x = 2;
    app.paste("one\r\ntwo\nthree");
    assert_eq!(rows(&app), vec!["stone", "two", "threeart", "end"]);
    assert_eq!((app.cursor_x, app.cursor_y), (5, 2));
}

#[test]
fn paste_past_end_of_line_lands_at_end() {
    let mut app = app_with(&["ab"]);
    app.cursor_x = 9;
    app.paste("c\nd");
    assert_eq!(rows(&app), vec!["abc", "d"]);
    assert_eq!((app.cursor_x, app.cursor_y), (1, 1));
}

#[test]
fn paste_below_document_does_nothing() {
    let mut app = app_with(&["ab"]);
    app.cursor_y = 4;
    app.paste("zz");
    assert_eq!(rows(&app), vec!["ab"]);
    assert_eq!(app.history.len(), 1);
}

#[test]
fn selection_bounds_are_in_reading_order() {
    let mut app = app_with(&["abc", "def"]);
    assert!(app.get_selection_bounds().is_none());
    app.selection_start = Some((2, 1));
    app.cursor_x = 1;
    app.cursor_y = 0;
    assert_eq!(app.get_selection_bounds(), Some(((1, 0), (2, 1))));
}

#[test]
fn selected_text_spans_lines() {
    let mut app = app_with(&["hello", "big", "world"]);
    assert!(app.get_selected_text().is_none());
    app.selection_start = Some((2, 0));
    app.cursor_x = 3;
    app.cursor_y = 2;
    assert_eq!(app.get_selected_text(), Some("llo\nbig\nwor".to_string()));
    app.selection_start = Some((4, 1));
    app.cursor_x = 1;
    app.cursor_y = 1;
    assert_eq!(app.get_selected_text(), Some("ig".to_string()));
    app.selection_start = Some((9, 0));
    app.cursor_x = 0;
    app.cursor_y = 7;
    assert_eq!(app.get_selected_text(), Some("\nbig\nworld\n".to_string()));
}

#[test]
fn find_line_lists_matching_lines() {
    let app = app_with(&["foo bar", "baz", "barn", ""]);
    assert_eq!(app.find_line("bar"), vec![0, 2]);
    assert_eq!(app.find_line(""), vec![0, 1, 2, 3]);
    assert!(app.find_line("qux").is_empty());
}

#[test]
fn click_clamps_to_document_and_line() {
    let mut app = app_with(&["short", "a much longer line"]);
    app.handle_click(8, 0);
    assert_eq!((app.cursor_x, app.cursor_y), (3, 0));
    app.handle_click(40, 9);
    assert_eq!((app.cursor_x, app.cursor_y), (18, 1));
    app.handle_click(2, 1);
    assert_eq!((app.cursor_x, app.cursor_y), (0, 1));
    app.config.show_line_numbers = false;
    app.handle_click(2, 1);
    assert_eq!((app.cursor_x, app.cursor_y), (2, 1));
}

#[test]
fn move_cursor_clamps_and_clears_selection() {
    let mut app = app_with(&["abcdef", "xy"]);
    app.selection_start = Some((0, 0));
    app.cursor_x = 5;
    app.move_cursor(0, 1);
    assert_eq!((app.cursor_x, app.cursor_y), (2, 1));
    assert!(app.selection_start.is_none());
    app.move_cursor(0, 5);
    assert_eq!(app.cursor_y, 1);
    app.move_cursor(-9, -9);
    assert_eq!((app.cursor_x, app.cursor_y), (0, 0));
    app.move_cursor(1, 0);
    assert_eq!(app.cursor_x, 1);
}

#[test]
fn adjust_scroll_brings_cursor_into_view() {
    let mut app = app_with(&["x"]);
    app.editor_area = Rect { x: 0, y: 0, width: 20, height: 10 };
    app.cursor_y = 30;
    app.cursor_x = 40;
    app.adjust_scroll();
    assert_eq!(app.scroll_y, 23);
    assert_eq!(app.scroll_x, 28);
    assert!(app.scroll_y <= app.cursor_y && app.cursor_y < app.scroll_y + 8);
    assert!(app.scroll_x <= app.cursor_x && app.cursor_x < app.scroll_x + 13);
    app.cursor_y = 2;
    app.cursor_x = 1;
    app.adjust_scroll();
    assert_eq!((app.scroll_x, app.scroll_y), (1, 2));
}

#[test]
fn menu_navigation_wraps() {
    let mut app = app_with(&[""]);
    app.menu_up();
    assert_eq!(app.menu_selection, 4);
    app.menu_down();
    assert_eq!(app.menu_selection, 0);
    app.menu_down();
    assert_eq!(app.menu_selection, 1);
    app.menu_up();
    assert_eq!(app.menu_selection, 0);
}

#[test]
fn toggle_menu_switches_modes() {
    let mut app = app_with(&[""]);
    app.toggle_menu();
    assert!(matches!(app.mode, AppMode::Menu));
    app.toggle_menu();
    assert!(matches!(app.mode, AppMode::Editor));
    app.mode = AppMode::Settings(2);
    app.toggle_menu();
    assert!(matches!(app.mode, AppMode::Editor));
}

#[test]
fn menu_actions() {
    let mut app = app_with(&[""]);
    app.menu_selection = 0;
    assert!(matches!(app.execute_menu_action(), Effect::Nothing));
    assert!(matches!(&app.mode, AppMode::PromptFile(s) if s.is_empty()));
    app.menu_selection = 1;
    app.execute_menu_action();
    assert!(matches!(&app.mode, AppMode::PromptDir(s) if s.is_empty()));
    app.menu_selection = 2;
    assert!(matches!(app.execute_menu_action(), Effect::Save));
    assert!(matches!(app.mode, AppMode::Editor));
    app.menu_selection = 3;
    app.execute_menu_action();
    assert!(matches!(app.mode, AppMode::Settings(0)));
    app.menu_selection = 4;
    app.execute_menu_action();
    assert!(app.should_quit);
}

#[test]
fn settings_navigation_and_toggles() {
    let mut app = app_with(&[""]);
    app.mode = AppMode::Settings(0);
    app.settings_up();
    assert!(matches!(app.mode, AppMode::Settings(3)));
    app.toggle_setting();
    assert!(app.config.highlight_active_line);
    app.settings_down();
    assert!(matches!(app.mode, AppMode::Settings(0)));
    app.toggle_setting();
    assert!(!app.config.show_line_numbers);
    app.toggle_setting();
    assert!(app.config.show_line_numbers);
    app.settings_down();
    app.toggle_setting();
    assert!(!app.config.show_status_bar);
    app.settings_down();
    app.toggle_setting();
    assert!(!app.config.show_help_bar);
    app.mode = AppMode::Menu;
    app.settings_up();
    assert!(matches!(app.mode, AppMode::Menu));
}

#[test]
fn open_document_resets_view() {
    let mut app = app_with(&["x"]);
    app.cursor_x = 1;
    app.scroll_y = 4;
    let d = Document::try_from("p\nq").ok().unwrap();
    app.open_document(d);
    assert_eq!(rows(&app), vec!["p", "q"]);
    assert_eq!((app.cursor_x, app.cursor_y, app.scroll_x, app.scroll_y), (0, 0, 0, 0));
    assert_eq!(app.focus, AppFocus::Editor);
}

#[test]
fn settings_up_then_down_and_double_toggles_come_back() {
    for s in 0..4usize {
        let mut app = app_with(&[""]);
        app.mode = AppMode::Settings(s);
        app.settings_up();
        app.settings_down();
        assert!(matches!(app.mode, AppMode::Settings(t) if t == s));
        app.settings_down();
        app.settings_up();
        assert!(matches!(app.mode, AppMode::Settings(t) if t == s));
        let before = (
            app.config.show_line_numbers,
            app.config.show_status_bar,
            app.config.show_help_bar,
            app.config.highlight_active_line,
        );
        app.toggle_setting();
        assert_ne!(
            before,
            (
                app.config.show_line_numbers,
                app.config.show_status_bar,
                app.config.show_help_bar,
                app.config.highlight_active_line,
            )
        );
        app.toggle_setting();
        assert_eq!(
            before,
            (
                app.config.show_line_numbers,
                app.config.show_status_bar,
                app.config.show_help_bar,
                app.config.highlight_active_line,
            )
        );
    }
}

#[test]
fn swapping_selection_ends_keeps_the_text() {
    let mut app = app_with(&["hello", "big", "world"]);
    app.selection_start = Some((2, 0));
    app.cursor_x = 3;
    app.cursor_y = 2;
    let forward = app.get_selected_text();
    app.selection_start = Some((3, 2));
    app.cursor_x = 2;
    app.cursor_y = 0;
    assert_eq!(app.get_selected_text(), forward);
    let joined = app.document.rows.join("\n");
    assert_eq!(forward, Some(joined[2..13].to_string()));
    app.selection_start = None;
    assert!(app.get_selected_text().is_none());
}

#[test]
fn undo_after_editing_steps_restores_history() {
    let mut app = app_with(&["ab", "cd"]);
    app.cursor_x = 1;
    app.save_state();
    let before: Vec<(Vec<String>, u16, u16)> = app.history.clone();
    app.paste("x\ny");
    app.undo();
    assert_eq!(app.history, before);
    app.delete_char();
    app.undo();
    assert_eq!(app.history, before);
    app.insert_newline();
    app.undo();
    assert_eq!(app.history, before);
    app.insert_char(' ');
    app.undo();
    assert_eq!(app.history, before);
    assert_eq!(rows(&app), vec!["ab", "cd"]);
}

#[test]
fn paste_inserts_into_the_joined_text() {
    let mut app = app_with(&["hello", "world"]);
    app.cursor_x = 2;
    let before = app.document.rows.join("\n");
    app.paste("X\r\nY");
    assert_eq!(app.document.rows.join("\n"), format!("{}{}{}", &before[..2], "X\nY", &before[2..]));
    app.cursor_x = 40;
    app.cursor_y = 2;
    let before = app.document.rows.join("\n");
    app.paste("Z");
    assert_eq!(app.document.rows.join("\n"), format!("{}Z", before));
}
