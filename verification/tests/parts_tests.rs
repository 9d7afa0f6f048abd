use texteditor::engine::app::App;
use texteditor::engine::config::AppConfig;
use texteditor::engine::document::Document;
use texteditor::error::MonitorError;
use texteditor::explorer::Explorer;
use texteditor::gui::commands::{get_explorer_items, search_in_file};
use texteditor::gui::get_document_content;
use texteditor::model::{split_words, stat_fields};
use texteditor::monitor::cpu::CpuMonitor;
use texteditor::monitor::ram::RamMonitor;
use texteditor::text::{decimal_text, pad_left_text, sort_texts};

#[test]
fn config_defaults() {
    let c = AppConfig::new();
    assert!(c.show_line_numbers && c.show_status_bar && c.show_help_bar && !c.highlight_active_line);
}

#[test]
fn explorer_refresh_orders_listing_and_clamps_selection() {
    let mut e = Explorer::with_path("/p".to_string());
    e.selected = 9;
    e.refresh(
        vec!["/p/zeta".to_string(), "/p/Alpha".to_string(), "/p/beta".to_string()],
        vec!["/p/b.txt".to_string(), "/p/a.txt".to_string()],
    );
    assert_eq!(e.items, vec!["/", "/p/Alpha", "/p/beta", "/p/zeta", "/p/a.txt", "/p/b.txt"]);
    assert_eq!(e.selected, 5);
    let mut root = Explorer::with_path("/".to_string());
    root.refresh(vec![], vec![]);
    assert!(root.items.is_empty());
    assert_eq!(root.selected, 0);
    let mut deep = Explorer::with_path("/home/u/proj/".to_string());
    deep.refresh(vec!["/home/u/proj/src".to_string()], vec![]);
    assert_eq!(deep.items, vec!["/home/u", "/home/u/proj/src"]);
}

#[test]
fn explorer_next_and_previous_stop_at_ends() {
    let mut e = Explorer::with_path("/p".to_string());
    e.items = vec!["a".to_string(), "b".to_string()];
    e.previous();
    assert_eq!(e.selected, 0);
    e.next();
    e.next();
    assert_eq!(e.selected, 1);
    e.previous();
    assert_eq!(e.selected, 0);
    let mut empty = Explorer::with_path("/q".to_string());
    empty.next();
    assert_eq!(empty.selected, 0);
}

#[test]
fn sorting_texts_by_code_points() {
    let v = sort_texts(vec!["é".to_string(), "z".to_string(), "Z".to_string(), "za".to_string(), "".to_string()]);
    assert_eq!(v, vec!["", "Z", "z", "za", "é"]);
}

#[test]
fn numbers_as_text() {
    assert_eq!(decimal_text(0), "0");
    assert_eq!(decimal_text(907), "907");
    assert_eq!(decimal_text(u64::MAX), "18446744073709551615");
    assert_eq!(pad_left_text("7".to_string(), 3), "  7");
    assert_eq!(pad_left_text("12345".to_string(), 3), "12345");
}

#[test]
fn gui_commands() {
    let mut explorer = Explorer::with_path("/home/u/proj".to_string());
    explorer.items = vec!["/home/u".to_string(), "/home/u/proj/src".to_string(), "/home/u/proj/x.md".to_string()];
    let nodes = get_explorer_items(&explorer, &vec![true, true, false]);
    assert_eq!(nodes.len(), 3);
    assert_eq!(nodes[0].name, "..");
    assert_eq!(nodes[1].name, "src");
    assert_eq!(nodes[2].name, "x.md");
    assert_eq!(nodes[2].path, "/home/u/proj/x.md");
    assert!(nodes[1].is_dir && !nodes[2].is_dir);
    let mut app = App::new(explorer);
    app.document = Document { rows: vec!["one".to_string(), "two".to_string()], path: None };
    assert_eq!(get_document_content(&app), "one\ntwo");
    assert_eq!(search_in_file(&app, "o"), vec![0, 1]);
    assert_eq!(search_in_file(&app, "tw"), vec![1]);
}

#[test]
fn resource_readings() {
    match stat_fields("CPU 45.2") {
        Ok((label, value)) => {
            assert_eq!(label, "CPU");
            assert_eq!(value, "45.2");
        },
        Err(_) => panic!("a reading with two words"),
    }
    assert!(matches!(stat_fields("CPU"), Err(MonitorError::InvalidFormat)));
    assert!(matches!(stat_fields(" \t "), Err(MonitorError::InvalidFormat)));
    assert_eq!(split_words("  a\tbb\u{3000}c  "), vec!["a", "bb", "c"]);
    assert_eq!(CpuMonitor::new().sample(), "CPU 45.2");
    assert_eq!(RamMonitor::new().sample(), "RAM 60.5");
    let e = MonitorError::ReadError("gone".to_string());
    assert!(matches!(e, MonitorError::ReadError(s) if s == "gone"));
}
