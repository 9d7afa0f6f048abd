use texteditor::engine::document::Document;
use texteditor::engine::error::EditorError;

fn rows(d: &Document) -> Vec<&str> {
    d.rows.iter().map(|r| r.as_str()).collect()
}

fn doc(lines: &[&str]) -> Document {
    Document { rows: lines.iter().map(|s| s.to_string()).collect(), path: None }
}

#[test]
fn new_document_has_one_empty_line() {
    let d = Document::new();
    assert_eq!(rows(&d), vec![""]);
    assert!(d.path.is_none());
}

#[test]
fn try_from_splits_lines_and_drops_crlf() {
    let d = match Document::try_from("alpha\nbeta\r\ngamma\n") {
        Ok(d) => d,
        Err(EditorError::Io(e)) => panic!("{}", e),
    };
    assert_eq!(rows(&d), vec!["alpha", "beta", "gamma"]);
    assert!(d.path.is_none());
}

#[test]
fn try_from_keeps_inner_empty_lines_and_lone_cr() {
    let d = Document::try_from("a\n\nb\rc\r").ok().unwrap();
    assert_eq!(rows(&d), vec!["a", "", "b\rc\r"]);
}

#[test]
fn try_from_empty_text_gives_one_empty_line() {
    let d = Document::try_from("").ok().unwrap();
    assert_eq!(rows(&d), vec![""]);
    let d = Document::try_from("\n").ok().unwrap();
    assert_eq!(rows(&d), vec![""]);
}

#[test]
fn insert_within_and_past_end_of_line() {
    let mut d = doc(&["abc"]);
    d.insert(1, 0, 'X');
    assert_eq!(rows(&d), vec!["aXbc"]);
    d.insert(10, 0, 'Y');
    assert_eq!(rows(&d), vec!["aXbcY"]);
    d.insert(0, 5, 'Z');
    assert_eq!(rows(&d), vec!["aXbcY"]);
}

#[test]
fn insert_counts_bytes_of_multibyte_characters() {
    let mut d = doc(&["éa"]);
    d.insert(2, 0, 'x');
    assert_eq!(rows(&d), vec!["éxa"]);
}

#[test]
fn delete_removes_character_before_offset() {
    let mut d = doc(&["abc", "de"]);
    d.delete(2, 0);
    assert_eq!(rows(&d), vec!["ac", "de"]);
    d.delete(0, 1);
    assert_eq!(rows(&d), vec!["ac", "de"]);
    d.delete(5, 1);
    assert_eq!(rows(&d), vec!["ac", "de"]);
    d.delete(1, 9);
    assert_eq!(rows(&d), vec!["ac", "de"]);
}

#[test]
fn delete_multibyte_character() {
    let mut d = doc(&["aé"]);
    d.delete(2, 0);
    assert_eq!(rows(&d), vec!["a"]);
}

#[test]
fn insert_newline_splits_line() {
    let mut d = doc(&["hello", "world"]);
    d.insert_newline(2, 0);
    assert_eq!(rows(&d), vec!["he", "llo", "world"]);
    d.insert_newline(9, 2);
    assert_eq!(rows(&d), vec!["he", "llo", "world", ""]);
    d.insert_newline(0, 7);
    assert_eq!(rows(&d), vec!["he", "llo", "world", ""]);
}

#[test]
fn save_request_needs_a_path() {
    let d = doc(&["a", "b"]);
    assert!(d.save_request().is_none());
    let mut d = doc(&["a", "b"]);
    d.path = Some("notes.txt".to_string());
    let (p, c) = d.save_request().unwrap();
    assert_eq!(p, "notes.txt");
    assert_eq!(c, "a\nb");
}

#[test]
fn save_then_open_gives_back_the_lines() {
    let mut d = doc(&["first", "", "third"]);
    d.path = Some("f.txt".to_string());
    let (_, content) = d.save_request().unwrap();
    let back = Document::try_from(content.as_str()).ok().unwrap();
    assert_eq!(rows(&back), vec!["first", "", "third"]);
}

#[test]
fn plain_document_reads_lines_without_filler() {
    let d = texteditor::document::Document::try_from("").ok().unwrap();
    assert!(d.rows.is_empty());
    let d = texteditor::document::Document::try_from("x\r\ny").ok().unwrap();
    assert_eq!(d.rows, vec!["x".to_string(), "y".to_string()]);
}

#[test]
fn plain_document_insert_ignores_offsets_past_end() {
    let mut d = texteditor::document::Document::new();
    d.insert(0, 0, 'a');
    d.insert(5, 0, 'b');
    assert_eq!(d.rows, vec!["a".to_string()]);
    d.delete(1, 0);
    assert_eq!(d.rows, vec!["".to_string()]);
}
