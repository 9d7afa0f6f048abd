use vstd::prelude::*;
use crate::engine::error::EditorError;
use crate::text::{byte_len, before_byte, from_byte, char_index, is_boundary, join, join_text, lines_of, lines_text, string_byte_len, string_insert, string_push, string_remove, string_split_off, texts, lemma_boundary_bound};

verus! {

/// A text file being edited: its lines, and the file it was read from, if any.
pub struct Document {
    pub rows: Vec<String>,
    pub path: Option<String>,
}

/// The lines that a document read from `content` holds: those of `content`, or one empty line.
pub open spec fn document_lines(content: Seq<char>) -> Seq<Seq<char>> {
    if lines_of(content).len() == 0 {
        seq![Seq::<char>::empty()]
    } else {
        lines_of(content)
    }
}

/// `row` after typing `c` at byte offset `x`: inserted there, or appended when `x` lies past the end.
pub open spec fn row_with_char(row: Seq<char>, x: int, c: char) -> Seq<char> {
    if x <= byte_len(row) {
        before_byte(row, x).push(c) + from_byte(row, x)
    } else {
        row.push(c)
    }
}

/// `row` after a backspace at byte offset `x`: the character that starts at byte `x - 1` removed,
/// when `0 < x` and `x` lies within the row.
pub open spec fn row_after_backspace(row: Seq<char>, x: int) -> Seq<char> {
    if x > 0 && x <= byte_len(row) {
        row.remove(char_index(row, x - 1))
    } else {
        row
    }
}

/// The lines after breaking line `y` at byte offset `x`.
pub open spec fn lines_after_break(lines: Seq<Seq<char>>, x: int, y: int) -> Seq<Seq<char>> {
    if y < lines.len() {
        let row = lines[y];
        if x < byte_len(row) {
            lines.update(y, before_byte(row, x)).insert(y + 1, from_byte(row, x))
        } else {
            lines.insert(y + 1, Seq::<char>::empty())
        }
    } else {
        lines
    }
}

impl Document {
    /// The lines of the document.
    pub open spec fn text(&self) -> Seq<Seq<char>> {
        texts(self.rows@)
    }

    /// An untitled document of one empty line.
    pub fn new() -> (d: Self)
        ensures
            d.text() == seq![Seq::<char>::empty()],
            d.path is None,
    {
        let mut rows: Vec<String> = Vec::new();
        rows.push(String::new());
        assert(texts(rows@) =~= seq![Seq::<char>::empty()]);
        Document { rows, path: None }
    }

    /// The untitled document that holds the lines of `content` (one empty line if it has none).
    pub fn try_from(content: &str) -> (r: Result<Self, EditorError>)
        ensures
            r is Ok,
            r matches Ok(d) ==> d.text() == document_lines(content@) && d.path is None,
    {
        let mut rows = lines_text(content);
        if rows.len() == 0 {
            rows.push(String::new());
            assert(texts(rows@) =~= seq![Seq::<char>::empty()]);
        }
        Ok(Document { rows, path: None })
    }

    /// The file to write and what to write there when saving: the lines joined by `'\n'`,
    /// or nothing for an untitled document.
    pub fn save_request(&self) -> (r: Option<(String, String)>)
        ensures
            self.path is None ==> r is None,
            self.path matches Some(p) ==> r matches Some(w) && w.0@ == p@ && w.1@ == join(
                self.text(),
                '\n',
            ),
    {
        match &self.path {
            Some(p) => Some((p.clone(), join_text(&self.rows, '\n'))),
            None => None,
        }
    }

    /// Types `c` at byte offset `x` of line `y`; past the end of the line it is appended.
    /// Nothing happens when there is no line `y`.
    pub fn insert(&mut self, x: usize, y: usize, c: char)
        requires
            y < old(self).rows@.len() && x <= byte_len(old(self).text()[y as int]) ==> is_boundary(
                old(self).text()[y as int],
                x as int,
            ),
        ensures
            final(self).path == old(self).path,
            y < old(self).rows@.len() ==> final(self).text() == old(self).text().update(
                y as int,
                row_with_char(old(self).text()[y as int], x as int, c),
            ),
            y >= old(self).rows@.len() ==> final(self).text() == old(self).text(),
    {
        if y < self.rows.len() {
            let ghost before = self.text();
            let row: &mut String = &mut self.rows[y];
            if x <= string_byte_len(row) {
                string_insert(row, x, c);
            } else {
                string_push(row, c);
            }
            assert(self.text() =~= before.update(y as int, row_with_char(before[y as int], x as int, c)));
        }
    }

    /// A backspace at byte offset `x` of line `y`: removes the character that starts at byte
    /// `x - 1` when `0 < x` and `x` is within the line; otherwise nothing happens.
    pub fn delete(&mut self, x: usize, y: usize)
        requires
            y < old(self).rows@.len() && 0 < x <= byte_len(old(self).text()[y as int]) ==> is_boundary(
                old(self).text()[y as int],
                x - 1,
            ),
        ensures
            final(self).path == old(self).path,
            y < old(self).rows@.len() ==> final(self).text() == old(self).text().update(
                y as int,
                row_after_backspace(old(self).text()[y as int], x as int),
            ),
            y >= old(self).rows@.len() ==> final(self).text() == old(self).text(),
    {
        if y < self.rows.len() {
            let ghost before = self.text();
            let row: &mut String = &mut self.rows[y];
            if x > 0 && x <= string_byte_len(row) {
                proof {
                    let s = before[y as int];
                    lemma_boundary_bound(s, x - 1);
                    let k = char_index(s, x - 1);
                    if k == s.len() {
                        assert(s.take(k) =~= s);
                    }
                }
                string_remove(row, x - 1);
            }
            assert(self.text() =~= before.update(y as int, row_after_backspace(before[y as int], x as int)));
        }
    }

    /// Breaks line `y` at byte offset `x`: what follows `x` becomes a new line below it.
    /// At or past the end of the line the new line is empty; nothing happens when there is no line `y`.
    pub fn insert_newline(&mut self, x: usize, y: usize)
        requires
            y < old(self).rows@.len() && x < byte_len(old(self).text()[y as int]) ==> is_boundary(
                old(self).text()[y as int],
                x as int,
            ),
            old(self).rows@.len() < usize::MAX,
        ensures
            final(self).path == old(self).path,
            final(self).text() == lines_after_break(old(self).text(), x as int, y as int),
    {
        if y < self.rows.len() {
            let ghost before = self.text();
            let row: &mut String = &mut self.rows[y];
            let new_row: String = if x < string_byte_len(row) {
                string_split_off(row, x)
            } else {
                String::new()
            };
            let ghost mid = self.text();
            self.rows.insert(y + 1, new_row);
            assert(self.text() =~= lines_after_break(before, x as int, y as int));
        }
    }
}

} // verus!
