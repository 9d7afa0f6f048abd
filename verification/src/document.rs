use vstd::prelude::*;
use crate::engine::error::EditorError;
use crate::text::{
    before_byte, byte_len, char_index, from_byte, is_boundary, lemma_boundary_bound, lines_of, lines_text,
    string_byte_len, string_insert, string_remove, texts,
};

verus! {

/// A text being edited, as a list of lines.
pub struct Document {
    pub rows: Vec<String>,
}

impl Document {
    /// The lines of the document.
    pub open spec fn text(&self) -> Seq<Seq<char>> {
        texts(self.rows@)
    }

    /// The document that holds the lines of `content`.
    pub fn try_from(content: &str) -> (r: Result<Self, EditorError>)
        ensures
            r is Ok,
            r matches Ok(d) ==> d.text() == lines_of(content@),
    {
        let rows = lines_text(content);
        Ok(Document { rows })
    }

    /// A document of one empty line.
    pub fn new() -> (d: Self)
        ensures
            d.text() == seq![Seq::<char>::empty()],
    {
        let mut rows: Vec<String> = Vec::new();
        rows.push(String::new());
        assert(texts(rows@) =~= seq![Seq::<char>::empty()]);
        Document { rows }
    }

    /// Types `c` at byte offset `x` of line `y`; nothing happens when there is no line `y`
    /// or `x` lies past its end.
    pub fn insert(&mut self, x: usize, y: usize, c: char)
        requires
            y < old(self).rows@.len() && x <= byte_len(old(self).text()[y as int]) ==> is_boundary(
                old(self).text()[y as int],
                x as int,
            ),
        ensures
            y < old(self).rows@.len() && x <= byte_len(old(self).text()[y as int]) ==> final(self).text()
                == old(self).text().update(
                y as int,
                before_byte(old(self).text()[y as int], x as int).push(c) + from_byte(
                    old(self).text()[y as int],
                    x as int,
                ),
            ),
            !(y < old(self).rows@.len() && x <= byte_len(old(self).text()[y as int]))
                ==> final(self).text() == old(self).text(),
    {
        if y < self.rows.len() {
            let ghost before = self.text();
            let row: &mut String = &mut self.rows[y];
            if x <= string_byte_len(row) {
                string_insert(row, x, c);
            }
            assert(self.text() =~= before.update(y as int, self.text()[y as int]));
        }
    }

    /// A backspace at byte offset `x` of line `y`: removes the character that starts at byte
    /// `x - 1` when `0 < x` and `x` is within the line; otherwise nothing happens.
    pub fn delete(&mut self, x: usize, y: usize)
        requires
            y < old(self).rows@.len() && 0 < x <= byte_len(old(self).text()[y as int]) ==> is_boundary(
                old(self).text()[y as int],
                x - 1,
            ),
        ensures
            y < old(self).rows@.len() ==> final(self).text() == old(self).text().update(
                y as int,
                crate::engine::document::row_after_backspace(old(self).text()[y as int], x as int),
            ),
            y >= old(self).rows@.len() ==> final(self).text() == old(self).text(),
    {
        if y < self.rows.len() {
            let ghost before = self.text();
            let row: &mut String = &mut self.rows[y];
            if x > 0 && x <= string_byte_len(row) {
                proof {
                    let s = before[y as int];
                    lemma_boundary_bound(s, x - 1);
                    let k = char_index(s, x - 1);
                    if k == s.len() {
                        assert(s.take(k) =~= s);
                    }
                }
                string_remove(row, x - 1);
            }
            assert(self.text() =~= before.update(
                y as int,
                crate::engine::document::row_after_backspace(before[y as int], x as int),
            ));
        }
    }
}

} // verus!
