use vstd::prelude::*;
use crate::engine::app::{App, AppView, HISTORY_LIMIT, Snapshot, history_view, snapshot_view};
use crate::engine::app::cursor::sat_sub;
use crate::engine::document::{lines_after_break, row_after_backspace, row_with_char};
use crate::text::{
    before_byte, byte_len, chars_of, contains_text, from_byte, is_boundary,
    lemma_boundary_end, split_newlines, split_on, str_contains, string_byte_len, string_insert_str,
    string_push, string_split_off, texts, trim_cr, trim_end_cr, lemma_split_on_nonempty,
};

verus! {

/// A snapshot as lines and cursor.
pub type SnapshotView = (Seq<Seq<char>>, u16, u16);

/// The newest `HISTORY_LIMIT` snapshots of `h`.
pub open spec fn pruned(h: Seq<SnapshotView>) -> Seq<SnapshotView> {
    h.skip(sat_sub(h.len() as int, HISTORY_LIMIT as int))
}

/// The history after saving the state (`lines`, `cx`, `cy`).
pub open spec fn saved(h: Seq<SnapshotView>, lines: Seq<Seq<char>>, cx: u16, cy: u16) -> Seq<SnapshotView> {
    pruned(h.push((lines, cx, cy)))
}

/// The indices of the lines that hold `p`, in ascending order.
pub open spec fn matching_lines(lines: Seq<Seq<char>>, p: Seq<char>) -> Seq<usize>
    decreases lines.len(),
{
    if lines.len() == 0 {
        Seq::<usize>::empty()
    } else {
        let rest = matching_lines(lines.drop_last(), p);
        if contains_text(lines.last(), p) {
            rest.push((lines.len() - 1) as usize)
        } else {
            rest
        }
    }
}

/// Copies of the rows.
pub fn clone_rows(rows: &Vec<String>) -> (r: Vec<String>)
    ensures
        texts(r@) == texts(rows@),
        r@.len() == rows@.len(),
{
    let mut r: Vec<String> = Vec::new();
    for i in 0..rows.len()
        invariant
            texts(r@) == texts(rows@).take(i as int),
            r@.len() == i,
    {
        let ghost before = texts(r@);
        r.push(rows[i].clone());
        assert(texts(r@) =~= before.push(rows@[i as int]@));
        assert(texts(rows@).take(i + 1) =~= texts(rows@).take(i as int).push(rows@[i as int]@));
    }
    assert(texts(rows@).take(rows@.len() as int) =~= texts(rows@));
    r
}

/// A position as (column, line).
pub type Pos = (usize, usize);

/// The two positions in reading order: by line, then by column.
pub open spec fn ordered(a: Pos, b: Pos) -> (Pos, Pos) {
    if a.1 < b.1 || (a.1 == b.1 && a.0 <= b.0) {
        (a, b)
    } else {
        (b, a)
    }
}

/// `a`, or `b` when smaller.
pub open spec fn min_int(a: int, b: int) -> int {
    if a <= b {
        a
    } else {
        b
    }
}

/// The part of line `y` (holding `line`) that the selection from `s` to `e` covers, with the
/// line break after it when the selection goes on; columns count characters, and columns past
/// the end of the line stand for its end.
pub open spec fn selection_piece(line: Seq<char>, s: Pos, e: Pos, y: int) -> Seq<char> {
    let a = min_int(s.0 as int, line.len() as int);
    let b = min_int(e.0 as int, line.len() as int);
    if y == s.1 && y == e.1 {
        line.subrange(a, b)
    } else if y == s.1 {
        line.skip(a).push('\n')
    } else if y == e.1 {
        line.take(b)
    } else {
        line.push('\n')
    }
}

/// The text that the selection from `s` to `e` covers on the lines before `upto`.
pub open spec fn selection_text(lines: Seq<Seq<char>>, s: Pos, e: Pos, upto: int) -> Seq<char>
    decreases upto - s.1,
{
    if upto <= s.1 {
        Seq::<char>::empty()
    } else {
        selection_text(lines, s, e, upto - 1) + if upto - 1 < lines.len() {
            selection_piece(lines[upto - 1], s, e, upto - 1)
        } else {
            Seq::<char>::empty()
        }
    }
}

/// The lines that pasting `text` brings: its pieces between `'\n'`, each without its final
/// carriage returns.
pub open spec fn paste_pieces(text: Seq<char>) -> Seq<Seq<char>> {
    split_on(text, '\n').map_values(|l: Seq<char>| trim_cr(l))
}

/// The column where a paste at column `cx` of `row` lands: `cx`, or the end of the row.
pub open spec fn paste_column(row: Seq<char>, cx: int) -> int {
    min_int(cx, byte_len(row) as int)
}

/// The lines after pasting the pieces `p` at byte column `cx` of line `cy`: the first piece
/// continues the line's part before the cursor, the last piece goes before the part after it,
/// and the pieces between become lines of their own.
pub open spec fn pasted_lines(lines: Seq<Seq<char>>, cx: int, cy: int, p: Seq<Seq<char>>) -> Seq<Seq<char>> {
    spliced_lines(lines, paste_column(lines[cy], cx), cy, p)
}

/// The lines after pasting the pieces `p` at byte offset `x` of line `cy`.
pub open spec fn spliced_lines(lines: Seq<Seq<char>>, x: int, cy: int, p: Seq<Seq<char>>) -> Seq<Seq<char>> {
    let row = lines[cy];
    let pre = before_byte(row, x);
    let post = from_byte(row, x);
    if p.len() == 1 {
        lines.update(cy, pre + p[0] + post)
    } else {
        lines.take(cy) + seq![pre + p[0]] + p.subrange(1, p.len() - 1) + seq![p.last() + post]
            + lines.skip(cy + 1)
    }
}

/// Pastes two or more pieces at byte offset `x` of line `cy`; returns the length in bytes of the
/// last piece.
#[verifier::loop_isolation(false)]
fn splice_pieces(rows: &mut Vec<String>, x: usize, cy: usize, pieces: &Vec<String>) -> (last_len: usize)
    requires
        cy < old(rows)@.len(),
        pieces@.len() >= 2,
        is_boundary(old(rows)@[cy as int]@, x as int),
        old(rows)@.len() + pieces@.len() < usize::MAX,
    ensures
        texts(final(rows)@) == spliced_lines(
            texts(old(rows)@),
            x as int,
            cy as int,
            texts(pieces@).map_values(|l: Seq<char>| trim_cr(l)),
        ),
        last_len == byte_len(trim_cr(pieces@.last()@)),
{
    let ghost p = texts(pieces@).map_values(|l: Seq<char>| trim_cr(l));
    let ghost lines = texts(rows@);
    let n = pieces.len();
    let mut current_row = rows.remove(cy);
    let remainder = string_split_off(&mut current_row, x);
    let first = trim_end_cr(pieces[0].as_str());
    assert(first@ == p[0]);
    current_row.append(first.as_str());
    rows.insert(cy, current_row);
    let ghost row = lines[cy as int];
    let ghost pre = before_byte(row, x as int);
    let ghost post = from_byte(row, x as int);
    assert(texts(rows@) =~= lines.take(cy as int) + seq![pre + p[0]] + p.subrange(1, 1)
        + lines.skip(cy + 1));
    for i in 0..n - 2
        invariant
            n == pieces@.len(),
            n >= 2,
            p.len() == n,
            cy < lines.len(),
            rows@.len() == lines.len() + i,
            texts(rows@) == lines.take(cy as int) + seq![pre + p[0]] + p.subrange(1, 1 + i)
                + lines.skip(cy + 1),
    {
        let clean = trim_end_cr(pieces[i + 1].as_str());
        assert(clean@ == p[i + 1]);
        let ghost before = texts(rows@);
        rows.insert(cy + 1 + i, clean);
        assert(texts(rows@) =~= before.insert(cy + 1 + i, p[i + 1]));
        assert(texts(rows@) =~= lines.take(cy as int) + seq![pre + p[0]] + p.subrange(1, 2 + i)
            + lines.skip(cy + 1));
    }
    let mut final_row = trim_end_cr(pieces[n - 1].as_str());
    assert(final_row@ == p.last());
    let final_len = string_byte_len(&final_row);
    final_row.append(remainder.as_str());
    let ghost before = texts(rows@);
    rows.insert(cy + n - 1, final_row);
    assert(texts(rows@) =~= before.insert(cy + n - 1, p.last() + post));
    assert(texts(rows@) =~= spliced_lines(lines, x as int, cy as int, p));
    final_len
}

/// Appends the characters `cs[a..b]` to `out`.
fn push_chars(out: &mut String, cs: &Vec<char>, a: usize, b: usize)
    requires
        a <= b <= cs@.len(),
    ensures
        final(out)@ == old(out)@ + cs@.subrange(a as int, b as int),
{
    for i in a..b
        invariant
            b <= cs@.len(),
            out@ == old(out)@ + cs@.subrange(a as int, i as int),
    {
        string_push(out, cs[i]);
        assert(cs@.subrange(a as int, i + 1) =~= cs@.subrange(a as int, i as int).push(cs@[i as int]));
        assert(out@ =~= old(out)@ + cs@.subrange(a as int, i + 1));
    }
}

impl AppView {
    /// The history cut to its newest `HISTORY_LIMIT` snapshots.
    pub open spec fn prune_history(self) -> AppView {
        AppView { hist: pruned(self.hist), ..self }
    }

    /// The lines and the cursor remembered for a later undo.
    pub open spec fn save_state(self) -> AppView {
        AppView { hist: saved(self.hist, self.lines, self.cursor_x, self.cursor_y), ..self }
    }

    /// Back to the newest remembered lines and cursor, which are forgotten; nothing changes when
    /// nothing is remembered.
    pub open spec fn undo(self) -> AppView {
        if self.hist.len() == 0 {
            self
        } else {
            AppView {
                lines: self.hist.last().0,
                cursor_x: self.hist.last().1,
                cursor_y: self.hist.last().2,
                hist: self.hist.drop_last(),
                ..self
            }
        }
    }

    /// The selection as its first and last position in reading order, when there is one: from
    /// where it was started to the cursor.
    pub open spec fn selection_bounds(self) -> Option<(Pos, Pos)> {
        match self.selection_start {
            Some(sp) => Some(
                ordered((sp.0 as usize, sp.1 as usize), (self.cursor_x as usize, self.cursor_y as usize)),
            ),
            None => None,
        }
    }

    /// The selected text, when there is a selection.
    pub open spec fn selected_text(self) -> Option<Seq<char>> {
        match self.selection_bounds() {
            Some((s, e)) => Some(selection_text(self.lines, s, e, e.1 + 1)),
            None => None,
        }
    }

    /// Typing at the cursor needs a free column to its right, and a cursor within its line on a
    /// character boundary (std panics otherwise).
    pub open spec fn insert_char_ok(self) -> bool {
        &&& self.cursor_x < u16::MAX
        &&& self.cursor_y < self.lines.len() && self.cursor_x <= byte_len(self.lines[self.cursor_y as int])
            ==> is_boundary(self.lines[self.cursor_y as int], self.cursor_x as int)
    }

    /// `c` typed at the cursor (past the end of the line it is appended), the cursor one column
    /// to the right; a space first remembers the state for undo.
    pub open spec fn insert_char(self, c: char) -> AppView {
        let s = if c == ' ' { self.save_state() } else { self };
        AppView {
            lines: if self.cursor_y < self.lines.len() {
                self.lines.update(
                    self.cursor_y as int,
                    row_with_char(self.lines[self.cursor_y as int], self.cursor_x as int, c),
                )
            } else {
                self.lines
            },
            cursor_x: (self.cursor_x + 1) as u16,
            ..s
        }
    }

    /// A backspace within a line needs the character before the cursor to start on a boundary;
    /// one at the start of a line needs the line to exist (std panics otherwise).
    pub open spec fn delete_char_ok(self) -> bool {
        &&& self.cursor_x > 0 && self.cursor_y < self.lines.len() && self.cursor_x <= byte_len(
            self.lines[self.cursor_y as int],
        ) ==> is_boundary(self.lines[self.cursor_y as int], self.cursor_x - 1)
        &&& self.cursor_x == 0 && self.cursor_y > 0 ==> self.cursor_y < self.lines.len()
    }

    /// Backspace, after remembering the state for undo: removes the character before the cursor
    /// and moves the cursor onto it; at the start of a line, joins the line to the one above with
    /// the cursor at the joint; at the start of the document nothing changes.
    pub open spec fn delete_char(self) -> AppView {
        let s = self.save_state();
        let l = self.lines;
        let y = self.cursor_y as int;
        if self.cursor_x > 0 {
            AppView {
                lines: if y < l.len() {
                    l.update(y, row_after_backspace(l[y], self.cursor_x as int))
                } else {
                    l
                },
                cursor_x: (self.cursor_x - 1) as u16,
                ..s
            }
        } else if self.cursor_y > 0 {
            AppView {
                lines: l.update(y - 1, l[y - 1] + l[y]).remove(y),
                cursor_y: (y - 1) as u16,
                cursor_x: byte_len(l[y - 1]) as u16,
                ..s
            }
        } else {
            s
        }
    }

    /// Breaking a line needs a line below to move to, and a cursor within its line on a
    /// character boundary (std panics otherwise).
    pub open spec fn insert_newline_ok(self) -> bool {
        &&& self.cursor_y < u16::MAX
        &&& self.cursor_y < self.lines.len() && self.cursor_x < byte_len(self.lines[self.cursor_y as int])
            ==> is_boundary(self.lines[self.cursor_y as int], self.cursor_x as int)
    }

    /// Enter, after remembering the state for undo: the line broken at the cursor, the cursor at
    /// the start of the new line.
    pub open spec fn insert_newline(self) -> AppView {
        AppView {
            lines: lines_after_break(self.lines, self.cursor_x as int, self.cursor_y as int),
            cursor_x: 0,
            cursor_y: (self.cursor_y + 1) as u16,
            ..self.save_state()
        }
    }

    /// Pasting `text` needs the cursor's landing column on a character boundary (std panics
    /// otherwise), room for the cursor after the text, and room for the new lines.
    pub open spec fn paste_ok(self, text: Seq<char>) -> bool {
        let p = paste_pieces(text);
        let y = self.cursor_y as int;
        &&& y < self.lines.len() ==> is_boundary(
            self.lines[y],
            paste_column(self.lines[y], self.cursor_x as int),
        )
        &&& y < self.lines.len() && p.len() == 1 ==> self.cursor_x + (byte_len(p[0]) as u16) <= u16::MAX
        &&& y < self.lines.len() && p.len() > 1 ==> self.cursor_y + ((p.len() - 1) as u16) <= u16::MAX
        &&& self.lines.len() + p.len() < usize::MAX
    }

    /// `text` pasted at the cursor after remembering the state for undo (see `pasted_lines`); the
    /// cursor ends after the pasted text. Nothing is pasted when the cursor is below the last line.
    pub open spec fn paste(self, text: Seq<char>) -> AppView {
        let s = self.save_state();
        let p = paste_pieces(text);
        let y = self.cursor_y as int;
        if y >= self.lines.len() {
            s
        } else if p.len() == 1 {
            AppView {
                lines: pasted_lines(self.lines, self.cursor_x as int, y, p),
                cursor_x: (self.cursor_x + (byte_len(p[0]) as u16)) as u16,
                ..s
            }
        } else {
            AppView {
                lines: pasted_lines(self.lines, self.cursor_x as int, y, p),
                cursor_x: byte_len(p.last()) as u16,
                cursor_y: (self.cursor_y + ((p.len() - 1) as u16)) as u16,
                ..s
            }
        }
    }
}

impl App {
    /// The snapshots of the history all hold a line.
    pub open spec fn history_ok(&self) -> bool {
        forall|i: int| 0 <= i < self.history@.len() ==> (#[trigger] self.history@[i]).0@.len() >= 1
    }

    /// Drops the oldest snapshots until at most `HISTORY_LIMIT` are left.
    pub fn prune_history(&mut self)
        ensures
            final(self)@ == old(self)@.prune_history(),
    {
        let ghost h0 = old(self).history@;
        let ghost v0 = history_view(h0);
        while self.history.len() > HISTORY_LIMIT
            invariant
                self.history@.len() >= (if h0.len() < HISTORY_LIMIT { h0.len() as int } else { HISTORY_LIMIT as int }),
                self.history@ == h0.skip(h0.len() - self.history@.len()),
                self.history@.len() <= h0.len(),
                self.document == old(self).document,
                self.cursor_x == old(self).cursor_x,
                self.cursor_y == old(self).cursor_y,
                self.scroll_x == old(self).scroll_x,
                self.scroll_y == old(self).scroll_y,
                self.selection_start == old(self).selection_start,
                self.mode == old(self).mode,
                self.focus == old(self).focus,
                self.config == old(self).config,
                self.explorer == old(self).explorer,
                self.editor_area == old(self).editor_area,
                self.explorer_area == old(self).explorer_area,
                self.menu_items == old(self).menu_items,
                self.menu_selection == old(self).menu_selection,
                self.should_quit == old(self).should_quit,
            decreases self.history@.len(),
        {
            let ghost before = self.history@;
            self.history.remove(0);
            assert(self.history@ =~= h0.skip(h0.len() - self.history@.len()));
        }
        assert(self.hist() =~= pruned(v0));
        assert(self@ =~= old(self)@.prune_history());
    }

    /// Remembers the lines and the cursor for a later undo.
    pub fn save_state(&mut self)
        ensures
            final(self)@ == old(self)@.save_state(),
    {
        let state: Snapshot = (clone_rows(&self.document.rows), self.cursor_x, self.cursor_y);
        let ghost h = self.history@;
        self.history.push(state);
        assert(self.hist() =~= history_view(h).push(
            (old(self).lines(), old(self).cursor_x, old(self).cursor_y),
        ));
        self.prune_history();
    }

    /// Goes back to the newest remembered lines and cursor, forgetting them; does nothing when
    /// nothing is remembered.
    pub fn undo(&mut self)
        ensures
            final(self)@ == old(self)@.undo(),
            old(self).wf() ==> final(self).wf(),
    {
        let ghost h = self.history@;
        if let Some((rows, cx, cy)) = self.history.pop() {
            assert(h.last() == (rows, cx, cy));
            assert(self.hist() =~= history_view(h).drop_last());
            assert(history_view(h).last() == snapshot_view(h.last()));
            proof {
                if old(self).wf() {
                    assert(old(self)@.hist[old(self)@.hist.len() - 1].0.len() >= 1);
                }
            }
            self.document.rows = rows;
            self.cursor_x = cx;
            self.cursor_y = cy;
        }
    }

    /// The selection as its first and last position in reading order, when there is one: from
    /// where it was started to the cursor.
    pub fn get_selection_bounds(&self) -> (r: Option<(Pos, Pos)>)
        ensures
            r == self@.selection_bounds(),
    {
        let start_pos = match self.selection_start {
            Some(p) => p,
            None => {
                return None;
            },
        };
        let start: Pos = (start_pos.0 as usize, start_pos.1 as usize);
        let end: Pos = (self.cursor_x as usize, self.cursor_y as usize);
        if start.1 < end.1 || (start.1 == end.1 && start.0 <= end.0) {
            Some((start, end))
        } else {
            Some((end, start))
        }
    }

    /// The selected text, when there is a selection: the selected part of each line, lines
    /// joined by `'\n'`.
    pub fn get_selected_text(&self) -> (r: Option<String>)
        ensures
            self@.selected_text() is None ==> r is None,
            self@.selected_text() matches Some(t) ==> r matches Some(s) && s@ == t,
    {
        let (start, end) = match self.get_selection_bounds() {
            Some(b) => b,
            None => {
                return None;
            },
        };
        let mut text = String::new();
        let ghost lines = self.lines();
        assert(start.1 <= end.1 <= u16::MAX);
        for y in start.1..end.1 + 1
            invariant
                start.1 <= end.1 <= u16::MAX,
                start.1 < end.1 || start.0 <= end.0,
                lines == self.lines(),
                text@ == selection_text(lines, start, end, y as int),
        {
            if y < self.document.rows.len() {
                let row = &self.document.rows[y];
                let chars = chars_of(row.as_str());
                let n = chars.len();
                let ghost line = lines[y as int];
                assert(line == row@);
                if y == start.1 && y == end.1 {
                    let s = if start.0 < n { start.0 } else { n };
                    let e = if end.0 < n { end.0 } else { n };
                    push_chars(&mut text, &chars, s, e);
                } else if y == start.1 {
                    let s = if start.0 < n { start.0 } else { n };
                    push_chars(&mut text, &chars, s, n);
                    string_push(&mut text, '\n');
                    assert(line.subrange(s as int, n as int) =~= line.skip(s as int));
                } else if y == end.1 {
                    let e = if end.0 < n { end.0 } else { n };
                    push_chars(&mut text, &chars, 0, e);
                    assert(line.subrange(0, e as int) =~= line.take(e as int));
                } else {
                    push_chars(&mut text, &chars, 0, n);
                    string_push(&mut text, '\n');
                    assert(line.subrange(0, n as int) =~= line);
                }
                assert(text@ =~= selection_text(lines, start, end, y + 1));
            } else {
                assert(text@ =~= selection_text(lines, start, end, y + 1));
            }
        }
        Some(text)
    }

    /// The indices of the lines that hold `pattern`, in ascending order.
    pub fn find_line(&self, pattern: &str) -> (r: Vec<usize>)
        ensures
            r@ == matching_lines(self@.lines, pattern@),
    {
        let mut r: Vec<usize> = Vec::new();
        let n = self.document.rows.len();
        for i in 0..n
            invariant
                n == self.document.rows@.len(),
                r@ == matching_lines(self.lines().take(i as int), pattern@),
        {
            let found = str_contains(self.document.rows[i].as_str(), pattern);
            assert(self.lines().take(i + 1).drop_last() =~= self.lines().take(i as int));
            assert(self.lines()[i as int] == self.document.rows@[i as int]@);
            if found {
                r.push(i);
            }
        }
        assert(self.lines().take(n as int) =~= self.lines());
        r
    }

    /// Pastes `text` at the cursor (see `pasted_lines`); the cursor ends after the pasted text.
    /// Nothing is pasted when the cursor is below the last line. First remembers the state for
    /// undo.
    pub fn paste(&mut self, text: &str)
        requires
            old(self)@.paste_ok(text@),
        ensures
            final(self)@ == old(self)@.paste(text@),
            old(self).wf() ==> final(self).wf(),
    {
        self.save_state();
        let pieces = split_newlines(text);
        proof {
            lemma_split_on_nonempty(text@, '\n');
        }
        let ghost p = paste_pieces(text@);
        let ghost lines = self.lines();
        assert(p.len() == pieces@.len());
        assert(texts(pieces@).map_values(|l: Seq<char>| trim_cr(l)) =~= p);
        if pieces.len() == 0 {
            return;
        }
        let cy = self.cursor_y as usize;
        let cx = self.cursor_x as usize;
        if cy >= self.document.rows.len() {
            return;
        }
        let rl = string_byte_len(&self.document.rows[cy]);
        let cx_safe = if cx < rl { cx } else { rl };
        proof {
            lemma_boundary_end(lines[cy as int]);
        }
        if pieces.len() == 1 {
            let clean = trim_end_cr(pieces[0].as_str());
            assert(clean@ == p[0]);
            string_insert_str(&mut self.document.rows[cy], cx_safe, clean.as_str());
            self.cursor_x += string_byte_len(&clean) as u16;
            assert(self.lines() =~= pasted_lines(lines, cx as int, cy as int, p));
        } else {
            let n = pieces.len();
            let final_len = splice_pieces(&mut self.document.rows, cx_safe, cy, &pieces);
            assert(byte_len(trim_cr(pieces@.last()@)) == byte_len(p.last()));
            self.cursor_y += (n - 1) as u16;
            self.cursor_x = final_len as u16;
        }
        assert(self.document.rows@.len() == self.lines().len());
    }

    /// Types `c` at the cursor (past the end of the line it is appended) and moves the cursor one
    /// column right. A space first remembers the state for undo.
    pub fn insert_char(&mut self, c: char)
        requires
            old(self)@.insert_char_ok(),
        ensures
            final(self)@ == old(self)@.insert_char(c),
            old(self).wf() ==> final(self).wf(),
    {
        if c == ' ' {
            self.save_state();
        }
        self.document.insert(self.cursor_x as usize, self.cursor_y as usize, c);
        self.cursor_x += 1;
        assert(self.document.rows@.len() == self.lines().len());
    }

    /// Backspace: removes the character before the cursor and moves the cursor onto it; at the
    /// start of a line, joins the line to the one above with the cursor at the joint. First
    /// remembers the state for undo.
    pub fn delete_char(&mut self)
        requires
            old(self)@.delete_char_ok(),
        ensures
            final(self)@ == old(self)@.delete_char(),
            old(self).wf() ==> final(self).wf(),
    {
        self.save_state();
        if self.cursor_x > 0 {
            self.document.delete(self.cursor_x as usize, self.cursor_y as usize);
            self.cursor_x -= 1;
            assert(self.document.rows@.len() == self.lines().len());
        } else if self.cursor_y > 0 {
            let ghost l = self.lines();
            let current_row: String = self.document.rows.remove(self.cursor_y as usize);
            self.cursor_y -= 1;
            let prev_row: &mut String = &mut self.document.rows[self.cursor_y as usize];
            self.cursor_x = string_byte_len(prev_row) as u16;
            prev_row.append(current_row.as_str());
            let ghost y = old(self).cursor_y as int;
            assert(self.lines() =~= l.update(y - 1, l[y - 1] + l[y]).remove(y));
        }
    }

    /// Enter: breaks the line at the cursor and moves the cursor to the start of the new line.
    /// First remembers the state for undo.
    pub fn insert_newline(&mut self)
        requires
            old(self)@.insert_newline_ok(),
            old(self).document.rows@.len() < usize::MAX,
        ensures
            final(self)@ == old(self)@.insert_newline(),
            old(self).wf() ==> final(self).wf(),
    {
        self.save_state();
        self.document.insert_newline(self.cursor_x as usize, self.cursor_y as usize);
        self.cursor_x = 0;
        self.cursor_y += 1;
        assert(self.document.rows@.len() == self.lines().len());
    }
}

} // verus!
