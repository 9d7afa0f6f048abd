use vstd::prelude::*;
use crate::engine::app::{AppView, ModeView};
use crate::engine::app::editor::{matching_lines, paste_column, paste_pieces, pasted_lines, spliced_lines};
use crate::text::{contains_text, join, lemma_split_join, lines_of, split_on, strip_cr, trim_cr};
use crate::engine::document::document_lines;
use crate::engine::app::editor::{pruned, saved, SnapshotView, Pos, min_int, selection_text};
use crate::engine::app::HISTORY_LIMIT;
use crate::tui::app::AppState;
use crate::engine::document::{row_with_char, row_after_backspace};
use crate::text::{
    before_byte, byte_len, char_index, from_byte, is_boundary, lemma_boundary_bound,
    lemma_byte_len_concat, lemma_byte_len_push, lemma_char_index, lemma_char_width, lemma_boundary_end,
};

verus! {

/// Remembering a state makes it the newest snapshot, and the history stays within its limit.
pub proof fn law_saved_state_is_newest(h: Seq<SnapshotView>, lines: Seq<Seq<char>>, cx: u16, cy: u16)
    requires
        h.len() <= HISTORY_LIMIT,
    ensures
        saved(h, lines, cx, cy).len() >= 1,
        saved(h, lines, cx, cy).last() == (lines, cx, cy),
        saved(h, lines, cx, cy).len() <= HISTORY_LIMIT,
{
    let g = h.push((lines, cx, cy));
    let k = if g.len() >= HISTORY_LIMIT { g.len() - HISTORY_LIMIT } else { 0 };
    assert(pruned(g) == g.skip(k));
}

/// Undo right after remembering the state changes nothing, while the history has room.
pub proof fn law_undo_after_save_state(v: AppView)
    requires
        v.hist.len() < HISTORY_LIMIT,
    ensures
        v.save_state().undo() == v,
{
    let g = v.hist.push((v.lines, v.cursor_x, v.cursor_y));
    assert(pruned(g) =~= g);
    assert(g.drop_last() =~= v.hist);
}

/// Undo right after a backspace gives back the lines and the cursor.
pub proof fn law_undo_after_delete_char(v: AppView)
    requires
        v.wf(),
    ensures
        v.delete_char().undo().lines == v.lines,
        v.delete_char().undo().cursor_x == v.cursor_x,
        v.delete_char().undo().cursor_y == v.cursor_y,
{
    law_saved_state_is_newest(v.hist, v.lines, v.cursor_x, v.cursor_y);
}

/// Undo right after Enter gives back the lines and the cursor.
pub proof fn law_undo_after_insert_newline(v: AppView)
    requires
        v.wf(),
    ensures
        v.insert_newline().undo().lines == v.lines,
        v.insert_newline().undo().cursor_x == v.cursor_x,
        v.insert_newline().undo().cursor_y == v.cursor_y,
{
    law_saved_state_is_newest(v.hist, v.lines, v.cursor_x, v.cursor_y);
}

/// Undo right after a paste gives back the lines and the cursor.
pub proof fn law_undo_after_paste(v: AppView, text: Seq<char>)
    requires
        v.wf(),
    ensures
        v.paste(text).undo().lines == v.lines,
        v.paste(text).undo().cursor_x == v.cursor_x,
        v.paste(text).undo().cursor_y == v.cursor_y,
{
    law_saved_state_is_newest(v.hist, v.lines, v.cursor_x, v.cursor_y);
}

/// Undo right after typing a space gives back the lines and the cursor.
pub proof fn law_undo_after_space(v: AppView)
    requires
        v.wf(),
    ensures
        v.insert_char(' ').undo().lines == v.lines,
        v.insert_char(' ').undo().cursor_x == v.cursor_x,
        v.insert_char(' ').undo().cursor_y == v.cursor_y,
{
    law_saved_state_is_newest(v.hist, v.lines, v.cursor_x, v.cursor_y);
}

/// A backspace right after typing a character at a boundary of the line removes that character.
pub proof fn law_backspace_after_char(row: Seq<char>, x: int, c: char)
    requires
        is_boundary(row, x),
    ensures
        is_boundary(row_with_char(row, x, c), x),
        x + 1 <= byte_len(row_with_char(row, x, c)),
        row_after_backspace(row_with_char(row, x, c), x + 1) == row,
{
    lemma_boundary_bound(row, x);
    let k = char_index(row, x);
    let r2 = row_with_char(row, x, c);
    assert(r2 == before_byte(row, x).push(c) + from_byte(row, x));
    assert(r2.take(k) =~= row.take(k));
    lemma_char_index(r2, k);
    assert(r2 =~= row.take(k).push(c) + row.skip(k));
    lemma_byte_len_concat(row.take(k).push(c), row.skip(k));
    lemma_byte_len_push(row.take(k), c);
    lemma_char_width(c);
    assert(r2.remove(k) =~= row);
}

/// Typing a character and then a backspace gives back the lines and the cursor, when the cursor
/// lies on a character boundary of its line.
pub proof fn law_backspace_undoes_typing(v: AppView, c: char)
    requires
        v.cursor_y < v.lines.len(),
        v.cursor_x < u16::MAX,
        is_boundary(v.lines[v.cursor_y as int], v.cursor_x as int),
    ensures
        v.insert_char_ok(),
        v.insert_char(c).delete_char_ok(),
        v.insert_char(c).delete_char().lines == v.lines,
        v.insert_char(c).delete_char().cursor_x == v.cursor_x,
        v.insert_char(c).delete_char().cursor_y == v.cursor_y,
{
    let y = v.cursor_y as int;
    let x = v.cursor_x as int;
    law_backspace_after_char(v.lines[y], x, c);
    lemma_boundary_bound(v.lines[y], x);
    let w = v.insert_char(c);
    assert(w.lines[y] == row_with_char(v.lines[y], x, c));
    assert(w.lines.update(y, row_after_backspace(w.lines[y], x + 1)) =~= v.lines);
}

/// Enter and then a backspace give back the lines and the cursor, when the cursor lies on a
/// character boundary of its line.
pub proof fn law_backspace_undoes_newline(v: AppView)
    requires
        v.cursor_y < v.lines.len(),
        v.cursor_y < u16::MAX,
        is_boundary(v.lines[v.cursor_y as int], v.cursor_x as int),
    ensures
        v.insert_newline_ok(),
        v.insert_newline().delete_char_ok(),
        v.insert_newline().delete_char().lines == v.lines,
        v.insert_newline().delete_char().cursor_x == v.cursor_x,
        v.insert_newline().delete_char().cursor_y == v.cursor_y,
{
    let y = v.cursor_y as int;
    let x = v.cursor_x as int;
    let row = v.lines[y];
    lemma_boundary_bound(row, x);
    let k = char_index(row, x);
    let w = v.insert_newline();
    if x < byte_len(row) {
        assert(w.lines == v.lines.update(y, before_byte(row, x)).insert(y + 1, from_byte(row, x)));
        assert(before_byte(row, x) + from_byte(row, x) =~= row);
    } else {
        lemma_boundary_end(row);
        assert(w.lines == v.lines.insert(y + 1, Seq::<char>::empty()));
        assert(row + Seq::<char>::empty() =~= row);
    }
    let u = w.delete_char();
    assert(u.lines =~= v.lines);
}

/// Every step of the editor keeps its well-formedness: the document keeps a line, the history
/// stays within its limit with a line in each snapshot, and the menu keeps its entries.
pub proof fn law_steps_keep_wf(v: AppView, c: char, text: Seq<char>, dx: i16, dy: i16, x: u16, y: u16)
    requires
        v.wf(),
    ensures
        v.toggle_menu().wf(),
        v.menu_up().wf(),
        v.menu_down().wf(),
        v.execute_menu_action().wf(),
        v.settings_up().wf(),
        v.settings_down().wf(),
        v.toggle_setting().wf(),
        v.handle_click(x, y).wf(),
        v.move_cursor(dx, dy).wf(),
        v.adjust_scroll().wf(),
        v.save_state().wf(),
        v.undo().wf(),
        v.insert_char(c).wf(),
        v.delete_char_ok() ==> v.delete_char().wf(),
        v.insert_newline().wf(),
        v.paste(text).wf(),
{
    let h = v.hist;
    law_saved_state_is_newest(h, v.lines, v.cursor_x, v.cursor_y);
    let s = v.save_state();
    let g = h.push((v.lines, v.cursor_x, v.cursor_y));
    assert forall|i: int| 0 <= i < s.hist.len() implies (#[trigger] s.hist[i]).0.len() >= 1 by {
        let k = if g.len() >= HISTORY_LIMIT { g.len() - HISTORY_LIMIT } else { 0 };
        assert(s.hist[i] == g[i + k]);
    }
    if v.hist.len() > 0 {
        assert(v.hist[v.hist.len() - 1].0.len() >= 1);
    }
    let y0 = v.cursor_y as int;
    if y0 < v.lines.len() {
        let p = paste_pieces(text);
        crate::text::lemma_split_on_nonempty(text, '\n');
        let l = pasted_lines(v.lines, v.cursor_x as int, y0, p);
        assert(l.len() >= 1);
    }
}

/// Moving the menu selection up and then down, or down and then up, comes back to the entry.
pub proof fn law_menu_up_down(v: AppView)
    requires
        v.menu_selection < v.menu.len() <= usize::MAX,
    ensures
        v.menu_up().menu_down().menu_selection == v.menu_selection,
        v.menu_down().menu_up().menu_selection == v.menu_selection,
{
}

/// Moving the settings selection up and then down, or down and then up, comes back to the entry.
pub proof fn law_settings_up_down(v: AppView, s: usize)
    requires
        v.mode == ModeView::Settings(s),
        s < 4,
    ensures
        v.settings_up().settings_down() == v,
        v.settings_down().settings_up() == v,
{
}

/// Flipping a setting twice gives back the settings; Esc twice from the editor comes back to it.
pub proof fn law_toggles_undo_themselves(v: AppView)
    ensures
        v.toggle_setting().toggle_setting() == v,
        v.mode == ModeView::Editor ==> v.toggle_menu().toggle_menu() == v,
{
}

/// The lines found for a pattern are exactly those that hold it, in ascending order.
pub proof fn law_find_line(lines: Seq<Seq<char>>, p: Seq<char>)
    requires
        lines.len() <= usize::MAX,
    ensures
        forall|i: int| 0 <= i < lines.len() ==> (matching_lines(lines, p).contains(i as usize)
            <==> contains_text(#[trigger] lines[i], p)),
        forall|i: int| 0 <= i < matching_lines(lines, p).len() ==> #[trigger] matching_lines(lines, p)[i] < lines.len(),
        forall|i: int, j: int| 0 <= i < j < matching_lines(lines, p).len() ==> #[trigger] matching_lines(lines, p)[i] < #[trigger] matching_lines(lines, p)[j],
    decreases lines.len(),
{
    if lines.len() > 0 {
        let rest = lines.drop_last();
        law_find_line(rest, p);
        let m = matching_lines(rest, p);
        let r = matching_lines(lines, p);
        let last = (lines.len() - 1) as usize;
        assert(r == if contains_text(lines.last(), p) { m.push(last) } else { m });
        assert forall|i: int| 0 <= i < r.len() implies #[trigger] r[i] < lines.len() by {
            if i < m.len() {
                assert(r[i] == m[i]);
            }
        }
        assert forall|i: int, j: int| 0 <= i < j < r.len() implies #[trigger] r[i] < #[trigger] r[j] by {
            assert(r[i] == m[i]);
            if j < m.len() {
                assert(r[j] == m[j]);
            } else {
                assert(m[i] < rest.len());
            }
        }
        assert forall|i: int| 0 <= i < lines.len() implies (r.contains(i as usize)
            <==> contains_text(#[trigger] lines[i], p)) by {
            if i < lines.len() - 1 {
                assert(lines[i] == rest[i]);
                if r.contains(i as usize) {
                    let j = choose|j: int| 0 <= j < r.len() && r[j] == i as usize;
                    if j < m.len() {
                        assert(m[j] == r[j]);
                        assert(m.contains(i as usize));
                    }
                }
                if m.contains(i as usize) {
                    let j = choose|j: int| 0 <= j < m.len() && m[j] == i as usize;
                    assert(r[j] == i as usize);
                }
            } else {
                if contains_text(lines.last(), p) {
                    assert(r[m.len() as int] == i as usize);
                } else if r.contains(i as usize) {
                    let j = choose|j: int| 0 <= j < r.len() && r[j] == i as usize;
                    assert(m[j] < rest.len());
                }
            }
        }
    }
}

/// Lines written to a file, joined by `'\n'`, read back as the same lines: when no line holds a
/// `'\n'`, no line but the last ends with `'\r'`, and the last line is not empty unless it is
/// the only one.
pub proof fn law_save_then_open(rows: Seq<Seq<char>>)
    requires
        rows.len() >= 1,
        forall|i: int| 0 <= i < rows.len() ==> !(#[trigger] rows[i]).contains('\n'),
        forall|i: int| 0 <= i < rows.len() - 1 ==> strip_cr(#[trigger] rows[i]) == rows[i],
        rows.last().len() > 0 || rows.len() == 1,
    ensures
        document_lines(join(rows, '\n')) == rows,
{
    lemma_split_join(rows, '\n');
    let p = rows;
    let body = p.drop_last().map_values(|l: Seq<char>| strip_cr(l));
    assert(body =~= rows.drop_last());
    if rows.last().len() == 0 {
        assert(lines_of(join(rows, '\n')) =~= rows.drop_last());
        assert(rows.drop_last().len() == 0);
        assert(rows =~= seq![Seq::<char>::empty()]);
    } else {
        assert(lines_of(join(rows, '\n')) =~= rows);
    }
}

/// The view of `s` shows its cursor, inside the editor pane's border.
pub open spec fn cursor_in_view(s: AppState) -> bool {
    &&& s.scroll_y <= s.cursor_y < s.scroll_y + s.editor_area.height - 2
    &&& s.scroll_x <= s.cursor_x < s.scroll_x + s.editor_area.width - 2
}

/// In the editor of `tui::app`, with a pane of at least one line and one column inside its
/// border, every step that moves the cursor leaves it in view: typing, Enter, a backspace
/// (but at the start of the document), a cursor move and a click.
pub proof fn law_steps_keep_cursor_in_view(v: AppState, c: char, dx: i16, dy: i16, x: u16, y: u16)
    requires
        v.editor_area.height >= 3,
        v.editor_area.width >= 3,
    ensures
        cursor_in_view(v.insert_char(c)),
        cursor_in_view(v.insert_newline()),
        v.cursor_x > 0 || v.cursor_y > 0 ==> cursor_in_view(v.delete_char()),
        v.move_cursor_ok(dx, dy) ==> cursor_in_view(v.move_cursor(dx, dy)),
        cursor_in_view(v.handle_click(x, y)),
{
}

/// Undo right after a paste, a backspace, Enter or typing a space gives back the history as it
/// was before the step, while the history has room; undo with nothing remembered changes
/// nothing.
pub proof fn law_undo_restores_history(v: AppView, text: Seq<char>)
    requires
        v.hist.len() < HISTORY_LIMIT,
    ensures
        v.paste(text).undo().hist == v.hist,
        v.delete_char().undo().hist == v.hist,
        v.insert_newline().undo().hist == v.hist,
        v.insert_char(' ').undo().hist == v.hist,
        v.hist.len() == 0 ==> v.undo() == v,
{
    let g = v.hist.push((v.lines, v.cursor_x, v.cursor_y));
    assert(pruned(g) =~= g);
    assert(g.drop_last() =~= v.hist);
}

/// In the editor of `tui::app`, typing a character and then a backspace gives back the lines
/// and the cursor, when the cursor lies on a character boundary of its line. Both steps can be
/// taken when the view can scroll and the cursor keeps clear of the largest coordinates.
pub proof fn law_terminal_backspace_undoes_typing(v: AppState, c: char)
    requires
        v.cursor_y < v.lines.len(),
        v.cursor_x < u16::MAX,
        is_boundary(v.lines[v.cursor_y as int], v.cursor_x as int),
    ensures
        v.adjust_scroll_ok() && v.cursor_x + 2 <= u16::MAX && v.cursor_y < u16::MAX
            ==> v.insert_char_ok() && v.insert_char(c).delete_char_ok(),
        v.insert_char(c).delete_char().lines == v.lines,
        v.insert_char(c).delete_char().cursor_x == v.cursor_x,
        v.insert_char(c).delete_char().cursor_y == v.cursor_y,
{
    let y = v.cursor_y as int;
    let x = v.cursor_x as int;
    law_backspace_after_char(v.lines[y], x, c);
    lemma_boundary_bound(v.lines[y], x);
    let w = v.insert_char(c);
    assert(w.lines[y] == row_with_char(v.lines[y], x, c));
    assert(w.lines.update(y, row_after_backspace(w.lines[y], x + 1)) =~= v.lines);
}

/// In the editor of `tui::app`, Enter and then a backspace give back the lines and the cursor,
/// when the cursor lies on a character boundary of its line. Both steps can be taken when the
/// view can scroll, the document has room for a line and the cursor keeps clear of the largest
/// line number.
pub proof fn law_terminal_backspace_undoes_newline(v: AppState)
    requires
        v.cursor_y < v.lines.len(),
        v.cursor_y < u16::MAX,
        is_boundary(v.lines[v.cursor_y as int], v.cursor_x as int),
    ensures
        v.adjust_scroll_ok() && v.lines.len() < usize::MAX && v.cursor_y + 2 <= u16::MAX
            ==> v.insert_newline_ok() && v.insert_newline().delete_char_ok(),
        v.insert_newline().delete_char().lines == v.lines,
        v.insert_newline().delete_char().cursor_x == v.cursor_x,
        v.insert_newline().delete_char().cursor_y == v.cursor_y,
{
    let y = v.cursor_y as int;
    let x = v.cursor_x as int;
    let row = v.lines[y];
    lemma_boundary_bound(row, x);
    let w = v.insert_newline();
    if x < byte_len(row) {
        assert(w.lines == v.lines.update(y, before_byte(row, x)).insert(y + 1, from_byte(row, x)));
        assert(before_byte(row, x) + from_byte(row, x) =~= row);
    } else {
        lemma_boundary_end(row);
        assert(w.lines == v.lines.insert(y + 1, Seq::<char>::empty()));
        assert(row + Seq::<char>::empty() =~= row);
    }
    let u = w.delete_char();
    assert(u.lines =~= v.lines);
}

/// `s` without its carriage returns.
pub open spec fn without_cr(s: Seq<char>) -> Seq<char>
    decreases s.len(),
{
    if s.len() == 0 {
        s
    } else if s.last() == '\r' {
        without_cr(s.drop_last())
    } else {
        without_cr(s.drop_last()).push(s.last())
    }
}

/// In the editor of `tui::app`, pasting `s` and then `t` is pasting `s + t`, and can be done
/// exactly when the two pastes can be done in turn.
pub proof fn law_paste_composes(v: AppState, s: Seq<char>, t: Seq<char>)
    ensures
        v.paste(s + t) == v.paste(s).paste(t),
        v.paste_ok(s + t) == (v.paste_ok(s) && v.paste(s).paste_ok(t)),
    decreases t.len(),
{
    if t.len() == 0 {
        assert(s + t =~= s);
    } else {
        law_paste_composes(v, s, t.drop_last());
        assert((s + t).drop_last() =~= s + t.drop_last());
        assert((s + t).last() == t.last());
    }
}

/// In the editor of `tui::app`, a paste ignores carriage returns, and pasting nothing changes
/// nothing.
pub proof fn law_paste_ignores_cr(v: AppState, t: Seq<char>)
    ensures
        v.paste(t) == v.paste(without_cr(t)),
        v.paste_ok(t) == v.paste_ok(without_cr(t)),
        v.paste(Seq::<char>::empty()) == v,
    decreases t.len(),
{
    if t.len() > 0 {
        let u = t.drop_last();
        law_paste_ignores_cr(v, u);
        if t.last() != '\r' {
            assert(without_cr(u).push(t.last()).drop_last() =~= without_cr(u));
        }
    }
}

/// The selected text does not depend on which end of the selection is the anchor and which the
/// cursor.
pub proof fn law_selection_ends_interchangeable(v: AppView, ax: u16, ay: u16)
    requires
        v.selection_start == Some((ax, ay)),
    ensures
        (AppView { selection_start: Some((v.cursor_x, v.cursor_y)), cursor_x: ax, cursor_y: ay, ..v })
            .selected_text() == v.selected_text(),
{
}

/// There is a selected text exactly when a selection was started.
pub proof fn law_selected_text_needs_anchor(v: AppView)
    ensures
        v.selected_text() is None <==> v.selection_start is None,
{
}

/// Where line `r` of `lines` starts in the lines joined by `'\n'`.
pub open spec fn line_start(lines: Seq<Seq<char>>, r: int) -> int {
    if r <= 0 {
        0
    } else {
        (join(lines.take(r), '\n').len() + 1) as int
    }
}

/// Where the position `p` (column counted in characters, past the end of its line meaning its
/// end) lies in the lines joined by `'\n'`.
pub open spec fn text_offset(lines: Seq<Seq<char>>, p: Pos) -> int {
    line_start(lines, p.1 as int) + min_int(p.0 as int, lines[p.1 as int].len() as int)
}

proof fn lemma_join_take_step(lines: Seq<Seq<char>>, r: int)
    requires
        0 <= r < lines.len(),
    ensures
        join(lines.take(r + 1), '\n') == (if r == 0 {
            Seq::<char>::empty()
        } else {
            join(lines.take(r), '\n').push('\n')
        }) + lines[r],
{
    let t = lines.take(r + 1);
    assert(t.drop_last() =~= lines.take(r));
    assert(t.last() == lines[r]);
    if r == 0 {
        assert(Seq::<char>::empty() + lines[r] =~= lines[r]);
    }
}

proof fn lemma_join_prefix(lines: Seq<Seq<char>>, k: int)
    requires
        1 <= k <= lines.len(),
    ensures
        join(lines.take(k), '\n').len() <= join(lines, '\n').len(),
        join(lines, '\n').subrange(0, join(lines.take(k), '\n').len() as int) == join(lines.take(k), '\n'),
        k < lines.len() ==> join(lines.take(k), '\n').len() < join(lines, '\n').len()
            && join(lines, '\n')[join(lines.take(k), '\n').len() as int] == '\n',
    decreases lines.len(),
{
    if k == lines.len() {
        assert(lines.take(k) =~= lines);
        assert(join(lines, '\n').subrange(0, join(lines, '\n').len() as int) =~= join(lines, '\n'));
    } else {
        let d = lines.drop_last();
        let j = join(lines, '\n');
        let jd = join(d, '\n');
        assert(j == jd.push('\n') + lines.last());
        assert(d.take(k) =~= lines.take(k));
        let p = join(lines.take(k), '\n');
        if k < d.len() {
            lemma_join_prefix(d, k);
            assert(j.subrange(0, p.len() as int) =~= jd.subrange(0, p.len() as int));
            assert(j[p.len() as int] == jd[p.len() as int]);
        } else {
            assert(d.take(k) =~= d);
            assert(j.subrange(0, p.len() as int) =~= jd);
        }
    }
}

proof fn lemma_line_in_join(lines: Seq<Seq<char>>, r: int)
    requires
        0 <= r < lines.len(),
    ensures
        0 <= line_start(lines, r),
        line_start(lines, r) + lines[r].len() <= join(lines, '\n').len(),
        join(lines, '\n').subrange(line_start(lines, r), line_start(lines, r) + lines[r].len()) == lines[r],
        r + 1 < lines.len() ==> line_start(lines, r) + lines[r].len() < join(lines, '\n').len()
            && join(lines, '\n')[line_start(lines, r) + lines[r].len()] == '\n'
            && line_start(lines, r + 1) == line_start(lines, r) + lines[r].len() + 1,
{
    let j = join(lines, '\n');
    let q = join(lines.take(r + 1), '\n');
    lemma_join_take_step(lines, r);
    lemma_join_prefix(lines, r + 1);
    let ls = line_start(lines, r);
    assert(q.len() == ls + lines[r].len());
    assert(j.subrange(ls, ls + lines[r].len()) =~= q.subrange(ls, ls + lines[r].len()));
    assert(q.subrange(ls, ls + lines[r].len()) =~= lines[r]);
}

proof fn lemma_slice_piece(j: Seq<char>, ls: int, line: Seq<char>, a: int, b: int)
    requires
        0 <= ls,
        ls + line.len() <= j.len(),
        j.subrange(ls, ls + line.len()) == line,
        0 <= a <= b <= line.len(),
    ensures
        j.subrange(ls + a, ls + b) == line.subrange(a, b),
{
    assert forall|i: int| 0 <= i < b - a implies #[trigger] j.subrange(ls + a, ls + b)[i] == line.subrange(a, b)[i] by {
        assert(j.subrange(ls, ls + line.len())[a + i] == j[ls + a + i]);
    }
    assert(j.subrange(ls + a, ls + b) =~= line.subrange(a, b));
}

proof fn lemma_slice_line_nl(j: Seq<char>, ls: int, line: Seq<char>, a: int)
    requires
        0 <= ls,
        ls + line.len() < j.len(),
        j.subrange(ls, ls + line.len()) == line,
        j[ls + line.len()] == '\n',
        0 <= a <= line.len(),
    ensures
        j.subrange(ls + a, ls + line.len() + 1) == line.skip(a).push('\n'),
{
    lemma_slice_piece(j, ls, line, a, line.len() as int);
    assert(line.subrange(a, line.len() as int) =~= line.skip(a));
    assert(j.subrange(ls + a, ls + line.len() + 1) =~= j.subrange(ls + a, ls + line.len()).push(
        j[ls + line.len()],
    ));
}

proof fn lemma_slice_concat(j: Seq<char>, a: int, b: int, c: int)
    requires
        0 <= a <= b <= c <= j.len(),
    ensures
        j.subrange(a, b) + j.subrange(b, c) == j.subrange(a, c),
{
    assert(j.subrange(a, b) + j.subrange(b, c) =~= j.subrange(a, c));
}

#[verifier::spinoff_prover]
proof fn lemma_selection_span(lines: Seq<Seq<char>>, s: Pos, e: Pos, upto: int)
    requires
        s.1 < upto <= e.1 < lines.len(),
    ensures
        text_offset(lines, s) <= line_start(lines, upto) <= join(lines, '\n').len(),
        selection_text(lines, s, e, upto) == join(lines, '\n').subrange(text_offset(lines, s), line_start(lines, upto)),
    decreases upto - s.1,
{
    let j = join(lines, '\n');
    let r = upto - 1;
    let line = lines[r];
    lemma_line_in_join(lines, r);
    let ls = line_start(lines, r);
    let piece = j.subrange(ls, line_start(lines, upto));
    if r == s.1 {
        let a = min_int(s.0 as int, line.len() as int);
        lemma_slice_line_nl(j, ls, line, a);
        assert(selection_text(lines, s, e, r) == Seq::<char>::empty());
        assert(selection_text(lines, s, e, upto) =~= line.skip(a).push('\n'));
    } else {
        lemma_selection_span(lines, s, e, r);
        lemma_slice_line_nl(j, ls, line, 0);
        assert(line.skip(0) =~= line);
        let prev = j.subrange(text_offset(lines, s), ls);
        assert(selection_text(lines, s, e, upto) == prev + line.push('\n'));
        lemma_slice_concat(j, text_offset(lines, s), ls, line_start(lines, upto));
    }
}

/// With both ends of the selection on lines of the document, the selected text is the part of
/// the lines joined by `'\n'` between the two ends.
pub proof fn law_selected_text_is_joined_text(v: AppView)
    requires
        v.selection_start is Some,
        v.selection_start.unwrap().1 < v.lines.len(),
        v.cursor_y < v.lines.len(),
    ensures
        ({
            let (s, e) = v.selection_bounds().unwrap();
            v.selected_text() == Some(
                join(v.lines, '\n').subrange(text_offset(v.lines, s), text_offset(v.lines, e)),
            )
        }),
{
    let (s, e) = v.selection_bounds().unwrap();
    let lines = v.lines;
    let j = join(lines, '\n');
    let r = e.1 as int;
    let line = lines[r];
    lemma_line_in_join(lines, r);
    let ls = line_start(lines, r);
    let b = min_int(e.0 as int, line.len() as int);
    if s.1 == e.1 {
        let a = min_int(s.0 as int, line.len() as int);
        lemma_slice_piece(j, ls, line, a, b);
        assert(selection_text(lines, s, e, r) == Seq::<char>::empty());
        assert(selection_text(lines, s, e, r + 1) =~= line.subrange(a, b));
    } else {
        lemma_selection_span(lines, s, e, r);
        lemma_slice_piece(j, ls, line, 0, b);
        assert(line.subrange(0, b) =~= line.take(b));
        let prev = j.subrange(text_offset(lines, s), ls);
        assert(selection_text(lines, s, e, r + 1) == prev + line.take(b));
        lemma_slice_concat(j, text_offset(lines, s), ls, ls + b);
    }
}

proof fn lemma_join_concat(a: Seq<Seq<char>>, b: Seq<Seq<char>>, sep: char)
    requires
        a.len() >= 1,
        b.len() >= 1,
    ensures
        join(a + b, sep) == join(a, sep).push(sep) + join(b, sep),
    decreases b.len(),
{
    assert((a + b).drop_last() =~= a + b.drop_last());
    assert((a + b).last() == b.last());
    if b.len() == 1 {
        assert(a + b.drop_last() =~= a);
    } else {
        lemma_join_concat(a, b.drop_last(), sep);
        assert(join(a + b, sep) =~= join(a, sep).push(sep) + (join(b.drop_last(), sep).push(sep)
            + b.last()));
    }
}

proof fn lemma_join_prepend_first(p: Seq<Seq<char>>, pre: Seq<char>, sep: char)
    requires
        p.len() >= 1,
    ensures
        join(p.update(0, pre + p[0]), sep) == pre + join(p, sep),
    decreases p.len(),
{
    let q = p.update(0, pre + p[0]);
    if p.len() > 1 {
        lemma_join_prepend_first(p.drop_last(), pre, sep);
        assert(q.drop_last() =~= p.drop_last().update(0, pre + p.drop_last()[0]));
        assert(q.last() == p.last());
        assert(join(q, sep) =~= pre + join(p, sep));
    }
}

proof fn lemma_join_append_last(p: Seq<Seq<char>>, post: Seq<char>, sep: char)
    requires
        p.len() >= 1,
    ensures
        join(p.update(p.len() - 1, p.last() + post), sep) == join(p, sep) + post,
{
    let q = p.update(p.len() - 1, p.last() + post);
    if p.len() > 1 {
        assert(q.drop_last() =~= p.drop_last());
        assert(join(q, sep) =~= join(p, sep) + post);
    }
}

/// The lines before line `y`, then `m`, then the lines after line `y`, joined.
proof fn lemma_join_around(lines: Seq<Seq<char>>, y: int, m: Seq<Seq<char>>, sep: char)
    requires
        0 <= y < lines.len(),
        m.len() >= 1,
    ensures
        join(lines.take(y) + m + lines.skip(y + 1), sep) == (if y == 0 {
            Seq::<char>::empty()
        } else {
            join(lines.take(y), sep).push(sep)
        }) + join(m, sep) + (if y + 1 < lines.len() {
            seq![sep] + join(lines.skip(y + 1), sep)
        } else {
            Seq::<char>::empty()
        }),
{
    let t = lines.take(y);
    let u = lines.skip(y + 1);
    let tm = t + m;
    if y == 0 {
        assert(tm =~= m);
    } else {
        lemma_join_concat(t, m, sep);
    }
    if y + 1 < lines.len() {
        lemma_join_concat(tm, u, sep);
        assert(join(tm, sep).push(sep) + join(u, sep) =~= join(tm, sep) + (seq![sep] + join(u, sep)));
    } else {
        assert(tm + u =~= tm);
        assert(join(tm, sep) + Seq::<char>::empty() =~= join(tm, sep));
    }
    if y == 0 {
        assert(Seq::<char>::empty() + join(m, sep) =~= join(m, sep));
    }
}

/// The pieces `p` with `pre` before the first and `post` after the last, as a paste splices
/// them into a line.
spec fn framed(p: Seq<Seq<char>>, pre: Seq<char>, post: Seq<char>) -> Seq<Seq<char>> {
    let p1 = p.update(0, pre + p[0]);
    p1.update(p.len() - 1, p1[p.len() - 1] + post)
}

proof fn lemma_framed(p: Seq<Seq<char>>, pre: Seq<char>, post: Seq<char>)
    requires
        p.len() >= 1,
    ensures
        framed(p, pre, post).len() == p.len(),
        join(framed(p, pre, post), '\n') == pre + join(p, '\n') + post,
{
    let m = p.len();
    let p1 = p.update(0, pre + p[0]);
    lemma_join_prepend_first(p, pre, '\n');
    lemma_join_append_last(p1, post, '\n');
    assert(p1.last() == p1[m - 1]);
    assert(join(framed(p, pre, post), '\n') =~= pre + join(p, '\n') + post);
}

proof fn lemma_spliced_is_framed(lines: Seq<Seq<char>>, x: int, y: int, p: Seq<Seq<char>>)
    requires
        0 <= y < lines.len(),
        p.len() >= 1,
    ensures
        spliced_lines(lines, x, y, p) == lines.take(y) + framed(p, before_byte(lines[y], x), from_byte(
            lines[y],
            x,
        )) + lines.skip(y + 1),
{
    let pre = before_byte(lines[y], x);
    let post = from_byte(lines[y], x);
    let q = framed(p, pre, post);
    if p.len() == 1 {
        assert(spliced_lines(lines, x, y, p) =~= lines.take(y) + q + lines.skip(y + 1));
    } else {
        assert(q =~= seq![pre + p[0]] + p.subrange(1, p.len() - 1) + seq![p.last() + post]);
        assert(spliced_lines(lines, x, y, p) =~= lines.take(y) + q + lines.skip(y + 1));
    }
}

proof fn lemma_splice_text(a: Seq<char>, pre: Seq<char>, post: Seq<char>, b: Seq<char>, m: Seq<char>)
    ensures
        ({
            let j = a + (pre + post) + b;
            let o: int = (a.len() + pre.len()) as int;
            &&& 0 <= o <= j.len()
            &&& a + (pre + m + post) + b == j.take(o) + m + j.skip(o)
        }),
{
    let j = a + (pre + post) + b;
    let o: int = (a.len() + pre.len()) as int;
    assert(j.take(o) =~= a + pre);
    assert(j.skip(o) =~= post + b);
    assert(a + (pre + m + post) + b =~= (a + pre) + m + (post + b));
}

/// The lines joined by `sep`, around line `y`: what comes before it, then the line, then what
/// comes after it.
spec fn before_line(lines: Seq<Seq<char>>, y: int, sep: char) -> Seq<char> {
    if y == 0 {
        Seq::<char>::empty()
    } else {
        join(lines.take(y), sep).push(sep)
    }
}

spec fn after_line(lines: Seq<Seq<char>>, y: int, sep: char) -> Seq<char> {
    if y + 1 < lines.len() {
        seq![sep] + join(lines.skip(y + 1), sep)
    } else {
        Seq::<char>::empty()
    }
}

#[verifier::spinoff_prover]
proof fn lemma_spliced_join(lines: Seq<Seq<char>>, x: int, y: int, p: Seq<Seq<char>>)
    requires
        0 <= y < lines.len(),
        is_boundary(lines[y], x),
        p.len() >= 1,
    ensures
        ({
            let j = join(lines, '\n');
            let o = line_start(lines, y) + char_index(lines[y], x);
            &&& 0 <= o <= j.len()
            &&& join(spliced_lines(lines, x, y, p), '\n') == j.take(o) + join(p, '\n') + j.skip(o)
        }),
{
    let row = lines[y];
    lemma_boundary_bound(row, x);
    let pre = before_byte(row, x);
    let post = from_byte(row, x);
    assert(pre + post =~= row);
    assert(pre.len() == char_index(row, x));
    let q = framed(p, pre, post);
    lemma_framed(p, pre, post);
    lemma_spliced_is_framed(lines, x, y, p);
    let a = before_line(lines, y, '\n');
    let b = after_line(lines, y, '\n');
    lemma_join_around(lines, y, q, '\n');
    assert(join(spliced_lines(lines, x, y, p), '\n') == a + (pre + join(p, '\n') + post) + b);
    lemma_join_around(lines, y, seq![row], '\n');
    assert(lines.take(y) + seq![row] + lines.skip(y + 1) =~= lines);
    assert(join(lines, '\n') == a + (pre + post) + b);
    assert(a.len() == line_start(lines, y));
    lemma_splice_text(a, pre, post, b, join(p, '\n'));
}

/// A paste puts the pasted lines, joined by `'\n'`, into the document's lines joined by
/// `'\n'`, at the cursor (a cursor past the end of its line standing for its end), when the
/// cursor is on a line and that position is a character boundary (the paste panics otherwise).
pub proof fn law_paste_inserts_into_joined_text(v: AppView, text: Seq<char>)
    requires
        v.cursor_y < v.lines.len(),
        is_boundary(
            v.lines[v.cursor_y as int],
            paste_column(v.lines[v.cursor_y as int], v.cursor_x as int),
        ),
    ensures
        ({
            let j = join(v.lines, '\n');
            let row = v.lines[v.cursor_y as int];
            let o = line_start(v.lines, v.cursor_y as int) + char_index(
                row,
                paste_column(row, v.cursor_x as int),
            );
            &&& 0 <= o <= j.len()
            &&& join(v.paste(text).lines, '\n') == j.take(o) + join(paste_pieces(text), '\n') + j.skip(o)
        }),
{
    let y = v.cursor_y as int;
    let x = paste_column(v.lines[y], v.cursor_x as int);
    crate::text::lemma_split_on_nonempty(text, '\n');
    assert(v.paste(text).lines == spliced_lines(v.lines, x, y, paste_pieces(text)));
    lemma_spliced_join(v.lines, x, y, paste_pieces(text));
}

/// The number of times `c` occurs in `s`.
pub open spec fn count_char(s: Seq<char>, c: char) -> nat
    decreases s.len(),
{
    if s.len() == 0 {
        0
    } else {
        count_char(s.drop_last(), c) + if s.last() == c {
            1nat
        } else {
            0nat
        }
    }
}

proof fn lemma_split_count(s: Seq<char>, c: char)
    ensures
        split_on(s, c).len() == count_char(s, c) + 1,
    decreases s.len(),
{
    if s.len() > 0 {
        lemma_split_count(s.drop_last(), c);
    }
}

/// A paste leaves the cursor right after the pasted text: on its start line moved down by the
/// number of line breaks pasted, at a character boundary with the pasted text's last line (after
/// the part of the start line before the cursor, when nothing but one line was pasted) just
/// before it and the rest of the start line just after it. The column is the old column plus the
/// pasted length for a one-line paste, else the length of the last pasted line. This holds when
/// the cursor is on a line, the paste can be done, fewer than 65536 line breaks are pasted and the
/// last pasted line fits a column (the original's casts truncate otherwise); for a one-line
/// paste the cursor must also lie within its line for the boundary facts.
pub proof fn law_paste_leaves_cursor_after_text(v: AppView, text: Seq<char>)
    requires
        v.cursor_y < v.lines.len(),
        v.paste_ok(text),
        count_char(text, '\n') <= u16::MAX,
        byte_len(trim_cr(split_on(text, '\n').last())) <= u16::MAX,
    ensures
        ({
            let r = v.paste(text);
            let n = count_char(text, '\n');
            let row = v.lines[v.cursor_y as int];
            let x = paste_column(row, v.cursor_x as int);
            let last = trim_cr(split_on(text, '\n').last());
            &&& r.cursor_y == v.cursor_y + n
            &&& r.cursor_y < r.lines.len()
            &&& n == 0 ==> r.cursor_x == v.cursor_x + byte_len(last)
            &&& n > 0 ==> r.cursor_x == byte_len(last)
            &&& (n > 0 || v.cursor_x <= byte_len(row)) ==> {
                &&& is_boundary(r.lines[r.cursor_y as int], r.cursor_x as int)
                &&& before_byte(r.lines[r.cursor_y as int], r.cursor_x as int) == if n == 0 {
                    before_byte(row, x) + last
                } else {
                    last
                }
                &&& from_byte(r.lines[r.cursor_y as int], r.cursor_x as int) == from_byte(row, x)
            }
        }),
{
    let y = v.cursor_y as int;
    let row = v.lines[y];
    let x = paste_column(row, v.cursor_x as int);
    let p = paste_pieces(text);
    let k = p.len();
    lemma_split_count(text, '\n');
    let last = trim_cr(split_on(text, '\n').last());
    assert(p.last() == last);
    lemma_boundary_bound(row, x);
    let pre = before_byte(row, x);
    let post = from_byte(row, x);
    let q = framed(p, pre, post);
    lemma_framed(p, pre, post);
    lemma_spliced_is_framed(v.lines, x, y, p);
    let r = v.paste(text);
    assert(r.lines == spliced_lines(v.lines, x, y, p));
    assert(r.lines == v.lines.take(y) + q + v.lines.skip(y + 1));
    let line = r.lines[y + k - 1];
    assert(line == q[k - 1]);
    if k == 1 {
        assert(line == pre + p[0] + post);
        if v.cursor_x <= byte_len(row) {
            assert(x == v.cursor_x);
            let c = (pre.len() + p[0].len()) as int;
            lemma_char_index(line, c);
            assert(line.take(c) =~= pre + p[0]);
            assert(line.skip(c) =~= post);
            lemma_byte_len_concat(pre, p[0]);
        }
    } else {
        let p1 = p.update(0, pre + p[0]);
        assert(p1[k - 1] == p.last());
        assert(line == p.last() + post);
        let c = p.last().len() as int;
        lemma_char_index(line, c);
        assert(line.take(c) =~= p.last());
        assert(line.skip(c) =~= post);
    }
}

/// Opening a document puts its lines and its path in the editor with the cursor at the start of
/// its first line and the view at the top, the editor pane taking the keys; what is typed then
/// goes to the start of the first line.
pub proof fn law_open_document_starts_at_top(v: AppView, lines: Seq<Seq<char>>, path: Option<Seq<char>>, c: char)
    ensures
        ({
            let r = v.open_document(lines, path);
            &&& r.lines == lines && r.path == path
            &&& r.cursor_x == 0 && r.cursor_y == 0
            &&& r.scroll_x == 0 && r.scroll_y == 0
            &&& r.focus == crate::engine::app::AppFocus::Editor
            &&& lines.len() >= 1 ==> r.cursor_y < r.lines.len()
                && r.insert_char(c).lines == lines.update(0, seq![c] + lines[0])
        }),
{
    if lines.len() >= 1 {
        lemma_char_index(lines[0], 0);
        assert(lines[0].take(0) =~= Seq::<char>::empty());
        assert(lines[0].skip(0) =~= lines[0]);
        crate::text::lemma_byte_len_empty();
        assert(Seq::<char>::empty().push(c) + lines[0] =~= seq![c] + lines[0]);
    }
}

} // verus!
