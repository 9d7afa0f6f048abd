use vstd::prelude::*;
use crate::engine::app::{AppFocus, AppView, EffectView, ModeView};
use crate::engine::app::cursor::{line_number_width, sat_sub};
use crate::engine::app::editor::min_int;
use crate::text::{byte_len, join};
use crate::laws::{law_selected_text_is_joined_text, text_offset};
use crate::tui::app::{AppFocus as TermFocus, AppState, ModeState};
use crate::tui::events::{Event, KeyCode, KeyEvent, MouseButton, MouseEvent, MouseEventKind};
use crate::tui::ui::editor::cursor_cell;
use crate::tui::ui::layout_helpers::{Rect, inside};

verus! {

/// The line a position on text line `ty` lands on in a document of `n >= 1` lines: `ty`, or the
/// last line when there is no line `ty`.
pub open spec fn landing_line(n: int, ty: int) -> int {
    if ty < n {
        ty
    } else {
        n - 1
    }
}

/// Every line is at most `u16::MAX` bytes long, so that a column within a line fits the cursor.
pub open spec fn short_lines(lines: Seq<Seq<char>>) -> bool {
    forall|i: int| 0 <= i < lines.len() ==> byte_len(#[trigger] lines[i]) <= u16::MAX
}

/// A left click inside the editor pane's border (in the editing mode, off the explorer pane)
/// puts the cursor on the text shown under the clicked cell: the clicked cell's row, counted
/// from the pane's first text row and shifted by the vertical scroll, is the cursor's line
/// (the last line when the click is below the text); the clicked column, shifted by the
/// horizontal scroll and less the line numbers' width, is its column, at most the line's end.
/// The view does not move, the editor pane takes the keys and the selection is cleared. When the
/// click lands on text, the terminal cursor is then drawn in the clicked cell.
pub proof fn law_click_puts_cursor_under_pointer(
    v: AppView,
    ev: MouseEvent,
    explorer_area: Rect,
    editor_area: Rect,
    popup: Option<Rect>,
)
    requires
        v.mouse_ok(ev, explorer_area, editor_area, popup),
        ev.kind == MouseEventKind::Down(MouseButton::Left),
        v.mode == ModeView::Editor,
        !explorer_area.holds(ev.column, ev.row),
        inside(editor_area, ev.column, ev.row),
        short_lines(v.lines),
    ensures
        ({
            let r = v.handle_mouse(ev, explorer_area, editor_area, popup).0;
            let n = v.lines.len() as int;
            let tx = ev.column - (editor_area.x + 1) + v.scroll_x;
            let ty = ev.row - (editor_area.y + 1) + v.scroll_y;
            let off = line_number_width(v.show_line_numbers) as int;
            &&& r.cursor_y == landing_line(n, ty)
            &&& r.cursor_x == min_int(sat_sub(tx, off), byte_len(v.lines[landing_line(n, ty)]) as int)
            &&& r.lines == v.lines
            &&& r.scroll_x == v.scroll_x && r.scroll_y == v.scroll_y
            &&& r.focus == AppFocus::Editor
            &&& r.selection_start is None
            &&& (editor_area == v.editor_area && ev.column - (editor_area.x + 1) >= off && ty < n && tx - off
                <= byte_len(v.lines[ty])) ==> cursor_cell(r) == Some((ev.column, ev.row))
        }),
{
    let n = v.lines.len() as int;
    let ty = ev.row - (editor_area.y + 1) + v.scroll_y;
    assert(byte_len(v.lines[landing_line(n, ty)]) <= u16::MAX);
}

/// A left drag inside the editor pane's border, with the editor pane taking the keys, keeps the
/// selection's anchor when there is one, and else anchors the selection at the cursor; the
/// cursor goes to the text under the dragged-to cell (as for a click). Elsewhere a drag changes
/// nothing.
pub proof fn law_drag_keeps_anchor(
    v: AppView,
    ev: MouseEvent,
    explorer_area: Rect,
    editor_area: Rect,
    popup: Option<Rect>,
)
    requires
        v.mouse_ok(ev, explorer_area, editor_area, popup),
        ev.kind == MouseEventKind::Drag(MouseButton::Left),
        short_lines(v.lines),
    ensures
        ({
            let r = v.handle_mouse(ev, explorer_area, editor_area, popup).0;
            let n = v.lines.len() as int;
            let tx = ev.column - (editor_area.x + 1) + v.scroll_x;
            let ty = ev.row - (editor_area.y + 1) + v.scroll_y;
            let off = line_number_width(v.show_line_numbers) as int;
            &&& v.focus == AppFocus::Editor && inside(editor_area, ev.column, ev.row) ==> {
                &&& v.selection_start is Some ==> r.selection_start == v.selection_start
                &&& v.selection_start is None ==> r.selection_start == Some((v.cursor_x, v.cursor_y))
                &&& r.cursor_y == landing_line(n, ty)
                &&& r.cursor_x == min_int(sat_sub(tx, off), byte_len(v.lines[landing_line(n, ty)]) as int)
                &&& r.lines == v.lines
                &&& r.scroll_x == v.scroll_x && r.scroll_y == v.scroll_y
            }
            &&& !(v.focus == AppFocus::Editor && inside(editor_area, ev.column, ev.row)) ==> r == v
        }),
{
    let n = v.lines.len() as int;
    let ty = ev.row - (editor_area.y + 1) + v.scroll_y;
    if v.focus == AppFocus::Editor && inside(editor_area, ev.column, ev.row) {
        assert(byte_len(v.lines[landing_line(n, ty)]) <= u16::MAX);
    }
}

/// In the explorer pane, Down moves the selection one entry down unless it is on the last
/// entry, and Up one entry up unless it is on the first; the listing and the document stay as
/// they are.
pub proof fn law_explorer_keys_move_selection(v: AppView)
    requires
        v.mode == ModeView::Editor,
        v.focus == AppFocus::Explorer,
        v.explorer.items.len() <= usize::MAX,
    ensures
        ({
            let down = v.handle_key(KeyCode::Down).0;
            let up = v.handle_key(KeyCode::Up).0;
            let s = v.explorer.selected as int;
            &&& down.explorer.selected == if s + 1 < v.explorer.items.len() { s + 1 } else { s }
            &&& up.explorer.selected == if s > 0 { s - 1 } else { s }
            &&& down.explorer.items == v.explorer.items && up.explorer.items == v.explorer.items
            &&& down.lines == v.lines && up.lines == v.lines
            &&& down.cursor_x == v.cursor_x && down.cursor_y == v.cursor_y
            &&& up.cursor_x == v.cursor_x && up.cursor_y == v.cursor_y
        }),
{
}

/// In the editor of `tui::app`, in the explorer pane, Down moves the selection one entry down
/// unless it is on the last entry, and Up one entry up unless it is on the first; the listing
/// and the document stay as they are.
pub proof fn law_terminal_explorer_keys_move_selection(v: AppState)
    requires
        v.mode == ModeState::Editor,
        v.focus == TermFocus::Explorer,
        v.explorer.items.len() <= usize::MAX,
    ensures
        ({
            let down = v.handle_event(Event::Key(KeyEvent { code: KeyCode::Down, ctrl: false })).0;
            let up = v.handle_event(Event::Key(KeyEvent { code: KeyCode::Up, ctrl: false })).0;
            let s = v.explorer.selected as int;
            &&& down.explorer.selected == if s + 1 < v.explorer.items.len() { s + 1 } else { s }
            &&& up.explorer.selected == if s > 0 { s - 1 } else { s }
            &&& down.explorer.items == v.explorer.items && up.explorer.items == v.explorer.items
            &&& down.lines == v.lines && up.lines == v.lines
            &&& down.cursor_x == v.cursor_x && down.cursor_y == v.cursor_y
            &&& up.cursor_x == v.cursor_x && up.cursor_y == v.cursor_y
        }),
{
}

/// In the editor of `tui::app`, a left click inside the editor pane's border, with the editor
/// pane taking the keys, puts the cursor on the text shown under the clicked cell: the clicked
/// row shifted by the vertical scroll is the cursor's line (the last line when below the text),
/// the clicked column shifted by the horizontal scroll its column, at most the line's end.
pub proof fn law_terminal_click_puts_cursor_under_pointer(v: AppState, m: MouseEvent)
    requires
        v.event_ok(Event::Mouse(m)),
        m.kind == MouseEventKind::Down(MouseButton::Left),
        v.focus == TermFocus::Editor,
        inside(v.editor_area, m.column, m.row),
        short_lines(v.lines),
    ensures
        ({
            let r = v.handle_event(Event::Mouse(m)).0;
            let n = v.lines.len() as int;
            let tx = m.column - (v.editor_area.x + 1) + v.scroll_x;
            let ty = m.row - (v.editor_area.y + 1) + v.scroll_y;
            &&& r.cursor_y == landing_line(n, ty)
            &&& r.cursor_x == min_int(tx, byte_len(v.lines[landing_line(n, ty)]) as int)
            &&& r.lines == v.lines
            &&& r.focus == TermFocus::Editor
        }),
{
    let n = v.lines.len() as int;
    let ty = m.row - (v.editor_area.y + 1) + v.scroll_y;
    assert(byte_len(v.lines[landing_line(n, ty)]) <= u16::MAX);
}

/// A left click on an entry of the explorer pane (inside its border, in the editing mode)
/// selects that entry, gives the explorer pane the keys and asks the caller to open it; the
/// entry is the one on the clicked row, counted from the pane's first row inside the border.
pub proof fn law_explorer_click_opens_entry(
    v: AppView,
    ev: MouseEvent,
    explorer_area: Rect,
    editor_area: Rect,
    popup: Option<Rect>,
)
    requires
        v.mouse_ok(ev, explorer_area, editor_area, popup),
        ev.kind == MouseEventKind::Down(MouseButton::Left),
        v.mode == ModeView::Editor,
        explorer_area.holds(ev.column, ev.row),
        explorer_area.y + 1 <= ev.row < explorer_area.y + explorer_area.height - 1,
        ev.row - (explorer_area.y + 1) < v.explorer.items.len(),
    ensures
        ({
            let (r, e) = v.handle_mouse(ev, explorer_area, editor_area, popup);
            let i = ev.row - (explorer_area.y + 1);
            &&& r.explorer.selected == i
            &&& r.explorer.items == v.explorer.items
            &&& r.focus == AppFocus::Explorer
            &&& e == EffectView::Open(v.explorer.items[i])
            &&& r.lines == v.lines
        }),
{
}

/// The mouse wheel scrolls the editor pane by one line (not past the ends of `u16`) when the
/// editor pane has the keys, and else changes nothing; the cursor stays where it is.
pub proof fn law_wheel_scrolls_by_a_line(
    v: AppView,
    ev: MouseEvent,
    explorer_area: Rect,
    editor_area: Rect,
    popup: Option<Rect>,
)
    requires
        v.mouse_ok(ev, explorer_area, editor_area, popup),
        ev.kind == MouseEventKind::ScrollDown || ev.kind == MouseEventKind::ScrollUp,
    ensures
        ({
            let r = v.handle_mouse(ev, explorer_area, editor_area, popup).0;
            &&& v.focus == AppFocus::Editor && ev.kind == MouseEventKind::ScrollDown ==> r.scroll_y == if v.scroll_y
                < u16::MAX { v.scroll_y + 1 } else { v.scroll_y as int }
            &&& v.focus == AppFocus::Editor && ev.kind == MouseEventKind::ScrollUp ==> r.scroll_y == if v.scroll_y
                > 0 { v.scroll_y - 1 } else { 0 }
            &&& v.focus != AppFocus::Editor ==> r == v
            &&& r.cursor_x == v.cursor_x && r.cursor_y == v.cursor_y && r.lines == v.lines
            &&& r.scroll_x == v.scroll_x
        }),
{
}

/// A left click on line `i` of the open main menu (inside the popup's border) selects entry
/// `i` and runs it: entry 2 asks the caller to save, no other entry does.
pub proof fn law_menu_click_runs_entry(
    v: AppView,
    ev: MouseEvent,
    explorer_area: Rect,
    editor_area: Rect,
    p: Rect,
)
    requires
        v.mouse_ok(ev, explorer_area, editor_area, Some(p)),
        ev.kind == MouseEventKind::Down(MouseButton::Left),
        v.mode == ModeView::Menu,
        p.holds(ev.column, ev.row),
        p.y + 1 <= ev.row < p.y + p.height - 1,
        ev.row - (p.y + 1) < v.menu.len(),
    ensures
        ({
            let (r, e) = v.handle_mouse(ev, explorer_area, editor_area, Some(p));
            let i = ev.row - (p.y + 1);
            &&& r.menu_selection == i
            &&& (e == EffectView::Save) == (i == 2)
            &&& e != EffectView::Save ==> e == EffectView::Nothing
            &&& r.lines == v.lines
        }),
{
}

/// Tab gives the keys to the other pane and changes nothing else.
pub proof fn law_tab_switches_panes(v: AppView)
    requires
        v.mode == ModeView::Editor,
    ensures
        ({
            let r = v.handle_key(KeyCode::Tab).0;
            &&& r.focus != v.focus
            &&& r == AppView { focus: r.focus, ..v }
        }),
{
}

/// In the editor pane, the arrow keys move the cursor by one line or one column: Up and Down
/// stop at the first and last line, Left and Right at the start and end of the line, and after
/// a vertical move the column is at most the new line's end; the selection is cleared and the
/// lines stay as they are. (Positions and line lengths below `i16::MAX`, where the original's
/// `i16` arithmetic holds.)
pub proof fn law_arrow_keys_move_cursor(v: AppView)
    requires
        v.mode == ModeView::Editor,
        v.focus == AppFocus::Editor,
        v.cursor_y < v.lines.len(),
        v.cursor_x < i16::MAX,
        v.cursor_y < i16::MAX,
        forall|i: int| 0 <= i < v.lines.len() ==> byte_len(#[trigger] v.lines[i]) <= i16::MAX,
    ensures
        ({
            let n = v.lines.len() as int;
            let (x, y) = (v.cursor_x as int, v.cursor_y as int);
            let up = v.handle_key(KeyCode::Up).0;
            let down = v.handle_key(KeyCode::Down).0;
            let left = v.handle_key(KeyCode::Left).0;
            let right = v.handle_key(KeyCode::Right).0;
            &&& up.cursor_y == if y > 0 { y - 1 } else { 0 }
            &&& up.cursor_x == min_int(x, byte_len(v.lines[up.cursor_y as int]) as int)
            &&& down.cursor_y == if y + 1 < n { y + 1 } else { y }
            &&& down.cursor_x == min_int(x, byte_len(v.lines[down.cursor_y as int]) as int)
            &&& left.cursor_y == y && left.cursor_x == min_int(sat_sub(x, 1), byte_len(v.lines[y]) as int)
            &&& right.cursor_y == y && right.cursor_x == min_int(x + 1, byte_len(v.lines[y]) as int)
            &&& up.lines == v.lines && down.lines == v.lines && left.lines == v.lines && right.lines == v.lines
            &&& up.selection_start is None && down.selection_start is None
            &&& left.selection_start is None && right.selection_start is None
        }),
{
    let y = v.cursor_y as int;
    assert(byte_len(v.lines[y]) <= i16::MAX);
    if y > 0 {
        assert(byte_len(v.lines[y - 1]) <= i16::MAX);
    }
    if y + 1 < v.lines.len() {
        assert(byte_len(v.lines[y + 1]) <= i16::MAX);
    }
}

/// Ctrl+C in the editor pane copies the selection, which is the part of the lines joined by
/// `'\n'` between its two ends when both lie on lines; with no selection it copies the cursor's
/// line. Nothing in the editor changes.
pub proof fn law_copy_copies_selection(v: AppView)
    requires
        v.mode == ModeView::Editor,
        v.focus == AppFocus::Editor,
    ensures
        v.handle_ctrl_shortcut(KeyCode::Char('c')) == v,
        v.selection_start is None && v.cursor_y < v.lines.len() ==> v.shortcut_effect(KeyCode::Char('c'))
            == EffectView::Copy(v.lines[v.cursor_y as int]),
        ({
            let (s, e) = v.selection_bounds().unwrap();
            v.selection_start is Some && v.selection_start.unwrap().1 < v.lines.len() && v.cursor_y
                < v.lines.len() ==> v.shortcut_effect(KeyCode::Char('c')) == EffectView::Copy(
                join(v.lines, '\n').subrange(text_offset(v.lines, s), text_offset(v.lines, e)),
            )
        }),
{
    if v.selection_start is Some && v.selection_start.unwrap().1 < v.lines.len() && v.cursor_y < v.lines.len() {
        law_selected_text_is_joined_text(v);
    }
}

/// In the prompt for a new file's name, a typed character is appended to the name, Backspace
/// removes its last character, Enter asks the caller to create the file of that name and Esc
/// gives up; both go back to the editor. The document stays as it is.
pub proof fn law_prompt_edits_name(v: AppView, input: Seq<char>, c: char)
    requires
        v.mode == ModeView::PromptFile(input),
    ensures
        v.handle_key(KeyCode::Char(c)).0.mode == ModeView::PromptFile(input.push(c)),
        input.len() > 0 ==> v.handle_key(KeyCode::Backspace).0.mode == ModeView::PromptFile(input.drop_last()),
        v.handle_key(KeyCode::Enter).1 == EffectView::CreateFile(input),
        v.handle_key(KeyCode::Enter).0.mode == ModeView::Editor,
        v.handle_key(KeyCode::Esc).1 == EffectView::Nothing,
        v.handle_key(KeyCode::Esc).0.mode == ModeView::Editor,
        v.handle_key(KeyCode::Char(c)).0.lines == v.lines,
        v.handle_key(KeyCode::Enter).0.lines == v.lines,
{
}

} // verus!
