use vstd::prelude::*;
use crate::engine::app::{App, AppFocus, AppMode, AppView, ModeView};
use crate::engine::app::cursor::{line_number_width, sat_sub};
use crate::text::{decimal, decimal_text, pad_left, pad_left_text};

verus! {

/// The title of the editor pane.
pub open spec fn editor_title_text(f: AppFocus) -> Seq<char> {
    if f == AppFocus::Editor {
        " Editor (FOCUSED) "@
    } else {
        " Editor "@
    }
}

/// Line `i` (from 0) as the editor pane shows it: with its number from 1, right-aligned in three
/// columns and followed by two spaces, when line numbers are on.
pub open spec fn shown_row(i: int, row: Seq<char>, show_line_numbers: bool) -> Seq<char> {
    if show_line_numbers {
        pad_left(decimal((i + 1) as nat), 3) + "  "@ + row
    } else {
        row
    }
}

/// Where the terminal cursor goes: at the text cursor, in the editor pane, when the editor is in
/// its editing mode with the keys and the cursor is in view.
pub open spec fn cursor_cell(v: AppView) -> Option<(u16, u16)> {
    let a = v.editor_area;
    let y_visible = v.cursor_y >= v.scroll_y && v.cursor_y < v.scroll_y + sat_sub(a.height as int, 2);
    let x_visible = v.cursor_x >= v.scroll_x && v.cursor_x < v.scroll_x + sat_sub(a.width as int, 2);
    if v.mode == ModeView::Editor && v.focus == AppFocus::Editor && y_visible && x_visible {
        Some(
            (
                (a.x + 1 + v.cursor_x - v.scroll_x + line_number_width(v.show_line_numbers)) as u16,
                (a.y + 1 + v.cursor_y - v.scroll_y) as u16,
            ),
        )
    } else {
        None
    }
}

/// The title of the editor pane.
pub fn editor_title(focus: AppFocus) -> (s: &'static str)
    ensures
        s@ == editor_title_text(focus),
{
    match focus {
        AppFocus::Editor => " Editor (FOCUSED) ",
        _ => " Editor ",
    }
}

/// Line `i` as the editor pane shows it.
pub fn row_text(i: usize, row: &String, show_line_numbers: bool) -> (r: String)
    requires
        i < usize::MAX,
    ensures
        r@ == shown_row(i as int, row@, show_line_numbers),
{
    if show_line_numbers {
        let mut r = pad_left_text(decimal_text((i + 1) as u64), 3);
        r.append("  ");
        r.append(row.as_str());
        r
    } else {
        row.clone()
    }
}

/// Line `i` is shown highlighted: the active-line highlight is on, the editor pane has the keys
/// and the cursor is on that line.
pub fn is_highlighted(app: &App, i: usize) -> (b: bool)
    ensures
        b == (app.config.highlight_active_line && app.focus == AppFocus::Editor && i == app.cursor_y as usize),
{
    app.config.highlight_active_line && app.focus == AppFocus::Editor && i == app.cursor_y as usize
}

/// Where the terminal cursor goes (see `cursor_cell`).
pub fn cursor_position(app: &App) -> (r: Option<(u16, u16)>)
    requires
        app.scroll_y + sat_sub(app.editor_area.height as int, 2) <= u16::MAX,
        app.scroll_x + sat_sub(app.editor_area.width as int, 2) <= u16::MAX,
        app.editor_area.x + 1 + app.cursor_x + line_number_width(app.config.show_line_numbers) <= u16::MAX,
        app.editor_area.y + 1 + app.cursor_y <= u16::MAX,
    ensures
        r == cursor_cell(app@),
{
    if let AppMode::Editor = app.mode {
        if let AppFocus::Editor = app.focus {
            let is_y_visible = app.cursor_y >= app.scroll_y
                && app.cursor_y < app.scroll_y + app.editor_area.height.saturating_sub(2);
            let is_x_visible = app.cursor_x >= app.scroll_x
                && app.cursor_x < app.scroll_x + app.editor_area.width.saturating_sub(2);
            if is_y_visible && is_x_visible {
                let mut offset_x: u16 = 0;
                if app.config.show_line_numbers {
                    offset_x = 5;
                }
                let display_x = app.editor_area.x + 1 + app.cursor_x - app.scroll_x + offset_x;
                let display_y = app.editor_area.y + 1 + app.cursor_y - app.scroll_y;
                return Some((display_x, display_y));
            }
        }
    }
    None
}

} // verus!
