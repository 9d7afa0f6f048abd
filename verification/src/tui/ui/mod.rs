pub mod editor;
pub mod footer;
pub mod layout_helpers;
pub mod popup;
pub mod sidebar;

use vstd::prelude::*;
use crate::engine::app::cursor::sat_sub;
use crate::explorer::{file_name_of, path_file_name};
use crate::text::{decimal, decimal_text};
use crate::tui::app::{App, AppFocus, AppMode, AppState, ModeState};

verus! {

/// Which of the areas below the panes the status bar and the help bar take: they follow the
/// panes' area (number 0) in that order, each when shown.
pub fn bar_slots(show_status_bar: bool, show_help_bar: bool) -> (r: (Option<usize>, Option<usize>))
    ensures
        r.0 == if show_status_bar { Some(1usize) } else { None::<usize> },
        r.1 == if show_help_bar { Some(if show_status_bar { 2usize } else { 1usize }) } else { None::<usize> },
{
    let mut next: usize = 1;
    let status = if show_status_bar {
        next = 2;
        Some(1)
    } else {
        None
    };
    let help = if show_help_bar { Some(next) } else { None };
    (status, help)
}

/// The name of the mode shown in the status bar of the editor of `tui::app`.
pub open spec fn plain_mode_label(m: ModeState) -> Seq<char> {
    match m {
        ModeState::Editor => "EDITOR"@,
        ModeState::Menu => "MENU"@,
        ModeState::PromptFile(_) | ModeState::PromptDir(_) => "INPUT"@,
    }
}

/// The status bar of the editor of `tui::app`: mode, file (or `Untitled`) and cursor position
/// counted from 1.
pub open spec fn plain_status_line(v: AppState) -> Seq<char> {
    plain_mode_label(v.mode) + " | "@ + (match v.path {
        Some(p) => p,
        None => "Untitled"@,
    }) + " | Ln "@ + decimal((v.cursor_y + 1) as nat) + ", Col "@ + decimal((v.cursor_x + 1) as nat)
}

/// The shortcuts shown in the help bar of the editor of `tui::app`.
pub open spec fn plain_help_line(m: ModeState, f: AppFocus) -> Seq<char> {
    match m {
        ModeState::Editor => if f == AppFocus::Explorer {
            "Tab: Focus Editor | Enter: Open | n: New File | d: New Dir"@
        } else {
            "Ctrl+S: Save | Ctrl+C: Copy Line | Ctrl+V: Paste | Tab: Focus Explorer"@
        },
        ModeState::Menu => "Enter: Select | Esc: Back | Up/Down: Navigate"@,
        ModeState::PromptFile(_) | ModeState::PromptDir(_) => "Enter: Submit | Esc: Cancel"@,
    }
}

/// Where the terminal cursor goes in the editor of `tui::app`: at the text cursor inside the
/// editor pane's border, when editing with the keys and the cursor in view.
pub open spec fn plain_cursor_cell(v: AppState) -> Option<(u16, u16)> {
    let a = v.editor_area;
    let y_visible = v.cursor_y >= v.scroll_y && v.cursor_y < v.scroll_y + sat_sub(a.height as int, 2);
    let x_visible = v.cursor_x >= v.scroll_x && v.cursor_x < v.scroll_x + sat_sub(a.width as int, 2);
    if v.mode is Editor && v.focus == AppFocus::Editor && y_visible && x_visible {
        Some(((a.x + 1 + v.cursor_x - v.scroll_x) as u16, (a.y + 1 + v.cursor_y - v.scroll_y) as u16))
    } else {
        None
    }
}

/// How the explorer of `tui::app` lists an entry: a directory as its name in brackets, a file
/// as its name.
pub open spec fn plain_entry_name(item: Seq<char>, is_dir: bool) -> Seq<char> {
    if is_dir {
        "["@ + file_name_of(item) + "]"@
    } else {
        file_name_of(item)
    }
}

/// The text of the status bar of the editor of `tui::app`.
pub fn plain_status_text(app: &App) -> (r: String)
    requires
        app.cursor_x < u16::MAX,
        app.cursor_y < u16::MAX,
    ensures
        r@ == plain_status_line(app@),
{
    let mut r = String::from_str(match &app.mode {
        AppMode::Editor => "EDITOR",
        AppMode::Menu => "MENU",
        AppMode::PromptFile(_) | AppMode::PromptDir(_) => "INPUT",
    });
    r.append(" | ");
    match &app.document.path {
        Some(p) => r.append(p.as_str()),
        None => r.append("Untitled"),
    }
    r.append(" | Ln ");
    r.append(decimal_text((app.cursor_y + 1) as u64).as_str());
    r.append(", Col ");
    r.append(decimal_text((app.cursor_x + 1) as u64).as_str());
    r
}

/// The text of the help bar of the editor of `tui::app`.
pub fn plain_help_text(app: &App) -> (r: String)
    ensures
        r@ == plain_help_line(app@.mode, app.focus),
{
    match &app.mode {
        AppMode::Editor => match app.focus {
            AppFocus::Explorer => String::from_str("Tab: Focus Editor | Enter: Open | n: New File | d: New Dir"),
            AppFocus::Editor => String::from_str("Ctrl+S: Save | Ctrl+C: Copy Line | Ctrl+V: Paste | Tab: Focus Explorer"),
        },
        AppMode::Menu => String::from_str("Enter: Select | Esc: Back | Up/Down: Navigate"),
        AppMode::PromptFile(_) | AppMode::PromptDir(_) => String::from_str("Enter: Submit | Esc: Cancel"),
    }
}

/// Where the terminal cursor goes in the editor of `tui::app` (see `plain_cursor_cell`).
pub fn plain_cursor_position(app: &App) -> (r: Option<(u16, u16)>)
    requires
        app.scroll_y + sat_sub(app.editor_area.height as int, 2) <= u16::MAX,
        app.scroll_x + sat_sub(app.editor_area.width as int, 2) <= u16::MAX,
        app.editor_area.x + 1 + app.cursor_x <= u16::MAX,
        app.editor_area.y + 1 + app.cursor_y <= u16::MAX,
    ensures
        r == plain_cursor_cell(app@),
{
    if let AppMode::Editor = app.mode {
        if let AppFocus::Editor = app.focus {
            let is_y_visible = app.cursor_y >= app.scroll_y
                && app.cursor_y < app.scroll_y + app.editor_area.height.saturating_sub(2);
            let is_x_visible = app.cursor_x >= app.scroll_x
                && app.cursor_x < app.scroll_x + app.editor_area.width.saturating_sub(2);
            if is_y_visible && is_x_visible {
                let display_x = app.editor_area.x + 1 + app.cursor_x - app.scroll_x;
                let display_y = app.editor_area.y + 1 + app.cursor_y - app.scroll_y;
                return Some((display_x, display_y));
            }
        }
    }
    None
}

/// How the explorer of `tui::app` lists an entry (see `plain_entry_name`).
pub fn plain_entry_text(item: &str, is_dir: bool) -> (r: String)
    ensures
        r@ == plain_entry_name(item@, is_dir),
{
    if is_dir {
        let mut r = String::from_str("[");
        r.append(path_file_name(item).as_str());
        r.append("]");
        r
    } else {
        path_file_name(item)
    }
}

} // verus!
