use vstd::prelude::*;
use crate::engine::app::{App, AppFocus, AppMode, AppView, ModeView};
use crate::text::{decimal, decimal_text};

verus! {

/// The name of the mode shown in the status bar.
pub open spec fn mode_label(m: ModeView) -> Seq<char> {
    match m {
        ModeView::Editor => "EDITOR"@,
        ModeView::Menu => "MENU"@,
        ModeView::Settings(_) => "SETTINGS"@,
        ModeView::PromptFile(_) | ModeView::PromptDir(_) => "INPUT"@,
    }
}

/// The status bar: mode, file (or `Untitled`) and cursor position counted from 1.
pub open spec fn status_line(v: AppView) -> Seq<char> {
    mode_label(v.mode) + " | "@ + (match v.path {
        Some(p) => p,
        None => "Untitled"@,
    }) + " | Ln "@ + decimal((v.cursor_y + 1) as nat) + ", Col "@ + decimal((v.cursor_x + 1) as nat)
}

/// The shortcuts shown in the help bar for the mode and the focused pane.
pub open spec fn help_line(m: ModeView, f: AppFocus) -> Seq<char> {
    match m {
        ModeView::Editor => if f == AppFocus::Explorer {
            "Tab: Focus Editor | Enter: Open | N: New File | D: New Dir"@
        } else {
            "Ctrl+S: Save | Ctrl+C: Copy Line | Ctrl+V: Paste | Tab: Focus Explorer"@
        },
        ModeView::Menu => "Enter: Select | Esc: Back | Up/Down: Navigate"@,
        ModeView::Settings(_) => "Enter: Toggle | Esc: Back | Up/Down: Navigate"@,
        ModeView::PromptFile(_) | ModeView::PromptDir(_) => "Enter: Submit | Esc: Cancel"@,
    }
}

/// The name of the mode shown in the status bar.
pub fn status_mode(mode: &AppMode) -> (s: &'static str)
    ensures
        s@ == mode_label(crate::engine::app::mode_view(*mode)),
{
    match mode {
        AppMode::Editor => "EDITOR",
        AppMode::Menu => "MENU",
        AppMode::Settings(_) => "SETTINGS",
        AppMode::PromptFile(_) | AppMode::PromptDir(_) => "INPUT",
    }
}

/// The text of the status bar.
pub fn status_text(app: &App) -> (r: String)
    requires
        app.cursor_x < u16::MAX,
        app.cursor_y < u16::MAX,
    ensures
        r@ == status_line(app@),
{
    let mut r = String::from_str(status_mode(&app.mode));
    r.append(" | ");
    match &app.document.path {
        Some(p) => r.append(p.as_str()),
        None => r.append("Untitled"),
    }
    r.append(" | Ln ");
    r.append(decimal_text((app.cursor_y + 1) as u64).as_str());
    r.append(", Col ");
    r.append(decimal_text((app.cursor_x + 1) as u64).as_str());
    r
}

/// The text of the help bar.
pub fn help_text(app: &App) -> (r: String)
    ensures
        r@ == help_line(app@.mode, app.focus),
{
    match &app.mode {
        AppMode::Editor => match app.focus {
            AppFocus::Explorer => String::from_str("Tab: Focus Editor | Enter: Open | N: New File | D: New Dir"),
            AppFocus::Editor => String::from_str("Ctrl+S: Save | Ctrl+C: Copy Line | Ctrl+V: Paste | Tab: Focus Explorer"),
        },
        AppMode::Menu => String::from_str("Enter: Select | Esc: Back | Up/Down: Navigate"),
        AppMode::Settings(_) => String::from_str("Enter: Toggle | Esc: Back | Up/Down: Navigate"),
        AppMode::PromptFile(_) | AppMode::PromptDir(_) => String::from_str("Enter: Submit | Esc: Cancel"),
    }
}

} // verus!
