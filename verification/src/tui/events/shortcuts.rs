use vstd::prelude::*;
use crate::engine::app::{App, AppFocus, AppMode, AppView, Effect, EffectView, ModeView, effect_view};
use crate::text::texts;
use crate::tui::events::KeyCode;

verus! {

impl AppView {
    /// What a Ctrl shortcut leaves to the caller: in the editor pane, Ctrl+S saves, Ctrl+C copies
    /// the selection (or else the cursor's line, when there is one), Ctrl+V pastes.
    pub open spec fn shortcut_effect(self, code: KeyCode) -> EffectView {
        if self.mode == ModeView::Editor && self.focus == AppFocus::Editor {
            match code {
                KeyCode::Char(c) => if c == 's' {
                    EffectView::Save
                } else if c == 'c' {
                    match self.selected_text() {
                        Some(t) => EffectView::Copy(t),
                        None => if self.cursor_y < self.lines.len() {
                            EffectView::Copy(self.lines[self.cursor_y as int])
                        } else {
                            EffectView::Nothing
                        },
                    }
                } else if c == 'v' {
                    EffectView::Paste
                } else {
                    EffectView::Nothing
                },
                _ => EffectView::Nothing,
            }
        } else {
            EffectView::Nothing
        }
    }

    /// A Ctrl shortcut: in the editor pane, Ctrl+Z undoes; nothing else changes the state.
    pub open spec fn handle_ctrl_shortcut(self, code: KeyCode) -> AppView {
        if self.mode == ModeView::Editor && self.focus == AppFocus::Editor && code == KeyCode::Char('z') {
            self.undo()
        } else {
            self
        }
    }
}

/// Reacts to a key pressed with Ctrl (see `AppView::handle_ctrl_shortcut` and
/// `AppView::shortcut_effect`); returns the file-system or clipboard work it leaves to the
/// caller.
pub fn handle_ctrl_shortcut(app: &mut App, code: KeyCode) -> (effect: Effect)
    ensures
        final(app)@ == old(app)@.handle_ctrl_shortcut(code),
        effect_view(effect) == old(app)@.shortcut_effect(code),
        old(app).wf() ==> final(app).wf(),
{
    if let AppMode::Editor = app.mode {
        if let AppFocus::Editor = app.focus {
            match code {
                KeyCode::Char('s') => {
                    return Effect::Save;
                },
                KeyCode::Char('z') => {
                    app.undo();
                    return Effect::Nothing;
                },
                KeyCode::Char('c') => {
                    if let Some(selected_text) = app.get_selected_text() {
                        return Effect::Copy(selected_text);
                    } else if (app.cursor_y as usize) < app.document.rows.len() {
                        assert(texts(app.document.rows@)[app.cursor_y as int]
                            == app.document.rows@[app.cursor_y as int]@);
                        return Effect::Copy(app.document.rows[app.cursor_y as usize].clone());
                    } else {
                        return Effect::Nothing;
                    }
                },
                KeyCode::Char('v') => {
                    return Effect::Paste;
                },
                _ => {
                    return Effect::Nothing;
                },
            }
        }
    }
    Effect::Nothing
}

} // verus!
