use vstd::prelude::*;
use crate::engine::app::{App, AppFocus, AppMode, AppView, Effect, EffectView, ModeView, effect_view};
use crate::text::{string_pop, string_push, texts};
use crate::tui::events::KeyCode;

verus! {

impl AppView {
    /// What a key needs: the requirements of the step it leads to.
    pub open spec fn key_ok(self, code: KeyCode) -> bool {
        match self.mode {
            ModeView::Menu => (code == KeyCode::Up || code == KeyCode::Down) ==> self.menu.len() >= 1,
            ModeView::Editor => code != KeyCode::Tab && self.focus == AppFocus::Editor ==> match code {
                KeyCode::Char(_) => self.insert_char_ok(),
                KeyCode::Backspace => self.delete_char_ok(),
                KeyCode::Enter => self.insert_newline_ok() && self.lines.len() < usize::MAX,
                KeyCode::Left => self.move_cursor_ok(-1i16, 0i16),
                KeyCode::Right => self.move_cursor_ok(1i16, 0i16),
                KeyCode::Up => self.move_cursor_ok(0i16, -1i16),
                KeyCode::Down => self.move_cursor_ok(0i16, 1i16),
                _ => true,
            },
            _ => true,
        }
    }

    /// A key typed into a name prompt: Esc cancels, Enter submits, a character is appended,
    /// Backspace removes the last character.
    pub open spec fn prompt_key(self, input: Seq<char>, code: KeyCode, is_file: bool) -> (AppView, EffectView) {
        let prompt = |s: Seq<char>| if is_file { ModeView::PromptFile(s) } else { ModeView::PromptDir(s) };
        match code {
            KeyCode::Esc => (AppView { mode: ModeView::Editor, ..self }, EffectView::Nothing),
            KeyCode::Enter => (
                AppView { mode: ModeView::Editor, ..self },
                if is_file { EffectView::CreateFile(input) } else { EffectView::CreateDir(input) },
            ),
            KeyCode::Char(c) => (AppView { mode: prompt(input.push(c)), ..self }, EffectView::Nothing),
            KeyCode::Backspace => (
                AppView {
                    mode: prompt(if input.len() > 0 { input.drop_last() } else { input }),
                    ..self
                },
                EffectView::Nothing,
            ),
            _ => (self, EffectView::Nothing),
        }
    }

    /// A key in the explorer pane: Esc opens the menu, Up and Down move the selection, Enter
    /// opens the selected entry, `n` and `d` ask for a new file's or directory's name.
    pub open spec fn explorer_key(self, code: KeyCode) -> (AppView, EffectView) {
        match code {
            KeyCode::Esc => (self.toggle_menu(), EffectView::Nothing),
            KeyCode::Up => (AppView { explorer: self.explorer.previous(), ..self }, EffectView::Nothing),
            KeyCode::Down => (AppView { explorer: self.explorer.next(), ..self }, EffectView::Nothing),
            KeyCode::Enter => (
                self,
                if self.explorer.selected < self.explorer.items.len() {
                    EffectView::Open(self.explorer.items[self.explorer.selected as int])
                } else {
                    EffectView::Nothing
                },
            ),
            KeyCode::Char(c) => if c == 'n' {
                (AppView { mode: ModeView::PromptFile(Seq::<char>::empty()), ..self }, EffectView::Nothing)
            } else if c == 'd' {
                (AppView { mode: ModeView::PromptDir(Seq::<char>::empty()), ..self }, EffectView::Nothing)
            } else {
                (self, EffectView::Nothing)
            },
            _ => (self, EffectView::Nothing),
        }
    }

    /// A key in the editor pane: Esc opens the menu, a character is typed, Backspace deletes,
    /// Enter breaks the line, the arrows move the cursor.
    pub open spec fn editor_key(self, code: KeyCode) -> AppView {
        match code {
            KeyCode::Esc => self.toggle_menu(),
            KeyCode::Char(c) => self.insert_char(c),
            KeyCode::Backspace => self.delete_char(),
            KeyCode::Enter => self.insert_newline(),
            KeyCode::Left => self.move_cursor(-1i16, 0i16),
            KeyCode::Right => self.move_cursor(1i16, 0i16),
            KeyCode::Up => self.move_cursor(0i16, -1i16),
            KeyCode::Down => self.move_cursor(0i16, 1i16),
            _ => self,
        }
    }

    /// A key pressed without Ctrl, and what it leaves to the caller.
    pub open spec fn handle_key(self, code: KeyCode) -> (AppView, EffectView) {
        match self.mode {
            ModeView::Settings(_) => (
                match code {
                    KeyCode::Esc => AppView { mode: ModeView::Menu, ..self },
                    KeyCode::Up => self.settings_up(),
                    KeyCode::Down => self.settings_down(),
                    KeyCode::Enter => self.toggle_setting(),
                    _ => self,
                },
                EffectView::Nothing,
            ),
            ModeView::PromptFile(input) => self.prompt_key(input, code, true),
            ModeView::PromptDir(input) => self.prompt_key(input, code, false),
            ModeView::Editor => if code == KeyCode::Tab {
                (
                    AppView {
                        focus: if self.focus == AppFocus::Explorer {
                            AppFocus::Editor
                        } else {
                            AppFocus::Explorer
                        },
                        ..self
                    },
                    EffectView::Nothing,
                )
            } else if self.focus == AppFocus::Explorer {
                self.explorer_key(code)
            } else {
                (self.editor_key(code), EffectView::Nothing)
            },
            ModeView::Menu => match code {
                KeyCode::Esc => (self.toggle_menu(), EffectView::Nothing),
                KeyCode::Up => (self.menu_up(), EffectView::Nothing),
                KeyCode::Down => (self.menu_down(), EffectView::Nothing),
                KeyCode::Enter => (self.execute_menu_action(), self.menu_action_effect()),
                _ => (self, EffectView::Nothing),
            },
        }
    }
}

/// A key typed into a name prompt holding `input`; returns the prompt's new text, or what to do
/// when it closes.
fn prompt_input(input: &String, code: KeyCode) -> (r: (Option<String>, Effect, bool))
    ensures
        code is Char ==> (r.0 matches Some(s) && s@ == input@.push(code->Char_0)),
        code is Backspace ==> (r.0 matches Some(s) && s@ == (if input@.len() > 0 {
            input@.drop_last()
        } else {
            input@
        })),
        !(code is Char || code is Backspace) ==> r.0 is None,
        code is Enter ==> (r.1 matches Effect::CreateFile(s) && s@ == input@),
        !(code is Enter) ==> r.1 is Nothing,
        r.2 == (code is Esc || code is Enter),
{
    match code {
        KeyCode::Esc => (None, Effect::Nothing, true),
        KeyCode::Enter => (None, Effect::CreateFile(input.clone()), true),
        KeyCode::Char(c) => {
            let mut s = input.clone();
            string_push(&mut s, c);
            (Some(s), Effect::Nothing, false)
        },
        KeyCode::Backspace => {
            let mut s = input.clone();
            string_pop(&mut s);
            (Some(s), Effect::Nothing, false)
        },
        _ => (None, Effect::Nothing, false),
    }
}

/// Reacts to a key pressed without Ctrl (see `AppView::handle_key`); returns the file-system
/// work it leaves to the caller.
pub fn handle_key(app: &mut App, code: KeyCode) -> (effect: Effect)
    requires
        old(app)@.key_ok(code),
    ensures
        final(app)@ == old(app)@.handle_key(code).0,
        effect_view(effect) == old(app)@.handle_key(code).1,
{
    match &app.mode {
        AppMode::Settings(_) => {
            match code {
                KeyCode::Esc => app.mode = AppMode::Menu,
                KeyCode::Up => app.settings_up(),
                KeyCode::Down => app.settings_down(),
                KeyCode::Enter => app.toggle_setting(),
                _ => {},
            }
            Effect::Nothing
        },
        AppMode::PromptFile(input) => {
            let (text, effect, close) = prompt_input(input, code);
            if close {
                app.mode = AppMode::Editor;
            } else if let Some(s) = text {
                app.mode = AppMode::PromptFile(s);
            }
            effect
        },
        AppMode::PromptDir(input) => {
            let (text, effect, close) = prompt_input(input, code);
            let effect = match effect {
                Effect::CreateFile(s) => Effect::CreateDir(s),
                e => e,
            };
            if close {
                app.mode = AppMode::Editor;
            } else if let Some(s) = text {
                app.mode = AppMode::PromptDir(s);
            }
            effect
        },
        AppMode::Editor => {
            if code == KeyCode::Tab {
                app.focus = match app.focus {
                    AppFocus::Explorer => AppFocus::Editor,
                    AppFocus::Editor => AppFocus::Explorer,
                };
                Effect::Nothing
            } else {
                match app.focus {
                    AppFocus::Explorer => match code {
                        KeyCode::Esc => {
                            app.toggle_menu();
                            Effect::Nothing
                        },
                        KeyCode::Up => {
                            app.explorer.previous();
                            Effect::Nothing
                        },
                        KeyCode::Down => {
                            app.explorer.next();
                            Effect::Nothing
                        },
                        KeyCode::Enter => {
                            if app.explorer.selected < app.explorer.items.len() {
                                assert(texts(app.explorer.items@)[app.explorer.selected as int]
                                    == app.explorer.items@[app.explorer.selected as int]@);
                                Effect::Open(app.explorer.items[app.explorer.selected].clone())
                            } else {
                                Effect::Nothing
                            }
                        },
                        KeyCode::Char('n') => {
                            app.mode = AppMode::PromptFile(String::new());
                            Effect::Nothing
                        },
                        KeyCode::Char('d') => {
                            app.mode = AppMode::PromptDir(String::new());
                            Effect::Nothing
                        },
                        _ => Effect::Nothing,
                    },
                    AppFocus::Editor => {
                        match code {
                            KeyCode::Esc => app.toggle_menu(),
                            KeyCode::Char(c) => app.insert_char(c),
                            KeyCode::Backspace => app.delete_char(),
                            KeyCode::Enter => app.insert_newline(),
                            KeyCode::Left => app.move_cursor(-1, 0),
                            KeyCode::Right => app.move_cursor(1, 0),
                            KeyCode::Up => app.move_cursor(0, -1),
                            KeyCode::Down => app.move_cursor(0, 1),
                            _ => {},
                        }
                        Effect::Nothing
                    },
                }
            }
        },
        AppMode::Menu => match code {
            KeyCode::Esc => {
                app.toggle_menu();
                Effect::Nothing
            },
            KeyCode::Up => {
                app.menu_up();
                Effect::Nothing
            },
            KeyCode::Down => {
                app.menu_down();
                Effect::Nothing
            },
            KeyCode::Enter => app.execute_menu_action(),
            _ => Effect::Nothing,
        },
    }
}

} // verus!
