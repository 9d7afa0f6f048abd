pub mod keyboard;
pub mod mouse;
pub mod shortcuts;

use vstd::prelude::*;
use crate::engine::app::{Effect, EffectView, effect_view};
use crate::text::{string_pop, string_push, texts};
use crate::tui::app::{App, AppFocus, AppMode, AppState, ModeState};
use crate::tui::ui::layout_helpers::{inside, inside_test_ok, is_inside};

verus! {

/// A key the editor reacts to.
#[derive(Clone, Copy, Debug, PartialEq, Eq, Structural)]
pub enum KeyCode {
    Char(char),
    Esc,
    Enter,
    Tab,
    Backspace,
    Up,
    Down,
    Left,
    Right,
    /// Any other key.
    Other,
}

/// A mouse button.
#[derive(Clone, Copy, Debug, PartialEq, Eq, Structural)]
pub enum MouseButton {
    Left,
    Right,
    Middle,
}

/// What the mouse did.
#[derive(Clone, Copy, Debug, PartialEq, Eq, Structural)]
pub enum MouseEventKind {
    Down(MouseButton),
    Up(MouseButton),
    Drag(MouseButton),
    Moved,
    ScrollDown,
    ScrollUp,
    /// Any other motion (such as a sideways scroll).
    Other,
}

/// A mouse event at a terminal cell.
#[derive(Clone, Copy, Debug, PartialEq, Eq, Structural)]
pub struct MouseEvent {
    pub kind: MouseEventKind,
    pub column: u16,
    pub row: u16,
}

/// A key press, with whether Ctrl was held.
#[derive(Clone, Copy, Debug, PartialEq, Eq, Structural)]
pub struct KeyEvent {
    pub code: KeyCode,
    pub ctrl: bool,
}

/// An input event.
#[derive(Clone, Copy, Debug, PartialEq, Eq, Structural)]
pub enum Event {
    Key(KeyEvent),
    Mouse(MouseEvent),
    /// Any other event (such as a resize).
    Other,
}

impl AppState {
    /// A key typed into a name prompt: Esc cancels, Enter submits, a character is appended,
    /// Backspace removes the last character.
    pub open spec fn prompt_key(self, input: Seq<char>, code: KeyCode, is_file: bool) -> (AppState, EffectView) {
        let prompt = |s: Seq<char>| if is_file { ModeState::PromptFile(s) } else { ModeState::PromptDir(s) };
        match code {
            KeyCode::Esc => (AppState { mode: ModeState::Editor, ..self }, EffectView::Nothing),
            KeyCode::Enter => (
                AppState { mode: ModeState::Editor, ..self },
                if is_file { EffectView::CreateFile(input) } else { EffectView::CreateDir(input) },
            ),
            KeyCode::Char(c) => (AppState { mode: prompt(input.push(c)), ..self }, EffectView::Nothing),
            KeyCode::Backspace => (
                AppState { mode: prompt(if input.len() > 0 { input.drop_last() } else { input }), ..self },
                EffectView::Nothing,
            ),
            _ => (self, EffectView::Nothing),
        }
    }

    /// A key in the explorer pane: Esc opens the menu, Up and Down move the selection, Enter
    /// opens the selected entry, `n` and `d` ask for a new file's or directory's name.
    pub open spec fn explorer_key(self, code: KeyCode) -> (AppState, EffectView) {
        match code {
            KeyCode::Esc => (self.toggle_menu(), EffectView::Nothing),
            KeyCode::Up => (AppState { explorer: self.explorer.previous(), ..self }, EffectView::Nothing),
            KeyCode::Down => (AppState { explorer: self.explorer.next(), ..self }, EffectView::Nothing),
            KeyCode::Enter => (
                self,
                if self.explorer.selected < self.explorer.items.len() {
                    EffectView::Open(self.explorer.items[self.explorer.selected as int])
                } else {
                    EffectView::Nothing
                },
            ),
            KeyCode::Char(c) => if c == 'n' {
                (AppState { mode: ModeState::PromptFile(Seq::<char>::empty()), ..self }, EffectView::Nothing)
            } else if c == 'd' {
                (AppState { mode: ModeState::PromptDir(Seq::<char>::empty()), ..self }, EffectView::Nothing)
            } else {
                (self, EffectView::Nothing)
            },
            _ => (self, EffectView::Nothing),
        }
    }

    /// A key in the editor pane: Esc opens the menu, a character is typed, Backspace deletes,
    /// Enter breaks the line, the arrows move the cursor.
    pub open spec fn editor_key(self, code: KeyCode) -> AppState {
        match code {
            KeyCode::Esc => self.toggle_menu(),
            KeyCode::Char(c) => self.insert_char(c),
            KeyCode::Backspace => self.delete_char(),
            KeyCode::Enter => self.insert_newline(),
            KeyCode::Left => self.move_cursor(-1i16, 0i16),
            KeyCode::Right => self.move_cursor(1i16, 0i16),
            KeyCode::Up => self.move_cursor(0i16, -1i16),
            KeyCode::Down => self.move_cursor(0i16, 1i16),
            _ => self,
        }
    }

    /// A key pressed without Ctrl, and what it leaves to the caller.
    pub open spec fn plain_key(self, code: KeyCode) -> (AppState, EffectView) {
        match self.mode {
            ModeState::PromptFile(input) => self.prompt_key(input, code, true),
            ModeState::PromptDir(input) => self.prompt_key(input, code, false),
            ModeState::Editor => if code == KeyCode::Tab {
                (
                    AppState {
                        focus: if self.focus == AppFocus::Explorer {
                            AppFocus::Editor
                        } else {
                            AppFocus::Explorer
                        },
                        ..self
                    },
                    EffectView::Nothing,
                )
            } else if self.focus == AppFocus::Explorer {
                self.explorer_key(code)
            } else {
                (self.editor_key(code), EffectView::Nothing)
            },
            ModeState::Menu => match code {
                KeyCode::Esc => (self.toggle_menu(), EffectView::Nothing),
                KeyCode::Up => (self.menu_up(), EffectView::Nothing),
                KeyCode::Down => (self.menu_down(), EffectView::Nothing),
                KeyCode::Enter => (self.execute_menu_action(), self.menu_action_effect()),
                _ => (self, EffectView::Nothing),
            },
        }
    }

    /// What a Ctrl shortcut leaves to the caller: in the editor pane, Ctrl+S saves, Ctrl+C copies
    /// the cursor's line (when there is one), Ctrl+V pastes.
    pub open spec fn ctrl_key_effect(self, code: KeyCode) -> EffectView {
        if self.mode is Editor && self.focus == AppFocus::Editor {
            match code {
                KeyCode::Char(c) => if c == 's' {
                    EffectView::Save
                } else if c == 'c' {
                    if self.cursor_y < self.lines.len() {
                        EffectView::Copy(self.lines[self.cursor_y as int])
                    } else {
                        EffectView::Nothing
                    }
                } else if c == 'v' {
                    EffectView::Paste
                } else {
                    EffectView::Nothing
                },
                _ => EffectView::Nothing,
            }
        } else {
            EffectView::Nothing
        }
    }

    /// The text position under the cell (`col`, `row`) of the editor pane.
    pub open spec fn text_pos(self, col: u16, row: u16) -> (int, int) {
        let a = self.editor_area;
        (
            (if col >= a.x + 1 { col - (a.x + 1) } else { 0 }) + self.scroll_x,
            (if row >= a.y + 1 { row - (a.y + 1) } else { 0 }) + self.scroll_y,
        )
    }

    /// A mouse event: with the editor pane taking the keys, a left click inside its border moves
    /// the cursor there and the wheel scrolls the view by a line.
    pub open spec fn mouse(self, ev: MouseEvent) -> AppState {
        if self.focus == AppFocus::Editor {
            match ev.kind {
                MouseEventKind::Down(MouseButton::Left) => if inside(self.editor_area, ev.column, ev.row) {
                    let (x, y) = self.text_pos(ev.column, ev.row);
                    self.handle_click(x as u16, y as u16)
                } else {
                    self
                },
                MouseEventKind::ScrollDown => AppState {
                    scroll_y: if self.scroll_y < u16::MAX { (self.scroll_y + 1) as u16 } else { u16::MAX },
                    ..self
                },
                MouseEventKind::ScrollUp => AppState {
                    scroll_y: if self.scroll_y > 0 { (self.scroll_y - 1) as u16 } else { 0 },
                    ..self
                },
                _ => self,
            }
        } else {
            self
        }
    }

    /// An input event, and what it leaves to the caller.
    pub open spec fn handle_event(self, ev: Event) -> (AppState, EffectView) {
        match ev {
            Event::Key(k) => if k.ctrl {
                (self, self.ctrl_key_effect(k.code))
            } else {
                self.plain_key(k.code)
            },
            Event::Mouse(m) => (self.mouse(m), EffectView::Nothing),
            Event::Other => (self, EffectView::Nothing),
        }
    }

    /// What an input event needs: the requirements of the step it leads to.
    pub open spec fn event_ok(self, ev: Event) -> bool {
        match ev {
            Event::Key(k) => !k.ctrl ==> match self.mode {
                ModeState::Menu => (k.code == KeyCode::Up || k.code == KeyCode::Down) ==> self.menu.len() >= 1,
                ModeState::Editor => k.code != KeyCode::Tab && self.focus == AppFocus::Editor ==> match k.code {
                    KeyCode::Char(_) => self.insert_char_ok(),
                    KeyCode::Backspace => self.delete_char_ok(),
                    KeyCode::Enter => self.insert_newline_ok(),
                    KeyCode::Left => self.move_cursor_ok(-1i16, 0i16),
                    KeyCode::Right => self.move_cursor_ok(1i16, 0i16),
                    KeyCode::Up => self.move_cursor_ok(0i16, -1i16),
                    KeyCode::Down => self.move_cursor_ok(0i16, 1i16),
                    _ => true,
                },
                _ => true,
            },
            Event::Mouse(m) => self.focus == AppFocus::Editor && m.kind == MouseEventKind::Down(MouseButton::Left) ==> {
                &&& inside_test_ok(self.editor_area, m.column, m.row)
                &&& inside(self.editor_area, m.column, m.row) ==> {
                    &&& self.text_pos(m.column, m.row).0 <= u16::MAX
                    &&& self.text_pos(m.column, m.row).1 <= u16::MAX
                    &&& self.lines.len() >= 1
                    &&& self.adjust_scroll_ok()
                }
            },
            Event::Other => true,
        }
    }
}

/// A key typed into a name prompt holding `input`: the prompt's new text, and whether the prompt
/// closes.
fn prompt_edit(input: &String, code: KeyCode) -> (r: (Option<String>, bool))
    ensures
        code is Char ==> (r.0 matches Some(s) && s@ == input@.push(code->Char_0)),
        code is Backspace ==> (r.0 matches Some(s) && s@ == (if input@.len() > 0 {
            input@.drop_last()
        } else {
            input@
        })),
        !(code is Char || code is Backspace) ==> r.0 is None,
        r.1 == (code is Esc || code is Enter),
{
    match code {
        KeyCode::Esc | KeyCode::Enter => (None, true),
        KeyCode::Char(c) => {
            let mut s = input.clone();
            string_push(&mut s, c);
            (Some(s), false)
        },
        KeyCode::Backspace => {
            let mut s = input.clone();
            string_pop(&mut s);
            (Some(s), false)
        },
        _ => (None, false),
    }
}

/// Reacts to an input event (see `AppState::handle_event`); returns the file-system or clipboard
/// work it leaves to the caller.
pub fn handle_event(app: &mut App, event: Event) -> (effect: Effect)
    requires
        old(app)@.event_ok(event),
    ensures
        final(app)@ == old(app)@.handle_event(event).0,
        effect_view(effect) == old(app)@.handle_event(event).1,
{
    match event {
        Event::Key(key) => {
            if key.ctrl {
                if let AppMode::Editor = app.mode {
                    if let AppFocus::Editor = app.focus {
                        match key.code {
                            KeyCode::Char('s') => {
                                return Effect::Save;
                            },
                            KeyCode::Char('c') => {
                                if (app.cursor_y as usize) < app.document.rows.len() {
                                    assert(texts(app.document.rows@)[app.cursor_y as int]
                                        == app.document.rows@[app.cursor_y as int]@);
                                    return Effect::Copy(app.document.rows[app.cursor_y as usize].clone());
                                }
                                return Effect::Nothing;
                            },
                            KeyCode::Char('v') => {
                                return Effect::Paste;
                            },
                            _ => {},
                        }
                    }
                }
                return Effect::Nothing;
            }
            let code = key.code;
            match &app.mode {
                AppMode::PromptFile(input) => {
                    let text = input.clone();
                    let (edited, close) = prompt_edit(input, code);
                    if close {
                        app.mode = AppMode::Editor;
                        if code == KeyCode::Enter {
                            return Effect::CreateFile(text);
                        }
                    } else if let Some(s) = edited {
                        app.mode = AppMode::PromptFile(s);
                    }
                    Effect::Nothing
                },
                AppMode::PromptDir(input) => {
                    let text = input.clone();
                    let (edited, close) = prompt_edit(input, code);
                    if close {
                        app.mode = AppMode::Editor;
                        if code == KeyCode::Enter {
                            return Effect::CreateDir(text);
                        }
                    } else if let Some(s) = edited {
                        app.mode = AppMode::PromptDir(s);
                    }
                    Effect::Nothing
                },
                AppMode::Editor => {
                    if code == KeyCode::Tab {
                        app.focus = match app.focus {
                            AppFocus::Explorer => AppFocus::Editor,
                            AppFocus::Editor => AppFocus::Explorer,
                        };
                        Effect::Nothing
                    } else {
                        match app.focus {
                            AppFocus::Explorer => match code {
                                KeyCode::Esc => {
                                    app.toggle_menu();
                                    Effect::Nothing
                                },
                                KeyCode::Up => {
                                    app.explorer.previous();
                                    Effect::Nothing
                                },
                                KeyCode::Down => {
                                    app.explorer.next();
                                    Effect::Nothing
                                },
                                KeyCode::Enter => {
                                    if app.explorer.selected < app.explorer.items.len() {
                                        assert(texts(app.explorer.items@)[app.explorer.selected as int]
                                            == app.explorer.items@[app.explorer.selected as int]@);
                                        Effect::Open(app.explorer.items[app.explorer.selected].clone())
                                    } else {
                                        Effect::Nothing
                                    }
                                },
                                KeyCode::Char('n') => {
                                    app.mode = AppMode::PromptFile(String::new());
                                    Effect::Nothing
                                },
                                KeyCode::Char('d') => {
                                    app.mode = AppMode::PromptDir(String::new());
                                    Effect::Nothing
                                },
                                _ => Effect::Nothing,
                            },
                            AppFocus::Editor => {
                                match code {
                                    KeyCode::Esc => app.toggle_menu(),
                                    KeyCode::Char(c) => app.insert_char(c),
                                    KeyCode::Backspace => app.delete_char(),
                                    KeyCode::Enter => app.insert_newline(),
                                    KeyCode::Left => app.move_cursor(-1, 0),
                                    KeyCode::Right => app.move_cursor(1, 0),
                                    KeyCode::Up => app.move_cursor(0, -1),
                                    KeyCode::Down => app.move_cursor(0, 1),
                                    _ => {},
                                }
                                Effect::Nothing
                            },
                        }
                    }
                },
                AppMode::Menu => match code {
                    KeyCode::Esc => {
                        app.toggle_menu();
                        Effect::Nothing
                    },
                    KeyCode::Up => {
                        app.menu_up();
                        Effect::Nothing
                    },
                    KeyCode::Down => {
                        app.menu_down();
                        Effect::Nothing
                    },
                    KeyCode::Enter => app.execute_menu_action(),
                    _ => Effect::Nothing,
                },
            }
        },
        Event::Mouse(mouse_event) => {
            match mouse_event.kind {
                MouseEventKind::Down(MouseButton::Left) => {
                    if let AppFocus::Editor = app.focus {
                        if is_inside(app.editor_area, mouse_event.column, mouse_event.row) {
                            let click_x: u16 = mouse_event.column.saturating_sub(app.editor_area.x + 1) + app.scroll_x;
                            let click_y: u16 = mouse_event.row.saturating_sub(app.editor_area.y + 1) + app.scroll_y;
                            app.handle_click(click_x, click_y);
                        }
                    }
                },
                MouseEventKind::ScrollDown => {
                    if let AppFocus::Editor = app.focus {
                        app.scroll_y = app.scroll_y.saturating_add(1);
                    }
                },
                MouseEventKind::ScrollUp => {
                    if let AppFocus::Editor = app.focus {
                        app.scroll_y = app.scroll_y.saturating_sub(1);
                    }
                },
                _ => {},
            }
            Effect::Nothing
        },
        Event::Other => Effect::Nothing,
    }
}

} // verus!
