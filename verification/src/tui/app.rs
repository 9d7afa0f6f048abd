use vstd::prelude::*;
use crate::engine::app::{Effect, EffectView, ExplorerView, effect_view, explorer_view, path_view};
use crate::engine::app::cursor::{clamp_row, lemma_u16_trunc, sat_sub};
use crate::engine::document::{Document, lines_after_break, row_after_backspace, row_with_char};
use crate::explorer::Explorer;
use crate::text::{byte_len, chars_of, is_boundary, string_byte_len, texts};
use crate::tui::ui::layout_helpers::Rect;

verus! {

/// What the editor is doing: editing, showing the main menu, or reading the name of a new file
/// or directory.
pub enum AppMode {
    Editor,
    Menu,
    PromptFile(String),
    PromptDir(String),
}

/// Which pane takes the keys.
#[derive(Clone, Copy, Debug, PartialEq, Eq, Structural)]
pub enum AppFocus {
    Explorer,
    Editor,
}

/// The state of the editor.
pub struct App {
    pub document: Document,
    pub explorer: Explorer,
    pub cursor_x: u16,
    pub cursor_y: u16,
    pub scroll_x: u16,
    pub scroll_y: u16,
    pub editor_area: Rect,
    pub mode: AppMode,
    pub focus: AppFocus,
    pub menu_items: Vec<String>,
    pub menu_selection: usize,
    pub should_quit: bool,
}

/// The mode, with the texts of the prompts.
pub enum ModeState {
    Editor,
    Menu,
    PromptFile(Seq<char>),
    PromptDir(Seq<char>),
}

/// The mode as plain values.
pub open spec fn mode_state(m: AppMode) -> ModeState {
    match m {
        AppMode::Editor => ModeState::Editor,
        AppMode::Menu => ModeState::Menu,
        AppMode::PromptFile(s) => ModeState::PromptFile(s@),
        AppMode::PromptDir(s) => ModeState::PromptDir(s@),
    }
}

/// The editor state as plain values.
#[verifier::ext_equal]
pub struct AppState {
    pub lines: Seq<Seq<char>>,
    pub path: Option<Seq<char>>,
    pub explorer: ExplorerView,
    pub cursor_x: u16,
    pub cursor_y: u16,
    pub scroll_x: u16,
    pub scroll_y: u16,
    pub editor_area: Rect,
    pub mode: ModeState,
    pub focus: AppFocus,
    pub menu: Seq<Seq<char>>,
    pub menu_selection: usize,
    pub should_quit: bool,
}

impl View for App {
    type V = AppState;

    open spec fn view(&self) -> AppState {
        AppState {
            lines: self.document.text(),
            path: path_view(self.document.path),
            explorer: explorer_view(self.explorer),
            cursor_x: self.cursor_x,
            cursor_y: self.cursor_y,
            scroll_x: self.scroll_x,
            scroll_y: self.scroll_y,
            editor_area: self.editor_area,
            mode: mode_state(self.mode),
            focus: self.focus,
            menu: texts(self.menu_items@),
            menu_selection: self.menu_selection,
            should_quit: self.should_quit,
        }
    }
}

/// The entries of the main menu.
pub open spec fn menu_entries() -> Seq<Seq<char>> {
    seq!["New File"@, "Save"@, "Settings (Soon)"@, "Exit"@]
}

impl AppState {
    /// Esc: from the editor to the main menu; from any other mode back to the editor.
    pub open spec fn toggle_menu(self) -> AppState {
        AppState { mode: if self.mode is Editor { ModeState::Menu } else { ModeState::Editor }, ..self }
    }

    /// The menu selection one up, from the first entry round to the last.
    pub open spec fn menu_up(self) -> AppState {
        AppState {
            menu_selection: if self.menu_selection > 0 {
                (self.menu_selection - 1) as usize
            } else {
                (self.menu.len() - 1) as usize
            },
            ..self
        }
    }

    /// The menu selection one down, from the last entry round to the first.
    pub open spec fn menu_down(self) -> AppState {
        AppState {
            menu_selection: if self.menu_selection < self.menu.len() - 1 {
                (self.menu_selection + 1) as usize
            } else {
                0
            },
            ..self
        }
    }

    /// The selected menu entry run: 0 starts a new untitled document with the cursor and view at
    /// its start, 1 saves, 0 to 2 go back to the editor, 3 quits; any other selection does nothing.
    pub open spec fn execute_menu_action(self) -> AppState {
        if self.menu_selection == 0 {
            AppState {
                lines: seq![Seq::<char>::empty()],
                path: None,
                cursor_x: 0,
                cursor_y: 0,
                scroll_x: 0,
                scroll_y: 0,
                mode: ModeState::Editor,
                ..self
            }
        } else if self.menu_selection == 1 || self.menu_selection == 2 {
            AppState { mode: ModeState::Editor, ..self }
        } else if self.menu_selection == 3 {
            AppState { should_quit: true, ..self }
        } else {
            self
        }
    }

    /// What running the selected menu entry leaves to the caller: saving for entry 1.
    pub open spec fn menu_action_effect(self) -> EffectView {
        if self.menu_selection == 1 {
            EffectView::Save
        } else {
            EffectView::Nothing
        }
    }

    /// Scrolling stays within `u16`.
    pub open spec fn adjust_scroll_ok(self) -> bool {
        &&& self.scroll_y + sat_sub(self.editor_area.height as int, 2) <= u16::MAX
        &&& self.scroll_x + sat_sub(self.editor_area.width as int, 2) <= u16::MAX
    }

    /// The view scrolled just enough to show the cursor inside the pane's border.
    pub open spec fn adjust_scroll(self) -> AppState {
        let (cx, cy, sx, sy) = (
            self.cursor_x as int,
            self.cursor_y as int,
            self.scroll_x as int,
            self.scroll_y as int,
        );
        let h = self.editor_area.height as int;
        let w = self.editor_area.width as int;
        AppState {
            scroll_y: (if cy < sy {
                cy
            } else if cy >= sy + sat_sub(h, 2) {
                cy - sat_sub(h, 3)
            } else {
                sy
            }) as u16,
            scroll_x: (if cx < sx {
                cx
            } else if cx >= sx + sat_sub(w, 2) {
                cx - sat_sub(w, 3)
            } else {
                sx
            }) as u16,
            ..self
        }
    }

    /// A click on text position (`x`, `y`): the cursor goes there, onto the last line when below
    /// it, to the end of the line when right of it, and the view follows.
    pub open spec fn handle_click(self, x: u16, y: u16) -> AppState {
        let cy = clamp_row(self.lines.len() as int, y as int);
        let row_len = byte_len(self.lines[cy as int]) as u16;
        AppState { cursor_x: if x > row_len { row_len } else { x }, cursor_y: cy, ..self }.adjust_scroll()
    }

    /// Typing at the cursor needs a free column to its right, a cursor within its line on a
    /// character boundary, and a view that can scroll.
    pub open spec fn insert_char_ok(self) -> bool {
        &&& self.cursor_x < u16::MAX
        &&& self.cursor_y < self.lines.len() && self.cursor_x <= byte_len(self.lines[self.cursor_y as int])
            ==> is_boundary(self.lines[self.cursor_y as int], self.cursor_x as int)
        &&& self.adjust_scroll_ok()
    }

    /// `c` typed at the cursor (past the end of the line it is appended), the cursor one column
    /// to the right, the view following.
    pub open spec fn insert_char(self, c: char) -> AppState {
        AppState {
            lines: if self.cursor_y < self.lines.len() {
                self.lines.update(
                    self.cursor_y as int,
                    row_with_char(self.lines[self.cursor_y as int], self.cursor_x as int, c),
                )
            } else {
                self.lines
            },
            cursor_x: (self.cursor_x + 1) as u16,
            ..self
        }.adjust_scroll()
    }

    /// A backspace needs the character before the cursor to start on a boundary, the line at the
    /// start of which it joins lines to exist, and a view that can scroll.
    pub open spec fn delete_char_ok(self) -> bool {
        &&& self.cursor_x > 0 && self.cursor_y < self.lines.len() && self.cursor_x <= byte_len(
            self.lines[self.cursor_y as int],
        ) ==> is_boundary(self.lines[self.cursor_y as int], self.cursor_x - 1)
        &&& self.cursor_x == 0 && self.cursor_y > 0 ==> self.cursor_y < self.lines.len()
        &&& self.adjust_scroll_ok()
    }

    /// Backspace: the character before the cursor removed and the cursor moved onto it; at the
    /// start of a line, the line joined to the one above with the cursor at the joint; the view
    /// follows. At the start of the document nothing changes.
    pub open spec fn delete_char(self) -> AppState {
        let l = self.lines;
        let y = self.cursor_y as int;
        if self.cursor_x > 0 {
            AppState {
                lines: if y < l.len() {
                    l.update(y, row_after_backspace(l[y], self.cursor_x as int))
                } else {
                    l
                },
                cursor_x: (self.cursor_x - 1) as u16,
                ..self
            }.adjust_scroll()
        } else if self.cursor_y > 0 {
            AppState {
                lines: l.update(y - 1, l[y - 1] + l[y]).remove(y),
                cursor_y: (y - 1) as u16,
                cursor_x: byte_len(l[y - 1]) as u16,
                ..self
            }.adjust_scroll()
        } else {
            self
        }
    }

    /// Breaking a line needs a line below to move to, a cursor within its line on a character
    /// boundary, room for the new line and a view that can scroll.
    pub open spec fn insert_newline_ok(self) -> bool {
        &&& self.cursor_y < u16::MAX
        &&& self.cursor_y < self.lines.len() && self.cursor_x < byte_len(self.lines[self.cursor_y as int])
            ==> is_boundary(self.lines[self.cursor_y as int], self.cursor_x as int)
        &&& self.lines.len() < usize::MAX
        &&& self.adjust_scroll_ok()
    }

    /// Enter: the line broken at the cursor, the cursor at the start of the new line, the view
    /// following.
    pub open spec fn insert_newline(self) -> AppState {
        AppState {
            lines: lines_after_break(self.lines, self.cursor_x as int, self.cursor_y as int),
            cursor_x: 0,
            cursor_y: (self.cursor_y + 1) as u16,
            ..self
        }.adjust_scroll()
    }

    /// A cursor move needs a line to land on (the target line, or else the cursor's own),
    /// arithmetic within `i16`, and a view that can scroll.
    pub open spec fn move_cursor_ok(self, dx: i16, dy: i16) -> bool {
        &&& 0 <= (self.cursor_y as i16) + dy < self.lines.len() || self.cursor_y < self.lines.len()
        &&& i16::MIN <= (self.cursor_y as i16) + dy <= i16::MAX
        &&& i16::MIN <= (self.cursor_x as i16) + dx <= i16::MAX
        &&& self.adjust_scroll_ok()
    }

    /// The cursor moved by `dx` columns and `dy` lines: the line changes only when the target line
    /// exists; the column goes to the target when within the line, to the line's end when right
    /// of it, and stays when left of its start; the view follows.
    pub open spec fn move_cursor(self, dx: i16, dy: i16) -> AppState {
        let ny = (self.cursor_y as i16) + dy;
        let cy: u16 = if ny >= 0 && ny < self.lines.len() { ny as u16 } else { self.cursor_y };
        let row_len = byte_len(self.lines[cy as int]) as i16;
        let nx = (self.cursor_x as i16) + dx;
        AppState {
            cursor_y: cy,
            cursor_x: if nx >= 0 && nx <= row_len {
                nx as u16
            } else if nx > row_len {
                row_len as u16
            } else {
                self.cursor_x
            },
            ..self
        }.adjust_scroll()
    }

    /// The state after one character of a paste: a line break for `'\n'`, nothing for `'\r'`,
    /// else the character typed.
    pub open spec fn paste_step(self, c: char) -> AppState {
        if c == '\n' {
            self.insert_newline()
        } else if c == '\r' {
            self
        } else {
            self.insert_char(c)
        }
    }

    /// One character of a paste can be done.
    pub open spec fn paste_step_ok(self, c: char) -> bool {
        if c == '\n' {
            self.insert_newline_ok()
        } else if c == '\r' {
            true
        } else {
            self.insert_char_ok()
        }
    }

    /// The state after pasting the characters of `s` one after another.
    pub open spec fn paste(self, s: Seq<char>) -> AppState
        decreases s.len(),
    {
        if s.len() == 0 {
            self
        } else {
            self.paste(s.drop_last()).paste_step(s.last())
        }
    }

    /// Each character of a paste of `s` can be done in turn.
    pub open spec fn paste_ok(self, s: Seq<char>) -> bool
        decreases s.len(),
    {
        if s.len() == 0 {
            true
        } else {
            self.paste_ok(s.drop_last()) && self.paste(s.drop_last()).paste_step_ok(s.last())
        }
    }

    /// The document has a line and the menu has its entries.
    pub open spec fn wf(self) -> bool {
        self.lines.len() >= 1 && self.menu.len() == 4
    }
}

pub proof fn lemma_paste_ok_prefix(v: AppState, s: Seq<char>, i: int)
    requires
        v.paste_ok(s),
        0 <= i <= s.len(),
    ensures
        v.paste_ok(s.take(i)),
    decreases s.len() - i,
{
    if i < s.len() {
        assert(s.take(i + 1).drop_last() =~= s.take(i));
        if i + 1 == s.len() {
            assert(s.take(i + 1) =~= s);
        } else {
            lemma_paste_ok_prefix(v, s, i + 1);
        }
    } else {
        assert(s.take(i) =~= s);
    }
}

impl App {
    /// A fresh editor on an untitled empty document, with `explorer` in the side pane, which has
    /// the keys.
    pub fn new(explorer: Explorer) -> (app: Self)
        ensures
            app@.wf(),
            app@.lines == seq![Seq::<char>::empty()],
            app@.path is None,
            app.explorer == explorer,
            app.cursor_x == 0 && app.cursor_y == 0 && app.scroll_x == 0 && app.scroll_y == 0,
            app.editor_area == (Rect { x: 0, y: 0, width: 0, height: 0 }),
            app.mode is Editor,
            app.focus == AppFocus::Explorer,
            app@.menu == menu_entries(),
            app.menu_selection == 0,
            !app.should_quit,
    {
        let mut menu_items: Vec<String> = Vec::new();
        menu_items.push(String::from_str("New File"));
        menu_items.push(String::from_str("Save"));
        menu_items.push(String::from_str("Settings (Soon)"));
        menu_items.push(String::from_str("Exit"));
        assert(texts(menu_items@) =~= menu_entries());
        Self {
            document: Document::new(),
            explorer,
            cursor_x: 0,
            cursor_y: 0,
            scroll_x: 0,
            scroll_y: 0,
            editor_area: Rect::default(),
            mode: AppMode::Editor,
            focus: AppFocus::Explorer,
            menu_items,
            menu_selection: 0,
            should_quit: false,
        }
    }

    /// Esc: opens the main menu from the editor; from any other mode goes back to the editor.
    pub fn toggle_menu(&mut self)
        ensures
            final(self)@ == old(self)@.toggle_menu(),
    {
        match self.mode {
            AppMode::Editor => self.mode = AppMode::Menu,
            AppMode::Menu => self.mode = AppMode::Editor,
            _ => self.mode = AppMode::Editor,
        }
    }

    /// Moves the menu selection up, from the first entry round to the last.
    pub fn menu_up(&mut self)
        requires
            old(self).menu_selection > 0 || old(self).menu_items@.len() >= 1,
        ensures
            final(self)@ == old(self)@.menu_up(),
    {
        if self.menu_selection > 0 {
            self.menu_selection -= 1;
        } else {
            self.menu_selection = self.menu_items.len() - 1;
        }
    }

    /// Moves the menu selection down, from the last entry round to the first.
    pub fn menu_down(&mut self)
        requires
            old(self).menu_items@.len() >= 1,
        ensures
            final(self)@ == old(self)@.menu_down(),
    {
        if self.menu_selection < self.menu_items.len() - 1 {
            self.menu_selection += 1;
        } else {
            self.menu_selection = 0;
        }
    }

    /// Runs the selected menu entry (see `AppState::execute_menu_action`); saving is left to the
    /// caller.
    pub fn execute_menu_action(&mut self) -> (effect: Effect)
        ensures
            final(self)@ == old(self)@.execute_menu_action(),
            effect_view(effect) == old(self)@.menu_action_effect(),
    {
        match self.menu_selection {
            0 => {
                self.document = Document::new();
                self.cursor_x = 0;
                self.cursor_y = 0;
                self.scroll_x = 0;
                self.scroll_y = 0;
                self.mode = AppMode::Editor;
                Effect::Nothing
            },
            1 => {
                self.mode = AppMode::Editor;
                Effect::Save
            },
            2 => {
                self.mode = AppMode::Editor;
                Effect::Nothing
            },
            3 => {
                self.should_quit = true;
                Effect::Nothing
            },
            _ => Effect::Nothing,
        }
    }

    /// Scrolls the view just enough to show the cursor inside the pane's border.
    pub fn adjust_scroll(&mut self)
        requires
            old(self)@.adjust_scroll_ok(),
        ensures
            final(self)@ == old(self)@.adjust_scroll(),
            // With room for a line and a column, the cursor is then in view.
            old(self).editor_area.height >= 3 ==> final(self).scroll_y <= final(self).cursor_y
                < final(self).scroll_y + old(self).editor_area.height - 2,
            old(self).editor_area.width >= 3 ==> final(self).scroll_x <= final(self).cursor_x
                < final(self).scroll_x + old(self).editor_area.width - 2,
    {
        if self.cursor_y < self.scroll_y {
            self.scroll_y = self.cursor_y;
        } else if self.cursor_y >= self.scroll_y + self.editor_area.height.saturating_sub(2) {
            self.scroll_y = self.cursor_y - self.editor_area.height.saturating_sub(3);
        }
        if self.cursor_x < self.scroll_x {
            self.scroll_x = self.cursor_x;
        } else if self.cursor_x >= self.scroll_x + self.editor_area.width.saturating_sub(2) {
            self.scroll_x = self.cursor_x - self.editor_area.width.saturating_sub(3);
        }
    }

    /// A click on text position (`x`, `y`) (see `AppState::handle_click`).
    pub fn handle_click(&mut self, x: u16, y: u16)
        requires
            old(self).document.rows@.len() >= 1,
            old(self)@.adjust_scroll_ok(),
        ensures
            final(self)@ == old(self)@.handle_click(x, y),
    {
        self.cursor_x = x;
        self.cursor_y = y;
        if (self.cursor_y as usize) >= self.document.rows.len() {
            proof {
                lemma_u16_trunc((self.document.rows@.len() - 1) as usize);
            }
            self.cursor_y = self.document.rows.len().saturating_sub(1) as u16;
        }
        let row_len: u16 = string_byte_len(&self.document.rows[self.cursor_y as usize]) as u16;
        if self.cursor_x > row_len {
            self.cursor_x = row_len;
        }
        self.adjust_scroll();
    }

    /// Pastes `text` character by character (see `AppState::paste`).
    pub fn paste(&mut self, text: &str)
        requires
            old(self)@.paste_ok(text@),
        ensures
            final(self)@ == old(self)@.paste(text@),
    {
        let cs = chars_of(text);
        let ghost v0 = self@;
        let n = cs.len();
        assert(cs@.take(0) =~= Seq::<char>::empty());
        for i in 0..n
            invariant
                n == cs@.len(),
                cs@ == text@,
                v0.paste_ok(text@),
                self@ == v0.paste(cs@.take(i as int)),
        {
            let c = cs[i];
            proof {
                lemma_paste_ok_prefix(v0, text@, i + 1);
                assert(cs@.take(i + 1).drop_last() =~= cs@.take(i as int));
                assert(cs@.take(i + 1).last() == c);
            }
            if c == '\n' {
                self.insert_newline();
            } else if c != '\r' {
                self.insert_char(c);
            }
        }
        assert(cs@.take(n as int) =~= text@);
    }

    /// Types `c` at the cursor (see `AppState::insert_char`).
    pub fn insert_char(&mut self, c: char)
        requires
            old(self)@.insert_char_ok(),
        ensures
            final(self)@ == old(self)@.insert_char(c),
    {
        self.document.insert(self.cursor_x as usize, self.cursor_y as usize, c);
        self.cursor_x += 1;
        self.adjust_scroll();
    }

    /// Backspace (see `AppState::delete_char`).
    pub fn delete_char(&mut self)
        requires
            old(self)@.delete_char_ok(),
        ensures
            final(self)@ == old(self)@.delete_char(),
    {
        if self.cursor_x > 0 {
            self.document.delete(self.cursor_x as usize, self.cursor_y as usize);
            self.cursor_x -= 1;
            self.adjust_scroll();
        } else if self.cursor_y > 0 {
            let ghost l = self@.lines;
            let current_row: String = self.document.rows.remove(self.cursor_y as usize);
            self.cursor_y -= 1;
            let prev_row: &mut String = &mut self.document.rows[self.cursor_y as usize];
            self.cursor_x = string_byte_len(prev_row) as u16;
            prev_row.append(current_row.as_str());
            let ghost y = old(self).cursor_y as int;
            assert(self@.lines =~= l.update(y - 1, l[y - 1] + l[y]).remove(y));
            self.adjust_scroll();
        }
    }

    /// Enter (see `AppState::insert_newline`).
    pub fn insert_newline(&mut self)
        requires
            old(self)@.insert_newline_ok(),
        ensures
            final(self)@ == old(self)@.insert_newline(),
    {
        self.document.insert_newline(self.cursor_x as usize, self.cursor_y as usize);
        self.cursor_x = 0;
        self.cursor_y += 1;
        self.adjust_scroll();
    }

    /// Moves the cursor (see `AppState::move_cursor`).
    pub fn move_cursor(&mut self, dx: i16, dy: i16)
        requires
            old(self)@.move_cursor_ok(dx, dy),
        ensures
            final(self)@ == old(self)@.move_cursor(dx, dy),
    {
        let new_x: i16 = self.cursor_x as i16 + dx;
        let new_y: i16 = self.cursor_y as i16 + dy;
        if new_y >= 0 && (new_y as usize) < self.document.rows.len() {
            self.cursor_y = new_y as u16;
        }
        let row_len: i16 = string_byte_len(&self.document.rows[self.cursor_y as usize]) as i16;
        if new_x >= 0 && new_x <= row_len {
            self.cursor_x = new_x as u16;
        } else if new_x > row_len {
            self.cursor_x = row_len as u16;
        }
        self.adjust_scroll();
    }
}

} // verus!
