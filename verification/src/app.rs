use vstd::prelude::*;
use crate::document::Document;
use crate::engine::app::Effect;
use crate::engine::document::row_after_backspace;
use crate::text::{before_byte, byte_len, from_byte, is_boundary, texts};
use crate::tui::ui::layout_helpers::{Rect, inside, inside_test_ok};

verus! {

/// What the editor shows: the text, or the main menu over it.
#[derive(Clone, Copy, Debug, PartialEq, Eq, Structural)]
pub enum AppMode {
    Editor,
    Menu,
}

/// The state of the editor.
pub struct App {
    pub document: Document,
    pub cursor_x: u16,
    pub cursor_y: u16,
    pub editor_area: Rect,
    pub mode: AppMode,
    pub menu_items: Vec<String>,
    pub menu_selection: usize,
    pub should_quit: bool,
}

/// The entries of the main menu.
pub open spec fn menu_entries() -> Seq<Seq<char>> {
    seq!["Uj fajl"@, "Mentes"@, "Beallitasok (Hamarosan)"@, "Kilepes"@]
}

impl App {
    /// The lines of the document.
    pub open spec fn lines(&self) -> Seq<Seq<char>> {
        self.document.text()
    }

    /// An editor on `document`, cursor at its start, showing the text.
    pub fn new(document: Document) -> (app: Self)
        ensures
            app.document == document,
            app.cursor_x == 0 && app.cursor_y == 0,
            app.editor_area == (Rect { x: 0, y: 0, width: 0, height: 0 }),
            app.mode == AppMode::Editor,
            texts(app.menu_items@) == menu_entries(),
            app.menu_selection == 0,
            !app.should_quit,
    {
        let mut menu_items: Vec<String> = Vec::new();
        menu_items.push(String::from_str("Uj fajl"));
        menu_items.push(String::from_str("Mentes"));
        menu_items.push(String::from_str("Beallitasok (Hamarosan)"));
        menu_items.push(String::from_str("Kilepes"));
        assert(texts(menu_items@) =~= menu_entries());
        Self {
            document,
            cursor_x: 0,
            cursor_y: 0,
            editor_area: Rect::default(),
            mode: AppMode::Editor,
            menu_items,
            menu_selection: 0,
            should_quit: false,
        }
    }

    /// Switches between the text and the main menu.
    pub fn toggle_menu(&mut self)
        ensures
            final(self).mode == if old(self).mode == AppMode::Editor { AppMode::Menu } else { AppMode::Editor },
            final(self).document == old(self).document,
            final(self).cursor_x == old(self).cursor_x,
            final(self).cursor_y == old(self).cursor_y,
            final(self).editor_area == old(self).editor_area,
            final(self).menu_items == old(self).menu_items,
            final(self).menu_selection == old(self).menu_selection,
            final(self).should_quit == old(self).should_quit,
    {
        match self.mode {
            AppMode::Editor => self.mode = AppMode::Menu,
            AppMode::Menu => self.mode = AppMode::Editor,
        }
    }

    /// Moves the menu selection up, from the first entry round to the last.
    pub fn menu_up(&mut self)
        requires
            old(self).menu_selection > 0 || old(self).menu_items@.len() >= 1,
        ensures
            final(self).menu_selection == if old(self).menu_selection > 0 {
                (old(self).menu_selection - 1) as usize
            } else {
                (old(self).menu_items@.len() - 1) as usize
            },
            final(self).mode == old(self).mode,
            final(self).document == old(self).document,
            final(self).cursor_x == old(self).cursor_x,
            final(self).cursor_y == old(self).cursor_y,
            final(self).editor_area == old(self).editor_area,
            final(self).menu_items == old(self).menu_items,
            final(self).should_quit == old(self).should_quit,
    {
        if self.menu_selection > 0 {
            self.menu_selection -= 1;
        } else {
            self.menu_selection = self.menu_items.len() - 1;
        }
    }

    /// Moves the menu selection down, from the last entry round to the first.
    pub fn menu_down(&mut self)
        requires
            old(self).menu_items@.len() >= 1,
        ensures
            final(self).menu_selection == if old(self).menu_selection < old(self).menu_items@.len() - 1 {
                (old(self).menu_selection + 1) as usize
            } else {
                0
            },
            final(self).mode == old(self).mode,
            final(self).document == old(self).document,
            final(self).cursor_x == old(self).cursor_x,
            final(self).cursor_y == old(self).cursor_y,
            final(self).editor_area == old(self).editor_area,
            final(self).menu_items == old(self).menu_items,
            final(self).should_quit == old(self).should_quit,
    {
        if self.menu_selection < self.menu_items.len() - 1 {
            self.menu_selection += 1;
        } else {
            self.menu_selection = 0;
        }
    }

    /// Runs the selected menu entry: 0 starts a new empty document at its start, 1 saves (left to
    /// the caller), 1 and 2 go back to the text, 3 quits; any other selection does nothing.
    pub fn execute_menu_action(&mut self) -> (effect: Effect)
        ensures
            old(self).menu_selection == 0 ==> final(self).lines() == seq![Seq::<char>::empty()]
                && final(self).cursor_x == 0 && final(self).cursor_y == 0,
            old(self).menu_selection != 0 ==> final(self).document == old(self).document
                && final(self).cursor_x == old(self).cursor_x && final(self).cursor_y == old(self).cursor_y,
            final(self).mode == if old(self).menu_selection <= 2 { AppMode::Editor } else { old(self).mode },
            final(self).should_quit == (old(self).should_quit || old(self).menu_selection == 3),
            old(self).menu_selection == 1 ==> effect is Save,
            old(self).menu_selection != 1 ==> effect is Nothing,
            final(self).editor_area == old(self).editor_area,
            final(self).menu_items == old(self).menu_items,
            final(self).menu_selection == old(self).menu_selection,
    {
        match self.menu_selection {
            0 => {
                self.document = Document::new();
                self.cursor_x = 0;
                self.cursor_y = 0;
                self.mode = AppMode::Editor;
                Effect::Nothing
            },
            1 => {
                self.mode = AppMode::Editor;
                Effect::Save
            },
            2 => {
                self.mode = AppMode::Editor;
                Effect::Nothing
            },
            3 => {
                self.should_quit = true;
                Effect::Nothing
            },
            _ => Effect::Nothing,
        }
    }

    /// A click at the terminal cell (`x`, `y`): inside the editor pane's border, while showing the
    /// text, the cursor goes to the clicked cell of the pane.
    pub fn handle_click(&mut self, x: u16, y: u16)
        requires
            old(self).mode == AppMode::Editor ==> inside_test_ok(old(self).editor_area, x, y),
        ensures
            ({
                let a = old(self).editor_area;
                let hit = old(self).mode == AppMode::Editor && inside(a, x, y);
                &&& hit ==> final(self).cursor_x == x - (a.x + 1) && final(self).cursor_y == y - (a.y + 1)
                &&& !hit ==> final(self).cursor_x == old(self).cursor_x && final(self).cursor_y == old(self).cursor_y
            }),
            final(self).document == old(self).document,
            final(self).mode == old(self).mode,
            final(self).editor_area == old(self).editor_area,
            final(self).menu_items == old(self).menu_items,
            final(self).menu_selection == old(self).menu_selection,
            final(self).should_quit == old(self).should_quit,
    {
        if let AppMode::Editor = self.mode {
            if x >= self.editor_area.x + 1 && x < self.editor_area.x + self.editor_area.width - 1
                && y >= self.editor_area.y + 1 && y < self.editor_area.y + self.editor_area.height - 1 {
                self.cursor_x = x - (self.editor_area.x + 1);
                self.cursor_y = y - (self.editor_area.y + 1);
            }
        }
    }

    /// Types `c` at the cursor and moves the cursor one column right; the text changes only when
    /// the cursor lies within a line.
    pub fn insert_char(&mut self, c: char)
        requires
            old(self).cursor_x < u16::MAX,
            old(self).cursor_y < old(self).lines().len() && old(self).cursor_x <= byte_len(
                old(self).lines()[old(self).cursor_y as int],
            ) ==> is_boundary(old(self).lines()[old(self).cursor_y as int], old(self).cursor_x as int),
        ensures
            ({
                let l = old(self).lines();
                let (x, y) = (old(self).cursor_x as int, old(self).cursor_y as int);
                &&& y < l.len() && x <= byte_len(l[y]) ==> final(self).lines() == l.update(
                    y,
                    before_byte(l[y], x).push(c) + from_byte(l[y], x),
                )
                &&& !(y < l.len() && x <= byte_len(l[y])) ==> final(self).lines() == l
            }),
            final(self).cursor_x == old(self).cursor_x + 1,
            final(self).cursor_y == old(self).cursor_y,
            final(self).mode == old(self).mode,
            final(self).editor_area == old(self).editor_area,
            final(self).menu_items == old(self).menu_items,
            final(self).menu_selection == old(self).menu_selection,
            final(self).should_quit == old(self).should_quit,
    {
        self.document.insert(self.cursor_x as usize, self.cursor_y as usize, c);
        self.cursor_x += 1;
    }

    /// Backspace: removes the character before the cursor and moves the cursor onto it; does
    /// nothing at the start of a line.
    pub fn delete_char(&mut self)
        requires
            old(self).cursor_x > 0 && old(self).cursor_y < old(self).lines().len() && old(self).cursor_x
                <= byte_len(old(self).lines()[old(self).cursor_y as int]) ==> is_boundary(
                old(self).lines()[old(self).cursor_y as int],
                old(self).cursor_x - 1,
            ),
        ensures
            ({
                let l = old(self).lines();
                let (x, y) = (old(self).cursor_x as int, old(self).cursor_y as int);
                &&& x > 0 && y < l.len() ==> final(self).lines() == l.update(y, row_after_backspace(l[y], x))
                &&& !(x > 0 && y < l.len()) ==> final(self).lines() == l
                &&& final(self).cursor_x == if x > 0 { x - 1 } else { x }
            }),
            final(self).cursor_y == old(self).cursor_y,
            final(self).mode == old(self).mode,
            final(self).editor_area == old(self).editor_area,
            final(self).menu_items == old(self).menu_items,
            final(self).menu_selection == old(self).menu_selection,
            final(self).should_quit == old(self).should_quit,
    {
        if self.cursor_x > 0 {
            self.document.delete(self.cursor_x as usize, self.cursor_y as usize);
            self.cursor_x -= 1;
        }
    }

    /// Moves the cursor by `dx` columns and `dy` lines; a coordinate that would become negative
    /// stays where it is.
    pub fn move_cursor(&mut self, dx: i16, dy: i16)
        requires
            i16::MIN <= (old(self).cursor_x as i16) + dx <= i16::MAX,
            i16::MIN <= (old(self).cursor_y as i16) + dy <= i16::MAX,
        ensures
            ({
                let nx = (old(self).cursor_x as i16) + dx;
                let ny = (old(self).cursor_y as i16) + dy;
                &&& final(self).cursor_x == if nx >= 0 { nx as u16 } else { old(self).cursor_x }
                &&& final(self).cursor_y == if ny >= 0 { ny as u16 } else { old(self).cursor_y }
            }),
            final(self).document == old(self).document,
            final(self).mode == old(self).mode,
            final(self).editor_area == old(self).editor_area,
            final(self).menu_items == old(self).menu_items,
            final(self).menu_selection == old(self).menu_selection,
            final(self).should_quit == old(self).should_quit,
    {
        let new_x: i16 = self.cursor_x as i16 + dx;
        let new_y: i16 = self.cursor_y as i16 + dy;
        if new_x >= 0 {
            self.cursor_x = new_x as u16;
        }
        if new_y >= 0 {
            self.cursor_y = new_y as u16;
        }
    }
}

} // verus!
