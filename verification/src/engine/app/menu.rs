use vstd::prelude::*;
use crate::engine::app::{App, AppMode, AppView, Effect, EffectView, ModeView, effect_view};

verus! {

impl AppView {
    /// Esc: from the editor to the main menu; from any other mode back to the editor.
    pub open spec fn toggle_menu(self) -> AppView {
        AppView { mode: if self.mode is Editor { ModeView::Menu } else { ModeView::Editor }, ..self }
    }

    /// The menu selection one up, from the first entry round to the last.
    pub open spec fn menu_up(self) -> AppView {
        AppView {
            menu_selection: if self.menu_selection > 0 {
                (self.menu_selection - 1) as usize
            } else {
                (self.menu.len() - 1) as usize
            },
            ..self
        }
    }

    /// The menu selection one down, from the last entry round to the first.
    pub open spec fn menu_down(self) -> AppView {
        AppView {
            menu_selection: if self.menu_selection < self.menu.len() - 1 {
                (self.menu_selection + 1) as usize
            } else {
                0
            },
            ..self
        }
    }

    /// The selected menu entry run: 0 asks for a new file's name, 1 for a new directory's,
    /// 2 saves and goes back to the editor, 3 opens the settings on their first entry, 4 quits;
    /// any other selection does nothing.
    pub open spec fn execute_menu_action(self) -> AppView {
        if self.menu_selection == 0 {
            AppView { mode: ModeView::PromptFile(Seq::<char>::empty()), ..self }
        } else if self.menu_selection == 1 {
            AppView { mode: ModeView::PromptDir(Seq::<char>::empty()), ..self }
        } else if self.menu_selection == 2 {
            AppView { mode: ModeView::Editor, ..self }
        } else if self.menu_selection == 3 {
            AppView { mode: ModeView::Settings(0), ..self }
        } else if self.menu_selection == 4 {
            AppView { should_quit: true, ..self }
        } else {
            self
        }
    }

    /// What running the selected menu entry leaves to the caller: saving for entry 2.
    pub open spec fn menu_action_effect(self) -> EffectView {
        if self.menu_selection == 2 {
            EffectView::Save
        } else {
            EffectView::Nothing
        }
    }

    /// In the settings, the selection one up, from the first entry round to the last.
    pub open spec fn settings_up(self) -> AppView {
        match self.mode {
            ModeView::Settings(s) => AppView {
                mode: ModeView::Settings(if s > 0 { (s - 1) as usize } else { 3 }),
                ..self
            },
            _ => self,
        }
    }

    /// In the settings, the selection one down, from the last entry round to the first.
    pub open spec fn settings_down(self) -> AppView {
        match self.mode {
            ModeView::Settings(s) => AppView {
                mode: ModeView::Settings(if s < 3 { (s + 1) as usize } else { 0 }),
                ..self
            },
            _ => self,
        }
    }

    /// In the settings, the selected setting flipped: 0 line numbers, 1 status bar, 2 help bar,
    /// 3 highlight of the active line.
    pub open spec fn toggle_setting(self) -> AppView {
        AppView {
            show_line_numbers: self.show_line_numbers != (self.mode == ModeView::Settings(0)),
            show_status_bar: self.show_status_bar != (self.mode == ModeView::Settings(1)),
            show_help_bar: self.show_help_bar != (self.mode == ModeView::Settings(2)),
            highlight_active_line: self.highlight_active_line != (self.mode == ModeView::Settings(3)),
            ..self
        }
    }
}

impl App {
    /// Esc: opens the main menu from the editor; from any other mode goes back to the editor.
    pub fn toggle_menu(&mut self)
        ensures
            final(self)@ == old(self)@.toggle_menu(),
    {
        match self.mode {
            AppMode::Editor => self.mode = AppMode::Menu,
            AppMode::Menu => self.mode = AppMode::Editor,
            _ => self.mode = AppMode::Editor,
        }
    }

    /// Moves the menu selection up, from the first entry round to the last.
    pub fn menu_up(&mut self)
        requires
            old(self).menu_selection > 0 || old(self).menu_items@.len() >= 1,
        ensures
            final(self)@ == old(self)@.menu_up(),
    {
        if self.menu_selection > 0 {
            self.menu_selection -= 1;
        } else {
            self.menu_selection = self.menu_items.len() - 1;
        }
    }

    /// Moves the menu selection down, from the last entry round to the first.
    pub fn menu_down(&mut self)
        requires
            old(self).menu_items@.len() >= 1,
        ensures
            final(self)@ == old(self)@.menu_down(),
    {
        if self.menu_selection < self.menu_items.len() - 1 {
            self.menu_selection += 1;
        } else {
            self.menu_selection = 0;
        }
    }

    /// Runs the selected menu entry (see `AppView::execute_menu_action`); saving is left to the
    /// caller.
    pub fn execute_menu_action(&mut self) -> (effect: Effect)
        ensures
            final(self)@ == old(self)@.execute_menu_action(),
            effect_view(effect) == old(self)@.menu_action_effect(),
    {
        match self.menu_selection {
            0 => {
                self.mode = AppMode::PromptFile(String::new());
                Effect::Nothing
            },
            1 => {
                self.mode = AppMode::PromptDir(String::new());
                Effect::Nothing
            },
            2 => {
                self.mode = AppMode::Editor;
                Effect::Save
            },
            3 => {
                self.mode = AppMode::Settings(0);
                Effect::Nothing
            },
            4 => {
                self.should_quit = true;
                Effect::Nothing
            },
            _ => Effect::Nothing,
        }
    }

    /// In the settings, moves the selection up, from the first entry round to the last.
    pub fn settings_up(&mut self)
        ensures
            final(self)@ == old(self)@.settings_up(),
    {
        if let AppMode::Settings(selection) = self.mode {
            self.mode = AppMode::Settings(if selection > 0 { selection - 1 } else { 3 });
        }
    }

    /// In the settings, moves the selection down, from the last entry round to the first.
    pub fn settings_down(&mut self)
        ensures
            final(self)@ == old(self)@.settings_down(),
    {
        if let AppMode::Settings(selection) = self.mode {
            self.mode = AppMode::Settings(if selection < 3 { selection + 1 } else { 0 });
        }
    }

    /// In the settings, flips the selected setting (see `AppView::toggle_setting`).
    pub fn toggle_setting(&mut self)
        ensures
            final(self)@ == old(self)@.toggle_setting(),
    {
        if let AppMode::Settings(selection) = self.mode {
            match selection {
                0 => self.config.show_line_numbers = !self.config.show_line_numbers,
                1 => self.config.show_status_bar = !self.config.show_status_bar,
                2 => self.config.show_help_bar = !self.config.show_help_bar,
                3 => self.config.highlight_active_line = !self.config.highlight_active_line,
                _ => {},
            }
        }
    }
}

} // verus!
