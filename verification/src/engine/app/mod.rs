pub mod cursor;
pub mod editor;
pub mod menu;

use vstd::prelude::*;
use crate::engine::config::AppConfig;
use crate::engine::document::Document;
use crate::explorer::Explorer;
use crate::text::texts;
use crate::tui::ui::layout_helpers::Rect;

verus! {

/// What the editor is doing: editing, showing the main menu or the settings (with the
/// selected setting), or reading the name of a new file or directory.
pub enum AppMode {
    Editor,
    Menu,
    Settings(usize),
    PromptFile(String),
    PromptDir(String),
}

/// Which pane takes the keys.
#[derive(Clone, Copy, Debug, PartialEq, Eq, Structural)]
pub enum AppFocus {
    Explorer,
    Editor,
}

/// Work that a step of the editor leaves to its caller, which talks to the file system and
/// the clipboard.
pub enum Effect {
    /// Nothing to do.
    Nothing,
    /// Write the document to its file.
    Save,
    /// Create an empty file of this name in the explorer's directory, then list it again.
    CreateFile(String),
    /// Create a directory of this name in the explorer's directory, then list it again.
    CreateDir(String),
    /// Open this explorer entry: list it when it is a directory, else edit the file.
    Open(String),
    /// Put this text on the clipboard.
    Copy(String),
    /// Paste the clipboard's text.
    Paste,
}

/// A saved editor state: the lines and the cursor.
pub type Snapshot = (Vec<String>, u16, u16);

/// The most snapshots the undo history keeps.
pub const HISTORY_LIMIT: usize = 50;

/// The lines and cursor of a snapshot.
pub open spec fn snapshot_view(e: Snapshot) -> (Seq<Seq<char>>, u16, u16) {
    (texts(e.0@), e.1, e.2)
}

/// The undo history as lines and cursors, oldest first.
pub open spec fn history_view(h: Seq<Snapshot>) -> Seq<(Seq<Seq<char>>, u16, u16)> {
    h.map_values(|e: Snapshot| snapshot_view(e))
}

/// The state of the editor.
pub struct App {
    pub document: Document,
    pub explorer: Explorer,
    pub config: AppConfig,
    pub cursor_x: u16,
    pub cursor_y: u16,
    pub scroll_x: u16,
    pub scroll_y: u16,
    pub selection_start: Option<(u16, u16)>,
    pub history: Vec<Snapshot>,
    pub editor_area: Rect,
    pub explorer_area: Rect,
    pub mode: AppMode,
    pub focus: AppFocus,
    pub menu_items: Vec<String>,
    pub menu_selection: usize,
    pub should_quit: bool,
}

/// What the editor is doing, with the texts of the prompts.
pub enum ModeView {
    Editor,
    Menu,
    Settings(usize),
    PromptFile(Seq<char>),
    PromptDir(Seq<char>),
}

/// The mode as plain values.
pub open spec fn mode_view(m: AppMode) -> ModeView {
    match m {
        AppMode::Editor => ModeView::Editor,
        AppMode::Menu => ModeView::Menu,
        AppMode::Settings(s) => ModeView::Settings(s),
        AppMode::PromptFile(s) => ModeView::PromptFile(s@),
        AppMode::PromptDir(s) => ModeView::PromptDir(s@),
    }
}

/// Work left to the caller, as plain values.
pub enum EffectView {
    Nothing,
    Save,
    CreateFile(Seq<char>),
    CreateDir(Seq<char>),
    Open(Seq<char>),
    Copy(Seq<char>),
    Paste,
}

/// The effect as plain values.
pub open spec fn effect_view(e: Effect) -> EffectView {
    match e {
        Effect::Nothing => EffectView::Nothing,
        Effect::Save => EffectView::Save,
        Effect::CreateFile(s) => EffectView::CreateFile(s@),
        Effect::CreateDir(s) => EffectView::CreateDir(s@),
        Effect::Open(s) => EffectView::Open(s@),
        Effect::Copy(s) => EffectView::Copy(s@),
        Effect::Paste => EffectView::Paste,
    }
}

/// The explorer as plain values.
pub struct ExplorerView {
    pub path: Seq<char>,
    pub items: Seq<Seq<char>>,
    pub selected: usize,
}

impl ExplorerView {
    /// The selection one entry down, unless on the last entry.
    pub open spec fn next(self) -> ExplorerView {
        ExplorerView {
            selected: if self.selected < crate::explorer::last_index(self.items.len() as int) {
                (self.selected + 1) as usize
            } else {
                self.selected
            },
            ..self
        }
    }

    /// The selection one entry up, unless on the first entry.
    pub open spec fn previous(self) -> ExplorerView {
        ExplorerView {
            selected: if self.selected > 0 {
                (self.selected - 1) as usize
            } else {
                0
            },
            ..self
        }
    }
}

/// The explorer as plain values.
pub open spec fn explorer_view(e: Explorer) -> ExplorerView {
    ExplorerView { path: e.current_path@, items: texts(e.items@), selected: e.selected }
}

/// The whole editor state as plain values.
#[verifier::ext_equal]
pub struct AppView {
    pub lines: Seq<Seq<char>>,
    pub path: Option<Seq<char>>,
    pub explorer: ExplorerView,
    pub show_line_numbers: bool,
    pub show_status_bar: bool,
    pub show_help_bar: bool,
    pub highlight_active_line: bool,
    pub cursor_x: u16,
    pub cursor_y: u16,
    pub scroll_x: u16,
    pub scroll_y: u16,
    pub selection_start: Option<(u16, u16)>,
    pub hist: Seq<(Seq<Seq<char>>, u16, u16)>,
    pub editor_area: Rect,
    pub explorer_area: Rect,
    pub mode: ModeView,
    pub focus: AppFocus,
    pub menu: Seq<Seq<char>>,
    pub menu_selection: usize,
    pub should_quit: bool,
}

impl AppView {
    /// Editing the document of `lines` read from `path`: cursor and view at its start, the
    /// editor taking the keys.
    pub open spec fn open_document(self, lines: Seq<Seq<char>>, path: Option<Seq<char>>) -> AppView {
        AppView {
            lines,
            path,
            cursor_x: 0,
            cursor_y: 0,
            scroll_x: 0,
            scroll_y: 0,
            focus: AppFocus::Editor,
            ..self
        }
    }

    /// The state that every step keeps: the document has a line, the history holds at most
    /// `HISTORY_LIMIT` snapshots, each with a line, and the menu has its five entries.
    pub open spec fn wf(self) -> bool {
        &&& self.lines.len() >= 1
        &&& self.hist.len() <= HISTORY_LIMIT
        &&& forall|i: int| 0 <= i < self.hist.len() ==> (#[trigger] self.hist[i]).0.len() >= 1
        &&& self.menu.len() == 5
    }
}

/// The path of a document as plain values.
pub open spec fn path_view(p: Option<String>) -> Option<Seq<char>> {
    match p {
        Some(s) => Some(s@),
        None => None,
    }
}

impl View for App {
    type V = AppView;

    open spec fn view(&self) -> AppView {
        AppView {
            lines: self.document.text(),
            path: path_view(self.document.path),
            explorer: explorer_view(self.explorer),
            show_line_numbers: self.config.show_line_numbers,
            show_status_bar: self.config.show_status_bar,
            show_help_bar: self.config.show_help_bar,
            highlight_active_line: self.config.highlight_active_line,
            cursor_x: self.cursor_x,
            cursor_y: self.cursor_y,
            scroll_x: self.scroll_x,
            scroll_y: self.scroll_y,
            selection_start: self.selection_start,
            hist: history_view(self.history@),
            editor_area: self.editor_area,
            explorer_area: self.explorer_area,
            mode: mode_view(self.mode),
            focus: self.focus,
            menu: texts(self.menu_items@),
            menu_selection: self.menu_selection,
            should_quit: self.should_quit,
        }
    }
}

/// The entries of the main menu.
pub open spec fn menu_entries() -> Seq<Seq<char>> {
    seq!["New File"@, "New Directory"@, "Save"@, "Settings"@, "Exit"@]
}

impl App {
    /// The lines of the document.
    pub open spec fn lines(&self) -> Seq<Seq<char>> {
        self.document.text()
    }

    /// The undo history as lines and cursors.
    pub open spec fn hist(&self) -> Seq<(Seq<Seq<char>>, u16, u16)> {
        history_view(self.history@)
    }

    /// The state that every step keeps (see `AppView::wf`).
    pub open spec fn wf(&self) -> bool {
        self@.wf()
    }

    /// A fresh editor on an untitled empty document, with `explorer` in the side pane, which
    /// has the keys.
    pub fn new(explorer: Explorer) -> (app: Self)
        ensures
            app.wf(),
            app.lines() == seq![Seq::<char>::empty()],
            app.document.path is None,
            app.explorer == explorer,
            app.config.show_line_numbers && app.config.show_status_bar && app.config.show_help_bar,
            !app.config.highlight_active_line,
            app.cursor_x == 0 && app.cursor_y == 0 && app.scroll_x == 0 && app.scroll_y == 0,
            app.selection_start is None,
            app.history@.len() == 0,
            app.editor_area == (Rect { x: 0, y: 0, width: 0, height: 0 }),
            app.explorer_area == (Rect { x: 0, y: 0, width: 0, height: 0 }),
            app.mode is Editor,
            app.focus == AppFocus::Explorer,
            texts(app.menu_items@) == menu_entries(),
            app.menu_selection == 0,
            !app.should_quit,
    {
        let mut menu_items: Vec<String> = Vec::new();
        menu_items.push(String::from_str("New File"));
        menu_items.push(String::from_str("New Directory"));
        menu_items.push(String::from_str("Save"));
        menu_items.push(String::from_str("Settings"));
        menu_items.push(String::from_str("Exit"));
        assert(texts(menu_items@) =~= menu_entries());
        let document = Document::new();
        assert(document.rows@.len() == document.text().len());
        Self {
            document,
            explorer,
            config: AppConfig::new(),
            cursor_x: 0,
            cursor_y: 0,
            scroll_x: 0,
            scroll_y: 0,
            selection_start: None,
            history: Vec::new(),
            editor_area: Rect::default(),
            explorer_area: Rect::default(),
            mode: AppMode::Editor,
            focus: AppFocus::Explorer,
            menu_items,
            menu_selection: 0,
            should_quit: false,
        }
    }

    /// Edits `doc`: the cursor and the view go to its start and the editor takes the keys.
    pub fn open_document(&mut self, doc: Document)
        ensures
            final(self)@ == old(self)@.open_document(doc.text(), path_view(doc.path)),
            old(self).wf() && doc.rows@.len() >= 1 ==> final(self).wf(),
    {
        self.document = doc;
        self.cursor_x = 0;
        self.cursor_y = 0;
        self.scroll_x = 0;
        self.scroll_y = 0;
        self.focus = AppFocus::Editor;
    }
}

} // verus!
