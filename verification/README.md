# texteditor

A terminal text editor with a file explorer, written as a verified library and a thin
program around it.

- `src/` is the library, verified with Verus. Each state change of the editor is stated
  over a plain-value view of its state (`AppView` for the editor in `engine::app`,
  `AppState` for the one in `tui::app`), and `src/laws.rs` proves the properties that span
  several operations (undo, history limit, backspace after typing, round trips of the
  menus and settings, reading back a saved file, keeping the cursor in view).
  - `text`: UTF-8 byte offsets of texts, line splitting and joining, ordering, numbers.
  - `engine`: the document, the settings and the editor with undo history, selection and
    paste.
  - `tui`: key and mouse handling (returning the work left to the caller as an `Effect`),
    the texts and positions the screen shows, and the layout of popups.
  - `explorer`, `gui`, `model`, `monitor`, `app`, `document`: the directory listing, the
    commands of the graphical front end, resource readings and the first editor.
- `app/` is the program: argument handling, the terminal loop, file system and clipboard
  access, drawing with ratatui, and the resource readings with their floating-point values.
- `tests/` runs the library on concrete inputs.
