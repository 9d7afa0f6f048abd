use vstd::prelude::*;

verus! {

/// What the editor shows.
pub struct AppConfig {
    pub show_line_numbers: bool,
    pub show_status_bar: bool,
    pub show_help_bar: bool,
    pub highlight_active_line: bool,
}

impl AppConfig {
    /// Line numbers, status bar and help bar on; active-line highlight off.
    pub fn new() -> (c: Self)
        ensures
            c.show_line_numbers,
            c.show_status_bar,
            c.show_help_bar,
            !c.highlight_active_line,
    {
        Self {
            show_line_numbers: true,
            show_status_bar: true,
            show_help_bar: true,
            highlight_active_line: false,
        }
    }
}

} // verus!
