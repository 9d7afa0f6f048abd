use vstd::prelude::*;
use crate::engine::app::App;
use crate::text::texts;

verus! {

/// The settings list: each setting with `[X]` when on and `[ ]` when off.
pub open spec fn settings_labels(line_numbers: bool, status_bar: bool, help_bar: bool, highlight: bool) -> Seq<Seq<char>> {
    seq![
        if line_numbers { "[X] Show Line Numbers"@ } else { "[ ] Show Line Numbers"@ },
        if status_bar { "[X] Show Status Bar"@ } else { "[ ] Show Status Bar"@ },
        if help_bar { "[X] Show Help Bar"@ } else { "[ ] Show Help Bar"@ },
        if highlight { "[X] Highlight Active Line"@ } else { "[ ] Highlight Active Line"@ },
    ]
}

/// An entry of a popup list: marked with `> ` when selected, indented by two spaces otherwise.
pub open spec fn list_entry(text: Seq<char>, selected: bool) -> Seq<char> {
    if selected {
        "> "@ + text
    } else {
        "  "@ + text
    }
}

/// The labels of the settings list.
pub fn settings_options(app: &App) -> (r: Vec<String>)
    ensures
        texts(r@) == settings_labels(
            app.config.show_line_numbers,
            app.config.show_status_bar,
            app.config.show_help_bar,
            app.config.highlight_active_line,
        ),
{
    let mut r: Vec<String> = Vec::new();
    r.push(String::from_str(if app.config.show_line_numbers { "[X] Show Line Numbers" } else { "[ ] Show Line Numbers" }));
    r.push(String::from_str(if app.config.show_status_bar { "[X] Show Status Bar" } else { "[ ] Show Status Bar" }));
    r.push(String::from_str(if app.config.show_help_bar { "[X] Show Help Bar" } else { "[ ] Show Help Bar" }));
    r.push(String::from_str(if app.config.highlight_active_line { "[X] Highlight Active Line" } else { "[ ] Highlight Active Line" }));
    assert(texts(r@) =~= settings_labels(
        app.config.show_line_numbers,
        app.config.show_status_bar,
        app.config.show_help_bar,
        app.config.highlight_active_line,
    ));
    r
}

/// An entry of a popup list, marked when selected.
pub fn list_line(text: &str, selected: bool) -> (r: String)
    ensures
        r@ == list_entry(text@, selected),
{
    let mut r = String::from_str(if selected { "> " } else { "  " });
    r.append(text);
    r
}

} // verus!
