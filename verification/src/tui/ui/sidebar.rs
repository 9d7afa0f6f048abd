use vstd::prelude::*;
use crate::engine::app::AppFocus;
use crate::explorer::{file_name_of, is_parent_of, is_parent_path, path_file_name};

verus! {

/// The title of the explorer pane.
pub open spec fn explorer_title_text(f: AppFocus) -> Seq<char> {
    if f == AppFocus::Explorer {
        " Explorer (FOCUSED) "@
    } else {
        " Explorer "@
    }
}

/// How the explorer lists `item` of the directory `current`: the parent as `[..]`, a directory
/// as its name in brackets, a file as its name.
pub open spec fn shown_name(item: Seq<char>, current: Seq<char>, is_dir: bool) -> Seq<char> {
    if is_parent_of(item, current) {
        "[..]"@
    } else if is_dir {
        "["@ + file_name_of(item) + "]"@
    } else {
        file_name_of(item)
    }
}

/// The title of the explorer pane.
pub fn explorer_title(focus: AppFocus) -> (s: &'static str)
    ensures
        s@ == explorer_title_text(focus),
{
    match focus {
        AppFocus::Explorer => " Explorer (FOCUSED) ",
        _ => " Explorer ",
    }
}

/// How the explorer lists `item` of the directory `current` (see `shown_name`).
pub fn display_name(item: &str, current: &str, is_dir: bool) -> (r: String)
    ensures
        r@ == shown_name(item@, current@, is_dir),
{
    if is_parent_path(item, current) {
        String::from_str("[..]")
    } else if is_dir {
        let mut r = String::from_str("[");
        r.append(path_file_name(item).as_str());
        r.append("]");
        r
    } else {
        path_file_name(item)
    }
}

} // verus!
