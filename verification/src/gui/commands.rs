use vstd::prelude::*;
use crate::engine::app::App;
use crate::engine::app::editor::matching_lines;
use crate::explorer::{Explorer, file_name_of, is_parent_of, is_parent_path, path_file_name};

verus! {

/// An explorer entry as the graphical front end lists it.
pub struct FileNode {
    pub name: String,
    pub path: String,
    pub is_dir: bool,
}

/// The name the graphical front end gives `item` of the directory `current`: `..` for the
/// parent, else its last component.
pub open spec fn node_name(item: Seq<char>, current: Seq<char>) -> Seq<char> {
    if is_parent_of(item, current) {
        ".."@
    } else {
        file_name_of(item)
    }
}

/// The explorer's entries with their names, given which of them are directories.
pub fn get_explorer_items(explorer: &Explorer, is_dir: &Vec<bool>) -> (nodes: Vec<FileNode>)
    requires
        is_dir@.len() == explorer.items@.len(),
    ensures
        nodes@.len() == explorer.items@.len(),
        forall|i: int| 0 <= i < nodes@.len() ==> {
            &&& (#[trigger] nodes@[i]).name@ == node_name(explorer.items@[i]@, explorer.current_path@)
            &&& nodes@[i].path@ == explorer.items@[i]@
            &&& nodes@[i].is_dir == is_dir@[i]
        },
{
    let mut nodes: Vec<FileNode> = Vec::new();
    for i in 0..explorer.items.len()
        invariant
            is_dir@.len() == explorer.items@.len(),
            nodes@.len() == i,
            forall|j: int| 0 <= j < i ==> {
                &&& (#[trigger] nodes@[j]).name@ == node_name(explorer.items@[j]@, explorer.current_path@)
                &&& nodes@[j].path@ == explorer.items@[j]@
                &&& nodes@[j].is_dir == is_dir@[j]
            },
    {
        let path = &explorer.items[i];
        let name = if is_parent_path(path.as_str(), explorer.current_path.as_str()) {
            String::from_str("..")
        } else {
            path_file_name(path.as_str())
        };
        nodes.push(FileNode { name, path: path.clone(), is_dir: is_dir[i] });
    }
    nodes
}

/// The indices of the document's lines that hold `pattern`, in ascending order.
pub fn search_in_file(app: &App, pattern: &str) -> (r: Vec<usize>)
    ensures
        r@ == matching_lines(app@.lines, pattern@),
{
    app.find_line(pattern)
}

} // verus!
